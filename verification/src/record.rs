use crate::kind::EventKind;
use crate::kind::MAX_TAG;
use vstd::prelude::*;

verus! {

/// The most bytes of a device name that a frame carries: one byte of the field is kept for
/// the terminator.
pub const NAME_MAX: usize = 127;

/// The most bytes that a report descriptor, or the data of a report, can have.
pub const DATA_MAX: usize = 4096;

/// The payload of a `Create` record: the identity of the device and its report descriptor.
#[derive(Clone, Debug, PartialEq, Eq)]
pub struct CreateRequest {
    /// The name of the device, as bytes without a terminator.
    pub name: Vec<u8>,
    /// The report descriptor, handed on as it is.
    pub descriptor: Vec<u8>,
    /// The bus type.
    pub bus: u32,
    /// The vendor id.
    pub vendor: u16,
    /// The product id.
    pub product: u16,
    /// The version of the device.
    pub version: u32,
    /// The country code.
    pub country: u32,
}

/// The payload of an `Output` record: a report that the kernel sends to the device.
#[derive(Clone, Debug, PartialEq, Eq)]
pub struct OutputReport {
    /// The report type.
    pub rtype: u8,
    /// The report: its id, then its bytes.
    pub data: Vec<u8>,
}

/// An event record: what one frame says.
#[derive(Clone, Debug, PartialEq, Eq)]
pub enum Record {
    /// Register the device.
    Create(CreateRequest),
    /// Release the device.
    Destroy,
    /// An input report: its id, then its bytes.
    Input(Vec<u8>),
    /// An output report from the kernel.
    Output(OutputReport),
    /// A record of a kind whose payload is not read: a notification of the kernel, or a
    /// kind that this device does not use.
    Signal(EventKind),
    /// A record whose tag names no kind; it carries the tag.
    Unknown(u32),
}

/// What a `CreateRequest` holds.
pub struct CreateRequestView {
    pub name: Seq<u8>,
    pub descriptor: Seq<u8>,
    pub bus: u32,
    pub vendor: u16,
    pub product: u16,
    pub version: u32,
    pub country: u32,
}

/// What an `OutputReport` holds.
pub struct OutputReportView {
    pub rtype: u8,
    pub data: Seq<u8>,
}

/// What a `Record` holds.
pub enum RecordView {
    Create(CreateRequestView),
    Destroy,
    Input(Seq<u8>),
    Output(OutputReportView),
    Signal(EventKind),
    Unknown(u32),
}

impl View for CreateRequest {
    type V = CreateRequestView;

    open spec fn view(&self) -> CreateRequestView {
        CreateRequestView {
            name: self.name@,
            descriptor: self.descriptor@,
            bus: self.bus,
            vendor: self.vendor,
            product: self.product,
            version: self.version,
            country: self.country,
        }
    }
}

impl View for OutputReport {
    type V = OutputReportView;

    open spec fn view(&self) -> OutputReportView {
        OutputReportView { rtype: self.rtype, data: self.data@ }
    }
}

impl View for Record {
    type V = RecordView;

    open spec fn view(&self) -> RecordView {
        match self {
            Record::Create(request) => RecordView::Create(request@),
            Record::Destroy => RecordView::Destroy,
            Record::Input(data) => RecordView::Input(data@),
            Record::Output(report) => RecordView::Output(report@),
            Record::Signal(kind) => RecordView::Signal(*kind),
            Record::Unknown(tag) => RecordView::Unknown(*tag),
        }
    }
}

/// Whether `kind` is one of those whose payload is read, and which therefore has a variant
/// of `Record` to itself.
pub open spec fn has_payload_variant(kind: EventKind) -> bool {
    kind == EventKind::Create || kind == EventKind::Destroy || kind == EventKind::Input || kind
        == EventKind::Output
}

impl CreateRequestView {
    /// The request fits a frame as it is: the name has room for its terminator and holds
    /// no zero byte, the descriptor is no longer than the kernel accepts.
    pub open spec fn wf(self) -> bool {
        &&& self.name.len() <= NAME_MAX
        &&& forall|i: int| 0 <= i < self.name.len() ==> self.name[i] != 0
        &&& self.descriptor.len() <= DATA_MAX
    }
}

impl RecordView {
    /// The tag at the head of the frame of this record.
    pub open spec fn tag(self) -> u32 {
        match self {
            RecordView::Create(_) => EventKind::Create.spec_tag(),
            RecordView::Destroy => EventKind::Destroy.spec_tag(),
            RecordView::Input(_) => EventKind::Input.spec_tag(),
            RecordView::Output(_) => EventKind::Output.spec_tag(),
            RecordView::Signal(kind) => kind.spec_tag(),
            RecordView::Unknown(tag) => tag,
        }
    }

    /// The kind of this record; `None` for a record with an unknown tag.
    pub open spec fn kind(self) -> Option<EventKind> {
        EventKind::spec_from_u32(self.tag())
    }

    /// The record is valid: it can be written to a frame, and the frame says all of it and
    /// nothing else. A name is short enough and free of zero bytes; a `Signal` is of a kind
    /// that has no variant to itself; an `Unknown` tag names no kind.
    pub open spec fn wf(self) -> bool {
        match self {
            RecordView::Create(request) => request.wf(),
            RecordView::Destroy => true,
            RecordView::Input(data) => data.len() <= DATA_MAX,
            RecordView::Output(report) => report.data.len() <= DATA_MAX,
            RecordView::Signal(kind) => !has_payload_variant(kind),
            RecordView::Unknown(tag) => tag > MAX_TAG,
        }
    }
}

impl Record {
    /// The tag at the head of the frame of this record.
    pub fn tag(&self) -> (tag: u32)
        ensures
            tag == self@.tag(),
    {
        match self {
            Record::Create(_) => EventKind::Create.tag(),
            Record::Destroy => EventKind::Destroy.tag(),
            Record::Input(_) => EventKind::Input.tag(),
            Record::Output(_) => EventKind::Output.tag(),
            Record::Signal(kind) => kind.tag(),
            Record::Unknown(tag) => *tag,
        }
    }

    /// The kind of this record; `None` for a record with an unknown tag.
    pub fn kind(&self) -> (kind: Option<EventKind>)
        ensures
            kind == self@.kind(),
    {
        EventKind::from_u32(self.tag())
    }
}

} // verus!
