use crate::byte_order::ByteOrder;
use crate::codec::decode;
use crate::codec::encode;
use crate::codec::spec_decode;
use crate::codec::spec_encode;
use crate::codec::DecodeError;
use crate::codec::EncodeError;
use crate::layout::copy_field;
use crate::layout::lemma_text_len;
use crate::layout::scan_text;
use crate::layout::text_len;
use crate::layout::EVENT_SIZE;
use crate::record::CreateRequest;
use crate::record::CreateRequestView;
use crate::record::Record;
use crate::record::RecordView;
use crate::record::DATA_MAX;
use crate::record::NAME_MAX;
use vstd::prelude::*;

verus! {

/// How far the life of the emulated device has come.
#[derive(Clone, Copy, Debug, PartialEq, Eq, Structural)]
pub enum Phase {
    /// The channel is open; the device is not registered yet.
    Opened,
    /// The device is registered; input can be submitted.
    Created,
    /// The device was released.
    Destroyed,
}

/// What the kernel is told of the device when it is registered.
#[derive(Clone, Debug, PartialEq, Eq)]
pub struct DeviceIdentity {
    /// The name of the device.
    pub name: Vec<u8>,
    /// The bus type.
    pub bus: u32,
    /// The vendor id.
    pub vendor: u16,
    /// The product id.
    pub product: u16,
    /// The version of the device.
    pub version: u32,
    /// The country code.
    pub country: u32,
}

/// What a `DeviceIdentity` holds.
pub struct DeviceIdentityView {
    pub name: Seq<u8>,
    pub bus: u32,
    pub vendor: u16,
    pub product: u16,
    pub version: u32,
    pub country: u32,
}

impl View for DeviceIdentity {
    type V = DeviceIdentityView;

    open spec fn view(&self) -> DeviceIdentityView {
        DeviceIdentityView {
            name: self.name@,
            bus: self.bus,
            vendor: self.vendor,
            product: self.product,
            version: self.version,
            country: self.country,
        }
    }
}

/// A write to the channel that did not take a whole frame.
#[derive(Clone, Copy, Debug, PartialEq, Eq, Structural)]
pub struct ShortWrite {
    /// The bytes that the channel took.
    pub written: usize,
    /// The bytes of a frame.
    pub expected: usize,
}

/// `name` as a frame carries it: cut before its first zero byte, and after `NAME_MAX` bytes.
pub open spec fn fitted_name(name: Seq<u8>) -> Seq<u8> {
    if text_len(name) <= NAME_MAX {
        name.take(text_len(name) as int)
    } else {
        name.take(NAME_MAX as int)
    }
}

/// The record that registers a device of this identity with this descriptor.
pub open spec fn create_record(identity: DeviceIdentityView, descriptor: Seq<u8>) -> RecordView {
    RecordView::Create(
        CreateRequestView {
            name: fitted_name(identity.name),
            descriptor,
            bus: identity.bus,
            vendor: identity.vendor,
            product: identity.product,
            version: identity.version,
            country: identity.country,
        },
    )
}

/// A fitted name has room for its terminator and holds no zero byte, and a name that had
/// both already is kept as it is.
pub proof fn lemma_fitted_name(name: Seq<u8>)
    ensures
        fitted_name(name).len() <= NAME_MAX,
        fitted_name(name).len() <= name.len(),
        forall|i: int| 0 <= i < fitted_name(name).len() ==> fitted_name(name)[i] == name[i],
        forall|i: int| 0 <= i < fitted_name(name).len() ==> fitted_name(name)[i] != 0,
        name.len() <= NAME_MAX && (forall|i: int| 0 <= i < name.len() ==> name[i] != 0)
            ==> fitted_name(name) == name,
{
    lemma_text_len(name);
    if name.len() <= NAME_MAX && (forall|i: int| 0 <= i < name.len() ==> name[i] != 0) {
        crate::layout::lemma_text_len_is(name, name.len());
        assert(fitted_name(name) =~= name);
    }
}

/// The record that registers a device is valid whenever its descriptor is short enough.
pub proof fn lemma_create_record_wf(identity: DeviceIdentityView, descriptor: Seq<u8>)
    requires
        descriptor.len() <= DATA_MAX,
    ensures
        create_record(identity, descriptor).wf(),
{
    lemma_fitted_name(identity.name);
}

/// What a session sends can be read: the frame that registers a device, the frame of an
/// input report and the frame that releases the device are each read back as the record
/// that they were built from.
pub proof fn lemma_sent_frames_are_read(
    identity: DeviceIdentityView,
    descriptor: Seq<u8>,
    report: Seq<u8>,
    order: ByteOrder,
)
    requires
        descriptor.len() <= DATA_MAX,
        report.len() <= DATA_MAX,
    ensures
        spec_decode(spec_encode(create_record(identity, descriptor), order), order) == Ok::<
            RecordView,
            DecodeError,
        >(create_record(identity, descriptor)),
        spec_decode(spec_encode(RecordView::Input(report), order), order) == Ok::<
            RecordView,
            DecodeError,
        >(RecordView::Input(report)),
        spec_decode(spec_encode(RecordView::Destroy, order), order) == Ok::<
            RecordView,
            DecodeError,
        >(RecordView::Destroy),
{
    lemma_create_record_wf(identity, descriptor);
    crate::codec::lemma_round_trip(create_record(identity, descriptor), order);
    crate::codec::lemma_round_trip(RecordView::Input(report), order);
    crate::codec::lemma_round_trip(RecordView::Destroy, order);
}

/// Cuts `name` before its first zero byte, and after `NAME_MAX` bytes.
pub fn fit_name(name: &[u8]) -> (fitted: Vec<u8>)
    ensures
        fitted@ == fitted_name(name@),
        fitted@.len() <= NAME_MAX,
{
    assert(name@.subrange(0, name@.len() as int) =~= name@);
    let text: usize = scan_text(name, 0, name.len());
    let keep: usize = if text <= NAME_MAX {
        text
    } else {
        NAME_MAX
    };
    let fitted = copy_field(name, 0, keep);
    assert(fitted@ =~= fitted_name(name@));
    fitted
}

/// Whether a write that took `written` bytes took a whole frame. A write that took fewer,
/// or more, is an error of the transport: it is reported, and the frame is not sent again.
pub fn confirm_write(written: usize) -> (result: Result<(), ShortWrite>)
    ensures
        result is Ok <==> written == EVENT_SIZE,
        result matches Err(error) ==> error == (ShortWrite { written, expected: EVENT_SIZE }),
{
    if written == EVENT_SIZE {
        Ok(())
    } else {
        Err(ShortWrite { written, expected: EVENT_SIZE })
    }
}

/// The protocol side of one channel to the virtual device: it says which frame to send
/// next and reads the frames that arrive, and it keeps the order of the device's life,
/// create, then input and output, then destroy. The owner of the channel sends and receives.
#[derive(Debug, PartialEq, Eq)]
pub struct Session {
    phase: Phase,
    order: ByteOrder,
}

impl Session {
    /// How far the life of the device has come.
    pub closed spec fn spec_phase(&self) -> Phase {
        self.phase
    }

    /// The byte order of the integer fields of the frames.
    pub closed spec fn spec_order(&self) -> ByteOrder {
        self.order
    }

    /// A session on a channel that was just opened, with the integer fields in `order`.
    pub fn new(order: ByteOrder) -> (session: Session)
        ensures
            session.spec_phase() == Phase::Opened,
            session.spec_order() == order,
    {
        Session { phase: Phase::Opened, order }
    }

    /// How far the life of the device has come.
    #[verifier::when_used_as_spec(spec_phase)]
    pub fn phase(&self) -> (phase: Phase)
        ensures
            phase == self.spec_phase(),
    {
        self.phase
    }

    /// The byte order of the integer fields of the frames.
    #[verifier::when_used_as_spec(spec_order)]
    pub fn order(&self) -> (order: ByteOrder)
        ensures
            order == self.spec_order(),
    {
        self.order
    }

    /// Registers the device: gives the frame of the `Create` record with this descriptor and
    /// identity, the name fitted to its field. To be called once, before any input. Fails,
    /// and leaves the session as it was, for a descriptor of more than `DATA_MAX` bytes.
    pub fn create(&mut self, descriptor: &[u8], identity: &DeviceIdentity) -> (result: Result<
        Vec<u8>,
        EncodeError,
    >)
        requires
            old(self).phase() == Phase::Opened,
        ensures
            final(self).order() == old(self).order(),
            match result {
                Ok(frame) => {
                    &&& descriptor@.len() <= DATA_MAX
                    &&& frame@ == spec_encode(
                        create_record(identity@, descriptor@),
                        old(self).order(),
                    )
                    &&& frame@.len() == EVENT_SIZE
                    &&& final(self).phase() == Phase::Created
                },
                Err(error) => {
                    &&& descriptor@.len() > DATA_MAX
                    &&& error == EncodeError::DescriptorTooLong
                    &&& final(self).phase() == Phase::Opened
                },
            },
    {
        if descriptor.len() > DATA_MAX {
            return Err(EncodeError::DescriptorTooLong);
        }
        let record = Record::Create(
            CreateRequest {
                name: fit_name(identity.name.as_slice()),
                descriptor: copy_field(descriptor, 0, descriptor.len()),
                bus: identity.bus,
                vendor: identity.vendor,
                product: identity.product,
                version: identity.version,
                country: identity.country,
            },
        );
        proof {
            assert(descriptor@.subrange(0, descriptor@.len() as int) =~= descriptor@);
            assert(record@ == create_record(identity@, descriptor@));
        }
        match encode(&record, self.order) {
            Ok(frame) => {
                self.phase = Phase::Created;
                Ok(frame)
            },
            Err(error) => {
                proof {
                    assert(false);
                }
                Err(error)
            },
        }
    }

    /// Submits one input report: gives the frame of the `Input` record that holds `report`,
    /// the report id and then the bytes of the report. Fails for a report of more than
    /// `DATA_MAX` bytes.
    pub fn submit_input(&self, report: &[u8]) -> (result: Result<Vec<u8>, EncodeError>)
        requires
            self.phase() == Phase::Created,
        ensures
            match result {
                Ok(frame) => {
                    &&& report@.len() <= DATA_MAX
                    &&& frame@ == spec_encode(RecordView::Input(report@), self.order())
                    &&& frame@.len() == EVENT_SIZE
                },
                Err(error) => report@.len() > DATA_MAX && error == EncodeError::ReportTooLong,
            },
    {
        if report.len() > DATA_MAX {
            return Err(EncodeError::ReportTooLong);
        }
        let data = copy_field(report, 0, report.len());
        assert(report@.subrange(0, report@.len() as int) =~= report@);
        encode(&Record::Input(data), self.order)
    }

    /// Reads one frame that the channel delivered: the record that it holds.
    pub fn receive(&self, frame: &[u8]) -> (result: Result<Record, DecodeError>)
        ensures
            match result {
                Ok(record) => spec_decode(frame@, self.order()) == Ok::<RecordView, DecodeError>(
                    record@,
                ),
                Err(error) => spec_decode(frame@, self.order()) == Err::<RecordView, DecodeError>(
                    error,
                ),
            },
    {
        decode(frame, self.order)
    }

    /// Releases the device: gives the frame of the `Destroy` record. The session is over
    /// afterwards, whatever becomes of the frame.
    pub fn destroy(&mut self) -> (frame: Vec<u8>)
        ensures
            frame@ == spec_encode(RecordView::Destroy, old(self).order()),
            frame@.len() == EVENT_SIZE,
            final(self).phase() == Phase::Destroyed,
            final(self).order() == old(self).order(),
    {
        self.phase = Phase::Destroyed;
        match encode(&Record::Destroy, self.order) {
            Ok(frame) => frame,
            Err(_) => {
                proof {
                    assert(false);
                }
                Vec::new()
            },
        }
    }
}

} // verus!
