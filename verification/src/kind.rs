use vstd::prelude::*;

verus! {

/// The kind of an event record: the meaning of the tag at the head of every frame.
#[derive(Clone, Copy, Debug, PartialEq, Eq, Structural)]
pub enum EventKind {
    /// Register the device (sent by the emulator).
    Create,
    /// Release the device (sent by the emulator).
    Destroy,
    /// The device was started by the kernel.
    Start,
    /// The device was stopped by the kernel.
    Stop,
    /// A consumer opened the device.
    Open,
    /// The last consumer closed the device.
    Close,
    /// An output report from the kernel.
    Output,
    /// An output event in the superseded form.
    OutputEv,
    /// An input report (sent by the emulator).
    Input,
    /// The kernel asks for a report.
    GetReport,
    /// The answer to `GetReport`.
    GetReportReply,
    /// Register the device, second form.
    Create2,
    /// An input report, second form.
    Input2,
    /// The kernel sets a report.
    SetReport,
    /// The answer to `SetReport`.
    SetReportReply,
}

/// The largest tag that names a kind.
pub const MAX_TAG: u32 = 14;

impl EventKind {
    /// The number that stands for this kind on the wire.
    pub open spec fn spec_tag(self) -> u32 {
        match self {
            EventKind::Create => 0,
            EventKind::Destroy => 1,
            EventKind::Start => 2,
            EventKind::Stop => 3,
            EventKind::Open => 4,
            EventKind::Close => 5,
            EventKind::Output => 6,
            EventKind::OutputEv => 7,
            EventKind::Input => 8,
            EventKind::GetReport => 9,
            EventKind::GetReportReply => 10,
            EventKind::Create2 => 11,
            EventKind::Input2 => 12,
            EventKind::SetReport => 13,
            EventKind::SetReportReply => 14,
        }
    }

    /// The kind that `tag` stands for, if it stands for one.
    pub open spec fn spec_from_u32(tag: u32) -> Option<EventKind> {
        if tag == 0 {
            Some(EventKind::Create)
        } else if tag == 1 {
            Some(EventKind::Destroy)
        } else if tag == 2 {
            Some(EventKind::Start)
        } else if tag == 3 {
            Some(EventKind::Stop)
        } else if tag == 4 {
            Some(EventKind::Open)
        } else if tag == 5 {
            Some(EventKind::Close)
        } else if tag == 6 {
            Some(EventKind::Output)
        } else if tag == 7 {
            Some(EventKind::OutputEv)
        } else if tag == 8 {
            Some(EventKind::Input)
        } else if tag == 9 {
            Some(EventKind::GetReport)
        } else if tag == 10 {
            Some(EventKind::GetReportReply)
        } else if tag == 11 {
            Some(EventKind::Create2)
        } else if tag == 12 {
            Some(EventKind::Input2)
        } else if tag == 13 {
            Some(EventKind::SetReport)
        } else if tag == 14 {
            Some(EventKind::SetReportReply)
        } else {
            None
        }
    }

    /// The name under which this kind is reported.
    pub open spec fn spec_name(self) -> Seq<char> {
        match self {
            EventKind::Create => "UHID_CREATE"@,
            EventKind::Destroy => "UHID_DESTROY"@,
            EventKind::Start => "UHID_START"@,
            EventKind::Stop => "UHID_STOP"@,
            EventKind::Open => "UHID_OPEN"@,
            EventKind::Close => "UHID_CLOSE"@,
            EventKind::Output => "UHID_OUTPUT"@,
            EventKind::OutputEv => "UHID_OUTPUT_EV"@,
            EventKind::Input => "UHID_INPUT"@,
            EventKind::GetReport => "UHID_GET_REPORT"@,
            EventKind::GetReportReply => "UHID_GET_REPORT_REPLY"@,
            EventKind::Create2 => "UHID_CREATE2"@,
            EventKind::Input2 => "UHID_INPUT2"@,
            EventKind::SetReport => "UHID_SET_REPORT"@,
            EventKind::SetReportReply => "UHID_SET_REPORT_REPLY"@,
        }
    }

    /// The number that stands for this kind on the wire.
    pub fn tag(self) -> (t: u32)
        ensures
            t == self.spec_tag(),
            t <= MAX_TAG,
    {
        match self {
            EventKind::Create => 0,
            EventKind::Destroy => 1,
            EventKind::Start => 2,
            EventKind::Stop => 3,
            EventKind::Open => 4,
            EventKind::Close => 5,
            EventKind::Output => 6,
            EventKind::OutputEv => 7,
            EventKind::Input => 8,
            EventKind::GetReport => 9,
            EventKind::GetReportReply => 10,
            EventKind::Create2 => 11,
            EventKind::Input2 => 12,
            EventKind::SetReport => 13,
            EventKind::SetReportReply => 14,
        }
    }

    /// Reads a tag: the one kind whose tag is `value`, or `None` where no kind has that tag.
    pub fn from_u32(value: u32) -> (kind: Option<EventKind>)
        ensures
            kind == Self::spec_from_u32(value),
            match kind {
                Some(k) => k.spec_tag() == value,
                None => value > MAX_TAG && forall|k: EventKind| k.spec_tag() != value,
            },
    {
        match value {
            0 => Some(EventKind::Create),
            1 => Some(EventKind::Destroy),
            2 => Some(EventKind::Start),
            3 => Some(EventKind::Stop),
            4 => Some(EventKind::Open),
            5 => Some(EventKind::Close),
            6 => Some(EventKind::Output),
            7 => Some(EventKind::OutputEv),
            8 => Some(EventKind::Input),
            9 => Some(EventKind::GetReport),
            10 => Some(EventKind::GetReportReply),
            11 => Some(EventKind::Create2),
            12 => Some(EventKind::Input2),
            13 => Some(EventKind::SetReport),
            14 => Some(EventKind::SetReportReply),
            _ => None,
        }
    }

    /// The name under which this kind is reported.
    pub fn name(self) -> (name: &'static str)
        ensures
            name@ == self.spec_name(),
    {
        match self {
            EventKind::Create => "UHID_CREATE",
            EventKind::Destroy => "UHID_DESTROY",
            EventKind::Start => "UHID_START",
            EventKind::Stop => "UHID_STOP",
            EventKind::Open => "UHID_OPEN",
            EventKind::Close => "UHID_CLOSE",
            EventKind::Output => "UHID_OUTPUT",
            EventKind::OutputEv => "UHID_OUTPUT_EV",
            EventKind::Input => "UHID_INPUT",
            EventKind::GetReport => "UHID_GET_REPORT",
            EventKind::GetReportReply => "UHID_GET_REPORT_REPLY",
            EventKind::Create2 => "UHID_CREATE2",
            EventKind::Input2 => "UHID_INPUT2",
            EventKind::SetReport => "UHID_SET_REPORT",
            EventKind::SetReportReply => "UHID_SET_REPORT_REPLY",
        }
    }
}

/// Every kind is read back from its own tag.
pub proof fn lemma_kind_of_own_tag(kind: EventKind)
    ensures
        kind.spec_tag() <= MAX_TAG,
        EventKind::spec_from_u32(kind.spec_tag()) == Some(kind),
{
}

/// A tag stands for a kind exactly when it is at most `MAX_TAG`, and then for the one kind
/// that has it.
pub proof fn lemma_tag_of_kind(tag: u32)
    ensures
        EventKind::spec_from_u32(tag) is Some <==> tag <= MAX_TAG,
        EventKind::spec_from_u32(tag) matches Some(k) ==> k.spec_tag() == tag,
{
}

/// The report type of a feature report.
pub const FEATURE_REPORT: u8 = 0;

/// The report type of an output report.
pub const OUTPUT_REPORT: u8 = 1;

/// The report type of an input report.
pub const INPUT_REPORT: u8 = 2;

} // verus!
