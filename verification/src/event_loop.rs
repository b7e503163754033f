use crate::codec::spec_decode;
use crate::codec::spec_encode;
use crate::codec::DecodeError;
use crate::control::Command;
use crate::kind::EventKind;
use crate::kind::OUTPUT_REPORT;
use crate::layout::EVENT_SIZE;
use crate::record::OutputReport;
use crate::record::OutputReportView;
use crate::record::Record;
use crate::record::RecordView;
use crate::session::Phase;
use crate::session::Session;
use crate::state::DeviceState;
use vstd::prelude::*;

verus! {

/// The report id under which the kernel sends the state of the LEDs.
pub const LED_REPORT_ID: u8 = 0x02;

/// The number of bytes of an LED report: the report id and one byte of flags.
pub const LED_REPORT_LEN: usize = 2;

/// The state of the LEDs, as an output report gives it.
#[derive(Clone, Copy, Debug, PartialEq, Eq, Structural)]
pub struct LedReport {
    /// The report id.
    pub report_id: u8,
    /// One bit for each LED that is lit.
    pub flags: u8,
}

/// What is to be said of one event; nothing that arrives goes unreported.
#[derive(Clone, Copy, Debug, PartialEq, Eq, Structural)]
pub enum Notice {
    /// An output report that sets the LEDs.
    Led(LedReport),
    /// A record of a known kind, to be reported by the name of the kind.
    Named(EventKind),
    /// A record with a tag that names no kind, to be reported with the tag.
    Unknown(u32),
    /// A frame that could not be read.
    Malformed(DecodeError),
    /// A character of the operator that is no command.
    InvalidInput(u8),
}

/// What the owner of the channel is to do after one event.
#[derive(Clone, Debug, PartialEq, Eq)]
pub enum Action {
    /// Write this frame, which holds an input report, to the channel.
    Submit(Vec<u8>),
    /// Report this.
    Log(Notice),
    /// Write this frame, which releases the device, to the channel, and stop waiting.
    Destroy(Vec<u8>),
}

/// What an `Action` holds.
pub enum ActionView {
    Submit(Seq<u8>),
    Log(Notice),
    Destroy(Seq<u8>),
}

impl View for Action {
    type V = ActionView;

    open spec fn view(&self) -> ActionView {
        match self {
            Action::Submit(frame) => ActionView::Submit(frame@),
            Action::Log(notice) => ActionView::Log(*notice),
            Action::Destroy(frame) => ActionView::Destroy(frame@),
        }
    }
}

/// Where the loop stands.
#[derive(Clone, Copy, Debug, PartialEq, Eq, Structural)]
pub enum LoopPhase {
    /// Waiting for the operator and for the device.
    Running,
    /// The operator asked to quit: the frame that releases the device was handed out, and
    /// no further event is waited for.
    QuitRequested,
    /// The device was released, or the attempt failed; the process ends.
    Terminated,
}

/// The LED report that an output report holds: it is one where the report type is that of
/// an output report, the report has two bytes, and the first is `LED_REPORT_ID`. The second
/// byte holds the flags.
pub open spec fn spec_parse_led(report: OutputReportView) -> Option<LedReport> {
    if report.rtype == OUTPUT_REPORT && report.data.len() == LED_REPORT_LEN && report.data[0]
        == LED_REPORT_ID {
        Some(LedReport { report_id: report.data[0], flags: report.data[1] })
    } else {
        None
    }
}

/// What is to be said of a record that arrived: an output report that sets the LEDs is
/// reported as such, any other record of a known kind by the name of its kind, and a
/// record of no known kind with its tag.
pub open spec fn spec_dispatch(record: RecordView) -> Notice {
    match record.kind() {
        None => Notice::Unknown(record.tag()),
        Some(kind) => match record {
            RecordView::Output(report) => match spec_parse_led(report) {
                Some(led) => Notice::Led(led),
                None => Notice::Named(kind),
            },
            _ => Notice::Named(kind),
        },
    }
}

/// What is to be said of a frame that arrived.
pub open spec fn spec_notice(frame: Seq<u8>, session: &Session) -> Notice {
    match spec_decode(frame, session.order()) {
        Ok(record) => spec_dispatch(record),
        Err(error) => Notice::Malformed(error),
    }
}

/// Reads the state of the LEDs from an output report; `None` for an output report that
/// holds no LED report.
pub fn parse_led(report: &OutputReport) -> (led: Option<LedReport>)
    ensures
        led == spec_parse_led(report@),
        led is Some <==> report@.rtype == OUTPUT_REPORT && report@.data.len() == 2
            && report@.data[0] == LED_REPORT_ID,
        led matches Some(l) ==> l.report_id == LED_REPORT_ID && l.flags == report@.data[1],
{
    if report.rtype != OUTPUT_REPORT {
        return None;
    }
    if report.data.len() != LED_REPORT_LEN {
        return None;
    }
    if report.data[0] != LED_REPORT_ID {
        return None;
    }
    Some(LedReport { report_id: report.data[0], flags: report.data[1] })
}

/// Decides what is to be said of a record that arrived.
pub fn dispatch(record: &Record) -> (notice: Notice)
    ensures
        notice == spec_dispatch(record@),
{
    match record.kind() {
        None => Notice::Unknown(record.tag()),
        Some(kind) => match record {
            Record::Output(report) => match parse_led(report) {
                Some(led) => Notice::Led(led),
                None => Notice::Named(kind),
            },
            _ => Notice::Named(kind),
        },
    }
}

/// The decisions of the event loop: the state of the device, the session, and where the
/// loop stands. Its owner waits for the two sources, hands each event in, and does what
/// the answer says.
#[derive(Debug, PartialEq, Eq)]
pub struct EventLoop {
    state: DeviceState,
    session: Session,
    phase: LoopPhase,
}

impl EventLoop {
    /// The state of the device.
    pub closed spec fn spec_state(&self) -> DeviceState {
        self.state
    }

    /// The session.
    pub closed spec fn spec_session(&self) -> &Session {
        &self.session
    }

    /// Where the loop stands.
    pub closed spec fn spec_phase(&self) -> LoopPhase {
        self.phase
    }

    /// What holds between two events: while the loop runs the device is registered, and
    /// afterwards it is released; no motion is pending.
    pub open spec fn wf(&self) -> bool {
        &&& self.phase() == LoopPhase::Running ==> self.session().phase() == Phase::Created
        &&& self.phase() != LoopPhase::Running ==> self.session().phase() == Phase::Destroyed
        &&& self.state() == self.state().rested()
    }

    /// A loop that runs on a session whose device is registered, with no button down.
    pub fn new(session: Session) -> (event_loop: EventLoop)
        requires
            session.phase() == Phase::Created,
        ensures
            event_loop.wf(),
            event_loop.phase() == LoopPhase::Running,
            event_loop.session() == session,
            event_loop.state() == DeviceState::initial(),
    {
        EventLoop { state: DeviceState::new(), session, phase: LoopPhase::Running }
    }

    /// The state of the device.
    #[verifier::when_used_as_spec(spec_state)]
    pub fn state(&self) -> (state: DeviceState)
        ensures
            state == self.spec_state(),
    {
        self.state
    }

    /// The session.
    #[verifier::when_used_as_spec(spec_session)]
    pub fn session(&self) -> (session: &Session)
        ensures
            *session == self.spec_session(),
    {
        &self.session
    }

    /// Where the loop stands.
    #[verifier::when_used_as_spec(spec_phase)]
    pub fn phase(&self) -> (phase: LoopPhase)
        ensures
            phase == self.spec_phase(),
    {
        self.phase
    }

    /// The state of the device after the operator's command, before the report is built.
    pub open spec fn commanded(state: DeviceState, command: Command) -> DeviceState {
        match command {
            Command::Toggle(button) => state.toggled(button),
            Command::Motion { dx, dy, wheel } => state.with_motion(dx, dy, wheel),
            _ => state,
        }
    }

    /// Takes one character of the operator. A toggle or a motion changes the state and
    /// gives the frame of the input report of the new state, in which the motion is
    /// reported once; `q` ends the run and gives the frame that releases the device; any
    /// other character changes nothing and is reported as invalid.
    pub fn on_control(&mut self, unit: u8) -> (action: Action)
        requires
            old(self).wf(),
            old(self).phase() == LoopPhase::Running,
        ensures
            final(self).wf(),
            final(self).session().order() == old(self).session().order(),
            match Command::spec_parse(unit) {
                Command::Quit => {
                    &&& action@ == ActionView::Destroy(
                        spec_encode(RecordView::Destroy, old(self).session().order()),
                    )
                    &&& final(self).phase() == LoopPhase::QuitRequested
                    &&& final(self).state() == old(self).state()
                },
                Command::Invalid(c) => {
                    &&& action@ == ActionView::Log(Notice::InvalidInput(unit))
                    &&& *final(self) == *old(self)
                },
                command => {
                    &&& action@ == ActionView::Submit(
                        spec_encode(
                            RecordView::Input(
                                Self::commanded(old(self).state(), command).report().wire(),
                            ),
                            old(self).session().order(),
                        ),
                    )
                    &&& final(self).phase() == LoopPhase::Running
                    &&& final(self).session() == old(self).session()
                    &&& final(self).state() == Self::commanded(
                        old(self).state(),
                        command,
                    ).rested()
                },
            },
            action matches Action::Submit(frame) ==> frame@.len() == EVENT_SIZE,
            action matches Action::Destroy(frame) ==> frame@.len() == EVENT_SIZE,
    {
        match Command::parse(unit) {
            Command::Quit => Action::Destroy(self.quit()),
            Command::Invalid(c) => Action::Log(Notice::InvalidInput(c)),
            Command::Toggle(button) => {
                self.state.toggle_button(button);
                self.submit()
            },
            Command::Motion { dx, dy, wheel } => {
                self.state.set_motion(dx, dy, wheel);
                self.submit()
            },
        }
    }

    /// Ends the run, at the operator's wish or because the owner of the channel cannot go
    /// on: gives the frame that releases the device. No further event is taken.
    pub fn quit(&mut self) -> (frame: Vec<u8>)
        requires
            old(self).wf(),
            old(self).phase() == LoopPhase::Running,
        ensures
            final(self).wf(),
            frame@ == spec_encode(RecordView::Destroy, old(self).session().order()),
            frame@.len() == EVENT_SIZE,
            final(self).phase() == LoopPhase::QuitRequested,
            final(self).state() == old(self).state(),
            final(self).session().order() == old(self).session().order(),
    {
        let frame = self.session.destroy();
        self.phase = LoopPhase::QuitRequested;
        frame
    }

    /// Builds the report of the state, which consumes the pending motion, and gives the
    /// frame that submits it.
    fn submit(&mut self) -> (action: Action)
        requires
            old(self).phase() == LoopPhase::Running,
            old(self).session().phase() == Phase::Created,
        ensures
            action@ == ActionView::Submit(
                spec_encode(
                    RecordView::Input(old(self).state().report().wire()),
                    old(self).session().order(),
                ),
            ),
            action matches Action::Submit(frame) && frame@.len() == EVENT_SIZE,
            final(self).state() == old(self).state().rested(),
            final(self).session() == old(self).session(),
            final(self).phase() == old(self).phase(),
    {
        let report = self.state.to_report();
        let bytes = report.to_bytes();
        match self.session.submit_input(bytes.as_slice()) {
            Ok(frame) => Action::Submit(frame),
            Err(_) => {
                proof {
                    assert(false);
                }
                Action::Submit(Vec::new())
            },
        }
    }

    /// Takes one frame that the device channel delivered and says what is to be reported
    /// of it. A frame that cannot be read is reported too, and the loop goes on.
    pub fn on_device(&self, frame: &[u8]) -> (notice: Notice)
        ensures
            notice == spec_notice(frame@, self.session()),
    {
        match self.session.receive(frame) {
            Ok(record) => dispatch(&record),
            Err(error) => Notice::Malformed(error),
        }
    }

    /// Ends the loop once the frame that releases the device was written, or could not be
    /// written: either way the process ends.
    pub fn finish(&mut self)
        requires
            old(self).wf(),
            old(self).phase() == LoopPhase::QuitRequested,
        ensures
            final(self).wf(),
            final(self).phase() == LoopPhase::Terminated,
            final(self).state() == old(self).state(),
            final(self).session() == old(self).session(),
    {
        self.phase = LoopPhase::Terminated;
    }
}

} // verus!
