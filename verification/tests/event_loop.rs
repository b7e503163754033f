use uhid_device::byte_order::ByteOrder;
use uhid_device::codec::decode;
use uhid_device::codec::encode;
use uhid_device::codec::DecodeError;
use uhid_device::control::Command;
use uhid_device::event_loop::dispatch;
use uhid_device::event_loop::parse_led;
use uhid_device::event_loop::Action;
use uhid_device::event_loop::EventLoop;
use uhid_device::event_loop::LedReport;
use uhid_device::event_loop::LoopPhase;
use uhid_device::event_loop::Notice;
use uhid_device::kind::EventKind;
use uhid_device::layout::EVENT_SIZE;
use uhid_device::record::CreateRequest;
use uhid_device::record::OutputReport;
use uhid_device::record::Record;
use uhid_device::session::DeviceIdentity;
use uhid_device::session::Phase;
use uhid_device::session::Session;
use uhid_device::state::Button;
use uhid_device::state::DeviceState;

fn running(order: ByteOrder) -> EventLoop {
    let mut session = Session::new(order);
    let identity = DeviceIdentity {
        name: "test-uhid-device".as_bytes().to_vec(),
        bus: 3,
        vendor: 0x15d9,
        product: 0x0a37,
        version: 0,
        country: 0,
    };
    session.create(&[0x05, 0x01], &identity).unwrap();
    EventLoop::new(session)
}

fn submitted(action: Action) -> Vec<u8> {
    match action {
        Action::Submit(frame) => match decode(&frame, ByteOrder::Little) {
            Ok(Record::Input(data)) => data,
            other => panic!("{:?}", other),
        },
        other => panic!("{:?}", other),
    }
}

#[test]
fn commands_of_the_operator() {
    assert_eq!(Command::parse(b'1'), Command::Toggle(Button::Left));
    assert_eq!(Command::parse(b'2'), Command::Toggle(Button::Right));
    assert_eq!(Command::parse(b'3'), Command::Toggle(Button::Middle));
    assert_eq!(Command::parse(b'a'), Command::Motion { dx: -20, dy: 0, wheel: 0 });
    assert_eq!(Command::parse(b'd'), Command::Motion { dx: 20, dy: 0, wheel: 0 });
    assert_eq!(Command::parse(b'w'), Command::Motion { dx: 0, dy: -20, wheel: 0 });
    assert_eq!(Command::parse(b's'), Command::Motion { dx: 0, dy: 20, wheel: 0 });
    assert_eq!(Command::parse(b'r'), Command::Motion { dx: 0, dy: 0, wheel: 1 });
    assert_eq!(Command::parse(b'f'), Command::Motion { dx: 0, dy: 0, wheel: -1 });
    assert_eq!(Command::parse(b'q'), Command::Quit);
}

#[test]
fn every_other_character_is_invalid() {
    let keys = "123adwsrfq".as_bytes();
    for unit in 0..=255u8 {
        if !keys.contains(&unit) {
            assert_eq!(Command::parse(unit), Command::Invalid(unit));
        }
    }
    assert_eq!(Command::parse(b'0'), Command::Invalid(b'0'));
    assert_eq!(Command::parse(b'4'), Command::Invalid(b'4'));
    assert_eq!(Command::parse(b'Q'), Command::Invalid(b'Q'));
    assert_eq!(Command::parse(b'\n'), Command::Invalid(b'\n'));
}

#[test]
fn led_report_is_parsed() {
    let report = OutputReport { rtype: 1, data: vec![0x02, 0x05] };
    assert_eq!(parse_led(&report), Some(LedReport { report_id: 0x02, flags: 0x05 }));
    assert_eq!(
        dispatch(&Record::Output(report)),
        Notice::Led(LedReport { report_id: 0x02, flags: 0x05 })
    );
}

#[test]
fn other_output_reports_are_not_led_reports() {
    let not_led = vec![
        OutputReport { rtype: 1, data: vec![0x02] },
        OutputReport { rtype: 1, data: vec![0x02, 0x05, 0x00] },
        OutputReport { rtype: 1, data: vec![] },
        OutputReport { rtype: 1, data: vec![0x01, 0x05] },
        OutputReport { rtype: 1, data: vec![0x03, 0x05] },
        OutputReport { rtype: 0, data: vec![0x02, 0x05] },
        OutputReport { rtype: 2, data: vec![0x02, 0x05] },
    ];
    for report in not_led {
        assert_eq!(parse_led(&report), None);
        assert_eq!(dispatch(&Record::Output(report)), Notice::Named(EventKind::Output));
    }
}

#[test]
fn led_report_through_a_frame() {
    let event_loop = running(ByteOrder::Little);
    let record = Record::Output(OutputReport { rtype: 1, data: vec![0x02, 0x05] });
    let frame = encode(&record, ByteOrder::Little).unwrap();
    assert_eq!(
        event_loop.on_device(&frame),
        Notice::Led(LedReport { report_id: 0x02, flags: 0x05 })
    );
    let record = Record::Output(OutputReport { rtype: 1, data: vec![0x02, 0x05, 0x01] });
    let frame = encode(&record, ByteOrder::Little).unwrap();
    assert_eq!(event_loop.on_device(&frame), Notice::Named(EventKind::Output));
}

#[test]
fn records_are_reported_by_kind() {
    assert_eq!(dispatch(&Record::Signal(EventKind::Start)), Notice::Named(EventKind::Start));
    assert_eq!(dispatch(&Record::Signal(EventKind::Stop)), Notice::Named(EventKind::Stop));
    assert_eq!(dispatch(&Record::Signal(EventKind::Open)), Notice::Named(EventKind::Open));
    assert_eq!(dispatch(&Record::Signal(EventKind::Close)), Notice::Named(EventKind::Close));
    assert_eq!(
        dispatch(&Record::Signal(EventKind::OutputEv)),
        Notice::Named(EventKind::OutputEv)
    );
    assert_eq!(
        dispatch(&Record::Signal(EventKind::GetReport)),
        Notice::Named(EventKind::GetReport)
    );
    assert_eq!(dispatch(&Record::Destroy), Notice::Named(EventKind::Destroy));
    assert_eq!(dispatch(&Record::Input(vec![1, 2])), Notice::Named(EventKind::Input));
    let request = CreateRequest {
        name: vec![],
        descriptor: vec![],
        bus: 0,
        vendor: 0,
        product: 0,
        version: 0,
        country: 0,
    };
    assert_eq!(dispatch(&Record::Create(request)), Notice::Named(EventKind::Create));
}

#[test]
fn unknown_records_are_reported_with_their_tag() {
    assert_eq!(dispatch(&Record::Unknown(15)), Notice::Unknown(15));
    assert_eq!(dispatch(&Record::Unknown(0xffff_ffff)), Notice::Unknown(0xffff_ffff));
    let event_loop = running(ByteOrder::Little);
    let mut frame = vec![0x33u8; EVENT_SIZE];
    frame[0] = 77;
    frame[1] = 0;
    frame[2] = 0;
    frame[3] = 0;
    assert_eq!(event_loop.on_device(&frame), Notice::Unknown(77));
}

#[test]
fn an_unknown_record_with_a_known_tag_goes_by_its_tag() {
    assert_eq!(dispatch(&Record::Unknown(2)), Notice::Named(EventKind::Start));
}

#[test]
fn malformed_frames_are_reported() {
    let event_loop = running(ByteOrder::Little);
    assert_eq!(event_loop.on_device(&[]), Notice::Malformed(DecodeError::FrameLength));
    assert_eq!(
        event_loop.on_device(&vec![0u8; 10]),
        Notice::Malformed(DecodeError::FrameLength)
    );
    let mut frame = vec![0u8; EVENT_SIZE];
    frame[0] = 6;
    frame[5] = 0xff;
    frame[6] = 0xff;
    assert_eq!(event_loop.on_device(&frame), Notice::Malformed(DecodeError::ReportSize));
    assert_eq!(event_loop.phase(), LoopPhase::Running);
}

#[test]
fn notifications_of_the_kernel() {
    let event_loop = running(ByteOrder::Little);
    for (tag, kind) in [
        (2u8, EventKind::Start),
        (3, EventKind::Stop),
        (4, EventKind::Open),
        (5, EventKind::Close),
        (7, EventKind::OutputEv),
    ] {
        let mut frame = vec![0u8; EVENT_SIZE];
        frame[0] = tag;
        assert_eq!(event_loop.on_device(&frame), Notice::Named(kind));
    }
}

#[test]
fn a_new_loop_runs_at_rest() {
    let event_loop = running(ByteOrder::Little);
    assert_eq!(event_loop.phase(), LoopPhase::Running);
    assert_eq!(event_loop.state(), DeviceState::new());
    assert_eq!(event_loop.session().phase(), Phase::Created);
    assert_eq!(event_loop.session().order(), ByteOrder::Little);
}

#[test]
fn button_keys_submit_the_buttons() {
    let mut event_loop = running(ByteOrder::Little);
    assert_eq!(submitted(event_loop.on_control(b'1')), vec![1, 0x01, 0, 0, 0]);
    assert_eq!(submitted(event_loop.on_control(b'2')), vec![1, 0x03, 0, 0, 0]);
    assert_eq!(submitted(event_loop.on_control(b'3')), vec![1, 0x07, 0, 0, 0]);
    assert_eq!(submitted(event_loop.on_control(b'2')), vec![1, 0x05, 0, 0, 0]);
    assert_eq!(submitted(event_loop.on_control(b'1')), vec![1, 0x04, 0, 0, 0]);
    assert_eq!(submitted(event_loop.on_control(b'3')), vec![1, 0x00, 0, 0, 0]);
    assert_eq!(event_loop.state(), DeviceState::new());
    assert_eq!(event_loop.phase(), LoopPhase::Running);
}

#[test]
fn motion_keys_submit_one_motion() {
    let mut event_loop = running(ByteOrder::Little);
    assert_eq!(submitted(event_loop.on_control(b'a')), vec![1, 0, 0xec, 0, 0]);
    assert_eq!(submitted(event_loop.on_control(b'd')), vec![1, 0, 0x14, 0, 0]);
    assert_eq!(submitted(event_loop.on_control(b'w')), vec![1, 0, 0, 0xec, 0]);
    assert_eq!(submitted(event_loop.on_control(b's')), vec![1, 0, 0, 0x14, 0]);
    assert_eq!(submitted(event_loop.on_control(b'r')), vec![1, 0, 0, 0, 0x01]);
    assert_eq!(submitted(event_loop.on_control(b'f')), vec![1, 0, 0, 0, 0xff]);
    assert_eq!(event_loop.state(), DeviceState::new());
    assert_eq!(submitted(event_loop.on_control(b'1')), vec![1, 1, 0, 0, 0]);
    assert_eq!(submitted(event_loop.on_control(b'd')), vec![1, 1, 0x14, 0, 0]);
    assert_eq!(submitted(event_loop.on_control(b'1')), vec![1, 0, 0, 0, 0]);
}

#[test]
fn an_invalid_character_changes_nothing() {
    let mut event_loop = running(ByteOrder::Little);
    event_loop.on_control(b'2');
    let mut untouched = running(ByteOrder::Little);
    untouched.on_control(b'2');
    assert_eq!(event_loop.on_control(b'x'), Action::Log(Notice::InvalidInput(b'x')));
    assert_eq!(event_loop, untouched);
    assert_eq!(event_loop.phase(), LoopPhase::Running);
    assert!(event_loop.state().btn2_down);
}

#[test]
fn quit_releases_the_device() {
    for order in [ByteOrder::Little, ByteOrder::Big] {
        let mut event_loop = running(order);
        event_loop.on_control(b'1');
        let state = event_loop.state();
        match event_loop.on_control(b'q') {
            Action::Destroy(frame) => {
                assert_eq!(frame.len(), EVENT_SIZE);
                assert_eq!(decode(&frame, order), Ok(Record::Destroy));
            }
            other => panic!("{:?}", other),
        }
        assert_eq!(event_loop.phase(), LoopPhase::QuitRequested);
        assert_eq!(event_loop.session().phase(), Phase::Destroyed);
        assert_eq!(event_loop.state(), state);
        event_loop.finish();
        assert_eq!(event_loop.phase(), LoopPhase::Terminated);
        assert_eq!(event_loop.session().phase(), Phase::Destroyed);
    }
}

#[test]
fn frames_are_in_the_order_of_the_session() {
    let mut event_loop = running(ByteOrder::Big);
    match event_loop.on_control(b'1') {
        Action::Submit(frame) => {
            assert_eq!(&frame[0..4], &[0, 0, 0, 8]);
            assert_eq!(&frame[4..6], &[0, 5]);
            assert_eq!(&frame[6..11], &[1, 1, 0, 0, 0]);
        }
        other => panic!("{:?}", other),
    }
}
