use uhid_device::state::clamp;
use uhid_device::state::delta_to_byte;
use uhid_device::state::Button;
use uhid_device::state::DeviceState;
use uhid_device::state::HidInputReport;
use uhid_device::state::INPUT_REPORT_ID;
use uhid_device::state::INPUT_REPORT_LEN;

#[test]
fn starts_with_nothing_down_and_no_motion() {
    let state = DeviceState::new();
    assert!(!state.btn1_down && !state.btn2_down && !state.btn3_down);
    assert_eq!((state.dx, state.dy, state.wheel), (0, 0, 0));
    assert_eq!(DeviceState::default(), state);
    let mut state = state;
    assert_eq!(state.to_report().to_bytes(), vec![0x01, 0, 0, 0, 0]);
}

#[test]
fn buttons_by_number() {
    assert_eq!(Button::from_number(0), None);
    assert_eq!(Button::from_number(1), Some(Button::Left));
    assert_eq!(Button::from_number(2), Some(Button::Right));
    assert_eq!(Button::from_number(3), Some(Button::Middle));
    assert_eq!(Button::from_number(4), None);
    assert_eq!(Button::Left.mask(), 1);
    assert_eq!(Button::Right.mask(), 2);
    assert_eq!(Button::Middle.mask(), 4);
}

#[test]
fn each_button_has_its_bit() {
    for (button, bits) in [(Button::Left, 1u8), (Button::Right, 2), (Button::Middle, 4)] {
        let mut state = DeviceState::new();
        state.toggle_button(button);
        assert!(state.is_down(button));
        let report = state.to_report();
        assert_eq!(report.buttons, bits);
        assert!(report.is_down(button));
        assert_eq!(report.to_bytes()[1], bits);
    }
}

#[test]
fn all_buttons_down() {
    let mut state = DeviceState::new();
    state.toggle_button(Button::Left);
    state.toggle_button(Button::Right);
    state.toggle_button(Button::Middle);
    let report = state.to_report();
    assert_eq!(report.buttons, 7);
    assert!(report.is_down(Button::Left));
    assert!(report.is_down(Button::Right));
    assert!(report.is_down(Button::Middle));
}

#[test]
fn third_button_is_its_own() {
    let mut state = DeviceState::new();
    state.toggle_button(Button::Right);
    let report = state.to_report();
    assert_eq!(report.buttons, 2);
    assert!(!report.is_down(Button::Middle));
    state.toggle_button(Button::Right);
    state.toggle_button(Button::Middle);
    assert_eq!(state.to_report().buttons, 4);
}

#[test]
fn toggling_twice_restores_the_state() {
    for start in 0..8u8 {
        for button in [Button::Left, Button::Right, Button::Middle] {
            let mut state = DeviceState::new();
            state.btn1_down = start & 1 != 0;
            state.btn2_down = start & 2 != 0;
            state.btn3_down = start & 4 != 0;
            let before = state;
            let bits_before = { let mut s = state; s.to_report().buttons };
            assert_eq!(bits_before, start);
            state.toggle_button(button);
            assert_ne!(state, before);
            assert_eq!(state.is_down(button), !before.is_down(button));
            let bits_between = { let mut s = state; s.to_report().buttons };
            assert_eq!(bits_between, start ^ button.mask());
            state.toggle_button(button);
            assert_eq!(state, before);
            assert_eq!(state.to_report().buttons, bits_before);
        }
    }
}

#[test]
fn a_toggle_persists_over_reports() {
    let mut state = DeviceState::new();
    state.toggle_button(Button::Left);
    assert_eq!(state.to_report().buttons, 1);
    assert_eq!(state.to_report().buttons, 1);
    state.set_motion(1, 2, 3);
    assert_eq!(state.to_report().buttons, 1);
    assert!(state.btn1_down);
}

#[test]
fn motion_is_reported_once() {
    let mut state = DeviceState::new();
    state.toggle_button(Button::Middle);
    state.set_motion(20, -20, 1);
    let first = state.to_report();
    assert_eq!((first.dx, first.dy, first.wheel), (20, -20, 1));
    assert_eq!(first.to_bytes(), vec![0x01, 0x04, 0x14, 0xec, 0x01]);
    assert_eq!((state.dx, state.dy, state.wheel), (0, 0, 0));
    let second = state.to_report();
    assert_eq!((second.dx, second.dy, second.wheel), (0, 0, 0));
    assert_eq!(second.buttons, 4);
    assert_eq!(second.to_bytes(), vec![0x01, 0x04, 0, 0, 0]);
}

#[test]
fn set_motion_replaces_pending_motion() {
    let mut state = DeviceState::new();
    state.set_motion(5, 6, 7);
    state.set_motion(-1, 0, 0);
    let report = state.to_report();
    assert_eq!((report.dx, report.dy, report.wheel), (-1, 0, 0));
}

#[test]
fn deltas_are_held_within_127() {
    assert_eq!(clamp(-128), -127);
    assert_eq!(clamp(-127), -127);
    assert_eq!(clamp(-1), -1);
    assert_eq!(clamp(0), 0);
    assert_eq!(clamp(127), 127);
    let mut state = DeviceState::new();
    state.set_motion(-128, 127, -128);
    let report = state.to_report();
    assert_eq!((report.dx, report.dy, report.wheel), (-127, 127, -127));
    assert_eq!(report.to_bytes(), vec![0x01, 0x00, 0x81, 0x7f, 0x81]);
}

#[test]
fn a_delta_is_a_byte_in_twos_complement() {
    for d in i8::MIN..=i8::MAX {
        assert_eq!(delta_to_byte(d), d as u8);
    }
    assert_eq!(delta_to_byte(-1), 0xff);
    assert_eq!(delta_to_byte(-20), 0xec);
    assert_eq!(delta_to_byte(-128), 0x80);
}

#[test]
fn report_in_wire_order() {
    let report = HidInputReport { report_id: 9, buttons: 5, dx: -2, dy: 3, wheel: -4 };
    let bytes = report.to_bytes();
    assert_eq!(bytes.len(), INPUT_REPORT_LEN);
    assert_eq!(bytes, vec![9, 5, 0xfe, 3, 0xfc]);
    assert!(report.is_down(Button::Left));
    assert!(!report.is_down(Button::Right));
    assert!(report.is_down(Button::Middle));
    assert_eq!(INPUT_REPORT_ID, 1);
}
