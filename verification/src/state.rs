use vstd::prelude::*;

verus! {

/// The report id under which the device sends its input reports.
pub const INPUT_REPORT_ID: u8 = 0x01;

/// The number of bytes of an input report on the wire: the report id, the buttons, three deltas.
pub const INPUT_REPORT_LEN: usize = 5;

/// The smallest delta that a report carries.
pub const DELTA_MIN: i8 = -127;

/// One of the three buttons of the device.
#[derive(Clone, Copy, Debug, PartialEq, Eq, Structural)]
pub enum Button {
    /// Button 1.
    Left,
    /// Button 2.
    Right,
    /// Button 3.
    Middle,
}

impl Button {
    /// The button with the number `n`, counted from 1.
    pub open spec fn spec_from_number(n: u8) -> Option<Button> {
        if n == 1 {
            Some(Button::Left)
        } else if n == 2 {
            Some(Button::Right)
        } else if n == 3 {
            Some(Button::Middle)
        } else {
            None
        }
    }

    /// The bit that stands for this button in the first data byte of a report.
    pub open spec fn spec_mask(self) -> u8 {
        match self {
            Button::Left => 0x01,
            Button::Right => 0x02,
            Button::Middle => 0x04,
        }
    }

    /// The button with the number `n`, counted from 1; `None` for any other number.
    pub fn from_number(n: u8) -> (button: Option<Button>)
        ensures
            button == Self::spec_from_number(n),
            button is Some <==> 1 <= n <= 3,
    {
        match n {
            1 => Some(Button::Left),
            2 => Some(Button::Right),
            3 => Some(Button::Middle),
            _ => None,
        }
    }

    /// The bit that stands for this button in the first data byte of a report.
    pub fn mask(self) -> (m: u8)
        ensures
            m == self.spec_mask(),
    {
        match self {
            Button::Left => 0x01,
            Button::Right => 0x02,
            Button::Middle => 0x04,
        }
    }
}

/// A delta as a report carries it: `d` held within -127 ..= 127.
pub open spec fn clamp_delta(d: i8) -> i8 {
    if d < DELTA_MIN {
        DELTA_MIN
    } else {
        d
    }
}

/// The byte that holds `d` in two's complement.
pub open spec fn byte_of_delta(d: i8) -> u8 {
    if d >= 0 {
        d as u8
    } else {
        (d + 256) as u8
    }
}

/// A delta as a report carries it: `d` held within -127 ..= 127.
pub fn clamp(d: i8) -> (c: i8)
    ensures
        c == clamp_delta(d),
        -127 <= c <= 127,
{
    if d < DELTA_MIN {
        DELTA_MIN
    } else {
        d
    }
}

/// The byte that holds `d` in two's complement.
pub fn delta_to_byte(d: i8) -> (b: u8)
    ensures
        b == byte_of_delta(d),
{
    if d >= 0 {
        d as u8
    } else {
        let wide: i16 = d as i16 + 256;
        wide as u8
    }
}

/// The first data byte of a report: one bit for each button that is down.
pub open spec fn button_bits(btn1: bool, btn2: bool, btn3: bool) -> u8 {
    let bit0: int = if btn1 { 1 } else { 0 };
    let bit1: int = if btn2 { 2 } else { 0 };
    let bit2: int = if btn3 { 4 } else { 0 };
    (bit0 + bit1 + bit2) as u8
}

/// An input report of the device: the state of its buttons and one relative motion.
#[derive(Clone, Copy, Debug, PartialEq, Eq, Structural)]
pub struct HidInputReport {
    /// The report id, first byte on the wire.
    pub report_id: u8,
    /// Bits 0, 1 and 2: buttons 1, 2 and 3.
    pub buttons: u8,
    /// Horizontal delta.
    pub dx: i8,
    /// Vertical delta.
    pub dy: i8,
    /// Wheel delta.
    pub wheel: i8,
}

impl HidInputReport {
    /// The bytes of the report in wire order.
    pub open spec fn wire(self) -> Seq<u8> {
        seq![
            self.report_id,
            self.buttons,
            byte_of_delta(self.dx),
            byte_of_delta(self.dy),
            byte_of_delta(self.wheel),
        ]
    }

    /// Whether the report says that `button` is down.
    pub open spec fn spec_is_down(self, button: Button) -> bool {
        self.buttons & button.spec_mask() != 0
    }

    /// The bytes of the report in wire order.
    pub fn to_bytes(&self) -> (bytes: Vec<u8>)
        ensures
            bytes@ == self.wire(),
            bytes@.len() == INPUT_REPORT_LEN,
    {
        let mut bytes: Vec<u8> = Vec::with_capacity(INPUT_REPORT_LEN);
        bytes.push(self.report_id);
        bytes.push(self.buttons);
        bytes.push(delta_to_byte(self.dx));
        bytes.push(delta_to_byte(self.dy));
        bytes.push(delta_to_byte(self.wheel));
        assert(bytes@ =~= self.wire());
        bytes
    }

    /// Whether the report says that `button` is down.
    pub fn is_down(&self, button: Button) -> (down: bool)
        ensures
            down == self.spec_is_down(button),
    {
        self.buttons & button.mask() != 0
    }
}

/// The buttons and the pending motion of the emulated device.
#[derive(Clone, Copy, Debug, PartialEq, Eq, Structural)]
pub struct DeviceState {
    /// Whether button 1 is down.
    pub btn1_down: bool,
    /// Whether button 2 is down.
    pub btn2_down: bool,
    /// Whether button 3 is down.
    pub btn3_down: bool,
    /// Horizontal motion that the next report carries.
    pub dx: i8,
    /// Vertical motion that the next report carries.
    pub dy: i8,
    /// Wheel motion that the next report carries.
    pub wheel: i8,
}

impl DeviceState {
    /// The state at start: no button down, no motion pending.
    pub open spec fn initial() -> DeviceState {
        DeviceState { btn1_down: false, btn2_down: false, btn3_down: false, dx: 0, dy: 0, wheel: 0 }
    }

    /// Whether `button` is down.
    pub open spec fn spec_is_down(self, button: Button) -> bool {
        match button {
            Button::Left => self.btn1_down,
            Button::Right => self.btn2_down,
            Button::Middle => self.btn3_down,
        }
    }

    /// This state with `button` flipped and all else kept.
    pub open spec fn toggled(self, button: Button) -> DeviceState {
        match button {
            Button::Left => DeviceState { btn1_down: !self.btn1_down, ..self },
            Button::Right => DeviceState { btn2_down: !self.btn2_down, ..self },
            Button::Middle => DeviceState { btn3_down: !self.btn3_down, ..self },
        }
    }

    /// This state with the pending motion replaced.
    pub open spec fn with_motion(self, dx: i8, dy: i8, wheel: i8) -> DeviceState {
        DeviceState { dx, dy, wheel, ..self }
    }

    /// This state at rest: the buttons kept, no motion pending.
    pub open spec fn rested(self) -> DeviceState {
        DeviceState { dx: 0, dy: 0, wheel: 0, ..self }
    }

    /// The report that describes this state.
    pub open spec fn report(self) -> HidInputReport {
        HidInputReport {
            report_id: INPUT_REPORT_ID,
            buttons: button_bits(self.btn1_down, self.btn2_down, self.btn3_down),
            dx: clamp_delta(self.dx),
            dy: clamp_delta(self.dy),
            wheel: clamp_delta(self.wheel),
        }
    }

    /// The state at start: no button down, no motion pending.
    pub fn new() -> (state: DeviceState)
        ensures
            state == Self::initial(),
    {
        DeviceState { btn1_down: false, btn2_down: false, btn3_down: false, dx: 0, dy: 0, wheel: 0 }
    }

    /// Whether `button` is down.
    pub fn is_down(&self, button: Button) -> (down: bool)
        ensures
            down == self.spec_is_down(button),
    {
        match button {
            Button::Left => self.btn1_down,
            Button::Right => self.btn2_down,
            Button::Middle => self.btn3_down,
        }
    }

    /// Flips `button`: down becomes up, up becomes down. It stays so until it is toggled again.
    pub fn toggle_button(&mut self, button: Button)
        ensures
            *final(self) == old(self).toggled(button),
    {
        match button {
            Button::Left => {
                self.btn1_down = !self.btn1_down;
            },
            Button::Right => {
                self.btn2_down = !self.btn2_down;
            },
            Button::Middle => {
                self.btn3_down = !self.btn3_down;
            },
        }
    }

    /// Sets the motion that the next report carries, in place of any that was pending.
    pub fn set_motion(&mut self, dx: i8, dy: i8, wheel: i8)
        ensures
            *final(self) == old(self).with_motion(dx, dy, wheel),
    {
        self.dx = dx;
        self.dy = dy;
        self.wheel = wheel;
    }

    /// Builds the report of the current state and consumes the pending motion: the report
    /// carries it, the state is at rest afterwards.
    pub fn to_report(&mut self) -> (report: HidInputReport)
        ensures
            report == old(self).report(),
            *final(self) == old(self).rested(),
    {
        let mut buttons: u8 = 0;
        if self.btn1_down {
            buttons = buttons + 1;
        }
        if self.btn2_down {
            buttons = buttons + 2;
        }
        if self.btn3_down {
            buttons = buttons + 4;
        }
        let report = HidInputReport {
            report_id: INPUT_REPORT_ID,
            buttons,
            dx: clamp(self.dx),
            dy: clamp(self.dy),
            wheel: clamp(self.wheel),
        };
        self.dx = 0;
        self.dy = 0;
        self.wheel = 0;
        report
    }
}

impl Default for DeviceState {
    fn default() -> (state: DeviceState)
        ensures
            state == DeviceState::initial(),
    {
        DeviceState::new()
    }
}

/// The bits of the first data byte are the buttons: bit 0 is button 1, bit 1 is button 2,
/// bit 2 is button 3, and no other bit is set.
pub proof fn lemma_button_bits(state: DeviceState, button: Button)
    ensures
        state.report().spec_is_down(button) == state.spec_is_down(button),
        state.report().buttons & 0xf8 == 0,
{
    let b = state.report().buttons;
    assert(b < 8);
    assert(b < 8 ==> b & 0xf8 == 0) by (bit_vector);
    assert((b == 0 || b == 2 || b == 4 || b == 6) ==> b & 1 == 0) by (bit_vector);
    assert((b == 1 || b == 3 || b == 5 || b == 7) ==> b & 1 != 0) by (bit_vector);
    assert((b == 0 || b == 1 || b == 4 || b == 5) ==> b & 2 == 0) by (bit_vector);
    assert((b == 2 || b == 3 || b == 6 || b == 7) ==> b & 2 != 0) by (bit_vector);
    assert((b == 0 || b == 1 || b == 2 || b == 3) ==> b & 4 == 0) by (bit_vector);
    assert((b == 4 || b == 5 || b == 6 || b == 7) ==> b & 4 != 0) by (bit_vector);
}

/// Toggling a button twice restores the state, and so the report: its button bits are those
/// from before.
pub proof fn lemma_toggle_twice(state: DeviceState, button: Button)
    ensures
        state.toggled(button).toggled(button) == state,
        state.toggled(button).toggled(button).report().buttons == state.report().buttons,
        state.toggled(button).spec_is_down(button) == !state.spec_is_down(button),
{
}

/// Toggling one button leaves the other two, and the pending motion, as they were.
pub proof fn lemma_toggle_keeps_others(state: DeviceState, button: Button, other: Button)
    requires
        other != button,
    ensures
        state.toggled(button).spec_is_down(other) == state.spec_is_down(other),
        state.toggled(button).dx == state.dx,
        state.toggled(button).dy == state.dy,
        state.toggled(button).wheel == state.wheel,
{
}

/// Motion is reported once: the report built after `set_motion` carries it, held within
/// -127 ..= 127, and the report built next, with no motion set in between, carries none.
/// The buttons are the same in both.
pub proof fn lemma_motion_one_shot(state: DeviceState, dx: i8, dy: i8, wheel: i8)
    ensures
        ({
            let moved = state.with_motion(dx, dy, wheel);
            let first = moved.report();
            let second = moved.rested().report();
            &&& first.dx == clamp_delta(dx)
            &&& first.dy == clamp_delta(dy)
            &&& first.wheel == clamp_delta(wheel)
            &&& second.dx == 0
            &&& second.dy == 0
            &&& second.wheel == 0
            &&& second.buttons == first.buttons
            &&& moved.rested().rested() == moved.rested()
        }),
{
}

} // verus!
