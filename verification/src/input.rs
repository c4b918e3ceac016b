//! From protocol input events to Linux input events.
//!
//! The protocol names a mouse button by a small number and a key by the
//! number of its hardware button. The devices of this module turn both
//! into the events that a uinput device is to be fed; writing them is left
//! to the caller.

use vstd::prelude::*;

verus! {

/// Event type of a synchronisation event.
pub const EV_SYN: u16 = 0;

/// Event type of keys and buttons.
pub const EV_KEY: u16 = 1;

/// Event type of absolute axes.
pub const EV_ABS: u16 = 3;

/// Event code that ends one report.
pub const SYN_REPORT: u16 = 0;

/// Event code of the horizontal absolute axis.
pub const ABS_X: u16 = 0;

/// Event code of the vertical absolute axis.
pub const ABS_Y: u16 = 1;

/// Event code of the left mouse button, the first of the eight button
/// codes.
pub const BTN_LEFT: u16 = 0x110;

/// How far a key's hardware button number in the protocol lies above its
/// Linux key code.
pub const BUTTON_OFFSET: u16 = 8;

/// The name that the devices are created with.
pub const DEVICE_NAME: &'static str = "barrier-rust";

/// The key codes that the keyboard supports, in increasing order.
pub const KEYBOARD_KEYS: [u16; 146] = [
    // ESC 1 2 3 4 5 6 7
    1, 2, 3, 4, 5, 6, 7, 8,
    // 8 9 0 MINUS EQUAL BACKSPACE TAB Q
    9, 10, 11, 12, 13, 14, 15, 16,
    // W E R T Y U I O
    17, 18, 19, 20, 21, 22, 23, 24,
    // P LEFTBRACE RIGHTBRACE ENTER LEFTCTRL A S D
    25, 26, 27, 28, 29, 30, 31, 32,
    // F G H J K L SEMICOLON APOSTROPHE
    33, 34, 35, 36, 37, 38, 39, 40,
    // GRAVE LEFTSHIFT BACKSLASH Z X C V B
    41, 42, 43, 44, 45, 46, 47, 48,
    // N M COMMA DOT SLASH RIGHTSHIFT KPASTERISK LEFTALT
    49, 50, 51, 52, 53, 54, 55, 56,
    // SPACE CAPSLOCK F1 F2 F3 F4 F5 F6
    57, 58, 59, 60, 61, 62, 63, 64,
    // F7 F8 F9 F10 NUMLOCK SCROLLLOCK KP7 KP8
    65, 66, 67, 68, 69, 70, 71, 72,
    // KP9 KPMINUS KP4 KP5 KP6 KPPLUS KP1 KP2
    73, 74, 75, 76, 77, 78, 79, 80,
    // KP3 KP0 KPDOT ZENKAKUHANKAKU 102ND F11 F12 RO
    81, 82, 83, 85, 86, 87, 88, 89,
    // KATAKANA HIRAGANA HENKAN KATAKANAHIRAGANA MUHENKAN KPJPCOMMA KPENTER RIGHTCTRL
    90, 91, 92, 93, 94, 95, 96, 97,
    // KPSLASH SYSRQ RIGHTALT HOME UP PAGEUP LEFT RIGHT
    98, 99, 100, 102, 103, 104, 105, 106,
    // END DOWN PAGEDOWN INSERT DELETE MUTE VOLUMEDOWN VOLUMEUP
    107, 108, 109, 110, 111, 113, 114, 115,
    // POWER KPEQUAL PAUSE KPCOMMA HANGEUL HANJA YEN LEFTMETA
    116, 117, 119, 121, 122, 123, 124, 125,
    // RIGHTMETA COMPOSE STOP AGAIN PROPS UNDO FRONT COPY
    126, 127, 128, 129, 130, 131, 132, 133,
    // OPEN PASTE FIND CUT HELP F13 F14 F15
    134, 135, 136, 137, 138, 183, 184, 185,
    // F16 F17 F18 F19 F20 F21 F22 F23
    186, 187, 188, 189, 190, 191, 192, 193,
    // F24 UNKNOWN
    194, 240,
];

/// The two devices.
#[derive(Debug, PartialEq, Eq, Clone, Copy, Structural)]
pub enum DeviceType {
    Mouse,
    Keyboard,
}

impl DeviceType {
    /// The device's kind in words.
    pub fn name(&self) -> (name: &'static str)
        ensures
            name@ == match *self {
                DeviceType::Mouse => "Mouse"@,
                DeviceType::Keyboard => "Keyboard"@,
            },
    {
        match self {
            DeviceType::Mouse => "Mouse",
            DeviceType::Keyboard => "Keyboard",
        }
    }
}

/// What can go wrong with a device. `source` is the error number of the
/// system call that failed.
#[derive(Debug, PartialEq, Eq, Clone, Copy, Structural)]
pub enum Error {
    CreateDevice { device_type: DeviceType },
    CreateUInputDevice { device_type: DeviceType, source: i32 },
    EnableDeviceProperty { device_type: DeviceType, source: i32 },
    CreateEvent { device_type: DeviceType, source: i32 },
    /// The protocol named a key that the keyboard does not support.
    MapKey { device_type: DeviceType },
}

/// One event for a uinput device.
#[derive(Debug, PartialEq, Eq, Clone, Copy, Structural)]
pub struct InputEvent {
    pub event_type: u16,
    pub event_code: u16,
    pub value: i32,
}

/// The event that ends a report.
pub open spec fn syn_report() -> InputEvent {
    InputEvent { event_type: EV_SYN, event_code: SYN_REPORT, value: 0 }
}

/// One step of setting a device up, before it is created.
#[derive(Debug, PartialEq, Eq, Clone, Copy, Structural)]
pub enum Enable {
    /// Enable an event type.
    Type { event_type: u16 },
    /// Enable one code of an event type.
    Code { event_type: u16, event_code: u16 },
    /// Enable an absolute axis that runs from 0 to `maximum`.
    Axis { event_code: u16, maximum: i32 },
}

/// The buttons of a mouse.
#[derive(Debug, PartialEq, Eq, Clone, Copy, Structural)]
pub enum MouseButton {
    Left,
    Right,
    Middle,
    Side,
    Extra,
    Forward,
    Back,
    Task,
}

impl MouseButton {
    /// The button that the protocol's button `id` stands for. An id that
    /// the protocol does not define stands for the left button.
    pub open spec fn spec_from_id(id: u8) -> MouseButton {
        match id {
            1 => MouseButton::Left,
            2 => MouseButton::Middle,
            3 => MouseButton::Right,
            4 => MouseButton::Extra,
            _ => MouseButton::Left,
        }
    }

    /// The ids that the protocol defines.
    pub open spec fn spec_is_mapped(id: u8) -> bool {
        1 <= id <= 4
    }

    /// Whether the protocol defines the button `id`. An id that it does not
    /// define is still taken, for the left button, and is worth a
    /// remark.
    pub fn is_mapped(id: u8) -> (mapped: bool)
        ensures
            mapped == Self::spec_is_mapped(id),
    {
        1 <= id && id <= 4
    }

    /// The button's event code.
    pub open spec fn spec_code(self) -> u16 {
        match self {
            MouseButton::Left => 0x110,
            MouseButton::Right => 0x111,
            MouseButton::Middle => 0x112,
            MouseButton::Side => 0x113,
            MouseButton::Extra => 0x114,
            MouseButton::Forward => 0x115,
            MouseButton::Back => 0x116,
            MouseButton::Task => 0x117,
        }
    }

    /// The button's event code.
    pub fn code(self) -> (code: u16)
        ensures
            code == self.spec_code(),
    {
        match self {
            MouseButton::Left => BTN_LEFT,
            MouseButton::Right => BTN_LEFT + 1,
            MouseButton::Middle => BTN_LEFT + 2,
            MouseButton::Side => BTN_LEFT + 3,
            MouseButton::Extra => BTN_LEFT + 4,
            MouseButton::Forward => BTN_LEFT + 5,
            MouseButton::Back => BTN_LEFT + 6,
            MouseButton::Task => BTN_LEFT + 7,
        }
    }
}

impl From<u8> for MouseButton {
    fn from(id: u8) -> (button: Self) {
        match id {
            1 => MouseButton::Left,
            2 => MouseButton::Middle,
            3 => MouseButton::Right,
            4 => MouseButton::Extra,
            _ => MouseButton::Left,
        }
    }
}

impl vstd::std_specs::convert::FromSpecImpl<u8> for MouseButton {
    open spec fn obeys_from_spec() -> bool {
        true
    }

    open spec fn from_spec(id: u8) -> Self {
        MouseButton::spec_from_id(id)
    }
}

/// The key code for a hardware button number of the protocol: the number
/// less the offset, where the keyboard supports that code.
pub open spec fn spec_button_to_ev_key(button: u16) -> Result<u16, Error> {
    if button >= BUTTON_OFFSET && KEYBOARD_KEYS@.contains((button - BUTTON_OFFSET) as u16) {
        Ok((button - BUTTON_OFFSET) as u16)
    } else {
        Err(Error::MapKey { device_type: DeviceType::Keyboard })
    }
}

/// The codes of the table, by their ranges.
pub open spec fn supported(code: u16) -> bool {
    ||| 1 <= code <= 83
    ||| 85 <= code <= 100
    ||| 102 <= code <= 111
    ||| 113 <= code <= 117
    ||| code == 119
    ||| 121 <= code <= 138
    ||| 183 <= code <= 194
    ||| code == 240
}

/// Where the table holds a code that it supports.
pub open spec fn key_index(code: u16) -> int {
    if code <= 83 {
        code - 1
    } else if code <= 100 {
        code - 2
    } else if code <= 111 {
        code - 3
    } else if code <= 117 {
        code - 4
    } else if code == 119 {
        114
    } else if code <= 138 {
        code - 6
    } else if code <= 194 {
        code - 50
    } else {
        145
    }
}

/// The table holds exactly the supported codes, each at its index.
pub proof fn lemma_supported(code: u16)
    ensures
        KEYBOARD_KEYS@.contains(code) <==> supported(code),
        supported(code) ==> 0 <= key_index(code) < 146 && KEYBOARD_KEYS@[key_index(code)] == code,
{
    assert forall|i: int| 0 <= i < 146 implies supported(#[trigger] KEYBOARD_KEYS@[i])
        && key_index(KEYBOARD_KEYS@[i]) == i by {
    }
    if supported(code) {
        assert(KEYBOARD_KEYS@[key_index(code)] == code);
    }
}

/// Finds the key code for a hardware button number of the protocol.
pub fn button_to_ev_key(button: u16) -> (r: Result<u16, Error>)
    ensures
        r == spec_button_to_ev_key(button),
        r is Ok <==> button >= BUTTON_OFFSET && supported((button - BUTTON_OFFSET) as u16),
{
    proof {
        if button >= BUTTON_OFFSET {
            lemma_supported((button - BUTTON_OFFSET) as u16);
        }
    }
    if button < BUTTON_OFFSET {
        return Err(Error::MapKey { device_type: DeviceType::Keyboard });
    }
    let code: u16 = button - BUTTON_OFFSET;
    let mut i: usize = 0;
    while i < KEYBOARD_KEYS.len()
        invariant
            i <= KEYBOARD_KEYS@.len(),
            button >= BUTTON_OFFSET,
            code == button - BUTTON_OFFSET,
            forall|j: int| 0 <= j < i ==> KEYBOARD_KEYS@[j] != code,
        decreases KEYBOARD_KEYS@.len() - i,
    {
        if KEYBOARD_KEYS[i] == code {
            assert(KEYBOARD_KEYS@[i as int] == code);
            return Ok(code);
        }
        i += 1;
    }
    Err(Error::MapKey { device_type: DeviceType::Keyboard })
}

/// A press or release of a key or button, and the end of the report.
pub open spec fn key_report(code: u16, value: i32) -> Seq<InputEvent> {
    seq![InputEvent { event_type: EV_KEY, event_code: code, value }, syn_report()]
}

fn report_key(code: u16, value: i32) -> (events: Vec<InputEvent>)
    ensures
        events@ == key_report(code, value),
{
    let mut events: Vec<InputEvent> = Vec::new();
    events.push(InputEvent { event_type: EV_KEY, event_code: code, value });
    events.push(InputEvent { event_type: EV_SYN, event_code: SYN_REPORT, value: 0 });
    assert(events@ =~= key_report(code, value));
    events
}

/// A pointer with absolute coordinates and buttons.
#[derive(Debug, PartialEq, Eq, Clone, Copy, Structural)]
pub struct Mouse {
    pub x_maximum: i32,
    pub y_maximum: i32,
}

impl Mouse {
    /// A pointer on a surface that runs from 0 to the two maxima.
    pub fn new(x_maximum: i32, y_maximum: i32) -> (mouse: Self)
        ensures
            mouse == (Mouse { x_maximum, y_maximum }),
    {
        Mouse { x_maximum, y_maximum }
    }

    /// What to enable on the device before it is created: the left button,
    /// the absolute axes, and the range of each of the two.
    pub open spec fn spec_setup(self) -> Seq<Enable> {
        seq![
            Enable::Code { event_type: EV_KEY, event_code: BTN_LEFT },
            Enable::Type { event_type: EV_ABS },
            Enable::Axis { event_code: ABS_X, maximum: self.x_maximum },
            Enable::Axis { event_code: ABS_Y, maximum: self.y_maximum },
        ]
    }

    /// What to enable on the device before it is created, in order.
    pub fn setup(&self) -> (steps: Vec<Enable>)
        ensures
            steps@ == self.spec_setup(),
    {
        let mut steps: Vec<Enable> = Vec::new();
        steps.push(Enable::Code { event_type: EV_KEY, event_code: BTN_LEFT });
        steps.push(Enable::Type { event_type: EV_ABS });
        steps.push(Enable::Axis { event_code: ABS_X, maximum: self.x_maximum });
        steps.push(Enable::Axis { event_code: ABS_Y, maximum: self.y_maximum });
        assert(steps@ =~= self.spec_setup());
        steps
    }

    /// A move to an absolute position: both coordinates as they are, and
    /// the end of the report.
    pub open spec fn spec_move_abs(x: i32, y: i32) -> Seq<InputEvent> {
        seq![
            InputEvent { event_type: EV_ABS, event_code: ABS_X, value: x },
            InputEvent { event_type: EV_ABS, event_code: ABS_Y, value: y },
            syn_report(),
        ]
    }

    /// The events that move the pointer to `(x, y)`. The coordinates are
    /// passed on unchanged; the device keeps them within its range.
    pub fn move_abs(&self, x: i32, y: i32) -> (events: Vec<InputEvent>)
        ensures
            events@ == Self::spec_move_abs(x, y),
    {
        let mut events: Vec<InputEvent> = Vec::new();
        events.push(InputEvent { event_type: EV_ABS, event_code: ABS_X, value: x });
        events.push(InputEvent { event_type: EV_ABS, event_code: ABS_Y, value: y });
        events.push(InputEvent { event_type: EV_SYN, event_code: SYN_REPORT, value: 0 });
        assert(events@ =~= Self::spec_move_abs(x, y));
        events
    }

    /// The events that press `button`.
    pub fn button_down(&self, button: MouseButton) -> (events: Vec<InputEvent>)
        ensures
            events@ == key_report(button.spec_code(), 1),
    {
        report_key(button.code(), 1)
    }

    /// The events that release `button`.
    pub fn button_up(&self, button: MouseButton) -> (events: Vec<InputEvent>)
        ensures
            events@ == key_report(button.spec_code(), 0),
    {
        report_key(button.code(), 0)
    }
}

/// A keyboard with the keys of `KEYBOARD_KEYS`.
#[derive(Debug, PartialEq, Eq, Clone, Copy, Structural)]
pub struct Keyboard {}

impl Keyboard {
    pub fn new() -> (keyboard: Self)
        ensures
            keyboard == (Keyboard {  }),
    {
        Keyboard {  }
    }

    /// What to enable on the device before it is created: each supported
    /// key, in the order of the table.
    pub open spec fn spec_setup() -> Seq<Enable> {
        Seq::new(
            KEYBOARD_KEYS@.len(),
            |i: int| Enable::Code { event_type: EV_KEY, event_code: KEYBOARD_KEYS@[i] },
        )
    }

    /// What to enable on the device before it is created, in order.
    pub fn setup(&self) -> (steps: Vec<Enable>)
        ensures
            steps@ == Self::spec_setup(),
    {
        let mut steps: Vec<Enable> = Vec::new();
        let mut i: usize = 0;
        while i < KEYBOARD_KEYS.len()
            invariant
                i <= KEYBOARD_KEYS@.len(),
                steps@.len() == i,
                forall|j: int|
                    0 <= j < i ==> steps@[j] == (Enable::Code {
                        event_type: EV_KEY,
                        event_code: KEYBOARD_KEYS@[j],
                    }),
            decreases KEYBOARD_KEYS@.len() - i,
        {
            steps.push(Enable::Code { event_type: EV_KEY, event_code: KEYBOARD_KEYS[i] });
            i += 1;
        }
        assert(steps@ =~= Self::spec_setup());
        steps
    }

    /// What pressing (`value` 1) or releasing (`value` 0) the key of a
    /// hardware button number comes to.
    pub open spec fn spec_key(button: u16, value: i32) -> Result<Seq<InputEvent>, Error> {
        match spec_button_to_ev_key(button) {
            Ok(code) => Ok(key_report(code, value)),
            Err(error) => Err(error),
        }
    }

    /// The events that press the key of the hardware button `button`, or
    /// the error if the keyboard has no such key.
    pub fn key_down(&self, button: u16) -> (r: Result<Vec<InputEvent>, Error>)
        ensures
            events_view(r) == Self::spec_key(button, 1),
    {
        match button_to_ev_key(button) {
            Ok(code) => Ok(report_key(code, 1)),
            Err(error) => Err(error),
        }
    }

    /// The events that release the key of the hardware button `button`,
    /// or the error if the keyboard has no such key.
    pub fn key_up(&self, button: u16) -> (r: Result<Vec<InputEvent>, Error>)
        ensures
            events_view(r) == Self::spec_key(button, 0),
    {
        match button_to_ev_key(button) {
            Ok(code) => Ok(report_key(code, 0)),
            Err(error) => Err(error),
        }
    }
}

/// A result with its events as a sequence.
pub open spec fn events_view(r: Result<Vec<InputEvent>, Error>) -> Result<Seq<InputEvent>, Error> {
    match r {
        Ok(events) => Ok(events@),
        Err(error) => Err(error),
    }
}

} // verus!
