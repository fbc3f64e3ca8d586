//! Translation of window messages into input.
use vstd::prelude::*;
use crate::imgui::gamepad::NavInputs;

verus! {

/// Focus gained.
pub const WM_SETFOCUS: u32 = 0x0007;

/// Focus lost.
pub const WM_KILLFOCUS: u32 = 0x0008;

/// Cursor shape requested.
pub const WM_SETCURSOR: u32 = 0x0020;

/// Key pressed.
pub const WM_KEYDOWN: u32 = 0x0100;

/// Key released.
pub const WM_KEYUP: u32 = 0x0101;

/// Character typed.
pub const WM_CHAR: u32 = 0x0102;

/// System key pressed.
pub const WM_SYSKEYDOWN: u32 = 0x0104;

/// System key released.
pub const WM_SYSKEYUP: u32 = 0x0105;

/// Mouse moved.
pub const WM_MOUSEMOVE: u32 = 0x0200;

/// Left button pressed.
pub const WM_LBUTTONDOWN: u32 = 0x0201;

/// Left button released.
pub const WM_LBUTTONUP: u32 = 0x0202;

/// Left button pressed twice.
pub const WM_LBUTTONDBLCLK: u32 = 0x0203;

/// Right button pressed.
pub const WM_RBUTTONDOWN: u32 = 0x0204;

/// Right button released.
pub const WM_RBUTTONUP: u32 = 0x0205;

/// Right button pressed twice.
pub const WM_RBUTTONDBLCLK: u32 = 0x0206;

/// Middle button pressed.
pub const WM_MBUTTONDOWN: u32 = 0x0207;

/// Middle button released.
pub const WM_MBUTTONUP: u32 = 0x0208;

/// Middle button pressed twice.
pub const WM_MBUTTONDBLCLK: u32 = 0x0209;

/// Wheel turned.
pub const WM_MOUSEWHEEL: u32 = 0x020A;

/// Extra button pressed.
pub const WM_XBUTTONDOWN: u32 = 0x020B;

/// Extra button released.
pub const WM_XBUTTONUP: u32 = 0x020C;

/// Extra button pressed twice.
pub const WM_XBUTTONDBLCLK: u32 = 0x020D;

/// Wheel tilted.
pub const WM_MOUSEHWHEEL: u32 = 0x020E;

/// Devices changed.
pub const WM_DEVICECHANGE: u32 = 0x0219;

/// Mouse left the window.
pub const WM_MOUSELEAVE: u32 = 0x02A3;

/// The device tree changed.
pub const DBT_DEVNODES_CHANGED: usize = 7;

/// The cursor is over the client area.
pub const HTCLIENT: u16 = 1;

/// The first extra button.
pub const XBUTTON1: u16 = 1;

/// Wheel units of one notch.
pub const WHEEL_DELTA: i16 = 120;

/// Mouse buttons.
pub const MOUSE_BUTTONS: usize = 5;

/// Virtual keys.
pub const KEYS: usize = 256;

/// Translation result with an explicit, caller-controlled capture policy.
#[derive(Clone, Copy, Debug, PartialEq, Eq, Structural)]
pub struct MessageOutcome {
    /// The platform backend recognized and observed the message.
    pub observed: bool,
    /// Dear ImGui requests capture of this mouse message.
    pub capture_mouse: bool,
    /// Dear ImGui requests capture of this keyboard/text message.
    pub capture_keyboard: bool,
    /// A device-change message requested a gamepad capability refresh.
    pub refresh_gamepad: bool,
    /// A client-area cursor message requested an immediate cursor update.
    pub refresh_cursor: bool,
}

/// The outcome of a message that was not recognized.
pub open spec fn ignored() -> MessageOutcome {
    MessageOutcome {
        observed: false,
        capture_mouse: false,
        capture_keyboard: false,
        refresh_gamepad: false,
        refresh_cursor: false,
    }
}

impl Default for MessageOutcome {
    fn default() -> (outcome: Self)
        ensures
            outcome == ignored(),
    {
        Self {
            observed: false,
            capture_mouse: false,
            capture_keyboard: false,
            refresh_gamepad: false,
            refresh_cursor: false,
        }
    }
}

impl MessageOutcome {
    /// Returns whether policy should suppress the message from the game.
    ///
    /// Capture is never automatic: hiding the overlay forces pass-through even
    /// if the previous frame still requested input.
    pub fn should_consume(self, overlay_visible: bool) -> (consume: bool)
        ensures
            consume == (overlay_visible && (self.capture_mouse || self.capture_keyboard)),
    {
        overlay_visible && (self.capture_mouse || self.capture_keyboard)
    }
}

/// What a message does to the input.
#[derive(Clone, Copy, Debug, PartialEq, Eq, Structural)]
pub enum InputChange {
    /// A mouse button was pressed or released.
    MouseButton {
        /// Button.
        button: usize,
        /// Whether it is pressed now.
        pressed: bool,
    },
    /// The wheel was turned by so many units.
    Wheel(i16),
    /// The wheel was tilted by so many units.
    HorizontalWheel(i16),
    /// The mouse is at this position of the client area.
    MouseAt {
        /// Horizontal position.
        x: i16,
        /// Vertical position.
        y: i16,
    },
    /// The mouse is nowhere in the client area.
    MouseGone,
    /// A key was pressed or released.
    Key {
        /// Virtual key.
        key: usize,
        /// Whether it is pressed now.
        pressed: bool,
    },
    /// A UTF-16 code unit was typed.
    Character(u16),
    /// Everything that was pressed counts as released.
    ReleaseAll,
    /// Nothing changes.
    Nothing,
}

/// Who a message is for.
#[derive(Clone, Copy, Debug, PartialEq, Eq, Structural)]
pub enum MessageClass {
    /// The mouse.
    Mouse,
    /// The keyboard.
    Keyboard,
    /// Both, since the focus moved.
    Focus,
    /// The gamepad.
    Device,
    /// The cursor.
    Cursor,
}

/// The low word of a value.
pub open spec fn low(value: usize) -> u16 {
    (value % 0x1_0000) as u16
}

/// The high word of the low double word of a value.
pub open spec fn high(value: usize) -> u16 {
    (value / 0x1_0000 % 0x1_0000) as u16
}

/// A word read as a signed number.
pub open spec fn signed(word: u16) -> int {
    if word >= 0x8000 {
        word - 0x1_0000
    } else {
        word as int
    }
}

fn low_word(value: usize) -> (word: u16)
    ensures
        word == low(value),
{
    (value % 0x1_0000) as u16
}

fn high_word(value: usize) -> (word: u16)
    ensures
        word == high(value),
{
    (value / 0x1_0000 % 0x1_0000) as u16
}

fn signed_word(word: u16) -> (number: i16)
    ensures
        number == signed(word),
{
    if word >= 0x8000 {
        (word as i32 - 0x1_0000) as i16
    } else {
        word as i16
    }
}

/// The button that a button message is about.
pub open spec fn button_of(message: u32, wparam: usize) -> usize {
    if message == WM_LBUTTONDOWN || message == WM_LBUTTONDBLCLK || message == WM_LBUTTONUP {
        0
    } else if message == WM_RBUTTONDOWN || message == WM_RBUTTONDBLCLK || message == WM_RBUTTONUP {
        1
    } else if message == WM_MBUTTONDOWN || message == WM_MBUTTONDBLCLK || message == WM_MBUTTONUP {
        2
    } else if high(wparam) == XBUTTON1 {
        3
    } else {
        4
    }
}

fn mouse_button(message: u32, wparam: usize) -> (button: usize)
    ensures
        button == button_of(message, wparam),
        button < MOUSE_BUTTONS,
{
    if message == WM_LBUTTONDOWN || message == WM_LBUTTONDBLCLK || message == WM_LBUTTONUP {
        0
    } else if message == WM_RBUTTONDOWN || message == WM_RBUTTONDBLCLK || message == WM_RBUTTONUP {
        1
    } else if message == WM_MBUTTONDOWN || message == WM_MBUTTONDBLCLK || message == WM_MBUTTONUP {
        2
    } else if high_word(wparam) == XBUTTON1 {
        3
    } else {
        4
    }
}

/// Whether a message says that a mouse button went down.
pub open spec fn is_press(message: u32) -> bool {
    message == WM_LBUTTONDOWN || message == WM_LBUTTONDBLCLK || message == WM_RBUTTONDOWN || message
        == WM_RBUTTONDBLCLK || message == WM_MBUTTONDOWN || message == WM_MBUTTONDBLCLK || message
        == WM_XBUTTONDOWN || message == WM_XBUTTONDBLCLK
}

/// Whether a message says that a mouse button went up.
pub open spec fn is_release(message: u32) -> bool {
    message == WM_LBUTTONUP || message == WM_RBUTTONUP || message == WM_MBUTTONUP || message
        == WM_XBUTTONUP
}

/// What a message does to the input and who it is for, if it is recognized.
pub open spec fn translated(message: u32, wparam: usize, lparam: usize) -> Option<
    (InputChange, MessageClass),
> {
    if is_press(message) {
        Some(
            (
                InputChange::MouseButton { button: button_of(message, wparam), pressed: true },
                MessageClass::Mouse,
            ),
        )
    } else if is_release(message) {
        Some(
            (
                InputChange::MouseButton { button: button_of(message, wparam), pressed: false },
                MessageClass::Mouse,
            ),
        )
    } else if message == WM_MOUSEWHEEL {
        Some((InputChange::Wheel(signed(high(wparam)) as i16), MessageClass::Mouse))
    } else if message == WM_MOUSEHWHEEL {
        Some((InputChange::HorizontalWheel(signed(high(wparam)) as i16), MessageClass::Mouse))
    } else if message == WM_MOUSEMOVE {
        Some(
            (
                InputChange::MouseAt {
                    x: signed(low(lparam)) as i16,
                    y: signed(high(lparam)) as i16,
                },
                MessageClass::Mouse,
            ),
        )
    } else if message == WM_MOUSELEAVE {
        Some((InputChange::MouseGone, MessageClass::Mouse))
    } else if message == WM_KEYDOWN || message == WM_SYSKEYDOWN {
        Some(
            (
                if wparam < KEYS {
                    InputChange::Key { key: wparam, pressed: true }
                } else {
                    InputChange::Nothing
                },
                MessageClass::Keyboard,
            ),
        )
    } else if message == WM_KEYUP || message == WM_SYSKEYUP {
        Some(
            (
                if wparam < KEYS {
                    InputChange::Key { key: wparam, pressed: false }
                } else {
                    InputChange::Nothing
                },
                MessageClass::Keyboard,
            ),
        )
    } else if message == WM_CHAR {
        Some(
            (
                if 1 <= wparam < 0x1_0000 {
                    InputChange::Character(wparam as u16)
                } else {
                    InputChange::Nothing
                },
                MessageClass::Keyboard,
            ),
        )
    } else if message == WM_KILLFOCUS {
        Some((InputChange::ReleaseAll, MessageClass::Focus))
    } else if message == WM_SETFOCUS {
        Some((InputChange::Nothing, MessageClass::Focus))
    } else if message == WM_DEVICECHANGE && wparam == DBT_DEVNODES_CHANGED {
        Some((InputChange::Nothing, MessageClass::Device))
    } else if message == WM_SETCURSOR && low(lparam) == HTCLIENT {
        Some((InputChange::Nothing, MessageClass::Cursor))
    } else {
        None
    }
}

/// The outcome of a message, given what the last frame wants to capture.
pub open spec fn outcome_of(
    translated: Option<(InputChange, MessageClass)>,
    want_mouse: bool,
    want_keyboard: bool,
) -> MessageOutcome {
    match translated {
        None => ignored(),
        Some((_, class)) => MessageOutcome {
            observed: true,
            capture_mouse: (class == MessageClass::Mouse || class == MessageClass::Focus)
                && want_mouse,
            capture_keyboard: (class == MessageClass::Keyboard || class == MessageClass::Focus)
                && want_keyboard,
            refresh_gamepad: class == MessageClass::Device,
            refresh_cursor: class == MessageClass::Cursor,
        },
    }
}

/// Translates a window message. The second parameter of the message is taken
/// as the bits that it has.
pub fn translate_message(message: u32, wparam: usize, lparam: usize) -> (result: Option<
    (InputChange, MessageClass),
>)
    ensures
        result == translated(message, wparam, lparam),
        result matches Some((InputChange::MouseButton { button, .. }, _)) ==> button < MOUSE_BUTTONS,
        result matches Some((InputChange::Key { key, .. }, _)) ==> key < KEYS,
{
    match message {
        WM_LBUTTONDOWN | WM_LBUTTONDBLCLK | WM_RBUTTONDOWN | WM_RBUTTONDBLCLK | WM_MBUTTONDOWN
        | WM_MBUTTONDBLCLK | WM_XBUTTONDOWN | WM_XBUTTONDBLCLK => {
            let button = mouse_button(message, wparam);
            Some((InputChange::MouseButton { button, pressed: true }, MessageClass::Mouse))
        },
        WM_LBUTTONUP | WM_RBUTTONUP | WM_MBUTTONUP | WM_XBUTTONUP => {
            let button = mouse_button(message, wparam);
            Some((InputChange::MouseButton { button, pressed: false }, MessageClass::Mouse))
        },
        WM_MOUSEWHEEL => {
            Some((InputChange::Wheel(signed_word(high_word(wparam))), MessageClass::Mouse))
        },
        WM_MOUSEHWHEEL => {
            Some(
                (InputChange::HorizontalWheel(signed_word(high_word(wparam))), MessageClass::Mouse),
            )
        },
        WM_MOUSEMOVE => {
            let x = signed_word(low_word(lparam));
            let y = signed_word(high_word(lparam));
            Some((InputChange::MouseAt { x, y }, MessageClass::Mouse))
        },
        WM_MOUSELEAVE => Some((InputChange::MouseGone, MessageClass::Mouse)),
        WM_KEYDOWN | WM_SYSKEYDOWN => {
            let change = if wparam < KEYS {
                InputChange::Key { key: wparam, pressed: true }
            } else {
                InputChange::Nothing
            };
            Some((change, MessageClass::Keyboard))
        },
        WM_KEYUP | WM_SYSKEYUP => {
            let change = if wparam < KEYS {
                InputChange::Key { key: wparam, pressed: false }
            } else {
                InputChange::Nothing
            };
            Some((change, MessageClass::Keyboard))
        },
        WM_CHAR => {
            let change = if 1 <= wparam && wparam < 0x1_0000 {
                InputChange::Character(wparam as u16)
            } else {
                InputChange::Nothing
            };
            Some((change, MessageClass::Keyboard))
        },
        WM_KILLFOCUS => Some((InputChange::ReleaseAll, MessageClass::Focus)),
        WM_SETFOCUS => Some((InputChange::Nothing, MessageClass::Focus)),
        WM_DEVICECHANGE => {
            if wparam == DBT_DEVNODES_CHANGED {
                Some((InputChange::Nothing, MessageClass::Device))
            } else {
                None
            }
        },
        WM_SETCURSOR => {
            if low_word(lparam) == HTCLIENT {
                Some((InputChange::Nothing, MessageClass::Cursor))
            } else {
                None
            }
        },
        _ => None,
    }
}

/// The input of one context.
#[derive(Debug, PartialEq, Eq)]
pub struct InputState {
    mouse_down: Vec<bool>,
    keys_down: Vec<bool>,
    wheel: Vec<i16>,
    horizontal_wheel: Vec<i16>,
    mouse: Option<(i32, i32)>,
    characters: Vec<u16>,
    ctrl: bool,
    shift: bool,
    alt: bool,
    super_key: bool,
    navigation: Option<NavInputs>,
}

/// The input in terms of sequences.
#[verifier::ext_equal]
pub struct InputModel {
    /// Mouse buttons that are pressed.
    pub mouse_down: Seq<bool>,
    /// Keys that are pressed.
    pub keys_down: Seq<bool>,
    /// Units by which the wheel was turned since the last frame.
    pub wheel: Seq<i16>,
    /// Units by which the wheel was tilted since the last frame.
    pub horizontal_wheel: Seq<i16>,
    /// Position of the mouse, if it is anywhere.
    pub mouse: Option<(i32, i32)>,
    /// UTF-16 code units that were typed.
    pub characters: Seq<u16>,
    /// Whether the control key is pressed.
    pub ctrl: bool,
    /// Whether the shift key is pressed.
    pub shift: bool,
    /// Whether the alt key is pressed.
    pub alt: bool,
    /// Whether the super key is pressed.
    pub super_key: bool,
    /// Navigation inputs of a gamepad. Without any, all of them are zero.
    pub navigation: Option<NavInputs>,
}

impl View for InputState {
    type V = InputModel;

    closed spec fn view(&self) -> InputModel {
        InputModel {
            mouse_down: self.mouse_down@,
            keys_down: self.keys_down@,
            wheel: self.wheel@,
            horizontal_wheel: self.horizontal_wheel@,
            mouse: self.mouse,
            characters: self.characters@,
            ctrl: self.ctrl,
            shift: self.shift,
            alt: self.alt,
            super_key: self.super_key,
            navigation: self.navigation,
        }
    }
}

/// As many switches that are off.
pub open spec fn released(count: nat) -> Seq<bool> {
    Seq::new(count, |i: int| false)
}

/// The input in which nothing is pressed any more.
pub open spec fn with_all_released(input: InputModel) -> InputModel {
    InputModel {
        mouse_down: released(MOUSE_BUTTONS as nat),
        keys_down: released(KEYS as nat),
        wheel: Seq::empty(),
        horizontal_wheel: Seq::empty(),
        ctrl: false,
        shift: false,
        alt: false,
        super_key: false,
        navigation: None,
        ..input
    }
}

/// The input after a change.
pub open spec fn changed(input: InputModel, change: InputChange) -> InputModel {
    match change {
        InputChange::MouseButton { button, pressed } => InputModel {
            mouse_down: input.mouse_down.update(button as int, pressed),
            ..input
        },
        InputChange::Wheel(delta) => InputModel { wheel: input.wheel.push(delta), ..input },
        InputChange::HorizontalWheel(delta) => InputModel {
            horizontal_wheel: input.horizontal_wheel.push(delta),
            ..input
        },
        InputChange::MouseAt { x, y } => InputModel { mouse: Some((x as i32, y as i32)), ..input },
        InputChange::MouseGone => InputModel { mouse: None, ..input },
        InputChange::Key { key, pressed } => InputModel {
            keys_down: input.keys_down.update(key as int, pressed),
            ..input
        },
        InputChange::Character(unit) => InputModel {
            characters: input.characters.push(unit),
            ..input
        },
        InputChange::ReleaseAll => with_all_released(input),
        InputChange::Nothing => input,
    }
}

fn all_released(count: usize) -> (switches: Vec<bool>)
    ensures
        switches@ == released(count as nat),
{
    let mut switches: Vec<bool> = Vec::new();
    let mut i: usize = 0;
    while i < count
        invariant
            i <= count,
            switches@ == released(i as nat),
        decreases count - i,
    {
        switches.push(false);
        i = i + 1;
        proof {
            assert(switches@ =~= released(i as nat));
        }
    }
    switches
}

impl InputState {
    /// There is a switch for every button and every key.
    pub open spec fn wf(self) -> bool {
        self@.mouse_down.len() == MOUSE_BUTTONS && self@.keys_down.len() == KEYS
    }

    /// Creates input in which nothing is pressed.
    pub fn new() -> (input: Self)
        ensures
            input.wf(),
            input@ == (InputModel {
                mouse_down: released(MOUSE_BUTTONS as nat),
                keys_down: released(KEYS as nat),
                wheel: Seq::empty(),
                horizontal_wheel: Seq::empty(),
                mouse: None,
                characters: Seq::empty(),
                ctrl: false,
                shift: false,
                alt: false,
                super_key: false,
                navigation: None,
            }),
    {
        Self {
            mouse_down: all_released(MOUSE_BUTTONS),
            keys_down: all_released(KEYS),
            wheel: Vec::new(),
            horizontal_wheel: Vec::new(),
            mouse: None,
            characters: Vec::new(),
            ctrl: false,
            shift: false,
            alt: false,
            super_key: false,
            navigation: None,
        }
    }

    /// Returns whether a mouse button is pressed.
    pub fn mouse_down(&self, button: usize) -> (pressed: bool)
        requires
            self.wf(),
            button < MOUSE_BUTTONS,
        ensures
            pressed == self@.mouse_down[button as int],
    {
        self.mouse_down[button]
    }

    /// Returns whether a key is pressed.
    pub fn key_down(&self, key: usize) -> (pressed: bool)
        requires
            self.wf(),
            key < KEYS,
        ensures
            pressed == self@.keys_down[key as int],
    {
        self.keys_down[key]
    }

    /// Returns the units by which the wheel was turned since the last frame.
    pub fn wheel(&self) -> (deltas: &[i16])
        ensures
            deltas@ == self@.wheel,
    {
        self.wheel.as_slice()
    }

    /// Returns the units by which the wheel was tilted since the last frame.
    pub fn horizontal_wheel(&self) -> (deltas: &[i16])
        ensures
            deltas@ == self@.horizontal_wheel,
    {
        self.horizontal_wheel.as_slice()
    }

    /// Returns the position of the mouse, if it is anywhere.
    pub fn mouse(&self) -> (position: Option<(i32, i32)>)
        ensures
            position == self@.mouse,
    {
        self.mouse
    }

    /// Returns the UTF-16 code units that were typed.
    pub fn characters(&self) -> (units: &[u16])
        ensures
            units@ == self@.characters,
    {
        self.characters.as_slice()
    }

    /// Returns whether the control, shift, alt, and super keys are pressed.
    pub fn modifiers(&self) -> (pressed: (bool, bool, bool, bool))
        ensures
            pressed == (self@.ctrl, self@.shift, self@.alt, self@.super_key),
    {
        (self.ctrl, self.shift, self.alt, self.super_key)
    }

    /// Takes over the state of the super key, which the context may have from
    /// elsewhere.
    pub fn set_super(&mut self, pressed: bool)
        ensures
            final(self)@ == (InputModel { super_key: pressed, ..old(self)@ }),
    {
        self.super_key = pressed;
    }

    /// Returns the navigation inputs of a gamepad, if there are any.
    pub fn navigation(&self) -> (inputs: Option<NavInputs>)
        ensures
            inputs == self@.navigation,
    {
        self.navigation
    }

    /// Takes over the navigation inputs of a gamepad.
    pub fn set_navigation(&mut self, inputs: Option<NavInputs>)
        ensures
            final(self)@ == (InputModel { navigation: inputs, ..old(self)@ }),
    {
        self.navigation = inputs;
    }

    /// Takes over the states of the control, shift, and alt keys, negative
    /// where a key is pressed. The super key is never taken for pressed.
    pub fn update_modifiers(&mut self, ctrl: i16, shift: i16, alt: i16)
        ensures
            final(self)@ == (InputModel {
                ctrl: ctrl < 0,
                shift: shift < 0,
                alt: alt < 0,
                super_key: false,
                ..old(self)@
            }),
    {
        self.ctrl = ctrl < 0;
        self.shift = shift < 0;
        self.alt = alt < 0;
        self.super_key = false;
    }

    /// Takes over the position of the mouse.
    pub fn set_mouse(&mut self, position: Option<(i32, i32)>)
        ensures
            final(self)@ == (InputModel { mouse: position, ..old(self)@ }),
    {
        self.mouse = position;
    }

    /// Forgets the wheel and the typed characters once a frame has seen them.
    pub fn end_frame(&mut self)
        ensures
            final(self)@ == (InputModel {
                wheel: Seq::empty(),
                horizontal_wheel: Seq::empty(),
                characters: Seq::empty(),
                ..old(self)@
            }),
    {
        self.wheel = Vec::new();
        self.horizontal_wheel = Vec::new();
        self.characters = Vec::new();
    }

    /// Releases everything that is pressed.
    pub fn clear_pressed_input(&mut self)
        ensures
            final(self).wf(),
            final(self)@ == with_all_released(old(self)@),
    {
        self.mouse_down = all_released(MOUSE_BUTTONS);
        self.keys_down = all_released(KEYS);
        self.wheel = Vec::new();
        self.horizontal_wheel = Vec::new();
        self.ctrl = false;
        self.shift = false;
        self.alt = false;
        self.super_key = false;
        self.navigation = None;
    }

    /// Applies a window message, given what the last frame wants to capture.
    pub fn apply_message(
        &mut self,
        message: u32,
        wparam: usize,
        lparam: usize,
        want_mouse: bool,
        want_keyboard: bool,
    ) -> (outcome: MessageOutcome)
        requires
            old(self).wf(),
        ensures
            final(self).wf(),
            final(self)@ == (match translated(message, wparam, lparam) {
                Some((change, _)) => changed(old(self)@, change),
                None => old(self)@,
            }),
            outcome == outcome_of(translated(message, wparam, lparam), want_mouse, want_keyboard),
    {
        let (change, class) = match translate_message(message, wparam, lparam) {
            None => return MessageOutcome::default(),
            Some(translated) => translated,
        };
        match change {
            InputChange::MouseButton { button, pressed } => {
                self.mouse_down[button] = pressed;
            },
            InputChange::Wheel(delta) => {
                self.wheel.push(delta);
            },
            InputChange::HorizontalWheel(delta) => {
                self.horizontal_wheel.push(delta);
            },
            InputChange::MouseAt { x, y } => {
                self.mouse = Some((x as i32, y as i32));
            },
            InputChange::MouseGone => {
                self.mouse = None;
            },
            InputChange::Key { key, pressed } => {
                self.keys_down[key] = pressed;
            },
            InputChange::Character(unit) => {
                self.characters.push(unit);
            },
            InputChange::ReleaseAll => {
                self.clear_pressed_input();
            },
            InputChange::Nothing => {},
        }
        MessageOutcome {
            observed: true,
            capture_mouse: (class == MessageClass::Mouse || class == MessageClass::Focus)
                && want_mouse,
            capture_keyboard: (class == MessageClass::Keyboard || class == MessageClass::Focus)
                && want_keyboard,
            refresh_gamepad: class == MessageClass::Device,
            refresh_cursor: class == MessageClass::Cursor,
        }
    }
}

/// Losing the focus leaves no button, no key, and no modifier pressed, no wheel
/// turned, and no navigation input held.
pub proof fn law_focus_loss_clears_stuck_input(
    input: InputModel,
    wparam: usize,
    lparam: usize,
    button: int,
    key: int,
)
    requires
        0 <= button < MOUSE_BUTTONS,
        0 <= key < KEYS,
    ensures
        translated(WM_KILLFOCUS, wparam, lparam) matches Some((change, _)) && {
            let after = changed(input, change);
            &&& !after.mouse_down[button]
            &&& !after.keys_down[key]
            &&& !after.ctrl && !after.shift && !after.alt && !after.super_key
            &&& after.wheel.len() == 0 && after.horizontal_wheel.len() == 0
            &&& after.navigation is None
        },
{
}

/// Coordinates and wheel units keep their sign.
pub proof fn law_signed_words_round_trip(value: i16)
    ensures
        signed(
            if value < 0 {
                (value + 0x1_0000) as u16
            } else {
                value as u16
            },
        ) == value,
{
}

/// What was not recognized is never captured, whatever the last frame wants.
pub proof fn law_unrecognized_messages_pass_through(
    message: u32,
    wparam: usize,
    lparam: usize,
    want_mouse: bool,
    want_keyboard: bool,
)
    ensures
        ({
            let outcome = outcome_of(
                translated(message, wparam, lparam),
                want_mouse,
                want_keyboard,
            );
            !outcome.observed ==> !outcome.capture_mouse && !outcome.capture_keyboard
        }),
{
}

/// Each button message names its own button: the left one is the first, the
/// right one the second, and the middle one the third. The extra buttons come
/// after them. A double click counts as a press.
pub proof fn law_button_messages_name_their_button(message: u32, wparam: usize, lparam: usize)
    ensures
        0x201 <= message <= 0x203 ==> translated(message, wparam, lparam) == Some(
            (
                InputChange::MouseButton { button: 0, pressed: message != 0x202 },
                MessageClass::Mouse,
            ),
        ),
        0x204 <= message <= 0x206 ==> translated(message, wparam, lparam) == Some(
            (
                InputChange::MouseButton { button: 1, pressed: message != 0x205 },
                MessageClass::Mouse,
            ),
        ),
        0x207 <= message <= 0x209 ==> translated(message, wparam, lparam) == Some(
            (
                InputChange::MouseButton { button: 2, pressed: message != 0x208 },
                MessageClass::Mouse,
            ),
        ),
        0x20b <= message <= 0x20d ==> translated(message, wparam, lparam) == Some(
            (
                InputChange::MouseButton {
                    button: if wparam as int / 0x1_0000 % 0x1_0000 == 1 {
                        3
                    } else {
                        4
                    },
                    pressed: message != 0x20c,
                },
                MessageClass::Mouse,
            ),
        ),
{
}

/// A signed number as the word that carries it.
pub open spec fn word_of(number: i16) -> int {
    if number < 0 {
        number + 0x1_0000
    } else {
        number as int
    }
}

/// The wheel turns, or tilts, by the signed number in the upper word of the
/// first parameter, whatever its lower word says.
pub proof fn law_wheel_messages_carry_their_distance(wparam: usize, lparam: usize, delta: i16)
    requires
        wparam as int / 0x1_0000 % 0x1_0000 == word_of(delta),
    ensures
        translated(0x20a, wparam, lparam) == Some((InputChange::Wheel(delta), MessageClass::Mouse)),
        translated(0x20e, wparam, lparam) == Some(
            (InputChange::HorizontalWheel(delta), MessageClass::Mouse),
        ),
{
}

/// The mouse moves to the horizontal position in the lower word of the second
/// parameter and the vertical position in its upper word, both signed.
pub proof fn law_mouse_messages_carry_their_position(wparam: usize, lparam: usize, x: i16, y: i16)
    requires
        lparam as int % 0x1_0000 == word_of(x),
        lparam as int / 0x1_0000 % 0x1_0000 == word_of(y),
    ensures
        translated(0x200, wparam, lparam) == Some(
            (InputChange::MouseAt { x, y }, MessageClass::Mouse),
        ),
        translated(0x2a3, wparam, lparam) == Some((InputChange::MouseGone, MessageClass::Mouse)),
{
}

/// Key messages, of the system or not, name their key, if there is such a key.
pub proof fn law_key_messages_name_their_key(message: u32, wparam: usize, lparam: usize)
    requires
        message == 0x100 || message == 0x101 || message == 0x104 || message == 0x105,
    ensures
        wparam < 256 ==> translated(message, wparam, lparam) == Some(
            (
                InputChange::Key { key: wparam, pressed: message == 0x100 || message == 0x104 },
                MessageClass::Keyboard,
            ),
        ),
        wparam >= 256 ==> translated(message, wparam, lparam) == Some(
            (InputChange::Nothing, MessageClass::Keyboard),
        ),
{
}

/// A typed character is one code unit of UTF-16 other than NUL.
pub proof fn law_character_messages_carry_one_unit(wparam: usize, lparam: usize, unit: u16)
    ensures
        wparam == unit && unit != 0 ==> translated(0x102, wparam, lparam) == Some(
            (InputChange::Character(unit), MessageClass::Keyboard),
        ),
        wparam == 0 || wparam > 0xffff ==> translated(0x102, wparam, lparam) == Some(
            (InputChange::Nothing, MessageClass::Keyboard),
        ),
{
}

/// Which messages are recognized, besides those of buttons, wheels, the mouse,
/// and keys: focus messages, a changed device tree, and a cursor over the
/// client area.
pub proof fn law_other_messages_are_recognized_exactly(message: u32, wparam: usize, lparam: usize)
    ensures
        message == 7 ==> translated(message, wparam, lparam) == Some(
            (InputChange::Nothing, MessageClass::Focus),
        ),
        message == 8 ==> translated(message, wparam, lparam) == Some(
            (InputChange::ReleaseAll, MessageClass::Focus),
        ),
        message == 0x219 ==> translated(message, wparam, lparam) == (if wparam == 7 {
            Some((InputChange::Nothing, MessageClass::Device))
        } else {
            None
        }),
        message == 0x20 ==> translated(message, wparam, lparam) == (if lparam as int % 0x1_0000
            == 1 {
            Some((InputChange::Nothing, MessageClass::Cursor))
        } else {
            None
        }),
        !(0x200 <= message <= 0x20e || message == 0x2a3 || 0x100 <= message <= 0x102 || message
            == 0x104 || message == 0x105 || message == 7 || message == 8 || message == 0x219
            || message == 0x20) ==> translated(message, wparam, lparam) is None,
{
}

/// A button or a key changes nothing but its own switch.
pub proof fn law_switches_change_alone(input: InputModel, at: usize, other: int, pressed: bool)
    ensures
        at < input.mouse_down.len() ==> {
            let after = changed(input, InputChange::MouseButton { button: at, pressed });
            &&& after.mouse_down[at as int] == pressed
            &&& other != at && 0 <= other < input.mouse_down.len() ==> after.mouse_down[other]
                == input.mouse_down[other]
            &&& after.mouse_down.len() == input.mouse_down.len()
            &&& after == (InputModel { mouse_down: after.mouse_down, ..input })
        },
        at < input.keys_down.len() ==> {
            let after = changed(input, InputChange::Key { key: at, pressed });
            &&& after.keys_down[at as int] == pressed
            &&& other != at && 0 <= other < input.keys_down.len() ==> after.keys_down[other]
                == input.keys_down[other]
            &&& after.keys_down.len() == input.keys_down.len()
            &&& after == (InputModel { keys_down: after.keys_down, ..input })
        },
{
}

/// The wheels collect every distance and the typed characters every unit, in
/// order, and the mouse is where it was seen last.
pub proof fn law_input_collects_what_messages_carry(input: InputModel, x: i16, y: i16, unit: u16)
    ensures
        ({
            let after = changed(input, InputChange::Wheel(x));
            &&& after.wheel.drop_last() == input.wheel
            &&& after.wheel.len() == input.wheel.len() + 1
            &&& after.wheel.last() == x
            &&& after == (InputModel { wheel: after.wheel, ..input })
        }),
        ({
            let after = changed(input, InputChange::HorizontalWheel(x));
            &&& after.horizontal_wheel.drop_last() == input.horizontal_wheel
            &&& after.horizontal_wheel.len() == input.horizontal_wheel.len() + 1
            &&& after.horizontal_wheel.last() == x
            &&& after == (InputModel { horizontal_wheel: after.horizontal_wheel, ..input })
        }),
        ({
            let after = changed(input, InputChange::Character(unit));
            &&& after.characters.drop_last() == input.characters
            &&& after.characters.len() == input.characters.len() + 1
            &&& after.characters.last() == unit
            &&& after == (InputModel { characters: after.characters, ..input })
        }),
        ({
            let after = changed(input, InputChange::MouseAt { x, y });
            &&& after.mouse matches Some((across, down)) && across == x && down == y
            &&& after == (InputModel { mouse: after.mouse, ..input })
        }),
        changed(input, InputChange::MouseGone) == (InputModel { mouse: None, ..input }),
        changed(input, InputChange::Nothing) == input,
{
    assert(changed(input, InputChange::Wheel(x)).wheel.drop_last() =~= input.wheel);
    assert(changed(input, InputChange::HorizontalWheel(x)).horizontal_wheel.drop_last()
        =~= input.horizontal_wheel);
    assert(changed(input, InputChange::Character(unit)).characters.drop_last() =~= input.characters);
}

/// A recognized message is captured for the mouse exactly if it is one of the
/// mouse or of the focus and the last frame wants the mouse, and likewise for
/// the keyboard. Only a changed device tree asks for the gamepad again, and
/// only a cursor message for the cursor.
pub proof fn law_capture_follows_the_kind_of_message(
    message: u32,
    wparam: usize,
    lparam: usize,
    want_mouse: bool,
    want_keyboard: bool,
)
    ensures
        ({
            let mouse = 0x200 <= message <= 0x20e || message == 0x2a3;
            let keyboard = 0x100 <= message <= 0x102 || message == 0x104 || message == 0x105;
            let focus = message == 7 || message == 8;
            let device = message == 0x219 && wparam == 7;
            let cursor = message == 0x20 && lparam as int % 0x1_0000 == 1;
            let outcome = outcome_of(
                translated(message, wparam, lparam),
                want_mouse,
                want_keyboard,
            );
            &&& outcome.observed == (mouse || keyboard || focus || device || cursor)
            &&& outcome.capture_mouse == ((mouse || focus) && want_mouse)
            &&& outcome.capture_keyboard == ((keyboard || focus) && want_keyboard)
            &&& outcome.refresh_gamepad == device
            &&& outcome.refresh_cursor == cursor
        }),
{
}

/// Releasing everything keeps only where the mouse is and what was typed.
pub proof fn law_release_keeps_position_and_text(input: InputModel, at: int)
    ensures
        ({
            let after = with_all_released(input);
            &&& after.mouse == input.mouse
            &&& after.characters == input.characters
            &&& after.mouse_down.len() == 5
            &&& after.keys_down.len() == 256
            &&& 0 <= at < 5 ==> !after.mouse_down[at]
            &&& 0 <= at < 256 ==> !after.keys_down[at]
        }),
{
}

} // verus!
