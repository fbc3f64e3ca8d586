//! Gamepad navigation.
use vstd::prelude::*;
use crate::imgui::message::{InputModel, InputState};

verus! {

/// Directional pad pressed up.
pub const GAMEPAD_DPAD_UP: u16 = 0x0001;

/// Directional pad pressed down.
pub const GAMEPAD_DPAD_DOWN: u16 = 0x0002;

/// Directional pad pressed left.
pub const GAMEPAD_DPAD_LEFT: u16 = 0x0004;

/// Directional pad pressed right.
pub const GAMEPAD_DPAD_RIGHT: u16 = 0x0008;

/// Left shoulder button.
pub const GAMEPAD_LEFT_SHOULDER: u16 = 0x0100;

/// Right shoulder button.
pub const GAMEPAD_RIGHT_SHOULDER: u16 = 0x0200;

/// A button.
pub const GAMEPAD_A: u16 = 0x1000;

/// B button.
pub const GAMEPAD_B: u16 = 0x2000;

/// X button.
pub const GAMEPAD_X: u16 = 0x4000;

/// Y button.
pub const GAMEPAD_Y: u16 = 0x8000;

/// Deflection of the left stick below which it counts as centered.
pub const LEFT_THUMB_DEADZONE: i32 = 7849;

/// What the native library reports about a gamepad.
#[derive(Clone, Copy, Debug, PartialEq, Eq, Structural)]
pub struct Gamepad {
    /// Pressed buttons.
    pub buttons: u16,
    /// Horizontal deflection of the left stick.
    pub thumb_x: i16,
    /// Vertical deflection of the left stick.
    pub thumb_y: i16,
}

/// A deflection as a part of the greatest one.
#[derive(Clone, Copy, Debug, PartialEq, Eq, Structural)]
pub struct Analog {
    /// Deflection past the dead zone.
    pub part: u32,
    /// Greatest deflection past the dead zone.
    pub whole: u32,
}

/// Navigation inputs of one frame.
#[derive(Clone, Copy, Debug, PartialEq, Eq, Structural)]
pub struct NavInputs {
    /// Activate.
    pub activate: bool,
    /// Cancel.
    pub cancel: bool,
    /// Toggle the menu.
    pub menu: bool,
    /// Enter text.
    pub input: bool,
    /// Move left.
    pub dpad_left: bool,
    /// Move right.
    pub dpad_right: bool,
    /// Move up.
    pub dpad_up: bool,
    /// Move down.
    pub dpad_down: bool,
    /// Focus the previous window.
    pub focus_prev: bool,
    /// Focus the next window.
    pub focus_next: bool,
    /// Move slowly.
    pub tweak_slow: bool,
    /// Move fast.
    pub tweak_fast: bool,
    /// Scroll left.
    pub stick_left: Analog,
    /// Scroll right.
    pub stick_right: Analog,
    /// Scroll up.
    pub stick_up: Analog,
    /// Scroll down.
    pub stick_down: Analog,
}

/// A deflection from where the dead zone ends up to a limit, in the direction
/// of the limit.
pub open spec fn deflection(value: int, start: int, end: int) -> Analog {
    let whole = if end > start {
        end - start
    } else {
        start - end
    };
    let part = if end > start {
        value - start
    } else {
        start - value
    };
    Analog {
        part: (if part < 0 {
            0
        } else if part > whole {
            whole
        } else {
            part
        }) as u32,
        whole: whole as u32,
    }
}

/// Whether a button is pressed.
pub open spec fn pressed(gamepad: Gamepad, mask: u16) -> bool {
    gamepad.buttons & mask != 0
}

/// The navigation inputs of a gamepad.
pub open spec fn nav_inputs_of(gamepad: Gamepad) -> NavInputs {
    let x = gamepad.thumb_x as int;
    let y = gamepad.thumb_y as int;
    NavInputs {
        activate: pressed(gamepad, GAMEPAD_A),
        cancel: pressed(gamepad, GAMEPAD_B),
        menu: pressed(gamepad, GAMEPAD_X),
        input: pressed(gamepad, GAMEPAD_Y),
        dpad_left: pressed(gamepad, GAMEPAD_DPAD_LEFT),
        dpad_right: pressed(gamepad, GAMEPAD_DPAD_RIGHT),
        dpad_up: pressed(gamepad, GAMEPAD_DPAD_UP),
        dpad_down: pressed(gamepad, GAMEPAD_DPAD_DOWN),
        focus_prev: pressed(gamepad, GAMEPAD_LEFT_SHOULDER),
        focus_next: pressed(gamepad, GAMEPAD_RIGHT_SHOULDER),
        tweak_slow: pressed(gamepad, GAMEPAD_LEFT_SHOULDER),
        tweak_fast: pressed(gamepad, GAMEPAD_RIGHT_SHOULDER),
        stick_left: deflection(x, -LEFT_THUMB_DEADZONE, i16::MIN as int),
        stick_right: deflection(x, LEFT_THUMB_DEADZONE as int, i16::MAX as int),
        stick_up: deflection(y, LEFT_THUMB_DEADZONE as int, i16::MAX as int),
        stick_down: deflection(y, -LEFT_THUMB_DEADZONE, -i16::MAX),
    }
}

fn map_analog(value: i16, start: i32, end: i32) -> (analog: Analog)
    requires
        -0x1_0000 < start < 0x1_0000,
        -0x1_0000 < end < 0x1_0000,
    ensures
        analog == deflection(value as int, start as int, end as int),
{
    let whole: i32 = if end > start {
        end - start
    } else {
        start - end
    };
    let part: i32 = if end > start {
        value as i32 - start
    } else {
        start - value as i32
    };
    let limited: i32 = if part < 0 {
        0
    } else if part > whole {
        whole
    } else {
        part
    };
    Analog { part: limited as u32, whole: whole as u32 }
}

/// Maps a gamepad to navigation inputs.
pub fn map_gamepad(gamepad: Gamepad) -> (inputs: NavInputs)
    ensures
        inputs == nav_inputs_of(gamepad),
{
    let buttons = gamepad.buttons;
    NavInputs {
        activate: buttons & GAMEPAD_A != 0,
        cancel: buttons & GAMEPAD_B != 0,
        menu: buttons & GAMEPAD_X != 0,
        input: buttons & GAMEPAD_Y != 0,
        dpad_left: buttons & GAMEPAD_DPAD_LEFT != 0,
        dpad_right: buttons & GAMEPAD_DPAD_RIGHT != 0,
        dpad_up: buttons & GAMEPAD_DPAD_UP != 0,
        dpad_down: buttons & GAMEPAD_DPAD_DOWN != 0,
        focus_prev: buttons & GAMEPAD_LEFT_SHOULDER != 0,
        focus_next: buttons & GAMEPAD_RIGHT_SHOULDER != 0,
        tweak_slow: buttons & GAMEPAD_LEFT_SHOULDER != 0,
        tweak_fast: buttons & GAMEPAD_RIGHT_SHOULDER != 0,
        stick_left: map_analog(gamepad.thumb_x, -LEFT_THUMB_DEADZONE, i16::MIN as i32),
        stick_right: map_analog(gamepad.thumb_x, LEFT_THUMB_DEADZONE, i16::MAX as i32),
        stick_up: map_analog(gamepad.thumb_y, LEFT_THUMB_DEADZONE, i16::MAX as i32),
        stick_down: map_analog(gamepad.thumb_y, -LEFT_THUMB_DEADZONE, -(i16::MAX as i32)),
    }
}

/// What has to be asked natively next.
#[derive(Clone, Copy, Debug, PartialEq, Eq, Structural)]
pub enum GamepadQuery {
    /// Nothing: there is no gamepad input in this frame.
    Nothing,
    /// Whether a gamepad is connected.
    Capabilities,
    /// What the gamepad reports.
    State,
}

/// Whether a gamepad is connected, as far as it is known.
#[derive(Clone, Copy, Debug, PartialEq, Eq, Structural)]
pub struct GamepadState {
    /// Whether it has to be asked again.
    pub refresh_capabilities: bool,
    /// Whether one was connected when it was last asked.
    pub available: bool,
}

impl Default for GamepadState {
    fn default() -> (state: Self)
        ensures
            state == (GamepadState { refresh_capabilities: true, available: false }),
    {
        Self { refresh_capabilities: true, available: false }
    }
}

impl GamepadState {
    /// Asks again in the next frame.
    pub fn request_refresh(&mut self)
        ensures
            *final(self) == (GamepadState { refresh_capabilities: true, ..*old(self) }),
    {
        self.refresh_capabilities = true;
    }

    /// Starts a frame, given whether gamepad navigation is enabled. Nothing is
    /// held over from the frame before.
    pub fn begin(&self, input: &mut InputState, navigation_enabled: bool) -> (query: GamepadQuery)
        ensures
            final(input)@ == (InputModel { navigation: None, ..old(input)@ }),
            query == GamepadQuery::Capabilities <==> navigation_enabled && self.refresh_capabilities,
            query == GamepadQuery::State <==> navigation_enabled && !self.refresh_capabilities
                && self.available,
            query == (if !navigation_enabled {
                GamepadQuery::Nothing
            } else if self.refresh_capabilities {
                GamepadQuery::Capabilities
            } else if self.available {
                GamepadQuery::State
            } else {
                GamepadQuery::Nothing
            }),
    {
        input.set_navigation(None);
        if !navigation_enabled {
            return GamepadQuery::Nothing;
        }
        if self.refresh_capabilities {
            return GamepadQuery::Capabilities;
        }
        if self.available {
            GamepadQuery::State
        } else {
            GamepadQuery::Nothing
        }
    }

    /// Takes the answer whether a gamepad is connected.
    pub fn capabilities(&mut self, connected: bool) -> (query: GamepadQuery)
        ensures
            *final(self) == (GamepadState { refresh_capabilities: false, available: connected }),
            query == (if connected {
                GamepadQuery::State
            } else {
                GamepadQuery::Nothing
            }),
    {
        self.available = connected;
        self.refresh_capabilities = false;
        if connected {
            GamepadQuery::State
        } else {
            GamepadQuery::Nothing
        }
    }

    /// Takes what the gamepad reported, if it reported anything. Returns whether
    /// there is a gamepad in this frame.
    pub fn report(&mut self, input: &mut InputState, state: Option<Gamepad>) -> (present: bool)
        ensures
            present == (state is Some),
            match state {
                Some(gamepad) => {
                    &&& *final(self) == *old(self)
                    &&& final(input)@ == (InputModel {
                        navigation: Some(nav_inputs_of(gamepad)),
                        ..old(input)@
                    })
                },
                None => {
                    &&& *final(self) == (GamepadState { available: false, ..*old(self) })
                    &&& final(input)@ == old(input)@
                },
            },
    {
        match state {
            Some(gamepad) => {
                input.set_navigation(Some(map_gamepad(gamepad)));
                true
            },
            None => {
                self.available = false;
                false
            },
        }
    }
}

/// A centered stick scrolls nowhere, and no deflection exceeds the greatest.
pub proof fn law_sticks_respect_the_dead_zone(gamepad: Gamepad)
    ensures
        ({
            let inputs = nav_inputs_of(gamepad);
            &&& -LEFT_THUMB_DEADZONE <= gamepad.thumb_x <= LEFT_THUMB_DEADZONE
                ==> inputs.stick_left.part == 0 && inputs.stick_right.part == 0
            &&& -LEFT_THUMB_DEADZONE <= gamepad.thumb_y <= LEFT_THUMB_DEADZONE
                ==> inputs.stick_up.part == 0 && inputs.stick_down.part == 0
            &&& inputs.stick_left.part <= inputs.stick_left.whole
            &&& inputs.stick_right.part <= inputs.stick_right.whole
            &&& inputs.stick_up.part <= inputs.stick_up.whole
            &&& inputs.stick_down.part <= inputs.stick_down.whole
            &&& inputs.stick_left.part == 0 || inputs.stick_right.part == 0
            &&& inputs.stick_up.part == 0 || inputs.stick_down.part == 0
        }),
{
}

/// Every button gives its own input, and the shoulders two each: they change
/// the focus and the pace.
pub proof fn law_every_button_has_its_input(gamepad: Gamepad)
    ensures
        ({
            let inputs = nav_inputs_of(gamepad);
            let buttons = gamepad.buttons;
            &&& inputs.dpad_up <==> buttons & 0x0001 != 0
            &&& inputs.dpad_down <==> buttons & 0x0002 != 0
            &&& inputs.dpad_left <==> buttons & 0x0004 != 0
            &&& inputs.dpad_right <==> buttons & 0x0008 != 0
            &&& inputs.focus_prev <==> buttons & 0x0100 != 0
            &&& inputs.tweak_slow <==> buttons & 0x0100 != 0
            &&& inputs.focus_next <==> buttons & 0x0200 != 0
            &&& inputs.tweak_fast <==> buttons & 0x0200 != 0
            &&& inputs.activate <==> buttons & 0x1000 != 0
            &&& inputs.cancel <==> buttons & 0x2000 != 0
            &&& inputs.menu <==> buttons & 0x4000 != 0
            &&& inputs.input <==> buttons & 0x8000 != 0
        }),
{
}

/// A stick scrolls in the direction of its deflection, by what lies past the
/// dead zone: to the right and up for positive deflections, to the left and
/// down for negative ones. A full deflection scrolls in full.
pub proof fn law_sticks_scroll_in_their_direction(gamepad: Gamepad)
    ensures
        ({
            let inputs = nav_inputs_of(gamepad);
            let x = gamepad.thumb_x as int;
            let y = gamepad.thumb_y as int;
            &&& x > 7849 ==> inputs.stick_right.part == x - 7849
            &&& x <= 7849 ==> inputs.stick_right.part == 0
            &&& x < -7849 ==> inputs.stick_left.part == -7849 - x
            &&& x >= -7849 ==> inputs.stick_left.part == 0
            &&& y > 7849 ==> inputs.stick_up.part == y - 7849
            &&& y <= 7849 ==> inputs.stick_up.part == 0
            &&& -32768 < y < -7849 ==> inputs.stick_down.part == -7849 - y
            &&& y == -32768 ==> inputs.stick_down.part == 32767 - 7849
            &&& y >= -7849 ==> inputs.stick_down.part == 0
            &&& inputs.stick_right.whole == 32767 - 7849
            &&& inputs.stick_left.whole == 32768 - 7849
            &&& inputs.stick_up.whole == 32767 - 7849
            &&& inputs.stick_down.whole == 32767 - 7849
        }),
{
}

} // verus!
