//! The platform binding for exactly one selected primary window.
use vstd::prelude::*;
use crate::imgui::context::{
    no_capabilities, with_capabilities, BackendIo, ContextError, ImGuiContextOwner,
    PlatformCapabilities,
};
use crate::imgui::gamepad::GamepadState;
use crate::imgui::message::{
    changed, ignored, outcome_of, translated, with_all_released, InputModel, InputState,
    MessageOutcome,
};
use crate::text::{decimal, owned, Message};

verus! {

/// No cursor was set yet.
pub const CURSOR_UNINITIALIZED: i32 = i32::MIN;

/// The cursor that hides the native one.
pub const CURSOR_NONE: i32 = -1;

/// Closed, redaction-safe Win32 platform failures.
#[derive(Clone, Copy, Debug, PartialEq, Eq, Structural)]
pub enum PlatformError {
    /// A null or non-window `HWND` was supplied.
    InvalidWindow,
    /// The platform was explicitly detached.
    Detached,
    /// Win32 could not initialize the high-resolution clock.
    ClockInitialization {
        /// Win32 error code.
        code: u32,
    },
    /// Win32 could not sample the high-resolution clock.
    ClockSample {
        /// Win32 error code.
        code: u32,
    },
    /// The sampled counter did not advance.
    NonMonotonicClock,
    /// Win32 could not read the selected window's client rectangle.
    ClientRect {
        /// Win32 error code.
        code: u32,
    },
    /// The Dear ImGui context boundary rejected platform configuration.
    Context(ContextError),
}

impl PlatformError {
    /// The message of the failure.
    pub open spec fn text(self) -> Seq<char> {
        match self {
            Self::InvalidWindow => {
                "the selected primary swap chain has no valid Win32 window"@
            },
            Self::Detached => "the Win32 platform backend is detached"@,
            Self::ClockInitialization { code } => {
                "Win32 could not initialize the frame clock (error "@ + decimal(code as nat) + ")"@
            },
            Self::ClockSample { code } => "Win32 could not sample the frame clock (error "@
                + decimal(code as nat) + ")"@,
            Self::NonMonotonicClock => "the Win32 frame clock did not advance monotonically"@,
            Self::ClientRect { code } => {
                "Win32 could not read the primary client rectangle (error "@ + decimal(code as nat)
                    + ")"@
            },
            Self::Context(error) => error.text(),
        }
    }

    /// Formats the failure for diagnostics.
    pub fn to_string(&self) -> (text: String)
        ensures
            text@ == self.text(),
    {
        let mut message = Message::new();
        match *self {
            Self::InvalidWindow => {
                return owned("the selected primary swap chain has no valid Win32 window");
            },
            Self::Detached => return owned("the Win32 platform backend is detached"),
            Self::ClockInitialization { code } => {
                message.text("Win32 could not initialize the frame clock (error ");
                message.number(code as u64);
                message.text(")");
            },
            Self::ClockSample { code } => {
                message.text("Win32 could not sample the frame clock (error ");
                message.number(code as u64);
                message.text(")");
            },
            Self::NonMonotonicClock => {
                return owned("the Win32 frame clock did not advance monotonically");
            },
            Self::ClientRect { code } => {
                message.text("Win32 could not read the primary client rectangle (error ");
                message.number(code as u64);
                message.text(")");
            },
            Self::Context(error) => return error.to_string(),
        }
        proof {
            assert(message@ =~= self.text());
        }
        message.finish()
    }
}

/// Checks the window that the platform is to be bound to.
pub fn validate_window(hwnd: usize, is_window: bool) -> (result: Result<(), PlatformError>)
    ensures
        match result {
            Ok(_) => hwnd != 0 && is_window,
            Err(error) => (hwnd == 0 || !is_window) && error == PlatformError::InvalidWindow,
        },
{
    if hwnd == 0 || !is_window {
        Err(PlatformError::InvalidWindow)
    } else {
        Ok(())
    }
}

/// A frame clock: ticks per second, and the tick at which it was started.
#[derive(Clone, Copy, Debug, PartialEq, Eq, Structural)]
pub struct Clock {
    /// Ticks per second.
    pub ticks_per_second: i64,
    /// The tick that was sampled last.
    pub previous_tick: i64,
}

/// Starts the frame clock out of its frequency and its counter, as far as they
/// could be read, and the error code where one could not.
pub fn initialize_clock(frequency: Option<i64>, counter: Option<i64>, code: u32) -> (clock: Result<
    Clock,
    PlatformError,
>)
    ensures
        clock is Ok <==> frequency is Some && frequency->0 > 0 && counter is Some,
        clock matches Ok(started) ==> started.ticks_per_second == frequency->0
            && started.previous_tick == counter->0,
        clock == (match (frequency, counter) {
            (Some(frequency), Some(counter)) => if frequency > 0 {
                Ok::<Clock, PlatformError>(
                    Clock { ticks_per_second: frequency, previous_tick: counter },
                )
            } else {
                Err::<Clock, PlatformError>(PlatformError::ClockInitialization { code })
            },
            _ => Err::<Clock, PlatformError>(PlatformError::ClockInitialization { code }),
        }),
{
    let ticks_per_second = match frequency {
        Some(frequency) => frequency,
        None => return Err(PlatformError::ClockInitialization { code }),
    };
    if ticks_per_second <= 0 {
        return Err(PlatformError::ClockInitialization { code });
    }
    match counter {
        Some(previous_tick) => Ok(Clock { ticks_per_second, previous_tick }),
        None => Err(PlatformError::ClockInitialization { code }),
    }
}

/// Shape of the native cursor.
#[derive(Clone, Copy, Debug, PartialEq, Eq, Structural)]
pub enum CursorShape {
    /// Arrow.
    Arrow,
    /// Text input.
    Text,
    /// Resize in every direction.
    ResizeAll,
    /// Resize vertically.
    ResizeVertical,
    /// Resize horizontally.
    ResizeHorizontal,
    /// Resize along the rising diagonal.
    ResizeRising,
    /// Resize along the falling diagonal.
    ResizeFalling,
    /// Hand.
    Hand,
    /// Not allowed.
    NotAllowed,
}

/// What happens to the native cursor.
#[derive(Clone, Copy, Debug, PartialEq, Eq, Structural)]
pub enum CursorAction {
    /// It stays as it is.
    Leave,
    /// It is hidden.
    Hide,
    /// It takes a shape.
    Show(CursorShape),
}

/// The shape of a cursor by its number.
pub open spec fn shape_of(cursor: i32) -> CursorShape {
    if cursor == 1 {
        CursorShape::Text
    } else if cursor == 2 {
        CursorShape::ResizeAll
    } else if cursor == 3 {
        CursorShape::ResizeVertical
    } else if cursor == 4 {
        CursorShape::ResizeHorizontal
    } else if cursor == 5 {
        CursorShape::ResizeRising
    } else if cursor == 6 {
        CursorShape::ResizeFalling
    } else if cursor == 7 {
        CursorShape::Hand
    } else if cursor == 8 {
        CursorShape::NotAllowed
    } else {
        CursorShape::Arrow
    }
}

/// The cursor that a frame asks for: none where it draws its own.
pub open spec fn effective_cursor(draws_cursor: bool, cursor: i32) -> i32 {
    if draws_cursor {
        CURSOR_NONE
    } else {
        cursor
    }
}

/// Decides what happens to the native cursor.
pub fn update_cursor(change_forbidden: bool, draws_cursor: bool, cursor: i32) -> (action: CursorAction)
    ensures
        action == CursorAction::Leave <==> change_forbidden,
        action == CursorAction::Hide <==> !change_forbidden && (draws_cursor || cursor == -1),
        action == (if change_forbidden {
            CursorAction::Leave
        } else if effective_cursor(draws_cursor, cursor) == CURSOR_NONE {
            CursorAction::Hide
        } else {
            CursorAction::Show(shape_of(cursor))
        }),
{
    if change_forbidden {
        return CursorAction::Leave;
    }
    if draws_cursor || cursor == CURSOR_NONE {
        return CursorAction::Hide;
    }
    CursorAction::Show(
        match cursor {
            1 => CursorShape::Text,
            2 => CursorShape::ResizeAll,
            3 => CursorShape::ResizeVertical,
            4 => CursorShape::ResizeHorizontal,
            5 => CursorShape::ResizeRising,
            6 => CursorShape::ResizeFalling,
            7 => CursorShape::Hand,
            8 => CursorShape::NotAllowed,
            _ => CursorShape::Arrow,
        },
    )
}

/// A rectangle of a window.
#[derive(Clone, Copy, Debug, PartialEq, Eq, Structural)]
pub struct WindowRect {
    /// Left edge.
    pub left: i32,
    /// Top edge.
    pub top: i32,
    /// Right edge.
    pub right: i32,
    /// Bottom edge.
    pub bottom: i32,
}

/// Returns width and height of the client area, or the error code where its
/// rectangle could not be read.
pub fn client_size(rect: Result<WindowRect, u32>) -> (size: Result<(i32, i32), PlatformError>)
    requires
        rect matches Ok(rect) ==> i32::MIN <= rect.right - rect.left <= i32::MAX && i32::MIN
            <= rect.bottom - rect.top <= i32::MAX,
    ensures
        size matches Ok((width, height)) ==> rect is Ok && rect->Ok_0.left + width
            == rect->Ok_0.right && rect->Ok_0.top + height == rect->Ok_0.bottom,
        match rect {
            Err(code) => size == Err::<(i32, i32), PlatformError>(
                PlatformError::ClientRect { code },
            ),
            Ok(rect) => if rect.right < rect.left || rect.bottom < rect.top {
                size == Err::<(i32, i32), PlatformError>(PlatformError::ClientRect { code: 0 })
            } else {
                size == Ok::<(i32, i32), PlatformError>(
                    ((rect.right - rect.left) as i32, (rect.bottom - rect.top) as i32),
                )
            },
        },
{
    let rect = match rect {
        Ok(rect) => rect,
        Err(code) => return Err(PlatformError::ClientRect { code }),
    };
    let width: i32 = rect.right - rect.left;
    let height: i32 = rect.bottom - rect.top;
    if width < 0 || height < 0 {
        return Err(PlatformError::ClientRect { code: 0 });
    }
    Ok((width, height))
}

/// Returns whether the bound window takes the mouse: it or a child of it is in
/// front.
pub fn accepts_mouse(hwnd: usize, foreground: usize, foreground_is_child: bool) -> (accepts: bool)
    ensures
        accepts == (foreground == hwnd || (foreground != 0 && foreground_is_child)),
        foreground == hwnd ==> accepts,
        accepts && foreground != hwnd ==> foreground_is_child && foreground != 0,
{
    foreground == hwnd || (foreground != 0 && foreground_is_child)
}

/// Number of keys that Dear ImGui asks for by name.
pub const NAMED_KEYS: usize = 22;

/// The virtual key of a named key.
pub open spec fn virtual_key(key: int) -> i32 {
    if key == 0 {
        0x09
    } else if key == 1 {
        0x25
    } else if key == 2 {
        0x27
    } else if key == 3 {
        0x26
    } else if key == 4 {
        0x28
    } else if key == 5 {
        0x21
    } else if key == 6 {
        0x22
    } else if key == 7 {
        0x24
    } else if key == 8 {
        0x23
    } else if key == 9 {
        0x2d
    } else if key == 10 {
        0x2e
    } else if key == 11 {
        0x08
    } else if key == 12 {
        0x20
    } else if key == 13 {
        0x0d
    } else if key == 14 {
        0x1b
    } else if key == 15 {
        0x0d
    } else if key == 16 {
        0x41
    } else if key == 17 {
        0x43
    } else if key == 18 {
        0x56
    } else if key == 19 {
        0x58
    } else if key == 20 {
        0x59
    } else {
        0x5a
    }
}

/// Returns the virtual key of every named key: tab, the four arrows, page up and
/// down, home, end, insert, delete, backspace, space, enter, escape, the enter
/// of the key pad, and the letters A, C, V, X, Y, and Z.
pub fn key_map() -> (map: [i32; 22])
    ensures
        forall|key: int| 0 <= key < NAMED_KEYS ==> #[trigger] map@[key] == virtual_key(key),
{
    [
        0x09,
        0x25,
        0x27,
        0x26,
        0x28,
        0x21,
        0x22,
        0x24,
        0x23,
        0x2d,
        0x2e,
        0x08,
        0x20,
        0x0d,
        0x1b,
        0x0d,
        0x41,
        0x43,
        0x56,
        0x58,
        0x59,
        0x5a,
    ]
}

/// Explicit platform binding for exactly one classifier-selected primary
/// window.
#[derive(Clone, Copy, Debug, PartialEq, Eq)]
pub struct Win32Platform {
    hwnd: usize,
    clock: Clock,
    last_cursor: i32,
    gamepad: GamepadState,
    attached: bool,
}

/// What a platform binding holds.
pub struct PlatformModel {
    /// Bound window.
    pub hwnd: usize,
    /// Frame clock.
    pub clock: Clock,
    /// Cursor that was set last.
    pub last_cursor: i32,
    /// Gamepad.
    pub gamepad: GamepadState,
    /// Whether the platform is attached.
    pub attached: bool,
}

impl View for Win32Platform {
    type V = PlatformModel;

    closed spec fn view(&self) -> PlatformModel {
        PlatformModel {
            hwnd: self.hwnd,
            clock: self.clock,
            last_cursor: self.last_cursor,
            gamepad: self.gamepad,
            attached: self.attached,
        }
    }
}

/// What is sampled for one frame.
#[derive(Debug)]
pub struct FrameSample {
    /// Client rectangle, or the error code.
    pub rect: Result<WindowRect, u32>,
    /// Performance counter, or the error code.
    pub counter: Result<i64, u32>,
    /// Whether the IO of the context is available.
    pub io_available: bool,
    /// State of the control key.
    pub ctrl: i16,
    /// State of the shift key.
    pub shift: i16,
    /// State of the menu key.
    pub alt: i16,
    /// Window in front.
    pub foreground: usize,
    /// Whether the window in front is a child of the bound one.
    pub foreground_is_child: bool,
    /// Position of the native cursor in the bound window, if it could be read.
    pub cursor_position: Option<(i32, i32)>,
    /// Whether the interface draws its own cursor.
    pub draws_cursor: bool,
    /// Cursor that the interface asks for.
    pub cursor: i32,
}

/// What a frame is prepared with.
#[derive(Clone, Copy, Debug, PartialEq, Eq)]
pub struct PreparedFrame {
    /// Width of the client area.
    pub width: i32,
    /// Height of the client area.
    pub height: i32,
    /// Ticks since the frame before.
    pub ticks: i64,
    /// Whether the native cursor changes.
    pub cursor_changes: bool,
}

/// How sampling a frame fails before its input is read, if it does: the
/// attachment comes first, then the size, then the time.
pub open spec fn sampling_failure(platform: PlatformModel, sample: FrameSample) -> Option<
    PlatformError,
> {
    if !platform.attached {
        Some(PlatformError::Detached)
    } else {
        match sample.rect {
            Err(code) => Some(PlatformError::ClientRect { code }),
            Ok(rect) => if rect.right < rect.left || rect.bottom < rect.top {
                Some(PlatformError::ClientRect { code: 0 })
            } else {
                match sample.counter {
                    Err(code) => Some(PlatformError::ClockSample { code }),
                    Ok(current) => if current <= platform.clock.previous_tick {
                        Some(PlatformError::NonMonotonicClock)
                    } else {
                        None
                    },
                }
            },
        }
    }
}

/// Input once a frame was sampled: the modifiers as they are, and the mouse
/// where the native cursor is, if the bound window takes it.
pub open spec fn sampled_input(input: InputModel, hwnd: usize, sample: FrameSample) -> InputModel {
    InputModel {
        ctrl: sample.ctrl < 0,
        shift: sample.shift < 0,
        alt: sample.alt < 0,
        super_key: false,
        mouse: if sample.foreground == hwnd || (sample.foreground != 0
            && sample.foreground_is_child) {
            sample.cursor_position
        } else {
            None
        },
        ..input
    }
}

/// A platform that was bound just now.
pub open spec fn fresh(hwnd: usize, clock: Clock) -> PlatformModel {
    PlatformModel {
        hwnd,
        clock,
        last_cursor: CURSOR_UNINITIALIZED,
        gamepad: GamepadState { refresh_capabilities: true, available: false },
        attached: true,
    }
}

/// Why a window cannot be bound, if it cannot: the window itself comes before
/// the clock.
pub open spec fn binding_failure(
    hwnd: usize,
    is_window: bool,
    clock: Result<Clock, PlatformError>,
) -> Option<PlatformError> {
    if hwnd == 0 || !is_window {
        Some(PlatformError::InvalidWindow)
    } else {
        match clock {
            Ok(_) => None,
            Err(error) => Some(error),
        }
    }
}

impl Win32Platform {
    /// Binds the platform backend to one already-selected primary window: the
    /// window is validated, the clock started, the context configured, and its
    /// capabilities published, in this order.
    pub fn attach(
        hwnd: usize,
        is_window: bool,
        clock: Result<Clock, PlatformError>,
        configured: Result<(), ContextError>,
    ) -> (platform: Result<Self, PlatformError>)
        ensures
            match platform {
                Ok(platform) => {
                    &&& binding_failure(hwnd, is_window, clock) is None
                    &&& configured is Ok
                    &&& platform@ == fresh(hwnd, clock->Ok_0)
                },
                Err(error) => match binding_failure(hwnd, is_window, clock) {
                    Some(failure) => error == failure,
                    None => configured matches Err(failure) && error == PlatformError::Context(
                        failure,
                    ),
                },
            },
    {
        if let Err(error) = validate_window(hwnd, is_window) {
            return Err(error);
        }
        let clock = match clock {
            Ok(clock) => clock,
            Err(error) => return Err(error),
        };
        if let Err(error) = configured {
            return Err(PlatformError::Context(error));
        }
        Ok(
            Self {
                hwnd,
                clock,
                last_cursor: CURSOR_UNINITIALIZED,
                gamepad: GamepadState::default(),
                attached: true,
            },
        )
    }

    /// Returns the capabilities of an attached platform. A gamepad is claimed
    /// only once one has reported.
    pub fn capabilities() -> (capabilities: PlatformCapabilities)
        ensures
            capabilities == (PlatformCapabilities {
                installed: true,
                has_gamepad: false,
                has_mouse_cursors: true,
                has_set_mouse_pos: true,
            }),
    {
        PlatformCapabilities {
            installed: true,
            has_gamepad: false,
            has_mouse_cursors: true,
            has_set_mouse_pos: true,
        }
    }

    /// Returns the only window whose messages this backend will observe.
    pub fn hwnd(&self) -> (hwnd: usize)
        ensures
            hwnd == self@.hwnd,
    {
        self.hwnd
    }

    /// Returns the gamepad, which is asked once a frame.
    pub fn gamepad_mut(&mut self) -> (gamepad: &mut GamepadState)
        ensures
            *gamepad == old(self)@.gamepad,
            final(self)@ == (PlatformModel { gamepad: *final(gamepad), ..old(self)@ }),
    {
        &mut self.gamepad
    }

    /// Explicitly rebinds after the primary session changed. Messages from all
    /// other windows remain ignored. The input of the context is cleared before
    /// the clock is started anew, and the binding stands even if the context
    /// could not be configured.
    pub fn rebind(
        &mut self,
        input: &mut InputState,
        io_available: bool,
        hwnd: usize,
        is_window: bool,
        clock: Result<Clock, PlatformError>,
        configured: Result<(), ContextError>,
    ) -> (result: Result<(), PlatformError>)
        requires
            old(input).wf(),
        ensures
            final(input).wf(),
            if hwnd == 0 || !is_window {
                &&& result == Err::<(), PlatformError>(PlatformError::InvalidWindow)
                &&& *final(self) == *old(self)
                &&& final(input)@ == old(input)@
            } else if !io_available {
                &&& result == Err::<(), PlatformError>(
                    PlatformError::Context(ContextError::IoUnavailable),
                )
                &&& *final(self) == *old(self)
                &&& final(input)@ == old(input)@
            } else {
                &&& final(input)@ == cleared(old(input)@)
                &&& match clock {
                    Err(error) => result == Err::<(), PlatformError>(error) && *final(self)
                        == *old(self),
                    Ok(clock) => {
                        &&& final(self)@ == fresh(hwnd, clock)
                        &&& match configured {
                            Ok(_) => result is Ok,
                            Err(error) => result == Err::<(), PlatformError>(
                                PlatformError::Context(error),
                            ),
                        }
                    },
                }
            },
    {
        if let Err(error) = validate_window(hwnd, is_window) {
            return Err(error);
        }
        if let Err(error) = clear_context_input(input, io_available) {
            return Err(error);
        }
        let clock = match clock {
            Ok(clock) => clock,
            Err(error) => return Err(error),
        };
        self.hwnd = hwnd;
        self.clock = clock;
        self.last_cursor = CURSOR_UNINITIALIZED;
        self.gamepad = GamepadState::default();
        self.attached = true;
        match configured {
            Ok(_) => Ok(()),
            Err(error) => Err(PlatformError::Context(error)),
        }
    }

    /// Clears input and backend claims before context teardown. The platform
    /// stays attached unless both were cleared.
    pub fn detach(
        &mut self,
        input: &mut InputState,
        owner: &mut ImGuiContextOwner,
        io: Option<BackendIo>,
    ) -> (result: Result<BackendIo, PlatformError>)
        requires
            old(input).wf(),
        ensures
            final(input).wf(),
            *final(owner) == *old(owner),
            match io {
                None => {
                    &&& result == Err::<BackendIo, PlatformError>(
                        PlatformError::Context(ContextError::IoUnavailable),
                    )
                    &&& *final(self) == *old(self)
                    &&& final(input)@ == old(input)@
                },
                Some(before) => {
                    &&& result == Ok::<BackendIo, PlatformError>(
                        with_capabilities(before, no_capabilities()),
                    )
                    &&& final(self)@ == (PlatformModel { attached: false, ..old(self)@ })
                    &&& final(input)@ == cleared(old(input)@)
                },
            },
    {
        if let Err(error) = clear_context_input(input, io.is_some()) {
            return Err(error);
        }
        let published = match owner.set_platform_capabilities(io, PlatformCapabilities::default()) {
            Ok(published) => published,
            Err(error) => return Err(PlatformError::Context(error)),
        };
        self.attached = false;
        Ok(published)
    }

    /// Checks that the platform is attached.
    pub fn expect_attached(&self) -> (result: Result<(), PlatformError>)
        ensures
            match result {
                Ok(_) => self@.attached,
                Err(error) => !self@.attached && error == PlatformError::Detached,
            },
    {
        if !self.attached {
            return Err(PlatformError::Detached);
        }
        Ok(())
    }

    /// Translates a message only when it belongs to the bound primary window.
    pub fn handle_message(
        &mut self,
        input: &mut InputState,
        io_available: bool,
        hwnd: usize,
        message: u32,
        wparam: usize,
        lparam: usize,
        want_mouse: bool,
        want_keyboard: bool,
    ) -> (result: Result<MessageOutcome, PlatformError>)
        requires
            old(input).wf(),
        ensures
            final(input).wf(),
            if !old(self)@.attached {
                &&& result == Err::<MessageOutcome, PlatformError>(PlatformError::Detached)
                &&& *final(self) == *old(self)
                &&& final(input)@ == old(input)@
            } else if hwnd != old(self)@.hwnd {
                &&& result == Ok::<MessageOutcome, PlatformError>(ignored())
                &&& *final(self) == *old(self)
                &&& final(input)@ == old(input)@
            } else if !io_available {
                &&& result == Err::<MessageOutcome, PlatformError>(
                    PlatformError::Context(ContextError::IoUnavailable),
                )
                &&& *final(self) == *old(self)
                &&& final(input)@ == old(input)@
            } else {
                let translated = translated(message, wparam, lparam);
                let outcome = outcome_of(translated, want_mouse, want_keyboard);
                &&& result == Ok::<MessageOutcome, PlatformError>(outcome)
                &&& final(input)@ == (match translated {
                    Some((change, _)) => changed(old(input)@, change),
                    None => old(input)@,
                })
                &&& final(self)@ == (PlatformModel {
                    gamepad: if outcome.refresh_gamepad {
                        GamepadState { refresh_capabilities: true, ..old(self)@.gamepad }
                    } else {
                        old(self)@.gamepad
                    },
                    last_cursor: if outcome.refresh_cursor {
                        CURSOR_UNINITIALIZED
                    } else {
                        old(self)@.last_cursor
                    },
                    ..old(self)@
                })
            },
    {
        if !self.attached {
            return Err(PlatformError::Detached);
        }
        if hwnd != self.hwnd {
            return Ok(MessageOutcome::default());
        }
        if !io_available {
            return Err(PlatformError::Context(ContextError::IoUnavailable));
        }
        let outcome = input.apply_message(message, wparam, lparam, want_mouse, want_keyboard);
        if outcome.refresh_gamepad {
            self.gamepad.request_refresh();
        }
        if outcome.refresh_cursor {
            self.last_cursor = CURSOR_UNINITIALIZED;
        }
        Ok(outcome)
    }

    /// Samples the clock. Returns the ticks since the last sample, of which
    /// there is at least one.
    pub fn sample_delta(&mut self, counter: Result<i64, u32>) -> (ticks: Result<i64, PlatformError>)
        requires
            counter matches Ok(current) ==> current - old(self)@.clock.previous_tick <= i64::MAX,
        ensures
            match counter {
                Err(code) => {
                    &&& ticks == Err::<i64, PlatformError>(PlatformError::ClockSample { code })
                    &&& *final(self) == *old(self)
                },
                Ok(current) => if current <= old(self)@.clock.previous_tick {
                    &&& ticks == Err::<i64, PlatformError>(PlatformError::NonMonotonicClock)
                    &&& *final(self) == *old(self)
                } else {
                    &&& ticks == Ok::<i64, PlatformError>(
                        (current - old(self)@.clock.previous_tick) as i64,
                    )
                    &&& final(self)@ == (PlatformModel {
                        clock: Clock { previous_tick: current, ..old(self)@.clock },
                        ..old(self)@
                    })
                },
            },
    {
        let current = match counter {
            Ok(current) => current,
            Err(code) => return Err(PlatformError::ClockSample { code }),
        };
        if current <= self.clock.previous_tick {
            return Err(PlatformError::NonMonotonicClock);
        }
        let ticks: i64 = current - self.clock.previous_tick;
        self.clock.previous_tick = current;
        Ok(ticks)
    }

    /// Samples window and input state for a frame. Size and time are sampled
    /// before the input, so that the time advances even if the IO of the
    /// context is not available.
    pub fn prepare_frame(
        &mut self,
        input: &mut InputState,
        sample: FrameSample,
    ) -> (frame: Result<PreparedFrame, PlatformError>)
        requires
            old(input).wf(),
            sample.rect matches Ok(rect) ==> i32::MIN <= rect.right - rect.left <= i32::MAX
                && i32::MIN <= rect.bottom - rect.top <= i32::MAX,
            sample.counter matches Ok(current) ==> current - old(self)@.clock.previous_tick
                <= i64::MAX,
        ensures
            final(input).wf(),
            frame matches Ok(prepared) ==> {
                &&& sample.rect is Ok
                &&& sample.rect->Ok_0.left + prepared.width == sample.rect->Ok_0.right
                &&& sample.rect->Ok_0.top + prepared.height == sample.rect->Ok_0.bottom
                &&& sample.counter is Ok
                &&& old(self)@.clock.previous_tick + prepared.ticks == sample.counter->Ok_0
                &&& prepared.ticks > 0
                &&& final(self)@.clock.previous_tick == sample.counter->Ok_0
            },
            match frame {
                Ok(frame) => {
                    let ticks = sample.counter->Ok_0 - old(self)@.clock.previous_tick;
                    let rect = sample.rect->Ok_0;
                    &&& sampling_failure(old(self)@, sample) is None
                    &&& sample.io_available
                    &&& frame == (PreparedFrame {
                        width: (rect.right - rect.left) as i32,
                        height: (rect.bottom - rect.top) as i32,
                        ticks: ticks as i64,
                        cursor_changes: effective_cursor(sample.draws_cursor, sample.cursor)
                            != old(self)@.last_cursor,
                    })
                    &&& final(self)@ == (PlatformModel {
                        clock: Clock {
                            previous_tick: sample.counter->Ok_0,
                            ..old(self)@.clock
                        },
                        last_cursor: effective_cursor(sample.draws_cursor, sample.cursor),
                        ..old(self)@
                    })
                    &&& final(input)@ == sampled_input(old(input)@, old(self)@.hwnd, sample)
                },
                Err(error) => {
                    &&& final(input)@ == old(input)@
                    &&& match sampling_failure(old(self)@, sample) {
                        Some(failure) => error == failure && *final(self) == *old(self),
                        None => {
                            &&& !sample.io_available
                            &&& error == PlatformError::Context(ContextError::IoUnavailable)
                            &&& final(self)@ == (PlatformModel {
                                clock: Clock {
                                    previous_tick: sample.counter->Ok_0,
                                    ..old(self)@.clock
                                },
                                ..old(self)@
                            })
                        },
                    }
                },
            },
    {
        if let Err(error) = self.expect_attached() {
            return Err(error);
        }
        let (width, height) = match client_size(sample.rect) {
            Ok(size) => size,
            Err(error) => return Err(error),
        };
        let ticks = match self.sample_delta(sample.counter) {
            Ok(ticks) => ticks,
            Err(error) => return Err(error),
        };
        if !sample.io_available {
            return Err(PlatformError::Context(ContextError::IoUnavailable));
        }
        input.update_modifiers(sample.ctrl, sample.shift, sample.alt);
        input.set_mouse(
            if accepts_mouse(self.hwnd, sample.foreground, sample.foreground_is_child) {
                sample.cursor_position
            } else {
                None
            },
        );
        let cursor_changes = self.update_cursor_if_changed(sample.draws_cursor, sample.cursor);
        Ok(PreparedFrame { width, height, ticks, cursor_changes })
    }

    /// Returns the ticks of one second.
    pub fn ticks_per_second(&self) -> (ticks: i64)
        ensures
            ticks == self@.clock.ticks_per_second,
    {
        self.clock.ticks_per_second
    }

    /// Remembers the cursor that a frame asks for. Returns whether it is
    /// another one than before.
    pub fn update_cursor_if_changed(&mut self, draws_cursor: bool, cursor: i32) -> (changes: bool)
        ensures
            changes == (effective_cursor(draws_cursor, cursor) != old(self)@.last_cursor),
            final(self)@ == (PlatformModel {
                last_cursor: effective_cursor(draws_cursor, cursor),
                ..old(self)@
            }),
    {
        let wanted: i32 = if draws_cursor {
            CURSOR_NONE
        } else {
            cursor
        };
        let changes = wanted != self.last_cursor;
        self.last_cursor = wanted;
        changes
    }
}

/// Input with everything released and the mouse gone.
pub open spec fn cleared(input: InputModel) -> InputModel {
    InputModel { mouse: None, ..with_all_released(input) }
}

/// Clears the input of a context that the platform leaves.
pub fn clear_context_input(input: &mut InputState, io_available: bool) -> (result: Result<
    (),
    PlatformError,
>)
    requires
        old(input).wf(),
    ensures
        final(input).wf(),
        if io_available {
            result is Ok && final(input)@ == cleared(old(input)@)
        } else {
            result == Err::<(), PlatformError>(PlatformError::Context(ContextError::IoUnavailable))
                && final(input)@ == old(input)@
        },
{
    if !io_available {
        return Err(PlatformError::Context(ContextError::IoUnavailable));
    }
    input.clear_pressed_input();
    input.set_mouse(None);
    Ok(())
}

/// Each shape of the native cursor has one number, and every number without a
/// shape of its own gives the arrow.
pub proof fn law_each_cursor_shape_has_its_number(cursor: i32)
    ensures
        shape_of(cursor) is Text <==> cursor == 1,
        shape_of(cursor) is ResizeAll <==> cursor == 2,
        shape_of(cursor) is ResizeVertical <==> cursor == 3,
        shape_of(cursor) is ResizeHorizontal <==> cursor == 4,
        shape_of(cursor) is ResizeRising <==> cursor == 5,
        shape_of(cursor) is ResizeFalling <==> cursor == 6,
        shape_of(cursor) is Hand <==> cursor == 7,
        shape_of(cursor) is NotAllowed <==> cursor == 8,
        shape_of(cursor) is Arrow <==> !(1 <= cursor <= 8),
{
}

/// A frame that draws its own cursor hides the native one, and any other frame
/// asks for what it asks for.
pub proof fn law_a_drawn_cursor_replaces_the_native_one(draws_cursor: bool, cursor: i32)
    ensures
        draws_cursor ==> effective_cursor(draws_cursor, cursor) == -1,
        !draws_cursor ==> effective_cursor(draws_cursor, cursor) == cursor,
        cursor != i32::MIN ==> effective_cursor(draws_cursor, cursor) != CURSOR_UNINITIALIZED,
{
}

/// Each virtual key stands at the position of its own name, and both enter keys
/// share one.
pub proof fn law_each_named_key_has_its_virtual_key(key: int)
    requires
        0 <= key < 22,
    ensures
        virtual_key(key) == 0x09 <==> key == 0,
        virtual_key(key) == 0x25 <==> key == 1,
        virtual_key(key) == 0x27 <==> key == 2,
        virtual_key(key) == 0x26 <==> key == 3,
        virtual_key(key) == 0x28 <==> key == 4,
        virtual_key(key) == 0x21 <==> key == 5,
        virtual_key(key) == 0x22 <==> key == 6,
        virtual_key(key) == 0x24 <==> key == 7,
        virtual_key(key) == 0x23 <==> key == 8,
        virtual_key(key) == 0x2d <==> key == 9,
        virtual_key(key) == 0x2e <==> key == 10,
        virtual_key(key) == 0x08 <==> key == 11,
        virtual_key(key) == 0x20 <==> key == 12,
        virtual_key(key) == 0x0d <==> key == 13 || key == 15,
        virtual_key(key) == 0x1b <==> key == 14,
        virtual_key(key) == 'A' as i32 <==> key == 16,
        virtual_key(key) == 'C' as i32 <==> key == 17,
        virtual_key(key) == 'V' as i32 <==> key == 18,
        virtual_key(key) == 'X' as i32 <==> key == 19,
        virtual_key(key) == 'Y' as i32 <==> key == 20,
        virtual_key(key) == 'Z' as i32 <==> key == 21,
{
}

/// A frame takes each modifier from its own key, which is down where its state
/// is negative, and the mouse only while the bound window or a child of it is
/// in front. Buttons, keys, wheels, text, and navigation stay as they were.
pub proof fn law_a_frame_samples_modifiers_and_mouse(
    input: InputModel,
    hwnd: usize,
    sample: FrameSample,
)
    ensures
        ({
            let after = sampled_input(input, hwnd, sample);
            &&& after.ctrl <==> sample.ctrl < 0
            &&& after.shift <==> sample.shift < 0
            &&& after.alt <==> sample.alt < 0
            &&& !after.super_key
            &&& sample.foreground == hwnd ==> after.mouse == sample.cursor_position
            &&& sample.foreground != 0 && sample.foreground_is_child ==> after.mouse
                == sample.cursor_position
            &&& sample.foreground != hwnd && !sample.foreground_is_child ==> after.mouse is None
            &&& sample.foreground != hwnd && sample.foreground == 0 ==> after.mouse is None
            &&& after.mouse_down == input.mouse_down
            &&& after.keys_down == input.keys_down
            &&& after.wheel == input.wheel
            &&& after.horizontal_wheel == input.horizontal_wheel
            &&& after.characters == input.characters
            &&& after.navigation == input.navigation
        }),
{
}

/// A frame is sampled exactly while the platform is attached, the client
/// rectangle is not turned around, and the clock advanced. Each failure names
/// what failed, with the native code where there is one.
pub proof fn law_sampling_fails_for_a_reason(platform: PlatformModel, sample: FrameSample)
    ensures
        ({
            let failure = sampling_failure(platform, sample);
            &&& failure is None <==> {
                &&& platform.attached
                &&& sample.rect is Ok && sample.rect->Ok_0.left <= sample.rect->Ok_0.right
                    && sample.rect->Ok_0.top <= sample.rect->Ok_0.bottom
                &&& sample.counter is Ok && platform.clock.previous_tick < sample.counter->Ok_0
            }
            &&& failure == Some(PlatformError::Detached) <==> !platform.attached
            &&& failure == Some(PlatformError::NonMonotonicClock) ==> sample.counter is Ok
                && sample.counter->Ok_0 <= platform.clock.previous_tick
            &&& failure matches Some(PlatformError::ClientRect { code }) ==> (match sample.rect {
                Err(native) => code == native,
                Ok(rect) => code == 0 && (rect.right < rect.left || rect.bottom < rect.top),
            })
            &&& failure matches Some(PlatformError::ClockSample { code }) ==> sample.counter == Err::<
                i64,
                u32,
            >(code)
            &&& failure is Some ==> {
                let error = failure->0;
                error is Detached || error is NonMonotonicClock || error is ClientRect
                    || error is ClockSample
            }
        }),
{
}

/// A new binding is attached to its window and its clock, knows no cursor, and
/// asks for a gamepad.
pub proof fn law_a_new_binding_starts_over(hwnd: usize, clock: Clock)
    ensures
        fresh(hwnd, clock).hwnd == hwnd,
        fresh(hwnd, clock).clock.previous_tick == clock.previous_tick,
        fresh(hwnd, clock).clock.ticks_per_second == clock.ticks_per_second,
        fresh(hwnd, clock).attached,
        fresh(hwnd, clock).last_cursor == i32::MIN,
        fresh(hwnd, clock).gamepad.refresh_capabilities,
        !fresh(hwnd, clock).gamepad.available,
{
}

/// A window is bound exactly where it exists and the clock runs.
pub proof fn law_binding_needs_a_window_and_a_clock(
    hwnd: usize,
    is_window: bool,
    clock: Result<Clock, PlatformError>,
)
    ensures
        binding_failure(hwnd, is_window, clock) is None <==> hwnd != 0 && is_window && clock is Ok,
        hwnd == 0 || !is_window ==> binding_failure(hwnd, is_window, clock) == Some(
            PlatformError::InvalidWindow,
        ),
        hwnd != 0 && is_window && clock is Err ==> binding_failure(hwnd, is_window, clock) == Some(
            clock->Err_0,
        ),
{
}

/// Cleared input holds nothing down, nothing turned, and no position; what was
/// typed is still to be read.
pub proof fn law_cleared_input_holds_nothing(input: InputModel, at: int)
    ensures
        ({
            let after = cleared(input);
            &&& after.mouse is None
            &&& 0 <= at < 5 ==> !after.mouse_down[at]
            &&& 0 <= at < 256 ==> !after.keys_down[at]
            &&& after.mouse_down.len() == 5
            &&& after.keys_down.len() == 256
            &&& after.wheel.len() == 0
            &&& after.horizontal_wheel.len() == 0
            &&& !after.ctrl && !after.shift && !after.alt && !after.super_key
            &&& after.navigation is None
            &&& after.characters == input.characters
        }),
{
}

} // verus!
