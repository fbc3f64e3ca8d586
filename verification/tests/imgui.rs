use std::mem::{align_of, size_of};
use std::ptr::from_ref;

use imgui_sys as sys;
use nexus::imgui::context::{
    has_expected_version, validate_frame_config, BackendIo, ContextError, FrameConfig, FrameError,
    ImGuiContextOwner, NativeContexts, PlatformCapabilities, DRAW_INDEX_BYTES, DRAW_VERTEX_BYTES,
    FLAG_HAS_GAMEPAD, FLAG_HAS_MOUSE_CURSORS, FLAG_HAS_SET_MOUSE_POS, FLAG_RENDERER_HAS_VTX_OFFSET,
    IMGUI_VERSION_NUM,
};
use nexus::imgui::gamepad::{
    map_gamepad, Gamepad, GamepadQuery, GamepadState, GAMEPAD_A, GAMEPAD_B, GAMEPAD_DPAD_LEFT,
    GAMEPAD_RIGHT_SHOULDER, GAMEPAD_Y, LEFT_THUMB_DEADZONE,
};
use nexus::imgui::message::{
    translate_message, InputChange, InputState, MessageOutcome, HTCLIENT, WM_CHAR, WM_DEVICECHANGE,
    WM_KEYDOWN, WM_KEYUP, WM_KILLFOCUS, WM_LBUTTONDOWN, WM_LBUTTONUP, WM_MOUSEHWHEEL, WM_MOUSELEAVE,
    WM_MOUSEMOVE, WM_MOUSEWHEEL, WM_SETCURSOR, WM_SETFOCUS, WM_SYSKEYDOWN, WM_XBUTTONDOWN,
};
use nexus::imgui::platform::{
    accepts_mouse, client_size, initialize_clock, key_map, update_cursor, validate_window, Clock,
    CursorAction, CursorShape, FrameSample, PlatformError, PreparedFrame, WindowRect, Win32Platform,
    CURSOR_NONE,
};
use windows_sys::Win32::UI::Input::KeyboardAndMouse as keyboard;
use windows_sys::Win32::UI::Input::XboxController as xbox;
use windows_sys::Win32::UI::WindowsAndMessaging as windowing;

fn frame_config() -> FrameConfig {
    FrameConfig {
        display_width: 1920.0_f32.to_bits(),
        display_height: 1080.0_f32.to_bits(),
        framebuffer_scale_x: 1.0_f32.to_bits(),
        framebuffer_scale_y: 1.0_f32.to_bits(),
        delta_seconds: (1.0_f32 / 60.0).to_bits(),
    }
}

fn create(contexts: &mut NativeContexts, raw: usize) -> Result<ImGuiContextOwner, ContextError> {
    contexts.claim(Some(b"1.80"))?;
    let owner = contexts.created(raw)?;
    contexts.initialize(owner, true)
}

const NOTHING_PUBLISHED: BackendIo =
    BackendIo { flags: 0, platform_named: false, renderer_named: false };

#[test]
fn links_exact_dear_imgui_180() {
    assert_eq!(IMGUI_VERSION_NUM, 18_000);
    assert!(has_expected_version(Some(b"1.80")));
    assert!(!has_expected_version(Some(b"1.81")));
    assert!(!has_expected_version(Some(b"1.80 WIP")));
    assert!(!has_expected_version(None));
}

#[test]
fn draw_vertex_and_index_layouts_match_native_addons() {
    assert_eq!(size_of::<sys::ImDrawVert>(), 20);
    assert_eq!(align_of::<sys::ImDrawVert>(), 4);
    let vertex = sys::ImDrawVert {
        pos: sys::ImVec2 { x: 0.0, y: 0.0 },
        uv: sys::ImVec2 { x: 0.0, y: 0.0 },
        col: 0,
    };
    let start = from_ref(&vertex).addr();
    assert_eq!(from_ref(&vertex.pos).addr() - start, 0);
    assert_eq!(from_ref(&vertex.uv).addr() - start, 8);
    assert_eq!(from_ref(&vertex.col).addr() - start, 16);
    assert_eq!(size_of::<sys::ImDrawIdx>(), 2);
    assert_eq!(DRAW_VERTEX_BYTES, size_of::<sys::ImDrawVert>());
    assert_eq!(DRAW_INDEX_BYTES, size_of::<sys::ImDrawIdx>());
    assert_eq!(nexus::d3d11::renderer::DRAW_COMMAND_BYTES, size_of::<sys::ImDrawCmd>());
}

#[test]
fn native_constants_match_their_libraries() {
    assert_eq!(FLAG_HAS_GAMEPAD as i32, sys::ImGuiBackendFlags_HasGamepad as i32);
    assert_eq!(FLAG_HAS_MOUSE_CURSORS as i32, sys::ImGuiBackendFlags_HasMouseCursors as i32);
    assert_eq!(FLAG_HAS_SET_MOUSE_POS as i32, sys::ImGuiBackendFlags_HasSetMousePos as i32);
    assert_eq!(
        FLAG_RENDERER_HAS_VTX_OFFSET as i32,
        sys::ImGuiBackendFlags_RendererHasVtxOffset as i32
    );
    assert_eq!(CURSOR_NONE, sys::ImGuiMouseCursor_None);
    let named = [
        (sys::ImGuiKey_Tab, keyboard::VK_TAB),
        (sys::ImGuiKey_LeftArrow, keyboard::VK_LEFT),
        (sys::ImGuiKey_RightArrow, keyboard::VK_RIGHT),
        (sys::ImGuiKey_UpArrow, keyboard::VK_UP),
        (sys::ImGuiKey_DownArrow, keyboard::VK_DOWN),
        (sys::ImGuiKey_PageUp, keyboard::VK_PRIOR),
        (sys::ImGuiKey_PageDown, keyboard::VK_NEXT),
        (sys::ImGuiKey_Home, keyboard::VK_HOME),
        (sys::ImGuiKey_End, keyboard::VK_END),
        (sys::ImGuiKey_Insert, keyboard::VK_INSERT),
        (sys::ImGuiKey_Delete, keyboard::VK_DELETE),
        (sys::ImGuiKey_Backspace, keyboard::VK_BACK),
        (sys::ImGuiKey_Space, keyboard::VK_SPACE),
        (sys::ImGuiKey_Enter, keyboard::VK_RETURN),
        (sys::ImGuiKey_Escape, keyboard::VK_ESCAPE),
        (sys::ImGuiKey_KeyPadEnter, keyboard::VK_RETURN),
        (sys::ImGuiKey_A, u16::from(b'A')),
        (sys::ImGuiKey_C, u16::from(b'C')),
        (sys::ImGuiKey_V, u16::from(b'V')),
        (sys::ImGuiKey_X, u16::from(b'X')),
        (sys::ImGuiKey_Y, u16::from(b'Y')),
        (sys::ImGuiKey_Z, u16::from(b'Z')),
    ];
    for (key, code) in named {
        assert_eq!(key_map()[key as usize], i32::from(code));
    }
    assert_eq!(WM_SETFOCUS, windowing::WM_SETFOCUS);
    assert_eq!(WM_KILLFOCUS, windowing::WM_KILLFOCUS);
    assert_eq!(WM_SETCURSOR, windowing::WM_SETCURSOR);
    assert_eq!(WM_KEYDOWN, windowing::WM_KEYDOWN);
    assert_eq!(WM_KEYUP, windowing::WM_KEYUP);
    assert_eq!(WM_CHAR, windowing::WM_CHAR);
    assert_eq!(WM_SYSKEYDOWN, windowing::WM_SYSKEYDOWN);
    assert_eq!(WM_MOUSEMOVE, windowing::WM_MOUSEMOVE);
    assert_eq!(WM_LBUTTONDOWN, windowing::WM_LBUTTONDOWN);
    assert_eq!(WM_LBUTTONUP, windowing::WM_LBUTTONUP);
    assert_eq!(WM_MOUSEWHEEL, windowing::WM_MOUSEWHEEL);
    assert_eq!(WM_MOUSEHWHEEL, windowing::WM_MOUSEHWHEEL);
    assert_eq!(WM_XBUTTONDOWN, windowing::WM_XBUTTONDOWN);
    assert_eq!(WM_DEVICECHANGE, windowing::WM_DEVICECHANGE);
    assert_eq!(GAMEPAD_A, xbox::XINPUT_GAMEPAD_A);
    assert_eq!(GAMEPAD_B, xbox::XINPUT_GAMEPAD_B);
    assert_eq!(GAMEPAD_Y, xbox::XINPUT_GAMEPAD_Y);
    assert_eq!(GAMEPAD_DPAD_LEFT, xbox::XINPUT_GAMEPAD_DPAD_LEFT);
    assert_eq!(GAMEPAD_RIGHT_SHOULDER, xbox::XINPUT_GAMEPAD_RIGHT_SHOULDER);
    assert_eq!(LEFT_THUMB_DEADZONE, xbox::XINPUT_GAMEPAD_LEFT_THUMB_DEADZONE as i32);
}

#[test]
fn creation_is_unique_and_does_not_leak_current_context() {
    let mut contexts = NativeContexts { current: 0, claimed: false };
    let owner = create(&mut contexts, 0x100);
    assert!(owner.is_ok());
    let owner = match owner {
        Ok(owner) => owner,
        Err(error) => panic!("context failed: {}", error.to_string()),
    };
    assert_eq!(contexts.current, 0);
    assert_eq!(create(&mut contexts, 0x200).err(), Some(ContextError::AlreadyOwned));
    contexts.destroyed(owner);
    assert_eq!(contexts.current, 0);
    assert!(!contexts.claimed);

    assert_eq!(contexts.claim(Some(b"1.79")), Err(ContextError::IncompatibleVersion));
    assert_eq!(create(&mut contexts, 0).err(), Some(ContextError::CreationFailed));
    assert!(!contexts.claimed);
    contexts.claim(Some(b"1.80")).expect("nothing is owned");
    let owner = contexts.created(0x300).expect("the context was created");
    assert_eq!(
        contexts.initialize(owner, false).err(),
        Some(ContextError::IoUnavailable)
    );
    assert!(!contexts.claimed);
}

#[test]
fn the_previous_context_returns_whatever_the_operation_makes_current() {
    for previous in [0, 0x100, 0x500] {
        let mut contexts = NativeContexts { current: 0, claimed: false };
        let mut owner = create(&mut contexts, 0x100).expect("nothing is owned");
        contexts.current = previous;
        let result = owner.with_current(&mut contexts, |inside| {
            assert_eq!(*inside, NativeContexts { current: 0x100, claimed: true });
            inside.current = 0x900;
            42
        });
        assert_eq!(result, 42);
        assert_eq!(contexts, NativeContexts { current: previous, claimed: true });
    }
}

#[test]
fn scoped_current_context_restores_an_external_context() {
    let external = 0x500;
    let mut contexts = NativeContexts { current: external, claimed: false };
    let mut owner = match create(&mut contexts, 0x100) {
        Ok(owner) => owner,
        Err(error) => panic!("context failed: {}", error.to_string()),
    };
    assert_eq!(contexts.current, external);
    let owned = owner.as_ptr();
    owner.with_current(&mut contexts, |inside| {
        assert_eq!(inside.current, owned);
    });
    assert_eq!(contexts.current, external);
    contexts.destroyed(owner);
    assert_eq!(contexts.current, external);
}

#[test]
fn backend_flags_never_claim_uninstalled_capabilities() {
    let mut contexts = NativeContexts { current: 0, claimed: false };
    let mut owner = match create(&mut contexts, 0x100) {
        Ok(owner) => owner,
        Err(error) => panic!("context failed: {}", error.to_string()),
    };
    let io = owner
        .set_platform_capabilities(
            Some(NOTHING_PUBLISHED),
            PlatformCapabilities {
                installed: true,
                has_mouse_cursors: true,
                ..PlatformCapabilities::default()
            },
        )
        .expect("the IO is available");
    let io = owner.set_renderer_ready(Some(io), true).expect("the IO is available");
    assert_ne!(io.flags & FLAG_HAS_MOUSE_CURSORS, 0);
    assert_ne!(io.flags & FLAG_RENDERER_HAS_VTX_OFFSET, 0);
    assert!(io.platform_named);
    assert!(io.renderer_named);
    let io = owner.set_renderer_ready(Some(io), false).expect("the IO is available");
    assert_eq!(io.flags & FLAG_RENDERER_HAS_VTX_OFFSET, 0);
    assert!(!io.renderer_named);

    let foreign = BackendIo { flags: 0x107, platform_named: true, renderer_named: false };
    let absent = owner
        .set_platform_capabilities(
            Some(foreign),
            PlatformCapabilities {
                installed: false,
                has_gamepad: true,
                has_mouse_cursors: true,
                has_set_mouse_pos: true,
            },
        )
        .expect("the IO is available");
    assert_eq!(absent, BackendIo { flags: 0x100, platform_named: false, renderer_named: false });
    assert_eq!(
        owner.set_renderer_ready(None, true),
        Err(ContextError::IoUnavailable)
    );
}

#[test]
fn frame_render_is_single_use_and_draw_data_is_borrowed() {
    let mut contexts = NativeContexts { current: 0, claimed: false };
    let mut owner = create(&mut contexts, 0x100).expect("the context was created");
    let mut frame = owner.begin_frame(frame_config(), true).expect("the frame begins");
    assert_eq!(frame.may_render(), Ok(()));
    {
        let draw_data = frame.render(0x600).expect("the frame renders");
        assert_ne!(draw_data.as_ptr(), 0);
    }
    assert_eq!(frame.render(0x600).err(), Some(FrameError::AlreadyRendered));
    assert_eq!(frame.may_render(), Err(FrameError::AlreadyRendered));
    assert!(!frame.end());

    let mut empty = owner.begin_frame(frame_config(), true).expect("the frame begins");
    assert_eq!(empty.render(0).err(), Some(FrameError::DrawDataUnavailable));
}

#[test]
fn dropping_an_unrendered_frame_allows_the_next_frame() {
    let mut contexts = NativeContexts { current: 0, claimed: false };
    let mut owner = create(&mut contexts, 0x100).expect("the context was created");
    let frame = owner.begin_frame(frame_config(), true).expect("the frame begins");
    assert!(frame.end());
    let mut next = owner.begin_frame(frame_config(), true).expect("the next frame begins");
    assert!(next.render(0x600).is_ok());
}

#[test]
fn invalid_frame_inputs_are_rejected_before_new_frame() {
    let mut contexts = NativeContexts { current: 0, claimed: false };
    let mut owner = create(&mut contexts, 0x100).expect("the context was created");
    let mut config = frame_config();
    config.display_width = f32::NAN.to_bits();
    assert!(matches!(
        owner.begin_frame(config, true),
        Err(FrameError::InvalidDisplaySize)
    ));
    config = frame_config();
    config.framebuffer_scale_y = 0.0_f32.to_bits();
    assert!(matches!(
        owner.begin_frame(config, true),
        Err(FrameError::InvalidFramebufferScale)
    ));
    config = frame_config();
    config.delta_seconds = 0.0_f32.to_bits();
    assert!(matches!(
        owner.begin_frame(config, true),
        Err(FrameError::InvalidDeltaTime)
    ));
    assert!(matches!(
        owner.begin_frame(frame_config(), false),
        Err(FrameError::IoUnavailable)
    ));
    config = frame_config();
    config.display_height = (-1.0_f32).to_bits();
    assert_eq!(validate_frame_config(config), Err(FrameError::InvalidDisplaySize));
    config = frame_config();
    config.delta_seconds = f32::INFINITY.to_bits();
    assert_eq!(validate_frame_config(config), Err(FrameError::InvalidDeltaTime));
}

#[test]
fn button_and_deadzone_mapping_match_imgui_180_backend() {
    let inputs = map_gamepad(Gamepad {
        buttons: GAMEPAD_A,
        thumb_x: i16::try_from(LEFT_THUMB_DEADZONE).unwrap_or_default(),
        thumb_y: 0,
    });
    assert!(inputs.activate);
    assert!(!inputs.cancel);
    assert_eq!(inputs.stick_right.part, 0);

    let inputs = map_gamepad(Gamepad {
        buttons: GAMEPAD_B | GAMEPAD_Y | GAMEPAD_DPAD_LEFT | GAMEPAD_RIGHT_SHOULDER,
        thumb_x: i16::MIN,
        thumb_y: i16::MAX,
    });
    assert!(inputs.cancel);
    assert!(inputs.input);
    assert!(inputs.dpad_left);
    assert!(inputs.focus_next);
    assert!(inputs.tweak_fast);
    assert!(!inputs.activate);
    assert_eq!(inputs.stick_left.part, inputs.stick_left.whole);
    assert_eq!(inputs.stick_up.part, inputs.stick_up.whole);
    assert_eq!(inputs.stick_up.whole, 32767 - 7849);
    assert_eq!(inputs.stick_right.part, 0);
    assert_eq!(inputs.stick_down.part, 0);
}

#[test]
fn gamepads_are_asked_only_when_needed() {
    let mut state = GamepadState::default();
    let mut input = InputState::new();
    assert_eq!(state.begin(&mut input, false), GamepadQuery::Nothing);
    assert_eq!(state.begin(&mut input, true), GamepadQuery::Capabilities);
    assert_eq!(state.capabilities(false), GamepadQuery::Nothing);
    assert_eq!(state.begin(&mut input, true), GamepadQuery::Nothing);
    state.request_refresh();
    assert_eq!(state.begin(&mut input, true), GamepadQuery::Capabilities);
    assert_eq!(state.capabilities(true), GamepadQuery::State);
    assert_eq!(state.begin(&mut input, true), GamepadQuery::State);
    let gamepad = Gamepad { buttons: GAMEPAD_A, thumb_x: 0, thumb_y: 0 };
    assert!(state.report(&mut input, Some(gamepad)));
    assert_eq!(input.navigation(), Some(map_gamepad(gamepad)));
    assert_eq!(state.begin(&mut input, true), GamepadQuery::State);
    assert_eq!(input.navigation(), None);
    assert!(!state.report(&mut input, None));
    assert_eq!(input.navigation(), None);
    assert_eq!(state.begin(&mut input, true), GamepadQuery::Nothing);
}

#[test]
fn capture_is_reported_but_remains_visibility_policy() {
    let mut input = InputState::new();
    let outcome = input.apply_message(WM_LBUTTONDOWN, 0, 0, true, false);
    assert!(outcome.observed);
    assert!(outcome.capture_mouse);
    assert!(!outcome.should_consume(false));
    assert!(outcome.should_consume(true));
    assert!(input.mouse_down(0));
}

#[test]
fn signed_mouse_coordinates_and_wheel_delta_are_preserved() {
    let mut input = InputState::new();
    let x = u16::from_ne_bytes((-12_i16).to_ne_bytes());
    let y = u16::from_ne_bytes((-34_i16).to_ne_bytes());
    let lparam = ((u32::from(y) << 16) | u32::from(x)) as usize;
    let _ = input.apply_message(WM_MOUSEMOVE, 0, lparam, false, false);
    assert_eq!(input.mouse(), Some((-12, -34)));

    let negative_delta = u16::from_ne_bytes((-120_i16).to_ne_bytes());
    let wparam = usize::from(negative_delta) << 16;
    let _ = input.apply_message(WM_MOUSEWHEEL, wparam, 0, false, false);
    let turned: f32 = input.wheel().iter().map(|delta| f32::from(*delta) / 120.0).sum();
    assert_eq!(turned, -1.0);
    let _ = input.apply_message(WM_MOUSEHWHEEL, 120 << 16, 0, false, false);
    assert_eq!(input.horizontal_wheel(), &[120]);
    input.end_frame();
    assert!(input.wheel().is_empty());
    assert!(input.horizontal_wheel().is_empty());
}

#[test]
fn focus_loss_clears_stuck_input() {
    let mut input = InputState::new();
    let _ = input.apply_message(WM_LBUTTONDOWN, 0, 0, false, false);
    let _ = input.apply_message(WM_KEYDOWN, usize::from(b'A'), 0, false, false);
    input.update_modifiers(-1, 0, 0);
    assert!(input.mouse_down(0));
    assert!(input.key_down(usize::from(b'A')));
    assert_eq!(input.modifiers(), (true, false, false, false));
    let _ = input.apply_message(WM_KILLFOCUS, 0, 0, false, false);
    assert!(!(0..5).any(|button| input.mouse_down(button)));
    assert!(!(0..256).any(|key| input.key_down(key)));
    assert_eq!(input.modifiers(), (false, false, false, false));
}

#[test]
fn focus_loss_releases_super_and_navigation() {
    let mut input = InputState::new();
    let held = map_gamepad(Gamepad { buttons: GAMEPAD_B, thumb_x: 0, thumb_y: 0 });
    input.set_super(true);
    input.set_navigation(Some(held));
    let _ = input.apply_message(WM_MOUSEWHEEL, 120 << 16, 0, false, false);
    assert_eq!(input.modifiers(), (false, false, false, true));
    assert_eq!(input.navigation(), Some(held));
    let _ = input.apply_message(WM_KILLFOCUS, 0, 0, false, false);
    assert_eq!(input.modifiers(), (false, false, false, false));
    assert_eq!(input.navigation(), None);
    assert!(input.wheel().is_empty());

    input.set_super(true);
    input.update_modifiers(0, -1, -1);
    assert_eq!(input.modifiers(), (false, true, true, false));
}

#[test]
fn utf16_character_is_queued() {
    let mut input = InputState::new();
    assert_eq!(input.characters().len(), 0);
    let outcome = input.apply_message(WM_CHAR, usize::from(b'Z'), 0, false, false);
    assert!(outcome.observed);
    assert_eq!(input.characters(), &[u16::from(b'Z')]);
}

#[test]
fn messages_are_told_apart() {
    let mut input = InputState::new();
    let outcome = input.apply_message(WM_XBUTTONDOWN, 2 << 16, 0, false, true);
    assert!(outcome.observed);
    assert!(!outcome.capture_mouse);
    assert!(input.mouse_down(4));
    let _ = input.apply_message(WM_XBUTTONDOWN, 1 << 16, 0, false, false);
    assert!(input.mouse_down(3));
    let _ = input.apply_message(WM_LBUTTONDOWN, 0, 0, false, false);
    let _ = input.apply_message(WM_LBUTTONUP, 0, 0, false, false);
    assert!(!input.mouse_down(0));

    let outcome = input.apply_message(WM_SYSKEYDOWN, 0x41, 0, false, true);
    assert!(outcome.capture_keyboard);
    assert!(input.key_down(0x41));
    let _ = input.apply_message(WM_KEYUP, 0x41, 0, false, false);
    assert!(!input.key_down(0x41));

    let _ = input.apply_message(WM_MOUSEMOVE, 0, 5, false, false);
    assert_eq!(input.mouse(), Some((5, 0)));
    let _ = input.apply_message(WM_MOUSELEAVE, 0, 0, false, false);
    assert_eq!(input.mouse(), None);

    let outcome = input.apply_message(WM_DEVICECHANGE, 7, 0, false, false);
    assert!(outcome.refresh_gamepad);
    let outcome = input.apply_message(WM_SETCURSOR, 0, usize::from(HTCLIENT), false, false);
    assert!(outcome.refresh_cursor);
    let outcome = input.apply_message(0x8000, 1, 2, true, true);
    assert_eq!(outcome, MessageOutcome::default());
    assert!(translate_message(0x8000, 1, 2).is_none());
    assert!(matches!(
        translate_message(WM_LBUTTONDOWN, 0, 0),
        Some((InputChange::MouseButton { button: 0, pressed: true }, _))
    ));
}

fn clock() -> Clock {
    initialize_clock(Some(1_000), Some(50), 0).expect("the clock runs")
}

fn sample() -> FrameSample {
    FrameSample {
        rect: Ok(WindowRect { left: 0, top: 0, right: 640, bottom: 480 }),
        counter: Ok(66),
        io_available: true,
        ctrl: -1,
        shift: 0,
        alt: 0,
        foreground: 0x10,
        foreground_is_child: false,
        cursor_position: Some((3, 4)),
        draws_cursor: false,
        cursor: 7,
    }
}

#[test]
fn a_platform_listens_to_exactly_its_own_window() {
    let mut platform =
        Win32Platform::attach(0x10, true, Ok(clock()), Ok(())).expect("the window is bound");
    let mut input = InputState::new();
    assert_eq!(platform.hwnd(), 0x10);
    let ignored = platform.handle_message(
        &mut input,
        true,
        0x20,
        WM_LBUTTONDOWN,
        0,
        0,
        true,
        true,
    );
    assert_eq!(ignored, Ok(MessageOutcome::default()));
    assert!(!input.mouse_down(0));
    let seen =
        platform.handle_message(&mut input, true, 0x10, WM_LBUTTONDOWN, 0, 0, true, true);
    assert!(seen.expect("the message is seen").capture_mouse);
    assert!(input.mouse_down(0));
    assert_eq!(
        platform.handle_message(&mut input, false, 0x10, WM_LBUTTONDOWN, 0, 0, true, true),
        Err(PlatformError::Context(ContextError::IoUnavailable))
    );

    platform
        .rebind(&mut input, true, 0x20, true, Ok(clock()), Ok(()))
        .expect("the other window is bound");
    assert_eq!(platform.hwnd(), 0x20);
    assert!(!input.mouse_down(0));

    let mut contexts = NativeContexts { current: 0, claimed: false };
    let mut owner = create(&mut contexts, 0x100).expect("the context was created");
    let claimed = BackendIo { flags: 7, platform_named: true, renderer_named: false };
    let published = platform
        .detach(&mut input, &mut owner, Some(claimed))
        .expect("the IO is available");
    assert_eq!(published, NOTHING_PUBLISHED);
    assert_eq!(
        platform.handle_message(&mut input, true, 0x20, WM_LBUTTONDOWN, 0, 0, true, true),
        Err(PlatformError::Detached)
    );
    assert_eq!(
        platform.prepare_frame(&mut input, sample()),
        Err(PlatformError::Detached)
    );
}

#[test]
fn frames_are_prepared_from_samples() {
    let mut platform =
        Win32Platform::attach(0x10, true, Ok(clock()), Ok(())).expect("the window is bound");
    let mut input = InputState::new();
    assert_eq!(
        platform.prepare_frame(&mut input, sample()),
        Ok(PreparedFrame { width: 640, height: 480, ticks: 16, cursor_changes: true })
    );
    assert_eq!(input.mouse(), Some((3, 4)));
    assert_eq!(input.modifiers(), (true, false, false, false));
    assert_eq!(
        platform.prepare_frame(&mut input, sample()),
        Err(PlatformError::NonMonotonicClock)
    );
    let mut later = sample();
    later.counter = Ok(100);
    later.foreground = 0x30;
    assert_eq!(
        platform.prepare_frame(&mut input, later),
        Ok(PreparedFrame { width: 640, height: 480, ticks: 34, cursor_changes: false })
    );
    assert_eq!(input.mouse(), None);
    let mut unreadable = sample();
    unreadable.rect = Err(6);
    let error = platform
        .prepare_frame(&mut input, unreadable)
        .expect_err("the rectangle could not be read");
    assert_eq!(error, PlatformError::ClientRect { code: 6 });
    assert_eq!(
        error.to_string(),
        "Win32 could not read the primary client rectangle (error 6)"
    );
    assert_eq!(platform.ticks_per_second(), 1_000);
}

#[test]
fn windows_clocks_and_cursors_are_judged() {
    assert_eq!(validate_window(0, true), Err(PlatformError::InvalidWindow));
    assert_eq!(validate_window(5, false), Err(PlatformError::InvalidWindow));
    assert_eq!(
        initialize_clock(Some(0), Some(1), 9),
        Err(PlatformError::ClockInitialization { code: 9 })
    );
    assert_eq!(
        initialize_clock(None, Some(1), 9),
        Err(PlatformError::ClockInitialization { code: 9 })
    );
    assert_eq!(
        client_size(Ok(WindowRect { left: 5, top: 0, right: 4, bottom: 3 })),
        Err(PlatformError::ClientRect { code: 0 })
    );
    assert!(accepts_mouse(5, 5, false));
    assert!(accepts_mouse(5, 6, true));
    assert!(!accepts_mouse(5, 0, true));
    assert_eq!(update_cursor(true, false, 7), CursorAction::Leave);
    assert_eq!(update_cursor(false, true, 7), CursorAction::Hide);
    assert_eq!(
        update_cursor(false, false, sys::ImGuiMouseCursor_Hand),
        CursorAction::Show(CursorShape::Hand)
    );
    assert_eq!(
        update_cursor(false, false, sys::ImGuiMouseCursor_ResizeNESW),
        CursorAction::Show(CursorShape::ResizeRising)
    );
    assert_eq!(
        update_cursor(false, false, sys::ImGuiMouseCursor_Arrow),
        CursorAction::Show(CursorShape::Arrow)
    );
    assert_eq!(
        Win32Platform::attach(0x10, true, Ok(clock()), Err(ContextError::IoUnavailable)).err(),
        Some(PlatformError::Context(ContextError::IoUnavailable))
    );
}
