//! Ownership and frame lifecycle of the Dear ImGui context.
use vstd::prelude::*;
use crate::float_bits::{finite, is_finite, order, rank};
use crate::text::owned;

verus! {

/// Exact Dear ImGui numeric version required by the native add-on contract.
pub const IMGUI_VERSION_NUM: u32 = 18000;

/// Bytes of one native draw vertex.
pub const DRAW_VERTEX_BYTES: usize = 20;

/// Bytes of one native draw index.
pub const DRAW_INDEX_BYTES: usize = 2;

/// Gamepad navigation is supported.
pub const FLAG_HAS_GAMEPAD: u32 = 1;

/// Native mouse cursor shapes are supported.
pub const FLAG_HAS_MOUSE_CURSORS: u32 = 2;

/// The native cursor may be repositioned.
pub const FLAG_HAS_SET_MOUSE_POS: u32 = 4;

/// The renderer honors vertex offsets.
pub const FLAG_RENDERER_HAS_VTX_OFFSET: u32 = 8;

/// Every flag that the platform backend manages.
pub const MANAGED_PLATFORM_FLAGS: u32 = 7;

/// Name under which the platform backend is published.
pub const PLATFORM_BACKEND_NAME: &'static str = "nexus-rust-win32";

/// Name under which the renderer backend is published.
pub const RENDERER_BACKEND_NAME: &'static str = "nexus-rust-d3d11";

/// Whether the linked library is the exact ABI version that add-ons require.
pub open spec fn expected_version(linked: Option<&[u8]>) -> bool {
    linked matches Some(version) && version@ == seq![0x31u8, 0x2eu8, 0x38u8, 0x30u8]
}

/// Returns whether the linked library, which names this version if it names
/// any, is the exact ABI version that add-ons require.
pub fn has_expected_version(linked: Option<&[u8]>) -> (expected: bool)
    ensures
        expected == expected_version(linked),
{
    match linked {
        None => false,
        Some(version) => {
            let expected = version.len() == 4 && version[0] == 0x31 && version[1] == 0x2e
                && version[2] == 0x38 && version[3] == 0x30;
            proof {
                if expected {
                    assert(version@ =~= seq![0x31u8, 0x2eu8, 0x38u8, 0x30u8]);
                }
            }
            expected
        },
    }
}

/// Closed failure categories for context creation and access.
#[derive(Clone, Copy, Debug, PartialEq, Eq, Structural)]
pub enum ContextError {
    /// The linked compatibility library is not Dear ImGui 1.80.
    IncompatibleVersion,
    /// This process already has an owned context.
    AlreadyOwned,
    /// Dear ImGui returned a null context pointer.
    CreationFailed,
    /// Dear ImGui returned a null IO pointer for a live context.
    IoUnavailable,
}

impl ContextError {
    /// The message of the failure.
    pub open spec fn text(self) -> Seq<char> {
        match self {
            Self::IncompatibleVersion => "the linked Dear ImGui library is not ABI version 1.80"@,
            Self::AlreadyOwned => "a Rust-owned Nexus Dear ImGui context already exists"@,
            Self::CreationFailed => "Dear ImGui failed to create a context"@,
            Self::IoUnavailable => "Dear ImGui IO is unavailable"@,
        }
    }

    /// Formats the failure for diagnostics.
    pub fn to_string(&self) -> (text: String)
        ensures
            text@ == self.text(),
    {
        match self {
            Self::IncompatibleVersion => owned(
                "the linked Dear ImGui library is not ABI version 1.80",
            ),
            Self::AlreadyOwned => owned("a Rust-owned Nexus Dear ImGui context already exists"),
            Self::CreationFailed => owned("Dear ImGui failed to create a context"),
            Self::IoUnavailable => owned("Dear ImGui IO is unavailable"),
        }
    }
}

/// Capabilities supplied by the Win32 platform backend.
#[derive(Clone, Copy, Debug, PartialEq, Eq, Structural)]
pub struct PlatformCapabilities {
    /// The platform backend is installed.
    pub installed: bool,
    /// Gamepad navigation is currently supported.
    pub has_gamepad: bool,
    /// Native mouse cursor shapes are supported.
    pub has_mouse_cursors: bool,
    /// Dear ImGui may request native cursor repositioning.
    pub has_set_mouse_pos: bool,
}

/// The capabilities of no platform.
pub open spec fn no_capabilities() -> PlatformCapabilities {
    PlatformCapabilities {
        installed: false,
        has_gamepad: false,
        has_mouse_cursors: false,
        has_set_mouse_pos: false,
    }
}

impl Default for PlatformCapabilities {
    fn default() -> (capabilities: Self)
        ensures
            capabilities == no_capabilities(),
    {
        Self {
            installed: false,
            has_gamepad: false,
            has_mouse_cursors: false,
            has_set_mouse_pos: false,
        }
    }
}

/// What the context publishes about its backends.
#[derive(Clone, Copy, Debug, PartialEq, Eq, Structural)]
pub struct BackendIo {
    /// Backend flags.
    pub flags: u32,
    /// Whether the platform backend's name is published.
    pub platform_named: bool,
    /// Whether the renderer backend's name is published.
    pub renderer_named: bool,
}

/// The flags of the platform capabilities that are actually installed.
pub open spec fn capability_flags(capabilities: PlatformCapabilities) -> u32 {
    let gamepad = if capabilities.installed && capabilities.has_gamepad {
        FLAG_HAS_GAMEPAD
    } else {
        0
    };
    let cursors = if capabilities.installed && capabilities.has_mouse_cursors {
        FLAG_HAS_MOUSE_CURSORS
    } else {
        0
    };
    let position = if capabilities.installed && capabilities.has_set_mouse_pos {
        FLAG_HAS_SET_MOUSE_POS
    } else {
        0
    };
    gamepad | cursors | position
}

/// What is published once the platform capabilities have been set.
pub open spec fn with_capabilities(io: BackendIo, capabilities: PlatformCapabilities) -> BackendIo {
    BackendIo {
        flags: (io.flags & !MANAGED_PLATFORM_FLAGS) | capability_flags(capabilities),
        platform_named: capabilities.installed,
        renderer_named: io.renderer_named,
    }
}

/// What is published once the renderer has been marked installed or absent.
pub open spec fn with_renderer(io: BackendIo, ready: bool) -> BackendIo {
    BackendIo {
        flags: if ready {
            (io.flags & !FLAG_RENDERER_HAS_VTX_OFFSET) | FLAG_RENDERER_HAS_VTX_OFFSET
        } else {
            io.flags & !FLAG_RENDERER_HAS_VTX_OFFSET
        },
        platform_named: io.platform_named,
        renderer_named: ready,
    }
}

/// The process-wide state of the native library: which context is current, and
/// whether the owned context exists.
#[derive(Clone, Copy, Debug, PartialEq, Eq, Structural)]
pub struct NativeContexts {
    /// Address of the current context, zero if there is none.
    pub current: usize,
    /// Whether the owned context exists.
    pub claimed: bool,
}

impl NativeContexts {
    /// Claims the one owned context of the process before it is created.
    pub fn claim(&mut self, linked_version: Option<&[u8]>) -> (result: Result<(), ContextError>)
        ensures
            result == (if !expected_version(linked_version) {
                Err::<(), ContextError>(ContextError::IncompatibleVersion)
            } else if old(self).claimed {
                Err::<(), ContextError>(ContextError::AlreadyOwned)
            } else {
                Ok::<(), ContextError>(())
            }),
            final(self).current == old(self).current,
            final(self).claimed == (old(self).claimed || result is Ok),
    {
        if !has_expected_version(linked_version) {
            return Err(ContextError::IncompatibleVersion);
        }
        if self.claimed {
            return Err(ContextError::AlreadyOwned);
        }
        self.claimed = true;
        Ok(())
    }

    /// Accounts for a claimed context that was created at `raw`, which made it
    /// current. The context that was current before is made current again.
    pub fn created(&mut self, raw: usize) -> (result: Result<ImGuiContextOwner, ContextError>)
        requires
            old(self).claimed,
        ensures
            match result {
                Ok(owner) => raw != 0 && owner.address() == raw && final(self).claimed,
                Err(error) => raw == 0 && error == ContextError::CreationFailed
                    && !final(self).claimed,
            },
            final(self).current == old(self).current,
    {
        if raw == 0 {
            self.claimed = false;
            return Err(ContextError::CreationFailed);
        }
        Ok(ImGuiContextOwner { context: raw })
    }

    /// Keeps a created context whose IO is available, and gives it up
    /// otherwise.
    pub fn initialize(&mut self, owner: ImGuiContextOwner, io_available: bool) -> (result: Result<
        ImGuiContextOwner,
        ContextError,
    >)
        ensures
            match result {
                Ok(kept) => io_available && kept == owner && *final(self) == *old(self),
                Err(error) => {
                    &&& !io_available
                    &&& error == ContextError::IoUnavailable
                    &&& final(self).current == (if old(self).current == owner.address() {
                        0
                    } else {
                        old(self).current
                    })
                    &&& !final(self).claimed
                },
            },
    {
        if !io_available {
            self.destroyed(owner);
            return Err(ContextError::IoUnavailable);
        }
        Ok(owner)
    }

    /// Accounts for the destruction of the owned context. A context that was
    /// current and is another one stays current.
    pub fn destroyed(&mut self, owner: ImGuiContextOwner)
        ensures
            !final(self).claimed,
            final(self).current == (if old(self).current == owner.address() {
                0
            } else {
                old(self).current
            }),
    {
        if self.current == owner.context {
            self.current = 0;
        }
        self.claimed = false;
    }
}

/// The state of the native library while an owned context is current.
pub open spec fn entered(owner: ImGuiContextOwner, contexts: NativeContexts) -> NativeContexts {
    NativeContexts { current: owner.address(), claimed: contexts.claimed }
}

/// Unique owner of the native-compatible Dear ImGui context.
#[derive(Debug, PartialEq, Eq)]
pub struct ImGuiContextOwner {
    context: usize,
}

impl ImGuiContextOwner {
    /// The address of the context.
    pub closed spec fn address(self) -> usize {
        self.context
    }

    /// Returns the exact pointer passed to native add-ons.
    ///
    /// The pointer is valid only while this owner remains alive. Add-ons must
    /// not destroy it or retain it beyond their unload callback.
    pub fn as_ptr(&self) -> (pointer: usize)
        ensures
            pointer == self.address(),
    {
        self.context
    }

    /// Runs an operation while this context is current, restoring the previous
    /// context afterwards, also where the operation made another one current.
    pub fn with_current<R, F: FnOnce(&mut NativeContexts) -> R>(
        &mut self,
        contexts: &mut NativeContexts,
        operation: F,
    ) -> (result: R)
        requires
            forall|inside: &mut NativeContexts|
                *inside == entered(*old(self), *old(contexts)) ==> call_requires(
                    operation,
                    (inside,),
                ),
        ensures
            *final(self) == *old(self),
            final(contexts).current == old(contexts).current,
            exists|inside: &mut NativeContexts|
                {
                    &&& *inside == entered(*old(self), *old(contexts))
                    &&& #[trigger] call_ensures(operation, (inside,), result)
                    &&& final(contexts).claimed == final(inside).claimed
                },
    {
        let scope = CurrentContext::enter(self, contexts);
        let result = operation(contexts);
        scope.leave(contexts);
        result
    }

    /// Publishes only the platform capabilities that are actually installed,
    /// over what the context published before, if its IO is available.
    pub fn set_platform_capabilities(
        &mut self,
        io: Option<BackendIo>,
        capabilities: PlatformCapabilities,
    ) -> (result: Result<BackendIo, ContextError>)
        ensures
            *final(self) == *old(self),
            result == (match io {
                Some(io) => Ok::<BackendIo, ContextError>(with_capabilities(io, capabilities)),
                None => Err::<BackendIo, ContextError>(ContextError::IoUnavailable),
            }),
    {
        let io = match io {
            Some(io) => io,
            None => return Err(ContextError::IoUnavailable),
        };
        let gamepad: u32 = if capabilities.installed && capabilities.has_gamepad {
            FLAG_HAS_GAMEPAD
        } else {
            0
        };
        let cursors: u32 = if capabilities.installed && capabilities.has_mouse_cursors {
            FLAG_HAS_MOUSE_CURSORS
        } else {
            0
        };
        let position: u32 = if capabilities.installed && capabilities.has_set_mouse_pos {
            FLAG_HAS_SET_MOUSE_POS
        } else {
            0
        };
        Ok(
            BackendIo {
                flags: (io.flags & !MANAGED_PLATFORM_FLAGS) | (gamepad | cursors | position),
                platform_named: capabilities.installed,
                renderer_named: io.renderer_named,
            },
        )
    }

    /// Marks the D3D11 renderer installed or absent.
    ///
    /// The installed renderer always honors vertex offsets, so that capability
    /// is published together with its backend name.
    pub fn set_renderer_ready(&mut self, io: Option<BackendIo>, ready: bool) -> (result: Result<
        BackendIo,
        ContextError,
    >)
        ensures
            *final(self) == *old(self),
            result == (match io {
                Some(io) => Ok::<BackendIo, ContextError>(with_renderer(io, ready)),
                None => Err::<BackendIo, ContextError>(ContextError::IoUnavailable),
            }),
    {
        let io = match io {
            Some(io) => io,
            None => return Err(ContextError::IoUnavailable),
        };
        let cleared: u32 = io.flags & !FLAG_RENDERER_HAS_VTX_OFFSET;
        Ok(
            BackendIo {
                flags: if ready {
                    cleared | FLAG_RENDERER_HAS_VTX_OFFSET
                } else {
                    cleared
                },
                platform_named: io.platform_named,
                renderer_named: ready,
            },
        )
    }

    /// Begins one frame, if its configuration is valid and the IO of the
    /// context is available.
    pub fn begin_frame(&mut self, config: FrameConfig, io_available: bool) -> (frame: Result<
        Frame,
        FrameError,
    >)
        ensures
            *final(self) == *old(self),
            match frame {
                Ok(frame) => config_failure(config) is None && io_available && frame.active(),
                Err(error) => match config_failure(config) {
                    Some(failure) => error == failure,
                    None => !io_available && error == FrameError::IoUnavailable,
                },
            },
    {
        if let Err(error) = validate_frame_config(config) {
            return Err(error);
        }
        if !io_available {
            return Err(FrameError::IoUnavailable);
        }
        Ok(Frame { phase: FramePhase::Active })
    }
}

/// The scope in which an owned context is current.
#[derive(Debug, PartialEq, Eq)]
pub struct CurrentContext {
    previous: usize,
}

impl CurrentContext {
    /// The context that was current before the scope.
    pub closed spec fn outer(self) -> usize {
        self.previous
    }

    /// Makes the owned context current and remembers the one before it.
    pub fn enter(owner: &ImGuiContextOwner, contexts: &mut NativeContexts) -> (scope: Self)
        ensures
            scope.outer() == old(contexts).current,
            *final(contexts) == (NativeContexts { current: owner.address(), ..*old(contexts) }),
    {
        let previous = contexts.current;
        if previous != owner.context {
            contexts.current = owner.context;
        }
        Self { previous }
    }

    /// Makes the context current again that was current before the scope.
    pub fn leave(self, contexts: &mut NativeContexts)
        ensures
            *final(contexts) == (NativeContexts { current: self.outer(), ..*old(contexts) }),
    {
        contexts.current = self.previous;
    }
}

/// Inputs for one Dear ImGui frame, as the bit patterns of their
/// single-precision values.
#[derive(Clone, Copy, Debug, PartialEq, Eq)]
pub struct FrameConfig {
    /// Logical display width.
    pub display_width: u32,
    /// Logical display height.
    pub display_height: u32,
    /// Framebuffer pixels per logical display unit, horizontally.
    pub framebuffer_scale_x: u32,
    /// Framebuffer pixels per logical display unit, vertically.
    pub framebuffer_scale_y: u32,
    /// Seconds since the previous frame.
    pub delta_seconds: u32,
}

/// Closed failure categories for beginning or rendering a frame.
#[derive(Clone, Copy, Debug, PartialEq, Eq, Structural)]
pub enum FrameError {
    /// A display dimension was negative or non-finite.
    InvalidDisplaySize,
    /// A framebuffer scale was non-positive or non-finite.
    InvalidFramebufferScale,
    /// Delta time was zero or could not be represented as a positive finite value.
    InvalidDeltaTime,
    /// Dear ImGui returned a null IO pointer for a live context.
    IoUnavailable,
    /// `render` was called more than once for the frame.
    AlreadyRendered,
    /// Dear ImGui did not publish draw data after rendering.
    DrawDataUnavailable,
}

impl FrameError {
    /// The message of the failure.
    pub open spec fn text(self) -> Seq<char> {
        match self {
            Self::InvalidDisplaySize => "the Dear ImGui display size is invalid"@,
            Self::InvalidFramebufferScale => "the Dear ImGui framebuffer scale is invalid"@,
            Self::InvalidDeltaTime => "the Dear ImGui frame delta is invalid"@,
            Self::IoUnavailable => "Dear ImGui IO is unavailable"@,
            Self::AlreadyRendered => "the Dear ImGui frame has already been rendered"@,
            Self::DrawDataUnavailable => "Dear ImGui draw data is unavailable"@,
        }
    }

    /// Formats the failure for diagnostics.
    pub fn to_string(&self) -> (text: String)
        ensures
            text@ == self.text(),
    {
        match self {
            Self::InvalidDisplaySize => owned("the Dear ImGui display size is invalid"),
            Self::InvalidFramebufferScale => owned("the Dear ImGui framebuffer scale is invalid"),
            Self::InvalidDeltaTime => owned("the Dear ImGui frame delta is invalid"),
            Self::IoUnavailable => owned("Dear ImGui IO is unavailable"),
            Self::AlreadyRendered => owned("the Dear ImGui frame has already been rendered"),
            Self::DrawDataUnavailable => owned("Dear ImGui draw data is unavailable"),
        }
    }
}

/// What is wrong with a frame's inputs, if anything is.
pub open spec fn config_failure(config: FrameConfig) -> Option<FrameError> {
    if !finite(config.display_width) || rank(config.display_width) < 0 || !finite(
        config.display_height,
    ) || rank(config.display_height) < 0 {
        Some(FrameError::InvalidDisplaySize)
    } else if !finite(config.framebuffer_scale_x) || rank(config.framebuffer_scale_x) <= 0
        || !finite(config.framebuffer_scale_y) || rank(config.framebuffer_scale_y) <= 0 {
        Some(FrameError::InvalidFramebufferScale)
    } else if !finite(config.delta_seconds) || rank(config.delta_seconds) <= 0 {
        Some(FrameError::InvalidDeltaTime)
    } else {
        None
    }
}

/// Checks the inputs of a frame.
pub fn validate_frame_config(config: FrameConfig) -> (result: Result<(), FrameError>)
    ensures
        match result {
            Ok(_) => config_failure(config) is None,
            Err(error) => config_failure(config) == Some(error),
        },
{
    if !is_finite(config.display_width) || order(config.display_width) < 0 || !is_finite(
        config.display_height,
    ) || order(config.display_height) < 0 {
        return Err(FrameError::InvalidDisplaySize);
    }
    if !is_finite(config.framebuffer_scale_x) || order(config.framebuffer_scale_x) <= 0
        || !is_finite(config.framebuffer_scale_y) || order(config.framebuffer_scale_y) <= 0 {
        return Err(FrameError::InvalidFramebufferScale);
    }
    if !is_finite(config.delta_seconds) || order(config.delta_seconds) <= 0 {
        return Err(FrameError::InvalidDeltaTime);
    }
    Ok(())
}

#[derive(Clone, Copy, Debug, PartialEq, Eq, Structural)]
enum FramePhase {
    Active,
    Rendered,
}

/// A Dear ImGui frame that was begun.
#[derive(Debug, PartialEq, Eq)]
pub struct Frame {
    phase: FramePhase,
}

impl Frame {
    /// Whether the frame has not been rendered yet.
    pub closed spec fn active(self) -> bool {
        self.phase == FramePhase::Active
    }

    /// Checks that the frame may be rendered before it is rendered natively.
    pub fn may_render(&self) -> (result: Result<(), FrameError>)
        ensures
            match result {
                Ok(_) => self.active(),
                Err(error) => !self.active() && error == FrameError::AlreadyRendered,
            },
    {
        if self.phase == FramePhase::Rendered {
            return Err(FrameError::AlreadyRendered);
        }
        Ok(())
    }

    /// Finalizes the frame, which published draw data at `draw_data` when it
    /// was rendered natively.
    pub fn render(&mut self, draw_data: usize) -> (result: Result<DrawData, FrameError>)
        ensures
            !final(self).active(),
            match result {
                Ok(data) => old(self).active() && draw_data != 0 && data.address() == draw_data,
                Err(error) => if !old(self).active() {
                    error == FrameError::AlreadyRendered
                } else {
                    draw_data == 0 && error == FrameError::DrawDataUnavailable
                },
            },
    {
        if self.phase == FramePhase::Rendered {
            return Err(FrameError::AlreadyRendered);
        }
        self.phase = FramePhase::Rendered;
        if draw_data == 0 {
            return Err(FrameError::DrawDataUnavailable);
        }
        Ok(DrawData { raw: draw_data })
    }

    /// Gives up the frame. Returns whether it still has to be ended natively.
    pub fn end(self) -> (cancels: bool)
        ensures
            cancels == self.active(),
    {
        self.phase == FramePhase::Active
    }
}

/// Draw data of a rendered frame.
#[derive(Debug, PartialEq, Eq)]
pub struct DrawData {
    raw: usize,
}

impl DrawData {
    /// The address of the draw data.
    pub closed spec fn address(self) -> usize {
        self.raw
    }

    /// Returns the native draw-data pointer consumed synchronously by the
    /// renderer.
    pub fn as_ptr(&self) -> (pointer: usize)
        ensures
            pointer == self.address(),
    {
        self.raw
    }
}

/// No platform capability is claimed that is not installed, the installed ones
/// are claimed exactly, and every flag that others manage stays as it was.
pub proof fn law_only_installed_capabilities_are_claimed(
    io: BackendIo,
    capabilities: PlatformCapabilities,
)
    ensures
        ({
            let published = with_capabilities(io, capabilities);
            &&& published.flags & FLAG_HAS_GAMEPAD != 0 <==> capabilities.installed
                && capabilities.has_gamepad
            &&& published.flags & FLAG_HAS_MOUSE_CURSORS != 0 <==> capabilities.installed
                && capabilities.has_mouse_cursors
            &&& published.flags & FLAG_HAS_SET_MOUSE_POS != 0 <==> capabilities.installed
                && capabilities.has_set_mouse_pos
            &&& published.flags & !MANAGED_PLATFORM_FLAGS == io.flags & !MANAGED_PLATFORM_FLAGS
            &&& published.platform_named == capabilities.installed
        }),
{
    let flags = io.flags;
    let installed = capabilities.installed;
    let gamepad = capabilities.has_gamepad;
    let cursors = capabilities.has_mouse_cursors;
    let position = capabilities.has_set_mouse_pos;
    assert({
        let first = if installed && gamepad {
            1u32
        } else {
            0u32
        };
        let second = if installed && cursors {
            2u32
        } else {
            0u32
        };
        let third = if installed && position {
            4u32
        } else {
            0u32
        };
        let published = (flags & !7u32) | (first | second | third);
        &&& ((published & 1u32) != 0) == (installed && gamepad)
        &&& ((published & 2u32) != 0) == (installed && cursors)
        &&& ((published & 4u32) != 0) == (installed && position)
        &&& published & !7u32 == flags & !7u32
    }) by (bit_vector);
}

/// The renderer's capability is published exactly while the renderer is ready,
/// together with its name, and no other flag moves.
pub proof fn law_renderer_capability_follows_its_name(io: BackendIo, ready: bool)
    ensures
        ({
            let published = with_renderer(io, ready);
            &&& published.flags & FLAG_RENDERER_HAS_VTX_OFFSET != 0 <==> ready
            &&& published.flags & !FLAG_RENDERER_HAS_VTX_OFFSET == io.flags
                & !FLAG_RENDERER_HAS_VTX_OFFSET
            &&& published.renderer_named == ready
        }),
{
    let flags = io.flags;
    assert({
        let set = (flags & !8u32) | 8u32;
        let unset = flags & !8u32;
        &&& set & 8u32 != 0
        &&& unset & 8u32 == 0
        &&& set & !8u32 == flags & !8u32
        &&& unset & !8u32 == flags & !8u32
    }) by (bit_vector);
}

/// Publishing one backend's capabilities leaves the other backend's name and
/// flags alone: a platform moves the lowest three flags only, and a renderer
/// the fourth.
pub proof fn law_backends_publish_apart(
    io: BackendIo,
    capabilities: PlatformCapabilities,
    ready: bool,
)
    ensures
        with_capabilities(io, capabilities).renderer_named == io.renderer_named,
        with_renderer(io, ready).platform_named == io.platform_named,
        with_capabilities(io, capabilities).flags & 8 == io.flags & 8,
        with_renderer(io, ready).flags & 7 == io.flags & 7,
        with_capabilities(io, capabilities).flags & 1 != 0 <==> capabilities.installed
            && capabilities.has_gamepad,
        with_capabilities(io, capabilities).flags & 2 != 0 <==> capabilities.installed
            && capabilities.has_mouse_cursors,
        with_capabilities(io, capabilities).flags & 4 != 0 <==> capabilities.installed
            && capabilities.has_set_mouse_pos,
        with_renderer(io, ready).flags & 8 != 0 <==> ready,
{
    law_only_installed_capabilities_are_claimed(io, capabilities);
    law_renderer_capability_follows_its_name(io, ready);
    let platform = with_capabilities(io, capabilities).flags;
    let renderer = with_renderer(io, ready).flags;
    let flags = io.flags;
    assert(platform & 8u32 == flags & 8u32) by (bit_vector)
        requires
            platform & !7u32 == flags & !7u32,
    ;
    assert(renderer & 7u32 == flags & 7u32) by (bit_vector)
        requires
            renderer & !8u32 == flags & !8u32,
    ;
}

/// A frame can be configured exactly where both sides of the display are
/// numbers that are not negative, and both scales and the time are positive
/// numbers; the first of these that fails is named.
pub proof fn law_a_frame_needs_a_display_a_scale_and_a_time(config: FrameConfig)
    ensures
        ({
            let failure = config_failure(config);
            let size = finite(config.display_width) && finite(config.display_height) && rank(
                config.display_width,
            ) >= 0 && rank(config.display_height) >= 0;
            let scale = finite(config.framebuffer_scale_x) && finite(config.framebuffer_scale_y)
                && rank(config.framebuffer_scale_x) > 0 && rank(config.framebuffer_scale_y) > 0;
            let time = finite(config.delta_seconds) && rank(config.delta_seconds) > 0;
            &&& failure is None <==> size && scale && time
            &&& failure == Some(FrameError::InvalidDisplaySize) <==> !size
            &&& failure == Some(FrameError::InvalidFramebufferScale) <==> size && !scale
            &&& failure == Some(FrameError::InvalidDeltaTime) <==> size && scale && !time
        }),
{
}

/// The context is entered as its own address, and left claimed or not as it was.
pub proof fn law_entering_makes_the_owner_current(
    owner: ImGuiContextOwner,
    contexts: NativeContexts,
)
    ensures
        entered(owner, contexts).current == owner.address(),
        entered(owner, contexts).claimed == contexts.claimed,
{
}

/// The linked library is accepted exactly where it calls itself 1.80.
pub proof fn law_only_one_version_is_accepted(linked: Option<&[u8]>)
    ensures
        linked is None ==> !expected_version(linked),
        linked is Some ==> (expected_version(linked) <==> linked->0@.len() == 4 && linked->0@[0]
            == '1' as u8 && linked->0@[1] == '.' as u8 && linked->0@[2] == '8' as u8
            && linked->0@[3] == '0' as u8),
{
    if linked is Some && linked->0@.len() == 4 && linked->0@[0] == '1' as u8 && linked->0@[1]
        == '.' as u8 && linked->0@[2] == '8' as u8 && linked->0@[3] == '0' as u8 {
        assert(linked->0@ =~= seq![0x31u8, 0x2eu8, 0x38u8, 0x30u8]);
    }
}

} // verus!
