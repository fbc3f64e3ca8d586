//! Plain values describing swap chains, their sessions and their classification.
use vstd::prelude::*;

verus! {

/// Runtime-local swap-chain identity.
#[derive(Clone, Copy, Debug, PartialEq, Eq, Structural)]
pub struct SwapChainId {
    value: u64,
}

impl SwapChainId {
    /// The numeric identity.
    pub closed spec fn value(self) -> u64 {
        self.value
    }

    /// Creates an identity from its number.
    pub fn new(value: u64) -> (id: Self)
        ensures
            id.value() == value,
    {
        Self { value }
    }

    /// Returns the numeric identity.
    pub fn get(self) -> (value: u64)
        ensures
            value == self.value(),
    {
        self.value
    }
}

/// Two identities with one number are one identity.
pub broadcast proof fn law_an_identity_is_its_number(left: SwapChainId, right: SwapChainId)
    ensures
        #![trigger left.value(), right.value()]
        left.value() == right.value() <==> left == right,
{
}

/// Runtime-local identity of a graphics device.
#[derive(Clone, Copy, Debug, PartialEq, Eq, Structural)]
pub struct DeviceId {
    /// Numeric identity.
    pub value: u64,
}

/// Resource generation of a swap-chain session.
#[derive(Clone, Copy, Debug, PartialEq, Eq, Structural)]
pub struct SessionGeneration {
    /// Position in the chain's history, starting at one.
    pub value: u64,
}

/// Opaque output-window handle.
#[derive(Clone, Copy, Debug, PartialEq, Eq, Structural)]
pub struct Hwnd {
    /// Native handle value.
    pub value: usize,
}

/// Locally unique identifier of an adapter.
#[derive(Clone, Copy, Debug, PartialEq, Eq, Structural)]
pub struct AdapterLuid {
    /// Low part.
    pub low: u32,
    /// High part.
    pub high: i32,
}

/// Width and height in pixels.
#[derive(Clone, Copy, Debug, PartialEq, Eq, Structural)]
pub struct Extent2D {
    /// Width in pixels.
    pub width: u32,
    /// Height in pixels.
    pub height: u32,
}

/// Back-buffer format.
#[derive(Clone, Copy, Debug, PartialEq, Eq, Structural)]
pub enum SurfaceFormat {
    /// Eight-bit RGBA.
    Rgba8Unorm,
    /// Eight-bit RGBA with an sRGB transfer.
    Rgba8UnormSrgb,
    /// Eight-bit BGRA.
    Bgra8Unorm,
    /// Eight-bit BGRA with an sRGB transfer.
    Bgra8UnormSrgb,
    /// Ten-bit RGB with two-bit alpha.
    Rgb10A2Unorm,
    /// Sixteen-bit floating-point RGBA.
    Rgba16Float,
    /// Any other native format, kept as its native number.
    Other(u32),
}

/// Active color space.
#[derive(Clone, Copy, Debug, PartialEq, Eq, Structural)]
pub enum ColorSpace {
    /// Standard dynamic range sRGB.
    Srgb,
    /// Linear scRGB.
    ScRgbLinear,
    /// HDR10 with the PQ transfer.
    Hdr10Pq,
    /// Any other native color space, kept as its native number.
    Other(u32),
}

/// Presentation entry point.
#[derive(Clone, Copy, Debug, PartialEq, Eq, Structural)]
pub enum PresentMethod {
    /// `IDXGISwapChain::Present`.
    Present,
    /// `IDXGISwapChain1::Present1`.
    Present1,
}

/// Presentation traffic of one swap chain.
#[derive(Clone, Copy, Debug, PartialEq, Eq, Structural)]
pub struct Activity {
    /// Presentations seen so far.
    pub present_count: u64,
    /// Sequence of the latest presentation.
    pub last_present_sequence: u64,
    /// Presentations since the last interruption.
    pub consecutive_present_cycles: u32,
    /// Whether the output window was visible.
    pub window_visible: bool,
    /// Whether the output window was in the foreground.
    pub foreground: bool,
    /// Whether the latest presentation was occluded.
    pub occluded: bool,
}

impl Activity {
    /// Traffic of a chain that has never presented.
    pub open spec fn idle() -> Activity {
        Activity {
            present_count: 0,
            last_present_sequence: 0,
            consecutive_present_cycles: 0,
            window_visible: false,
            foreground: false,
            occluded: false,
        }
    }
}

impl Default for Activity {
    fn default() -> (activity: Self)
        ensures
            activity == Activity::idle(),
    {
        Activity {
            present_count: 0,
            last_present_sequence: 0,
            consecutive_present_cycles: 0,
            window_visible: false,
            foreground: false,
            occluded: false,
        }
    }
}

/// One sampled swap chain.
#[derive(Clone, Copy, Debug, PartialEq, Eq, Structural)]
pub struct SwapChainObservation {
    /// Swap-chain identity.
    pub id: SwapChainId,
    /// Output window, when one exists.
    pub hwnd: Option<Hwnd>,
    /// Device identity.
    pub device: DeviceId,
    /// Adapter identity.
    pub adapter_luid: AdapterLuid,
    /// Back-buffer format.
    pub format: SurfaceFormat,
    /// Active color space.
    pub color_space: ColorSpace,
    /// Back-buffer extent.
    pub size: Extent2D,
    /// Presentation entry point of the sample.
    pub present_method: PresentMethod,
    /// Presentation traffic at the sample.
    pub activity: Activity,
}

/// Staged-rendering depth.
#[derive(Clone, Copy, Debug, PartialEq, Eq, Structural)]
pub enum RenderStage {
    /// The first stage that touches the graphics device.
    RenderProbe,
    /// Any other stage, by its position in the stage policy.
    Other(u8),
}

/// Stage policy in force for the next frames.
#[derive(Clone, Copy, Debug, PartialEq, Eq, Structural)]
pub struct RenderControls {
    /// Deepest stage that rendering may reach.
    pub effective_stage: RenderStage,
    /// Whether the render probe is permitted.
    pub permits_render_probe: bool,
}

/// What a classifier goes by.
#[derive(Clone, Copy, Debug, PartialEq, Eq, Structural)]
pub struct ClassifierConfig {
    /// Window of the game, once it is known.
    pub expected_game_window: Option<Hwnd>,
    /// Chain that the user asked for.
    pub user_override: Option<SwapChainId>,
}

impl Default for ClassifierConfig {
    fn default() -> (config: Self)
        ensures
            config.expected_game_window is None,
            config.user_override is None,
    {
        ClassifierConfig { expected_game_window: None, user_override: None }
    }
}

/// Why a classifier chose its primary chain.
#[derive(Clone, Copy, Debug, PartialEq, Eq, Structural)]
pub enum SelectionReason {
    /// One candidate was eligible.
    OnlyEligibleCandidate,
    /// Any other reason, by its position in the classifier's list.
    Other(u8),
}

/// Why a classifier chose no chain.
#[derive(Clone, Copy, Debug, PartialEq, Eq, Structural)]
pub enum NoSelectionReason {
    /// There was nothing to choose from.
    NoObservations,
    /// Every candidate was rejected.
    NoEligibleCandidates,
}

/// Why a classifier rejected a candidate.
#[derive(Clone, Copy, Debug, PartialEq, Eq, Structural)]
pub enum RejectionReason {
    /// The back buffer had no extent.
    ZeroSized,
    /// No output window was available.
    MissingWindowHandle,
    /// The game window is not known yet.
    ExpectedWindowNotDiscovered,
    /// The candidate belongs to another window.
    UnexpectedWindow {
        /// Window of the candidate.
        window: Hwnd,
        /// Window of the game.
        expected: Hwnd,
    },
    /// The surface is below the configured floor.
    BelowMinimumExtent {
        /// Extent of the candidate.
        size: Extent2D,
        /// Smallest extent accepted.
        minimum: Extent2D,
    },
    /// The candidate never presented.
    NeverPresented,
    /// The window is not visible.
    InvisibleWindow,
    /// The window is occluded.
    Occluded,
    /// The candidate fell behind.
    Stale {
        /// Latest presentation of the candidate.
        last: u64,
        /// Latest presentation of any chain.
        latest: u64,
    },
}

/// What became of an exact user override.
#[derive(Clone, Copy, Debug, PartialEq, Eq, Structural)]
pub enum OverrideStatus {
    /// No override was requested.
    NotRequested,
    /// The requested chain was selected.
    Applied {
        /// Requested chain.
        id: SwapChainId,
    },
    /// The requested chain was not observed.
    Unavailable {
        /// Requested chain.
        id: SwapChainId,
    },
    /// The requested chain failed a hard check.
    Ineligible {
        /// Requested chain.
        id: SwapChainId,
        /// The check it failed.
        reason: RejectionReason,
    },
}

/// Result of one classification pass.
#[derive(Clone, Debug)]
pub struct Classification {
    /// Selected chain.
    pub selected: Option<SwapChainId>,
    /// Why the chain was selected.
    pub selection_reason: Option<SelectionReason>,
    /// Why nothing was selected.
    pub no_selection_reason: Option<NoSelectionReason>,
    /// What became of the override.
    pub override_status: OverrideStatus,
    /// Reason of each rejected candidate, in candidate order.
    pub rejected: Vec<RejectionReason>,
}

/// Position of a session in its life.
#[derive(Clone, Copy, Debug, PartialEq, Eq, Structural)]
pub enum SessionLifecycle {
    /// The chain is known and not selected.
    Candidate,
    /// The chain is selected.
    Primary,
    /// The chain's resources are gone.
    Retired,
}

/// Failure-policy state of one stage of a session.
#[derive(Clone, Copy, Debug, PartialEq, Eq, Structural)]
pub enum StageFailureState {
    /// Rendering may be attempted.
    Healthy {
        /// Failures since the last success.
        consecutive_failures: u32,
        /// Cooldowns entered so far.
        cooldowns: u32,
    },
    /// Rendering waits for a later sequence.
    CoolingDown {
        /// First sequence at which rendering may be retried.
        retry_at_sequence: u64,
        /// Cooldowns entered so far.
        cooldowns: u32,
    },
    /// Rendering is given up.
    Disabled {
        /// Cooldowns entered so far.
        cooldowns: u32,
    },
}

/// Answer of the failure policy to a render attempt.
#[derive(Clone, Copy, Debug, PartialEq, Eq, Structural)]
pub enum AttemptPermission {
    /// A first attempt may be made.
    Attempt,
    /// A retry may be made.
    Retry,
    /// The attempt has to wait.
    CoolingDown {
        /// First sequence at which rendering may be retried.
        retry_at_sequence: u64,
    },
    /// No further attempt may be made.
    Disabled,
}

/// What a session registry holds of one chain.
#[derive(Clone, Copy, Debug, PartialEq, Eq, Structural)]
pub struct Session {
    /// Resource generation.
    pub generation: SessionGeneration,
    /// Position in its life.
    pub lifecycle: SessionLifecycle,
    /// Observation that the generation belongs to.
    pub observation: SwapChainObservation,
    /// Failure-policy state of the stage in force.
    pub failure: StageFailureState,
}

/// Adds one to a counter that stops at its maximum.
pub open spec fn saturating_next(counter: u64) -> u64 {
    if counter == u64::MAX {
        counter
    } else {
        (counter + 1) as u64
    }
}

/// The larger of two sequences.
pub open spec fn later(left: u64, right: u64) -> u64 {
    if left < right {
        right
    } else {
        left
    }
}

/// Returns the larger of two sequences.
pub fn later_sequence(left: u64, right: u64) -> (sequence: u64)
    ensures
        sequence == later(left, right),
{
    if left < right {
        right
    } else {
        left
    }
}

/// A runtime counter never moves backwards, and moves on until it is exhausted.
pub proof fn law_counters_never_move_backwards(counter: u64)
    ensures
        saturating_next(counter) >= counter,
        counter < u64::MAX ==> saturating_next(counter) > counter,
{
}

/// The later of two sequences is one of them and before neither.
pub proof fn law_the_later_sequence_is_before_neither(left: u64, right: u64)
    ensures
        later(left, right) >= left,
        later(left, right) >= right,
        later(left, right) == left || later(left, right) == right,
        later(left, right) == later(right, left),
{
}

/// A counter moves on by one until it can count no further.
pub proof fn law_counters_move_by_one(counter: u64)
    ensures
        counter < 0xffff_ffff_ffff_ffff ==> saturating_next(counter) == counter + 1,
        saturating_next(0xffff_ffff_ffff_ffff) == 0xffff_ffff_ffff_ffff,
{
}

/// An idle chain has presented nothing and is nowhere to be seen.
pub proof fn law_an_idle_chain_has_presented_nothing()
    ensures
        Activity::idle().present_count == 0,
        Activity::idle().last_present_sequence == 0,
        Activity::idle().consecutive_present_cycles == 0,
        !Activity::idle().window_visible,
        !Activity::idle().foreground,
        !Activity::idle().occluded,
{
}

} // verus!
