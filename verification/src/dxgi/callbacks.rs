//! Values exchanged with observers and renderers.
use vstd::prelude::*;
use crate::render::{
    Extent2D, PresentMethod, RenderStage, SessionGeneration, SurfaceFormat, SwapChainId,
};

verus! {

/// Internal failure category.
#[derive(Clone, Copy, Debug, PartialEq, Eq, Structural)]
pub enum InternalFailure {
    /// The interface is not supported.
    UnsupportedInterface,
    /// Another manager owns the interface.
    HookConflict,
    /// An object was in an unexpected state.
    InvalidState,
    /// The graphics device was lost.
    DeviceLost,
}

/// Bounded failure code.
#[derive(Clone, Copy, Debug, PartialEq, Eq, Structural)]
pub enum FailureCode {
    /// A failure of the runtime itself.
    Internal(InternalFailure),
    /// A native HRESULT.
    HResult(i32),
}

/// Operation on a swap chain that failed.
#[derive(Clone, Copy, Debug, PartialEq, Eq, Structural)]
pub enum SwapChainOperation {
    /// A hook was being attached.
    AttachHook,
    /// Metadata was being sampled.
    Inspect,
    /// A frame was being presented.
    Present,
    /// Buffers were being resized.
    ResizeBuffers,
}

/// Render operation that failed.
#[derive(Clone, Copy, Debug, PartialEq, Eq, Structural)]
pub enum RenderOperation {
    /// Graphics state was being restored.
    RestoreState,
    /// Any other operation, by its position in the renderer's list.
    Other(u8),
}

/// Closed, redaction-safe failure event.
#[derive(Clone, Copy, Debug, PartialEq, Eq, Structural)]
pub enum DiagnosticEvent {
    /// An operation on a swap chain failed.
    SwapChainFailure {
        /// Swap chain concerned, once it has an identity.
        swap_chain: Option<SwapChainId>,
        /// Operation that failed.
        operation: SwapChainOperation,
        /// Bounded code.
        code: FailureCode,
    },
    /// A renderer callback failed.
    RenderFailure {
        /// Swap chain concerned.
        swap_chain: SwapChainId,
        /// Operation that failed.
        operation: RenderOperation,
        /// Bounded code.
        code: FailureCode,
    },
}

/// Structured failure returned by the synchronous renderer integration.
#[derive(Clone, Copy, Debug, PartialEq, Eq, Structural)]
pub struct RenderCallbackError {
    operation: RenderOperation,
    code: FailureCode,
}

impl RenderCallbackError {
    /// The failed operation.
    pub closed spec fn failed_operation(self) -> RenderOperation {
        self.operation
    }

    /// The failure code.
    pub closed spec fn failure_code(self) -> FailureCode {
        self.code
    }

    /// Creates a bounded renderer failure.
    pub fn new(operation: RenderOperation, code: FailureCode) -> (error: Self)
        ensures
            error.failed_operation() == operation,
            error.failure_code() == code,
    {
        Self { operation, code }
    }

    /// Returns the failed render operation.
    pub fn operation(self) -> (operation: RenderOperation)
        ensures
            operation == self.failed_operation(),
    {
        self.operation
    }

    /// Returns the bounded failure code.
    pub fn code(self) -> (code: FailureCode)
        ensures
            code == self.failure_code(),
    {
        self.code
    }
}

/// Presentation context of one render callback.
#[derive(Clone, Copy, Debug, PartialEq, Eq, Structural)]
pub struct PresentFrame {
    /// Native swap-chain pointer for immediate same-thread use.
    pub swap_chain: usize,
    /// Runtime-local swap-chain identity.
    pub id: SwapChainId,
    /// Presentation method being intercepted.
    pub method: PresentMethod,
    /// Global monotonic presentation sequence.
    pub sequence: u64,
    /// Current render-resource generation.
    pub generation: SessionGeneration,
    /// Maximum render stage permitted for this callback.
    pub stage: RenderStage,
}

/// Immutable upper bound for cooperative swap-chain renderer retirement.
///
/// A renderer may retire retained state only when it belongs to this chain,
/// its generation is not newer than this generation, and its latest admitted
/// render callback is not newer than this sequence. This makes a delayed
/// retirement callback harmless after the same chain renders again.
#[derive(Clone, Copy, Debug, PartialEq, Eq, Structural)]
pub struct SwapChainRetirement {
    id: SwapChainId,
    generation: SessionGeneration,
    sequence: u64,
}

impl SwapChainRetirement {
    /// The chain.
    pub closed spec fn chain(self) -> SwapChainId {
        self.id
    }

    /// The newest generation covered.
    pub closed spec fn newest_generation(self) -> SessionGeneration {
        self.generation
    }

    /// The newest callback covered.
    pub closed spec fn cutoff(self) -> u64 {
        self.sequence
    }

    /// The retirement with these parts.
    pub closed spec fn of(id: SwapChainId, generation: SessionGeneration, sequence: u64) -> Self {
        SwapChainRetirement { id, generation, sequence }
    }

    /// Whether state of a chain, last rendered at `sequence`, falls under the cutoff.
    pub open spec fn covers_state(
        self,
        id: SwapChainId,
        generation: SessionGeneration,
        sequence: u64,
    ) -> bool {
        &&& self.chain() == id
        &&& generation.value <= self.newest_generation().value
        &&& sequence <= self.cutoff()
    }

    /// Creates an exact cooperative retirement cutoff.
    pub fn new(id: SwapChainId, generation: SessionGeneration, sequence: u64) -> (retirement: Self)
        ensures
            retirement == Self::of(id, generation, sequence),
            retirement.chain() == id,
            retirement.newest_generation() == generation,
            retirement.cutoff() == sequence,
    {
        Self { id, generation, sequence }
    }

    /// Returns the runtime-local swap-chain identity.
    pub fn id(self) -> (id: SwapChainId)
        ensures
            id == self.chain(),
    {
        self.id
    }

    /// Returns the newest resource generation this callback may retire.
    pub fn generation(self) -> (generation: SessionGeneration)
        ensures
            generation == self.newest_generation(),
    {
        self.generation
    }

    /// Returns the newest admitted render callback this retirement may cover.
    pub fn sequence(self) -> (sequence: u64)
        ensures
            sequence == self.cutoff(),
    {
        self.sequence
    }

    /// Returns whether retained state falls under the cutoff.
    pub fn covers(self, id: SwapChainId, generation: SessionGeneration, sequence: u64) -> (covered:
        bool)
        ensures
            covered == self.covers_state(id, generation, sequence),
    {
        self.id == id && generation.value <= self.generation.value && sequence <= self.sequence
    }
}

/// A retirement is its parts.
pub broadcast proof fn law_a_retirement_keeps_its_parts(
    id: SwapChainId,
    generation: SessionGeneration,
    sequence: u64,
)
    ensures
        (#[trigger] SwapChainRetirement::of(id, generation, sequence)).chain() == id,
        SwapChainRetirement::of(id, generation, sequence).newest_generation() == generation,
        SwapChainRetirement::of(id, generation, sequence).cutoff() == sequence,
{
}

/// Two retirements with the same parts are one.
pub proof fn law_a_retirement_is_its_parts(left: SwapChainRetirement, right: SwapChainRetirement)
    requires
        left.chain() == right.chain(),
        left.newest_generation() == right.newest_generation(),
        left.cutoff() == right.cutoff(),
    ensures
        left == right,
{
}

/// A retirement decided before a chain rendered again leaves the newer render alone.
pub proof fn law_delayed_retirement_spares_newer_renders(
    retirement: SwapChainRetirement,
    id: SwapChainId,
    generation: SessionGeneration,
    sequence: u64,
)
    requires
        generation.value > retirement.newest_generation().value || sequence > retirement.cutoff(),
    ensures
        !retirement.covers_state(id, generation, sequence),
{
}

/// Resize context of one renderer callback.
#[derive(Clone, Copy, Debug, PartialEq, Eq, Structural)]
pub struct ResizeFrame {
    /// Native swap-chain pointer for immediate same-thread use.
    pub swap_chain: usize,
    /// Runtime-local swap-chain identity.
    pub id: SwapChainId,
    /// Requested extent.
    pub requested_size: Extent2D,
    /// Requested surface format.
    pub requested_format: SurfaceFormat,
}

/// A retirement covers state of its own chain up to and with its generation and
/// its sequence, and state of no other chain.
pub proof fn law_a_retirement_covers_up_to_its_cutoff(
    id: SwapChainId,
    generation: SessionGeneration,
    sequence: u64,
    other: SwapChainId,
    rendered_generation: SessionGeneration,
    rendered_sequence: u64,
)
    ensures
        ({
            let retirement = SwapChainRetirement::of(id, generation, sequence);
            retirement.covers_state(other, rendered_generation, rendered_sequence) <==> {
                &&& other == id
                &&& !(rendered_generation.value > generation.value)
                &&& !(rendered_sequence > sequence)
            }
        }),
{
}

} // verus!
