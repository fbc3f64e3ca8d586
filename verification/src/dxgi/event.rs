//! Redaction-safe events and diagnostics.
use vstd::prelude::*;
use crate::render::{
    Classification, ColorSpace, Extent2D, NoSelectionReason, OverrideStatus, PresentMethod,
    RejectionReason, RenderStage, SelectionReason, SessionGeneration, SurfaceFormat, SwapChainId,
};
use crate::text::{owned, Message};

verus! {

/// Supported factory interface layouts.
#[derive(Clone, Copy, Debug, PartialEq, Eq, Structural)]
pub enum FactoryInterface {
    /// `IDXGIFactory`.
    Base,
    /// `IDXGIFactory1`.
    V1,
    /// `IDXGIFactory2`.
    V2,
    /// `IDXGIFactory3`.
    V3,
    /// `IDXGIFactory4`.
    V4,
    /// `IDXGIFactory5`.
    V5,
    /// `IDXGIFactory6`.
    V6,
    /// `IDXGIFactory7`.
    V7,
    /// `IDXGIFactoryMedia`, an independent `IUnknown`-derived interface.
    Media,
}

/// Supported inherited swap-chain interface layouts.
#[derive(Clone, Copy, Debug, PartialEq, Eq, Structural)]
pub enum SwapChainInterface {
    /// `IDXGISwapChain`.
    Base,
    /// `IDXGISwapChain1`.
    V1,
    /// `IDXGISwapChain2`.
    V2,
    /// `IDXGISwapChain3`.
    V3,
    /// `IDXGISwapChain4`.
    V4,
}

/// Native object family involved in an interception event.
#[derive(Clone, Copy, Debug, PartialEq, Eq, Structural)]
pub enum ObjectKind {
    /// A concrete DXGI factory interface.
    Factory,
    /// A concrete DXGI swap-chain interface.
    SwapChain,
}

/// Result of an explicit attachment request.
#[derive(Clone, Copy, Debug, PartialEq, Eq, Structural)]
pub enum AttachOutcome {
    /// One or more concrete interface pointers were newly intercepted.
    Attached {
        /// Number of per-instance vtables published by this request.
        interfaces: u32,
    },
    /// This manager already owned the concrete interface.
    AlreadyAttached,
}

/// Native boundary at which a panic was contained.
#[derive(Clone, Copy, Debug, PartialEq, Eq, Structural)]
pub enum Boundary {
    /// `IUnknown::QueryInterface` on a factory.
    FactoryQueryInterface,
    /// A factory swap-chain creation method.
    FactoryCreateSwapChain,
    /// `IUnknown::QueryInterface` on a swap chain.
    SwapChainQueryInterface,
    /// `Present` or `Present1`.
    Present,
    /// `ResizeBuffers` or `ResizeBuffers1`.
    ResizeBuffers,
    /// `IDXGISwapChain3::SetColorSpace1`.
    SetColorSpace1,
    /// A user-provided diagnostic or observation callback.
    ObserverCallback,
    /// A user-provided overlay-render callback.
    RendererCallback,
}

/// Metadata that could not be authoritatively sampled.
#[derive(Clone, Copy, Debug, PartialEq, Eq, Structural)]
pub enum ObservationField {
    /// The output window.
    Window,
    /// The D3D/DXGI device identity.
    Device,
    /// The adapter LUID.
    Adapter,
    /// The back-buffer extent or format.
    Surface,
    /// The active color space, which DXGI cannot query directly.
    ColorSpace,
}

/// Closed classification of a forwarded HRESULT.
#[derive(Clone, Copy, Debug, PartialEq, Eq, Structural)]
pub enum HResultDisposition {
    /// The native call returned success.
    Success,
    /// Presentation reported that the target was occluded.
    Occluded,
    /// The graphics device was removed.
    DeviceRemoved,
    /// The graphics device was reset.
    DeviceReset,
    /// Another native status or failure was returned.
    Other(i32),
}

/// Redaction-safe category for one automatically rejected render candidate.
#[derive(Clone, Copy, Debug, PartialEq, Eq, Structural)]
pub enum RenderCandidateRejection {
    /// The back buffer had no renderable extent.
    ZeroSized,
    /// No output window was available.
    MissingWindowHandle,
    /// Automatic admission is waiting for game-window discovery.
    ExpectedWindowNotDiscovered,
    /// The candidate belonged to a window other than the discovered game window.
    UnexpectedWindow,
    /// The surface was below the configured automatic-selection floor.
    BelowMinimumExtent,
    /// The candidate had not presented yet.
    NeverPresented,
    /// The owning window was not visible.
    InvisibleWindow,
    /// Native presentation reported occlusion.
    Occluded,
    /// The candidate had fallen behind active presentation traffic.
    Stale,
}

impl RenderCandidateRejection {
    /// Position of the category in the order in which diagnostics list categories.
    pub open spec fn rank(self) -> nat {
        match self {
            RenderCandidateRejection::ZeroSized => 0,
            RenderCandidateRejection::MissingWindowHandle => 1,
            RenderCandidateRejection::ExpectedWindowNotDiscovered => 2,
            RenderCandidateRejection::UnexpectedWindow => 3,
            RenderCandidateRejection::BelowMinimumExtent => 4,
            RenderCandidateRejection::NeverPresented => 5,
            RenderCandidateRejection::InvisibleWindow => 6,
            RenderCandidateRejection::Occluded => 7,
            RenderCandidateRejection::Stale => 8,
        }
    }

    /// The category that a classifier reason falls under, without its native values.
    pub open spec fn of(reason: RejectionReason) -> RenderCandidateRejection {
        match reason {
            RejectionReason::ZeroSized => RenderCandidateRejection::ZeroSized,
            RejectionReason::MissingWindowHandle => RenderCandidateRejection::MissingWindowHandle,
            RejectionReason::ExpectedWindowNotDiscovered =>
                RenderCandidateRejection::ExpectedWindowNotDiscovered,
            RejectionReason::UnexpectedWindow { .. } => RenderCandidateRejection::UnexpectedWindow,
            RejectionReason::BelowMinimumExtent { .. } =>
                RenderCandidateRejection::BelowMinimumExtent,
            RejectionReason::NeverPresented => RenderCandidateRejection::NeverPresented,
            RejectionReason::InvisibleWindow => RenderCandidateRejection::InvisibleWindow,
            RejectionReason::Occluded => RenderCandidateRejection::Occluded,
            RejectionReason::Stale { .. } => RenderCandidateRejection::Stale,
        }
    }

    /// The text that names the category.
    pub open spec fn label(self) -> Seq<char> {
        match self {
            RenderCandidateRejection::ZeroSized => "zero-sized surface"@,
            RenderCandidateRejection::MissingWindowHandle => "missing window handle"@,
            RenderCandidateRejection::ExpectedWindowNotDiscovered => "game window not discovered"@,
            RenderCandidateRejection::UnexpectedWindow => "unexpected window"@,
            RenderCandidateRejection::BelowMinimumExtent => "surface below minimum extent"@,
            RenderCandidateRejection::NeverPresented => "candidate never presented"@,
            RenderCandidateRejection::InvisibleWindow => "window not visible"@,
            RenderCandidateRejection::Occluded => "window occluded"@,
            RenderCandidateRejection::Stale => "stale presentation activity"@,
        }
    }

    fn rank_number(self) -> (rank: u8)
        ensures
            rank == self.rank(),
    {
        match self {
            RenderCandidateRejection::ZeroSized => 0,
            RenderCandidateRejection::MissingWindowHandle => 1,
            RenderCandidateRejection::ExpectedWindowNotDiscovered => 2,
            RenderCandidateRejection::UnexpectedWindow => 3,
            RenderCandidateRejection::BelowMinimumExtent => 4,
            RenderCandidateRejection::NeverPresented => 5,
            RenderCandidateRejection::InvisibleWindow => 6,
            RenderCandidateRejection::Occluded => 7,
            RenderCandidateRejection::Stale => 8,
        }
    }

    fn literal(self) -> (text: &'static str)
        ensures
            text@ == self.label(),
    {
        match self {
            RenderCandidateRejection::ZeroSized => "zero-sized surface",
            RenderCandidateRejection::MissingWindowHandle => "missing window handle",
            RenderCandidateRejection::ExpectedWindowNotDiscovered => "game window not discovered",
            RenderCandidateRejection::UnexpectedWindow => "unexpected window",
            RenderCandidateRejection::BelowMinimumExtent => "surface below minimum extent",
            RenderCandidateRejection::NeverPresented => "candidate never presented",
            RenderCandidateRejection::InvisibleWindow => "window not visible",
            RenderCandidateRejection::Occluded => "window occluded",
            RenderCandidateRejection::Stale => "stale presentation activity",
        }
    }

    /// Returns the text that names the category.
    pub fn to_string(&self) -> (text: String)
        ensures
            text@ == self.label(),
    {
        owned(self.literal())
    }
}

impl From<RejectionReason> for RenderCandidateRejection {
    fn from(reason: RejectionReason) -> (category: Self) {
        match reason {
            RejectionReason::ZeroSized => RenderCandidateRejection::ZeroSized,
            RejectionReason::MissingWindowHandle => RenderCandidateRejection::MissingWindowHandle,
            RejectionReason::ExpectedWindowNotDiscovered => {
                RenderCandidateRejection::ExpectedWindowNotDiscovered
            },
            RejectionReason::UnexpectedWindow { .. } => RenderCandidateRejection::UnexpectedWindow,
            RejectionReason::BelowMinimumExtent { .. } => {
                RenderCandidateRejection::BelowMinimumExtent
            },
            RejectionReason::NeverPresented => RenderCandidateRejection::NeverPresented,
            RejectionReason::InvisibleWindow => RenderCandidateRejection::InvisibleWindow,
            RejectionReason::Occluded => RenderCandidateRejection::Occluded,
            RejectionReason::Stale { .. } => RenderCandidateRejection::Stale,
        }
    }
}

impl vstd::std_specs::convert::FromSpecImpl<RejectionReason> for RenderCandidateRejection {
    open spec fn obeys_from_spec() -> bool {
        true
    }

    open spec fn from_spec(reason: RejectionReason) -> RenderCandidateRejection {
        RenderCandidateRejection::of(reason)
    }
}

/// Closed summary of the render candidates withheld by failure policy.
#[derive(Clone, Copy, Debug, PartialEq, Eq, Structural)]
pub enum RenderFailurePolicySuppression {
    /// Every suppressed candidate is waiting for its next permitted retry.
    CoolingDown,
    /// Every suppressed candidate has exhausted its permitted retries.
    Disabled,
    /// Some candidates are cooling down while others are disabled.
    CoolingDownAndDisabled,
}

/// Why an exact user override could not provide the primary render chain.
#[derive(Clone, Copy, Debug, PartialEq, Eq, Structural)]
pub enum RenderOverrideFailure {
    /// The requested swap-chain identity was not observed.
    Unavailable,
    /// The requested chain was observed but withheld by failure policy.
    FailurePolicySuppressed(RenderFailurePolicySuppression),
    /// The requested chain was observed but failed a hard safety check.
    Ineligible {
        /// Redaction-safe rejection category; the requested identity is omitted.
        reason: RenderCandidateRejection,
    },
}

/// Closed reason that automatic primary selection could not proceed.
#[derive(Clone, Copy, Debug, PartialEq, Eq, Structural)]
pub enum RenderSelectionFailure {
    /// The platform supplied no swap-chain observations.
    NoObservations,
    /// Every observed automatic candidate was rejected.
    NoEligibleCandidates,
    /// Failure policy withheld candidates and no remaining candidate was selected.
    FailurePolicySuppressed(RenderFailurePolicySuppression),
}

/// How failure policy withheld candidates, if it withheld any.
pub open spec fn suppression(
    has_cooling_down: bool,
    has_disabled: bool,
) -> Option<RenderFailurePolicySuppression> {
    if has_cooling_down && has_disabled {
        Some(RenderFailurePolicySuppression::CoolingDownAndDisabled)
    } else if has_cooling_down {
        Some(RenderFailurePolicySuppression::CoolingDown)
    } else if has_disabled {
        Some(RenderFailurePolicySuppression::Disabled)
    } else {
        None
    }
}

/// Summarises how failure policy withheld candidates.
pub fn failure_policy_suppression(
    has_cooling_down: bool,
    has_disabled: bool,
) -> (summary: Option<RenderFailurePolicySuppression>)
    ensures
        summary == suppression(has_cooling_down, has_disabled),
{
    match (has_cooling_down, has_disabled) {
        (true, false) => Some(RenderFailurePolicySuppression::CoolingDown),
        (false, true) => Some(RenderFailurePolicySuppression::Disabled),
        (true, true) => Some(RenderFailurePolicySuppression::CoolingDownAndDisabled),
        (false, false) => None,
    }
}

/// The override failure that a status stands for. An observed suppression
/// takes the place of whatever the classifier, which never saw the chain, said.
pub open spec fn override_failure_of(
    status: OverrideStatus,
    override_suppression: Option<RenderFailurePolicySuppression>,
) -> Option<RenderOverrideFailure> {
    match override_suppression {
        Some(withheld) => Some(RenderOverrideFailure::FailurePolicySuppressed(withheld)),
        None => match status {
            OverrideStatus::NotRequested => None,
            OverrideStatus::Applied { .. } => None,
            OverrideStatus::Unavailable { .. } => Some(RenderOverrideFailure::Unavailable),
            OverrideStatus::Ineligible { reason, .. } => Some(
                RenderOverrideFailure::Ineligible { reason: RenderCandidateRejection::of(reason) },
            ),
        },
    }
}

fn redacted_override_failure(
    status: OverrideStatus,
    override_suppression: Option<RenderFailurePolicySuppression>,
) -> (failure: Option<RenderOverrideFailure>)
    ensures
        failure == override_failure_of(status, override_suppression),
{
    if let Some(withheld) = override_suppression {
        return Some(RenderOverrideFailure::FailurePolicySuppressed(withheld));
    }
    match status {
        OverrideStatus::NotRequested => None,
        OverrideStatus::Applied { .. } => None,
        OverrideStatus::Unavailable { .. } => Some(RenderOverrideFailure::Unavailable),
        OverrideStatus::Ineligible { reason, .. } => {
            let category = RenderCandidateRejection::from(reason);
            Some(RenderOverrideFailure::Ineligible { reason: category })
        },
    }
}

/// Redaction-safe result of a successful primary-chain classification.
///
/// This records the classifier's closed selection reason and any redacted exact-
/// override failure that preceded automatic fallback. It deliberately omits the
/// selected swap-chain identity so it can be emitted even when the currently
/// presenting chain is not the selected chain.
#[derive(Clone, Copy, Debug, PartialEq, Eq, Structural)]
pub struct RenderSelectionResolved {
    reason: SelectionReason,
    override_failure: Option<RenderOverrideFailure>,
}

/// The parts of a resolved selection.
pub open spec fn resolved_is(
    resolved: RenderSelectionResolved,
    reason: SelectionReason,
    override_failure: Option<RenderOverrideFailure>,
) -> bool {
    resolved.selection() == reason && resolved.failed_override() == override_failure
}

impl RenderSelectionResolved {
    /// The reason that selected the primary chain.
    pub closed spec fn selection(self) -> SelectionReason {
        self.reason
    }

    /// The override failure that automatic fallback recovered from.
    pub closed spec fn failed_override(self) -> Option<RenderOverrideFailure> {
        self.override_failure
    }

    /// The state that a classification stands for, if it selected a chain.
    pub open spec fn matches_classification(
        resolved: Option<Self>,
        classification: Classification,
        override_suppression: Option<RenderFailurePolicySuppression>,
    ) -> bool {
        &&& resolved is Some <==> (classification.selected is Some
            && classification.selection_reason is Some)
        &&& resolved matches Some(state) ==> resolved_is(
            state,
            classification.selection_reason->0,
            override_failure_of(classification.override_status, override_suppression),
        )
    }

    /// Creates a resolved state from a closed classifier reason.
    pub fn new(reason: SelectionReason) -> (resolved: Self)
        ensures
            resolved_is(resolved, reason, None),
    {
        Self { reason, override_failure: None }
    }

    /// Converts a successful classification into a redaction-safe state.
    pub fn from_classification(classification: &Classification) -> (resolved: Option<Self>)
        ensures
            Self::matches_classification(resolved, *classification, None),
    {
        Self::from_classification_with_override_suppression(classification, None)
    }

    /// Converts a successful classification, naming an override that failure policy withheld.
    pub fn from_classification_with_override_suppression(
        classification: &Classification,
        override_suppression: Option<RenderFailurePolicySuppression>,
    ) -> (resolved: Option<Self>)
        ensures
            Self::matches_classification(resolved, *classification, override_suppression),
    {
        if classification.selected.is_none() {
            return None;
        }
        match classification.selection_reason {
            None => None,
            Some(reason) => Some(
                Self {
                    reason,
                    override_failure: redacted_override_failure(
                        classification.override_status,
                        override_suppression,
                    ),
                },
            ),
        }
    }

    /// Returns the closed reason that selected the primary chain.
    pub fn reason(self) -> (reason: SelectionReason)
        ensures
            reason == self.selection(),
    {
        self.reason
    }

    /// Returns the redacted exact-override failure that automatic fallback recovered from.
    pub fn override_failure(self) -> (failure: Option<RenderOverrideFailure>)
        ensures
            failure == self.failed_override(),
    {
        self.override_failure
    }
}

/// Typed, redaction-safe diagnostic for a deferred primary-render selection.
///
/// Swap-chain identities, raw HWND values, extents, and presentation counters
/// are deliberately removed. Rejection categories are sorted and unique so
/// equivalent per-frame failures compare equal even as candidate identities
/// change.
#[derive(Clone, Debug, PartialEq, Eq)]
pub struct RenderSelectionDeferred {
    failure: RenderSelectionFailure,
    override_failure: Option<RenderOverrideFailure>,
    rejections: Vec<RenderCandidateRejection>,
}

/// Whether categories ascend strictly, which leaves none of them twice.
pub open spec fn sorted_unique(rejections: Seq<RenderCandidateRejection>) -> bool {
    forall|i: int, j: int| #![trigger rejections[i], rejections[j]]
        0 <= i < j < rejections.len() ==> rejections[i].rank() < rejections[j].rank()
}

/// Whether two sequences hold the same categories.
pub open spec fn same_categories(
    rejections: Seq<RenderCandidateRejection>,
    reasons: Seq<RejectionReason>,
) -> bool {
    forall|category: RenderCandidateRejection| #[trigger]
        rejections.contains(category) <==> has_category(reasons, category)
}

/// Whether a reason of the category occurs.
pub open spec fn has_category(
    reasons: Seq<RejectionReason>,
    category: RenderCandidateRejection,
) -> bool {
    exists|i: int| 0 <= i < reasons.len() && RenderCandidateRejection::of(#[trigger] reasons[i]) == category
}

/// The text of a comma-separated list of categories.
pub open spec fn listing(rejections: Seq<RenderCandidateRejection>) -> Seq<char>
    decreases rejections.len(),
{
    if rejections.len() == 0 {
        Seq::empty()
    } else if rejections.len() == 1 {
        rejections[0].label()
    } else {
        listing(rejections.drop_last()) + ", "@ + rejections.last().label()
    }
}

/// The text of a selection failure.
pub open spec fn failure_text(failure: RenderSelectionFailure) -> Seq<char> {
    match failure {
        RenderSelectionFailure::NoObservations => "no swap-chain observations"@,
        RenderSelectionFailure::NoEligibleCandidates => "no eligible swap chains"@,
        RenderSelectionFailure::FailurePolicySuppressed(withheld) => match withheld {
            RenderFailurePolicySuppression::CoolingDown =>
                "render candidates cooling down under failure policy"@,
            RenderFailurePolicySuppression::Disabled =>
                "render candidates disabled by failure policy"@,
            RenderFailurePolicySuppression::CoolingDownAndDisabled =>
                "render candidates cooling down or disabled by failure policy"@,
        },
    }
}

/// The text of an override failure.
pub open spec fn override_text(failure: Option<RenderOverrideFailure>) -> Seq<char> {
    match failure {
        None => Seq::empty(),
        Some(RenderOverrideFailure::Unavailable) => "; requested override unavailable"@,
        Some(RenderOverrideFailure::FailurePolicySuppressed(withheld)) => match withheld {
            RenderFailurePolicySuppression::CoolingDown =>
                "; requested override cooling down under failure policy"@,
            RenderFailurePolicySuppression::Disabled =>
                "; requested override disabled by failure policy"@,
            RenderFailurePolicySuppression::CoolingDownAndDisabled =>
                "; requested override cooling down or disabled by failure policy"@,
        },
        Some(RenderOverrideFailure::Ineligible { reason }) =>
            "; requested override ineligible: "@ + reason.label(),
    }
}

/// The text of the rejected categories.
pub open spec fn rejected_text(rejections: Seq<RenderCandidateRejection>) -> Seq<char> {
    if rejections.len() == 0 {
        Seq::empty()
    } else {
        "; rejected: "@ + listing(rejections)
    }
}

impl RenderSelectionDeferred {
    /// The failure that deferred selection.
    pub closed spec fn cause(&self) -> RenderSelectionFailure {
        self.failure
    }

    /// The failure of the exact override.
    pub closed spec fn failed_override(&self) -> Option<RenderOverrideFailure> {
        self.override_failure
    }

    /// The rejection categories.
    pub closed spec fn categories(&self) -> Seq<RenderCandidateRejection> {
        self.rejections@
    }

    /// Categories are sorted and unique.
    pub open spec fn wf(&self) -> bool {
        sorted_unique(self.categories())
    }

    /// The whole text of the diagnostic.
    pub open spec fn text(&self) -> Seq<char> {
        failure_text(self.cause()) + override_text(self.failed_override()) + rejected_text(
            self.categories(),
        )
    }

    /// Whether a classification leaves something to report.
    pub open spec fn reportable(classification: Classification) -> bool {
        &&& classification.selected is None
        &&& classification.no_selection_reason is Some
        &&& !(classification.override_status is Applied)
    }

    /// What the classifier alone says was the failure.
    pub open spec fn classifier_failure(reason: NoSelectionReason) -> RenderSelectionFailure {
        match reason {
            NoSelectionReason::NoObservations => RenderSelectionFailure::NoObservations,
            NoSelectionReason::NoEligibleCandidates => RenderSelectionFailure::NoEligibleCandidates,
        }
    }

    /// What a diagnostic of a classification holds.
    pub open spec fn describes(
        deferred: Option<Self>,
        classification: Classification,
        withheld: Option<RenderFailurePolicySuppression>,
        override_suppression: Option<RenderFailurePolicySuppression>,
    ) -> bool {
        &&& deferred is Some <==> Self::reportable(classification)
        &&& deferred matches Some(diagnostic) ==> {
            &&& diagnostic.wf()
            &&& diagnostic.cause() == match withheld {
                Some(summary) => RenderSelectionFailure::FailurePolicySuppressed(summary),
                None => Self::classifier_failure(classification.no_selection_reason->0),
            }
            &&& diagnostic.failed_override() == override_failure_of(
                classification.override_status,
                override_suppression,
            )
            &&& same_categories(diagnostic.categories(), classification.rejected@)
        }
    }

    /// Creates a diagnostic from its parts, sorting the categories.
    pub fn new(
        failure: RenderSelectionFailure,
        override_failure: Option<RenderOverrideFailure>,
        reasons: &Vec<RejectionReason>,
    ) -> (diagnostic: Self)
        ensures
            diagnostic.wf(),
            diagnostic.cause() == failure,
            diagnostic.failed_override() == override_failure,
            same_categories(diagnostic.categories(), reasons@),
    {
        let mut rejections: Vec<RenderCandidateRejection> = Vec::new();
        let mut index: usize = 0;
        while index < reasons.len()
            invariant
                index <= reasons.len(),
                sorted_unique(rejections@),
                same_categories(rejections@, reasons@.subrange(0, index as int)),
            decreases reasons.len() - index,
        {
            let category = RenderCandidateRejection::from(reasons[index]);
            let ghost before = rejections@;
            insert_sorted(&mut rejections, category);
            proof {
                lemma_category_step(reasons@, index as int, before, rejections@);
            }
            index = index + 1;
        }
        assert(reasons@.subrange(0, index as int) =~= reasons@);
        Self { failure, override_failure, rejections }
    }

    /// Converts an unsuccessful classifier result into an observable diagnostic.
    pub fn from_classification(classification: &Classification) -> (deferred: Option<Self>)
        ensures
            Self::describes(deferred, *classification, None, None),
    {
        Self::from_classification_with_failure_policy_and_override_suppression(
            classification,
            false,
            false,
            None,
        )
    }

    /// Combines classifier rejection detail with any failure-policy suppression.
    ///
    /// Suppression is the primary failure whenever at least one observation was
    /// withheld, while override and rejection details from the remaining
    /// classifier candidates are retained.
    pub fn from_classification_with_failure_policy_and_override_suppression(
        classification: &Classification,
        has_cooling_down: bool,
        has_disabled: bool,
        override_suppression: Option<RenderFailurePolicySuppression>,
    ) -> (deferred: Option<Self>)
        ensures
            Self::describes(
                deferred,
                *classification,
                suppression(has_cooling_down, has_disabled),
                override_suppression,
            ),
    {
        if classification.selected.is_some() {
            return None;
        }
        let failure = match classification.no_selection_reason {
            None => {
                return None;
            },
            Some(NoSelectionReason::NoObservations) => RenderSelectionFailure::NoObservations,
            Some(
                NoSelectionReason::NoEligibleCandidates,
            ) => RenderSelectionFailure::NoEligibleCandidates,
        };
        if let OverrideStatus::Applied { .. } = classification.override_status {
            return None;
        }
        let failure = match failure_policy_suppression(has_cooling_down, has_disabled) {
            Some(summary) => RenderSelectionFailure::FailurePolicySuppressed(summary),
            None => failure,
        };
        let override_failure = redacted_override_failure(
            classification.override_status,
            override_suppression,
        );
        Some(Self::new(failure, override_failure, &classification.rejected))
    }

    /// Creates a diagnostic when failure policy filtered every observed chain.
    ///
    /// `None` is returned when neither state was present, preventing callers
    /// from manufacturing a suppression diagnostic without evidence.
    pub fn from_failure_policy(has_cooling_down: bool, has_disabled: bool) -> (deferred: Option<
        Self,
    >)
        ensures
            deferred is Some <==> has_cooling_down || has_disabled,
            deferred matches Some(diagnostic) ==> {
                &&& diagnostic.wf()
                &&& diagnostic.cause() == RenderSelectionFailure::FailurePolicySuppressed(
                    suppression(has_cooling_down, has_disabled)->0,
                )
                &&& diagnostic.failed_override() is None
                &&& diagnostic.categories() == Seq::<RenderCandidateRejection>::empty()
            },
    {
        match failure_policy_suppression(has_cooling_down, has_disabled) {
            None => None,
            Some(summary) => Some(
                Self {
                    failure: RenderSelectionFailure::FailurePolicySuppressed(summary),
                    override_failure: None,
                    rejections: Vec::new(),
                },
            ),
        }
    }

    /// Returns the closed automatic-selection failure.
    pub fn failure(&self) -> (failure: RenderSelectionFailure)
        ensures
            failure == self.cause(),
    {
        self.failure
    }

    /// Returns the redacted exact-override failure, when one was requested.
    pub fn override_failure(&self) -> (failure: Option<RenderOverrideFailure>)
        ensures
            failure == self.failed_override(),
    {
        self.override_failure
    }

    /// Returns sorted, unique automatic-candidate rejection categories.
    pub fn rejections(&self) -> (rejections: &[RenderCandidateRejection])
        ensures
            rejections@ == self.categories(),
    {
        self.rejections.as_slice()
    }

    /// Returns the text of the diagnostic, which holds no native value.
    pub fn to_string(&self) -> (text: String)
        ensures
            text@ == self.text(),
    {
        let mut message = Message::new();
        message.text(
            match self.failure {
                RenderSelectionFailure::NoObservations => "no swap-chain observations",
                RenderSelectionFailure::NoEligibleCandidates => "no eligible swap chains",
                RenderSelectionFailure::FailurePolicySuppressed(
                    RenderFailurePolicySuppression::CoolingDown,
                ) => "render candidates cooling down under failure policy",
                RenderSelectionFailure::FailurePolicySuppressed(
                    RenderFailurePolicySuppression::Disabled,
                ) => "render candidates disabled by failure policy",
                RenderSelectionFailure::FailurePolicySuppressed(
                    RenderFailurePolicySuppression::CoolingDownAndDisabled,
                ) => "render candidates cooling down or disabled by failure policy",
            },
        );
        assert(message@ =~= failure_text(self.cause()));
        match self.override_failure {
            None => {},
            Some(RenderOverrideFailure::Unavailable) => {
                message.text("; requested override unavailable");
            },
            Some(RenderOverrideFailure::FailurePolicySuppressed(withheld)) => {
                message.text(
                    match withheld {
                        RenderFailurePolicySuppression::CoolingDown =>
                            "; requested override cooling down under failure policy",
                        RenderFailurePolicySuppression::Disabled =>
                            "; requested override disabled by failure policy",
                        RenderFailurePolicySuppression::CoolingDownAndDisabled =>
                            "; requested override cooling down or disabled by failure policy",
                    },
                );
            },
            Some(RenderOverrideFailure::Ineligible { reason }) => {
                message.text("; requested override ineligible: ");
                message.text(reason.literal());
            },
        }
        let ghost head = failure_text(self.cause()) + override_text(self.failed_override());
        assert(message@ =~= head);
        if self.rejections.len() > 0 {
            message.text("; rejected: ");
            let mut index: usize = 0;
            while index < self.rejections.len()
                invariant
                    index <= self.rejections.len(),
                    message@ == head + "; rejected: "@ + listing(
                        self.rejections@.subrange(0, index as int),
                    ),
                decreases self.rejections.len() - index,
            {
                let ghost listed = self.rejections@.subrange(0, index as int);
                let ghost next = self.rejections@.subrange(0, index + 1);
                assert(next.drop_last() =~= listed);
                if index != 0 {
                    message.text(", ");
                }
                message.text(self.rejections[index].literal());
                assert(message@ =~= head + "; rejected: "@ + listing(next));
                index = index + 1;
            }
            assert(self.rejections@.subrange(0, index as int) =~= self.rejections@);
        }
        assert(message@ =~= self.text());
        message.finish()
    }
}

/// Adds a category to a sorted list unless it is there.
fn insert_sorted(rejections: &mut Vec<RenderCandidateRejection>, category: RenderCandidateRejection)
    requires
        sorted_unique(old(rejections)@),
    ensures
        sorted_unique(final(rejections)@),
        forall|other: RenderCandidateRejection| #[trigger]
            final(rejections)@.contains(other) <==> (old(rejections)@.contains(other) || other == category),
{
    let mut index: usize = 0;
    while index < rejections.len() && rejections[index].rank_number() < category.rank_number()
        invariant
            index <= rejections.len(),
            forall|i: int| 0 <= i < index ==> (#[trigger] rejections@[i]).rank() < category.rank(),
        decreases rejections.len() - index,
    {
        index = index + 1;
    }
    let ghost before = rejections@;
    if index < rejections.len() && rejections[index].rank_number() == category.rank_number() {
        assert(rejections@[index as int] == category);
        return ;
    }
    proof {
        if index < before.len() {
            assert forall|i: int| index <= i < before.len() implies (#[trigger] before[i]).rank() > category.rank() by {
                if index < i {
                    assert(before[index as int].rank() < before[i].rank());
                }
            }
        }
    }
    rejections.insert(index, category);
    proof {
        let after = rejections@;
        assert forall|i: int, j: int| #![trigger after[i], after[j]]
            0 <= i < j < after.len() implies after[i].rank() < after[j].rank() by {
            let left = if i < index { i } else { i - 1 };
            let right = if j < index { j } else { j - 1 };
            if i != index && j != index {
                assert(before[left].rank() < before[right].rank());
            } else if i == index {
                assert(before[right].rank() > category.rank());
            } else {
                assert(before[left].rank() < category.rank());
            }
        }
        assert forall|other: RenderCandidateRejection| #[trigger]
            after.contains(other) <==> (before.contains(other) || other == category) by {
            if before.contains(other) {
                let i = choose|i: int| 0 <= i < before.len() && before[i] == other;
                let moved = if i < index { i } else { i + 1 };
                assert(after[moved] == other);
            }
            assert(after[index as int] == category);
            if after.contains(other) {
                let i = choose|i: int| 0 <= i < after.len() && after[i] == other;
                if i != index {
                    let origin = if i < index { i } else { i - 1 };
                    assert(before[origin] == other);
                }
            }
        }
    }
}

/// Taking one more reason adds its category and no other.
proof fn lemma_category_step(
    reasons: Seq<RejectionReason>,
    index: int,
    before: Seq<RenderCandidateRejection>,
    after: Seq<RenderCandidateRejection>,
)
    requires
        0 <= index < reasons.len(),
        same_categories(before, reasons.subrange(0, index)),
        forall|other: RenderCandidateRejection| #[trigger]
            after.contains(other) <==> (before.contains(other) || other
                == RenderCandidateRejection::of(reasons[index])),
    ensures
        same_categories(after, reasons.subrange(0, index + 1)),
{
    let old_part = reasons.subrange(0, index);
    let new_part = reasons.subrange(0, index + 1);
    assert forall|category: RenderCandidateRejection| #[trigger]
        after.contains(category) <==> has_category(new_part, category) by {
        if has_category(old_part, category) {
            let i = choose|i: int| 0 <= i < old_part.len() && RenderCandidateRejection::of(#[trigger] old_part[i]) == category;
            assert(new_part[i] == old_part[i]);
        }
        assert(new_part[index] == reasons[index]);
        if has_category(new_part, category) {
            let i = choose|i: int| 0 <= i < new_part.len() && RenderCandidateRejection::of(#[trigger] new_part[i]) == category;
            if i < index {
                assert(old_part[i] == new_part[i]);
            }
        }
        assert(before.contains(category) <==> has_category(old_part, category));
    }
}

/// Diagnostics of one failure, one override failure and the same set of
/// categories are the same diagnostic, whatever chains were rejected in what order.
pub proof fn law_equivalent_failures_compare_equal(
    left: RenderSelectionDeferred,
    right: RenderSelectionDeferred,
)
    requires
        left.wf(),
        right.wf(),
        left.cause() == right.cause(),
        left.failed_override() == right.failed_override(),
        forall|category: RenderCandidateRejection| #[trigger]
            left.categories().contains(category) <==> right.categories().contains(category),
    ensures
        left.categories() == right.categories(),
        left.text() == right.text(),
{
    lemma_sorted_unique_is_canonical(left.categories(), right.categories());
}

/// A strictly ascending sequence is determined by what it holds.
proof fn lemma_sorted_unique_is_canonical(
    left: Seq<RenderCandidateRejection>,
    right: Seq<RenderCandidateRejection>,
)
    requires
        sorted_unique(left),
        sorted_unique(right),
        forall|category: RenderCandidateRejection| #[trigger]
            left.contains(category) <==> right.contains(category),
    ensures
        left == right,
    decreases left.len(),
{
    if left.len() == 0 {
        if right.len() > 0 {
            assert(right.contains(right[0]));
            assert(left.contains(right[0]));
        }
        assert(left =~= right);
    } else {
        assert(left.contains(left.last()));
        assert(right.contains(left.last()));
        let i = choose|i: int| 0 <= i < right.len() && right[i] == left.last();
        assert(right.contains(right.last()));
        assert(left.contains(right.last()));
        let j = choose|j: int| 0 <= j < left.len() && left[j] == right.last();
        if i < right.len() - 1 {
            assert(right[i].rank() < right[right.len() - 1].rank());
            if j < left.len() - 1 {
                assert(left[j].rank() < left[left.len() - 1].rank());
            }
        }
        assert(left.last() == right.last());
        let left_rest = left.drop_last();
        let right_rest = right.drop_last();
        assert forall|category: RenderCandidateRejection| #[trigger]
            left_rest.contains(category) <==> right_rest.contains(category) by {
            if left_rest.contains(category) {
                let k = choose|k: int| 0 <= k < left_rest.len() && left_rest[k] == category;
                assert(left[k] == category);
                assert(left[k].rank() < left[left.len() - 1].rank());
                assert(left.contains(category));
                let m = choose|m: int| 0 <= m < right.len() && right[m] == category;
                assert(m < right.len() - 1);
                assert(right_rest[m] == category);
            }
            if right_rest.contains(category) {
                let k = choose|k: int| 0 <= k < right_rest.len() && right_rest[k] == category;
                assert(right[k] == category);
                assert(right[k].rank() < right[right.len() - 1].rank());
                assert(right.contains(category));
                assert(left.contains(category));
                let m = choose|m: int| 0 <= m < left.len() && left[m] == category;
                assert(m < left.len() - 1);
                assert(left_rest[m] == category);
            }
        }
        lemma_sorted_unique_is_canonical(left_rest, right_rest);
        assert(left =~= left_rest.push(left.last()));
        assert(right =~= right_rest.push(right.last()));
    }
}

/// Redaction-safe observation emitted by the interception manager.
///
/// No variant contains a pointer, window title, executable path, adapter name,
/// or free-form native error text.
#[derive(Clone, Debug, PartialEq, Eq)]
pub enum DxgiObservationEvent {
    /// A concrete factory interface was intercepted.
    FactoryAttached {
        /// Concrete layout attached for that interface pointer.
        interface: FactoryInterface,
    },
    /// A concrete swap-chain interface was intercepted and assigned a local ID.
    SwapChainAttached {
        /// Runtime-local monotonically assigned swap-chain identity.
        swap_chain: SwapChainId,
        /// Highest layout attached for that concrete pointer.
        interface: SwapChainInterface,
    },
    /// An authoritative metadata field was unavailable.
    MetadataIncomplete {
        /// Runtime-local swap-chain identity.
        swap_chain: SwapChainId,
        /// Field that remains explicitly unknown.
        field: ObservationField,
    },
    /// A presentation reached the native implementation and returned.
    PresentForwarded {
        /// Runtime-local swap-chain identity.
        swap_chain: SwapChainId,
        /// Presentation entry point used.
        method: PresentMethod,
        /// Global monotonic presentation sequence.
        sequence: u64,
        /// Closed interpretation of the native result.
        result: HResultDisposition,
    },
    /// A resize reached the native implementation and returned.
    ResizeForwarded {
        /// Runtime-local swap-chain identity.
        swap_chain: SwapChainId,
        /// Requested extent. Zero retains DXGI's native automatic sizing meaning.
        requested_size: Extent2D,
        /// Requested format translated without losing unknown native values.
        requested_format: SurfaceFormat,
        /// Closed interpretation of the native result.
        result: HResultDisposition,
    },
    /// A color-space mutation reached the native implementation and returned.
    ///
    /// On failure, `active` remains the last successfully applied value (or
    /// explicit unknown if no successful mutation has been observed).
    ColorSpaceForwarded {
        /// Runtime-local swap-chain identity.
        swap_chain: SwapChainId,
        /// Requested color space, retaining unknown native numeric values.
        requested: ColorSpace,
        /// Authoritative manager state after the native call.
        active: ColorSpace,
        /// Closed interpretation of the native result.
        result: HResultDisposition,
    },
    /// Classification resolved a primary chain for this presentation pass.
    ///
    /// This does not imply that an overlay frame was rendered.
    RenderSelectionResolved {
        /// Global monotonic sequence of applied classification transitions.
        sequence: u64,
        /// Closed classifier state with native identity removed.
        resolution: RenderSelectionResolved,
    },
    /// Policy selected a generation for synchronous overlay rendering.
    RenderSelected {
        /// Global monotonic sequence of applied classification transitions.
        sequence: u64,
        /// Runtime-local swap-chain identity.
        swap_chain: SwapChainId,
        /// Current resource generation.
        generation: SessionGeneration,
        /// Maximum stage permitted for this callback.
        stage: RenderStage,
        /// Closed classifier reason for selecting this chain.
        reason: SelectionReason,
    },
    /// No safe primary chain could be selected for this classification pass.
    RenderSelectionDeferred {
        /// Global monotonic sequence of applied classification transitions.
        sequence: u64,
        /// Closed diagnostic with raw native identities and values removed.
        diagnostic: RenderSelectionDeferred,
    },
    /// A panic was caught before it could cross the native ABI.
    PanicContained {
        /// Boundary that contained the panic.
        boundary: Boundary,
    },
    /// Hooks were restored and callback admission was closed.
    Shutdown {
        /// Whether every callback admitted before closure drained in time.
        drained: bool,
        /// Number of shadow vtables restored to their original pointer.
        restored: u32,
        /// Number already displaced by another component.
        displaced: u32,
    },
}

/// Result of closing callback admission and restoring every owned vtable.
#[derive(Clone, Copy, Debug, PartialEq, Eq, Structural)]
pub struct ShutdownReport {
    /// Whether all admitted callbacks drained before the timeout.
    pub drained: bool,
    /// Shadow vtables restored to their original pointer.
    pub restored: u32,
    /// Shadow vtables that another component had already displaced.
    pub displaced: u32,
    /// Callbacks still admitted when the timeout expired.
    pub in_flight: usize,
}

/// A rejection keeps its category and loses everything else of its reason.
pub proof fn law_a_rejection_keeps_its_category(reason: RejectionReason)
    ensures
        RenderCandidateRejection::of(reason) is ZeroSized <==> reason is ZeroSized,
        RenderCandidateRejection::of(reason) is MissingWindowHandle <==> reason is MissingWindowHandle,
        RenderCandidateRejection::of(reason) is ExpectedWindowNotDiscovered <==> reason is ExpectedWindowNotDiscovered,
        RenderCandidateRejection::of(reason) is UnexpectedWindow <==> reason is UnexpectedWindow,
        RenderCandidateRejection::of(reason) is BelowMinimumExtent <==> reason is BelowMinimumExtent,
        RenderCandidateRejection::of(reason) is NeverPresented <==> reason is NeverPresented,
        RenderCandidateRejection::of(reason) is InvisibleWindow <==> reason is InvisibleWindow,
        RenderCandidateRejection::of(reason) is Occluded <==> reason is Occluded,
        RenderCandidateRejection::of(reason) is Stale <==> reason is Stale,
{
}

/// Categories are listed in one order, from a surface without an extent to one
/// that fell behind.
pub proof fn law_each_category_has_its_rank(category: RenderCandidateRejection)
    ensures
        category.rank() == 0 <==> category is ZeroSized,
        category.rank() == 1 <==> category is MissingWindowHandle,
        category.rank() == 2 <==> category is ExpectedWindowNotDiscovered,
        category.rank() == 3 <==> category is UnexpectedWindow,
        category.rank() == 4 <==> category is BelowMinimumExtent,
        category.rank() == 5 <==> category is NeverPresented,
        category.rank() == 6 <==> category is InvisibleWindow,
        category.rank() == 7 <==> category is Occluded,
        category.rank() == 8 <==> category is Stale,
{
}

/// Failure policy is summarized by what it did: it let wait, it gave up, or
/// both; where it did neither, there is no summary.
pub proof fn law_a_summary_names_what_failure_policy_did(
    has_cooling_down: bool,
    has_disabled: bool,
)
    ensures
        suppression(has_cooling_down, has_disabled) is Some <==> has_cooling_down || has_disabled,
        suppression(has_cooling_down, has_disabled) matches Some(summary) ==> {
            &&& summary is CoolingDown <==> !has_disabled
            &&& summary is Disabled <==> !has_cooling_down
            &&& summary is CoolingDownAndDisabled <==> has_cooling_down && has_disabled
        },
{
}

/// An override fails as withheld where failure policy withheld it, and otherwise
/// as the classifier said: unavailable, or ineligible for the category of its
/// reason. One that was not requested or was applied does not fail.
pub proof fn law_an_override_fails_as_it_was_told(
    status: OverrideStatus,
    withheld: Option<RenderFailurePolicySuppression>,
)
    ensures
        withheld is Some ==> override_failure_of(status, withheld) == Some(
            RenderOverrideFailure::FailurePolicySuppressed(withheld->0),
        ),
        withheld is None ==> {
            let failure = override_failure_of(status, withheld);
            &&& failure is None <==> status is NotRequested || status is Applied
            &&& failure == Some(RenderOverrideFailure::Unavailable) <==> status is Unavailable
            &&& status matches OverrideStatus::Ineligible { reason, .. } ==> (failure matches Some(
                RenderOverrideFailure::Ineligible { reason: category },
            ) && category == RenderCandidateRejection::of(reason))
        },
{
}

/// A selection is reported with the reason and the override that the classifier
/// gave, exactly where it selected a chain for a reason.
pub proof fn law_a_resolved_selection_has_its_reason(
    resolved: Option<RenderSelectionResolved>,
    classification: Classification,
    withheld: Option<RenderFailurePolicySuppression>,
)
    requires
        RenderSelectionResolved::matches_classification(resolved, classification, withheld),
    ensures
        resolved is None <==> classification.selected is None || classification.selection_reason
            is None,
        resolved is Some ==> {
            &&& resolved->0.selection() == classification.selection_reason->0
            &&& withheld is Some ==> resolved->0.failed_override() == Some(
                RenderOverrideFailure::FailurePolicySuppressed(withheld->0),
            )
            &&& withheld is None && classification.override_status is NotRequested
                ==> resolved->0.failed_override() is None
        },
{
}

/// A deferred selection names what failure policy withheld, if it withheld
/// anything, and otherwise what the classifier found missing.
pub proof fn law_a_deferred_selection_has_its_cause(
    deferred: Option<RenderSelectionDeferred>,
    classification: Classification,
    withheld: Option<RenderFailurePolicySuppression>,
    override_suppression: Option<RenderFailurePolicySuppression>,
)
    requires
        RenderSelectionDeferred::describes(
            deferred,
            classification,
            withheld,
            override_suppression,
        ),
    ensures
        classification.selected is Some ==> deferred is None,
        classification.no_selection_reason is None ==> deferred is None,
        classification.override_status is Applied ==> deferred is None,
        classification.selected is None && classification.no_selection_reason is Some
            && !(classification.override_status is Applied) ==> deferred is Some,
        deferred is Some && withheld is Some ==> deferred->0.cause()
            == RenderSelectionFailure::FailurePolicySuppressed(withheld->0),
        deferred is Some && withheld is None ==> {
            &&& deferred->0.cause() is NoObservations <==> classification.no_selection_reason->0
                is NoObservations
            &&& deferred->0.cause() is NoEligibleCandidates
                <==> classification.no_selection_reason->0 is NoEligibleCandidates
        },
{
}

/// Each category is known by its own words, and no two share them.
pub proof fn law_each_category_has_its_label(category: RenderCandidateRejection)
    ensures
        category.label() == "zero-sized surface"@ <==> category is ZeroSized,
        category.label() == "missing window handle"@ <==> category is MissingWindowHandle,
        category.label() == "game window not discovered"@ <==> category is ExpectedWindowNotDiscovered,
        category.label() == "unexpected window"@ <==> category is UnexpectedWindow,
        category.label() == "surface below minimum extent"@ <==> category is BelowMinimumExtent,
        category.label() == "candidate never presented"@ <==> category is NeverPresented,
        category.label() == "window not visible"@ <==> category is InvisibleWindow,
        category.label() == "window occluded"@ <==> category is Occluded,
        category.label() == "stale presentation activity"@ <==> category is Stale,
{
    reveal_strlit("zero-sized surface");
    assert("zero-sized surface"@.len() == 18);
    reveal_strlit("missing window handle");
    assert("missing window handle"@.len() == 21);
    reveal_strlit("game window not discovered");
    assert("game window not discovered"@.len() == 26);
    reveal_strlit("unexpected window");
    assert("unexpected window"@.len() == 17);
    reveal_strlit("surface below minimum extent");
    assert("surface below minimum extent"@.len() == 28);
    reveal_strlit("candidate never presented");
    assert("candidate never presented"@.len() == 25);
    reveal_strlit("window not visible");
    assert("window not visible"@.len() == 18);
    reveal_strlit("window occluded");
    assert("window occluded"@.len() == 15);
    reveal_strlit("stale presentation activity");
    assert("stale presentation activity"@.len() == 27);
    assert("zero-sized surface"@[0] != "window not visible"@[0]);
}

} // verus!
