use nexus::dxgi::event::{
    RenderCandidateRejection, RenderFailurePolicySuppression, RenderOverrideFailure,
    RenderSelectionDeferred, RenderSelectionFailure, RenderSelectionResolved,
};
use nexus::render::{
    Classification, Extent2D, Hwnd, NoSelectionReason, OverrideStatus, RejectionReason,
    SelectionReason, SwapChainId,
};

fn nothing_observed() -> Classification {
    Classification {
        selected: None,
        selection_reason: None,
        no_selection_reason: Some(NoSelectionReason::NoObservations),
        override_status: OverrideStatus::Unavailable { id: SwapChainId::new(41) },
        rejected: Vec::new(),
    }
}

fn fallback(override_status: OverrideStatus, rejected: Vec<RejectionReason>) -> Classification {
    Classification {
        selected: Some(SwapChainId::new(7)),
        selection_reason: Some(SelectionReason::OnlyEligibleCandidate),
        no_selection_reason: None,
        override_status,
        rejected,
    }
}

#[test]
fn deferred_diagnostic_formats_without_native_identifiers() {
    let diagnostic = RenderSelectionDeferred::new(
        RenderSelectionFailure::NoEligibleCandidates,
        Some(RenderOverrideFailure::Ineligible {
            reason: RenderCandidateRejection::UnexpectedWindow,
        }),
        &vec![
            RejectionReason::MissingWindowHandle,
            RejectionReason::UnexpectedWindow {
                window: Hwnd { value: 12 },
                expected: Hwnd { value: 11 },
            },
        ],
    );

    assert_eq!(
        diagnostic.to_string(),
        "no eligible swap chains; requested override ineligible: unexpected window; rejected: missing window handle, unexpected window"
    );
}

#[test]
fn unavailable_override_is_preserved_when_no_observations_exist() {
    let classification = nothing_observed();
    let diagnostic = RenderSelectionDeferred::from_classification(&classification)
        .expect("an unsuccessful classification should produce a diagnostic");

    assert_eq!(diagnostic.failure(), RenderSelectionFailure::NoObservations);
    assert_eq!(diagnostic.override_failure(), Some(RenderOverrideFailure::Unavailable));
    assert!(diagnostic.rejections().is_empty());
    assert_eq!(
        diagnostic.to_string(),
        "no swap-chain observations; requested override unavailable"
    );
}

#[test]
fn resolved_state_preserves_failed_override_during_automatic_fallback() {
    let classification =
        fallback(OverrideStatus::Unavailable { id: SwapChainId::new(41) }, Vec::new());
    let resolution = RenderSelectionResolved::from_classification(&classification)
        .expect("an eligible observation should resolve selection");

    assert_eq!(resolution.reason(), SelectionReason::OnlyEligibleCandidate);
    assert_eq!(resolution.override_failure(), Some(RenderOverrideFailure::Unavailable));

    let classification = fallback(
        OverrideStatus::Ineligible {
            id: SwapChainId::new(41),
            reason: RejectionReason::ZeroSized,
        },
        vec![RejectionReason::ZeroSized],
    );
    let resolution = RenderSelectionResolved::from_classification(&classification)
        .expect("automatic fallback should recover from an ineligible override");
    assert_eq!(
        resolution.override_failure(),
        Some(RenderOverrideFailure::Ineligible { reason: RenderCandidateRejection::ZeroSized })
    );

    assert!(RenderSelectionResolved::from_classification(&nothing_observed()).is_none());
}

#[test]
fn failure_policy_suppression_distinguishes_an_observed_override() {
    let classification =
        fallback(OverrideStatus::Unavailable { id: SwapChainId::new(41) }, Vec::new());
    let resolution = RenderSelectionResolved::from_classification_with_override_suppression(
        &classification,
        Some(RenderFailurePolicySuppression::Disabled),
    )
    .expect("automatic fallback should resolve selection");
    assert_eq!(
        resolution.override_failure(),
        Some(RenderOverrideFailure::FailurePolicySuppressed(
            RenderFailurePolicySuppression::Disabled
        ))
    );

    let classification = nothing_observed();
    let diagnostic =
        RenderSelectionDeferred::from_classification_with_failure_policy_and_override_suppression(
            &classification,
            true,
            false,
            Some(RenderFailurePolicySuppression::CoolingDown),
        )
        .expect("the suppressed override should remain observable");
    assert_eq!(
        diagnostic.override_failure(),
        Some(RenderOverrideFailure::FailurePolicySuppressed(
            RenderFailurePolicySuppression::CoolingDown
        ))
    );
    assert_eq!(
        diagnostic.to_string(),
        "render candidates cooling down under failure policy; requested override cooling down under failure policy"
    );
}

#[test]
fn failure_policy_suppression_keeps_classifier_rejections() {
    let classification = Classification {
        selected: None,
        selection_reason: None,
        no_selection_reason: Some(NoSelectionReason::NoEligibleCandidates),
        override_status: OverrideStatus::NotRequested,
        rejected: vec![RejectionReason::ZeroSized],
    };

    let diagnostic =
        RenderSelectionDeferred::from_classification_with_failure_policy_and_override_suppression(
            &classification,
            true,
            true,
            None,
        )
        .expect("suppression and rejection should produce one diagnostic");

    assert_eq!(
        diagnostic.failure(),
        RenderSelectionFailure::FailurePolicySuppressed(
            RenderFailurePolicySuppression::CoolingDownAndDisabled
        )
    );
    assert_eq!(diagnostic.rejections(), &[RenderCandidateRejection::ZeroSized]);
}

#[test]
fn failure_policy_diagnostic_distinguishes_cooldown_and_disablement() {
    assert!(RenderSelectionDeferred::from_failure_policy(false, false).is_none());

    let cooling = RenderSelectionDeferred::from_failure_policy(true, false)
        .expect("cooling candidates should produce a diagnostic");
    assert_eq!(
        cooling.failure(),
        RenderSelectionFailure::FailurePolicySuppressed(
            RenderFailurePolicySuppression::CoolingDown
        )
    );
    assert_eq!(cooling.to_string(), "render candidates cooling down under failure policy");

    let disabled = RenderSelectionDeferred::from_failure_policy(false, true)
        .expect("disabled candidates should produce a diagnostic");
    assert_eq!(
        disabled.failure(),
        RenderSelectionFailure::FailurePolicySuppressed(RenderFailurePolicySuppression::Disabled)
    );

    let mixed = RenderSelectionDeferred::from_failure_policy(true, true)
        .expect("mixed suppression should produce a diagnostic");
    assert_eq!(
        mixed.failure(),
        RenderSelectionFailure::FailurePolicySuppressed(
            RenderFailurePolicySuppression::CoolingDownAndDisabled
        )
    );
    assert_eq!(
        mixed.to_string(),
        "render candidates cooling down or disabled by failure policy"
    );
}

#[test]
fn equal_rejections_are_reported_once() {
    let extent = Extent2D { width: 10, height: 10 };
    let diagnostic = RenderSelectionDeferred::new(
        RenderSelectionFailure::NoEligibleCandidates,
        None,
        &vec![
            RejectionReason::Stale { last: 1, latest: 9 },
            RejectionReason::BelowMinimumExtent { size: extent, minimum: extent },
            RejectionReason::Stale { last: 2, latest: 9 },
        ],
    );
    let same = RenderSelectionDeferred::new(
        RenderSelectionFailure::NoEligibleCandidates,
        None,
        &vec![
            RejectionReason::BelowMinimumExtent { size: extent, minimum: extent },
            RejectionReason::Stale { last: 3, latest: 9 },
        ],
    );
    assert_eq!(diagnostic.rejections().len(), 2);
    assert_eq!(diagnostic.rejections(), same.rejections());
    assert_eq!(
        RenderCandidateRejection::from(RejectionReason::Occluded),
        RenderCandidateRejection::Occluded
    );
}
