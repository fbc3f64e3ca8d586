use nexus::dxgi::callbacks::{
    DiagnosticEvent, FailureCode, InternalFailure, RenderCallbackError, RenderOperation,
    SwapChainOperation, SwapChainRetirement,
};
use nexus::dxgi::error::DxgiError;
use nexus::dxgi::event::{
    Boundary, DxgiObservationEvent, HResultDisposition, ObjectKind, ObservationField,
    RenderCandidateRejection, RenderFailurePolicySuppression, RenderOverrideFailure,
    RenderSelectionFailure, SwapChainInterface,
};
use nexus::dxgi::interception::{DxgiConfig, DxgiInterceptionManager};
use nexus::dxgi::manager::{
    before_resize, close_and_drain, invoke_renderer, primary_retirement, render_selected,
    rendered_event, report_attach_error, Action, HookRestoration, PendingRetirements, RenderLane,
    RendererReply,
};
use nexus::dxgi::passes::{
    after_inspection, before_present, color_space_returned, finish_color_space,
    finish_failed_inspection, finish_observed_present, finish_present, finish_resize,
    present_returned, resize_returned, InspectionPhase, PresentPhase, Reconsidered,
};
use nexus::dxgi::policy::{
    find_session, outcome_applies, renderable_observations, swap_chain_retirement, PolicyState,
    PresentStart, RegisteredSession, RenderSelectionTransition, RenderTicket,
    RenderableObservationSet, TrackedSwapChain,
};
use nexus::dxgi::sdk::{NativeMetadata, DXGI_ERROR_DEVICE_REMOVED, DXGI_STATUS_OCCLUDED, E_FAIL};
use nexus::render::{
    Activity, AdapterLuid, AttemptPermission, Classification, ClassifierConfig, ColorSpace,
    DeviceId, Extent2D, Hwnd, NoSelectionReason, OverrideStatus, PresentMethod, RejectionReason,
    RenderControls, RenderStage, SelectionReason, Session, SessionGeneration, SessionLifecycle,
    StageFailureState, SurfaceFormat, SwapChainId, SwapChainObservation,
};

const HDR10: i32 = 12;
const KEY: usize = 10;
const OTHER_KEY: usize = 20;

fn controls() -> RenderControls {
    RenderControls { effective_stage: RenderStage::RenderProbe, permits_render_probe: true }
}

fn extent(width: u32, height: u32) -> Extent2D {
    Extent2D { width, height }
}

fn observation(id: u64, size: Extent2D, sequence: u64) -> SwapChainObservation {
    SwapChainObservation {
        id: SwapChainId::new(id),
        hwnd: Some(Hwnd { value: 100 }),
        device: DeviceId { value: 1 },
        adapter_luid: AdapterLuid { low: 2, high: 0 },
        format: SurfaceFormat::Bgra8Unorm,
        color_space: ColorSpace::Srgb,
        size,
        present_method: PresentMethod::Present,
        activity: Activity {
            present_count: sequence,
            last_present_sequence: sequence,
            consecutive_present_cycles: 10,
            window_visible: true,
            foreground: true,
            occluded: false,
        },
    }
}

fn track_observation(policy: &mut PolicyState, key: usize, observation: SwapChainObservation) {
    policy.chains.insert(
        key,
        TrackedSwapChain {
            id: observation.id,
            interface: SwapChainInterface::Base,
            activity: observation.activity,
            observation: Some(observation),
            color_space: observation.color_space,
            color_space_reported: true,
        },
    );
}

/// A classifier and a session registry that follow simple rules: the largest
/// eligible surface is primary, one failure starts a cooldown of two sequences.
struct Selection {
    sessions: Vec<RegisteredSession>,
    primary: Option<SwapChainId>,
    user_override: Option<SwapChainId>,
    stale_after: u64,
}

impl Selection {
    fn new() -> Self {
        Self {
            sessions: Vec::new(),
            primary: None,
            user_override: None,
            stale_after: u64::MAX,
        }
    }

    fn session(&self, id: SwapChainId) -> Option<Session> {
        find_session(&self.sessions, id)
    }

    fn rejection(
        &self,
        observation: &SwapChainObservation,
        latest: u64,
    ) -> Option<RejectionReason> {
        let last = observation.activity.last_present_sequence;
        if observation.size.width == 0 || observation.size.height == 0 {
            Some(RejectionReason::ZeroSized)
        } else if observation.activity.occluded {
            Some(RejectionReason::Occluded)
        } else if latest - last > self.stale_after {
            Some(RejectionReason::Stale { last, latest })
        } else {
            None
        }
    }

    fn classify(&self, set: &RenderableObservationSet, latest: u64) -> Classification {
        let mut eligible = Vec::new();
        let mut rejected = Vec::new();
        for observation in &set.observations {
            match self.rejection(observation, latest) {
                Some(reason) => rejected.push(reason),
                None => eligible.push(*observation),
            }
        }
        let area = |observation: &SwapChainObservation| {
            u64::from(observation.size.width) * u64::from(observation.size.height)
        };
        let largest = eligible.iter().max_by_key(|candidate| area(candidate));
        let selected = match self.user_override {
            Some(id) if eligible.iter().any(|candidate| candidate.id == id) => Some(id),
            _ => largest.map(|candidate| candidate.id),
        };
        let override_status = match self.user_override {
            None => OverrideStatus::NotRequested,
            Some(id) if selected == Some(id) => OverrideStatus::Applied { id },
            Some(id) => OverrideStatus::Unavailable { id },
        };
        Classification {
            selected,
            selection_reason: selected.map(|_| {
                if eligible.len() == 1 {
                    SelectionReason::OnlyEligibleCandidate
                } else {
                    SelectionReason::Other(1)
                }
            }),
            no_selection_reason: match selected {
                Some(_) => None,
                None if set.observations.is_empty() => Some(NoSelectionReason::NoObservations),
                None => Some(NoSelectionReason::NoEligibleCandidates),
            },
            override_status,
            rejected,
        }
    }

    fn register(
        &mut self,
        observations: &[SwapChainObservation],
        primary: Option<SwapChainId>,
    ) {
        for registered in &mut self.sessions {
            if !observations.iter().any(|seen| seen.id == registered.id) {
                registered.session.lifecycle = SessionLifecycle::Retired;
            }
        }
        for seen in observations {
            let lifecycle = if primary == Some(seen.id) {
                SessionLifecycle::Primary
            } else {
                SessionLifecycle::Candidate
            };
            let healthy =
                StageFailureState::Healthy { consecutive_failures: 0, cooldowns: 0 };
            match self.sessions.iter_mut().find(|registered| registered.id == seen.id) {
                None => self.sessions.push(RegisteredSession {
                    id: seen.id,
                    session: Session {
                        generation: SessionGeneration { value: 1 },
                        lifecycle,
                        observation: *seen,
                        failure: healthy,
                    },
                }),
                Some(registered) => {
                    let session = &mut registered.session;
                    if session.lifecycle == SessionLifecycle::Retired
                        || session.observation.size != seen.size
                        || session.observation.color_space != seen.color_space
                    {
                        session.generation.value += 1;
                        session.failure = healthy;
                    }
                    session.lifecycle = lifecycle;
                    session.observation = *seen;
                }
            }
        }
        self.primary = primary;
    }

    fn permission(&self, id: SwapChainId, sequence: u64) -> Option<(SessionGeneration, AttemptPermission)> {
        let session = self.session(id)?;
        let answer = match session.failure {
            StageFailureState::Healthy { .. } => AttemptPermission::Attempt,
            StageFailureState::CoolingDown { retry_at_sequence, .. } => {
                if sequence >= retry_at_sequence {
                    AttemptPermission::Retry
                } else {
                    AttemptPermission::CoolingDown { retry_at_sequence }
                }
            }
            StageFailureState::Disabled { .. } => AttemptPermission::Disabled,
        };
        Some((session.generation, answer))
    }

    fn fail(&mut self, id: SwapChainId, generation: SessionGeneration, sequence: u64) -> bool {
        if !outcome_applies(self.session(id), generation) {
            return false;
        }
        for registered in &mut self.sessions {
            if registered.id == id {
                registered.session.failure = StageFailureState::CoolingDown {
                    retry_at_sequence: sequence + 2,
                    cooldowns: 1,
                };
            }
        }
        true
    }

    fn reconcile(
        &mut self,
        policy: &PolicyState,
        presenting: Option<SwapChainId>,
        sequence: u64,
    ) -> RenderSelectionTransition {
        let observations = policy.observations();
        let latest = policy.latest_present_sequence(sequence);
        let renderable = renderable_observations(
            &self.sessions,
            &observations,
            sequence,
            self.user_override,
        );
        let classification = self.classify(&renderable, latest);
        self.register(&observations, classification.selected);
        let permission = policy
            .candidate_for_render(presenting, &classification)
            .and_then(|id| self.permission(id, sequence));
        policy.reconcile_render_selection(presenting, &renderable, &classification, permission)
    }

    fn ticket(
        &mut self,
        policy: &mut PolicyState,
        key: usize,
        id: SwapChainId,
        sequence: u64,
    ) -> RenderTicket {
        let transition = self.reconcile(policy, Some(id), policy.sequence);
        let permit = transition
            .render
            .expect("the presenting primary should receive a render ticket");
        RenderTicket {
            key,
            id,
            method: PresentMethod::Present,
            sequence,
            generation: permit.generation,
            stage: permit.stage,
            reason: permit.reason,
            transition_sequence: policy.next_selection_sequence(),
        }
    }

    fn reconsidered(
        &mut self,
        policy: &PolicyState,
        id: SwapChainId,
        horizon: u64,
    ) -> Reconsidered {
        let transition = self.reconcile(policy, None, horizon);
        Reconsidered { transition, current_primary: self.primary, session: self.session(id) }
    }
}

/// The presenting pass of a failed inspection.
fn inspection_failed(
    policy: &mut PolicyState,
    selection: &mut Selection,
    key: usize,
    id: SwapChainId,
    sequence: u64,
) -> Vec<Action> {
    let start = PresentStart {
        id,
        interface: SwapChainInterface::Base,
        sequence,
        report_unknown_color: false,
    };
    let transition =
        match after_inspection(policy, key, start, PresentMethod::Present, Err(E_FAIL)) {
            InspectionPhase::Overtaken => None,
            InspectionPhase::Reconcile { presenting, horizon } => {
                Some(selection.reconcile(policy, presenting, horizon))
            }
        };
    finish_failed_inspection(policy, start, E_FAIL, transition, selection.session(id))
}

/// The pass of a presentation that returned.
fn presented(
    policy: &mut PolicyState,
    selection: &mut Selection,
    key: usize,
    id: SwapChainId,
    sequence: u64,
    result: i32,
    owns_render_lane: bool,
) -> Vec<Action> {
    let reconsidered = present_returned(policy, key, id, sequence, result)
        .map(|horizon| selection.reconsidered(policy, id, horizon));
    finish_present(
        policy,
        id,
        PresentMethod::Present,
        sequence,
        result,
        reconsidered,
        owns_render_lane,
    )
}

fn retirements(actions: &[Action]) -> Vec<SwapChainRetirement> {
    actions
        .iter()
        .filter_map(|action| match action {
            Action::Retire(retirement) => Some(*retirement),
            _ => None,
        })
        .collect()
}

fn observed(policy: &PolicyState, key: usize) -> Option<SwapChainObservation> {
    policy.chains.get(&key).and_then(|state| state.observation)
}

#[test]
fn render_lane_is_exclusive_nonblocking_and_releases_exactly_once() {
    let mut lane = RenderLane::new();
    let lease = lane.try_enter().expect("the first transaction should own the lane");
    assert!(lane.try_enter().is_none());
    lane.leave(lease);
    assert!(lane.try_enter().is_some());
}

#[test]
fn invalidated_inspection_reclassifies_and_retires_the_exact_observation() {
    let mut policy = PolicyState::new(controls());
    let mut selection = Selection::new();
    let failed = observation(1, extent(2_560, 1_440), 1);
    let remaining = observation(2, extent(1_920, 1_080), 1);
    track_observation(&mut policy, 10, failed);
    track_observation(&mut policy, 20, remaining);

    let initial = selection.reconcile(&policy, Some(failed.id), 1);
    assert!(initial.render.is_some());
    assert_eq!(selection.primary, Some(failed.id));

    assert!(policy.invalidate_observation(10, failed.id, 1));
    let transition = selection.reconcile(&policy, None, 2);

    assert!(transition.render.is_none());
    assert_eq!(
        transition.resolved.expect("the remaining chain should resolve selection").reason(),
        SelectionReason::OnlyEligibleCandidate
    );
    assert!(transition.deferred.is_none());
    assert_eq!(selection.primary, Some(remaining.id));
    assert_eq!(
        selection
            .session(failed.id)
            .expect("the failed chain remains as retired history")
            .lifecycle,
        SessionLifecycle::Retired
    );
    assert_eq!(
        selection
            .session(remaining.id)
            .expect("the remaining chain stays registered")
            .lifecycle,
        SessionLifecycle::Primary
    );

    assert!(policy.invalidate_observation(20, remaining.id, 1));
    let transition = selection.reconcile(&policy, None, 3);
    assert!(transition.render.is_none());
    assert!(transition.resolved.is_none());
    assert_eq!(
        transition
            .deferred
            .expect("no remaining observations should defer selection")
            .failure(),
        RenderSelectionFailure::NoObservations
    );
    assert_eq!(selection.primary, None);
    assert_eq!(
        selection
            .session(remaining.id)
            .expect("the last chain remains as retired history")
            .lifecycle,
        SessionLifecycle::Retired
    );
}

#[test]
fn stale_inspection_failure_cannot_clear_or_retire_newer_present_state() {
    let mut policy = PolicyState::new(controls());
    let mut selection = Selection::new();
    let chain = observation(1, extent(2_560, 1_440), 2);
    track_observation(&mut policy, 10, chain);
    let _ = selection.reconcile(&policy, Some(chain.id), 2);

    let stale = inspection_failed(&mut policy, &mut selection, 10, chain.id, 1);
    assert!(observed(&policy, 10).is_some());
    assert!(retirements(&stale).is_empty());
    assert_eq!(
        stale,
        [Action::Diagnose(DiagnosticEvent::SwapChainFailure {
            swap_chain: Some(chain.id),
            operation: SwapChainOperation::Inspect,
            code: FailureCode::HResult(E_FAIL),
        })]
    );

    let current = inspection_failed(&mut policy, &mut selection, 10, chain.id, 2);
    assert!(observed(&policy, 10).is_none());
    let retired = retirements(&current);
    assert_eq!(retired.len(), 1);
    assert_eq!(retired[0].id(), chain.id);
    assert_eq!(retired[0].sequence(), 2);
}

#[test]
fn invalidated_recent_observation_keeps_ancient_auxiliary_stale() {
    let mut policy = PolicyState::new(controls());
    let mut selection = Selection { stale_after: 2, ..Selection::new() };
    let recent = observation(1, extent(2_560, 1_440), 100);
    let auxiliary = observation(2, extent(1_920, 1_080), 10);
    policy.sequence = 100;
    track_observation(&mut policy, 10, recent);
    track_observation(&mut policy, 20, auxiliary);
    assert!(selection.reconcile(&policy, Some(recent.id), 100).render.is_some());
    assert!(policy.invalidate_observation(10, recent.id, 100));

    let transition = selection.reconcile(&policy, None, 100);
    let deferred = transition
        .deferred
        .expect("the remaining ancient auxiliary must stay stale");
    assert_eq!(selection.primary, None);
    assert!(deferred.rejections().contains(&RenderCandidateRejection::Stale));
}

#[test]
fn stale_retirement_cannot_remove_a_newer_render_generation() {
    let mut policy = PolicyState::new(controls());
    let mut selection = Selection::new();
    let chain = observation(1, extent(2_560, 1_440), 1);
    policy.sequence = 1;
    track_observation(&mut policy, 10, chain);
    let first = selection
        .reconcile(&policy, Some(chain.id), 1)
        .render
        .expect("the initial observation should receive a render ticket");

    let actions = inspection_failed(&mut policy, &mut selection, 10, chain.id, 1);
    let retired = retirements(&actions);
    assert_eq!(retired, [SwapChainRetirement::new(chain.id, first.generation, 1)]);
    assert!(retired[0].covers(chain.id, first.generation, 1));

    let newer = observation(1, extent(2_560, 1_440), 2);
    policy.sequence = 2;
    track_observation(&mut policy, 10, newer);
    let second = selection
        .reconcile(&policy, Some(chain.id), 2)
        .render
        .expect("the recreated observation should receive a render ticket");
    assert!(!retired[0].covers(chain.id, second.generation, 2));
    assert_eq!(
        policy
            .chains
            .get(&10)
            .expect("the newer same-chain observation should remain active")
            .activity
            .last_present_sequence,
        2
    );
}

#[test]
fn stale_render_ticket_cannot_run_after_a_newer_primary_render() {
    let mut policy = PolicyState::new(controls());
    let mut selection = Selection::new();
    let older = observation(1, extent(1_280, 720), 1);
    policy.sequence = 1;
    track_observation(&mut policy, 10, older);
    let older_ticket = selection.ticket(&mut policy, 10, older.id, 1);

    let newer = observation(2, extent(2_560, 1_440), 2);
    policy.sequence = 2;
    track_observation(&mut policy, 20, newer);
    let newer_ticket = selection.ticket(&mut policy, 20, newer.id, 2);

    let session = selection.session(newer.id);
    let frame = render_selected(&policy, newer_ticket, selection.primary, session)
        .expect("the newer ticket is current");
    assert_eq!(frame.id, newer.id);
    assert_eq!(frame.generation, newer_ticket.generation);
    assert_eq!(frame.sequence, 2);
    assert_eq!(
        rendered_event(&policy, newer_ticket, selection.primary, session),
        Some(DxgiObservationEvent::RenderSelected {
            sequence: newer_ticket.transition_sequence,
            swap_chain: newer.id,
            generation: newer_ticket.generation,
            stage: newer_ticket.stage,
            reason: newer_ticket.reason,
        })
    );
    let older_session = selection.session(older.id);
    assert_eq!(render_selected(&policy, older_ticket, selection.primary, older_session), None);
    assert_eq!(rendered_event(&policy, older_ticket, selection.primary, older_session), None);
}

#[test]
fn unrelated_policy_horizon_does_not_change_render_retirement_identity() {
    let mut policy = PolicyState::new(controls());
    let mut selection = Selection::new();
    let chain = observation(1, extent(2_560, 1_440), 1);
    policy.sequence = 1;
    track_observation(&mut policy, 10, chain);
    let ticket = selection.ticket(&mut policy, 10, chain.id, 1);
    policy.sequence = 2;

    let frame =
        render_selected(&policy, ticket, selection.primary, selection.session(chain.id))
            .expect("the ticket is current");
    assert_eq!(frame.sequence, 1);
    let actions = inspection_failed(&mut policy, &mut selection, 10, chain.id, 1);
    let retired = retirements(&actions);
    assert_eq!(retired.len(), 1);
    assert!(retired[0].covers(frame.id, frame.generation, frame.sequence));
}

#[test]
fn resize_completion_mutates_only_the_captured_present_revision() {
    let mut policy = PolicyState::new(controls());
    let mut selection = Selection::new();
    let initial = observation(1, extent(1_920, 1_080), 1);
    track_observation(&mut policy, KEY, initial);
    let (mut stale, frame) = before_resize(&policy, KEY, 2_560, 1_440, 0, true, true)
        .expect("the tracked chain should capture a resize revision");
    assert_eq!(frame.expect("the renderer is prepared").id, initial.id);
    stale.renderer_prepared = true;

    let newer = observation(1, extent(2_560, 1_440), 2);
    track_observation(&mut policy, KEY, newer);
    assert_eq!(resize_returned(&mut policy, KEY, stale, 0), None);
    let ignored = finish_resize(&mut policy, KEY, stale, 0, None, true, true);
    assert_eq!(observed(&policy, KEY), Some(newer));
    let state = policy
        .chains
        .get(&KEY)
        .expect("the newer same-chain revision should remain tracked");
    assert_eq!(state.activity, newer.activity);
    assert!(!ignored.iter().any(|action| matches!(action, Action::CompleteResize(_))));

    let (mut current, frame) = before_resize(&policy, KEY, 2_560, 1_440, 0, true, true)
        .expect("the current revision should capture a resize token");
    assert_eq!(frame.expect("the renderer is prepared").id, newer.id);
    current.renderer_prepared = true;
    let applied = resize_returned(&mut policy, KEY, current, 0).expect("the resize applies");
    let before = selection.session(newer.id);
    let transition = selection.reconcile(&policy, None, applied.horizon);
    let completed = finish_resize(
        &mut policy,
        KEY,
        current,
        0,
        Some((applied, transition, before)),
        true,
        true,
    );

    let state = policy
        .chains
        .get(&KEY)
        .expect("the exact revision should remain tracked without an observation");
    assert!(state.observation.is_none());
    assert_eq!(state.activity.consecutive_present_cycles, 0);
    assert!(matches!(
        completed[0],
        Action::CompleteResize(frame) if frame.id == newer.id
    ));
    for actions in [&ignored, &completed] {
        let forwarded = actions.iter().filter(|action| {
            matches!(action, Action::Observe(DxgiObservationEvent::ResizeForwarded { .. }))
        });
        assert_eq!(forwarded.count(), 1);
    }
}

#[test]
fn contended_resize_invalidates_policy_without_a_partial_renderer_handshake() {
    let config = DxgiConfig::new(controls(), ClassifierConfig::default(), ());
    let mut manager = DxgiInterceptionManager::new(&config);
    let mut selection = Selection::new();
    let chain = observation(1, extent(1_920, 1_080), 1);
    manager.policy_mut().sequence = 1;
    track_observation(manager.policy_mut(), KEY, chain);
    let first = selection.reconcile(manager.policy(), Some(chain.id), 1);
    assert!(first.render.is_some());
    let initial_generation = selection
        .session(chain.id)
        .expect("the initial session should be registered")
        .generation;

    let occupied = manager.try_render_lane().expect("the test should own the render lane");
    assert!(manager.try_render_lane().is_none());
    let (invocation, frame) =
        before_resize(manager.policy(), KEY, 1_920, 1_080, 0, false, true)
            .expect("contended resize still needs a forwarding observation");
    assert!(frame.is_none());
    let (phase, _) = before_present(manager.policy_mut(), KEY, false);
    let present = match phase {
        PresentPhase::Contended(start) => start,
        other => panic!("a concurrent Present still needs a forwarding token: {other:?}"),
    };
    assert_eq!(present.sequence, 2);
    let forwarded =
        presented(manager.policy_mut(), &mut selection, KEY, chain.id, 2, 0, false);
    assert_eq!(forwarded.len(), 1);

    let applied = resize_returned(manager.policy_mut(), KEY, invocation, 0)
        .expect("the resize applies to the observation it captured");
    let before = selection.session(chain.id);
    let transition = selection.reconcile(manager.policy(), None, applied.horizon);
    let actions = finish_resize(
        manager.policy_mut(),
        KEY,
        invocation,
        0,
        Some((applied, transition, before)),
        false,
        true,
    );
    assert!(!actions
        .iter()
        .any(|action| matches!(action, Action::CompleteResize(_) | Action::Retire(_))));
    let resizes = actions.iter().filter(|action| {
        matches!(action, Action::Observe(DxgiObservationEvent::ResizeForwarded { .. }))
    });
    assert_eq!(resizes.count(), 1);
    for action in &actions {
        if let Action::Defer(retirement) = action {
            assert_eq!(manager.retire_or_defer(*retirement, false), None);
        }
    }

    let kept = manager
        .finish_render_lane(occupied)
        .expect("the owner of the lane drains what waits before it leaves");
    assert_eq!(
        manager.drain_deferred_retirements(),
        [SwapChainRetirement::new(chain.id, initial_generation, 2)]
    );
    assert!(manager.finish_render_lane(kept).is_none());

    assert!(observed(manager.policy(), KEY).is_none());
    assert_eq!(
        selection
            .session(chain.id)
            .expect("the invalidated session should remain as history")
            .lifecycle,
        SessionLifecycle::Retired
    );

    let reappeared = observation(1, extent(1_920, 1_080), 3);
    manager.policy_mut().sequence = 3;
    track_observation(manager.policy_mut(), KEY, reappeared);
    assert!(selection
        .reconcile(manager.policy(), Some(reappeared.id), 3)
        .render
        .is_some());
    assert_ne!(
        selection
            .session(reappeared.id)
            .expect("the reactivated session should be registered")
            .generation,
        initial_generation
    );
}

#[test]
fn independent_current_chains_accept_out_of_order_inspection_results() {
    let mut policy = PolicyState::new(controls());
    let older = observation(1, extent(1_920, 1_080), 1);
    let newer = observation(2, extent(2_560, 1_440), 2);
    track_observation(&mut policy, 10, older);
    track_observation(&mut policy, 20, newer);

    assert!(policy.invalidate_observation(20, newer.id, 2));
    assert!(policy.invalidate_observation(10, older.id, 1));
    assert!(policy.observations().is_empty());
}

#[test]
fn late_independent_completion_gets_a_newer_selection_transition_sequence() {
    let mut policy = PolicyState::new(controls());
    let mut selection = Selection::new();
    let fast_auxiliary = observation(2, extent(1_920, 1_080), 2);
    track_observation(&mut policy, 20, fast_auxiliary);
    let first = selection.reconcile(&policy, Some(fast_auxiliary.id), 2);
    assert!(first.render.is_some());
    let first_sequence = policy.next_selection_sequence();

    let late_game = observation(1, extent(2_560, 1_440), 1);
    track_observation(&mut policy, 10, late_game);
    let second = selection.reconcile(&policy, Some(late_game.id), 2);
    assert!(second.render.is_some());
    let second_sequence = policy.next_selection_sequence();

    assert!(second_sequence > first_sequence);
    assert_eq!(selection.primary, Some(late_game.id));
}

#[test]
fn occluded_present_reconciles_selection_and_retires_renderer_state() {
    let mut policy = PolicyState::new(controls());
    let mut selection = Selection::new();
    let primary = observation(1, extent(2_560, 1_440), 1);
    policy.sequence = 1;
    track_observation(&mut policy, 10, primary);
    assert!(selection.reconcile(&policy, Some(primary.id), 1).render.is_some());

    let actions = presented(
        &mut policy,
        &mut selection,
        10,
        primary.id,
        1,
        DXGI_STATUS_OCCLUDED,
        true,
    );

    assert_eq!(selection.primary, None);
    assert!(observed(&policy, 10).is_some_and(|observation| observation.activity.occluded));
    assert_eq!(
        selection
            .session(primary.id)
            .expect("the occluded session remains tracked as a candidate")
            .lifecycle,
        SessionLifecycle::Candidate
    );
    let retired = retirements(&actions);
    assert_eq!(retired.len(), 1);
    assert_eq!(retired[0].id(), primary.id);
    assert_eq!(retired[0].sequence(), 1);
    assert!(actions.iter().any(|action| matches!(
        action,
        Action::Observe(DxgiObservationEvent::RenderSelectionDeferred { .. })
    )));
}

#[test]
fn device_lost_present_invalidates_observation_and_retires_renderer_state() {
    let mut policy = PolicyState::new(controls());
    let mut selection = Selection::new();
    let primary = observation(1, extent(2_560, 1_440), 1);
    policy.sequence = 1;
    track_observation(&mut policy, 10, primary);
    assert!(selection.reconcile(&policy, Some(primary.id), 1).render.is_some());

    let actions = presented(
        &mut policy,
        &mut selection,
        10,
        primary.id,
        1,
        DXGI_ERROR_DEVICE_REMOVED,
        true,
    );

    assert_eq!(selection.primary, None);
    assert!(observed(&policy, 10).is_none());
    assert_eq!(
        selection
            .session(primary.id)
            .expect("the device-lost session remains as retired history")
            .lifecycle,
        SessionLifecycle::Retired
    );
    let retired = retirements(&actions);
    assert_eq!(retired.len(), 1);
    assert_eq!(retired[0].id(), primary.id);
    assert_eq!(retired[0].sequence(), 1);
}

#[test]
fn contended_present_still_records_forwarding_and_device_loss() {
    let config = DxgiConfig::new(controls(), ClassifierConfig::default(), ());
    let mut manager = DxgiInterceptionManager::new(&config);
    let mut selection = Selection::new();
    let primary = observation(1, extent(2_560, 1_440), 1);
    manager.policy_mut().sequence = 1;
    track_observation(manager.policy_mut(), KEY, primary);
    assert!(selection.reconcile(manager.policy(), Some(primary.id), 1).render.is_some());

    let occupied = manager.try_render_lane().expect("the test should own the render lane");
    let (phase, _) = before_present(manager.policy_mut(), KEY, false);
    let start = match phase {
        PresentPhase::Contended(start) => start,
        other => panic!("a tracked contended Present still needs an exact result token: {other:?}"),
    };
    assert_eq!(start.sequence, 2);
    let actions = presented(
        manager.policy_mut(),
        &mut selection,
        KEY,
        start.id,
        start.sequence,
        DXGI_ERROR_DEVICE_REMOVED,
        false,
    );
    for action in &actions {
        if let Action::Defer(retirement) = action {
            assert_eq!(manager.retire_or_defer(*retirement, false), None);
        }
    }
    let kept = manager.finish_render_lane(occupied).expect("a retirement waits");
    let retired = manager.drain_deferred_retirements();
    assert!(manager.finish_render_lane(kept).is_none());

    assert_eq!(selection.primary, None);
    assert!(observed(manager.policy(), KEY).is_none());
    assert_eq!(
        selection
            .session(primary.id)
            .expect("the device-lost session remains as retired history")
            .lifecycle,
        SessionLifecycle::Retired
    );
    assert_eq!(retired.len(), 1);
    assert_eq!(retired[0].id(), primary.id);
    assert_eq!(retired[0].sequence(), 2);
    assert_eq!(
        actions[0],
        Action::Observe(DxgiObservationEvent::PresentForwarded {
            swap_chain: primary.id,
            method: PresentMethod::Present,
            sequence: 2,
            result: HResultDisposition::DeviceRemoved,
        })
    );
    assert_eq!(
        actions[1],
        Action::Diagnose(DiagnosticEvent::SwapChainFailure {
            swap_chain: Some(primary.id),
            operation: SwapChainOperation::Present,
            code: FailureCode::Internal(InternalFailure::DeviceLost),
        })
    );
}

#[test]
fn filtered_recent_primary_cannot_freshen_an_ancient_auxiliary_chain() {
    let mut policy = PolicyState::new(controls());
    let mut selection = Selection { stale_after: 2, ..Selection::new() };
    let auxiliary = observation(2, extent(1_920, 1_080), 10);
    let primary = observation(1, extent(2_560, 1_440), 100);
    policy.sequence = 100;
    track_observation(&mut policy, 20, auxiliary);
    track_observation(&mut policy, 10, primary);
    let ticket = selection.ticket(&mut policy, 10, primary.id, 100);
    assert!(selection.fail(primary.id, ticket.generation, ticket.sequence));

    policy.sequence = 101;
    let transition = selection.reconcile(&policy, None, 101);
    let deferred = transition
        .deferred
        .expect("cooldown plus a stale auxiliary should defer selection");
    assert_eq!(selection.primary, None);
    assert_eq!(
        deferred.failure(),
        RenderSelectionFailure::FailurePolicySuppressed(
            RenderFailurePolicySuppression::CoolingDown
        )
    );
    assert!(deferred.rejections().contains(&RenderCandidateRejection::Stale));
}

#[test]
fn color_space_change_reconciles_through_failure_policy_and_emits_causally() {
    let mut policy = PolicyState::new(controls());
    let mut selection = Selection::new();
    let primary = observation(1, extent(2_560, 1_440), 100);
    let fallback = observation(2, extent(1_920, 1_080), 101);
    policy.sequence = 101;
    track_observation(&mut policy, 10, primary);
    track_observation(&mut policy, 20, fallback);
    let ticket = selection.ticket(&mut policy, 10, primary.id, 100);
    assert!(selection.fail(primary.id, ticket.generation, ticket.sequence));
    let transition = selection.reconcile(&policy, None, 101);
    assert_eq!(selection.primary, Some(fallback.id));
    assert!(transition.resolved.is_some());
    let fallback_generation =
        selection.session(fallback.id).expect("the fallback session should exist").generation;

    let previous =
        primary_retirement(&policy, selection.primary, selection.session(fallback.id));
    let change = color_space_returned(&mut policy, OTHER_KEY, HDR10, 0)
        .expect("the fallback chain is tracked");
    let horizon = change.horizon.expect("an observed chain is reconsidered");
    let reconsidered = selection.reconsidered(&policy, fallback.id, horizon);
    let actions =
        finish_color_space(&mut policy, change, 0, previous, Some(reconsidered), true);

    assert_eq!(selection.primary, Some(fallback.id));
    assert_ne!(
        selection
            .session(fallback.id)
            .expect("the updated fallback session should exist")
            .generation,
        fallback_generation
    );
    assert!(matches!(
        actions.as_slice(),
        [
            Action::Observe(DxgiObservationEvent::ColorSpaceForwarded { .. }),
            Action::Observe(DxgiObservationEvent::RenderSelectionResolved { .. }),
            Action::Retire(_),
        ]
    ));
    assert_eq!(
        retirements(&actions),
        [SwapChainRetirement::new(fallback.id, fallback_generation, 101)]
    );
}

#[test]
fn contended_color_space_change_advances_generation_and_rejects_stale_render() {
    let config = DxgiConfig::new(controls(), ClassifierConfig::default(), ());
    let mut manager = DxgiInterceptionManager::new(&config);
    let mut selection = Selection::new();
    let primary = observation(1, extent(2_560, 1_440), 1);
    manager.policy_mut().sequence = 1;
    track_observation(manager.policy_mut(), KEY, primary);
    let stale_ticket = selection.ticket(manager.policy_mut(), KEY, primary.id, 1);

    let occupied = manager.try_render_lane().expect("the test should own the render lane");
    assert!(manager.try_render_lane().is_none());
    let previous = primary_retirement(
        manager.policy(),
        selection.primary,
        selection.session(primary.id),
    );
    let change = color_space_returned(manager.policy_mut(), KEY, HDR10, 0)
        .expect("the chain is tracked");
    let horizon = change.horizon.expect("an observed chain is reconsidered");
    let reconsidered = selection.reconsidered(manager.policy(), primary.id, horizon);
    let actions = finish_color_space(
        manager.policy_mut(),
        change,
        0,
        previous,
        Some(reconsidered),
        false,
    );
    for action in &actions {
        if let Action::Defer(retirement) = action {
            assert_eq!(manager.retire_or_defer(*retirement, false), None);
        }
    }

    assert_eq!(selection.primary, Some(primary.id));
    let session = selection.session(primary.id);
    assert_ne!(
        session.expect("the updated session should remain registered").generation,
        stale_ticket.generation
    );
    assert!(!manager.policy().permits_render_ticket(stale_ticket, selection.primary, session));
    let kept = manager
        .finish_render_lane(occupied)
        .expect("the owner of the lane drains what waits before it leaves");
    assert_eq!(
        manager.drain_deferred_retirements(),
        [SwapChainRetirement::new(primary.id, stale_ticket.generation, 1)]
    );
    assert!(manager.finish_render_lane(kept).is_none());
    assert!(manager.drain_deferred_retirements().is_empty());

    assert_eq!(
        render_selected(manager.policy(), stale_ticket, selection.primary, session),
        None
    );
    assert!(matches!(
        actions.as_slice(),
        [
            Action::Observe(DxgiObservationEvent::ColorSpaceForwarded { .. }),
            Action::Observe(DxgiObservationEvent::RenderSelectionResolved { .. }),
            Action::Defer(_),
        ]
    ));
}

#[test]
fn mixed_failure_policy_and_classifier_rejection_remain_observable() {
    let mut policy = PolicyState::new(controls());
    let mut selection = Selection::new();
    let cooling = observation(1, extent(1_920, 1_080), 1);
    let rejected = observation(2, extent(0, 1_080), 1);
    selection.register(&[cooling, rejected], Some(cooling.id));
    let (generation, answer) =
        selection.permission(cooling.id, 1).expect("the initial primary is renderable");
    assert_eq!(answer, AttemptPermission::Attempt);
    assert!(selection.fail(cooling.id, generation, 1));
    track_observation(&mut policy, 10, cooling);
    track_observation(&mut policy, 20, rejected);

    let transition = selection.reconcile(&policy, None, 2);
    let diagnostic = transition
        .deferred
        .expect("suppression and classifier rejection should defer selection");

    assert_eq!(
        diagnostic.failure(),
        RenderSelectionFailure::FailurePolicySuppressed(
            RenderFailurePolicySuppression::CoolingDown
        )
    );
    assert_eq!(diagnostic.rejections(), &[RenderCandidateRejection::ZeroSized]);
}

#[test]
fn observed_override_suppression_is_not_reported_as_unavailable() {
    let mut policy = PolicyState::new(controls());
    let requested = observation(1, extent(2_560, 1_440), 1);
    let fallback = observation(2, extent(1_920, 1_080), 1);
    let mut selection =
        Selection { user_override: Some(requested.id), ..Selection::new() };
    selection.register(&[requested, fallback], Some(requested.id));
    let (generation, _) = selection
        .permission(requested.id, 1)
        .expect("the requested chain should receive its initial attempt");
    assert!(selection.fail(requested.id, generation, 1));
    track_observation(&mut policy, 10, requested);
    track_observation(&mut policy, 20, fallback);

    let transition = selection.reconcile(&policy, None, 2);
    assert_eq!(
        transition
            .resolved
            .expect("the healthy automatic fallback should be selected")
            .override_failure(),
        Some(RenderOverrideFailure::FailurePolicySuppressed(
            RenderFailurePolicySuppression::CoolingDown
        ))
    );
}

#[test]
fn failed_primary_yields_and_recreated_generation_discards_old_failure() {
    let mut selection = Selection::new();
    let primary = observation(1, extent(1920, 1080), 1);
    let alternate = observation(2, extent(1920, 1080), 1);
    let observations = vec![primary, alternate];
    selection.register(&observations, Some(primary.id));
    let (generation, _) =
        selection.permission(primary.id, 1).expect("the initial primary is renderable");
    assert!(selection.fail(primary.id, generation, 1));

    let renderable = renderable_observations(&selection.sessions, &observations, 2, None);
    assert_eq!(renderable.observations, vec![alternate]);
    assert!(renderable.has_cooling_down);
    assert!(!renderable.has_disabled);

    let recreated = observation(1, extent(2560, 1440), 2);
    let renderable = renderable_observations(&selection.sessions, &vec![recreated], 2, None);
    assert_eq!(renderable.observations, vec![recreated]);
    assert!(!renderable.has_cooling_down);
    assert!(!renderable.has_disabled);
    selection.register(&[recreated], Some(recreated.id));
    let next_generation =
        selection.session(recreated.id).expect("recreated session exists").generation;
    assert_ne!(next_generation, generation);
    assert!(!selection.fail(recreated.id, generation, 2));
}

#[test]
fn cooled_down_primary_retries_when_no_alternative_exists() {
    let mut policy = PolicyState::new(controls());
    let mut selection = Selection::new();
    let primary = observation(1, extent(1920, 1080), 10);
    selection.register(&[primary], Some(primary.id));
    let (generation, _) =
        selection.permission(primary.id, 10).expect("the initial primary is renderable");
    assert!(selection.fail(primary.id, generation, 10));
    let renderable = renderable_observations(&selection.sessions, &vec![primary], 11, None);
    assert!(renderable.observations.is_empty());
    assert!(renderable.has_cooling_down);
    assert!(!renderable.has_disabled);

    track_observation(&mut policy, 10, primary);
    assert!(selection.reconcile(&policy, Some(primary.id), 11).render.is_none());
    let retried = selection.reconcile(&policy, Some(primary.id), 12);
    assert_eq!(retried.render.map(|permit| permit.generation), Some(generation));
}

fn metadata() -> NativeMetadata {
    NativeMetadata {
        hwnd: Some(100),
        device_identity: 0x700,
        adapter_luid: AdapterLuid { low: 2, high: 0 },
        size: extent(1_920, 1_080),
        format: SurfaceFormat::Bgra8Unorm,
        window_visible: true,
        foreground: false,
    }
}

#[test]
fn chains_are_numbered_once_and_presented_in_order() {
    let mut policy = PolicyState::new(controls());
    let (id, event) = policy.track_swap_chain(KEY, SwapChainInterface::V3);
    assert_eq!(id.get(), 1);
    assert_eq!(
        event,
        Some(DxgiObservationEvent::SwapChainAttached {
            swap_chain: id,
            interface: SwapChainInterface::V3,
        })
    );
    assert_eq!(policy.track_swap_chain(KEY, SwapChainInterface::V4), (id, None));
    assert_eq!(policy.track_swap_chain(OTHER_KEY, SwapChainInterface::Base).0.get(), 2);

    let (phase, actions) = before_present(&mut policy, KEY, true);
    let start = PresentStart {
        id,
        interface: SwapChainInterface::V3,
        sequence: 1,
        report_unknown_color: true,
    };
    assert_eq!(phase, PresentPhase::Inspect(start));
    assert_eq!(
        actions,
        [Action::Observe(DxgiObservationEvent::MetadataIncomplete {
            swap_chain: id,
            field: ObservationField::ColorSpace,
        })]
    );
    assert_eq!(before_present(&mut policy, 0x999, true).0, PresentPhase::Untracked);
    assert_eq!(policy.sequence, 2);

    assert_eq!(
        after_inspection(&mut policy, KEY, start, PresentMethod::Present, Ok(metadata())),
        InspectionPhase::Reconcile { presenting: Some(id), horizon: 2 }
    );
    let seen = observed(&policy, KEY).expect("the chain was observed");
    assert_eq!(seen.device, DeviceId { value: 1 });
    assert_eq!(seen.hwnd, Some(Hwnd { value: 100 }));
    assert!(seen.activity.window_visible);
    assert!(!seen.activity.foreground);

    let mut selection = Selection::new();
    let transition = selection.reconcile(&policy, Some(id), 2);
    let actions = finish_observed_present(
        &mut policy,
        KEY,
        start,
        PresentMethod::Present,
        transition.clone(),
        selection.session(id),
    );
    assert!(matches!(
        actions.as_slice(),
        [
            Action::Observe(DxgiObservationEvent::RenderSelectionResolved { sequence: 1, .. }),
            Action::Render(ticket),
        ] if ticket.key == KEY && ticket.transition_sequence == 1
    ));
    let withheld = RenderSelectionTransition { render: None, ..transition };
    let actions = finish_observed_present(
        &mut policy,
        KEY,
        start,
        PresentMethod::Present,
        withheld,
        selection.session(id),
    );
    assert_eq!(
        retirements(&actions),
        [SwapChainRetirement::new(id, SessionGeneration { value: 1 }, 1)]
    );
    let (phase, actions) = before_present(&mut policy, KEY, true);
    assert!(matches!(phase, PresentPhase::Inspect(next) if next.sequence == 3));
    assert!(actions.is_empty());
    assert_eq!(
        after_inspection(&mut policy, KEY, start, PresentMethod::Present, Ok(metadata())),
        InspectionPhase::Overtaken
    );
}

#[test]
fn waiting_retirements_are_merged_per_generation() {
    let first = SessionGeneration { value: 1 };
    let second = SessionGeneration { value: 2 };
    let chain = SwapChainId::new(5);
    let mut pending = PendingRetirements::new();
    assert!(pending.is_empty());
    pending.defer(SwapChainRetirement::new(chain, second, 7));
    pending.defer(SwapChainRetirement::new(chain, first, 9));
    pending.defer(SwapChainRetirement::new(chain, first, 4));
    pending.defer(SwapChainRetirement::new(SwapChainId::new(3), second, 1));
    assert!(!pending.is_empty());
    assert_eq!(
        pending.take(),
        [
            SwapChainRetirement::new(SwapChainId::new(3), second, 1),
            SwapChainRetirement::new(chain, first, 9),
            SwapChainRetirement::new(chain, second, 7),
        ]
    );
    assert!(pending.is_empty());
    assert_eq!(swap_chain_retirement(None, chain, 4), None);
}

#[test]
fn failed_resizes_are_reported_and_change_nothing() {
    let mut policy = PolicyState::new(controls());
    let chain = observation(1, extent(1_920, 1_080), 1);
    track_observation(&mut policy, KEY, chain);
    assert!(before_resize(&policy, 0x999, 1, 1, 0, true, true).is_none());
    let (invocation, _) =
        before_resize(&policy, KEY, 800, 600, 28, true, false).expect("the chain is tracked");
    assert_eq!(resize_returned(&mut policy, KEY, invocation, E_FAIL), None);
    let actions = finish_resize(&mut policy, KEY, invocation, E_FAIL, None, true, false);
    assert_eq!(
        actions,
        [
            Action::Observe(DxgiObservationEvent::ResizeForwarded {
                swap_chain: chain.id,
                requested_size: extent(800, 600),
                requested_format: SurfaceFormat::Rgba8Unorm,
                result: HResultDisposition::Other(E_FAIL),
            }),
            Action::Diagnose(DiagnosticEvent::SwapChainFailure {
                swap_chain: Some(chain.id),
                operation: SwapChainOperation::ResizeBuffers,
                code: FailureCode::HResult(E_FAIL),
            }),
        ]
    );
    assert_eq!(observed(&policy, KEY), Some(chain));
}

#[test]
fn renderer_replies_are_contained_and_reported() {
    let id = SwapChainId::new(4);
    assert_eq!(
        invoke_renderer(RendererReply::Completed, id, Boundary::RendererCallback),
        (true, Vec::new())
    );
    let error = RenderCallbackError::new(
        RenderOperation::RestoreState,
        FailureCode::HResult(E_FAIL),
    );
    assert_eq!(
        invoke_renderer(RendererReply::Failed(error), id, Boundary::RendererCallback),
        (
            false,
            vec![Action::Diagnose(DiagnosticEvent::RenderFailure {
                swap_chain: id,
                operation: RenderOperation::RestoreState,
                code: FailureCode::HResult(E_FAIL),
            })]
        )
    );
    let (succeeded, actions) =
        invoke_renderer(RendererReply::Panicked, id, Boundary::RendererCallback);
    assert!(!succeeded);
    assert_eq!(
        actions[0],
        Action::Observe(DxgiObservationEvent::PanicContained {
            boundary: Boundary::RendererCallback,
        })
    );
    assert_eq!(actions.len(), 2);
}

#[test]
fn attachment_failures_of_swap_chains_are_reported() {
    let id = Some(SwapChainId::new(4));
    assert_eq!(
        report_attach_error(ObjectKind::SwapChain, id, &DxgiError::HookConflict),
        Some(DiagnosticEvent::SwapChainFailure {
            swap_chain: id,
            operation: SwapChainOperation::AttachHook,
            code: FailureCode::Internal(InternalFailure::HookConflict),
        })
    );
    assert_eq!(
        report_attach_error(ObjectKind::Factory, None, &DxgiError::HookConflict),
        None
    );
}

#[test]
fn shutdown_counts_restored_and_displaced_hooks() {
    let outcomes = vec![
        HookRestoration::Restored,
        HookRestoration::Displaced,
        HookRestoration::Unchanged,
        HookRestoration::Restored,
    ];
    let (report, event) = close_and_drain(&outcomes, false, 3);
    assert!(!report.drained);
    assert_eq!(report.restored, 2);
    assert_eq!(report.displaced, 1);
    assert_eq!(report.in_flight, 3);
    assert_eq!(
        event,
        DxgiObservationEvent::Shutdown { drained: false, restored: 2, displaced: 1 }
    );

    let config = DxgiConfig::new(controls(), ClassifierConfig::default(), ());
    let mut manager = DxgiInterceptionManager::new(&config);
    assert!(!manager.is_closing());
    manager.stop_admission();
    assert!(manager.is_closing());
    assert_eq!(manager.close_and_drain(&outcomes, true, 0).0.restored, 2);
    assert!(manager.is_closing());
}

#[test]
fn a_manager_keeps_its_controls_and_its_window() {
    let config = DxgiConfig::new(controls(), ClassifierConfig::default(), ());
    let mut manager = DxgiInterceptionManager::new(&config);
    assert_eq!(manager.render_controls(), controls());
    let quiet = RenderControls { permits_render_probe: false, ..controls() };
    manager.set_render_controls(quiet);
    assert_eq!(manager.render_controls(), quiet);
    let window = Some(Hwnd { value: 100 });
    let changed = manager
        .set_expected_game_window(window)
        .expect("a new window changes the classifier");
    assert_eq!(changed.expected_game_window, window);
    assert!(manager.set_expected_game_window(window).is_none());
}

#[test]
fn every_observation_shows_its_own_chain_as_it_is() {
    let mut policy = PolicyState::new(controls());
    let mut tokens = Vec::new();
    for key in [KEY, OTHER_KEY] {
        let (id, _) = policy.track_swap_chain(key, SwapChainInterface::V4);
        let start = policy.begin_present(key).expect("the chain is tracked");
        let sampled = NativeMetadata { device_identity: 0x700 + key, ..metadata() };
        let method = PresentMethod::Present;
        assert!(policy.observe_present(key, id, start.sequence, method, sampled));
        tokens.push((id, start.sequence));
    }
    assert_ne!(tokens[0].0, tokens[1].0);
    assert_ne!(tokens[0].1, tokens[1].1);
    assert_eq!(policy.device_id(0x700 + KEY), DeviceId { value: 1 });
    assert_eq!(policy.device_id(0x700 + OTHER_KEY), DeviceId { value: 2 });

    policy.record_color_space(KEY, ColorSpace::Hdr10Pq, true);
    let (id, sequence) = tokens[0];
    assert!(policy.record_present_result(KEY, id, sequence, HResultDisposition::Occluded));
    let seen = policy.observations();
    assert_eq!(seen.len(), 2);
    assert_eq!((seen[0].id, seen[0].color_space), (id, ColorSpace::Hdr10Pq));
    assert!(seen[0].activity.occluded);
    assert_eq!(seen[0].activity.last_present_sequence, sequence);
    assert_eq!(seen[1].id, tokens[1].0);

    let newer = policy.begin_present(KEY).expect("the chain is tracked");
    assert!(newer.sequence > tokens[1].1);
    assert!(!policy.is_current_present(KEY, id, sequence));
    assert!(policy.is_current_present(KEY, id, newer.sequence));
}
