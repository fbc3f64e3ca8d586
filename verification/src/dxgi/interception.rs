//! The shared state of an interception manager: policy, render lane, and the
//! retirements that wait for it.
use vstd::prelude::*;
use crate::dxgi::callbacks::SwapChainRetirement;
use crate::dxgi::event::{DxgiObservationEvent, ShutdownReport};
use crate::dxgi::manager::{
    close_and_drain, concerns, occurrences, reported, waiting, HookRestoration, PendingRetirements,
    RenderLane, RenderLaneLease,
};
use crate::dxgi::policy::{PolicyState, TrackedSwapChain};
use crate::render::{later, ClassifierConfig, DeviceId, Hwnd, RenderControls};

verus! {

/// Configuration for swap-chain classification and staged rendering. The
/// failure policy is carried through to the session registry.
#[derive(Clone, Copy, Debug)]
pub struct DxgiConfig<P> {
    render_controls: RenderControls,
    classifier: ClassifierConfig,
    failure_policy: P,
}

impl<P> DxgiConfig<P> {
    /// Render controls, classifier configuration, and failure policy.
    pub closed spec fn parts(self) -> (RenderControls, ClassifierConfig, P) {
        (self.render_controls, self.classifier, self.failure_policy)
    }

    /// Creates a manager configuration from existing policy types.
    pub fn new(render_controls: RenderControls, classifier: ClassifierConfig, failure_policy: P) -> (config:
        Self)
        ensures
            config.parts() == (render_controls, classifier, failure_policy),
    {
        Self { render_controls, classifier, failure_policy }
    }

    /// Returns the initial staged-render controls.
    pub fn render_controls(&self) -> (controls: RenderControls)
        ensures
            controls == self.parts().0,
    {
        self.render_controls
    }

    /// Returns the initial classifier configuration.
    pub fn classifier(&self) -> (classifier: &ClassifierConfig)
        ensures
            *classifier == self.parts().1,
    {
        &self.classifier
    }

    /// Returns the per-generation failure policy.
    pub fn failure_policy(&self) -> (policy: &P)
        ensures
            *policy == self.parts().2,
    {
        &self.failure_policy
    }
}

/// Owner of the policy state of every hook.
#[derive(Debug)]
pub struct DxgiInterceptionManager {
    policy: PolicyState,
    classifier: ClassifierConfig,
    lane: RenderLane,
    pending: PendingRetirements,
    closing: bool,
}

impl DxgiInterceptionManager {
    /// Tracked chains and what was observed of them.
    pub closed spec fn state(&self) -> PolicyState {
        self.policy
    }

    /// What the classifier goes by.
    pub closed spec fn classification(&self) -> ClassifierConfig {
        self.classifier
    }

    /// Whether a lease of the render lane is out.
    pub closed spec fn lane_taken(&self) -> bool {
        self.lane.is_occupied()
    }

    /// The retirements that wait for the lane, in ascending order.
    pub closed spec fn queued(&self) -> Seq<SwapChainRetirement> {
        self.pending.queued()
    }

    /// Whether the manager admits nothing any more.
    pub closed spec fn closed(&self) -> bool {
        self.closing
    }

    /// The queue is ordered.
    pub closed spec fn wf(&self) -> bool {
        self.pending.wf()
    }

    /// Everything but the policy is as before.
    pub open spec fn only_policy_differs(&self, before: &Self) -> bool {
        &&& self.classification() == before.classification()
        &&& self.lane_taken() == before.lane_taken()
        &&& self.queued() == before.queued()
        &&& self.closed() == before.closed()
    }

    /// Creates a manager that tracks nothing yet.
    pub fn new<P>(config: &DxgiConfig<P>) -> (manager: Self)
        ensures
            manager.wf(),
            manager.state().coherent(),
            manager.state().chains@ == Map::<usize, TrackedSwapChain>::empty(),
            manager.state().devices@ == Map::<usize, DeviceId>::empty(),
            manager.state().next_swap_chain_id == 1,
            manager.state().next_device_id == 1,
            manager.state().sequence == 0,
            manager.state().selection_sequence == 0,
            manager.state().render_controls == config.parts().0,
            manager.classification() == config.parts().1,
            !manager.lane_taken(),
            manager.queued() == Seq::<SwapChainRetirement>::empty(),
            !manager.closed(),
    {
        Self {
            policy: PolicyState::new(config.render_controls()),
            classifier: *config.classifier(),
            lane: RenderLane::new(),
            pending: PendingRetirements::new(),
            closing: false,
        }
    }

    /// Returns the policy.
    pub fn policy(&self) -> (policy: &PolicyState)
        ensures
            *policy == self.state(),
    {
        &self.policy
    }

    /// Returns the policy for one pass of an intercepted call.
    pub fn policy_mut(&mut self) -> (policy: &mut PolicyState)
        requires
            old(self).wf(),
        ensures
            *policy == old(self).state(),
            final(self).state() == *final(policy),
            final(self).only_policy_differs(old(self)),
            final(self).wf(),
    {
        &mut self.policy
    }

    /// Returns whether the manager admits nothing any more.
    pub fn is_closing(&self) -> (closing: bool)
        ensures
            closing == self.closed(),
    {
        self.closing
    }

    /// Changes the stage and safe-mode policy used by future frames.
    pub fn set_render_controls(&mut self, controls: RenderControls)
        requires
            old(self).wf(),
        ensures
            final(self).wf(),
            final(self).state() == (PolicyState { render_controls: controls, ..old(self).state() }),
            old(self).state().coherent() ==> final(self).state().coherent(),
            final(self).only_policy_differs(old(self)),
    {
        self.policy.render_controls = controls;
    }

    /// Returns the current stage and safe-mode policy.
    pub fn render_controls(&self) -> (controls: RenderControls)
        ensures
            controls == self.state().render_controls,
    {
        self.policy.render_controls
    }

    /// Changes the game-window identity used by future classifications. A new
    /// configuration for the classifier is returned if the window differs.
    pub fn set_expected_game_window(&mut self, window: Option<Hwnd>) -> (changed: Option<
        ClassifierConfig,
    >)
        requires
            old(self).wf(),
        ensures
            final(self).wf(),
            final(self).state() == old(self).state(),
            final(self).classification() == (ClassifierConfig {
                expected_game_window: window,
                ..old(self).classification()
            }),
            changed == if old(self).classification().expected_game_window == window {
                None
            } else {
                Some(final(self).classification())
            },
            final(self).lane_taken() == old(self).lane_taken(),
            final(self).queued() == old(self).queued(),
            final(self).closed() == old(self).closed(),
    {
        if self.classifier.expected_game_window == window {
            return None;
        }
        self.classifier.expected_game_window = window;
        Some(self.classifier)
    }

    /// Takes the render lane if it is free, without waiting.
    pub fn try_render_lane(&mut self) -> (lease: Option<RenderLaneLease>)
        requires
            old(self).wf(),
        ensures
            final(self).wf(),
            lease is Some <==> !old(self).lane_taken(),
            final(self).lane_taken(),
            final(self).queued() == old(self).queued(),
            final(self).state() == old(self).state(),
            final(self).classification() == old(self).classification(),
            final(self).closed() == old(self).closed(),
    {
        self.lane.try_enter()
    }

    /// Decides when renderer state is retired: the owner of the render lane
    /// retires it now, and everybody else queues it.
    pub fn retire_or_defer(&mut self, retirement: SwapChainRetirement, owns_render_lane: bool) -> (now:
        Option<SwapChainRetirement>)
        requires
            old(self).wf(),
        ensures
            final(self).wf(),
            final(self).state() == old(self).state(),
            final(self).classification() == old(self).classification(),
            final(self).lane_taken() == old(self).lane_taken(),
            final(self).closed() == old(self).closed(),
            owns_render_lane ==> now == Some(retirement) && final(self).queued()
                == old(self).queued(),
            !owns_render_lane ==> now is None,
            !owns_render_lane ==> forall|id: u64, generation: u64| #[trigger]
                waiting(final(self).queued(), id, generation) == if concerns(
                    retirement,
                    id,
                    generation,
                ) {
                    Some(
                        match waiting(old(self).queued(), id, generation) {
                            Some(cutoff) => later(cutoff, retirement.cutoff()),
                            None => retirement.cutoff(),
                        },
                    )
                } else {
                    waiting(old(self).queued(), id, generation)
                },
    {
        if owns_render_lane {
            return Some(retirement);
        }
        self.pending.defer(retirement);
        None
    }

    /// Hands the queued retirements to the owner of the render lane.
    pub fn drain_deferred_retirements(&mut self) -> (retirements: Vec<SwapChainRetirement>)
        requires
            old(self).wf(),
        ensures
            final(self).wf(),
            retirements@ == old(self).queued(),
            final(self).queued() == Seq::<SwapChainRetirement>::empty(),
            final(self).state() == old(self).state(),
            final(self).classification() == old(self).classification(),
            final(self).lane_taken() == old(self).lane_taken(),
            final(self).closed() == old(self).closed(),
    {
        self.pending.take()
    }

    /// Gives the render lane back, unless something was queued in the meantime:
    /// the owner keeps the lease and drains again, so that nothing stays queued
    /// behind a free lane.
    pub fn finish_render_lane(&mut self, lease: RenderLaneLease) -> (kept: Option<RenderLaneLease>)
        requires
            old(self).wf(),
        ensures
            final(self).wf(),
            kept is None <==> old(self).queued().len() == 0,
            final(self).lane_taken() == (kept is Some && old(self).lane_taken()),
            final(self).queued() == old(self).queued(),
            final(self).state() == old(self).state(),
            final(self).classification() == old(self).classification(),
            final(self).closed() == old(self).closed(),
    {
        if !self.pending.is_empty() {
            return Some(lease);
        }
        self.lane.leave(lease);
        None
    }

    /// Stops the admission of new objects, before any hook is restored.
    pub fn stop_admission(&mut self)
        requires
            old(self).wf(),
        ensures
            final(self).wf(),
            final(self).closed(),
            final(self).state() == old(self).state(),
            final(self).classification() == old(self).classification(),
            final(self).lane_taken() == old(self).lane_taken(),
            final(self).queued() == old(self).queued(),
    {
        self.closing = true;
    }

    /// Closes admission and summarises the shutdown.
    ///
    /// `outcomes` says how the restoration of each hook ended, and `drained`
    /// and `in_flight` how the wait for callbacks did.
    pub fn close_and_drain(
        &mut self,
        outcomes: &Vec<HookRestoration>,
        drained: bool,
        in_flight: usize,
    ) -> (closed: (ShutdownReport, DxgiObservationEvent))
        requires
            old(self).wf(),
        ensures
            final(self).wf(),
            final(self).closed(),
            final(self).state() == old(self).state(),
            final(self).classification() == old(self).classification(),
            final(self).lane_taken() == old(self).lane_taken(),
            final(self).queued() == old(self).queued(),
            closed.0 == (ShutdownReport {
                drained,
                restored: reported(occurrences(outcomes@, HookRestoration::Restored)),
                displaced: reported(occurrences(outcomes@, HookRestoration::Displaced)),
                in_flight,
            }),
            closed.1 == (DxgiObservationEvent::Shutdown {
                drained,
                restored: closed.0.restored,
                displaced: closed.0.displaced,
            }),
    {
        self.closing = true;
        close_and_drain(outcomes, drained, in_flight)
    }
}

} // verus!
