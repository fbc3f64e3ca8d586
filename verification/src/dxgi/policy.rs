//! Policy state of an interception manager: which chains are tracked, what was
//! observed of them, and what a classification of them means.
use std::collections::BTreeMap;
use vstd::prelude::*;
use crate::dxgi::callbacks::SwapChainRetirement;
use crate::dxgi::event::{
    DxgiObservationEvent, HResultDisposition, RenderFailurePolicySuppression,
    RenderSelectionDeferred, RenderSelectionResolved, SwapChainInterface,
};
use crate::dxgi::sdk::{NativeMetadata, UNKNOWN_COLOR_SPACE};
use crate::ordered::{ascending_entries, entries_of, lemma_entry, lemma_keys, lemma_position};
use crate::render::{
    later, later_sequence, saturating_next, Activity, AttemptPermission, Classification, ColorSpace,
    DeviceId, Hwnd, PresentMethod, RenderControls, RenderStage, SelectionReason, Session,
    SessionGeneration, SessionLifecycle, StageFailureState, SwapChainId, SwapChainObservation,
};

verus! {

/// A tracked swap chain.
#[derive(Clone, Copy, Debug, PartialEq, Eq, Structural)]
pub struct TrackedSwapChain {
    /// Runtime-local identity.
    pub id: SwapChainId,
    /// Highest layout attached.
    pub interface: SwapChainInterface,
    /// Presentation traffic.
    pub activity: Activity,
    /// Latest valid observation.
    pub observation: Option<SwapChainObservation>,
    /// Last successfully applied color space.
    pub color_space: ColorSpace,
    /// Whether the color space is known or was reported as unknown.
    pub color_space_reported: bool,
}

impl TrackedSwapChain {
    /// A chain that was just attached.
    pub open spec fn attached(id: SwapChainId, interface: SwapChainInterface) -> Self {
        TrackedSwapChain {
            id,
            interface,
            activity: Activity::idle(),
            observation: None,
            color_space: ColorSpace::Other(UNKNOWN_COLOR_SPACE),
            color_space_reported: false,
        }
    }

    /// Whether an unknown color space is still to be reported.
    pub open spec fn unreported_color_space(self) -> bool {
        self.color_space == ColorSpace::Other(UNKNOWN_COLOR_SPACE) && !self.color_space_reported
    }

    /// The chain once a presentation at `sequence` has begun.
    pub open spec fn presenting(self, sequence: u64) -> Self {
        TrackedSwapChain {
            activity: Activity {
                present_count: saturating_next(self.activity.present_count),
                last_present_sequence: sequence,
                consecutive_present_cycles: saturating_cycle(
                    self.activity.consecutive_present_cycles,
                ),
                ..self.activity
            },
            color_space_reported: self.color_space_reported || self.unreported_color_space(),
            ..self
        }
    }

    /// The traffic once a sample of the window was taken.
    pub open spec fn sampled_activity(self, metadata: NativeMetadata) -> Activity {
        Activity {
            window_visible: metadata.window_visible,
            foreground: metadata.foreground,
            ..self.activity
        }
    }

    /// The observation that a sample of the chain makes.
    pub open spec fn observation_of(
        self,
        device: DeviceId,
        method: PresentMethod,
        metadata: NativeMetadata,
    ) -> SwapChainObservation {
        SwapChainObservation {
            id: self.id,
            hwnd: match metadata.hwnd {
                Some(value) => Some(Hwnd { value }),
                None => None,
            },
            device,
            adapter_luid: metadata.adapter_luid,
            format: metadata.format,
            color_space: self.color_space,
            size: metadata.size,
            present_method: method,
            activity: self.sampled_activity(metadata),
        }
    }

    /// The chain once a sample was taken.
    pub open spec fn observed(
        self,
        device: DeviceId,
        method: PresentMethod,
        metadata: NativeMetadata,
    ) -> Self {
        TrackedSwapChain {
            activity: self.sampled_activity(metadata),
            observation: Some(self.observation_of(device, method, metadata)),
            ..self
        }
    }

    /// The chain without its observation.
    pub open spec fn unobserved(self) -> Self {
        TrackedSwapChain { observation: None, ..self }
    }

    /// The chain once a presentation returned.
    pub open spec fn forwarded(self, disposition: HResultDisposition) -> Self {
        let occluded = disposition == HResultDisposition::Occluded;
        TrackedSwapChain {
            activity: Activity { occluded, ..self.activity },
            observation: if device_lost(disposition) {
                None
            } else {
                match self.observation {
                    Some(observation) => Some(
                        SwapChainObservation {
                            activity: Activity { occluded, ..observation.activity },
                            ..observation
                        },
                    ),
                    None => None,
                }
            },
            ..self
        }
    }

    /// Whether a returned presentation changes what a classification would see.
    pub open spec fn forwarding_matters(self, disposition: HResultDisposition) -> bool {
        ||| device_lost(disposition)
        ||| self.observation is Some && self.activity.occluded != (disposition
            == HResultDisposition::Occluded)
    }

    /// Whether a resize that captured `present_sequence` still concerns the chain as it is.
    pub open spec fn resize_applies(self, id: SwapChainId, present_sequence: u64) -> bool {
        self.id == id && (self.observation is None
            || self.observation->0.activity.last_present_sequence <= present_sequence)
    }

    /// The chain once a resize took effect.
    pub open spec fn resized(self) -> Self {
        TrackedSwapChain {
            activity: Activity { consecutive_present_cycles: 0, ..self.activity },
            observation: None,
            ..self
        }
    }

    /// The chain once a color space was applied.
    pub open spec fn recolored(self, color_space: ColorSpace) -> Self {
        TrackedSwapChain {
            color_space,
            color_space_reported: true,
            observation: match self.observation {
                Some(observation) => Some(SwapChainObservation { color_space, ..observation }),
                None => None,
            },
            ..self
        }
    }
}

/// Adds one to a cycle counter that stops at its maximum.
pub open spec fn saturating_cycle(cycles: u32) -> u32 {
    if cycles == u32::MAX {
        cycles
    } else {
        (cycles + 1) as u32
    }
}

/// Whether a result says that the device is gone.
pub open spec fn device_lost(disposition: HResultDisposition) -> bool {
    disposition == HResultDisposition::DeviceRemoved || disposition
        == HResultDisposition::DeviceReset
}

/// Returns whether a result says that the device is gone.
pub fn is_device_lost(disposition: HResultDisposition) -> (lost: bool)
    ensures
        lost == device_lost(disposition),
{
    match disposition {
        HResultDisposition::DeviceRemoved => true,
        HResultDisposition::DeviceReset => true,
        _ => false,
    }
}

/// A presentation that has begun on a tracked chain.
#[derive(Clone, Copy, Debug, PartialEq, Eq, Structural)]
pub struct PresentStart {
    /// Chain that presents.
    pub id: SwapChainId,
    /// Its layout.
    pub interface: SwapChainInterface,
    /// Sequence of the presentation.
    pub sequence: u64,
    /// Whether its unknown color space is to be reported now.
    pub report_unknown_color: bool,
}

/// What may still be rendered for one presentation.
#[derive(Clone, Copy, Debug, PartialEq, Eq, Structural)]
pub struct RenderTicket {
    /// Native address of the chain.
    pub key: usize,
    /// Chain to render on.
    pub id: SwapChainId,
    /// Presentation method.
    pub method: PresentMethod,
    /// Sequence of the presentation.
    pub sequence: u64,
    /// Resource generation.
    pub generation: SessionGeneration,
    /// Stage permitted.
    pub stage: RenderStage,
    /// Why the chain was selected.
    pub reason: SelectionReason,
    /// Sequence of the selection.
    pub transition_sequence: u64,
}

/// A permitted render.
#[derive(Clone, Copy, Debug, PartialEq, Eq, Structural)]
pub struct RenderPermit {
    /// Resource generation.
    pub generation: SessionGeneration,
    /// Stage permitted.
    pub stage: RenderStage,
    /// Why the chain was selected.
    pub reason: SelectionReason,
}

/// What one classification pass changed.
#[derive(Clone, Debug, PartialEq, Eq)]
pub struct RenderSelectionTransition {
    /// Permission to render for the presenting chain.
    pub render: Option<RenderPermit>,
    /// State to report when a chain was selected.
    pub resolved: Option<RenderSelectionResolved>,
    /// Diagnostic to report when none was.
    pub deferred: Option<RenderSelectionDeferred>,
}

/// The observations that failure policy lets a classifier see.
#[derive(Clone, Debug, PartialEq, Eq)]
pub struct RenderableObservationSet {
    /// Observations to classify.
    pub observations: Vec<SwapChainObservation>,
    /// Whether an observation waits for its retry.
    pub has_cooling_down: bool,
    /// Whether an observation has no retry left.
    pub has_disabled: bool,
    /// How the chain of the user's override was withheld.
    pub override_suppression: Option<RenderFailurePolicySuppression>,
}

/// A registered session together with its chain.
#[derive(Clone, Copy, Debug, PartialEq, Eq, Structural)]
pub struct RegisteredSession {
    /// Chain of the session.
    pub id: SwapChainId,
    /// Session.
    pub session: Session,
}

/// The session of a chain, if it has one.
pub open spec fn session_of(sessions: Seq<RegisteredSession>, id: SwapChainId) -> Option<Session>
    decreases sessions.len(),
{
    if sessions.len() == 0 {
        None
    } else if sessions[0].id == id {
        Some(sessions[0].session)
    } else {
        session_of(sessions.drop_first(), id)
    }
}

/// Returns the session of a chain.
pub fn find_session(sessions: &Vec<RegisteredSession>, id: SwapChainId) -> (session: Option<Session>)
    ensures
        session == session_of(sessions@, id),
{
    let mut index: usize = 0;
    assert(sessions@.subrange(0, sessions@.len() as int) =~= sessions@);
    while index < sessions.len()
        invariant
            index <= sessions.len(),
            session_of(sessions@, id) == session_of(
                sessions@.subrange(index as int, sessions@.len() as int),
                id,
            ),
        decreases sessions.len() - index,
    {
        let ghost rest = sessions@.subrange(index as int, sessions@.len() as int);
        assert(rest[0] == sessions@[index as int]);
        assert(rest.drop_first() =~= sessions@.subrange(index + 1, sessions@.len() as int));
        if sessions[index].id == id {
            return Some(sessions[index].session);
        }
        index = index + 1;
    }
    None
}

/// Whether an observation still belongs to a session's resource generation.
pub open spec fn same_generation(session: Session, observation: SwapChainObservation) -> bool {
    &&& session.lifecycle != SessionLifecycle::Retired
    &&& session.observation.hwnd == observation.hwnd
    &&& session.observation.device == observation.device
    &&& session.observation.adapter_luid == observation.adapter_luid
    &&& session.observation.size == observation.size
    &&& session.observation.format == observation.format
    &&& session.observation.color_space == observation.color_space
}

/// Returns whether an observation still belongs to a session's resource generation.
pub fn same_render_generation(session: &Session, observation: &SwapChainObservation) -> (same: bool)
    ensures
        same == same_generation(*session, *observation),
{
    session.lifecycle != SessionLifecycle::Retired && session.observation.hwnd == observation.hwnd
        && session.observation.device == observation.device && session.observation.adapter_luid
        == observation.adapter_luid && session.observation.size == observation.size
        && session.observation.format == observation.format && session.observation.color_space
        == observation.color_space
}

/// How failure policy withholds an observation, if it does.
pub open spec fn withheld(
    sessions: Seq<RegisteredSession>,
    observation: SwapChainObservation,
    sequence: u64,
) -> Option<RenderFailurePolicySuppression> {
    match session_of(sessions, observation.id) {
        None => None,
        Some(session) => if !same_generation(session, observation) {
            None
        } else {
            match session.failure {
                StageFailureState::Healthy { .. } => None,
                StageFailureState::CoolingDown { retry_at_sequence, .. } => if sequence
                    >= retry_at_sequence {
                    None
                } else {
                    Some(RenderFailurePolicySuppression::CoolingDown)
                },
                StageFailureState::Disabled { .. } => Some(
                    RenderFailurePolicySuppression::Disabled,
                ),
            }
        },
    }
}

/// The observations that are not withheld, in order.
pub open spec fn admitted(
    sessions: Seq<RegisteredSession>,
    observations: Seq<SwapChainObservation>,
    sequence: u64,
) -> Seq<SwapChainObservation>
    decreases observations.len(),
{
    if observations.len() == 0 {
        Seq::empty()
    } else {
        let rest = admitted(sessions, observations.drop_last(), sequence);
        if withheld(sessions, observations.last(), sequence) is None {
            rest.push(observations.last())
        } else {
            rest
        }
    }
}

/// Whether an observation is withheld in the given way.
pub open spec fn some_withheld(
    sessions: Seq<RegisteredSession>,
    observations: Seq<SwapChainObservation>,
    sequence: u64,
    how: RenderFailurePolicySuppression,
) -> bool {
    exists|i: int|
        0 <= i < observations.len() && withheld(sessions, #[trigger] observations[i], sequence)
            == Some(how)
}

/// How the latest observation of the overridden chain is withheld, if any is.
pub open spec fn override_withheld(
    sessions: Seq<RegisteredSession>,
    observations: Seq<SwapChainObservation>,
    sequence: u64,
    user_override: Option<SwapChainId>,
) -> Option<RenderFailurePolicySuppression>
    decreases observations.len(),
{
    if observations.len() == 0 {
        None
    } else {
        let last = observations.last();
        let how = withheld(sessions, last, sequence);
        if user_override == Some(last.id) && how is Some {
            how
        } else {
            override_withheld(sessions, observations.drop_last(), sequence, user_override)
        }
    }
}

impl RenderableObservationSet {
    /// What the set holds for given observations and sessions.
    pub open spec fn is_filter_of(
        self,
        sessions: Seq<RegisteredSession>,
        observations: Seq<SwapChainObservation>,
        sequence: u64,
        user_override: Option<SwapChainId>,
    ) -> bool {
        &&& self.observations@ == admitted(sessions, observations, sequence)
        &&& self.has_cooling_down == some_withheld(
            sessions,
            observations,
            sequence,
            RenderFailurePolicySuppression::CoolingDown,
        )
        &&& self.has_disabled == some_withheld(
            sessions,
            observations,
            sequence,
            RenderFailurePolicySuppression::Disabled,
        )
        &&& self.override_suppression == override_withheld(
            sessions,
            observations,
            sequence,
            user_override,
        )
    }
}

/// Filters observations through failure policy.
///
/// An observation is withheld only while its session belongs to the same
/// resource generation and is cooling down or disabled at `sequence`.
pub fn renderable_observations(
    sessions: &Vec<RegisteredSession>,
    observations: &Vec<SwapChainObservation>,
    sequence: u64,
    user_override: Option<SwapChainId>,
) -> (set: RenderableObservationSet)
    ensures
        set.is_filter_of(sessions@, observations@, sequence, user_override),
{
    let mut set = RenderableObservationSet {
        observations: Vec::new(),
        has_cooling_down: false,
        has_disabled: false,
        override_suppression: None,
    };
    let mut index: usize = 0;
    while index < observations.len()
        invariant
            index <= observations.len(),
            set.is_filter_of(
                sessions@,
                observations@.subrange(0, index as int),
                sequence,
                user_override,
            ),
        decreases observations.len() - index,
    {
        let observation = observations[index];
        let ghost seen = observations@.subrange(0, index as int);
        let ghost next = observations@.subrange(0, index + 1);
        let ghost before = set;
        assert(next.drop_last() =~= seen);
        assert(next.last() == observation);
        let how = match find_session(sessions, observation.id) {
            None => None,
            Some(session) => if !same_render_generation(&session, &observation) {
                None
            } else {
                match session.failure {
                    StageFailureState::Healthy { .. } => None,
                    StageFailureState::CoolingDown { retry_at_sequence, .. } => if sequence
                        >= retry_at_sequence {
                        None
                    } else {
                        Some(RenderFailurePolicySuppression::CoolingDown)
                    },
                    StageFailureState::Disabled { .. } => Some(
                        RenderFailurePolicySuppression::Disabled,
                    ),
                }
            },
        };
        match how {
            None => {
                set.observations.push(observation);
            },
            Some(suppression) => {
                match suppression {
                    RenderFailurePolicySuppression::CoolingDown => {
                        set.has_cooling_down = true;
                    },
                    _ => {
                        set.has_disabled = true;
                    },
                }
                if user_override == Some(observation.id) {
                    set.override_suppression = Some(suppression);
                }
            },
        }
        proof {
            lemma_some_withheld_step(
                sessions@,
                next,
                sequence,
                RenderFailurePolicySuppression::CoolingDown,
            );
            lemma_some_withheld_step(
                sessions@,
                next,
                sequence,
                RenderFailurePolicySuppression::Disabled,
            );
        }
        index = index + 1;
    }
    assert(observations@.subrange(0, index as int) =~= observations@);
    set
}

proof fn lemma_some_withheld_step(
    sessions: Seq<RegisteredSession>,
    observations: Seq<SwapChainObservation>,
    sequence: u64,
    how: RenderFailurePolicySuppression,
)
    requires
        observations.len() > 0,
    ensures
        some_withheld(sessions, observations, sequence, how) <==> (some_withheld(
            sessions,
            observations.drop_last(),
            sequence,
            how,
        ) || withheld(sessions, observations.last(), sequence) == Some(how)),
{
    let rest = observations.drop_last();
    if some_withheld(sessions, rest, sequence, how) {
        let i = choose|i: int|
            0 <= i < rest.len() && withheld(sessions, #[trigger] rest[i], sequence) == Some(how);
        assert(observations[i] == rest[i]);
    }
    if withheld(sessions, observations.last(), sequence) == Some(how) {
        assert(observations[observations.len() - 1] == observations.last());
    }
    if some_withheld(sessions, observations, sequence, how) {
        let i = choose|i: int|
            0 <= i < observations.len() && withheld(sessions, #[trigger] observations[i], sequence)
                == Some(how);
        if i < rest.len() {
            assert(rest[i] == observations[i]);
        }
    }
}

/// Failure of a resource generation does not follow the chain into its next one.
pub proof fn law_recreated_generation_discards_old_failure(
    sessions: Seq<RegisteredSession>,
    observation: SwapChainObservation,
    sequence: u64,
)
    requires
        session_of(sessions, observation.id) matches Some(session) ==> !same_generation(
            session,
            observation,
        ),
    ensures
        withheld(sessions, observation, sequence) is None,
{
}

/// The observations of tracked chains, in ascending order of their addresses.
pub open spec fn observations_of(entries: Seq<(usize, TrackedSwapChain)>) -> Seq<
    SwapChainObservation,
>
    decreases entries.len(),
{
    if entries.len() == 0 {
        Seq::empty()
    } else {
        let rest = observations_of(entries.drop_last());
        match entries.last().1.observation {
            Some(observation) => rest.push(observation),
            None => rest,
        }
    }
}

/// The latest presentation sequence among tracked chains and a given one.
pub open spec fn latest_of(entries: Seq<(usize, TrackedSwapChain)>, sequence: u64) -> u64
    decreases entries.len(),
{
    if entries.len() == 0 {
        sequence
    } else {
        later(
            entries.last().1.activity.last_present_sequence,
            latest_of(entries.drop_last(), sequence),
        )
    }
}

/// The first tracked chain with an identity, in ascending order of addresses.
pub open spec fn chain_with_id(
    entries: Seq<(usize, TrackedSwapChain)>,
    id: SwapChainId,
) -> Option<TrackedSwapChain>
    decreases entries.len(),
{
    if entries.len() == 0 {
        None
    } else if entries[0].1.id == id {
        Some(entries[0].1)
    } else {
        chain_with_id(entries.drop_first(), id)
    }
}

/// Policy state shared by every hook of a manager.
#[derive(Clone, Debug)]
pub struct PolicyState {
    /// Identity of the next attached chain.
    pub next_swap_chain_id: u64,
    /// Identity of the next device.
    pub next_device_id: u64,
    /// Sequence of the latest presentation.
    pub sequence: u64,
    /// Sequence of the latest selection.
    pub selection_sequence: u64,
    /// Tracked chains by native address.
    pub chains: BTreeMap<usize, TrackedSwapChain>,
    /// Devices by native identity.
    pub devices: BTreeMap<usize, DeviceId>,
    /// Stage policy in force.
    pub render_controls: RenderControls,
}

/// Whether two tracked chains are told apart: an identity is given out once, and
/// a sequence numbers one presentation. Counters that are exhausted stop at
/// their maximum, and a chain that never presented has no sequence.
pub open spec fn told_apart(left: TrackedSwapChain, right: TrackedSwapChain) -> bool {
    let sequence = left.activity.last_present_sequence;
    &&& left.id == right.id ==> left.id.value() == u64::MAX
    &&& sequence == right.activity.last_present_sequence ==> sequence == 0 || sequence == u64::MAX
}

impl PolicyState {
    /// Identities and sequences were given out one by one, and every observation
    /// shows its chain as it is. A new policy is coherent, and so is whatever
    /// becomes of a coherent one.
    pub open spec fn coherent(&self) -> bool {
        &&& forall|key: usize| #[trigger]
            self.chains@.contains_key(key) ==> self.accounts_for(self.chains@[key])
        &&& forall|left: usize, right: usize|
            #![trigger self.chains@[left], self.chains@[right]]
            self.chains@.contains_key(left) && self.chains@.contains_key(right) && left != right
                ==> told_apart(self.chains@[left], self.chains@[right])
        &&& forall|native: usize| #[trigger]
            self.devices@.contains_key(native) ==> self.gave_out_device(self.devices@[native])
        &&& forall|left: usize, right: usize|
            #![trigger self.devices@[left], self.devices@[right]]
            self.devices@.contains_key(left) && self.devices@.contains_key(right) && left != right
                && self.devices@[left] == self.devices@[right] ==> self.devices@[left].value
                == u64::MAX
    }

    /// Whether a device identity was given out already.
    pub open spec fn gave_out_device(&self, device: DeviceId) -> bool {
        device.value < self.next_device_id || self.next_device_id == u64::MAX
    }

    /// Whether a chain's identity and sequence were given out already, and its
    /// observation is one of the chain, not newer than its latest presentation,
    /// with the color space and the occlusion that the chain has now.
    pub open spec fn accounts_for(&self, chain: TrackedSwapChain) -> bool {
        &&& chain.id.value() < self.next_swap_chain_id || self.next_swap_chain_id == u64::MAX
        &&& chain.activity.last_present_sequence <= self.sequence
        &&& chain.observation matches Some(observation) ==> {
            &&& observation.id == chain.id
            &&& observation.color_space == chain.color_space
            &&& observation.activity.occluded == chain.activity.occluded
            &&& observation.activity.last_present_sequence <= chain.activity.last_present_sequence
            &&& self.gave_out_device(observation.device)
        }
    }

    /// Everything but the tracked chains is as before.
    pub open spec fn only_chains_differ(self, before: Self) -> bool {
        self == PolicyState { chains: self.chains, ..before }
    }

    /// Whether a presentation token still names the latest presentation of its chain.
    pub open spec fn current_present(&self, key: usize, id: SwapChainId, sequence: u64) -> bool {
        self.chains@.contains_key(key) && self.chains@[key].id == id
            && self.chains@[key].activity.last_present_sequence == sequence
    }

    /// The device identity that a native identity has or will get.
    pub open spec fn device_of(&self, native_identity: usize) -> DeviceId {
        if self.devices@.contains_key(native_identity) {
            self.devices@[native_identity]
        } else {
            DeviceId { value: self.next_device_id }
        }
    }

    /// Creates an empty policy.
    pub fn new(render_controls: RenderControls) -> (policy: Self)
        ensures
            policy.coherent(),
            policy.next_swap_chain_id == 1,
            policy.next_device_id == 1,
            policy.sequence == 0,
            policy.selection_sequence == 0,
            policy.chains@ == Map::<usize, TrackedSwapChain>::empty(),
            policy.devices@ == Map::<usize, DeviceId>::empty(),
            policy.render_controls == render_controls,
    {
        Self {
            next_swap_chain_id: 1,
            next_device_id: 1,
            sequence: 0,
            selection_sequence: 0,
            chains: BTreeMap::new(),
            devices: BTreeMap::new(),
            render_controls,
        }
    }

    /// Gives an attached chain its identity, and the event that reports it.
    ///
    /// A chain that is tracked already keeps its identity and is not reported again.
    pub fn track_swap_chain(&mut self, key: usize, interface: SwapChainInterface) -> (tracking: (
        SwapChainId,
        Option<DxgiObservationEvent>,
    ))
        ensures
            old(self).coherent() ==> final(self).coherent(),
            old(self).chains@.contains_key(key) ==> {
                &&& *final(self) == *old(self)
                &&& tracking.0 == old(self).chains@[key].id
                &&& tracking.1 is None
            },
            !old(self).chains@.contains_key(key) ==> {
                &&& tracking.0.value() == old(self).next_swap_chain_id
                &&& tracking.1 == Some(
                    DxgiObservationEvent::SwapChainAttached { swap_chain: tracking.0, interface },
                )
                &&& *final(self) == (PolicyState {
                    next_swap_chain_id: saturating_next(old(self).next_swap_chain_id),
                    chains: final(self).chains,
                    ..*old(self)
                })
                &&& final(self).chains@ == old(self).chains@.insert(
                    key,
                    TrackedSwapChain::attached(tracking.0, interface),
                )
            },
    {
        if let Some(existing) = self.chains.get(&key) {
            return (existing.id, None);
        }
        let id = SwapChainId::new(self.next_swap_chain_id);
        self.next_swap_chain_id = self.next_swap_chain_id.saturating_add(1);
        self.chains.insert(
            key,
            TrackedSwapChain {
                id,
                interface,
                activity: Activity::default(),
                observation: None,
                color_space: ColorSpace::Other(UNKNOWN_COLOR_SPACE),
                color_space_reported: false,
            },
        );
        (id, Some(DxgiObservationEvent::SwapChainAttached { swap_chain: id, interface }))
    }

    /// Returns the identity of a device, giving it one on first sight.
    pub fn device_id(&mut self, native_identity: usize) -> (id: DeviceId)
        ensures
            old(self).coherent() ==> final(self).coherent(),
            id == old(self).device_of(native_identity),
            old(self).devices@.contains_key(native_identity) ==> *final(self) == *old(self),
            !old(self).devices@.contains_key(native_identity) ==> {
                &&& *final(self) == (PolicyState {
                    next_device_id: saturating_next(old(self).next_device_id),
                    devices: final(self).devices,
                    ..*old(self)
                })
                &&& final(self).devices@ == old(self).devices@.insert(native_identity, id)
            },
    {
        if let Some(id) = self.devices.get(&native_identity) {
            return *id;
        }
        let id = DeviceId { value: self.next_device_id };
        self.next_device_id = self.next_device_id.saturating_add(1);
        self.devices.insert(native_identity, id);
        id
    }

    /// Numbers the next applied selection.
    pub fn next_selection_sequence(&mut self) -> (sequence: u64)
        ensures
            sequence == saturating_next(old(self).selection_sequence),
            *final(self) == (PolicyState { selection_sequence: sequence, ..*old(self) }),
            old(self).coherent() ==> final(self).coherent(),
    {
        self.selection_sequence = self.selection_sequence.saturating_add(1);
        self.selection_sequence
    }

    /// Returns whether a presentation token still names the latest presentation of its chain.
    pub fn is_current_present(&self, key: usize, id: SwapChainId, sequence: u64) -> (current: bool)
        ensures
            current == self.current_present(key, id, sequence),
    {
        match self.chains.get(&key) {
            Some(chain) => chain.id == id && chain.activity.last_present_sequence == sequence,
            None => false,
        }
    }

    /// Whether a ticket may still be rendered.
    pub open spec fn ticket_permitted(
        &self,
        ticket: RenderTicket,
        current_primary: Option<SwapChainId>,
        session: Option<Session>,
    ) -> bool {
        &&& self.current_present(ticket.key, ticket.id, ticket.sequence)
        &&& current_primary == Some(ticket.id)
        &&& self.render_controls.permits_render_probe
        &&& self.render_controls.effective_stage == ticket.stage
        &&& session matches Some(found) && found.generation == ticket.generation
            && found.lifecycle == SessionLifecycle::Primary
    }

    /// Returns whether a ticket may still be rendered.
    ///
    /// `current_primary` is the classifier's present choice and `session` is
    /// what the registry holds of the ticket's chain.
    pub fn permits_render_ticket(
        &self,
        ticket: RenderTicket,
        current_primary: Option<SwapChainId>,
        session: Option<Session>,
    ) -> (permitted: bool)
        ensures
            permitted == self.ticket_permitted(ticket, current_primary, session),
    {
        if !self.is_current_present(ticket.key, ticket.id, ticket.sequence) {
            return false;
        }
        if current_primary != Some(ticket.id) {
            return false;
        }
        if !self.render_controls.permits_render_probe || self.render_controls.effective_stage
            != ticket.stage {
            return false;
        }
        match session {
            Some(found) => found.generation == ticket.generation && found.lifecycle
                == SessionLifecycle::Primary,
            None => false,
        }
    }

    /// Begins a presentation. An address that is not tracked still takes a sequence.
    pub fn begin_present(&mut self, key: usize) -> (start: Option<PresentStart>)
        ensures
            old(self).coherent() ==> final(self).coherent(),
            final(self).sequence == saturating_next(old(self).sequence),
            *final(self) == (PolicyState {
                sequence: final(self).sequence,
                chains: final(self).chains,
                ..*old(self)
            }),
            start is Some <==> old(self).chains@.contains_key(key),
            !old(self).chains@.contains_key(key) ==> final(self).chains@ == old(self).chains@,
            start matches Some(begun) ==> {
                let before = old(self).chains@[key];
                &&& begun == (PresentStart {
                    id: before.id,
                    interface: before.interface,
                    sequence: final(self).sequence,
                    report_unknown_color: before.unreported_color_space(),
                })
                &&& final(self).chains@ == old(self).chains@.insert(
                    key,
                    before.presenting(final(self).sequence),
                )
                &&& final(self).current_present(key, begun.id, begun.sequence)
            },
    {
        self.sequence = self.sequence.saturating_add(1);
        let sequence: u64 = self.sequence;
        let mut chain = match self.chains.get(&key) {
            Some(found) => *found,
            None => {
                return None;
            },
        };
        chain.activity.present_count = chain.activity.present_count.saturating_add(1);
        chain.activity.last_present_sequence = sequence;
        chain.activity.consecutive_present_cycles =
        chain.activity.consecutive_present_cycles.saturating_add(1);
        let report_unknown_color = chain.color_space == ColorSpace::Other(UNKNOWN_COLOR_SPACE)
            && !chain.color_space_reported;
        if report_unknown_color {
            chain.color_space_reported = true;
        }
        self.chains.insert(key, chain);
        Some(
            PresentStart {
                id: chain.id,
                interface: chain.interface,
                sequence,
                report_unknown_color,
            },
        )
    }

    /// Records what an inspection sampled, unless a newer presentation overtook it.
    pub fn observe_present(
        &mut self,
        key: usize,
        id: SwapChainId,
        sequence: u64,
        method: PresentMethod,
        metadata: NativeMetadata,
    ) -> (applied: bool)
        ensures
            old(self).coherent() ==> final(self).coherent(),
            applied == old(self).current_present(key, id, sequence),
            !applied ==> *final(self) == *old(self),
            applied ==> {
                let identity = metadata.device_identity;
                let device = old(self).device_of(identity);
                &&& final(self).chains@ == old(self).chains@.insert(
                    key,
                    old(self).chains@[key].observed(device, method, metadata),
                )
                &&& final(self).devices@ == old(self).devices@.insert(identity, device)
                &&& final(self).next_device_id == if old(self).devices@.contains_key(identity) {
                    old(self).next_device_id
                } else {
                    saturating_next(old(self).next_device_id)
                }
                &&& *final(self) == (PolicyState {
                    next_device_id: final(self).next_device_id,
                    chains: final(self).chains,
                    devices: final(self).devices,
                    ..*old(self)
                })
            },
            applied ==> (final(self).chains@[key].observation matches Some(seen) && {
                &&& seen.id == id
                &&& seen.size.width == metadata.size.width
                &&& seen.size.height == metadata.size.height
                &&& seen.adapter_luid.low == metadata.adapter_luid.low
                &&& seen.adapter_luid.high == metadata.adapter_luid.high
                &&& seen.format == metadata.format
                &&& seen.hwnd is Some <==> metadata.hwnd is Some
                &&& seen.hwnd is Some ==> seen.hwnd->0.value == metadata.hwnd->0
                &&& seen.present_method == method
                &&& seen.color_space == old(self).chains@[key].color_space
                &&& seen.activity.window_visible == metadata.window_visible
                &&& seen.activity.foreground == metadata.foreground
                &&& seen.activity.last_present_sequence == sequence
            }),
    {
        let mut chain = match self.chains.get(&key) {
            Some(found) => *found,
            None => {
                return false;
            },
        };
        if chain.id != id || chain.activity.last_present_sequence != sequence {
            return false;
        }
        let device = self.device_id(metadata.device_identity);
        chain.activity.window_visible = metadata.window_visible;
        chain.activity.foreground = metadata.foreground;
        let hwnd = match metadata.hwnd {
            Some(value) => Some(Hwnd { value }),
            None => None,
        };
        chain.observation =
        Some(
            SwapChainObservation {
                id,
                hwnd,
                device,
                adapter_luid: metadata.adapter_luid,
                format: metadata.format,
                color_space: chain.color_space,
                size: metadata.size,
                present_method: method,
                activity: chain.activity,
            },
        );
        self.chains.insert(key, chain);
        assert(self.devices@ =~= old(self).devices@.insert(metadata.device_identity, device));
        true
    }

    /// Drops an observation after a failed inspection, unless a newer presentation overtook it.
    pub fn invalidate_observation(&mut self, key: usize, id: SwapChainId, sequence: u64) -> (applied:
        bool)
        ensures
            old(self).coherent() ==> final(self).coherent(),
            applied == old(self).current_present(key, id, sequence),
            !applied ==> *final(self) == *old(self),
            applied ==> final(self).only_chains_differ(*old(self)) && final(self).chains@
                == old(self).chains@.insert(key, old(self).chains@[key].unobserved()),
    {
        let mut chain = match self.chains.get(&key) {
            Some(found) => *found,
            None => {
                return false;
            },
        };
        if chain.id != id || chain.activity.last_present_sequence != sequence {
            return false;
        }
        chain.observation = None;
        self.chains.insert(key, chain);
        true
    }

    /// Records how a presentation returned, and says whether selection has to be
    /// reconsidered. A token that a newer presentation overtook changes nothing.
    pub fn record_present_result(
        &mut self,
        key: usize,
        id: SwapChainId,
        sequence: u64,
        disposition: HResultDisposition,
    ) -> (reconcile: bool)
        ensures
            old(self).coherent() ==> final(self).coherent(),
            !old(self).current_present(key, id, sequence) ==> !reconcile && *final(self)
                == *old(self),
            old(self).current_present(key, id, sequence) ==> {
                &&& reconcile == old(self).chains@[key].forwarding_matters(disposition)
                &&& final(self).only_chains_differ(*old(self))
                &&& final(self).chains@ == old(self).chains@.insert(
                    key,
                    old(self).chains@[key].forwarded(disposition),
                )
            },
    {
        let mut chain = match self.chains.get(&key) {
            Some(found) => *found,
            None => {
                return false;
            },
        };
        if chain.id != id || chain.activity.last_present_sequence != sequence {
            return false;
        }
        let was_occluded = chain.activity.occluded;
        let occluded = disposition == HResultDisposition::Occluded;
        chain.activity.occluded = occluded;
        let reconcile = if is_device_lost(disposition) {
            chain.observation = None;
            true
        } else {
            match chain.observation {
                Some(found) => {
                    let mut observation = found;
                    observation.activity.occluded = occluded;
                    chain.observation = Some(observation);
                    was_occluded != occluded
                },
                None => false,
            }
        };
        self.chains.insert(key, chain);
        reconcile
    }

    /// Returns the token that a resize of a tracked chain captures.
    pub fn begin_resize(&self, key: usize) -> (token: Option<(SwapChainId, u64)>)
        ensures
            token == if self.chains@.contains_key(key) {
                Some((self.chains@[key].id, self.chains@[key].activity.last_present_sequence))
            } else {
                None
            },
    {
        match self.chains.get(&key) {
            Some(chain) => Some((chain.id, chain.activity.last_present_sequence)),
            None => None,
        }
    }

    /// Applies a successful resize and returns the cutoff for retiring the
    /// chain's renderer state. A resize that a newer observation overtook
    /// changes nothing.
    pub fn complete_resize(&mut self, key: usize, id: SwapChainId, present_sequence: u64) -> (cutoff:
        Option<u64>)
        ensures
            old(self).coherent() ==> final(self).coherent(),
            cutoff is Some <==> old(self).chains@.contains_key(key)
                && old(self).chains@[key].resize_applies(id, present_sequence),
            cutoff is None ==> *final(self) == *old(self),
            cutoff matches Some(sequence) ==> {
                &&& sequence == later(
                    old(self).chains@[key].activity.last_present_sequence,
                    present_sequence,
                )
                &&& final(self).only_chains_differ(*old(self))
                &&& final(self).chains@ == old(self).chains@.insert(
                    key,
                    old(self).chains@[key].resized(),
                )
            },
    {
        let mut chain = match self.chains.get(&key) {
            Some(found) => *found,
            None => {
                return None;
            },
        };
        if chain.id != id {
            return None;
        }
        if let Some(observation) = chain.observation {
            if observation.activity.last_present_sequence > present_sequence {
                return None;
            }
        }
        chain.observation = None;
        chain.activity.consecutive_present_cycles = 0;
        let cutoff: u64 = later_sequence(chain.activity.last_present_sequence, present_sequence);
        self.chains.insert(key, chain);
        Some(cutoff)
    }

    /// Records a color-space change that succeeded, and returns the chain, its
    /// active color space, and whether an observation changed with it.
    pub fn record_color_space(&mut self, key: usize, requested: ColorSpace, succeeded: bool) -> (change:
        Option<(SwapChainId, ColorSpace, bool)>)
        ensures
            old(self).coherent() ==> final(self).coherent(),
            change is Some <==> old(self).chains@.contains_key(key),
            (change is None || !succeeded) ==> *final(self) == *old(self),
            change matches Some(applied) ==> {
                let before = old(self).chains@[key];
                &&& applied.0 == before.id
                &&& applied.1 == if succeeded {
                    requested
                } else {
                    before.color_space
                }
                &&& applied.2 == (succeeded && before.observation is Some)
                &&& succeeded ==> {
                    &&& final(self).only_chains_differ(*old(self))
                    &&& final(self).chains@ == old(self).chains@.insert(
                        key,
                        before.recolored(requested),
                    )
                }
            },
    {
        let mut chain = match self.chains.get(&key) {
            Some(found) => *found,
            None => {
                return None;
            },
        };
        if !succeeded {
            return Some((chain.id, chain.color_space, false));
        }
        chain.color_space = requested;
        chain.color_space_reported = true;
        let changed = match chain.observation {
            Some(found) => {
                let mut observation = found;
                observation.color_space = requested;
                chain.observation = Some(observation);
                true
            },
            None => false,
        };
        self.chains.insert(key, chain);
        Some((chain.id, requested, changed))
    }

    /// Returns the latest presentation sequence of the first tracked chain with an identity.
    pub fn last_present_of(&self, id: SwapChainId) -> (sequence: Option<u64>)
        ensures
            sequence == match chain_with_id(entries_of(self.chains@), id) {
                Some(chain) => Some(chain.activity.last_present_sequence),
                None => None,
            },
    {
        let walked = ascending_entries(&self.chains);
        let ghost entries = walked@;
        let mut index: usize = 0;
        assert(entries.subrange(0, entries.len() as int) =~= entries);
        while index < walked.len()
            invariant
                entries == walked@,
                entries == entries_of(self.chains@),
                index <= entries.len(),
                chain_with_id(entries, id) == chain_with_id(
                    entries.subrange(index as int, entries.len() as int),
                    id,
                ),
            decreases entries.len() - index,
        {
            let ghost rest = entries.subrange(index as int, entries.len() as int);
            assert(rest[0] == entries[index as int]);
            assert(rest.drop_first() =~= entries.subrange(index + 1, entries.len() as int));
            let chain = walked[index].1;
            if chain.id == id {
                return Some(chain.activity.last_present_sequence);
            }
            index = index + 1;
        }
        None
    }

    /// Returns the observations of tracked chains, in ascending order of their addresses.
    pub fn observations(&self) -> (observations: Vec<SwapChainObservation>)
        ensures
            observations@ == observations_of(entries_of(self.chains@)),
    {
        let walked = ascending_entries(&self.chains);
        let ghost entries = walked@;
        let mut observations: Vec<SwapChainObservation> = Vec::new();
        let mut index: usize = 0;
        while index < walked.len()
            invariant
                entries == walked@,
                index <= entries.len(),
                observations@ == observations_of(entries.subrange(0, index as int)),
            decreases entries.len() - index,
        {
            let ghost next = entries.subrange(0, index + 1);
            assert(next.drop_last() =~= entries.subrange(0, index as int));
            if let Some(observation) = walked[index].1.observation {
                observations.push(observation);
            }
            index = index + 1;
        }
        assert(entries.subrange(0, index as int) =~= entries);
        observations
    }

    /// Returns the latest presentation sequence, which is never before `sequence`.
    pub fn latest_present_sequence(&self, sequence: u64) -> (latest: u64)
        ensures
            latest == latest_of(entries_of(self.chains@), sequence),
    {
        let walked = ascending_entries(&self.chains);
        let ghost entries = walked@;
        let mut latest: u64 = sequence;
        let mut index: usize = 0;
        while index < walked.len()
            invariant
                entries == walked@,
                index <= entries.len(),
                latest == latest_of(entries.subrange(0, index as int), sequence),
            decreases entries.len() - index,
        {
            let ghost next = entries.subrange(0, index + 1);
            assert(next.drop_last() =~= entries.subrange(0, index as int));
            latest =
            later_sequence(
                walked[index].1.activity.last_present_sequence,
                latest,
            );
            index = index + 1;
        }
        assert(entries.subrange(0, index as int) =~= entries);
        latest
    }

    /// The chain whose failure policy decides whether the presentation is rendered.
    pub open spec fn render_candidate(
        &self,
        presenting_id: Option<SwapChainId>,
        primary: Option<SwapChainId>,
    ) -> Option<SwapChainId> {
        if presenting_id is Some && primary == presenting_id
            && self.render_controls.permits_render_probe {
            presenting_id
        } else {
            None
        }
    }

    /// Returns the chain whose failure policy has to be asked for permission, if any.
    ///
    /// Only the presenting chain is rendered, only while it is the primary
    /// chain, and only while the render probe is permitted.
    pub fn candidate_for_render(
        &self,
        presenting_id: Option<SwapChainId>,
        classification: &Classification,
    ) -> (candidate: Option<SwapChainId>)
        ensures
            candidate == self.render_candidate(presenting_id, classification.selected),
    {
        match presenting_id {
            Some(id) => if classification.selected == Some(id)
                && self.render_controls.permits_render_probe {
                Some(id)
            } else {
                None
            },
            None => None,
        }
    }

    /// The render that a classification and the failure policy permit.
    pub open spec fn permitted_render(
        &self,
        presenting_id: Option<SwapChainId>,
        classification: Classification,
        permission: Option<(SessionGeneration, AttemptPermission)>,
    ) -> Option<RenderPermit> {
        match (
            self.render_candidate(presenting_id, classification.selected),
            permission,
            classification.selection_reason,
        ) {
            (Some(_), Some((generation, answer)), Some(reason)) => if attempt_permitted(answer) {
                Some(
                    RenderPermit {
                        generation,
                        stage: self.render_controls.effective_stage,
                        reason,
                    },
                )
            } else {
                None
            },
            _ => None,
        }
    }

    /// Works out what a classification pass changes.
    ///
    /// `renderable` is what the classifier saw, `classification` what it said,
    /// and `permission` what the registry answered for the candidate of
    /// [`candidate_for_render`](Self::candidate_for_render).
    pub fn reconcile_render_selection(
        &self,
        presenting_id: Option<SwapChainId>,
        renderable: &RenderableObservationSet,
        classification: &Classification,
        permission: Option<(SessionGeneration, AttemptPermission)>,
    ) -> (transition: RenderSelectionTransition)
        ensures
            transition.render == self.permitted_render(presenting_id, *classification, permission),
            RenderSelectionResolved::matches_classification(
                transition.resolved,
                *classification,
                renderable.override_suppression,
            ),
            RenderSelectionDeferred::describes(
                transition.deferred,
                *classification,
                crate::dxgi::event::suppression(
                    renderable.has_cooling_down,
                    renderable.has_disabled,
                ),
                renderable.override_suppression,
            ),
    {
        let resolved = RenderSelectionResolved::from_classification_with_override_suppression(
            classification,
            renderable.override_suppression,
        );
        let deferred =
            RenderSelectionDeferred::from_classification_with_failure_policy_and_override_suppression(
        classification,
            renderable.has_cooling_down,
            renderable.has_disabled,
            renderable.override_suppression,
        );
        let render = match self.candidate_for_render(presenting_id, classification) {
            None => None,
            Some(_) => match (permission, classification.selection_reason) {
                (Some((generation, answer)), Some(reason)) => if permits_attempt(answer) {
                    Some(
                        RenderPermit {
                            generation,
                            stage: self.render_controls.effective_stage,
                            reason,
                        },
                    )
                } else {
                    None
                },
                _ => None,
            },
        };
        RenderSelectionTransition { render, resolved, deferred }
    }
}

/// Whether the failure policy lets a render be attempted.
pub open spec fn attempt_permitted(permission: AttemptPermission) -> bool {
    permission == AttemptPermission::Attempt || permission == AttemptPermission::Retry
}

fn permits_attempt(permission: AttemptPermission) -> (permitted: bool)
    ensures
        permitted == attempt_permitted(permission),
{
    match permission {
        AttemptPermission::Attempt => true,
        AttemptPermission::Retry => true,
        AttemptPermission::CoolingDown { .. } => false,
        AttemptPermission::Disabled => false,
    }
}

/// Returns the cutoff under which a chain's renderer state may be retired.
pub fn swap_chain_retirement(session: Option<Session>, id: SwapChainId, sequence: u64) -> (retirement:
    Option<SwapChainRetirement>)
    ensures
        retirement == retirement_of(session, id, sequence),
        retirement is Some <==> session is Some,
        retirement matches Some(cutoff) ==> cutoff.chain() == id && cutoff.newest_generation()
            == session->0.generation && cutoff.cutoff() == sequence,
{
    match session {
        Some(found) => Some(SwapChainRetirement::new(id, found.generation, sequence)),
        None => None,
    }
}

/// The cutoff under which a chain's renderer state may be retired.
pub open spec fn retirement_of(
    session: Option<Session>,
    id: SwapChainId,
    sequence: u64,
) -> Option<SwapChainRetirement> {
    match session {
        Some(found) => Some(SwapChainRetirement::of(id, found.generation, sequence)),
        None => None,
    }
}

/// A render outcome counts only while its generation is the registered one.
pub fn outcome_applies(session: Option<Session>, generation: SessionGeneration) -> (applies: bool)
    ensures
        applies == (session is Some && session->0.generation == generation),
{
    match session {
        Some(found) => found.generation == generation,
        None => false,
    }
}

/// A token of an overtaken presentation is current no longer, so that no late
/// inspection, result or ticket of it can change newer state.
pub proof fn law_overtaken_tokens_are_stale(
    policy: PolicyState,
    key: usize,
    id: SwapChainId,
    sequence: u64,
    later_sequence: u64,
)
    requires
        policy.current_present(key, id, later_sequence),
        sequence != later_sequence,
    ensures
        !policy.current_present(key, id, sequence),
        forall|ticket: RenderTicket, primary: Option<SwapChainId>, session: Option<Session>|
            ticket.key == key && ticket.id == id && ticket.sequence == sequence
                ==> !policy.ticket_permitted(ticket, primary, session),
{
}

/// A presentation that begins overtakes every earlier token of its chain, and
/// its sequence is the latest that any chain has.
pub proof fn law_a_new_presentation_overtakes_earlier_tokens(
    before: PolicyState,
    after: PolicyState,
    key: usize,
    id: SwapChainId,
    sequence: u64,
)
    requires
        before.coherent(),
        before.sequence < u64::MAX,
        before.chains@.contains_key(key),
        after.sequence == saturating_next(before.sequence),
        after.chains@ == before.chains@.insert(
            key,
            before.chains@[key].presenting(after.sequence),
        ),
        sequence <= before.sequence,
    ensures
        !after.current_present(key, id, sequence),
        after.current_present(key, before.chains@[key].id, after.sequence),
        forall|other: usize|
            other != key && #[trigger] after.chains@.contains_key(other)
                ==> after.chains@[other].activity.last_present_sequence < after.sequence,
{
}

/// An identity that was given out names one tracked chain.
pub proof fn law_an_identity_names_one_chain(policy: PolicyState, left: usize, right: usize)
    requires
        policy.coherent(),
        policy.chains@.contains_key(left),
        policy.chains@.contains_key(right),
        policy.chains@[left].id == policy.chains@[right].id,
        policy.chains@[left].id.value() < u64::MAX,
    ensures
        left == right,
{
}

/// A sequence numbers one presentation: no two chains have it as their latest.
pub proof fn law_a_sequence_numbers_one_presentation(
    policy: PolicyState,
    left: usize,
    right: usize,
    sequence: u64,
)
    requires
        policy.coherent(),
        policy.chains@.contains_key(left),
        policy.chains@.contains_key(right),
        policy.chains@[left].activity.last_present_sequence == sequence,
        policy.chains@[right].activity.last_present_sequence == sequence,
        0 < sequence < u64::MAX,
    ensures
        left == right,
{
}

/// A device identity that was given out names one native device.
pub proof fn law_a_device_identity_names_one_device(policy: PolicyState, left: usize, right: usize)
    requires
        policy.coherent(),
        policy.devices@.contains_key(left),
        policy.devices@.contains_key(right),
        policy.devices@[left] == policy.devices@[right],
        policy.devices@[left].value < u64::MAX,
    ensures
        left == right,
{
}

proof fn lemma_observation_sources(
    entries: Seq<(usize, TrackedSwapChain)>,
    i: int,
    j: int,
) -> (sources: (int, int))
    requires
        0 <= i <= j < observations_of(entries).len(),
    ensures
        0 <= sources.0 <= sources.1 < entries.len(),
        i < j ==> sources.0 < sources.1,
        entries[sources.0].1.observation == Some(observations_of(entries)[i]),
        entries[sources.1].1.observation == Some(observations_of(entries)[j]),
    decreases entries.len(),
{
    let rest = entries.drop_last();
    if j < observations_of(rest).len() {
        lemma_observation_sources(rest, i, j)
    } else if i < j {
        let sources = lemma_observation_sources(rest, i, i);
        (sources.0, entries.len() - 1)
    } else {
        (entries.len() - 1, entries.len() - 1)
    }
}

/// Of what a classification sees, every observation is one of a tracked chain,
/// with the color space and the occlusion that the chain has now and no newer
/// than its latest presentation, and no two are of one identity.
pub proof fn law_observations_show_their_chains(policy: PolicyState, i: int, j: int)
    requires
        policy.coherent(),
        0 <= i <= j < observations_of(entries_of(policy.chains@)).len(),
    ensures
        ({
            let seen = observations_of(entries_of(policy.chains@));
            &&& exists|key: usize|
                {
                    &&& policy.chains@.contains_key(key)
                    &&& #[trigger] policy.chains@[key].observation == Some(seen[i])
                    &&& policy.chains@[key].id == seen[i].id
                    &&& policy.chains@[key].color_space == seen[i].color_space
                    &&& policy.chains@[key].activity.occluded == seen[i].activity.occluded
                    &&& seen[i].activity.last_present_sequence
                        <= policy.chains@[key].activity.last_present_sequence
                }
            &&& i < j && seen[i].id == seen[j].id ==> seen[i].id.value() == u64::MAX
        }),
{
    let entries = entries_of(policy.chains@);
    let (left, right) = lemma_observation_sources(entries, i, j);
    lemma_keys(policy.chains@);
    lemma_entry(policy.chains@, left);
    lemma_entry(policy.chains@, right);
    let first = entries[left].0;
    let second = entries[right].0;
    assert(policy.accounts_for(policy.chains@[first]));
    assert(policy.accounts_for(policy.chains@[second]));
    assert(i < j ==> told_apart(policy.chains@[first], policy.chains@[second]));
}

/// The freshness horizon covers every tracked presentation, whether or not its
/// chain is still observed or was withheld.
pub proof fn law_horizon_covers_every_tracked_presentation(
    entries: Seq<(usize, TrackedSwapChain)>,
    sequence: u64,
    i: int,
)
    requires
        0 <= i < entries.len(),
    ensures
        entries[i].1.activity.last_present_sequence <= latest_of(entries, sequence),
        sequence <= latest_of(entries, sequence),
    decreases entries.len(),
{
    reveal_with_fuel(latest_of, 2);
    if i < entries.len() - 1 {
        law_horizon_covers_every_tracked_presentation(entries.drop_last(), sequence, i);
    } else if entries.len() > 1 {
        law_horizon_covers_every_tracked_presentation(entries.drop_last(), sequence, 0);
    }
}

/// A selection is reported as resolved or as deferred, never as both.
pub proof fn law_a_selection_is_resolved_or_deferred(
    classification: Classification,
    resolved: Option<RenderSelectionResolved>,
    deferred: Option<RenderSelectionDeferred>,
    withheld: Option<RenderFailurePolicySuppression>,
    override_suppression: Option<RenderFailurePolicySuppression>,
)
    requires
        RenderSelectionResolved::matches_classification(
            resolved,
            classification,
            override_suppression,
        ),
        RenderSelectionDeferred::describes(deferred, classification, withheld, override_suppression),
    ensures
        !(resolved is Some && deferred is Some),
{
}

proof fn lemma_observation_position(entries: Seq<(usize, TrackedSwapChain)>, position: int) -> (i:
    int)
    requires
        0 <= position < entries.len(),
        entries[position].1.observation is Some,
    ensures
        0 <= i < observations_of(entries).len(),
        observations_of(entries)[i] == entries[position].1.observation->0,
    decreases entries.len(),
{
    let rest = entries.drop_last();
    if position == entries.len() - 1 {
        observations_of(rest).len() as int
    } else {
        lemma_observation_position(rest, position)
    }
}

/// What a classification sees is every observation of a tracked chain, and
/// nothing else.
pub proof fn law_every_observation_is_seen(policy: PolicyState, observation: SwapChainObservation)
    ensures
        observations_of(entries_of(policy.chains@)).contains(observation) <==> exists|key: usize|
            policy.chains@.contains_key(key) && #[trigger] policy.chains@[key].observation == Some(
                observation,
            ),
{
    let entries = entries_of(policy.chains@);
    let seen = observations_of(entries);
    if seen.contains(observation) {
        let i = choose|i: int| 0 <= i < seen.len() && seen[i] == observation;
        let (position, _) = lemma_observation_sources(entries, i, i);
        lemma_entry(policy.chains@, position);
        assert(policy.chains@[entries[position].0].observation == Some(observation));
    }
    if exists|key: usize|
        policy.chains@.contains_key(key) && #[trigger] policy.chains@[key].observation == Some(
            observation,
        ) {
        let key = choose|key: usize|
            policy.chains@.contains_key(key) && #[trigger] policy.chains@[key].observation == Some(
                observation,
            );
        let position = lemma_position(policy.chains@, key);
        let i = lemma_observation_position(entries, position);
        assert(seen[i] == observation);
    }
}

/// Once a current presentation was sampled, a classification sees the chain as
/// the sample showed it, field by field.
pub proof fn law_a_sample_is_seen_field_by_field(
    before: PolicyState,
    after: PolicyState,
    key: usize,
    id: SwapChainId,
    sequence: u64,
    device: DeviceId,
    method: PresentMethod,
    metadata: NativeMetadata,
) -> (i: int)
    requires
        before.current_present(key, id, sequence),
        after.chains@ == before.chains@.insert(
            key,
            before.chains@[key].observed(device, method, metadata),
        ),
    ensures
        ({
            let seen = observations_of(entries_of(after.chains@));
            &&& 0 <= i < seen.len()
            &&& seen[i].id == id
            &&& seen[i].device == device
            &&& seen[i].present_method == method
            &&& seen[i].size.width == metadata.size.width
            &&& seen[i].size.height == metadata.size.height
            &&& seen[i].format == metadata.format
            &&& seen[i].adapter_luid.low == metadata.adapter_luid.low
            &&& seen[i].adapter_luid.high == metadata.adapter_luid.high
            &&& seen[i].hwnd is Some <==> metadata.hwnd is Some
            &&& seen[i].hwnd is Some ==> seen[i].hwnd->0.value == metadata.hwnd->0
            &&& seen[i].color_space == before.chains@[key].color_space
            &&& seen[i].activity.window_visible == metadata.window_visible
            &&& seen[i].activity.foreground == metadata.foreground
            &&& seen[i].activity.occluded == before.chains@[key].activity.occluded
            &&& seen[i].activity.last_present_sequence == sequence
            &&& seen[i].activity.present_count == before.chains@[key].activity.present_count
            &&& seen[i].activity.consecutive_present_cycles
                == before.chains@[key].activity.consecutive_present_cycles
        }),
{
    let position = lemma_position(after.chains@, key);
    lemma_observation_position(entries_of(after.chains@), position)
}

/// A sample leaves everything of its chain that it does not show: identity,
/// layout, and color space.
pub proof fn law_a_sample_keeps_the_chain(
    chain: TrackedSwapChain,
    device: DeviceId,
    method: PresentMethod,
    metadata: NativeMetadata,
)
    ensures
        ({
            let after = chain.observed(device, method, metadata);
            &&& after.id == chain.id
            &&& after.interface == chain.interface
            &&& after.color_space == chain.color_space
            &&& after.color_space_reported == chain.color_space_reported
            &&& after.activity.window_visible == metadata.window_visible
            &&& after.activity.foreground == metadata.foreground
            &&& after.activity.occluded == chain.activity.occluded
            &&& after.activity.present_count == chain.activity.present_count
            &&& after.activity.last_present_sequence == chain.activity.last_present_sequence
            &&& after.activity.consecutive_present_cycles
                == chain.activity.consecutive_present_cycles
        }),
{
}

/// A chain starts without traffic, without an observation, and with a color
/// space that is unknown and still to be reported.
pub proof fn law_an_attached_chain_is_idle(id: SwapChainId, interface: SwapChainInterface)
    ensures
        ({
            let chain = TrackedSwapChain::attached(id, interface);
            &&& chain.id == id
            &&& chain.interface == interface
            &&& chain.observation is None
            &&& chain.color_space == ColorSpace::Other(0xffff_ffff)
            &&& !chain.color_space_reported
            &&& chain.activity.present_count == 0
            &&& chain.activity.last_present_sequence == 0
            &&& chain.activity.consecutive_present_cycles == 0
            &&& !chain.activity.window_visible
            &&& !chain.activity.foreground
            &&& !chain.activity.occluded
        }),
{
}

/// A presentation counts once, takes its sequence, and changes nothing that a
/// sample, a result, or a color-space change shows. An unknown color space is
/// reported with the first presentation and with no other.
pub proof fn law_a_presentation_counts_once(chain: TrackedSwapChain, sequence: u64)
    ensures
        ({
            let after = chain.presenting(sequence);
            &&& after.id == chain.id
            &&& after.interface == chain.interface
            &&& after.observation == chain.observation
            &&& after.color_space == chain.color_space
            &&& after.activity.last_present_sequence == sequence
            &&& chain.activity.present_count < u64::MAX ==> after.activity.present_count
                == chain.activity.present_count + 1
            &&& chain.activity.present_count == u64::MAX ==> after.activity.present_count
                == u64::MAX
            &&& chain.activity.consecutive_present_cycles < u32::MAX
                ==> after.activity.consecutive_present_cycles
                == chain.activity.consecutive_present_cycles + 1
            &&& chain.activity.consecutive_present_cycles == u32::MAX
                ==> after.activity.consecutive_present_cycles == u32::MAX
            &&& after.activity.window_visible == chain.activity.window_visible
            &&& after.activity.foreground == chain.activity.foreground
            &&& after.activity.occluded == chain.activity.occluded
            &&& chain.unreported_color_space() <==> chain.color_space == ColorSpace::Other(
                0xffff_ffff,
            ) && !chain.color_space_reported
            &&& !after.unreported_color_space()
            &&& chain.color_space_reported ==> after.color_space_reported
            &&& chain.color_space != ColorSpace::Other(0xffff_ffff) ==> after.color_space_reported
                == chain.color_space_reported
        }),
{
}

/// A presentation result shows in the chain and in its observation alike: it is
/// occluded exactly where the result says so. Only a lost device takes the
/// observation away, and then selection is always reconsidered; otherwise it is
/// where the occlusion of an observed chain changed.
pub proof fn law_results_show_occlusion_and_loss(
    chain: TrackedSwapChain,
    disposition: HResultDisposition,
)
    ensures
        ({
            let after = chain.forwarded(disposition);
            let lost = disposition is DeviceRemoved || disposition is DeviceReset;
            let occluded = disposition is Occluded;
            &&& after.activity.occluded == occluded
            &&& after.activity.present_count == chain.activity.present_count
            &&& after.activity.last_present_sequence == chain.activity.last_present_sequence
            &&& after.activity.consecutive_present_cycles
                == chain.activity.consecutive_present_cycles
            &&& after.activity.window_visible == chain.activity.window_visible
            &&& after.activity.foreground == chain.activity.foreground
            &&& after.id == chain.id
            &&& after.interface == chain.interface
            &&& after.color_space == chain.color_space
            &&& after.color_space_reported == chain.color_space_reported
            &&& lost ==> after.observation is None && chain.forwarding_matters(disposition)
            &&& !lost ==> (after.observation is Some <==> chain.observation is Some)
            &&& !lost ==> (chain.forwarding_matters(disposition) <==> chain.observation is Some
                && chain.activity.occluded != occluded)
            &&& after.observation matches Some(seen) ==> {
                let shown = chain.observation->0;
                &&& seen.activity.occluded == occluded
                &&& seen.size == shown.size
                &&& seen.id == shown.id
                &&& seen.hwnd == shown.hwnd
                &&& seen.device == shown.device
                &&& seen.adapter_luid == shown.adapter_luid
                &&& seen.format == shown.format
                &&& seen.color_space == shown.color_space
                &&& seen.present_method == shown.present_method
                &&& seen.activity.present_count == shown.activity.present_count
                &&& seen.activity.last_present_sequence == shown.activity.last_present_sequence
                &&& seen.activity.consecutive_present_cycles
                    == shown.activity.consecutive_present_cycles
                &&& seen.activity.window_visible == shown.activity.window_visible
                &&& seen.activity.foreground == shown.activity.foreground
            }
        }),
{
}

/// A resize takes the observation away and starts the run of presentations
/// anew, and keeps everything else. It concerns a chain whose observation is
/// not newer than the presentation that it captured.
pub proof fn law_a_resize_starts_over(chain: TrackedSwapChain, id: SwapChainId, sequence: u64)
    ensures
        ({
            let after = chain.resized();
            &&& after.observation is None
            &&& after.activity.consecutive_present_cycles == 0
            &&& after.activity.present_count == chain.activity.present_count
            &&& after.activity.last_present_sequence == chain.activity.last_present_sequence
            &&& after.activity.window_visible == chain.activity.window_visible
            &&& after.activity.foreground == chain.activity.foreground
            &&& after.activity.occluded == chain.activity.occluded
            &&& after.id == chain.id
            &&& after.interface == chain.interface
            &&& after.color_space == chain.color_space
            &&& after.color_space_reported == chain.color_space_reported
        }),
        chain.id != id ==> !chain.resize_applies(id, sequence),
        chain.id == id && chain.observation is None ==> chain.resize_applies(id, sequence),
        chain.id == id && chain.observation is Some ==> (chain.resize_applies(id, sequence) <==>
            !(sequence < chain.observation->0.activity.last_present_sequence)),
        sequence <= later(chain.activity.last_present_sequence, sequence),
        chain.activity.last_present_sequence <= later(
            chain.activity.last_present_sequence,
            sequence,
        ),
{
}

/// A color-space change shows in the chain and in its observation alike, and in
/// nothing else.
pub proof fn law_a_color_space_change_is_shown(chain: TrackedSwapChain, color_space: ColorSpace)
    ensures
        ({
            let after = chain.recolored(color_space);
            &&& after.color_space == color_space
            &&& after.color_space_reported
            &&& after.id == chain.id
            &&& after.interface == chain.interface
            &&& after.activity == chain.activity
            &&& after.observation is Some <==> chain.observation is Some
            &&& after.observation matches Some(seen) ==> {
                let shown = chain.observation->0;
                &&& seen.color_space == color_space
                &&& seen.size == shown.size
                &&& seen.id == shown.id
                &&& seen.hwnd == shown.hwnd
                &&& seen.device == shown.device
                &&& seen.adapter_luid == shown.adapter_luid
                &&& seen.format == shown.format
                &&& seen.present_method == shown.present_method
                &&& seen.activity == shown.activity
            }
        }),
        chain.unobserved().observation is None,
        chain.unobserved().activity == chain.activity,
        chain.unobserved().id == chain.id,
        chain.unobserved().color_space == chain.color_space,
{
}

/// A resource generation ends with whatever its resources depend on: the
/// window, the device, the adapter, either side of the extent, the format, or
/// the color space.
pub proof fn law_a_generation_ends_with_its_resources(
    session: Session,
    observation: SwapChainObservation,
)
    ensures
        same_generation(session, observation) <==> {
            let kept = session.observation;
            &&& session.lifecycle is Candidate || session.lifecycle is Primary
            &&& kept.hwnd == observation.hwnd
            &&& kept.device.value == observation.device.value
            &&& kept.adapter_luid.low == observation.adapter_luid.low
            &&& kept.adapter_luid.high == observation.adapter_luid.high
            &&& kept.size.width == observation.size.width
            &&& kept.size.height == observation.size.height
            &&& kept.format == observation.format
            &&& kept.color_space == observation.color_space
        },
{
}

/// Failure policy withholds an observation of the failed generation until its
/// retry is due, or for good once it is disabled, and no other observation.
pub proof fn law_failed_generations_are_withheld(
    sessions: Seq<RegisteredSession>,
    observation: SwapChainObservation,
    sequence: u64,
    session: Session,
)
    requires
        session_of(sessions, observation.id) == Some(session),
        same_generation(session, observation),
    ensures
        session.failure is Healthy ==> withheld(sessions, observation, sequence) is None,
        session.failure is Disabled ==> withheld(sessions, observation, sequence) == Some(
            RenderFailurePolicySuppression::Disabled,
        ),
        session.failure matches StageFailureState::CoolingDown { retry_at_sequence, .. } ==> {
            &&& sequence < retry_at_sequence ==> withheld(sessions, observation, sequence) == Some(
                RenderFailurePolicySuppression::CoolingDown,
            )
            &&& retry_at_sequence <= sequence ==> withheld(sessions, observation, sequence) is None
        },
{
}

/// A chain's session is the first that is registered for it.
pub proof fn law_the_first_session_counts(
    sessions: Seq<RegisteredSession>,
    id: SwapChainId,
    i: int,
)
    requires
        0 <= i < sessions.len(),
        sessions[i].id == id,
        forall|j: int| 0 <= j < i ==> (#[trigger] sessions[j]).id != id,
    ensures
        session_of(sessions, id) == Some(sessions[i].session),
    decreases i,
{
    if i > 0 {
        let rest = sessions.drop_first();
        assert forall|j: int| 0 <= j < i - 1 implies (#[trigger] rest[j]).id != id by {
            assert(rest[j] == sessions[j + 1]);
        }
        law_the_first_session_counts(rest, id, i - 1);
    }
}

/// A chain that is not registered has no session.
pub proof fn law_an_unregistered_chain_has_no_session(
    sessions: Seq<RegisteredSession>,
    id: SwapChainId,
)
    requires
        forall|j: int| 0 <= j < sessions.len() ==> (#[trigger] sessions[j]).id != id,
    ensures
        session_of(sessions, id) is None,
    decreases sessions.len(),
{
    if sessions.len() > 0 {
        let rest = sessions.drop_first();
        assert forall|j: int| 0 <= j < rest.len() implies (#[trigger] rest[j]).id != id by {
            assert(rest[j] == sessions[j + 1]);
        }
        law_an_unregistered_chain_has_no_session(rest, id);
    }
}

/// What is left for a classifier is what failure policy does not withhold.
pub proof fn law_admitted_observations_are_those_not_withheld(
    sessions: Seq<RegisteredSession>,
    observations: Seq<SwapChainObservation>,
    sequence: u64,
    observation: SwapChainObservation,
)
    ensures
        admitted(sessions, observations, sequence).contains(observation) <==> (
        observations.contains(observation) && withheld(sessions, observation, sequence) is None),
        admitted(sessions, observations, sequence).len() <= observations.len(),
    decreases observations.len(),
{
    if observations.len() > 0 {
        let last = observations.last();
        let rest = observations.drop_last();
        let kept = admitted(sessions, rest, sequence);
        law_admitted_observations_are_those_not_withheld(sessions, rest, sequence, observation);
        assert(observations =~= rest.push(last));
        assert(rest.push(last).contains(observation) <==> rest.contains(observation) || observation
            == last) by {
            if rest.contains(observation) {
                let i = rest.index_of(observation);
                assert(rest.push(last)[i] == observation);
            }
            assert(rest.push(last)[rest.len() as int] == last);
        }
        assert(kept.push(last).contains(observation) <==> kept.contains(observation) || observation
            == last) by {
            if kept.contains(observation) {
                let i = kept.index_of(observation);
                assert(kept.push(last)[i] == observation);
            }
            assert(kept.push(last)[kept.len() as int] == last);
        }
    }
}

/// The override is reported as withheld exactly where an observation of its
/// chain is, and in the way that observation is.
pub proof fn law_a_withheld_override_is_reported(
    sessions: Seq<RegisteredSession>,
    observations: Seq<SwapChainObservation>,
    sequence: u64,
    user_override: Option<SwapChainId>,
)
    ensures
        user_override is None ==> override_withheld(
            sessions,
            observations,
            sequence,
            user_override,
        ) is None,
        override_withheld(sessions, observations, sequence, user_override) is Some <==> exists|
            i: int,
        |
            0 <= i < observations.len() && user_override == Some((#[trigger] observations[i]).id)
                && withheld(sessions, observations[i], sequence) is Some,
        override_withheld(sessions, observations, sequence, user_override) matches Some(how)
            ==> exists|i: int|
            0 <= i < observations.len() && user_override == Some((#[trigger] observations[i]).id)
                && withheld(sessions, observations[i], sequence) == Some(how),
    decreases observations.len(),
{
    if observations.len() > 0 {
        let rest = observations.drop_last();
        law_a_withheld_override_is_reported(sessions, rest, sequence, user_override);
        assert(forall|i: int|
            0 <= i < rest.len() ==> #[trigger] observations[i] == rest[i]);
        assert(observations[observations.len() - 1] == observations.last());
        if override_withheld(sessions, rest, sequence, user_override) is Some {
            let i = choose|i: int|
                0 <= i < rest.len() && user_override == Some((#[trigger] rest[i]).id) && withheld(
                    sessions,
                    rest[i],
                    sequence,
                ) == override_withheld(sessions, rest, sequence, user_override);
            assert(observations[i] == rest[i]);
        } else {
            assert forall|i: int| 0 <= i < rest.len() implies !(user_override == Some(
                (#[trigger] observations[i]).id,
            ) && withheld(sessions, observations[i], sequence) is Some) by {
                assert(observations[i] == rest[i]);
            }
        }
    }
}

/// A ticket lapses with each of the things it was given under: the
/// presentation, the selection, the probe, the stage, the generation, and the
/// place of its session.
pub proof fn law_a_ticket_lapses_with_what_it_was_given_under(
    policy: PolicyState,
    ticket: RenderTicket,
    primary: Option<SwapChainId>,
    session: Option<Session>,
)
    ensures
        !policy.chains@.contains_key(ticket.key) ==> !policy.ticket_permitted(
            ticket,
            primary,
            session,
        ),
        policy.chains@.contains_key(ticket.key) ==> (policy.ticket_permitted(
            ticket,
            primary,
            session,
        ) <==> {
            &&& policy.chains@[ticket.key].id == ticket.id
            &&& policy.chains@[ticket.key].activity.last_present_sequence == ticket.sequence
            &&& primary is Some && primary->0 == ticket.id
            &&& policy.render_controls.permits_render_probe
            &&& policy.render_controls.effective_stage == ticket.stage
            &&& session is Some && session->0.generation.value == ticket.generation.value
            &&& session is Some && session->0.lifecycle is Primary
        }),
{
}

/// A render is permitted for the presenting chain alone, while it is selected
/// and the probe and the failure policy allow it, at the stage in force and
/// for the generation and the reason that were given.
pub proof fn law_only_the_selected_presenter_is_rendered(
    policy: PolicyState,
    presenting: Option<SwapChainId>,
    classification: Classification,
    permission: Option<(SessionGeneration, AttemptPermission)>,
)
    ensures
        ({
            let render = policy.permitted_render(presenting, classification, permission);
            &&& render is Some <==> {
                &&& presenting is Some
                &&& classification.selected == presenting
                &&& policy.render_controls.permits_render_probe
                &&& classification.selection_reason is Some
                &&& permission is Some && ((permission->0).1 is Attempt || (permission->0).1 is Retry)
            }
            &&& render is Some ==> {
                &&& render->0.generation == (permission->0).0
                &&& render->0.stage == policy.render_controls.effective_stage
                &&& render->0.reason == classification.selection_reason->0
            }
        }),
{
}

/// A retirement covers its own chain, the generation of the session, and
/// callbacks up to the given sequence; without a session nothing is retired.
pub proof fn law_a_retirement_follows_its_session(
    session: Option<Session>,
    id: SwapChainId,
    sequence: u64,
)
    ensures
        session is None ==> retirement_of(session, id, sequence) is None,
        session is Some ==> (retirement_of(session, id, sequence) matches Some(retirement) && {
            &&& retirement.chain() == id
            &&& retirement.newest_generation() == session->0.generation
            &&& retirement.cutoff() == sequence
        }),
{
    if session is Some {
        crate::dxgi::callbacks::law_a_retirement_keeps_its_parts(
            id,
            session->0.generation,
            sequence,
        );
    }
}

/// A device keeps the identity that it was given first, and a device that was
/// not seen yet takes the next one.
pub proof fn law_a_device_keeps_its_identity(policy: PolicyState, native: usize)
    ensures
        policy.devices@.contains_key(native) ==> policy.device_of(native)
            == policy.devices@[native],
        !policy.devices@.contains_key(native) ==> policy.device_of(native).value
            == policy.next_device_id,
{
}

/// The first chain with an identity is the one with the lowest address.
pub proof fn law_the_first_chain_with_an_identity_counts(
    entries: Seq<(usize, TrackedSwapChain)>,
    id: SwapChainId,
    i: int,
)
    requires
        0 <= i < entries.len(),
        entries[i].1.id == id,
        forall|j: int| 0 <= j < i ==> (#[trigger] entries[j]).1.id != id,
    ensures
        chain_with_id(entries, id) == Some(entries[i].1),
    decreases i,
{
    if i > 0 {
        let rest = entries.drop_first();
        assert forall|j: int| 0 <= j < i - 1 implies (#[trigger] rest[j]).1.id != id by {
            assert(rest[j] == entries[j + 1]);
        }
        law_the_first_chain_with_an_identity_counts(rest, id, i - 1);
    }
}

/// The freshness horizon is one of the sequences that it covers.
pub proof fn law_horizon_is_a_presentation(
    entries: Seq<(usize, TrackedSwapChain)>,
    sequence: u64,
)
    ensures
        latest_of(entries, sequence) == sequence || exists|i: int|
            0 <= i < entries.len() && (#[trigger] entries[i]).1.activity.last_present_sequence
                == latest_of(entries, sequence),
    decreases entries.len(),
{
    if entries.len() > 0 {
        let rest = entries.drop_last();
        law_horizon_is_a_presentation(rest, sequence);
        assert(entries[entries.len() - 1] == entries.last());
        if latest_of(rest, sequence) != sequence {
            let i = choose|i: int|
                0 <= i < rest.len() && (#[trigger] rest[i]).1.activity.last_present_sequence
                    == latest_of(rest, sequence);
            assert(entries[i] == rest[i]);
        }
    }
}

} // verus!
