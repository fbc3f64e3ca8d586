//! The passes of an intercepted call, between one native step and the next.
//!
//! A pass ends where something native has to run: an inspection, a
//! classification, the call itself. The next pass takes what it handed back.
use vstd::prelude::*;
use crate::dxgi::callbacks::SwapChainRetirement;
use crate::dxgi::event::DxgiObservationEvent;
use crate::dxgi::manager::{
    after_present, after_resize, after_set_color_space, begin_present_actions,
    failed_inspection_actions, inspection_failure_actions, law_a_permitted_presentation_is_rendered,
    law_a_returned_call_brings_its_own_retirement, law_a_returned_presentation_is_reported,
    observed_actions,
    observed_present_actions, present_retirement, returned_color_space_actions,
    returned_present_actions, returned_resize_actions, superseded_retirement, Action,
    ResizeInvocation, SelectionChange,
};
use crate::dxgi::policy::{
    retirement_of, swap_chain_retirement, PolicyState, PresentStart, RenderSelectionTransition,
    RenderTicket,
};
use crate::dxgi::sdk::{
    color_space, color_space_of, disposition_of, hresult_disposition, NativeMetadata,
};
use crate::render::{saturating_next, ColorSpace, PresentMethod, Session, SwapChainId};

verus! {

/// How a presentation goes on once it has begun.
#[derive(Clone, Copy, Debug, PartialEq, Eq, Structural)]
pub enum PresentPhase {
    /// The address is not tracked; the call is forwarded and forgotten.
    Untracked,
    /// The render lane is taken; the call is forwarded without an inspection.
    Contended(PresentStart),
    /// The swap chain is to be inspected.
    Inspect(PresentStart),
}

/// Begins an intercepted presentation.
///
/// Only the owner of the render lane inspects and renders, so that the native
/// call never waits for another one.
pub fn before_present(policy: &mut PolicyState, key: usize, owns_render_lane: bool) -> (begun: (
    PresentPhase,
    Vec<Action>,
))
    ensures
        old(policy).coherent() ==> final(policy).coherent(),
        final(policy).sequence == saturating_next(old(policy).sequence),
        *final(policy) == (PolicyState {
            sequence: final(policy).sequence,
            chains: final(policy).chains,
            ..*old(policy)
        }),
        !old(policy).chains@.contains_key(key) ==> {
            &&& begun.0 == PresentPhase::Untracked
            &&& begun.1@ == Seq::<Action>::empty()
            &&& final(policy).chains@ == old(policy).chains@
        },
        begun.0 is Untracked <==> !old(policy).chains@.contains_key(key),
        begun.0 matches PresentPhase::Inspect(start) ==> owns_render_lane
            && final(policy).current_present(key, start.id, start.sequence),
        begun.0 matches PresentPhase::Contended(start) ==> !owns_render_lane
            && final(policy).current_present(key, start.id, start.sequence),
        old(policy).chains@.contains_key(key) ==> {
            let before = old(policy).chains@[key];
            let start = PresentStart {
                id: before.id,
                interface: before.interface,
                sequence: final(policy).sequence,
                report_unknown_color: before.unreported_color_space(),
            };
            &&& begun.0 == if owns_render_lane {
                PresentPhase::Inspect(start)
            } else {
                PresentPhase::Contended(start)
            }
            &&& begun.1@ == if start.report_unknown_color {
                seq![
                    Action::Observe(
                        crate::dxgi::event::DxgiObservationEvent::MetadataIncomplete {
                            swap_chain: start.id,
                            field: crate::dxgi::event::ObservationField::ColorSpace,
                        },
                    ),
                ]
            } else {
                Seq::<Action>::empty()
            }
            &&& final(policy).chains@ == old(policy).chains@.insert(
                key,
                before.presenting(final(policy).sequence),
            )
        },
{
    match policy.begin_present(key) {
        None => (PresentPhase::Untracked, Vec::new()),
        Some(start) => {
            let actions = begin_present_actions(start);
            if owns_render_lane {
                (PresentPhase::Inspect(start), actions)
            } else {
                (PresentPhase::Contended(start), actions)
            }
        },
    }
}

/// How a presentation goes on once its swap chain was inspected.
#[derive(Clone, Copy, Debug, PartialEq, Eq, Structural)]
pub enum InspectionPhase {
    /// A newer presentation overtook this one; the call is forwarded.
    Overtaken,
    /// The selection is to be reconsidered for this presenting chain, if it was
    /// observed, at this horizon.
    Reconcile {
        /// Chain that may render.
        presenting: Option<SwapChainId>,
        /// Policy sequence of the pass.
        horizon: u64,
    },
}

/// Records what an inspection handed back.
///
/// An observed chain may render. A failed inspection drops the chain's
/// observation, and nothing of a presentation that was overtaken is recorded.
pub fn after_inspection(
    policy: &mut PolicyState,
    key: usize,
    start: PresentStart,
    method: PresentMethod,
    result: Result<NativeMetadata, i32>,
) -> (phase: InspectionPhase)
    ensures
        old(policy).coherent() ==> final(policy).coherent(),
        final(policy).sequence == old(policy).sequence,
        final(policy).selection_sequence == old(policy).selection_sequence,
        final(policy).render_controls == old(policy).render_controls,
        final(policy).next_swap_chain_id == old(policy).next_swap_chain_id,
        !old(policy).current_present(key, start.id, start.sequence) ==> phase
            == InspectionPhase::Overtaken && *final(policy) == *old(policy),
        old(policy).current_present(key, start.id, start.sequence) ==> match result {
            Ok(metadata) => {
                let device = old(policy).device_of(metadata.device_identity);
                &&& phase == InspectionPhase::Reconcile {
                    presenting: Some(start.id),
                    horizon: old(policy).sequence,
                }
                &&& final(policy).chains@ == old(policy).chains@.insert(
                    key,
                    old(policy).chains@[key].observed(device, method, metadata),
                )
                &&& final(policy).devices@ == old(policy).devices@.insert(
                    metadata.device_identity,
                    device,
                )
                &&& final(policy).next_device_id == if old(policy).devices@.contains_key(
                    metadata.device_identity,
                ) {
                    old(policy).next_device_id
                } else {
                    saturating_next(old(policy).next_device_id)
                }
            },
            Err(_) => {
                &&& phase == InspectionPhase::Reconcile {
                    presenting: None,
                    horizon: old(policy).sequence,
                }
                &&& final(policy).only_chains_differ(*old(policy))
                &&& final(policy).chains@ == old(policy).chains@.insert(
                    key,
                    old(policy).chains@[key].unobserved(),
                )
            },
        },
{
    match result {
        Ok(metadata) => {
            if policy.observe_present(key, start.id, start.sequence, method, metadata) {
                InspectionPhase::Reconcile {
                    presenting: Some(start.id),
                    horizon: policy.sequence,
                }
            } else {
                InspectionPhase::Overtaken
            }
        },
        Err(_) => {
            if policy.invalidate_observation(key, start.id, start.sequence) {
                InspectionPhase::Reconcile { presenting: None, horizon: policy.sequence }
            } else {
                InspectionPhase::Overtaken
            }
        },
    }
}

/// Numbers the selection of an observed presentation and returns what it does.
pub fn finish_observed_present(
    policy: &mut PolicyState,
    key: usize,
    start: PresentStart,
    method: PresentMethod,
    transition: RenderSelectionTransition,
    session: Option<Session>,
) -> (actions: Vec<Action>)
    ensures
        old(policy).coherent() ==> final(policy).coherent(),
        *final(policy) == (PolicyState {
            selection_sequence: saturating_next(old(policy).selection_sequence),
            ..*old(policy)
        }),
        final(policy).selection_sequence >= old(policy).selection_sequence,
        forall|ticket: RenderTicket| #[trigger]
            actions@.contains(Action::Render(ticket)) ==> {
                &&& transition.render is Some
                &&& ticket.key == key
                &&& ticket.id == start.id
                &&& ticket.method == method
                &&& ticket.sequence == start.sequence
                &&& ticket.generation == transition.render->0.generation
                &&& ticket.stage == transition.render->0.stage
                &&& ticket.transition_sequence == final(policy).selection_sequence
            },
        actions@ == observed_actions(
            key,
            start,
            method,
            saturating_next(old(policy).selection_sequence),
            transition,
            session,
        ),
{
    let sequence: u64 = policy.next_selection_sequence();
    proof {
        assert forall|ticket: RenderTicket| #[trigger]
            observed_actions(key, start, method, sequence, transition, session).contains(
                Action::Render(ticket),
            ) implies transition.render is Some && ticket.key == key && ticket.id == start.id
            && ticket.method == method && ticket.sequence == start.sequence && ticket.generation
            == transition.render->0.generation && ticket.stage == transition.render->0.stage
            && ticket.transition_sequence == sequence by {
            law_a_permitted_presentation_is_rendered(
                key,
                start,
                method,
                sequence,
                transition,
                session,
                ticket,
            );
        }
    }
    observed_present_actions(key, start, method, sequence, transition, session)
}

/// Numbers the selection that follows a failed inspection and returns what the
/// failure does. `transition` is absent when the presentation was overtaken.
pub fn finish_failed_inspection(
    policy: &mut PolicyState,
    start: PresentStart,
    code: i32,
    transition: Option<RenderSelectionTransition>,
    session: Option<Session>,
) -> (actions: Vec<Action>)
    ensures
        old(policy).coherent() ==> final(policy).coherent(),
        transition is None ==> *final(policy) == *old(policy),
        transition is Some ==> *final(policy) == (PolicyState {
            selection_sequence: saturating_next(old(policy).selection_sequence),
            ..*old(policy)
        }),
        actions@ == failed_inspection_actions(
            start.id,
            code,
            match transition {
                None => None,
                Some(applied) => Some(
                    SelectionChange {
                        sequence: saturating_next(old(policy).selection_sequence),
                        transition: applied,
                        retirement: retirement_of(session, start.id, start.sequence),
                    },
                ),
            },
        ),
{
    let change = match transition {
        None => None,
        Some(applied) => {
            let sequence: u64 = policy.next_selection_sequence();
            let retirement = swap_chain_retirement(session, start.id, start.sequence);
            Some(SelectionChange { sequence, transition: applied, retirement })
        },
    };
    inspection_failure_actions(start.id, code, change)
}

/// Records how a presentation returned. The horizon of a selection pass is
/// returned when the selection has to be reconsidered.
pub fn present_returned(
    policy: &mut PolicyState,
    key: usize,
    id: SwapChainId,
    sequence: u64,
    result: i32,
) -> (horizon: Option<u64>)
    ensures
        old(policy).coherent() ==> final(policy).coherent(),
        !old(policy).current_present(key, id, sequence) ==> horizon is None && *final(policy)
            == *old(policy),
        old(policy).current_present(key, id, sequence) ==> {
            let disposition = disposition_of(result);
            &&& horizon == if old(policy).chains@[key].forwarding_matters(disposition) {
                Some(old(policy).sequence)
            } else {
                None
            }
            &&& final(policy).only_chains_differ(*old(policy))
            &&& final(policy).chains@ == old(policy).chains@.insert(
                key,
                old(policy).chains@[key].forwarded(disposition),
            )
        },
{
    let disposition = hresult_disposition(result);
    if policy.record_present_result(key, id, sequence, disposition) {
        Some(policy.sequence)
    } else {
        None
    }
}

/// A reconsidered selection, with what classifier and registry hold after it.
#[derive(Clone, Debug, PartialEq, Eq)]
pub struct Reconsidered {
    /// What the selection changed.
    pub transition: RenderSelectionTransition,
    /// The classifier's present choice.
    pub current_primary: Option<SwapChainId>,
    /// What the registry holds of the chain concerned.
    pub session: Option<Session>,
}

/// Numbers the selection that follows a returned presentation, if there was
/// one, and returns what the presentation does.
pub fn finish_present(
    policy: &mut PolicyState,
    id: SwapChainId,
    method: PresentMethod,
    sequence: u64,
    result: i32,
    reconsidered: Option<Reconsidered>,
    owns_render_lane: bool,
) -> (actions: Vec<Action>)
    ensures
        old(policy).coherent() ==> final(policy).coherent(),
        reconsidered is None ==> *final(policy) == *old(policy),
        reconsidered is Some ==> *final(policy) == (PolicyState {
            selection_sequence: saturating_next(old(policy).selection_sequence),
            ..*old(policy)
        }),
        actions@.len() > 0 && actions@[0] == Action::Observe(
            DxgiObservationEvent::PresentForwarded {
                swap_chain: id,
                method,
                sequence,
                result: disposition_of(result),
            },
        ),
        forall|retirement: SwapChainRetirement| #[trigger]
            actions@.contains(Action::Retire(retirement)) ==> {
                &&& owns_render_lane
                &&& reconsidered is Some && reconsidered->0.current_primary != Some(id)
                &&& retirement.chain() == id
                &&& retirement.cutoff() == sequence
            },
        actions@ == returned_present_actions(
            id,
            method,
            sequence,
            result,
            match reconsidered {
                None => None,
                Some(pass) => Some(
                    SelectionChange {
                        sequence: saturating_next(old(policy).selection_sequence),
                        transition: pass.transition,
                        retirement: if pass.current_primary == Some(id) {
                            None
                        } else {
                            retirement_of(pass.session, id, sequence)
                        },
                    },
                ),
            },
            owns_render_lane,
        ),
{
    let change = match reconsidered {
        None => None,
        Some(pass) => {
            let retirement = present_retirement(pass.current_primary, pass.session, id, sequence);
            let number: u64 = policy.next_selection_sequence();
            Some(SelectionChange { sequence: number, transition: pass.transition, retirement })
        },
    };
    proof {
        law_a_returned_presentation_is_reported(
            id,
            method,
            sequence,
            result,
            change,
            owns_render_lane,
        );
        assert forall|retirement: SwapChainRetirement| #[trigger]
            returned_present_actions(
                id,
                method,
                sequence,
                result,
                change,
                owns_render_lane,
            ).contains(Action::Retire(retirement)) implies owns_render_lane && change is Some
            && change->0.retirement == Some(retirement) by {
            law_a_returned_call_brings_its_own_retirement(
                0,
                arbitrary(),
                id,
                method,
                sequence,
                arbitrary(),
                result,
                change,
                owns_render_lane,
                false,
                retirement,
            );
        }
    }
    after_present(id, method, sequence, result, change, owns_render_lane)
}

/// A resize that took effect.
#[derive(Clone, Copy, Debug, PartialEq, Eq, Structural)]
pub struct AppliedResize {
    /// Cutoff for the chain's renderer state.
    pub cutoff: u64,
    /// Policy sequence of the selection pass that follows.
    pub horizon: u64,
}

/// Records how a resize returned. A failed or overtaken resize changes nothing.
pub fn resize_returned(
    policy: &mut PolicyState,
    key: usize,
    invocation: ResizeInvocation,
    result: i32,
) -> (applied: Option<AppliedResize>)
    ensures
        old(policy).coherent() ==> final(policy).coherent(),
        applied is Some <==> result >= 0 && old(policy).chains@.contains_key(key)
            && old(policy).chains@[key].resize_applies(invocation.id, invocation.present_sequence),
        applied is None ==> *final(policy) == *old(policy),
        applied matches Some(resize) ==> {
            &&& final(policy).chains@[key].observation is None
            &&& resize.cutoff >= invocation.present_sequence
            &&& resize.cutoff >= old(policy).chains@[key].activity.last_present_sequence
            &&& resize.cutoff == crate::render::later(
                old(policy).chains@[key].activity.last_present_sequence,
                invocation.present_sequence,
            )
            &&& resize.horizon == old(policy).sequence
            &&& final(policy).only_chains_differ(*old(policy))
            &&& final(policy).chains@ == old(policy).chains@.insert(
                key,
                old(policy).chains@[key].resized(),
            )
        },
{
    if result < 0 {
        return None;
    }
    match policy.complete_resize(key, invocation.id, invocation.present_sequence) {
        None => None,
        Some(cutoff) => Some(AppliedResize { cutoff, horizon: policy.sequence }),
    }
}

/// Numbers the selection that follows a resize that took effect, and returns
/// what the resize does. `before` is what the registry held of the chain
/// before the selection was reconsidered.
pub fn finish_resize(
    policy: &mut PolicyState,
    key: usize,
    invocation: ResizeInvocation,
    result: i32,
    applied: Option<(AppliedResize, RenderSelectionTransition, Option<Session>)>,
    owns_render_lane: bool,
    has_renderer: bool,
) -> (actions: Vec<Action>)
    ensures
        old(policy).coherent() ==> final(policy).coherent(),
        applied is None ==> *final(policy) == *old(policy),
        applied is Some ==> *final(policy) == (PolicyState {
            selection_sequence: saturating_next(old(policy).selection_sequence),
            ..*old(policy)
        }),
        forall|retirement: SwapChainRetirement| #[trigger]
            actions@.contains(Action::Retire(retirement)) ==> {
                &&& owns_render_lane
                &&& applied is Some
                &&& retirement.chain() == invocation.id
                &&& retirement.cutoff() == (applied->0).0.cutoff
            },
        actions@ == returned_resize_actions(
            key,
            invocation,
            result,
            match applied {
                None => None,
                Some((resize, transition, before)) => Some(
                    SelectionChange {
                        sequence: saturating_next(old(policy).selection_sequence),
                        transition,
                        retirement: retirement_of(before, invocation.id, resize.cutoff),
                    },
                ),
            },
            owns_render_lane,
            has_renderer,
        ),
{
    let change = match applied {
        None => None,
        Some((resize, transition, before)) => {
            let retirement = swap_chain_retirement(before, invocation.id, resize.cutoff);
            let number: u64 = policy.next_selection_sequence();
            Some(SelectionChange { sequence: number, transition, retirement })
        },
    };
    proof {
        assert forall|retirement: SwapChainRetirement| #[trigger]
            returned_resize_actions(
                key,
                invocation,
                result,
                change,
                owns_render_lane,
                has_renderer,
            ).contains(Action::Retire(retirement)) implies owns_render_lane && change is Some
            && change->0.retirement == Some(retirement) by {
            law_a_returned_call_brings_its_own_retirement(
                key,
                invocation,
                invocation.id,
                PresentMethod::Present,
                0,
                arbitrary(),
                result,
                change,
                owns_render_lane,
                has_renderer,
                retirement,
            );
        }
    }
    after_resize(key, invocation, result, change, owns_render_lane, has_renderer)
}

/// A color-space change of a tracked chain.
#[derive(Clone, Copy, Debug, PartialEq, Eq, Structural)]
pub struct ColorSpaceChange {
    /// Chain concerned.
    pub id: SwapChainId,
    /// Requested color space.
    pub requested: ColorSpace,
    /// Color space in force after the call.
    pub active: ColorSpace,
    /// Horizon of the selection pass that an observed chain calls for.
    pub horizon: Option<u64>,
}

/// Records how a color-space change returned.
pub fn color_space_returned(policy: &mut PolicyState, key: usize, requested: i32, result: i32) -> (change:
    Option<ColorSpaceChange>)
    ensures
        old(policy).coherent() ==> final(policy).coherent(),
        change is Some <==> old(policy).chains@.contains_key(key),
        (change is None || result < 0) ==> *final(policy) == *old(policy),
        change matches Some(applied) ==> {
            let before = old(policy).chains@[key];
            &&& applied.id == before.id
            &&& applied.requested == color_space_of(requested)
            &&& result < 0 ==> applied.active == before.color_space && applied.horizon is None
            &&& result >= 0 ==> applied.active == applied.requested
                && final(policy).chains@[key].color_space == applied.active
            &&& applied == (ColorSpaceChange {
                id: before.id,
                requested: color_space_of(requested),
                active: if result >= 0 {
                    color_space_of(requested)
                } else {
                    before.color_space
                },
                horizon: if result >= 0 && before.observation is Some {
                    Some(old(policy).sequence)
                } else {
                    None
                },
            })
            &&& result >= 0 ==> {
                &&& final(policy).only_chains_differ(*old(policy))
                &&& final(policy).chains@ == old(policy).chains@.insert(
                    key,
                    before.recolored(color_space_of(requested)),
                )
            }
        },
{
    let translated = color_space(requested);
    match policy.record_color_space(key, translated, result >= 0) {
        None => None,
        Some((id, active, changed)) => {
            let horizon = if changed {
                Some(policy.sequence)
            } else {
                None
            };
            Some(ColorSpaceChange { id, requested: translated, active, horizon })
        },
    }
}

/// Numbers the selection that follows a color-space change, if there was one,
/// and returns what the change does. `previous` is the cutoff of the chain
/// that was primary before.
pub fn finish_color_space(
    policy: &mut PolicyState,
    change: ColorSpaceChange,
    result: i32,
    previous: Option<SwapChainRetirement>,
    reconsidered: Option<Reconsidered>,
    owns_render_lane: bool,
) -> (actions: Vec<Action>)
    ensures
        old(policy).coherent() ==> final(policy).coherent(),
        reconsidered is None ==> *final(policy) == *old(policy),
        reconsidered is Some ==> *final(policy) == (PolicyState {
            selection_sequence: saturating_next(old(policy).selection_sequence),
            ..*old(policy)
        }),
        actions@ == returned_color_space_actions(
            change.id,
            change.requested,
            change.active,
            result,
            match reconsidered {
                None => None,
                Some(pass) => Some(
                    SelectionChange {
                        sequence: saturating_next(old(policy).selection_sequence),
                        transition: pass.transition,
                        retirement: match previous {
                            None => None,
                            Some(cutoff) => if pass.current_primary != Some(cutoff.chain())
                                || pass.session is None || pass.session->0.generation
                                != cutoff.newest_generation() {
                                Some(cutoff)
                            } else {
                                None
                            },
                        },
                    },
                ),
            },
            owns_render_lane,
        ),
{
    let selection = match reconsidered {
        None => None,
        Some(pass) => {
            let retirement = superseded_retirement(previous, pass.current_primary, pass.session);
            let number: u64 = policy.next_selection_sequence();
            Some(SelectionChange { sequence: number, transition: pass.transition, retirement })
        },
    };
    after_set_color_space(
        change.id,
        change.requested,
        change.active,
        result,
        selection,
        owns_render_lane,
    )
}

/// Applied selections are numbered in the order in which they are applied: of
/// two passes that each apply one, the later has the greater number.
pub proof fn law_selections_are_numbered_in_order(
    before: PolicyState,
    between: PolicyState,
    after: PolicyState,
)
    requires
        between.selection_sequence == saturating_next(before.selection_sequence),
        after.selection_sequence == saturating_next(between.selection_sequence),
        between.selection_sequence < u64::MAX,
    ensures
        before.selection_sequence < between.selection_sequence < after.selection_sequence,
{
}

/// A stale resize completion leaves the newer observation of its chain alone.
pub proof fn law_stale_resize_is_ignored(
    policy: PolicyState,
    key: usize,
    invocation: ResizeInvocation,
)
    requires
        policy.chains@.contains_key(key),
        policy.chains@[key].observation matches Some(observation)
            && observation.activity.last_present_sequence > invocation.present_sequence,
    ensures
        !policy.chains@[key].resize_applies(invocation.id, invocation.present_sequence),
{
}

} // verus!
