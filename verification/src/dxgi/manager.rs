//! What a manager does around each intercepted call, as values.
//!
//! The native call, the classifier and the renderer run elsewhere. The
//! functions here take what they handed back and return, in order, what is to
//! be emitted, rendered and retired.
use vstd::prelude::*;
use crate::dxgi::callbacks::{
    DiagnosticEvent, FailureCode, InternalFailure, PresentFrame, RenderCallbackError,
    RenderOperation, ResizeFrame, SwapChainOperation, SwapChainRetirement,
};
use crate::dxgi::error::DxgiError;
use crate::dxgi::event::{
    Boundary, DxgiObservationEvent, ObjectKind, ObservationField, ShutdownReport,
};
use crate::dxgi::policy::{
    chain_with_id, device_lost, is_device_lost, retirement_of, swap_chain_retirement, PolicyState,
    PresentStart, RenderSelectionTransition, RenderTicket,
};
use crate::dxgi::sdk::{disposition_of, format_of, hresult_disposition, raw_surface_format};
use crate::hook::error::VtableError;
use crate::ordered::entries_of;
use crate::render::{ColorSpace, Extent2D, PresentMethod, Session, SurfaceFormat, SwapChainId};

verus! {

/// One thing to do, in the order in which it is listed.
#[derive(Clone, Debug, PartialEq, Eq)]
pub enum Action {
    /// Emit an observation.
    Observe(DxgiObservationEvent),
    /// Emit a diagnostic.
    Diagnose(DiagnosticEvent),
    /// Render under a ticket.
    Render(RenderTicket),
    /// Retire renderer state now.
    Retire(SwapChainRetirement),
    /// Queue the retirement until the render lane is free.
    Defer(SwapChainRetirement),
    /// Let the renderer recreate what a resize released.
    CompleteResize(ResizeFrame),
}

/// A selection that was applied, with its number.
#[derive(Clone, Debug, PartialEq, Eq)]
pub struct SelectionChange {
    /// Number of the selection.
    pub sequence: u64,
    /// What the selection changed.
    pub transition: RenderSelectionTransition,
    /// Renderer state that the selection leaves behind.
    pub retirement: Option<SwapChainRetirement>,
}

/// The event that reports a selection: the resolved state if there is one,
/// else the diagnostic if there is one.
pub open spec fn selection_event(
    sequence: u64,
    transition: RenderSelectionTransition,
) -> Seq<Action> {
    match (transition.resolved, transition.deferred) {
        (Some(resolution), _) => seq![
            Action::Observe(DxgiObservationEvent::RenderSelectionResolved { sequence, resolution }),
        ],
        (None, Some(diagnostic)) => seq![
            Action::Observe(DxgiObservationEvent::RenderSelectionDeferred { sequence, diagnostic }),
        ],
        (None, None) => Seq::empty(),
    }
}

fn push_selection_event(
    actions: &mut Vec<Action>,
    sequence: u64,
    transition: RenderSelectionTransition,
)
    ensures
        final(actions)@ == old(actions)@ + selection_event(sequence, transition),
{
    let ghost before = actions@;
    let ghost event = selection_event(sequence, transition);
    if let Some(resolution) = transition.resolved {
        actions.push(
            Action::Observe(DxgiObservationEvent::RenderSelectionResolved { sequence, resolution }),
        );
    } else if let Some(diagnostic) = transition.deferred {
        actions.push(
            Action::Observe(DxgiObservationEvent::RenderSelectionDeferred { sequence, diagnostic }),
        );
    }
    assert(actions@ =~= before + event);
}

/// How renderer state is retired: at once by the owner of the render lane, else later.
pub open spec fn retirement_action(
    retirement: Option<SwapChainRetirement>,
    owns_render_lane: bool,
) -> Seq<Action> {
    match retirement {
        None => Seq::empty(),
        Some(cutoff) => if owns_render_lane {
            seq![Action::Retire(cutoff)]
        } else {
            seq![Action::Defer(cutoff)]
        },
    }
}

fn push_retirement(
    actions: &mut Vec<Action>,
    retirement: Option<SwapChainRetirement>,
    owns_render_lane: bool,
)
    ensures
        final(actions)@ == old(actions)@ + retirement_action(retirement, owns_render_lane),
{
    let ghost before = actions@;
    if let Some(cutoff) = retirement {
        if owns_render_lane {
            actions.push(Action::Retire(cutoff));
        } else {
            actions.push(Action::Defer(cutoff));
        }
    }
    assert(actions@ =~= before + retirement_action(retirement, owns_render_lane));
}

/// The actions of an applied selection.
pub open spec fn change_actions(
    change: Option<SelectionChange>,
    owns_render_lane: bool,
) -> Seq<Action> {
    match change {
        None => Seq::empty(),
        Some(applied) => selection_event(applied.sequence, applied.transition) + retirement_action(
            applied.retirement,
            owns_render_lane,
        ),
    }
}

fn push_change(actions: &mut Vec<Action>, change: Option<SelectionChange>, owns_render_lane: bool)
    ensures
        final(actions)@ == old(actions)@ + change_actions(change, owns_render_lane),
{
    let ghost before = actions@;
    match change {
        None => {},
        Some(applied) => {
            let retirement = applied.retirement;
            push_selection_event(actions, applied.sequence, applied.transition);
            push_retirement(actions, retirement, owns_render_lane);
        },
    }
    assert(actions@ =~= before + change_actions(change, owns_render_lane));
}

/// Returns what a begun presentation reports before it is inspected.
pub fn begin_present_actions(start: PresentStart) -> (actions: Vec<Action>)
    ensures
        actions@ == if start.report_unknown_color {
            seq![
                Action::Observe(
                    DxgiObservationEvent::MetadataIncomplete {
                        swap_chain: start.id,
                        field: ObservationField::ColorSpace,
                    },
                ),
            ]
        } else {
            Seq::<Action>::empty()
        },
{
    let mut actions: Vec<Action> = Vec::new();
    if start.report_unknown_color {
        actions.push(
            Action::Observe(
                DxgiObservationEvent::MetadataIncomplete {
                    swap_chain: start.id,
                    field: ObservationField::ColorSpace,
                },
            ),
        );
    }
    assert(actions@ =~= if start.report_unknown_color {
        seq![
            Action::Observe(
                DxgiObservationEvent::MetadataIncomplete {
                    swap_chain: start.id,
                    field: ObservationField::ColorSpace,
                },
            ),
        ]
    } else {
        Seq::<Action>::empty()
    });
    actions
}

/// The ticket of a permitted render.
pub open spec fn ticket_of(
    key: usize,
    start: PresentStart,
    method: PresentMethod,
    sequence: u64,
    transition: RenderSelectionTransition,
) -> Option<RenderTicket> {
    match transition.render {
        None => None,
        Some(permit) => Some(
            RenderTicket {
                key,
                id: start.id,
                method,
                sequence: start.sequence,
                generation: permit.generation,
                stage: permit.stage,
                reason: permit.reason,
                transition_sequence: sequence,
            },
        ),
    }
}

/// What an observed presentation does: it reports the selection, then renders,
/// or retires the chain's renderer state when it may not render.
pub open spec fn observed_actions(
    key: usize,
    start: PresentStart,
    method: PresentMethod,
    sequence: u64,
    transition: RenderSelectionTransition,
    session: Option<Session>,
) -> Seq<Action> {
    selection_event(sequence, transition) + match ticket_of(
        key,
        start,
        method,
        sequence,
        transition,
    ) {
        Some(ticket) => if key == 0 {
            Seq::empty()
        } else {
            seq![Action::Render(ticket)]
        },
        None => retirement_action(retirement_of(session, start.id, start.sequence), true),
    }
}

/// Returns what an observed presentation does. It owns the render lane.
///
/// `session` is what the registry holds of the presenting chain.
pub fn observed_present_actions(
    key: usize,
    start: PresentStart,
    method: PresentMethod,
    sequence: u64,
    transition: RenderSelectionTransition,
    session: Option<Session>,
) -> (actions: Vec<Action>)
    ensures
        actions@ == observed_actions(key, start, method, sequence, transition, session),
{
    let mut actions: Vec<Action> = Vec::new();
    let render = transition.render;
    let ghost ticket = ticket_of(key, start, method, sequence, transition);
    let ghost event = selection_event(sequence, transition);
    push_selection_event(&mut actions, sequence, transition);
    assert(actions@ =~= event);
    match render {
        Some(permit) => {
            if key != 0 {
                actions.push(
                    Action::Render(
                        RenderTicket {
                            key,
                            id: start.id,
                            method,
                            sequence: start.sequence,
                            generation: permit.generation,
                            stage: permit.stage,
                            reason: permit.reason,
                            transition_sequence: sequence,
                        },
                    ),
                );
            }
        },
        None => {
            let retirement = swap_chain_retirement(session, start.id, start.sequence);
            push_retirement(&mut actions, retirement, true);
        },
    }
    assert(actions@ =~= observed_actions(key, start, method, sequence, transition, session));
    actions
}

/// What a failed inspection does. `change` is absent when a newer presentation
/// overtook the inspection.
pub open spec fn failed_inspection_actions(
    id: SwapChainId,
    code: i32,
    change: Option<SelectionChange>,
) -> Seq<Action> {
    seq![
        Action::Diagnose(
            DiagnosticEvent::SwapChainFailure {
                swap_chain: Some(id),
                operation: SwapChainOperation::Inspect,
                code: FailureCode::HResult(code),
            },
        ),
    ] + change_actions(change, true)
}

/// Returns what a failed inspection does. It owns the render lane.
pub fn inspection_failure_actions(
    id: SwapChainId,
    code: i32,
    change: Option<SelectionChange>,
) -> (actions: Vec<Action>)
    ensures
        actions@ == failed_inspection_actions(id, code, change),
{
    let mut actions: Vec<Action> = Vec::new();
    actions.push(
        Action::Diagnose(
            DiagnosticEvent::SwapChainFailure {
                swap_chain: Some(id),
                operation: SwapChainOperation::Inspect,
                code: FailureCode::HResult(code),
            },
        ),
    );
    push_change(&mut actions, change, true);
    assert(actions@ =~= failed_inspection_actions(id, code, change));
    actions
}

/// Returns the retirement that a returned presentation calls for: none while
/// the chain is still the classifier's choice.
pub fn present_retirement(
    current_primary: Option<SwapChainId>,
    session: Option<Session>,
    id: SwapChainId,
    sequence: u64,
) -> (retirement: Option<SwapChainRetirement>)
    ensures
        retirement is Some <==> current_primary != Some(id) && session is Some,
        retirement matches Some(cutoff) ==> cutoff.chain() == id && cutoff.newest_generation()
            == session->0.generation && cutoff.cutoff() == sequence,
        retirement == if current_primary == Some(id) {
            None
        } else {
            retirement_of(session, id, sequence)
        },
{
    if current_primary == Some(id) {
        None
    } else {
        swap_chain_retirement(session, id, sequence)
    }
}

/// What a returned presentation does.
pub open spec fn returned_present_actions(
    id: SwapChainId,
    method: PresentMethod,
    sequence: u64,
    result: i32,
    change: Option<SelectionChange>,
    owns_render_lane: bool,
) -> Seq<Action> {
    let disposition = disposition_of(result);
    let forwarded = seq![
        Action::Observe(
            DxgiObservationEvent::PresentForwarded {
                swap_chain: id,
                method,
                sequence,
                result: disposition,
            },
        ),
    ];
    let lost = if device_lost(disposition) {
        seq![
            Action::Diagnose(
                DiagnosticEvent::SwapChainFailure {
                    swap_chain: Some(id),
                    operation: SwapChainOperation::Present,
                    code: FailureCode::Internal(InternalFailure::DeviceLost),
                },
            ),
        ]
    } else {
        Seq::empty()
    };
    forwarded + lost + change_actions(change, owns_render_lane)
}

/// Returns what a returned presentation does.
pub fn after_present(
    id: SwapChainId,
    method: PresentMethod,
    sequence: u64,
    result: i32,
    change: Option<SelectionChange>,
    owns_render_lane: bool,
) -> (actions: Vec<Action>)
    ensures
        actions@ == returned_present_actions(
            id,
            method,
            sequence,
            result,
            change,
            owns_render_lane,
        ),
{
    let disposition = hresult_disposition(result);
    let mut actions: Vec<Action> = Vec::new();
    actions.push(
        Action::Observe(
            DxgiObservationEvent::PresentForwarded {
                swap_chain: id,
                method,
                sequence,
                result: disposition,
            },
        ),
    );
    if is_device_lost(disposition) {
        actions.push(
            Action::Diagnose(
                DiagnosticEvent::SwapChainFailure {
                    swap_chain: Some(id),
                    operation: SwapChainOperation::Present,
                    code: FailureCode::Internal(InternalFailure::DeviceLost),
                },
            ),
        );
    }
    push_change(&mut actions, change, owns_render_lane);
    assert(actions@ =~= returned_present_actions(
        id,
        method,
        sequence,
        result,
        change,
        owns_render_lane,
    ));
    actions
}

/// A resize in flight.
#[derive(Clone, Copy, Debug, PartialEq, Eq, Structural)]
pub struct ResizeInvocation {
    /// Chain being resized.
    pub id: SwapChainId,
    /// Latest presentation when the resize began.
    pub present_sequence: u64,
    /// Requested extent.
    pub requested_size: Extent2D,
    /// Requested format.
    pub requested_format: SurfaceFormat,
    /// Whether the renderer released its resources.
    pub renderer_prepared: bool,
}

/// The invocation of a resize, before the renderer was asked.
pub open spec fn resize_invocation(
    policy: PolicyState,
    key: usize,
    width: u32,
    height: u32,
    format: i32,
) -> ResizeInvocation {
    ResizeInvocation {
        id: policy.chains@[key].id,
        present_sequence: policy.chains@[key].activity.last_present_sequence,
        requested_size: Extent2D { width, height },
        requested_format: format_of(format),
        renderer_prepared: false,
    }
}

/// The frame that a renderer is handed for a resize.
pub open spec fn resize_frame(key: usize, invocation: ResizeInvocation) -> ResizeFrame {
    ResizeFrame {
        swap_chain: key,
        id: invocation.id,
        requested_size: invocation.requested_size,
        requested_format: invocation.requested_format,
    }
}

/// Begins a resize of a tracked chain, and says which frame the renderer has to
/// prepare. The renderer is asked only by the owner of the render lane.
pub fn before_resize(
    policy: &PolicyState,
    key: usize,
    width: u32,
    height: u32,
    format: i32,
    owns_render_lane: bool,
    has_renderer: bool,
) -> (begun: Option<(ResizeInvocation, Option<ResizeFrame>)>)
    ensures
        begun is Some <==> policy.chains@.contains_key(key),
        begun matches Some((invocation, frame)) ==> {
            &&& invocation.id == policy.chains@[key].id
            &&& invocation.requested_size.width == width
            &&& invocation.requested_size.height == height
            &&& frame is Some <==> owns_render_lane && has_renderer && key != 0
            &&& frame matches Some(shown) ==> shown.swap_chain == key && shown.id == invocation.id
                && shown.requested_size.width == width && shown.requested_size.height == height
            &&& invocation == resize_invocation(*policy, key, width, height, format)
            &&& frame == if owns_render_lane && has_renderer && key != 0 {
                Some(resize_frame(key, invocation))
            } else {
                None
            }
        },
{
    match policy.begin_resize(key) {
        None => None,
        Some((id, present_sequence)) => {
            let invocation = ResizeInvocation {
                id,
                present_sequence,
                requested_size: Extent2D { width, height },
                requested_format: raw_surface_format(format),
                renderer_prepared: false,
            };
            let frame = if owns_render_lane && has_renderer && key != 0 {
                Some(
                    ResizeFrame {
                        swap_chain: key,
                        id,
                        requested_size: invocation.requested_size,
                        requested_format: invocation.requested_format,
                    },
                )
            } else {
                None
            };
            Some((invocation, frame))
        },
    }
}

/// What a returned resize does. The renderer recreates its resources only after
/// a resize that took effect, that it was prepared for, and whose caller owns
/// the render lane.
pub open spec fn returned_resize_actions(
    key: usize,
    invocation: ResizeInvocation,
    result: i32,
    change: Option<SelectionChange>,
    owns_render_lane: bool,
    has_renderer: bool,
) -> Seq<Action> {
    let recreated = if change is Some && invocation.renderer_prepared && owns_render_lane
        && has_renderer && key != 0 {
        seq![Action::CompleteResize(resize_frame(key, invocation))]
    } else {
        Seq::empty()
    };
    let forwarded = seq![
        Action::Observe(
            DxgiObservationEvent::ResizeForwarded {
                swap_chain: invocation.id,
                requested_size: invocation.requested_size,
                requested_format: invocation.requested_format,
                result: disposition_of(result),
            },
        ),
    ];
    let failed = if result < 0 {
        seq![
            Action::Diagnose(
                DiagnosticEvent::SwapChainFailure {
                    swap_chain: Some(invocation.id),
                    operation: SwapChainOperation::ResizeBuffers,
                    code: FailureCode::HResult(result),
                },
            ),
        ]
    } else {
        Seq::empty()
    };
    recreated + forwarded + failed + change_actions(change, owns_render_lane)
}

/// Returns what a returned resize does. `change` is present exactly when the
/// resize succeeded and took effect on the chain.
pub fn after_resize(
    key: usize,
    invocation: ResizeInvocation,
    result: i32,
    change: Option<SelectionChange>,
    owns_render_lane: bool,
    has_renderer: bool,
) -> (actions: Vec<Action>)
    ensures
        actions@ == returned_resize_actions(
            key,
            invocation,
            result,
            change,
            owns_render_lane,
            has_renderer,
        ),
{
    let mut actions: Vec<Action> = Vec::new();
    if change.is_some() && invocation.renderer_prepared && owns_render_lane && has_renderer && key
        != 0 {
        actions.push(
            Action::CompleteResize(
                ResizeFrame {
                    swap_chain: key,
                    id: invocation.id,
                    requested_size: invocation.requested_size,
                    requested_format: invocation.requested_format,
                },
            ),
        );
    }
    actions.push(
        Action::Observe(
            DxgiObservationEvent::ResizeForwarded {
                swap_chain: invocation.id,
                requested_size: invocation.requested_size,
                requested_format: invocation.requested_format,
                result: hresult_disposition(result),
            },
        ),
    );
    if result < 0 {
        actions.push(
            Action::Diagnose(
                DiagnosticEvent::SwapChainFailure {
                    swap_chain: Some(invocation.id),
                    operation: SwapChainOperation::ResizeBuffers,
                    code: FailureCode::HResult(result),
                },
            ),
        );
    }
    push_change(&mut actions, change, owns_render_lane);
    assert(actions@ =~= returned_resize_actions(
        key,
        invocation,
        result,
        change,
        owns_render_lane,
        has_renderer,
    ));
    actions
}

/// Returns the cutoff of the primary chain before a color-space change
/// reconsiders the selection. `session` is what the registry holds of it.
pub fn primary_retirement(
    policy: &PolicyState,
    primary: Option<SwapChainId>,
    session: Option<Session>,
) -> (retirement: Option<SwapChainRetirement>)
    ensures
        retirement matches Some(cutoff) ==> primary == Some(cutoff.chain()) && session is Some
            && cutoff.newest_generation() == session->0.generation,
        retirement == match primary {
            None => None,
            Some(id) => match chain_with_id(entries_of(policy.chains@), id) {
                None => None,
                Some(chain) => retirement_of(session, id, chain.activity.last_present_sequence),
            },
        },
{
    match primary {
        None => None,
        Some(id) => match policy.last_present_of(id) {
            None => None,
            Some(sequence) => swap_chain_retirement(session, id, sequence),
        },
    }
}

/// Keeps the primary's cutoff only where the selection moved on: to another
/// chain, or to another generation of the same chain.
pub fn superseded_retirement(
    retirement: Option<SwapChainRetirement>,
    current_primary: Option<SwapChainId>,
    session: Option<Session>,
) -> (kept: Option<SwapChainRetirement>)
    ensures
        kept matches Some(cutoff) ==> retirement == Some(cutoff),
        kept is None && retirement is Some ==> current_primary == Some(retirement->0.chain())
            && session is Some && session->0.generation == retirement->0.newest_generation(),
        kept is Some && session is Some ==> current_primary != Some(kept->0.chain())
            || session->0.generation != kept->0.newest_generation(),
        kept == match retirement {
            None => None,
            Some(cutoff) => if current_primary != Some(cutoff.chain()) || session is None
                || session->0.generation != cutoff.newest_generation() {
                Some(cutoff)
            } else {
                None
            },
        },
{
    match retirement {
        None => None,
        Some(cutoff) => {
            if current_primary != Some(cutoff.id()) {
                return Some(cutoff);
            }
            match session {
                None => Some(cutoff),
                Some(found) => if found.generation != cutoff.generation() {
                    Some(cutoff)
                } else {
                    None
                },
            }
        },
    }
}

/// What a returned color-space change does.
pub open spec fn returned_color_space_actions(
    id: SwapChainId,
    requested: ColorSpace,
    active: ColorSpace,
    result: i32,
    change: Option<SelectionChange>,
    owns_render_lane: bool,
) -> Seq<Action> {
    seq![
        Action::Observe(
            DxgiObservationEvent::ColorSpaceForwarded {
                swap_chain: id,
                requested,
                active,
                result: disposition_of(result),
            },
        ),
    ] + change_actions(change, owns_render_lane)
}

/// Returns what a returned color-space change does.
pub fn after_set_color_space(
    id: SwapChainId,
    requested: ColorSpace,
    active: ColorSpace,
    result: i32,
    change: Option<SelectionChange>,
    owns_render_lane: bool,
) -> (actions: Vec<Action>)
    ensures
        actions@ == returned_color_space_actions(
            id,
            requested,
            active,
            result,
            change,
            owns_render_lane,
        ),
{
    let mut actions: Vec<Action> = Vec::new();
    actions.push(
        Action::Observe(
            DxgiObservationEvent::ColorSpaceForwarded {
                swap_chain: id,
                requested,
                active,
                result: hresult_disposition(result),
            },
        ),
    );
    push_change(&mut actions, change, owns_render_lane);
    assert(actions@ =~= returned_color_space_actions(
        id,
        requested,
        active,
        result,
        change,
        owns_render_lane,
    ));
    actions
}

/// The frame that a ticket hands to the renderer.
pub open spec fn frame_of(ticket: RenderTicket) -> PresentFrame {
    PresentFrame {
        swap_chain: ticket.key,
        id: ticket.id,
        method: ticket.method,
        sequence: ticket.sequence,
        generation: ticket.generation,
        stage: ticket.stage,
    }
}

/// Returns the frame of a ticket, unless the ticket may not be rendered any more.
pub fn render_selected(
    policy: &PolicyState,
    ticket: RenderTicket,
    current_primary: Option<SwapChainId>,
    session: Option<Session>,
) -> (frame: Option<PresentFrame>)
    ensures
        frame matches Some(shown) ==> shown.id == ticket.id && shown.swap_chain == ticket.key
            && shown.sequence == ticket.sequence && current_primary == Some(shown.id),
        frame == if policy.ticket_permitted(ticket, current_primary, session) {
            Some(frame_of(ticket))
        } else {
            None
        },
{
    if policy.permits_render_ticket(ticket, current_primary, session) {
        Some(
            PresentFrame {
                swap_chain: ticket.key,
                id: ticket.id,
                method: ticket.method,
                sequence: ticket.sequence,
                generation: ticket.generation,
                stage: ticket.stage,
            },
        )
    } else {
        None
    }
}

/// Returns the event that reports a rendered ticket, unless the ticket was
/// overtaken while the renderer ran.
pub fn rendered_event(
    policy: &PolicyState,
    ticket: RenderTicket,
    current_primary: Option<SwapChainId>,
    session: Option<Session>,
) -> (event: Option<DxgiObservationEvent>)
    ensures
        event is Some <==> policy.ticket_permitted(ticket, current_primary, session),
        event matches Some(reported) ==> (reported matches DxgiObservationEvent::RenderSelected {
            sequence,
            swap_chain,
            generation,
            stage,
            reason,
        } && sequence == ticket.transition_sequence && swap_chain == ticket.id && generation
            == ticket.generation && stage == ticket.stage && reason == ticket.reason),
        event == if policy.ticket_permitted(ticket, current_primary, session) {
            Some(
                DxgiObservationEvent::RenderSelected {
                    sequence: ticket.transition_sequence,
                    swap_chain: ticket.id,
                    generation: ticket.generation,
                    stage: ticket.stage,
                    reason: ticket.reason,
                },
            )
        } else {
            None
        },
{
    if policy.permits_render_ticket(ticket, current_primary, session) {
        Some(
            DxgiObservationEvent::RenderSelected {
                sequence: ticket.transition_sequence,
                swap_chain: ticket.id,
                generation: ticket.generation,
                stage: ticket.stage,
                reason: ticket.reason,
            },
        )
    } else {
        None
    }
}

/// How a renderer callback ended.
#[derive(Clone, Copy, Debug, PartialEq, Eq, Structural)]
pub enum RendererReply {
    /// It completed.
    Completed,
    /// It reported a failure.
    Failed(RenderCallbackError),
    /// It panicked.
    Panicked,
}

/// What a renderer reply reports.
pub open spec fn reply_actions(
    reply: RendererReply,
    id: SwapChainId,
    boundary: Boundary,
) -> Seq<Action> {
    match reply {
        RendererReply::Completed => Seq::empty(),
        RendererReply::Failed(error) => seq![
            Action::Diagnose(
                DiagnosticEvent::RenderFailure {
                    swap_chain: id,
                    operation: error.failed_operation(),
                    code: error.failure_code(),
                },
            ),
        ],
        RendererReply::Panicked => seq![
            Action::Observe(DxgiObservationEvent::PanicContained { boundary }),
            Action::Diagnose(
                DiagnosticEvent::RenderFailure {
                    swap_chain: id,
                    operation: RenderOperation::RestoreState,
                    code: FailureCode::Internal(InternalFailure::InvalidState),
                },
            ),
        ],
    }
}

/// Returns whether a renderer callback succeeded and what its reply reports.
pub fn invoke_renderer(reply: RendererReply, id: SwapChainId, boundary: Boundary) -> (outcome: (
    bool,
    Vec<Action>,
))
    ensures
        outcome.0 == (reply == RendererReply::Completed),
        outcome.1@ == reply_actions(reply, id, boundary),
{
    let mut actions: Vec<Action> = Vec::new();
    let succeeded = match reply {
        RendererReply::Completed => true,
        RendererReply::Failed(error) => {
            actions.push(
                Action::Diagnose(
                    DiagnosticEvent::RenderFailure {
                        swap_chain: id,
                        operation: error.operation(),
                        code: error.code(),
                    },
                ),
            );
            false
        },
        RendererReply::Panicked => {
            actions.push(Action::Observe(DxgiObservationEvent::PanicContained { boundary }));
            actions.push(
                Action::Diagnose(
                    DiagnosticEvent::RenderFailure {
                        swap_chain: id,
                        operation: RenderOperation::RestoreState,
                        code: FailureCode::Internal(InternalFailure::InvalidState),
                    },
                ),
            );
            false
        },
    };
    assert(actions@ =~= reply_actions(reply, id, boundary));
    (succeeded, actions)
}

/// The code under which an attachment failure is reported.
pub open spec fn attach_failure_code(error: DxgiError) -> FailureCode {
    match error {
        DxgiError::UnsupportedInterface => FailureCode::Internal(
            InternalFailure::UnsupportedInterface,
        ),
        DxgiError::HookConflict => FailureCode::Internal(InternalFailure::HookConflict),
        DxgiError::NullInterface => FailureCode::Internal(InternalFailure::InvalidState),
        DxgiError::ManagerClosed => FailureCode::Internal(InternalFailure::InvalidState),
        DxgiError::Vtable(_) => FailureCode::Internal(InternalFailure::InvalidState),
    }
}

/// Returns the diagnostic of an attachment failure. Factory failures have none.
pub fn report_attach_error(
    kind: ObjectKind,
    swap_chain: Option<SwapChainId>,
    error: &DxgiError,
) -> (event: Option<DiagnosticEvent>)
    ensures
        event == if kind == ObjectKind::SwapChain {
            Some(
                DiagnosticEvent::SwapChainFailure {
                    swap_chain,
                    operation: SwapChainOperation::AttachHook,
                    code: attach_failure_code(*error),
                },
            )
        } else {
            None
        },
{
    let code = match error {
        DxgiError::UnsupportedInterface => FailureCode::Internal(
            InternalFailure::UnsupportedInterface,
        ),
        DxgiError::HookConflict => FailureCode::Internal(InternalFailure::HookConflict),
        DxgiError::NullInterface => FailureCode::Internal(InternalFailure::InvalidState),
        DxgiError::ManagerClosed => FailureCode::Internal(InternalFailure::InvalidState),
        DxgiError::Vtable(_) => FailureCode::Internal(InternalFailure::InvalidState),
    };
    if kind == ObjectKind::SwapChain {
        Some(
            DiagnosticEvent::SwapChainFailure {
                swap_chain,
                operation: SwapChainOperation::AttachHook,
                code,
            },
        )
    } else {
        None
    }
}

/// How the restoration of one hook ended.
#[derive(Clone, Copy, Debug, PartialEq, Eq, Structural)]
pub enum HookRestoration {
    /// The vtable was put back by this request.
    Restored,
    /// The vtable had been put back before.
    Unchanged,
    /// Another component had displaced the hook.
    Displaced,
}

impl HookRestoration {
    /// The outcome that the result of a restoration stands for.
    pub open spec fn of_result(result: Result<bool, VtableError>) -> HookRestoration {
        match result {
            Ok(true) => HookRestoration::Restored,
            Ok(false) => HookRestoration::Unchanged,
            Err(_) => HookRestoration::Displaced,
        }
    }

    /// Returns the outcome that the result of a restoration stands for.
    pub fn of(result: Result<bool, VtableError>) -> (outcome: Self)
        ensures
            outcome == HookRestoration::of_result(result),
    {
        match result {
            Ok(true) => HookRestoration::Restored,
            Ok(false) => HookRestoration::Unchanged,
            Err(_) => HookRestoration::Displaced,
        }
    }
}

/// How often an outcome occurs.
pub open spec fn occurrences(outcomes: Seq<HookRestoration>, outcome: HookRestoration) -> nat
    decreases outcomes.len(),
{
    if outcomes.len() == 0 {
        0
    } else {
        occurrences(outcomes.drop_last(), outcome) + if outcomes.last() == outcome {
            1nat
        } else {
            0
        }
    }
}

/// A count in a report, which stops at the largest number the report can hold.
pub open spec fn reported(count: nat) -> u32 {
    if count > u32::MAX {
        u32::MAX
    } else {
        count as u32
    }
}

/// Summarises a shutdown and returns the event that reports it.
pub fn close_and_drain(
    outcomes: &Vec<HookRestoration>,
    drained: bool,
    in_flight: usize,
) -> (closed: (ShutdownReport, DxgiObservationEvent))
    ensures
        closed.0.drained == drained,
        closed.0.in_flight == in_flight,
        closed.0.restored == reported(occurrences(outcomes@, HookRestoration::Restored)),
        closed.0.displaced == reported(occurrences(outcomes@, HookRestoration::Displaced)),
        closed.1 == (DxgiObservationEvent::Shutdown {
            drained,
            restored: closed.0.restored,
            displaced: closed.0.displaced,
        }),
{
    let mut restored: u32 = 0;
    let mut displaced: u32 = 0;
    let mut index: usize = 0;
    while index < outcomes.len()
        invariant
            index <= outcomes.len(),
            restored == reported(
                occurrences(outcomes@.subrange(0, index as int), HookRestoration::Restored),
            ),
            displaced == reported(
                occurrences(outcomes@.subrange(0, index as int), HookRestoration::Displaced),
            ),
        decreases outcomes.len() - index,
    {
        let ghost next = outcomes@.subrange(0, index + 1);
        assert(next.drop_last() =~= outcomes@.subrange(0, index as int));
        match outcomes[index] {
            HookRestoration::Restored => {
                restored = restored.saturating_add(1);
            },
            HookRestoration::Unchanged => {},
            HookRestoration::Displaced => {
                displaced = displaced.saturating_add(1);
            },
        }
        index = index + 1;
    }
    assert(outcomes@.subrange(0, index as int) =~= outcomes@);
    let report = ShutdownReport { drained, restored, displaced, in_flight };
    (report, DxgiObservationEvent::Shutdown { drained, restored, displaced })
}

/// Exclusive right to call the renderer.
#[derive(Debug)]
pub struct RenderLane {
    occupied: bool,
}

/// Proof that the render lane is held. It is given back by [`RenderLane::leave`].
#[derive(Debug)]
pub struct RenderLaneLease {
    held: bool,
}

impl RenderLane {
    /// Whether a lease is out.
    pub closed spec fn is_occupied(&self) -> bool {
        self.occupied
    }

    /// Creates a free lane.
    pub fn new() -> (lane: Self)
        ensures
            !lane.is_occupied(),
    {
        Self { occupied: false }
    }

    /// Takes the lane if it is free, without waiting.
    pub fn try_enter(&mut self) -> (lease: Option<RenderLaneLease>)
        ensures
            final(self).is_occupied(),
            lease is Some <==> !old(self).is_occupied(),
    {
        if self.occupied {
            return None;
        }
        self.occupied = true;
        Some(RenderLaneLease { held: true })
    }

    /// Gives the lane back.
    pub fn leave(&mut self, lease: RenderLaneLease)
        ensures
            !final(self).is_occupied(),
    {
        self.occupied = false;
    }
}

/// Retirements waiting for the render lane, at most one per generation of a chain.
#[derive(Debug)]
pub struct PendingRetirements {
    entries: Vec<SwapChainRetirement>,
}

/// Whether a retirement concerns a generation of a chain.
pub open spec fn concerns(retirement: SwapChainRetirement, id: u64, generation: u64) -> bool {
    retirement.chain().value() == id && retirement.newest_generation().value == generation
}

/// Whether a retirement comes before another: by chain, then by generation.
pub open spec fn precedes(left: SwapChainRetirement, right: SwapChainRetirement) -> bool {
    left.chain().value() < right.chain().value() || (left.chain().value() == right.chain().value()
        && left.newest_generation().value < right.newest_generation().value)
}

/// The waiting cutoff of a generation, if one waits.
pub open spec fn waiting(entries: Seq<SwapChainRetirement>, id: u64, generation: u64) -> Option<u64>
    decreases entries.len(),
{
    if entries.len() == 0 {
        None
    } else if concerns(entries.last(), id, generation) {
        Some(entries.last().cutoff())
    } else {
        waiting(entries.drop_last(), id, generation)
    }
}

impl PendingRetirements {
    /// What waits, in ascending order.
    pub closed spec fn queued(&self) -> Seq<SwapChainRetirement> {
        self.entries@
    }

    /// Entries ascend strictly, so that no generation waits twice.
    pub open spec fn wf(&self) -> bool {
        forall|i: int, j: int| #![trigger self.queued()[i], self.queued()[j]]
            0 <= i < j < self.queued().len() ==> precedes(self.queued()[i], self.queued()[j])
    }

    /// Creates an empty queue.
    pub fn new() -> (pending: Self)
        ensures
            pending.wf(),
            pending.queued() == Seq::<SwapChainRetirement>::empty(),
    {
        Self { entries: Vec::new() }
    }

    /// Returns whether nothing waits.
    pub fn is_empty(&self) -> (empty: bool)
        ensures
            empty == (self.queued().len() == 0),
    {
        self.entries.len() == 0
    }

    /// Queues a retirement. A generation that waits already keeps the later cutoff.
    pub fn defer(&mut self, retirement: SwapChainRetirement)
        requires
            old(self).wf(),
        ensures
            final(self).wf(),
            forall|id: u64, generation: u64| #[trigger]
                waiting(final(self).queued(), id, generation) == if concerns(
                    retirement,
                    id,
                    generation,
                ) {
                    Some(
                        match waiting(old(self).queued(), id, generation) {
                            Some(cutoff) => crate::render::later(cutoff, retirement.cutoff()),
                            None => retirement.cutoff(),
                        },
                    )
                } else {
                    waiting(old(self).queued(), id, generation)
                },
    {
        let id = retirement.id().get();
        let generation = retirement.generation().value;
        let ghost before = self.entries@;
        let mut index: usize = 0;
        while index < self.entries.len() && comes_before(&self.entries[index], &retirement)
            invariant
                before == self.entries@,
                index <= before.len(),
                forall|i: int| 0 <= i < index ==> precedes(#[trigger] before[i], retirement),
            decreases before.len() - index,
        {
            index = index + 1;
        }
        if index < self.entries.len() && self.entries[index].id().get() == id
            && self.entries[index].generation().value == generation {
            let cutoff: u64 = crate::render::later_sequence(
                self.entries[index].sequence(),
                retirement.sequence(),
            );
            let merged = SwapChainRetirement::new(
                retirement.id(),
                retirement.generation(),
                cutoff,
            );
            self.entries[index] = merged;
            proof {
                lemma_merge(before, index as int, merged);
            }
        } else {
            proof {
                assert forall|i: int| index <= i < before.len() implies precedes(
                    retirement,
                    #[trigger] before[i],
                ) by {
                    if index < i {
                        assert(precedes(before[index as int], before[i]));
                    }
                }
            }
            self.entries.insert(index, retirement);
            proof {
                lemma_queue(before, index as int, retirement);
            }
        }
    }

    /// Takes everything that waits, in ascending order.
    pub fn take(&mut self) -> (retirements: Vec<SwapChainRetirement>)
        requires
            old(self).wf(),
        ensures
            retirements@ == old(self).queued(),
            final(self).queued() == Seq::<SwapChainRetirement>::empty(),
            final(self).wf(),
    {
        let mut retirements: Vec<SwapChainRetirement> = Vec::new();
        std::mem::swap(&mut retirements, &mut self.entries);
        retirements
    }
}

fn comes_before(left: &SwapChainRetirement, right: &SwapChainRetirement) -> (before: bool)
    ensures
        before == precedes(*left, *right),
{
    let left_id = left.id().get();
    let right_id = right.id().get();
    left_id < right_id || (left_id == right_id && left.generation().value
        < right.generation().value)
}

/// In an ascending queue, the entry of a generation is what waits for it.
proof fn lemma_waiting_is_the_entry(entries: Seq<SwapChainRetirement>, i: int)
    requires
        forall|i: int, j: int| #![trigger entries[i], entries[j]]
            0 <= i < j < entries.len() ==> precedes(entries[i], entries[j]),
        0 <= i < entries.len(),
    ensures
        waiting(entries, entries[i].chain().value(), entries[i].newest_generation().value) == Some(
            entries[i].cutoff(),
        ),
    decreases entries.len(),
{
    if i < entries.len() - 1 {
        assert(precedes(entries[i], entries[entries.len() - 1]));
        let rest = entries.drop_last();
        assert forall|a: int, b: int| #![trigger rest[a], rest[b]]
            0 <= a < b < rest.len() implies precedes(rest[a], rest[b]) by {
            assert(precedes(entries[a], entries[b]));
        }
        lemma_waiting_is_the_entry(rest, i);
    }
}

/// A generation without an entry does not wait.
proof fn lemma_nothing_waits(entries: Seq<SwapChainRetirement>, id: u64, generation: u64)
    requires
        forall|i: int| 0 <= i < entries.len() ==> !concerns(#[trigger] entries[i], id, generation),
    ensures
        waiting(entries, id, generation) is None,
    decreases entries.len(),
{
    if entries.len() > 0 {
        assert(!concerns(entries[entries.len() - 1], id, generation));
        let rest = entries.drop_last();
        assert forall|i: int| 0 <= i < rest.len() implies !concerns(
            #[trigger] rest[i],
            id,
            generation,
        ) by {
            assert(!concerns(entries[i], id, generation));
        }
        lemma_nothing_waits(rest, id, generation);
    }
}

/// Two queues that agree on the entry of a generation agree on what waits for it.
proof fn lemma_same_entry_same_wait(
    left: Seq<SwapChainRetirement>,
    right: Seq<SwapChainRetirement>,
    id: u64,
    generation: u64,
)
    requires
        forall|i: int, j: int| #![trigger left[i], left[j]]
            0 <= i < j < left.len() ==> precedes(left[i], left[j]),
        forall|i: int, j: int| #![trigger right[i], right[j]]
            0 <= i < j < right.len() ==> precedes(right[i], right[j]),
        forall|entry: SwapChainRetirement|
            concerns(entry, id, generation) ==> (#[trigger] left.contains(entry)
                <==> right.contains(entry)),
    ensures
        waiting(left, id, generation) == waiting(right, id, generation),
{
    if exists|i: int| 0 <= i < left.len() && concerns(#[trigger] left[i], id, generation) {
        let i = choose|i: int| 0 <= i < left.len() && concerns(#[trigger] left[i], id, generation);
        assert(left.contains(left[i]));
        let j = choose|j: int| 0 <= j < right.len() && right[j] == left[i];
        lemma_waiting_is_the_entry(left, i);
        lemma_waiting_is_the_entry(right, j);
    } else {
        lemma_nothing_waits(left, id, generation);
        assert forall|j: int| 0 <= j < right.len() implies !concerns(
            #[trigger] right[j],
            id,
            generation,
        ) by {
            if concerns(right[j], id, generation) {
                assert(right.contains(right[j]));
                assert(left.contains(right[j]));
                let i = choose|i: int| 0 <= i < left.len() && left[i] == right[j];
                assert(concerns(left[i], id, generation));
            }
        }
        lemma_nothing_waits(right, id, generation);
    }
}

proof fn lemma_merge(before: Seq<SwapChainRetirement>, index: int, merged: SwapChainRetirement)
    requires
        forall|i: int, j: int| #![trigger before[i], before[j]]
            0 <= i < j < before.len() ==> precedes(before[i], before[j]),
        0 <= index < before.len(),
        concerns(before[index], merged.chain().value(), merged.newest_generation().value),
    ensures
        ({
            let after = before.update(index, merged);
            &&& forall|i: int, j: int| #![trigger after[i], after[j]]
                0 <= i < j < after.len() ==> precedes(after[i], after[j])
            &&& forall|id: u64, generation: u64| #[trigger]
                waiting(after, id, generation) == if concerns(merged, id, generation) {
                    Some(merged.cutoff())
                } else {
                    waiting(before, id, generation)
                }
            &&& waiting(
                before,
                merged.chain().value(),
                merged.newest_generation().value,
            ) == Some(before[index].cutoff())
        }),
{
    let after = before.update(index, merged);
    assert forall|i: int, j: int| #![trigger after[i], after[j]]
        0 <= i < j < after.len() implies precedes(after[i], after[j]) by {
        assert(precedes(before[i], before[j]));
    }
    assert forall|id: u64, generation: u64| #[trigger] waiting(after, id, generation) == if concerns(
        merged,
        id,
        generation,
    ) {
        Some(merged.cutoff())
    } else {
        waiting(before, id, generation)
    } by {
        if concerns(merged, id, generation) {
            lemma_waiting_is_the_entry(after, index);
        } else {
            assert forall|entry: SwapChainRetirement| concerns(entry, id, generation) implies (
            #[trigger] after.contains(entry) <==> before.contains(entry)) by {
                if after.contains(entry) {
                    let i = choose|i: int| 0 <= i < after.len() && after[i] == entry;
                    assert(before[i] == entry);
                }
                if before.contains(entry) {
                    let i = choose|i: int| 0 <= i < before.len() && before[i] == entry;
                    assert(after[i] == entry);
                }
            }
            lemma_same_entry_same_wait(after, before, id, generation);
        }
    }
    lemma_waiting_is_the_entry(before, index);
}

proof fn lemma_queue(before: Seq<SwapChainRetirement>, index: int, retirement: SwapChainRetirement)
    requires
        forall|i: int, j: int| #![trigger before[i], before[j]]
            0 <= i < j < before.len() ==> precedes(before[i], before[j]),
        0 <= index <= before.len(),
        forall|i: int| 0 <= i < index ==> precedes(#[trigger] before[i], retirement),
        forall|i: int| index <= i < before.len() ==> precedes(retirement, #[trigger] before[i]),
    ensures
        ({
            let after = before.insert(index, retirement);
            &&& forall|i: int, j: int| #![trigger after[i], after[j]]
                0 <= i < j < after.len() ==> precedes(after[i], after[j])
            &&& forall|id: u64, generation: u64| #[trigger]
                waiting(after, id, generation) == if concerns(retirement, id, generation) {
                    Some(retirement.cutoff())
                } else {
                    waiting(before, id, generation)
                }
            &&& waiting(
                before,
                retirement.chain().value(),
                retirement.newest_generation().value,
            ) is None
        }),
{
    let after = before.insert(index, retirement);
    assert forall|i: int, j: int| #![trigger after[i], after[j]]
        0 <= i < j < after.len() implies precedes(after[i], after[j]) by {
        let left = if i < index { i } else { i - 1 };
        let right = if j < index { j } else { j - 1 };
        if i != index && j != index {
            assert(precedes(before[left], before[right]));
        } else if i == index {
            assert(precedes(retirement, before[right]));
        } else {
            assert(precedes(before[left], retirement));
        }
    }
    assert forall|id: u64, generation: u64| #[trigger] waiting(after, id, generation) == if concerns(
        retirement,
        id,
        generation,
    ) {
        Some(retirement.cutoff())
    } else {
        waiting(before, id, generation)
    } by {
        if concerns(retirement, id, generation) {
            lemma_waiting_is_the_entry(after, index);
        } else {
            assert forall|entry: SwapChainRetirement| concerns(entry, id, generation) implies (
            #[trigger] after.contains(entry) <==> before.contains(entry)) by {
                if after.contains(entry) {
                    let i = choose|i: int| 0 <= i < after.len() && after[i] == entry;
                    let origin = if i < index { i } else { i - 1 };
                    assert(before[origin] == entry);
                }
                if before.contains(entry) {
                    let i = choose|i: int| 0 <= i < before.len() && before[i] == entry;
                    let moved = if i < index { i } else { i + 1 };
                    assert(after[moved] == entry);
                }
            }
            lemma_same_entry_same_wait(after, before, id, generation);
        }
    }
    assert forall|i: int| 0 <= i < before.len() implies !concerns(
        #[trigger] before[i],
        retirement.chain().value(),
        retirement.newest_generation().value,
    ) by {
        if i < index {
            assert(precedes(before[i], retirement));
        } else {
            assert(precedes(retirement, before[i]));
        }
    }
    lemma_nothing_waits(
        before,
        retirement.chain().value(),
        retirement.newest_generation().value,
    );
}

/// Whoever owns the render lane retires at once; everybody else only queues.
pub proof fn law_only_the_lane_owner_retires(
    change: Option<SelectionChange>,
    retirement: SwapChainRetirement,
)
    ensures
        !change_actions(change, false).contains(Action::Retire(retirement)),
        !change_actions(change, true).contains(Action::Defer(retirement)),
{
}

/// A resize never completes in the renderer unless its caller owns the lane,
/// prepared the renderer, and the resize took effect.
pub proof fn law_no_partial_resize_handshake(
    key: usize,
    invocation: ResizeInvocation,
    result: i32,
    change: Option<SelectionChange>,
    owns_render_lane: bool,
    has_renderer: bool,
    frame: ResizeFrame,
)
    requires
        !owns_render_lane || !invocation.renderer_prepared || change is None,
    ensures
        !returned_resize_actions(
            key,
            invocation,
            result,
            change,
            owns_render_lane,
            has_renderer,
        ).contains(Action::CompleteResize(frame)),
{
    let actions = returned_resize_actions(
        key,
        invocation,
        result,
        change,
        owns_render_lane,
        has_renderer,
    );
    if actions.contains(Action::CompleteResize(frame)) {
        let i = choose|i: int| 0 <= i < actions.len() && actions[i] == Action::CompleteResize(
            frame,
        );
        assert(actions[i] == Action::CompleteResize(frame));
    }
}

proof fn lemma_contained_in_either(left: Seq<Action>, right: Seq<Action>, action: Action)
    ensures
        (left + right).contains(action) <==> left.contains(action) || right.contains(action),
{
    let both = left + right;
    if left.contains(action) {
        assert(both[left.index_of(action)] == action);
    }
    if right.contains(action) {
        assert(both[left.len() + right.index_of(action)] == action);
    }
    if both.contains(action) {
        let i = both.index_of(action);
        if i < left.len() {
            assert(left[i] == action);
        } else {
            assert(right[i - left.len()] == action);
        }
    }
}

/// A selection is announced once, under its number: with its state where it was
/// resolved, with its diagnostic where it was deferred, and not at all where it
/// was neither.
pub proof fn law_a_selection_is_announced_once(
    sequence: u64,
    transition: RenderSelectionTransition,
)
    ensures
        ({
            let actions = selection_event(sequence, transition);
            &&& transition.resolved is Some ==> actions.len() == 1 && (actions[0] matches
                Action::Observe(event) && (event matches DxgiObservationEvent::RenderSelectionResolved {
                sequence: number,
                resolution,
            } && number == sequence && resolution == transition.resolved->0))
            &&& transition.resolved is None && transition.deferred is Some ==> actions.len() == 1
                && (actions[0] matches Action::Observe(event) && (event matches
                DxgiObservationEvent::RenderSelectionDeferred { sequence: number, diagnostic }
                && number == sequence && diagnostic == transition.deferred->0))
            &&& transition.resolved is None && transition.deferred is None ==> actions.len() == 0
        }),
{
}

/// A retirement that a change of selection brings is carried out at once by the
/// owner of the render lane and deferred by everyone else, and no other
/// retirement comes with it.
pub proof fn law_a_change_brings_its_own_retirement(
    change: Option<SelectionChange>,
    owns_render_lane: bool,
    retirement: SwapChainRetirement,
)
    ensures
        change_actions(change, owns_render_lane).contains(Action::Retire(retirement)) <==> (
        owns_render_lane && change is Some && change->0.retirement == Some(retirement)),
        change_actions(change, owns_render_lane).contains(Action::Defer(retirement)) <==> (
        !owns_render_lane && change is Some && change->0.retirement == Some(retirement)),
{
    if let Some(applied) = change {
        let event = selection_event(applied.sequence, applied.transition);
        let rest = retirement_action(applied.retirement, owns_render_lane);
        lemma_contained_in_either(event, rest, Action::Retire(retirement));
        lemma_contained_in_either(event, rest, Action::Defer(retirement));
        if applied.retirement == Some(retirement) {
            assert(rest[0] == if owns_render_lane {
                Action::Retire(retirement)
            } else {
                Action::Defer(retirement)
            });
        }
    }
}

/// A change of selection renders nothing and completes no resize.
pub proof fn law_a_change_only_announces_and_retires(
    change: Option<SelectionChange>,
    owns_render_lane: bool,
    at: int,
)
    requires
        0 <= at < change_actions(change, owns_render_lane).len(),
    ensures
        ({
            let action = change_actions(change, owns_render_lane)[at];
            ||| (action matches Action::Observe(event) && (event is RenderSelectionResolved || event
                is RenderSelectionDeferred))
            ||| action is Retire && owns_render_lane
            ||| action is Defer && !owns_render_lane
        }),
{
}

/// An observed presentation is rendered exactly where a render is permitted and
/// the chain has an address: on that chain, for that presentation and method,
/// with the generation, stage, and reason of the permit, and under the number
/// of the selection.
pub proof fn law_a_permitted_presentation_is_rendered(
    key: usize,
    start: PresentStart,
    method: PresentMethod,
    sequence: u64,
    transition: RenderSelectionTransition,
    session: Option<Session>,
    ticket: RenderTicket,
)
    ensures
        observed_actions(key, start, method, sequence, transition, session).contains(
            Action::Render(ticket),
        ) <==> {
            &&& transition.render is Some
            &&& key != 0
            &&& ticket.key == key
            &&& ticket.id == start.id
            &&& ticket.method == method
            &&& ticket.sequence == start.sequence
            &&& ticket.generation == transition.render->0.generation
            &&& ticket.stage == transition.render->0.stage
            &&& ticket.reason == transition.render->0.reason
            &&& ticket.transition_sequence == sequence
        },
{
    let event = selection_event(sequence, transition);
    let actions = observed_actions(key, start, method, sequence, transition, session);
    let rest = match ticket_of(key, start, method, sequence, transition) {
        Some(ticket) => if key == 0 {
            Seq::empty()
        } else {
            seq![Action::Render(ticket)]
        },
        None => retirement_action(retirement_of(session, start.id, start.sequence), true),
    };
    lemma_contained_in_either(event, rest, Action::Render(ticket));
    if transition.render is Some && key != 0 {
        assert(rest[0] == Action::Render(
            ticket_of(key, start, method, sequence, transition)->0,
        ));
        if rest.contains(Action::Render(ticket)) {
            assert(rest.index_of(Action::Render(ticket)) == 0);
        }
    }
}

/// An observed presentation that is not rendered retires what its session still
/// has of the chain, up to that presentation.
pub proof fn law_an_unrendered_presentation_retires_its_session(
    key: usize,
    start: PresentStart,
    method: PresentMethod,
    sequence: u64,
    transition: RenderSelectionTransition,
    session: Option<Session>,
)
    ensures
        ({
            let actions = observed_actions(key, start, method, sequence, transition, session);
            &&& transition.render is None && session is Some ==> actions.len() > 0 && (
            actions.last() matches Action::Retire(retirement) && {
                &&& retirement.chain() == start.id
                &&& retirement.newest_generation() == session->0.generation
                &&& retirement.cutoff() == start.sequence
            })
            &&& forall|at: int|
                0 <= at < actions.len() && (#[trigger] actions[at]) is Retire
                    ==> transition.render is None && session is Some
        }),
{
    if session is Some {
        crate::dxgi::callbacks::law_a_retirement_keeps_its_parts(
            start.id,
            session->0.generation,
            start.sequence,
        );
    }
}

/// A failed inspection is diagnosed first, with its chain and its code.
pub proof fn law_a_failed_inspection_is_diagnosed(
    id: SwapChainId,
    code: i32,
    change: Option<SelectionChange>,
)
    ensures
        ({
            let actions = failed_inspection_actions(id, code, change);
            &&& actions.len() == 1 + change_actions(change, true).len()
            &&& actions[0] matches Action::Diagnose(event) && (event matches
                DiagnosticEvent::SwapChainFailure { swap_chain, operation, code: number }
                && swap_chain == Some(id) && operation is Inspect && number == FailureCode::HResult(
                code,
            ))
            &&& actions.skip(1) == change_actions(change, true)
        }),
{
    assert(failed_inspection_actions(id, code, change).skip(1) =~= change_actions(change, true));
}

/// A returned presentation is reported first, with its chain, method, sequence,
/// and result. A lost device is diagnosed next, and nothing else is.
pub proof fn law_a_returned_presentation_is_reported(
    id: SwapChainId,
    method: PresentMethod,
    sequence: u64,
    result: i32,
    change: Option<SelectionChange>,
    owns_render_lane: bool,
)
    ensures
        ({
            let actions = returned_present_actions(
                id,
                method,
                sequence,
                result,
                change,
                owns_render_lane,
            );
            let lost = disposition_of(result) is DeviceRemoved || disposition_of(result)
                is DeviceReset;
            let reports = if lost {
                2int
            } else {
                1int
            };
            &&& actions.len() == reports + change_actions(change, owns_render_lane).len()
            &&& actions[0] matches Action::Observe(event) && (event matches
                DxgiObservationEvent::PresentForwarded {
                swap_chain,
                method: called,
                sequence: number,
                result: disposition,
            } && swap_chain == id && called == method && number == sequence && disposition
                == disposition_of(result))
            &&& lost ==> (actions[1] matches Action::Diagnose(event) && (event matches
                DiagnosticEvent::SwapChainFailure { swap_chain, operation, code } && swap_chain
                == Some(id) && operation is Present && code == FailureCode::Internal(
                InternalFailure::DeviceLost,
            )))
            &&& actions.skip(reports) == change_actions(change, owns_render_lane)
        }),
{
    let actions = returned_present_actions(id, method, sequence, result, change, owns_render_lane);
    let reports = if device_lost(disposition_of(result)) {
        2int
    } else {
        1int
    };
    assert(actions.skip(reports) =~= change_actions(change, owns_render_lane));
}

/// A resize is asked of the renderer and reported as it was requested: width as
/// width, height as height, and the format by its number.
pub proof fn law_a_resize_keeps_what_was_requested(
    policy: PolicyState,
    key: usize,
    width: u32,
    height: u32,
    format: i32,
)
    ensures
        ({
            let invocation = resize_invocation(policy, key, width, height, format);
            let frame = resize_frame(key, invocation);
            &&& invocation.id == policy.chains@[key].id
            &&& invocation.present_sequence == policy.chains@[key].activity.last_present_sequence
            &&& invocation.requested_size.width == width
            &&& invocation.requested_size.height == height
            &&& invocation.requested_format == format_of(format)
            &&& !invocation.renderer_prepared
            &&& frame.swap_chain == key
            &&& frame.id == policy.chains@[key].id
            &&& frame.requested_size.width == width
            &&& frame.requested_size.height == height
            &&& frame.requested_format == format_of(format)
        }),
{
}

/// A returned resize is reported with its chain, its extent, its format, and
/// its result, and diagnosed with its code where it failed. The renderer's part
/// is completed before, where it was prepared and the resize took effect.
pub proof fn law_a_returned_resize_is_reported(
    key: usize,
    invocation: ResizeInvocation,
    result: i32,
    change: Option<SelectionChange>,
    owns_render_lane: bool,
    has_renderer: bool,
)
    ensures
        ({
            let actions = returned_resize_actions(
                key,
                invocation,
                result,
                change,
                owns_render_lane,
                has_renderer,
            );
            let completes = change is Some && invocation.renderer_prepared && owns_render_lane
                && has_renderer && key != 0;
            let first = if completes {
                1int
            } else {
                0int
            };
            let reports = if result < 0 {
                2int
            } else {
                1int
            };
            &&& actions.len() == first + reports + change_actions(change, owns_render_lane).len()
            &&& completes ==> (actions[0] matches Action::CompleteResize(frame) && {
                &&& frame.swap_chain == key
                &&& frame.id == invocation.id
                &&& frame.requested_size.width == invocation.requested_size.width
                &&& frame.requested_size.height == invocation.requested_size.height
                &&& frame.requested_format == invocation.requested_format
            })
            &&& actions[first] matches Action::Observe(event) && (event matches
                DxgiObservationEvent::ResizeForwarded {
                swap_chain,
                requested_size,
                requested_format,
                result: disposition,
            } && swap_chain == invocation.id && requested_size.width
                == invocation.requested_size.width && requested_size.height
                == invocation.requested_size.height && requested_format
                == invocation.requested_format && disposition == disposition_of(result))
            &&& result < 0 ==> (actions[first + 1] matches Action::Diagnose(event) && (event matches
                DiagnosticEvent::SwapChainFailure { swap_chain, operation, code } && swap_chain
                == Some(invocation.id) && operation is ResizeBuffers && code
                == FailureCode::HResult(result)))
            &&& actions.skip(first + reports) == change_actions(change, owns_render_lane)
        }),
{
    let actions = returned_resize_actions(
        key,
        invocation,
        result,
        change,
        owns_render_lane,
        has_renderer,
    );
    let first = if change is Some && invocation.renderer_prepared && owns_render_lane && has_renderer
        && key != 0 {
        1int
    } else {
        0int
    };
    let reports = if result < 0 {
        2int
    } else {
        1int
    };
    assert(actions.skip(first + reports) =~= change_actions(change, owns_render_lane));
}

/// A returned color-space change is reported first, with what was requested and
/// what is active, each under its own name.
pub proof fn law_a_returned_color_space_is_reported(
    id: SwapChainId,
    requested: ColorSpace,
    active: ColorSpace,
    result: i32,
    change: Option<SelectionChange>,
    owns_render_lane: bool,
)
    ensures
        ({
            let actions = returned_color_space_actions(
                id,
                requested,
                active,
                result,
                change,
                owns_render_lane,
            );
            &&& actions.len() == 1 + change_actions(change, owns_render_lane).len()
            &&& actions[0] matches Action::Observe(event) && (event matches
                DxgiObservationEvent::ColorSpaceForwarded {
                swap_chain,
                requested: asked,
                active: applied,
                result: disposition,
            } && swap_chain == id && asked == requested && applied == active && disposition
                == disposition_of(result))
            &&& actions.skip(1) == change_actions(change, owns_render_lane)
        }),
{
    assert(returned_color_space_actions(
        id,
        requested,
        active,
        result,
        change,
        owns_render_lane,
    ).skip(1) =~= change_actions(change, owns_render_lane));
}

/// A frame is what its ticket says, part by part.
pub proof fn law_a_frame_is_its_ticket(ticket: RenderTicket)
    ensures
        frame_of(ticket).swap_chain == ticket.key,
        frame_of(ticket).id == ticket.id,
        frame_of(ticket).method == ticket.method,
        frame_of(ticket).sequence == ticket.sequence,
        frame_of(ticket).generation == ticket.generation,
        frame_of(ticket).stage == ticket.stage,
{
}

/// A renderer that completed is not spoken of. A failure keeps its operation
/// and its code, and a panic is contained at its boundary and counts as a
/// failure to restore state.
pub proof fn law_a_renderer_failure_is_reported(
    reply: RendererReply,
    id: SwapChainId,
    boundary: Boundary,
)
    ensures
        ({
            let actions = reply_actions(reply, id, boundary);
            &&& reply is Completed <==> actions.len() == 0
            &&& reply matches RendererReply::Failed(error) ==> actions.len() == 1 && (actions[0]
                matches Action::Diagnose(event) && (event matches DiagnosticEvent::RenderFailure {
                swap_chain,
                operation,
                code,
            } && swap_chain == id && operation == error.failed_operation() && code
                == error.failure_code()))
            &&& reply is Panicked ==> actions.len() == 2 && actions[0] == Action::Observe(
                DxgiObservationEvent::PanicContained { boundary },
            ) && (actions[1] matches Action::Diagnose(event) && (event matches
                DiagnosticEvent::RenderFailure { swap_chain, operation, code } && swap_chain == id
                && operation is RestoreState && code == FailureCode::Internal(
                InternalFailure::InvalidState,
            )))
        }),
{
}

/// A failed attachment keeps its category: an interface that is not supported, a
/// conflict, or a state that is not valid.
pub proof fn law_attach_failures_keep_their_category(error: DxgiError)
    ensures
        attach_failure_code(error) == FailureCode::Internal(InternalFailure::UnsupportedInterface)
            <==> error is UnsupportedInterface,
        attach_failure_code(error) == FailureCode::Internal(InternalFailure::HookConflict) <==> error
            is HookConflict,
        attach_failure_code(error) == FailureCode::Internal(InternalFailure::InvalidState) <==> error
            is NullInterface || error is ManagerClosed || error is Vtable,
{
}

/// Of every hook that shutdown tried to take back, one thing is counted: that
/// it was restored, that it was found restored, or that it was displaced.
pub proof fn law_every_hook_is_counted_once(outcomes: Seq<HookRestoration>)
    ensures
        occurrences(outcomes, HookRestoration::Restored) + occurrences(
            outcomes,
            HookRestoration::Unchanged,
        ) + occurrences(outcomes, HookRestoration::Displaced) == outcomes.len(),
    decreases outcomes.len(),
{
    if outcomes.len() > 0 {
        law_every_hook_is_counted_once(outcomes.drop_last());
    }
}

/// One more outcome is counted under its own name and under no other.
pub proof fn law_an_outcome_is_counted_under_its_name(
    outcomes: Seq<HookRestoration>,
    next: HookRestoration,
    outcome: HookRestoration,
)
    ensures
        occurrences(outcomes.push(next), outcome) == occurrences(outcomes, outcome) + (if outcome
            == next {
            1nat
        } else {
            0nat
        }),
        occurrences(Seq::empty(), outcome) == 0,
{
    assert(outcomes.push(next).drop_last() =~= outcomes);
}

/// A count is reported as it is, as far as the report can hold it.
pub proof fn law_counts_are_reported(count: nat)
    ensures
        count <= 0xffff_ffff ==> reported(count) == count,
        count > 0xffff_ffff ==> reported(count) == 0xffff_ffff,
{
}

/// A restoration counts as one exactly where it changed something, and as a
/// displacement exactly where it failed.
pub proof fn law_restorations_are_told_apart(result: Result<bool, VtableError>)
    ensures
        HookRestoration::of_result(result) is Restored <==> result is Ok && result->Ok_0,
        HookRestoration::of_result(result) is Unchanged <==> result is Ok && !result->Ok_0,
        HookRestoration::of_result(result) is Displaced <==> result is Err,
{
}

/// Retirements wait in the order of their chains, and of generations within
/// one chain.
pub proof fn law_retirements_wait_in_order(left: SwapChainRetirement, right: SwapChainRetirement)
    ensures
        left.chain().value() < right.chain().value() ==> precedes(left, right) && !precedes(
            right,
            left,
        ),
        left.chain() == right.chain() ==> (precedes(left, right) <==> left.newest_generation().value
            < right.newest_generation().value),
        concerns(left, right.chain().value(), right.newest_generation().value) <==> !precedes(
            left,
            right,
        ) && !precedes(right, left),
{
}

/// Whatever returned, the retirement that goes with it is the one of its change
/// of selection.
pub proof fn law_a_returned_call_brings_its_own_retirement(
    key: usize,
    invocation: ResizeInvocation,
    id: SwapChainId,
    method: PresentMethod,
    sequence: u64,
    colors: (ColorSpace, ColorSpace),
    result: i32,
    change: Option<SelectionChange>,
    owns_render_lane: bool,
    has_renderer: bool,
    retirement: SwapChainRetirement,
)
    ensures
        ({
            let brought = change is Some && change->0.retirement == Some(retirement);
            let presented = returned_present_actions(
                id,
                method,
                sequence,
                result,
                change,
                owns_render_lane,
            );
            let resized = returned_resize_actions(
                key,
                invocation,
                result,
                change,
                owns_render_lane,
                has_renderer,
            );
            let recolored = returned_color_space_actions(
                id,
                colors.0,
                colors.1,
                result,
                change,
                owns_render_lane,
            );
            let inspected = failed_inspection_actions(id, result, change);
            &&& presented.contains(Action::Retire(retirement)) <==> owns_render_lane && brought
            &&& presented.contains(Action::Defer(retirement)) <==> !owns_render_lane && brought
            &&& resized.contains(Action::Retire(retirement)) <==> owns_render_lane && brought
            &&& resized.contains(Action::Defer(retirement)) <==> !owns_render_lane && brought
            &&& recolored.contains(Action::Retire(retirement)) <==> owns_render_lane && brought
            &&& recolored.contains(Action::Defer(retirement)) <==> !owns_render_lane && brought
            &&& inspected.contains(Action::Retire(retirement)) <==> brought
            &&& !inspected.contains(Action::Defer(retirement))
        }),
{
    let rest = change_actions(change, owns_render_lane);
    let presented = returned_present_actions(id, method, sequence, result, change, owns_render_lane);
    let resized = returned_resize_actions(
        key,
        invocation,
        result,
        change,
        owns_render_lane,
        has_renderer,
    );
    let recolored = returned_color_space_actions(
        id,
        colors.0,
        colors.1,
        result,
        change,
        owns_render_lane,
    );
    let inspected = failed_inspection_actions(id, result, change);
    law_a_change_brings_its_own_retirement(change, owns_render_lane, retirement);
    law_a_change_brings_its_own_retirement(change, true, retirement);
    lemma_retirement_at_the_end(presented, rest, retirement);
    lemma_retirement_at_the_end(resized, rest, retirement);
    lemma_retirement_at_the_end(recolored, rest, retirement);
    lemma_retirement_at_the_end(inspected, change_actions(change, true), retirement);
}

proof fn lemma_retirement_at_the_end(
    actions: Seq<Action>,
    rest: Seq<Action>,
    retirement: SwapChainRetirement,
)
    requires
        rest.len() <= actions.len(),
        actions.skip(actions.len() - rest.len()) =~= rest,
        forall|i: int|
            0 <= i < actions.len() - rest.len() ==> !((#[trigger] actions[i]) is Retire)
                && !(actions[i] is Defer),
    ensures
        actions.contains(Action::Retire(retirement)) <==> rest.contains(Action::Retire(retirement)),
        actions.contains(Action::Defer(retirement)) <==> rest.contains(Action::Defer(retirement)),
{
    let count = actions.len() - rest.len();
    let first = actions.take(count);
    assert(actions =~= first + rest);
    lemma_contained_in_either(first, rest, Action::Retire(retirement));
    lemma_contained_in_either(first, rest, Action::Defer(retirement));
    assert forall|i: int| 0 <= i < first.len() implies !((#[trigger] first[i]) is Retire)
        && !(first[i] is Defer) by {
        assert(first[i] == actions[i]);
    }
}

} // verus!
