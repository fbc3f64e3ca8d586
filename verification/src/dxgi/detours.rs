//! Routing of intercepted calls and attachment of intercepted objects.
use std::collections::HashMap;
use vstd::prelude::*;
use crate::dxgi::error::DxgiError;
use crate::dxgi::event::{AttachOutcome, Boundary, FactoryInterface, ObjectKind, SwapChainInterface};
use crate::dxgi::sdk::{
    factory_guid, factory_interface, highest_factory, highest_swap_chain, is_highest_factory,
    is_highest_swap_chain, swap_chain_guid, swap_chain_interface, Guid, QueryReply, E_FAIL,
};
use crate::hook::dxgi::{
    CreateSwapChain, CreateSwapChainForComposition, CreateSwapChainForCompositionSurfaceHandle,
    CreateSwapChainForCoreWindow, CreateSwapChainForHwnd, Present, Present1, ResizeBuffers,
    ResizeBuffers1, SetColorSpace1,
};
use crate::hook::error::VtableError;
use crate::hook::layout::{ComInterfaceLayout, ComMethod, QueryInterface};
use crate::hook::shadow::{method_failure, VtableShadow};

verus! {

/// Original methods of an intercepted factory.
#[derive(Clone, Copy, Debug, PartialEq, Eq, Structural)]
pub struct FactoryOriginals {
    /// `QueryInterface`.
    pub query_interface: usize,
    /// `CreateSwapChain`.
    pub create_swap_chain: usize,
    /// `CreateSwapChainForHwnd`, from the second revision on.
    pub create_for_hwnd: Option<usize>,
    /// `CreateSwapChainForCoreWindow`, from the second revision on.
    pub create_for_core_window: Option<usize>,
    /// `CreateSwapChainForComposition`, from the second revision on.
    pub create_for_composition: Option<usize>,
}

/// Original methods of an intercepted media factory.
#[derive(Clone, Copy, Debug, PartialEq, Eq, Structural)]
pub struct FactoryMediaOriginals {
    /// `QueryInterface`.
    pub query_interface: usize,
    /// `CreateSwapChainForCompositionSurfaceHandle`.
    pub create_for_composition_surface_handle: usize,
}

/// Original methods of an intercepted swap chain.
#[derive(Clone, Copy, Debug, PartialEq, Eq, Structural)]
pub struct SwapChainOriginals {
    /// `QueryInterface`.
    pub query_interface: usize,
    /// `Present`.
    pub present: usize,
    /// `Present1`, from the first revision on.
    pub present1: Option<usize>,
    /// `ResizeBuffers`.
    pub resize_buffers: usize,
    /// `ResizeBuffers1`, from the third revision on.
    pub resize_buffers1: Option<usize>,
    /// `SetColorSpace1`, from the third revision on.
    pub set_color_space1: Option<usize>,
}

/// Original methods of an intercepted object.
#[derive(Clone, Copy, Debug, PartialEq, Eq, Structural)]
pub enum Originals {
    /// Of a numbered factory.
    Factory(FactoryOriginals),
    /// Of a media factory.
    FactoryMedia(FactoryMediaOriginals),
    /// Of a swap chain.
    SwapChain(SwapChainOriginals),
}

/// Where calls on one intercepted object go.
#[derive(Clone, Copy, Debug, PartialEq, Eq, Structural)]
pub struct Route {
    /// Manager that owns the object's hook.
    pub manager_id: u64,
    /// Original methods.
    pub originals: Originals,
}

impl Route {
    /// Whether the route belongs to an object family.
    pub open spec fn is_of(self, kind: ObjectKind) -> bool {
        match kind {
            ObjectKind::Factory => !(self.originals is SwapChain),
            ObjectKind::SwapChain => self.originals is SwapChain,
        }
    }
}

/// Routes of every intercepted object, by address.
#[derive(Clone, Debug)]
pub struct RouteTable {
    routes: HashMap<usize, Route>,
}

impl View for RouteTable {
    type V = Map<usize, Route>;

    closed spec fn view(&self) -> Map<usize, Route> {
        self.routes@
    }
}

impl RouteTable {
    /// Creates an empty table.
    pub fn new() -> (table: Self)
        ensures
            table@ == Map::<usize, Route>::empty(),
    {
        Self { routes: HashMap::new() }
    }

    /// Registers the route of an object. A route of the same manager stays as it is.
    pub fn register_route(&mut self, pointer: usize, route: Route) -> (result: Result<(), DxgiError>)
        ensures
            result is Ok <==> (old(self)@.contains_key(pointer) ==> old(self)@[pointer].manager_id
                == route.manager_id),
            result matches Err(error) ==> error == DxgiError::HookConflict,
            final(self)@ == if old(self)@.contains_key(pointer) {
                old(self)@
            } else {
                old(self)@.insert(pointer, route)
            },
    {
        match self.routes.get(&pointer) {
            Some(existing) => if existing.manager_id == route.manager_id {
                return Ok(());
            } else {
                return Err(DxgiError::HookConflict);
            },
            None => {},
        }
        self.routes.insert(pointer, route);
        Ok(())
    }

    /// Removes the route of an object if the manager owns it.
    pub fn unregister_route(&mut self, manager_id: u64, pointer: usize)
        ensures
            final(self)@ == if old(self)@.contains_key(pointer) && old(self)@[pointer].manager_id
                == manager_id {
                old(self)@.remove(pointer)
            } else {
                old(self)@
            },
    {
        let owned = match self.routes.get(&pointer) {
            Some(route) => route.manager_id == manager_id,
            None => false,
        };
        if owned {
            self.routes.remove(&pointer);
        }
    }

    /// Returns the route of an object if it belongs to the family that was called.
    pub fn route_for(&self, pointer: usize, kind: ObjectKind) -> (route: Option<Route>)
        ensures
            route == if self@.contains_key(pointer) && self@[pointer].is_of(kind) {
                Some(self@[pointer])
            } else {
                None
            },
    {
        match self.routes.get(&pointer) {
            None => None,
            Some(route) => match (route.originals, kind) {
                (Originals::Factory(_), ObjectKind::Factory) => Some(*route),
                (Originals::FactoryMedia(_), ObjectKind::Factory) => Some(*route),
                (Originals::SwapChain(_), ObjectKind::SwapChain) => Some(*route),
                _ => None,
            },
        }
    }

    /// Says whether an object is intercepted already, and by whom.
    pub fn existing_attachment(&self, manager_id: u64, pointer: usize) -> (existing: Result<
        Option<AttachOutcome>,
        DxgiError,
    >)
        ensures
            existing == if !self@.contains_key(pointer) {
                Ok::<Option<AttachOutcome>, DxgiError>(None)
            } else if self@[pointer].manager_id == manager_id {
                Ok(Some(AttachOutcome::AlreadyAttached))
            } else {
                Err(DxgiError::HookConflict)
            },
    {
        match self.routes.get(&pointer) {
            None => Ok(None),
            Some(route) => if route.manager_id == manager_id {
                Ok(Some(AttachOutcome::AlreadyAttached))
            } else {
                Err(DxgiError::HookConflict)
            },
        }
    }
}

/// What is wrong with an attachment request before the object is touched.
pub open spec fn request_failure(supported: bool, pointer: usize, closing: bool) -> Option<
    DxgiError,
> {
    if !supported {
        Some(DxgiError::UnsupportedInterface)
    } else if pointer == 0 {
        Some(DxgiError::NullInterface)
    } else if closing {
        Some(DxgiError::ManagerClosed)
    } else {
        None
    }
}

/// Checks a pointer and the manager before an attachment.
pub fn validate_attachment(pointer: usize, closing: bool) -> (result: Result<(), DxgiError>)
    ensures
        result is Ok <==> request_failure(true, pointer, closing) is None,
        result matches Err(error) ==> Some(error) == request_failure(true, pointer, closing),
{
    if pointer == 0 {
        return Err(DxgiError::NullInterface);
    }
    if closing {
        return Err(DxgiError::ManagerClosed);
    }
    Ok(())
}

/// How a factory attachment goes on.
#[derive(Clone, Copy, Debug, PartialEq, Eq, Structural)]
pub enum FactoryAttachStep {
    /// Nothing more is to be done.
    AlreadyAttached,
    /// The object is asked for its highest revision.
    Query(FactoryInterface),
}

/// How a swap-chain attachment goes on.
#[derive(Clone, Copy, Debug, PartialEq, Eq, Structural)]
pub enum SwapChainAttachStep {
    /// Nothing more is to be done.
    AlreadyAttached,
    /// The object is asked for its highest revision.
    Query(SwapChainInterface),
}

/// The outcome of an attachment request, up to where the object is queried.
pub open spec fn request_outcome(
    routes: Map<usize, Route>,
    manager_id: u64,
    supported: bool,
    pointer: usize,
    closing: bool,
) -> Result<bool, DxgiError> {
    match request_failure(supported, pointer, closing) {
        Some(error) => Err(error),
        None => if !routes.contains_key(pointer) {
            Ok(false)
        } else if routes[pointer].manager_id == manager_id {
            Ok(true)
        } else {
            Err(DxgiError::HookConflict)
        },
    }
}

/// Begins the attachment of a factory.
pub fn begin_attach_factory(
    routes: &RouteTable,
    manager_id: u64,
    closing: bool,
    pointer: usize,
    iid: Guid,
) -> (step: Result<FactoryAttachStep, DxgiError>)
    ensures
        ({
            let supported = exists|interface: FactoryInterface|
                #[trigger] factory_guid(interface) == iid;
            match request_outcome(routes@, manager_id, supported, pointer, closing) {
                Err(error) => step == Err::<FactoryAttachStep, DxgiError>(error),
                Ok(true) => step == Ok::<FactoryAttachStep, DxgiError>(
                    FactoryAttachStep::AlreadyAttached,
                ),
                Ok(false) => step matches Ok(FactoryAttachStep::Query(requested)) && factory_guid(
                    requested,
                ) == iid,
            }
        }),
{
    let requested = match factory_interface(iid) {
        Some(interface) => interface,
        None => {
            return Err(DxgiError::UnsupportedInterface);
        },
    };
    assert(factory_guid(requested) == iid);
    if let Err(error) = validate_attachment(pointer, closing) {
        return Err(error);
    }
    match routes.existing_attachment(manager_id, pointer) {
        Err(error) => Err(error),
        Ok(Some(_)) => Ok(FactoryAttachStep::AlreadyAttached),
        Ok(None) => Ok(FactoryAttachStep::Query(requested)),
    }
}

/// Begins the attachment of a swap chain.
pub fn begin_attach_swap_chain(
    routes: &RouteTable,
    manager_id: u64,
    closing: bool,
    pointer: usize,
    iid: Guid,
) -> (step: Result<SwapChainAttachStep, DxgiError>)
    ensures
        ({
            let supported = exists|interface: SwapChainInterface|
                #[trigger] swap_chain_guid(interface) == iid;
            match request_outcome(routes@, manager_id, supported, pointer, closing) {
                Err(error) => step == Err::<SwapChainAttachStep, DxgiError>(error),
                Ok(true) => step == Ok::<SwapChainAttachStep, DxgiError>(
                    SwapChainAttachStep::AlreadyAttached,
                ),
                Ok(false) => step matches Ok(SwapChainAttachStep::Query(requested))
                    && swap_chain_guid(requested) == iid,
            }
        }),
{
    let requested = match swap_chain_interface(iid) {
        Some(interface) => interface,
        None => {
            return Err(DxgiError::UnsupportedInterface);
        },
    };
    assert(swap_chain_guid(requested) == iid);
    if let Err(error) = validate_attachment(pointer, closing) {
        return Err(error);
    }
    match routes.existing_attachment(manager_id, pointer) {
        Err(error) => Err(error),
        Ok(Some(_)) => Ok(SwapChainAttachStep::AlreadyAttached),
        Ok(None) => Ok(SwapChainAttachStep::Query(requested)),
    }
}

/// The vtables that an attachment intercepts.
#[derive(Clone, Copy, Debug, PartialEq, Eq, Structural)]
pub struct AttachPlan<I> {
    /// Layout to intercept on the requested pointer.
    pub requested: I,
    /// A distinct derived interface of the same object, and its layout.
    pub derived: Option<(usize, I)>,
}

/// The plan for an object whose highest revision was asked for: a derived
/// interface that shares the pointer is intercepted in place, a distinct one
/// beside it.
pub open spec fn plan_of<I>(pointer: usize, requested: I, highest: Option<(I, usize)>) -> AttachPlan<
    I,
> {
    match highest {
        None => AttachPlan { requested, derived: None },
        Some((interface, queried)) => if queried == pointer {
            AttachPlan { requested: interface, derived: None }
        } else {
            AttachPlan { requested, derived: Some((queried, interface)) }
        },
    }
}

/// Plans which vtables an attachment intercepts.
pub fn attach_plan<I: Copy>(pointer: usize, requested: I, highest: Option<(I, usize)>) -> (plan:
    AttachPlan<I>)
    ensures
        plan == plan_of(pointer, requested, highest),
{
    match highest {
        None => AttachPlan { requested, derived: None },
        Some((interface, queried)) => if queried == pointer {
            AttachPlan { requested: interface, derived: None }
        } else {
            AttachPlan { requested, derived: Some((queried, interface)) }
        },
    }
}

/// How an attachment starts.
#[derive(Clone, Copy, Debug, PartialEq, Eq, Structural)]
pub enum AttachStart<I> {
    /// The manager owned the object already; nothing more is to be done.
    AlreadyAttached,
    /// The vtables of a plan are intercepted.
    Attach(AttachPlan<I>),
}

/// Whether a plan is for the factory layout that an IID names, and for the
/// highest revision that the object handed out.
pub open spec fn plans_factory<F: Fn(Guid) -> QueryReply>(
    query: F,
    pointer: usize,
    iid: Guid,
    plan: AttachPlan<FactoryInterface>,
    requested: FactoryInterface,
    highest: Option<(FactoryInterface, usize)>,
) -> bool {
    &&& factory_guid(requested) == iid
    &&& is_highest_factory(query, highest)
    &&& plan == plan_of(pointer, requested, highest)
}

/// Starts the attachment of a factory.
///
/// `has_vtable` says whether the object leads to an `IUnknown` vtable, and
/// `query` calls its original `QueryInterface`.
pub fn plan_factory_attachment<F: Fn(Guid) -> QueryReply>(
    routes: &RouteTable,
    manager_id: u64,
    closing: bool,
    pointer: usize,
    iid: Guid,
    has_vtable: bool,
    query: F,
) -> (start: Result<AttachStart<FactoryInterface>, DxgiError>)
    requires
        forall|iid: Guid| call_requires(query, (iid,)),
    ensures
        match request_outcome(
            routes@,
            manager_id,
            supported_by(ObjectKind::Factory, iid),
            pointer,
            closing,
        ) {
            Err(error) => start == Err::<AttachStart<FactoryInterface>, DxgiError>(error),
            Ok(true) => start == Ok::<AttachStart<FactoryInterface>, DxgiError>(
                AttachStart::AlreadyAttached,
            ),
            Ok(false) => if has_vtable {
                start matches Ok(AttachStart::Attach(plan)) && exists|
                    requested: FactoryInterface,
                    highest: Option<(FactoryInterface, usize)>,
                | #[trigger] plans_factory(query, pointer, iid, plan, requested, highest)
            } else {
                start == Err::<AttachStart<FactoryInterface>, DxgiError>(
                    DxgiError::UnsupportedInterface,
                )
            },
        },
{
    let requested = match begin_attach_factory(routes, manager_id, closing, pointer, iid) {
        Err(error) => {
            return Err(error);
        },
        Ok(FactoryAttachStep::AlreadyAttached) => {
            return Ok(AttachStart::AlreadyAttached);
        },
        Ok(FactoryAttachStep::Query(requested)) => requested,
    };
    if !has_vtable {
        return Err(DxgiError::UnsupportedInterface);
    }
    let highest = highest_factory(query);
    let plan = attach_plan(pointer, requested, highest);
    assert(plans_factory(query, pointer, iid, plan, requested, highest));
    Ok(AttachStart::Attach(plan))
}

/// Whether a plan is for the swap chain layout that an IID names, and for the
/// highest revision that the object handed out.
pub open spec fn plans_swap_chain<F: Fn(Guid) -> QueryReply>(
    query: F,
    pointer: usize,
    iid: Guid,
    plan: AttachPlan<SwapChainInterface>,
    requested: SwapChainInterface,
    highest: Option<(SwapChainInterface, usize)>,
) -> bool {
    &&& swap_chain_guid(requested) == iid
    &&& is_highest_swap_chain(query, highest)
    &&& plan == plan_of(pointer, requested, highest)
}

/// Starts the attachment of a swap chain.
///
/// `has_vtable` says whether the object leads to an `IUnknown` vtable, and
/// `query` calls its original `QueryInterface`.
pub fn plan_swap_chain_attachment<F: Fn(Guid) -> QueryReply>(
    routes: &RouteTable,
    manager_id: u64,
    closing: bool,
    pointer: usize,
    iid: Guid,
    has_vtable: bool,
    query: F,
) -> (start: Result<AttachStart<SwapChainInterface>, DxgiError>)
    requires
        forall|iid: Guid| call_requires(query, (iid,)),
    ensures
        match request_outcome(
            routes@,
            manager_id,
            supported_by(ObjectKind::SwapChain, iid),
            pointer,
            closing,
        ) {
            Err(error) => start == Err::<AttachStart<SwapChainInterface>, DxgiError>(error),
            Ok(true) => start == Ok::<AttachStart<SwapChainInterface>, DxgiError>(
                AttachStart::AlreadyAttached,
            ),
            Ok(false) => if has_vtable {
                start matches Ok(AttachStart::Attach(plan)) && exists|
                    requested: SwapChainInterface,
                    highest: Option<(SwapChainInterface, usize)>,
                | #[trigger] plans_swap_chain(query, pointer, iid, plan, requested, highest)
            } else {
                start == Err::<AttachStart<SwapChainInterface>, DxgiError>(
                    DxgiError::UnsupportedInterface,
                )
            },
        },
{
    let requested = match begin_attach_swap_chain(routes, manager_id, closing, pointer, iid) {
        Err(error) => {
            return Err(error);
        },
        Ok(SwapChainAttachStep::AlreadyAttached) => {
            return Ok(AttachStart::AlreadyAttached);
        },
        Ok(SwapChainAttachStep::Query(requested)) => requested,
    };
    if !has_vtable {
        return Err(DxgiError::UnsupportedInterface);
    }
    let highest = highest_swap_chain(query);
    let plan = attach_plan(pointer, requested, highest);
    assert(plans_swap_chain(query, pointer, iid, plan, requested, highest));
    Ok(AttachStart::Attach(plan))
}

/// What an attachment amounts to once its vtables were intercepted.
#[derive(Clone, Copy, Debug, PartialEq, Eq)]
pub struct AttachCompletion {
    /// Result of the request.
    pub result: Result<AttachOutcome, DxgiError>,
    /// Failure of the derived interface, which is reported and not returned.
    pub report: Option<DxgiError>,
}

/// What an attachment amounts to.
pub open spec fn completion_of(
    requested: Result<(), DxgiError>,
    derived: Option<Result<(), DxgiError>>,
) -> AttachCompletion {
    match requested {
        Err(error) => AttachCompletion { result: Err(error), report: None },
        Ok(()) => match derived {
            None => AttachCompletion {
                result: Ok(AttachOutcome::Attached { interfaces: 1 }),
                report: None,
            },
            Some(Ok(())) => AttachCompletion {
                result: Ok(AttachOutcome::Attached { interfaces: 2 }),
                report: None,
            },
            Some(Err(DxgiError::HookConflict)) => AttachCompletion {
                result: Err(DxgiError::HookConflict),
                report: None,
            },
            Some(Err(error)) => AttachCompletion {
                result: Ok(AttachOutcome::Attached { interfaces: 1 }),
                report: Some(error),
            },
        },
    }
}

/// Completes an attachment. The derived interface is tried only after the
/// requested pointer was intercepted.
pub fn complete_attachment(
    requested: Result<(), DxgiError>,
    derived: Option<Result<(), DxgiError>>,
) -> (completion: AttachCompletion)
    ensures
        completion == completion_of(requested, derived),
{
    match requested {
        Err(error) => AttachCompletion { result: Err(error), report: None },
        Ok(()) => match derived {
            None => AttachCompletion {
                result: Ok(AttachOutcome::Attached { interfaces: 1 }),
                report: None,
            },
            Some(Ok(())) => AttachCompletion {
                result: Ok(AttachOutcome::Attached { interfaces: 2 }),
                report: None,
            },
            Some(Err(DxgiError::HookConflict)) => AttachCompletion {
                result: Err(DxgiError::HookConflict),
                report: None,
            },
            Some(Err(error)) => AttachCompletion {
                result: Ok(AttachOutcome::Attached { interfaces: 1 }),
                report: Some(error),
            },
        },
    }
}

/// Addresses of the detours that are published for factories.
#[derive(Clone, Copy, Debug, PartialEq, Eq, Structural)]
pub struct FactoryDetours {
    /// For `QueryInterface`.
    pub query_interface: usize,
    /// For `CreateSwapChain`.
    pub create_swap_chain: usize,
    /// For `CreateSwapChainForHwnd`.
    pub create_for_hwnd: usize,
    /// For `CreateSwapChainForCoreWindow`.
    pub create_for_core_window: usize,
    /// For `CreateSwapChainForComposition`.
    pub create_for_composition: usize,
    /// For `CreateSwapChainForCompositionSurfaceHandle`.
    pub create_for_composition_surface_handle: usize,
}

/// Addresses of the detours that are published for swap chains.
#[derive(Clone, Copy, Debug, PartialEq, Eq, Structural)]
pub struct SwapChainDetours {
    /// For `QueryInterface`.
    pub query_interface: usize,
    /// For `Present`.
    pub present: usize,
    /// For `Present1`.
    pub present1: usize,
    /// For `ResizeBuffers`.
    pub resize_buffers: usize,
    /// For `SetColorSpace1`.
    pub set_color_space1: usize,
    /// For `ResizeBuffers1`.
    pub resize_buffers1: usize,
}

/// Whether a method has a slot in the layout.
pub open spec fn available<L: ComInterfaceLayout, M: ComMethod<L>>() -> bool {
    method_failure::<L, M>() is None
}

/// Puts detours into the shadow of a first-generation factory.
pub fn prepare_factory_base<L: ComInterfaceLayout>(
    shadow: &mut VtableShadow<L>,
    detours: FactoryDetours,
) -> (originals: Result<FactoryOriginals, VtableError>) where
    QueryInterface: ComMethod<L>,
    CreateSwapChain: ComMethod<L>,

    requires
        old(shadow).wf(),
        detours.query_interface != 0,
        detours.create_swap_chain != 0,
    ensures
        final(shadow).wf(),
        final(shadow).originals() == old(shadow).originals(),
        final(shadow).target() == old(shadow).target(),
        final(shadow).source() == old(shadow).source(),
        originals is Ok <==> available::<L, QueryInterface>() && available::<L, CreateSwapChain>(),
        originals matches Err(error) ==> final(shadow).prepared() == old(shadow).prepared()
            && Some(error) == if method_failure::<L, QueryInterface>() is Some {
            method_failure::<L, QueryInterface>()
        } else {
            method_failure::<L, CreateSwapChain>()
        },
        originals matches Ok(found) ==> {
            &&& found == (FactoryOriginals {
                query_interface: old(shadow).originals()[<QueryInterface as ComMethod<L>>::INDEX as int],
                create_swap_chain: old(shadow).originals()[<CreateSwapChain as ComMethod<L>>::INDEX as int],
                create_for_hwnd: None,
                create_for_core_window: None,
                create_for_composition: None,
            })
            &&& final(shadow).prepared() == old(shadow).prepared().update(
                <QueryInterface as ComMethod<L>>::INDEX as int,
                detours.query_interface,
            ).update(
                <CreateSwapChain as ComMethod<L>>::INDEX as int,
                detours.create_swap_chain,
            )
        },
{
    let query_interface: usize = match shadow.original::<QueryInterface>() {
        Ok(function) => function,
        Err(error) => {
            return Err(error);
        },
    };
    let create_swap_chain: usize = match shadow.original::<CreateSwapChain>() {
        Ok(function) => function,
        Err(error) => {
            return Err(error);
        },
    };
    if let Err(error) = shadow.replace::<QueryInterface>(detours.query_interface) {
        return Err(error);
    }
    if let Err(error) = shadow.replace::<CreateSwapChain>(detours.create_swap_chain) {
        return Err(error);
    }
    Ok(
        FactoryOriginals {
            query_interface,
            create_swap_chain,
            create_for_hwnd: None,
            create_for_core_window: None,
            create_for_composition: None,
        },
    )
}

/// Puts detours into the shadow of a factory from the second revision on.
pub fn prepare_factory2<L: ComInterfaceLayout>(
    shadow: &mut VtableShadow<L>,
    detours: FactoryDetours,
) -> (originals: Result<FactoryOriginals, VtableError>) where
    QueryInterface: ComMethod<L>,
    CreateSwapChain: ComMethod<L>,
    CreateSwapChainForHwnd: ComMethod<L>,
    CreateSwapChainForCoreWindow: ComMethod<L>,
    CreateSwapChainForComposition: ComMethod<L>,

    requires
        old(shadow).wf(),
        detours.query_interface != 0,
        detours.create_swap_chain != 0,
        detours.create_for_hwnd != 0,
        detours.create_for_core_window != 0,
        detours.create_for_composition != 0,
    ensures
        final(shadow).wf(),
        final(shadow).originals() == old(shadow).originals(),
        final(shadow).target() == old(shadow).target(),
        final(shadow).source() == old(shadow).source(),
        originals is Ok <==> available::<L, QueryInterface>() && available::<L, CreateSwapChain>() && available::<L, CreateSwapChainForHwnd>() && available::<L, CreateSwapChainForCoreWindow>() && available::<L, CreateSwapChainForComposition>(),
        originals matches Err(error) ==> final(shadow).prepared() == old(shadow).prepared()
            && Some(error) == if method_failure::<L, QueryInterface>() is Some {
            method_failure::<L, QueryInterface>()
        } else if method_failure::<L, CreateSwapChain>() is Some {
            method_failure::<L, CreateSwapChain>()
        } else if method_failure::<L, CreateSwapChainForHwnd>() is Some {
            method_failure::<L, CreateSwapChainForHwnd>()
        } else if method_failure::<L, CreateSwapChainForCoreWindow>() is Some {
            method_failure::<L, CreateSwapChainForCoreWindow>()
        } else {
            method_failure::<L, CreateSwapChainForComposition>()
        },
        originals matches Ok(found) ==> {
            &&& found == (FactoryOriginals {
                query_interface: old(shadow).originals()[<QueryInterface as ComMethod<L>>::INDEX as int],
                create_swap_chain: old(shadow).originals()[<CreateSwapChain as ComMethod<L>>::INDEX as int],
                create_for_hwnd: Some(old(shadow).originals()[<CreateSwapChainForHwnd as ComMethod<L>>::INDEX as int]),
                create_for_core_window: Some(old(shadow).originals()[<CreateSwapChainForCoreWindow as ComMethod<L>>::INDEX as int]),
                create_for_composition: Some(old(shadow).originals()[<CreateSwapChainForComposition as ComMethod<L>>::INDEX as int]),
            })
            &&& final(shadow).prepared() == old(shadow).prepared().update(
                <QueryInterface as ComMethod<L>>::INDEX as int,
                detours.query_interface,
            ).update(
                <CreateSwapChain as ComMethod<L>>::INDEX as int,
                detours.create_swap_chain,
            ).update(
                <CreateSwapChainForHwnd as ComMethod<L>>::INDEX as int,
                detours.create_for_hwnd,
            ).update(
                <CreateSwapChainForCoreWindow as ComMethod<L>>::INDEX as int,
                detours.create_for_core_window,
            ).update(
                <CreateSwapChainForComposition as ComMethod<L>>::INDEX as int,
                detours.create_for_composition,
            )
        },
{
    let query_interface: usize = match shadow.original::<QueryInterface>() {
        Ok(function) => function,
        Err(error) => {
            return Err(error);
        },
    };
    let create_swap_chain: usize = match shadow.original::<CreateSwapChain>() {
        Ok(function) => function,
        Err(error) => {
            return Err(error);
        },
    };
    let create_for_hwnd: usize = match shadow.original::<CreateSwapChainForHwnd>() {
        Ok(function) => function,
        Err(error) => {
            return Err(error);
        },
    };
    let create_for_core_window: usize = match shadow.original::<CreateSwapChainForCoreWindow>() {
        Ok(function) => function,
        Err(error) => {
            return Err(error);
        },
    };
    let create_for_composition: usize = match shadow.original::<CreateSwapChainForComposition>() {
        Ok(function) => function,
        Err(error) => {
            return Err(error);
        },
    };
    if let Err(error) = shadow.replace::<QueryInterface>(detours.query_interface) {
        return Err(error);
    }
    if let Err(error) = shadow.replace::<CreateSwapChain>(detours.create_swap_chain) {
        return Err(error);
    }
    if let Err(error) = shadow.replace::<CreateSwapChainForHwnd>(detours.create_for_hwnd) {
        return Err(error);
    }
    if let Err(error) = shadow.replace::<CreateSwapChainForCoreWindow>(detours.create_for_core_window) {
        return Err(error);
    }
    if let Err(error) = shadow.replace::<CreateSwapChainForComposition>(detours.create_for_composition) {
        return Err(error);
    }
    Ok(
        FactoryOriginals {
            query_interface,
            create_swap_chain,
            create_for_hwnd: Some(create_for_hwnd),
            create_for_core_window: Some(create_for_core_window),
            create_for_composition: Some(create_for_composition),
        },
    )
}

/// Puts detours into the shadow of a media factory.
pub fn prepare_factory_media<L: ComInterfaceLayout>(
    shadow: &mut VtableShadow<L>,
    detours: FactoryDetours,
) -> (originals: Result<FactoryMediaOriginals, VtableError>) where
    QueryInterface: ComMethod<L>,
    CreateSwapChainForCompositionSurfaceHandle: ComMethod<L>,

    requires
        old(shadow).wf(),
        detours.query_interface != 0,
        detours.create_for_composition_surface_handle != 0,
    ensures
        final(shadow).wf(),
        final(shadow).originals() == old(shadow).originals(),
        final(shadow).target() == old(shadow).target(),
        final(shadow).source() == old(shadow).source(),
        originals is Ok <==> available::<L, QueryInterface>() && available::<L, CreateSwapChainForCompositionSurfaceHandle>(),
        originals matches Err(error) ==> final(shadow).prepared() == old(shadow).prepared()
            && Some(error) == if method_failure::<L, QueryInterface>() is Some {
            method_failure::<L, QueryInterface>()
        } else {
            method_failure::<L, CreateSwapChainForCompositionSurfaceHandle>()
        },
        originals matches Ok(found) ==> {
            &&& found == (FactoryMediaOriginals {
                query_interface: old(shadow).originals()[<QueryInterface as ComMethod<L>>::INDEX as int],
                create_for_composition_surface_handle: old(shadow).originals()[<CreateSwapChainForCompositionSurfaceHandle as ComMethod<L>>::INDEX as int],
            })
            &&& final(shadow).prepared() == old(shadow).prepared().update(
                <QueryInterface as ComMethod<L>>::INDEX as int,
                detours.query_interface,
            ).update(
                <CreateSwapChainForCompositionSurfaceHandle as ComMethod<L>>::INDEX as int,
                detours.create_for_composition_surface_handle,
            )
        },
{
    let query_interface: usize = match shadow.original::<QueryInterface>() {
        Ok(function) => function,
        Err(error) => {
            return Err(error);
        },
    };
    let create_for_composition_surface_handle: usize = match shadow.original::<CreateSwapChainForCompositionSurfaceHandle>() {
        Ok(function) => function,
        Err(error) => {
            return Err(error);
        },
    };
    if let Err(error) = shadow.replace::<QueryInterface>(detours.query_interface) {
        return Err(error);
    }
    if let Err(error) = shadow.replace::<CreateSwapChainForCompositionSurfaceHandle>(detours.create_for_composition_surface_handle) {
        return Err(error);
    }
    Ok(
        FactoryMediaOriginals {
            query_interface,
            create_for_composition_surface_handle,
        },
    )
}

/// Puts detours into the shadow of a base swap chain.
pub fn prepare_swap_chain_base<L: ComInterfaceLayout>(
    shadow: &mut VtableShadow<L>,
    detours: SwapChainDetours,
) -> (originals: Result<SwapChainOriginals, VtableError>) where
    QueryInterface: ComMethod<L>,
    Present: ComMethod<L>,
    ResizeBuffers: ComMethod<L>,

    requires
        old(shadow).wf(),
        detours.query_interface != 0,
        detours.present != 0,
        detours.resize_buffers != 0,
    ensures
        final(shadow).wf(),
        final(shadow).originals() == old(shadow).originals(),
        final(shadow).target() == old(shadow).target(),
        final(shadow).source() == old(shadow).source(),
        originals is Ok <==> available::<L, QueryInterface>() && available::<L, Present>() && available::<L, ResizeBuffers>(),
        originals matches Err(error) ==> final(shadow).prepared() == old(shadow).prepared()
            && Some(error) == if method_failure::<L, QueryInterface>() is Some {
            method_failure::<L, QueryInterface>()
        } else if method_failure::<L, Present>() is Some {
            method_failure::<L, Present>()
        } else {
            method_failure::<L, ResizeBuffers>()
        },
        originals matches Ok(found) ==> {
            &&& found == (SwapChainOriginals {
                query_interface: old(shadow).originals()[<QueryInterface as ComMethod<L>>::INDEX as int],
                present: old(shadow).originals()[<Present as ComMethod<L>>::INDEX as int],
                present1: None,
                resize_buffers: old(shadow).originals()[<ResizeBuffers as ComMethod<L>>::INDEX as int],
                resize_buffers1: None,
                set_color_space1: None,
            })
            &&& final(shadow).prepared() == old(shadow).prepared().update(
                <QueryInterface as ComMethod<L>>::INDEX as int,
                detours.query_interface,
            ).update(
                <Present as ComMethod<L>>::INDEX as int,
                detours.present,
            ).update(
                <ResizeBuffers as ComMethod<L>>::INDEX as int,
                detours.resize_buffers,
            )
        },
{
    let query_interface: usize = match shadow.original::<QueryInterface>() {
        Ok(function) => function,
        Err(error) => {
            return Err(error);
        },
    };
    let present: usize = match shadow.original::<Present>() {
        Ok(function) => function,
        Err(error) => {
            return Err(error);
        },
    };
    let resize_buffers: usize = match shadow.original::<ResizeBuffers>() {
        Ok(function) => function,
        Err(error) => {
            return Err(error);
        },
    };
    if let Err(error) = shadow.replace::<QueryInterface>(detours.query_interface) {
        return Err(error);
    }
    if let Err(error) = shadow.replace::<Present>(detours.present) {
        return Err(error);
    }
    if let Err(error) = shadow.replace::<ResizeBuffers>(detours.resize_buffers) {
        return Err(error);
    }
    Ok(
        SwapChainOriginals {
            query_interface,
            present,
            present1: None,
            resize_buffers,
            resize_buffers1: None,
            set_color_space1: None,
        },
    )
}

/// Puts detours into the shadow of a swap chain of the first or second revision.
pub fn prepare_swap_chain1<L: ComInterfaceLayout>(
    shadow: &mut VtableShadow<L>,
    detours: SwapChainDetours,
) -> (originals: Result<SwapChainOriginals, VtableError>) where
    QueryInterface: ComMethod<L>,
    Present: ComMethod<L>,
    Present1: ComMethod<L>,
    ResizeBuffers: ComMethod<L>,

    requires
        old(shadow).wf(),
        detours.query_interface != 0,
        detours.present != 0,
        detours.present1 != 0,
        detours.resize_buffers != 0,
    ensures
        final(shadow).wf(),
        final(shadow).originals() == old(shadow).originals(),
        final(shadow).target() == old(shadow).target(),
        final(shadow).source() == old(shadow).source(),
        originals is Ok <==> available::<L, QueryInterface>() && available::<L, Present>() && available::<L, Present1>() && available::<L, ResizeBuffers>(),
        originals matches Err(error) ==> final(shadow).prepared() == old(shadow).prepared()
            && Some(error) == if method_failure::<L, QueryInterface>() is Some {
            method_failure::<L, QueryInterface>()
        } else if method_failure::<L, Present>() is Some {
            method_failure::<L, Present>()
        } else if method_failure::<L, Present1>() is Some {
            method_failure::<L, Present1>()
        } else {
            method_failure::<L, ResizeBuffers>()
        },
        originals matches Ok(found) ==> {
            &&& found == (SwapChainOriginals {
                query_interface: old(shadow).originals()[<QueryInterface as ComMethod<L>>::INDEX as int],
                present: old(shadow).originals()[<Present as ComMethod<L>>::INDEX as int],
                present1: Some(old(shadow).originals()[<Present1 as ComMethod<L>>::INDEX as int]),
                resize_buffers: old(shadow).originals()[<ResizeBuffers as ComMethod<L>>::INDEX as int],
                resize_buffers1: None,
                set_color_space1: None,
            })
            &&& final(shadow).prepared() == old(shadow).prepared().update(
                <QueryInterface as ComMethod<L>>::INDEX as int,
                detours.query_interface,
            ).update(
                <Present as ComMethod<L>>::INDEX as int,
                detours.present,
            ).update(
                <Present1 as ComMethod<L>>::INDEX as int,
                detours.present1,
            ).update(
                <ResizeBuffers as ComMethod<L>>::INDEX as int,
                detours.resize_buffers,
            )
        },
{
    let query_interface: usize = match shadow.original::<QueryInterface>() {
        Ok(function) => function,
        Err(error) => {
            return Err(error);
        },
    };
    let present: usize = match shadow.original::<Present>() {
        Ok(function) => function,
        Err(error) => {
            return Err(error);
        },
    };
    let present1: usize = match shadow.original::<Present1>() {
        Ok(function) => function,
        Err(error) => {
            return Err(error);
        },
    };
    let resize_buffers: usize = match shadow.original::<ResizeBuffers>() {
        Ok(function) => function,
        Err(error) => {
            return Err(error);
        },
    };
    if let Err(error) = shadow.replace::<QueryInterface>(detours.query_interface) {
        return Err(error);
    }
    if let Err(error) = shadow.replace::<Present>(detours.present) {
        return Err(error);
    }
    if let Err(error) = shadow.replace::<Present1>(detours.present1) {
        return Err(error);
    }
    if let Err(error) = shadow.replace::<ResizeBuffers>(detours.resize_buffers) {
        return Err(error);
    }
    Ok(
        SwapChainOriginals {
            query_interface,
            present,
            present1: Some(present1),
            resize_buffers,
            resize_buffers1: None,
            set_color_space1: None,
        },
    )
}

/// Puts detours into the shadow of a swap chain from the third revision on.
pub fn prepare_swap_chain3<L: ComInterfaceLayout>(
    shadow: &mut VtableShadow<L>,
    detours: SwapChainDetours,
) -> (originals: Result<SwapChainOriginals, VtableError>) where
    QueryInterface: ComMethod<L>,
    Present: ComMethod<L>,
    Present1: ComMethod<L>,
    ResizeBuffers: ComMethod<L>,
    SetColorSpace1: ComMethod<L>,
    ResizeBuffers1: ComMethod<L>,

    requires
        old(shadow).wf(),
        detours.query_interface != 0,
        detours.present != 0,
        detours.present1 != 0,
        detours.resize_buffers != 0,
        detours.set_color_space1 != 0,
        detours.resize_buffers1 != 0,
    ensures
        final(shadow).wf(),
        final(shadow).originals() == old(shadow).originals(),
        final(shadow).target() == old(shadow).target(),
        final(shadow).source() == old(shadow).source(),
        originals is Ok <==> available::<L, QueryInterface>() && available::<L, Present>() && available::<L, Present1>() && available::<L, ResizeBuffers>() && available::<L, SetColorSpace1>() && available::<L, ResizeBuffers1>(),
        originals matches Err(error) ==> final(shadow).prepared() == old(shadow).prepared()
            && Some(error) == if method_failure::<L, QueryInterface>() is Some {
            method_failure::<L, QueryInterface>()
        } else if method_failure::<L, Present>() is Some {
            method_failure::<L, Present>()
        } else if method_failure::<L, Present1>() is Some {
            method_failure::<L, Present1>()
        } else if method_failure::<L, ResizeBuffers>() is Some {
            method_failure::<L, ResizeBuffers>()
        } else if method_failure::<L, SetColorSpace1>() is Some {
            method_failure::<L, SetColorSpace1>()
        } else {
            method_failure::<L, ResizeBuffers1>()
        },
        originals matches Ok(found) ==> {
            &&& found == (SwapChainOriginals {
                query_interface: old(shadow).originals()[<QueryInterface as ComMethod<L>>::INDEX as int],
                present: old(shadow).originals()[<Present as ComMethod<L>>::INDEX as int],
                present1: Some(old(shadow).originals()[<Present1 as ComMethod<L>>::INDEX as int]),
                resize_buffers: old(shadow).originals()[<ResizeBuffers as ComMethod<L>>::INDEX as int],
                resize_buffers1: Some(old(shadow).originals()[<ResizeBuffers1 as ComMethod<L>>::INDEX as int]),
                set_color_space1: Some(old(shadow).originals()[<SetColorSpace1 as ComMethod<L>>::INDEX as int]),
            })
            &&& final(shadow).prepared() == old(shadow).prepared().update(
                <QueryInterface as ComMethod<L>>::INDEX as int,
                detours.query_interface,
            ).update(
                <Present as ComMethod<L>>::INDEX as int,
                detours.present,
            ).update(
                <Present1 as ComMethod<L>>::INDEX as int,
                detours.present1,
            ).update(
                <ResizeBuffers as ComMethod<L>>::INDEX as int,
                detours.resize_buffers,
            ).update(
                <SetColorSpace1 as ComMethod<L>>::INDEX as int,
                detours.set_color_space1,
            ).update(
                <ResizeBuffers1 as ComMethod<L>>::INDEX as int,
                detours.resize_buffers1,
            )
        },
{
    let query_interface: usize = match shadow.original::<QueryInterface>() {
        Ok(function) => function,
        Err(error) => {
            return Err(error);
        },
    };
    let present: usize = match shadow.original::<Present>() {
        Ok(function) => function,
        Err(error) => {
            return Err(error);
        },
    };
    let present1: usize = match shadow.original::<Present1>() {
        Ok(function) => function,
        Err(error) => {
            return Err(error);
        },
    };
    let resize_buffers: usize = match shadow.original::<ResizeBuffers>() {
        Ok(function) => function,
        Err(error) => {
            return Err(error);
        },
    };
    let set_color_space1: usize = match shadow.original::<SetColorSpace1>() {
        Ok(function) => function,
        Err(error) => {
            return Err(error);
        },
    };
    let resize_buffers1: usize = match shadow.original::<ResizeBuffers1>() {
        Ok(function) => function,
        Err(error) => {
            return Err(error);
        },
    };
    if let Err(error) = shadow.replace::<QueryInterface>(detours.query_interface) {
        return Err(error);
    }
    if let Err(error) = shadow.replace::<Present>(detours.present) {
        return Err(error);
    }
    if let Err(error) = shadow.replace::<Present1>(detours.present1) {
        return Err(error);
    }
    if let Err(error) = shadow.replace::<ResizeBuffers>(detours.resize_buffers) {
        return Err(error);
    }
    if let Err(error) = shadow.replace::<SetColorSpace1>(detours.set_color_space1) {
        return Err(error);
    }
    if let Err(error) = shadow.replace::<ResizeBuffers1>(detours.resize_buffers1) {
        return Err(error);
    }
    Ok(
        SwapChainOriginals {
            query_interface,
            present,
            present1: Some(present1),
            resize_buffers,
            resize_buffers1: Some(resize_buffers1),
            set_color_space1: Some(set_color_space1),
        },
    )
}

/// Intercepted method.
#[derive(Clone, Copy, Debug, PartialEq, Eq, Structural)]
pub enum InterceptedMethod {
    /// `IUnknown::QueryInterface` on an object of a family.
    QueryInterface(ObjectKind),
    /// `IDXGIFactory::CreateSwapChain`.
    CreateSwapChain,
    /// `IDXGIFactory2::CreateSwapChainForHwnd`.
    CreateSwapChainForHwnd,
    /// `IDXGIFactory2::CreateSwapChainForCoreWindow`.
    CreateSwapChainForCoreWindow,
    /// `IDXGIFactory2::CreateSwapChainForComposition`.
    CreateSwapChainForComposition,
    /// `IDXGIFactoryMedia::CreateSwapChainForCompositionSurfaceHandle`.
    CreateSwapChainForCompositionSurfaceHandle,
    /// `IDXGISwapChain::Present`.
    Present,
    /// `IDXGISwapChain1::Present1`.
    Present1,
    /// `IDXGISwapChain::ResizeBuffers`.
    ResizeBuffers,
    /// `IDXGISwapChain3::SetColorSpace1`.
    SetColorSpace1,
    /// `IDXGISwapChain3::ResizeBuffers1`.
    ResizeBuffers1,
}

impl InterceptedMethod {
    /// The original method of a route, if the route has it.
    pub open spec fn original_in(self, route: Route) -> Option<usize> {
        match (self, route.originals) {
            (InterceptedMethod::QueryInterface(ObjectKind::Factory), Originals::Factory(found)) =>
                Some(found.query_interface),
            (
                InterceptedMethod::QueryInterface(ObjectKind::Factory),
                Originals::FactoryMedia(found),
            ) => Some(found.query_interface),
            (
                InterceptedMethod::QueryInterface(ObjectKind::SwapChain),
                Originals::SwapChain(found),
            ) => Some(found.query_interface),
            (InterceptedMethod::CreateSwapChain, Originals::Factory(found)) => Some(
                found.create_swap_chain,
            ),
            (InterceptedMethod::CreateSwapChainForHwnd, Originals::Factory(found)) =>
                found.create_for_hwnd,
            (InterceptedMethod::CreateSwapChainForCoreWindow, Originals::Factory(found)) =>
                found.create_for_core_window,
            (InterceptedMethod::CreateSwapChainForComposition, Originals::Factory(found)) =>
                found.create_for_composition,
            (
                InterceptedMethod::CreateSwapChainForCompositionSurfaceHandle,
                Originals::FactoryMedia(found),
            ) => Some(found.create_for_composition_surface_handle),
            (InterceptedMethod::Present, Originals::SwapChain(found)) => Some(found.present),
            (InterceptedMethod::Present1, Originals::SwapChain(found)) => found.present1,
            (InterceptedMethod::ResizeBuffers, Originals::SwapChain(found)) => Some(
                found.resize_buffers,
            ),
            (InterceptedMethod::SetColorSpace1, Originals::SwapChain(found)) =>
                found.set_color_space1,
            (InterceptedMethod::ResizeBuffers1, Originals::SwapChain(found)) =>
                found.resize_buffers1,
            _ => None,
        }
    }

    /// Returns the original method of a route, if the route has it.
    pub fn original(self, route: Option<Route>) -> (original: Option<usize>)
        ensures
            original == match route {
                None => None,
                Some(found) => self.original_in(found),
            },
    {
        let route = match route {
            None => {
                return None;
            },
            Some(found) => found,
        };
        match (self, route.originals) {
            (InterceptedMethod::QueryInterface(ObjectKind::Factory), Originals::Factory(found)) =>
                Some(found.query_interface),
            (
                InterceptedMethod::QueryInterface(ObjectKind::Factory),
                Originals::FactoryMedia(found),
            ) => Some(found.query_interface),
            (
                InterceptedMethod::QueryInterface(ObjectKind::SwapChain),
                Originals::SwapChain(found),
            ) => Some(found.query_interface),
            (InterceptedMethod::CreateSwapChain, Originals::Factory(found)) => Some(
                found.create_swap_chain,
            ),
            (InterceptedMethod::CreateSwapChainForHwnd, Originals::Factory(found)) =>
                found.create_for_hwnd,
            (InterceptedMethod::CreateSwapChainForCoreWindow, Originals::Factory(found)) =>
                found.create_for_core_window,
            (InterceptedMethod::CreateSwapChainForComposition, Originals::Factory(found)) =>
                found.create_for_composition,
            (
                InterceptedMethod::CreateSwapChainForCompositionSurfaceHandle,
                Originals::FactoryMedia(found),
            ) => Some(found.create_for_composition_surface_handle),
            (InterceptedMethod::Present, Originals::SwapChain(found)) => Some(found.present),
            (InterceptedMethod::Present1, Originals::SwapChain(found)) => found.present1,
            (InterceptedMethod::ResizeBuffers, Originals::SwapChain(found)) => Some(
                found.resize_buffers,
            ),
            (InterceptedMethod::SetColorSpace1, Originals::SwapChain(found)) =>
                found.set_color_space1,
            (InterceptedMethod::ResizeBuffers1, Originals::SwapChain(found)) =>
                found.resize_buffers1,
            _ => None,
        }
    }

    /// The boundary that a panic around the method is reported under.
    pub open spec fn boundary_of(self) -> Boundary {
        match self {
            InterceptedMethod::QueryInterface(ObjectKind::Factory) =>
                Boundary::FactoryQueryInterface,
            InterceptedMethod::QueryInterface(ObjectKind::SwapChain) =>
                Boundary::SwapChainQueryInterface,
            InterceptedMethod::Present => Boundary::Present,
            InterceptedMethod::Present1 => Boundary::Present,
            InterceptedMethod::ResizeBuffers => Boundary::ResizeBuffers,
            InterceptedMethod::ResizeBuffers1 => Boundary::ResizeBuffers,
            InterceptedMethod::SetColorSpace1 => Boundary::SetColorSpace1,
            _ => Boundary::FactoryCreateSwapChain,
        }
    }

    /// Returns the boundary that a panic around the method is reported under.
    pub fn boundary(self) -> (boundary: Boundary)
        ensures
            boundary == self.boundary_of(),
    {
        match self {
            InterceptedMethod::QueryInterface(ObjectKind::Factory) =>
                Boundary::FactoryQueryInterface,
            InterceptedMethod::QueryInterface(ObjectKind::SwapChain) =>
                Boundary::SwapChainQueryInterface,
            InterceptedMethod::Present => Boundary::Present,
            InterceptedMethod::Present1 => Boundary::Present,
            InterceptedMethod::ResizeBuffers => Boundary::ResizeBuffers,
            InterceptedMethod::ResizeBuffers1 => Boundary::ResizeBuffers,
            InterceptedMethod::SetColorSpace1 => Boundary::SetColorSpace1,
            _ => Boundary::FactoryCreateSwapChain,
        }
    }

    /// The layout of the swap chain that a creation method hands out.
    pub open spec fn created_layout(self) -> SwapChainInterface {
        match self {
            InterceptedMethod::CreateSwapChain => SwapChainInterface::Base,
            _ => SwapChainInterface::V1,
        }
    }

    /// Returns the layout of the swap chain that a creation method hands out.
    pub fn created_interface(self) -> (interface: SwapChainInterface)
        ensures
            interface == self.created_layout(),
    {
        match self {
            InterceptedMethod::CreateSwapChain => SwapChainInterface::Base,
            _ => SwapChainInterface::V1,
        }
    }

    /// Whether a restored vtable that still leads to the detour is told apart.
    pub open spec fn guards_current(self) -> bool {
        match self {
            InterceptedMethod::QueryInterface(_) => true,
            InterceptedMethod::CreateSwapChainForCompositionSurfaceHandle => true,
            InterceptedMethod::Present => true,
            InterceptedMethod::ResizeBuffers => true,
            InterceptedMethod::SetColorSpace1 => true,
            InterceptedMethod::ResizeBuffers1 => true,
            _ => false,
        }
    }

    fn has_current_guard(self) -> (guarded: bool)
        ensures
            guarded == self.guards_current(),
    {
        match self {
            InterceptedMethod::QueryInterface(_) => true,
            InterceptedMethod::CreateSwapChainForCompositionSurfaceHandle => true,
            InterceptedMethod::Present => true,
            InterceptedMethod::ResizeBuffers => true,
            InterceptedMethod::SetColorSpace1 => true,
            InterceptedMethod::ResizeBuffers1 => true,
            _ => false,
        }
    }
}

/// How an intercepted call ends.
#[derive(Clone, Copy, Debug, PartialEq, Eq, Structural)]
pub enum Completion {
    /// The result is handed back to the caller.
    Return(i32),
    /// The native method at an address is called, and its result handed back.
    Call(usize),
}

/// How an intercepted call ends. `result` is what the native call returned, if
/// it was made. `original` is the routed method, if a route was found.
/// `current` is what the object's vtable holds now, read only without a route.
/// `detours` are the addresses that lead back into this method's detours.
pub open spec fn completion(
    method: InterceptedMethod,
    result: Option<i32>,
    original: Option<usize>,
    current: Option<usize>,
    detours: (usize, usize),
) -> Completion {
    match (result, original, current) {
        (Some(code), _, _) => Completion::Return(code),
        (None, Some(call), _) => if method
            == InterceptedMethod::CreateSwapChainForCompositionSurfaceHandle && leads_back(
            call,
            detours,
        ) {
            Completion::Return(E_FAIL)
        } else {
            Completion::Call(call)
        },
        (None, None, Some(call)) => if method.guards_current() && leads_back(call, detours) {
            Completion::Return(E_FAIL)
        } else {
            Completion::Call(call)
        },
        (None, None, None) => Completion::Return(E_FAIL),
    }
}

/// Whether an address is one of a method's detours.
pub open spec fn leads_back(call: usize, detours: (usize, usize)) -> bool {
    call == detours.0 || call == detours.1
}

/// Decides how an intercepted call ends.
pub fn finish_call(
    method: InterceptedMethod,
    result: Option<i32>,
    original: Option<usize>,
    current: Option<usize>,
    detours: (usize, usize),
) -> (end: Completion)
    ensures
        end == completion(method, result, original, current, detours),
{
    if let Some(code) = result {
        return Completion::Return(code);
    }
    if let Some(call) = original {
        if method == InterceptedMethod::CreateSwapChainForCompositionSurfaceHandle && (call
            == detours.0 || call == detours.1) {
            return Completion::Return(E_FAIL);
        }
        return Completion::Call(call);
    }
    match current {
        None => Completion::Return(E_FAIL),
        Some(call) => if method.has_current_guard() && (call == detours.0 || call == detours.1) {
            Completion::Return(E_FAIL)
        } else {
            Completion::Call(call)
        },
    }
}

/// How often the native method was called before a completion.
pub open spec fn calls_made(result: Option<i32>) -> nat {
    if result is Some {
        1
    } else {
        0
    }
}

/// How often a completion calls the native method.
pub open spec fn calls_left(end: Completion) -> nat {
    if end is Call {
        1
    } else {
        0
    }
}

/// The native method is never called twice, and a call that was made keeps its
/// result, whatever panicked around it.
pub proof fn law_native_method_is_called_at_most_once(
    method: InterceptedMethod,
    result: Option<i32>,
    original: Option<usize>,
    current: Option<usize>,
    detours: (usize, usize),
)
    ensures
        ({
            let end = completion(method, result, original, current, detours);
            &&& calls_made(result) + calls_left(end) <= 1
            &&& result matches Some(code) ==> end == Completion::Return(code)
        }),
{
}

/// A routed call is made exactly once.
pub proof fn law_routed_call_is_made_exactly_once(
    method: InterceptedMethod,
    result: Option<i32>,
    original: usize,
    current: Option<usize>,
    detours: (usize, usize),
)
    requires
        !leads_back(original, detours),
    ensures
        calls_made(result) + calls_left(
            completion(method, result, Some(original), current, detours),
        ) == 1,
{
}

/// What an intercepted `QueryInterface` handed back.
#[derive(Clone, Copy, Debug, PartialEq, Eq, Structural)]
pub struct QueriedObject {
    /// HRESULT of the call.
    pub result: i32,
    /// Requested IID, unless its pointer was null.
    pub iid: Option<Guid>,
    /// Object that was written, zero where there is none.
    pub returned: usize,
}

/// Returns the IID under which a queried object is attached, if it is.
///
/// `admitted` says whether the manager let the call in.
pub fn queried_attachment(kind: ObjectKind, admitted: bool, queried: QueriedObject) -> (iid: Option<
    Guid,
>)
    ensures
        iid == if admitted && queried.result >= 0 && queried.returned != 0 && queried.iid is Some
            && supported_by(kind, queried.iid->0) {
            queried.iid
        } else {
            None
        },
{
    if !admitted || queried.result < 0 || queried.returned == 0 {
        return None;
    }
    match queried.iid {
        None => None,
        Some(found) => {
            let supported = match kind {
                ObjectKind::Factory => factory_interface(found).is_some(),
                ObjectKind::SwapChain => swap_chain_interface(found).is_some(),
            };
            if supported {
                Some(found)
            } else {
                None
            }
        },
    }
}

/// Whether an IID names a supported interface of a family.
pub open spec fn supported_by(kind: ObjectKind, iid: Guid) -> bool {
    match kind {
        ObjectKind::Factory => exists|interface: FactoryInterface|
            #[trigger] factory_guid(interface) == iid,
        ObjectKind::SwapChain => exists|interface: SwapChainInterface|
            #[trigger] swap_chain_guid(interface) == iid,
    }
}

/// Returns whether a created swap chain is attached.
pub fn attaches_created_swap_chain(
    has_manager: bool,
    admitted: bool,
    result: i32,
    created: usize,
) -> (attaches: bool)
    ensures
        attaches == (has_manager && admitted && result >= 0 && created != 0),
        attaches ==> has_manager && admitted && created != 0 && !(result < 0),
        !attaches && has_manager && admitted && created != 0 ==> result < 0,
{
    admitted && result >= 0 && created != 0 && has_manager
}

/// A method of a factory is forwarded to the factory's own original of that
/// name, and to no original of another object.
pub proof fn law_factory_methods_forward_to_their_own_original(
    method: InterceptedMethod,
    route: Route,
    found: FactoryOriginals,
)
    requires
        route.originals == Originals::Factory(found),
    ensures
        method == InterceptedMethod::QueryInterface(ObjectKind::Factory) ==> method.original_in(
            route,
        ) == Some(found.query_interface),
        method is CreateSwapChain ==> method.original_in(route) == Some(found.create_swap_chain),
        method is CreateSwapChainForHwnd ==> method.original_in(route) == found.create_for_hwnd,
        method is CreateSwapChainForCoreWindow ==> method.original_in(route)
            == found.create_for_core_window,
        method is CreateSwapChainForComposition ==> method.original_in(route)
            == found.create_for_composition,
        method is CreateSwapChainForCompositionSurfaceHandle ==> method.original_in(route) is None,
        method == InterceptedMethod::QueryInterface(ObjectKind::SwapChain) ==> method.original_in(
            route,
        ) is None,
        method is Present || method is Present1 || method is ResizeBuffers || method
            is ResizeBuffers1 || method is SetColorSpace1 ==> method.original_in(route) is None,
{
}

/// A media factory forwards its query and its one way of creating a chain.
pub proof fn law_media_methods_forward_to_their_own_original(
    method: InterceptedMethod,
    route: Route,
    found: FactoryMediaOriginals,
)
    requires
        route.originals == Originals::FactoryMedia(found),
    ensures
        method == InterceptedMethod::QueryInterface(ObjectKind::Factory) ==> method.original_in(
            route,
        ) == Some(found.query_interface),
        method is CreateSwapChainForCompositionSurfaceHandle ==> method.original_in(route) == Some(
            found.create_for_composition_surface_handle,
        ),
        method.original_in(route) is Some ==> method == InterceptedMethod::QueryInterface(
            ObjectKind::Factory,
        ) || method is CreateSwapChainForCompositionSurfaceHandle,
{
}

/// A method of a swap chain is forwarded to the chain's own original of that
/// name, and to no original of another object.
pub proof fn law_swap_chain_methods_forward_to_their_own_original(
    method: InterceptedMethod,
    route: Route,
    found: SwapChainOriginals,
)
    requires
        route.originals == Originals::SwapChain(found),
    ensures
        method == InterceptedMethod::QueryInterface(ObjectKind::SwapChain) ==> method.original_in(
            route,
        ) == Some(found.query_interface),
        method is Present ==> method.original_in(route) == Some(found.present),
        method is Present1 ==> method.original_in(route) == found.present1,
        method is ResizeBuffers ==> method.original_in(route) == Some(found.resize_buffers),
        method is ResizeBuffers1 ==> method.original_in(route) == found.resize_buffers1,
        method is SetColorSpace1 ==> method.original_in(route) == found.set_color_space1,
        method.original_in(route) is Some ==> method == InterceptedMethod::QueryInterface(
            ObjectKind::SwapChain,
        ) || method is Present || method is Present1 || method is ResizeBuffers || method
            is ResizeBuffers1 || method is SetColorSpace1,
{
}

/// A panic is reported at the boundary of the method in which it was contained.
pub proof fn law_each_method_has_its_boundary(method: InterceptedMethod)
    ensures
        method.boundary_of() is FactoryQueryInterface <==> method
            == InterceptedMethod::QueryInterface(ObjectKind::Factory),
        method.boundary_of() is SwapChainQueryInterface <==> method
            == InterceptedMethod::QueryInterface(ObjectKind::SwapChain),
        method.boundary_of() is Present <==> method is Present || method is Present1,
        method.boundary_of() is ResizeBuffers <==> method is ResizeBuffers || method
            is ResizeBuffers1,
        method.boundary_of() is SetColorSpace1 <==> method is SetColorSpace1,
        method.boundary_of() is FactoryCreateSwapChain <==> method is CreateSwapChain || method
            is CreateSwapChainForHwnd || method is CreateSwapChainForCoreWindow || method
            is CreateSwapChainForComposition || method
            is CreateSwapChainForCompositionSurfaceHandle,
        method.created_layout() is Base <==> method is CreateSwapChain,
        method.created_layout() is V1 <==> !(method is CreateSwapChain),
{
}

/// What is called in the end is the original where there is one, and the
/// current method otherwise; the failure that stands in for a call has its
/// native number.
pub proof fn law_a_call_goes_to_the_original_first(
    method: InterceptedMethod,
    result: Option<i32>,
    original: Option<usize>,
    current: Option<usize>,
    detours: (usize, usize),
)
    ensures
        ({
            let end = completion(method, result, original, current, detours);
            &&& end matches Completion::Call(call) ==> result is None && Some(call)
                == if original is Some {
                original
            } else {
                current
            }
            &&& end matches Completion::Return(code) ==> Some(code) == result || (result is None
                && code + 0x1_0000_0000 == 0x8000_4005)
            &&& result is None && original is None && current is None ==> end is Return
            &&& original is Some && result is None && !(method
                is CreateSwapChainForCompositionSurfaceHandle) ==> end == Completion::Call(
                original->0,
            )
        }),
{
}

/// Where a method was not routed, a current method that leads back into a
/// detour is not called: by queries, presentations, resizes, color-space
/// changes, and the creation for a surface handle. The other creations and the
/// later presentation do not look.
pub proof fn law_guarded_methods_never_lead_back(
    method: InterceptedMethod,
    call: usize,
    detours: (usize, usize),
)
    requires
        call == detours.0 || call == detours.1,
    ensures
        completion(method, None, None, Some(call), detours) is Return <==> method is QueryInterface
            || method is Present || method is ResizeBuffers || method is SetColorSpace1 || method
            is ResizeBuffers1 || method is CreateSwapChainForCompositionSurfaceHandle,
        method is CreateSwapChainForCompositionSurfaceHandle ==> completion(
            method,
            None,
            Some(call),
            None,
            detours,
        ) is Return,
{
}

/// An attachment is refused for its interface first, for its pointer next, for
/// the manager's shutdown after that, and for another manager's hook last.
pub proof fn law_attachments_are_refused_in_order(
    routes: Map<usize, Route>,
    manager_id: u64,
    supported: bool,
    pointer: usize,
    closing: bool,
)
    ensures
        ({
            let outcome = request_outcome(routes, manager_id, supported, pointer, closing);
            &&& !supported <==> outcome == Err::<bool, _>(DxgiError::UnsupportedInterface)
            &&& supported && pointer == 0 <==> outcome == Err::<bool, _>(DxgiError::NullInterface)
            &&& supported && pointer != 0 && closing <==> outcome == Err::<bool, _>(
                DxgiError::ManagerClosed,
            )
            &&& outcome == Err::<bool, _>(DxgiError::HookConflict) ==> routes.contains_key(pointer)
                && routes[pointer].manager_id != manager_id
            &&& outcome matches Ok(attached) ==> {
                &&& attached <==> routes.contains_key(pointer)
                &&& attached ==> routes[pointer].manager_id == manager_id
            }
        }),
{
}

/// The highest layout is attached where it was found: at the requested pointer
/// in place of the requested layout, or at its own pointer besides it.
pub proof fn law_the_highest_layout_is_attached<I>(
    pointer: usize,
    requested: I,
    highest: Option<(I, usize)>,
)
    ensures
        ({
            let plan = plan_of(pointer, requested, highest);
            &&& highest is None ==> plan.requested == requested && plan.derived is None
            &&& highest matches Some((interface, queried)) ==> {
                &&& queried == pointer ==> plan.requested == interface && plan.derived is None
                &&& queried != pointer ==> plan.requested == requested && plan.derived == Some(
                    (queried, interface),
                )
            }
        }),
{
}

/// An attachment counts the interfaces that were hooked. A failure of the
/// requested one fails it, and so does a conflict of the derived one; any other
/// failure of the derived one is reported beside the success.
pub proof fn law_attachments_count_their_interfaces(
    requested: Result<(), DxgiError>,
    derived: Option<Result<(), DxgiError>>,
)
    ensures
        ({
            let end = completion_of(requested, derived);
            &&& requested is Err ==> end.result == Err::<AttachOutcome, _>(requested->Err_0)
            &&& requested is Ok && derived is None ==> end.result == Ok::<_, DxgiError>(
                AttachOutcome::Attached { interfaces: 1 },
            )
            &&& requested is Ok && derived == Some(Ok::<(), DxgiError>(())) ==> end.result == Ok::<
                _,
                DxgiError,
            >(AttachOutcome::Attached { interfaces: 2 })
            &&& requested is Ok && derived == Some(Err::<(), _>(DxgiError::HookConflict))
                ==> end.result == Err::<AttachOutcome, _>(DxgiError::HookConflict)
            &&& end.report matches Some(error) ==> {
                &&& requested is Ok
                &&& derived == Some(Err::<(), _>(error))
                &&& error != DxgiError::HookConflict
                &&& end.result == Ok::<_, DxgiError>(AttachOutcome::Attached { interfaces: 1 })
            }
            &&& requested is Ok && derived is Some && derived->0 is Err && derived->0->Err_0
                != DxgiError::HookConflict ==> end.report == Some(derived->0->Err_0)
        }),
{
}

/// A route serves objects of one kind: factories of either sort, or chains.
pub proof fn law_a_route_serves_one_kind(route: Route)
    ensures
        route.is_of(ObjectKind::Factory) <==> route.originals is Factory || route.originals
            is FactoryMedia,
        route.is_of(ObjectKind::SwapChain) <==> route.originals is SwapChain,
{
}

} // verus!
