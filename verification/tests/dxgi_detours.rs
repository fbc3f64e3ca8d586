use std::collections::HashMap;

use nexus::dxgi::attach::{attach_factory_exact, attach_swap_chain_exact, GuardRestoration};
use nexus::dxgi::detours::{
    attach_plan, attaches_created_swap_chain, begin_attach_factory, begin_attach_swap_chain,
    complete_attachment, finish_call, plan_factory_attachment, plan_swap_chain_attachment,
    prepare_factory2, prepare_factory_base, prepare_factory_media, prepare_swap_chain1,
    prepare_swap_chain3, prepare_swap_chain_base, queried_attachment, validate_attachment,
    AttachCompletion, AttachPlan, AttachStart, Completion, FactoryAttachStep, FactoryDetours,
    InterceptedMethod, Originals, QueriedObject, Route, RouteTable, SwapChainAttachStep,
    SwapChainDetours,
};
use nexus::dxgi::error::DxgiError;
use nexus::dxgi::event::{
    AttachOutcome, Boundary, DxgiObservationEvent, FactoryInterface, HResultDisposition, ObjectKind,
    SwapChainInterface,
};
use nexus::dxgi::manager::{invoke_renderer, Action, HookRestoration, RendererReply};
use nexus::dxgi::passes::{color_space_returned, finish_color_space};
use nexus::dxgi::policy::PolicyState;
use nexus::dxgi::sdk::{
    factory_iid, swap_chain_iid, Guid, QueryReply, E_FAIL, E_NOINTERFACE, UNKNOWN_COLOR_SPACE,
};
use nexus::hook::dxgi::{
    CreateSwapChain, CreateSwapChainForCompositionSurfaceHandle, DxgiFactory, DxgiFactory2,
    DxgiFactoryMedia, DxgiSwapChain, DxgiSwapChain1, DxgiSwapChain3, Present, ResizeBuffers,
    SetColorSpace1,
};
use nexus::hook::error::VtableError;
use nexus::hook::layout::{ComInterfaceLayout, QueryInterface};
use nexus::hook::shadow::{InstallState, InstalledVtable, VtableShadow};
use nexus::render::{ColorSpace, RenderControls, RenderStage, SwapChainId};

const FACTORY: usize = 0x1_0000;
const MEDIA: usize = 0x2_0000;
const SWAP_CHAIN: usize = 0x3_0000;
const MANAGER: u64 = 7;

/// Address of the native method behind a vtable slot.
fn native(slot: usize) -> usize {
    0x100 + slot
}

const FACTORY_DETOURS: FactoryDetours = FactoryDetours {
    query_interface: 0x900,
    create_swap_chain: 0x901,
    create_for_hwnd: 0x902,
    create_for_core_window: 0x903,
    create_for_composition: 0x904,
    create_for_composition_surface_handle: 0x905,
};

const SWAP_CHAIN_DETOURS: SwapChainDetours = SwapChainDetours {
    query_interface: 0xa00,
    present: 0xa01,
    present1: 0xa02,
    resize_buffers: 0xa03,
    set_color_space1: 0xa04,
    resize_buffers1: 0xa05,
};

/// Objects with vtables, and how often each native method was called.
struct Process {
    tables: HashMap<usize, Vec<usize>>,
    objects: HashMap<usize, usize>,
    next_table: usize,
    calls: HashMap<usize, u32>,
}

impl Process {
    fn new() -> Self {
        Self {
            tables: HashMap::new(),
            objects: HashMap::new(),
            next_table: 0x8_0000,
            calls: HashMap::new(),
        }
    }

    fn publish(&mut self, entries: Vec<usize>) -> usize {
        let address = self.next_table;
        self.next_table += 0x1000;
        self.tables.insert(address, entries);
        address
    }

    fn object<L: ComInterfaceLayout>(&mut self, pointer: usize) -> usize {
        let table = self.publish((0..L::SLOT_COUNT).map(native).collect());
        self.objects.insert(pointer, table);
        table
    }

    fn shadow<L: ComInterfaceLayout>(&self, pointer: usize) -> VtableShadow<L> {
        let table = self.objects[&pointer];
        VtableShadow::copy_from(pointer, table, &self.tables[&table])
            .expect("published shadow should be readable")
    }

    fn install<L: ComInterfaceLayout>(&mut self, shadow: VtableShadow<L>) -> InstalledVtable<L> {
        let pointer = shadow.interface();
        let original = shadow.original_vtable();
        let table = self.publish(shadow.entries());
        let observed = self.objects[&pointer];
        assert_eq!(observed, original);
        self.objects.insert(pointer, table);
        match shadow.install(table, observed).result {
            Ok(installed) => installed,
            Err(error) => panic!("the object was not touched: {}", error.to_string()),
        }
    }

    fn restore<L: ComInterfaceLayout>(&mut self, installed: &mut InstalledVtable<L>) {
        let (expected, desired) = installed.exchange();
        let pointer = installed.interface();
        let observed = self.objects[&pointer];
        if observed == expected {
            self.objects.insert(pointer, desired);
        }
        let _ = installed.restore(observed);
        assert_eq!(installed.state(), InstallState::Restored);
    }

    fn call(&mut self, method: usize, result: i32) -> i32 {
        *self.calls.entry(method).or_default() += 1;
        result
    }

    /// An intercepted call whose surroundings may panic before or after it.
    fn intercepted(
        &mut self,
        routes: &RouteTable,
        pointer: usize,
        kind: ObjectKind,
        method: InterceptedMethod,
        detour: usize,
        panics_before: bool,
        native_result: i32,
    ) -> i32 {
        let original = method.original(routes.route_for(pointer, kind));
        let result = match original {
            Some(function) if !panics_before => Some(self.call(function, native_result)),
            _ => None,
        };
        match finish_call(method, result, original, None, (detour, 0)) {
            Completion::Return(code) => code,
            Completion::Call(function) => self.call(function, native_result),
        }
    }
}

fn attached_swap_chain(process: &mut Process, routes: &mut RouteTable) -> InstalledVtable<DxgiSwapChain> {
    let iid = swap_chain_iid(SwapChainInterface::Base);
    assert_eq!(
        begin_attach_swap_chain(routes, MANAGER, false, SWAP_CHAIN, iid),
        Ok(SwapChainAttachStep::Query(SwapChainInterface::Base))
    );
    let mut shadow = process.shadow::<DxgiSwapChain>(SWAP_CHAIN);
    let originals = prepare_swap_chain_base(&mut shadow, SWAP_CHAIN_DETOURS)
        .expect("the base layout has every base method");
    let route = Route { manager_id: MANAGER, originals: Originals::SwapChain(originals) };
    assert_eq!(routes.register_route(SWAP_CHAIN, route), Ok(()));
    process.install(shadow)
}

#[test]
fn observer_panic_does_not_double_call_present_and_shutdown_restores() {
    let mut process = Process::new();
    let original_vtable = process.object::<DxgiSwapChain>(SWAP_CHAIN);
    let mut routes = RouteTable::new();
    let mut installed = attached_swap_chain(&mut process, &mut routes);
    assert_eq!(
        complete_attachment(Ok(()), None).result,
        Ok(AttachOutcome::Attached { interfaces: 1 })
    );

    let shadow = process.shadow::<DxgiSwapChain>(SWAP_CHAIN);
    let present = shadow.published::<Present>().expect("present marker should decode");
    assert_eq!(present, SWAP_CHAIN_DETOURS.present);
    for panics_before in [false, true] {
        process.calls.clear();
        let result = process.intercepted(
            &routes,
            SWAP_CHAIN,
            ObjectKind::SwapChain,
            InterceptedMethod::Present,
            present,
            panics_before,
            0,
        );
        assert_eq!(result, 0);
        assert_eq!(process.calls[&native(8)], 1);
    }

    process.restore(&mut installed);
    assert_eq!(process.objects[&SWAP_CHAIN], original_vtable);
}

#[test]
fn renderer_panic_does_not_double_call_resize() {
    let mut process = Process::new();
    let original_vtable = process.object::<DxgiSwapChain>(SWAP_CHAIN);
    let mut routes = RouteTable::new();
    let mut installed = attached_swap_chain(&mut process, &mut routes);

    let (prepared, actions) = invoke_renderer(
        RendererReply::Panicked,
        SwapChainId::new(1),
        Boundary::RendererCallback,
    );
    assert!(!prepared);
    assert_eq!(actions.len(), 2);
    let shadow = process.shadow::<DxgiSwapChain>(SWAP_CHAIN);
    let resize = shadow.published::<ResizeBuffers>().expect("resize marker should decode");
    let result = process.intercepted(
        &routes,
        SWAP_CHAIN,
        ObjectKind::SwapChain,
        InterceptedMethod::ResizeBuffers,
        resize,
        false,
        0,
    );
    assert_eq!(result, 0);
    assert_eq!(process.calls[&native(13)], 1);

    process.restore(&mut installed);
    assert_eq!(process.objects[&SWAP_CHAIN], original_vtable);
}

#[test]
fn hooked_query_interface_calls_native_implementation_once() {
    let mut process = Process::new();
    process.object::<DxgiSwapChain>(SWAP_CHAIN);
    let mut routes = RouteTable::new();
    let _installed = attached_swap_chain(&mut process, &mut routes);

    let shadow = process.shadow::<DxgiSwapChain>(SWAP_CHAIN);
    let query = shadow.published::<QueryInterface>().expect("query marker should decode");
    let result = process.intercepted(
        &routes,
        SWAP_CHAIN,
        ObjectKind::SwapChain,
        InterceptedMethod::QueryInterface(ObjectKind::SwapChain),
        query,
        false,
        0,
    );
    assert_eq!(result, 0);
    assert_eq!(process.calls[&native(0)], 1);
}

#[test]
fn factory_create_swap_chain_calls_native_once_and_auto_attaches_result() {
    let mut process = Process::new();
    let original_swap_chain_vtable = process.object::<DxgiSwapChain>(SWAP_CHAIN);
    let original_factory_vtable = process.object::<DxgiFactory>(FACTORY);
    let mut routes = RouteTable::new();
    assert_eq!(
        begin_attach_factory(
            &routes,
            MANAGER,
            false,
            FACTORY,
            factory_iid(FactoryInterface::Base)
        ),
        Ok(FactoryAttachStep::Query(FactoryInterface::Base))
    );
    let mut shadow = process.shadow::<DxgiFactory>(FACTORY);
    let originals = prepare_factory_base(&mut shadow, FACTORY_DETOURS)
        .expect("fake factory should attach");
    let route = Route { manager_id: MANAGER, originals: Originals::Factory(originals) };
    assert_eq!(routes.register_route(FACTORY, route), Ok(()));
    let mut factory = process.install(shadow);

    let shadow = process.shadow::<DxgiFactory>(FACTORY);
    let create = shadow
        .published::<CreateSwapChain>()
        .expect("factory create marker should decode");
    let result = process.intercepted(
        &routes,
        FACTORY,
        ObjectKind::Factory,
        InterceptedMethod::CreateSwapChain,
        create,
        false,
        0,
    );
    assert_eq!(result, 0);
    assert_eq!(process.calls[&native(10)], 1);
    assert!(attaches_created_swap_chain(true, true, result, SWAP_CHAIN));
    assert_eq!(
        InterceptedMethod::CreateSwapChain.created_interface(),
        SwapChainInterface::Base
    );
    let mut swap_chain = attached_swap_chain(&mut process, &mut routes);
    assert_ne!(process.objects[&SWAP_CHAIN], original_swap_chain_vtable);

    process.restore(&mut factory);
    process.restore(&mut swap_chain);
    assert_eq!(process.objects[&FACTORY], original_factory_vtable);
    assert_eq!(process.objects[&SWAP_CHAIN], original_swap_chain_vtable);
}

#[test]
fn set_color_space_updates_only_after_success_and_calls_native_once() {
    let mut process = Process::new();
    let original_vtable = process.object::<DxgiSwapChain3>(SWAP_CHAIN);
    let mut routes = RouteTable::new();
    let mut shadow = process.shadow::<DxgiSwapChain3>(SWAP_CHAIN);
    let originals = prepare_swap_chain3(&mut shadow, SWAP_CHAIN_DETOURS)
        .expect("fake swap chain 3 should attach");
    let route = Route { manager_id: MANAGER, originals: Originals::SwapChain(originals) };
    assert_eq!(routes.register_route(SWAP_CHAIN, route), Ok(()));
    let mut installed = process.install(shadow);
    assert_eq!(
        routes
            .route_for(SWAP_CHAIN, ObjectKind::SwapChain)
            .expect("attached swap chain route should exist")
            .manager_id,
        MANAGER
    );
    let shadow = process.shadow::<DxgiSwapChain3>(SWAP_CHAIN);
    let detour =
        shadow.published::<SetColorSpace1>().expect("color-space marker should decode");

    let mut policy = PolicyState::new(RenderControls {
        effective_stage: RenderStage::RenderProbe,
        permits_render_probe: true,
    });
    let _ = policy.track_swap_chain(SWAP_CHAIN, SwapChainInterface::V3);
    let mut forwarded = Vec::new();
    for (index, (requested, native_result)) in
        [(77, E_FAIL), (12, 0), (12_345, E_FAIL)].into_iter().enumerate()
    {
        let result = process.intercepted(
            &routes,
            SWAP_CHAIN,
            ObjectKind::SwapChain,
            InterceptedMethod::SetColorSpace1,
            detour,
            false,
            native_result,
        );
        assert_eq!(result, native_result);
        assert_eq!(process.calls[&native(38)], index as u32 + 1);
        let change = color_space_returned(&mut policy, SWAP_CHAIN, requested, result)
            .expect("the chain is known");
        assert_eq!(change.horizon, None);
        for action in finish_color_space(&mut policy, change, result, None, None, true) {
            if let Action::Observe(DxgiObservationEvent::ColorSpaceForwarded {
                requested,
                active,
                result,
                ..
            }) = action
            {
                forwarded.push((requested, active, result));
            }
        }
    }
    assert_eq!(
        forwarded,
        vec![
            (
                ColorSpace::Other(77),
                ColorSpace::Other(UNKNOWN_COLOR_SPACE),
                HResultDisposition::Other(E_FAIL),
            ),
            (ColorSpace::Hdr10Pq, ColorSpace::Hdr10Pq, HResultDisposition::Success),
            (
                ColorSpace::Other(12_345),
                ColorSpace::Hdr10Pq,
                HResultDisposition::Other(E_FAIL),
            ),
        ]
    );

    process.restore(&mut installed);
    assert_eq!(process.objects[&SWAP_CHAIN], original_vtable);
    routes.unregister_route(MANAGER, SWAP_CHAIN);
    assert!(routes.route_for(SWAP_CHAIN, ObjectKind::SwapChain).is_none());
}

#[test]
fn observer_panic_during_set_color_space_is_contained() {
    let method = InterceptedMethod::SetColorSpace1;
    assert_eq!(method.boundary(), Boundary::SetColorSpace1);
    let detours = (SWAP_CHAIN_DETOURS.set_color_space1, 0);
    // The panic came after the native call: its result stands.
    assert_eq!(
        finish_call(method, Some(0), Some(native(38)), None, detours),
        Completion::Return(0)
    );
    // The panic came before it: the call is made once, now.
    assert_eq!(
        finish_call(method, None, Some(native(38)), None, detours),
        Completion::Call(native(38))
    );
}

#[test]
fn media_interface_from_query_is_hooked_and_attaches_created_swap_chain() {
    let mut process = Process::new();
    let original_swap_chain_vtable = process.object::<DxgiSwapChain1>(SWAP_CHAIN);
    let original_media_vtable = process.object::<DxgiFactoryMedia>(MEDIA);
    process.object::<DxgiFactory>(FACTORY);
    let mut routes = RouteTable::new();
    let mut shadow = process.shadow::<DxgiFactory>(FACTORY);
    let originals = prepare_factory_base(&mut shadow, FACTORY_DETOURS)
        .expect("fake base factory should attach");
    let route = Route { manager_id: MANAGER, originals: Originals::Factory(originals) };
    assert_eq!(routes.register_route(FACTORY, route), Ok(()));
    let _factory = process.install(shadow);

    let media_iid = factory_iid(FactoryInterface::Media);
    let queried = QueriedObject { result: 0, iid: Some(media_iid), returned: MEDIA };
    assert_eq!(
        queried_attachment(ObjectKind::Factory, true, queried),
        Some(media_iid)
    );
    assert_eq!(
        begin_attach_factory(&routes, MANAGER, false, MEDIA, media_iid),
        Ok(FactoryAttachStep::Query(FactoryInterface::Media))
    );
    let mut shadow = process.shadow::<DxgiFactoryMedia>(MEDIA);
    let originals = prepare_factory_media(&mut shadow, FACTORY_DETOURS)
        .expect("the media factory should attach");
    let route = Route { manager_id: MANAGER, originals: Originals::FactoryMedia(originals) };
    assert_eq!(routes.register_route(MEDIA, route), Ok(()));
    let mut media = process.install(shadow);
    assert_ne!(process.objects[&MEDIA], original_media_vtable);

    let shadow = process.shadow::<DxgiFactoryMedia>(MEDIA);
    let create = shadow
        .published::<CreateSwapChainForCompositionSurfaceHandle>()
        .expect("composition-surface-handle marker should decode");
    let method = InterceptedMethod::CreateSwapChainForCompositionSurfaceHandle;
    let result =
        process.intercepted(&routes, MEDIA, ObjectKind::Factory, method, create, false, 0);
    assert_eq!(result, 0);
    assert_eq!(process.calls[&native(3)], 1);
    assert_eq!(method.created_interface(), SwapChainInterface::V1);
    assert!(attaches_created_swap_chain(true, true, result, SWAP_CHAIN));
    let mut shadow = process.shadow::<DxgiSwapChain1>(SWAP_CHAIN);
    let originals = prepare_swap_chain1(&mut shadow, SWAP_CHAIN_DETOURS)
        .expect("the created chain should attach");
    assert_eq!(originals.present1, Some(native(22)));
    let mut swap_chain = process.install(shadow);
    assert_ne!(process.objects[&SWAP_CHAIN], original_swap_chain_vtable);

    process.restore(&mut media);
    process.restore(&mut swap_chain);
    assert_eq!(process.objects[&MEDIA], original_media_vtable);
    assert_eq!(process.objects[&SWAP_CHAIN], original_swap_chain_vtable);
}

#[test]
fn attachments_are_refused_with_their_reason() {
    let mut routes = RouteTable::new();
    let base = swap_chain_iid(SwapChainInterface::Base);
    let unknown = Guid { data1: 1, data2: 2, data3: 3, data4: 4 };
    assert_eq!(
        begin_attach_swap_chain(&routes, MANAGER, true, 0, unknown),
        Err(DxgiError::UnsupportedInterface)
    );
    assert_eq!(
        begin_attach_swap_chain(&routes, MANAGER, true, 0, base),
        Err(DxgiError::NullInterface)
    );
    assert_eq!(
        begin_attach_swap_chain(&routes, MANAGER, true, SWAP_CHAIN, base),
        Err(DxgiError::ManagerClosed)
    );
    assert_eq!(validate_attachment(SWAP_CHAIN, false), Ok(()));
    let mut process = Process::new();
    process.object::<DxgiSwapChain>(SWAP_CHAIN);
    let _installed = attached_swap_chain(&mut process, &mut routes);
    assert_eq!(
        begin_attach_swap_chain(&routes, MANAGER, false, SWAP_CHAIN, base),
        Ok(SwapChainAttachStep::AlreadyAttached)
    );
    assert_eq!(
        begin_attach_swap_chain(&routes, MANAGER + 1, false, SWAP_CHAIN, base),
        Err(DxgiError::HookConflict)
    );
    routes.unregister_route(MANAGER + 1, SWAP_CHAIN);
    assert!(routes.route_for(SWAP_CHAIN, ObjectKind::SwapChain).is_some());
    assert!(routes.route_for(SWAP_CHAIN, ObjectKind::Factory).is_none());
    assert_eq!(DxgiError::NullInterface.to_string(), "null DXGI interface");
    assert_eq!(
        DxgiError::HookConflict.to_string(),
        "DXGI interface is owned by another hook manager"
    );
}

#[test]
fn derived_interfaces_are_intercepted_beside_or_in_place() {
    let base = SwapChainInterface::Base;
    let highest = SwapChainInterface::V4;
    assert_eq!(
        attach_plan(SWAP_CHAIN, base, None),
        AttachPlan { requested: base, derived: None }
    );
    assert_eq!(
        attach_plan(SWAP_CHAIN, base, Some((highest, SWAP_CHAIN))),
        AttachPlan { requested: highest, derived: None }
    );
    assert_eq!(
        attach_plan(SWAP_CHAIN, base, Some((highest, 0x77))),
        AttachPlan { requested: base, derived: Some((0x77, highest)) }
    );
    assert_eq!(
        complete_attachment(Ok(()), Some(Ok(()))).result,
        Ok(AttachOutcome::Attached { interfaces: 2 })
    );
    let failure = DxgiError::Vtable(VtableError::VtableDisplaced { layout: "IDXGISwapChain" });
    assert_eq!(
        complete_attachment(Ok(()), Some(Err(failure))),
        AttachCompletion {
            result: Ok(AttachOutcome::Attached { interfaces: 1 }),
            report: Some(failure),
        }
    );
    assert_eq!(
        complete_attachment(Ok(()), Some(Err(DxgiError::HookConflict))).result,
        Err(DxgiError::HookConflict)
    );
    assert_eq!(complete_attachment(Err(failure), None).result, Err(failure));
}

#[test]
fn detours_never_call_themselves() {
    let present = InterceptedMethod::Present;
    let detours = (SWAP_CHAIN_DETOURS.present, 0x55);
    assert_eq!(finish_call(present, None, None, None, detours), Completion::Return(E_FAIL));
    assert_eq!(
        finish_call(present, None, None, Some(SWAP_CHAIN_DETOURS.present), detours),
        Completion::Return(E_FAIL)
    );
    assert_eq!(
        finish_call(present, None, None, Some(native(8)), detours),
        Completion::Call(native(8))
    );
    let mut process = Process::new();
    process.object::<DxgiFactory2>(FACTORY);
    let mut shadow = process.shadow::<DxgiFactory2>(FACTORY);
    let originals = prepare_factory2(&mut shadow, FACTORY_DETOURS).expect("every method");
    let route = Route { manager_id: MANAGER, originals: Originals::Factory(originals) };
    assert_eq!(
        InterceptedMethod::CreateSwapChainForComposition.original(Some(route)),
        Some(native(24))
    );
    assert_eq!(InterceptedMethod::Present.original(Some(route)), None);
}

fn entries_of(slots: usize) -> Vec<usize> {
    (0..slots).map(native).collect()
}

#[test]
fn every_revision_is_intercepted_under_its_own_layout() {
    let factories = [
        (FactoryInterface::Base, DxgiFactory::SLOT_COUNT),
        (FactoryInterface::V1, 14),
        (FactoryInterface::V2, DxgiFactory2::SLOT_COUNT),
        (FactoryInterface::V3, 26),
        (FactoryInterface::V4, 28),
        (FactoryInterface::V5, 29),
        (FactoryInterface::V6, 30),
        (FactoryInterface::V7, 32),
        (FactoryInterface::Media, DxgiFactoryMedia::SLOT_COUNT),
    ];
    for (interface, slots) in factories {
        let mut routes = RouteTable::new();
        let hook = match attach_factory_exact(
            &mut routes,
            MANAGER,
            FACTORY,
            interface,
            0x8000,
            &entries_of(slots),
            FACTORY_DETOURS,
        ) {
            Ok(hook) => hook,
            Err(error) => panic!("{}", error.to_string()),
        };
        assert_eq!(hook.interface(), FACTORY);
        assert_eq!(hook.original_vtable(), 0x8000);
        assert_eq!(hook.reference_methods(), (native(1), native(2)));
        let mut expected = entries_of(slots);
        expected[0] = FACTORY_DETOURS.query_interface;
        if interface == FactoryInterface::Media {
            expected[3] = FACTORY_DETOURS.create_for_composition_surface_handle;
        } else {
            expected[10] = FACTORY_DETOURS.create_swap_chain;
        }
        if slots >= 25 {
            expected[15] = FACTORY_DETOURS.create_for_hwnd;
            expected[16] = FACTORY_DETOURS.create_for_core_window;
            expected[24] = FACTORY_DETOURS.create_for_composition;
        }
        assert_eq!(hook.entries(), expected);
        let route = routes.route_for(FACTORY, ObjectKind::Factory);
        assert_eq!(
            InterceptedMethod::QueryInterface(ObjectKind::Factory).original(route),
            Some(native(0))
        );
    }
    let swap_chains = [
        (SwapChainInterface::Base, 18),
        (SwapChainInterface::V1, 29),
        (SwapChainInterface::V2, 36),
        (SwapChainInterface::V3, 40),
        (SwapChainInterface::V4, 41),
    ];
    for (interface, slots) in swap_chains {
        let mut routes = RouteTable::new();
        let hook = match attach_swap_chain_exact(
            &mut routes,
            MANAGER,
            SWAP_CHAIN,
            interface,
            0x8000,
            &entries_of(slots),
            SWAP_CHAIN_DETOURS,
        ) {
            Ok(hook) => hook,
            Err(error) => panic!("{}", error.to_string()),
        };
        let mut expected = entries_of(slots);
        expected[0] = SWAP_CHAIN_DETOURS.query_interface;
        expected[8] = SWAP_CHAIN_DETOURS.present;
        expected[13] = SWAP_CHAIN_DETOURS.resize_buffers;
        if slots >= 29 {
            expected[22] = SWAP_CHAIN_DETOURS.present1;
        }
        if slots >= 40 {
            expected[38] = SWAP_CHAIN_DETOURS.set_color_space1;
            expected[39] = SWAP_CHAIN_DETOURS.resize_buffers1;
        }
        assert_eq!(hook.entries(), expected);
        let route = routes.route_for(SWAP_CHAIN, ObjectKind::SwapChain);
        assert_eq!(InterceptedMethod::Present.original(route), Some(native(8)));
        assert_eq!(
            InterceptedMethod::SetColorSpace1.original(route),
            if slots >= 40 { Some(native(38)) } else { None }
        );
    }
}

#[test]
fn a_hook_that_is_not_published_gives_up_its_route() {
    let mut routes = RouteTable::new();
    let attach = |routes: &mut RouteTable, manager: u64| {
        attach_swap_chain_exact(
            routes,
            manager,
            SWAP_CHAIN,
            SwapChainInterface::Base,
            0x8000,
            &entries_of(18),
            SWAP_CHAIN_DETOURS,
        )
    };
    let Ok(hook) = attach(&mut routes, MANAGER) else { panic!("the object is free") };
    assert_eq!(
        attach(&mut routes, MANAGER + 1).err(),
        Some(DxgiError::HookConflict)
    );
    let refused = hook.publish(&mut routes, MANAGER, 0x9000, 0x8888);
    assert!(refused.release);
    assert_eq!(
        refused.result.err(),
        Some(DxgiError::Vtable(VtableError::VtableChanged { layout: "IDXGISwapChain" }))
    );
    assert!(routes.route_for(SWAP_CHAIN, ObjectKind::SwapChain).is_none());

    let Ok(hook) = attach(&mut routes, MANAGER) else { panic!("the object is free again") };
    let published = hook.publish(&mut routes, MANAGER, 0x9000, 0x8000);
    assert!(!published.release);
    let Ok(mut guard) = published.result else {
        panic!("the object held the vtable that was copied")
    };
    assert!(routes.route_for(SWAP_CHAIN, ObjectKind::SwapChain).is_some());
    assert_eq!(guard.interface(), SWAP_CHAIN);
    assert_eq!(guard.state(), InstallState::Installed);
    assert_eq!(guard.exchange(), (0x9000, 0x8000));
    let first = guard.restore(0x9000);
    assert_eq!(first, GuardRestoration { result: Ok(true), release: true });
    assert_eq!(HookRestoration::of(first.result), HookRestoration::Restored);
    let second = guard.restore(0x9000);
    assert_eq!(second, GuardRestoration { result: Ok(false), release: false });
    assert_eq!(HookRestoration::of(second.result), HookRestoration::Unchanged);
    assert_eq!(guard.state(), InstallState::Restored);

    let mut entries = entries_of(18);
    entries[5] = 0;
    let mut routes = RouteTable::new();
    let refused = attach_swap_chain_exact(
        &mut routes,
        MANAGER,
        SWAP_CHAIN,
        SwapChainInterface::Base,
        0x8000,
        &entries,
        SWAP_CHAIN_DETOURS,
    );
    assert_eq!(
        refused.err(),
        Some(DxgiError::Vtable(VtableError::NullEntry { layout: "IDXGISwapChain", index: 5 }))
    );
    assert!(routes.route_for(SWAP_CHAIN, ObjectKind::SwapChain).is_none());
}

#[test]
fn attachments_are_planned_for_the_highest_revision() {
    let routes = RouteTable::new();
    let supports = |highest: SwapChainInterface, pointer: usize| {
        move |iid: Guid| {
            if iid == swap_chain_iid(highest) {
                QueryReply { result: 0, output: pointer, has_vtable: true }
            } else {
                QueryReply { result: E_NOINTERFACE, output: 0, has_vtable: false }
            }
        }
    };
    let base = swap_chain_iid(SwapChainInterface::Base);
    let plan = |has_vtable: bool, highest: SwapChainInterface, pointer: usize| {
        plan_swap_chain_attachment(
            &routes,
            MANAGER,
            false,
            SWAP_CHAIN,
            base,
            has_vtable,
            supports(highest, pointer),
        )
    };
    assert_eq!(
        plan(true, SwapChainInterface::V4, SWAP_CHAIN),
        Ok(AttachStart::Attach(AttachPlan {
            requested: SwapChainInterface::V4,
            derived: None,
        }))
    );
    assert_eq!(
        plan(true, SwapChainInterface::V2, 0x77),
        Ok(AttachStart::Attach(AttachPlan {
            requested: SwapChainInterface::Base,
            derived: Some((0x77, SwapChainInterface::V2)),
        }))
    );
    assert_eq!(
        plan(false, SwapChainInterface::V2, 0x77),
        Err(DxgiError::UnsupportedInterface)
    );
    let refuses = |_: Guid| QueryReply { result: E_NOINTERFACE, output: 0, has_vtable: false };
    assert_eq!(
        plan_factory_attachment(
            &routes,
            MANAGER,
            false,
            MEDIA,
            factory_iid(FactoryInterface::Media),
            true,
            refuses,
        ),
        Ok(AttachStart::Attach(AttachPlan {
            requested: FactoryInterface::Media,
            derived: None,
        }))
    );
}
