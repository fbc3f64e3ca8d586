//! Exact attachment of one interface: its shadow, its route and its guard.
//!
//! A layout is a type. The enumerations here put one name on the hooks of every
//! layout, so that a manager can hold them side by side.
use vstd::prelude::*;
use crate::dxgi::detours::{
    available, prepare_factory2, prepare_factory_base, prepare_factory_media, prepare_swap_chain1,
    prepare_swap_chain3, prepare_swap_chain_base, FactoryDetours, FactoryMediaOriginals,
    FactoryOriginals, InterceptedMethod, Originals, Route, RouteTable, SwapChainDetours,
    SwapChainOriginals,
};
use crate::dxgi::error::DxgiError;
use crate::dxgi::event::{FactoryInterface, ObjectKind, SwapChainInterface};
use crate::hook::dxgi::{
    law_factory_slots, law_swap_chain_slots, CreateSwapChain, CreateSwapChainForComposition,
    CreateSwapChainForCompositionSurfaceHandle, CreateSwapChainForCoreWindow,
    CreateSwapChainForHwnd, DxgiFactory, DxgiFactory1, DxgiFactory2, DxgiFactory3, DxgiFactory4,
    DxgiFactory5, DxgiFactory6, DxgiFactory7, DxgiFactoryMedia, DxgiSwapChain, DxgiSwapChain1,
    DxgiSwapChain2, DxgiSwapChain3, DxgiSwapChain4, Present, Present1, ResizeBuffers,
    ResizeBuffers1, SetColorSpace1,
};
use crate::hook::error::VtableError;
use crate::hook::layout::{
    law_every_layout_starts_with_iunknown, ComInterfaceLayout, ComMethod, QueryInterface,
};
use crate::hook::shadow::{
    aligned, copy_failure, first_null, install_releases, interface_failure, restored_state,
    vtable_failure, InstallState, InstalledVtable, Restoration, VtableShadow,
};

verus! {

/// Name and number of vtable entries of a layout.
pub struct LayoutModel {
    /// Name in diagnostics.
    pub name: &'static str,
    /// Number of entries.
    pub slots: nat,
}

/// The layout of a factory interface.
pub open spec fn factory_layout(interface: FactoryInterface) -> LayoutModel {
    match interface {
        FactoryInterface::Base => LayoutModel {
            name: <DxgiFactory as ComInterfaceLayout>::NAME,
            slots: <DxgiFactory as ComInterfaceLayout>::SLOT_COUNT as nat,
        },
        FactoryInterface::V1 => LayoutModel {
            name: <DxgiFactory1 as ComInterfaceLayout>::NAME,
            slots: <DxgiFactory1 as ComInterfaceLayout>::SLOT_COUNT as nat,
        },
        FactoryInterface::V2 => LayoutModel {
            name: <DxgiFactory2 as ComInterfaceLayout>::NAME,
            slots: <DxgiFactory2 as ComInterfaceLayout>::SLOT_COUNT as nat,
        },
        FactoryInterface::V3 => LayoutModel {
            name: <DxgiFactory3 as ComInterfaceLayout>::NAME,
            slots: <DxgiFactory3 as ComInterfaceLayout>::SLOT_COUNT as nat,
        },
        FactoryInterface::V4 => LayoutModel {
            name: <DxgiFactory4 as ComInterfaceLayout>::NAME,
            slots: <DxgiFactory4 as ComInterfaceLayout>::SLOT_COUNT as nat,
        },
        FactoryInterface::V5 => LayoutModel {
            name: <DxgiFactory5 as ComInterfaceLayout>::NAME,
            slots: <DxgiFactory5 as ComInterfaceLayout>::SLOT_COUNT as nat,
        },
        FactoryInterface::V6 => LayoutModel {
            name: <DxgiFactory6 as ComInterfaceLayout>::NAME,
            slots: <DxgiFactory6 as ComInterfaceLayout>::SLOT_COUNT as nat,
        },
        FactoryInterface::V7 => LayoutModel {
            name: <DxgiFactory7 as ComInterfaceLayout>::NAME,
            slots: <DxgiFactory7 as ComInterfaceLayout>::SLOT_COUNT as nat,
        },
        FactoryInterface::Media => LayoutModel {
            name: <DxgiFactoryMedia as ComInterfaceLayout>::NAME,
            slots: <DxgiFactoryMedia as ComInterfaceLayout>::SLOT_COUNT as nat,
        },
    }
}

/// The layout of a swap chain interface.
pub open spec fn swap_chain_layout(interface: SwapChainInterface) -> LayoutModel {
    match interface {
        SwapChainInterface::Base => LayoutModel {
            name: <DxgiSwapChain as ComInterfaceLayout>::NAME,
            slots: <DxgiSwapChain as ComInterfaceLayout>::SLOT_COUNT as nat,
        },
        SwapChainInterface::V1 => LayoutModel {
            name: <DxgiSwapChain1 as ComInterfaceLayout>::NAME,
            slots: <DxgiSwapChain1 as ComInterfaceLayout>::SLOT_COUNT as nat,
        },
        SwapChainInterface::V2 => LayoutModel {
            name: <DxgiSwapChain2 as ComInterfaceLayout>::NAME,
            slots: <DxgiSwapChain2 as ComInterfaceLayout>::SLOT_COUNT as nat,
        },
        SwapChainInterface::V3 => LayoutModel {
            name: <DxgiSwapChain3 as ComInterfaceLayout>::NAME,
            slots: <DxgiSwapChain3 as ComInterfaceLayout>::SLOT_COUNT as nat,
        },
        SwapChainInterface::V4 => LayoutModel {
            name: <DxgiSwapChain4 as ComInterfaceLayout>::NAME,
            slots: <DxgiSwapChain4 as ComInterfaceLayout>::SLOT_COUNT as nat,
        },
    }
}

/// Whether the addresses of an object and its vtable can be read at all.
pub open spec fn readable(pointer: usize, vtable: usize) -> bool {
    pointer != 0 && aligned(pointer) && vtable != 0 && aligned(vtable)
}

/// What is wrong with an object and its vtable, if anything, in the order of the checks.
pub open spec fn table_failure(
    name: &'static str,
    pointer: usize,
    vtable: usize,
    entries: Seq<usize>,
) -> Option<VtableError> {
    if pointer == 0 {
        Some(VtableError::NullInterface)
    } else if !aligned(pointer) {
        Some(VtableError::MisalignedInterface { layout: name })
    } else if vtable == 0 {
        Some(VtableError::NullVtable { layout: name })
    } else if !aligned(vtable) {
        Some(VtableError::MisalignedVtable { layout: name })
    } else {
        match first_null(entries) {
            Some(index) => Some(VtableError::NullEntry { layout: name, index: index as usize }),
            None => None,
        }
    }
}

/// Whether another manager owns the route of an object.
pub open spec fn conflicts(routes: Map<usize, Route>, manager_id: u64, pointer: usize) -> bool {
    routes.contains_key(pointer) && routes[pointer].manager_id != manager_id
}

/// What keeps an interface from being intercepted, if anything.
pub open spec fn exact_failure(
    routes: Map<usize, Route>,
    manager_id: u64,
    name: &'static str,
    pointer: usize,
    vtable: usize,
    entries: Seq<usize>,
) -> Option<DxgiError> {
    match table_failure(name, pointer, vtable, entries) {
        Some(error) => Some(DxgiError::Vtable(error)),
        None => if conflicts(routes, manager_id, pointer) {
            Some(DxgiError::HookConflict)
        } else {
            None
        },
    }
}

/// The routes once an object has one. A route that is there already stays.
pub open spec fn routed(
    routes: Map<usize, Route>,
    manager_id: u64,
    pointer: usize,
    originals: Originals,
) -> Map<usize, Route> {
    if routes.contains_key(pointer) {
        routes
    } else {
        routes.insert(pointer, Route { manager_id, originals })
    }
}

/// The routes once a manager gave up the one of an object.
pub open spec fn unrouted(
    routes: Map<usize, Route>,
    manager_id: u64,
    pointer: usize,
) -> Map<usize, Route> {
    if routes.contains_key(pointer) && routes[pointer].manager_id == manager_id {
        routes.remove(pointer)
    } else {
        routes
    }
}

/// The original methods that a factory's route keeps.
pub open spec fn factory_originals(interface: FactoryInterface, entries: Seq<usize>) -> Originals {
    match interface {
        FactoryInterface::Base | FactoryInterface::V1 => Originals::Factory(
            FactoryOriginals {
                query_interface: entries[0],
                create_swap_chain: entries[10],
                create_for_hwnd: None,
                create_for_core_window: None,
                create_for_composition: None,
            },
        ),
        FactoryInterface::Media => Originals::FactoryMedia(
            FactoryMediaOriginals {
                query_interface: entries[0],
                create_for_composition_surface_handle: entries[3],
            },
        ),
        _ => Originals::Factory(
            FactoryOriginals {
                query_interface: entries[0],
                create_swap_chain: entries[10],
                create_for_hwnd: Some(entries[15]),
                create_for_core_window: Some(entries[16]),
                create_for_composition: Some(entries[24]),
            },
        ),
    }
}

/// The entries that a factory's shadow publishes.
pub open spec fn factory_prepared(
    interface: FactoryInterface,
    entries: Seq<usize>,
    detours: FactoryDetours,
) -> Seq<usize> {
    let queried = entries.update(0, detours.query_interface);
    match interface {
        FactoryInterface::Base | FactoryInterface::V1 => queried.update(
            10,
            detours.create_swap_chain,
        ),
        FactoryInterface::Media => queried.update(
            3,
            detours.create_for_composition_surface_handle,
        ),
        _ => queried.update(10, detours.create_swap_chain).update(
            15,
            detours.create_for_hwnd,
        ).update(16, detours.create_for_core_window).update(24, detours.create_for_composition),
    }
}

/// The original methods that a swap chain's route keeps.
pub open spec fn swap_chain_originals(
    interface: SwapChainInterface,
    entries: Seq<usize>,
) -> Originals {
    match interface {
        SwapChainInterface::Base => Originals::SwapChain(
            SwapChainOriginals {
                query_interface: entries[0],
                present: entries[8],
                present1: None,
                resize_buffers: entries[13],
                resize_buffers1: None,
                set_color_space1: None,
            },
        ),
        SwapChainInterface::V1 | SwapChainInterface::V2 => Originals::SwapChain(
            SwapChainOriginals {
                query_interface: entries[0],
                present: entries[8],
                present1: Some(entries[22]),
                resize_buffers: entries[13],
                resize_buffers1: None,
                set_color_space1: None,
            },
        ),
        SwapChainInterface::V3 | SwapChainInterface::V4 => Originals::SwapChain(
            SwapChainOriginals {
                query_interface: entries[0],
                present: entries[8],
                present1: Some(entries[22]),
                resize_buffers: entries[13],
                resize_buffers1: Some(entries[39]),
                set_color_space1: Some(entries[38]),
            },
        ),
    }
}

/// The entries that a swap chain's shadow publishes.
pub open spec fn swap_chain_prepared(
    interface: SwapChainInterface,
    entries: Seq<usize>,
    detours: SwapChainDetours,
) -> Seq<usize> {
    let presented = entries.update(0, detours.query_interface).update(8, detours.present);
    match interface {
        SwapChainInterface::Base => presented.update(13, detours.resize_buffers),
        SwapChainInterface::V1 | SwapChainInterface::V2 => presented.update(
            22,
            detours.present1,
        ).update(13, detours.resize_buffers),
        SwapChainInterface::V3 | SwapChainInterface::V4 => presented.update(
            22,
            detours.present1,
        ).update(13, detours.resize_buffers).update(38, detours.set_color_space1).update(
            39,
            detours.resize_buffers1,
        ),
    }
}

/// Everything about a shadow but its layout.
pub struct ShadowModel {
    /// Object that is intercepted.
    pub target: usize,
    /// Vtable that was copied.
    pub source: usize,
    /// Entries as they were found.
    pub originals: Seq<usize>,
    /// Entries as they are published.
    pub prepared: Seq<usize>,
}

/// The model of a shadow.
pub open spec fn shadow_model<L: ComInterfaceLayout>(shadow: VtableShadow<L>) -> ShadowModel {
    ShadowModel {
        target: shadow.target(),
        source: shadow.source(),
        originals: shadow.originals(),
        prepared: shadow.prepared(),
    }
}

/// Prepares and routes a first-generation factory.
fn install_factory_base<L: ComInterfaceLayout>(
    routes: &mut RouteTable,
    manager_id: u64,
    pointer: usize,
    vtable: usize,
    entries: &[usize],
    detours: FactoryDetours,
) -> (result: Result<VtableShadow<L>, DxgiError>) where
    QueryInterface: ComMethod<L>,
    CreateSwapChain: ComMethod<L>,

    requires
        detours.query_interface != 0,
        detours.create_swap_chain != 0,
        available::<L, QueryInterface>(),
        available::<L, CreateSwapChain>(),
        (interface_failure::<L>(pointer) is None && vtable_failure::<L>(vtable) is None)
            ==> entries@.len() == L::SLOT_COUNT,
    ensures
        copy_failure::<L>(pointer, vtable, entries@) matches Some(error) ==> {
            &&& result == Err::<VtableShadow<L>, DxgiError>(DxgiError::Vtable(error))
            &&& final(routes)@ == old(routes)@
        },
        copy_failure::<L>(pointer, vtable, entries@) is None && conflicts(
            old(routes)@,
            manager_id,
            pointer,
        ) ==> {
            &&& result == Err::<VtableShadow<L>, DxgiError>(DxgiError::HookConflict)
            &&& final(routes)@ == old(routes)@
        },
        copy_failure::<L>(pointer, vtable, entries@) is None && !conflicts(
            old(routes)@,
            manager_id,
            pointer,
        ) ==> {
            &&& result matches Ok(shadow) && shadow.wf() && shadow_model(shadow) == (ShadowModel {
                target: pointer,
                source: vtable,
                originals: entries@,
                prepared: entries@.update(
                    <QueryInterface as ComMethod<L>>::INDEX as int,
                    detours.query_interface,
                ).update(
                    <CreateSwapChain as ComMethod<L>>::INDEX as int,
                    detours.create_swap_chain,
                ),
            })
            &&& final(routes)@ == routed(
                old(routes)@,
                manager_id,
                pointer,
                Originals::Factory(
                    FactoryOriginals {
                        query_interface: entries@[<QueryInterface as ComMethod<L>>::INDEX as int],
                        create_swap_chain: entries@[<CreateSwapChain as ComMethod<L>>::INDEX as int],
                        create_for_hwnd: None,
                        create_for_core_window: None,
                        create_for_composition: None,
                    },
                ),
            )
        },
{
    let mut shadow = match VtableShadow::<L>::copy_from(pointer, vtable, entries) {
        Ok(shadow) => shadow,
        Err(error) => {
            return Err(DxgiError::from(error));
        },
    };
    let originals = match prepare_factory_base(&mut shadow, detours) {
        Ok(originals) => originals,
        Err(error) => {
            return Err(DxgiError::from(error));
        },
    };
    let route = Route { manager_id, originals: Originals::Factory(originals) };
    match routes.register_route(pointer, route) {
        Ok(()) => Ok(shadow),
        Err(error) => Err(error),
    }
}

/// Prepares and routes a factory from the second revision on.
fn install_factory2<L: ComInterfaceLayout>(
    routes: &mut RouteTable,
    manager_id: u64,
    pointer: usize,
    vtable: usize,
    entries: &[usize],
    detours: FactoryDetours,
) -> (result: Result<VtableShadow<L>, DxgiError>) where
    QueryInterface: ComMethod<L>,
    CreateSwapChain: ComMethod<L>,
    CreateSwapChainForHwnd: ComMethod<L>,
    CreateSwapChainForCoreWindow: ComMethod<L>,
    CreateSwapChainForComposition: ComMethod<L>,

    requires
        detours.query_interface != 0,
        detours.create_swap_chain != 0,
        detours.create_for_hwnd != 0,
        detours.create_for_core_window != 0,
        detours.create_for_composition != 0,
        available::<L, QueryInterface>(),
        available::<L, CreateSwapChain>(),
        available::<L, CreateSwapChainForHwnd>(),
        available::<L, CreateSwapChainForCoreWindow>(),
        available::<L, CreateSwapChainForComposition>(),
        (interface_failure::<L>(pointer) is None && vtable_failure::<L>(vtable) is None)
            ==> entries@.len() == L::SLOT_COUNT,
    ensures
        copy_failure::<L>(pointer, vtable, entries@) matches Some(error) ==> {
            &&& result == Err::<VtableShadow<L>, DxgiError>(DxgiError::Vtable(error))
            &&& final(routes)@ == old(routes)@
        },
        copy_failure::<L>(pointer, vtable, entries@) is None && conflicts(
            old(routes)@,
            manager_id,
            pointer,
        ) ==> {
            &&& result == Err::<VtableShadow<L>, DxgiError>(DxgiError::HookConflict)
            &&& final(routes)@ == old(routes)@
        },
        copy_failure::<L>(pointer, vtable, entries@) is None && !conflicts(
            old(routes)@,
            manager_id,
            pointer,
        ) ==> {
            &&& result matches Ok(shadow) && shadow.wf() && shadow_model(shadow) == (ShadowModel {
                target: pointer,
                source: vtable,
                originals: entries@,
                prepared: entries@.update(
                    <QueryInterface as ComMethod<L>>::INDEX as int,
                    detours.query_interface,
                ).update(
                    <CreateSwapChain as ComMethod<L>>::INDEX as int,
                    detours.create_swap_chain,
                ).update(
                    <CreateSwapChainForHwnd as ComMethod<L>>::INDEX as int,
                    detours.create_for_hwnd,
                ).update(
                    <CreateSwapChainForCoreWindow as ComMethod<L>>::INDEX as int,
                    detours.create_for_core_window,
                ).update(
                    <CreateSwapChainForComposition as ComMethod<L>>::INDEX as int,
                    detours.create_for_composition,
                ),
            })
            &&& final(routes)@ == routed(
                old(routes)@,
                manager_id,
                pointer,
                Originals::Factory(
                    FactoryOriginals {
                        query_interface: entries@[<QueryInterface as ComMethod<L>>::INDEX as int],
                        create_swap_chain: entries@[<CreateSwapChain as ComMethod<L>>::INDEX as int],
                        create_for_hwnd: Some(entries@[<CreateSwapChainForHwnd as ComMethod<L>>::INDEX as int]),
                        create_for_core_window: Some(entries@[<CreateSwapChainForCoreWindow as ComMethod<L>>::INDEX as int]),
                        create_for_composition: Some(entries@[<CreateSwapChainForComposition as ComMethod<L>>::INDEX as int]),
                    },
                ),
            )
        },
{
    let mut shadow = match VtableShadow::<L>::copy_from(pointer, vtable, entries) {
        Ok(shadow) => shadow,
        Err(error) => {
            return Err(DxgiError::from(error));
        },
    };
    let originals = match prepare_factory2(&mut shadow, detours) {
        Ok(originals) => originals,
        Err(error) => {
            return Err(DxgiError::from(error));
        },
    };
    let route = Route { manager_id, originals: Originals::Factory(originals) };
    match routes.register_route(pointer, route) {
        Ok(()) => Ok(shadow),
        Err(error) => Err(error),
    }
}

/// Prepares and routes a media factory.
fn install_factory_media<L: ComInterfaceLayout>(
    routes: &mut RouteTable,
    manager_id: u64,
    pointer: usize,
    vtable: usize,
    entries: &[usize],
    detours: FactoryDetours,
) -> (result: Result<VtableShadow<L>, DxgiError>) where
    QueryInterface: ComMethod<L>,
    CreateSwapChainForCompositionSurfaceHandle: ComMethod<L>,

    requires
        detours.query_interface != 0,
        detours.create_for_composition_surface_handle != 0,
        available::<L, QueryInterface>(),
        available::<L, CreateSwapChainForCompositionSurfaceHandle>(),
        (interface_failure::<L>(pointer) is None && vtable_failure::<L>(vtable) is None)
            ==> entries@.len() == L::SLOT_COUNT,
    ensures
        copy_failure::<L>(pointer, vtable, entries@) matches Some(error) ==> {
            &&& result == Err::<VtableShadow<L>, DxgiError>(DxgiError::Vtable(error))
            &&& final(routes)@ == old(routes)@
        },
        copy_failure::<L>(pointer, vtable, entries@) is None && conflicts(
            old(routes)@,
            manager_id,
            pointer,
        ) ==> {
            &&& result == Err::<VtableShadow<L>, DxgiError>(DxgiError::HookConflict)
            &&& final(routes)@ == old(routes)@
        },
        copy_failure::<L>(pointer, vtable, entries@) is None && !conflicts(
            old(routes)@,
            manager_id,
            pointer,
        ) ==> {
            &&& result matches Ok(shadow) && shadow.wf() && shadow_model(shadow) == (ShadowModel {
                target: pointer,
                source: vtable,
                originals: entries@,
                prepared: entries@.update(
                    <QueryInterface as ComMethod<L>>::INDEX as int,
                    detours.query_interface,
                ).update(
                    <CreateSwapChainForCompositionSurfaceHandle as ComMethod<L>>::INDEX as int,
                    detours.create_for_composition_surface_handle,
                ),
            })
            &&& final(routes)@ == routed(
                old(routes)@,
                manager_id,
                pointer,
                Originals::FactoryMedia(
                    FactoryMediaOriginals {
                        query_interface: entries@[<QueryInterface as ComMethod<L>>::INDEX as int],
                        create_for_composition_surface_handle: entries@[<CreateSwapChainForCompositionSurfaceHandle as ComMethod<L>>::INDEX as int],
                    },
                ),
            )
        },
{
    let mut shadow = match VtableShadow::<L>::copy_from(pointer, vtable, entries) {
        Ok(shadow) => shadow,
        Err(error) => {
            return Err(DxgiError::from(error));
        },
    };
    let originals = match prepare_factory_media(&mut shadow, detours) {
        Ok(originals) => originals,
        Err(error) => {
            return Err(DxgiError::from(error));
        },
    };
    let route = Route { manager_id, originals: Originals::FactoryMedia(originals) };
    match routes.register_route(pointer, route) {
        Ok(()) => Ok(shadow),
        Err(error) => Err(error),
    }
}

/// Prepares and routes a base swap chain.
fn install_swap_chain_base<L: ComInterfaceLayout>(
    routes: &mut RouteTable,
    manager_id: u64,
    pointer: usize,
    vtable: usize,
    entries: &[usize],
    detours: SwapChainDetours,
) -> (result: Result<VtableShadow<L>, DxgiError>) where
    QueryInterface: ComMethod<L>,
    Present: ComMethod<L>,
    ResizeBuffers: ComMethod<L>,

    requires
        detours.query_interface != 0,
        detours.present != 0,
        detours.resize_buffers != 0,
        available::<L, QueryInterface>(),
        available::<L, Present>(),
        available::<L, ResizeBuffers>(),
        (interface_failure::<L>(pointer) is None && vtable_failure::<L>(vtable) is None)
            ==> entries@.len() == L::SLOT_COUNT,
    ensures
        copy_failure::<L>(pointer, vtable, entries@) matches Some(error) ==> {
            &&& result == Err::<VtableShadow<L>, DxgiError>(DxgiError::Vtable(error))
            &&& final(routes)@ == old(routes)@
        },
        copy_failure::<L>(pointer, vtable, entries@) is None && conflicts(
            old(routes)@,
            manager_id,
            pointer,
        ) ==> {
            &&& result == Err::<VtableShadow<L>, DxgiError>(DxgiError::HookConflict)
            &&& final(routes)@ == old(routes)@
        },
        copy_failure::<L>(pointer, vtable, entries@) is None && !conflicts(
            old(routes)@,
            manager_id,
            pointer,
        ) ==> {
            &&& result matches Ok(shadow) && shadow.wf() && shadow_model(shadow) == (ShadowModel {
                target: pointer,
                source: vtable,
                originals: entries@,
                prepared: entries@.update(
                    <QueryInterface as ComMethod<L>>::INDEX as int,
                    detours.query_interface,
                ).update(
                    <Present as ComMethod<L>>::INDEX as int,
                    detours.present,
                ).update(
                    <ResizeBuffers as ComMethod<L>>::INDEX as int,
                    detours.resize_buffers,
                ),
            })
            &&& final(routes)@ == routed(
                old(routes)@,
                manager_id,
                pointer,
                Originals::SwapChain(
                    SwapChainOriginals {
                        query_interface: entries@[<QueryInterface as ComMethod<L>>::INDEX as int],
                        present: entries@[<Present as ComMethod<L>>::INDEX as int],
                        present1: None,
                        resize_buffers: entries@[<ResizeBuffers as ComMethod<L>>::INDEX as int],
                        resize_buffers1: None,
                        set_color_space1: None,
                    },
                ),
            )
        },
{
    let mut shadow = match VtableShadow::<L>::copy_from(pointer, vtable, entries) {
        Ok(shadow) => shadow,
        Err(error) => {
            return Err(DxgiError::from(error));
        },
    };
    let originals = match prepare_swap_chain_base(&mut shadow, detours) {
        Ok(originals) => originals,
        Err(error) => {
            return Err(DxgiError::from(error));
        },
    };
    let route = Route { manager_id, originals: Originals::SwapChain(originals) };
    match routes.register_route(pointer, route) {
        Ok(()) => Ok(shadow),
        Err(error) => Err(error),
    }
}

/// Prepares and routes a swap chain of the first or second revision.
fn install_swap_chain1<L: ComInterfaceLayout>(
    routes: &mut RouteTable,
    manager_id: u64,
    pointer: usize,
    vtable: usize,
    entries: &[usize],
    detours: SwapChainDetours,
) -> (result: Result<VtableShadow<L>, DxgiError>) where
    QueryInterface: ComMethod<L>,
    Present: ComMethod<L>,
    Present1: ComMethod<L>,
    ResizeBuffers: ComMethod<L>,

    requires
        detours.query_interface != 0,
        detours.present != 0,
        detours.present1 != 0,
        detours.resize_buffers != 0,
        available::<L, QueryInterface>(),
        available::<L, Present>(),
        available::<L, Present1>(),
        available::<L, ResizeBuffers>(),
        (interface_failure::<L>(pointer) is None && vtable_failure::<L>(vtable) is None)
            ==> entries@.len() == L::SLOT_COUNT,
    ensures
        copy_failure::<L>(pointer, vtable, entries@) matches Some(error) ==> {
            &&& result == Err::<VtableShadow<L>, DxgiError>(DxgiError::Vtable(error))
            &&& final(routes)@ == old(routes)@
        },
        copy_failure::<L>(pointer, vtable, entries@) is None && conflicts(
            old(routes)@,
            manager_id,
            pointer,
        ) ==> {
            &&& result == Err::<VtableShadow<L>, DxgiError>(DxgiError::HookConflict)
            &&& final(routes)@ == old(routes)@
        },
        copy_failure::<L>(pointer, vtable, entries@) is None && !conflicts(
            old(routes)@,
            manager_id,
            pointer,
        ) ==> {
            &&& result matches Ok(shadow) && shadow.wf() && shadow_model(shadow) == (ShadowModel {
                target: pointer,
                source: vtable,
                originals: entries@,
                prepared: entries@.update(
                    <QueryInterface as ComMethod<L>>::INDEX as int,
                    detours.query_interface,
                ).update(
                    <Present as ComMethod<L>>::INDEX as int,
                    detours.present,
                ).update(
                    <Present1 as ComMethod<L>>::INDEX as int,
                    detours.present1,
                ).update(
                    <ResizeBuffers as ComMethod<L>>::INDEX as int,
                    detours.resize_buffers,
                ),
            })
            &&& final(routes)@ == routed(
                old(routes)@,
                manager_id,
                pointer,
                Originals::SwapChain(
                    SwapChainOriginals {
                        query_interface: entries@[<QueryInterface as ComMethod<L>>::INDEX as int],
                        present: entries@[<Present as ComMethod<L>>::INDEX as int],
                        present1: Some(entries@[<Present1 as ComMethod<L>>::INDEX as int]),
                        resize_buffers: entries@[<ResizeBuffers as ComMethod<L>>::INDEX as int],
                        resize_buffers1: None,
                        set_color_space1: None,
                    },
                ),
            )
        },
{
    let mut shadow = match VtableShadow::<L>::copy_from(pointer, vtable, entries) {
        Ok(shadow) => shadow,
        Err(error) => {
            return Err(DxgiError::from(error));
        },
    };
    let originals = match prepare_swap_chain1(&mut shadow, detours) {
        Ok(originals) => originals,
        Err(error) => {
            return Err(DxgiError::from(error));
        },
    };
    let route = Route { manager_id, originals: Originals::SwapChain(originals) };
    match routes.register_route(pointer, route) {
        Ok(()) => Ok(shadow),
        Err(error) => Err(error),
    }
}

/// Prepares and routes a swap chain from the third revision on.
fn install_swap_chain3<L: ComInterfaceLayout>(
    routes: &mut RouteTable,
    manager_id: u64,
    pointer: usize,
    vtable: usize,
    entries: &[usize],
    detours: SwapChainDetours,
) -> (result: Result<VtableShadow<L>, DxgiError>) where
    QueryInterface: ComMethod<L>,
    Present: ComMethod<L>,
    Present1: ComMethod<L>,
    ResizeBuffers: ComMethod<L>,
    SetColorSpace1: ComMethod<L>,
    ResizeBuffers1: ComMethod<L>,

    requires
        detours.query_interface != 0,
        detours.present != 0,
        detours.present1 != 0,
        detours.resize_buffers != 0,
        detours.set_color_space1 != 0,
        detours.resize_buffers1 != 0,
        available::<L, QueryInterface>(),
        available::<L, Present>(),
        available::<L, Present1>(),
        available::<L, ResizeBuffers>(),
        available::<L, SetColorSpace1>(),
        available::<L, ResizeBuffers1>(),
        (interface_failure::<L>(pointer) is None && vtable_failure::<L>(vtable) is None)
            ==> entries@.len() == L::SLOT_COUNT,
    ensures
        copy_failure::<L>(pointer, vtable, entries@) matches Some(error) ==> {
            &&& result == Err::<VtableShadow<L>, DxgiError>(DxgiError::Vtable(error))
            &&& final(routes)@ == old(routes)@
        },
        copy_failure::<L>(pointer, vtable, entries@) is None && conflicts(
            old(routes)@,
            manager_id,
            pointer,
        ) ==> {
            &&& result == Err::<VtableShadow<L>, DxgiError>(DxgiError::HookConflict)
            &&& final(routes)@ == old(routes)@
        },
        copy_failure::<L>(pointer, vtable, entries@) is None && !conflicts(
            old(routes)@,
            manager_id,
            pointer,
        ) ==> {
            &&& result matches Ok(shadow) && shadow.wf() && shadow_model(shadow) == (ShadowModel {
                target: pointer,
                source: vtable,
                originals: entries@,
                prepared: entries@.update(
                    <QueryInterface as ComMethod<L>>::INDEX as int,
                    detours.query_interface,
                ).update(
                    <Present as ComMethod<L>>::INDEX as int,
                    detours.present,
                ).update(
                    <Present1 as ComMethod<L>>::INDEX as int,
                    detours.present1,
                ).update(
                    <ResizeBuffers as ComMethod<L>>::INDEX as int,
                    detours.resize_buffers,
                ).update(
                    <SetColorSpace1 as ComMethod<L>>::INDEX as int,
                    detours.set_color_space1,
                ).update(
                    <ResizeBuffers1 as ComMethod<L>>::INDEX as int,
                    detours.resize_buffers1,
                ),
            })
            &&& final(routes)@ == routed(
                old(routes)@,
                manager_id,
                pointer,
                Originals::SwapChain(
                    SwapChainOriginals {
                        query_interface: entries@[<QueryInterface as ComMethod<L>>::INDEX as int],
                        present: entries@[<Present as ComMethod<L>>::INDEX as int],
                        present1: Some(entries@[<Present1 as ComMethod<L>>::INDEX as int]),
                        resize_buffers: entries@[<ResizeBuffers as ComMethod<L>>::INDEX as int],
                        resize_buffers1: Some(entries@[<ResizeBuffers1 as ComMethod<L>>::INDEX as int]),
                        set_color_space1: Some(entries@[<SetColorSpace1 as ComMethod<L>>::INDEX as int]),
                    },
                ),
            )
        },
{
    let mut shadow = match VtableShadow::<L>::copy_from(pointer, vtable, entries) {
        Ok(shadow) => shadow,
        Err(error) => {
            return Err(DxgiError::from(error));
        },
    };
    let originals = match prepare_swap_chain3(&mut shadow, detours) {
        Ok(originals) => originals,
        Err(error) => {
            return Err(DxgiError::from(error));
        },
    };
    let route = Route { manager_id, originals: Originals::SwapChain(originals) };
    match routes.register_route(pointer, route) {
        Ok(()) => Ok(shadow),
        Err(error) => Err(error),
    }
}

/// A prepared and routed hook that is not published yet.
pub enum PreparedHook {
    /// `IDXGIFactory`.
    Factory(VtableShadow<DxgiFactory>),
    /// `IDXGIFactory1`.
    Factory1(VtableShadow<DxgiFactory1>),
    /// `IDXGIFactory2`.
    Factory2(VtableShadow<DxgiFactory2>),
    /// `IDXGIFactory3`.
    Factory3(VtableShadow<DxgiFactory3>),
    /// `IDXGIFactory4`.
    Factory4(VtableShadow<DxgiFactory4>),
    /// `IDXGIFactory5`.
    Factory5(VtableShadow<DxgiFactory5>),
    /// `IDXGIFactory6`.
    Factory6(VtableShadow<DxgiFactory6>),
    /// `IDXGIFactory7`.
    Factory7(VtableShadow<DxgiFactory7>),
    /// `IDXGIFactoryMedia`.
    FactoryMedia(VtableShadow<DxgiFactoryMedia>),
    /// `IDXGISwapChain`.
    SwapChain(VtableShadow<DxgiSwapChain>),
    /// `IDXGISwapChain1`.
    SwapChain1(VtableShadow<DxgiSwapChain1>),
    /// `IDXGISwapChain2`.
    SwapChain2(VtableShadow<DxgiSwapChain2>),
    /// `IDXGISwapChain3`.
    SwapChain3(VtableShadow<DxgiSwapChain3>),
    /// `IDXGISwapChain4`.
    SwapChain4(VtableShadow<DxgiSwapChain4>),
}

impl PreparedHook {
    /// The shadow is complete.
    pub open spec fn wf(&self) -> bool {
        match self {
            PreparedHook::Factory(shadow) => shadow.wf(),
            PreparedHook::Factory1(shadow) => shadow.wf(),
            PreparedHook::Factory2(shadow) => shadow.wf(),
            PreparedHook::Factory3(shadow) => shadow.wf(),
            PreparedHook::Factory4(shadow) => shadow.wf(),
            PreparedHook::Factory5(shadow) => shadow.wf(),
            PreparedHook::Factory6(shadow) => shadow.wf(),
            PreparedHook::Factory7(shadow) => shadow.wf(),
            PreparedHook::FactoryMedia(shadow) => shadow.wf(),
            PreparedHook::SwapChain(shadow) => shadow.wf(),
            PreparedHook::SwapChain1(shadow) => shadow.wf(),
            PreparedHook::SwapChain2(shadow) => shadow.wf(),
            PreparedHook::SwapChain3(shadow) => shadow.wf(),
            PreparedHook::SwapChain4(shadow) => shadow.wf(),
        }
    }

    /// Name of the layout.
    pub open spec fn layout(&self) -> &'static str {
        match self {
            PreparedHook::Factory(_) => <DxgiFactory as ComInterfaceLayout>::NAME,
            PreparedHook::Factory1(_) => <DxgiFactory1 as ComInterfaceLayout>::NAME,
            PreparedHook::Factory2(_) => <DxgiFactory2 as ComInterfaceLayout>::NAME,
            PreparedHook::Factory3(_) => <DxgiFactory3 as ComInterfaceLayout>::NAME,
            PreparedHook::Factory4(_) => <DxgiFactory4 as ComInterfaceLayout>::NAME,
            PreparedHook::Factory5(_) => <DxgiFactory5 as ComInterfaceLayout>::NAME,
            PreparedHook::Factory6(_) => <DxgiFactory6 as ComInterfaceLayout>::NAME,
            PreparedHook::Factory7(_) => <DxgiFactory7 as ComInterfaceLayout>::NAME,
            PreparedHook::FactoryMedia(_) => <DxgiFactoryMedia as ComInterfaceLayout>::NAME,
            PreparedHook::SwapChain(_) => <DxgiSwapChain as ComInterfaceLayout>::NAME,
            PreparedHook::SwapChain1(_) => <DxgiSwapChain1 as ComInterfaceLayout>::NAME,
            PreparedHook::SwapChain2(_) => <DxgiSwapChain2 as ComInterfaceLayout>::NAME,
            PreparedHook::SwapChain3(_) => <DxgiSwapChain3 as ComInterfaceLayout>::NAME,
            PreparedHook::SwapChain4(_) => <DxgiSwapChain4 as ComInterfaceLayout>::NAME,
        }
    }

    /// The shadow, whatever its layout.
    pub open spec fn model(&self) -> ShadowModel {
        match self {
            PreparedHook::Factory(shadow) => shadow_model(*shadow),
            PreparedHook::Factory1(shadow) => shadow_model(*shadow),
            PreparedHook::Factory2(shadow) => shadow_model(*shadow),
            PreparedHook::Factory3(shadow) => shadow_model(*shadow),
            PreparedHook::Factory4(shadow) => shadow_model(*shadow),
            PreparedHook::Factory5(shadow) => shadow_model(*shadow),
            PreparedHook::Factory6(shadow) => shadow_model(*shadow),
            PreparedHook::Factory7(shadow) => shadow_model(*shadow),
            PreparedHook::FactoryMedia(shadow) => shadow_model(*shadow),
            PreparedHook::SwapChain(shadow) => shadow_model(*shadow),
            PreparedHook::SwapChain1(shadow) => shadow_model(*shadow),
            PreparedHook::SwapChain2(shadow) => shadow_model(*shadow),
            PreparedHook::SwapChain3(shadow) => shadow_model(*shadow),
            PreparedHook::SwapChain4(shadow) => shadow_model(*shadow),
        }
    }

    /// Returns the object to intercept.
    pub fn interface(&self) -> (interface: usize)
        ensures
            interface == self.model().target,
    {
        match self {
            PreparedHook::Factory(shadow) => shadow.interface(),
            PreparedHook::Factory1(shadow) => shadow.interface(),
            PreparedHook::Factory2(shadow) => shadow.interface(),
            PreparedHook::Factory3(shadow) => shadow.interface(),
            PreparedHook::Factory4(shadow) => shadow.interface(),
            PreparedHook::Factory5(shadow) => shadow.interface(),
            PreparedHook::Factory6(shadow) => shadow.interface(),
            PreparedHook::Factory7(shadow) => shadow.interface(),
            PreparedHook::FactoryMedia(shadow) => shadow.interface(),
            PreparedHook::SwapChain(shadow) => shadow.interface(),
            PreparedHook::SwapChain1(shadow) => shadow.interface(),
            PreparedHook::SwapChain2(shadow) => shadow.interface(),
            PreparedHook::SwapChain3(shadow) => shadow.interface(),
            PreparedHook::SwapChain4(shadow) => shadow.interface(),
        }
    }

    /// Returns the vtable that the object must still hold.
    pub fn original_vtable(&self) -> (vtable: usize)
        ensures
            vtable == self.model().source,
    {
        match self {
            PreparedHook::Factory(shadow) => shadow.original_vtable(),
            PreparedHook::Factory1(shadow) => shadow.original_vtable(),
            PreparedHook::Factory2(shadow) => shadow.original_vtable(),
            PreparedHook::Factory3(shadow) => shadow.original_vtable(),
            PreparedHook::Factory4(shadow) => shadow.original_vtable(),
            PreparedHook::Factory5(shadow) => shadow.original_vtable(),
            PreparedHook::Factory6(shadow) => shadow.original_vtable(),
            PreparedHook::Factory7(shadow) => shadow.original_vtable(),
            PreparedHook::FactoryMedia(shadow) => shadow.original_vtable(),
            PreparedHook::SwapChain(shadow) => shadow.original_vtable(),
            PreparedHook::SwapChain1(shadow) => shadow.original_vtable(),
            PreparedHook::SwapChain2(shadow) => shadow.original_vtable(),
            PreparedHook::SwapChain3(shadow) => shadow.original_vtable(),
            PreparedHook::SwapChain4(shadow) => shadow.original_vtable(),
        }
    }

    /// Returns a copy of the entries to publish.
    pub fn entries(&self) -> (entries: Vec<usize>)
        ensures
            entries@ == self.model().prepared,
    {
        match self {
            PreparedHook::Factory(shadow) => shadow.entries(),
            PreparedHook::Factory1(shadow) => shadow.entries(),
            PreparedHook::Factory2(shadow) => shadow.entries(),
            PreparedHook::Factory3(shadow) => shadow.entries(),
            PreparedHook::Factory4(shadow) => shadow.entries(),
            PreparedHook::Factory5(shadow) => shadow.entries(),
            PreparedHook::Factory6(shadow) => shadow.entries(),
            PreparedHook::Factory7(shadow) => shadow.entries(),
            PreparedHook::FactoryMedia(shadow) => shadow.entries(),
            PreparedHook::SwapChain(shadow) => shadow.entries(),
            PreparedHook::SwapChain1(shadow) => shadow.entries(),
            PreparedHook::SwapChain2(shadow) => shadow.entries(),
            PreparedHook::SwapChain3(shadow) => shadow.entries(),
            PreparedHook::SwapChain4(shadow) => shadow.entries(),
        }
    }

    /// Returns the original `AddRef` and `Release` of the object.
    pub fn reference_methods(&self) -> (methods: (usize, usize))
        requires
            self.wf(),
        ensures
            methods.0 == self.model().originals[1],
            methods.1 == self.model().originals[2],
    {
        match self {
            PreparedHook::Factory(shadow) => shadow.reference_methods(),
            PreparedHook::Factory1(shadow) => shadow.reference_methods(),
            PreparedHook::Factory2(shadow) => shadow.reference_methods(),
            PreparedHook::Factory3(shadow) => shadow.reference_methods(),
            PreparedHook::Factory4(shadow) => shadow.reference_methods(),
            PreparedHook::Factory5(shadow) => shadow.reference_methods(),
            PreparedHook::Factory6(shadow) => shadow.reference_methods(),
            PreparedHook::Factory7(shadow) => shadow.reference_methods(),
            PreparedHook::FactoryMedia(shadow) => shadow.reference_methods(),
            PreparedHook::SwapChain(shadow) => shadow.reference_methods(),
            PreparedHook::SwapChain1(shadow) => shadow.reference_methods(),
            PreparedHook::SwapChain2(shadow) => shadow.reference_methods(),
            PreparedHook::SwapChain3(shadow) => shadow.reference_methods(),
            PreparedHook::SwapChain4(shadow) => shadow.reference_methods(),
        }
    }

    /// Completes the publication of a routed hook.
    ///
    /// The object's first word was compare-exchanged before this call, and
    /// `observed` is what the exchange found. The route is given up where the
    /// hook was not published, and the reference that was added is released
    /// again.
    pub fn publish(
        self,
        routes: &mut RouteTable,
        manager_id: u64,
        shadow_table: usize,
        observed: usize,
    ) -> (publication: Publication)
        requires
            self.wf(),
        ensures
            publication.result is Ok <==> observed == self.model().source,
            publication.release == install_releases(observed, self.model().source),
            publication.result matches Ok(guard) ==> {
                &&& guard.wf()
                &&& guard.layout() == self.layout()
                &&& guard.model() == self.model()
                &&& guard.table() == shadow_table
                &&& guard.publication() == InstallState::Installed
                &&& final(routes)@ == old(routes)@
            },
            publication.result matches Err(error) ==> {
                &&& error == DxgiError::Vtable(
                    VtableError::VtableChanged { layout: self.layout() },
                )
                &&& final(routes)@ == unrouted(old(routes)@, manager_id, self.model().target)
            },
    {
        let pointer = self.interface();
        let (installed, release): (Result<HookGuard, VtableError>, bool) = match self {
            PreparedHook::Factory(shadow) => {
                let installation = shadow.install(shadow_table, observed);
                match installation.result {
                    Ok(guard) => (Ok(HookGuard::Factory(guard)), installation.release),
                    Err(error) => (Err(error), installation.release),
                }
            },
            PreparedHook::Factory1(shadow) => {
                let installation = shadow.install(shadow_table, observed);
                match installation.result {
                    Ok(guard) => (Ok(HookGuard::Factory1(guard)), installation.release),
                    Err(error) => (Err(error), installation.release),
                }
            },
            PreparedHook::Factory2(shadow) => {
                let installation = shadow.install(shadow_table, observed);
                match installation.result {
                    Ok(guard) => (Ok(HookGuard::Factory2(guard)), installation.release),
                    Err(error) => (Err(error), installation.release),
                }
            },
            PreparedHook::Factory3(shadow) => {
                let installation = shadow.install(shadow_table, observed);
                match installation.result {
                    Ok(guard) => (Ok(HookGuard::Factory3(guard)), installation.release),
                    Err(error) => (Err(error), installation.release),
                }
            },
            PreparedHook::Factory4(shadow) => {
                let installation = shadow.install(shadow_table, observed);
                match installation.result {
                    Ok(guard) => (Ok(HookGuard::Factory4(guard)), installation.release),
                    Err(error) => (Err(error), installation.release),
                }
            },
            PreparedHook::Factory5(shadow) => {
                let installation = shadow.install(shadow_table, observed);
                match installation.result {
                    Ok(guard) => (Ok(HookGuard::Factory5(guard)), installation.release),
                    Err(error) => (Err(error), installation.release),
                }
            },
            PreparedHook::Factory6(shadow) => {
                let installation = shadow.install(shadow_table, observed);
                match installation.result {
                    Ok(guard) => (Ok(HookGuard::Factory6(guard)), installation.release),
                    Err(error) => (Err(error), installation.release),
                }
            },
            PreparedHook::Factory7(shadow) => {
                let installation = shadow.install(shadow_table, observed);
                match installation.result {
                    Ok(guard) => (Ok(HookGuard::Factory7(guard)), installation.release),
                    Err(error) => (Err(error), installation.release),
                }
            },
            PreparedHook::FactoryMedia(shadow) => {
                let installation = shadow.install(shadow_table, observed);
                match installation.result {
                    Ok(guard) => (Ok(HookGuard::FactoryMedia(guard)), installation.release),
                    Err(error) => (Err(error), installation.release),
                }
            },
            PreparedHook::SwapChain(shadow) => {
                let installation = shadow.install(shadow_table, observed);
                match installation.result {
                    Ok(guard) => (Ok(HookGuard::SwapChain(guard)), installation.release),
                    Err(error) => (Err(error), installation.release),
                }
            },
            PreparedHook::SwapChain1(shadow) => {
                let installation = shadow.install(shadow_table, observed);
                match installation.result {
                    Ok(guard) => (Ok(HookGuard::SwapChain1(guard)), installation.release),
                    Err(error) => (Err(error), installation.release),
                }
            },
            PreparedHook::SwapChain2(shadow) => {
                let installation = shadow.install(shadow_table, observed);
                match installation.result {
                    Ok(guard) => (Ok(HookGuard::SwapChain2(guard)), installation.release),
                    Err(error) => (Err(error), installation.release),
                }
            },
            PreparedHook::SwapChain3(shadow) => {
                let installation = shadow.install(shadow_table, observed);
                match installation.result {
                    Ok(guard) => (Ok(HookGuard::SwapChain3(guard)), installation.release),
                    Err(error) => (Err(error), installation.release),
                }
            },
            PreparedHook::SwapChain4(shadow) => {
                let installation = shadow.install(shadow_table, observed);
                match installation.result {
                    Ok(guard) => (Ok(HookGuard::SwapChain4(guard)), installation.release),
                    Err(error) => (Err(error), installation.release),
                }
            },
        };
        match installed {
            Ok(guard) => Publication { result: Ok(guard), release },
            Err(error) => {
                routes.unregister_route(manager_id, pointer);
                Publication { result: Err(DxgiError::from(error)), release }
            },
        }
    }
}

/// What became of the publication of a hook.
pub struct Publication {
    /// The hook, or why it was not published.
    pub result: Result<HookGuard, DxgiError>,
    /// Whether the extra COM reference is to be released now.
    pub release: bool,
}

/// Owner of one published or restored hook.
pub enum HookGuard {
    /// `IDXGIFactory`.
    Factory(InstalledVtable<DxgiFactory>),
    /// `IDXGIFactory1`.
    Factory1(InstalledVtable<DxgiFactory1>),
    /// `IDXGIFactory2`.
    Factory2(InstalledVtable<DxgiFactory2>),
    /// `IDXGIFactory3`.
    Factory3(InstalledVtable<DxgiFactory3>),
    /// `IDXGIFactory4`.
    Factory4(InstalledVtable<DxgiFactory4>),
    /// `IDXGIFactory5`.
    Factory5(InstalledVtable<DxgiFactory5>),
    /// `IDXGIFactory6`.
    Factory6(InstalledVtable<DxgiFactory6>),
    /// `IDXGIFactory7`.
    Factory7(InstalledVtable<DxgiFactory7>),
    /// `IDXGIFactoryMedia`.
    FactoryMedia(InstalledVtable<DxgiFactoryMedia>),
    /// `IDXGISwapChain`.
    SwapChain(InstalledVtable<DxgiSwapChain>),
    /// `IDXGISwapChain1`.
    SwapChain1(InstalledVtable<DxgiSwapChain1>),
    /// `IDXGISwapChain2`.
    SwapChain2(InstalledVtable<DxgiSwapChain2>),
    /// `IDXGISwapChain3`.
    SwapChain3(InstalledVtable<DxgiSwapChain3>),
    /// `IDXGISwapChain4`.
    SwapChain4(InstalledVtable<DxgiSwapChain4>),
}

/// What the restoration of a hook decided.
#[derive(Clone, Copy, Debug, PartialEq, Eq)]
pub struct GuardRestoration {
    /// Whether the vtable was put back by this request, or why it was not.
    pub result: Result<bool, VtableError>,
    /// Whether the guard's extra COM reference is to be released now.
    pub release: bool,
}

impl HookGuard {
    /// The shadow is complete.
    pub open spec fn wf(&self) -> bool {
        match self {
            HookGuard::Factory(guard) => guard.wf(),
            HookGuard::Factory1(guard) => guard.wf(),
            HookGuard::Factory2(guard) => guard.wf(),
            HookGuard::Factory3(guard) => guard.wf(),
            HookGuard::Factory4(guard) => guard.wf(),
            HookGuard::Factory5(guard) => guard.wf(),
            HookGuard::Factory6(guard) => guard.wf(),
            HookGuard::Factory7(guard) => guard.wf(),
            HookGuard::FactoryMedia(guard) => guard.wf(),
            HookGuard::SwapChain(guard) => guard.wf(),
            HookGuard::SwapChain1(guard) => guard.wf(),
            HookGuard::SwapChain2(guard) => guard.wf(),
            HookGuard::SwapChain3(guard) => guard.wf(),
            HookGuard::SwapChain4(guard) => guard.wf(),
        }
    }

    /// Name of the layout.
    pub open spec fn layout(&self) -> &'static str {
        match self {
            HookGuard::Factory(_) => <DxgiFactory as ComInterfaceLayout>::NAME,
            HookGuard::Factory1(_) => <DxgiFactory1 as ComInterfaceLayout>::NAME,
            HookGuard::Factory2(_) => <DxgiFactory2 as ComInterfaceLayout>::NAME,
            HookGuard::Factory3(_) => <DxgiFactory3 as ComInterfaceLayout>::NAME,
            HookGuard::Factory4(_) => <DxgiFactory4 as ComInterfaceLayout>::NAME,
            HookGuard::Factory5(_) => <DxgiFactory5 as ComInterfaceLayout>::NAME,
            HookGuard::Factory6(_) => <DxgiFactory6 as ComInterfaceLayout>::NAME,
            HookGuard::Factory7(_) => <DxgiFactory7 as ComInterfaceLayout>::NAME,
            HookGuard::FactoryMedia(_) => <DxgiFactoryMedia as ComInterfaceLayout>::NAME,
            HookGuard::SwapChain(_) => <DxgiSwapChain as ComInterfaceLayout>::NAME,
            HookGuard::SwapChain1(_) => <DxgiSwapChain1 as ComInterfaceLayout>::NAME,
            HookGuard::SwapChain2(_) => <DxgiSwapChain2 as ComInterfaceLayout>::NAME,
            HookGuard::SwapChain3(_) => <DxgiSwapChain3 as ComInterfaceLayout>::NAME,
            HookGuard::SwapChain4(_) => <DxgiSwapChain4 as ComInterfaceLayout>::NAME,
        }
    }

    /// The published shadow, whatever its layout.
    pub open spec fn model(&self) -> ShadowModel {
        match self {
            HookGuard::Factory(guard) => shadow_model(guard.shadow()),
            HookGuard::Factory1(guard) => shadow_model(guard.shadow()),
            HookGuard::Factory2(guard) => shadow_model(guard.shadow()),
            HookGuard::Factory3(guard) => shadow_model(guard.shadow()),
            HookGuard::Factory4(guard) => shadow_model(guard.shadow()),
            HookGuard::Factory5(guard) => shadow_model(guard.shadow()),
            HookGuard::Factory6(guard) => shadow_model(guard.shadow()),
            HookGuard::Factory7(guard) => shadow_model(guard.shadow()),
            HookGuard::FactoryMedia(guard) => shadow_model(guard.shadow()),
            HookGuard::SwapChain(guard) => shadow_model(guard.shadow()),
            HookGuard::SwapChain1(guard) => shadow_model(guard.shadow()),
            HookGuard::SwapChain2(guard) => shadow_model(guard.shadow()),
            HookGuard::SwapChain3(guard) => shadow_model(guard.shadow()),
            HookGuard::SwapChain4(guard) => shadow_model(guard.shadow()),
        }
    }

    /// Address of the published table.
    pub open spec fn table(&self) -> usize {
        match self {
            HookGuard::Factory(guard) => guard.table(),
            HookGuard::Factory1(guard) => guard.table(),
            HookGuard::Factory2(guard) => guard.table(),
            HookGuard::Factory3(guard) => guard.table(),
            HookGuard::Factory4(guard) => guard.table(),
            HookGuard::Factory5(guard) => guard.table(),
            HookGuard::Factory6(guard) => guard.table(),
            HookGuard::Factory7(guard) => guard.table(),
            HookGuard::FactoryMedia(guard) => guard.table(),
            HookGuard::SwapChain(guard) => guard.table(),
            HookGuard::SwapChain1(guard) => guard.table(),
            HookGuard::SwapChain2(guard) => guard.table(),
            HookGuard::SwapChain3(guard) => guard.table(),
            HookGuard::SwapChain4(guard) => guard.table(),
        }
    }

    /// Publication state.
    pub open spec fn publication(&self) -> InstallState {
        match self {
            HookGuard::Factory(guard) => guard.publication(),
            HookGuard::Factory1(guard) => guard.publication(),
            HookGuard::Factory2(guard) => guard.publication(),
            HookGuard::Factory3(guard) => guard.publication(),
            HookGuard::Factory4(guard) => guard.publication(),
            HookGuard::Factory5(guard) => guard.publication(),
            HookGuard::Factory6(guard) => guard.publication(),
            HookGuard::Factory7(guard) => guard.publication(),
            HookGuard::FactoryMedia(guard) => guard.publication(),
            HookGuard::SwapChain(guard) => guard.publication(),
            HookGuard::SwapChain1(guard) => guard.publication(),
            HookGuard::SwapChain2(guard) => guard.publication(),
            HookGuard::SwapChain3(guard) => guard.publication(),
            HookGuard::SwapChain4(guard) => guard.publication(),
        }
    }

    /// Returns the hooked interface pointer.
    pub fn interface(&self) -> (interface: usize)
        ensures
            interface == self.model().target,
    {
        match self {
            HookGuard::Factory(guard) => guard.interface(),
            HookGuard::Factory1(guard) => guard.interface(),
            HookGuard::Factory2(guard) => guard.interface(),
            HookGuard::Factory3(guard) => guard.interface(),
            HookGuard::Factory4(guard) => guard.interface(),
            HookGuard::Factory5(guard) => guard.interface(),
            HookGuard::Factory6(guard) => guard.interface(),
            HookGuard::Factory7(guard) => guard.interface(),
            HookGuard::FactoryMedia(guard) => guard.interface(),
            HookGuard::SwapChain(guard) => guard.interface(),
            HookGuard::SwapChain1(guard) => guard.interface(),
            HookGuard::SwapChain2(guard) => guard.interface(),
            HookGuard::SwapChain3(guard) => guard.interface(),
            HookGuard::SwapChain4(guard) => guard.interface(),
        }
    }

    /// Returns the publication state.
    pub fn state(&self) -> (state: InstallState)
        ensures
            state == self.publication(),
    {
        match self {
            HookGuard::Factory(guard) => guard.state(),
            HookGuard::Factory1(guard) => guard.state(),
            HookGuard::Factory2(guard) => guard.state(),
            HookGuard::Factory3(guard) => guard.state(),
            HookGuard::Factory4(guard) => guard.state(),
            HookGuard::Factory5(guard) => guard.state(),
            HookGuard::Factory6(guard) => guard.state(),
            HookGuard::Factory7(guard) => guard.state(),
            HookGuard::FactoryMedia(guard) => guard.state(),
            HookGuard::SwapChain(guard) => guard.state(),
            HookGuard::SwapChain1(guard) => guard.state(),
            HookGuard::SwapChain2(guard) => guard.state(),
            HookGuard::SwapChain3(guard) => guard.state(),
            HookGuard::SwapChain4(guard) => guard.state(),
        }
    }

    /// Returns the words of the exchange that restores the object.
    pub fn exchange(&self) -> (words: (usize, usize))
        ensures
            words.0 == self.table(),
            words.1 == self.model().source,
    {
        match self {
            HookGuard::Factory(guard) => guard.exchange(),
            HookGuard::Factory1(guard) => guard.exchange(),
            HookGuard::Factory2(guard) => guard.exchange(),
            HookGuard::Factory3(guard) => guard.exchange(),
            HookGuard::Factory4(guard) => guard.exchange(),
            HookGuard::Factory5(guard) => guard.exchange(),
            HookGuard::Factory6(guard) => guard.exchange(),
            HookGuard::Factory7(guard) => guard.exchange(),
            HookGuard::FactoryMedia(guard) => guard.exchange(),
            HookGuard::SwapChain(guard) => guard.exchange(),
            HookGuard::SwapChain1(guard) => guard.exchange(),
            HookGuard::SwapChain2(guard) => guard.exchange(),
            HookGuard::SwapChain3(guard) => guard.exchange(),
            HookGuard::SwapChain4(guard) => guard.exchange(),
        }
    }

    /// Completes a restoration. `observed` is the word that the exchange found.
    pub fn restore(&mut self, observed: usize) -> (restoration: GuardRestoration)
        requires
            old(self).wf(),
        ensures
            final(self).wf(),
            final(self).layout() == old(self).layout(),
            final(self).model() == old(self).model(),
            final(self).table() == old(self).table(),
            final(self).publication() == restored_state(
                old(self).publication(),
                observed,
                old(self).model().source,
                old(self).table(),
            ),
            restoration.release == (old(self).publication() == InstallState::Installed),
            restoration.result == if final(self).publication() == InstallState::Displaced {
                Err::<bool, VtableError>(VtableError::VtableDisplaced { layout: old(self).layout() })
            } else {
                Ok(old(self).publication() == InstallState::Installed)
            },
    {
        let changed = match self.state() {
            InstallState::Installed => true,
            _ => false,
        };
        let restoration: Restoration = match self {
            HookGuard::Factory(guard) => guard.restore(observed),
            HookGuard::Factory1(guard) => guard.restore(observed),
            HookGuard::Factory2(guard) => guard.restore(observed),
            HookGuard::Factory3(guard) => guard.restore(observed),
            HookGuard::Factory4(guard) => guard.restore(observed),
            HookGuard::Factory5(guard) => guard.restore(observed),
            HookGuard::Factory6(guard) => guard.restore(observed),
            HookGuard::Factory7(guard) => guard.restore(observed),
            HookGuard::FactoryMedia(guard) => guard.restore(observed),
            HookGuard::SwapChain(guard) => guard.restore(observed),
            HookGuard::SwapChain1(guard) => guard.restore(observed),
            HookGuard::SwapChain2(guard) => guard.restore(observed),
            HookGuard::SwapChain3(guard) => guard.restore(observed),
            HookGuard::SwapChain4(guard) => guard.restore(observed),
        };
        let result = match restoration.result {
            Ok(()) => Ok(changed),
            Err(error) => Err(error),
        };
        GuardRestoration { result, release: restoration.release }
    }
}

/// Prepares the hook of a factory interface and registers its route.
///
/// `vtable` is the object's first word and `entries` are the entries it points
/// at, as far as the addresses can be read.
pub fn attach_factory_exact(
    routes: &mut RouteTable,
    manager_id: u64,
    pointer: usize,
    interface: FactoryInterface,
    vtable: usize,
    entries: &[usize],
    detours: FactoryDetours,
) -> (result: Result<PreparedHook, DxgiError>)
    requires
        detours.query_interface != 0,
        detours.create_swap_chain != 0,
        detours.create_for_hwnd != 0,
        detours.create_for_core_window != 0,
        detours.create_for_composition != 0,
        detours.create_for_composition_surface_handle != 0,
        readable(pointer, vtable) ==> entries@.len() == factory_layout(interface).slots,
    ensures
        match exact_failure(
            old(routes)@,
            manager_id,
            factory_layout(interface).name,
            pointer,
            vtable,
            entries@,
        ) {
            Some(error) => {
                &&& result == Err::<PreparedHook, DxgiError>(error)
                &&& final(routes)@ == old(routes)@
            },
            None => {
                &&& result matches Ok(hook) && hook.wf() && hook.layout() == factory_layout(
                    interface,
                ).name && hook.model() == (ShadowModel {
                    target: pointer,
                    source: vtable,
                    originals: entries@,
                    prepared: factory_prepared(interface, entries@, detours),
                })
                &&& final(routes)@ == routed(
                    old(routes)@,
                    manager_id,
                    pointer,
                    factory_originals(interface, entries@),
                )
            },
        },
{
    proof {
        law_factory_slots();
        law_every_layout_starts_with_iunknown::<DxgiFactory>();
        law_every_layout_starts_with_iunknown::<DxgiFactory1>();
        law_every_layout_starts_with_iunknown::<DxgiFactory2>();
        law_every_layout_starts_with_iunknown::<DxgiFactory3>();
        law_every_layout_starts_with_iunknown::<DxgiFactory4>();
        law_every_layout_starts_with_iunknown::<DxgiFactory5>();
        law_every_layout_starts_with_iunknown::<DxgiFactory6>();
        law_every_layout_starts_with_iunknown::<DxgiFactory7>();
        law_every_layout_starts_with_iunknown::<DxgiFactoryMedia>();
    }
    match interface {
        FactoryInterface::Base => match install_factory_base::<DxgiFactory>(
            routes,
            manager_id,
            pointer,
            vtable,
            entries,
            detours,
        ) {
            Ok(shadow) => Ok(PreparedHook::Factory(shadow)),
            Err(error) => Err(error),
        },
        FactoryInterface::V1 => match install_factory_base::<DxgiFactory1>(
            routes,
            manager_id,
            pointer,
            vtable,
            entries,
            detours,
        ) {
            Ok(shadow) => Ok(PreparedHook::Factory1(shadow)),
            Err(error) => Err(error),
        },
        FactoryInterface::V2 => match install_factory2::<DxgiFactory2>(
            routes,
            manager_id,
            pointer,
            vtable,
            entries,
            detours,
        ) {
            Ok(shadow) => Ok(PreparedHook::Factory2(shadow)),
            Err(error) => Err(error),
        },
        FactoryInterface::V3 => match install_factory2::<DxgiFactory3>(
            routes,
            manager_id,
            pointer,
            vtable,
            entries,
            detours,
        ) {
            Ok(shadow) => Ok(PreparedHook::Factory3(shadow)),
            Err(error) => Err(error),
        },
        FactoryInterface::V4 => match install_factory2::<DxgiFactory4>(
            routes,
            manager_id,
            pointer,
            vtable,
            entries,
            detours,
        ) {
            Ok(shadow) => Ok(PreparedHook::Factory4(shadow)),
            Err(error) => Err(error),
        },
        FactoryInterface::V5 => match install_factory2::<DxgiFactory5>(
            routes,
            manager_id,
            pointer,
            vtable,
            entries,
            detours,
        ) {
            Ok(shadow) => Ok(PreparedHook::Factory5(shadow)),
            Err(error) => Err(error),
        },
        FactoryInterface::V6 => match install_factory2::<DxgiFactory6>(
            routes,
            manager_id,
            pointer,
            vtable,
            entries,
            detours,
        ) {
            Ok(shadow) => Ok(PreparedHook::Factory6(shadow)),
            Err(error) => Err(error),
        },
        FactoryInterface::V7 => match install_factory2::<DxgiFactory7>(
            routes,
            manager_id,
            pointer,
            vtable,
            entries,
            detours,
        ) {
            Ok(shadow) => Ok(PreparedHook::Factory7(shadow)),
            Err(error) => Err(error),
        },
        FactoryInterface::Media => match install_factory_media::<DxgiFactoryMedia>(
            routes,
            manager_id,
            pointer,
            vtable,
            entries,
            detours,
        ) {
            Ok(shadow) => Ok(PreparedHook::FactoryMedia(shadow)),
            Err(error) => Err(error),
        },
    }
}

/// Prepares the hook of a swap chain interface and registers its route.
///
/// `vtable` is the object's first word and `entries` are the entries it points
/// at, as far as the addresses can be read.
pub fn attach_swap_chain_exact(
    routes: &mut RouteTable,
    manager_id: u64,
    pointer: usize,
    interface: SwapChainInterface,
    vtable: usize,
    entries: &[usize],
    detours: SwapChainDetours,
) -> (result: Result<PreparedHook, DxgiError>)
    requires
        detours.query_interface != 0,
        detours.present != 0,
        detours.present1 != 0,
        detours.resize_buffers != 0,
        detours.set_color_space1 != 0,
        detours.resize_buffers1 != 0,
        readable(pointer, vtable) ==> entries@.len() == swap_chain_layout(interface).slots,
    ensures
        match exact_failure(
            old(routes)@,
            manager_id,
            swap_chain_layout(interface).name,
            pointer,
            vtable,
            entries@,
        ) {
            Some(error) => {
                &&& result == Err::<PreparedHook, DxgiError>(error)
                &&& final(routes)@ == old(routes)@
            },
            None => {
                &&& result matches Ok(hook) && hook.wf() && hook.layout() == swap_chain_layout(
                    interface,
                ).name && hook.model() == (ShadowModel {
                    target: pointer,
                    source: vtable,
                    originals: entries@,
                    prepared: swap_chain_prepared(interface, entries@, detours),
                })
                &&& final(routes)@ == routed(
                    old(routes)@,
                    manager_id,
                    pointer,
                    swap_chain_originals(interface, entries@),
                )
            },
        },
{
    proof {
        law_swap_chain_slots();
        law_every_layout_starts_with_iunknown::<DxgiSwapChain>();
        law_every_layout_starts_with_iunknown::<DxgiSwapChain1>();
        law_every_layout_starts_with_iunknown::<DxgiSwapChain2>();
        law_every_layout_starts_with_iunknown::<DxgiSwapChain3>();
        law_every_layout_starts_with_iunknown::<DxgiSwapChain4>();
    }
    match interface {
        SwapChainInterface::Base => match install_swap_chain_base::<DxgiSwapChain>(
            routes,
            manager_id,
            pointer,
            vtable,
            entries,
            detours,
        ) {
            Ok(shadow) => Ok(PreparedHook::SwapChain(shadow)),
            Err(error) => Err(error),
        },
        SwapChainInterface::V1 => match install_swap_chain1::<DxgiSwapChain1>(
            routes,
            manager_id,
            pointer,
            vtable,
            entries,
            detours,
        ) {
            Ok(shadow) => Ok(PreparedHook::SwapChain1(shadow)),
            Err(error) => Err(error),
        },
        SwapChainInterface::V2 => match install_swap_chain1::<DxgiSwapChain2>(
            routes,
            manager_id,
            pointer,
            vtable,
            entries,
            detours,
        ) {
            Ok(shadow) => Ok(PreparedHook::SwapChain2(shadow)),
            Err(error) => Err(error),
        },
        SwapChainInterface::V3 => match install_swap_chain3::<DxgiSwapChain3>(
            routes,
            manager_id,
            pointer,
            vtable,
            entries,
            detours,
        ) {
            Ok(shadow) => Ok(PreparedHook::SwapChain3(shadow)),
            Err(error) => Err(error),
        },
        SwapChainInterface::V4 => match install_swap_chain3::<DxgiSwapChain4>(
            routes,
            manager_id,
            pointer,
            vtable,
            entries,
            detours,
        ) {
            Ok(shadow) => Ok(PreparedHook::SwapChain4(shadow)),
            Err(error) => Err(error),
        },
    }
}

/// Every slot that a factory's shadow replaces has its original method in the
/// route, so that an intercepted call can be forwarded. Other slots stay.
pub proof fn law_replaced_factory_methods_can_be_forwarded(
    interface: FactoryInterface,
    manager_id: u64,
    entries: Seq<usize>,
    detours: FactoryDetours,
    slot: int,
)
    requires
        entries.len() == factory_layout(interface).slots,
        0 <= slot < entries.len(),
        factory_prepared(interface, entries, detours)[slot] != entries[slot],
    ensures
        exists|method: InterceptedMethod| #[trigger]
            method.original_in(
                Route { manager_id, originals: factory_originals(interface, entries) },
            ) == Some(entries[slot]),
{
    law_factory_slots();
    let route = Route { manager_id, originals: factory_originals(interface, entries) };
    let method = if slot == 0 {
        InterceptedMethod::QueryInterface(ObjectKind::Factory)
    } else if slot == 3 {
        InterceptedMethod::CreateSwapChainForCompositionSurfaceHandle
    } else if slot == 10 {
        InterceptedMethod::CreateSwapChain
    } else if slot == 15 {
        InterceptedMethod::CreateSwapChainForHwnd
    } else if slot == 16 {
        InterceptedMethod::CreateSwapChainForCoreWindow
    } else {
        InterceptedMethod::CreateSwapChainForComposition
    };
    assert(method.original_in(route) == Some(entries[slot]));
}

/// Every slot that a swap chain's shadow replaces has its original method in
/// the route, so that an intercepted call can be forwarded. Other slots stay.
pub proof fn law_replaced_swap_chain_methods_can_be_forwarded(
    interface: SwapChainInterface,
    manager_id: u64,
    entries: Seq<usize>,
    detours: SwapChainDetours,
    slot: int,
)
    requires
        entries.len() == swap_chain_layout(interface).slots,
        0 <= slot < entries.len(),
        swap_chain_prepared(interface, entries, detours)[slot] != entries[slot],
    ensures
        exists|method: InterceptedMethod| #[trigger]
            method.original_in(
                Route { manager_id, originals: swap_chain_originals(interface, entries) },
            ) == Some(entries[slot]),
{
    law_swap_chain_slots();
    let route = Route { manager_id, originals: swap_chain_originals(interface, entries) };
    let method = if slot == 0 {
        InterceptedMethod::QueryInterface(ObjectKind::SwapChain)
    } else if slot == 8 {
        InterceptedMethod::Present
    } else if slot == 13 {
        InterceptedMethod::ResizeBuffers
    } else if slot == 22 {
        InterceptedMethod::Present1
    } else if slot == 38 {
        InterceptedMethod::SetColorSpace1
    } else {
        InterceptedMethod::ResizeBuffers1
    };
    assert(method.original_in(route) == Some(entries[slot]));
}

/// The detours of a swap chain stand in the slots of their methods, and each
/// method is forwarded to what stood there before. Every other slot is kept, and
/// a method that the layout lacks is not forwarded.
pub proof fn law_swap_chain_detours_stand_in_their_slots(
    interface: SwapChainInterface,
    manager_id: u64,
    entries: Seq<usize>,
    detours: SwapChainDetours,
    slot: int,
)
    requires
        entries.len() == swap_chain_layout(interface).slots,
        0 <= slot < entries.len(),
    ensures
        ({
            let prepared = swap_chain_prepared(interface, entries, detours);
            let route = Route { manager_id, originals: swap_chain_originals(interface, entries) };
            let later = !(interface is Base);
            let newest = interface is V3 || interface is V4;
            &&& prepared.len() == entries.len()
            &&& prepared[0] == detours.query_interface
            &&& prepared[8] == detours.present
            &&& prepared[13] == detours.resize_buffers
            &&& later ==> prepared[22] == detours.present1
            &&& newest ==> prepared[38] == detours.set_color_space1
            &&& newest ==> prepared[39] == detours.resize_buffers1
            &&& InterceptedMethod::QueryInterface(ObjectKind::SwapChain).original_in(route) == Some(
                entries[0],
            )
            &&& InterceptedMethod::Present.original_in(route) == Some(entries[8])
            &&& InterceptedMethod::ResizeBuffers.original_in(route) == Some(entries[13])
            &&& later ==> InterceptedMethod::Present1.original_in(route) == Some(entries[22])
            &&& !later ==> InterceptedMethod::Present1.original_in(route) is None
            &&& newest ==> InterceptedMethod::SetColorSpace1.original_in(route) == Some(entries[38])
            &&& newest ==> InterceptedMethod::ResizeBuffers1.original_in(route) == Some(entries[39])
            &&& !newest ==> InterceptedMethod::SetColorSpace1.original_in(route) is None
                && InterceptedMethod::ResizeBuffers1.original_in(route) is None
            &&& slot != 0 && slot != 8 && slot != 13 && slot != 22 && slot != 38 && slot != 39
                ==> prepared[slot] == entries[slot]
            &&& !later && slot != 0 && slot != 8 && slot != 13 ==> prepared[slot] == entries[slot]
            &&& !newest && (slot == 38 || slot == 39) ==> prepared[slot] == entries[slot]
        }),
{
    law_swap_chain_slots();
}

/// The detours of a factory stand in the slots of their methods, and each
/// method is forwarded to what stood there before. Every other slot is kept, and
/// a method that the layout lacks is not forwarded.
pub proof fn law_factory_detours_stand_in_their_slots(
    interface: FactoryInterface,
    manager_id: u64,
    entries: Seq<usize>,
    detours: FactoryDetours,
    slot: int,
)
    requires
        entries.len() == factory_layout(interface).slots,
        0 <= slot < entries.len(),
    ensures
        ({
            let prepared = factory_prepared(interface, entries, detours);
            let route = Route { manager_id, originals: factory_originals(interface, entries) };
            let media = interface is Media;
            let early = interface is Base || interface is V1;
            &&& prepared.len() == entries.len()
            &&& prepared[0] == detours.query_interface
            &&& InterceptedMethod::QueryInterface(ObjectKind::Factory).original_in(route) == Some(
                entries[0],
            )
            &&& media ==> {
                &&& prepared[3] == detours.create_for_composition_surface_handle
                &&& InterceptedMethod::CreateSwapChainForCompositionSurfaceHandle.original_in(route)
                    == Some(entries[3])
                &&& InterceptedMethod::CreateSwapChain.original_in(route) is None
                &&& slot != 0 && slot != 3 ==> prepared[slot] == entries[slot]
            }
            &&& !media ==> {
                &&& prepared[10] == detours.create_swap_chain
                &&& InterceptedMethod::CreateSwapChain.original_in(route) == Some(entries[10])
                &&& InterceptedMethod::CreateSwapChainForCompositionSurfaceHandle.original_in(route)
                    is None
            }
            &&& !media && !early ==> {
                &&& prepared[15] == detours.create_for_hwnd
                &&& prepared[16] == detours.create_for_core_window
                &&& prepared[24] == detours.create_for_composition
                &&& InterceptedMethod::CreateSwapChainForHwnd.original_in(route) == Some(entries[15])
                &&& InterceptedMethod::CreateSwapChainForCoreWindow.original_in(route) == Some(
                    entries[16],
                )
                &&& InterceptedMethod::CreateSwapChainForComposition.original_in(route) == Some(
                    entries[24],
                )
                &&& slot != 0 && slot != 10 && slot != 15 && slot != 16 && slot != 24
                    ==> prepared[slot] == entries[slot]
            }
            &&& early ==> {
                &&& InterceptedMethod::CreateSwapChainForHwnd.original_in(route) is None
                &&& InterceptedMethod::CreateSwapChainForCoreWindow.original_in(route) is None
                &&& InterceptedMethod::CreateSwapChainForComposition.original_in(route) is None
                &&& slot != 0 && slot != 10 ==> prepared[slot] == entries[slot]
            }
        }),
{
    law_factory_slots();
}

/// A pointer has one route: the first that was registered stays, with the
/// manager and the originals that it was registered with, and no other pointer
/// is concerned.
pub proof fn law_a_route_is_registered_once(
    routes: Map<usize, Route>,
    manager_id: u64,
    pointer: usize,
    originals: Originals,
    other: usize,
)
    ensures
        ({
            let after = routed(routes, manager_id, pointer, originals);
            &&& after.contains_key(pointer)
            &&& !routes.contains_key(pointer) ==> after[pointer].manager_id == manager_id
                && after[pointer].originals == originals
            &&& routes.contains_key(pointer) ==> after[pointer] == routes[pointer]
            &&& other != pointer ==> (after.contains_key(other) <==> routes.contains_key(other))
            &&& other != pointer && routes.contains_key(other) ==> after[other] == routes[other]
        }),
{
}

/// A route is taken back by the manager that owns it, and by no other.
pub proof fn law_a_route_is_taken_back_by_its_owner(
    routes: Map<usize, Route>,
    manager_id: u64,
    pointer: usize,
    other: usize,
)
    ensures
        ({
            let after = unrouted(routes, manager_id, pointer);
            &&& conflicts(routes, manager_id, pointer) <==> routes.contains_key(pointer)
                && routes[pointer].manager_id != manager_id
            &&& !conflicts(routes, manager_id, pointer) ==> !after.contains_key(pointer)
            &&& conflicts(routes, manager_id, pointer) ==> after.contains_key(pointer)
                && after[pointer] == routes[pointer]
            &&& other != pointer ==> (after.contains_key(other) <==> routes.contains_key(other))
            &&& other != pointer && routes.contains_key(other) ==> after[other] == routes[other]
        }),
{
}

/// An interface can be hooked exactly where its pointer and its table exist and
/// are aligned, and no entry of the table is missing.
pub proof fn law_tables_are_checked_before_they_are_hooked(
    name: &'static str,
    pointer: usize,
    vtable: usize,
    entries: Seq<usize>,
)
    ensures
        ({
            let failure = table_failure(name, pointer, vtable, entries);
            &&& failure is None <==> readable(pointer, vtable) && first_null(entries) is None
            &&& failure == Some(VtableError::NullInterface) <==> pointer == 0
            &&& failure matches Some(VtableError::MisalignedInterface { layout }) ==> layout == name
                && pointer != 0 && !aligned(pointer)
            &&& failure matches Some(VtableError::NullVtable { layout }) ==> layout == name && vtable
                == 0
            &&& failure matches Some(VtableError::MisalignedVtable { layout }) ==> layout == name
                && vtable != 0 && !aligned(vtable)
            &&& failure matches Some(VtableError::NullEntry { layout, index }) ==> layout == name
                && first_null(entries) is Some
        }),
{
}

} // verus!
