use std::mem::{align_of, size_of};

use nexus::dxgi::event::{FactoryInterface, HResultDisposition, SwapChainInterface};
use nexus::dxgi::sdk::{
    color_space, factory_iid, factory_interface, factory_query_order, hresult_disposition,
    inspect_swap_chain, query_interface, raw_surface_format, swap_chain_iid, swap_chain_interface,
    swap_chain_query_order, Guid, InspectionReport, NativeMetadata, QueryReply, SurfaceDescription,
    DXGI_ERROR_DEVICE_REMOVED, DXGI_ERROR_DEVICE_RESET, DXGI_STATUS_OCCLUDED, E_FAIL, E_NOINTERFACE,
    UNKNOWN_COLOR_SPACE,
};
use nexus::hook::dxgi::{
    CreateSwapChainForCompositionSurfaceHandle, DxgiFactory, DxgiFactory1, DxgiFactory2,
    DxgiFactory3, DxgiFactory4, DxgiFactory5, DxgiFactory6, DxgiFactory7, DxgiFactoryMedia,
    DxgiSwapChain, DxgiSwapChain1, DxgiSwapChain2, DxgiSwapChain3, DxgiSwapChain4, Present1,
    SetColorSpace1,
};
use nexus::hook::layout::{ComInterfaceLayout, ComMethod};
use nexus::render::{AdapterLuid, ColorSpace, Extent2D, SurfaceFormat};
use windows::Win32::Foundation as foundation;
use windows::Win32::Graphics::Dxgi as native;
use windows::Win32::Graphics::Dxgi::Common as common;

const FACTORIES: [FactoryInterface; 9] = [
    FactoryInterface::Base,
    FactoryInterface::V1,
    FactoryInterface::V2,
    FactoryInterface::V3,
    FactoryInterface::V4,
    FactoryInterface::V5,
    FactoryInterface::V6,
    FactoryInterface::V7,
    FactoryInterface::Media,
];

const SWAP_CHAINS: [SwapChainInterface; 5] = [
    SwapChainInterface::Base,
    SwapChainInterface::V1,
    SwapChainInterface::V2,
    SwapChainInterface::V3,
    SwapChainInterface::V4,
];

fn guid<I: windows::core::ComInterface>() -> Guid {
    let iid = I::IID;
    Guid {
        data1: iid.data1,
        data2: iid.data2,
        data3: iid.data3,
        data4: u64::from_be_bytes(iid.data4),
    }
}

#[test]
fn generated_iids_round_trip_to_supported_layouts() {
    for interface in FACTORIES {
        assert_eq!(factory_interface(factory_iid(interface)), Some(interface));
    }
    for interface in SWAP_CHAINS {
        assert_eq!(swap_chain_interface(swap_chain_iid(interface)), Some(interface));
    }
    assert_eq!(factory_interface(guid::<native::IDXGIDevice>()), None);
    assert_eq!(swap_chain_interface(factory_iid(FactoryInterface::Base)), None);
}

#[test]
fn identifiers_are_those_of_the_windows_sdk() {
    let factories = [
        guid::<native::IDXGIFactory>(),
        guid::<native::IDXGIFactory1>(),
        guid::<native::IDXGIFactory2>(),
        guid::<native::IDXGIFactory3>(),
        guid::<native::IDXGIFactory4>(),
        guid::<native::IDXGIFactory5>(),
        guid::<native::IDXGIFactory6>(),
        guid::<native::IDXGIFactory7>(),
        guid::<native::IDXGIFactoryMedia>(),
    ];
    for (interface, iid) in FACTORIES.into_iter().zip(factories) {
        assert_eq!(factory_iid(interface), iid);
    }
    let swap_chains = [
        guid::<native::IDXGISwapChain>(),
        guid::<native::IDXGISwapChain1>(),
        guid::<native::IDXGISwapChain2>(),
        guid::<native::IDXGISwapChain3>(),
        guid::<native::IDXGISwapChain4>(),
    ];
    for (interface, iid) in SWAP_CHAINS.into_iter().zip(swap_chains) {
        assert_eq!(swap_chain_iid(interface), iid);
    }
    assert_eq!(DXGI_STATUS_OCCLUDED, foundation::DXGI_STATUS_OCCLUDED.0);
    assert_eq!(DXGI_ERROR_DEVICE_REMOVED, native::DXGI_ERROR_DEVICE_REMOVED.0);
    assert_eq!(DXGI_ERROR_DEVICE_RESET, native::DXGI_ERROR_DEVICE_RESET.0);
    assert_eq!(E_FAIL, foundation::E_FAIL.0);
    assert_eq!(E_NOINTERFACE, foundation::E_NOINTERFACE.0);
}

#[test]
fn unknown_color_space_is_not_an_sdr_value() {
    assert_ne!(UNKNOWN_COLOR_SPACE, 0);
    assert_eq!(ColorSpace::Other(UNKNOWN_COLOR_SPACE), ColorSpace::Other(u32::MAX));
}

#[test]
fn color_space_translation_retains_unknown_native_values() {
    assert_eq!(
        color_space(common::DXGI_COLOR_SPACE_RGB_FULL_G22_NONE_P709.0),
        ColorSpace::Srgb
    );
    assert_eq!(
        color_space(common::DXGI_COLOR_SPACE_RGB_FULL_G10_NONE_P709.0),
        ColorSpace::ScRgbLinear
    );
    assert_eq!(
        color_space(common::DXGI_COLOR_SPACE_RGB_FULL_G2084_NONE_P2020.0),
        ColorSpace::Hdr10Pq
    );
    assert_eq!(color_space(12_345), ColorSpace::Other(12_345));
    assert_eq!(color_space(-2), ColorSpace::Other(u32::MAX - 1));
}

fn slots<V>() -> usize {
    size_of::<V>() / size_of::<usize>()
}

#[test]
fn hook_layouts_and_raw_signatures_match_windows_sdk() {
    assert_eq!(slots::<native::IDXGIFactory_Vtbl>(), DxgiFactory::SLOT_COUNT);
    assert_eq!(slots::<native::IDXGIFactory1_Vtbl>(), DxgiFactory1::SLOT_COUNT);
    assert_eq!(slots::<native::IDXGIFactory2_Vtbl>(), DxgiFactory2::SLOT_COUNT);
    assert_eq!(slots::<native::IDXGIFactory3_Vtbl>(), DxgiFactory3::SLOT_COUNT);
    assert_eq!(slots::<native::IDXGIFactory4_Vtbl>(), DxgiFactory4::SLOT_COUNT);
    assert_eq!(slots::<native::IDXGIFactory5_Vtbl>(), DxgiFactory5::SLOT_COUNT);
    assert_eq!(slots::<native::IDXGIFactory6_Vtbl>(), DxgiFactory6::SLOT_COUNT);
    assert_eq!(slots::<native::IDXGIFactory7_Vtbl>(), DxgiFactory7::SLOT_COUNT);
    assert_eq!(slots::<native::IDXGIFactoryMedia_Vtbl>(), DxgiFactoryMedia::SLOT_COUNT);
    assert_eq!(slots::<native::IDXGISwapChain_Vtbl>(), DxgiSwapChain::SLOT_COUNT);
    assert_eq!(slots::<native::IDXGISwapChain1_Vtbl>(), DxgiSwapChain1::SLOT_COUNT);
    assert_eq!(slots::<native::IDXGISwapChain2_Vtbl>(), DxgiSwapChain2::SLOT_COUNT);
    assert_eq!(slots::<native::IDXGISwapChain3_Vtbl>(), DxgiSwapChain3::SLOT_COUNT);
    assert_eq!(slots::<native::IDXGISwapChain4_Vtbl>(), DxgiSwapChain4::SLOT_COUNT);

    // `SetColorSpace1` is the third method that the third revision adds, the
    // media creation method the first one after `IUnknown`.
    assert_eq!(
        slots::<native::IDXGISwapChain2_Vtbl>() + 2,
        <SetColorSpace1 as ComMethod<DxgiSwapChain3>>::INDEX
    );
    assert_eq!(
        slots::<windows::core::IUnknown_Vtbl>(),
        <CreateSwapChainForCompositionSurfaceHandle as ComMethod<DxgiFactoryMedia>>::INDEX
    );
    assert_eq!(
        slots::<native::IDXGISwapChain_Vtbl>() + 4,
        <Present1 as ComMethod<DxgiSwapChain1>>::INDEX
    );

    assert_eq!(size_of::<common::DXGI_COLOR_SPACE_TYPE>(), size_of::<i32>());
    assert_eq!(align_of::<common::DXGI_COLOR_SPACE_TYPE>(), align_of::<i32>());
    assert_eq!(size_of::<foundation::HANDLE>(), size_of::<usize>());
    assert_eq!(align_of::<foundation::HANDLE>(), align_of::<usize>());
    assert_eq!(size_of::<windows::core::HRESULT>(), size_of::<i32>());
    assert_eq!(align_of::<windows::core::HRESULT>(), align_of::<i32>());
}

#[test]
fn format_translation_retains_unknown_native_values() {
    assert_eq!(raw_surface_format(12_345), SurfaceFormat::Other(12_345));
    let known = [
        (common::DXGI_FORMAT_R8G8B8A8_UNORM, SurfaceFormat::Rgba8Unorm),
        (common::DXGI_FORMAT_R8G8B8A8_UNORM_SRGB, SurfaceFormat::Rgba8UnormSrgb),
        (common::DXGI_FORMAT_B8G8R8A8_UNORM, SurfaceFormat::Bgra8Unorm),
        (common::DXGI_FORMAT_B8G8R8A8_UNORM_SRGB, SurfaceFormat::Bgra8UnormSrgb),
        (common::DXGI_FORMAT_R10G10B10A2_UNORM, SurfaceFormat::Rgb10A2Unorm),
        (common::DXGI_FORMAT_R16G16B16A16_FLOAT, SurfaceFormat::Rgba16Float),
    ];
    for (format, expected) in known {
        assert_eq!(raw_surface_format(format.0), expected);
    }
}

#[test]
fn results_are_told_apart() {
    assert_eq!(hresult_disposition(0), HResultDisposition::Success);
    assert_eq!(hresult_disposition(1), HResultDisposition::Success);
    assert_eq!(hresult_disposition(DXGI_STATUS_OCCLUDED), HResultDisposition::Occluded);
    assert_eq!(
        hresult_disposition(DXGI_ERROR_DEVICE_REMOVED),
        HResultDisposition::DeviceRemoved
    );
    assert_eq!(hresult_disposition(DXGI_ERROR_DEVICE_RESET), HResultDisposition::DeviceReset);
    assert_eq!(hresult_disposition(E_FAIL), HResultDisposition::Other(E_FAIL));
}

#[test]
fn objects_are_asked_for_their_highest_revision_first() {
    assert_eq!(
        factory_query_order(),
        [
            FactoryInterface::V7,
            FactoryInterface::V6,
            FactoryInterface::V5,
            FactoryInterface::V4,
            FactoryInterface::V3,
            FactoryInterface::V2,
            FactoryInterface::V1,
            FactoryInterface::Base,
        ]
    );
    let mut descending = SWAP_CHAINS;
    descending.reverse();
    assert_eq!(swap_chain_query_order(), descending);
    let reply = QueryReply { result: 0, output: 0x100, has_vtable: true };
    assert_eq!(query_interface(reply), Ok(0x100));
    assert_eq!(query_interface(QueryReply { result: E_FAIL, ..reply }), Err(E_FAIL));
    assert_eq!(query_interface(QueryReply { output: 0, ..reply }), Err(E_NOINTERFACE));
    assert_eq!(query_interface(QueryReply { has_vtable: false, ..reply }), Err(E_NOINTERFACE));
}

#[test]
fn inspections_report_their_first_failure() {
    let report = InspectionReport {
        description: Ok(SurfaceDescription {
            width: 640,
            height: 480,
            format: 87,
            output_window: 0x10,
        }),
        window: Some(0x20),
        device_identity: Ok(0x30),
        adapter_luid: Ok(AdapterLuid { low: 1, high: -2 }),
        is_window_visible: false,
        foreground_window: 0x20,
    };
    let metadata = NativeMetadata {
        hwnd: Some(0x20),
        device_identity: 0x30,
        adapter_luid: AdapterLuid { low: 1, high: -2 },
        size: Extent2D { width: 640, height: 480 },
        format: SurfaceFormat::Bgra8Unorm,
        window_visible: false,
        foreground: true,
    };
    assert_eq!(inspect_swap_chain(SwapChainInterface::V2, 0x100, report), Ok(metadata));
    assert_eq!(
        inspect_swap_chain(SwapChainInterface::Base, 0x100, report),
        Ok(NativeMetadata { hwnd: Some(0x10), foreground: false, ..metadata })
    );
    assert_eq!(
        inspect_swap_chain(
            SwapChainInterface::V1,
            0x100,
            InspectionReport { window: None, ..report }
        ),
        Ok(NativeMetadata { hwnd: None, window_visible: true, foreground: false, ..metadata })
    );
    let unreadable = InspectionReport {
        description: Err(-5),
        device_identity: Err(-6),
        adapter_luid: Err(-7),
        ..report
    };
    assert_eq!(inspect_swap_chain(SwapChainInterface::V1, 0x100, unreadable), Err(-5));
    let described = InspectionReport { description: report.description, ..unreadable };
    assert_eq!(inspect_swap_chain(SwapChainInterface::V1, 0x100, described), Err(-6));
    let known = InspectionReport { device_identity: Ok(1), ..described };
    assert_eq!(inspect_swap_chain(SwapChainInterface::V1, 0x100, known), Err(-7));
    assert_eq!(
        inspect_swap_chain(SwapChainInterface::V1, 0, report),
        Err(E_NOINTERFACE)
    );
}
