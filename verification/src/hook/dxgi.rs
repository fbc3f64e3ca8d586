//! Typed DXGI interface layouts and interception points.
//!
//! Slot numbers live only in this module. Counts follow the inherited COM
//! vtables of the Windows SDK. The composition-surface-handle creation method
//! lives on the separate `IDXGIFactoryMedia` interface, not on the inherited
//! `IDXGIFactory2` vtable.
use vstd::prelude::*;
use crate::hook::layout::{ComInterfaceLayout, ComMethod};

verus! {

/// Complete `IDXGIFactory` interface layout.
pub struct DxgiFactory;

impl ComInterfaceLayout for DxgiFactory {
    const NAME: &'static str = "IDXGIFactory";

    const SLOT_COUNT: usize = 12;
}

/// Complete `IDXGIFactory1` interface layout.
pub struct DxgiFactory1;

impl ComInterfaceLayout for DxgiFactory1 {
    const NAME: &'static str = "IDXGIFactory1";

    const SLOT_COUNT: usize = 14;
}

/// Complete `IDXGIFactory2` interface layout.
pub struct DxgiFactory2;

impl ComInterfaceLayout for DxgiFactory2 {
    const NAME: &'static str = "IDXGIFactory2";

    const SLOT_COUNT: usize = 25;
}

/// Complete `IDXGIFactory3` interface layout.
pub struct DxgiFactory3;

impl ComInterfaceLayout for DxgiFactory3 {
    const NAME: &'static str = "IDXGIFactory3";

    const SLOT_COUNT: usize = 26;
}

/// Complete `IDXGIFactory4` interface layout.
pub struct DxgiFactory4;

impl ComInterfaceLayout for DxgiFactory4 {
    const NAME: &'static str = "IDXGIFactory4";

    const SLOT_COUNT: usize = 28;
}

/// Complete `IDXGIFactory5` interface layout.
pub struct DxgiFactory5;

impl ComInterfaceLayout for DxgiFactory5 {
    const NAME: &'static str = "IDXGIFactory5";

    const SLOT_COUNT: usize = 29;
}

/// Complete `IDXGIFactory6` interface layout.
pub struct DxgiFactory6;

impl ComInterfaceLayout for DxgiFactory6 {
    const NAME: &'static str = "IDXGIFactory6";

    const SLOT_COUNT: usize = 30;
}

/// Complete `IDXGIFactory7` interface layout.
pub struct DxgiFactory7;

impl ComInterfaceLayout for DxgiFactory7 {
    const NAME: &'static str = "IDXGIFactory7";

    const SLOT_COUNT: usize = 32;
}

/// Complete `IDXGIFactoryMedia` interface layout.
///
/// Unlike the numbered factory interfaces, this interface derives directly
/// from `IUnknown` and is obtained through `QueryInterface`.
pub struct DxgiFactoryMedia;

impl ComInterfaceLayout for DxgiFactoryMedia {
    const NAME: &'static str = "IDXGIFactoryMedia";

    const SLOT_COUNT: usize = 5;
}

/// Complete `IDXGISwapChain` interface layout.
pub struct DxgiSwapChain;

impl ComInterfaceLayout for DxgiSwapChain {
    const NAME: &'static str = "IDXGISwapChain";

    const SLOT_COUNT: usize = 18;
}

/// Complete `IDXGISwapChain1` interface layout.
pub struct DxgiSwapChain1;

impl ComInterfaceLayout for DxgiSwapChain1 {
    const NAME: &'static str = "IDXGISwapChain1";

    const SLOT_COUNT: usize = 29;
}

/// Complete `IDXGISwapChain2` interface layout.
pub struct DxgiSwapChain2;

impl ComInterfaceLayout for DxgiSwapChain2 {
    const NAME: &'static str = "IDXGISwapChain2";

    const SLOT_COUNT: usize = 36;
}

/// Complete `IDXGISwapChain3` interface layout.
pub struct DxgiSwapChain3;

impl ComInterfaceLayout for DxgiSwapChain3 {
    const NAME: &'static str = "IDXGISwapChain3";

    const SLOT_COUNT: usize = 40;
}

/// Complete `IDXGISwapChain4` interface layout.
pub struct DxgiSwapChain4;

impl ComInterfaceLayout for DxgiSwapChain4 {
    const NAME: &'static str = "IDXGISwapChain4";

    const SLOT_COUNT: usize = 41;
}

/// Typed marker for `IDXGIFactory::CreateSwapChain`.
pub struct CreateSwapChain;

impl ComMethod<DxgiFactory> for CreateSwapChain {
    const INDEX: usize = 10;

    const NAME: &'static str = "IDXGIFactory::CreateSwapChain";

    const FUNCTION_BYTES: usize = 8;
}

impl ComMethod<DxgiFactory1> for CreateSwapChain {
    const INDEX: usize = 10;

    const NAME: &'static str = "IDXGIFactory::CreateSwapChain";

    const FUNCTION_BYTES: usize = 8;
}

impl ComMethod<DxgiFactory2> for CreateSwapChain {
    const INDEX: usize = 10;

    const NAME: &'static str = "IDXGIFactory::CreateSwapChain";

    const FUNCTION_BYTES: usize = 8;
}

impl ComMethod<DxgiFactory3> for CreateSwapChain {
    const INDEX: usize = 10;

    const NAME: &'static str = "IDXGIFactory::CreateSwapChain";

    const FUNCTION_BYTES: usize = 8;
}

impl ComMethod<DxgiFactory4> for CreateSwapChain {
    const INDEX: usize = 10;

    const NAME: &'static str = "IDXGIFactory::CreateSwapChain";

    const FUNCTION_BYTES: usize = 8;
}

impl ComMethod<DxgiFactory5> for CreateSwapChain {
    const INDEX: usize = 10;

    const NAME: &'static str = "IDXGIFactory::CreateSwapChain";

    const FUNCTION_BYTES: usize = 8;
}

impl ComMethod<DxgiFactory6> for CreateSwapChain {
    const INDEX: usize = 10;

    const NAME: &'static str = "IDXGIFactory::CreateSwapChain";

    const FUNCTION_BYTES: usize = 8;
}

impl ComMethod<DxgiFactory7> for CreateSwapChain {
    const INDEX: usize = 10;

    const NAME: &'static str = "IDXGIFactory::CreateSwapChain";

    const FUNCTION_BYTES: usize = 8;
}

/// Typed marker for `IDXGIFactory2::CreateSwapChainForHwnd`.
pub struct CreateSwapChainForHwnd;

impl ComMethod<DxgiFactory2> for CreateSwapChainForHwnd {
    const INDEX: usize = 15;

    const NAME: &'static str = "IDXGIFactory2::CreateSwapChainForHwnd";

    const FUNCTION_BYTES: usize = 8;
}

impl ComMethod<DxgiFactory3> for CreateSwapChainForHwnd {
    const INDEX: usize = 15;

    const NAME: &'static str = "IDXGIFactory2::CreateSwapChainForHwnd";

    const FUNCTION_BYTES: usize = 8;
}

impl ComMethod<DxgiFactory4> for CreateSwapChainForHwnd {
    const INDEX: usize = 15;

    const NAME: &'static str = "IDXGIFactory2::CreateSwapChainForHwnd";

    const FUNCTION_BYTES: usize = 8;
}

impl ComMethod<DxgiFactory5> for CreateSwapChainForHwnd {
    const INDEX: usize = 15;

    const NAME: &'static str = "IDXGIFactory2::CreateSwapChainForHwnd";

    const FUNCTION_BYTES: usize = 8;
}

impl ComMethod<DxgiFactory6> for CreateSwapChainForHwnd {
    const INDEX: usize = 15;

    const NAME: &'static str = "IDXGIFactory2::CreateSwapChainForHwnd";

    const FUNCTION_BYTES: usize = 8;
}

impl ComMethod<DxgiFactory7> for CreateSwapChainForHwnd {
    const INDEX: usize = 15;

    const NAME: &'static str = "IDXGIFactory2::CreateSwapChainForHwnd";

    const FUNCTION_BYTES: usize = 8;
}

/// Typed marker for `IDXGIFactory2::CreateSwapChainForCoreWindow`.
pub struct CreateSwapChainForCoreWindow;

impl ComMethod<DxgiFactory2> for CreateSwapChainForCoreWindow {
    const INDEX: usize = 16;

    const NAME: &'static str = "IDXGIFactory2::CreateSwapChainForCoreWindow";

    const FUNCTION_BYTES: usize = 8;
}

impl ComMethod<DxgiFactory3> for CreateSwapChainForCoreWindow {
    const INDEX: usize = 16;

    const NAME: &'static str = "IDXGIFactory2::CreateSwapChainForCoreWindow";

    const FUNCTION_BYTES: usize = 8;
}

impl ComMethod<DxgiFactory4> for CreateSwapChainForCoreWindow {
    const INDEX: usize = 16;

    const NAME: &'static str = "IDXGIFactory2::CreateSwapChainForCoreWindow";

    const FUNCTION_BYTES: usize = 8;
}

impl ComMethod<DxgiFactory5> for CreateSwapChainForCoreWindow {
    const INDEX: usize = 16;

    const NAME: &'static str = "IDXGIFactory2::CreateSwapChainForCoreWindow";

    const FUNCTION_BYTES: usize = 8;
}

impl ComMethod<DxgiFactory6> for CreateSwapChainForCoreWindow {
    const INDEX: usize = 16;

    const NAME: &'static str = "IDXGIFactory2::CreateSwapChainForCoreWindow";

    const FUNCTION_BYTES: usize = 8;
}

impl ComMethod<DxgiFactory7> for CreateSwapChainForCoreWindow {
    const INDEX: usize = 16;

    const NAME: &'static str = "IDXGIFactory2::CreateSwapChainForCoreWindow";

    const FUNCTION_BYTES: usize = 8;
}

/// Typed marker for `IDXGIFactory2::CreateSwapChainForComposition`.
pub struct CreateSwapChainForComposition;

impl ComMethod<DxgiFactory2> for CreateSwapChainForComposition {
    const INDEX: usize = 24;

    const NAME: &'static str = "IDXGIFactory2::CreateSwapChainForComposition";

    const FUNCTION_BYTES: usize = 8;
}

impl ComMethod<DxgiFactory3> for CreateSwapChainForComposition {
    const INDEX: usize = 24;

    const NAME: &'static str = "IDXGIFactory2::CreateSwapChainForComposition";

    const FUNCTION_BYTES: usize = 8;
}

impl ComMethod<DxgiFactory4> for CreateSwapChainForComposition {
    const INDEX: usize = 24;

    const NAME: &'static str = "IDXGIFactory2::CreateSwapChainForComposition";

    const FUNCTION_BYTES: usize = 8;
}

impl ComMethod<DxgiFactory5> for CreateSwapChainForComposition {
    const INDEX: usize = 24;

    const NAME: &'static str = "IDXGIFactory2::CreateSwapChainForComposition";

    const FUNCTION_BYTES: usize = 8;
}

impl ComMethod<DxgiFactory6> for CreateSwapChainForComposition {
    const INDEX: usize = 24;

    const NAME: &'static str = "IDXGIFactory2::CreateSwapChainForComposition";

    const FUNCTION_BYTES: usize = 8;
}

impl ComMethod<DxgiFactory7> for CreateSwapChainForComposition {
    const INDEX: usize = 24;

    const NAME: &'static str = "IDXGIFactory2::CreateSwapChainForComposition";

    const FUNCTION_BYTES: usize = 8;
}

/// Typed marker for `IDXGIFactoryMedia::CreateSwapChainForCompositionSurfaceHandle`.
pub struct CreateSwapChainForCompositionSurfaceHandle;

impl ComMethod<DxgiFactoryMedia> for CreateSwapChainForCompositionSurfaceHandle {
    const INDEX: usize = 3;

    const NAME: &'static str = "IDXGIFactoryMedia::CreateSwapChainForCompositionSurfaceHandle";

    const FUNCTION_BYTES: usize = 8;
}

/// Typed marker for `IDXGISwapChain::Present`.
pub struct Present;

impl ComMethod<DxgiSwapChain> for Present {
    const INDEX: usize = 8;

    const NAME: &'static str = "IDXGISwapChain::Present";

    const FUNCTION_BYTES: usize = 8;
}

impl ComMethod<DxgiSwapChain1> for Present {
    const INDEX: usize = 8;

    const NAME: &'static str = "IDXGISwapChain::Present";

    const FUNCTION_BYTES: usize = 8;
}

impl ComMethod<DxgiSwapChain2> for Present {
    const INDEX: usize = 8;

    const NAME: &'static str = "IDXGISwapChain::Present";

    const FUNCTION_BYTES: usize = 8;
}

impl ComMethod<DxgiSwapChain3> for Present {
    const INDEX: usize = 8;

    const NAME: &'static str = "IDXGISwapChain::Present";

    const FUNCTION_BYTES: usize = 8;
}

impl ComMethod<DxgiSwapChain4> for Present {
    const INDEX: usize = 8;

    const NAME: &'static str = "IDXGISwapChain::Present";

    const FUNCTION_BYTES: usize = 8;
}

/// Typed marker for `IDXGISwapChain::ResizeBuffers`.
pub struct ResizeBuffers;

impl ComMethod<DxgiSwapChain> for ResizeBuffers {
    const INDEX: usize = 13;

    const NAME: &'static str = "IDXGISwapChain::ResizeBuffers";

    const FUNCTION_BYTES: usize = 8;
}

impl ComMethod<DxgiSwapChain1> for ResizeBuffers {
    const INDEX: usize = 13;

    const NAME: &'static str = "IDXGISwapChain::ResizeBuffers";

    const FUNCTION_BYTES: usize = 8;
}

impl ComMethod<DxgiSwapChain2> for ResizeBuffers {
    const INDEX: usize = 13;

    const NAME: &'static str = "IDXGISwapChain::ResizeBuffers";

    const FUNCTION_BYTES: usize = 8;
}

impl ComMethod<DxgiSwapChain3> for ResizeBuffers {
    const INDEX: usize = 13;

    const NAME: &'static str = "IDXGISwapChain::ResizeBuffers";

    const FUNCTION_BYTES: usize = 8;
}

impl ComMethod<DxgiSwapChain4> for ResizeBuffers {
    const INDEX: usize = 13;

    const NAME: &'static str = "IDXGISwapChain::ResizeBuffers";

    const FUNCTION_BYTES: usize = 8;
}

/// Typed marker for `IDXGISwapChain1::Present1`.
pub struct Present1;

impl ComMethod<DxgiSwapChain1> for Present1 {
    const INDEX: usize = 22;

    const NAME: &'static str = "IDXGISwapChain1::Present1";

    const FUNCTION_BYTES: usize = 8;
}

impl ComMethod<DxgiSwapChain2> for Present1 {
    const INDEX: usize = 22;

    const NAME: &'static str = "IDXGISwapChain1::Present1";

    const FUNCTION_BYTES: usize = 8;
}

impl ComMethod<DxgiSwapChain3> for Present1 {
    const INDEX: usize = 22;

    const NAME: &'static str = "IDXGISwapChain1::Present1";

    const FUNCTION_BYTES: usize = 8;
}

impl ComMethod<DxgiSwapChain4> for Present1 {
    const INDEX: usize = 22;

    const NAME: &'static str = "IDXGISwapChain1::Present1";

    const FUNCTION_BYTES: usize = 8;
}

/// Typed marker for `IDXGISwapChain3::SetColorSpace1`.
pub struct SetColorSpace1;

impl ComMethod<DxgiSwapChain3> for SetColorSpace1 {
    const INDEX: usize = 38;

    const NAME: &'static str = "IDXGISwapChain3::SetColorSpace1";

    const FUNCTION_BYTES: usize = 8;
}

impl ComMethod<DxgiSwapChain4> for SetColorSpace1 {
    const INDEX: usize = 38;

    const NAME: &'static str = "IDXGISwapChain3::SetColorSpace1";

    const FUNCTION_BYTES: usize = 8;
}

/// Typed marker for `IDXGISwapChain3::ResizeBuffers1`.
pub struct ResizeBuffers1;

impl ComMethod<DxgiSwapChain3> for ResizeBuffers1 {
    const INDEX: usize = 39;

    const NAME: &'static str = "IDXGISwapChain3::ResizeBuffers1";

    const FUNCTION_BYTES: usize = 8;
}

impl ComMethod<DxgiSwapChain4> for ResizeBuffers1 {
    const INDEX: usize = 39;

    const NAME: &'static str = "IDXGISwapChain3::ResizeBuffers1";

    const FUNCTION_BYTES: usize = 8;
}

/// Every named method lies inside every layout that it belongs to.
pub proof fn law_named_methods_lie_inside_their_layouts()
    ensures
        <CreateSwapChain as ComMethod<DxgiFactory>>::INDEX < <DxgiFactory as ComInterfaceLayout>::SLOT_COUNT,
        <CreateSwapChain as ComMethod<DxgiFactory1>>::INDEX < <DxgiFactory1 as ComInterfaceLayout>::SLOT_COUNT,
        <CreateSwapChain as ComMethod<DxgiFactory2>>::INDEX < <DxgiFactory2 as ComInterfaceLayout>::SLOT_COUNT,
        <CreateSwapChain as ComMethod<DxgiFactory3>>::INDEX < <DxgiFactory3 as ComInterfaceLayout>::SLOT_COUNT,
        <CreateSwapChain as ComMethod<DxgiFactory4>>::INDEX < <DxgiFactory4 as ComInterfaceLayout>::SLOT_COUNT,
        <CreateSwapChain as ComMethod<DxgiFactory5>>::INDEX < <DxgiFactory5 as ComInterfaceLayout>::SLOT_COUNT,
        <CreateSwapChain as ComMethod<DxgiFactory6>>::INDEX < <DxgiFactory6 as ComInterfaceLayout>::SLOT_COUNT,
        <CreateSwapChain as ComMethod<DxgiFactory7>>::INDEX < <DxgiFactory7 as ComInterfaceLayout>::SLOT_COUNT,
        <CreateSwapChainForHwnd as ComMethod<DxgiFactory2>>::INDEX < <DxgiFactory2 as ComInterfaceLayout>::SLOT_COUNT,
        <CreateSwapChainForHwnd as ComMethod<DxgiFactory3>>::INDEX < <DxgiFactory3 as ComInterfaceLayout>::SLOT_COUNT,
        <CreateSwapChainForHwnd as ComMethod<DxgiFactory4>>::INDEX < <DxgiFactory4 as ComInterfaceLayout>::SLOT_COUNT,
        <CreateSwapChainForHwnd as ComMethod<DxgiFactory5>>::INDEX < <DxgiFactory5 as ComInterfaceLayout>::SLOT_COUNT,
        <CreateSwapChainForHwnd as ComMethod<DxgiFactory6>>::INDEX < <DxgiFactory6 as ComInterfaceLayout>::SLOT_COUNT,
        <CreateSwapChainForHwnd as ComMethod<DxgiFactory7>>::INDEX < <DxgiFactory7 as ComInterfaceLayout>::SLOT_COUNT,
        <CreateSwapChainForCoreWindow as ComMethod<DxgiFactory2>>::INDEX < <DxgiFactory2 as ComInterfaceLayout>::SLOT_COUNT,
        <CreateSwapChainForCoreWindow as ComMethod<DxgiFactory3>>::INDEX < <DxgiFactory3 as ComInterfaceLayout>::SLOT_COUNT,
        <CreateSwapChainForCoreWindow as ComMethod<DxgiFactory4>>::INDEX < <DxgiFactory4 as ComInterfaceLayout>::SLOT_COUNT,
        <CreateSwapChainForCoreWindow as ComMethod<DxgiFactory5>>::INDEX < <DxgiFactory5 as ComInterfaceLayout>::SLOT_COUNT,
        <CreateSwapChainForCoreWindow as ComMethod<DxgiFactory6>>::INDEX < <DxgiFactory6 as ComInterfaceLayout>::SLOT_COUNT,
        <CreateSwapChainForCoreWindow as ComMethod<DxgiFactory7>>::INDEX < <DxgiFactory7 as ComInterfaceLayout>::SLOT_COUNT,
        <CreateSwapChainForComposition as ComMethod<DxgiFactory2>>::INDEX < <DxgiFactory2 as ComInterfaceLayout>::SLOT_COUNT,
        <CreateSwapChainForComposition as ComMethod<DxgiFactory3>>::INDEX < <DxgiFactory3 as ComInterfaceLayout>::SLOT_COUNT,
        <CreateSwapChainForComposition as ComMethod<DxgiFactory4>>::INDEX < <DxgiFactory4 as ComInterfaceLayout>::SLOT_COUNT,
        <CreateSwapChainForComposition as ComMethod<DxgiFactory5>>::INDEX < <DxgiFactory5 as ComInterfaceLayout>::SLOT_COUNT,
        <CreateSwapChainForComposition as ComMethod<DxgiFactory6>>::INDEX < <DxgiFactory6 as ComInterfaceLayout>::SLOT_COUNT,
        <CreateSwapChainForComposition as ComMethod<DxgiFactory7>>::INDEX < <DxgiFactory7 as ComInterfaceLayout>::SLOT_COUNT,
        <CreateSwapChainForCompositionSurfaceHandle as ComMethod<DxgiFactoryMedia>>::INDEX < <DxgiFactoryMedia as ComInterfaceLayout>::SLOT_COUNT,
        <Present as ComMethod<DxgiSwapChain>>::INDEX < <DxgiSwapChain as ComInterfaceLayout>::SLOT_COUNT,
        <Present as ComMethod<DxgiSwapChain1>>::INDEX < <DxgiSwapChain1 as ComInterfaceLayout>::SLOT_COUNT,
        <Present as ComMethod<DxgiSwapChain2>>::INDEX < <DxgiSwapChain2 as ComInterfaceLayout>::SLOT_COUNT,
        <Present as ComMethod<DxgiSwapChain3>>::INDEX < <DxgiSwapChain3 as ComInterfaceLayout>::SLOT_COUNT,
        <Present as ComMethod<DxgiSwapChain4>>::INDEX < <DxgiSwapChain4 as ComInterfaceLayout>::SLOT_COUNT,
        <ResizeBuffers as ComMethod<DxgiSwapChain>>::INDEX < <DxgiSwapChain as ComInterfaceLayout>::SLOT_COUNT,
        <ResizeBuffers as ComMethod<DxgiSwapChain1>>::INDEX < <DxgiSwapChain1 as ComInterfaceLayout>::SLOT_COUNT,
        <ResizeBuffers as ComMethod<DxgiSwapChain2>>::INDEX < <DxgiSwapChain2 as ComInterfaceLayout>::SLOT_COUNT,
        <ResizeBuffers as ComMethod<DxgiSwapChain3>>::INDEX < <DxgiSwapChain3 as ComInterfaceLayout>::SLOT_COUNT,
        <ResizeBuffers as ComMethod<DxgiSwapChain4>>::INDEX < <DxgiSwapChain4 as ComInterfaceLayout>::SLOT_COUNT,
        <Present1 as ComMethod<DxgiSwapChain1>>::INDEX < <DxgiSwapChain1 as ComInterfaceLayout>::SLOT_COUNT,
        <Present1 as ComMethod<DxgiSwapChain2>>::INDEX < <DxgiSwapChain2 as ComInterfaceLayout>::SLOT_COUNT,
        <Present1 as ComMethod<DxgiSwapChain3>>::INDEX < <DxgiSwapChain3 as ComInterfaceLayout>::SLOT_COUNT,
        <Present1 as ComMethod<DxgiSwapChain4>>::INDEX < <DxgiSwapChain4 as ComInterfaceLayout>::SLOT_COUNT,
        <SetColorSpace1 as ComMethod<DxgiSwapChain3>>::INDEX < <DxgiSwapChain3 as ComInterfaceLayout>::SLOT_COUNT,
        <SetColorSpace1 as ComMethod<DxgiSwapChain4>>::INDEX < <DxgiSwapChain4 as ComInterfaceLayout>::SLOT_COUNT,
        <ResizeBuffers1 as ComMethod<DxgiSwapChain3>>::INDEX < <DxgiSwapChain3 as ComInterfaceLayout>::SLOT_COUNT,
        <ResizeBuffers1 as ComMethod<DxgiSwapChain4>>::INDEX < <DxgiSwapChain4 as ComInterfaceLayout>::SLOT_COUNT,
{
}

/// The factory layouts have the lengths and the named slots of the Windows SDK,
/// and a later revision keeps every slot of an earlier one.
pub proof fn law_factory_slots()
    ensures
        <DxgiFactory as ComInterfaceLayout>::SLOT_COUNT == 12,
        <DxgiFactory1 as ComInterfaceLayout>::SLOT_COUNT == 14,
        <DxgiFactory2 as ComInterfaceLayout>::SLOT_COUNT == 25,
        <DxgiFactory3 as ComInterfaceLayout>::SLOT_COUNT == 26,
        <DxgiFactory4 as ComInterfaceLayout>::SLOT_COUNT == 28,
        <DxgiFactory5 as ComInterfaceLayout>::SLOT_COUNT == 29,
        <DxgiFactory6 as ComInterfaceLayout>::SLOT_COUNT == 30,
        <DxgiFactory7 as ComInterfaceLayout>::SLOT_COUNT == 32,
        <DxgiFactoryMedia as ComInterfaceLayout>::SLOT_COUNT == 5,
        <CreateSwapChain as ComMethod<DxgiFactory>>::INDEX == 10,
        <CreateSwapChain as ComMethod<DxgiFactory>>::FUNCTION_BYTES == 8,
        <CreateSwapChain as ComMethod<DxgiFactory1>>::INDEX == 10,
        <CreateSwapChain as ComMethod<DxgiFactory1>>::FUNCTION_BYTES == 8,
        <CreateSwapChain as ComMethod<DxgiFactory2>>::INDEX == 10,
        <CreateSwapChain as ComMethod<DxgiFactory2>>::FUNCTION_BYTES == 8,
        <CreateSwapChain as ComMethod<DxgiFactory3>>::INDEX == 10,
        <CreateSwapChain as ComMethod<DxgiFactory3>>::FUNCTION_BYTES == 8,
        <CreateSwapChain as ComMethod<DxgiFactory4>>::INDEX == 10,
        <CreateSwapChain as ComMethod<DxgiFactory4>>::FUNCTION_BYTES == 8,
        <CreateSwapChain as ComMethod<DxgiFactory5>>::INDEX == 10,
        <CreateSwapChain as ComMethod<DxgiFactory5>>::FUNCTION_BYTES == 8,
        <CreateSwapChain as ComMethod<DxgiFactory6>>::INDEX == 10,
        <CreateSwapChain as ComMethod<DxgiFactory6>>::FUNCTION_BYTES == 8,
        <CreateSwapChain as ComMethod<DxgiFactory7>>::INDEX == 10,
        <CreateSwapChain as ComMethod<DxgiFactory7>>::FUNCTION_BYTES == 8,
        <CreateSwapChainForHwnd as ComMethod<DxgiFactory2>>::INDEX == 15,
        <CreateSwapChainForHwnd as ComMethod<DxgiFactory2>>::FUNCTION_BYTES == 8,
        <CreateSwapChainForHwnd as ComMethod<DxgiFactory3>>::INDEX == 15,
        <CreateSwapChainForHwnd as ComMethod<DxgiFactory3>>::FUNCTION_BYTES == 8,
        <CreateSwapChainForHwnd as ComMethod<DxgiFactory4>>::INDEX == 15,
        <CreateSwapChainForHwnd as ComMethod<DxgiFactory4>>::FUNCTION_BYTES == 8,
        <CreateSwapChainForHwnd as ComMethod<DxgiFactory5>>::INDEX == 15,
        <CreateSwapChainForHwnd as ComMethod<DxgiFactory5>>::FUNCTION_BYTES == 8,
        <CreateSwapChainForHwnd as ComMethod<DxgiFactory6>>::INDEX == 15,
        <CreateSwapChainForHwnd as ComMethod<DxgiFactory6>>::FUNCTION_BYTES == 8,
        <CreateSwapChainForHwnd as ComMethod<DxgiFactory7>>::INDEX == 15,
        <CreateSwapChainForHwnd as ComMethod<DxgiFactory7>>::FUNCTION_BYTES == 8,
        <CreateSwapChainForCoreWindow as ComMethod<DxgiFactory2>>::INDEX == 16,
        <CreateSwapChainForCoreWindow as ComMethod<DxgiFactory2>>::FUNCTION_BYTES == 8,
        <CreateSwapChainForCoreWindow as ComMethod<DxgiFactory3>>::INDEX == 16,
        <CreateSwapChainForCoreWindow as ComMethod<DxgiFactory3>>::FUNCTION_BYTES == 8,
        <CreateSwapChainForCoreWindow as ComMethod<DxgiFactory4>>::INDEX == 16,
        <CreateSwapChainForCoreWindow as ComMethod<DxgiFactory4>>::FUNCTION_BYTES == 8,
        <CreateSwapChainForCoreWindow as ComMethod<DxgiFactory5>>::INDEX == 16,
        <CreateSwapChainForCoreWindow as ComMethod<DxgiFactory5>>::FUNCTION_BYTES == 8,
        <CreateSwapChainForCoreWindow as ComMethod<DxgiFactory6>>::INDEX == 16,
        <CreateSwapChainForCoreWindow as ComMethod<DxgiFactory6>>::FUNCTION_BYTES == 8,
        <CreateSwapChainForCoreWindow as ComMethod<DxgiFactory7>>::INDEX == 16,
        <CreateSwapChainForCoreWindow as ComMethod<DxgiFactory7>>::FUNCTION_BYTES == 8,
        <CreateSwapChainForComposition as ComMethod<DxgiFactory2>>::INDEX == 24,
        <CreateSwapChainForComposition as ComMethod<DxgiFactory2>>::FUNCTION_BYTES == 8,
        <CreateSwapChainForComposition as ComMethod<DxgiFactory3>>::INDEX == 24,
        <CreateSwapChainForComposition as ComMethod<DxgiFactory3>>::FUNCTION_BYTES == 8,
        <CreateSwapChainForComposition as ComMethod<DxgiFactory4>>::INDEX == 24,
        <CreateSwapChainForComposition as ComMethod<DxgiFactory4>>::FUNCTION_BYTES == 8,
        <CreateSwapChainForComposition as ComMethod<DxgiFactory5>>::INDEX == 24,
        <CreateSwapChainForComposition as ComMethod<DxgiFactory5>>::FUNCTION_BYTES == 8,
        <CreateSwapChainForComposition as ComMethod<DxgiFactory6>>::INDEX == 24,
        <CreateSwapChainForComposition as ComMethod<DxgiFactory6>>::FUNCTION_BYTES == 8,
        <CreateSwapChainForComposition as ComMethod<DxgiFactory7>>::INDEX == 24,
        <CreateSwapChainForComposition as ComMethod<DxgiFactory7>>::FUNCTION_BYTES == 8,
        <CreateSwapChainForCompositionSurfaceHandle as ComMethod<DxgiFactoryMedia>>::INDEX == 3,
        <CreateSwapChainForCompositionSurfaceHandle as ComMethod<DxgiFactoryMedia>>::FUNCTION_BYTES == 8,
{
}

/// The swap-chain layouts have the lengths and the named slots of the Windows
/// SDK, and a later revision keeps every slot of an earlier one.
pub proof fn law_swap_chain_slots()
    ensures
        <DxgiSwapChain as ComInterfaceLayout>::SLOT_COUNT == 18,
        <DxgiSwapChain1 as ComInterfaceLayout>::SLOT_COUNT == 29,
        <DxgiSwapChain2 as ComInterfaceLayout>::SLOT_COUNT == 36,
        <DxgiSwapChain3 as ComInterfaceLayout>::SLOT_COUNT == 40,
        <DxgiSwapChain4 as ComInterfaceLayout>::SLOT_COUNT == 41,
        <Present as ComMethod<DxgiSwapChain>>::INDEX == 8,
        <Present as ComMethod<DxgiSwapChain>>::FUNCTION_BYTES == 8,
        <Present as ComMethod<DxgiSwapChain1>>::INDEX == 8,
        <Present as ComMethod<DxgiSwapChain1>>::FUNCTION_BYTES == 8,
        <Present as ComMethod<DxgiSwapChain2>>::INDEX == 8,
        <Present as ComMethod<DxgiSwapChain2>>::FUNCTION_BYTES == 8,
        <Present as ComMethod<DxgiSwapChain3>>::INDEX == 8,
        <Present as ComMethod<DxgiSwapChain3>>::FUNCTION_BYTES == 8,
        <Present as ComMethod<DxgiSwapChain4>>::INDEX == 8,
        <Present as ComMethod<DxgiSwapChain4>>::FUNCTION_BYTES == 8,
        <ResizeBuffers as ComMethod<DxgiSwapChain>>::INDEX == 13,
        <ResizeBuffers as ComMethod<DxgiSwapChain>>::FUNCTION_BYTES == 8,
        <ResizeBuffers as ComMethod<DxgiSwapChain1>>::INDEX == 13,
        <ResizeBuffers as ComMethod<DxgiSwapChain1>>::FUNCTION_BYTES == 8,
        <ResizeBuffers as ComMethod<DxgiSwapChain2>>::INDEX == 13,
        <ResizeBuffers as ComMethod<DxgiSwapChain2>>::FUNCTION_BYTES == 8,
        <ResizeBuffers as ComMethod<DxgiSwapChain3>>::INDEX == 13,
        <ResizeBuffers as ComMethod<DxgiSwapChain3>>::FUNCTION_BYTES == 8,
        <ResizeBuffers as ComMethod<DxgiSwapChain4>>::INDEX == 13,
        <ResizeBuffers as ComMethod<DxgiSwapChain4>>::FUNCTION_BYTES == 8,
        <Present1 as ComMethod<DxgiSwapChain1>>::INDEX == 22,
        <Present1 as ComMethod<DxgiSwapChain1>>::FUNCTION_BYTES == 8,
        <Present1 as ComMethod<DxgiSwapChain2>>::INDEX == 22,
        <Present1 as ComMethod<DxgiSwapChain2>>::FUNCTION_BYTES == 8,
        <Present1 as ComMethod<DxgiSwapChain3>>::INDEX == 22,
        <Present1 as ComMethod<DxgiSwapChain3>>::FUNCTION_BYTES == 8,
        <Present1 as ComMethod<DxgiSwapChain4>>::INDEX == 22,
        <Present1 as ComMethod<DxgiSwapChain4>>::FUNCTION_BYTES == 8,
        <SetColorSpace1 as ComMethod<DxgiSwapChain3>>::INDEX == 38,
        <SetColorSpace1 as ComMethod<DxgiSwapChain3>>::FUNCTION_BYTES == 8,
        <SetColorSpace1 as ComMethod<DxgiSwapChain4>>::INDEX == 38,
        <SetColorSpace1 as ComMethod<DxgiSwapChain4>>::FUNCTION_BYTES == 8,
        <ResizeBuffers1 as ComMethod<DxgiSwapChain3>>::INDEX == 39,
        <ResizeBuffers1 as ComMethod<DxgiSwapChain3>>::FUNCTION_BYTES == 8,
        <ResizeBuffers1 as ComMethod<DxgiSwapChain4>>::INDEX == 39,
        <ResizeBuffers1 as ComMethod<DxgiSwapChain4>>::FUNCTION_BYTES == 8,
{
}

} // verus!
