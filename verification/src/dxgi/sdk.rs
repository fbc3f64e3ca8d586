//! Translation between native DXGI values and the library's own.
use vstd::prelude::*;
use crate::dxgi::event::{FactoryInterface, HResultDisposition, SwapChainInterface};
use crate::render::{AdapterLuid, ColorSpace, Extent2D, SurfaceFormat};

verus! {

/// Sentinel retained by policy until a successful `SetColorSpace1` is observed.
pub const UNKNOWN_COLOR_SPACE: u32 = 0xffff_ffff;

/// `DXGI_STATUS_OCCLUDED`.
pub const DXGI_STATUS_OCCLUDED: i32 = 0x087a_0001;

/// `DXGI_ERROR_DEVICE_REMOVED`, `0x887A0005` as a signed number.
pub const DXGI_ERROR_DEVICE_REMOVED: i32 = -2005270523;

/// `DXGI_ERROR_DEVICE_RESET`, `0x887A0007` as a signed number.
pub const DXGI_ERROR_DEVICE_RESET: i32 = -2005270521;

/// `E_NOINTERFACE`, `0x80004002` as a signed number.
pub const E_NOINTERFACE: i32 = -2147467262;

/// `E_FAIL`, `0x80004005` as a signed number.
pub const E_FAIL: i32 = -2147467259;

/// Interface identifier.
#[derive(Clone, Copy, Debug, PartialEq, Eq, Structural)]
pub struct Guid {
    /// First group.
    pub data1: u32,
    /// Second group.
    pub data2: u16,
    /// Third group.
    pub data3: u16,
    /// The last eight bytes, most significant first.
    pub data4: u64,
}

/// The Windows SDK IID of a factory layout.
pub open spec fn factory_guid(interface: FactoryInterface) -> Guid {
    match interface {
        FactoryInterface::Base => Guid { data1: 0x7b7166ec, data2: 0x21c7, data3: 0x44ae, data4: 0xb21a_c9ae321ae369 },
        FactoryInterface::V1 => Guid { data1: 0x770aae78, data2: 0xf26f, data3: 0x4dba, data4: 0xa829_253c83d1b387 },
        FactoryInterface::V2 => Guid { data1: 0x50c83a1c, data2: 0xe072, data3: 0x4c48, data4: 0x87b0_3630fa36a6d0 },
        FactoryInterface::V3 => Guid { data1: 0x25483823, data2: 0xcd46, data3: 0x4c7d, data4: 0x86ca_47aa95b837bd },
        FactoryInterface::V4 => Guid { data1: 0x1bc6ea02, data2: 0xef36, data3: 0x464f, data4: 0xbf0c_21ca39e5168a },
        FactoryInterface::V5 => Guid { data1: 0x7632e1f5, data2: 0xee65, data3: 0x4dca, data4: 0x87fd_84cd75f8838d },
        FactoryInterface::V6 => Guid { data1: 0xc1b6694f, data2: 0xff09, data3: 0x44a9, data4: 0xb03c_77900a0a1d17 },
        FactoryInterface::V7 => Guid { data1: 0xa4966eed, data2: 0x76db, data3: 0x44da, data4: 0x84c1_ee9a7afb20a8 },
        FactoryInterface::Media => Guid { data1: 0x41e7d1f2, data2: 0xa591, data3: 0x4f7b, data4: 0xa2e5_fa9c843e1c12 },
    }
}

/// The Windows SDK IID of a swap-chain layout.
pub open spec fn swap_chain_guid(interface: SwapChainInterface) -> Guid {
    match interface {
        SwapChainInterface::Base => Guid { data1: 0x310d36a0, data2: 0xd2e7, data3: 0x4c0a, data4: 0xaa04_6a9d23b8886a },
        SwapChainInterface::V1 => Guid { data1: 0x790a45f7, data2: 0x0d42, data3: 0x4876, data4: 0x983a_0a55cfe6f4aa },
        SwapChainInterface::V2 => Guid { data1: 0xa8be2ac4, data2: 0x199f, data3: 0x4946, data4: 0xb331_79599fb98de7 },
        SwapChainInterface::V3 => Guid { data1: 0x94d99bdb, data2: 0xf1f8, data3: 0x4ab0, data4: 0xb236_7da0170edab1 },
        SwapChainInterface::V4 => Guid { data1: 0x3d585d5a, data2: 0xbd4a, data3: 0x489e, data4: 0xb1f4_3dbcb6452ffb },
    }
}

/// Returns the Windows SDK IID for a factory layout.
pub fn factory_iid(interface: FactoryInterface) -> (iid: Guid)
    ensures
        iid == factory_guid(interface),
{
    match interface {
        FactoryInterface::Base => Guid { data1: 0x7b7166ec, data2: 0x21c7, data3: 0x44ae, data4: 0xb21a_c9ae321ae369 },
        FactoryInterface::V1 => Guid { data1: 0x770aae78, data2: 0xf26f, data3: 0x4dba, data4: 0xa829_253c83d1b387 },
        FactoryInterface::V2 => Guid { data1: 0x50c83a1c, data2: 0xe072, data3: 0x4c48, data4: 0x87b0_3630fa36a6d0 },
        FactoryInterface::V3 => Guid { data1: 0x25483823, data2: 0xcd46, data3: 0x4c7d, data4: 0x86ca_47aa95b837bd },
        FactoryInterface::V4 => Guid { data1: 0x1bc6ea02, data2: 0xef36, data3: 0x464f, data4: 0xbf0c_21ca39e5168a },
        FactoryInterface::V5 => Guid { data1: 0x7632e1f5, data2: 0xee65, data3: 0x4dca, data4: 0x87fd_84cd75f8838d },
        FactoryInterface::V6 => Guid { data1: 0xc1b6694f, data2: 0xff09, data3: 0x44a9, data4: 0xb03c_77900a0a1d17 },
        FactoryInterface::V7 => Guid { data1: 0xa4966eed, data2: 0x76db, data3: 0x44da, data4: 0x84c1_ee9a7afb20a8 },
        FactoryInterface::Media => Guid { data1: 0x41e7d1f2, data2: 0xa591, data3: 0x4f7b, data4: 0xa2e5_fa9c843e1c12 },
    }
}

/// Returns the Windows SDK IID for a swap-chain layout.
pub fn swap_chain_iid(interface: SwapChainInterface) -> (iid: Guid)
    ensures
        iid == swap_chain_guid(interface),
{
    match interface {
        SwapChainInterface::Base => Guid { data1: 0x310d36a0, data2: 0xd2e7, data3: 0x4c0a, data4: 0xaa04_6a9d23b8886a },
        SwapChainInterface::V1 => Guid { data1: 0x790a45f7, data2: 0x0d42, data3: 0x4876, data4: 0x983a_0a55cfe6f4aa },
        SwapChainInterface::V2 => Guid { data1: 0xa8be2ac4, data2: 0x199f, data3: 0x4946, data4: 0xb331_79599fb98de7 },
        SwapChainInterface::V3 => Guid { data1: 0x94d99bdb, data2: 0xf1f8, data3: 0x4ab0, data4: 0xb236_7da0170edab1 },
        SwapChainInterface::V4 => Guid { data1: 0x3d585d5a, data2: 0xbd4a, data3: 0x489e, data4: 0xb1f4_3dbcb6452ffb },
    }
}

/// Returns the factory layout that an IID names.
pub fn factory_interface(iid: Guid) -> (interface: Option<FactoryInterface>)
    ensures
        interface matches Some(found) ==> factory_guid(found) == iid,
        interface is None ==> forall|candidate: FactoryInterface| factory_guid(candidate) != iid,
{
    if iid == factory_iid(FactoryInterface::Media) {
        Some(FactoryInterface::Media)
    } else if iid == factory_iid(FactoryInterface::V7) {
        Some(FactoryInterface::V7)
    } else if iid == factory_iid(FactoryInterface::V6) {
        Some(FactoryInterface::V6)
    } else if iid == factory_iid(FactoryInterface::V5) {
        Some(FactoryInterface::V5)
    } else if iid == factory_iid(FactoryInterface::V4) {
        Some(FactoryInterface::V4)
    } else if iid == factory_iid(FactoryInterface::V3) {
        Some(FactoryInterface::V3)
    } else if iid == factory_iid(FactoryInterface::V2) {
        Some(FactoryInterface::V2)
    } else if iid == factory_iid(FactoryInterface::V1) {
        Some(FactoryInterface::V1)
    } else if iid == factory_iid(FactoryInterface::Base) {
        Some(FactoryInterface::Base)
    } else {
        None
    }
}

/// Returns the swap-chain layout that an IID names.
pub fn swap_chain_interface(iid: Guid) -> (interface: Option<SwapChainInterface>)
    ensures
        interface matches Some(found) ==> swap_chain_guid(found) == iid,
        interface is None ==> forall|candidate: SwapChainInterface|
            swap_chain_guid(candidate) != iid,
{
    if iid == swap_chain_iid(SwapChainInterface::V4) {
        Some(SwapChainInterface::V4)
    } else if iid == swap_chain_iid(SwapChainInterface::V3) {
        Some(SwapChainInterface::V3)
    } else if iid == swap_chain_iid(SwapChainInterface::V2) {
        Some(SwapChainInterface::V2)
    } else if iid == swap_chain_iid(SwapChainInterface::V1) {
        Some(SwapChainInterface::V1)
    } else if iid == swap_chain_iid(SwapChainInterface::Base) {
        Some(SwapChainInterface::Base)
    } else {
        None
    }
}

/// An IID names one factory layout, so an IID leads back to the layout it came from.
pub proof fn law_factory_iids_round_trip(left: FactoryInterface, right: FactoryInterface)
    ensures
        factory_guid(left) == factory_guid(right) <==> left == right,
{
}

/// An IID names one swap-chain layout, so an IID leads back to the layout it came from.
pub proof fn law_swap_chain_iids_round_trip(left: SwapChainInterface, right: SwapChainInterface)
    ensures
        swap_chain_guid(left) == swap_chain_guid(right) <==> left == right,
{
}

/// Revisions of the inherited factory interface, highest first. The media
/// factory is an independent layout, not a higher revision.
pub open spec fn factory_revisions() -> Seq<FactoryInterface> {
    seq![
        FactoryInterface::V7,
        FactoryInterface::V6,
        FactoryInterface::V5,
        FactoryInterface::V4,
        FactoryInterface::V3,
        FactoryInterface::V2,
        FactoryInterface::V1,
        FactoryInterface::Base,
    ]
}

/// Revisions of the inherited swap-chain interface, highest first.
pub open spec fn swap_chain_revisions() -> Seq<SwapChainInterface> {
    seq![
        SwapChainInterface::V4,
        SwapChainInterface::V3,
        SwapChainInterface::V2,
        SwapChainInterface::V1,
        SwapChainInterface::Base,
    ]
}

/// Returns the factory revisions in the order in which an object is asked for them.
pub fn factory_query_order() -> (order: Vec<FactoryInterface>)
    ensures
        order@ == factory_revisions(),
{
    let order = vec![
        FactoryInterface::V7,
        FactoryInterface::V6,
        FactoryInterface::V5,
        FactoryInterface::V4,
        FactoryInterface::V3,
        FactoryInterface::V2,
        FactoryInterface::V1,
        FactoryInterface::Base,
    ];
    assert(order@ =~= factory_revisions());
    order
}

/// Returns the swap-chain revisions in the order in which an object is asked for them.
pub fn swap_chain_query_order() -> (order: Vec<SwapChainInterface>)
    ensures
        order@ == swap_chain_revisions(),
{
    let order = vec![
        SwapChainInterface::V4,
        SwapChainInterface::V3,
        SwapChainInterface::V2,
        SwapChainInterface::V1,
        SwapChainInterface::Base,
    ];
    assert(order@ =~= swap_chain_revisions());
    order
}

/// What a `QueryInterface` call handed back.
#[derive(Clone, Copy, Debug, PartialEq, Eq, Structural)]
pub struct QueryReply {
    /// HRESULT of the call.
    pub result: i32,
    /// Interface pointer that was written.
    pub output: usize,
    /// Whether the written pointer leads to an `IUnknown` vtable.
    pub has_vtable: bool,
}

/// The owned interface pointer of a reply, or the HRESULT to report.
pub open spec fn queried(reply: QueryReply) -> Result<usize, i32> {
    if reply.result < 0 {
        Err(reply.result)
    } else if reply.output == 0 || !reply.has_vtable {
        Err(E_NOINTERFACE)
    } else {
        Ok(reply.output)
    }
}

/// Interprets what a `QueryInterface` call handed back.
pub fn query_interface(reply: QueryReply) -> (result: Result<usize, i32>)
    ensures
        result == queried(reply),
{
    if reply.result < 0 || reply.output == 0 {
        return Err(
            if reply.result < 0 {
                reply.result
            } else {
                E_NOINTERFACE
            },
        );
    }
    if !reply.has_vtable {
        return Err(E_NOINTERFACE);
    }
    Ok(reply.output)
}

/// Whether `replies` are answers to the first requests of an order, one each.
pub open spec fn answered<F: Fn(Guid) -> QueryReply>(
    query: F,
    order: Seq<Guid>,
    replies: Seq<QueryReply>,
) -> bool {
    &&& replies.len() <= order.len()
    &&& forall|i: int| 0 <= i < replies.len() ==> call_ensures(query, (order[i],), #[trigger] replies[i])
}

/// What the answers to an order amount to: the first success, or none once
/// everything was asked for.
pub open spec fn first_success<I>(
    revisions: Seq<I>,
    replies: Seq<QueryReply>,
    highest: Option<(I, usize)>,
) -> bool {
    match highest {
        None => {
            &&& replies.len() == revisions.len()
            &&& forall|i: int| 0 <= i < replies.len() ==> queried(#[trigger] replies[i]) is Err
        },
        Some((interface, pointer)) => {
            &&& 0 < replies.len() <= revisions.len()
            &&& forall|i: int|
                0 <= i < replies.len() - 1 ==> queried(#[trigger] replies[i]) is Err
            &&& interface == revisions[replies.len() - 1]
            &&& queried(replies.last()) == Ok::<usize, i32>(pointer)
        },
    }
}

/// IIDs of the factory revisions, highest first.
pub open spec fn factory_order() -> Seq<Guid> {
    Seq::new(factory_revisions().len(), |i: int| factory_guid(factory_revisions()[i]))
}

/// IIDs of the swap-chain revisions, highest first.
pub open spec fn swap_chain_order() -> Seq<Guid> {
    Seq::new(swap_chain_revisions().len(), |i: int| swap_chain_guid(swap_chain_revisions()[i]))
}

/// Whether asking a factory for its revisions can lead to this outcome.
pub open spec fn is_highest_factory<F: Fn(Guid) -> QueryReply>(
    query: F,
    highest: Option<(FactoryInterface, usize)>,
) -> bool {
    exists|replies: Seq<QueryReply>| #[trigger]
        answered(query, factory_order(), replies) && first_success(
            factory_revisions(),
            replies,
            highest,
        )
}

/// Asks a factory for its revisions, highest first, until one is handed out.
///
/// `query` calls the object's original `QueryInterface`.
pub fn highest_factory<F: Fn(Guid) -> QueryReply>(query: F) -> (highest: Option<
    (FactoryInterface, usize),
>)
    requires
        forall|iid: Guid| call_requires(query, (iid,)),
    ensures
        is_highest_factory(query, highest),
{
    let order = factory_query_order();
    let ghost mut replies: Seq<QueryReply> = Seq::empty();
    let mut index: usize = 0;
    while index < order.len()
        invariant
            forall|iid: Guid| call_requires(query, (iid,)),
            order@ == factory_revisions(),
            index <= order.len(),
            replies.len() == index,
            answered(query, factory_order(), replies),
            forall|i: int| 0 <= i < replies.len() ==> queried(#[trigger] replies[i]) is Err,
        decreases order.len() - index,
    {
        let interface = order[index];
        let reply = query(factory_iid(interface));
        proof {
            replies = replies.push(reply);
            assert(factory_order()[index as int] == factory_guid(interface));
            assert(answered(query, factory_order(), replies));
        }
        if let Ok(pointer) = query_interface(reply) {
            assert(first_success(factory_revisions(), replies, Some((interface, pointer))));
            return Some((interface, pointer));
        }
        index = index + 1;
    }
    assert(first_success(factory_revisions(), replies, None));
    None
}

/// Whether asking a swap chain for its revisions can lead to this outcome.
pub open spec fn is_highest_swap_chain<F: Fn(Guid) -> QueryReply>(
    query: F,
    highest: Option<(SwapChainInterface, usize)>,
) -> bool {
    exists|replies: Seq<QueryReply>| #[trigger]
        answered(query, swap_chain_order(), replies) && first_success(
            swap_chain_revisions(),
            replies,
            highest,
        )
}

/// Asks a swap chain for its revisions, highest first, until one is handed out.
///
/// `query` calls the object's original `QueryInterface`.
pub fn highest_swap_chain<F: Fn(Guid) -> QueryReply>(query: F) -> (highest: Option<
    (SwapChainInterface, usize),
>)
    requires
        forall|iid: Guid| call_requires(query, (iid,)),
    ensures
        is_highest_swap_chain(query, highest),
{
    let order = swap_chain_query_order();
    let ghost mut replies: Seq<QueryReply> = Seq::empty();
    let mut index: usize = 0;
    while index < order.len()
        invariant
            forall|iid: Guid| call_requires(query, (iid,)),
            order@ == swap_chain_revisions(),
            index <= order.len(),
            replies.len() == index,
            answered(query, swap_chain_order(), replies),
            forall|i: int| 0 <= i < replies.len() ==> queried(#[trigger] replies[i]) is Err,
        decreases order.len() - index,
    {
        let interface = order[index];
        let reply = query(swap_chain_iid(interface));
        proof {
            replies = replies.push(reply);
            assert(swap_chain_order()[index as int] == swap_chain_guid(interface));
            assert(answered(query, swap_chain_order(), replies));
        }
        if let Ok(pointer) = query_interface(reply) {
            assert(first_success(swap_chain_revisions(), replies, Some((interface, pointer))));
            return Some((interface, pointer));
        }
        index = index + 1;
    }
    assert(first_success(swap_chain_revisions(), replies, None));
    None
}

/// What was sampled from a swap chain.
#[derive(Clone, Copy, Debug, PartialEq, Eq, Structural)]
pub struct NativeMetadata {
    /// Output window.
    pub hwnd: Option<usize>,
    /// Identity pointer of the device.
    pub device_identity: usize,
    /// Adapter identity.
    pub adapter_luid: AdapterLuid,
    /// Back-buffer extent.
    pub size: Extent2D,
    /// Back-buffer format.
    pub format: SurfaceFormat,
    /// Whether the window is visible.
    pub window_visible: bool,
    /// Whether the window is in the foreground.
    pub foreground: bool,
}

/// Description of a swap chain's back buffer, as DXGI reports it.
#[derive(Clone, Copy, Debug, PartialEq, Eq, Structural)]
pub struct SurfaceDescription {
    /// Width in pixels.
    pub width: u32,
    /// Height in pixels.
    pub height: u32,
    /// Native format number.
    pub format: i32,
    /// Output window of the base description; the later description has none.
    pub output_window: usize,
}

/// What the native queries of one inspection handed back, in their order.
///
/// A query that an earlier failure kept from being made holds any value.
#[derive(Clone, Copy, Debug, PartialEq, Eq)]
pub struct InspectionReport {
    /// Back-buffer description: `GetDesc1` from the first revision on, else `GetDesc`.
    pub description: Result<SurfaceDescription, i32>,
    /// `GetHwnd` from the first revision on, where it succeeded.
    pub window: Option<usize>,
    /// `GetDevice` and the device's `IUnknown` identity.
    pub device_identity: Result<usize, i32>,
    /// `GetAdapter` and the adapter's description.
    pub adapter_luid: Result<AdapterLuid, i32>,
    /// Whether Win32 reports the inspected window as visible.
    pub is_window_visible: bool,
    /// The foreground window.
    pub foreground_window: usize,
}

/// A window handle, unless it is null.
pub open spec fn window_of(value: usize) -> Option<usize> {
    if value == 0 {
        None
    } else {
        Some(value)
    }
}

/// The window that an inspection attributes to a swap chain.
pub open spec fn inspected_window(
    interface: SwapChainInterface,
    report: InspectionReport,
) -> Option<usize> {
    match interface {
        SwapChainInterface::Base => window_of(report.description->Ok_0.output_window),
        _ => match report.window {
            Some(window) => window_of(window),
            None => None,
        },
    }
}

/// The outcome of an inspection: the first failing query's HRESULT, or the metadata.
pub open spec fn inspection(
    interface: SwapChainInterface,
    pointer: usize,
    report: InspectionReport,
) -> Result<NativeMetadata, i32> {
    if pointer == 0 {
        Err(E_NOINTERFACE)
    } else if report.description is Err {
        Err(report.description->Err_0)
    } else if report.device_identity is Err {
        Err(report.device_identity->Err_0)
    } else if report.adapter_luid is Err {
        Err(report.adapter_luid->Err_0)
    } else {
        let description = report.description->Ok_0;
        let hwnd = inspected_window(interface, report);
        Ok(
            NativeMetadata {
                hwnd,
                device_identity: report.device_identity->Ok_0,
                adapter_luid: report.adapter_luid->Ok_0,
                size: Extent2D { width: description.width, height: description.height },
                format: format_of(description.format),
                window_visible: hwnd is None || report.is_window_visible,
                foreground: hwnd is Some && hwnd->0 == report.foreground_window,
            },
        )
    }
}

/// Interprets what the native queries of an inspection handed back.
pub fn inspect_swap_chain(
    interface: SwapChainInterface,
    pointer: usize,
    report: InspectionReport,
) -> (result: Result<NativeMetadata, i32>)
    ensures
        result == inspection(interface, pointer, report),
{
    if pointer == 0 {
        return Err(E_NOINTERFACE);
    }
    let description = match report.description {
        Ok(description) => description,
        Err(code) => {
            return Err(code);
        },
    };
    let hwnd = match interface {
        SwapChainInterface::Base => hwnd_value(description.output_window),
        _ => match report.window {
            Some(window) => hwnd_value(window),
            None => None,
        },
    };
    let device_identity: usize = match report.device_identity {
        Ok(identity) => identity,
        Err(code) => {
            return Err(code);
        },
    };
    let adapter_luid = match report.adapter_luid {
        Ok(luid) => luid,
        Err(code) => {
            return Err(code);
        },
    };
    let window_visible = match hwnd {
        None => true,
        Some(_) => report.is_window_visible,
    };
    let foreground = match hwnd {
        None => false,
        Some(window) => report.foreground_window == window,
    };
    Ok(
        NativeMetadata {
            hwnd,
            device_identity,
            adapter_luid,
            size: Extent2D { width: description.width, height: description.height },
            format: raw_surface_format(description.format),
            window_visible,
            foreground,
        },
    )
}

fn hwnd_value(window: usize) -> (hwnd: Option<usize>)
    ensures
        hwnd == window_of(window),
{
    if window == 0 {
        None
    } else {
        Some(window)
    }
}

/// The unsigned number with the same bits.
pub open spec fn bits_of(value: i32) -> u32 {
    if value < 0 {
        (value + 0x1_0000_0000) as u32
    } else {
        value as u32
    }
}

/// Returns the unsigned number with the same bits.
fn same_bits(value: i32) -> (bits: u32)
    ensures
        bits == bits_of(value),
{
    if value < 0 {
        (value as i64 + 0x1_0000_0000) as u32
    } else {
        value as u32
    }
}

/// The format that a native number stands for.
pub open spec fn format_of(format: i32) -> SurfaceFormat {
    if format == 28 {
        SurfaceFormat::Rgba8Unorm
    } else if format == 29 {
        SurfaceFormat::Rgba8UnormSrgb
    } else if format == 87 {
        SurfaceFormat::Bgra8Unorm
    } else if format == 91 {
        SurfaceFormat::Bgra8UnormSrgb
    } else if format == 24 {
        SurfaceFormat::Rgb10A2Unorm
    } else if format == 10 {
        SurfaceFormat::Rgba16Float
    } else {
        SurfaceFormat::Other(bits_of(format))
    }
}

/// Translates a native format without losing unknown values.
pub fn raw_surface_format(format: i32) -> (translated: SurfaceFormat)
    ensures
        translated == format_of(format),
{
    match format {
        28 => SurfaceFormat::Rgba8Unorm,
        29 => SurfaceFormat::Rgba8UnormSrgb,
        87 => SurfaceFormat::Bgra8Unorm,
        91 => SurfaceFormat::Bgra8UnormSrgb,
        24 => SurfaceFormat::Rgb10A2Unorm,
        10 => SurfaceFormat::Rgba16Float,
        other => SurfaceFormat::Other(same_bits(other)),
    }
}

/// The color space that a native number stands for.
pub open spec fn color_space_of(value: i32) -> ColorSpace {
    if value == 0 {
        ColorSpace::Srgb
    } else if value == 1 {
        ColorSpace::ScRgbLinear
    } else if value == 12 {
        ColorSpace::Hdr10Pq
    } else {
        ColorSpace::Other(bits_of(value))
    }
}

/// Translates a native color space without losing unknown values.
pub fn color_space(value: i32) -> (translated: ColorSpace)
    ensures
        translated == color_space_of(value),
{
    match value {
        0 => ColorSpace::Srgb,
        1 => ColorSpace::ScRgbLinear,
        12 => ColorSpace::Hdr10Pq,
        other => ColorSpace::Other(same_bits(other)),
    }
}

/// What a native result means.
pub open spec fn disposition_of(result: i32) -> HResultDisposition {
    if result == DXGI_STATUS_OCCLUDED {
        HResultDisposition::Occluded
    } else if result == DXGI_ERROR_DEVICE_REMOVED {
        HResultDisposition::DeviceRemoved
    } else if result == DXGI_ERROR_DEVICE_RESET {
        HResultDisposition::DeviceReset
    } else if result >= 0 {
        HResultDisposition::Success
    } else {
        HResultDisposition::Other(result)
    }
}

/// Interprets a native result.
pub fn hresult_disposition(result: i32) -> (disposition: HResultDisposition)
    ensures
        disposition == disposition_of(result),
{
    if result == DXGI_STATUS_OCCLUDED {
        HResultDisposition::Occluded
    } else if result == DXGI_ERROR_DEVICE_REMOVED {
        HResultDisposition::DeviceRemoved
    } else if result == DXGI_ERROR_DEVICE_RESET {
        HResultDisposition::DeviceReset
    } else if result >= 0 {
        HResultDisposition::Success
    } else {
        HResultDisposition::Other(result)
    }
}

/// Two different native formats are never taken for one another.
pub proof fn law_formats_are_not_confused(left: i32, right: i32)
    ensures
        format_of(left) == format_of(right) ==> left == right,
{
}

/// Two different native color spaces are never taken for one another.
pub proof fn law_color_spaces_are_not_confused(left: i32, right: i32)
    ensures
        color_space_of(left) == color_space_of(right) ==> left == right,
{
}

/// The sentinel for an unobserved color space is no known color space.
pub proof fn law_unknown_color_space_is_no_known_one(value: i32)
    ensures
        color_space_of(value) == ColorSpace::Other(UNKNOWN_COLOR_SPACE) ==> value == -1,
{
}

/// Every factory layout is known by its own interface identifier.
pub proof fn law_each_factory_has_its_identifier(interface: FactoryInterface)
    ensures
        factory_guid(interface) == (Guid {
            data1: 0x7b7166ec,
            data2: 0x21c7,
            data3: 0x44ae,
            data4: 0xb21a_c9ae321ae369,
        }) <==> interface is Base,
        factory_guid(interface) == (Guid {
            data1: 0x770aae78,
            data2: 0xf26f,
            data3: 0x4dba,
            data4: 0xa829_253c83d1b387,
        }) <==> interface is V1,
        factory_guid(interface) == (Guid {
            data1: 0x50c83a1c,
            data2: 0xe072,
            data3: 0x4c48,
            data4: 0x87b0_3630fa36a6d0,
        }) <==> interface is V2,
        factory_guid(interface) == (Guid {
            data1: 0x25483823,
            data2: 0xcd46,
            data3: 0x4c7d,
            data4: 0x86ca_47aa95b837bd,
        }) <==> interface is V3,
        factory_guid(interface) == (Guid {
            data1: 0x1bc6ea02,
            data2: 0xef36,
            data3: 0x464f,
            data4: 0xbf0c_21ca39e5168a,
        }) <==> interface is V4,
        factory_guid(interface) == (Guid {
            data1: 0x7632e1f5,
            data2: 0xee65,
            data3: 0x4dca,
            data4: 0x87fd_84cd75f8838d,
        }) <==> interface is V5,
        factory_guid(interface) == (Guid {
            data1: 0xc1b6694f,
            data2: 0xff09,
            data3: 0x44a9,
            data4: 0xb03c_77900a0a1d17,
        }) <==> interface is V6,
        factory_guid(interface) == (Guid {
            data1: 0xa4966eed,
            data2: 0x76db,
            data3: 0x44da,
            data4: 0x84c1_ee9a7afb20a8,
        }) <==> interface is V7,
        factory_guid(interface) == (Guid {
            data1: 0x41e7d1f2,
            data2: 0xa591,
            data3: 0x4f7b,
            data4: 0xa2e5_fa9c843e1c12,
        }) <==> interface is Media,
{
}

/// Every swap-chain layout is known by its own interface identifier.
pub proof fn law_each_swap_chain_has_its_identifier(interface: SwapChainInterface)
    ensures
        swap_chain_guid(interface) == (Guid {
            data1: 0x310d36a0,
            data2: 0xd2e7,
            data3: 0x4c0a,
            data4: 0xaa04_6a9d23b8886a,
        }) <==> interface is Base,
        swap_chain_guid(interface) == (Guid {
            data1: 0x790a45f7,
            data2: 0x0d42,
            data3: 0x4876,
            data4: 0x983a_0a55cfe6f4aa,
        }) <==> interface is V1,
        swap_chain_guid(interface) == (Guid {
            data1: 0xa8be2ac4,
            data2: 0x199f,
            data3: 0x4946,
            data4: 0xb331_79599fb98de7,
        }) <==> interface is V2,
        swap_chain_guid(interface) == (Guid {
            data1: 0x94d99bdb,
            data2: 0xf1f8,
            data3: 0x4ab0,
            data4: 0xb236_7da0170edab1,
        }) <==> interface is V3,
        swap_chain_guid(interface) == (Guid {
            data1: 0x3d585d5a,
            data2: 0xbd4a,
            data3: 0x489e,
            data4: 0xb1f4_3dbcb6452ffb,
        }) <==> interface is V4,
{
}

/// Layouts are asked for from the newest to the oldest, every revision once.
pub proof fn law_newer_layouts_are_asked_for_first(i: int)
    ensures
        factory_revisions().len() == 8,
        swap_chain_revisions().len() == 5,
        0 <= i < 8 ==> {
            &&& factory_revisions()[i] is V7 <==> i == 0
            &&& factory_revisions()[i] is V6 <==> i == 1
            &&& factory_revisions()[i] is V5 <==> i == 2
            &&& factory_revisions()[i] is V4 <==> i == 3
            &&& factory_revisions()[i] is V3 <==> i == 4
            &&& factory_revisions()[i] is V2 <==> i == 5
            &&& factory_revisions()[i] is V1 <==> i == 6
            &&& factory_revisions()[i] is Base <==> i == 7
        },
        0 <= i < 5 ==> {
            &&& swap_chain_revisions()[i] is V4 <==> i == 0
            &&& swap_chain_revisions()[i] is V3 <==> i == 1
            &&& swap_chain_revisions()[i] is V2 <==> i == 2
            &&& swap_chain_revisions()[i] is V1 <==> i == 3
            &&& swap_chain_revisions()[i] is Base <==> i == 4
        },
{
}

/// A query succeeds exactly where its status does and an object with methods
/// came back, and it hands that object on. A failed status is kept.
pub proof fn law_queries_need_an_object(reply: QueryReply)
    ensures
        queried(reply) is Ok <==> reply.result >= 0 && reply.output != 0 && reply.has_vtable,
        queried(reply) matches Ok(pointer) ==> pointer == reply.output,
        reply.result < 0 ==> queried(reply) == Err::<usize, i32>(reply.result),
        reply.result >= 0 && queried(reply) is Err ==> queried(reply) == Err::<usize, i32>(
            (-0x7fff_bffe) as i32,
        ),
{
}

/// What the native queries told of a chain is found in its metadata under the
/// same name. Without a window the chain counts as visible and never as in
/// front. The base layout names its window in the description, and every later
/// layout has a query of its own for it.
pub proof fn law_metadata_is_what_the_queries_told(
    interface: SwapChainInterface,
    pointer: usize,
    report: InspectionReport,
)
    ensures
        inspection(interface, pointer, report) is Ok <==> pointer != 0 && report.description is Ok
            && report.device_identity is Ok && report.adapter_luid is Ok,
        inspection(interface, pointer, report) matches Ok(metadata) ==> {
            let description = report.description->Ok_0;
            &&& metadata.size.width == description.width
            &&& metadata.size.height == description.height
            &&& metadata.format == format_of(description.format)
            &&& metadata.device_identity == report.device_identity->Ok_0
            &&& metadata.adapter_luid.low == report.adapter_luid->Ok_0.low
            &&& metadata.adapter_luid.high == report.adapter_luid->Ok_0.high
            &&& metadata.hwnd is None ==> metadata.window_visible && !metadata.foreground
            &&& metadata.hwnd matches Some(window) ==> {
                &&& window != 0
                &&& metadata.window_visible == report.is_window_visible
                &&& metadata.foreground <==> window == report.foreground_window
            }
            &&& interface is Base ==> (metadata.hwnd is Some <==> description.output_window != 0)
            &&& interface is Base && metadata.hwnd is Some ==> metadata.hwnd == Some(
                description.output_window,
            )
            &&& !(interface is Base) ==> (metadata.hwnd is Some <==> report.window is Some
                && report.window->0 != 0)
            &&& !(interface is Base) && metadata.hwnd is Some ==> metadata.hwnd == report.window
        },
        pointer != 0 && report.description is Err ==> inspection(interface, pointer, report)
            == Err::<NativeMetadata, i32>(report.description->Err_0),
        pointer != 0 && report.description is Ok && report.device_identity is Err ==> inspection(
            interface,
            pointer,
            report,
        ) == Err::<NativeMetadata, i32>(report.device_identity->Err_0),
        pointer != 0 && report.description is Ok && report.device_identity is Ok
            && report.adapter_luid is Err ==> inspection(interface, pointer, report) == Err::<
            NativeMetadata,
            i32,
        >(report.adapter_luid->Err_0),
{
}

/// Each named format has one native number, and every other number is kept.
pub proof fn law_each_format_has_its_number(format: i32)
    ensures
        format_of(format) is Rgba8Unorm <==> format == 28,
        format_of(format) is Rgba8UnormSrgb <==> format == 29,
        format_of(format) is Bgra8Unorm <==> format == 87,
        format_of(format) is Bgra8UnormSrgb <==> format == 91,
        format_of(format) is Rgb10A2Unorm <==> format == 24,
        format_of(format) is Rgba16Float <==> format == 10,
        format_of(format) matches SurfaceFormat::Other(number) ==> number == format || number
            == format + 0x1_0000_0000,
{
}

/// Each named color space has one native number, and every other number is kept.
pub proof fn law_each_color_space_has_its_number(value: i32)
    ensures
        color_space_of(value) is Srgb <==> value == 0,
        color_space_of(value) is ScRgbLinear <==> value == 1,
        color_space_of(value) is Hdr10Pq <==> value == 12,
        color_space_of(value) matches ColorSpace::Other(number) ==> number == value || number
            == value + 0x1_0000_0000,
{
}

/// Occlusion and the two ways of losing a device have a result of their own;
/// every other result is a success or a failure by its sign, and a failure
/// keeps its number.
pub proof fn law_each_disposition_has_its_result(result: i32)
    ensures
        disposition_of(result) is Occluded <==> result == 0x087a_0001,
        disposition_of(result) is DeviceRemoved <==> result + 0x1_0000_0000 == 0x887a_0005,
        disposition_of(result) is DeviceReset <==> result + 0x1_0000_0000 == 0x887a_0007,
        disposition_of(result) is Success <==> result >= 0 && result != 0x087a_0001,
        disposition_of(result) is Other ==> result < 0 && disposition_of(result)
            == HResultDisposition::Other(result),
{
}

} // verus!
