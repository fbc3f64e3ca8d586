//! Capturing and restoring the whole D3D11 pipeline.
//!
//! The native getters and setters stay outside. What a getter wrote is read
//! into owned handles here, and what has to be set again is returned as a list
//! of setter calls in the order in which they are made. Interface pointers are
//! addresses, zero where a slot is empty, and floating-point values are carried
//! as their bit patterns.
use vstd::prelude::*;
use crate::d3d11::error::E_POINTER;
use crate::text::{hexadecimal, owned, Message};

verus! {

/// Constant-buffer slots of a shader stage.
pub const COMMONSHADER_CONSTANT_BUFFER_SLOTS: usize = 14;

/// Shader-resource slots of a shader stage.
pub const COMMONSHADER_INPUT_RESOURCE_SLOTS: usize = 128;

/// Sampler slots of a shader stage.
pub const COMMONSHADER_SAMPLER_SLOTS: usize = 16;

/// Class instances that a shader stage can hold.
pub const SHADER_MAX_CLASS_INSTANCES: usize = 256;

/// Vertex-buffer slots of the input assembler.
pub const IA_VERTEX_BUFFER_SLOTS: usize = 32;

/// Render-target slots of the output merger.
pub const OM_RENDER_TARGET_SLOTS: usize = 8;

/// Unordered-access slots of every device.
pub const PS_CS_UAV_SLOTS: usize = 8;

/// Unordered-access slots from feature level 11.1 on.
pub const EXTENDED_UAV_SLOTS: usize = 64;

/// Stream-output slots.
pub const SO_BUFFER_SLOTS: usize = 4;

/// Viewports and scissor rectangles that the rasterizer can hold.
pub const RASTERIZER_MAX_RECTS: usize = 16;

/// Initial counter that keeps the counter of an unordered access view.
pub const KEEP_UAV_COUNTER: u32 = u32::MAX;

/// The type of an immediate device context.
pub const IMMEDIATE_CONTEXT: u32 = 0;

/// Feature level 11.1.
pub const FEATURE_LEVEL_11_1: i32 = 0xb100;

/// The part of a constant buffer that a slot sees.
#[derive(Clone, Copy, Debug, PartialEq, Eq, Structural)]
pub struct ConstantRange {
    /// First constant.
    pub first: u32,
    /// Number of constants.
    pub count: u32,
}

/// Type-erased owned COM reference captured from the D3D11 pipeline.
///
/// The constant-buffer range is retained when the immediate context supports
/// range getters. The address is neither printed nor public.
#[derive(Clone, Copy, PartialEq, Eq, Structural)]
pub struct PipelineHandle {
    address: usize,
    constant_range: Option<ConstantRange>,
}

/// The handle that owns what a getter wrote, if it wrote anything.
pub closed spec fn owned_handle(address: usize, range: Option<ConstantRange>) -> Option<
    PipelineHandle,
> {
    if address == 0 {
        None
    } else {
        Some(PipelineHandle { address, constant_range: range })
    }
}

/// The handles that own what a getter wrote.
pub open spec fn owned_handles(addresses: Seq<usize>) -> Seq<Option<PipelineHandle>> {
    Seq::new(addresses.len(), |i: int| owned_handle(addresses[i], None))
}

/// The handles that own the constant buffers that a getter wrote.
pub open spec fn owned_buffers(addresses: Seq<usize>, ranges: Option<Seq<ConstantRange>>) -> Seq<
    Option<PipelineHandle>,
> {
    Seq::new(
        addresses.len(),
        |i: int|
            owned_handle(
                addresses[i],
                match ranges {
                    Some(ranges) => Some(ranges[i]),
                    None => None,
                },
            ),
    )
}

/// The address behind a handle, zero if there is none.
pub closed spec fn raw(handle: Option<PipelineHandle>) -> usize {
    match handle {
        Some(handle) => handle.address,
        None => 0,
    }
}

/// The addresses behind handles.
pub open spec fn raws(handles: Seq<Option<PipelineHandle>>) -> Seq<usize> {
    Seq::new(handles.len(), |i: int| raw(handles[i]))
}

/// The constant-buffer range behind a handle, if it has one.
pub closed spec fn range_of(handle: Option<PipelineHandle>) -> Option<ConstantRange> {
    match handle {
        Some(handle) => handle.constant_range,
        None => None,
    }
}

/// A handle owns exactly the address that it was made of, with its range, and
/// an empty slot owns nothing.
pub proof fn lemma_handle_keeps_its_address(address: usize, range: Option<ConstantRange>)
    ensures
        raw(owned_handle(address, range)) == address,
        owned_handle(address, range) is None <==> address == 0,
        address != 0 ==> range_of(owned_handle(address, range)) == range,
{
}

/// Nothing stands behind a missing handle.
pub proof fn lemma_no_handle()
    ensures
        raw(None) == 0,
        range_of(None) is None,
{
}

fn own_handle(address: usize, range: Option<ConstantRange>) -> (handle: Option<PipelineHandle>)
    ensures
        handle == owned_handle(address, range),
{
    if address == 0 {
        None
    } else {
        Some(PipelineHandle { address, constant_range: range })
    }
}

fn own_handles(addresses: &[usize]) -> (handles: Vec<Option<PipelineHandle>>)
    ensures
        handles@ == owned_handles(addresses@),
{
    let mut handles: Vec<Option<PipelineHandle>> = Vec::new();
    let mut i: usize = 0;
    while i < addresses.len()
        invariant
            i <= addresses@.len(),
            handles@ == owned_handles(addresses@.take(i as int)),
        decreases addresses@.len() - i,
    {
        handles.push(own_handle(addresses[i], None));
        i = i + 1;
        proof {
            assert(handles@ =~= owned_handles(addresses@.take(i as int)));
        }
    }
    proof {
        assert(addresses@.take(addresses@.len() as int) =~= addresses@);
    }
    handles
}

/// Returns the address behind a handle, zero if there is none.
pub fn raw_optional(handle: &Option<PipelineHandle>) -> (address: usize)
    ensures
        address == raw(*handle),
{
    match handle {
        Some(handle) => handle.address,
        None => 0,
    }
}

/// Returns the addresses behind handles.
pub fn raw_array(handles: &Vec<Option<PipelineHandle>>) -> (addresses: Vec<usize>)
    ensures
        addresses@ == raws(handles@),
{
    let mut addresses: Vec<usize> = Vec::new();
    let mut i: usize = 0;
    while i < handles.len()
        invariant
            i <= handles@.len(),
            addresses@ == raws(handles@.take(i as int)),
        decreases handles@.len() - i,
    {
        addresses.push(raw_optional(&handles[i]));
        i = i + 1;
        proof {
            assert(addresses@ =~= raws(handles@.take(i as int)));
        }
    }
    proof {
        assert(handles@.take(handles@.len() as int) =~= handles@);
    }
    addresses
}

/// The pointer that stands for a slice in a native call: null if it is empty.
pub fn pointer_or_null<T>(slice: &[T], address: usize) -> (pointer: usize)
    ensures
        pointer == (if slice@.len() == 0 {
            0
        } else {
            address
        }),
{
    if slice.len() == 0 {
        0
    } else {
        address
    }
}

/// The number of slots up to and including the last one that is bound.
pub open spec fn bound_slots(handles: Seq<Option<PipelineHandle>>) -> nat
    decreases handles.len(),
{
    if handles.len() == 0 {
        0
    } else if handles.last() is Some {
        handles.len()
    } else {
        bound_slots(handles.drop_last())
    }
}

/// Returns the number of slots up to and including the last one that is bound.
pub fn last_bound_slot(handles: &Vec<Option<PipelineHandle>>) -> (count: usize)
    ensures
        count == bound_slots(handles@),
        count <= handles@.len(),
        count > 0 ==> handles@[count - 1] is Some,
        forall|i: int| count <= i < handles@.len() ==> #[trigger] handles@[i] is None,
{
    let mut count: usize = handles.len();
    proof {
        assert(handles@.take(handles@.len() as int) =~= handles@);
    }
    while count > 0 && handles[count - 1].is_none()
        invariant
            count <= handles@.len(),
            bound_slots(handles@) == bound_slots(handles@.take(count as int)),
            forall|i: int| count <= i < handles@.len() ==> #[trigger] handles@[i] is None,
        decreases count,
    {
        proof {
            assert(handles@.take(count as int).drop_last() =~= handles@.take(count - 1));
        }
        count = count - 1;
    }
    proof {
        let rest = handles@.take(count as int);
        if count > 0 {
            assert(rest.last() == handles@[count - 1]);
        }
    }
    count
}

/// Closed failures produced by exhaustive state capture or restoration.
#[derive(Clone, Copy, Debug, PartialEq, Eq, Structural)]
pub enum StateBackendError {
    /// The supplied context is not an immediate context.
    DeferredContext,
    /// A COM query returned a failing HRESULT.
    Interface(i32),
    /// A driver reported a state count larger than the SDK maximum.
    InvalidReportedCount,
    /// Stream-output targets are bound and their byte offsets are unobservable.
    StreamOutputOffsetsUnobservable,
    /// A captured handle was used in an incompatible pipeline section.
    IncompatibleHandle,
    /// Extended UAV capture data was unavailable during restoration.
    ExtendedUavStateUnavailable,
}

impl StateBackendError {
    /// The message of the failure.
    pub open spec fn text(self) -> Seq<char> {
        match self {
            Self::DeferredContext => "the D3D11 renderer requires an immediate device context"@,
            Self::Interface(code) => "a D3D11 interface query failed with HRESULT "@ + hexadecimal(
                code as u32,
            ),
            Self::InvalidReportedCount => {
                "a D3D11 getter reported a count above its SDK capacity"@
            },
            Self::StreamOutputOffsetsUnobservable => {
                "bound stream-output offsets are not observable through D3D11"@
            },
            Self::IncompatibleHandle => "a captured D3D11 handle has incompatible metadata"@,
            Self::ExtendedUavStateUnavailable => "extended D3D11 UAV state is unavailable"@,
        }
    }

    /// Formats the failure for diagnostics.
    pub fn to_string(&self) -> (text: String)
        ensures
            text@ == self.text(),
    {
        match *self {
            Self::DeferredContext => owned(
                "the D3D11 renderer requires an immediate device context",
            ),
            Self::Interface(code) => {
                let mut message = Message::new();
                message.text("a D3D11 interface query failed with HRESULT ");
                message.hexadecimal(code as u32);
                proof {
                    assert(message@ =~= self.text());
                }
                message.finish()
            },
            Self::InvalidReportedCount => owned(
                "a D3D11 getter reported a count above its SDK capacity",
            ),
            Self::StreamOutputOffsetsUnobservable => owned(
                "bound stream-output offsets are not observable through D3D11",
            ),
            Self::IncompatibleHandle => owned("a captured D3D11 handle has incompatible metadata"),
            Self::ExtendedUavStateUnavailable => owned("extended D3D11 UAV state is unavailable"),
        }
    }
}

/// Programmable stage of the pipeline.
#[derive(Clone, Copy, Debug, PartialEq, Eq, Structural)]
pub enum ShaderStage {
    /// Vertex shader.
    Vertex,
    /// Hull shader.
    Hull,
    /// Domain shader.
    Domain,
    /// Geometry shader.
    Geometry,
    /// Pixel shader.
    Pixel,
    /// Compute shader.
    Compute,
}

/// What the shader getter of a stage wrote.
pub struct ShaderReading {
    /// Shader of the stage.
    pub shader: usize,
    /// Reported number of class instances.
    pub class_count: u32,
    /// Storage for as many class instances as a stage can hold.
    pub class_instances: Vec<usize>,
}

/// The captured shader of a stage.
pub struct CapturedShader {
    /// Shader of the stage.
    pub shader: Option<PipelineHandle>,
    /// Class instances of the shader.
    pub class_instances: Vec<Option<PipelineHandle>>,
}

/// A capture that was refused, with the references that it released.
pub struct RejectedCapture {
    /// Why the capture was refused.
    pub error: StateBackendError,
    /// References that a getter had handed out.
    pub released: Vec<usize>,
}

/// The addresses that are not null.
pub open spec fn bound(addresses: Seq<usize>) -> Seq<usize>
    decreases addresses.len(),
{
    if addresses.len() == 0 {
        Seq::empty()
    } else if addresses.last() == 0 {
        bound(addresses.drop_last())
    } else {
        bound(addresses.drop_last()).push(addresses.last())
    }
}

fn bound_addresses(addresses: &[usize], count: usize) -> (found: Vec<usize>)
    requires
        count <= addresses@.len(),
    ensures
        found@ == bound(addresses@.take(count as int)),
{
    let mut found: Vec<usize> = Vec::new();
    let mut i: usize = 0;
    while i < count
        invariant
            i <= count <= addresses@.len(),
            found@ == bound(addresses@.take(i as int)),
        decreases count - i,
    {
        proof {
            assert(addresses@.take(i + 1).drop_last() =~= addresses@.take(i as int));
        }
        if addresses[i] != 0 {
            found.push(addresses[i]);
        }
        i = i + 1;
    }
    found
}

/// Captures the shader of a stage.
pub fn capture_shader(reading: &ShaderReading) -> (captured: Result<CapturedShader, RejectedCapture>)
    requires
        reading.class_instances@.len() == SHADER_MAX_CLASS_INSTANCES,
    ensures
        match captured {
            Ok(captured) => {
                &&& reading.class_count <= SHADER_MAX_CLASS_INSTANCES
                &&& captured.shader == owned_handle(reading.shader, None)
                &&& captured.class_instances@ == owned_handles(
                    bound(reading.class_instances@.take(reading.class_count as int)),
                )
            },
            Err(rejected) => {
                &&& reading.class_count > SHADER_MAX_CLASS_INSTANCES
                &&& rejected.error == StateBackendError::InvalidReportedCount
                &&& rejected.released@ == bound(reading.class_instances@.push(reading.shader))
            },
        },
{
    if reading.class_count as usize > SHADER_MAX_CLASS_INSTANCES {
        let mut released = bound_addresses(
            reading.class_instances.as_slice(),
            reading.class_instances.len(),
        );
        proof {
            assert(reading.class_instances@.take(reading.class_instances@.len() as int)
                =~= reading.class_instances@);
            assert(reading.class_instances@.push(reading.shader).drop_last()
                =~= reading.class_instances@);
        }
        if reading.shader != 0 {
            released.push(reading.shader);
        }
        return Err(
            RejectedCapture { error: StateBackendError::InvalidReportedCount, released },
        );
    }
    let classes = bound_addresses(
        reading.class_instances.as_slice(),
        reading.class_count as usize,
    );
    Ok(
        CapturedShader {
            shader: own_handle(reading.shader, None),
            class_instances: own_handles(classes.as_slice()),
        },
    )
}

/// What the binding getters of a stage wrote.
pub struct StageReading {
    /// Constant buffers.
    pub constant_buffers: Vec<usize>,
    /// Ranges of the constant buffers, where the context supports them.
    pub ranges: Option<Vec<ConstantRange>>,
    /// Shader resources.
    pub shader_resources: Vec<usize>,
    /// Samplers.
    pub samplers: Vec<usize>,
}

/// The view of optional ranges.
pub open spec fn ranges_view(ranges: Option<Vec<ConstantRange>>) -> Option<Seq<ConstantRange>> {
    match ranges {
        Some(ranges) => Some(ranges@),
        None => None,
    }
}

impl StageReading {
    /// Every slot of the stage was read.
    pub open spec fn complete(self) -> bool {
        &&& self.constant_buffers@.len() == COMMONSHADER_CONSTANT_BUFFER_SLOTS
        &&& self.ranges matches Some(ranges) ==> ranges@.len() == COMMONSHADER_CONSTANT_BUFFER_SLOTS
        &&& self.shader_resources@.len() == COMMONSHADER_INPUT_RESOURCE_SLOTS
        &&& self.samplers@.len() == COMMONSHADER_SAMPLER_SLOTS
    }
}

/// Captured state of one programmable stage.
pub struct ProgrammableStageState {
    /// Shader of the stage.
    pub shader: Option<PipelineHandle>,
    /// Class instances of the shader.
    pub class_instances: Vec<Option<PipelineHandle>>,
    /// Constant buffers.
    pub constant_buffers: Vec<Option<PipelineHandle>>,
    /// Shader resources.
    pub shader_resources: Vec<Option<PipelineHandle>>,
    /// Samplers.
    pub samplers: Vec<Option<PipelineHandle>>,
}

/// Captures one programmable stage.
pub fn capture_stage(captured: CapturedShader, reading: &StageReading) -> (state:
    ProgrammableStageState)
    requires
        reading.complete(),
    ensures
        state.shader == captured.shader,
        state.class_instances@ == captured.class_instances@,
        state.constant_buffers@ == owned_buffers(
            reading.constant_buffers@,
            ranges_view(reading.ranges),
        ),
        state.shader_resources@ == owned_handles(reading.shader_resources@),
        state.samplers@ == owned_handles(reading.samplers@),
{
    ProgrammableStageState {
        shader: captured.shader,
        class_instances: captured.class_instances,
        constant_buffers: capture_constant_buffers(reading),
        shader_resources: own_handles(reading.shader_resources.as_slice()),
        samplers: own_handles(reading.samplers.as_slice()),
    }
}

fn capture_constant_buffers(reading: &StageReading) -> (handles: Vec<Option<PipelineHandle>>)
    requires
        reading.complete(),
    ensures
        handles@ == owned_buffers(reading.constant_buffers@, ranges_view(reading.ranges)),
{
    let mut handles: Vec<Option<PipelineHandle>> = Vec::new();
    let mut i: usize = 0;
    while i < reading.constant_buffers.len()
        invariant
            reading.complete(),
            i <= reading.constant_buffers@.len(),
            handles@ == owned_buffers(
                reading.constant_buffers@.take(i as int),
                ranges_view(reading.ranges),
            ),
        decreases reading.constant_buffers@.len() - i,
    {
        let range = match &reading.ranges {
            Some(ranges) => Some(ranges[i]),
            None => None,
        };
        handles.push(own_handle(reading.constant_buffers[i], range));
        i = i + 1;
        proof {
            assert(handles@ =~= owned_buffers(
                reading.constant_buffers@.take(i as int),
                ranges_view(reading.ranges),
            ));
        }
    }
    proof {
        assert(reading.constant_buffers@.take(reading.constant_buffers@.len() as int)
            =~= reading.constant_buffers@);
    }
    handles
}

/// Viewport, its numbers as bit patterns.
#[derive(Clone, Copy, Debug, PartialEq, Eq, Structural)]
pub struct Viewport {
    /// Left edge.
    pub top_left_x: u32,
    /// Top edge.
    pub top_left_y: u32,
    /// Width.
    pub width: u32,
    /// Height.
    pub height: u32,
    /// Least depth.
    pub min_depth: u32,
    /// Greatest depth.
    pub max_depth: u32,
}

/// Scissor rectangle.
#[derive(Clone, Copy, Debug, PartialEq, Eq, Structural)]
pub struct Rect {
    /// Left edge.
    pub left: i32,
    /// Top edge.
    pub top: i32,
    /// Right edge.
    pub right: i32,
    /// Bottom edge.
    pub bottom: i32,
}

/// What the getters of the output merger wrote.
pub struct OutputMergerReading {
    /// Render targets.
    pub render_targets: Vec<usize>,
    /// Depth/stencil view.
    pub depth_stencil_view: usize,
    /// Unordered access views, all that the device has.
    pub unordered_access_views: Vec<usize>,
    /// Blend state.
    pub blend_state: usize,
    /// Blend factor.
    pub blend_factor: [u32; 4],
    /// Sample mask.
    pub sample_mask: u32,
    /// Depth/stencil state.
    pub depth_stencil_state: usize,
    /// Stencil reference.
    pub stencil_reference: u32,
}

/// Captured state of the output merger.
pub struct OutputMergerState {
    /// Render targets.
    pub render_targets: Vec<Option<PipelineHandle>>,
    /// Depth/stencil view.
    pub depth_stencil_view: Option<PipelineHandle>,
    /// The unordered access views that every device has.
    pub unordered_access_views: Vec<Option<PipelineHandle>>,
    /// Blend state.
    pub blend_state: Option<PipelineHandle>,
    /// Blend factor.
    pub blend_factor: [u32; 4],
    /// Sample mask.
    pub sample_mask: u32,
    /// Depth/stencil state.
    pub depth_stencil_state: Option<PipelineHandle>,
    /// Stencil reference.
    pub stencil_reference: u32,
}

/// What the getters of the input assembler wrote.
pub struct InputAssemblerReading {
    /// Input layout.
    pub input_layout: usize,
    /// Vertex buffers.
    pub vertex_buffers: Vec<usize>,
    /// Strides of the vertex buffers.
    pub strides: Vec<u32>,
    /// Offsets of the vertex buffers.
    pub offsets: Vec<u32>,
    /// Index buffer.
    pub index_buffer: usize,
    /// Format of the indices.
    pub index_format: u32,
    /// Offset of the index buffer.
    pub index_offset: u32,
    /// Primitive topology.
    pub primitive_topology: u32,
}

/// Captured state of the input assembler.
pub struct InputAssemblerState {
    /// Input layout.
    pub input_layout: Option<PipelineHandle>,
    /// Vertex buffers.
    pub vertex_buffers: Vec<Option<PipelineHandle>>,
    /// Strides of the vertex buffers.
    pub strides: Vec<u32>,
    /// Offsets of the vertex buffers.
    pub offsets: Vec<u32>,
    /// Index buffer.
    pub index_buffer: Option<PipelineHandle>,
    /// Format of the indices.
    pub index_format: u32,
    /// Offset of the index buffer.
    pub index_offset: u32,
    /// Primitive topology.
    pub primitive_topology: u32,
}

/// Captures the input assembler.
pub fn capture_input_assembler(reading: InputAssemblerReading) -> (state: InputAssemblerState)
    ensures
        state.input_layout == owned_handle(reading.input_layout, None),
        state.vertex_buffers@ == owned_handles(reading.vertex_buffers@),
        state.strides@ == reading.strides@,
        state.offsets@ == reading.offsets@,
        state.index_buffer == owned_handle(reading.index_buffer, None),
        state.index_format == reading.index_format,
        state.index_offset == reading.index_offset,
        state.primitive_topology == reading.primitive_topology,
{
    InputAssemblerState {
        input_layout: own_handle(reading.input_layout, None),
        vertex_buffers: own_handles(reading.vertex_buffers.as_slice()),
        strides: reading.strides,
        offsets: reading.offsets,
        index_buffer: own_handle(reading.index_buffer, None),
        index_format: reading.index_format,
        index_offset: reading.index_offset,
        primitive_topology: reading.primitive_topology,
    }
}

/// Captured state of the rasterizer.
pub struct RasterizerState {
    /// Rasterizer state.
    pub state: Option<PipelineHandle>,
    /// Viewports.
    pub viewports: Vec<Viewport>,
    /// Scissor rectangles.
    pub scissor_rects: Vec<Rect>,
}

/// Whether the rasterizer can hold this many viewports and rectangles.
pub open spec fn counts_fit(viewports: u32, rects: u32) -> bool {
    viewports <= RASTERIZER_MAX_RECTS && rects <= RASTERIZER_MAX_RECTS
}

/// Checks the reported counts of the rasterizer, whose state was handed out,
/// before its arrays are read.
pub fn accept_rasterizer_counts(state: usize, viewports: u32, rects: u32) -> (accepted: Result<
    (),
    RejectedCapture,
>)
    ensures
        match accepted {
            Ok(_) => counts_fit(viewports, rects),
            Err(rejected) => {
                &&& !counts_fit(viewports, rects)
                &&& rejected.error == StateBackendError::InvalidReportedCount
                &&& rejected.released@ == bound(seq![state])
            },
        },
{
    if viewports as usize > RASTERIZER_MAX_RECTS || rects as usize > RASTERIZER_MAX_RECTS {
        let mut held: Vec<usize> = Vec::new();
        held.push(state);
        proof {
            assert(held@.take(1) =~= seq![state]);
        }
        return Err(
            RejectedCapture {
                error: StateBackendError::InvalidReportedCount,
                released: bound_addresses(held.as_slice(), 1),
            },
        );
    }
    Ok(())
}

/// Captures the rasterizer.
pub fn capture_rasterizer(state: usize, viewports: Vec<Viewport>, scissor_rects: Vec<Rect>) -> (captured:
    RasterizerState)
    ensures
        captured.state == owned_handle(state, None),
        captured.viewports@ == viewports@,
        captured.scissor_rects@ == scissor_rects@,
{
    RasterizerState { state: own_handle(state, None), viewports, scissor_rects }
}

/// Byte offsets of the stream-output targets.
pub enum StreamOutputOffsets {
    /// Offsets that are known.
    Known(Vec<u32>),
    /// Offsets that cannot be known.
    Unobservable,
}

/// Captured state of stream output.
pub struct StreamOutputState {
    /// Targets.
    pub targets: Vec<Option<PipelineHandle>>,
    /// Offsets of the targets.
    pub offsets: StreamOutputOffsets,
}

/// No slot is bound.
pub open spec fn unbound(addresses: Seq<usize>) -> bool {
    forall|i: int| 0 <= i < addresses.len() ==> #[trigger] addresses[i] == 0
}

/// Captures stream output. A bound target is refused, because its byte offset
/// cannot be read.
pub fn capture_stream_output(targets: &Vec<usize>) -> (captured: Result<
    StreamOutputState,
    RejectedCapture,
>)
    requires
        targets@.len() == SO_BUFFER_SLOTS,
    ensures
        match captured {
            Ok(state) => {
                &&& unbound(targets@)
                &&& state.targets@ == owned_handles(targets@)
                &&& state.offsets matches StreamOutputOffsets::Known(offsets) && offsets@ == seq![
                    0u32,
                    0u32,
                    0u32,
                    0u32,
                ]
            },
            Err(rejected) => {
                &&& !unbound(targets@)
                &&& rejected.error == StateBackendError::StreamOutputOffsetsUnobservable
                &&& rejected.released@ == bound(targets@)
            },
        },
{
    let handles = own_handles(targets.as_slice());
    let mut i: usize = 0;
    while i < handles.len()
        invariant
            i <= handles@.len(),
            handles@ == owned_handles(targets@),
            forall|j: int| 0 <= j < i ==> #[trigger] targets@[j] == 0,
        decreases handles@.len() - i,
    {
        if handles[i].is_some() {
            proof {
                assert(targets@[i as int] != 0);
                assert(targets@.take(targets@.len() as int) =~= targets@);
            }
            return Err(
                RejectedCapture {
                    error: StateBackendError::StreamOutputOffsetsUnobservable,
                    released: bound_addresses(targets.as_slice(), targets.len()),
                },
            );
        }
        i = i + 1;
    }
    let mut offsets: Vec<u32> = Vec::new();
    offsets.push(0);
    offsets.push(0);
    offsets.push(0);
    offsets.push(0);
    proof {
        assert(offsets@ =~= seq![0u32, 0u32, 0u32, 0u32]);
    }
    Ok(StreamOutputState { targets: handles, offsets: StreamOutputOffsets::Known(offsets) })
}

/// Captured state of predication.
pub struct PredicationState {
    /// Predicate.
    pub predicate: Option<PipelineHandle>,
    /// Value under which drawing is skipped.
    pub value: bool,
}

/// Captures predication.
pub fn capture_predication(predicate: usize, value: bool) -> (state: PredicationState)
    ensures
        state.predicate == owned_handle(predicate, None),
        state.value == value,
{
    PredicationState { predicate: own_handle(predicate, None), value }
}

/// Captured state of the compute stage.
pub struct ComputeState {
    /// The stage.
    pub stage: ProgrammableStageState,
    /// The unordered access views that every device has.
    pub unordered_access_views: Vec<Option<PipelineHandle>>,
}

/// One setter call.
pub enum PipelineCommand {
    /// Set the shader of a stage and its class instances.
    SetShader {
        /// Stage.
        stage: ShaderStage,
        /// Shader.
        shader: usize,
        /// Class instances.
        classes: Vec<usize>,
    },
    /// Set the constant buffers of a stage, with their ranges where the context
    /// supports them.
    SetConstantBuffers {
        /// Stage.
        stage: ShaderStage,
        /// Constant buffers.
        buffers: Vec<usize>,
        /// Ranges.
        ranges: Option<Vec<ConstantRange>>,
    },
    /// Set the shader resources of a stage.
    SetShaderResources {
        /// Stage.
        stage: ShaderStage,
        /// Shader resources.
        views: Vec<usize>,
    },
    /// Set the samplers of a stage.
    SetSamplers {
        /// Stage.
        stage: ShaderStage,
        /// Samplers.
        samplers: Vec<usize>,
    },
    /// Set the render targets, and the unordered access views from the slot
    /// after the last target on.
    SetTargets {
        /// Render targets.
        targets: Vec<usize>,
        /// Depth/stencil view.
        depth_stencil: usize,
        /// Unordered access views.
        views: Vec<usize>,
        /// Initial counters of the views.
        counters: Vec<u32>,
    },
    /// Set the blend state.
    SetBlendState {
        /// Blend state.
        state: usize,
        /// Blend factor.
        factor: [u32; 4],
        /// Sample mask.
        mask: u32,
    },
    /// Set the depth/stencil state.
    SetDepthStencilState {
        /// Depth/stencil state.
        state: usize,
        /// Stencil reference.
        reference: u32,
    },
    /// Set the input layout.
    SetInputLayout {
        /// Input layout.
        layout: usize,
    },
    /// Set the vertex buffers.
    SetVertexBuffers {
        /// Vertex buffers.
        buffers: Vec<usize>,
        /// Strides.
        strides: Vec<u32>,
        /// Offsets.
        offsets: Vec<u32>,
    },
    /// Set the index buffer.
    SetIndexBuffer {
        /// Index buffer.
        buffer: usize,
        /// Format.
        format: u32,
        /// Offset.
        offset: u32,
    },
    /// Set the primitive topology.
    SetTopology {
        /// Topology.
        topology: u32,
    },
    /// Set the rasterizer state.
    SetRasterizerState {
        /// Rasterizer state.
        state: usize,
    },
    /// Set the viewports.
    SetViewports {
        /// Viewports.
        viewports: Vec<Viewport>,
    },
    /// Set the scissor rectangles.
    SetScissorRects {
        /// Scissor rectangles.
        rects: Vec<Rect>,
    },
    /// Set the stream-output targets.
    SetStreamTargets {
        /// Targets.
        targets: Vec<usize>,
        /// Offsets.
        offsets: Vec<u32>,
    },
    /// Set the unordered access views of the compute stage.
    SetComputeViews {
        /// Unordered access views.
        views: Vec<usize>,
        /// Initial counters of the views.
        counters: Vec<u32>,
    },
    /// Set predication.
    SetPredication {
        /// Predicate.
        predicate: usize,
        /// Value under which drawing is skipped.
        value: bool,
    },
}

/// One setter call, in terms of sequences.
#[verifier::ext_equal]
pub enum Setter {
    /// See [`PipelineCommand::SetShader`].
    Shader { stage: ShaderStage, shader: usize, classes: Seq<usize> },
    /// See [`PipelineCommand::SetConstantBuffers`].
    ConstantBuffers {
        stage: ShaderStage,
        buffers: Seq<usize>,
        ranges: Option<Seq<ConstantRange>>,
    },
    /// See [`PipelineCommand::SetShaderResources`].
    ShaderResources { stage: ShaderStage, views: Seq<usize> },
    /// See [`PipelineCommand::SetSamplers`].
    Samplers { stage: ShaderStage, samplers: Seq<usize> },
    /// See [`PipelineCommand::SetTargets`].
    Targets { targets: Seq<usize>, depth_stencil: usize, views: Seq<usize>, counters: Seq<u32> },
    /// See [`PipelineCommand::SetBlendState`].
    BlendState { state: usize, factor: [u32; 4], mask: u32 },
    /// See [`PipelineCommand::SetDepthStencilState`].
    DepthStencilState { state: usize, reference: u32 },
    /// See [`PipelineCommand::SetInputLayout`].
    InputLayout { layout: usize },
    /// See [`PipelineCommand::SetVertexBuffers`].
    VertexBuffers { buffers: Seq<usize>, strides: Seq<u32>, offsets: Seq<u32> },
    /// See [`PipelineCommand::SetIndexBuffer`].
    IndexBuffer { buffer: usize, format: u32, offset: u32 },
    /// See [`PipelineCommand::SetTopology`].
    Topology { topology: u32 },
    /// See [`PipelineCommand::SetRasterizerState`].
    RasterizerState { state: usize },
    /// See [`PipelineCommand::SetViewports`].
    Viewports { viewports: Seq<Viewport> },
    /// See [`PipelineCommand::SetScissorRects`].
    ScissorRects { rects: Seq<Rect> },
    /// See [`PipelineCommand::SetStreamTargets`].
    StreamTargets { targets: Seq<usize>, offsets: Seq<u32> },
    /// See [`PipelineCommand::SetComputeViews`].
    ComputeViews { views: Seq<usize>, counters: Seq<u32> },
    /// See [`PipelineCommand::SetPredication`].
    Predication { predicate: usize, value: bool },
}

impl View for PipelineCommand {
    type V = Setter;

    open spec fn view(&self) -> Setter {
        match *self {
            Self::SetShader { stage, shader, classes } => Setter::Shader {
                stage,
                shader,
                classes: classes@,
            },
            Self::SetConstantBuffers { stage, buffers, ranges } => Setter::ConstantBuffers {
                stage,
                buffers: buffers@,
                ranges: ranges_view(ranges),
            },
            Self::SetShaderResources { stage, views } => Setter::ShaderResources {
                stage,
                views: views@,
            },
            Self::SetSamplers { stage, samplers } => Setter::Samplers { stage, samplers: samplers@ },
            Self::SetTargets { targets, depth_stencil, views, counters } => Setter::Targets {
                targets: targets@,
                depth_stencil,
                views: views@,
                counters: counters@,
            },
            Self::SetBlendState { state, factor, mask } => Setter::BlendState {
                state,
                factor,
                mask,
            },
            Self::SetDepthStencilState { state, reference } => Setter::DepthStencilState {
                state,
                reference,
            },
            Self::SetInputLayout { layout } => Setter::InputLayout { layout },
            Self::SetVertexBuffers { buffers, strides, offsets } => Setter::VertexBuffers {
                buffers: buffers@,
                strides: strides@,
                offsets: offsets@,
            },
            Self::SetIndexBuffer { buffer, format, offset } => Setter::IndexBuffer {
                buffer,
                format,
                offset,
            },
            Self::SetTopology { topology } => Setter::Topology { topology },
            Self::SetRasterizerState { state } => Setter::RasterizerState { state },
            Self::SetViewports { viewports } => Setter::Viewports { viewports: viewports@ },
            Self::SetScissorRects { rects } => Setter::ScissorRects { rects: rects@ },
            Self::SetStreamTargets { targets, offsets } => Setter::StreamTargets {
                targets: targets@,
                offsets: offsets@,
            },
            Self::SetComputeViews { views, counters } => Setter::ComputeViews {
                views: views@,
                counters: counters@,
            },
            Self::SetPredication { predicate, value } => Setter::Predication { predicate, value },
        }
    }
}

/// The calls of a list of commands.
pub open spec fn setters(commands: Seq<PipelineCommand>) -> Seq<Setter> {
    Seq::new(commands.len(), |i: int| commands[i]@)
}

/// What restoring one section does: the calls it makes, and how it fails if it
/// does.
pub struct Restoration {
    /// Calls, in order.
    pub commands: Vec<PipelineCommand>,
    /// Failure after those calls.
    pub failure: Option<StateBackendError>,
}

/// Calls and failure of a section's restoration, in terms of sequences.
#[verifier::ext_equal]
pub struct Plan {
    /// Calls, in order.
    pub calls: Seq<Setter>,
    /// Failure after those calls.
    pub failure: Option<StateBackendError>,
}

impl View for Restoration {
    type V = Plan;

    open spec fn view(&self) -> Plan {
        Plan { calls: setters(self.commands@), failure: self.failure }
    }
}

/// A bound constant buffer lacks its range.
pub open spec fn range_missing(handles: Seq<Option<PipelineHandle>>) -> bool {
    exists|i: int|
        0 <= i < handles.len() && (#[trigger] handles[i]) is Some && range_of(handles[i]) is None
}

/// The ranges to set with these constant buffers.
pub open spec fn ranges_to_set(handles: Seq<Option<PipelineHandle>>) -> Seq<ConstantRange> {
    Seq::new(
        handles.len(),
        |i: int|
            match range_of(handles[i]) {
                Some(range) => range,
                None => ConstantRange { first: 0, count: 0 },
            },
    )
}

/// How a programmable stage is restored, with or without constant ranges.
pub open spec fn stage_plan(ranged: bool, stage: ShaderStage, state: ProgrammableStageState) -> Plan {
    let set_shader = Setter::Shader {
        stage,
        shader: raw(state.shader),
        classes: raws(state.class_instances@),
    };
    if state.class_instances@.len() > u32::MAX {
        Plan { calls: Seq::empty(), failure: Some(StateBackendError::InvalidReportedCount) }
    } else if ranged && range_missing(state.constant_buffers@) {
        Plan {
            calls: seq![set_shader],
            failure: Some(StateBackendError::IncompatibleHandle),
        }
    } else {
        Plan {
            calls: seq![
                set_shader,
                Setter::ConstantBuffers {
                    stage,
                    buffers: raws(state.constant_buffers@),
                    ranges: if ranged {
                        Some(ranges_to_set(state.constant_buffers@))
                    } else {
                        None
                    },
                },
                Setter::ShaderResources { stage, views: raws(state.shader_resources@) },
                Setter::Samplers { stage, samplers: raws(state.samplers@) },
            ],
            failure: None,
        }
    }
}

/// As many equal counters as there are views.
pub open spec fn kept_counters(count: nat) -> Seq<u32> {
    Seq::new(count, |i: int| KEEP_UAV_COUNTER)
}

fn keep_counters(count: usize) -> (counters: Vec<u32>)
    ensures
        counters@ == kept_counters(count as nat),
{
    let mut counters: Vec<u32> = Vec::new();
    let mut i: usize = 0;
    while i < count
        invariant
            i <= count,
            counters@ == kept_counters(i as nat),
        decreases count - i,
    {
        counters.push(KEEP_UAV_COUNTER);
        i = i + 1;
        proof {
            assert(counters@ =~= kept_counters(i as nat));
        }
    }
    counters
}

/// Exhaustive backend for one immediate context.
///
/// Constant-buffer ranges are captured and restored where the context supports
/// them. Feature level 11.1 and newer captures all 64 unordered-access slots;
/// older devices capture the base eight.
pub struct ExhaustiveWindowsBackend {
    ranged: bool,
    uav_slots: usize,
    extended_om_uavs: Option<Vec<Option<PipelineHandle>>>,
    extended_cs_uavs: Option<Vec<Option<PipelineHandle>>>,
    drop_restore_failures: usize,
}

/// The handles of an optional list.
pub open spec fn handles_view(handles: Option<Vec<Option<PipelineHandle>>>) -> Option<
    Seq<Option<PipelineHandle>>,
> {
    match handles {
        Some(handles) => Some(handles@),
        None => None,
    }
}

/// All unordered access views of a device: the base ones and the extended ones.
pub open spec fn all_views(
    slots: usize,
    base: Seq<Option<PipelineHandle>>,
    extended: Option<Seq<Option<PipelineHandle>>>,
) -> Option<Seq<usize>> {
    if slots <= PS_CS_UAV_SLOTS {
        Some(raws(base))
    } else {
        match extended {
            Some(extended) => if extended.len() == slots - PS_CS_UAV_SLOTS {
                Some(raws(base) + raws(extended))
            } else {
                None
            },
            None => None,
        }
    }
}

/// How the output merger is restored.
pub open spec fn output_merger_plan(
    slots: usize,
    extended: Option<Seq<Option<PipelineHandle>>>,
    state: OutputMergerState,
) -> Plan {
    let count = bound_slots(state.render_targets@) as int;
    match all_views(slots, state.unordered_access_views@, extended) {
        None => Plan {
            calls: Seq::empty(),
            failure: Some(StateBackendError::ExtendedUavStateUnavailable),
        },
        Some(views) => if !unbound(views.take(count)) {
            Plan { calls: Seq::empty(), failure: Some(StateBackendError::IncompatibleHandle) }
        } else {
            Plan {
                calls: seq![
                    Setter::Targets {
                        targets: raws(state.render_targets@).take(count),
                        depth_stencil: raw(state.depth_stencil_view),
                        views: views.skip(count),
                        counters: kept_counters((slots - count) as nat),
                    },
                    Setter::BlendState {
                        state: raw(state.blend_state),
                        factor: state.blend_factor,
                        mask: state.sample_mask,
                    },
                    Setter::DepthStencilState {
                        state: raw(state.depth_stencil_state),
                        reference: state.stencil_reference,
                    },
                ],
                failure: None,
            }
        },
    }
}

/// How the unordered access views of the compute stage are restored.
pub open spec fn compute_outputs_plan(
    slots: usize,
    extended: Option<Seq<Option<PipelineHandle>>>,
    state: ComputeState,
) -> Plan {
    match all_views(slots, state.unordered_access_views@, extended) {
        None => Plan {
            calls: Seq::empty(),
            failure: Some(StateBackendError::ExtendedUavStateUnavailable),
        },
        Some(views) => Plan {
            calls: seq![Setter::ComputeViews { views, counters: kept_counters(slots as nat) }],
            failure: None,
        },
    }
}

/// How the input assembler is restored.
pub open spec fn input_assembler_plan(state: InputAssemblerState) -> Plan {
    Plan {
        calls: seq![
            Setter::InputLayout { layout: raw(state.input_layout) },
            Setter::VertexBuffers {
                buffers: raws(state.vertex_buffers@),
                strides: state.strides@,
                offsets: state.offsets@,
            },
            Setter::IndexBuffer {
                buffer: raw(state.index_buffer),
                format: state.index_format,
                offset: state.index_offset,
            },
            Setter::Topology { topology: state.primitive_topology },
        ],
        failure: None,
    }
}

/// How the rasterizer is restored.
pub open spec fn rasterizer_plan(state: RasterizerState) -> Plan {
    Plan {
        calls: seq![
            Setter::RasterizerState { state: raw(state.state) },
            Setter::Viewports { viewports: state.viewports@ },
            Setter::ScissorRects { rects: state.scissor_rects@ },
        ],
        failure: None,
    }
}

/// How stream output is restored.
pub open spec fn stream_output_plan(state: StreamOutputState) -> Plan {
    match state.offsets {
        StreamOutputOffsets::Known(offsets) => Plan {
            calls: seq![
                Setter::StreamTargets { targets: raws(state.targets@), offsets: offsets@ },
            ],
            failure: None,
        },
        StreamOutputOffsets::Unobservable => Plan {
            calls: Seq::empty(),
            failure: Some(StateBackendError::StreamOutputOffsetsUnobservable),
        },
    }
}

/// How predication is restored.
pub open spec fn predication_plan(state: PredicationState) -> Plan {
    Plan {
        calls: seq![Setter::Predication { predicate: raw(state.predicate), value: state.value }],
        failure: None,
    }
}

impl ExhaustiveWindowsBackend {
    /// Whether the context supports constant-buffer ranges.
    pub closed spec fn ranges_supported(self) -> bool {
        self.ranged
    }

    /// Unordered-access slots of the device.
    pub closed spec fn slots(self) -> usize {
        self.uav_slots
    }

    /// The extended views of the output merger, once captured.
    pub closed spec fn extended_output_views(self) -> Option<Seq<Option<PipelineHandle>>> {
        handles_view(self.extended_om_uavs)
    }

    /// The extended views of the compute stage, once captured.
    pub closed spec fn extended_compute_views(self) -> Option<Seq<Option<PipelineHandle>>> {
        handles_view(self.extended_cs_uavs)
    }

    /// Sections that failed to be restored by the most recent implicit drop.
    pub closed spec fn drop_failures(self) -> usize {
        self.drop_restore_failures
    }

    /// The device has either the base slots or all of them.
    pub open spec fn wf(self) -> bool {
        self.slots() == PS_CS_UAV_SLOTS || self.slots() == EXTENDED_UAV_SLOTS
    }

    /// Creates an exhaustive backend for a context of this type, whose device
    /// has this feature level or could not be queried.
    pub fn new(context_type: u32, feature_level: Result<i32, i32>, ranged: bool) -> (backend: Result<
        Self,
        StateBackendError,
    >)
        ensures
            match backend {
                Ok(backend) => {
                    &&& context_type == IMMEDIATE_CONTEXT
                    &&& feature_level matches Ok(level) && backend.slots() == (if level
                        >= FEATURE_LEVEL_11_1 {
                        EXTENDED_UAV_SLOTS
                    } else {
                        PS_CS_UAV_SLOTS
                    })
                    &&& feature_level->Ok_0 >= 0xb100 ==> backend.slots() == 64
                    &&& feature_level->Ok_0 < 0xb100 ==> backend.slots() == 8
                    &&& context_type == 0
                    &&& backend.wf()
                    &&& backend.ranges_supported() == ranged
                    &&& backend.extended_output_views() is None
                    &&& backend.extended_compute_views() is None
                    &&& backend.drop_failures() == 0
                },
                Err(error) => if context_type != IMMEDIATE_CONTEXT {
                    error == StateBackendError::DeferredContext
                } else {
                    feature_level matches Err(code) && error == StateBackendError::Interface(code)
                },
            },
    {
        if context_type != IMMEDIATE_CONTEXT {
            return Err(StateBackendError::DeferredContext);
        }
        let level = match feature_level {
            Ok(level) => level,
            Err(code) => return Err(StateBackendError::Interface(code)),
        };
        let uav_slots: usize = if level >= FEATURE_LEVEL_11_1 {
            EXTENDED_UAV_SLOTS
        } else {
            PS_CS_UAV_SLOTS
        };
        Ok(
            Self {
                ranged,
                uav_slots,
                extended_om_uavs: None,
                extended_cs_uavs: None,
                drop_restore_failures: 0,
            },
        )
    }

    /// Checks a borrowed context pointer before a reference is acquired.
    pub fn from_raw_borrowed(raw: usize) -> (result: Result<usize, StateBackendError>)
        ensures
            result == (if raw == 0 {
                Err::<usize, StateBackendError>(StateBackendError::Interface(E_POINTER))
            } else {
                Ok::<usize, StateBackendError>(raw)
            }),
    {
        if raw == 0 {
            Err(StateBackendError::Interface(E_POINTER))
        } else {
            Ok(raw)
        }
    }

    /// Returns the number of restore sections that failed during the most
    /// recent implicit guard drop.
    pub fn drop_restore_failure_count(&self) -> (count: usize)
        ensures
            count == self.drop_failures(),
    {
        self.drop_restore_failures
    }

    /// Records how many sections an implicit guard drop failed to restore.
    pub fn on_drop_restore_failures(&mut self, failures: usize)
        ensures
            final(self).drop_failures() == failures,
            final(self).slots() == old(self).slots(),
            final(self).ranges_supported() == old(self).ranges_supported(),
            final(self).extended_output_views() == old(self).extended_output_views(),
            final(self).extended_compute_views() == old(self).extended_compute_views(),
    {
        self.drop_restore_failures = failures;
    }

    /// Returns the number of unordered-access slots of the device.
    pub fn uav_slots(&self) -> (slots: usize)
        ensures
            slots == self.slots(),
    {
        self.uav_slots
    }

    /// Captures the output merger.
    pub fn capture_output_merger(&mut self, reading: &OutputMergerReading) -> (state:
        OutputMergerState)
        requires
            old(self).wf(),
            reading.render_targets@.len() == OM_RENDER_TARGET_SLOTS,
            reading.unordered_access_views@.len() == old(self).slots(),
        ensures
            final(self).slots() == old(self).slots(),
            final(self).ranges_supported() == old(self).ranges_supported(),
            final(self).extended_output_views() == Some(
                owned_handles(reading.unordered_access_views@.skip(PS_CS_UAV_SLOTS as int)),
            ),
            final(self).extended_compute_views() == old(self).extended_compute_views(),
            final(self).drop_failures() == old(self).drop_failures(),
            state.render_targets@ == owned_handles(reading.render_targets@),
            state.depth_stencil_view == owned_handle(reading.depth_stencil_view, None),
            state.unordered_access_views@ == owned_handles(
                reading.unordered_access_views@.take(PS_CS_UAV_SLOTS as int),
            ),
            state.blend_state == owned_handle(reading.blend_state, None),
            state.blend_factor == reading.blend_factor,
            state.sample_mask == reading.sample_mask,
            state.depth_stencil_state == owned_handle(reading.depth_stencil_state, None),
            state.stencil_reference == reading.stencil_reference,
    {
        let (base, extended) = split_views(&reading.unordered_access_views);
        self.extended_om_uavs = Some(extended);
        OutputMergerState {
            render_targets: own_handles(reading.render_targets.as_slice()),
            depth_stencil_view: own_handle(reading.depth_stencil_view, None),
            unordered_access_views: base,
            blend_state: own_handle(reading.blend_state, None),
            blend_factor: reading.blend_factor,
            sample_mask: reading.sample_mask,
            depth_stencil_state: own_handle(reading.depth_stencil_state, None),
            stencil_reference: reading.stencil_reference,
        }
    }

    /// Captures the unordered access views of the compute stage, before the
    /// stage itself is captured.
    pub fn capture_compute_outputs(&mut self, views: &Vec<usize>) -> (base: Vec<
        Option<PipelineHandle>,
    >)
        requires
            old(self).wf(),
            views@.len() == old(self).slots(),
        ensures
            final(self).slots() == old(self).slots(),
            final(self).ranges_supported() == old(self).ranges_supported(),
            final(self).extended_output_views() == old(self).extended_output_views(),
            final(self).extended_compute_views() == Some(
                owned_handles(views@.skip(PS_CS_UAV_SLOTS as int)),
            ),
            final(self).drop_failures() == old(self).drop_failures(),
            base@ == owned_handles(views@.take(PS_CS_UAV_SLOTS as int)),
    {
        let (base, extended) = split_views(views);
        self.extended_cs_uavs = Some(extended);
        base
    }

    /// Captures the compute stage, whose views and shader were captured.
    pub fn capture_compute_shader(
        &self,
        views: Vec<Option<PipelineHandle>>,
        captured: CapturedShader,
        reading: &StageReading,
    ) -> (state: ComputeState)
        requires
            reading.complete(),
        ensures
            state.unordered_access_views@ == views@,
            state.stage.shader == captured.shader,
            state.stage.class_instances@ == captured.class_instances@,
            state.stage.constant_buffers@ == owned_buffers(
                reading.constant_buffers@,
                ranges_view(reading.ranges),
            ),
            state.stage.shader_resources@ == owned_handles(reading.shader_resources@),
            state.stage.samplers@ == owned_handles(reading.samplers@),
    {
        ComputeState { stage: capture_stage(captured, reading), unordered_access_views: views }
    }

    /// Restores one programmable stage.
    pub fn restore_stage(&self, stage: ShaderStage, state: &ProgrammableStageState) -> (restoration:
        Restoration)
        ensures
            restoration@ == stage_plan(self.ranges_supported(), stage, *state),
    {
        let mut commands: Vec<PipelineCommand> = Vec::new();
        let classes = raw_array(&state.class_instances);
        if classes.len() as u64 > u32::MAX as u64 {
            proof {
                assert(setters(commands@) =~= Seq::<Setter>::empty());
            }
            return Restoration {
                commands,
                failure: Some(StateBackendError::InvalidReportedCount),
            };
        }
        commands.push(
            PipelineCommand::SetShader { stage, shader: raw_optional(&state.shader), classes },
        );
        let ghost first = commands@;
        let buffers = raw_array(&state.constant_buffers);
        let ranges = if self.ranged {
            match ranges_of(&state.constant_buffers) {
                Some(ranges) => Some(ranges),
                None => {
                    proof {
                        assert(setters(commands@) =~= stage_plan(true, stage, *state).calls);
                    }
                    return Restoration {
                        commands,
                        failure: Some(StateBackendError::IncompatibleHandle),
                    };
                },
            }
        } else {
            None
        };
        commands.push(PipelineCommand::SetConstantBuffers { stage, buffers, ranges });
        commands.push(
            PipelineCommand::SetShaderResources {
                stage,
                views: raw_array(&state.shader_resources),
            },
        );
        commands.push(
            PipelineCommand::SetSamplers { stage, samplers: raw_array(&state.samplers) },
        );
        proof {
            assert(setters(commands@) =~= stage_plan(self.ranged, stage, *state).calls);
        }
        Restoration { commands, failure: None }
    }

    /// Joins the base and the extended unordered access views.
    fn combined_uavs(
        &self,
        base: &Vec<Option<PipelineHandle>>,
        extended: &Option<Vec<Option<PipelineHandle>>>,
    ) -> (views: Result<Vec<usize>, StateBackendError>)
        ensures
            match views {
                Ok(views) => all_views(self.slots(), base@, handles_view(*extended)) == Some(
                    views@,
                ),
                Err(error) => all_views(self.slots(), base@, handles_view(*extended)) is None
                    && error == StateBackendError::ExtendedUavStateUnavailable,
            },
    {
        let mut views = raw_array(base);
        if self.uav_slots > PS_CS_UAV_SLOTS {
            match extended {
                None => return Err(StateBackendError::ExtendedUavStateUnavailable),
                Some(extended) => {
                    if extended.len() != self.uav_slots - PS_CS_UAV_SLOTS {
                        return Err(StateBackendError::ExtendedUavStateUnavailable);
                    }
                    let mut rest = raw_array(extended);
                    views.append(&mut rest);
                },
            }
        }
        Ok(views)
    }

    /// Restores the output merger.
    pub fn restore_output_merger(&self, state: &OutputMergerState) -> (restoration: Restoration)
        requires
            self.wf(),
            state.render_targets@.len() == OM_RENDER_TARGET_SLOTS,
            state.unordered_access_views@.len() == PS_CS_UAV_SLOTS,
        ensures
            restoration@ == output_merger_plan(
                self.slots(),
                self.extended_output_views(),
                *state,
            ),
    {
        let mut commands: Vec<PipelineCommand> = Vec::new();
        proof {
            assert(setters(commands@) =~= Seq::<Setter>::empty());
        }
        let count = last_bound_slot(&state.render_targets);
        let views = match self.combined_uavs(
            &state.unordered_access_views,
            &self.extended_om_uavs,
        ) {
            Ok(views) => views,
            Err(error) => return Restoration { commands, failure: Some(error) },
        };
        proof {
            assert(views@.len() == self.uav_slots);
        }
        let mut i: usize = 0;
        while i < count
            invariant
                i <= count <= views@.len(),
                forall|j: int| 0 <= j < i ==> #[trigger] views@[j] == 0,
            ensures
                i <= count <= views@.len(),
                forall|j: int| 0 <= j < i ==> #[trigger] views@[j] == 0,
                i < count ==> views@[i as int] != 0,
            decreases count - i,
        {
            if views[i] != 0 {
                break;
            }
            i = i + 1;
        }
        if i < count {
            proof {
                assert(views@.take(count as int)[i as int] != 0);
            }
            return Restoration {
                commands,
                failure: Some(StateBackendError::IncompatibleHandle),
            };
        }
        let targets = raw_array(&state.render_targets);
        commands.push(
            PipelineCommand::SetTargets {
                targets: vstd::slice::slice_to_vec(
                    vstd::slice::slice_subrange(targets.as_slice(), 0, count),
                ),
                depth_stencil: raw_optional(&state.depth_stencil_view),
                views: vstd::slice::slice_to_vec(
                    vstd::slice::slice_subrange(views.as_slice(), count, views.len()),
                ),
                counters: keep_counters(self.uav_slots - count),
            },
        );
        commands.push(
            PipelineCommand::SetBlendState {
                state: raw_optional(&state.blend_state),
                factor: state.blend_factor,
                mask: state.sample_mask,
            },
        );
        commands.push(
            PipelineCommand::SetDepthStencilState {
                state: raw_optional(&state.depth_stencil_state),
                reference: state.stencil_reference,
            },
        );
        proof {
            let plan = output_merger_plan(self.slots(), self.extended_output_views(), *state);
            assert(unbound(views@.take(count as int)));
            assert(setters(commands@)[0] =~= plan.calls[0]);
            assert(setters(commands@) =~= plan.calls);
        }
        Restoration { commands, failure: None }
    }

    /// Restores the unordered access views of the compute stage.
    pub fn restore_compute_outputs(&self, state: &ComputeState) -> (restoration: Restoration)
        ensures
            restoration@ == compute_outputs_plan(
                self.slots(),
                self.extended_compute_views(),
                *state,
            ),
    {
        let mut commands: Vec<PipelineCommand> = Vec::new();
        proof {
            assert(setters(commands@) =~= Seq::<Setter>::empty());
        }
        let views = match self.combined_uavs(
            &state.unordered_access_views,
            &self.extended_cs_uavs,
        ) {
            Ok(views) => views,
            Err(error) => return Restoration { commands, failure: Some(error) },
        };
        commands.push(
            PipelineCommand::SetComputeViews { views, counters: keep_counters(self.uav_slots) },
        );
        proof {
            let plan = compute_outputs_plan(self.slots(), self.extended_compute_views(), *state);
            assert(setters(commands@) =~= plan.calls);
        }
        Restoration { commands, failure: None }
    }

    /// Restores the input assembler.
    pub fn restore_input_assembler(&self, state: &InputAssemblerState) -> (restoration: Restoration)
        ensures
            restoration@ == input_assembler_plan(*state),
    {
        let mut commands: Vec<PipelineCommand> = Vec::new();
        commands.push(
            PipelineCommand::SetInputLayout { layout: raw_optional(&state.input_layout) },
        );
        commands.push(
            PipelineCommand::SetVertexBuffers {
                buffers: raw_array(&state.vertex_buffers),
                strides: vstd::slice::slice_to_vec(state.strides.as_slice()),
                offsets: vstd::slice::slice_to_vec(state.offsets.as_slice()),
            },
        );
        commands.push(
            PipelineCommand::SetIndexBuffer {
                buffer: raw_optional(&state.index_buffer),
                format: state.index_format,
                offset: state.index_offset,
            },
        );
        commands.push(PipelineCommand::SetTopology { topology: state.primitive_topology });
        proof {
            assert(setters(commands@) =~= input_assembler_plan(*state).calls);
        }
        Restoration { commands, failure: None }
    }

    /// Restores the rasterizer.
    pub fn restore_rasterizer(&self, state: &RasterizerState) -> (restoration: Restoration)
        ensures
            restoration@ == rasterizer_plan(*state),
    {
        let mut commands: Vec<PipelineCommand> = Vec::new();
        commands.push(PipelineCommand::SetRasterizerState { state: raw_optional(&state.state) });
        commands.push(
            PipelineCommand::SetViewports {
                viewports: vstd::slice::slice_to_vec(state.viewports.as_slice()),
            },
        );
        commands.push(
            PipelineCommand::SetScissorRects {
                rects: vstd::slice::slice_to_vec(state.scissor_rects.as_slice()),
            },
        );
        proof {
            assert(setters(commands@) =~= rasterizer_plan(*state).calls);
        }
        Restoration { commands, failure: None }
    }

    /// Restores stream output.
    pub fn restore_stream_output(&self, state: &StreamOutputState) -> (restoration: Restoration)
        ensures
            restoration@ == stream_output_plan(*state),
    {
        let mut commands: Vec<PipelineCommand> = Vec::new();
        match &state.offsets {
            StreamOutputOffsets::Unobservable => {
                proof {
                    assert(setters(commands@) =~= Seq::<Setter>::empty());
                }
                Restoration {
                    commands,
                    failure: Some(StateBackendError::StreamOutputOffsetsUnobservable),
                }
            },
            StreamOutputOffsets::Known(offsets) => {
                commands.push(
                    PipelineCommand::SetStreamTargets {
                        targets: raw_array(&state.targets),
                        offsets: vstd::slice::slice_to_vec(offsets.as_slice()),
                    },
                );
                proof {
                    assert(setters(commands@) =~= stream_output_plan(*state).calls);
                }
                Restoration { commands, failure: None }
            },
        }
    }

    /// Restores predication.
    pub fn restore_predication(&self, state: &PredicationState) -> (restoration: Restoration)
        ensures
            restoration@ == predication_plan(*state),
    {
        let mut commands: Vec<PipelineCommand> = Vec::new();
        commands.push(
            PipelineCommand::SetPredication {
                predicate: raw_optional(&state.predicate),
                value: state.value,
            },
        );
        proof {
            assert(setters(commands@) =~= predication_plan(*state).calls);
        }
        Restoration { commands, failure: None }
    }
}

/// The ranges to set with these constant buffers, if every bound one has its
/// range.
fn ranges_of(handles: &Vec<Option<PipelineHandle>>) -> (ranges: Option<Vec<ConstantRange>>)
    ensures
        match ranges {
            Some(ranges) => !range_missing(handles@) && ranges@ == ranges_to_set(handles@),
            None => range_missing(handles@),
        },
{
    let mut ranges: Vec<ConstantRange> = Vec::new();
    let mut i: usize = 0;
    while i < handles.len()
        invariant
            i <= handles@.len(),
            ranges@ == ranges_to_set(handles@.take(i as int)),
            forall|j: int|
                0 <= j < i && (#[trigger] handles@[j]) is Some ==> range_of(handles@[j]) is Some,
        decreases handles@.len() - i,
    {
        let range = match &handles[i] {
            Some(handle) => match handle.constant_range {
                Some(range) => range,
                None => {
                    proof {
                        assert(handles@[i as int] is Some);
                    }
                    return None;
                },
            },
            None => ConstantRange { first: 0, count: 0 },
        };
        ranges.push(range);
        i = i + 1;
        proof {
            assert(ranges@ =~= ranges_to_set(handles@.take(i as int)));
        }
    }
    proof {
        assert(handles@.take(handles@.len() as int) =~= handles@);
    }
    Some(ranges)
}

/// Splits the unordered access views into the base ones and the rest.
fn split_views(views: &Vec<usize>) -> (split: (
    Vec<Option<PipelineHandle>>,
    Vec<Option<PipelineHandle>>,
))
    requires
        views@.len() >= PS_CS_UAV_SLOTS,
    ensures
        split.0@ == owned_handles(views@.take(PS_CS_UAV_SLOTS as int)),
        split.1@ == owned_handles(views@.skip(PS_CS_UAV_SLOTS as int)),
{
    let base = own_handles(
        vstd::slice::slice_subrange(views.as_slice(), 0, PS_CS_UAV_SLOTS),
    );
    let extended = own_handles(
        vstd::slice::slice_subrange(views.as_slice(), PS_CS_UAV_SLOTS, views.len()),
    );
    proof {
        assert(views@.subrange(0, PS_CS_UAV_SLOTS as int) =~= views@.take(PS_CS_UAV_SLOTS as int));
        assert(views@.subrange(PS_CS_UAV_SLOTS as int, views@.len() as int) =~= views@.skip(
            PS_CS_UAV_SLOTS as int,
        ));
    }
    (base, extended)
}

/// Every unordered access view is set with a counter that keeps its value, one
/// for each view.
pub proof fn law_view_counters_are_kept(
    slots: usize,
    extended: Option<Seq<Option<PipelineHandle>>>,
    merger: OutputMergerState,
    compute: ComputeState,
    i: int,
)
    requires
        slots == 8 || slots == 64,
        merger.render_targets@.len() == 8,
        merger.unordered_access_views@.len() == 8,
        compute.unordered_access_views@.len() == 8,
    ensures
        output_merger_plan(slots, extended, merger).failure is None ==> (output_merger_plan(
            slots,
            extended,
            merger,
        ).calls[0] matches Setter::Targets { targets, views, counters, .. } && {
            &&& counters.len() == views.len()
            &&& targets.len() + views.len() == slots
            &&& 0 <= i < counters.len() ==> counters[i] == 0xffff_ffff
        }),
        compute_outputs_plan(slots, extended, compute).failure is None ==> (compute_outputs_plan(
            slots,
            extended,
            compute,
        ).calls[0] matches Setter::ComputeViews { views, counters } && {
            &&& counters.len() == views.len()
            &&& views.len() == slots
            &&& 0 <= i < counters.len() ==> counters[i] == 0xffff_ffff
        }),
{
    lemma_bound_slots_in_range(merger.render_targets@);
}

proof fn lemma_bound_slots_in_range(handles: Seq<Option<PipelineHandle>>)
    ensures
        bound_slots(handles) <= handles.len(),
    decreases handles.len(),
{
    if handles.len() > 0 {
        lemma_bound_slots_in_range(handles.drop_last());
    }
}

/// Targets are set up to the last bound slot: that slot is bound, and none
/// behind it is.
pub proof fn law_targets_reach_to_the_last_bound_slot(
    handles: Seq<Option<PipelineHandle>>,
    i: int,
)
    ensures
        bound_slots(handles) <= handles.len(),
        bound_slots(handles) > 0 ==> handles[bound_slots(handles) - 1] is Some,
        bound_slots(handles) <= i < handles.len() ==> handles[i] is None,
    decreases handles.len(),
{
    if handles.len() > 0 && handles.last() is None {
        law_targets_reach_to_the_last_bound_slot(handles.drop_last(), i);
    }
}

/// Of the reported addresses, those that are bound are kept, and no other.
pub proof fn law_bound_addresses_are_kept(addresses: Seq<usize>, address: usize)
    ensures
        bound(addresses).contains(address) <==> address != 0 && addresses.contains(address),
        bound(addresses).len() <= addresses.len(),
    decreases addresses.len(),
{
    if addresses.len() > 0 {
        let rest = addresses.drop_last();
        let last = addresses.last();
        law_bound_addresses_are_kept(rest, address);
        assert(addresses =~= rest.push(last));
        assert(rest.push(last).contains(address) <==> rest.contains(address) || address == last) by {
            if rest.contains(address) {
                assert(rest.push(last)[rest.index_of(address)] == address);
            }
            assert(rest.push(last)[rest.len() as int] == last);
        }
        let kept = bound(rest);
        assert(kept.push(last).contains(address) <==> kept.contains(address) || address == last) by {
            if kept.contains(address) {
                assert(kept.push(last)[kept.index_of(address)] == address);
            }
            assert(kept.push(last)[kept.len() as int] == last);
        }
    }
}

/// A reported count fits up to sixteen viewports and sixteen rectangles.
pub proof fn law_counts_are_limited(viewports: u32, rects: u32)
    ensures
        counts_fit(viewports, rects) <==> viewports < 17 && rects < 17,
{
}

/// Every handle keeps the address that was read into its own slot, and a
/// constant buffer its own range.
pub proof fn law_handles_keep_their_slots(
    addresses: Seq<usize>,
    ranges: Seq<ConstantRange>,
    i: int,
)
    requires
        0 <= i < addresses.len(),
        ranges.len() == addresses.len(),
    ensures
        owned_handles(addresses).len() == addresses.len(),
        raw(owned_handles(addresses)[i]) == addresses[i],
        raw(owned_buffers(addresses, Some(ranges))[i]) == addresses[i],
        addresses[i] != 0 ==> range_of(owned_buffers(addresses, Some(ranges))[i]) == Some(ranges[i]),
        raws(owned_handles(addresses)) == addresses,
{
    assert(raws(owned_handles(addresses)) =~= addresses);
}

/// Where sixty-four views are supported, all of them are set again: the first
/// eight, and behind them the others.
pub proof fn law_extended_views_follow_the_others(
    slots: usize,
    base: Seq<Option<PipelineHandle>>,
    extended: Seq<Option<PipelineHandle>>,
    i: int,
)
    requires
        slots == 8 || slots == 64,
        base.len() == 8,
        extended.len() + 8 == slots,
        0 <= i < slots,
    ensures
        all_views(slots, base, Some(extended)) matches Some(views) && views.len() == slots
            && views[i] == (if i < 8 {
            raw(base[i])
        } else {
            raw(extended[i - 8])
        }),
        slots == 64 ==> all_views(slots, base, None) is None,
{
}

/// A stage that cannot be restored in full says why: too many class instances
/// set nothing, and a buffer without its range keeps the buffers as they are.
pub proof fn law_incomplete_stages_say_why(
    ranged: bool,
    stage: ShaderStage,
    state: ProgrammableStageState,
)
    ensures
        ({
            let plan = stage_plan(ranged, stage, state);
            let many = state.class_instances@.len() > u32::MAX;
            let missing = ranged && exists|i: int|
                0 <= i < state.constant_buffers@.len() && (#[trigger] state.constant_buffers@[i])
                    is Some && range_of(state.constant_buffers@[i]) is None;
            &&& plan.failure is None <==> !many && !missing
            &&& many ==> plan.failure == Some(StateBackendError::InvalidReportedCount)
                && plan.calls.len() == 0
            &&& !many && missing ==> plan.failure == Some(StateBackendError::IncompatibleHandle)
                && plan.calls.len() == 1
        }),
{
}

} // verus!
