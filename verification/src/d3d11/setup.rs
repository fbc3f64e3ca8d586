//! The fixed-function state under which Dear ImGui is drawn.
use vstd::prelude::*;
use crate::d3d11::plan::FrameGeometry;
use crate::d3d11::renderer::FontTexture;
use crate::d3d11::state::ShaderStage;
use crate::imgui::context::{DRAW_INDEX_BYTES, DRAW_VERTEX_BYTES};

verus! {

/// Two 32-bit floating-point components.
pub const FORMAT_R32G32_FLOAT: u32 = 16;

/// Four 8-bit normalized components.
pub const FORMAT_R8G8B8A8_UNORM: u32 = 28;

/// One 32-bit unsigned component.
pub const FORMAT_R32_UINT: u32 = 42;

/// One 16-bit unsigned component.
pub const FORMAT_R16_UINT: u32 = 57;

/// A list of triangles.
pub const TOPOLOGY_TRIANGLE_LIST: u32 = 4;

/// Multiply by one.
pub const BLEND_ONE: u32 = 2;

/// Multiply by the source's alpha.
pub const BLEND_SRC_ALPHA: u32 = 5;

/// Multiply by what the source's alpha leaves.
pub const BLEND_INV_SRC_ALPHA: u32 = 6;

/// Add both operands.
pub const BLEND_OP_ADD: u32 = 1;

/// Write every color component.
pub const COLOR_WRITE_ENABLE_ALL: u32 = 15;

/// Fill primitives.
pub const FILL_SOLID: u32 = 3;

/// Draw primitives whichever way they face.
pub const CULL_NONE: u32 = 1;

/// Every comparison passes.
pub const COMPARISON_ALWAYS: u32 = 8;

/// Depth is not written.
pub const DEPTH_WRITE_MASK_ZERO: u32 = 0;

/// Linear filtering.
pub const FILTER_MIN_MAG_MIP_LINEAR: u32 = 21;

/// Repeat the texture.
pub const TEXTURE_ADDRESS_WRAP: u32 = 1;

/// The bit pattern of the largest finite single-precision number.
pub const LARGEST_SINGLE: u32 = 0x7f7f_ffff;

/// Read and written by the device alone.
pub const USAGE_DEFAULT: u32 = 0;

/// Read by the device and written by the processor.
pub const USAGE_DYNAMIC: u32 = 2;

/// Written by the processor.
pub const CPU_ACCESS_WRITE: u32 = 0x1_0000;

/// Bound as a vertex buffer.
pub const BIND_VERTEX_BUFFER: u32 = 1;

/// Bound as an index buffer.
pub const BIND_INDEX_BUFFER: u32 = 2;

/// Bound as a constant buffer.
pub const BIND_CONSTANT_BUFFER: u32 = 4;

/// Bound as a shader resource.
pub const BIND_SHADER_RESOURCE: u32 = 8;

/// One element of the vertex layout.
#[derive(Clone, Copy, Debug, PartialEq, Eq)]
pub struct InputElement {
    /// Name by which the shader knows the element.
    pub semantic: &'static str,
    /// Format.
    pub format: u32,
    /// Byte offset in a vertex.
    pub offset: u32,
}

/// Returns the vertex layout: position, texture coordinate, and color.
pub fn input_elements() -> (elements: [InputElement; 3])
    ensures
        elements@ == seq![
            InputElement { semantic: "POSITION", format: FORMAT_R32G32_FLOAT, offset: 0 },
            InputElement { semantic: "TEXCOORD", format: FORMAT_R32G32_FLOAT, offset: 8 },
            InputElement { semantic: "COLOR", format: FORMAT_R8G8B8A8_UNORM, offset: 16 },
        ],
        elements@[0].format == 16 && elements@[1].format == 16 && elements@[2].format == 28,
        elements@[0].offset == 0 && elements@[1].offset == 8 && elements@[2].offset == 16,
{
    let elements = [
        InputElement { semantic: "POSITION", format: FORMAT_R32G32_FLOAT, offset: 0 },
        InputElement { semantic: "TEXCOORD", format: FORMAT_R32G32_FLOAT, offset: 8 },
        InputElement { semantic: "COLOR", format: FORMAT_R8G8B8A8_UNORM, offset: 16 },
    ];
    proof {
        assert(elements@ =~= seq![
            InputElement { semantic: "POSITION", format: FORMAT_R32G32_FLOAT, offset: 0 },
            InputElement { semantic: "TEXCOORD", format: FORMAT_R32G32_FLOAT, offset: 8 },
            InputElement { semantic: "COLOR", format: FORMAT_R8G8B8A8_UNORM, offset: 16 },
        ]);
    }
    elements
}

/// Blending, the same for every render target.
#[derive(Clone, Copy, Debug, PartialEq, Eq)]
pub struct BlendDescription {
    /// Whether coverage follows from alpha.
    pub alpha_to_coverage: bool,
    /// Whether render targets blend differently.
    pub independent: bool,
    /// Whether targets are blended at all.
    pub enabled: bool,
    /// Factors of source and destination color.
    pub color_factors: (u32, u32),
    /// Factors of source and destination alpha.
    pub alpha_factors: (u32, u32),
    /// Operations on color and alpha.
    pub operations: (u32, u32),
    /// Components that are written.
    pub write_mask: u32,
}

/// Returns how the overlay is blended over the frame.
pub fn blend_description() -> (description: BlendDescription)
    ensures
        description == (BlendDescription {
            alpha_to_coverage: false,
            independent: false,
            enabled: true,
            color_factors: (BLEND_SRC_ALPHA, BLEND_INV_SRC_ALPHA),
            alpha_factors: (BLEND_ONE, BLEND_INV_SRC_ALPHA),
            operations: (BLEND_OP_ADD, BLEND_OP_ADD),
            write_mask: COLOR_WRITE_ENABLE_ALL,
        }),
        description.enabled && !description.independent && !description.alpha_to_coverage,
        description.color_factors == (5u32, 6u32),
        description.alpha_factors == (2u32, 6u32),
        description.operations == (1u32, 1u32),
        description.write_mask == 15,
{
    BlendDescription {
        alpha_to_coverage: false,
        independent: false,
        enabled: true,
        color_factors: (BLEND_SRC_ALPHA, BLEND_INV_SRC_ALPHA),
        alpha_factors: (BLEND_ONE, BLEND_INV_SRC_ALPHA),
        operations: (BLEND_OP_ADD, BLEND_OP_ADD),
        write_mask: COLOR_WRITE_ENABLE_ALL,
    }
}

/// Rasterization. Biases are bit patterns of single-precision numbers.
#[derive(Clone, Copy, Debug, PartialEq, Eq, Structural)]
pub struct RasterizerDescription {
    /// Fill mode.
    pub fill_mode: u32,
    /// Cull mode.
    pub cull_mode: u32,
    /// Whether counter-clockwise primitives face the front.
    pub front_counter_clockwise: bool,
    /// Bias that is added to the depth.
    pub depth_bias: i32,
    /// Greatest bias.
    pub depth_bias_clamp: u32,
    /// Bias by the slope of a primitive.
    pub slope_scaled_depth_bias: u32,
    /// Whether primitives are clipped by depth.
    pub depth_clip: bool,
    /// Whether primitives are clipped by the scissor rectangle.
    pub scissor: bool,
    /// Whether lines are rasterized for several samples.
    pub multisample: bool,
    /// Whether lines are smoothed.
    pub antialiased_line: bool,
}

/// Returns how the overlay is rasterized: filled, from both sides, within the
/// scissor rectangle.
pub fn rasterizer_description() -> (description: RasterizerDescription)
    ensures
        description == (RasterizerDescription {
            fill_mode: FILL_SOLID,
            cull_mode: CULL_NONE,
            front_counter_clockwise: false,
            depth_bias: 0,
            depth_bias_clamp: 0,
            slope_scaled_depth_bias: 0,
            depth_clip: true,
            scissor: true,
            multisample: false,
            antialiased_line: false,
        }),
        description.fill_mode == 3 && description.cull_mode == 1,
        description.scissor && description.depth_clip,
{
    RasterizerDescription {
        fill_mode: FILL_SOLID,
        cull_mode: CULL_NONE,
        front_counter_clockwise: false,
        depth_bias: 0,
        depth_bias_clamp: 0,
        slope_scaled_depth_bias: 0,
        depth_clip: true,
        scissor: true,
        multisample: false,
        antialiased_line: false,
    }
}

/// Depth and stencil tests. The operations on the stencil of either face are
/// zero.
#[derive(Clone, Copy, Debug, PartialEq, Eq, Structural)]
pub struct DepthStencilDescription {
    /// Whether depth is tested.
    pub depth: bool,
    /// What is written of the depth.
    pub write_mask: u32,
    /// Comparison of depths.
    pub comparison: u32,
    /// Whether the stencil is tested.
    pub stencil: bool,
    /// Bits of the stencil that are read.
    pub stencil_read_mask: u8,
    /// Bits of the stencil that are written.
    pub stencil_write_mask: u8,
}

/// Returns the tests of the overlay: it is drawn over everything.
pub fn depth_stencil_description() -> (description: DepthStencilDescription)
    ensures
        description == (DepthStencilDescription {
            depth: false,
            write_mask: DEPTH_WRITE_MASK_ZERO,
            comparison: COMPARISON_ALWAYS,
            stencil: false,
            stencil_read_mask: 0,
            stencil_write_mask: 0,
        }),
        !description.depth && !description.stencil,
        description.write_mask == 0 && description.comparison == 8,
{
    DepthStencilDescription {
        depth: false,
        write_mask: DEPTH_WRITE_MASK_ZERO,
        comparison: COMPARISON_ALWAYS,
        stencil: false,
        stencil_read_mask: 0,
        stencil_write_mask: 0,
    }
}

/// Sampling of a texture. Levels and colors are bit patterns of
/// single-precision numbers.
#[derive(Clone, Copy, Debug, PartialEq, Eq)]
pub struct SamplerDescription {
    /// Filter.
    pub filter: u32,
    /// How coordinates outside of the texture are addressed, on each axis.
    pub address: (u32, u32, u32),
    /// Bias that is added to the level of detail.
    pub level_bias: u32,
    /// Greatest anisotropy.
    pub max_anisotropy: u32,
    /// Comparison with sampled data.
    pub comparison: u32,
    /// Components of the border color.
    pub border_color: (u32, u32, u32, u32),
    /// Lowest level of detail.
    pub min_level: u32,
    /// Highest level of detail.
    pub max_level: u32,
}

/// Returns how textures of the overlay are sampled: filtered, repeated, and at
/// any level of detail.
pub fn sampler_description() -> (description: SamplerDescription)
    ensures
        description == (SamplerDescription {
            filter: FILTER_MIN_MAG_MIP_LINEAR,
            address: (TEXTURE_ADDRESS_WRAP, TEXTURE_ADDRESS_WRAP, TEXTURE_ADDRESS_WRAP),
            level_bias: 0,
            max_anisotropy: 1,
            comparison: COMPARISON_ALWAYS,
            border_color: (0, 0, 0, 0),
            min_level: 0,
            max_level: LARGEST_SINGLE,
        }),
        description.filter == 21 && description.address == (1u32, 1u32, 1u32),
        description.comparison == 8 && description.max_anisotropy == 1,
        description.min_level == 0 && description.max_level == 0x7f7f_ffff,
{
    SamplerDescription {
        filter: FILTER_MIN_MAG_MIP_LINEAR,
        address: (TEXTURE_ADDRESS_WRAP, TEXTURE_ADDRESS_WRAP, TEXTURE_ADDRESS_WRAP),
        level_bias: 0,
        max_anisotropy: 1,
        comparison: COMPARISON_ALWAYS,
        border_color: (0, 0, 0, 0),
        min_level: 0,
        max_level: LARGEST_SINGLE,
    }
}

/// A two-dimensional texture with its initial data.
#[derive(Clone, Copy, Debug, PartialEq, Eq)]
pub struct TextureDescription {
    /// Width in pixels.
    pub width: u32,
    /// Height in pixels.
    pub height: u32,
    /// Number of levels of detail.
    pub levels: u32,
    /// Number of textures.
    pub count: u32,
    /// Format.
    pub format: u32,
    /// Samples of one pixel, and their quality.
    pub samples: (u32, u32),
    /// Usage.
    pub usage: u32,
    /// What the texture is bound as.
    pub bind: u32,
    /// What the processor may do with it.
    pub cpu_access: u32,
    /// Further options.
    pub options: u32,
    /// Bytes of one row of the initial data.
    pub row_pitch: u32,
    /// Bytes of one slice of the initial data.
    pub slice_pitch: u32,
}

/// Returns the texture that holds the font.
pub fn font_texture_description(font: FontTexture) -> (description: TextureDescription)
    ensures
        description == (TextureDescription {
            width: font.width,
            height: font.height,
            levels: 1,
            count: 1,
            format: FORMAT_R8G8B8A8_UNORM,
            samples: (1, 0),
            usage: USAGE_DEFAULT,
            bind: BIND_SHADER_RESOURCE,
            cpu_access: 0,
            options: 0,
            row_pitch: font.row_pitch,
            slice_pitch: 0,
        }),
        description.width == font.width && description.height == font.height,
        description.row_pitch == font.row_pitch,
        description.format == 28 && description.bind == 8 && description.usage == 0,
{
    TextureDescription {
        width: font.width,
        height: font.height,
        levels: 1,
        count: 1,
        format: FORMAT_R8G8B8A8_UNORM,
        samples: (1, 0),
        usage: USAGE_DEFAULT,
        bind: BIND_SHADER_RESOURCE,
        cpu_access: 0,
        options: 0,
        row_pitch: font.row_pitch,
        slice_pitch: 0,
    }
}

/// A buffer.
#[derive(Clone, Copy, Debug, PartialEq, Eq, Structural)]
pub struct BufferDescription {
    /// Bytes.
    pub byte_width: u32,
    /// Usage.
    pub usage: u32,
    /// What the buffer is bound as.
    pub bind: u32,
    /// What the processor may do with it.
    pub cpu_access: u32,
    /// Further options.
    pub options: u32,
    /// Bytes of one structure.
    pub stride: u32,
}

/// Returns a buffer that is written anew for every frame.
pub fn dynamic_buffer_description(byte_width: u32, bind: u32) -> (description: BufferDescription)
    ensures
        description == (BufferDescription {
            byte_width,
            usage: USAGE_DYNAMIC,
            bind,
            cpu_access: CPU_ACCESS_WRITE,
            options: 0,
            stride: 0,
        }),
        description.byte_width == byte_width && description.bind == bind,
        description.usage == 2 && description.cpu_access == 0x1_0000,
{
    BufferDescription {
        byte_width,
        usage: USAGE_DYNAMIC,
        bind,
        cpu_access: CPU_ACCESS_WRITE,
        options: 0,
        stride: 0,
    }
}

/// Objects that drawing binds.
#[derive(Clone, Copy, Debug, PartialEq, Eq, Structural)]
pub struct DrawResources {
    /// Vertex shader.
    pub vertex_shader: usize,
    /// Pixel shader.
    pub pixel_shader: usize,
    /// Input layout.
    pub input_layout: usize,
    /// Buffer of the projection matrix.
    pub constant_buffer: usize,
    /// Blend state.
    pub blend_state: usize,
    /// Rasterizer state.
    pub rasterizer_state: usize,
    /// Depth/stencil state.
    pub depth_stencil_state: usize,
    /// Sampler.
    pub sampler: usize,
    /// Vertex buffer.
    pub vertex_buffer: usize,
    /// Index buffer.
    pub index_buffer: usize,
    /// View of the back buffer.
    pub render_target: usize,
}

/// One call that sets up the render state.
#[derive(Clone, Copy, Debug, PartialEq, Eq)]
pub enum SetupCall {
    /// Set one viewport over the whole framebuffer.
    Viewport {
        /// Width in pixels.
        width: u32,
        /// Height in pixels.
        height: u32,
    },
    /// Set the input layout.
    InputLayout(usize),
    /// Set the first vertex buffer.
    VertexBuffer {
        /// Buffer.
        buffer: usize,
        /// Bytes of one vertex.
        stride: u32,
    },
    /// Set the index buffer.
    IndexBuffer {
        /// Buffer.
        buffer: usize,
        /// Format of one index.
        format: u32,
    },
    /// Set the topology.
    Topology(u32),
    /// Set the shader of a stage, zero for none.
    Shader {
        /// Stage.
        stage: ShaderStage,
        /// Shader.
        shader: usize,
    },
    /// Set the first constant buffer of the vertex stage.
    VertexConstants(usize),
    /// Set the first sampler of the pixel stage.
    PixelSampler(usize),
    /// Clear predication.
    ClearPredication,
    /// Set the blend state with a zero factor and a full sample mask.
    BlendState(usize),
    /// Set the depth/stencil state with a zero reference.
    DepthStencilState(usize),
    /// Set one render target and no depth/stencil view.
    RenderTarget(usize),
    /// Set the rasterizer state.
    RasterizerState(usize),
}

/// The calls that set up the render state, in order.
pub open spec fn setup_calls(resources: DrawResources, geometry: FrameGeometry) -> Seq<SetupCall> {
    seq![
        SetupCall::Viewport {
            width: geometry.framebuffer_width,
            height: geometry.framebuffer_height,
        },
        SetupCall::InputLayout(resources.input_layout),
        SetupCall::VertexBuffer {
            buffer: resources.vertex_buffer,
            stride: DRAW_VERTEX_BYTES as u32,
        },
        SetupCall::IndexBuffer { buffer: resources.index_buffer, format: FORMAT_R16_UINT },
        SetupCall::Topology(TOPOLOGY_TRIANGLE_LIST),
        SetupCall::Shader { stage: ShaderStage::Vertex, shader: resources.vertex_shader },
        SetupCall::VertexConstants(resources.constant_buffer),
        SetupCall::Shader { stage: ShaderStage::Hull, shader: 0 },
        SetupCall::Shader { stage: ShaderStage::Domain, shader: 0 },
        SetupCall::Shader { stage: ShaderStage::Geometry, shader: 0 },
        SetupCall::Shader { stage: ShaderStage::Pixel, shader: resources.pixel_shader },
        SetupCall::PixelSampler(resources.sampler),
        SetupCall::Shader { stage: ShaderStage::Compute, shader: 0 },
        SetupCall::ClearPredication,
        SetupCall::BlendState(resources.blend_state),
        SetupCall::DepthStencilState(resources.depth_stencil_state),
        SetupCall::RenderTarget(resources.render_target),
        SetupCall::RasterizerState(resources.rasterizer_state),
    ]
}

/// Returns the format of indices of this size.
pub fn index_format(index_bytes: usize) -> (format: u32)
    ensures
        format == (if index_bytes == 2 {
            FORMAT_R16_UINT
        } else {
            FORMAT_R32_UINT
        }),
        index_bytes == 2 ==> format == 57,
        index_bytes != 2 ==> format == 42,
{
    if index_bytes == 2 {
        FORMAT_R16_UINT
    } else {
        FORMAT_R32_UINT
    }
}

/// Returns the calls that set up the render state.
pub fn setup_render_state(resources: DrawResources, geometry: FrameGeometry) -> (calls: Vec<
    SetupCall,
>)
    ensures
        calls@ == setup_calls(resources, geometry),
{
    let mut calls: Vec<SetupCall> = Vec::new();
    calls.push(
        SetupCall::Viewport {
            width: geometry.framebuffer_width,
            height: geometry.framebuffer_height,
        },
    );
    calls.push(SetupCall::InputLayout(resources.input_layout));
    calls.push(
        SetupCall::VertexBuffer {
            buffer: resources.vertex_buffer,
            stride: DRAW_VERTEX_BYTES as u32,
        },
    );
    calls.push(
        SetupCall::IndexBuffer {
            buffer: resources.index_buffer,
            format: index_format(DRAW_INDEX_BYTES),
        },
    );
    calls.push(SetupCall::Topology(TOPOLOGY_TRIANGLE_LIST));
    calls.push(
        SetupCall::Shader { stage: ShaderStage::Vertex, shader: resources.vertex_shader },
    );
    calls.push(SetupCall::VertexConstants(resources.constant_buffer));
    calls.push(SetupCall::Shader { stage: ShaderStage::Hull, shader: 0 });
    calls.push(SetupCall::Shader { stage: ShaderStage::Domain, shader: 0 });
    calls.push(SetupCall::Shader { stage: ShaderStage::Geometry, shader: 0 });
    calls.push(SetupCall::Shader { stage: ShaderStage::Pixel, shader: resources.pixel_shader });
    calls.push(SetupCall::PixelSampler(resources.sampler));
    calls.push(SetupCall::Shader { stage: ShaderStage::Compute, shader: 0 });
    calls.push(SetupCall::ClearPredication);
    calls.push(SetupCall::BlendState(resources.blend_state));
    calls.push(SetupCall::DepthStencilState(resources.depth_stencil_state));
    calls.push(SetupCall::RenderTarget(resources.render_target));
    calls.push(SetupCall::RasterizerState(resources.rasterizer_state));
    proof {
        assert(calls@ =~= setup_calls(resources, geometry));
    }
    calls
}

/// What is bound to the pipeline while the overlay is drawn.
#[verifier::ext_equal]
pub struct BoundState {
    /// Width and height of each viewport.
    pub viewports: Seq<(u32, u32)>,
    /// Input layout.
    pub input_layout: usize,
    /// First vertex buffer, and the bytes of one vertex in it.
    pub vertex_buffer: (usize, u32),
    /// Index buffer, and the format of one index.
    pub index_buffer: (usize, u32),
    /// Primitive topology.
    pub topology: u32,
    /// Shader of each stage, zero for none.
    pub shaders: Map<ShaderStage, usize>,
    /// First constant buffer of the vertex stage.
    pub vertex_constants: usize,
    /// First sampler of the pixel stage.
    pub pixel_sampler: usize,
    /// Whether drawing depends on a predicate.
    pub predicated: bool,
    /// Blend state.
    pub blend_state: usize,
    /// Depth/stencil state.
    pub depth_stencil_state: usize,
    /// Render targets.
    pub render_targets: Seq<usize>,
    /// Depth/stencil view, zero for none.
    pub depth_stencil_view: usize,
    /// Rasterizer state.
    pub rasterizer_state: usize,
}

/// What is bound after one call.
pub open spec fn bound_by(state: BoundState, call: SetupCall) -> BoundState {
    match call {
        SetupCall::Viewport { width, height } => BoundState {
            viewports: seq![(width, height)],
            ..state
        },
        SetupCall::InputLayout(layout) => BoundState { input_layout: layout, ..state },
        SetupCall::VertexBuffer { buffer, stride } => BoundState {
            vertex_buffer: (buffer, stride),
            ..state
        },
        SetupCall::IndexBuffer { buffer, format } => BoundState {
            index_buffer: (buffer, format),
            ..state
        },
        SetupCall::Topology(topology) => BoundState { topology, ..state },
        SetupCall::Shader { stage, shader } => BoundState {
            shaders: state.shaders.insert(stage, shader),
            ..state
        },
        SetupCall::VertexConstants(buffer) => BoundState { vertex_constants: buffer, ..state },
        SetupCall::PixelSampler(sampler) => BoundState { pixel_sampler: sampler, ..state },
        SetupCall::ClearPredication => BoundState { predicated: false, ..state },
        SetupCall::BlendState(blend) => BoundState { blend_state: blend, ..state },
        SetupCall::DepthStencilState(tests) => BoundState { depth_stencil_state: tests, ..state },
        SetupCall::RenderTarget(view) => BoundState {
            render_targets: seq![view],
            depth_stencil_view: 0,
            ..state
        },
        SetupCall::RasterizerState(rasterizer) => BoundState {
            rasterizer_state: rasterizer,
            ..state
        },
    }
}

/// What is bound after calls, made in order.
pub open spec fn bound_after(state: BoundState, calls: Seq<SetupCall>) -> BoundState
    decreases calls.len(),
{
    if calls.len() == 0 {
        state
    } else {
        bound_by(bound_after(state, calls.drop_last()), calls.last())
    }
}

proof fn lemma_bound_after_prefix(state: BoundState, calls: Seq<SetupCall>, count: int)
    requires
        0 < count <= calls.len(),
    ensures
        bound_after(state, calls.take(count)) == bound_by(
            bound_after(state, calls.take(count - 1)),
            calls[count - 1],
        ),
{
    assert(calls.take(count).drop_last() =~= calls.take(count - 1));
}

/// Whatever was bound before, setup leaves the view of the back buffer as the
/// only render target, without a depth/stencil view, and every resource in the
/// place of its own name: drawing goes to that view through the vertex and
/// pixel shaders alone, over the whole framebuffer, and on no condition.
#[verifier::rlimit(40)]
pub proof fn law_setup_binds_every_resource(
    state: BoundState,
    resources: DrawResources,
    geometry: FrameGeometry,
)
    ensures
        ({
            let after = bound_after(state, setup_calls(resources, geometry));
            &&& after.render_targets == seq![resources.render_target]
            &&& after.depth_stencil_view == 0
            &&& after.shaders[ShaderStage::Vertex] == resources.vertex_shader
            &&& after.shaders[ShaderStage::Pixel] == resources.pixel_shader
            &&& after.shaders[ShaderStage::Hull] == 0
            &&& after.shaders[ShaderStage::Domain] == 0
            &&& after.shaders[ShaderStage::Geometry] == 0
            &&& after.shaders[ShaderStage::Compute] == 0
            &&& after.vertex_constants == resources.constant_buffer
            &&& after.pixel_sampler == resources.sampler
            &&& after.blend_state == resources.blend_state
            &&& after.depth_stencil_state == resources.depth_stencil_state
            &&& after.rasterizer_state == resources.rasterizer_state
            &&& after.input_layout == resources.input_layout
            &&& after.vertex_buffer == (resources.vertex_buffer, 20u32)
            &&& after.index_buffer == (resources.index_buffer, 57u32)
            &&& after.topology == 4
            &&& after.viewports == seq![
                (geometry.framebuffer_width, geometry.framebuffer_height),
            ]
            &&& !after.predicated
        }),
{
    let calls = setup_calls(resources, geometry);
    assert(calls.take(0) =~= Seq::<SetupCall>::empty());
    assert(calls.take(18) =~= calls);
    lemma_bound_after_prefix(state, calls, 1);
    lemma_bound_after_prefix(state, calls, 2);
    lemma_bound_after_prefix(state, calls, 3);
    lemma_bound_after_prefix(state, calls, 4);
    lemma_bound_after_prefix(state, calls, 5);
    lemma_bound_after_prefix(state, calls, 6);
    lemma_bound_after_prefix(state, calls, 7);
    lemma_bound_after_prefix(state, calls, 8);
    lemma_bound_after_prefix(state, calls, 9);
    lemma_bound_after_prefix(state, calls, 10);
    lemma_bound_after_prefix(state, calls, 11);
    lemma_bound_after_prefix(state, calls, 12);
    lemma_bound_after_prefix(state, calls, 13);
    lemma_bound_after_prefix(state, calls, 14);
    lemma_bound_after_prefix(state, calls, 15);
    lemma_bound_after_prefix(state, calls, 16);
    lemma_bound_after_prefix(state, calls, 17);
    lemma_bound_after_prefix(state, calls, 18);
}

} // verus!
