//! Renderer resources, draw-list validation, and draw submission.
use vstd::prelude::*;
use crate::d3d11::error::{GpuOperation, RendererError, ShaderKind, E_POINTER};
use crate::d3d11::plan::{
    covers, geometry_failure, totals_valid, translate_command, translation, validate_geometry,
    validate_totals, CommandKind, DrawCommand, DrawTotals, FrameGeometry, GeometryReading,
    TranslatedCommand,
};
use crate::d3d11::state::StateBackendError;
use crate::imgui::context::{
    config_failure, entered, with_renderer, BackendIo, ContextError, Frame, FrameConfig,
    FrameError, ImGuiContextOwner, NativeContexts, DRAW_INDEX_BYTES, DRAW_VERTEX_BYTES,
};

verus! {

/// Vertices that the first vertex buffer holds.
pub const INITIAL_VERTEX_CAPACITY: usize = 5000;

/// Indices that the first index buffer holds.
pub const INITIAL_INDEX_CAPACITY: usize = 10000;

/// Vertices by which a new vertex buffer exceeds what is needed.
pub const VERTEX_GROWTH_SLACK: usize = 5000;

/// Indices by which a new index buffer exceeds what is needed.
pub const INDEX_GROWTH_SLACK: usize = 10000;

/// Bytes of one draw command.
pub const DRAW_COMMAND_BYTES: usize = 56;

/// Bytes of the projection matrix.
pub const PROJECTION_BYTES: usize = 64;

/// Per-frame draw statistics.
#[derive(Clone, Copy, Debug, PartialEq, Eq, Structural)]
pub struct RenderStats {
    /// Number of indexed draw calls submitted.
    pub draw_calls: u32,
    /// Number of indices submitted across all draw calls.
    pub elements: u64,
    /// Number of native user callbacks invoked.
    pub user_callbacks: u32,
    /// Number of reset-render-state callbacks honored.
    pub reset_state_callbacks: u32,
}

/// Statistics before anything was drawn.
pub open spec fn no_stats() -> RenderStats {
    RenderStats { draw_calls: 0, elements: 0, user_callbacks: 0, reset_state_callbacks: 0 }
}

impl Default for RenderStats {
    fn default() -> (stats: Self)
        ensures
            stats == no_stats(),
    {
        Self { draw_calls: 0, elements: 0, user_callbacks: 0, reset_state_callbacks: 0 }
    }
}

/// Returns the capacity of a buffer that has to hold `required` elements.
pub fn grown_capacity(required: usize, slack: usize) -> (capacity: Result<usize, RendererError>)
    ensures
        capacity matches Ok(grown) ==> grown - slack == required,
        capacity is Ok <==> required + slack <= usize::MAX,
        capacity == (if required + slack > usize::MAX {
            Err::<usize, RendererError>(RendererError::DrawDataOverflow)
        } else {
            Ok::<usize, RendererError>((required + slack) as usize)
        }),
{
    match required.checked_add(slack) {
        Some(capacity) => Ok(capacity),
        None => Err(RendererError::DrawDataOverflow),
    }
}

/// Whether moving to a generation is a change. An older one is refused.
pub open spec fn transition(current: u64, requested: u64) -> Result<bool, RendererError> {
    if requested < current {
        Err(RendererError::StaleGeneration)
    } else {
        Ok(requested > current)
    }
}

/// Returns whether moving to a generation is a change.
pub fn generation_transition(current: u64, requested: u64) -> (changes: Result<bool, RendererError>)
    ensures
        changes == transition(current, requested),
{
    if requested < current {
        Err(RendererError::StaleGeneration)
    } else {
        Ok(requested > current)
    }
}

/// Returns the number of the next resource generation.
pub fn next_resource_generation(current: u64) -> (next: Result<u64, RendererError>)
    ensures
        next matches Ok(generation) ==> generation > current && generation - current == 1,
        next == (if current == u64::MAX {
            Err::<u64, RendererError>(RendererError::DrawDataOverflow)
        } else {
            Ok::<u64, RendererError>((current + 1) as u64)
        }),
{
    match current.checked_add(1) {
        Some(next) => Ok(next),
        None => Err(RendererError::DrawDataOverflow),
    }
}

/// The bytes of a buffer, if D3D11 can express them.
pub open spec fn byte_width(capacity: usize, element_size: usize) -> Option<u32> {
    if capacity * element_size <= u32::MAX {
        Some((capacity * element_size) as u32)
    } else {
        None
    }
}

/// Returns the bytes of a buffer.
pub fn buffer_byte_width(capacity: usize, element_size: usize) -> (width: Result<u32, RendererError>)
    ensures
        match width {
            Ok(width) => byte_width(capacity, element_size) == Some(width),
            Err(error) => byte_width(capacity, element_size) is None && error
                == RendererError::DrawDataOverflow,
        },
{
    match capacity.checked_mul(element_size) {
        None => Err(RendererError::DrawDataOverflow),
        Some(bytes) => {
            if bytes as u64 > u32::MAX as u64 {
                Err(RendererError::DrawDataOverflow)
            } else {
                Ok(bytes as u32)
            }
        },
    }
}

/// What an operation that yields an object amounts to.
pub open spec fn object_result(operation: GpuOperation, status: i32, object: usize) -> Result<
    usize,
    RendererError,
> {
    if status < 0 {
        Err(RendererError::HResult { operation, code: status })
    } else if object == 0 {
        Err(RendererError::HResult { operation, code: E_POINTER })
    } else {
        Ok(object)
    }
}

/// Judges an operation that yields an object: its status decides, and success
/// without an object counts as a null pointer.
pub fn required_object(operation: GpuOperation, status: i32, object: usize) -> (result: Result<
    usize,
    RendererError,
>)
    ensures
        result == object_result(operation, status, object),
{
    if status < 0 {
        return Err(RendererError::HResult { operation, code: status });
    }
    if object == 0 {
        return Err(RendererError::HResult { operation, code: E_POINTER });
    }
    Ok(object)
}

/// A buffer that was mapped.
#[derive(Clone, Copy, Debug, PartialEq, Eq)]
pub struct Mapping {
    /// Where the buffer was mapped, or why it was not.
    pub result: Result<usize, RendererError>,
    /// Whether the buffer has to be unmapped again at once.
    pub unmap: bool,
}

/// Judges a mapping. Success without memory is unmapped and refused.
pub fn map_discard(status: i32, data: usize) -> (mapping: Mapping)
    ensures
        mapping.result == object_result(GpuOperation::MapResource, status, data),
        mapping.unmap == (status >= 0 && data == 0),
{
    Mapping {
        result: required_object(GpuOperation::MapResource, status, data),
        unmap: status >= 0 && data == 0,
    }
}

/// Whether compiled bytecode can be used.
pub open spec fn bytecode_valid(pointer: usize, length: usize) -> bool {
    pointer != 0 && 0 < length <= isize::MAX
}

/// Judges compiled bytecode.
pub fn blob_bytes(pointer: usize, length: usize, kind: ShaderKind) -> (result: Result<
    usize,
    RendererError,
>)
    ensures
        result == (if bytecode_valid(pointer, length) {
            Ok::<usize, RendererError>(pointer)
        } else {
            Err::<usize, RendererError>(RendererError::ShaderCompile(kind))
        }),
{
    if pointer == 0 || length == 0 || length > isize::MAX as usize {
        return Err(RendererError::ShaderCompile(kind));
    }
    Ok(pointer)
}

/// A font atlas as Dear ImGui exposes it.
#[derive(Clone, Copy, Debug, PartialEq, Eq, Structural)]
pub struct AtlasReading {
    /// Address of the IO of the context.
    pub io: usize,
    /// Address of the atlas.
    pub atlas: usize,
    /// Address of its pixels.
    pub pixels: usize,
    /// Width in pixels.
    pub width: i32,
    /// Height in pixels.
    pub height: i32,
    /// Bytes of one pixel.
    pub bytes_per_pixel: i32,
}

/// The texture of a font atlas.
#[derive(Clone, Copy, Debug, PartialEq, Eq, Structural)]
pub struct FontTexture {
    /// Width in pixels.
    pub width: u32,
    /// Height in pixels.
    pub height: u32,
    /// Bytes of one row.
    pub row_pitch: u32,
}

/// The texture of an atlas, or why it has none.
pub open spec fn font_texture_of(reading: AtlasReading) -> Result<FontTexture, RendererError> {
    if reading.io == 0 || reading.atlas == 0 || reading.pixels == 0 || reading.width <= 0
        || reading.height <= 0 || reading.bytes_per_pixel != 4 {
        Err(RendererError::InvalidFontAtlas)
    } else if reading.width * 4 > u32::MAX || reading.width * reading.height > usize::MAX
        || reading.width * reading.height * 4 > usize::MAX {
        Err(RendererError::DrawDataOverflow)
    } else {
        Ok(
            FontTexture {
                width: reading.width as u32,
                height: reading.height as u32,
                row_pitch: (reading.width * 4) as u32,
            },
        )
    }
}

/// Plans the texture of an atlas.
pub fn font_texture(reading: AtlasReading) -> (texture: Result<FontTexture, RendererError>)
    ensures
        texture == font_texture_of(reading),
{
    if reading.io == 0 || reading.atlas == 0 {
        return Err(RendererError::InvalidFontAtlas);
    }
    if reading.pixels == 0 || reading.width <= 0 || reading.height <= 0 || reading.bytes_per_pixel
        != 4 {
        return Err(RendererError::InvalidFontAtlas);
    }
    let width = reading.width as u32;
    let height = reading.height as u32;
    let row_pitch = match width.checked_mul(4) {
        Some(pitch) => pitch,
        None => return Err(RendererError::DrawDataOverflow),
    };
    let pixels = match (width as usize).checked_mul(height as usize) {
        Some(pixels) => pixels,
        None => return Err(RendererError::DrawDataOverflow),
    };
    if pixels.checked_mul(4).is_none() {
        return Err(RendererError::DrawDataOverflow);
    }
    Ok(FontTexture { width, height, row_pitch })
}

/// Returns whether the texture of the atlas is still the renderer's own, so
/// that the renderer clears it when it goes.
pub fn clears_tex_id(current: usize, own: usize) -> (clears: bool)
    ensures
        clears == (current == own),
{
    current == own
}

/// A step of attaching a renderer, in the order in which the steps are taken.
#[derive(Clone, Copy, Debug, PartialEq, Eq, Structural)]
pub enum AttachStep {
    /// Acquire the device from the swap chain.
    GetDevice,
    /// Acquire the immediate context.
    GetImmediateContext,
    /// Create the state backend for the context.
    InspectContext,
    /// Compile the vertex shader.
    CompileVertexShader,
    /// Compile the pixel shader.
    CompilePixelShader,
    /// Look at the bytecode of the vertex shader.
    ReadVertexBytecode,
    /// Look at the bytecode of the pixel shader.
    ReadPixelBytecode,
    /// Create the vertex shader.
    CreateVertexShader,
    /// Create the pixel shader.
    CreatePixelShader,
    /// Create the input layout.
    CreateInputLayout,
    /// Create the buffer of the projection matrix.
    CreateConstantBuffer,
    /// Create the blend state.
    CreateBlendState,
    /// Create the rasterizer state.
    CreateRasterizerState,
    /// Create the depth/stencil state.
    CreateDepthStencilState,
    /// Create the sampler.
    CreateSamplerState,
    /// Create the first vertex buffer.
    CreateVertexBuffer,
    /// Create the first index buffer.
    CreateIndexBuffer,
    /// Look at the font atlas.
    ReadFontAtlas,
    /// Create the font texture.
    CreateFontTexture,
    /// Create the view of the font texture.
    CreateFontShaderResourceView,
    /// Acquire the back buffer.
    GetBackBuffer,
    /// Create a view of the back buffer.
    CreateRenderTargetView,
}

/// Steps of attaching a renderer.
pub const ATTACH_STEPS: usize = 22;

/// The step at a position.
pub open spec fn attach_step(position: int) -> AttachStep {
    if position == 0 {
        AttachStep::GetDevice
    } else if position == 1 {
        AttachStep::GetImmediateContext
    } else if position == 2 {
        AttachStep::InspectContext
    } else if position == 3 {
        AttachStep::CompileVertexShader
    } else if position == 4 {
        AttachStep::CompilePixelShader
    } else if position == 5 {
        AttachStep::ReadVertexBytecode
    } else if position == 6 {
        AttachStep::ReadPixelBytecode
    } else if position == 7 {
        AttachStep::CreateVertexShader
    } else if position == 8 {
        AttachStep::CreatePixelShader
    } else if position == 9 {
        AttachStep::CreateInputLayout
    } else if position == 10 {
        AttachStep::CreateConstantBuffer
    } else if position == 11 {
        AttachStep::CreateBlendState
    } else if position == 12 {
        AttachStep::CreateRasterizerState
    } else if position == 13 {
        AttachStep::CreateDepthStencilState
    } else if position == 14 {
        AttachStep::CreateSamplerState
    } else if position == 15 {
        AttachStep::CreateVertexBuffer
    } else if position == 16 {
        AttachStep::CreateIndexBuffer
    } else if position == 17 {
        AttachStep::ReadFontAtlas
    } else if position == 18 {
        AttachStep::CreateFontTexture
    } else if position == 19 {
        AttachStep::CreateFontShaderResourceView
    } else if position == 20 {
        AttachStep::GetBackBuffer
    } else {
        AttachStep::CreateRenderTargetView
    }
}

/// What came back from a step.
#[derive(Clone, Copy, Debug, PartialEq, Eq)]
pub enum AttachReply {
    /// A call with its status and the object it yielded.
    Object {
        /// Status.
        status: i32,
        /// Object.
        object: usize,
    },
    /// The state backend, or why it refused the context.
    Backend(Result<(), StateBackendError>),
    /// Compiled bytecode.
    Bytecode {
        /// Address.
        pointer: usize,
        /// Length.
        length: usize,
    },
    /// The font atlas.
    Atlas(AtlasReading),
}

/// The operation that a step performs, if it is one that yields an object.
pub open spec fn operation_of(step: AttachStep) -> Option<GpuOperation> {
    match step {
        AttachStep::GetDevice => Some(GpuOperation::GetDevice),
        AttachStep::GetImmediateContext => Some(GpuOperation::GetImmediateContext),
        AttachStep::CreateVertexShader => Some(GpuOperation::CreateVertexShader),
        AttachStep::CreatePixelShader => Some(GpuOperation::CreatePixelShader),
        AttachStep::CreateInputLayout => Some(GpuOperation::CreateInputLayout),
        AttachStep::CreateConstantBuffer => Some(GpuOperation::CreateBuffer),
        AttachStep::CreateBlendState => Some(GpuOperation::CreateBlendState),
        AttachStep::CreateRasterizerState => Some(GpuOperation::CreateRasterizerState),
        AttachStep::CreateDepthStencilState => Some(GpuOperation::CreateDepthStencilState),
        AttachStep::CreateSamplerState => Some(GpuOperation::CreateSamplerState),
        AttachStep::CreateVertexBuffer => Some(GpuOperation::CreateBuffer),
        AttachStep::CreateIndexBuffer => Some(GpuOperation::CreateBuffer),
        AttachStep::CreateFontTexture => Some(GpuOperation::CreateFontTexture),
        AttachStep::CreateFontShaderResourceView => Some(
            GpuOperation::CreateFontShaderResourceView,
        ),
        AttachStep::GetBackBuffer => Some(GpuOperation::GetBackBuffer),
        AttachStep::CreateRenderTargetView => Some(GpuOperation::CreateRenderTargetView),
        _ => None,
    }
}

/// The shader that a step compiles or reads, if it does.
pub open spec fn shader_of(step: AttachStep) -> Option<ShaderKind> {
    match step {
        AttachStep::CompileVertexShader => Some(ShaderKind::Vertex),
        AttachStep::ReadVertexBytecode => Some(ShaderKind::Vertex),
        AttachStep::CompilePixelShader => Some(ShaderKind::Pixel),
        AttachStep::ReadPixelBytecode => Some(ShaderKind::Pixel),
        _ => None,
    }
}

/// Whether a reply is of the kind that its step yields.
pub open spec fn reply_matches(step: AttachStep, reply: AttachReply) -> bool {
    match step {
        AttachStep::InspectContext => reply is Backend,
        AttachStep::ReadVertexBytecode => reply is Bytecode,
        AttachStep::ReadPixelBytecode => reply is Bytecode,
        AttachStep::ReadFontAtlas => reply is Atlas,
        _ => reply is Object,
    }
}

/// How a step fails, if it does.
pub open spec fn attach_failure(step: AttachStep, reply: AttachReply) -> Option<RendererError> {
    match reply {
        AttachReply::Backend(result) => if result is Err {
            Some(RendererError::StateBackend)
        } else {
            None
        },
        AttachReply::Atlas(reading) => match font_texture_of(reading) {
            Ok(_) => None,
            Err(error) => Some(error),
        },
        AttachReply::Bytecode { pointer, length } => if bytecode_valid(pointer, length) {
            None
        } else {
            Some(RendererError::ShaderCompile(shader_of(step)->0))
        },
        AttachReply::Object { status, object } => match operation_of(step) {
            Some(operation) => match object_result(operation, status, object) {
                Ok(_) => None,
                Err(error) => Some(error),
            },
            None => if status < 0 || object == 0 {
                Some(RendererError::ShaderCompile(shader_of(step)->0))
            } else {
                None
            },
        },
    }
}

/// A renderer that is being attached.
#[derive(Clone, Copy, Debug, PartialEq, Eq)]
pub struct Attachment {
    completed: usize,
}

impl Attachment {
    /// Steps that succeeded.
    pub closed spec fn progress(self) -> int {
        self.completed as int
    }

    /// No more steps succeeded than there are.
    pub open spec fn wf(self) -> bool {
        0 <= self.progress() <= ATTACH_STEPS
    }

    /// Starts to attach.
    pub fn begin() -> (attachment: Self)
        ensures
            attachment.progress() == 0,
            attachment.wf(),
    {
        Self { completed: 0 }
    }

    /// Returns the step that has to be taken next, if there is one.
    pub fn next_step(&self) -> (step: Option<AttachStep>)
        requires
            self.wf(),
        ensures
            step == (if self.progress() == ATTACH_STEPS {
                None
            } else {
                Some(attach_step(self.progress()))
            }),
    {
        if self.completed == ATTACH_STEPS {
            return None;
        }
        Some(
            match self.completed {
                0 => AttachStep::GetDevice,
                1 => AttachStep::GetImmediateContext,
                2 => AttachStep::InspectContext,
                3 => AttachStep::CompileVertexShader,
                4 => AttachStep::CompilePixelShader,
                5 => AttachStep::ReadVertexBytecode,
                6 => AttachStep::ReadPixelBytecode,
                7 => AttachStep::CreateVertexShader,
                8 => AttachStep::CreatePixelShader,
                9 => AttachStep::CreateInputLayout,
                10 => AttachStep::CreateConstantBuffer,
                11 => AttachStep::CreateBlendState,
                12 => AttachStep::CreateRasterizerState,
                13 => AttachStep::CreateDepthStencilState,
                14 => AttachStep::CreateSamplerState,
                15 => AttachStep::CreateVertexBuffer,
                16 => AttachStep::CreateIndexBuffer,
                17 => AttachStep::ReadFontAtlas,
                18 => AttachStep::CreateFontTexture,
                19 => AttachStep::CreateFontShaderResourceView,
                20 => AttachStep::GetBackBuffer,
                _ => AttachStep::CreateRenderTargetView,
            },
        )
    }

    /// Takes what came back from the next step. A failed step ends the
    /// attachment where it is.
    pub fn accept(&mut self, reply: AttachReply) -> (result: Result<(), RendererError>)
        requires
            old(self).wf(),
            old(self).progress() < ATTACH_STEPS,
            reply_matches(attach_step(old(self).progress()), reply),
        ensures
            final(self).wf(),
            match attach_failure(attach_step(old(self).progress()), reply) {
                Some(error) => result == Err::<(), RendererError>(error)
                    && final(self).progress() == old(self).progress(),
                None => result is Ok && final(self).progress() == old(self).progress() + 1,
            },
    {
        let step = match self.next_step() {
            Some(step) => step,
            None => return Ok(()),
        };
        if let Some(error) = step_failure(step, reply) {
            return Err(error);
        }
        self.completed = self.completed + 1;
        Ok(())
    }

    /// Ends a complete attachment with the resources of a new renderer.
    pub fn finish(self, generation: u64) -> (gpu: GpuRenderer)
        requires
            self.progress() == ATTACH_STEPS,
        ensures
            gpu@.vertex_capacity == 5000 && gpu@.index_capacity == 10000,
            gpu@.generation == generation && gpu@.resource_generation == 1,
            gpu@ == (GpuModel {
                vertex_capacity: INITIAL_VERTEX_CAPACITY as nat,
                index_capacity: INITIAL_INDEX_CAPACITY as nat,
                generation: generation as nat,
                resource_generation: 1,
            }),
    {
        GpuRenderer {
            vertex_capacity: INITIAL_VERTEX_CAPACITY,
            index_capacity: INITIAL_INDEX_CAPACITY,
            generation,
            resource_generation: 1,
        }
    }
}

fn step_failure(step: AttachStep, reply: AttachReply) -> (failure: Option<RendererError>)
    requires
        reply_matches(step, reply),
    ensures
        failure == attach_failure(step, reply),
{
    match reply {
        AttachReply::Backend(result) => {
            if result.is_err() {
                Some(RendererError::StateBackend)
            } else {
                None
            }
        },
        AttachReply::Atlas(reading) => match font_texture(reading) {
            Ok(_) => None,
            Err(error) => Some(error),
        },
        AttachReply::Bytecode { pointer, length } => {
            let kind = match step {
                AttachStep::ReadVertexBytecode => ShaderKind::Vertex,
                _ => ShaderKind::Pixel,
            };
            match blob_bytes(pointer, length, kind) {
                Ok(_) => None,
                Err(error) => Some(error),
            }
        },
        AttachReply::Object { status, object } => {
            let operation = match step {
                AttachStep::CompileVertexShader => {
                    return compile_failure(ShaderKind::Vertex, status, object);
                },
                AttachStep::CompilePixelShader => {
                    return compile_failure(ShaderKind::Pixel, status, object);
                },
                AttachStep::GetDevice => GpuOperation::GetDevice,
                AttachStep::GetImmediateContext => GpuOperation::GetImmediateContext,
                AttachStep::CreateVertexShader => GpuOperation::CreateVertexShader,
                AttachStep::CreatePixelShader => GpuOperation::CreatePixelShader,
                AttachStep::CreateInputLayout => GpuOperation::CreateInputLayout,
                AttachStep::CreateBlendState => GpuOperation::CreateBlendState,
                AttachStep::CreateRasterizerState => GpuOperation::CreateRasterizerState,
                AttachStep::CreateDepthStencilState => GpuOperation::CreateDepthStencilState,
                AttachStep::CreateSamplerState => GpuOperation::CreateSamplerState,
                AttachStep::CreateFontTexture => GpuOperation::CreateFontTexture,
                AttachStep::CreateFontShaderResourceView => {
                    GpuOperation::CreateFontShaderResourceView
                },
                AttachStep::GetBackBuffer => GpuOperation::GetBackBuffer,
                AttachStep::CreateRenderTargetView => GpuOperation::CreateRenderTargetView,
                _ => GpuOperation::CreateBuffer,
            };
            match required_object(operation, status, object) {
                Ok(_) => None,
                Err(error) => Some(error),
            }
        },
    }
}

fn compile_failure(kind: ShaderKind, status: i32, code: usize) -> (failure: Option<RendererError>)
    ensures
        failure == (if status < 0 || code == 0 {
            Some(RendererError::ShaderCompile(kind))
        } else {
            None
        }),
{
    if status < 0 || code == 0 {
        Some(RendererError::ShaderCompile(kind))
    } else {
        None
    }
}

/// A buffer that has to be created.
#[derive(Clone, Copy, Debug, PartialEq, Eq, Structural)]
pub struct BufferPlan {
    /// Elements that the buffer holds.
    pub capacity: usize,
    /// Bytes of the buffer.
    pub byte_width: u32,
}

/// Generations and capacities of the renderer's GPU resources.
#[derive(Clone, Copy, Debug, PartialEq, Eq)]
pub struct GpuRenderer {
    vertex_capacity: usize,
    index_capacity: usize,
    generation: u64,
    resource_generation: u64,
}

/// Generations and capacities as numbers.
pub struct GpuModel {
    /// Vertices that the vertex buffer holds.
    pub vertex_capacity: nat,
    /// Indices that the index buffer holds.
    pub index_capacity: nat,
    /// Accepted swap-chain generation.
    pub generation: nat,
    /// Count of resource recreations.
    pub resource_generation: nat,
}

impl View for GpuRenderer {
    type V = GpuModel;

    closed spec fn view(&self) -> GpuModel {
        GpuModel {
            vertex_capacity: self.vertex_capacity as nat,
            index_capacity: self.index_capacity as nat,
            generation: self.generation as nat,
            resource_generation: self.resource_generation as nat,
        }
    }
}

/// What synchronizing a generation results in. An older one is refused, and a
/// newer one counts as a recreation of resources.
pub open spec fn synchronized(
    before: GpuModel,
    generation: u64,
    after: GpuModel,
    result: Result<(), RendererError>,
) -> bool {
    if generation < before.generation {
        result == Err::<(), RendererError>(RendererError::StaleGeneration) && after == before
    } else if generation == before.generation {
        result is Ok && after == before
    } else if before.resource_generation == u64::MAX {
        result == Err::<(), RendererError>(RendererError::DrawDataOverflow) && after == (GpuModel {
            generation: generation as nat,
            ..before
        })
    } else {
        result is Ok && after == (GpuModel {
            generation: generation as nat,
            resource_generation: before.resource_generation + 1,
            ..before
        })
    }
}

/// What recreating the back buffer of a generation results in.
pub open spec fn recreated(
    before: GpuModel,
    generation: u64,
    acquired: Result<(), RendererError>,
    after: GpuModel,
    result: Result<(), RendererError>,
) -> bool {
    if generation != before.generation {
        result == Err::<(), RendererError>(RendererError::StaleGeneration) && after == before
    } else {
        match acquired {
            Err(error) => result == Err::<(), RendererError>(error) && after == before,
            Ok(_) => if before.resource_generation == u64::MAX {
                result == Err::<(), RendererError>(RendererError::DrawDataOverflow) && after
                    == before
            } else {
                result is Ok && after == (GpuModel {
                    resource_generation: before.resource_generation + 1,
                    ..before
                })
            },
        }
    }
}

/// The buffer that a count of elements asks for, if the present one is too
/// small, or why there can be none.
pub open spec fn growth(count: usize, capacity: nat, slack: usize, element_size: usize) -> Result<
    Option<BufferPlan>,
    RendererError,
> {
    if count <= capacity {
        Ok(None)
    } else if count + slack > usize::MAX {
        Err(RendererError::DrawDataOverflow)
    } else {
        match byte_width((count + slack) as usize, element_size) {
            Some(width) => Ok(
                Some(BufferPlan { capacity: (count + slack) as usize, byte_width: width }),
            ),
            None => Err(RendererError::DrawDataOverflow),
        }
    }
}

fn plan_growth(count: usize, capacity: usize, slack: usize, element_size: usize) -> (plan: Result<
    Option<BufferPlan>,
    RendererError,
>)
    ensures
        plan == growth(count, capacity as nat, slack, element_size),
{
    if count <= capacity {
        return Ok(None);
    }
    let capacity = match grown_capacity(count, slack) {
        Ok(capacity) => capacity,
        Err(error) => return Err(error),
    };
    match buffer_byte_width(capacity, element_size) {
        Ok(byte_width) => Ok(Some(BufferPlan { capacity, byte_width })),
        Err(error) => Err(error),
    }
}

impl GpuRenderer {
    /// Returns the current swap-chain generation.
    pub fn generation(&self) -> (generation: u64)
        ensures
            generation == self@.generation,
    {
        self.generation
    }

    /// Returns the monotonic count of renderer-owned GPU resource recreations.
    pub fn resource_generation(&self) -> (generation: u64)
        ensures
            generation == self@.resource_generation,
    {
        self.resource_generation
    }

    /// Checks that work targets the current generation, before any resource is
    /// acquired for it.
    pub fn expect_generation(&self, generation: u64) -> (result: Result<(), RendererError>)
        ensures
            match result {
                Ok(_) => generation == self@.generation,
                Err(error) => generation != self@.generation && error
                    == RendererError::StaleGeneration,
            },
    {
        if generation != self.generation {
            return Err(RendererError::StaleGeneration);
        }
        Ok(())
    }

    /// Counts a recreation of resources.
    fn bump_resource_generation(&mut self) -> (result: Result<(), RendererError>)
        ensures
            match result {
                Ok(_) => final(self)@ == (GpuModel {
                    resource_generation: old(self)@.resource_generation + 1,
                    ..old(self)@
                }),
                Err(error) => {
                    &&& old(self)@.resource_generation == u64::MAX
                    &&& *final(self) == *old(self)
                    &&& error == RendererError::DrawDataOverflow
                },
            },
            result is Err <==> old(self)@.resource_generation == u64::MAX,
    {
        self.resource_generation = match next_resource_generation(self.resource_generation) {
            Ok(next) => next,
            Err(error) => return Err(error),
        };
        Ok(())
    }

    /// Synchronizes a newer session generation. An older one is refused, so
    /// that delayed callbacks cannot move the renderer backwards.
    pub fn synchronize_generation(&mut self, generation: u64) -> (result: Result<
        (),
        RendererError,
    >)
        ensures
            synchronized(old(self)@, generation, final(self)@, result),
    {
        let changes = match generation_transition(self.generation, generation) {
            Ok(changes) => changes,
            Err(error) => return Err(error),
        };
        if changes {
            self.generation = generation;
            return self.bump_resource_generation();
        }
        Ok(())
    }

    /// Advances the expected generation before `ResizeBuffers`.
    pub fn invalidate_back_buffer(&mut self, next_generation: u64) -> (result: Result<
        (),
        RendererError,
    >)
        ensures
            synchronized(old(self)@, next_generation, final(self)@, result),
    {
        self.synchronize_generation(next_generation)
    }

    /// Takes the result of acquiring the back buffer after `ResizeBuffers` for
    /// a generation.
    pub fn recreate_back_buffer(
        &mut self,
        generation: u64,
        acquired: Result<(), RendererError>,
    ) -> (result: Result<(), RendererError>)
        ensures
            recreated(old(self)@, generation, acquired, final(self)@, result),
    {
        if generation != self.generation {
            return Err(RendererError::StaleGeneration);
        }
        if let Err(error) = acquired {
            return Err(error);
        }
        self.bump_resource_generation()
    }

    /// Returns the resource generation that a new font texture will have,
    /// before the texture is created.
    pub fn begin_font_rebuild(&self) -> (next: Result<u64, RendererError>)
        ensures
            next == (if self@.resource_generation == u64::MAX {
                Err::<u64, RendererError>(RendererError::DrawDataOverflow)
            } else {
                Ok::<u64, RendererError>((self@.resource_generation + 1) as u64)
            }),
    {
        next_resource_generation(self.resource_generation)
    }

    /// Takes the result of creating the new font texture. The one before it
    /// stays if that failed.
    pub fn rebuild_font_texture(&mut self, next: u64, created: Result<(), RendererError>) -> (result:
        Result<(), RendererError>)
        requires
            next == old(self)@.resource_generation + 1,
        ensures
            match created {
                Ok(_) => result is Ok && final(self)@ == (GpuModel {
                    resource_generation: old(self)@.resource_generation + 1,
                    ..old(self)@
                }),
                Err(error) => result == Err::<(), RendererError>(error) && *final(self) == *old(self),
            },
    {
        match created {
            Ok(_) => {
                self.resource_generation = next;
                Ok(())
            },
            Err(error) => Err(error),
        }
    }

    /// Plans the vertex buffer for a frame, if the present one is too small.
    pub fn plan_vertex_buffer(&self, count: usize) -> (plan: Result<
        Option<BufferPlan>,
        RendererError,
    >)
        ensures
            plan matches Ok(Some(grown)) ==> grown.capacity == count + 5000 && grown.byte_width
                == grown.capacity * 20,
            plan matches Ok(None) ==> count <= self@.vertex_capacity,
            plan == growth(
                count,
                self@.vertex_capacity,
                VERTEX_GROWTH_SLACK,
                DRAW_VERTEX_BYTES,
            ),
    {
        plan_growth(count, self.vertex_capacity, VERTEX_GROWTH_SLACK, DRAW_VERTEX_BYTES)
    }

    /// Takes the result of creating a planned vertex buffer.
    pub fn adopt_vertex_buffer(&mut self, plan: BufferPlan, created: Result<(), RendererError>) -> (result:
        Result<(), RendererError>)
        ensures
            match created {
                Err(error) => result == Err::<(), RendererError>(error) && *final(self) == *old(self),
                Ok(_) => if old(self)@.resource_generation == u64::MAX {
                    result == Err::<(), RendererError>(RendererError::DrawDataOverflow) && final(self)@ == (GpuModel { vertex_capacity: plan.capacity as nat, ..old(self)@ })
                } else {
                    result is Ok && final(self)@ == (GpuModel {
                        vertex_capacity: plan.capacity as nat,
                        resource_generation: old(self)@.resource_generation + 1,
                        ..old(self)@
                    })
                },
            },
    {
        if let Err(error) = created {
            return Err(error);
        }
        self.vertex_capacity = plan.capacity;
        self.bump_resource_generation()
    }

    /// Plans the index buffer for a frame, if the present one is too small.
    pub fn plan_index_buffer(&self, count: usize) -> (plan: Result<
        Option<BufferPlan>,
        RendererError,
    >)
        ensures
            plan matches Ok(Some(grown)) ==> grown.capacity == count + 10000 && grown.byte_width
                == grown.capacity * 2,
            plan matches Ok(None) ==> count <= self@.index_capacity,
            plan == growth(count, self@.index_capacity, INDEX_GROWTH_SLACK, DRAW_INDEX_BYTES),
    {
        plan_growth(count, self.index_capacity, INDEX_GROWTH_SLACK, DRAW_INDEX_BYTES)
    }

    /// Takes the result of creating a planned index buffer.
    pub fn adopt_index_buffer(&mut self, plan: BufferPlan, created: Result<(), RendererError>) -> (result:
        Result<(), RendererError>)
        ensures
            match created {
                Err(error) => result == Err::<(), RendererError>(error) && *final(self) == *old(self),
                Ok(_) => if old(self)@.resource_generation == u64::MAX {
                    result == Err::<(), RendererError>(RendererError::DrawDataOverflow) && final(self)@ == (GpuModel { index_capacity: plan.capacity as nat, ..old(self)@ })
                } else {
                    result is Ok && final(self)@ == (GpuModel {
                        index_capacity: plan.capacity as nat,
                        resource_generation: old(self)@.resource_generation + 1,
                        ..old(self)@
                    })
                },
            },
    {
        if let Err(error) = created {
            return Err(error);
        }
        self.index_capacity = plan.capacity;
        self.bump_resource_generation()
    }
}

/// A native vector: where its elements are, and how many.
#[derive(Clone, Copy, Debug, PartialEq, Eq, Structural)]
pub struct RawVector {
    /// Address of the elements.
    pub data: usize,
    /// Number of elements.
    pub size: i32,
}

/// A native draw list.
#[derive(Clone, Debug)]
pub struct RawDrawList {
    /// Address of the list.
    pub raw: usize,
    /// Vertices.
    pub vertices: RawVector,
    /// Indices.
    pub indices: RawVector,
    /// Commands.
    pub commands: RawVector,
    /// The commands themselves, read once the list was found sound.
    pub command_values: Vec<DrawCommand>,
}

/// A validated draw list.
#[derive(Clone, Debug)]
pub struct DrawList {
    /// Address of the list.
    pub raw: usize,
    /// Number of vertices.
    pub vertex_count: usize,
    /// Number of indices.
    pub index_count: usize,
    /// Commands.
    pub commands: Vec<DrawCommand>,
}

/// Whether native memory can be read as so many elements of a size.
pub open spec fn readable(pointer: usize, length: int, element_size: int) -> bool {
    length == 0 || (pointer != 0 && length <= isize::MAX as int / element_size)
}

/// Checks that native memory can be read as so many elements of a size.
pub fn checked_slice(pointer: usize, length: usize, element_size: usize) -> (result: Result<
    (),
    RendererError,
>)
    requires
        element_size > 0,
    ensures
        match result {
            Ok(_) => readable(pointer, length as int, element_size as int),
            Err(error) => !readable(pointer, length as int, element_size as int) && error
                == RendererError::InvalidDrawData,
        },
{
    if length == 0 {
        return Ok(());
    }
    if pointer == 0 || length > isize::MAX as usize / element_size {
        return Err(RendererError::InvalidDrawData);
    }
    Ok(())
}

/// Whether every vector of a list can be read.
pub open spec fn list_sound(list: RawDrawList) -> bool {
    &&& list.raw != 0
    &&& list.vertices.size >= 0
    &&& list.indices.size >= 0
    &&& list.commands.size >= 0
    &&& readable(list.vertices.data, list.vertices.size as int, DRAW_VERTEX_BYTES as int)
    &&& readable(list.indices.data, list.indices.size as int, DRAW_INDEX_BYTES as int)
    &&& readable(list.commands.data, list.commands.size as int, DRAW_COMMAND_BYTES as int)
}

/// Checks that every vector of a list can be read, before its commands are.
pub fn check_list(list: &RawDrawList) -> (result: Result<(), RendererError>)
    ensures
        match result {
            Ok(_) => list_sound(*list),
            Err(error) => !list_sound(*list) && error == RendererError::InvalidDrawData,
        },
{
    if list.raw == 0 || list.vertices.size < 0 || list.indices.size < 0 || list.commands.size < 0 {
        return Err(RendererError::InvalidDrawData);
    }
    if checked_slice(list.vertices.data, list.vertices.size as usize, DRAW_VERTEX_BYTES).is_err() {
        return Err(RendererError::InvalidDrawData);
    }
    if checked_slice(list.indices.data, list.indices.size as usize, DRAW_INDEX_BYTES).is_err() {
        return Err(RendererError::InvalidDrawData);
    }
    if checked_slice(list.commands.data, list.commands.size as usize, DRAW_COMMAND_BYTES).is_err() {
        return Err(RendererError::InvalidDrawData);
    }
    Ok(())
}

/// How a command reaches outside its list, if it does. A callback reaches
/// nowhere.
pub open spec fn command_failure(
    command: DrawCommand,
    vertex_count: int,
    index_count: int,
) -> Option<RendererError> {
    if command.callback is Some {
        None
    } else if command.index_offset + command.element_count > usize::MAX {
        Some(RendererError::DrawDataOverflow)
    } else if command.index_offset + command.element_count > index_count || command.vertex_offset
        > vertex_count {
        Some(RendererError::InvalidDrawData)
    } else {
        None
    }
}

/// How the first of the commands that fails does so, if one does.
pub open spec fn commands_failure(
    commands: Seq<DrawCommand>,
    count: nat,
    vertex_count: int,
    index_count: int,
) -> Option<RendererError>
    decreases count,
{
    if count == 0 {
        None
    } else {
        match commands_failure(commands, (count - 1) as nat, vertex_count, index_count) {
            Some(error) => Some(error),
            None => command_failure(commands[count - 1], vertex_count, index_count),
        }
    }
}

fn check_commands(commands: &Vec<DrawCommand>, vertex_count: usize, index_count: usize) -> (result:
    Result<(), RendererError>)
    ensures
        match result {
            Ok(_) => commands_failure(
                commands@,
                commands@.len(),
                vertex_count as int,
                index_count as int,
            ) is None,
            Err(error) => commands_failure(
                commands@,
                commands@.len(),
                vertex_count as int,
                index_count as int,
            ) == Some(error),
        },
{
    let mut i: usize = 0;
    while i < commands.len()
        invariant
            i <= commands@.len(),
            commands_failure(commands@, i as nat, vertex_count as int, index_count as int) is None,
        decreases commands@.len() - i,
    {
        let command = commands[i];
        if command.callback.is_none() {
            let failure = match (command.index_offset as usize).checked_add(
                command.element_count as usize,
            ) {
                None => Some(RendererError::DrawDataOverflow),
                Some(end) => {
                    if end > index_count || command.vertex_offset as usize > vertex_count {
                        Some(RendererError::InvalidDrawData)
                    } else {
                        None
                    }
                },
            };
            if let Some(error) = failure {
                proof {
                    assert(command_failure(command, vertex_count as int, index_count as int)
                        == Some(error));
                    lemma_failure_stays(
                        commands@,
                        (i + 1) as nat,
                        commands@.len(),
                        vertex_count as int,
                        index_count as int,
                    );
                }
                return Err(error);
            }
        }
        i = i + 1;
    }
    Ok(())
}

proof fn lemma_failure_stays(
    commands: Seq<DrawCommand>,
    from: nat,
    to: nat,
    vertex_count: int,
    index_count: int,
)
    requires
        from <= to,
        commands_failure(commands, from, vertex_count, index_count) is Some,
    ensures
        commands_failure(commands, to, vertex_count, index_count) == commands_failure(
            commands,
            from,
            vertex_count,
            index_count,
        ),
    decreases to,
{
    if from < to {
        lemma_failure_stays(commands, from, (to - 1) as nat, vertex_count, index_count);
    }
}

/// The vertices of the first lists.
pub open spec fn vertices_before(lists: Seq<RawDrawList>, count: nat) -> int
    decreases count,
{
    if count == 0 {
        0
    } else {
        vertices_before(lists, (count - 1) as nat) + lists[count - 1].vertices.size
    }
}

/// The indices of the first lists.
pub open spec fn indices_before(lists: Seq<RawDrawList>, count: nat) -> int
    decreases count,
{
    if count == 0 {
        0
    } else {
        indices_before(lists, (count - 1) as nat) + lists[count - 1].indices.size
    }
}

/// How the first of the lists that fails does so, if one does.
pub open spec fn lists_failure(lists: Seq<RawDrawList>, count: nat) -> Option<RendererError>
    decreases count,
{
    if count == 0 {
        None
    } else {
        match lists_failure(lists, (count - 1) as nat) {
            Some(error) => Some(error),
            None => {
                let list = lists[count - 1];
                if !list_sound(list) {
                    Some(RendererError::InvalidDrawData)
                } else {
                    match commands_failure(
                        list.command_values@,
                        list.command_values@.len(),
                        list.vertices.size as int,
                        list.indices.size as int,
                    ) {
                        Some(error) => Some(error),
                        None => if vertices_before(lists, count) > usize::MAX || indices_before(
                            lists,
                            count,
                        ) > usize::MAX {
                            Some(RendererError::DrawDataOverflow)
                        } else {
                            None
                        },
                    }
                }
            },
        }
    }
}

/// How collecting the lists fails, if it does: the first list that fails
/// decides, and the totals must be what the draw data announced.
pub open spec fn collection_failure(
    lists: Seq<RawDrawList>,
    expected_vertices: usize,
    expected_indices: usize,
) -> Option<RendererError> {
    match lists_failure(lists, lists.len()) {
        Some(error) => Some(error),
        None => if vertices_before(lists, lists.len()) != expected_vertices || indices_before(
            lists,
            lists.len(),
        ) != expected_indices {
            Some(RendererError::InvalidDrawData)
        } else {
            None
        },
    }
}

/// A validated list holds what the native list holds.
pub open spec fn is_collected(list: RawDrawList, collected: DrawList) -> bool {
    &&& collected.raw == list.raw
    &&& collected.vertex_count == list.vertices.size
    &&& collected.index_count == list.indices.size
    &&& collected.commands@ == list.command_values@
}

proof fn lemma_lists_failure_stays(lists: Seq<RawDrawList>, from: nat, to: nat)
    requires
        from <= to,
        lists_failure(lists, from) is Some,
    ensures
        lists_failure(lists, to) == lists_failure(lists, from),
    decreases to,
{
    if from < to {
        lemma_lists_failure_stays(lists, from, (to - 1) as nat);
    }
}

/// Validates the draw lists against each other and against the announced
/// totals.
pub fn collect_draw_lists(
    lists: &Vec<RawDrawList>,
    expected_vertices: usize,
    expected_indices: usize,
) -> (collected: Result<Vec<DrawList>, RendererError>)
    ensures
        match collected {
            Ok(collected) => {
                &&& collection_failure(lists@, expected_vertices, expected_indices) is None
                &&& collected@.len() == lists@.len()
                &&& forall|i: int|
                    0 <= i < lists@.len() ==> is_collected(lists@[i], #[trigger] collected@[i])
            },
            Err(error) => collection_failure(lists@, expected_vertices, expected_indices) == Some(
                error,
            ),
        },
{
    let mut collected: Vec<DrawList> = Vec::new();
    let mut total_vertices: usize = 0;
    let mut total_indices: usize = 0;
    let mut i: usize = 0;
    while i < lists.len()
        invariant
            i <= lists@.len(),
            collected@.len() == i,
            forall|j: int| 0 <= j < i ==> is_collected(lists@[j], #[trigger] collected@[j]),
            lists_failure(lists@, i as nat) is None,
            total_vertices == vertices_before(lists@, i as nat),
            total_indices == indices_before(lists@, i as nat),
        decreases lists@.len() - i,
    {
        let list = &lists[i];
        if let Err(error) = check_list(list) {
            proof {
                assert(lists_failure(lists@, (i + 1) as nat) == Some(error));
                lemma_lists_failure_stays(lists@, (i + 1) as nat, lists@.len());
            }
            return Err(error);
        }
        let vertex_count = list.vertices.size as usize;
        let index_count = list.indices.size as usize;
        if let Err(error) = check_commands(&list.command_values, vertex_count, index_count) {
            proof {
                assert(lists_failure(lists@, (i + 1) as nat) == Some(error));
                lemma_lists_failure_stays(lists@, (i + 1) as nat, lists@.len());
            }
            return Err(error);
        }
        let vertices = total_vertices.checked_add(vertex_count);
        let indices = total_indices.checked_add(index_count);
        if vertices.is_none() || indices.is_none() {
            proof {
                assert(lists_failure(lists@, (i + 1) as nat) == Some(
                    RendererError::DrawDataOverflow,
                ));
                lemma_lists_failure_stays(lists@, (i + 1) as nat, lists@.len());
            }
            return Err(RendererError::DrawDataOverflow);
        }
        total_vertices = vertices.unwrap();
        total_indices = indices.unwrap();
        collected.push(
            DrawList {
                raw: list.raw,
                vertex_count,
                index_count,
                commands: vstd::slice::slice_to_vec(list.command_values.as_slice()),
            },
        );
        i = i + 1;
    }
    if total_vertices != expected_vertices || total_indices != expected_indices {
        return Err(RendererError::InvalidDrawData);
    }
    Ok(collected)
}

/// Everything that a frame needs before anything is uploaded.
#[derive(Clone, Debug)]
pub struct FramePlan {
    /// Render target.
    pub geometry: FrameGeometry,
    /// Number of vertices.
    pub vertex_count: usize,
    /// Number of indices.
    pub index_count: usize,
    /// Draw lists.
    pub lists: Vec<DrawList>,
}

/// How planning a frame fails, if it does.
pub open spec fn frame_failure(
    draw_data: usize,
    reading: GeometryReading,
    totals: DrawTotals,
    lists: Seq<RawDrawList>,
) -> Option<RendererError> {
    if draw_data == 0 {
        Some(RendererError::NullPointer("draw-data"))
    } else {
        match geometry_failure(reading) {
            Some(error) => Some(error),
            None => if !totals_valid(totals) {
                Some(RendererError::InvalidDrawData)
            } else {
                collection_failure(
                    lists,
                    totals.vertex_count as usize,
                    totals.index_count as usize,
                )
            },
        }
    }
}

/// Whether a plan holds the target, the counts, and the lists of draw data.
pub open spec fn is_plan_of(
    plan: FramePlan,
    reading: GeometryReading,
    totals: DrawTotals,
    lists: Seq<RawDrawList>,
) -> bool {
    &&& covers(plan.geometry, reading)
    &&& plan.vertex_count == totals.vertex_count
    &&& plan.index_count == totals.index_count
    &&& plan.lists@.len() == lists.len()
    &&& forall|i: int| 0 <= i < lists.len() ==> is_collected(lists[i], #[trigger] plan.lists@[i])
}

/// Validates the draw data of a frame: its address, its target, its counts, and
/// its lists, in this order.
pub fn plan_frame(
    draw_data: usize,
    reading: GeometryReading,
    totals: DrawTotals,
    lists: &Vec<RawDrawList>,
) -> (plan: Result<FramePlan, RendererError>)
    ensures
        match plan {
            Ok(plan) => {
                &&& frame_failure(draw_data, reading, totals, lists@) is None
                &&& is_plan_of(plan, reading, totals, lists@)
            },
            Err(error) => frame_failure(draw_data, reading, totals, lists@) == Some(error),
        },
{
    if draw_data == 0 {
        return Err(RendererError::NullPointer("draw-data"));
    }
    let geometry = match validate_geometry(reading) {
        Ok(geometry) => geometry,
        Err(error) => return Err(error),
    };
    let (vertex_count, index_count) = match validate_totals(totals) {
        Ok(counts) => counts,
        Err(error) => return Err(error),
    };
    match collect_draw_lists(lists, vertex_count, index_count) {
        Ok(lists) => Ok(FramePlan { geometry, vertex_count, index_count, lists }),
        Err(error) => Err(error),
    }
}

/// How beginning to render a frame fails, if it does: the generation comes
/// first, then the back buffer, then the draw data.
pub open spec fn render_failure(
    current: nat,
    generation: u64,
    acquired: Result<(), RendererError>,
    draw_data: usize,
    reading: GeometryReading,
    totals: DrawTotals,
    lists: Seq<RawDrawList>,
) -> Option<RendererError> {
    if generation != current {
        Some(RendererError::StaleGeneration)
    } else {
        match acquired {
            Err(error) => Some(error),
            Ok(_) => frame_failure(draw_data, reading, totals, lists),
        }
    }
}

impl GpuRenderer {
    /// Begins to render the draw data of a frame, given the result of acquiring
    /// the back buffer. Nothing is uploaded or drawn unless this succeeds.
    pub fn render(
        &self,
        generation: u64,
        acquired: Result<(), RendererError>,
        draw_data: usize,
        reading: GeometryReading,
        totals: DrawTotals,
        lists: &Vec<RawDrawList>,
    ) -> (plan: Result<FramePlan, RendererError>)
        ensures
            match plan {
                Ok(plan) => {
                    &&& render_failure(
                        self@.generation,
                        generation,
                        acquired,
                        draw_data,
                        reading,
                        totals,
                        lists@,
                    ) is None
                    &&& is_plan_of(plan, reading, totals, lists@)
                },
                Err(error) => render_failure(
                    self@.generation,
                    generation,
                    acquired,
                    draw_data,
                    reading,
                    totals,
                    lists@,
                ) == Some(error),
            },
    {
        if let Err(error) = self.expect_generation(generation) {
            return Err(error);
        }
        if let Err(error) = acquired {
            return Err(error);
        }
        plan_frame(draw_data, reading, totals, lists)
    }
}

/// One step of drawing.
#[derive(Clone, Copy, Debug, PartialEq, Eq)]
pub enum DrawStep {
    /// Set up the render state.
    SetupRenderState,
    /// Call the callback of a command.
    Callback {
        /// Address of the list.
        list: usize,
        /// Position of the command in the list.
        command: usize,
    },
    /// Set the scissor rectangle and the texture, and draw.
    Draw(TranslatedCommand),
}

/// How far drawing has come.
#[verifier::ext_equal]
pub struct Progress {
    /// Steps taken.
    pub steps: Seq<DrawStep>,
    /// Statistics.
    pub stats: RenderStats,
    /// Failure that ended the drawing.
    pub failure: Option<RendererError>,
}

/// Statistics after one more step of a kind, if they can be counted.
pub open spec fn counted(stats: RenderStats, command: TranslatedCommand) -> Option<RenderStats> {
    match command.kind {
        CommandKind::ResetState => if stats.reset_state_callbacks == u32::MAX {
            None
        } else {
            Some(
                RenderStats {
                    reset_state_callbacks: (stats.reset_state_callbacks + 1) as u32,
                    ..stats
                },
            )
        },
        CommandKind::Callback => if stats.user_callbacks == u32::MAX {
            None
        } else {
            Some(RenderStats { user_callbacks: (stats.user_callbacks + 1) as u32, ..stats })
        },
        CommandKind::Draw => if stats.draw_calls == u32::MAX || stats.elements
            + command.element_count > u64::MAX {
            None
        } else {
            Some(
                RenderStats {
                    draw_calls: (stats.draw_calls + 1) as u32,
                    elements: (stats.elements + command.element_count) as u64,
                    ..stats
                },
            )
        },
    }
}

/// The step that a translated command takes.
pub open spec fn step_of(command: TranslatedCommand, list: usize, position: usize) -> DrawStep {
    match command.kind {
        CommandKind::ResetState => DrawStep::SetupRenderState,
        CommandKind::Callback => DrawStep::Callback { list, command: position },
        CommandKind::Draw => DrawStep::Draw(command),
    }
}

/// Drawing after the first commands of a list.
pub open spec fn drawn(
    geometry: FrameGeometry,
    start: Progress,
    list: DrawList,
    count: nat,
    vertex_base: usize,
    index_base: usize,
) -> Progress
    decreases count,
{
    if count == 0 {
        start
    } else {
        let progress = drawn(geometry, start, list, (count - 1) as nat, vertex_base, index_base);
        if progress.failure is Some {
            progress
        } else {
            match translation(list.commands@[count - 1], geometry, vertex_base, index_base) {
                Err(error) => Progress { failure: Some(error), ..progress },
                Ok(None) => progress,
                Ok(Some(command)) => {
                    let steps = progress.steps.push(
                        step_of(command, list.raw, (count - 1) as usize),
                    );
                    match counted(progress.stats, command) {
                        Some(stats) => Progress { steps, stats, failure: None },
                        None => Progress {
                            steps,
                            stats: progress.stats,
                            failure: Some(RendererError::DrawDataOverflow),
                        },
                    }
                },
            }
        }
    }
}

/// The vertices of the first validated lists.
pub open spec fn vertex_base(lists: Seq<DrawList>, count: nat) -> int
    decreases count,
{
    if count == 0 {
        0
    } else {
        vertex_base(lists, (count - 1) as nat) + lists[count - 1].vertex_count
    }
}

/// The indices of the first validated lists.
pub open spec fn index_base(lists: Seq<DrawList>, count: nat) -> int
    decreases count,
{
    if count == 0 {
        0
    } else {
        index_base(lists, (count - 1) as nat) + lists[count - 1].index_count
    }
}

/// Drawing after the first lists. The render state is set up before the first.
pub open spec fn drawn_lists(geometry: FrameGeometry, lists: Seq<DrawList>, count: nat) -> Progress
    decreases count,
{
    if count == 0 {
        Progress { steps: seq![DrawStep::SetupRenderState], stats: no_stats(), failure: None }
    } else {
        let before = drawn_lists(geometry, lists, (count - 1) as nat);
        if before.failure is Some {
            before
        } else {
            let list = lists[count - 1];
            let progress = drawn(
                geometry,
                before,
                list,
                list.commands@.len(),
                vertex_base(lists, (count - 1) as nat) as usize,
                index_base(lists, (count - 1) as nat) as usize,
            );
            if progress.failure is Some {
                progress
            } else if vertex_base(lists, count) > usize::MAX || index_base(lists, count)
                > usize::MAX {
                Progress { failure: Some(RendererError::DrawDataOverflow), ..progress }
            } else {
                progress
            }
        }
    }
}

/// What drawing a frame amounts to.
#[derive(Debug)]
pub struct Submission {
    /// Steps, in order.
    pub steps: Vec<DrawStep>,
    /// Statistics, or the failure that ended the drawing after those steps.
    pub result: Result<RenderStats, RendererError>,
}

proof fn lemma_drawn_failure_stays(
    geometry: FrameGeometry,
    start: Progress,
    list: DrawList,
    from: nat,
    to: nat,
    vertices: usize,
    indices: usize,
)
    requires
        from <= to,
        drawn(geometry, start, list, from, vertices, indices).failure is Some,
    ensures
        drawn(geometry, start, list, to, vertices, indices) == drawn(geometry, start, list, from, vertices, indices),
    decreases to,
{
    if from < to {
        lemma_drawn_failure_stays(geometry, start, list, from, (to - 1) as nat, vertices, indices);
    }
}

proof fn lemma_drawn_lists_failure_stays(
    geometry: FrameGeometry,
    lists: Seq<DrawList>,
    from: nat,
    to: nat,
)
    requires
        from <= to,
        drawn_lists(geometry, lists, from).failure is Some,
    ensures
        drawn_lists(geometry, lists, to) == drawn_lists(geometry, lists, from),
    decreases to,
{
    if from < to {
        lemma_drawn_lists_failure_stays(geometry, lists, from, (to - 1) as nat);
    }
}

fn count_command(stats: RenderStats, command: &TranslatedCommand) -> (after: Option<RenderStats>)
    ensures
        after == counted(stats, *command),
{
    match command.kind {
        CommandKind::ResetState => match stats.reset_state_callbacks.checked_add(1) {
            Some(count) => Some(RenderStats { reset_state_callbacks: count, ..stats }),
            None => None,
        },
        CommandKind::Callback => match stats.user_callbacks.checked_add(1) {
            Some(count) => Some(RenderStats { user_callbacks: count, ..stats }),
            None => None,
        },
        CommandKind::Draw => {
            let draw_calls = match stats.draw_calls.checked_add(1) {
                Some(count) => count,
                None => return None,
            };
            match stats.elements.checked_add(command.element_count as u64) {
                Some(elements) => Some(RenderStats { draw_calls, elements, ..stats }),
                None => None,
            }
        },
    }
}

fn submit_list(
    geometry: FrameGeometry,
    list: &DrawList,
    vertices: usize,
    indices: usize,
    steps: &mut Vec<DrawStep>,
    initial: RenderStats,
) -> (result: Result<RenderStats, RendererError>)
    ensures
        ({
            let start = Progress { steps: old(steps)@, stats: initial, failure: None };
            let end = drawn(geometry, start, *list, list.commands@.len(), vertices, indices);
            &&& final(steps)@ == end.steps
            &&& match result {
                Ok(stats) => end.failure is None && end.stats == stats,
                Err(error) => end.failure == Some(error),
            }
        }),
{
    let ghost start = Progress { steps: steps@, stats: initial, failure: None };
    let mut stats = initial;
    let mut i: usize = 0;
    while i < list.commands.len()
        invariant
            i <= list.commands@.len(),
            start == (Progress { steps: old(steps)@, stats: initial, failure: None }),
            drawn(geometry, start, *list, i as nat, vertices, indices) == (Progress {
                steps: steps@,
                stats,
                failure: None,
            }),
        decreases list.commands@.len() - i,
    {
        let ghost before = *steps;
        let translated = translate_command(&list.commands[i], geometry, vertices, indices);
        match translated {
            Err(error) => {
                proof {
                    lemma_drawn_failure_stays(
                        geometry,
                        start,
                        *list,
                        (i + 1) as nat,
                        list.commands@.len(),
                        vertices,
                        indices,
                    );
                }
                return Err(error);
            },
            Ok(None) => {},
            Ok(Some(command)) => {
                let step = match command.kind {
                    CommandKind::ResetState => DrawStep::SetupRenderState,
                    CommandKind::Callback => DrawStep::Callback { list: list.raw, command: i },
                    CommandKind::Draw => DrawStep::Draw(command),
                };
                steps.push(step);
                match count_command(stats, &command) {
                    Some(after) => {
                        stats = after;
                    },
                    None => {
                        proof {
                            lemma_drawn_failure_stays(
                                geometry,
                                start,
                                *list,
                                (i + 1) as nat,
                                list.commands@.len(),
                                vertices,
                                indices,
                            );
                        }
                        return Err(RendererError::DrawDataOverflow);
                    },
                }
            },
        }
        i = i + 1;
    }
    Ok(stats)
}

/// Draws the lists of a frame: each command in order, each list at its place
/// in the shared buffers.
pub fn submit_draws(geometry: FrameGeometry, lists: &Vec<DrawList>) -> (submission: Submission)
    ensures
        ({
            let end = drawn_lists(geometry, lists@, lists@.len());
            &&& submission.steps@ == end.steps
            &&& match submission.result {
                Ok(stats) => end.failure is None && end.stats == stats,
                Err(error) => end.failure == Some(error),
            }
        }),
{
    let mut steps: Vec<DrawStep> = Vec::new();
    steps.push(DrawStep::SetupRenderState);
    let mut stats = RenderStats::default();
    let mut vertices: usize = 0;
    let mut indices: usize = 0;
    let mut i: usize = 0;
    proof {
        assert(steps@ =~= seq![DrawStep::SetupRenderState]);
    }
    while i < lists.len()
        invariant
            i <= lists@.len(),
            vertices == vertex_base(lists@, i as nat),
            indices == index_base(lists@, i as nat),
            drawn_lists(geometry, lists@, i as nat) == (Progress { steps: steps@, stats, failure: None }),
        decreases lists@.len() - i,
    {
        match submit_list(geometry, &lists[i], vertices, indices, &mut steps, stats) {
            Ok(after) => {
                stats = after;
            },
            Err(error) => {
                proof {
                    lemma_drawn_lists_failure_stays(geometry, lists@, (i + 1) as nat, lists@.len());
                }
                return Submission { steps, result: Err(error) };
            },
        }
        let next_vertices = vertices.checked_add(lists[i].vertex_count);
        let next_indices = indices.checked_add(lists[i].index_count);
        if next_vertices.is_none() || next_indices.is_none() {
            proof {
                assert(drawn_lists(geometry, lists@, (i + 1) as nat).failure == Some(
                    RendererError::DrawDataOverflow,
                ));
                lemma_drawn_lists_failure_stays(geometry, lists@, (i + 1) as nat, lists@.len());
            }
            return Submission { steps, result: Err(RendererError::DrawDataOverflow) };
        }
        vertices = next_vertices.unwrap();
        indices = next_indices.unwrap();
        i = i + 1;
    }
    Submission { steps, result: Ok(stats) }
}

/// Returns where each list starts in the shared vertex and index buffers.
pub fn upload_offsets(lists: &Vec<DrawList>) -> (offsets: Result<Vec<(usize, usize)>, RendererError>)
    ensures
        match offsets {
            Ok(offsets) => {
                &&& offsets@.len() == lists@.len()
                &&& forall|i: int|
                    0 <= i < lists@.len() ==> (#[trigger] offsets@[i]).0 == vertex_base(
                        lists@,
                        i as nat,
                    ) && offsets@[i].1 == index_base(lists@, i as nat)
                &&& lists@.len() > 0 ==> offsets@[0] == (0usize, 0usize)
                &&& forall|i: int|
                    0 < i < lists@.len() ==> (#[trigger] offsets@[i]).0 == offsets@[i - 1].0
                        + lists@[i - 1].vertex_count && offsets@[i].1 == offsets@[i - 1].1
                        + lists@[i - 1].index_count
                &&& vertex_base(lists@, lists@.len()) <= usize::MAX
                &&& index_base(lists@, lists@.len()) <= usize::MAX
            },
            Err(error) => error == RendererError::DrawDataOverflow && (vertex_base(
                lists@,
                lists@.len(),
            ) > usize::MAX || index_base(lists@, lists@.len()) > usize::MAX),
        },
{
    let mut offsets: Vec<(usize, usize)> = Vec::new();
    let mut vertices: usize = 0;
    let mut indices: usize = 0;
    let mut i: usize = 0;
    while i < lists.len()
        invariant
            i <= lists@.len(),
            offsets@.len() == i,
            vertices == vertex_base(lists@, i as nat),
            indices == index_base(lists@, i as nat),
            forall|j: int|
                0 <= j < i ==> (#[trigger] offsets@[j]).0 == vertex_base(lists@, j as nat)
                    && offsets@[j].1 == index_base(lists@, j as nat),
        decreases lists@.len() - i,
    {
        offsets.push((vertices, indices));
        let next_vertices = vertices.checked_add(lists[i].vertex_count);
        let next_indices = indices.checked_add(lists[i].index_count);
        if next_vertices.is_none() || next_indices.is_none() {
            proof {
                lemma_bases_grow(lists@, (i + 1) as nat, lists@.len());
            }
            return Err(RendererError::DrawDataOverflow);
        }
        vertices = next_vertices.unwrap();
        indices = next_indices.unwrap();
        i = i + 1;
    }
    Ok(offsets)
}

proof fn lemma_bases_grow(lists: Seq<DrawList>, from: nat, to: nat)
    requires
        from <= to <= lists.len(),
    ensures
        vertex_base(lists, from) <= vertex_base(lists, to),
        index_base(lists, from) <= index_base(lists, to),
    decreases to,
{
    if from < to {
        lemma_bases_grow(lists, from, (to - 1) as nat);
    }
}

/// Attached Dear ImGui rendering session.
///
/// The session owns the context, so that the texture of the font atlas cannot
/// outlive its view.
#[derive(Debug)]
pub struct D3d11Renderer {
    context_owner: ImGuiContextOwner,
    swap_chain: usize,
    device: usize,
    gpu: GpuRenderer,
}

impl D3d11Renderer {
    /// The owned context.
    pub closed spec fn context(self) -> ImGuiContextOwner {
        self.context_owner
    }

    /// Addresses of the swap chain and the device.
    pub closed spec fn interfaces(self) -> (usize, usize) {
        (self.swap_chain, self.device)
    }

    /// GPU resources.
    pub closed spec fn resources(self) -> GpuModel {
        self.gpu@
    }

    /// Checks a borrowed swap-chain pointer before a reference is acquired.
    pub fn attach_raw_borrowed(raw: usize) -> (result: Result<usize, RendererError>)
        ensures
            result == (if raw == 0 {
                Err::<usize, RendererError>(RendererError::NullPointer("swap-chain"))
            } else {
                Ok::<usize, RendererError>(raw)
            }),
    {
        if raw == 0 {
            return Err(RendererError::NullPointer("swap-chain"));
        }
        Ok(raw)
    }

    /// Ends a complete attachment with a session that owns the context. The
    /// context announces the renderer, over what it published before.
    pub fn attach_with_context(
        attachment: Attachment,
        swap_chain: usize,
        device: usize,
        generation: u64,
        owner: ImGuiContextOwner,
        io: Option<BackendIo>,
    ) -> (session: Result<(Self, BackendIo), RendererError>)
        requires
            attachment.progress() == ATTACH_STEPS,
        ensures
            match session {
                Ok((session, published)) => {
                    &&& io matches Some(before) && published == with_renderer(before, true)
                    &&& session.context() == owner
                    &&& session.interfaces() == (swap_chain, device)
                    &&& session.resources() == (GpuModel {
                        vertex_capacity: INITIAL_VERTEX_CAPACITY as nat,
                        index_capacity: INITIAL_INDEX_CAPACITY as nat,
                        generation: generation as nat,
                        resource_generation: 1,
                    })
                },
                Err(error) => {
                    &&& io is None
                    &&& error == RendererError::Context(ContextError::IoUnavailable)
                },
            },
    {
        let mut context_owner = owner;
        let gpu = attachment.finish(generation);
        match context_owner.set_renderer_ready(io, true) {
            Ok(published) => Ok((Self { context_owner, swap_chain, device, gpu }, published)),
            Err(error) => Err(RendererError::Context(error)),
        }
    }

    /// Ends the session. Returns the context, and what it publishes once the
    /// renderer is gone, if its IO is available.
    pub fn end(self, io: Option<BackendIo>) -> (ended: (ImGuiContextOwner, Option<BackendIo>))
        ensures
            ended.0 == self.context(),
            ended.1 == match io {
                Some(before) => Some(with_renderer(before, false)),
                None => None,
            },
    {
        let mut context_owner = self.context_owner;
        let published = match context_owner.set_renderer_ready(io, false) {
            Ok(published) => Some(published),
            Err(_) => None,
        };
        (context_owner, published)
    }

    /// Returns the exact native context pointer passed to existing add-ons.
    pub fn context_ptr(&self) -> (pointer: usize)
        ensures
            pointer == self.context().address(),
    {
        self.context_owner.as_ptr()
    }

    /// Returns the selected swap-chain interface for synchronous service
    /// attachment.
    pub fn swap_chain_ptr(&self) -> (pointer: usize)
        ensures
            pointer == self.interfaces().0,
    {
        self.swap_chain
    }

    /// Returns the renderer's D3D11 device for synchronous service attachment.
    pub fn device_ptr(&self) -> (pointer: usize)
        ensures
            pointer == self.interfaces().1,
    {
        self.device
    }

    /// Runs initialization or shutdown work with this ImGui context current.
    pub fn with_current_context<R, F: FnOnce(&mut NativeContexts) -> R>(
        &mut self,
        contexts: &mut NativeContexts,
        operation: F,
    ) -> (result: R)
        requires
            forall|inside: &mut NativeContexts|
                *inside == entered(old(self).context(), *old(contexts)) ==> call_requires(
                    operation,
                    (inside,),
                ),
        ensures
            final(self).context() == old(self).context(),
            final(self).interfaces() == old(self).interfaces(),
            final(self).resources() == old(self).resources(),
            final(contexts).current == old(contexts).current,
            exists|inside: &mut NativeContexts|
                {
                    &&& *inside == entered(old(self).context(), *old(contexts))
                    &&& #[trigger] call_ensures(operation, (inside,), result)
                    &&& final(contexts).claimed == final(inside).claimed
                },
    {
        self.context_owner.with_current(contexts, operation)
    }

    /// Borrows the owned context for the platform backend.
    pub fn with_context_owner(&mut self) -> (owner: &mut ImGuiContextOwner)
        ensures
            *owner == old(self).context(),
            final(self).context() == *final(owner),
            final(self).interfaces() == old(self).interfaces(),
            final(self).resources() == old(self).resources(),
    {
        &mut self.context_owner
    }

    /// Begins one frame in the owned context.
    pub fn begin_frame(&mut self, config: FrameConfig, io_available: bool) -> (frame: Result<
        Frame,
        RendererError,
    >)
        ensures
            final(self).context() == old(self).context(),
            final(self).interfaces() == old(self).interfaces(),
            final(self).resources() == old(self).resources(),
            match frame {
                Ok(frame) => config_failure(config) is None && io_available && frame.active(),
                Err(error) => match config_failure(config) {
                    Some(failure) => error == RendererError::Frame(failure),
                    None => !io_available && error == RendererError::Frame(
                        FrameError::IoUnavailable,
                    ),
                },
            },
    {
        match self.context_owner.begin_frame(config, io_available) {
            Ok(frame) => Ok(frame),
            Err(error) => Err(RendererError::Frame(error)),
        }
    }

    /// Finalizes a frame once its interface was built, and begins to render it.
    /// Nothing is uploaded or drawn unless this succeeds.
    pub fn render_frame(
        &self,
        frame: &mut Frame,
        draw_data: usize,
        generation: u64,
        acquired: Result<(), RendererError>,
        reading: GeometryReading,
        totals: DrawTotals,
        lists: &Vec<RawDrawList>,
    ) -> (plan: Result<FramePlan, RendererError>)
        ensures
            !final(frame).active(),
            match plan {
                Ok(plan) => {
                    &&& old(frame).active()
                    &&& draw_data != 0
                    &&& render_failure(
                        self.resources().generation,
                        generation,
                        acquired,
                        draw_data,
                        reading,
                        totals,
                        lists@,
                    ) is None
                    &&& is_plan_of(plan, reading, totals, lists@)
                },
                Err(error) => if !old(frame).active() {
                    error == RendererError::Frame(FrameError::AlreadyRendered)
                } else if draw_data == 0 {
                    error == RendererError::Frame(FrameError::DrawDataUnavailable)
                } else {
                    render_failure(
                        self.resources().generation,
                        generation,
                        acquired,
                        draw_data,
                        reading,
                        totals,
                        lists@,
                    ) == Some(error)
                },
            },
    {
        match frame.render(draw_data) {
            Ok(rendered) => self.gpu.render(
                generation,
                acquired,
                rendered.as_ptr(),
                reading,
                totals,
                lists,
            ),
            Err(error) => Err(RendererError::Frame(error)),
        }
    }

    /// Takes the result of creating the new font texture after a pre-frame
    /// atlas mutation. The one before it stays if that failed.
    pub fn rebuild_font_texture(&mut self, created: Result<(), RendererError>) -> (result: Result<
        (),
        RendererError,
    >)
        ensures
            final(self).context() == old(self).context(),
            final(self).interfaces() == old(self).interfaces(),
            if old(self).resources().resource_generation == u64::MAX {
                result == Err::<(), RendererError>(RendererError::DrawDataOverflow) && final(self).resources()
                    == old(self).resources()
            } else {
                match created {
                    Ok(_) => result is Ok && final(self).resources() == (GpuModel {
                        resource_generation: old(self).resources().resource_generation + 1,
                        ..old(self).resources()
                    }),
                    Err(error) => result == Err::<(), RendererError>(error) && final(self).resources()
                        == old(self).resources(),
                }
            },
    {
        let next = match self.gpu.begin_font_rebuild() {
            Ok(next) => next,
            Err(error) => return Err(error),
        };
        self.gpu.rebuild_font_texture(next, created)
    }

    /// Advances the expected generation before `ResizeBuffers`.
    pub fn invalidate_back_buffer(&mut self, next_generation: u64) -> (result: Result<
        (),
        RendererError,
    >)
        ensures
            final(self).context() == old(self).context(),
            final(self).interfaces() == old(self).interfaces(),
            synchronized(old(self).resources(), next_generation, final(self).resources(), result),
    {
        self.gpu.invalidate_back_buffer(next_generation)
    }

    /// Takes the result of acquiring the back buffer after `ResizeBuffers`.
    pub fn recreate_back_buffer(
        &mut self,
        generation: u64,
        acquired: Result<(), RendererError>,
    ) -> (result: Result<(), RendererError>)
        ensures
            final(self).context() == old(self).context(),
            final(self).interfaces() == old(self).interfaces(),
            recreated(
                old(self).resources(),
                generation,
                acquired,
                final(self).resources(),
                result,
            ),
    {
        self.gpu.recreate_back_buffer(generation, acquired)
    }

    /// Synchronizes a newer session generation after a resize performed on a
    /// different thread.
    pub fn synchronize_generation(&mut self, generation: u64) -> (result: Result<
        (),
        RendererError,
    >)
        ensures
            final(self).context() == old(self).context(),
            final(self).interfaces() == old(self).interfaces(),
            synchronized(old(self).resources(), generation, final(self).resources(), result),
    {
        self.gpu.synchronize_generation(generation)
    }

    /// Borrows the GPU resources.
    pub fn gpu_mut(&mut self) -> (gpu: &mut GpuRenderer)
        ensures
            gpu@ == old(self).resources(),
            final(self).resources() == final(gpu)@,
            final(self).context() == old(self).context(),
            final(self).interfaces() == old(self).interfaces(),
    {
        &mut self.gpu
    }

    /// Returns the current swap-chain generation.
    pub fn generation(&self) -> (generation: u64)
        ensures
            generation == self.resources().generation,
    {
        self.gpu.generation()
    }

    /// Returns the monotonic count of renderer-owned GPU resource recreations.
    pub fn resource_generation(&self) -> (generation: u64)
        ensures
            generation == self.resources().resource_generation,
    {
        self.gpu.resource_generation()
    }
}

/// A delayed generation never moves the renderer backwards, and one that is
/// accepted is never older than the one before it.
pub proof fn law_generations_are_monotonic(current: u64, requested: u64)
    ensures
        transition(current, requested) is Ok <==> requested >= current,
        transition(current, requested) matches Ok(changes) ==> (changes <==> requested > current),
{
}

/// A grown buffer holds what it was grown for, with its slack to spare.
pub proof fn law_growth_leaves_slack(
    count: usize,
    capacity: nat,
    slack: usize,
    element_size: usize,
)
    ensures
        growth(count, capacity, slack, element_size) matches Ok(Some(plan)) ==> {
            &&& count > capacity
            &&& plan.capacity == count + slack
            &&& plan.byte_width == plan.capacity * element_size
        },
        growth(count, capacity, slack, element_size) == Ok::<Option<BufferPlan>, RendererError>(
            None,
        ) <==> count <= capacity,
{
}

/// Every command of a validated list stays within the indices of its list, so
/// no draw reads what another list wrote.
pub proof fn law_commands_stay_in_their_list(
    commands: Seq<DrawCommand>,
    vertex_count: int,
    index_count: int,
    position: int,
)
    requires
        commands_failure(commands, commands.len(), vertex_count, index_count) is None,
        0 <= position < commands.len(),
        commands[position].callback is None,
    ensures
        commands[position].index_offset + commands[position].element_count <= index_count,
        commands[position].vertex_offset <= vertex_count,
{
    lemma_no_failure_before(
        commands,
        (position + 1) as nat,
        commands.len(),
        vertex_count,
        index_count,
    );
}

proof fn lemma_no_failure_before(
    commands: Seq<DrawCommand>,
    from: nat,
    to: nat,
    vertex_count: int,
    index_count: int,
)
    requires
        from <= to,
        commands_failure(commands, to, vertex_count, index_count) is None,
    ensures
        commands_failure(commands, from, vertex_count, index_count) is None,
    decreases to,
{
    if from < to {
        lemma_no_failure_before(commands, from, (to - 1) as nat, vertex_count, index_count);
    }
}

/// The font texture is as large as the atlas, with rows of four bytes a pixel.
/// Without an atlas, pixels, an extent, or four bytes a pixel there is none.
pub proof fn law_the_font_texture_is_the_atlas(reading: AtlasReading)
    ensures
        font_texture_of(reading) matches Ok(texture) ==> {
            &&& texture.width == reading.width
            &&& texture.height == reading.height
            &&& texture.row_pitch == 4 * texture.width
        },
        font_texture_of(reading) == Err::<FontTexture, _>(RendererError::InvalidFontAtlas) <==> {
            ||| reading.io == 0
            ||| reading.atlas == 0
            ||| reading.pixels == 0
            ||| reading.width < 1
            ||| reading.height < 1
            ||| reading.bytes_per_pixel != 4
        },
        font_texture_of(reading) matches Err(error) ==> error == RendererError::InvalidFontAtlas
            || error == RendererError::DrawDataOverflow,
{
}

/// Attachment goes through every step once, each at its own position.
pub proof fn law_each_attach_step_has_its_position(position: int)
    requires
        0 <= position < 22,
    ensures
        attach_step(position) is GetDevice <==> position == 0,
        attach_step(position) is GetImmediateContext <==> position == 1,
        attach_step(position) is InspectContext <==> position == 2,
        attach_step(position) is CompileVertexShader <==> position == 3,
        attach_step(position) is CompilePixelShader <==> position == 4,
        attach_step(position) is ReadVertexBytecode <==> position == 5,
        attach_step(position) is ReadPixelBytecode <==> position == 6,
        attach_step(position) is CreateVertexShader <==> position == 7,
        attach_step(position) is CreatePixelShader <==> position == 8,
        attach_step(position) is CreateInputLayout <==> position == 9,
        attach_step(position) is CreateConstantBuffer <==> position == 10,
        attach_step(position) is CreateBlendState <==> position == 11,
        attach_step(position) is CreateRasterizerState <==> position == 12,
        attach_step(position) is CreateDepthStencilState <==> position == 13,
        attach_step(position) is CreateSamplerState <==> position == 14,
        attach_step(position) is CreateVertexBuffer <==> position == 15,
        attach_step(position) is CreateIndexBuffer <==> position == 16,
        attach_step(position) is ReadFontAtlas <==> position == 17,
        attach_step(position) is CreateFontTexture <==> position == 18,
        attach_step(position) is CreateFontShaderResourceView <==> position == 19,
        attach_step(position) is GetBackBuffer <==> position == 20,
        attach_step(position) is CreateRenderTargetView <==> position == 21,
{
}

/// A step that fails natively is reported as its own operation, the three
/// buffers as one; shaders are told apart by their kind.
pub proof fn law_each_attach_step_reports_its_operation(step: AttachStep)
    ensures
        operation_of(step) == Some(GpuOperation::GetDevice) <==> step is GetDevice,
        operation_of(step) == Some(GpuOperation::GetImmediateContext) <==> step
            is GetImmediateContext,
        operation_of(step) == Some(GpuOperation::CreateVertexShader) <==> step is CreateVertexShader,
        operation_of(step) == Some(GpuOperation::CreatePixelShader) <==> step is CreatePixelShader,
        operation_of(step) == Some(GpuOperation::CreateInputLayout) <==> step is CreateInputLayout,
        operation_of(step) == Some(GpuOperation::CreateBuffer) <==> step is CreateConstantBuffer
            || step is CreateVertexBuffer || step is CreateIndexBuffer,
        operation_of(step) == Some(GpuOperation::CreateBlendState) <==> step is CreateBlendState,
        operation_of(step) == Some(GpuOperation::CreateRasterizerState) <==> step
            is CreateRasterizerState,
        operation_of(step) == Some(GpuOperation::CreateDepthStencilState) <==> step
            is CreateDepthStencilState,
        operation_of(step) == Some(GpuOperation::CreateSamplerState) <==> step is CreateSamplerState,
        operation_of(step) == Some(GpuOperation::CreateFontTexture) <==> step is CreateFontTexture,
        operation_of(step) == Some(GpuOperation::CreateFontShaderResourceView) <==> step
            is CreateFontShaderResourceView,
        operation_of(step) == Some(GpuOperation::GetBackBuffer) <==> step is GetBackBuffer,
        operation_of(step) == Some(GpuOperation::CreateRenderTargetView) <==> step
            is CreateRenderTargetView,
        shader_of(step) == Some(ShaderKind::Vertex) <==> step is CompileVertexShader || step
            is ReadVertexBytecode,
        shader_of(step) == Some(ShaderKind::Pixel) <==> step is CompilePixelShader || step
            is ReadPixelBytecode,
{
}

/// A native creation succeeds exactly where its status does and an object came
/// back, and a failure keeps the operation and the code.
pub proof fn law_creations_need_a_status_and_an_object(
    operation: GpuOperation,
    status: i32,
    object: usize,
)
    ensures
        object_result(operation, status, object) == Ok::<usize, RendererError>(object) <==> status
            >= 0 && object != 0,
        status < 0 ==> object_result(operation, status, object) == Err::<usize, _>(
            RendererError::HResult { operation, code: status },
        ),
        status >= 0 && object == 0 ==> object_result(operation, status, object) == Err::<usize, _>(
            RendererError::HResult { operation, code: (-0x7fff_bffd) as i32 },
        ),
{
}

/// A step of the attachment is passed exactly where its reply shows success.
pub proof fn law_attach_steps_pass_on_success(step: AttachStep, reply: AttachReply)
    requires
        reply_matches(step, reply),
    ensures
        attach_failure(step, reply) is None <==> match reply {
            AttachReply::Object { status, object } => status >= 0 && object != 0,
            AttachReply::Backend(result) => result is Ok,
            AttachReply::Bytecode { pointer, length } => pointer != 0 && 1 <= length <= isize::MAX,
            AttachReply::Atlas(reading) => font_texture_of(reading) is Ok,
        },
        (step is CompileVertexShader || step is ReadVertexBytecode) && attach_failure(step, reply)
            is Some ==> attach_failure(step, reply) == Some(
            RendererError::ShaderCompile(ShaderKind::Vertex),
        ),
        (step is CompilePixelShader || step is ReadPixelBytecode) && attach_failure(step, reply)
            is Some ==> attach_failure(step, reply) == Some(
            RendererError::ShaderCompile(ShaderKind::Pixel),
        ),
        reply matches AttachReply::Object { status, object } ==> (status < 0 && operation_of(step)
            is Some ==> attach_failure(step, reply) == Some(
            RendererError::HResult { operation: operation_of(step)->0, code: status },
        )),
{
}

/// Every command counts in its own statistic and in no other, and a draw counts
/// its elements besides.
pub proof fn law_each_command_counts_as_its_kind(stats: RenderStats, command: TranslatedCommand)
    ensures
        counted(stats, command) matches Some(after) ==> {
            &&& after.draw_calls == stats.draw_calls + (if command.kind is Draw {
                1int
            } else {
                0
            })
            &&& after.elements == stats.elements + (if command.kind is Draw {
                command.element_count as int
            } else {
                0
            })
            &&& after.user_callbacks == stats.user_callbacks + (if command.kind is Callback {
                1int
            } else {
                0
            })
            &&& after.reset_state_callbacks == stats.reset_state_callbacks + (if command.kind
                is ResetState {
                1int
            } else {
                0
            })
        },
        counted(stats, command) is None ==> {
            ||| stats.draw_calls == u32::MAX
            ||| stats.elements + command.element_count > u64::MAX
            ||| stats.user_callbacks == u32::MAX
            ||| stats.reset_state_callbacks == u32::MAX
        },
{
}

/// A command becomes the step of its own kind: a draw carries itself, and a
/// callback names its list and its position.
pub proof fn law_each_command_becomes_its_step(
    command: TranslatedCommand,
    list: usize,
    position: usize,
)
    ensures
        command.kind is Draw <==> step_of(command, list, position) == DrawStep::Draw(command),
        command.kind is Callback ==> (step_of(command, list, position) matches DrawStep::Callback {
            list: called,
            command: at,
        } && called == list && at == position),
        command.kind is ResetState <==> step_of(command, list, position) is SetupRenderState,
{
}

/// The lists lie one behind the other in the shared buffers, from the start on.
pub proof fn law_lists_are_adjacent(lists: Seq<DrawList>, position: nat)
    ensures
        vertex_base(lists, 0) == 0,
        index_base(lists, 0) == 0,
        vertex_base(lists, position + 1) - vertex_base(lists, position)
            == lists[position as int].vertex_count,
        index_base(lists, position + 1) - index_base(lists, position)
            == lists[position as int].index_count,
{
}

/// Whether a draw is the draw of a command whose list starts at these
/// positions of the shared buffers.
spec fn draws_command(
    draw: TranslatedCommand,
    command: DrawCommand,
    vertices: int,
    indices: int,
) -> bool {
    &&& command.callback is None
    &&& draw.texture == command.texture
    &&& draw.element_count == command.element_count
    &&& draw.start_index == indices + command.index_offset
    &&& draw.base_vertex == vertices + command.vertex_offset
}

/// Whether a step comes from a command of a list.
spec fn comes_from(
    step: DrawStep,
    list: DrawList,
    position: int,
    vertices: int,
    indices: int,
) -> bool {
    &&& 0 <= position < list.commands@.len()
    &&& match step {
        DrawStep::Draw(draw) => draws_command(draw, list.commands@[position], vertices, indices),
        DrawStep::Callback { list: raw, command } => {
            &&& raw == list.raw
            &&& command == position as usize
            &&& list.commands@[position].callback is Some
            &&& list.commands@[position].callback->0 != usize::MAX
        },
        DrawStep::SetupRenderState => list.commands@[position].callback == Some(usize::MAX),
    }
}

proof fn lemma_steps_of_a_list(
    geometry: FrameGeometry,
    start: Progress,
    list: DrawList,
    count: nat,
    vertices: usize,
    indices: usize,
    at: int,
)
    requires
        count <= list.commands@.len(),
        start.steps.len() <= at < drawn(geometry, start, list, count, vertices, indices).steps.len(),
    ensures
        exists|position: int|
            comes_from(
                drawn(geometry, start, list, count, vertices, indices).steps[at],
                list,
                position,
                vertices as int,
                indices as int,
            ),
    decreases count,
{
    let before = drawn(geometry, start, list, (count - 1) as nat, vertices, indices);
    let after = drawn(geometry, start, list, count, vertices, indices);
    if at < before.steps.len() {
        lemma_steps_of_a_list(
            geometry,
            start,
            list,
            (count - 1) as nat,
            vertices,
            indices,
            at,
        );
        let position = choose|position: int|
            comes_from(before.steps[at], list, position, vertices as int, indices as int);
        assert(comes_from(after.steps[at], list, position, vertices as int, indices as int));
    } else {
        assert(comes_from(after.steps[at], list, count - 1, vertices as int, indices as int));
    }
}

proof fn lemma_steps_stay(
    geometry: FrameGeometry,
    start: Progress,
    list: DrawList,
    count: nat,
    vertices: usize,
    indices: usize,
)
    ensures
        start.steps.is_prefix_of(drawn(geometry, start, list, count, vertices, indices).steps),
    decreases count,
{
    if count > 0 {
        lemma_steps_stay(geometry, start, list, (count - 1) as nat, vertices, indices);
    }
}

/// Submission starts with a setup of the render state. Every further step comes
/// from a command of a list: a draw takes texture and element count from it and
/// starts where the list starts plus the command's own offsets, a callback
/// names the list and the command's position in it, and a setup of the render
/// state comes from a command that asks for one.
pub proof fn law_every_step_comes_from_a_command(
    geometry: FrameGeometry,
    lists: Seq<DrawList>,
    count: nat,
    at: int,
) -> (source: (int, int))
    requires
        count <= lists.len(),
        0 <= at < drawn_lists(geometry, lists, count).steps.len(),
    ensures
        at == 0 ==> drawn_lists(geometry, lists, count).steps[at] is SetupRenderState,
        at > 0 ==> {
            let (i, position) = source;
            let list = lists[i];
            let command = list.commands@[position];
            &&& 0 <= i < count
            &&& 0 <= position < list.commands@.len()
            &&& match drawn_lists(geometry, lists, count).steps[at] {
                DrawStep::Draw(draw) => {
                    &&& command.callback is None
                    &&& draw.texture == command.texture
                    &&& draw.element_count == command.element_count
                    &&& draw.start_index == index_base(lists, i as nat) + command.index_offset
                    &&& draw.base_vertex == vertex_base(lists, i as nat) + command.vertex_offset
                },
                DrawStep::Callback { list: raw, command: called } => {
                    &&& raw == list.raw
                    &&& called == position
                    &&& command.callback is Some
                    &&& command.callback->0 != usize::MAX
                },
                DrawStep::SetupRenderState => command.callback == Some(usize::MAX),
            }
        },
    decreases count,
{
    if count == 0 {
        (0, 0)
    } else {
        let before = drawn_lists(geometry, lists, (count - 1) as nat);
        if before.failure is Some {
            law_every_step_comes_from_a_command(geometry, lists, (count - 1) as nat, at)
        } else {
            lemma_bases_fit(geometry, lists, (count - 1) as nat);
            let list = lists[count - 1];
            let vertices = vertex_base(lists, (count - 1) as nat) as usize;
            let indices = index_base(lists, (count - 1) as nat) as usize;
            lemma_steps_stay(geometry, before, list, list.commands@.len(), vertices, indices);
            let after = drawn(geometry, before, list, list.commands@.len(), vertices, indices);
            if at < before.steps.len() {
                let source = law_every_step_comes_from_a_command(
                    geometry,
                    lists,
                    (count - 1) as nat,
                    at,
                );
                assert(after.steps[at] == before.steps[at]);
                source
            } else {
                lemma_steps_of_a_list(
                    geometry,
                    before,
                    list,
                    list.commands@.len(),
                    vertices,
                    indices,
                    at,
                );
                lemma_setup_comes_first(geometry, lists, (count - 1) as nat);
                let position = choose|position: int|
                    comes_from(after.steps[at], list, position, vertices as int, indices as int);
                assert(list.commands@.len() == list.commands.len());
                (count - 1, position)
            }
        }
    }
}

proof fn lemma_setup_comes_first(geometry: FrameGeometry, lists: Seq<DrawList>, count: nat)
    ensures
        drawn_lists(geometry, lists, count).steps.len() > 0,
        drawn_lists(geometry, lists, count).steps[0] is SetupRenderState,
    decreases count,
{
    if count > 0 {
        lemma_setup_comes_first(geometry, lists, (count - 1) as nat);
        let before = drawn_lists(geometry, lists, (count - 1) as nat);
        let list = lists[count - 1];
        lemma_steps_stay(
            geometry,
            before,
            list,
            list.commands@.len(),
            vertex_base(lists, (count - 1) as nat) as usize,
            index_base(lists, (count - 1) as nat) as usize,
        );
    }
}

proof fn lemma_bases_fit(geometry: FrameGeometry, lists: Seq<DrawList>, count: nat)
    requires
        count <= lists.len(),
        drawn_lists(geometry, lists, count).failure is None,
    ensures
        0 <= vertex_base(lists, count) <= usize::MAX,
        0 <= index_base(lists, count) <= usize::MAX,
    decreases count,
{
    lemma_bases_grow(lists, 0, count);
}

proof fn lemma_steps_are_counted(
    geometry: FrameGeometry,
    start: Progress,
    list: DrawList,
    count: nat,
    vertices: usize,
    indices: usize,
)
    requires
        start.failure is None,
        drawn(geometry, start, list, count, vertices, indices).failure is None,
    ensures
        ({
            let end = drawn(geometry, start, list, count, vertices, indices);
            end.steps.len() - end.stats.draw_calls - end.stats.user_callbacks
                - end.stats.reset_state_callbacks == start.steps.len() - start.stats.draw_calls
                - start.stats.user_callbacks - start.stats.reset_state_callbacks
        }),
    decreases count,
{
    if count > 0 {
        lemma_steps_are_counted(
            geometry,
            start,
            list,
            (count - 1) as nat,
            vertices,
            indices,
        );
    }
}

/// After the first setup of the render state, every step of a submission that
/// succeeded was counted once.
pub proof fn law_every_step_is_counted(geometry: FrameGeometry, lists: Seq<DrawList>, count: nat)
    requires
        drawn_lists(geometry, lists, count).failure is None,
    ensures
        ({
            let end = drawn_lists(geometry, lists, count);
            end.steps.len() == 1 + end.stats.draw_calls + end.stats.user_callbacks
                + end.stats.reset_state_callbacks
        }),
    decreases count,
{
    if count > 0 {
        law_every_step_is_counted(geometry, lists, (count - 1) as nat);
        let list = lists[count - 1];
        lemma_steps_are_counted(
            geometry,
            drawn_lists(geometry, lists, (count - 1) as nat),
            list,
            list.commands@.len(),
            vertex_base(lists, (count - 1) as nat) as usize,
            index_base(lists, (count - 1) as nat) as usize,
        );
    }
}

/// A generation never moves back: an older one is refused and changes nothing,
/// the same one changes nothing, and a newer one is taken over with one step of
/// the resource generation. Capacities do not depend on it.
pub proof fn law_synchronization_never_moves_back(
    before: GpuModel,
    generation: u64,
    after: GpuModel,
    result: Result<(), RendererError>,
)
    requires
        synchronized(before, generation, after, result),
    ensures
        after.generation == if before.generation < generation {
            generation as nat
        } else {
            before.generation
        },
        after.vertex_capacity == before.vertex_capacity,
        after.index_capacity == before.index_capacity,
        result is Ok ==> after.generation == generation,
        result is Ok && before.generation != generation ==> after.resource_generation
            == before.resource_generation + 1,
        result is Ok && before.generation == generation ==> after.resource_generation
            == before.resource_generation,
        result is Err ==> after.resource_generation == before.resource_generation,
        generation < before.generation <==> result == Err::<(), _>(RendererError::StaleGeneration),
        result is Ok <==> generation == before.generation || (generation > before.generation
            && before.resource_generation != u64::MAX),
{
}

/// A back buffer is taken over for the generation in force alone, with one step
/// of the resource generation; a failure keeps everything.
pub proof fn law_recreation_keeps_the_generation(
    before: GpuModel,
    generation: u64,
    acquired: Result<(), RendererError>,
    after: GpuModel,
    result: Result<(), RendererError>,
)
    requires
        recreated(before, generation, acquired, after, result),
    ensures
        after.generation == before.generation,
        after.vertex_capacity == before.vertex_capacity,
        after.index_capacity == before.index_capacity,
        result is Ok <==> generation == before.generation && acquired is Ok
            && before.resource_generation != u64::MAX,
        result is Ok ==> after.resource_generation == before.resource_generation + 1,
        result is Err ==> after.resource_generation == before.resource_generation,
        generation != before.generation ==> result == Err::<(), _>(RendererError::StaleGeneration),
        generation == before.generation && acquired is Err ==> result == acquired,
{
}

/// A command that stays within its list is never refused.
pub proof fn law_commands_within_their_list_pass(
    command: DrawCommand,
    vertex_count: int,
    index_count: int,
)
    requires
        index_count <= usize::MAX,
    ensures
        command_failure(command, vertex_count, index_count) is None <==> command.callback is Some
            || (command.index_offset + command.element_count <= index_count
            && command.vertex_offset <= vertex_count),
{
}

/// The arrays of a sound list can be read in full: vertices of twenty bytes,
/// indices of two, and commands of fifty-six.
pub proof fn law_sound_lists_can_be_read(list: RawDrawList)
    ensures
        list_sound(list) ==> {
            &&& list.raw != 0
            &&& list.vertices.size >= 0 && list.indices.size >= 0 && list.commands.size >= 0
            &&& list.vertices.size > 0 ==> list.vertices.data != 0
            &&& list.indices.size > 0 ==> list.indices.data != 0
            &&& list.commands.size > 0 ==> list.commands.data != 0
            &&& list.vertices.size * 20 <= isize::MAX
            &&& list.indices.size * 2 <= isize::MAX
            &&& list.commands.size * 56 <= isize::MAX
        },
        !list_sound(list) ==> {
            ||| list.raw == 0
            ||| list.vertices.size < 0 || list.indices.size < 0 || list.commands.size < 0
            ||| list.vertices.size > 0 && list.vertices.data == 0
            ||| list.indices.size > 0 && list.indices.data == 0
            ||| list.commands.size > 0 && list.commands.data == 0
            ||| list.vertices.size * 20 > isize::MAX
            ||| list.indices.size * 2 > isize::MAX
            ||| list.commands.size * 56 > isize::MAX
        },
{
}

/// The counts of the lists are those that the draw data promised.
pub proof fn law_collected_counts_are_the_promised_ones(
    lists: Seq<RawDrawList>,
    expected_vertices: usize,
    expected_indices: usize,
)
    requires
        collection_failure(lists, expected_vertices, expected_indices) is None,
    ensures
        vertices_before(lists, lists.len()) == expected_vertices,
        indices_before(lists, lists.len()) == expected_indices,
        forall|i: int| 0 <= i < lists.len() ==> list_sound(#[trigger] lists[i]),
{
    lemma_lists_are_sound(lists, lists.len());
}

proof fn lemma_lists_are_sound(lists: Seq<RawDrawList>, count: nat)
    requires
        lists_failure(lists, count) is None,
    ensures
        forall|i: int| 0 <= i < count ==> list_sound(#[trigger] lists[i]),
    decreases count,
{
    if count > 0 {
        lemma_lists_are_sound(lists, (count - 1) as nat);
    }
}

/// A plan keeps the lists in order and promises the counts of the draw data.
pub proof fn law_a_plan_keeps_the_draw_data(
    plan: FramePlan,
    reading: GeometryReading,
    totals: DrawTotals,
    lists: Seq<RawDrawList>,
    i: int,
)
    requires
        is_plan_of(plan, reading, totals, lists),
        0 <= i < lists.len(),
    ensures
        plan.vertex_count == totals.vertex_count,
        plan.index_count == totals.index_count,
        plan.lists@.len() == lists.len(),
        plan.lists@[i].raw == lists[i].raw,
        plan.lists@[i].vertex_count == lists[i].vertices.size,
        plan.lists@[i].index_count == lists[i].indices.size,
        plan.lists@[i].commands@ == lists[i].command_values@,
        plan.geometry.framebuffer_width == crate::float_bits::ceiling_of(reading.scaled_size[0]),
        plan.geometry.framebuffer_height == crate::float_bits::ceiling_of(reading.scaled_size[1]),
{
    assert(is_collected(lists[i], plan.lists@[i]));
}

/// A frame is refused for its generation first, for its back buffer next, and
/// for its draw data last.
pub proof fn law_frames_are_refused_in_order(
    current: nat,
    generation: u64,
    acquired: Result<(), RendererError>,
    draw_data: usize,
    reading: GeometryReading,
    totals: DrawTotals,
    lists: Seq<RawDrawList>,
)
    ensures
        ({
            let failure = render_failure(
                current,
                generation,
                acquired,
                draw_data,
                reading,
                totals,
                lists,
            );
            &&& generation != current ==> failure == Some(RendererError::StaleGeneration)
            &&& generation == current && acquired is Err ==> failure == Some(acquired->Err_0)
            &&& failure is None ==> {
                &&& generation == current
                &&& acquired is Ok
                &&& draw_data != 0
                &&& totals.valid
                &&& geometry_failure(reading) is None
                &&& totals.vertex_count >= 0 && totals.index_count >= 0 && totals.list_count >= 0
                &&& vertices_before(lists, lists.len()) == totals.vertex_count
                &&& indices_before(lists, lists.len()) == totals.index_count
            }
        }),
{
}

} // verus!
