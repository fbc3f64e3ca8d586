//! Closed, redaction-safe renderer errors.
use vstd::prelude::*;
use crate::imgui::context::{ContextError, FrameError};
use crate::text::{decimal, hexadecimal, Message};

verus! {

/// The result code for a null pointer where an interface was expected.
pub const E_POINTER: i32 = -2147467261;

/// GPU operation associated with a failing HRESULT.
#[derive(Clone, Copy, Debug, PartialEq, Eq, Structural)]
pub enum GpuOperation {
    /// Acquire a D3D11 device from a swap chain.
    GetDevice,
    /// Acquire the immediate device context.
    GetImmediateContext,
    /// Acquire the current swap-chain back buffer.
    GetBackBuffer,
    /// Create a render-target view.
    CreateRenderTargetView,
    /// Create a GPU buffer.
    CreateBuffer,
    /// Map a dynamic resource.
    MapResource,
    /// Create a vertex shader.
    CreateVertexShader,
    /// Create a pixel shader.
    CreatePixelShader,
    /// Create an input layout.
    CreateInputLayout,
    /// Create a blend state.
    CreateBlendState,
    /// Create a rasterizer state.
    CreateRasterizerState,
    /// Create a depth/stencil state.
    CreateDepthStencilState,
    /// Create a sampler state.
    CreateSamplerState,
    /// Create the font texture.
    CreateFontTexture,
    /// Create the font shader-resource view.
    CreateFontShaderResourceView,
}

/// The name of an operation in diagnostics.
pub open spec fn operation_text(value: GpuOperation) -> Seq<char> {
    match value {
        GpuOperation::GetDevice => "GetDevice"@,
        GpuOperation::GetImmediateContext => "GetImmediateContext"@,
        GpuOperation::GetBackBuffer => "GetBackBuffer"@,
        GpuOperation::CreateRenderTargetView => "CreateRenderTargetView"@,
        GpuOperation::CreateBuffer => "CreateBuffer"@,
        GpuOperation::MapResource => "MapResource"@,
        GpuOperation::CreateVertexShader => "CreateVertexShader"@,
        GpuOperation::CreatePixelShader => "CreatePixelShader"@,
        GpuOperation::CreateInputLayout => "CreateInputLayout"@,
        GpuOperation::CreateBlendState => "CreateBlendState"@,
        GpuOperation::CreateRasterizerState => "CreateRasterizerState"@,
        GpuOperation::CreateDepthStencilState => "CreateDepthStencilState"@,
        GpuOperation::CreateSamplerState => "CreateSamplerState"@,
        GpuOperation::CreateFontTexture => "CreateFontTexture"@,
        GpuOperation::CreateFontShaderResourceView => "CreateFontShaderResourceView"@,
    }
}

impl GpuOperation {
    /// Returns the name in diagnostics.
    pub fn label(self) -> (label: &'static str)
        ensures
            label@ == operation_text(self),
    {
        match self {
            Self::GetDevice => "GetDevice",
            Self::GetImmediateContext => "GetImmediateContext",
            Self::GetBackBuffer => "GetBackBuffer",
            Self::CreateRenderTargetView => "CreateRenderTargetView",
            Self::CreateBuffer => "CreateBuffer",
            Self::MapResource => "MapResource",
            Self::CreateVertexShader => "CreateVertexShader",
            Self::CreatePixelShader => "CreatePixelShader",
            Self::CreateInputLayout => "CreateInputLayout",
            Self::CreateBlendState => "CreateBlendState",
            Self::CreateRasterizerState => "CreateRasterizerState",
            Self::CreateDepthStencilState => "CreateDepthStencilState",
            Self::CreateSamplerState => "CreateSamplerState",
            Self::CreateFontTexture => "CreateFontTexture",
            Self::CreateFontShaderResourceView => "CreateFontShaderResourceView",
        }
    }
}

/// Shader compiled for the renderer.
#[derive(Clone, Copy, Debug, PartialEq, Eq, Structural)]
pub enum ShaderKind {
    /// Dear ImGui vertex shader.
    Vertex,
    /// Dear ImGui pixel shader.
    Pixel,
}

/// The name of a shader in diagnostics.
pub open spec fn kind_text(value: ShaderKind) -> Seq<char> {
    match value {
        ShaderKind::Vertex => "Vertex"@,
        ShaderKind::Pixel => "Pixel"@,
    }
}

impl ShaderKind {
    /// Returns the name in diagnostics.
    pub fn label(self) -> (label: &'static str)
        ensures
            label@ == kind_text(self),
    {
        match self {
            Self::Vertex => "Vertex",
            Self::Pixel => "Pixel",
        }
    }
}

/// Section of the pipeline that is captured and restored as one.
#[derive(Clone, Copy, Debug, PartialEq, Eq, Structural)]
pub enum StateStep {
    /// Render targets, unordered access views, blending, and depth.
    OutputMerger,
    /// Stream-output targets.
    StreamOutput,
    /// Unordered access views of the compute stage.
    ComputeOutputs,
    /// Input layout, vertex and index buffers, and topology.
    InputAssembler,
    /// Rasterizer state, viewports, and scissor rectangles.
    Rasterizer,
    /// Vertex shader stage.
    VertexShader,
    /// Hull shader stage.
    HullShader,
    /// Domain shader stage.
    DomainShader,
    /// Geometry shader stage.
    GeometryShader,
    /// Pixel shader stage.
    PixelShader,
    /// Compute shader stage.
    ComputeShader,
    /// Predication.
    Predication,
}

/// The name of a section in diagnostics.
pub open spec fn step_text(value: StateStep) -> Seq<char> {
    match value {
        StateStep::OutputMerger => "OutputMerger"@,
        StateStep::StreamOutput => "StreamOutput"@,
        StateStep::ComputeOutputs => "ComputeOutputs"@,
        StateStep::InputAssembler => "InputAssembler"@,
        StateStep::Rasterizer => "Rasterizer"@,
        StateStep::VertexShader => "VertexShader"@,
        StateStep::HullShader => "HullShader"@,
        StateStep::DomainShader => "DomainShader"@,
        StateStep::GeometryShader => "GeometryShader"@,
        StateStep::PixelShader => "PixelShader"@,
        StateStep::ComputeShader => "ComputeShader"@,
        StateStep::Predication => "Predication"@,
    }
}

impl StateStep {
    /// Returns the name in diagnostics.
    pub fn label(self) -> (label: &'static str)
        ensures
            label@ == step_text(self),
    {
        match self {
            Self::OutputMerger => "OutputMerger",
            Self::StreamOutput => "StreamOutput",
            Self::ComputeOutputs => "ComputeOutputs",
            Self::InputAssembler => "InputAssembler",
            Self::Rasterizer => "Rasterizer",
            Self::VertexShader => "VertexShader",
            Self::HullShader => "HullShader",
            Self::DomainShader => "DomainShader",
            Self::GeometryShader => "GeometryShader",
            Self::PixelShader => "PixelShader",
            Self::ComputeShader => "ComputeShader",
            Self::Predication => "Predication",
        }
    }
}

/// Closed renderer failure categories.
#[derive(Clone, Copy, Debug, PartialEq, Eq)]
pub enum RendererError {
    /// Native-compatible ImGui context setup failed.
    Context(ContextError),
    /// Dear ImGui frame validation or finalization failed.
    Frame(FrameError),
    /// A required raw pointer was null.
    NullPointer(&'static str),
    /// An ImGui count or pointer tuple was invalid.
    InvalidDrawData,
    /// A count, byte size, or draw offset overflowed its API representation.
    DrawDataOverflow,
    /// The draw data belongs to a different swap-chain generation.
    StaleGeneration,
    /// The framebuffer has no drawable pixels.
    InvalidFramebuffer,
    /// A deterministic built-in shader failed to compile.
    ShaderCompile(ShaderKind),
    /// A D3D11/DXGI operation returned a failing HRESULT.
    HResult {
        /// Operation that failed.
        operation: GpuOperation,
        /// Exact HRESULT value.
        code: i32,
    },
    /// Exhaustive state capture failed before drawing.
    StateCapture {
        /// Pipeline section that could not be captured.
        step: StateStep,
    },
    /// Exhaustive state restoration attempted every section but one or more failed.
    StateRestore {
        /// Number of failed restore sections.
        failures: usize,
    },
    /// The renderer has not uploaded a font atlas.
    FontAtlasUnavailable,
    /// Dear ImGui did not expose an atlas or RGBA pixels.
    InvalidFontAtlas,
    /// A backend invariant was violated.
    StateBackend,
}

impl RendererError {
    /// The message of the failure.
    pub open spec fn text(self) -> Seq<char> {
        match self {
            Self::Context(error) => error.text(),
            Self::Frame(error) => error.text(),
            Self::NullPointer(name) => "a required "@ + name@ + " pointer was null"@,
            Self::InvalidDrawData => "Dear ImGui draw data is structurally invalid"@,
            Self::DrawDataOverflow => "Dear ImGui draw data exceeds D3D11 limits"@,
            Self::StaleGeneration => "draw data targeted a stale swap-chain generation"@,
            Self::InvalidFramebuffer => "the Dear ImGui framebuffer is empty or invalid"@,
            Self::ShaderCompile(kind) => "the built-in "@ + kind_text(kind)
                + " shader failed to compile"@,
            Self::HResult { operation, code } => "D3D11 operation "@ + operation_text(operation)
                + " failed with HRESULT "@ + hexadecimal(code as u32),
            Self::StateCapture { step } => "D3D11 state capture failed at "@ + step_text(step),
            Self::StateRestore { failures } => "D3D11 state restoration failed in "@ + decimal(
                failures as nat,
            ) + " section(s)"@,
            Self::FontAtlasUnavailable => "the Dear ImGui font atlas is not installed"@,
            Self::InvalidFontAtlas => "the Dear ImGui RGBA font atlas is unavailable"@,
            Self::StateBackend => {
                "the D3D11 state backend rejected an internal pipeline value"@
            },
        }
    }

    /// Formats the failure for diagnostics.
    pub fn to_string(&self) -> (text: String)
        ensures
            text@ == self.text(),
    {
        let mut message = Message::new();
        match *self {
            Self::Context(error) => return error.to_string(),
            Self::Frame(error) => return error.to_string(),
            Self::NullPointer(name) => {
                message.text("a required ");
                message.text(name);
                message.text(" pointer was null");
            },
            Self::InvalidDrawData => message.text("Dear ImGui draw data is structurally invalid"),
            Self::DrawDataOverflow => message.text("Dear ImGui draw data exceeds D3D11 limits"),
            Self::StaleGeneration => {
                message.text("draw data targeted a stale swap-chain generation")
            },
            Self::InvalidFramebuffer => {
                message.text("the Dear ImGui framebuffer is empty or invalid")
            },
            Self::ShaderCompile(kind) => {
                message.text("the built-in ");
                message.text(kind.label());
                message.text(" shader failed to compile");
            },
            Self::HResult { operation, code } => {
                message.text("D3D11 operation ");
                message.text(operation.label());
                message.text(" failed with HRESULT ");
                message.hexadecimal(code as u32);
            },
            Self::StateCapture { step } => {
                message.text("D3D11 state capture failed at ");
                message.text(step.label());
            },
            Self::StateRestore { failures } => {
                message.text("D3D11 state restoration failed in ");
                message.number(failures as u64);
                message.text(" section(s)");
            },
            Self::FontAtlasUnavailable => {
                message.text("the Dear ImGui font atlas is not installed")
            },
            Self::InvalidFontAtlas => message.text("the Dear ImGui RGBA font atlas is unavailable"),
            Self::StateBackend => {
                message.text("the D3D11 state backend rejected an internal pipeline value")
            },
        }
        proof {
            assert(message@ =~= self.text());
        }
        message.finish()
    }
}

/// Each operation is known by its own name, and no two share one.
pub proof fn law_each_operation_has_its_label(operation: GpuOperation)
    ensures
        operation_text(operation) == "GetDevice"@ <==> operation is GetDevice,
        operation_text(operation) == "GetImmediateContext"@ <==> operation is GetImmediateContext,
        operation_text(operation) == "GetBackBuffer"@ <==> operation is GetBackBuffer,
        operation_text(operation) == "CreateRenderTargetView"@ <==> operation is CreateRenderTargetView,
        operation_text(operation) == "CreateBuffer"@ <==> operation is CreateBuffer,
        operation_text(operation) == "MapResource"@ <==> operation is MapResource,
        operation_text(operation) == "CreateVertexShader"@ <==> operation is CreateVertexShader,
        operation_text(operation) == "CreatePixelShader"@ <==> operation is CreatePixelShader,
        operation_text(operation) == "CreateInputLayout"@ <==> operation is CreateInputLayout,
        operation_text(operation) == "CreateBlendState"@ <==> operation is CreateBlendState,
        operation_text(operation) == "CreateRasterizerState"@ <==> operation is CreateRasterizerState,
        operation_text(operation) == "CreateDepthStencilState"@ <==> operation is CreateDepthStencilState,
        operation_text(operation) == "CreateSamplerState"@ <==> operation is CreateSamplerState,
        operation_text(operation) == "CreateFontTexture"@ <==> operation is CreateFontTexture,
        operation_text(operation) == "CreateFontShaderResourceView"@ <==> operation is CreateFontShaderResourceView,
{
    reveal_strlit("GetDevice");
    assert("GetDevice"@.len() == 9);
    reveal_strlit("GetImmediateContext");
    assert("GetImmediateContext"@.len() == 19);
    reveal_strlit("GetBackBuffer");
    assert("GetBackBuffer"@.len() == 13);
    reveal_strlit("CreateRenderTargetView");
    assert("CreateRenderTargetView"@.len() == 22);
    reveal_strlit("CreateBuffer");
    assert("CreateBuffer"@.len() == 12);
    reveal_strlit("MapResource");
    assert("MapResource"@.len() == 11);
    reveal_strlit("CreateVertexShader");
    assert("CreateVertexShader"@.len() == 18);
    reveal_strlit("CreatePixelShader");
    assert("CreatePixelShader"@.len() == 17);
    reveal_strlit("CreateInputLayout");
    assert("CreateInputLayout"@.len() == 17);
    reveal_strlit("CreateBlendState");
    assert("CreateBlendState"@.len() == 16);
    reveal_strlit("CreateRasterizerState");
    assert("CreateRasterizerState"@.len() == 21);
    reveal_strlit("CreateDepthStencilState");
    assert("CreateDepthStencilState"@.len() == 23);
    reveal_strlit("CreateSamplerState");
    assert("CreateSamplerState"@.len() == 18);
    reveal_strlit("CreateFontTexture");
    assert("CreateFontTexture"@.len() == 17);
    reveal_strlit("CreateFontShaderResourceView");
    assert("CreateFontShaderResourceView"@.len() == 28);
    assert("CreateVertexShader"@[6] != "CreateSamplerState"@[6]);
    assert("CreatePixelShader"@[6] != "CreateInputLayout"@[6]);
    assert("CreatePixelShader"@[6] != "CreateFontTexture"@[6]);
    assert("CreateInputLayout"@[6] != "CreateFontTexture"@[6]);
}

/// Each kind of shader is known by its own name, and no two share one.
pub proof fn law_each_shader_kind_has_its_label(kind: ShaderKind)
    ensures
        kind_text(kind) == "Vertex"@ <==> kind is Vertex,
        kind_text(kind) == "Pixel"@ <==> kind is Pixel,
{
    reveal_strlit("Vertex");
    assert("Vertex"@.len() == 6);
    reveal_strlit("Pixel");
    assert("Pixel"@.len() == 5);
}

/// Each step of a state capture is known by its own name, and no two share one.
pub proof fn law_each_step_has_its_label(step: StateStep)
    ensures
        step_text(step) == "OutputMerger"@ <==> step is OutputMerger,
        step_text(step) == "StreamOutput"@ <==> step is StreamOutput,
        step_text(step) == "ComputeOutputs"@ <==> step is ComputeOutputs,
        step_text(step) == "InputAssembler"@ <==> step is InputAssembler,
        step_text(step) == "Rasterizer"@ <==> step is Rasterizer,
        step_text(step) == "VertexShader"@ <==> step is VertexShader,
        step_text(step) == "HullShader"@ <==> step is HullShader,
        step_text(step) == "DomainShader"@ <==> step is DomainShader,
        step_text(step) == "GeometryShader"@ <==> step is GeometryShader,
        step_text(step) == "PixelShader"@ <==> step is PixelShader,
        step_text(step) == "ComputeShader"@ <==> step is ComputeShader,
        step_text(step) == "Predication"@ <==> step is Predication,
{
    reveal_strlit("OutputMerger");
    assert("OutputMerger"@.len() == 12);
    reveal_strlit("StreamOutput");
    assert("StreamOutput"@.len() == 12);
    reveal_strlit("ComputeOutputs");
    assert("ComputeOutputs"@.len() == 14);
    reveal_strlit("InputAssembler");
    assert("InputAssembler"@.len() == 14);
    reveal_strlit("Rasterizer");
    assert("Rasterizer"@.len() == 10);
    reveal_strlit("VertexShader");
    assert("VertexShader"@.len() == 12);
    reveal_strlit("HullShader");
    assert("HullShader"@.len() == 10);
    reveal_strlit("DomainShader");
    assert("DomainShader"@.len() == 12);
    reveal_strlit("GeometryShader");
    assert("GeometryShader"@.len() == 14);
    reveal_strlit("PixelShader");
    assert("PixelShader"@.len() == 11);
    reveal_strlit("ComputeShader");
    assert("ComputeShader"@.len() == 13);
    reveal_strlit("Predication");
    assert("Predication"@.len() == 11);
    assert("OutputMerger"@[0] != "StreamOutput"@[0]);
    assert("OutputMerger"@[0] != "VertexShader"@[0]);
    assert("OutputMerger"@[0] != "DomainShader"@[0]);
    assert("StreamOutput"@[0] != "VertexShader"@[0]);
    assert("StreamOutput"@[0] != "DomainShader"@[0]);
    assert("ComputeOutputs"@[0] != "InputAssembler"@[0]);
    assert("ComputeOutputs"@[0] != "GeometryShader"@[0]);
    assert("InputAssembler"@[0] != "GeometryShader"@[0]);
    assert("Rasterizer"@[0] != "HullShader"@[0]);
    assert("VertexShader"@[0] != "DomainShader"@[0]);
    assert("PixelShader"@[1] != "Predication"@[1]);
}

} // verus!
