//! Restoring every captured section of the pipeline in a hazard-safe order.
use vstd::prelude::*;
use crate::d3d11::error::{RendererError, StateStep};
use crate::d3d11::state::{
    bound, bound_slots, compute_outputs_plan, input_assembler_plan, lemma_handle_keeps_its_address,
    output_merger_plan, owned_buffers, owned_handle, owned_handles, predication_plan, range_of,
    range_missing, ranges_to_set, rasterizer_plan, raw, raws, setters, stage_plan,
    stream_output_plan, unbound, ComputeState, ConstantRange, ExhaustiveWindowsBackend,
    InputAssemblerState, OutputMergerState, PipelineCommand, PipelineHandle, Plan, PredicationState,
    ProgrammableStageState, RasterizerState, Rect, Restoration, Setter, ShaderStage,
    StreamOutputState, Viewport, OM_RENDER_TARGET_SLOTS, PS_CS_UAV_SLOTS,
    SHADER_MAX_CLASS_INSTANCES,
};

verus! {

/// Number of sections that are restored.
pub const SECTION_COUNT: usize = 12;

/// The section at a position of the restoration order.
pub open spec fn section(position: int) -> StateStep {
    if position == 0 {
        StateStep::OutputMerger
    } else if position == 1 {
        StateStep::StreamOutput
    } else if position == 2 {
        StateStep::ComputeOutputs
    } else if position == 3 {
        StateStep::InputAssembler
    } else if position == 4 {
        StateStep::Rasterizer
    } else if position == 5 {
        StateStep::VertexShader
    } else if position == 6 {
        StateStep::HullShader
    } else if position == 7 {
        StateStep::DomainShader
    } else if position == 8 {
        StateStep::GeometryShader
    } else if position == 9 {
        StateStep::PixelShader
    } else if position == 10 {
        StateStep::ComputeShader
    } else {
        StateStep::Predication
    }
}

/// Returns the section at a position of the restoration order. Outputs come
/// before inputs, so that no resource is bound as both at once.
pub fn restore_step(position: usize) -> (step: StateStep)
    requires
        position < SECTION_COUNT,
    ensures
        step == section(position as int),
{
    match position {
        0 => StateStep::OutputMerger,
        1 => StateStep::StreamOutput,
        2 => StateStep::ComputeOutputs,
        3 => StateStep::InputAssembler,
        4 => StateStep::Rasterizer,
        5 => StateStep::VertexShader,
        6 => StateStep::HullShader,
        7 => StateStep::DomainShader,
        8 => StateStep::GeometryShader,
        9 => StateStep::PixelShader,
        10 => StateStep::ComputeShader,
        _ => StateStep::Predication,
    }
}

/// Every captured section.
pub struct PipelineState {
    /// Output merger.
    pub output_merger: OutputMergerState,
    /// Stream output.
    pub stream_output: StreamOutputState,
    /// Compute stage.
    pub compute: ComputeState,
    /// Input assembler.
    pub input_assembler: InputAssemblerState,
    /// Rasterizer.
    pub rasterizer: RasterizerState,
    /// Vertex stage.
    pub vertex: ProgrammableStageState,
    /// Hull stage.
    pub hull: ProgrammableStageState,
    /// Domain stage.
    pub domain: ProgrammableStageState,
    /// Geometry stage.
    pub geometry: ProgrammableStageState,
    /// Pixel stage.
    pub pixel: ProgrammableStageState,
    /// Predication.
    pub predication: PredicationState,
}

impl PipelineState {
    /// The output merger was captured slot by slot.
    pub open spec fn complete(self) -> bool {
        &&& self.output_merger.render_targets@.len() == OM_RENDER_TARGET_SLOTS
        &&& self.output_merger.unordered_access_views@.len() == PS_CS_UAV_SLOTS
    }
}

/// How one section is restored.
pub open spec fn section_plan(
    backend: ExhaustiveWindowsBackend,
    state: PipelineState,
    step: StateStep,
) -> Plan {
    let ranged = backend.ranges_supported();
    match step {
        StateStep::OutputMerger => output_merger_plan(
            backend.slots(),
            backend.extended_output_views(),
            state.output_merger,
        ),
        StateStep::StreamOutput => stream_output_plan(state.stream_output),
        StateStep::ComputeOutputs => compute_outputs_plan(
            backend.slots(),
            backend.extended_compute_views(),
            state.compute,
        ),
        StateStep::InputAssembler => input_assembler_plan(state.input_assembler),
        StateStep::Rasterizer => rasterizer_plan(state.rasterizer),
        StateStep::VertexShader => stage_plan(ranged, ShaderStage::Vertex, state.vertex),
        StateStep::HullShader => stage_plan(ranged, ShaderStage::Hull, state.hull),
        StateStep::DomainShader => stage_plan(ranged, ShaderStage::Domain, state.domain),
        StateStep::GeometryShader => stage_plan(ranged, ShaderStage::Geometry, state.geometry),
        StateStep::PixelShader => stage_plan(ranged, ShaderStage::Pixel, state.pixel),
        StateStep::ComputeShader => stage_plan(ranged, ShaderStage::Compute, state.compute.stage),
        StateStep::Predication => predication_plan(state.predication),
    }
}

/// The calls that restore the first sections of the order.
pub open spec fn calls_through(
    backend: ExhaustiveWindowsBackend,
    state: PipelineState,
    count: nat,
) -> Seq<Setter>
    decreases count,
{
    if count == 0 {
        Seq::empty()
    } else {
        calls_through(backend, state, (count - 1) as nat) + section_plan(
            backend,
            state,
            section(count - 1),
        ).calls
    }
}

/// How many of the first sections of the order fail to be restored.
pub open spec fn failures_through(
    backend: ExhaustiveWindowsBackend,
    state: PipelineState,
    count: nat,
) -> nat
    decreases count,
{
    if count == 0 {
        0
    } else {
        failures_through(backend, state, (count - 1) as nat) + if section_plan(
            backend,
            state,
            section(count - 1),
        ).failure is Some {
            1nat
        } else {
            0nat
        }
    }
}

/// What restoring the whole pipeline does.
pub struct FullRestoration {
    /// Calls, in order.
    pub commands: Vec<PipelineCommand>,
    /// Number of sections that failed.
    pub failures: usize,
}

fn restore_section(
    backend: &ExhaustiveWindowsBackend,
    state: &PipelineState,
    step: StateStep,
) -> (restoration: Restoration)
    requires
        backend.wf(),
        state.complete(),
    ensures
        restoration@ == section_plan(*backend, *state, step),
{
    match step {
        StateStep::OutputMerger => backend.restore_output_merger(&state.output_merger),
        StateStep::StreamOutput => backend.restore_stream_output(&state.stream_output),
        StateStep::ComputeOutputs => backend.restore_compute_outputs(&state.compute),
        StateStep::InputAssembler => backend.restore_input_assembler(&state.input_assembler),
        StateStep::Rasterizer => backend.restore_rasterizer(&state.rasterizer),
        StateStep::VertexShader => backend.restore_stage(ShaderStage::Vertex, &state.vertex),
        StateStep::HullShader => backend.restore_stage(ShaderStage::Hull, &state.hull),
        StateStep::DomainShader => backend.restore_stage(ShaderStage::Domain, &state.domain),
        StateStep::GeometryShader => backend.restore_stage(ShaderStage::Geometry, &state.geometry),
        StateStep::PixelShader => backend.restore_stage(ShaderStage::Pixel, &state.pixel),
        StateStep::ComputeShader => backend.restore_stage(
            ShaderStage::Compute,
            &state.compute.stage,
        ),
        StateStep::Predication => backend.restore_predication(&state.predication),
    }
}

/// Restores every section, each of them whether or not another one failed.
pub fn restore_pipeline(backend: &ExhaustiveWindowsBackend, state: &PipelineState) -> (restoration:
    FullRestoration)
    requires
        backend.wf(),
        state.complete(),
    ensures
        setters(restoration.commands@) == calls_through(*backend, *state, SECTION_COUNT as nat),
        restoration.failures == failures_through(*backend, *state, SECTION_COUNT as nat),
{
    let mut commands: Vec<PipelineCommand> = Vec::new();
    let mut failures: usize = 0;
    let mut position: usize = 0;
    proof {
        assert(setters(commands@) =~= Seq::<Setter>::empty());
    }
    while position < SECTION_COUNT
        invariant
            backend.wf(),
            state.complete(),
            position <= SECTION_COUNT,
            failures <= position,
            setters(commands@) == calls_through(*backend, *state, position as nat),
            failures == failures_through(*backend, *state, position as nat),
        decreases SECTION_COUNT - position,
    {
        let mut restoration = restore_section(backend, state, restore_step(position));
        let ghost plan = restoration@;
        let ghost before = commands@;
        let ghost added = restoration.commands@;
        commands.append(&mut restoration.commands);
        if restoration.failure.is_some() {
            failures = failures + 1;
        }
        proof {
            assert(plan == section_plan(*backend, *state, section(position as int)));
            assert(setters(before + added) =~= setters(before) + setters(added));
        }
        position = position + 1;
    }
    FullRestoration { commands, failures }
}

/// Runs an operation between the capture of the pipeline, which ended as given,
/// and its restoration, which is told what the operation returned and returns
/// how many sections failed.
///
/// Without a complete capture neither the operation nor the restoration touches
/// the backend. Otherwise the operation runs first, once, and everything is
/// restored once after it, on what the operation left. A failed restoration is
/// reported before whatever the operation returned.
pub fn guarded_operation<
    B,
    T,
    F: FnOnce(&mut B) -> Result<T, RendererError>,
    R: FnOnce(&mut B, &Result<T, RendererError>) -> usize,
>(
    backend: &mut B,
    captured: Result<(), StateStep>,
    operation: F,
    restore: R,
) -> (result: Result<T, RendererError>)
    requires
        captured is Ok ==> forall|drawing: &mut B|
            *drawing == *old(backend) ==> call_requires(operation, (drawing,)),
        captured is Ok ==> forall|restoring: &mut B, outcome: Result<T, RendererError>|
            call_requires(restore, (restoring, &outcome)),
    ensures
        match captured {
            Err(step) => {
                &&& *final(backend) == *old(backend)
                &&& result == Err::<T, RendererError>(RendererError::StateCapture { step })
            },
            Ok(_) => exists|
                drawing: &mut B,
                restoring: &mut B,
                outcome: Result<T, RendererError>,
                failures: usize,
            |
                {
                    &&& *drawing == *old(backend)
                    &&& #[trigger] call_ensures(operation, (drawing,), outcome)
                    &&& *restoring == *final(drawing)
                    &&& #[trigger] call_ensures(restore, (restoring, &outcome), failures)
                    &&& *final(backend) == *final(restoring)
                    &&& result == if failures > 0 {
                        Err::<T, RendererError>(RendererError::StateRestore { failures })
                    } else {
                        outcome
                    }
                },
        },
{
    if let Err(step) = captured {
        return Err(RendererError::StateCapture { step });
    }
    let outcome = operation(backend);
    let failures = restore(backend, &outcome);
    if failures > 0 {
        return Err(RendererError::StateRestore { failures });
    }
    outcome
}

/// One programmable stage of a device.
#[verifier::ext_equal]
pub struct StageModel {
    /// Shader.
    pub shader: usize,
    /// Class instances.
    pub classes: Seq<usize>,
    /// Constant buffers.
    pub buffers: Seq<usize>,
    /// Ranges of the constant buffers, where the context supports them.
    pub ranges: Option<Seq<ConstantRange>>,
    /// Shader resources.
    pub resources: Seq<usize>,
    /// Samplers.
    pub samplers: Seq<usize>,
}

/// The pipeline of a device.
#[verifier::ext_equal]
pub struct Pipeline {
    /// Programmable stages.
    pub stages: Map<ShaderStage, StageModel>,
    /// Render targets.
    pub targets: Seq<usize>,
    /// Depth/stencil view.
    pub depth_stencil: usize,
    /// Unordered access views of the output merger.
    pub views: Seq<usize>,
    /// Blend state, blend factor, and sample mask.
    pub blend: (usize, [u32; 4], u32),
    /// Depth/stencil state and stencil reference.
    pub depth: (usize, u32),
    /// Input layout.
    pub layout: usize,
    /// Vertex buffers.
    pub vertex_buffers: Seq<usize>,
    /// Strides of the vertex buffers.
    pub strides: Seq<u32>,
    /// Offsets of the vertex buffers.
    pub offsets: Seq<u32>,
    /// Index buffer, its format, and its offset.
    pub index: (usize, u32, u32),
    /// Primitive topology.
    pub topology: u32,
    /// Rasterizer state.
    pub rasterizer: usize,
    /// Viewports.
    pub viewports: Seq<Viewport>,
    /// Scissor rectangles.
    pub rects: Seq<Rect>,
    /// Stream-output targets.
    pub stream_targets: Seq<usize>,
    /// Unordered access views of the compute stage.
    pub compute_views: Seq<usize>,
    /// Predicate and its value.
    pub predicate: (usize, bool),
}

/// The pipeline after a setter call. Setting targets and views clears every
/// slot of either kind that is not named.
pub open spec fn apply(pipeline: Pipeline, setter: Setter) -> Pipeline {
    match setter {
        Setter::Shader { stage, shader, classes } => Pipeline {
            stages: pipeline.stages.insert(
                stage,
                StageModel { shader, classes, ..pipeline.stages[stage] },
            ),
            ..pipeline
        },
        Setter::ConstantBuffers { stage, buffers, ranges } => Pipeline {
            stages: pipeline.stages.insert(
                stage,
                StageModel { buffers, ranges, ..pipeline.stages[stage] },
            ),
            ..pipeline
        },
        Setter::ShaderResources { stage, views } => Pipeline {
            stages: pipeline.stages.insert(
                stage,
                StageModel { resources: views, ..pipeline.stages[stage] },
            ),
            ..pipeline
        },
        Setter::Samplers { stage, samplers } => Pipeline {
            stages: pipeline.stages.insert(
                stage,
                StageModel { samplers, ..pipeline.stages[stage] },
            ),
            ..pipeline
        },
        Setter::Targets { targets, depth_stencil, views, counters } => Pipeline {
            targets: Seq::new(
                OM_RENDER_TARGET_SLOTS as nat,
                |i: int|
                    if i < targets.len() {
                        targets[i]
                    } else {
                        0
                    },
            ),
            depth_stencil,
            views: Seq::new(
                targets.len() + views.len(),
                |i: int|
                    if i < targets.len() {
                        0
                    } else {
                        views[i - targets.len()]
                    },
            ),
            ..pipeline
        },
        Setter::BlendState { state, factor, mask } => Pipeline {
            blend: (state, factor, mask),
            ..pipeline
        },
        Setter::DepthStencilState { state, reference } => Pipeline {
            depth: (state, reference),
            ..pipeline
        },
        Setter::InputLayout { layout } => Pipeline { layout, ..pipeline },
        Setter::VertexBuffers { buffers, strides, offsets } => Pipeline {
            vertex_buffers: buffers,
            strides,
            offsets,
            ..pipeline
        },
        Setter::IndexBuffer { buffer, format, offset } => Pipeline {
            index: (buffer, format, offset),
            ..pipeline
        },
        Setter::Topology { topology } => Pipeline { topology, ..pipeline },
        Setter::RasterizerState { state } => Pipeline { rasterizer: state, ..pipeline },
        Setter::Viewports { viewports } => Pipeline { viewports, ..pipeline },
        Setter::ScissorRects { rects } => Pipeline { rects, ..pipeline },
        Setter::StreamTargets { targets, offsets } => Pipeline {
            stream_targets: targets,
            ..pipeline
        },
        Setter::ComputeViews { views, counters } => Pipeline { compute_views: views, ..pipeline },
        Setter::Predication { predicate, value } => Pipeline {
            predicate: (predicate, value),
            ..pipeline
        },
    }
}

/// The pipeline after setter calls.
pub open spec fn apply_all(pipeline: Pipeline, calls: Seq<Setter>) -> Pipeline
    decreases calls.len(),
{
    if calls.len() == 0 {
        pipeline
    } else {
        apply(apply_all(pipeline, calls.drop_last()), calls.last())
    }
}

proof fn lemma_apply_concatenation(pipeline: Pipeline, first: Seq<Setter>, second: Seq<Setter>)
    ensures
        apply_all(pipeline, first + second) == apply_all(apply_all(pipeline, first), second),
    decreases second.len(),
{
    if second.len() == 0 {
        assert(first + second =~= first);
    } else {
        lemma_apply_concatenation(pipeline, first, second.drop_last());
        assert((first + second).drop_last() =~= first + second.drop_last());
        assert((first + second).last() == second.last());
    }
}

/// A stage that the getters can report: no class instance is null, a constant
/// buffer has a range where the context supports ranges, and an empty slot has
/// none.
pub open spec fn stage_observable(stage: StageModel, ranged: bool) -> bool {
    &&& stage.classes.len() <= SHADER_MAX_CLASS_INSTANCES
    &&& forall|i: int| 0 <= i < stage.classes.len() ==> #[trigger] stage.classes[i] != 0
    &&& match stage.ranges {
        Some(ranges) => {
            &&& ranged
            &&& ranges.len() == stage.buffers.len()
            &&& forall|i: int|
                0 <= i < ranges.len() && stage.buffers[i] == 0 ==> #[trigger] ranges[i]
                    == (ConstantRange { first: 0, count: 0 })
        },
        None => !ranged,
    }
}

/// A stage was captured from what its getters reported.
pub open spec fn stage_captured(stage: StageModel, state: ProgrammableStageState) -> bool {
    &&& state.shader == owned_handle(stage.shader, None)
    &&& state.class_instances@ == owned_handles(bound(stage.classes))
    &&& state.constant_buffers@ == owned_buffers(stage.buffers, stage.ranges)
    &&& state.shader_resources@ == owned_handles(stage.resources)
    &&& state.samplers@ == owned_handles(stage.samplers)
}

proof fn lemma_raws_of_owned(addresses: Seq<usize>)
    ensures
        raws(owned_handles(addresses)) == addresses,
{
    assert forall|i: int| 0 <= i < addresses.len() implies #[trigger] raws(
        owned_handles(addresses),
    )[i] == addresses[i] by {
        lemma_handle_keeps_its_address(addresses[i], None);
    }
    assert(raws(owned_handles(addresses)) =~= addresses);
}

proof fn lemma_all_bound(addresses: Seq<usize>)
    requires
        forall|i: int| 0 <= i < addresses.len() ==> #[trigger] addresses[i] != 0,
    ensures
        bound(addresses) == addresses,
    decreases addresses.len(),
{
    if addresses.len() > 0 {
        lemma_all_bound(addresses.drop_last());
        assert(addresses.drop_last().push(addresses.last()) =~= addresses);
    }
}

/// Restoring a captured stage puts back exactly what its getters reported, and
/// touches no other stage and no other section.
pub proof fn law_stage_round_trip(
    before: Pipeline,
    kind: ShaderStage,
    stage: StageModel,
    ranged: bool,
    state: ProgrammableStageState,
)
    requires
        stage_observable(stage, ranged),
        stage_captured(stage, state),
    ensures
        stage_plan(ranged, kind, state).failure is None,
        apply_all(before, stage_plan(ranged, kind, state).calls) == (Pipeline {
            stages: before.stages.insert(kind, stage),
            ..before
        }),
{
    lemma_handle_keeps_its_address(stage.shader, None);
    lemma_all_bound(stage.classes);
    lemma_raws_of_owned(stage.classes);
    lemma_raws_of_owned(stage.resources);
    lemma_raws_of_owned(stage.samplers);
    let handles = owned_buffers(stage.buffers, stage.ranges);
    assert forall|i: int| 0 <= i < stage.buffers.len() implies #[trigger] raws(handles)[i]
        == stage.buffers[i] && (handles[i] is Some && ranged ==> range_of(handles[i]) is Some) && (
    ranged ==> ranges_to_set(handles)[i] == stage.ranges->0[i]) by {
        let range = match stage.ranges {
            Some(ranges) => Some(ranges[i]),
            None => None,
        };
        lemma_handle_keeps_its_address(stage.buffers[i], range);
        lemma_empty_has_no_range(handles[i]);
    }
    assert(raws(handles) =~= stage.buffers);
    if ranged {
        assert forall|i: int| 0 <= i < handles.len() && (#[trigger] handles[i]) is Some implies range_of(
            handles[i],
        ) is Some by {
            assert(raws(handles)[i] == stage.buffers[i]);
        }
        assert(!range_missing(handles));
        let set = ranges_to_set(handles);
        assert forall|i: int| 0 <= i < handles.len() implies set[i] == stage.ranges->0[i] by {
            assert(raws(handles)[i] == stage.buffers[i]);
        }
        assert(set =~= stage.ranges->0);
    }
    reveal_with_fuel(apply_all, 5);
    let calls = stage_plan(ranged, kind, state).calls;
    let after = apply_all(before, calls);
    assert(calls.len() == 4);
    let one = calls.drop_last();
    let two = one.drop_last();
    let three = two.drop_last();
    assert(three.drop_last() =~= Seq::<Setter>::empty());
    assert(after.stages =~= before.stages.insert(kind, stage));
}

proof fn lemma_empty_has_no_range(handle: Option<PipelineHandle>)
    ensures
        handle is None ==> range_of(handle) is None,
        handle is None ==> raw(handle) == 0,
{
    assert(owned_handle(0, None) is None) by {
        lemma_handle_keeps_its_address(0, None);
    }
    crate::d3d11::state::lemma_no_handle();
}

/// The captured sections of a pipeline, with what the backend kept of it.
pub open spec fn captured_from(
    pipeline: Pipeline,
    backend: ExhaustiveWindowsBackend,
    state: PipelineState,
) -> bool {
    &&& state.output_merger.render_targets@ == owned_handles(pipeline.targets)
    &&& state.output_merger.depth_stencil_view == owned_handle(pipeline.depth_stencil, None)
    &&& state.output_merger.unordered_access_views@ == owned_handles(
        pipeline.views.take(PS_CS_UAV_SLOTS as int),
    )
    &&& backend.extended_output_views() == Some(
        owned_handles(pipeline.views.skip(PS_CS_UAV_SLOTS as int)),
    )
    &&& state.output_merger.blend_state == owned_handle(pipeline.blend.0, None)
    &&& state.output_merger.blend_factor == pipeline.blend.1
    &&& state.output_merger.sample_mask == pipeline.blend.2
    &&& state.output_merger.depth_stencil_state == owned_handle(pipeline.depth.0, None)
    &&& state.output_merger.stencil_reference == pipeline.depth.1
    &&& state.stream_output.targets@ == owned_handles(pipeline.stream_targets)
    &&& state.stream_output.offsets is Known
    &&& state.compute.unordered_access_views@ == owned_handles(
        pipeline.compute_views.take(PS_CS_UAV_SLOTS as int),
    )
    &&& backend.extended_compute_views() == Some(
        owned_handles(pipeline.compute_views.skip(PS_CS_UAV_SLOTS as int)),
    )
    &&& state.input_assembler.input_layout == owned_handle(pipeline.layout, None)
    &&& state.input_assembler.vertex_buffers@ == owned_handles(pipeline.vertex_buffers)
    &&& state.input_assembler.strides@ == pipeline.strides
    &&& state.input_assembler.offsets@ == pipeline.offsets
    &&& state.input_assembler.index_buffer == owned_handle(pipeline.index.0, None)
    &&& state.input_assembler.index_format == pipeline.index.1
    &&& state.input_assembler.index_offset == pipeline.index.2
    &&& state.input_assembler.primitive_topology == pipeline.topology
    &&& state.rasterizer.state == owned_handle(pipeline.rasterizer, None)
    &&& state.rasterizer.viewports@ == pipeline.viewports
    &&& state.rasterizer.scissor_rects@ == pipeline.rects
    &&& state.predication.predicate == owned_handle(pipeline.predicate.0, None)
    &&& state.predication.value == pipeline.predicate.1
    &&& stage_captured(pipeline.stages[ShaderStage::Vertex], state.vertex)
    &&& stage_captured(pipeline.stages[ShaderStage::Hull], state.hull)
    &&& stage_captured(pipeline.stages[ShaderStage::Domain], state.domain)
    &&& stage_captured(pipeline.stages[ShaderStage::Geometry], state.geometry)
    &&& stage_captured(pipeline.stages[ShaderStage::Pixel], state.pixel)
    &&& stage_captured(pipeline.stages[ShaderStage::Compute], state.compute.stage)
}

/// A pipeline that a device can hold and the getters can report: render
/// targets and unordered access views do not share a slot, and every stage is
/// observable.
pub open spec fn observable(pipeline: Pipeline, backend: ExhaustiveWindowsBackend) -> bool {
    &&& backend.wf()
    &&& pipeline.targets.len() == OM_RENDER_TARGET_SLOTS
    &&& pipeline.views.len() == backend.slots()
    &&& pipeline.compute_views.len() == backend.slots()
    &&& unbound(pipeline.views.take(bound_slots(owned_handles(pipeline.targets)) as int))
    &&& forall|stage: ShaderStage| #[trigger]
        pipeline.stages.contains_key(stage) && stage_observable(
            pipeline.stages[stage],
            backend.ranges_supported(),
        )
}

proof fn lemma_bound_slots(handles: Seq<Option<PipelineHandle>>)
    ensures
        bound_slots(handles) <= handles.len(),
        forall|i: int| bound_slots(handles) <= i < handles.len() ==> #[trigger] handles[i] is None,
    decreases handles.len(),
{
    if handles.len() > 0 && handles.last() is None {
        lemma_bound_slots(handles.drop_last());
        assert forall|i: int| bound_slots(handles) <= i < handles.len() implies #[trigger] handles[i] is None by {
            if i < handles.len() - 1 {
                assert(handles.drop_last()[i] == handles[i]);
            }
        }
    }
}

proof fn lemma_views_rejoin(views: Seq<usize>, slots: usize)
    requires
        views.len() == slots,
        slots == 8 || slots == 64,
    ensures
        crate::d3d11::state::all_views(
            slots,
            owned_handles(views.take(PS_CS_UAV_SLOTS as int)),
            Some(owned_handles(views.skip(PS_CS_UAV_SLOTS as int))),
        ) == Some(views),
{
    lemma_raws_of_owned(views.take(PS_CS_UAV_SLOTS as int));
    lemma_raws_of_owned(views.skip(PS_CS_UAV_SLOTS as int));
    assert(views.take(PS_CS_UAV_SLOTS as int) + views.skip(PS_CS_UAV_SLOTS as int) =~= views);
    if slots == 8 {
        assert(views.take(PS_CS_UAV_SLOTS as int) =~= views);
    }
}

proof fn lemma_output_merger(
    before: Pipeline,
    pipeline: Pipeline,
    backend: ExhaustiveWindowsBackend,
    state: PipelineState,
)
    requires
        observable(pipeline, backend),
        captured_from(pipeline, backend, state),
    ensures
        ({
            let plan = section_plan(backend, state, StateStep::OutputMerger);
            &&& plan.failure is None
            &&& apply_all(before, plan.calls) == (Pipeline {
                targets: pipeline.targets,
                depth_stencil: pipeline.depth_stencil,
                views: pipeline.views,
                blend: pipeline.blend,
                depth: pipeline.depth,
                ..before
            })
        }),
{
    let plan = section_plan(backend, state, StateStep::OutputMerger);
    let handles = owned_handles(pipeline.targets);
    let count = bound_slots(handles) as int;
    lemma_bound_slots(handles);
    lemma_views_rejoin(pipeline.views, backend.slots());
    lemma_raws_of_owned(pipeline.targets);
    lemma_handle_keeps_its_address(pipeline.depth_stencil, None);
    lemma_handle_keeps_its_address(pipeline.blend.0, None);
    lemma_handle_keeps_its_address(pipeline.depth.0, None);
    assert(plan.failure is None);
    assert(plan.calls.len() == 3);
    reveal_with_fuel(apply_all, 4);
    let one = plan.calls.drop_last();
    let two = one.drop_last();
    assert(two.drop_last() =~= Seq::<Setter>::empty());
    let after = apply_all(before, plan.calls);
    assert forall|i: int| count <= i < pipeline.targets.len() implies pipeline.targets[i] == 0 by {
        assert(handles[i] is None);
        lemma_handle_keeps_its_address(pipeline.targets[i], None);
    }
    assert(after.targets =~= pipeline.targets);
    assert forall|i: int| 0 <= i < count implies pipeline.views[i] == 0 by {
        assert(pipeline.views.take(count)[i] == 0);
    }
    assert(after.views =~= pipeline.views);
}

proof fn lemma_plain_sections(
    before: Pipeline,
    pipeline: Pipeline,
    backend: ExhaustiveWindowsBackend,
    state: PipelineState,
)
    requires
        observable(pipeline, backend),
        captured_from(pipeline, backend, state),
    ensures
        ({
            let plan = section_plan(backend, state, StateStep::StreamOutput);
            &&& plan.failure is None
            &&& apply_all(before, plan.calls) == (Pipeline {
                stream_targets: pipeline.stream_targets,
                ..before
            })
        }),
        ({
            let plan = section_plan(backend, state, StateStep::ComputeOutputs);
            &&& plan.failure is None
            &&& apply_all(before, plan.calls) == (Pipeline {
                compute_views: pipeline.compute_views,
                ..before
            })
        }),
        ({
            let plan = section_plan(backend, state, StateStep::InputAssembler);
            &&& plan.failure is None
            &&& apply_all(before, plan.calls) == (Pipeline {
                layout: pipeline.layout,
                vertex_buffers: pipeline.vertex_buffers,
                strides: pipeline.strides,
                offsets: pipeline.offsets,
                index: pipeline.index,
                topology: pipeline.topology,
                ..before
            })
        }),
        ({
            let plan = section_plan(backend, state, StateStep::Rasterizer);
            &&& plan.failure is None
            &&& apply_all(before, plan.calls) == (Pipeline {
                rasterizer: pipeline.rasterizer,
                viewports: pipeline.viewports,
                rects: pipeline.rects,
                ..before
            })
        }),
        ({
            let plan = section_plan(backend, state, StateStep::Predication);
            &&& plan.failure is None
            &&& apply_all(before, plan.calls) == (Pipeline {
                predicate: pipeline.predicate,
                ..before
            })
        }),
{
    lemma_raws_of_owned(pipeline.stream_targets);
    lemma_views_rejoin(pipeline.compute_views, backend.slots());
    lemma_raws_of_owned(pipeline.vertex_buffers);
    lemma_handle_keeps_its_address(pipeline.layout, None);
    lemma_handle_keeps_its_address(pipeline.index.0, None);
    lemma_handle_keeps_its_address(pipeline.rasterizer, None);
    lemma_handle_keeps_its_address(pipeline.predicate.0, None);
    reveal_with_fuel(apply_all, 5);
    let stream = section_plan(backend, state, StateStep::StreamOutput).calls;
    assert(stream.drop_last() =~= Seq::<Setter>::empty());
    let compute = section_plan(backend, state, StateStep::ComputeOutputs).calls;
    assert(compute.drop_last() =~= Seq::<Setter>::empty());
    let predication = section_plan(backend, state, StateStep::Predication).calls;
    assert(predication.drop_last() =~= Seq::<Setter>::empty());
    let rasterizer = section_plan(backend, state, StateStep::Rasterizer).calls;
    assert(rasterizer.drop_last().drop_last().drop_last() =~= Seq::<Setter>::empty());
    let input = section_plan(backend, state, StateStep::InputAssembler).calls;
    assert(input.drop_last().drop_last().drop_last().drop_last() =~= Seq::<Setter>::empty());
}

/// The pipeline after the first sections of the order were restored.
spec fn restored(
    before: Pipeline,
    backend: ExhaustiveWindowsBackend,
    state: PipelineState,
    count: nat,
) -> Pipeline {
    apply_all(before, calls_through(backend, state, count))
}

proof fn lemma_next_section(
    before: Pipeline,
    backend: ExhaustiveWindowsBackend,
    state: PipelineState,
    count: nat,
)
    ensures
        restored(before, backend, state, count + 1) == apply_all(
            restored(before, backend, state, count),
            section_plan(backend, state, section(count as int)).calls,
        ),
        failures_through(backend, state, count + 1) == failures_through(backend, state, count) + (
        if section_plan(backend, state, section(count as int)).failure is Some {
            1nat
        } else {
            0nat
        }),
{
    lemma_apply_concatenation(
        before,
        calls_through(backend, state, count),
        section_plan(backend, state, section(count as int)).calls,
    );
}

/// Restoring everything that was captured from a pipeline makes the pipeline
/// what it was, whatever was drawn in between, and no section fails.
#[verifier::spinoff_prover]
#[verifier::rlimit(40)]
pub proof fn law_restoration_gives_back_the_pipeline(
    pipeline: Pipeline,
    drawn: Pipeline,
    backend: ExhaustiveWindowsBackend,
    state: PipelineState,
)
    requires
        observable(pipeline, backend),
        captured_from(pipeline, backend, state),
    ensures
        failures_through(backend, state, SECTION_COUNT as nat) == 0,
        apply_all(drawn, calls_through(backend, state, SECTION_COUNT as nat)) == pipeline,
{
    let ranged = backend.ranges_supported();
    let p0 = restored(drawn, backend, state, 0);
    assert(p0 == drawn);
    assert(failures_through(backend, state, 0) == 0);
    lemma_next_section(drawn, backend, state, 0);
    lemma_output_merger(p0, pipeline, backend, state);
    let p1 = restored(drawn, backend, state, 1);
    lemma_next_section(drawn, backend, state, 1);
    lemma_plain_sections(p1, pipeline, backend, state);
    let p2 = restored(drawn, backend, state, 2);
    lemma_next_section(drawn, backend, state, 2);
    lemma_plain_sections(p2, pipeline, backend, state);
    let p3 = restored(drawn, backend, state, 3);
    lemma_next_section(drawn, backend, state, 3);
    lemma_plain_sections(p3, pipeline, backend, state);
    let p4 = restored(drawn, backend, state, 4);
    lemma_next_section(drawn, backend, state, 4);
    lemma_plain_sections(p4, pipeline, backend, state);
    let p5 = restored(drawn, backend, state, 5);
    lemma_next_section(drawn, backend, state, 5);
    assert(pipeline.stages.contains_key(ShaderStage::Vertex));
    law_stage_round_trip(
        p5,
        ShaderStage::Vertex,
        pipeline.stages[ShaderStage::Vertex],
        ranged,
        state.vertex,
    );
    let p6 = restored(drawn, backend, state, 6);
    lemma_next_section(drawn, backend, state, 6);
    assert(pipeline.stages.contains_key(ShaderStage::Hull));
    law_stage_round_trip(
        p6,
        ShaderStage::Hull,
        pipeline.stages[ShaderStage::Hull],
        ranged,
        state.hull,
    );
    let p7 = restored(drawn, backend, state, 7);
    lemma_next_section(drawn, backend, state, 7);
    assert(pipeline.stages.contains_key(ShaderStage::Domain));
    law_stage_round_trip(
        p7,
        ShaderStage::Domain,
        pipeline.stages[ShaderStage::Domain],
        ranged,
        state.domain,
    );
    let p8 = restored(drawn, backend, state, 8);
    lemma_next_section(drawn, backend, state, 8);
    assert(pipeline.stages.contains_key(ShaderStage::Geometry));
    law_stage_round_trip(
        p8,
        ShaderStage::Geometry,
        pipeline.stages[ShaderStage::Geometry],
        ranged,
        state.geometry,
    );
    let p9 = restored(drawn, backend, state, 9);
    lemma_next_section(drawn, backend, state, 9);
    assert(pipeline.stages.contains_key(ShaderStage::Pixel));
    law_stage_round_trip(
        p9,
        ShaderStage::Pixel,
        pipeline.stages[ShaderStage::Pixel],
        ranged,
        state.pixel,
    );
    let p10 = restored(drawn, backend, state, 10);
    lemma_next_section(drawn, backend, state, 10);
    assert(pipeline.stages.contains_key(ShaderStage::Compute));
    law_stage_round_trip(
        p10,
        ShaderStage::Compute,
        pipeline.stages[ShaderStage::Compute],
        ranged,
        state.compute.stage,
    );
    let p11 = restored(drawn, backend, state, 11);
    lemma_next_section(drawn, backend, state, 11);
    lemma_plain_sections(p11, pipeline, backend, state);
    let p12 = restored(drawn, backend, state, 12);
    assert forall|stage: ShaderStage| #[trigger] p12.stages.contains_key(stage)
        && p12.stages[stage] == pipeline.stages[stage] by {
        assert(pipeline.stages.contains_key(stage));
        match stage {
            ShaderStage::Vertex => {},
            ShaderStage::Hull => {},
            ShaderStage::Domain => {},
            ShaderStage::Geometry => {},
            ShaderStage::Pixel => {},
            ShaderStage::Compute => {},
        }
    }
    assert(p12.stages =~= pipeline.stages);
    assert(p12 =~= pipeline);
}

/// Every section is restored once, each at its own position: what the pipeline
/// writes to comes before what it reads from, and predication last.
pub proof fn law_each_section_has_its_position(position: int)
    requires
        0 <= position < 12,
    ensures
        section(position) is OutputMerger <==> position == 0,
        section(position) is StreamOutput <==> position == 1,
        section(position) is ComputeOutputs <==> position == 2,
        section(position) is InputAssembler <==> position == 3,
        section(position) is Rasterizer <==> position == 4,
        section(position) is VertexShader <==> position == 5,
        section(position) is HullShader <==> position == 6,
        section(position) is DomainShader <==> position == 7,
        section(position) is GeometryShader <==> position == 8,
        section(position) is PixelShader <==> position == 9,
        section(position) is ComputeShader <==> position == 10,
        section(position) is Predication <==> position == 11,
{
}

/// A section that fails is counted, and the sections behind it are restored all
/// the same.
pub proof fn law_a_failed_section_stops_no_other(
    backend: ExhaustiveWindowsBackend,
    state: PipelineState,
    position: nat,
)
    requires
        position < 12,
    ensures
        ({
            let plan = section_plan(backend, state, section(position as int));
            let before = calls_through(backend, state, position);
            let after = calls_through(backend, state, position + 1);
            &&& after == before + plan.calls
            &&& failures_through(backend, state, position + 1) - failures_through(
                backend,
                state,
                position,
            ) == (if plan.failure is Some {
                1int
            } else {
                0
            })
        }),
{
}

} // verus!
