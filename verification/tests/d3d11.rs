use nexus::d3d11::error::{GpuOperation, RendererError, ShaderKind, StateStep};
use nexus::d3d11::guard::{guarded_operation, restore_pipeline, restore_step, PipelineState};
use nexus::d3d11::plan::{
    translate_command, validate_geometry, validate_totals, CommandKind, DrawCommand, DrawTotals,
    FrameGeometry, GeometryReading, RESET_RENDER_STATE_CALLBACK,
};
use nexus::d3d11::renderer::{
    blob_bytes, buffer_byte_width, checked_slice, clears_tex_id, collect_draw_lists, font_texture,
    generation_transition, grown_capacity, map_discard, next_resource_generation, required_object,
    submit_draws, upload_offsets, AtlasReading, AttachReply, AttachStep, Attachment, D3d11Renderer,
    DrawStep, FontTexture, RawDrawList, RawVector, RenderStats, VERTEX_GROWTH_SLACK,
};
use nexus::d3d11::setup::{
    blend_description, depth_stencil_description, dynamic_buffer_description,
    font_texture_description, index_format, input_elements, rasterizer_description,
    sampler_description, setup_render_state, DrawResources, SetupCall, BIND_CONSTANT_BUFFER,
    BIND_INDEX_BUFFER, BIND_VERTEX_BUFFER, FORMAT_R16_UINT, FORMAT_R32_UINT,
};
use nexus::d3d11::state::{
    accept_rasterizer_counts, capture_input_assembler, capture_predication, capture_rasterizer,
    capture_shader, capture_stage, capture_stream_output, last_bound_slot, pointer_or_null,
    CapturedShader, ConstantRange, ExhaustiveWindowsBackend, InputAssemblerReading,
    OutputMergerReading, PipelineCommand, PipelineHandle, ProgrammableStageState, ShaderReading,
    StageReading, StateBackendError,
};
use nexus::float_bits::rounded_to_single;
use nexus::imgui::context::{BackendIo, FrameConfig, NativeContexts};
use windows::Win32::Graphics::Direct3D11 as native;
use windows::Win32::Graphics::Dxgi::Common as common;

fn bits(value: f32) -> u32 {
    value.to_bits()
}

fn reading(size: [f32; 2], scale: [f32; 2]) -> GeometryReading {
    GeometryReading {
        display_pos: [bits(10.0), bits(20.0)],
        display_size: [bits(size[0]), bits(size[1])],
        framebuffer_scale: [bits(scale[0]), bits(scale[1])],
        scaled_size: [bits(size[0] * scale[0]), bits(size[1] * scale[1])],
    }
}

fn draw_data() -> GeometryReading {
    reading([100.0, 50.0], [2.0, 2.0])
}

/// A clip rectangle of the draw data in framebuffer coordinates.
fn clip(rect: [f32; 4]) -> [u32; 4] {
    [
        bits((rect[0] - 10.0) * 2.0),
        bits((rect[1] - 20.0) * 2.0),
        bits((rect[2] - 10.0) * 2.0),
        bits((rect[3] - 20.0) * 2.0),
    ]
}

fn command(rect: [f32; 4]) -> DrawCommand {
    DrawCommand {
        callback: None,
        element_count: 6,
        index_offset: 0,
        vertex_offset: 0,
        texture: 1,
        clip: clip(rect),
    }
}

fn totals(list_count: i32, vertex_count: i32, index_count: i32, lists: usize) -> DrawTotals {
    DrawTotals { valid: true, list_count, vertex_count, index_count, lists }
}

#[test]
fn translates_clip_and_both_draw_offsets() {
    let geometry = validate_geometry(draw_data()).expect("geometry is valid");
    let command = DrawCommand {
        vertex_offset: 9,
        index_offset: 7,
        ..command([12.25, 23.25, 30.25, 40.25])
    };
    let translated = translate_command(&command, geometry, 100, 200)
        .expect("translation succeeds")
        .expect("clip is visible");
    assert_eq!(translated.kind, CommandKind::Draw);
    assert_eq!(translated.start_index, 207);
    assert_eq!(translated.base_vertex, 109);
    assert_eq!(translated.scissor, [4, 6, 41, 41]);
}

#[test]
fn rejects_offset_overflow() {
    let geometry = validate_geometry(draw_data()).expect("geometry is valid");
    let command =
        DrawCommand { index_offset: 1, element_count: 1, ..command([10.0, 20.0, 11.0, 21.0]) };
    assert!(matches!(
        translate_command(&command, geometry, 0, u32::MAX as usize),
        Err(RendererError::DrawDataOverflow)
    ));
}

#[test]
fn recognizes_reset_render_state_sentinel() {
    let geometry = validate_geometry(draw_data()).expect("geometry is valid");
    let reset = DrawCommand {
        callback: Some(RESET_RENDER_STATE_CALLBACK),
        ..command([0.0, 0.0, 0.0, 0.0])
    };
    let translated = translate_command(&reset, geometry, 0, 0)
        .expect("translation succeeds")
        .expect("callbacks are retained");
    assert_eq!(translated.kind, CommandKind::ResetState);
    let callback = DrawCommand { callback: Some(0x4000), ..reset };
    let translated = translate_command(&callback, geometry, 0, 0)
        .expect("translation succeeds")
        .expect("callbacks are retained");
    assert_eq!(translated.kind, CommandKind::Callback);
}

#[test]
fn invalid_totals_fail_before_pointer_walk() {
    assert!(matches!(
        validate_totals(totals(1, 0, 0, 0)),
        Err(RendererError::InvalidDrawData)
    ));
    assert_eq!(validate_totals(totals(1, 4, 6, 8)), Ok((4, 6)));
    assert_eq!(validate_totals(totals(0, 0, 0, 0)), Ok((0, 0)));
    assert_eq!(validate_totals(totals(0, -1, 0, 0)), Err(RendererError::InvalidDrawData));
}

#[test]
fn targets_are_rounded_up_and_bounded() {
    assert_eq!(
        validate_geometry(draw_data()),
        Ok(FrameGeometry { framebuffer_width: 200, framebuffer_height: 100 })
    );
    assert_eq!(
        validate_geometry(reading([100.25, 49.5], [1.5, 1.0])),
        Ok(FrameGeometry { framebuffer_width: 151, framebuffer_height: 50 })
    );
    assert_eq!(
        validate_geometry(reading([0.0, 50.0], [1.0, 1.0])),
        Err(RendererError::InvalidFramebuffer)
    );
    assert_eq!(
        validate_geometry(reading([100.0, f32::NAN], [1.0, 1.0])),
        Err(RendererError::InvalidFramebuffer)
    );
    assert_eq!(
        validate_geometry(reading([100.0, 50.0], [-1.0, 1.0])),
        Err(RendererError::InvalidFramebuffer)
    );
    assert_eq!(
        validate_geometry(reading([1.0e20, 50.0], [1.0e20, 1.0])),
        Err(RendererError::InvalidFramebuffer)
    );
    assert_eq!(
        validate_geometry(reading([4_294_967_296.0, 50.0], [1.0, 1.0])),
        Err(RendererError::DrawDataOverflow)
    );
    assert_eq!(
        validate_geometry(reading([4_294_967_040.0, 0.001], [1.0, 1.0])),
        Ok(FrameGeometry { framebuffer_width: 4_294_967_040, framebuffer_height: 1 })
    );
}

#[test]
fn scissors_agree_with_single_precision_rounding() {
    let geometry = FrameGeometry { framebuffer_width: 640, framebuffer_height: 480 };
    let samples = [
        -1.0e30, -3.0e9, -700.5, -1.0, -0.25, -0.0, 0.0, 1.0e-40, 0.5, 1.0, 17.75, 479.0, 479.5,
        480.0, 639.99, 640.0, 640.01, 8_388_607.5, 3.0e9, 1.0e30,
    ];
    for left in samples {
        for right in samples {
            let command = DrawCommand {
                clip: [bits(left), bits(left), bits(right), bits(right)],
                ..command([0.0, 0.0, 0.0, 0.0])
            };
            let expected = [
                left.max(0.0).floor(),
                left.max(0.0).floor(),
                right.min(640.0).ceil(),
                right.min(480.0).ceil(),
            ];
            let translated =
                translate_command(&command, geometry, 0, 0).expect("nothing is too large");
            if expected[2] <= expected[0] || expected[3] <= expected[1] {
                assert!(translated.is_none(), "{left} {right}");
            } else {
                let scissor = translated.expect("the clip is visible").scissor;
                assert_eq!(scissor, expected.map(|edge| edge as i32), "{left} {right}");
            }
        }
    }
    let nowhere =
        DrawCommand { clip: [bits(f32::INFINITY), 0, 0, 0], ..command([0.0, 0.0, 0.0, 0.0]) };
    assert_eq!(
        translate_command(&nowhere, geometry, 0, 0),
        Err(RendererError::InvalidDrawData)
    );
    let wide = FrameGeometry { framebuffer_width: u32::MAX, framebuffer_height: 480 };
    let far = DrawCommand {
        clip: [0, 0, bits(3.0e9), bits(10.0)],
        ..command([0.0, 0.0, 0.0, 0.0])
    };
    assert_eq!(translate_command(&far, wide, 0, 0), Err(RendererError::DrawDataOverflow));
}

#[test]
fn target_sizes_are_rounded_to_single_precision() {
    let sizes: [u32; 18] = [
        0, 1, 640, 16_777_215, 16_777_216, 16_777_217, 16_777_218, 16_777_219, 33_554_431,
        33_554_433, 33_554_434, 33_554_435, 33_554_438, 2_147_483_520, 2_147_483_583,
        2_147_483_584, 2_147_483_647, u32::MAX,
    ];
    for size in sizes {
        assert_eq!(rounded_to_single(size) as f64, f64::from(size as f32), "{size}");
        let geometry = FrameGeometry { framebuffer_width: size, framebuffer_height: size };
        let command = command([0.0, 0.0, 3.0e9, 3.0e9]);
        let limit = 3.0e9_f32.min(size as f32);
        let translated = translate_command(&command, geometry, 0, 0);
        if limit <= 0.0 {
            assert_eq!(translated, Ok(None));
        } else if limit >= 2_147_483_648.0 {
            assert_eq!(translated, Err(RendererError::DrawDataOverflow), "{size}");
        } else {
            let scissor = translated.expect("it fits").expect("the clip is visible").scissor;
            assert_eq!(scissor, [0, 0, limit as i32, limit as i32], "{size}");
        }
    }
    let geometry =
        FrameGeometry { framebuffer_width: 16_777_217, framebuffer_height: 16_777_219 };
    let translated = translate_command(&command([0.0, 0.0, 2.0e7, 2.0e7]), geometry, 0, 0)
        .expect("it fits")
        .expect("the clip is visible");
    assert_eq!(translated.scissor, [0, 0, 16_777_216, 16_777_220]);
}

#[test]
fn buffer_growth_is_bounded_and_has_slack() {
    assert_eq!(grown_capacity(5_001, VERTEX_GROWTH_SLACK).expect("growth fits"), 10_001);
    assert!(matches!(grown_capacity(usize::MAX, 1), Err(RendererError::DrawDataOverflow)));
    assert_eq!(buffer_byte_width(10_001, 20), Ok(200_020));
    assert_eq!(buffer_byte_width(usize::MAX, 20), Err(RendererError::DrawDataOverflow));
    assert_eq!(buffer_byte_width(1 << 31, 20), Err(RendererError::DrawDataOverflow));
}

#[test]
fn generation_transitions_are_monotonic_and_resource_count_is_checked() {
    assert!(!generation_transition(7, 7).expect("equal generation is current"));
    assert!(generation_transition(7, 8).expect("newer generation is accepted"));
    assert!(matches!(generation_transition(8, 7), Err(RendererError::StaleGeneration)));
    assert_eq!(next_resource_generation(8).expect("resource generation advances"), 9);
    assert!(matches!(
        next_resource_generation(u64::MAX),
        Err(RendererError::DrawDataOverflow)
    ));
}

#[test]
fn exhaustive_capture_failure_prevents_draw_admission() {
    let mut draws = 0;
    let mut restores = 0;
    let mut backend = Vec::<&str>::new();
    let result = guarded_operation(
        &mut backend,
        Err(StateStep::OutputMerger),
        |backend| {
            backend.push("draw");
            draws += 1;
            Ok(())
        },
        |backend, _| {
            backend.push("restore");
            restores += 1;
            0
        },
    );
    assert!(backend.is_empty());
    assert!(matches!(
        result,
        Err(RendererError::StateCapture { step: StateStep::OutputMerger })
    ));
    assert_eq!(draws, 0);
    assert_eq!(restores, 0);
}

fn stage_reading(ranged: bool) -> StageReading {
    let mut constant_buffers = vec![0; 14];
    constant_buffers[0] = 0x100;
    let mut ranges = vec![ConstantRange { first: 0, count: 0 }; 14];
    ranges[0] = ConstantRange { first: 16, count: 32 };
    let mut shader_resources = vec![0; 128];
    shader_resources[127] = 0x110;
    let mut samplers = vec![0; 16];
    samplers[1] = 0x120;
    StageReading {
        constant_buffers,
        ranges: if ranged { Some(ranges) } else { None },
        shader_resources,
        samplers,
    }
}

fn shader_reading(shader: usize) -> ShaderReading {
    ShaderReading { shader, class_count: 0, class_instances: vec![0; 256] }
}

fn captured(shader: usize) -> CapturedShader {
    match capture_shader(&shader_reading(shader)) {
        Ok(captured) => captured,
        Err(_) => panic!("the count is valid"),
    }
}

fn stage_state(shader: usize) -> ProgrammableStageState {
    capture_stage(captured(shader), &stage_reading(true))
}

fn pipeline(backend: &mut ExhaustiveWindowsBackend) -> PipelineState {
    let slots = backend.uav_slots();
    let mut render_targets = vec![0; 8];
    render_targets[0] = 0x200;
    let output_merger = backend.capture_output_merger(&OutputMergerReading {
        render_targets,
        depth_stencil_view: 0x210,
        unordered_access_views: vec![0; slots],
        blend_state: 0x220,
        blend_factor: [bits(0.25); 4],
        sample_mask: 0xff,
        depth_stencil_state: 0x230,
        stencil_reference: 3,
    });
    let stream_output = match capture_stream_output(&vec![0; 4]) {
        Ok(state) => state,
        Err(_) => panic!("nothing is bound"),
    };
    let views = backend.capture_compute_outputs(&vec![0; slots]);
    let compute = backend.capture_compute_shader(views, captured(0x300), &stage_reading(true));
    PipelineState {
        output_merger,
        stream_output,
        compute,
        input_assembler: capture_input_assembler(InputAssemblerReading {
            input_layout: 0x240,
            vertex_buffers: vec![0; 32],
            strides: vec![0; 32],
            offsets: vec![0; 32],
            index_buffer: 0x250,
            index_format: 57,
            index_offset: 4,
            primitive_topology: 4,
        }),
        rasterizer: capture_rasterizer(0x260, Vec::new(), Vec::new()),
        vertex: stage_state(0x310),
        hull: stage_state(0),
        domain: stage_state(0),
        geometry: stage_state(0),
        pixel: stage_state(0x320),
        predication: capture_predication(0, false),
    }
}

#[test]
fn exhaustive_guard_restores_every_section_in_hazard_safe_order() {
    let mut backend =
        ExhaustiveWindowsBackend::new(0, Ok(0xb100), true).expect("the context is immediate");
    let state = pipeline(&mut backend);
    let mut restored = None;
    let mut log = Vec::new();
    let drawn = guarded_operation(
        &mut log,
        Ok(()),
        |log| {
            log.push("draw");
            Ok(7)
        },
        |log, outcome| {
            assert_eq!(*log, ["draw"]);
            assert_eq!(*outcome, Ok(7));
            log.push("restore");
            let restoration = restore_pipeline(&backend, &state);
            let failures = restoration.failures;
            restored = Some(restoration);
            failures
        },
    )
    .expect("complete capture, draw, and restore succeed");
    assert_eq!(drawn, 7);
    assert_eq!(log, ["draw", "restore"]);
    let order: Vec<StateStep> = (0..12).map(restore_step).collect();
    assert_eq!(
        order,
        [
            StateStep::OutputMerger,
            StateStep::StreamOutput,
            StateStep::ComputeOutputs,
            StateStep::InputAssembler,
            StateStep::Rasterizer,
            StateStep::VertexShader,
            StateStep::HullShader,
            StateStep::DomainShader,
            StateStep::GeometryShader,
            StateStep::PixelShader,
            StateStep::ComputeShader,
            StateStep::Predication,
        ]
    );

    let commands = restored.expect("the pipeline was restored").commands;
    let position = |found: &dyn Fn(&PipelineCommand) -> bool| {
        commands.iter().position(|command| found(command)).expect("the call is made")
    };
    let targets = position(&|command| {
        matches!(command, PipelineCommand::SetTargets { targets, depth_stencil: 0x210, .. }
            if targets[0] == 0x200)
    });
    let stream = position(&|command| matches!(command, PipelineCommand::SetStreamTargets { .. }));
    let compute = position(&|command| matches!(command, PipelineCommand::SetComputeViews { .. }));
    let layout =
        position(&|command| matches!(command, PipelineCommand::SetInputLayout { layout: 0x240 }));
    let vertex =
        position(&|command| matches!(command, PipelineCommand::SetShader { shader: 0x310, .. }));
    let pixel =
        position(&|command| matches!(command, PipelineCommand::SetShader { shader: 0x320, .. }));
    let kernel =
        position(&|command| matches!(command, PipelineCommand::SetShader { shader: 0x300, .. }));
    let predication =
        position(&|command| matches!(command, PipelineCommand::SetPredication { .. }));
    let order = [targets, stream, compute, layout, vertex, pixel, kernel, predication];
    assert!(order.windows(2).all(|pair| pair[0] < pair[1]));
    assert!(commands.iter().any(|command| matches!(
        command,
        PipelineCommand::SetConstantBuffers { buffers, ranges: Some(ranges), .. }
            if buffers[0] == 0x100 && ranges[0].first == 16 && ranges[0].count == 32
    )));
}

#[test]
fn failed_restoration_is_reported_before_the_operation() {
    let refuse = |log: &mut Vec<&str>| {
        log.push("draw");
        Err(RendererError::InvalidDrawData)
    };
    let mut log = Vec::new();
    let failed: Result<(), RendererError> =
        guarded_operation(&mut log, Ok(()), refuse, |log, outcome| {
            assert_eq!(*outcome, Err(RendererError::InvalidDrawData));
            log.push("restore");
            2
        });
    assert_eq!(log, ["draw", "restore"]);
    assert_eq!(failed, Err(RendererError::StateRestore { failures: 2 }));
    let failed: Result<(), RendererError> =
        guarded_operation(&mut log, Ok(()), refuse, |_, _| 0);
    assert_eq!(failed, Err(RendererError::InvalidDrawData));
    assert_eq!(
        RendererError::StateRestore { failures: 2 }.to_string(),
        "D3D11 state restoration failed in 2 section(s)"
    );
}

#[test]
fn last_bound_slot_preserves_sparse_output_shape() {
    let handles: Vec<Option<PipelineHandle>> = vec![None, None, None, None];
    assert_eq!(last_bound_slot(&handles), 0);
    let state = capture_stage(captured(1), &stage_reading(false));
    assert_eq!(last_bound_slot(&state.samplers), 2);
    assert_eq!(last_bound_slot(&state.shader_resources), 128);
    assert_eq!(last_bound_slot(&state.constant_buffers), 1);
}

#[test]
fn empty_slice_pointer_is_null() {
    let empty: [u32; 0] = [];
    assert_eq!(pointer_or_null::<u32>(&empty, empty.as_ptr() as usize), 0);
    let one = [1_u32];
    assert_ne!(pointer_or_null(&one, one.as_ptr() as usize), 0);
}

#[test]
fn unsafe_captures_are_refused_with_their_references() {
    assert_eq!(
        ExhaustiveWindowsBackend::new(1, Ok(0xb100), true).err(),
        Some(StateBackendError::DeferredContext)
    );
    assert_eq!(
        ExhaustiveWindowsBackend::new(0, Err(-5), true).err(),
        Some(StateBackendError::Interface(-5))
    );
    let old = ExhaustiveWindowsBackend::new(0, Ok(0xb000), false).expect("level 11.0 is enough");
    assert_eq!(old.uav_slots(), 8);
    assert_eq!(
        ExhaustiveWindowsBackend::from_raw_borrowed(0),
        Err(StateBackendError::Interface(-2147467261))
    );

    let mut bound = shader_reading(0x10);
    bound.class_count = 300;
    bound.class_instances[2] = 0x20;
    match capture_shader(&bound) {
        Ok(_) => panic!("the count is too large"),
        Err(rejected) => {
            assert_eq!(rejected.error, StateBackendError::InvalidReportedCount);
            assert_eq!(rejected.released, [0x20, 0x10]);
        }
    }
    match accept_rasterizer_counts(0x30, 17, 0) {
        Ok(()) => panic!("the count is too large"),
        Err(rejected) => assert_eq!(rejected.released, [0x30]),
    }
    match capture_stream_output(&vec![0, 0x40, 0, 0]) {
        Ok(_) => panic!("the offset of a bound target is unknown"),
        Err(rejected) => {
            assert_eq!(rejected.error, StateBackendError::StreamOutputOffsetsUnobservable);
            assert_eq!(rejected.released, [0x40]);
        }
    }
}

fn list(raw: usize, vertices: i32, indices: i32, commands: Vec<DrawCommand>) -> RawDrawList {
    RawDrawList {
        raw,
        vertices: RawVector { data: if vertices > 0 { 0x1000 } else { 0 }, size: vertices },
        indices: RawVector { data: if indices > 0 { 0x2000 } else { 0 }, size: indices },
        commands: RawVector {
            data: if commands.is_empty() { 0 } else { 0x3000 },
            size: commands.len() as i32,
        },
        command_values: commands,
    }
}

#[test]
fn lists_are_validated_and_drawn_at_their_place() {
    let geometry = validate_geometry(draw_data()).expect("geometry is valid");
    let visible = command([12.25, 23.25, 30.25, 40.25]);
    let hidden = command([10.0, 20.0, 10.0, 20.0]);
    let reset = DrawCommand { callback: Some(RESET_RENDER_STATE_CALLBACK), ..visible };
    let callback = DrawCommand { callback: Some(0x4000), ..visible };
    let lists = vec![
        list(0x10, 4, 6, vec![visible, hidden]),
        list(0x20, 8, 12, vec![callback, reset, visible]),
    ];
    assert_eq!(
        collect_draw_lists(&lists, 12, 17).err(),
        Some(RendererError::InvalidDrawData)
    );
    let collected = collect_draw_lists(&lists, 12, 18).expect("the lists are sound");
    assert_eq!(
        upload_offsets(&collected).expect("the offsets fit"),
        [(0, 0), (4, 6)]
    );

    let submission = submit_draws(geometry, &collected);
    assert_eq!(
        submission.result,
        Ok(RenderStats {
            draw_calls: 2,
            elements: 12,
            user_callbacks: 1,
            reset_state_callbacks: 1,
        })
    );
    assert_eq!(submission.steps.len(), 5);
    assert_eq!(submission.steps[0], DrawStep::SetupRenderState);
    assert!(matches!(
        submission.steps[1],
        DrawStep::Draw(drawn) if drawn.start_index == 0 && drawn.base_vertex == 0
    ));
    assert_eq!(submission.steps[2], DrawStep::Callback { list: 0x20, command: 0 });
    assert_eq!(submission.steps[3], DrawStep::SetupRenderState);
    assert!(matches!(
        submission.steps[4],
        DrawStep::Draw(drawn) if drawn.start_index == 6 && drawn.base_vertex == 4
    ));

    let outside = DrawCommand { index_offset: 1, ..visible };
    assert_eq!(
        collect_draw_lists(&vec![list(0x10, 4, 6, vec![outside])], 4, 6).err(),
        Some(RendererError::InvalidDrawData)
    );
    assert_eq!(
        collect_draw_lists(&vec![list(0, 4, 6, Vec::new())], 4, 6).err(),
        Some(RendererError::InvalidDrawData)
    );
    assert_eq!(checked_slice(0, 1, 20), Err(RendererError::InvalidDrawData));
    assert_eq!(checked_slice(0, 0, 20), Ok(()));
}

fn reply(step: AttachStep) -> AttachReply {
    match step {
        AttachStep::InspectContext => AttachReply::Backend(Ok(())),
        AttachStep::ReadVertexBytecode | AttachStep::ReadPixelBytecode => {
            AttachReply::Bytecode { pointer: 0x50, length: 12 }
        }
        AttachStep::ReadFontAtlas => AttachReply::Atlas(AtlasReading {
            io: 1,
            atlas: 2,
            pixels: 3,
            width: 512,
            height: 64,
            bytes_per_pixel: 4,
        }),
        _ => AttachReply::Object { status: 0, object: 0x60 },
    }
}

fn attached() -> Attachment {
    let mut attachment = Attachment::begin();
    while let Some(step) = attachment.next_step() {
        attachment.accept(reply(step)).expect("every step succeeds");
    }
    attachment
}

fn session() -> D3d11Renderer {
    let mut contexts = NativeContexts { current: 0, claimed: false };
    contexts.claim(Some(b"1.80")).expect("the version matches");
    let owner = contexts.created(0x77).expect("the context was created");
    let io = BackendIo { flags: 0, platform_named: false, renderer_named: false };
    let (session, published) =
        D3d11Renderer::attach_with_context(attached(), 0x80, 0x90, 4, owner, Some(io))
            .expect("the context has its IO");
    assert!(published.renderer_named);
    session
}

#[test]
fn attaching_takes_every_step_and_stops_at_the_first_failure() {
    let mut attachment = Attachment::begin();
    let mut steps = 0;
    while let Some(step) = attachment.next_step() {
        if step == AttachStep::CreateBlendState {
            assert_eq!(
                attachment.accept(AttachReply::Object { status: -1, object: 0 }),
                Err(RendererError::HResult {
                    operation: GpuOperation::CreateBlendState,
                    code: -1
                })
            );
        }
        attachment.accept(reply(step)).expect("the step succeeds");
        steps += 1;
    }
    assert_eq!(steps, 22);

    let mut session = session();
    assert_eq!(session.context_ptr(), 0x77);
    let mut contexts = NativeContexts { current: 5, claimed: true };
    let seen = session.with_current_context(&mut contexts, |inside| {
        let seen = *inside;
        inside.current = 6;
        seen
    });
    assert_eq!(seen, NativeContexts { current: 0x77, claimed: true });
    assert_eq!(contexts, NativeContexts { current: 5, claimed: true });
    assert_eq!(session.swap_chain_ptr(), 0x80);
    assert_eq!(session.device_ptr(), 0x90);
    assert_eq!(session.generation(), 4);
    assert_eq!(session.resource_generation(), 1);
    assert_eq!(
        D3d11Renderer::attach_raw_borrowed(0),
        Err(RendererError::NullPointer("swap-chain"))
    );
    let io = BackendIo { flags: 8, platform_named: true, renderer_named: true };
    let (owner, published) = session.end(Some(io));
    assert_eq!(owner.as_ptr(), 0x77);
    assert_eq!(
        published,
        Some(BackendIo { flags: 0, platform_named: true, renderer_named: false })
    );
}

#[test]
fn a_session_only_moves_forward() {
    let mut session = session();
    assert_eq!(session.synchronize_generation(3), Err(RendererError::StaleGeneration));
    assert_eq!(session.synchronize_generation(4), Ok(()));
    assert_eq!(session.resource_generation(), 1);
    assert_eq!(session.invalidate_back_buffer(5), Ok(()));
    assert_eq!(session.generation(), 5);
    assert_eq!(session.resource_generation(), 2);
    assert_eq!(
        session.recreate_back_buffer(4, Ok(())),
        Err(RendererError::StaleGeneration)
    );
    assert_eq!(session.recreate_back_buffer(5, Ok(())), Ok(()));
    assert_eq!(session.resource_generation(), 3);
    assert_eq!(
        session.rebuild_font_texture(Err(RendererError::InvalidFontAtlas)),
        Err(RendererError::InvalidFontAtlas)
    );
    assert_eq!(session.resource_generation(), 3);
    assert_eq!(session.rebuild_font_texture(Ok(())), Ok(()));
    assert_eq!(session.resource_generation(), 4);

    assert_eq!(session.gpu_mut().plan_vertex_buffer(5_000), Ok(None));
    let plan = session
        .gpu_mut()
        .plan_vertex_buffer(5_001)
        .expect("growth fits")
        .expect("the buffer is too small");
    assert_eq!(plan.capacity, 10_001);
    assert_eq!(plan.byte_width, 200_020);
    session.gpu_mut().adopt_vertex_buffer(plan, Ok(())).expect("the buffer was created");
    assert_eq!(session.gpu_mut().plan_vertex_buffer(10_001), Ok(None));
}

#[test]
fn frames_are_refused_before_anything_is_uploaded() {
    let mut session = session();
    let config = FrameConfig {
        display_width: bits(100.0),
        display_height: bits(50.0),
        framebuffer_scale_x: bits(1.0),
        framebuffer_scale_y: bits(1.0),
        delta_seconds: bits(0.016),
    };
    let lists = vec![list(0x10, 4, 6, vec![command([12.0, 22.0, 20.0, 30.0])])];
    let counts = totals(1, 4, 6, 0x9000);

    let mut frame = session.begin_frame(config, true).expect("the frame begins");
    assert_eq!(
        session.render_frame(&mut frame, 0x5000, 3, Ok(()), draw_data(), counts, &lists).err(),
        Some(RendererError::StaleGeneration)
    );
    let mut frame = session.begin_frame(config, true).expect("the frame begins");
    let plan = session
        .render_frame(&mut frame, 0x5000, 4, Ok(()), draw_data(), counts, &lists)
        .expect("the frame is sound");
    assert_eq!(plan.vertex_count, 4);
    assert_eq!(plan.geometry.framebuffer_width, 200);
    assert_eq!(plan.lists.len(), 1);
    let again =
        session.render_frame(&mut frame, 0x5000, 4, Ok(()), draw_data(), counts, &lists).err();
    assert!(matches!(again, Some(RendererError::Frame(_))));
}

#[test]
fn native_results_are_judged() {
    assert_eq!(required_object(GpuOperation::GetDevice, 0, 7), Ok(7));
    assert_eq!(
        required_object(GpuOperation::GetDevice, 0, 0),
        Err(RendererError::HResult { operation: GpuOperation::GetDevice, code: -2147467261 })
    );
    let refused = required_object(GpuOperation::GetDevice, -2147467261, 7)
        .expect_err("the status decides");
    assert_eq!(refused.to_string(), "D3D11 operation GetDevice failed with HRESULT 0x80004003");
    assert!(map_discard(0, 0).unmap);
    assert!(map_discard(0, 0).result.is_err());
    assert!(!map_discard(0, 5).unmap);
    assert_eq!(
        blob_bytes(5, 0, ShaderKind::Vertex),
        Err(RendererError::ShaderCompile(ShaderKind::Vertex))
    );
    assert_eq!(blob_bytes(5, 9, ShaderKind::Vertex), Ok(5));
    let atlas =
        AtlasReading { io: 1, atlas: 2, pixels: 3, width: 512, height: 64, bytes_per_pixel: 4 };
    assert_eq!(
        font_texture(atlas),
        Ok(FontTexture { width: 512, height: 64, row_pitch: 2048 })
    );
    assert_eq!(
        font_texture(AtlasReading { bytes_per_pixel: 1, ..atlas }),
        Err(RendererError::InvalidFontAtlas)
    );
    assert!(clears_tex_id(5, 5));
    assert!(!clears_tex_id(6, 5));
}

#[test]
fn the_render_state_is_set_up_in_order() {
    let resources = DrawResources {
        vertex_shader: 1,
        pixel_shader: 2,
        input_layout: 3,
        constant_buffer: 4,
        blend_state: 5,
        rasterizer_state: 6,
        depth_stencil_state: 7,
        sampler: 8,
        vertex_buffer: 9,
        index_buffer: 10,
        render_target: 11,
    };
    let geometry = FrameGeometry { framebuffer_width: 640, framebuffer_height: 480 };
    let calls = setup_render_state(resources, geometry);
    assert_eq!(calls[0], SetupCall::Viewport { width: 640, height: 480 });
    assert_eq!(calls[2], SetupCall::VertexBuffer { buffer: 9, stride: 20 });
    assert_eq!(calls[3], SetupCall::IndexBuffer { buffer: 10, format: FORMAT_R16_UINT });
    assert_eq!(calls.last(), Some(&SetupCall::RasterizerState(6)));
    assert_eq!(calls.len(), 18);
    assert_eq!(index_format(4), FORMAT_R32_UINT);
    assert_eq!(input_elements()[2].offset, 16);
}

#[test]
fn descriptions_are_those_of_the_native_headers() {
    let blend = blend_description();
    assert!(blend.enabled);
    assert!(!blend.alpha_to_coverage);
    assert!(!blend.independent);
    assert_eq!(
        blend.color_factors,
        (native::D3D11_BLEND_SRC_ALPHA.0 as u32, native::D3D11_BLEND_INV_SRC_ALPHA.0 as u32)
    );
    assert_eq!(
        blend.alpha_factors,
        (native::D3D11_BLEND_ONE.0 as u32, native::D3D11_BLEND_INV_SRC_ALPHA.0 as u32)
    );
    let sum = native::D3D11_BLEND_OP_ADD.0 as u32;
    assert_eq!(blend.operations, (sum, sum));
    assert_eq!(blend.write_mask, native::D3D11_COLOR_WRITE_ENABLE_ALL.0 as u32);

    let rasterizer = rasterizer_description();
    assert_eq!(rasterizer.fill_mode, native::D3D11_FILL_SOLID.0 as u32);
    assert_eq!(rasterizer.cull_mode, native::D3D11_CULL_NONE.0 as u32);
    assert!(rasterizer.depth_clip && rasterizer.scissor);
    assert!(!rasterizer.front_counter_clockwise);
    assert!(!rasterizer.multisample && !rasterizer.antialiased_line);
    assert_eq!(rasterizer.depth_bias, 0);
    assert_eq!(f32::from_bits(rasterizer.depth_bias_clamp), 0.0);
    assert_eq!(f32::from_bits(rasterizer.slope_scaled_depth_bias), 0.0);

    let depth = depth_stencil_description();
    assert!(!depth.depth && !depth.stencil);
    assert_eq!(depth.write_mask, native::D3D11_DEPTH_WRITE_MASK_ZERO.0 as u32);
    assert_eq!(depth.comparison, native::D3D11_COMPARISON_ALWAYS.0 as u32);
    let zeroed = native::D3D11_DEPTH_STENCIL_DESC::default();
    assert_eq!(depth.stencil_read_mask, zeroed.StencilReadMask);
    assert_eq!(depth.stencil_write_mask, zeroed.StencilWriteMask);

    let sampler = sampler_description();
    let wrap = native::D3D11_TEXTURE_ADDRESS_WRAP.0 as u32;
    assert_eq!(sampler.filter, native::D3D11_FILTER_MIN_MAG_MIP_LINEAR.0 as u32);
    assert_eq!(sampler.address, (wrap, wrap, wrap));
    assert_eq!(f32::from_bits(sampler.level_bias), 0.0);
    assert_eq!(sampler.max_anisotropy, 1);
    assert_eq!(sampler.comparison, native::D3D11_COMPARISON_ALWAYS.0 as u32);
    assert_eq!(sampler.border_color, (0, 0, 0, 0));
    assert_eq!(f32::from_bits(sampler.min_level), 0.0);
    assert_eq!(f32::from_bits(sampler.max_level), f32::MAX);

    let font = FontTexture { width: 512, height: 64, row_pitch: 2048 };
    let texture = font_texture_description(font);
    assert_eq!((texture.width, texture.height), (512, 64));
    assert_eq!((texture.levels, texture.count, texture.samples), (1, 1, (1, 0)));
    assert_eq!(texture.format, common::DXGI_FORMAT_R8G8B8A8_UNORM.0 as u32);
    assert_eq!(texture.usage, native::D3D11_USAGE_DEFAULT.0 as u32);
    assert_eq!(texture.bind, native::D3D11_BIND_SHADER_RESOURCE.0 as u32);
    assert_eq!((texture.cpu_access, texture.options), (0, 0));
    assert_eq!((texture.row_pitch, texture.slice_pitch), (2048, 0));

    assert_eq!(BIND_VERTEX_BUFFER, native::D3D11_BIND_VERTEX_BUFFER.0 as u32);
    assert_eq!(BIND_INDEX_BUFFER, native::D3D11_BIND_INDEX_BUFFER.0 as u32);
    assert_eq!(BIND_CONSTANT_BUFFER, native::D3D11_BIND_CONSTANT_BUFFER.0 as u32);
    let buffer = dynamic_buffer_description(64, BIND_CONSTANT_BUFFER);
    assert_eq!((buffer.byte_width, buffer.bind), (64, BIND_CONSTANT_BUFFER));
    assert_eq!(buffer.usage, native::D3D11_USAGE_DYNAMIC.0 as u32);
    assert_eq!(buffer.cpu_access, native::D3D11_CPU_ACCESS_WRITE.0 as u32);
    assert_eq!((buffer.options, buffer.stride), (0, 0));
}
