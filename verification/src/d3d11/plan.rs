//! Validation of draw data and translation of draw commands.
//!
//! Values of the native structures that are single-precision numbers are given
//! as their bit patterns.
use vstd::prelude::*;
use crate::d3d11::error::RendererError;
use crate::float_bits::{
    ceiling, ceiling_of, ceiling_u32, finite, floor, floor_of, is_finite, lemma_ceilings_are_single,
    nearest_single, order, rank, rounded_to_single, HUGE, PAST_U32, SIGN,
};

verus! {

/// Address that stands for "reset the render state" where a callback is
/// expected.
pub const RESET_RENDER_STATE_CALLBACK: usize = usize::MAX;

/// What the draw data says about its target.
#[derive(Clone, Copy, Debug, PartialEq, Eq)]
pub struct GeometryReading {
    /// Left and top of the display.
    pub display_pos: [u32; 2],
    /// Width and height of the display.
    pub display_size: [u32; 2],
    /// Framebuffer pixels per display unit.
    pub framebuffer_scale: [u32; 2],
    /// Width and height of the display, scaled.
    pub scaled_size: [u32; 2],
}

/// A validated render target.
#[derive(Clone, Copy, Debug, PartialEq, Eq, Structural)]
pub struct FrameGeometry {
    /// Width of the framebuffer in pixels.
    pub framebuffer_width: u32,
    /// Height of the framebuffer in pixels.
    pub framebuffer_height: u32,
}

/// What is wrong with a render target, if anything is.
pub open spec fn geometry_failure(reading: GeometryReading) -> Option<RendererError> {
    if !finite(reading.display_pos[0]) || !finite(reading.display_pos[1]) || !finite(
        reading.display_size[0],
    ) || rank(reading.display_size[0]) < 0 || !finite(reading.display_size[1]) || rank(
        reading.display_size[1],
    ) < 0 || !finite(reading.framebuffer_scale[0]) || rank(reading.framebuffer_scale[0]) <= 0
        || !finite(reading.framebuffer_scale[1]) || rank(reading.framebuffer_scale[1]) <= 0 {
        Some(RendererError::InvalidFramebuffer)
    } else if !finite(reading.scaled_size[0]) || !finite(reading.scaled_size[1]) || rank(
        reading.scaled_size[0],
    ) <= 0 || rank(reading.scaled_size[1]) <= 0 {
        Some(RendererError::InvalidFramebuffer)
    } else if rank(reading.scaled_size[0]) >= rank(PAST_U32) || rank(reading.scaled_size[1])
        >= rank(PAST_U32) {
        Some(RendererError::DrawDataOverflow)
    } else {
        None
    }
}

/// Whether a target is as large as the scaled display, rounded up.
pub open spec fn covers(geometry: FrameGeometry, reading: GeometryReading) -> bool {
    &&& geometry.framebuffer_width == ceiling_of(reading.scaled_size[0])
    &&& geometry.framebuffer_height == ceiling_of(reading.scaled_size[1])
}

/// Validates the render target of the draw data.
pub fn validate_geometry(reading: GeometryReading) -> (geometry: Result<
    FrameGeometry,
    RendererError,
>)
    ensures
        match geometry {
            Ok(geometry) => geometry_failure(reading) is None && covers(geometry, reading),
            Err(error) => geometry_failure(reading) == Some(error),
        },
{
    if !is_finite(reading.display_pos[0]) || !is_finite(reading.display_pos[1]) || !is_finite(
        reading.display_size[0],
    ) || order(reading.display_size[0]) < 0 || !is_finite(reading.display_size[1]) || order(
        reading.display_size[1],
    ) < 0 || !is_finite(reading.framebuffer_scale[0]) || order(reading.framebuffer_scale[0]) <= 0
        || !is_finite(reading.framebuffer_scale[1]) || order(reading.framebuffer_scale[1]) <= 0 {
        return Err(RendererError::InvalidFramebuffer);
    }
    if !is_finite(reading.scaled_size[0]) || !is_finite(reading.scaled_size[1]) || order(
        reading.scaled_size[0],
    ) <= 0 || order(reading.scaled_size[1]) <= 0 {
        return Err(RendererError::InvalidFramebuffer);
    }
    if order(reading.scaled_size[0]) >= order(PAST_U32) {
        return Err(RendererError::DrawDataOverflow);
    }
    if order(reading.scaled_size[1]) >= order(PAST_U32) {
        return Err(RendererError::DrawDataOverflow);
    }
    Ok(
        FrameGeometry {
            framebuffer_width: ceiling_u32(reading.scaled_size[0]),
            framebuffer_height: ceiling_u32(reading.scaled_size[1]),
        },
    )
}

/// The counts of the draw data.
#[derive(Clone, Copy, Debug, PartialEq, Eq, Structural)]
pub struct DrawTotals {
    /// Whether the draw data is valid.
    pub valid: bool,
    /// Number of draw lists.
    pub list_count: i32,
    /// Number of vertices over all lists.
    pub vertex_count: i32,
    /// Number of indices over all lists.
    pub index_count: i32,
    /// Address of the draw lists.
    pub lists: usize,
}

/// Whether the counts can be those of draw data.
pub open spec fn totals_valid(totals: DrawTotals) -> bool {
    &&& totals.valid
    &&& totals.list_count >= 0
    &&& totals.vertex_count >= 0
    &&& totals.index_count >= 0
    &&& totals.list_count > 0 ==> totals.lists != 0
}

/// Validates the counts before any list is looked at.
pub fn validate_totals(totals: DrawTotals) -> (counts: Result<(usize, usize), RendererError>)
    ensures
        match counts {
            Ok((vertices, indices)) => {
                &&& totals_valid(totals)
                &&& vertices == totals.vertex_count
                &&& indices == totals.index_count
            },
            Err(error) => !totals_valid(totals) && error == RendererError::InvalidDrawData,
        },
{
    if !totals.valid || totals.list_count < 0 || totals.vertex_count < 0 || totals.index_count < 0
        || (totals.list_count > 0 && totals.lists == 0) {
        return Err(RendererError::InvalidDrawData);
    }
    Ok((totals.vertex_count as usize, totals.index_count as usize))
}

/// A native draw command.
#[derive(Clone, Copy, Debug, PartialEq, Eq)]
pub struct DrawCommand {
    /// Address of the user callback, if the command has one.
    pub callback: Option<usize>,
    /// Number of indices to draw.
    pub element_count: u32,
    /// First index within the list.
    pub index_offset: u32,
    /// First vertex within the list.
    pub vertex_offset: u32,
    /// Texture of the command.
    pub texture: usize,
    /// Left, top, right, and bottom of the clip rectangle in framebuffer
    /// coordinates.
    pub clip: [u32; 4],
}

/// What a command asks for.
#[derive(Clone, Copy, Debug, PartialEq, Eq, Structural)]
pub enum CommandKind {
    /// Draw indexed primitives.
    Draw,
    /// Set up the render state again.
    ResetState,
    /// Call back.
    Callback,
}

/// A command in terms of the shared buffers.
#[derive(Clone, Copy, Debug, PartialEq, Eq)]
pub struct TranslatedCommand {
    /// What the command asks for.
    pub kind: CommandKind,
    /// Number of indices to draw.
    pub element_count: u32,
    /// First index in the shared index buffer.
    pub start_index: u32,
    /// First vertex in the shared vertex buffer.
    pub base_vertex: i32,
    /// Left, top, right, and bottom of the scissor rectangle.
    pub scissor: [i32; 4],
    /// Texture of the command.
    pub texture: usize,
}

/// Whether every number of four is finite.
pub open spec fn all_finite(values: [u32; 4]) -> bool {
    finite(values[0]) && finite(values[1]) && finite(values[2]) && finite(values[3])
}

/// A clip rectangle limited to a target and rounded outwards: left, top,
/// right, and bottom. The size of the target is rounded to single precision.
pub open spec fn visible(clip: [u32; 4], geometry: FrameGeometry) -> (int, int, int, int) {
    (
        larger(floor_of(clip[0]), 0),
        larger(floor_of(clip[1]), 0),
        smaller(ceiling_of(clip[2]), nearest_single(geometry.framebuffer_width)),
        smaller(ceiling_of(clip[3]), nearest_single(geometry.framebuffer_height)),
    )
}

/// The larger of two numbers.
pub open spec fn larger(left: int, right: int) -> int {
    if left < right {
        right
    } else {
        left
    }
}

/// The smaller of two numbers.
pub open spec fn smaller(left: int, right: int) -> int {
    if left < right {
        left
    } else {
        right
    }
}

/// What a command is in terms of the shared buffers, nothing where it is not
/// visible, or why it cannot be drawn.
pub open spec fn translation(
    command: DrawCommand,
    geometry: FrameGeometry,
    vertex_base: usize,
    index_base: usize,
) -> Result<Option<TranslatedCommand>, RendererError> {
    let (left, top, right, bottom) = visible(command.clip, geometry);
    match command.callback {
        Some(address) => Ok(
            Some(
                TranslatedCommand {
                    kind: if address == RESET_RENDER_STATE_CALLBACK {
                        CommandKind::ResetState
                    } else {
                        CommandKind::Callback
                    },
                    element_count: 0,
                    start_index: 0,
                    base_vertex: 0,
                    scissor: [0i32, 0i32, 0i32, 0i32],
                    texture: command.texture,
                },
            ),
        ),
        None => if !all_finite(command.clip) {
            Err(RendererError::InvalidDrawData)
        } else if right <= left || bottom <= top {
            Ok(None)
        } else if index_base + command.index_offset > u32::MAX || vertex_base
            + command.vertex_offset > i32::MAX {
            Err(RendererError::DrawDataOverflow)
        } else if right > i32::MAX || bottom > i32::MAX {
            Err(RendererError::DrawDataOverflow)
        } else {
            Ok(
                Some(
                    TranslatedCommand {
                        kind: CommandKind::Draw,
                        element_count: command.element_count,
                        start_index: (index_base + command.index_offset) as u32,
                        base_vertex: (vertex_base + command.vertex_offset) as i32,
                        scissor: [left as i32, top as i32, right as i32, bottom as i32],
                        texture: command.texture,
                    },
                ),
            )
        },
    }
}

fn low_edge(bits: u32) -> (edge: i64)
    requires
        finite(bits),
    ensures
        0 <= edge <= HUGE,
        edge < HUGE ==> edge == larger(floor_of(bits), 0),
        edge == HUGE ==> floor_of(bits) >= HUGE,
{
    match floor(bits) {
        Some(edge) => if edge < 0 {
            0
        } else {
            edge
        },
        None => if bits < SIGN {
            HUGE
        } else {
            0
        },
    }
}

fn high_edge(bits: u32, limit: u32) -> (edge: i64)
    requires
        finite(bits),
    ensures
        -HUGE <= edge <= nearest_single(limit) < HUGE,
        edge > -HUGE ==> edge == smaller(ceiling_of(bits), nearest_single(limit)),
        edge == -HUGE ==> ceiling_of(bits) <= -HUGE,
{
    let limit = rounded_to_single(limit);
    match ceiling(bits) {
        Some(edge) => if edge < limit {
            edge
        } else {
            limit
        },
        None => if bits < SIGN {
            limit
        } else {
            -HUGE
        },
    }
}

/// Translates one command of a list whose vertices and indices start at these
/// positions of the shared buffers.
pub fn translate_command(
    command: &DrawCommand,
    geometry: FrameGeometry,
    vertex_base: usize,
    index_base: usize,
) -> (result: Result<Option<TranslatedCommand>, RendererError>)
    ensures
        result == translation(*command, geometry, vertex_base, index_base),
        result matches Ok(Some(translated)) ==> translated.texture == command.texture,
        command.callback is Some ==> (result matches Ok(Some(translated)) && (translated.kind
            == CommandKind::ResetState <==> command.callback->0 == usize::MAX)),
{
    if let Some(address) = command.callback {
        let kind = if address == RESET_RENDER_STATE_CALLBACK {
            CommandKind::ResetState
        } else {
            CommandKind::Callback
        };
        return Ok(
            Some(
                TranslatedCommand {
                    kind,
                    element_count: 0,
                    start_index: 0,
                    base_vertex: 0,
                    scissor: [0, 0, 0, 0],
                    texture: command.texture,
                },
            ),
        );
    }
    let clip = command.clip;
    if !is_finite(clip[0]) || !is_finite(clip[1]) || !is_finite(clip[2]) || !is_finite(clip[3]) {
        return Err(RendererError::InvalidDrawData);
    }
    let left = low_edge(clip[0]);
    let top = low_edge(clip[1]);
    let right = high_edge(clip[2], geometry.framebuffer_width);
    let bottom = high_edge(clip[3], geometry.framebuffer_height);
    if right <= left || bottom <= top {
        return Ok(None);
    }
    let start_index = match index_base.checked_add(command.index_offset as usize) {
        Some(sum) => sum,
        None => return Err(RendererError::DrawDataOverflow),
    };
    if start_index as u64 > u32::MAX as u64 {
        return Err(RendererError::DrawDataOverflow);
    }
    let base_vertex = match vertex_base.checked_add(command.vertex_offset as usize) {
        Some(sum) => sum,
        None => return Err(RendererError::DrawDataOverflow),
    };
    if base_vertex as u64 > i32::MAX as u64 {
        return Err(RendererError::DrawDataOverflow);
    }
    if right > i32::MAX as i64 || bottom > i32::MAX as i64 {
        return Err(RendererError::DrawDataOverflow);
    }
    let scissor: [i32; 4] = [left as i32, top as i32, right as i32, bottom as i32];
    proof {
        let edges = visible(clip, geometry);
        assert(scissor@ =~= [edges.0 as i32, edges.1 as i32, edges.2 as i32, edges.3 as i32]@);
        assert(scissor == [edges.0 as i32, edges.1 as i32, edges.2 as i32, edges.3 as i32]);
    }
    Ok(
        Some(
            TranslatedCommand {
                kind: CommandKind::Draw,
                element_count: command.element_count,
                start_index: start_index as u32,
                base_vertex: base_vertex as i32,
                scissor,
                texture: command.texture,
            },
        ),
    )
}

/// A command that draws keeps both of its offsets: it starts where its list
/// starts in the shared buffers, plus its own offset.
pub proof fn law_draws_keep_both_offsets(
    command: DrawCommand,
    geometry: FrameGeometry,
    vertex_base: usize,
    index_base: usize,
)
    requires
        command.callback is None,
    ensures
        match translation(command, geometry, vertex_base, index_base) {
            Ok(Some(translated)) => {
                &&& translated.kind == CommandKind::Draw
                &&& translated.start_index == index_base + command.index_offset
                &&& translated.base_vertex == vertex_base + command.vertex_offset
                &&& translated.element_count == command.element_count
            },
            _ => true,
        },
{
}

/// Nothing is drawn outside of a target whose size is not rounded up to single
/// precision, as no validated size is.
pub proof fn law_scissors_stay_inside_the_target(
    command: DrawCommand,
    geometry: FrameGeometry,
    vertex_base: usize,
    index_base: usize,
)
    requires
        command.callback is None,
        nearest_single(geometry.framebuffer_width) <= geometry.framebuffer_width,
        nearest_single(geometry.framebuffer_height) <= geometry.framebuffer_height,
    ensures
        translation(command, geometry, vertex_base, index_base) matches Ok(Some(translated)) ==> {
            &&& 0 <= translated.scissor[0] < translated.scissor[2] <= geometry.framebuffer_width
            &&& 0 <= translated.scissor[1] < translated.scissor[3] <= geometry.framebuffer_height
        },
{
}

/// The size of a validated target is the same in single precision.
pub proof fn law_validated_sizes_are_exact(reading: GeometryReading, geometry: FrameGeometry)
    requires
        geometry_failure(reading) is None,
        covers(geometry, reading),
    ensures
        nearest_single(geometry.framebuffer_width) == geometry.framebuffer_width,
        nearest_single(geometry.framebuffer_height) == geometry.framebuffer_height,
{
    lemma_ceilings_are_single(reading.scaled_size[0], geometry.framebuffer_width);
    lemma_ceilings_are_single(reading.scaled_size[1], geometry.framebuffer_height);
}

/// A command binds its own texture, whether it draws or calls back.
pub proof fn law_commands_bind_their_texture(
    command: DrawCommand,
    geometry: FrameGeometry,
    vertex_base: usize,
    index_base: usize,
)
    ensures
        translation(command, geometry, vertex_base, index_base) matches Ok(Some(translated))
            ==> translated.texture == command.texture,
{
}

/// A command with a callback never draws: it sets up the render state again
/// where the callback is the highest address, and calls back otherwise.
pub proof fn law_callbacks_never_draw(
    command: DrawCommand,
    geometry: FrameGeometry,
    vertex_base: usize,
    index_base: usize,
)
    requires
        command.callback is Some,
    ensures
        translation(command, geometry, vertex_base, index_base) matches Ok(Some(translated)) && {
            &&& translated.element_count == 0
            &&& command.callback->0 == usize::MAX ==> translated.kind == CommandKind::ResetState
            &&& command.callback->0 != usize::MAX ==> translated.kind == CommandKind::Callback
        },
{
}

/// A drawn command's scissor rectangle is not empty, lies within the
/// framebuffer, and covers what of the clip rectangle lies within it.
pub proof fn law_scissor_covers_the_visible_clip(
    command: DrawCommand,
    geometry: FrameGeometry,
    vertex_base: usize,
    index_base: usize,
    x: int,
    y: int,
)
    requires
        command.callback is None,
        translation(command, geometry, vertex_base, index_base) matches Ok(Some(_)),
    ensures
        ({
            let scissor = translation(command, geometry, vertex_base, index_base)->Ok_0->0.scissor;
            let width = nearest_single(geometry.framebuffer_width);
            let height = nearest_single(geometry.framebuffer_height);
            &&& 0 <= scissor[0] < scissor[2] <= width
            &&& 0 <= scissor[1] < scissor[3] <= height
            &&& (scissor[0] <= x < scissor[2] <==> 0 <= x < width && floor_of(command.clip[0]) <= x
                < ceiling_of(command.clip[2]))
            &&& (scissor[1] <= y < scissor[3] <==> 0 <= y < height && floor_of(command.clip[1]) <= y
                < ceiling_of(command.clip[3]))
        }),
{
}

/// A command is refused where an edge of its clip rectangle is not a number,
/// and skipped exactly where the clip rectangle is empty or lies beyond an
/// edge of the framebuffer.
pub proof fn law_invisible_commands_are_skipped(
    command: DrawCommand,
    geometry: FrameGeometry,
    vertex_base: usize,
    index_base: usize,
)
    requires
        command.callback is None,
    ensures
        ({
            let result = translation(command, geometry, vertex_base, index_base);
            let numbers = forall|i: int| 0 <= i < 4 ==> finite(#[trigger] command.clip[i]);
            let width = nearest_single(geometry.framebuffer_width);
            let height = nearest_single(geometry.framebuffer_height);
            let left = floor_of(command.clip[0]);
            let top = floor_of(command.clip[1]);
            let right = ceiling_of(command.clip[2]);
            let bottom = ceiling_of(command.clip[3]);
            &&& result == Err::<Option<TranslatedCommand>, _>(RendererError::InvalidDrawData) <==>
                !numbers
            &&& numbers ==> (result == Ok::<_, RendererError>(None::<TranslatedCommand>) <==> {
                ||| right <= left || bottom <= top
                ||| right <= 0 || bottom <= 0
                ||| width <= left || height <= top
                ||| width <= 0 || height <= 0
            })
        }),
{
    assert(all_finite(command.clip) <==> forall|i: int|
        0 <= i < 4 ==> finite(#[trigger] command.clip[i]));
}

/// A render target is valid exactly where, on either axis, the position is a
/// number, the display size is not negative, the scale is positive, and the
/// scaled size is positive and below what a framebuffer can have. It is as wide
/// and as high as the scaled display of the same axis, rounded up.
pub proof fn law_targets_are_valid_on_either_axis(reading: GeometryReading, geometry: FrameGeometry)
    ensures
        geometry_failure(reading) is None <==> forall|axis: int|
            0 <= axis < 2 ==> {
                &&& finite(#[trigger] reading.display_pos[axis])
                &&& finite(reading.display_size[axis]) && rank(reading.display_size[axis]) >= 0
                &&& finite(reading.framebuffer_scale[axis]) && rank(
                    reading.framebuffer_scale[axis],
                ) > 0
                &&& finite(reading.scaled_size[axis]) && 0 < rank(reading.scaled_size[axis]) < rank(
                    0x4f80_0000,
                )
            },
        geometry_failure(reading) matches Some(error) ==> error == RendererError::InvalidFramebuffer
            || error == RendererError::DrawDataOverflow,
        geometry_failure(reading) == Some(RendererError::DrawDataOverflow) ==> exists|axis: int|
            0 <= axis < 2 && rank(#[trigger] reading.scaled_size[axis]) >= rank(0x4f80_0000),
        covers(geometry, reading) <==> ceiling_of(reading.scaled_size[0])
            == geometry.framebuffer_width && ceiling_of(reading.scaled_size[1])
            == geometry.framebuffer_height,
{
    let axes = forall|axis: int|
        0 <= axis < 2 ==> {
            &&& finite(#[trigger] reading.display_pos[axis])
            &&& finite(reading.display_size[axis]) && rank(reading.display_size[axis]) >= 0
            &&& finite(reading.framebuffer_scale[axis]) && rank(reading.framebuffer_scale[axis]) > 0
            &&& finite(reading.scaled_size[axis]) && 0 < rank(reading.scaled_size[axis]) < rank(
                0x4f80_0000,
            )
        };
    if axes {
        assert(finite(reading.display_pos[0]));
        assert(finite(reading.display_pos[1]));
    }
}

/// Counts are valid exactly where the draw data is, none is negative, and lists
/// that are counted have an address.
pub proof fn law_counts_need_valid_draw_data(totals: DrawTotals)
    ensures
        !totals.valid ==> !totals_valid(totals),
        totals.list_count < 0 || totals.vertex_count < 0 || totals.index_count < 0 ==> !totals_valid(
            totals,
        ),
        totals.list_count > 0 && totals.lists == 0 ==> !totals_valid(totals),
        totals.valid && totals.list_count == 0 && totals.vertex_count >= 0 && totals.index_count >= 0
            ==> totals_valid(totals),
        totals.valid && totals.list_count > 0 && totals.lists != 0 && totals.vertex_count >= 0
            && totals.index_count >= 0 ==> totals_valid(totals),
{
}

} // verus!
