//! Turning recorded draw commands into render-pass state: the scissor
//! rectangle of a clipped draw, and which pipeline and index range it uses.
use vstd::prelude::*;
use core::ops::Range;

verus! {

/// Which pipeline a draw uses.
#[derive(Clone, Copy, Debug, PartialEq, Eq, Structural)]
pub enum Pipeline {
    Main,
    Text,
}

/// A rectangle of the render target, in whole pixels.
#[derive(Clone, Copy, Debug, PartialEq, Eq, Structural)]
pub struct ScissorRect {
    pub x: u32,
    pub y: u32,
    pub width: u32,
    pub height: u32,
}

/// The scissor rectangle of a draw clipped to the rectangle at `pos` with
/// extent `size`, on a surface of extent `surface`: the clip rectangle cut off
/// at the surface's right and bottom edges, or nothing when the clip starts
/// beyond the surface or covers no pixel of it.
pub open spec fn clip_scissor_spec(pos: (u32, u32), size: (u32, u32), surface: (u32, u32)) -> Option<
    ScissorRect,
> {
    let max_x = if pos.0 + size.0 < surface.0 { pos.0 + size.0 } else { surface.0 as int };
    let max_y = if pos.1 + size.1 < surface.1 { pos.1 + size.1 } else { surface.1 as int };
    let w = if max_x > pos.0 { max_x - pos.0 } else { 0 };
    let h = if max_y > pos.1 { max_y - pos.1 } else { 0 };
    if pos.0 > surface.0 || pos.1 > surface.1 || w == 0 || h == 0 {
        None
    } else {
        Some(ScissorRect { x: pos.0, y: pos.1, width: w as u32, height: h as u32 })
    }
}

/// The smaller of `a` and `b`.
pub open spec fn min_u32(a: u32, b: u32) -> u32 {
    if a <= b {
        a
    } else {
        b
    }
}

/// A clip yields a scissor exactly when it starts inside the surface and
/// covers a pixel of it; the scissor starts at the clip and is as wide and as
/// high as the clip, cut at the surface's right and bottom edges.
pub proof fn lemma_clip_scissor_cuts_at_surface(
    pos: (u32, u32),
    size: (u32, u32),
    surface: (u32, u32),
)
    ensures
        clip_scissor_spec(pos, size, surface) is Some <==> (pos.0 < surface.0 && pos.1 < surface.1
            && size.0 > 0 && size.1 > 0),
        clip_scissor_spec(pos, size, surface) matches Some(s) ==> s.x == pos.0 && s.y == pos.1
            && s.width == min_u32(size.0, (surface.0 - pos.0) as u32) && s.height == min_u32(
            size.1,
            (surface.1 - pos.1) as u32,
        ),
{
}

/// The scissor rectangle for a draw clipped to `pos`/`size` on a surface of
/// extent `surface` (see [`clip_scissor_spec`]). A rectangle that is returned
/// is never empty and lies inside both the clip and the surface.
pub fn clip_scissor(pos: (u32, u32), size: (u32, u32), surface: (u32, u32)) -> (r: Option<
    ScissorRect,
>)
    requires
        pos.0 + size.0 <= u32::MAX,
        pos.1 + size.1 <= u32::MAX,
    ensures
        r == clip_scissor_spec(pos, size, surface),
        r is Some <==> (pos.0 < surface.0 && pos.1 < surface.1 && size.0 > 0 && size.1 > 0),
        r matches Some(s) ==> s.width == min_u32(size.0, (surface.0 - pos.0) as u32) && s.height
            == min_u32(size.1, (surface.1 - pos.1) as u32),
        r matches Some(s) ==> {
            &&& s.x == pos.0 && s.y == pos.1
            &&& s.width > 0 && s.height > 0
            &&& s.x + s.width <= surface.0 && s.y + s.height <= surface.1
            &&& s.x + s.width <= pos.0 + size.0 && s.y + s.height <= pos.1 + size.1
        },
{
    let end = (pos.0 + size.0, pos.1 + size.1);
    let max = (
        if end.0 < surface.0 {
            end.0
        } else {
            surface.0
        },
        if end.1 < surface.1 {
            end.1
        } else {
            surface.1
        },
    );
    let clipped = (max.0.saturating_sub(pos.0), max.1.saturating_sub(pos.1));
    // If the rect isn't valid, the draw is skipped.
    if pos.0 > surface.0 || pos.1 > surface.1 || clipped.0 == 0 || clipped.1 == 0 {
        None
    } else {
        Some(ScissorRect { x: pos.0, y: pos.1, width: clipped.0, height: clipped.1 })
    }
}

/// A draw of yakui's own geometry: a range of the index buffer, drawn with a
/// bind group (named by its index bits) and a pipeline.
#[derive(Debug)]
pub struct YakuiDrawCommand {
    pub index_range: Range<u32>,
    pub bind_group: u64,
    pub pipeline: Pipeline,
}

/// What the render pass is told for one draw of yakui's geometry.
#[derive(Debug)]
pub struct DrawStep {
    /// The region drawn to.
    pub scissor: ScissorRect,
    pub pipeline: Pipeline,
    pub index_range: Range<u32>,
    pub bind_group: u64,
}

/// The draw step for `command`: clipped to `clip` (a position and extent in
/// whole pixels) if it has one, else to the whole surface; nothing when the
/// clip leaves no pixel to draw.
pub open spec fn plan_draw_spec(
    command: YakuiDrawCommand,
    clip: Option<((u32, u32), (u32, u32))>,
    surface: (u32, u32),
) -> Option<DrawStep> {
    let scissor = match clip {
        Some((pos, size)) => clip_scissor_spec(pos, size, surface),
        None => Some(ScissorRect { x: 0, y: 0, width: surface.0, height: surface.1 }),
    };
    match scissor {
        Some(s) => Some(
            DrawStep {
                scissor: s,
                pipeline: command.pipeline,
                index_range: command.index_range,
                bind_group: command.bind_group,
            },
        ),
        None => None,
    }
}

/// A draw that is issued keeps its command's pipeline, bind group and index
/// range; without a clip it covers the whole surface, with one it is issued
/// exactly when the clip leaves a pixel, scissored to the clip's scissor.
pub proof fn lemma_plan_draw_keeps_command(
    command: YakuiDrawCommand,
    clip: Option<((u32, u32), (u32, u32))>,
    surface: (u32, u32),
)
    ensures
        plan_draw_spec(command, clip, surface) matches Some(step) ==> step.pipeline
            == command.pipeline && step.bind_group == command.bind_group && step.index_range
            == command.index_range,
        clip is None ==> (plan_draw_spec(command, clip, surface) matches Some(step)
            && step.scissor == (ScissorRect { x: 0, y: 0, width: surface.0, height: surface.1 })),
        clip matches Some((pos, size)) ==> (plan_draw_spec(command, clip, surface) is Some <==> (
        pos.0 < surface.0 && pos.1 < surface.1 && size.0 > 0 && size.1 > 0)),
{
    if let Some((pos, size)) = clip {
        lemma_clip_scissor_cuts_at_surface(pos, size, surface);
    }
}

/// Decides how to issue `command` on a surface of extent `surface`.
pub fn plan_draw(
    command: &YakuiDrawCommand,
    clip: Option<((u32, u32), (u32, u32))>,
    surface: (u32, u32),
) -> (r: Option<DrawStep>)
    requires
        clip matches Some((pos, size)) ==> pos.0 + size.0 <= u32::MAX && pos.1 + size.1
            <= u32::MAX,
    ensures
        r == plan_draw_spec(*command, clip, surface),
        r matches Some(step) ==> step.pipeline == command.pipeline && step.bind_group
            == command.bind_group && step.index_range == command.index_range,
        clip is None ==> (r matches Some(step) && step.scissor == (ScissorRect {
            x: 0,
            y: 0,
            width: surface.0,
            height: surface.1,
        })),
        clip matches Some((pos, size)) ==> (r is Some <==> (pos.0 < surface.0 && pos.1 < surface.1
            && size.0 > 0 && size.1 > 0)),
        clip matches Some((pos, size)) ==> (r matches Some(step) ==> step.scissor == clip_scissor_spec(
            pos,
            size,
            surface,
        ).unwrap()),
{
    let scissor = match clip {
        Some((pos, size)) => clip_scissor(pos, size, surface),
        None => Some(ScissorRect { x: 0, y: 0, width: surface.0, height: surface.1 }),
    };
    match scissor {
        Some(s) => Some(
            DrawStep {
                scissor: s,
                pipeline: command.pipeline,
                index_range: Range { start: command.index_range.start, end: command.index_range.end },
                bind_group: command.bind_group,
            },
        ),
        None => None,
    }
}

} // verus!
