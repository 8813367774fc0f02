//! Corner positions of a quad, clipping and culling.
use vstd::prelude::*;

verus! {

/// A position in device pixels.
#[derive(Clone, Copy, Debug, PartialEq, Eq, Structural)]
pub struct Point {
    pub x: i32,
    pub y: i32,
}

/// An axis-aligned rectangle in device pixels.
#[derive(Clone, Copy, Debug, PartialEq, Eq, Structural)]
pub struct IRect {
    pub min_x: i32,
    pub min_y: i32,
    pub max_x: i32,
    pub max_y: i32,
}

/// The four corners of a node after its transform: top left, top right,
/// bottom right, bottom left.
#[derive(Clone, Copy, Debug, PartialEq, Eq, Structural)]
pub struct Quad {
    pub tl: Point,
    pub tr: Point,
    pub br: Point,
    pub bl: Point,
}

/// A shift of one corner.
#[derive(Clone, Copy, Debug, PartialEq, Eq, Structural)]
pub struct Offset {
    pub x: i64,
    pub y: i64,
}

/// The shift of each corner that pulls it inside the clip rectangle.
#[derive(Clone, Copy, Debug, PartialEq, Eq, Structural)]
pub struct QuadOffsets {
    pub tl: Offset,
    pub tr: Offset,
    pub br: Offset,
    pub bl: Offset,
}

pub open spec fn max0(v: int) -> int {
    if v > 0 { v } else { 0 }
}

pub open spec fn min0(v: int) -> int {
    if v < 0 { v } else { 0 }
}

pub open spec fn offset(x: int, y: int) -> Offset {
    Offset { x: x as i64, y: y as i64 }
}

/// Each corner is pulled in only along the sides it touches: the top left
/// corner towards the clip's minimum, the bottom right towards its maximum.
pub open spec fn clip_offsets(q: Quad, clip: Option<IRect>) -> QuadOffsets {
    match clip {
        None => QuadOffsets { tl: offset(0, 0), tr: offset(0, 0), br: offset(0, 0), bl: offset(0, 0) },
        Some(c) => QuadOffsets {
            tl: offset(max0(c.min_x - q.tl.x), max0(c.min_y - q.tl.y)),
            tr: offset(min0(c.max_x - q.tr.x), max0(c.min_y - q.tr.y)),
            br: offset(min0(c.max_x - q.br.x), min0(c.max_y - q.br.y)),
            bl: offset(max0(c.min_x - q.bl.x), min0(c.max_y - q.bl.y)),
        },
    }
}

/// A quad is culled when it is not rotated and its clipped extent is empty
/// along some axis; a rotated quad is never culled.
pub open spec fn is_culled(q: Quad, axis_aligned: bool, d: QuadOffsets) -> bool {
    axis_aligned && (d.tl.x - d.tr.x >= q.tr.x - q.tl.x || d.tr.y - d.br.y >= q.br.y - q.tr.y)
}

fn max_zero(v: i64) -> (r: i64)
    ensures
        r == max0(v as int),
{
    if v > 0 { v } else { 0 }
}

fn min_zero(v: i64) -> (r: i64)
    ensures
        r == min0(v as int),
{
    if v < 0 { v } else { 0 }
}

/// How far each corner moves to stay inside `clip`; nothing moves without one.
pub fn compute_clip_offsets(q: &Quad, clip: &Option<IRect>) -> (r: QuadOffsets)
    ensures
        r == clip_offsets(*q, *clip),
{
    match clip {
        None => {
            let z = Offset { x: 0, y: 0 };
            QuadOffsets { tl: z, tr: z, br: z, bl: z }
        },
        Some(c) => QuadOffsets {
            tl: Offset {
                x: max_zero(c.min_x as i64 - q.tl.x as i64),
                y: max_zero(c.min_y as i64 - q.tl.y as i64),
            },
            tr: Offset {
                x: min_zero(c.max_x as i64 - q.tr.x as i64),
                y: max_zero(c.min_y as i64 - q.tr.y as i64),
            },
            br: Offset {
                x: min_zero(c.max_x as i64 - q.br.x as i64),
                y: min_zero(c.max_y as i64 - q.br.y as i64),
            },
            bl: Offset {
                x: max_zero(c.min_x as i64 - q.bl.x as i64),
                y: min_zero(c.max_y as i64 - q.bl.y as i64),
            },
        },
    }
}

/// Whether a quad with these clip offsets is dropped.
pub fn quad_is_culled(q: &Quad, axis_aligned: bool, d: &QuadOffsets) -> (r: bool)
    requires
        clip_offsets_bounded(*d),
    ensures
        r == is_culled(*q, axis_aligned, *d),
{
    axis_aligned && (d.tl.x - d.tr.x >= q.tr.x as i64 - q.tl.x as i64 || d.tr.y - d.br.y >= q.br.y as i64
        - q.tr.y as i64)
}

/// Clip offsets never exceed what two 32-bit coordinates can differ by.
pub open spec fn clip_offsets_bounded(d: QuadOffsets) -> bool {
    let b = 0x1_0000_0000i64;
    -b <= d.tl.x <= b && -b <= d.tl.y <= b && -b <= d.tr.x <= b && -b <= d.tr.y <= b
        && -b <= d.br.x <= b && -b <= d.br.y <= b && -b <= d.bl.x <= b && -b <= d.bl.y <= b
}

pub proof fn lemma_clip_offsets_bounded(q: Quad, clip: Option<IRect>)
    ensures
        clip_offsets_bounded(clip_offsets(q, clip)),
{
}

/// A quad that is not rotated and whose clip rectangle lies wholly on one
/// side of it is culled.
pub proof fn lemma_excluded_quad_is_culled(q: Quad, c: IRect)
    requires
        q.tl.x <= q.tr.x,
        q.tr.y <= q.br.y,
        c.max_x <= q.tl.x || c.min_x >= q.tr.x || c.max_y <= q.tr.y || c.min_y >= q.br.y,
    ensures
        is_culled(q, true, clip_offsets(q, Some(c))),
{
}

} // verus!
