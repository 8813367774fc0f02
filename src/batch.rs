//! Batching: walks a sorted phase, merges runs of quads that share a
//! texture into one draw, and writes their vertices and indices.
use vstd::prelude::*;
use crate::cache::{lemma_ensure_keeps_wf, AssetEvent, BindGroupsModel, GpuImages, UiTextureSliceImageBindGroups};
use crate::extract::{ExtractedUiTextureSlice, ExtractedUiTextureSlices, Rgba, PLACEHOLDER_IMAGE};
use crate::geometry::{
    clip_offsets, compute_clip_offsets, is_culled, lemma_clip_offsets_bounded, quad_is_culled,
    Offset, Point, QuadOffsets,
};
use crate::slices::{
    compute_texture_slices, frac, texture_slices, unit_rect, Extent, Ratio, Ratio4, SliceParams,
    SliceScaleMode, SpriteImageMode,
};

verus! {

/// Paint order of a phase item: by stack index, then by layer.
#[derive(Clone, Copy, Debug, PartialEq, Eq, Structural)]
pub struct SortKey {
    pub stack_index: u32,
    pub layer: u32,
}

/// One queued draw of a view's transparent UI phase.
#[derive(Clone, Copy, Debug, PartialEq, Eq, Structural)]
pub struct TransparentUi {
    pub sort_key: SortKey,
    /// The render entity of the extracted item this draws.
    pub entity: u64,
    pub main_entity: u64,
    pub pipeline: u32,
    pub batch_range_start: u32,
    pub batch_range_end: u32,
    /// Position of the extracted item in the frame's list.
    pub index: usize,
}

/// A vertex as the slicing shader reads it.
#[derive(Clone, Copy, Debug, PartialEq, Eq, Structural)]
pub struct UiTextureSliceVertex {
    pub x: i64,
    pub y: i64,
    pub uv_x: Ratio,
    pub uv_y: Ratio,
    pub color: Rgba,
    pub slices: Ratio4,
    pub border: Ratio4,
    pub repeat: Ratio4,
    pub atlas: Ratio4,
}

/// A run of quads drawn with one texture: `range_start..range_end` in the
/// index buffer.
#[derive(Clone, Copy, Debug, PartialEq, Eq, Structural)]
pub struct UiTextureSlicerBatch {
    pub range_start: u32,
    pub range_end: u32,
    pub image: u64,
}

/// The frame's vertex and index buffers, and the view bind group they are
/// drawn with.
pub struct UiTextureSliceMeta {
    pub vertices: Vec<UiTextureSliceVertex>,
    pub indices: Vec<u32>,
    pub view_bind_group: Option<u64>,
}

impl UiTextureSliceMeta {
    pub fn new() -> (r: Self)
        ensures
            r.vertices@.len() == 0,
            r.indices@.len() == 0,
            r.view_bind_group is None,
    {
        UiTextureSliceMeta { vertices: Vec::new(), indices: Vec::new(), view_bind_group: None }
    }
}

/// Everything one batching step reads and writes.
pub struct PassModel {
    pub vertices: Seq<UiTextureSliceVertex>,
    pub indices: Seq<u32>,
    pub batches: Seq<(u64, UiTextureSlicerBatch)>,
    pub items: Seq<TransparentUi>,
    pub bind_groups: BindGroupsModel,
    /// Texture of the open batch; `None` when no batch is open.
    pub batch_image: Option<u64>,
    /// Phase item that carries the open batch.
    pub batch_item_index: int,
    pub batch_image_size: Extent,
    pub vertices_index: int,
    pub indices_index: int,
}

/// The region of the texture to cut up, and where it lies in the texture
/// (normalized): an atlas cell when there is one, else the whole image.
pub open spec fn atlas_source(s: ExtractedUiTextureSlice, image_size: Extent) -> (Extent, Ratio4) {
    match s.atlas_rect {
        Some(a) => (
            Extent { width: (a.max_x - a.min_x) as u32, height: (a.max_y - a.min_y) as u32 },
            Ratio4 {
                a: frac(a.min_x as int, image_size.width as int),
                b: frac(a.min_y as int, image_size.height as int),
                c: frac(a.max_x as int, image_size.width as int),
                d: frac(a.max_y as int, image_size.height as int),
            },
        ),
        None => (image_size, unit_rect()),
    }
}

/// Flipping swaps the left and right (or top and bottom) edges.
pub open spec fn flip(r: Ratio4, flip_x: bool, flip_y: bool) -> Ratio4 {
    let h = if flip_x { Ratio4 { a: r.c, c: r.a, ..r } } else { r };
    if flip_y { Ratio4 { b: h.d, d: h.b, ..h } } else { h }
}

/// A quad that has nothing to divide by: it is skipped.
pub open spec fn is_degenerate(s: ExtractedUiTextureSlice, image_size: Extent) -> bool {
    !image_size.nonzero() || !s.size.nonzero() || !s.target_size.nonzero()
        || !s.image_scale_mode.is_sliceable() || !s.image_scale_mode.wf() || match s.atlas_rect {
        Some(a) => a.max_x <= a.min_x || a.max_y <= a.min_y,
        None => false,
    }
}

/// Texture coordinates of a corner: the clipped corner within the node, or
/// the fixed unit square for an untextured quad.
pub open spec fn corner_uv(s: ExtractedUiTextureSlice, x: int, y: int, o: Offset) -> (Ratio, Ratio) {
    if s.image == PLACEHOLDER_IMAGE {
        (frac(x, 1), frac(y, 1))
    } else {
        let (w, h) = (s.size.width as int, s.size.height as int);
        (frac(x * w + o.x, w), frac(y * h + o.y, h))
    }
}

pub open spec fn vertex_at(
    s: ExtractedUiTextureSlice,
    p: Point,
    o: Offset,
    uv: (Ratio, Ratio),
    params: SliceParams,
    atlas: Ratio4,
) -> UiTextureSliceVertex {
    UiTextureSliceVertex {
        x: (p.x + o.x) as i64,
        y: (p.y + o.y) as i64,
        uv_x: uv.0,
        uv_y: uv.1,
        color: s.color,
        slices: params.slices,
        border: params.border,
        repeat: params.repeat,
        atlas,
    }
}

/// The four vertices of a quad, in corner order: top left, top right,
/// bottom right, bottom left.
pub open spec fn quad_vertices(s: ExtractedUiTextureSlice, image_size: Extent) -> Seq<UiTextureSliceVertex> {
    let d = clip_offsets(s.corners, s.clip);
    let (src, atlas) = atlas_source(s, image_size);
    let params = texture_slices(src, s.target_size, s.image_scale_mode);
    let atlas = flip(atlas, s.flip_x, s.flip_y);
    seq![
        vertex_at(s, s.corners.tl, d.tl, corner_uv(s, 0, 0, d.tl), params, atlas),
        vertex_at(s, s.corners.tr, d.tr, corner_uv(s, 1, 0, d.tr), params, atlas),
        vertex_at(s, s.corners.br, d.br, corner_uv(s, 1, 1, d.br), params, atlas),
        vertex_at(s, s.corners.bl, d.bl, corner_uv(s, 0, 1, d.bl), params, atlas),
    ]
}

/// Two triangles over the quad whose first vertex is `base`.
pub open spec fn quad_indices(base: int) -> Seq<u32> {
    seq![base as u32, (base + 1) as u32, (base + 2) as u32, base as u32, (base + 2) as u32, (base + 3) as u32]
}

/// Whether phase item `i` still refers to its extracted item.
pub open spec fn matched(items: Seq<TransparentUi>, i: int, ex: Seq<ExtractedUiTextureSlice>) -> bool {
    items[i].index < ex.len() && ex[items[i].index as int].render_entity == items[i].entity
}

/// A new batch starts when none is open, or when two concrete textures
/// differ; the placeholder texture joins any open batch.
pub open spec fn opens_batch(m: PassModel, image: u64) -> bool {
    m.batch_image is None || m.batches.len() == 0 || (m.batch_image != Some(PLACEHOLDER_IMAGE)
        && image != PLACEHOLDER_IMAGE && m.batch_image != Some(image))
}

/// A batch opened by the placeholder takes the first concrete texture that
/// joins it.
pub open spec fn resolves_batch(m: PassModel, image: u64) -> bool {
    m.batch_image == Some(PLACEHOLDER_IMAGE) && image != PLACEHOLDER_IMAGE
}

pub open spec fn open_batch(m: PassModel, i: int, image: u64, size: Extent) -> PassModel {
    PassModel {
        batch_item_index: i,
        batch_image: Some(image),
        batch_image_size: size,
        batches: m.batches.push(
            (
                m.items[i].entity,
                UiTextureSlicerBatch {
                    range_start: m.vertices_index as u32,
                    range_end: m.vertices_index as u32,
                    image,
                },
            ),
        ),
        bind_groups: m.bind_groups.ensure(image),
        ..m
    }
}

pub open spec fn retarget_batch(m: PassModel, image: u64, size: Extent) -> PassModel {
    let last = m.batches.last();
    PassModel {
        batch_image: Some(image),
        batch_image_size: size,
        batches: m.batches.update(
            m.batches.len() - 1,
            (last.0, UiTextureSlicerBatch { image, ..last.1 }),
        ),
        bind_groups: m.bind_groups.ensure(image),
        ..m
    }
}

/// Appends one quad to the buffers and to the open batch.
pub open spec fn emit(m: PassModel, s: ExtractedUiTextureSlice) -> PassModel {
    let last = m.batches.last();
    let owner = m.items[m.batch_item_index];
    PassModel {
        vertices: m.vertices + quad_vertices(s, m.batch_image_size),
        indices: m.indices + quad_indices(m.indices_index),
        vertices_index: m.vertices_index + 6,
        indices_index: m.indices_index + 4,
        batches: m.batches.update(
            m.batches.len() - 1,
            (last.0, UiTextureSlicerBatch { range_end: (m.vertices_index + 6) as u32, ..last.1 }),
        ),
        items: m.items.update(
            m.batch_item_index,
            TransparentUi { batch_range_end: (owner.batch_range_end + 1) as u32, ..owner },
        ),
        ..m
    }
}

/// One step of the walk over a phase, at item `i`.
///
/// An item that lost its extracted item closes the open batch. A culled
/// quad changes nothing. An item whose texture must be bound but is not on
/// the GPU yet is skipped and leaves the batch unresolved, so that a later
/// item resolves it again. A quad with nothing to divide by changes
/// nothing. Any other item opens, retargets or joins the open batch and
/// appends its quad.
pub open spec fn step(m: PassModel, i: int, ex: Seq<ExtractedUiTextureSlice>, gpu: Map<u64, Extent>) -> PassModel {
    if !matched(m.items, i, ex) {
        PassModel { batch_image: None, ..m }
    } else {
        let s = ex[m.items[i].index as int];
        let opens = opens_batch(m, s.image);
        let resolves = !opens && resolves_batch(m, s.image);
        if is_culled(s.corners, s.axis_aligned, clip_offsets(s.corners, s.clip)) {
            m
        } else if (opens || resolves) && !gpu.contains_key(s.image) {
            PassModel { batch_image: None, ..m }
        } else {
            let size = if opens || resolves { gpu[s.image] } else { m.batch_image_size };
            if is_degenerate(s, size) {
                m
            } else {
                let m1 = if opens {
                    open_batch(m, i, s.image, size)
                } else if resolves {
                    retarget_batch(m, s.image, size)
                } else {
                    m
                };
                emit(m1, s)
            }
        }
    }
}

fn compute_atlas_source(s: &ExtractedUiTextureSlice, image_size: Extent) -> (r: (Extent, Ratio4))
    requires
        !is_degenerate(*s, image_size),
    ensures
        r == atlas_source(*s, image_size),
{
    match s.atlas_rect {
        Some(a) => (
            Extent { width: a.max_x - a.min_x, height: a.max_y - a.min_y },
            Ratio4 {
                a: Ratio { num: a.min_x as i128, den: image_size.width as i128 },
                b: Ratio { num: a.min_y as i128, den: image_size.height as i128 },
                c: Ratio { num: a.max_x as i128, den: image_size.width as i128 },
                d: Ratio { num: a.max_y as i128, den: image_size.height as i128 },
            },
        ),
        None => (
            image_size,
            Ratio4 {
                a: Ratio { num: 0, den: 1 },
                b: Ratio { num: 0, den: 1 },
                c: Ratio { num: 1, den: 1 },
                d: Ratio { num: 1, den: 1 },
            },
        ),
    }
}

fn flip_atlas(r: Ratio4, flip_x: bool, flip_y: bool) -> (f: Ratio4)
    ensures
        f == flip(r, flip_x, flip_y),
{
    let h = if flip_x { Ratio4 { a: r.c, c: r.a, ..r } } else { r };
    if flip_y { Ratio4 { b: h.d, d: h.b, ..h } } else { h }
}

fn slice_is_degenerate(s: &ExtractedUiTextureSlice, image_size: Extent) -> (r: bool)
    ensures
        r == is_degenerate(*s, image_size),
{
    let bad_mode = match s.image_scale_mode {
        SpriteImageMode::Sliced(sl) => sl.max_corner_scale.den == 0 || scale_mode_is_bad(sl.center_scale_mode)
            || scale_mode_is_bad(sl.sides_scale_mode),
        SpriteImageMode::Tiled { stretch_value, .. } => stretch_value.den == 0,
        _ => true,
    };
    let bad_atlas = match s.atlas_rect {
        Some(a) => a.max_x <= a.min_x || a.max_y <= a.min_y,
        None => false,
    };
    image_size.width == 0 || image_size.height == 0 || s.size.width == 0 || s.size.height == 0
        || s.target_size.width == 0 || s.target_size.height == 0 || bad_mode || bad_atlas
}

fn scale_mode_is_bad(m: SliceScaleMode) -> (r: bool)
    ensures
        r == !m.wf(),
{
    match m {
        SliceScaleMode::Stretch => false,
        SliceScaleMode::Tile { stretch_value } => stretch_value.den == 0,
    }
}

fn corner_uv_of(s: &ExtractedUiTextureSlice, x: i128, y: i128, o: Offset) -> (r: (Ratio, Ratio))
    requires
        0 <= x <= 1,
        0 <= y <= 1,
    ensures
        r == corner_uv(*s, x as int, y as int, o),
{
    if s.image == PLACEHOLDER_IMAGE {
        (Ratio { num: x, den: 1 }, Ratio { num: y, den: 1 })
    } else {
        let w = s.size.width as i128;
        let h = s.size.height as i128;
        let xw: i128 = if x == 1 { w } else { 0 };
        let yh: i128 = if y == 1 { h } else { 0 };
        (Ratio { num: xw + o.x as i128, den: w }, Ratio { num: yh + o.y as i128, den: h })
    }
}

fn make_vertex(
    s: &ExtractedUiTextureSlice,
    p: Point,
    o: Offset,
    uv: (Ratio, Ratio),
    params: &SliceParams,
    atlas: Ratio4,
) -> (v: UiTextureSliceVertex)
    requires
        -0x1_0000_0000 <= o.x <= 0x1_0000_0000,
        -0x1_0000_0000 <= o.y <= 0x1_0000_0000,
    ensures
        v == vertex_at(*s, p, o, uv, *params, atlas),
{
    UiTextureSliceVertex {
        x: p.x as i64 + o.x,
        y: p.y as i64 + o.y,
        uv_x: uv.0,
        uv_y: uv.1,
        color: s.color,
        slices: params.slices,
        border: params.border,
        repeat: params.repeat,
        atlas,
    }
}

/// Appends the four vertices and six indices of a quad.
fn push_quad(meta: &mut UiTextureSliceMeta, s: &ExtractedUiTextureSlice, image_size: Extent, base: u32)
    requires
        !is_degenerate(*s, image_size),
        base as int + 3 <= u32::MAX,
    ensures
        final(meta).vertices@ == old(meta).vertices@ + quad_vertices(*s, image_size),
        final(meta).indices@ == old(meta).indices@ + quad_indices(base as int),
{
    let d = compute_clip_offsets(&s.corners, &s.clip);
    proof {
        lemma_clip_offsets_bounded(s.corners, s.clip);
    }
    let (src, atlas) = compute_atlas_source(s, image_size);
    let params = compute_texture_slices(src, s.target_size, &s.image_scale_mode);
    let atlas = flip_atlas(atlas, s.flip_x, s.flip_y);
    let v0 = make_vertex(s, s.corners.tl, d.tl, corner_uv_of(s, 0, 0, d.tl), &params, atlas);
    let v1 = make_vertex(s, s.corners.tr, d.tr, corner_uv_of(s, 1, 0, d.tr), &params, atlas);
    let v2 = make_vertex(s, s.corners.br, d.br, corner_uv_of(s, 1, 1, d.br), &params, atlas);
    let v3 = make_vertex(s, s.corners.bl, d.bl, corner_uv_of(s, 0, 1, d.bl), &params, atlas);
    meta.vertices.push(v0);
    meta.vertices.push(v1);
    meta.vertices.push(v2);
    meta.vertices.push(v3);
    meta.indices.push(base);
    meta.indices.push(base + 1);
    meta.indices.push(base + 2);
    meta.indices.push(base);
    meta.indices.push(base + 2);
    meta.indices.push(base + 3);
    assert(meta.vertices@ =~= old(meta).vertices@ + quad_vertices(*s, image_size));
    assert(meta.indices@ =~= old(meta).indices@ + quad_indices(base as int));
}

/// The first `n` steps of the walk, from `m`.
pub open spec fn run(m: PassModel, ex: Seq<ExtractedUiTextureSlice>, gpu: Map<u64, Extent>, n: nat) -> PassModel
    decreases n,
{
    if n == 0 {
        m
    } else {
        step(run(m, ex, gpu, (n - 1) as nat), n - 1, ex, gpu)
    }
}

/// A phase starts with no open batch.
pub open spec fn begin_phase(m: PassModel, items: Seq<TransparentUi>) -> PassModel {
    PassModel {
        items,
        batch_image: None,
        batch_item_index: 0,
        batch_image_size: Extent { width: 0, height: 0 },
        ..m
    }
}

/// A step changes only the batch counts of phase items, each by at most
/// one, and advances the buffer counters by at most one quad.
pub proof fn lemma_step_frame(m: PassModel, i: int, ex: Seq<ExtractedUiTextureSlice>, gpu: Map<u64, Extent>)
    requires
        0 <= i < m.items.len(),
        0 <= m.batch_item_index < m.items.len(),
        m.bind_groups.created < u64::MAX,
        m.bind_groups.wf(),
    ensures
        ({
            let r = step(m, i, ex, gpu);
            &&& r.bind_groups.wf()
            &&& m.bind_groups.created <= r.bind_groups.created <= m.bind_groups.created + 1
            &&& r.items.len() == m.items.len()
            &&& 0 <= r.batch_item_index < r.items.len()
            &&& m.vertices_index <= r.vertices_index <= m.vertices_index + 6
            &&& m.indices_index <= r.indices_index <= m.indices_index + 4
            &&& forall|j: int|
                0 <= j < m.items.len() ==> r.items[j].batch_range_end <= m.items[j].batch_range_end + 1
        }),
{
    let s = ex[m.items[i].index as int];
    lemma_ensure_keeps_wf(m.bind_groups, s.image);
}

/// Total number of items over all phases.
pub open spec fn total_len(phases: Seq<Seq<TransparentUi>>) -> nat
    decreases phases.len(),
{
    if phases.len() == 0 {
        0
    } else {
        total_len(phases.drop_last()) + phases.last().len()
    }
}

/// The walk over the first `k` phases, each from no open batch.
pub open spec fn run_phases(
    m: PassModel,
    phases: Seq<Seq<TransparentUi>>,
    ex: Seq<ExtractedUiTextureSlice>,
    gpu: Map<u64, Extent>,
    k: nat,
) -> PassModel
    decreases k,
{
    if k == 0 {
        m
    } else {
        let prev = run_phases(m, phases, ex, gpu, (k - 1) as nat);
        run(begin_phase(prev, phases[k - 1]), ex, gpu, phases[k - 1].len())
    }
}

/// The state a frame's batching starts from: empty buffers, no batches,
/// and the bind group cache with every changed image dropped.
pub open spec fn frame_start(bind_groups: BindGroupsModel, events: Seq<AssetEvent>) -> PassModel {
    PassModel {
        vertices: Seq::empty(),
        indices: Seq::empty(),
        batches: Seq::empty(),
        items: Seq::empty(),
        bind_groups: bind_groups.invalidate(events),
        batch_image: None,
        batch_item_index: 0,
        batch_image_size: Extent { width: 0, height: 0 },
        vertices_index: 0,
        indices_index: 0,
    }
}

/// Room in the 32-bit counters for every quad of the frame.
pub open spec fn frame_fits(phases: Seq<Seq<TransparentUi>>) -> bool {
    6 * total_len(phases) <= u32::MAX && forall|p: int, j: int|
        0 <= p < phases.len() && 0 <= j < phases[p].len() ==> phases[p][j].batch_range_end as int
            + phases[p].len() <= u32::MAX
}

pub proof fn lemma_total_len_prefix(phases: Seq<Seq<TransparentUi>>, k: int)
    requires
        0 <= k < phases.len(),
    ensures
        total_len(phases.subrange(0, k + 1)) == total_len(phases.subrange(0, k)) + phases[k].len(),
        total_len(phases.subrange(0, k + 1)) <= total_len(phases),
    decreases phases.len(),
{
    assert(phases.subrange(0, k + 1).drop_last() == phases.subrange(0, k));
    if k + 1 < phases.len() {
        lemma_total_len_prefix(phases.drop_last(), k);
        assert(phases.drop_last().subrange(0, k + 1) == phases.subrange(0, k + 1));
    } else {
        assert(phases.subrange(0, k + 1) == phases);
    }
}

/// Batches every phase of the frame, in order.
///
/// The bind groups of images that events report as modified or removed are
/// dropped first. Without a view binding nothing else happens but that the
/// extracted items are consumed. With one, the buffers are rebuilt from
/// empty and bound to that view, each phase item's batch count is updated
/// in place, the extracted items are consumed, and the batches come back,
/// each with the render entity of the phase item that carries it.
pub fn prepare_ui_slices(
    meta: &mut UiTextureSliceMeta,
    bind_groups: &mut UiTextureSliceImageBindGroups,
    phases: &mut Vec<Vec<TransparentUi>>,
    extracted_slices: &mut ExtractedUiTextureSlices,
    gpu_images: &GpuImages,
    events: &Vec<AssetEvent>,
    view_binding: Option<u64>,
) -> (batches: Vec<(u64, UiTextureSlicerBatch)>)
    requires
        frame_fits(old(phases)@.map_values(|p: Vec<TransparentUi>| p@)),
        old(bind_groups)@.wf(),
        old(bind_groups)@.created as int + total_len(old(phases)@.map_values(|p: Vec<TransparentUi>| p@))
            <= u64::MAX,
    ensures
        final(bind_groups)@.wf(),
        final(extracted_slices).slices@.len() == 0,
        view_binding is None ==> {
            &&& final(bind_groups)@ == old(bind_groups)@.invalidate(events@)
            &&& batches@.len() == 0
            &&& final(phases)@ == old(phases)@
            &&& final(meta).vertices@ == old(meta).vertices@
            &&& final(meta).indices@ == old(meta).indices@
            &&& final(meta).view_bind_group == old(meta).view_bind_group
        },
        view_binding is Some ==> ({
            let ps = old(phases)@.map_values(|p: Vec<TransparentUi>| p@);
            let start = frame_start(old(bind_groups)@, events@);
            let end = run_phases(start, ps, old(extracted_slices).slices@, gpu_images@, ps.len());
            &&& final(meta).vertices@ == end.vertices
            &&& final(meta).indices@ == end.indices
            &&& batches@ == end.batches
            &&& final(bind_groups)@ == end.bind_groups
            &&& final(phases)@.len() == ps.len()
            &&& forall|p: int|
                0 <= p < ps.len() ==> #[trigger] final(phases)@[p]@ == run_phases(
                    start,
                    ps,
                    old(extracted_slices).slices@,
                    gpu_images@,
                    (p + 1) as nat,
                ).items
            &&& final(meta).view_bind_group == view_binding
        }),
{
    let ghost ps = phases@.map_values(|p: Vec<TransparentUi>| p@);
    let ghost ex = extracted_slices.slices@;
    bind_groups.apply_events(events);
    let view = match view_binding {
        None => {
            extracted_slices.slices.clear();
            return Vec::new();
        },
        Some(v) => v,
    };
    let mut pass = SlicePass {
        meta: UiTextureSliceMeta::new(),
        batches: Vec::new(),
        batch_image: None,
        batch_item_index: 0,
        batch_image_size: Extent { width: 0, height: 0 },
        vertices_index: 0,
        indices_index: 0,
    };
    let ghost start = frame_start(old(bind_groups)@, events@);
    assert(pass.meta.vertices@ =~= Seq::empty());
    assert(pass.meta.indices@ =~= Seq::empty());
    assert(pass.batches@ =~= Seq::empty());
    assert(model(pass, Seq::empty(), bind_groups@) == start);
    let n = phases.len();
    let mut p: usize = 0;
    while p < n
        invariant
            0 <= p <= n,
            n == ps.len(),
            phases@.len() == n,
            ex == extracted_slices.slices@,
            frame_fits(ps),
            model(pass, run_phases(start, ps, ex, gpu_images@, p as nat).items, bind_groups@) == run_phases(
                start,
                ps,
                ex,
                gpu_images@,
                p as nat,
            ),
            pass.vertices_index as int <= 6 * total_len(ps.subrange(0, p as int)),
            pass.indices_index as int <= 4 * total_len(ps.subrange(0, p as int)),
            bind_groups@.wf(),
            bind_groups@.created as int <= old(bind_groups)@.created + total_len(ps.subrange(0, p as int)),
            old(bind_groups)@.created as int + total_len(ps) <= u64::MAX,
            forall|q: int| p <= q < n ==> #[trigger] phases@[q]@ == ps[q],
            forall|q: int|
                0 <= q < p ==> #[trigger] phases@[q]@ == run_phases(
                    start,
                    ps,
                    ex,
                    gpu_images@,
                    (q + 1) as nat,
                ).items,
        decreases n - p,
    {
        proof {
            lemma_total_len_prefix(ps, p as int);
            assert(phases@[p as int]@ == ps[p as int]);
        }
        let ghost before = run_phases(start, ps, ex, gpu_images@, p as nat);
        proof {
            assert(begin_phase(model(pass, ps[p as int], bind_groups@), ps[p as int]) == begin_phase(
                before,
                ps[p as int],
            ));
        }
        pass.prepare_phase(&mut phases[p], bind_groups, &extracted_slices.slices, gpu_images);
        p += 1;
    }
    *meta = UiTextureSliceMeta {
        vertices: pass.meta.vertices,
        indices: pass.meta.indices,
        view_bind_group: Some(view),
    };
    extracted_slices.slices.clear();
    pass.batches
}

/// Batching state carried through the phases of one frame.
pub struct SlicePass {
    pub meta: UiTextureSliceMeta,
    pub batches: Vec<(u64, UiTextureSlicerBatch)>,
    pub batch_image: Option<u64>,
    pub batch_item_index: usize,
    pub batch_image_size: Extent,
    pub vertices_index: u32,
    pub indices_index: u32,
}

/// The pass, one phase's items and the bind group cache, as one model.
pub open spec fn model(p: SlicePass, items: Seq<TransparentUi>, bind_groups: BindGroupsModel) -> PassModel {
    PassModel {
        vertices: p.meta.vertices@,
        indices: p.meta.indices@,
        batches: p.batches@,
        items,
        bind_groups,
        batch_image: p.batch_image,
        batch_item_index: p.batch_item_index as int,
        batch_image_size: p.batch_image_size,
        vertices_index: p.vertices_index as int,
        indices_index: p.indices_index as int,
    }
}

/// Room for one more quad in the counters of the pass.
pub open spec fn step_fits(p: SlicePass, items: Seq<TransparentUi>) -> bool {
    p.vertices_index as int + 6 <= u32::MAX && p.indices_index as int + 4 <= u32::MAX
        && p.batch_item_index < items.len()
        && forall|j: int| 0 <= j < items.len() ==> items[j].batch_range_end < u32::MAX
}

impl SlicePass {
    /// Batches phase item `i`.
    fn prepare_item(
        &mut self,
        items: &mut Vec<TransparentUi>,
        i: usize,
        bind_groups: &mut UiTextureSliceImageBindGroups,
        extracted: &Vec<ExtractedUiTextureSlice>,
        gpu_images: &GpuImages,
    )
        requires
            i < old(items)@.len(),
            step_fits(*old(self), old(items)@),
            old(bind_groups)@.created < u64::MAX,
        ensures
            model(*final(self), final(items)@, final(bind_groups)@) == step(
                model(*old(self), old(items)@, old(bind_groups)@),
                i as int,
                extracted@,
                gpu_images@,
            ),
    {
        let ghost m = model(*self, items@, bind_groups@);
        let item = items[i];
        if !(item.index < extracted.len() && extracted[item.index].render_entity == item.entity) {
            self.batch_image = None;
            return;
        }
        let s = &extracted[item.index];
        let opens = match self.batch_image {
            None => true,
            Some(b) => self.batches.len() == 0 || (b != PLACEHOLDER_IMAGE && s.image != PLACEHOLDER_IMAGE
                && b != s.image),
        };
        let resolves = !opens && match self.batch_image {
            Some(b) => b == PLACEHOLDER_IMAGE && s.image != PLACEHOLDER_IMAGE,
            None => false,
        };
        assert(opens == opens_batch(m, s.image));
        assert(resolves == (!opens && resolves_batch(m, s.image)));
        let d = compute_clip_offsets(&s.corners, &s.clip);
        proof {
            lemma_clip_offsets_bounded(s.corners, s.clip);
        }
        if quad_is_culled(&s.corners, s.axis_aligned, &d) {
            return;
        }
        let size = if opens || resolves {
            match gpu_images.get(s.image) {
                None => {
                    self.batch_image = None;
                    return;
                },
                Some(size) => size,
            }
        } else {
            self.batch_image_size
        };
        if slice_is_degenerate(s, size) {
            return;
        }
        if opens {
            self.batch_item_index = i;
            self.batch_image = Some(s.image);
            self.batch_image_size = size;
            self.batches.push(
                (
                    item.entity,
                    UiTextureSlicerBatch {
                        range_start: self.vertices_index,
                        range_end: self.vertices_index,
                        image: s.image,
                    },
                ),
            );
            bind_groups.ensure(s.image);
        } else if resolves {
            self.batch_image = Some(s.image);
            self.batch_image_size = size;
            let last = self.batches.len() - 1;
            let (e, b) = self.batches[last];
            self.batches.set(last, (e, UiTextureSlicerBatch { image: s.image, ..b }));
            bind_groups.ensure(s.image);
        }
        let ghost m1 = model(*self, items@, bind_groups@);
        assert(m1 == (if opens {
            open_batch(m, i as int, s.image, size)
        } else if resolves {
            retarget_batch(m, s.image, size)
        } else {
            m
        }));
        push_quad(&mut self.meta, s, self.batch_image_size, self.indices_index);
        self.vertices_index = self.vertices_index + 6;
        self.indices_index = self.indices_index + 4;
        let last = self.batches.len() - 1;
        let (e, b) = self.batches[last];
        self.batches.set(last, (e, UiTextureSlicerBatch { range_end: self.vertices_index, ..b }));
        let owner = items[self.batch_item_index];
        items.set(self.batch_item_index, TransparentUi { batch_range_end: owner.batch_range_end + 1, ..owner });
        assert(model(*self, items@, bind_groups@) == emit(m1, *s));
    }

    /// Batches the items of one phase, in order, starting with no open batch.
    pub fn prepare_phase(
        &mut self,
        items: &mut Vec<TransparentUi>,
        bind_groups: &mut UiTextureSliceImageBindGroups,
        extracted: &Vec<ExtractedUiTextureSlice>,
        gpu_images: &GpuImages,
    )
        requires
            old(self).vertices_index as int + 6 * old(items)@.len() <= u32::MAX,
            old(self).indices_index as int + 4 * old(items)@.len() <= u32::MAX,
            forall|j: int|
                0 <= j < old(items)@.len() ==> old(items)@[j].batch_range_end as int + old(items)@.len()
                    <= u32::MAX,
            old(bind_groups)@.wf(),
            old(bind_groups)@.created as int + old(items)@.len() <= u64::MAX,
        ensures
            final(bind_groups)@.wf(),
            final(bind_groups)@.created as int <= old(bind_groups)@.created as int + old(items)@.len(),
            model(*final(self), final(items)@, final(bind_groups)@) == run(
                begin_phase(model(*old(self), old(items)@, old(bind_groups)@), old(items)@),
                extracted@,
                gpu_images@,
                old(items)@.len(),
            ),
            final(self).vertices_index as int <= old(self).vertices_index as int + 6 * old(items)@.len(),
            final(self).indices_index as int <= old(self).indices_index as int + 4 * old(items)@.len(),
    {
        self.batch_image = None;
        self.batch_item_index = 0;
        self.batch_image_size = Extent { width: 0, height: 0 };
        let ghost m0 = model(*self, items@, bind_groups@);
        let ghost items0 = items@;
        let ghost v0 = self.vertices_index as int;
        let ghost i0 = self.indices_index as int;
        let ghost c0 = bind_groups@.created as int;
        assert(m0 == begin_phase(model(*old(self), old(items)@, old(bind_groups)@), old(items)@));
        let n = items.len();
        let mut i: usize = 0;
        while i < n
            invariant
                0 <= i <= n,
                n == items0.len(),
                items@.len() == n,
                model(*self, items@, bind_groups@) == run(m0, extracted@, gpu_images@, i as nat),
                self.vertices_index as int <= v0 + 6 * i,
                self.indices_index as int <= i0 + 4 * i,
                v0 + 6 * n <= u32::MAX,
                i0 + 4 * n <= u32::MAX,
                n > 0 ==> self.batch_item_index < n,
                forall|j: int| 0 <= j < n ==> items0[j].batch_range_end as int + n <= u32::MAX,
                forall|j: int| 0 <= j < n ==> items@[j].batch_range_end <= items0[j].batch_range_end + i,
                bind_groups@.wf(),
                bind_groups@.created as int <= c0 + i,
                c0 + n <= u64::MAX,
            decreases n - i,
        {
            proof {
                lemma_step_frame(model(*self, items@, bind_groups@), i as int, extracted@, gpu_images@);
                assert forall|j: int| 0 <= j < items@.len() implies items@[j].batch_range_end < u32::MAX by {
                    assert(items@[j].batch_range_end <= items0[j].batch_range_end + i);
                }
                assert(step_fits(*self, items@));
            }
            self.prepare_item(items, i, bind_groups, extracted, gpu_images);
            i += 1;
        }
    }
}

} // verus!
