//! What the batching walk guarantees.
use vstd::prelude::*;
use crate::batch::{
    begin_phase, frame_start, is_degenerate, lemma_total_len_prefix, matched, quad_indices, run_phases,
    total_len, opens_batch, resolves_batch, run, step, PassModel,
    TransparentUi, UiTextureSlicerBatch,
};
use crate::cache::{AssetEvent, BindGroupsModel, invalidated};
use crate::extract::{ExtractedUiTextureSlice, PLACEHOLDER_IMAGE};
use crate::geometry::{clip_offsets, is_culled, lemma_excluded_quad_is_culled, IRect};
use crate::slices::Extent;

verus! {

/// Whether step `i` draws its item: the item still matches, a texture it
/// must bind is on the GPU, and its quad is neither culled nor degenerate
/// at the size of the batch it lands in.
pub open spec fn accepts(m: PassModel, i: int, ex: Seq<ExtractedUiTextureSlice>, gpu: Map<u64, Extent>) -> bool {
    let s = ex[m.items[i].index as int];
    let opens = opens_batch(m, s.image);
    let binds = opens || resolves_batch(m, s.image);
    let size = if binds { gpu[s.image] } else { m.batch_image_size };
    &&& matched(m.items, i, ex)
    &&& (binds ==> gpu.contains_key(s.image))
    &&& !is_culled(s.corners, s.axis_aligned, clip_offsets(s.corners, s.clip))
    &&& !is_degenerate(s, size)
}

/// An accepted item appends exactly one quad, four vertices and six
/// indices, and moves the vertex counter by six; any other item appends
/// nothing.
pub proof fn lemma_step_appends_whole_quads(
    m: PassModel,
    i: int,
    ex: Seq<ExtractedUiTextureSlice>,
    gpu: Map<u64, Extent>,
)
    ensures
        ({
            let r = step(m, i, ex, gpu);
            &&& accepts(m, i, ex, gpu) ==> r.vertices.len() == m.vertices.len() + 4 && r.indices
                == m.indices + quad_indices(m.indices_index) && r.vertices_index == m.vertices_index + 6
                && r.indices_index == m.indices_index + 4
            &&& !accepts(m, i, ex, gpu) ==> r.vertices == m.vertices && r.indices == m.indices
                && r.vertices_index == m.vertices_index && r.indices_index == m.indices_index
        }),
{
}

/// After `n` steps that all accept their items, the buffers have grown by
/// exactly `4n` vertices and `6n` indices.
pub proof fn lemma_accepted_run_appends_n_quads(
    m: PassModel,
    ex: Seq<ExtractedUiTextureSlice>,
    gpu: Map<u64, Extent>,
    n: nat,
)
    requires
        forall|j: nat| j < n ==> #[trigger] accepts(run(m, ex, gpu, j), j as int, ex, gpu),
    ensures
        run(m, ex, gpu, n).vertices.len() == m.vertices.len() + 4 * n,
        run(m, ex, gpu, n).indices.len() == m.indices.len() + 6 * n,
    decreases n,
{
    if n > 0 {
        let k = (n - 1) as nat;
        lemma_accepted_run_appends_n_quads(m, ex, gpu, k);
        assert(accepts(run(m, ex, gpu, k), k as int, ex, gpu));
        lemma_step_appends_whole_quads(run(m, ex, gpu, k), k as int, ex, gpu);
    }
}

/// After any number of steps the buffers hold whole quads only: `4k`
/// vertices and `6k` indices for some `k` no larger than the number of
/// steps, and the vertex counter has moved by `6k`.
pub proof fn lemma_run_appends_whole_quads(
    m: PassModel,
    ex: Seq<ExtractedUiTextureSlice>,
    gpu: Map<u64, Extent>,
    n: nat,
)
    ensures
        ({
            let r = run(m, ex, gpu, n);
            let k = (r.vertices.len() - m.vertices.len()) / 4;
            &&& r.vertices.len() == m.vertices.len() + 4 * k
            &&& r.indices.len() == m.indices.len() + 6 * k
            &&& r.vertices_index == m.vertices_index + 6 * k
            &&& r.indices_index == m.indices_index + 4 * k
            &&& 0 <= k <= n
        }),
    decreases n,
{
    if n > 0 {
        lemma_run_appends_whole_quads(m, ex, gpu, (n - 1) as nat);
        lemma_step_appends_whole_quads(run(m, ex, gpu, (n - 1) as nat), n - 1, ex, gpu);
    }
}

/// A quad that is not rotated and lies wholly outside its clip rectangle
/// emits nothing and disturbs nothing: the step leaves the whole state,
/// open batch included, as it was.
pub proof fn lemma_clipped_out_quad_emits_nothing(
    m: PassModel,
    i: int,
    ex: Seq<ExtractedUiTextureSlice>,
    gpu: Map<u64, Extent>,
    c: IRect,
)
    requires
        matched(m.items, i, ex),
        excluded_by_clip(ex[m.items[i].index as int], c),
    ensures
        step(m, i, ex, gpu) == m,
{
    let s = ex[m.items[i].index as int];
    lemma_excluded_quad_is_culled(s.corners, c);
}

/// An item that is not rotated and whose clip rectangle `c` lies wholly on
/// one side of its quad.
pub open spec fn excluded_by_clip(s: ExtractedUiTextureSlice, c: IRect) -> bool {
    &&& s.axis_aligned
    &&& s.clip == Some(c)
    &&& s.corners.tl.x <= s.corners.tr.x
    &&& s.corners.tr.y <= s.corners.br.y
    &&& (c.max_x <= s.corners.tl.x || c.min_x >= s.corners.tr.x || c.max_y <= s.corners.tr.y
        || c.min_y >= s.corners.br.y)
}

/// The extracted item of phase item `j`, when it is drawn at `size`:
/// it matches, is not culled and has something to divide by.
pub open spec fn drawable(items: Seq<TransparentUi>, j: int, ex: Seq<ExtractedUiTextureSlice>, size: Extent) -> bool {
    let s = ex[items[j].index as int];
    matched(items, j, ex) && !is_culled(s.corners, s.axis_aligned, clip_offsets(s.corners, s.clip))
        && !is_degenerate(s, size)
}

pub open spec fn image_of(items: Seq<TransparentUi>, j: int, ex: Seq<ExtractedUiTextureSlice>) -> u64 {
    ex[items[j].index as int].image
}

/// In a phase whose items show textures `a, a, placeholder, b, b`, the
/// placeholder item joins the open batch of `a`: the phase adds exactly two
/// batches, three quads of `a` carried by the first item and two of `b`
/// carried by the fourth.
pub proof fn lemma_placeholder_joins_open_batch(
    m: PassModel,
    items: Seq<TransparentUi>,
    ex: Seq<ExtractedUiTextureSlice>,
    gpu: Map<u64, Extent>,
    a: u64,
    b: u64,
)
    requires
        items.len() == 5,
        a != b,
        a != PLACEHOLDER_IMAGE,
        b != PLACEHOLDER_IMAGE,
        gpu.contains_key(a),
        gpu.contains_key(b),
        image_of(items, 0, ex) == a,
        image_of(items, 1, ex) == a,
        image_of(items, 2, ex) == PLACEHOLDER_IMAGE,
        image_of(items, 3, ex) == b,
        image_of(items, 4, ex) == b,
        drawable(items, 0, ex, gpu[a]),
        drawable(items, 1, ex, gpu[a]),
        drawable(items, 2, ex, gpu[a]),
        drawable(items, 3, ex, gpu[b]),
        drawable(items, 4, ex, gpu[b]),
        m.vertices_index + 30 <= u32::MAX,
        forall|j: int| 0 <= j < 5 ==> items[j].batch_range_end + 5 <= u32::MAX,
    ensures
        ({
            let r = run(begin_phase(m, items), ex, gpu, 5);
            let v = m.vertices_index;
            &&& r.batches == m.batches.push(
                (items[0].entity, UiTextureSlicerBatch { range_start: v as u32, range_end: (v + 18) as u32, image: a }),
            ).push(
                (items[3].entity, UiTextureSlicerBatch { range_start: (v + 18) as u32, range_end: (v + 30) as u32, image: b }),
            )
            &&& r.items[0].batch_range_end == items[0].batch_range_end + 3
            &&& r.items[3].batch_range_end == items[3].batch_range_end + 2
            &&& r.vertices_index == v + 30
        }),
{
    let m0 = begin_phase(m, items);
    reveal_with_fuel(run, 6);
    let r1 = step(m0, 0, ex, gpu);
    let r2 = step(r1, 1, ex, gpu);
    let r3 = step(r2, 2, ex, gpu);
    let r4 = step(r3, 3, ex, gpu);
    let r5 = step(r4, 4, ex, gpu);
    assert(r1.batch_image == Some(a) && r1.batches.len() == m.batches.len() + 1);
    assert(r2.batch_image == Some(a) && r2.batches.len() == m.batches.len() + 1);
    assert(r3.batch_image == Some(a) && r3.batches.len() == m.batches.len() + 1);
    assert(r3.batches =~= m.batches.push(
        (items[0].entity, UiTextureSlicerBatch { range_start: m.vertices_index as u32, range_end: (m.vertices_index + 18) as u32, image: a }),
    ));
    assert(r4.batch_image == Some(b) && r4.batch_item_index == 3);
    assert(r5.batches =~= m.batches.push(
        (items[0].entity, UiTextureSlicerBatch { range_start: m.vertices_index as u32, range_end: (m.vertices_index + 18) as u32, image: a }),
    ).push(
        (items[3].entity, UiTextureSlicerBatch { range_start: (m.vertices_index + 18) as u32, range_end: (m.vertices_index + 30) as u32, image: b }),
    ));
    assert(r5.items[0].batch_range_end == items[0].batch_range_end + 3);
}

/// At the start of a frame, two items of one texture in a row make one
/// batch over the index range `0..12`, carried by the first item.
pub proof fn lemma_same_texture_pair_is_one_batch(
    m: PassModel,
    items: Seq<TransparentUi>,
    ex: Seq<ExtractedUiTextureSlice>,
    gpu: Map<u64, Extent>,
    a: u64,
)
    requires
        m == frame_start(m.bind_groups, Seq::empty()),
        items.len() == 2,
        gpu.contains_key(a),
        image_of(items, 0, ex) == a,
        image_of(items, 1, ex) == a,
        drawable(items, 0, ex, gpu[a]),
        drawable(items, 1, ex, gpu[a]),
        items[0].batch_range_end + 2 <= u32::MAX,
    ensures
        ({
            let r = run(begin_phase(m, items), ex, gpu, 2);
            &&& r.batches == seq![(items[0].entity, UiTextureSlicerBatch { range_start: 0, range_end: 12, image: a })]
            &&& r.items[0].batch_range_end == items[0].batch_range_end + 2
            &&& r.vertices.len() == 8
            &&& r.indices.len() == 12
        }),
{
    reveal_with_fuel(run, 3);
    let m0 = begin_phase(m, items);
    let r1 = step(m0, 0, ex, gpu);
    let r2 = step(r1, 1, ex, gpu);
    assert(r1.batch_image == Some(a) && r1.batches.len() == 1);
    assert(r2.batches =~= seq![(items[0].entity, UiTextureSlicerBatch { range_start: 0, range_end: 12, image: a })]);
}

/// How many of the first `n` steps from `m` accept their item.
pub open spec fn accepted_count(m: PassModel, ex: Seq<ExtractedUiTextureSlice>, gpu: Map<u64, Extent>, n: nat) -> nat
    decreases n,
{
    if n == 0 {
        0
    } else {
        accepted_count(m, ex, gpu, (n - 1) as nat) + if accepts(run(m, ex, gpu, (n - 1) as nat), n - 1, ex, gpu) {
            1nat
        } else {
            0nat
        }
    }
}

/// How many items of the first `k` phases of a frame are accepted.
pub open spec fn frame_accepted(
    start: PassModel,
    ps: Seq<Seq<TransparentUi>>,
    ex: Seq<ExtractedUiTextureSlice>,
    gpu: Map<u64, Extent>,
    k: nat,
) -> nat
    decreases k,
{
    if k == 0 {
        0
    } else {
        let prev = run_phases(start, ps, ex, gpu, (k - 1) as nat);
        frame_accepted(start, ps, ex, gpu, (k - 1) as nat) + accepted_count(
            begin_phase(prev, ps[k - 1]),
            ex,
            gpu,
            ps[k - 1].len(),
        )
    }
}

/// Over a walk whose next index is the number of vertices so far, the
/// buffers grow by four vertices and six indices per accepted item.
pub proof fn lemma_run_counts_quads(m: PassModel, ex: Seq<ExtractedUiTextureSlice>, gpu: Map<u64, Extent>, n: nat)
    requires
        m.indices_index == m.vertices.len(),
    ensures
        ({
            let r = run(m, ex, gpu, n);
            &&& r.vertices.len() == m.vertices.len() + 4 * accepted_count(m, ex, gpu, n)
            &&& r.indices.len() == m.indices.len() + 6 * accepted_count(m, ex, gpu, n)
            &&& r.indices_index == r.vertices.len()
        }),
    decreases n,
{
    if n > 0 {
        let k = (n - 1) as nat;
        lemma_run_counts_quads(m, ex, gpu, k);
        lemma_step_appends_whole_quads(run(m, ex, gpu, k), k as int, ex, gpu);
    }
}

/// Over a whole frame, the buffers hold exactly four vertices and six
/// indices for each accepted item of every phase, and each accepted item's
/// six indices are `quad_indices` of the vertices before it.
pub proof fn lemma_frame_counts_quads(
    bind_groups: BindGroupsModel,
    events: Seq<AssetEvent>,
    ps: Seq<Seq<TransparentUi>>,
    ex: Seq<ExtractedUiTextureSlice>,
    gpu: Map<u64, Extent>,
    k: nat,
)
    ensures
        ({
            let r = run_phases(frame_start(bind_groups, events), ps, ex, gpu, k);
            let a = frame_accepted(frame_start(bind_groups, events), ps, ex, gpu, k);
            &&& r.vertices.len() == 4 * a
            &&& r.indices.len() == 6 * a
            &&& r.indices_index == r.vertices.len()
        }),
    decreases k,
{
    if k > 0 {
        let start = frame_start(bind_groups, events);
        lemma_frame_counts_quads(bind_groups, events, ps, ex, gpu, (k - 1) as nat);
        let prev = run_phases(start, ps, ex, gpu, (k - 1) as nat);
        lemma_run_counts_quads(begin_phase(prev, ps[k - 1]), ex, gpu, ps[k - 1].len());
    }
}

/// A step leaves every phase item's links to its extracted item alone,
/// and keeps the carrying item in range.
pub proof fn lemma_step_keeps_links(m: PassModel, i: int, ex: Seq<ExtractedUiTextureSlice>, gpu: Map<u64, Extent>)
    requires
        0 <= i < m.items.len(),
        0 <= m.batch_item_index < m.items.len(),
    ensures
        ({
            let r = step(m, i, ex, gpu);
            &&& r.items.len() == m.items.len()
            &&& 0 <= r.batch_item_index < r.items.len()
            &&& forall|j: int|
                0 <= j < m.items.len() ==> r.items[j].index == m.items[j].index && r.items[j].entity
                    == m.items[j].entity
        }),
{
}

pub proof fn lemma_run_keeps_links(m: PassModel, ex: Seq<ExtractedUiTextureSlice>, gpu: Map<u64, Extent>, n: nat)
    requires
        n <= m.items.len(),
        0 <= m.batch_item_index < m.items.len(),
    ensures
        ({
            let r = run(m, ex, gpu, n);
            &&& r.items.len() == m.items.len()
            &&& 0 <= r.batch_item_index < r.items.len()
            &&& forall|j: int|
                0 <= j < m.items.len() ==> r.items[j].index == m.items[j].index && r.items[j].entity
                    == m.items[j].entity
        }),
    decreases n,
{
    if n > 0 {
        lemma_run_keeps_links(m, ex, gpu, (n - 1) as nat);
        lemma_step_keeps_links(run(m, ex, gpu, (n - 1) as nat), n - 1, ex, gpu);
    }
}

/// Wherever it stands in a frame, an item that is not rotated and lies
/// wholly outside its clip rectangle leaves the walk's state as it was:
/// no vertices, no indices, no change to any batch or batch count.
pub proof fn lemma_frame_clipped_out_quad_emits_nothing(
    start: PassModel,
    ps: Seq<Seq<TransparentUi>>,
    ex: Seq<ExtractedUiTextureSlice>,
    gpu: Map<u64, Extent>,
    p: int,
    i: int,
    c: IRect,
)
    requires
        0 <= p < ps.len(),
        0 <= i < ps[p].len(),
        matched(ps[p], i, ex),
        excluded_by_clip(ex[ps[p][i].index as int], c),
    ensures
        ({
            let st = run(begin_phase(run_phases(start, ps, ex, gpu, p as nat), ps[p]), ex, gpu, i as nat);
            step(st, i, ex, gpu) == st
        }),
{
    let m0 = begin_phase(run_phases(start, ps, ex, gpu, p as nat), ps[p]);
    lemma_run_keeps_links(m0, ex, gpu, i as nat);
    let st = run(m0, ex, gpu, i as nat);
    assert(st.items[i].index == ps[p][i].index && st.items[i].entity == ps[p][i].entity);
    lemma_clipped_out_quad_emits_nothing(st, i, ex, gpu, c);
}

/// The cache `r` only gained entries since `s`, each numbered at or after
/// `s`'s count.
pub open spec fn grown_from(r: BindGroupsModel, s: BindGroupsModel) -> bool {
    &&& r.created >= s.created
    &&& forall|k: u64|
        #[trigger] r.values.contains_key(k) ==> (s.values.contains_key(k) && r.values[k] == s.values[k])
            || r.values[k] >= s.created
}

pub proof fn lemma_run_grows_cache(
    m: PassModel,
    s: BindGroupsModel,
    ex: Seq<ExtractedUiTextureSlice>,
    gpu: Map<u64, Extent>,
    n: nat,
)
    requires
        grown_from(m.bind_groups, s),
        m.bind_groups.created + n <= u64::MAX,
    ensures
        grown_from(run(m, ex, gpu, n).bind_groups, s),
        run(m, ex, gpu, n).bind_groups.created <= m.bind_groups.created + n,
    decreases n,
{
    if n > 0 {
        lemma_run_grows_cache(m, s, ex, gpu, (n - 1) as nat);
    }
}

pub proof fn lemma_frame_grows_cache(
    start: PassModel,
    ps: Seq<Seq<TransparentUi>>,
    ex: Seq<ExtractedUiTextureSlice>,
    gpu: Map<u64, Extent>,
    k: nat,
)
    requires
        k <= ps.len(),
        start.bind_groups.created + total_len(ps) <= u64::MAX,
    ensures
        grown_from(run_phases(start, ps, ex, gpu, k).bind_groups, start.bind_groups),
        run_phases(start, ps, ex, gpu, k).bind_groups.created <= start.bind_groups.created + total_len(
            ps.subrange(0, k as int),
        ),
    decreases k,
{
    if k == 0 {
        assert(ps.subrange(0, 0) =~= Seq::<Seq<TransparentUi>>::empty());
    } else {
        let j = (k - 1) as nat;
        lemma_frame_grows_cache(start, ps, ex, gpu, j);
        lemma_total_len_prefix(ps, j as int);
        let prev = run_phases(start, ps, ex, gpu, j);
        lemma_run_grows_cache(begin_phase(prev, ps[j as int]), start.bind_groups, ex, gpu, ps[j as int].len());
    }
}

/// After an image is reported modified or removed, no phase of the frame's
/// batching reuses its stale bind group: whatever bind group it has by the
/// end of any phase was created in this frame, numbered at or after the
/// count the frame started with.
pub proof fn lemma_frame_never_reuses_stale_bind_group(
    bind_groups: BindGroupsModel,
    events: Seq<AssetEvent>,
    ps: Seq<Seq<TransparentUi>>,
    ex: Seq<ExtractedUiTextureSlice>,
    gpu: Map<u64, Extent>,
    k: nat,
    x: u64,
)
    requires
        bind_groups.wf(),
        invalidated(events).contains(x),
        k <= ps.len(),
        bind_groups.created + total_len(ps) <= u64::MAX,
    ensures
        ({
            let r = run_phases(frame_start(bind_groups, events), ps, ex, gpu, k).bind_groups;
            &&& r.values.contains_key(x) ==> r.values[x] >= bind_groups.created
            &&& r.values.contains_key(x) && bind_groups.values.contains_key(x) ==> r.values[x]
                != bind_groups.values[x]
        }),
{
    let start = frame_start(bind_groups, events);
    lemma_frame_grows_cache(start, ps, ex, gpu, k);
    assert(!start.bind_groups.values.contains_key(x));
    if bind_groups.values.contains_key(x) {
        assert(bind_groups.values[x] < bind_groups.created);
    }
}

} // verus!
