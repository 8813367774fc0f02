//! Queueing: each extracted item goes into the sorted phase of its view,
//! with a pipeline specialized for that view's output.
use vstd::prelude::*;
use vstd::hash_map::HashMapWithView;
use crate::batch::{SortKey, TransparentUi};
use crate::extract::{ExtractedUiTextureSlice, ExtractedUiTextureSlices};

verus! {

/// Layer of images among the kinds of UI content, in hundredths of a
/// stack step; it breaks ties between items of one stack index.
pub const IMAGE_LAYER: u32 = 4;

/// What a pipeline variant depends on.
#[derive(Clone, Copy, Debug, PartialEq, Eq, Structural)]
pub struct UiTextureSlicePipelineKey {
    pub hdr: bool,
}

/// Compiled pipeline variants, each built once, on first request.
pub struct SpecializedPipelines {
    pub hdr: Option<u32>,
    pub standard: Option<u32>,
    /// How many variants were compiled; handles are numbered from zero.
    pub compiled: u32,
}

/// The cached variants and the compile count.
pub struct PipelinesModel {
    pub hdr: Option<u32>,
    pub standard: Option<u32>,
    pub compiled: u32,
}

impl View for SpecializedPipelines {
    type V = PipelinesModel;

    open spec fn view(&self) -> PipelinesModel {
        PipelinesModel { hdr: self.hdr, standard: self.standard, compiled: self.compiled }
    }
}

impl PipelinesModel {
    pub open spec fn wf(self) -> bool {
        &&& self.compiled as int == (if self.hdr is Some { 1int } else { 0 }) + (if self.standard is Some { 1int } else { 0 })
        &&& (self.hdr is Some ==> self.hdr.unwrap() < self.compiled)
        &&& (self.standard is Some ==> self.standard.unwrap() < self.compiled)
        &&& (self.hdr is Some && self.standard is Some ==> self.hdr.unwrap() != self.standard.unwrap())
    }

    pub open spec fn get(self, key: UiTextureSlicePipelineKey) -> Option<u32> {
        if key.hdr { self.hdr } else { self.standard }
    }

    /// The cache after a request for `key`, and the handle handed out.
    pub open spec fn specialize(self, key: UiTextureSlicePipelineKey) -> (PipelinesModel, u32) {
        match self.get(key) {
            Some(h) => (self, h),
            None => {
                let h = self.compiled;
                let next = (self.compiled + 1) as u32;
                if key.hdr {
                    (PipelinesModel { hdr: Some(h), compiled: next, ..self }, h)
                } else {
                    (PipelinesModel { standard: Some(h), compiled: next, ..self }, h)
                }
            },
        }
    }
}

impl SpecializedPipelines {
    pub fn new() -> (r: Self)
        ensures
            r@.wf(),
            r@.hdr is None,
            r@.standard is None,
    {
        SpecializedPipelines { hdr: None, standard: None, compiled: 0 }
    }

    /// The handle of the variant for `key`, compiled now if it never was.
    pub fn specialize(&mut self, key: UiTextureSlicePipelineKey) -> (r: u32)
        requires
            old(self)@.wf(),
        ensures
            final(self)@.wf(),
            (final(self)@, r) == old(self)@.specialize(key),
    {
        let cached = if key.hdr { self.hdr } else { self.standard };
        match cached {
            Some(h) => h,
            None => {
                let h = self.compiled;
                if key.hdr {
                    self.hdr = Some(h);
                } else {
                    self.standard = Some(h);
                }
                self.compiled = self.compiled + 1;
                h
            },
        }
    }
}

/// Asking twice for one key gives one handle and compiles nothing more;
/// two keys never share a handle.
pub proof fn lemma_specialize_is_memoized(p: PipelinesModel, k1: UiTextureSlicePipelineKey, k2: UiTextureSlicePipelineKey)
    requires
        p.wf(),
    ensures
        ({
            let (p1, h1) = p.specialize(k1);
            let (p2, h2) = p1.specialize(k2);
            &&& p1.wf()
            &&& p2.wf()
            &&& (k1 == k2 ==> h2 == h1 && p2 == p1)
            &&& (k1 != k2 ==> h2 != h1)
        }),
{
}

/// A view as the camera extraction produced it.
#[derive(Clone, Copy, Debug, PartialEq, Eq, Structural)]
pub struct ExtractedView {
    pub hdr: bool,
    pub retained_view_entity: u64,
}

/// How a camera leads to a phase: camera to its default UI view, view to
/// its record, retained view to the slot of its phase.
pub struct UiViews {
    pub camera_views: HashMapWithView<u64, u64>,
    pub views: HashMapWithView<u64, ExtractedView>,
    pub phase_slots: HashMapWithView<u64, usize>,
}

pub struct UiViewsModel {
    pub camera_views: Map<u64, u64>,
    pub views: Map<u64, ExtractedView>,
    pub phase_slots: Map<u64, usize>,
}

impl View for UiViews {
    type V = UiViewsModel;

    open spec fn view(&self) -> UiViewsModel {
        UiViewsModel { camera_views: self.camera_views@, views: self.views@, phase_slots: self.phase_slots@ }
    }
}

impl UiViews {
    pub fn new() -> (r: Self)
        ensures
            r@.camera_views == Map::<u64, u64>::empty(),
            r@.views == Map::<u64, ExtractedView>::empty(),
            r@.phase_slots == Map::<u64, usize>::empty(),
    {
        UiViews { camera_views: HashMapWithView::new(), views: HashMapWithView::new(), phase_slots: HashMapWithView::new() }
    }

    pub fn insert_camera(&mut self, camera: u64, view: u64)
        ensures
            final(self)@ == (UiViewsModel { camera_views: old(self)@.camera_views.insert(camera, view), ..old(self)@ }),
    {
        self.camera_views.insert(camera, view);
    }

    pub fn insert_view(&mut self, view: u64, record: ExtractedView)
        ensures
            final(self)@ == (UiViewsModel { views: old(self)@.views.insert(view, record), ..old(self)@ }),
    {
        self.views.insert(view, record);
    }

    pub fn insert_phase(&mut self, retained_view: u64, slot: usize)
        ensures
            final(self)@ == (UiViewsModel { phase_slots: old(self)@.phase_slots.insert(retained_view, slot), ..old(self)@ }),
    {
        self.phase_slots.insert(retained_view, slot);
    }
}

/// The phase slot and output kind of an item's view, when every link from
/// its camera resolves and the slot exists.
pub open spec fn queue_target(s: ExtractedUiTextureSlice, v: UiViewsModel, n_phases: int) -> Option<(int, bool)> {
    if !v.camera_views.contains_key(s.extracted_camera_entity) {
        None
    } else {
        let view_entity = v.camera_views[s.extracted_camera_entity];
        if !v.views.contains_key(view_entity) {
            None
        } else {
            let view = v.views[view_entity];
            if !v.phase_slots.contains_key(view.retained_view_entity)
                || v.phase_slots[view.retained_view_entity] >= n_phases {
                None
            } else {
                Some((v.phase_slots[view.retained_view_entity] as int, view.hdr))
            }
        }
    }
}

/// The phase item of extracted item `index`, with an empty batch range.
pub open spec fn phase_item(s: ExtractedUiTextureSlice, index: int, pipeline: u32) -> TransparentUi {
    TransparentUi {
        sort_key: SortKey { stack_index: s.stack_index, layer: IMAGE_LAYER },
        entity: s.render_entity,
        main_entity: s.main_entity,
        pipeline,
        batch_range_start: 0,
        batch_range_end: 0,
        index: index as usize,
    }
}

/// Phases and pipeline cache after queueing the first `k` items.
pub open spec fn queue_all(
    phases: Seq<Seq<TransparentUi>>,
    pipelines: PipelinesModel,
    ex: Seq<ExtractedUiTextureSlice>,
    v: UiViewsModel,
    k: nat,
) -> (Seq<Seq<TransparentUi>>, PipelinesModel)
    decreases k,
{
    if k == 0 {
        (phases, pipelines)
    } else {
        let (ps, pl) = queue_all(phases, pipelines, ex, v, (k - 1) as nat);
        let s = ex[k - 1];
        match queue_target(s, v, ps.len() as int) {
            None => (ps, pl),
            Some((slot, hdr)) => {
                let (pl2, h) = pl.specialize(UiTextureSlicePipelineKey { hdr });
                (ps.update(slot, ps[slot].push(phase_item(s, k - 1, h))), pl2)
            },
        }
    }
}

proof fn lemma_queue_all_frame(
    phases: Seq<Seq<TransparentUi>>,
    pipelines: PipelinesModel,
    ex: Seq<ExtractedUiTextureSlice>,
    v: UiViewsModel,
    k: nat,
)
    requires
        pipelines.wf(),
    ensures
        queue_all(phases, pipelines, ex, v, k).0.len() == phases.len(),
        queue_all(phases, pipelines, ex, v, k).1.wf(),
    decreases k,
{
    if k > 0 {
        lemma_queue_all_frame(phases, pipelines, ex, v, (k - 1) as nat);
    }
}

/// Queues every extracted item whose view has a phase, in order.
pub fn queue_ui_slices(
    extracted_ui_slicers: &ExtractedUiTextureSlices,
    views: &UiViews,
    pipelines: &mut SpecializedPipelines,
    phases: &mut Vec<Vec<TransparentUi>>,
)
    requires
        old(pipelines)@.wf(),
    ensures
        final(pipelines)@.wf(),
        ({
            let (ps, pl) = queue_all(
                old(phases)@.map_values(|p: Vec<TransparentUi>| p@),
                old(pipelines)@,
                extracted_ui_slicers.slices@,
                views@,
                extracted_ui_slicers.slices@.len(),
            );
            final(phases)@.map_values(|p: Vec<TransparentUi>| p@) == ps && final(pipelines)@ == pl
        }),
{
    let ghost ps0 = phases@.map_values(|p: Vec<TransparentUi>| p@);
    let ghost pl0 = pipelines@;
    let mut i: usize = 0;
    while i < extracted_ui_slicers.slices.len()
        invariant
            i <= extracted_ui_slicers.slices@.len(),
            pl0.wf(),
            pipelines@.wf(),
            (phases@.map_values(|p: Vec<TransparentUi>| p@), pipelines@) == queue_all(ps0, pl0, extracted_ui_slicers.slices@, views@, i as nat),
        decreases extracted_ui_slicers.slices.len() - i,
    {
        proof {
            lemma_queue_all_frame(ps0, pl0, extracted_ui_slicers.slices@, views@, i as nat);
        }
        let ghost before = phases@.map_values(|p: Vec<TransparentUi>| p@);
        let s = extracted_ui_slicers.slices[i];
        let target = match views.camera_views.get(&s.extracted_camera_entity) {
            None => None,
            Some(view_entity) => match views.views.get(view_entity) {
                None => None,
                Some(view) => match views.phase_slots.get(&view.retained_view_entity) {
                    None => None,
                    Some(slot) => if *slot < phases.len() {
                        Some((*slot, view.hdr))
                    } else {
                        None
                    },
                },
            },
        };
        assert(target matches Some((slot, hdr)) ==> queue_target(s, views@, before.len() as int) == Some((slot as int, hdr)));
        assert(target is None ==> queue_target(s, views@, before.len() as int) is None);
        match target {
            None => {},
            Some((slot, hdr)) => {
                let pipeline = pipelines.specialize(UiTextureSlicePipelineKey { hdr });
                let item = TransparentUi {
                    sort_key: SortKey { stack_index: s.stack_index, layer: IMAGE_LAYER },
                    entity: s.render_entity,
                    main_entity: s.main_entity,
                    pipeline,
                    batch_range_start: 0,
                    batch_range_end: 0,
                    index: i,
                };
                phases[slot].push(item);
                assert(phases@.map_values(|p: Vec<TransparentUi>| p@) =~= before.update(
                    slot as int,
                    before[slot as int].push(phase_item(s, i as int, pipeline)),
                ));
            },
        }
        i += 1;
    }
}

} // verus!
