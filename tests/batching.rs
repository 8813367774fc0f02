use ui_texture_slicer::batch::{
    prepare_ui_slices, SortKey, TransparentUi, UiTextureSliceMeta, UiTextureSlicerBatch,
};
use ui_texture_slicer::cache::{AssetEvent, GpuImages, UiTextureSliceImageBindGroups};
use ui_texture_slicer::extract::{
    ExtractedUiTextureSlice, ExtractedUiTextureSlices, Rgba, URect, PLACEHOLDER_IMAGE,
};
use ui_texture_slicer::geometry::{IRect, Point, Quad};
use ui_texture_slicer::slices::{
    BorderRect, Extent, Scale, SliceScaleMode, SpriteImageMode, TextureSlicer,
};

const A: u64 = 10;
const B: u64 = 11;
const C: u64 = 12;

fn quad(x: i32, y: i32, w: i32, h: i32) -> Quad {
    Quad {
        tl: Point { x, y },
        tr: Point { x: x + w, y },
        br: Point { x: x + w, y: y + h },
        bl: Point { x, y: y + h },
    }
}

fn item(render_entity: u64, image: u64) -> ExtractedUiTextureSlice {
    ExtractedUiTextureSlice {
        stack_index: render_entity as u32,
        corners: quad(0, 0, 40, 20),
        axis_aligned: true,
        size: Extent { width: 40, height: 20 },
        target_size: Extent { width: 40, height: 20 },
        atlas_rect: None,
        image,
        clip: None,
        extracted_camera_entity: 1,
        color: Rgba { r: 255, g: 255, b: 255, a: 255 },
        image_scale_mode: SpriteImageMode::Sliced(TextureSlicer {
            border: BorderRect { left: 2, right: 2, top: 2, bottom: 2 },
            center_scale_mode: SliceScaleMode::Stretch,
            sides_scale_mode: SliceScaleMode::Stretch,
            max_corner_scale: Scale { num: 1, den: 1 },
        }),
        flip_x: false,
        flip_y: false,
        main_entity: 1000 + render_entity,
        render_entity,
    }
}

fn phase_for(extracted: &[ExtractedUiTextureSlice]) -> Vec<TransparentUi> {
    extracted
        .iter()
        .enumerate()
        .map(|(index, s)| TransparentUi {
            sort_key: SortKey { stack_index: s.stack_index, layer: 4 },
            entity: s.render_entity,
            main_entity: s.main_entity,
            pipeline: 0,
            batch_range_start: 0,
            batch_range_end: 0,
            index,
        })
        .collect()
}

fn gpu() -> GpuImages {
    let mut g = GpuImages::new();
    g.insert(PLACEHOLDER_IMAGE, Extent { width: 1, height: 1 });
    g.insert(A, Extent { width: 64, height: 64 });
    g.insert(B, Extent { width: 32, height: 32 });
    g.insert(C, Extent { width: 100, height: 100 });
    g
}

struct Frame {
    meta: UiTextureSliceMeta,
    bind_groups: UiTextureSliceImageBindGroups,
    phases: Vec<Vec<TransparentUi>>,
    batches: Vec<(u64, UiTextureSlicerBatch)>,
}

fn run(extracted: Vec<ExtractedUiTextureSlice>, bind_groups: UiTextureSliceImageBindGroups, events: Vec<AssetEvent>) -> Frame {
    let mut meta = UiTextureSliceMeta::new();
    let mut bind_groups = bind_groups;
    let mut phases = vec![phase_for(&extracted)];
    let mut extracted = ExtractedUiTextureSlices { slices: extracted };
    let batches = prepare_ui_slices(&mut meta, &mut bind_groups, &mut phases, &mut extracted, &gpu(), &events, Some(1));
    assert!(extracted.slices.is_empty());
    Frame { meta, bind_groups, phases, batches }
}

#[test]
fn placeholder_joins_open_batch() {
    let f = run(
        vec![item(1, A), item(2, A), item(3, PLACEHOLDER_IMAGE), item(4, B), item(5, B)],
        UiTextureSliceImageBindGroups::new(),
        vec![],
    );
    assert_eq!(f.batches.len(), 2);
    assert_eq!(f.batches[0], (1, UiTextureSlicerBatch { range_start: 0, range_end: 18, image: A }));
    assert_eq!(f.batches[1], (4, UiTextureSlicerBatch { range_start: 18, range_end: 30, image: B }));
    assert_eq!(f.phases[0][0].batch_range_end, 3);
    assert_eq!(f.phases[0][3].batch_range_end, 2);
    assert_eq!(f.phases[0][1].batch_range_end, 0);
}

#[test]
fn placeholder_batch_takes_first_texture() {
    let f = run(vec![item(1, PLACEHOLDER_IMAGE), item(2, A)], UiTextureSliceImageBindGroups::new(), vec![]);
    assert_eq!(f.batches, vec![(1, UiTextureSlicerBatch { range_start: 0, range_end: 12, image: A })]);
}

#[test]
fn same_texture_pair_is_one_batch() {
    let f = run(vec![item(1, A), item(2, A)], UiTextureSliceImageBindGroups::new(), vec![]);
    assert_eq!(f.batches, vec![(1, UiTextureSlicerBatch { range_start: 0, range_end: 12, image: A })]);
    assert_eq!(f.phases[0][0].batch_range_end, 2);
}

#[test]
fn buffers_hold_whole_quads() {
    let f = run(vec![item(1, A), item(2, A), item(3, A)], UiTextureSliceImageBindGroups::new(), vec![]);
    assert_eq!(f.meta.vertices.len(), 12);
    assert_eq!(f.meta.indices.len(), 18);
    assert_eq!(&f.meta.indices[0..6], &[0, 1, 2, 0, 2, 3]);
    assert_eq!(&f.meta.indices[6..12], &[4, 5, 6, 4, 6, 7]);
}

#[test]
fn clipped_out_quad_emits_nothing() {
    let mut hidden = item(2, A);
    hidden.clip = Some(IRect { min_x: -100, min_y: -100, max_x: 0, max_y: 100 });
    let f = run(vec![item(1, A), hidden, item(3, A)], UiTextureSliceImageBindGroups::new(), vec![]);
    assert_eq!(f.meta.vertices.len(), 8);
    assert_eq!(f.batches, vec![(1, UiTextureSlicerBatch { range_start: 0, range_end: 12, image: A })]);
    assert_eq!(f.phases[0][0].batch_range_end, 2);
}

#[test]
fn rotated_quad_is_never_culled() {
    let mut turned = item(1, A);
    turned.axis_aligned = false;
    turned.clip = Some(IRect { min_x: -100, min_y: -100, max_x: 0, max_y: 100 });
    let f = run(vec![turned], UiTextureSliceImageBindGroups::new(), vec![]);
    assert_eq!(f.meta.vertices.len(), 4);
}

#[test]
fn clip_pulls_corners_inside() {
    let mut s = item(1, A);
    s.clip = Some(IRect { min_x: 10, min_y: 5, max_x: 30, max_y: 100 });
    let f = run(vec![s], UiTextureSliceImageBindGroups::new(), vec![]);
    let v = &f.meta.vertices;
    assert_eq!((v[0].x, v[0].y), (10, 5));
    assert_eq!((v[1].x, v[1].y), (30, 5));
    assert_eq!((v[2].x, v[2].y), (30, 20));
    assert_eq!((v[3].x, v[3].y), (10, 20));
    // texture coordinates follow the clipped corners: 10/40 and 30/40
    assert_eq!(v[0].uv_x.num * 4, v[0].uv_x.den);
    assert_eq!(v[1].uv_x.num * 4, v[1].uv_x.den * 3);
}

#[test]
fn untextured_quad_uses_unit_uvs() {
    let f = run(vec![item(1, PLACEHOLDER_IMAGE)], UiTextureSliceImageBindGroups::new(), vec![]);
    let v = &f.meta.vertices;
    let uv: Vec<(i128, i128)> = v.iter().map(|v| (v.uv_x.num / v.uv_x.den, v.uv_y.num / v.uv_y.den)).collect();
    assert_eq!(uv, vec![(0, 0), (1, 0), (1, 1), (0, 1)]);
}

#[test]
fn missing_gpu_image_skips_item() {
    let f = run(vec![item(1, 99), item(2, A)], UiTextureSliceImageBindGroups::new(), vec![]);
    assert_eq!(f.batches, vec![(2, UiTextureSlicerBatch { range_start: 0, range_end: 6, image: A })]);
}

#[test]
fn stale_index_closes_batch() {
    let extracted = vec![item(1, A), item(2, A), item(3, A)];
    let mut meta = UiTextureSliceMeta::new();
    let mut bind_groups = UiTextureSliceImageBindGroups::new();
    let mut phase = phase_for(&extracted);
    phase[1].entity = 77;
    let mut phases = vec![phase];
    let mut extracted = ExtractedUiTextureSlices { slices: extracted };
    let batches = prepare_ui_slices(&mut meta, &mut bind_groups, &mut phases, &mut extracted, &gpu(), &vec![], Some(1));
    assert_eq!(batches.len(), 2);
    assert_eq!(batches[1], (3, UiTextureSlicerBatch { range_start: 6, range_end: 12, image: A }));
}

#[test]
fn atlas_and_flip() {
    let mut s = item(1, A);
    s.atlas_rect = Some(URect { min_x: 16, min_y: 0, max_x: 48, max_y: 32 });
    s.flip_x = true;
    let f = run(vec![s], UiTextureSliceImageBindGroups::new(), vec![]);
    let atlas = f.meta.vertices[0].atlas;
    // normalized by the 64 pixel texture, left and right swapped
    assert_eq!(atlas.a.num * 4, atlas.a.den * 3);
    assert_eq!(atlas.c.num * 4, atlas.c.den);
    // the atlas cell is 32 pixels wide: the slices are cut against it
    let slices = f.meta.vertices[0].slices;
    assert_eq!(slices.a.num * 16, slices.a.den);
}

#[test]
fn modified_image_gets_fresh_bind_group() {
    let first = run(vec![item(1, A)], UiTextureSliceImageBindGroups::new(), vec![]);
    assert_eq!(first.bind_groups.get(A), Some(0));
    assert_eq!(first.bind_groups.created, 1);
    let again = run(vec![item(1, A)], first.bind_groups, vec![AssetEvent::Added(A)]);
    assert_eq!(again.bind_groups.get(A), Some(0));
    assert_eq!(again.bind_groups.created, 1);
    let changed = run(vec![item(1, A)], again.bind_groups, vec![AssetEvent::Modified(A)]);
    assert_eq!(changed.bind_groups.get(A), Some(1));
    assert_eq!(changed.bind_groups.created, 2);
}

#[test]
fn removed_image_is_dropped_from_cache() {
    let first = run(vec![item(1, A)], UiTextureSliceImageBindGroups::new(), vec![]);
    let mut cache = first.bind_groups;
    cache.apply_events(&vec![AssetEvent::Unused(A), AssetEvent::LoadedWithDependencies(A)]);
    assert_eq!(cache.get(A), Some(0));
    cache.apply_events(&vec![AssetEvent::Removed(A)]);
    assert_eq!(cache.get(A), None);
}

#[test]
fn no_view_binding_leaves_buffers_alone() {
    let first = run(vec![item(1, A)], UiTextureSliceImageBindGroups::new(), vec![]);
    assert_eq!(first.meta.view_bind_group, Some(1));
    let mut meta = first.meta;
    let mut bind_groups = first.bind_groups;
    let extracted = vec![item(2, A), item(3, B)];
    let mut phases = vec![phase_for(&extracted)];
    let mut extracted = ExtractedUiTextureSlices { slices: extracted };
    let events = vec![AssetEvent::Modified(A)];
    let batches = prepare_ui_slices(&mut meta, &mut bind_groups, &mut phases, &mut extracted, &gpu(), &events, None);
    assert!(batches.is_empty());
    assert!(extracted.slices.is_empty());
    assert_eq!(meta.vertices.len(), 4);
    assert_eq!(phases[0][0].batch_range_end, 0);
    assert_eq!(bind_groups.get(A), None);
}

#[test]
fn missing_texture_leaves_batch_unresolved() {
    let f = run(vec![item(1, A), item(2, 99), item(3, A)], UiTextureSliceImageBindGroups::new(), vec![]);
    assert_eq!(
        f.batches,
        vec![
            (1, UiTextureSlicerBatch { range_start: 0, range_end: 6, image: A }),
            (3, UiTextureSlicerBatch { range_start: 6, range_end: 12, image: A }),
        ]
    );
    assert_eq!(f.phases[0][0].batch_range_end, 1);
    assert_eq!(f.phases[0][2].batch_range_end, 1);
}

#[test]
fn culled_quad_of_other_texture_keeps_open_batch() {
    let mut hidden = item(2, B);
    hidden.clip = Some(IRect { min_x: 100, min_y: -100, max_x: 200, max_y: 100 });
    let f = run(vec![item(1, A), hidden, item(3, A)], UiTextureSliceImageBindGroups::new(), vec![]);
    assert_eq!(f.batches, vec![(1, UiTextureSlicerBatch { range_start: 0, range_end: 12, image: A })]);
    assert_eq!(f.bind_groups.get(B), None);
    assert_eq!(f.bind_groups.created, 1);
}

#[test]
fn half_size_nine_patch_through_batching() {
    let mut s = item(1, C);
    s.corners = quad(0, 0, 50, 50);
    s.size = Extent { width: 50, height: 50 };
    s.target_size = Extent { width: 50, height: 50 };
    s.image_scale_mode = SpriteImageMode::Sliced(TextureSlicer {
        border: BorderRect { left: 10, right: 10, top: 10, bottom: 10 },
        center_scale_mode: SliceScaleMode::Stretch,
        sides_scale_mode: SliceScaleMode::Stretch,
        max_corner_scale: Scale { num: 1, den: 1 },
    });
    let f = run(vec![s], UiTextureSliceImageBindGroups::new(), vec![]);
    assert_eq!(f.meta.vertices.len(), 4);
    let same = |r: ui_texture_slicer::slices::Ratio, n: i128, d: i128| r.den != 0 && r.num * d == n * r.den;
    for v in &f.meta.vertices {
        for (r, n) in [(v.slices.a, 1), (v.slices.b, 1), (v.slices.c, 9), (v.slices.d, 9)] {
            assert!(same(r, n, 10));
        }
        for (r, n) in [(v.border.a, 1), (v.border.b, 1), (v.border.c, 9), (v.border.d, 9)] {
            assert!(same(r, n, 10));
        }
        for r in [v.repeat.a, v.repeat.b, v.repeat.c, v.repeat.d] {
            assert!(same(r, 1, 1));
        }
        assert!(same(v.atlas.a, 0, 1) && same(v.atlas.b, 0, 1));
        assert!(same(v.atlas.c, 1, 1) && same(v.atlas.d, 1, 1));
    }
}
