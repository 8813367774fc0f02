use ui_texture_slicer::batch::{TransparentUi, UiTextureSlicerBatch};
use ui_texture_slicer::cache::UiTextureSliceImageBindGroups;
use ui_texture_slicer::draw::{
    draw_ui_texture_slices, DrawFailure, DrawSlicer, PassCommand, RenderCommandResult,
    SetSlicerTextureBindGroup, SetSlicerViewBindGroup, TrackedRenderPass,
};
use ui_texture_slicer::extract::{
    compute_atlas_rect, extract_ui_texture_slices, ExtractedUiTextureSlices, ImageNodeSnapshot, NodeImageMode, Rgba,
    UiCameraMap, URect, TRANSPARENT_IMAGE,
};
use ui_texture_slicer::geometry::{
    compute_clip_offsets, quad_is_culled, IRect, Offset, Point, Quad,
};
use ui_texture_slicer::queue::{
    queue_ui_slices, ExtractedView, SpecializedPipelines, UiTextureSlicePipelineKey, UiViews,
    IMAGE_LAYER,
};
use ui_texture_slicer::pipeline::{
    ColorTarget, PipelineLabel, PrimitiveTopology, ShaderDef, TextureFormat, UiPipeline, UiPipelineKey, UiTextureSlicePipeline,
    VertexFormat,
};
use ui_texture_slicer::slices::{Extent, Scale};

fn node(entity: u64) -> ImageNodeSnapshot {
    ImageNodeSnapshot {
        entity,
        visible: true,
        color: Rgba { r: 10, g: 20, b: 30, a: 255 },
        image: 50,
        image_mode: NodeImageMode::Tiled { tile_x: true, tile_y: true, stretch_value: Scale { num: 1, den: 1 } },
        camera: 7,
        atlas_cell: None,
        rect: None,
        flip_x: false,
        flip_y: false,
        stack_index: entity as u32,
        corners: Quad {
            tl: Point { x: 0, y: 0 },
            tr: Point { x: 8, y: 0 },
            br: Point { x: 8, y: 8 },
            bl: Point { x: 0, y: 8 },
        },
        axis_aligned: true,
        size: Extent { width: 8, height: 8 },
        target_size: Extent { width: 16, height: 16 },
        clip: None,
    }
}

fn cameras() -> UiCameraMap {
    let mut c = UiCameraMap::new();
    c.insert(7, 70);
    c
}

#[test]
fn extraction_skips_hidden_and_unsliced_nodes() {
    let mut hidden = node(2);
    hidden.visible = false;
    let mut clear = node(3);
    clear.color.a = 0;
    let mut transparent = node(4);
    transparent.image = TRANSPARENT_IMAGE;
    let mut stretched = node(5);
    stretched.image_mode = NodeImageMode::Stretch;
    let mut auto = node(6);
    auto.image_mode = NodeImageMode::Auto;
    let mut lost = node(8);
    lost.camera = 9;
    let nodes = vec![node(1), hidden, clear, transparent, stretched, auto, lost, node(10)];
    let mut resource = ExtractedUiTextureSlices::new();
    let mut next = 500;
    extract_ui_texture_slices(&mut resource, &nodes, &cameras(), &mut next);
    let extracted = resource.slices;
    assert_eq!(extracted.len(), 2);
    assert_eq!(next, 502);
    assert_eq!((extracted[0].main_entity, extracted[0].render_entity), (1, 500));
    assert_eq!((extracted[1].main_entity, extracted[1].render_entity), (10, 501));
    assert_eq!(extracted[0].extracted_camera_entity, 70);
}

#[test]
fn extraction_numbers_render_entities_after_existing_ones() {
    let mut resource = ExtractedUiTextureSlices::new();
    let mut next = 0;
    extract_ui_texture_slices(&mut resource, &vec![node(1), node(2)], &cameras(), &mut next);
    extract_ui_texture_slices(&mut resource, &vec![node(3)], &cameras(), &mut next);
    let entities: Vec<u64> = resource.slices.iter().map(|s| s.render_entity).collect();
    assert_eq!(entities, vec![0, 1, 2]);
    assert_eq!(next, 3);
}

#[test]
fn atlas_rect_composition() {
    let cell = URect { min_x: 32, min_y: 64, max_x: 64, max_y: 96 };
    let rect = URect { min_x: 4, min_y: 2, max_x: 12, max_y: 10 };
    assert_eq!(compute_atlas_rect(None, None), None);
    assert_eq!(compute_atlas_rect(Some(cell), None), Some(cell));
    assert_eq!(compute_atlas_rect(None, Some(rect)), Some(rect));
    assert_eq!(
        compute_atlas_rect(Some(cell), Some(rect)),
        Some(URect { min_x: 36, min_y: 66, max_x: 44, max_y: 74 })
    );
}

fn views() -> UiViews {
    let mut v = UiViews::new();
    v.insert_camera(70, 300);
    v.insert_view(300, ExtractedView { hdr: true, retained_view_entity: 900 });
    v.insert_phase(900, 0);
    v.insert_camera(71, 301);
    v.insert_view(301, ExtractedView { hdr: false, retained_view_entity: 901 });
    v.insert_phase(901, 1);
    v
}

#[test]
fn queueing_fills_view_phases() {
    let mut extracted = ExtractedUiTextureSlices::new();
    let mut next = 0;
    extract_ui_texture_slices(&mut extracted, &vec![node(1), node(2)], &cameras(), &mut next);
    extracted.slices[1].extracted_camera_entity = 71;
    let mut orphan = extracted.slices[0];
    orphan.extracted_camera_entity = 72;
    extracted.slices.push(orphan);
    let mut phases: Vec<Vec<TransparentUi>> = vec![vec![], vec![]];
    let mut pipelines = SpecializedPipelines::new();
    queue_ui_slices(&extracted, &views(), &mut pipelines, &mut phases);
    assert_eq!(phases[0].len(), 1);
    assert_eq!(phases[1].len(), 1);
    assert_eq!(phases[0][0].index, 0);
    assert_eq!(phases[1][0].index, 1);
    assert_eq!(phases[0][0].sort_key.stack_index, 1);
    assert_eq!(phases[0][0].sort_key.layer, IMAGE_LAYER);
    assert_eq!((phases[0][0].batch_range_start, phases[0][0].batch_range_end), (0, 0));
    assert_ne!(phases[0][0].pipeline, phases[1][0].pipeline);
    assert_eq!(pipelines.compiled, 2);
}

#[test]
fn specialization_is_memoized() {
    let mut p = SpecializedPipelines::new();
    let a = p.specialize(UiTextureSlicePipelineKey { hdr: false });
    let b = p.specialize(UiTextureSlicePipelineKey { hdr: false });
    assert_eq!(a, b);
    assert_eq!(p.compiled, 1);
    let c = p.specialize(UiTextureSlicePipelineKey { hdr: true });
    assert_ne!(a, c);
    assert_eq!(p.compiled, 2);
}

#[test]
fn clip_offsets_and_culling() {
    let q = Quad {
        tl: Point { x: 0, y: 0 },
        tr: Point { x: 10, y: 0 },
        br: Point { x: 10, y: 10 },
        bl: Point { x: 0, y: 10 },
    };
    let d = compute_clip_offsets(&q, &Some(IRect { min_x: 2, min_y: 3, max_x: 7, max_y: 20 }));
    assert_eq!(d.tl, Offset { x: 2, y: 3 });
    assert_eq!(d.tr, Offset { x: -3, y: 3 });
    assert_eq!(d.br, Offset { x: -3, y: 0 });
    assert_eq!(d.bl, Offset { x: 2, y: 0 });
    assert!(!quad_is_culled(&q, true, &d));
    let gone = compute_clip_offsets(&q, &Some(IRect { min_x: 0, min_y: 10, max_x: 10, max_y: 30 }));
    assert!(quad_is_culled(&q, true, &gone));
    assert!(!quad_is_culled(&q, false, &gone));
}

fn cache_with(image: u64) -> UiTextureSliceImageBindGroups {
    let mut c = UiTextureSliceImageBindGroups::new();
    c.ensure(image);
    c
}

#[test]
fn draw_binds_batch_and_draws_its_range() {
    let batch = UiTextureSlicerBatch { range_start: 6, range_end: 24, image: 5 };
    let mut pass = TrackedRenderPass::new();
    let r = draw_ui_texture_slices(256, Some(1), &cache_with(5), Some(2), Some(3), Some(batch), &mut pass);
    assert_eq!(r, RenderCommandResult::Success);
    assert_eq!(
        pass.commands,
        vec![
            PassCommand::SetBindGroup { index: 0, bind_group: 1, dynamic_offset: Some(256) },
            PassCommand::SetBindGroup { index: 1, bind_group: 0, dynamic_offset: None },
            PassCommand::SetVertexBuffer { buffer: 2 },
            PassCommand::SetIndexBuffer { buffer: 3 },
            PassCommand::DrawIndexed { start: 6, end: 24 },
        ]
    );
}

#[test]
fn draw_failures() {
    let batch = UiTextureSlicerBatch { range_start: 0, range_end: 6, image: 5 };
    let cache = cache_with(5);
    let mut pass = TrackedRenderPass::new();
    assert_eq!(
        draw_ui_texture_slices(0, None, &cache, Some(2), Some(3), Some(batch), &mut pass),
        RenderCommandResult::Failure(DrawFailure::ViewBindGroupMissing)
    );
    assert!(pass.commands.is_empty());
    assert_eq!(
        draw_ui_texture_slices(0, Some(1), &cache, Some(2), Some(3), None, &mut pass),
        RenderCommandResult::Skip
    );
    assert_eq!(
        draw_ui_texture_slices(0, Some(1), &UiTextureSliceImageBindGroups::new(), Some(2), Some(3), Some(batch), &mut pass),
        RenderCommandResult::Failure(DrawFailure::TextureBindGroupMissing)
    );
    assert_eq!(
        draw_ui_texture_slices(0, Some(1), &cache, None, Some(3), Some(batch), &mut pass),
        RenderCommandResult::Failure(DrawFailure::VerticesMissing)
    );
    assert_eq!(
        draw_ui_texture_slices(0, Some(1), &cache, Some(2), None, Some(batch), &mut pass),
        RenderCommandResult::Failure(DrawFailure::IndicesMissing)
    );
}

#[test]
fn render_commands_one_by_one() {
    let batch = UiTextureSlicerBatch { range_start: 12, range_end: 18, image: 5 };
    let mut pass = TrackedRenderPass::new();
    let view = SetSlicerViewBindGroup { index: 0 };
    assert_eq!(view.render(64, Some(9), &mut pass), RenderCommandResult::Success);
    let texture = SetSlicerTextureBindGroup { index: 1 };
    assert_eq!(texture.render(None, &cache_with(5), &mut pass), RenderCommandResult::Skip);
    assert_eq!(texture.render(Some(batch), &cache_with(5), &mut pass), RenderCommandResult::Success);
    assert_eq!(DrawSlicer.render(Some(batch), Some(2), Some(3), &mut pass), RenderCommandResult::Success);
    assert_eq!(pass.commands.len(), 5);
    assert_eq!(pass.commands[4], PassCommand::DrawIndexed { start: 12, end: 18 });
}

#[test]
fn ui_pipeline_variants() {
    let p = UiPipeline { view_layout: 1, image_layout: 2, shader: 3 };
    let d = p.specialize(UiPipelineKey { hdr: true, anti_alias: true });
    assert_eq!(d.target, ColorTarget { format: TextureFormat::Rgba16Float, alpha_blending: true, write_all: true });
    assert_eq!(d.shader_defs, vec![ShaderDef::AntiAlias]);
    assert_eq!(d.vertex_formats.len(), 8);
    assert_eq!(d.vertex_formats[3], VertexFormat::Uint32);
    assert_eq!(d.layouts, vec![1, 2]);
    assert_eq!(d.vertex_stride, 88);
    assert_eq!(d.label, PipelineLabel::Ui);
    assert_eq!(d.primitive.topology, PrimitiveTopology::TriangleList);
    assert_eq!(d.primitive.cull_mode, None);
    assert!(d.depth_stencil.is_none());
    assert_eq!(d.multisample.count, 1);
    let d = p.specialize(UiPipelineKey { hdr: false, anti_alias: false });
    assert_eq!(d.target.format, TextureFormat::Rgba8UnormSrgb);
    assert!(d.shader_defs.is_empty());
}

#[test]
fn slice_pipeline_variants() {
    let p = UiTextureSlicePipeline { view_layout: 4, image_layout: 5, shader: 6 };
    let d = p.specialize(UiTextureSlicePipelineKey { hdr: false });
    assert_eq!(d.target.format, TextureFormat::Rgba8UnormSrgb);
    assert_eq!(d.vertex_formats.len(), 7);
    assert_eq!(d.vertex_stride, 100);
    assert_eq!(d.label, PipelineLabel::UiTextureSlice);
    assert_eq!(d.shader, 6);
    assert_eq!(p.specialize(UiTextureSlicePipelineKey { hdr: true }).target.format, TextureFormat::Rgba16Float);
}
