//! Per-frame snapshot of the sliced and tiled images to draw.
use vstd::prelude::*;
use crate::geometry::{IRect, Quad};
use crate::slices::{Extent, Scale, SpriteImageMode, TextureSlicer};
use vstd::hash_map::HashMapWithView;

verus! {

/// The built-in white image that stands in for "no texture".
pub const PLACEHOLDER_IMAGE: u64 = 0;

/// The built-in fully transparent image, never drawn.
pub const TRANSPARENT_IMAGE: u64 = 1;

/// A color with 8-bit channels.
#[derive(Clone, Copy, Debug, PartialEq, Eq, Structural)]
pub struct Rgba {
    pub r: u8,
    pub g: u8,
    pub b: u8,
    pub a: u8,
}

/// A rectangle in texture pixels.
#[derive(Clone, Copy, Debug, PartialEq, Eq, Structural)]
pub struct URect {
    pub min_x: u32,
    pub min_y: u32,
    pub max_x: u32,
    pub max_y: u32,
}

/// One sliced or tiled image, ready to be queued and batched.
#[derive(Clone, Copy, Debug, PartialEq, Eq, Structural)]
pub struct ExtractedUiTextureSlice {
    pub stack_index: u32,
    /// Corners of the node after its transform.
    pub corners: Quad,
    /// Whether the transform leaves the node's edges horizontal and vertical.
    pub axis_aligned: bool,
    /// Size of the node in logical pixels.
    pub size: Extent,
    /// Size of the node in physical pixels.
    pub target_size: Extent,
    pub atlas_rect: Option<URect>,
    pub image: u64,
    pub clip: Option<IRect>,
    pub extracted_camera_entity: u64,
    pub color: Rgba,
    pub image_scale_mode: SpriteImageMode,
    pub flip_x: bool,
    pub flip_y: bool,
    pub main_entity: u64,
    pub render_entity: u64,
}

/// How an image node lays out its image.
#[derive(Clone, Copy, Debug, PartialEq, Eq, Structural)]
pub enum NodeImageMode {
    Auto,
    Stretch,
    Sliced(TextureSlicer),
    Tiled { tile_x: bool, tile_y: bool, stretch_value: Scale },
}

/// The frame's extracted items, consumed by batching.
pub struct ExtractedUiTextureSlices {
    pub slices: Vec<ExtractedUiTextureSlice>,
}

impl ExtractedUiTextureSlices {
    pub fn new() -> (r: Self)
        ensures
            r.slices@.len() == 0,
    {
        ExtractedUiTextureSlices { slices: Vec::new() }
    }
}

/// What the scene holds of one image node this frame.
#[derive(Clone, Copy, Debug, PartialEq, Eq, Structural)]
pub struct ImageNodeSnapshot {
    pub entity: u64,
    pub visible: bool,
    pub color: Rgba,
    pub image: u64,
    pub image_mode: NodeImageMode,
    /// The camera the node is drawn by.
    pub camera: u64,
    /// The node's cell of its texture atlas, if it uses one.
    pub atlas_cell: Option<URect>,
    /// A rectangle of the image to show, relative to the atlas cell if any.
    pub rect: Option<URect>,
    pub flip_x: bool,
    pub flip_y: bool,
    pub stack_index: u32,
    pub corners: Quad,
    pub axis_aligned: bool,
    pub size: Extent,
    pub target_size: Extent,
    pub clip: Option<IRect>,
}

/// Render-world camera of each scene camera.
pub struct UiCameraMap {
    pub cameras: HashMapWithView<u64, u64>,
}

impl View for UiCameraMap {
    type V = Map<u64, u64>;

    open spec fn view(&self) -> Map<u64, u64> {
        self.cameras@
    }
}

impl UiCameraMap {
    pub fn new() -> (r: Self)
        ensures
            r@ == Map::<u64, u64>::empty(),
    {
        UiCameraMap { cameras: HashMapWithView::new() }
    }

    pub fn insert(&mut self, camera: u64, render_camera: u64)
        ensures
            final(self)@ == old(self)@.insert(camera, render_camera),
    {
        self.cameras.insert(camera, render_camera);
    }
}

/// The slicing mode of a node, when it has one.
pub open spec fn slicing_mode(m: NodeImageMode) -> Option<SpriteImageMode> {
    match m {
        NodeImageMode::Sliced(s) => Some(SpriteImageMode::Sliced(s)),
        NodeImageMode::Tiled { tile_x, tile_y, stretch_value } => Some(
            SpriteImageMode::Tiled { tile_x, tile_y, stretch_value },
        ),
        _ => None,
    }
}

pub open spec fn sat_add(a: u32, b: u32) -> u32 {
    if a + b > u32::MAX { u32::MAX } else { (a + b) as u32 }
}

/// The part of the texture a node shows: the manual rectangle, moved into
/// the atlas cell when there is one (coordinates saturate at `u32::MAX`).
pub open spec fn compose_atlas_rect(cell: Option<URect>, rect: Option<URect>) -> Option<URect> {
    match (cell, rect) {
        (None, None) => None,
        (None, Some(r)) => Some(r),
        (Some(c), None) => Some(c),
        (Some(c), Some(r)) => Some(
            URect {
                min_x: sat_add(r.min_x, c.min_x),
                min_y: sat_add(r.min_y, c.min_y),
                max_x: sat_add(r.max_x, c.min_x),
                max_y: sat_add(r.max_y, c.min_y),
            },
        ),
    }
}

/// A node is drawn by this pipeline when it is visible, not fully
/// transparent, not the transparent image, sliced or tiled, and its camera
/// is known.
pub open spec fn is_extracted(n: ImageNodeSnapshot, cameras: Map<u64, u64>) -> bool {
    n.visible && n.color.a != 0 && n.image != TRANSPARENT_IMAGE && slicing_mode(n.image_mode) is Some
        && cameras.contains_key(n.camera)
}

pub open spec fn extracted_of(n: ImageNodeSnapshot, cameras: Map<u64, u64>, render_entity: u64) -> ExtractedUiTextureSlice {
    ExtractedUiTextureSlice {
        stack_index: n.stack_index,
        corners: n.corners,
        axis_aligned: n.axis_aligned,
        size: n.size,
        target_size: n.target_size,
        atlas_rect: compose_atlas_rect(n.atlas_cell, n.rect),
        image: n.image,
        clip: n.clip,
        extracted_camera_entity: cameras[n.camera],
        color: n.color,
        image_scale_mode: slicing_mode(n.image_mode).unwrap(),
        flip_x: n.flip_x,
        flip_y: n.flip_y,
        main_entity: n.entity,
        render_entity,
    }
}

/// The items extracted from `nodes`, in order, numbering render entities
/// from `first`.
pub open spec fn extract_all(nodes: Seq<ImageNodeSnapshot>, cameras: Map<u64, u64>, first: int) -> Seq<ExtractedUiTextureSlice>
    decreases nodes.len(),
{
    if nodes.len() == 0 {
        Seq::empty()
    } else {
        let prev = extract_all(nodes.drop_last(), cameras, first);
        if is_extracted(nodes.last(), cameras) {
            prev.push(extracted_of(nodes.last(), cameras, (first + prev.len()) as u64))
        } else {
            prev
        }
    }
}

proof fn lemma_extract_all_len(nodes: Seq<ImageNodeSnapshot>, cameras: Map<u64, u64>, first: int)
    ensures
        extract_all(nodes, cameras, first).len() <= nodes.len(),
    decreases nodes.len(),
{
    if nodes.len() > 0 {
        lemma_extract_all_len(nodes.drop_last(), cameras, first);
    }
}

/// The extracted items are numbered in order from `first`.
proof fn lemma_extract_all_entities(nodes: Seq<ImageNodeSnapshot>, cameras: Map<u64, u64>, first: int)
    requires
        0 <= first,
        first + nodes.len() <= u64::MAX,
    ensures
        forall|k: int|
            0 <= k < extract_all(nodes, cameras, first).len() ==> #[trigger] extract_all(
                nodes,
                cameras,
                first,
            )[k].render_entity == first + k,
    decreases nodes.len(),
{
    if nodes.len() > 0 {
        lemma_extract_all_entities(nodes.drop_last(), cameras, first);
        lemma_extract_all_len(nodes.drop_last(), cameras, first);
    }
}

fn compute_slicing_mode(m: NodeImageMode) -> (r: Option<SpriteImageMode>)
    ensures
        r == slicing_mode(m),
{
    match m {
        NodeImageMode::Sliced(s) => Some(SpriteImageMode::Sliced(s)),
        NodeImageMode::Tiled { tile_x, tile_y, stretch_value } => Some(
            SpriteImageMode::Tiled { tile_x, tile_y, stretch_value },
        ),
        _ => None,
    }
}

fn saturating(a: u32, b: u32) -> (r: u32)
    ensures
        r == sat_add(a, b),
{
    a.saturating_add(b)
}

/// Composes a node's atlas cell with its manual rectangle.
pub fn compute_atlas_rect(cell: Option<URect>, rect: Option<URect>) -> (r: Option<URect>)
    ensures
        r == compose_atlas_rect(cell, rect),
{
    match (cell, rect) {
        (None, None) => None,
        (None, Some(r)) => Some(r),
        (Some(c), None) => Some(c),
        (Some(c), Some(r)) => Some(
            URect {
                min_x: saturating(r.min_x, c.min_x),
                min_y: saturating(r.min_y, c.min_y),
                max_x: saturating(r.max_x, c.min_x),
                max_y: saturating(r.max_y, c.min_y),
            },
        ),
    }
}

/// Appends to `extracted` one item for each node that this pipeline draws,
/// in order, each with a fresh render entity taken from `next_render_entity`.
pub fn extract_ui_texture_slices(
    extracted_ui_slicers: &mut ExtractedUiTextureSlices,
    nodes: &Vec<ImageNodeSnapshot>,
    camera_map: &UiCameraMap,
    next_render_entity: &mut u64,
)
    requires
        *old(next_render_entity) as int + nodes@.len() <= u64::MAX,
        forall|j: int|
            0 <= j < old(extracted_ui_slicers).slices@.len() ==> #[trigger] old(extracted_ui_slicers).slices@[j].render_entity < *old(next_render_entity),
    ensures
        forall|k: int|
            old(extracted_ui_slicers).slices@.len() <= k < final(extracted_ui_slicers).slices@.len()
                ==> #[trigger] final(extracted_ui_slicers).slices@[k].render_entity == *old(next_render_entity)
                + (k - old(extracted_ui_slicers).slices@.len()),
        forall|j: int|
            0 <= j < final(extracted_ui_slicers).slices@.len() ==> #[trigger] final(extracted_ui_slicers).slices@[j].render_entity < *final(next_render_entity),
        final(extracted_ui_slicers).slices@ == old(extracted_ui_slicers).slices@ + extract_all(nodes@, camera_map@, *old(next_render_entity) as int),
        *final(next_render_entity) as int == *old(next_render_entity) + extract_all(
            nodes@,
            camera_map@,
            *old(next_render_entity) as int,
        ).len(),
{
    let ghost first = *next_render_entity as int;
    let mut i: usize = 0;
    while i < nodes.len()
        invariant
            i <= nodes@.len(),
            first + nodes@.len() <= u64::MAX,
            extracted_ui_slicers.slices@ == old(extracted_ui_slicers).slices@ + extract_all(nodes@.subrange(0, i as int), camera_map@, first),
            *next_render_entity as int == first + extract_all(nodes@.subrange(0, i as int), camera_map@, first).len(),
        decreases nodes.len() - i,
    {
        let n = nodes[i];
        let ghost prefix = nodes@.subrange(0, i as int + 1);
        proof {
            assert(prefix.drop_last() == nodes@.subrange(0, i as int));
            assert(prefix.last() == n);
            lemma_extract_all_len(nodes@.subrange(0, i as int), camera_map@, first);
        }
        let mode = compute_slicing_mode(n.image_mode);
        if n.visible && n.color.a != 0 && n.image != TRANSPARENT_IMAGE && mode.is_some() {
            match camera_map.cameras.get(&n.camera) {
                Some(cam) => {
                    let item = ExtractedUiTextureSlice {
                        stack_index: n.stack_index,
                        corners: n.corners,
                        axis_aligned: n.axis_aligned,
                        size: n.size,
                        target_size: n.target_size,
                        atlas_rect: compute_atlas_rect(n.atlas_cell, n.rect),
                        image: n.image,
                        clip: n.clip,
                        extracted_camera_entity: *cam,
                        color: n.color,
                        image_scale_mode: mode.unwrap(),
                        flip_x: n.flip_x,
                        flip_y: n.flip_y,
                        main_entity: n.entity,
                        render_entity: *next_render_entity,
                    };
                    extracted_ui_slicers.slices.push(item);
                    *next_render_entity = *next_render_entity + 1;
                },
                None => {},
            }
        }
        proof {
            assert(extracted_ui_slicers.slices@ =~= old(extracted_ui_slicers).slices@ + extract_all(prefix, camera_map@, first));
        }
        i += 1;
    }
    assert(nodes@.subrange(0, nodes@.len() as int) == nodes@);
    proof {
        lemma_extract_all_entities(nodes@, camera_map@, first);
        lemma_extract_all_len(nodes@, camera_map@, first);
        let old_len = old(extracted_ui_slicers).slices@.len();
        let new_items = extract_all(nodes@, camera_map@, first);
        assert forall|k: int|
            old_len <= k < extracted_ui_slicers.slices@.len() implies #[trigger] extracted_ui_slicers.slices@[k].render_entity
            == first + (k - old_len) by {
            assert(extracted_ui_slicers.slices@[k] == new_items[k - old_len]);
        }
        assert forall|j: int|
            0 <= j < extracted_ui_slicers.slices@.len() implies #[trigger] extracted_ui_slicers.slices@[j].render_entity
            < *next_render_entity by {
            if j < old_len {
                assert(extracted_ui_slicers.slices@[j] == old(extracted_ui_slicers).slices@[j]);
            } else {
                assert(extracted_ui_slicers.slices@[j] == new_items[j - old_len]);
            }
        }
    }
}

} // verus!
