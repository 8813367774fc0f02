//! Pipeline descriptions for plain UI quads and for sliced images.
use vstd::prelude::*;
use crate::queue::UiTextureSlicePipelineKey;

verus! {

/// Layout of one vertex attribute.
#[derive(Clone, Copy, Debug, PartialEq, Eq, Structural)]
pub enum VertexFormat {
    Float32x2,
    Float32x3,
    Float32x4,
    Uint32,
}

/// Format of the color target.
#[derive(Clone, Copy, Debug, PartialEq, Eq, Structural)]
pub enum TextureFormat {
    /// What HDR views render to.
    Rgba16Float,
    /// What other views render to.
    Rgba8UnormSrgb,
}

/// A definition handed to the shader.
#[derive(Clone, Copy, Debug, PartialEq, Eq, Structural)]
pub enum ShaderDef {
    AntiAlias,
}

/// The color target of a pipeline: its format, whether it blends by
/// alpha, and whether it writes every channel.
#[derive(Clone, Copy, Debug, PartialEq, Eq, Structural)]
pub struct ColorTarget {
    pub format: TextureFormat,
    pub alpha_blending: bool,
    pub write_all: bool,
}

#[derive(Clone, Copy, Debug, PartialEq, Eq, Structural)]
pub enum PrimitiveTopology {
    PointList,
    LineList,
    LineStrip,
    TriangleList,
    TriangleStrip,
}

#[derive(Clone, Copy, Debug, PartialEq, Eq, Structural)]
pub enum FrontFace {
    Ccw,
    Cw,
}

#[derive(Clone, Copy, Debug, PartialEq, Eq, Structural)]
pub enum Face {
    Front,
    Back,
}

#[derive(Clone, Copy, Debug, PartialEq, Eq, Structural)]
pub enum PolygonMode {
    Fill,
    Line,
    Point,
}

/// How vertices make triangles.
#[derive(Clone, Copy, Debug, PartialEq, Eq, Structural)]
pub struct PrimitiveState {
    pub topology: PrimitiveTopology,
    pub front_face: FrontFace,
    pub cull_mode: Option<Face>,
    pub polygon_mode: PolygonMode,
    pub unclipped_depth: bool,
    pub conservative: bool,
}

/// Depth and stencil testing, when a pipeline does any.
#[derive(Clone, Copy, Debug, PartialEq, Eq, Structural)]
pub struct DepthStencilState {
    pub depth_write_enabled: bool,
}

#[derive(Clone, Copy, Debug, PartialEq, Eq, Structural)]
pub struct MultisampleState {
    pub count: u32,
    pub mask: u64,
    pub alpha_to_coverage_enabled: bool,
}

/// Name of a pipeline, for debugging tools.
#[derive(Clone, Copy, Debug, PartialEq, Eq, Structural)]
pub enum PipelineLabel {
    Ui,
    UiTextureSlice,
}

/// What a pipeline is compiled from.
pub struct RenderPipelineDescriptor {
    pub label: PipelineLabel,
    pub shader: u64,
    pub vertex_formats: Vec<VertexFormat>,
    /// Bytes from one vertex to the next.
    pub vertex_stride: u64,
    pub shader_defs: Vec<ShaderDef>,
    pub target: ColorTarget,
    /// Bind group layouts: the view's, then the image's.
    pub layouts: Vec<u64>,
    pub primitive: PrimitiveState,
    pub depth_stencil: Option<DepthStencilState>,
    pub multisample: MultisampleState,
}

pub open spec fn format_size(f: VertexFormat) -> nat {
    match f {
        VertexFormat::Float32x2 => 8,
        VertexFormat::Float32x3 => 12,
        VertexFormat::Float32x4 => 16,
        VertexFormat::Uint32 => 4,
    }
}

/// Size of a vertex made of `formats`, packed.
pub open spec fn formats_size(formats: Seq<VertexFormat>) -> nat
    decreases formats.len(),
{
    if formats.len() == 0 {
        0
    } else {
        formats_size(formats.drop_last()) + format_size(formats.last())
    }
}

/// Triangle lists, counter-clockwise front faces, no culling, filled.
pub open spec fn triangle_list() -> PrimitiveState {
    PrimitiveState {
        topology: PrimitiveTopology::TriangleList,
        front_face: FrontFace::Ccw,
        cull_mode: None,
        polygon_mode: PolygonMode::Fill,
        unclipped_depth: false,
        conservative: false,
    }
}

/// One sample per pixel, every sample written, no alpha to coverage.
pub open spec fn single_sample() -> MultisampleState {
    MultisampleState { count: 1, mask: 0xffff_ffff_ffff_ffff, alpha_to_coverage_enabled: false }
}

fn make_triangle_list() -> (r: PrimitiveState)
    ensures
        r == triangle_list(),
{
    PrimitiveState {
        topology: PrimitiveTopology::TriangleList,
        front_face: FrontFace::Ccw,
        cull_mode: None,
        polygon_mode: PolygonMode::Fill,
        unclipped_depth: false,
        conservative: false,
    }
}

fn make_single_sample() -> (r: MultisampleState)
    ensures
        r == single_sample(),
{
    MultisampleState { count: 1, mask: 0xffff_ffff_ffff_ffff, alpha_to_coverage_enabled: false }
}

/// Packed size of a vertex of these formats.
fn vertex_stride(formats: &Vec<VertexFormat>) -> (r: u64)
    requires
        formats@.len() <= 1000,
    ensures
        r == formats_size(formats@),
{
    let mut total: u64 = 0;
    let mut i: usize = 0;
    while i < formats.len()
        invariant
            i <= formats@.len(),
            formats@.len() <= 1000,
            total == formats_size(formats@.subrange(0, i as int)),
            total <= 16 * i,
        decreases formats.len() - i,
    {
        proof {
            assert(formats@.subrange(0, i as int + 1).drop_last() == formats@.subrange(0, i as int));
        }
        let size: u64 = match formats[i] {
            VertexFormat::Float32x2 => 8,
            VertexFormat::Float32x3 => 12,
            VertexFormat::Float32x4 => 16,
            VertexFormat::Uint32 => 4,
        };
        total = total + size;
        i += 1;
    }
    assert(formats@.subrange(0, formats@.len() as int) == formats@);
    total
}

pub open spec fn output_format(hdr: bool) -> TextureFormat {
    if hdr { TextureFormat::Rgba16Float } else { TextureFormat::Rgba8UnormSrgb }
}

/// Position, uv, color, mode, border radius, border thickness, border size,
/// position relative to the center.
pub open spec fn ui_vertex_formats() -> Seq<VertexFormat> {
    seq![
        VertexFormat::Float32x3,
        VertexFormat::Float32x2,
        VertexFormat::Float32x4,
        VertexFormat::Uint32,
        VertexFormat::Float32x4,
        VertexFormat::Float32x4,
        VertexFormat::Float32x2,
        VertexFormat::Float32x2,
    ]
}

/// Position, uv, color, then slices, border, repeat and atlas rectangle.
pub open spec fn slice_vertex_formats() -> Seq<VertexFormat> {
    seq![
        VertexFormat::Float32x3,
        VertexFormat::Float32x2,
        VertexFormat::Float32x4,
        VertexFormat::Float32x4,
        VertexFormat::Float32x4,
        VertexFormat::Float32x4,
        VertexFormat::Float32x4,
    ]
}

fn color_target(hdr: bool) -> (r: ColorTarget)
    ensures
        r == (ColorTarget { format: output_format(hdr), alpha_blending: true, write_all: true }),
{
    let format = if hdr { TextureFormat::Rgba16Float } else { TextureFormat::Rgba8UnormSrgb };
    ColorTarget { format, alpha_blending: true, write_all: true }
}

/// The pipeline of plain UI rectangles.
pub struct UiPipeline {
    pub view_layout: u64,
    pub image_layout: u64,
    pub shader: u64,
}

/// What a variant of the UI pipeline depends on.
#[derive(Clone, Copy, Debug, PartialEq, Eq, Structural)]
pub struct UiPipelineKey {
    pub hdr: bool,
    pub anti_alias: bool,
}

impl UiPipeline {
    /// The variant for `key`: the view's output format, and anti-aliasing
    /// as a shader definition when asked for.
    pub fn specialize(&self, key: UiPipelineKey) -> (r: RenderPipelineDescriptor)
        ensures
            r.label == PipelineLabel::Ui,
            r.shader == self.shader,
            r.vertex_formats@ == ui_vertex_formats(),
            r.shader_defs@ == (if key.anti_alias { seq![ShaderDef::AntiAlias] } else { Seq::empty() }),
            r.target == (ColorTarget { format: output_format(key.hdr), alpha_blending: true, write_all: true }),
            r.layouts@ == seq![self.view_layout, self.image_layout],
            r.vertex_stride == formats_size(r.vertex_formats@),
            r.primitive == triangle_list(),
            r.depth_stencil is None,
            r.multisample == single_sample(),
    {
        let vertex_formats = vec![
            VertexFormat::Float32x3,
            VertexFormat::Float32x2,
            VertexFormat::Float32x4,
            VertexFormat::Uint32,
            VertexFormat::Float32x4,
            VertexFormat::Float32x4,
            VertexFormat::Float32x2,
            VertexFormat::Float32x2,
        ];
        let shader_defs = if key.anti_alias { vec![ShaderDef::AntiAlias] } else { Vec::new() };
        let stride = vertex_stride(&vertex_formats);
        let r = RenderPipelineDescriptor {
            label: PipelineLabel::Ui,
            shader: self.shader,
            vertex_formats,
            vertex_stride: stride,
            primitive: make_triangle_list(),
            depth_stencil: None,
            multisample: make_single_sample(),
            shader_defs,
            target: color_target(key.hdr),
            layouts: vec![self.view_layout, self.image_layout],
        };
        assert(r.vertex_formats@ =~= ui_vertex_formats());
        assert(r.layouts@ =~= seq![self.view_layout, self.image_layout]);
        assert(r.shader_defs@ =~= (if key.anti_alias { seq![ShaderDef::AntiAlias] } else { Seq::empty() }));
        r
    }
}

/// The pipeline of sliced and tiled images.
pub struct UiTextureSlicePipeline {
    pub view_layout: u64,
    pub image_layout: u64,
    pub shader: u64,
}

impl UiTextureSlicePipeline {
    /// The variant for `key`: only the output format depends on it.
    pub fn specialize(&self, key: UiTextureSlicePipelineKey) -> (r: RenderPipelineDescriptor)
        ensures
            r.label == PipelineLabel::UiTextureSlice,
            r.shader == self.shader,
            r.vertex_formats@ == slice_vertex_formats(),
            r.shader_defs@.len() == 0,
            r.target == (ColorTarget { format: output_format(key.hdr), alpha_blending: true, write_all: true }),
            r.layouts@ == seq![self.view_layout, self.image_layout],
            r.vertex_stride == formats_size(r.vertex_formats@),
            r.primitive == triangle_list(),
            r.depth_stencil is None,
            r.multisample == single_sample(),
    {
        let vertex_formats = vec![
            VertexFormat::Float32x3,
            VertexFormat::Float32x2,
            VertexFormat::Float32x4,
            VertexFormat::Float32x4,
            VertexFormat::Float32x4,
            VertexFormat::Float32x4,
            VertexFormat::Float32x4,
        ];
        let stride = vertex_stride(&vertex_formats);
        let r = RenderPipelineDescriptor {
            label: PipelineLabel::UiTextureSlice,
            shader: self.shader,
            vertex_formats,
            vertex_stride: stride,
            primitive: make_triangle_list(),
            depth_stencil: None,
            multisample: make_single_sample(),
            shader_defs: Vec::new(),
            target: color_target(key.hdr),
            layouts: vec![self.view_layout, self.image_layout],
        };
        assert(r.vertex_formats@ =~= slice_vertex_formats());
        assert(r.layouts@ =~= seq![self.view_layout, self.image_layout]);
        r
    }
}

} // verus!
