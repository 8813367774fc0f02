//! Normalized slice, border and repeat parameters for sliced and tiled images.
use vstd::prelude::*;

verus! {

/// An exact fraction `num / den`, kept unreduced.
///
/// A zero or negative denominator only arises from degenerate input
/// (borders wider than the image, a zero stretch), where a float division
/// would give an infinity.
#[derive(Clone, Copy, Debug, PartialEq, Eq, Structural)]
pub struct Ratio {
    pub num: i128,
    pub den: i128,
}

/// A scale factor `num / den`; valid when `den` is not zero.
#[derive(Clone, Copy, Debug, PartialEq, Eq, Structural)]
pub struct Scale {
    pub num: u32,
    pub den: u32,
}

impl Scale {
    pub open spec fn wf(&self) -> bool {
        self.den > 0
    }
}

/// Width and height in pixels.
#[derive(Clone, Copy, Debug, PartialEq, Eq, Structural)]
pub struct Extent {
    pub width: u32,
    pub height: u32,
}

impl Extent {
    pub open spec fn nonzero(&self) -> bool {
        self.width > 0 && self.height > 0
    }
}

/// Border insets of a nine-patch, in image pixels.
#[derive(Clone, Copy, Debug, PartialEq, Eq, Structural)]
pub struct BorderRect {
    pub left: u32,
    pub right: u32,
    pub top: u32,
    pub bottom: u32,
}

/// How the sides or the center of a nine-patch fill their target extent.
#[derive(Clone, Copy, Debug, PartialEq, Eq, Structural)]
pub enum SliceScaleMode {
    Stretch,
    Tile { stretch_value: Scale },
}

/// Nine-patch description of an image.
#[derive(Clone, Copy, Debug, PartialEq, Eq, Structural)]
pub struct TextureSlicer {
    pub border: BorderRect,
    pub center_scale_mode: SliceScaleMode,
    pub sides_scale_mode: SliceScaleMode,
    pub max_corner_scale: Scale,
}

/// How a scaled image keeps its aspect ratio.
#[derive(Clone, Copy, Debug, PartialEq, Eq, Structural)]
pub enum ScalingMode {
    FillCenter,
    FillStart,
    FillEnd,
    FitCenter,
    FitStart,
    FitEnd,
}

/// How an image is laid out over its node.
#[derive(Clone, Copy, Debug, PartialEq, Eq, Structural)]
pub enum SpriteImageMode {
    Auto,
    Scale(ScalingMode),
    Sliced(TextureSlicer),
    Tiled { tile_x: bool, tile_y: bool, stretch_value: Scale },
}

impl SpriteImageMode {
    /// Modes that this geometry knows how to cut up.
    pub open spec fn is_sliceable(&self) -> bool {
        self is Sliced || self is Tiled
    }

    pub open spec fn wf(&self) -> bool {
        match *self {
            SpriteImageMode::Sliced(s) => s.max_corner_scale.wf() && s.center_scale_mode.wf()
                && s.sides_scale_mode.wf(),
            SpriteImageMode::Tiled { stretch_value, .. } => stretch_value.wf(),
            _ => true,
        }
    }
}

impl SliceScaleMode {
    pub open spec fn wf(&self) -> bool {
        match *self {
            SliceScaleMode::Stretch => true,
            SliceScaleMode::Tile { stretch_value } => stretch_value.wf(),
        }
    }
}

/// Four fractions, in the order left, top, right, bottom (or x, y, z, w).
#[derive(Clone, Copy, Debug, PartialEq, Eq, Structural)]
pub struct Ratio4 {
    pub a: Ratio,
    pub b: Ratio,
    pub c: Ratio,
    pub d: Ratio,
}

/// What the shader needs to cut an image into slices.
#[derive(Clone, Copy, Debug, PartialEq, Eq, Structural)]
pub struct SliceParams {
    /// Slice edges, normalized against the image.
    pub slices: Ratio4,
    /// Border edges, normalized against the target.
    pub border: Ratio4,
    /// Repeat counts: sides x, sides y, center x, center y.
    pub repeat: Ratio4,
}

pub open spec fn frac(num: int, den: int) -> Ratio {
    Ratio { num: num as i128, den: den as i128 }
}

pub open spec fn one() -> Ratio {
    frac(1, 1)
}

pub open spec fn unit_rect() -> Ratio4 {
    Ratio4 { a: frac(0, 1), b: frac(0, 1), c: one(), d: one() }
}

/// `a / b <= c / d` for positive denominators.
pub open spec fn frac_le(a: int, b: int, c: int, d: int) -> bool {
    a * d <= c * b
}

/// The smallest of `target / image` on both axes and the corner scale cap,
/// as a numerator and a denominator.
pub open spec fn min_coeff(image: Extent, target: Extent, cap: Scale) -> (int, int) {
    let (xn, xd) = (target.width as int, image.width as int);
    let (yn, yd) = (target.height as int, image.height as int);
    let (mn, md) = if frac_le(yn, yd, xn, xd) && !frac_le(xn, xd, yn, yd) {
        (yn, yd)
    } else {
        (xn, xd)
    };
    if frac_le(cap.num as int, cap.den as int, mn, md) && !frac_le(mn, md, cap.num as int, cap.den as int) {
        (cap.num as int, cap.den as int)
    } else {
        (mn, md)
    }
}

/// Repeat count of a slice whose image extent is `image` and whose target
/// extent is `tn / td`.
pub open spec fn tiled_subaxis(image: int, tn: int, td: int, mode: SliceScaleMode) -> Ratio {
    match mode {
        SliceScaleMode::Stretch => one(),
        SliceScaleMode::Tile { stretch_value: s } => frac(
            tn * s.den,
            td * (image * s.num),
        ),
    }
}

/// Repeat count along one axis of a tiled image.
pub open spec fn tiled_axis(tile: bool, image: int, target: int, s: Scale) -> Ratio {
    if tile {
        frac(target * s.den, image * s.num)
    } else {
        one()
    }
}

/// Slices of a nine-patch: the border insets over the image extent.
pub open spec fn nine_slice_slices(image: Extent, b: BorderRect) -> Ratio4 {
    Ratio4 {
        a: frac(b.left as int, image.width as int),
        b: frac(b.top as int, image.height as int),
        c: frac(image.width - b.right, image.width as int),
        d: frac(image.height - b.bottom, image.height as int),
    }
}

/// Border of a nine-patch: the insets over the target extent, times `cn / cd`.
pub open spec fn nine_slice_border(target: Extent, b: BorderRect, cn: int, cd: int) -> Ratio4 {
    let (tx, ty) = (target.width as int, target.height as int);
    Ratio4 {
        a: frac(b.left * cn, tx * cd),
        b: frac(b.top * cn, ty * cd),
        c: frac(tx * cd - b.right * cn, tx * cd),
        d: frac(ty * cd - b.bottom * cn, ty * cd),
    }
}

/// Slice parameters of an image shown at `target` in the given mode.
pub open spec fn texture_slices(image: Extent, target: Extent, mode: SpriteImageMode) -> SliceParams {
    match mode {
        SpriteImageMode::Sliced(s) => {
            let (cn, cd) = min_coeff(image, target, s.max_corner_scale);
            let b = s.border;
            // what is left of the image between the borders
            let image_w = image.width - b.left - b.right;
            let image_h = image.height - b.top - b.bottom;
            // what is left of the target between the scaled borders, over `cd`
            let target_w = target.width * cd - (b.left + b.right) * cn;
            let target_h = target.height * cd - (b.top + b.bottom) * cn;
            SliceParams {
                slices: nine_slice_slices(image, b),
                border: nine_slice_border(target, b, cn, cd),
                repeat: Ratio4 {
                    a: tiled_subaxis(image_w, target_w, cd, s.sides_scale_mode),
                    b: tiled_subaxis(image_h, target_h, cd, s.sides_scale_mode),
                    c: tiled_subaxis(image_w, target_w, cd, s.center_scale_mode),
                    d: tiled_subaxis(image_h, target_h, cd, s.center_scale_mode),
                },
            }
        },
        SpriteImageMode::Tiled { tile_x, tile_y, stretch_value } => SliceParams {
            slices: unit_rect(),
            border: unit_rect(),
            repeat: Ratio4 {
                a: one(),
                b: one(),
                c: tiled_axis(tile_x, image.width as int, target.width as int, stretch_value),
                d: tiled_axis(tile_y, image.height as int, target.height as int, stretch_value),
            },
        },
        _ => arbitrary(),
    }
}

fn ratio(num: i128, den: i128) -> (r: Ratio)
    ensures
        r == frac(num as int, den as int),
{
    Ratio { num, den }
}

/// Product of two 32-bit values, which always fits.
fn mul_u32(a: u32, b: u32) -> (r: i128)
    ensures
        r == a as int * b as int,
        0 <= r <= 0xffff_ffff * 0xffff_ffff,
{
    proof {
        assert(0 <= a as int * b as int <= 0xffff_ffff * 0xffff_ffff) by (nonlinear_arith)
            requires 0 <= a <= 0xffff_ffff, 0 <= b <= 0xffff_ffff;
    }
    a as i128 * b as i128
}

fn unit_ratio4() -> (r: Ratio4)
    ensures
        r == unit_rect(),
{
    Ratio4 { a: ratio(0, 1), b: ratio(0, 1), c: ratio(1, 1), d: ratio(1, 1) }
}

/// Repeat count along one axis of a tiled image: how many times the image,
/// stretched by `stretch`, fits into the target; one when the axis is not tiled.
pub fn compute_tiled_axis(tile: bool, image_extent: u32, target_extent: u32, stretch: Scale) -> (r: Ratio)
    ensures
        r == tiled_axis(tile, image_extent as int, target_extent as int, stretch),
{
    if tile {
        let s = mul_u32(image_extent, stretch.num);
        ratio(mul_u32(target_extent, stretch.den), s)
    } else {
        ratio(1, 1)
    }
}

pub open spec fn fits_subaxis(image_extent: i128, target_extent: Ratio) -> bool {
    -0x2_0000_0000 <= image_extent <= 0x2_0000_0000
        && -0x4_0000_0000_0000_0000 <= target_extent.num <= 0x4_0000_0000_0000_0000
        && 0 <= target_extent.den <= 0xffff_ffff
}

/// Repeat count of the sides or the center of a nine-patch along one axis:
/// one when stretched, else how many times the slice, stretched, fits into
/// its target extent.
pub fn compute_tiled_subaxis(image_extent: i128, target_extent: Ratio, mode: &SliceScaleMode) -> (r: Ratio)
    requires
        fits_subaxis(image_extent, target_extent),
    ensures
        r == tiled_subaxis(image_extent as int, target_extent.num as int, target_extent.den as int, *mode),
{
    match mode {
        SliceScaleMode::Stretch => ratio(1, 1),
        SliceScaleMode::Tile { stretch_value } => {
            let sn = stretch_value.num as i128;
            let sd = stretch_value.den as i128;
            proof {
                assert(-0x2_0000_0000 * 0xffff_ffff <= image_extent * sn <= 0x2_0000_0000 * 0xffff_ffff)
                    by (nonlinear_arith)
                    requires -0x2_0000_0000 <= image_extent <= 0x2_0000_0000, 0 <= sn <= 0xffff_ffff;
                let p = image_extent * sn;
                assert(-0x2_0000_0000 * 0xffff_ffff * 0xffff_ffff <= target_extent.den * p
                    <= 0x2_0000_0000 * 0xffff_ffff * 0xffff_ffff)
                    by (nonlinear_arith)
                    requires -0x2_0000_0000 * 0xffff_ffff <= p <= 0x2_0000_0000 * 0xffff_ffff,
                        0 <= target_extent.den <= 0xffff_ffff;
                assert(-0x4_0000_0000_0000_0000 * 0xffff_ffff <= target_extent.num * sd
                    <= 0x4_0000_0000_0000_0000 * 0xffff_ffff)
                    by (nonlinear_arith)
                    requires -0x4_0000_0000_0000_0000 <= target_extent.num <= 0x4_0000_0000_0000_0000,
                        0 <= sd <= 0xffff_ffff;
            }
            let s = image_extent * sn;
            ratio(target_extent.num * sd, target_extent.den * s)
        },
    }
}

fn compute_min_coeff(image: Extent, target: Extent, cap: Scale) -> (r: (u32, u32))
    ensures
        (r.0 as int, r.1 as int) == min_coeff(image, target, cap),
{
    let (xn, xd) = (target.width, image.width);
    let (yn, yd) = (target.height, image.height);
    let (mn, md) = if mul_u32(yn, xd) <= mul_u32(xn, yd) && !(mul_u32(xn, yd) <= mul_u32(yn, xd)) {
        (yn, yd)
    } else {
        (xn, xd)
    };
    if mul_u32(cap.num, md) <= mul_u32(mn, cap.den) && !(mul_u32(mn, cap.den) <= mul_u32(cap.num, md)) {
        (cap.num, cap.den)
    } else {
        (mn, md)
    }
}

/// Normalized slices, borders and repeat counts for an image of
/// `image_size` pixels drawn over `target_size` pixels.
///
/// For a nine-patch the corners keep their size, scaled down by the
/// smallest of the two axis ratios and the corner cap; sides and center
/// stretch or tile. A tiled image has no borders and repeats along the
/// tiled axes. Other modes have no slices: callers keep them out.
pub fn compute_texture_slices(image_size: Extent, target_size: Extent, image_scale_mode: &SpriteImageMode) -> (r: SliceParams)
    requires
        image_size.nonzero(),
        target_size.nonzero(),
        image_scale_mode.is_sliceable(),
        image_scale_mode.wf(),
    ensures
        r == texture_slices(image_size, target_size, *image_scale_mode),
{
    match image_scale_mode {
        SpriteImageMode::Sliced(slicer) => {
            let (cn, cd) = compute_min_coeff(image_size, target_size, slicer.max_corner_scale);
            let b = slicer.border;
            let ix = image_size.width as i128;
            let iy = image_size.height as i128;
            let slices = Ratio4 {
                a: ratio(b.left as i128, ix),
                b: ratio(b.top as i128, iy),
                c: ratio(ix - b.right as i128, ix),
                d: ratio(iy - b.bottom as i128, iy),
            };
            let txcd = mul_u32(target_size.width, cd);
            let tycd = mul_u32(target_size.height, cd);
            let (lc, rc) = (mul_u32(b.left, cn), mul_u32(b.right, cn));
            let (tc, bc) = (mul_u32(b.top, cn), mul_u32(b.bottom, cn));
            let border = Ratio4 {
                a: ratio(lc, txcd),
                b: ratio(tc, tycd),
                c: ratio(txcd - rc, txcd),
                d: ratio(tycd - bc, tycd),
            };
            let image_w = ix - b.left as i128 - b.right as i128;
            let image_h = iy - b.top as i128 - b.bottom as i128;
            let target_w = Ratio { num: txcd - (lc + rc), den: cd as i128 };
            let target_h = Ratio { num: tycd - (tc + bc), den: cd as i128 };
            proof {
                assert((b.left + b.right) * cn == b.left * cn + b.right * cn) by (nonlinear_arith);
                assert((b.top + b.bottom) * cn == b.top * cn + b.bottom * cn) by (nonlinear_arith);
            }
            let repeat = Ratio4 {
                a: compute_tiled_subaxis(image_w, target_w, &slicer.sides_scale_mode),
                b: compute_tiled_subaxis(image_h, target_h, &slicer.sides_scale_mode),
                c: compute_tiled_subaxis(image_w, target_w, &slicer.center_scale_mode),
                d: compute_tiled_subaxis(image_h, target_h, &slicer.center_scale_mode),
            };
            SliceParams { slices, border, repeat }
        },
        SpriteImageMode::Tiled { tile_x, tile_y, stretch_value } => {
            let rx = compute_tiled_axis(*tile_x, image_size.width, target_size.width, *stretch_value);
            let ry = compute_tiled_axis(*tile_y, image_size.height, target_size.height, *stretch_value);
            SliceParams {
                slices: unit_ratio4(),
                border: unit_ratio4(),
                repeat: Ratio4 { a: ratio(1, 1), b: ratio(1, 1), c: rx, d: ry },
            }
        },
        SpriteImageMode::Auto | SpriteImageMode::Scale(_) => unreached(),
    }
}

/// A nine-patch whose sides and center both stretch repeats nothing:
/// every repeat count is one, whatever the image and target extents.
pub proof fn lemma_stretched_nine_patch_repeats_once(image: Extent, target: Extent, slicer: TextureSlicer)
    requires
        slicer.center_scale_mode == SliceScaleMode::Stretch,
        slicer.sides_scale_mode == SliceScaleMode::Stretch,
    ensures
        texture_slices(image, target, SpriteImageMode::Sliced(slicer)).repeat
            == (Ratio4 { a: one(), b: one(), c: one(), d: one() }),
{
}

/// A tiled image that tiles along neither axis repeats once on both axes,
/// whatever its stretch value.
pub proof fn lemma_untiled_repeats_once(image: Extent, target: Extent, stretch_value: Scale)
    ensures
        texture_slices(image, target, SpriteImageMode::Tiled { tile_x: false, tile_y: false, stretch_value }).repeat
            == (Ratio4 { a: one(), b: one(), c: one(), d: one() }),
{
}

} // verus!
