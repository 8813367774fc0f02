use ui_texture_slicer::slices::{
    compute_texture_slices, compute_tiled_axis, compute_tiled_subaxis, BorderRect, Extent, Ratio,
    Scale, SliceScaleMode, SpriteImageMode, TextureSlicer,
};

fn is(r: Ratio, num: i128, den: i128) -> bool {
    r.den != 0 && r.num * den == num * r.den
}

fn slicer(border: u32, center: SliceScaleMode, sides: SliceScaleMode) -> TextureSlicer {
    TextureSlicer {
        border: BorderRect { left: border, right: border, top: border, bottom: border },
        center_scale_mode: center,
        sides_scale_mode: sides,
        max_corner_scale: Scale { num: 1, den: 1 },
    }
}

#[test]
fn nine_patch_half_size_scenario() {
    let mode = SpriteImageMode::Sliced(slicer(10, SliceScaleMode::Stretch, SliceScaleMode::Stretch));
    let p = compute_texture_slices(
        Extent { width: 100, height: 100 },
        Extent { width: 50, height: 50 },
        &mode,
    );
    assert!(is(p.slices.a, 1, 10));
    assert!(is(p.slices.b, 1, 10));
    assert!(is(p.slices.c, 9, 10));
    assert!(is(p.slices.d, 9, 10));
    assert!(is(p.border.a, 1, 10));
    assert!(is(p.border.b, 1, 10));
    assert!(is(p.border.c, 9, 10));
    assert!(is(p.border.d, 9, 10));
    for r in [p.repeat.a, p.repeat.b, p.repeat.c, p.repeat.d] {
        assert!(is(r, 1, 1));
    }
}

#[test]
fn stretched_nine_patch_repeats_once_at_any_size() {
    let mode = SpriteImageMode::Sliced(slicer(7, SliceScaleMode::Stretch, SliceScaleMode::Stretch));
    for (iw, ih, tw, th) in [(16, 16, 300, 40), (64, 32, 10, 500), (30, 30, 30, 30)] {
        let p = compute_texture_slices(
            Extent { width: iw, height: ih },
            Extent { width: tw, height: th },
            &mode,
        );
        for r in [p.repeat.a, p.repeat.b, p.repeat.c, p.repeat.d] {
            assert!(is(r, 1, 1));
        }
    }
}

#[test]
fn corner_cap_limits_border_scale() {
    // the target is twice the image, but corners may grow by 3/2 at most
    let mut s = slicer(10, SliceScaleMode::Stretch, SliceScaleMode::Stretch);
    s.max_corner_scale = Scale { num: 3, den: 2 };
    let p = compute_texture_slices(
        Extent { width: 100, height: 100 },
        Extent { width: 200, height: 200 },
        &SpriteImageMode::Sliced(s),
    );
    // 10 / 200 * 3/2
    assert!(is(p.border.a, 3, 40));
    assert!(is(p.border.c, 37, 40));
}

#[test]
fn min_coeff_takes_smaller_axis() {
    let p = compute_texture_slices(
        Extent { width: 100, height: 100 },
        Extent { width: 50, height: 25 },
        &SpriteImageMode::Sliced(slicer(10, SliceScaleMode::Stretch, SliceScaleMode::Stretch)),
    );
    // coefficient 1/4; left border 10 / 50 * 1/4, top 10 / 25 * 1/4
    assert!(is(p.border.a, 1, 20));
    assert!(is(p.border.b, 1, 10));
}

#[test]
fn tiled_sides_repeat_by_extent() {
    let tile = SliceScaleMode::Tile { stretch_value: Scale { num: 1, den: 1 } };
    let p = compute_texture_slices(
        Extent { width: 30, height: 30 },
        Extent { width: 110, height: 50 },
        &SpriteImageMode::Sliced(slicer(10, SliceScaleMode::Stretch, tile)),
    );
    // coefficient 1 (capped); side widths: image 10, target 110 - 20 = 90
    assert!(is(p.repeat.a, 9, 1));
    // heights: image 10, target 50 - 20 = 30
    assert!(is(p.repeat.b, 3, 1));
    assert!(is(p.repeat.c, 1, 1));
    assert!(is(p.repeat.d, 1, 1));
}

#[test]
fn untiled_image_repeats_once() {
    for stretch in [Scale { num: 1, den: 1 }, Scale { num: 5, den: 2 }, Scale { num: 1, den: 9 }] {
        let p = compute_texture_slices(
            Extent { width: 16, height: 8 },
            Extent { width: 100, height: 70 },
            &SpriteImageMode::Tiled { tile_x: false, tile_y: false, stretch_value: stretch },
        );
        for r in [p.repeat.a, p.repeat.b, p.repeat.c, p.repeat.d] {
            assert!(is(r, 1, 1));
        }
        assert!(is(p.slices.a, 0, 1) && is(p.slices.c, 1, 1));
        assert!(is(p.border.b, 0, 1) && is(p.border.d, 1, 1));
    }
}

#[test]
fn tiled_image_repeats_along_tiled_axis() {
    let p = compute_texture_slices(
        Extent { width: 16, height: 8 },
        Extent { width: 100, height: 70 },
        &SpriteImageMode::Tiled { tile_x: true, tile_y: false, stretch_value: Scale { num: 2, den: 1 } },
    );
    // 100 / (16 * 2)
    assert!(is(p.repeat.c, 100, 32));
    assert!(is(p.repeat.d, 1, 1));
}

#[test]
fn tiled_axis_and_subaxis() {
    assert!(is(compute_tiled_axis(true, 10, 35, Scale { num: 1, den: 2 }), 7, 1));
    assert!(is(compute_tiled_axis(false, 10, 35, Scale { num: 1, den: 2 }), 1, 1));
    let target = Ratio { num: 45, den: 1 };
    assert!(is(compute_tiled_subaxis(15, target, &SliceScaleMode::Stretch), 1, 1));
    let tile = SliceScaleMode::Tile { stretch_value: Scale { num: 3, den: 1 } };
    assert!(is(compute_tiled_subaxis(15, target, &tile), 1, 1));
    let tile = SliceScaleMode::Tile { stretch_value: Scale { num: 1, den: 1 } };
    assert!(is(compute_tiled_subaxis(15, target, &tile), 3, 1));
}
