use mac_window::drag_bounds::preview_leaves_viewport;

fn px(value: f32) -> i64 {
    (value as f64 * 4_294_967_296.0) as i64
}

fn pair(value: [f32; 2]) -> [i64; 2] {
    [px(value[0]), px(value[1])]
}

fn leaves(mouse: [f32; 2], offset: [f32; 2], preview: Option<[f32; 2]>, viewport: [f32; 2]) -> bool {
    preview_leaves_viewport(pair(mouse), pair(offset), preview.map(pair), pair(viewport))
}

#[test]
fn promotes_before_pointer_crosses_titlebar() {
    assert!(leaves(
        [218.5, 1.14],
        [126.48, 21.6],
        Some([260.0, 36.0]),
        [1100.0, 760.0]
    ));
}

#[test]
fn fully_visible_preview_and_exact_edge_stay_internal() {
    assert!(!leaves(
        [126.0, 22.0],
        [126.0, 22.0],
        Some([260.0, 36.0]),
        [1100.0, 760.0]
    ));
    assert!(!leaves(
        [600.0, 100.0],
        [126.0, 22.0],
        Some([260.0, 36.0]),
        [1100.0, 760.0]
    ));
}

#[test]
fn detects_left_right_and_bottom_overflow() {
    for mouse in [[10.0, 100.0], [1090.0, 100.0], [400.0, 755.0]] {
        assert!(leaves(
            mouse,
            [126.0, 22.0],
            Some([260.0, 36.0]),
            [1100.0, 760.0]
        ));
    }
}

#[test]
fn unmeasured_preview_uses_pointer_fallback() {
    assert!(!leaves([10.0, 10.0], [126.0, 22.0], None, [1100.0, 760.0]));
    assert!(leaves([10.0, -1.0], [126.0, 22.0], None, [1100.0, 760.0]));
}

#[test]
fn pointer_outside_leaves_whatever_the_preview() {
    for preview in [None, Some([10.0, 10.0])] {
        assert!(leaves([-0.5, 10.0], [-5.0, 0.0], preview, [100.0, 100.0]));
        assert!(leaves([10.0, 100.5], [0.0, 50.0], preview, [100.0, 100.0]));
    }
}

#[test]
fn larger_viewport_keeps_the_preview_inside() {
    for extent in [60.0, 80.0, 1000.0] {
        assert!(!leaves([30.0, 30.0], [10.0, 10.0], Some([40.0, 40.0]), [extent, extent]));
    }
    assert!(leaves([30.0, 30.0], [10.0, 10.0], Some([40.0, 40.0]), [59.0, 60.0]));
}

#[test]
fn preview_edges_are_in_single_precision() {
    let width = 16_777_216.0f32;
    assert!(!leaves([width, 1.0], [-1.0, 0.0], Some([0.0, 0.0]), [width, 2.0]));
    assert!(leaves([width, 1.0], [-2.0, 0.0], Some([0.0, 0.0]), [width, 2.0]));
    let mut seed: u32 = 7;
    let mut next = || {
        seed = seed.wrapping_mul(1_664_525).wrapping_add(1_013_904_223);
        (seed >> 8) as f32 * 0.0001
    };
    for _ in 0..2000 {
        let mouse = [next(), next()];
        let offset = [next() - 800.0, next() - 800.0];
        let size = [next(), next()];
        let start = [mouse[0] - offset[0], mouse[1] - offset[1]];
        let end = [start[0] + size[0], start[1] + size[1]];
        let viewport = [end[0].max(mouse[0]), end[1].max(mouse[1])];
        let expected = start[0] < 0.0 || start[1] < 0.0;
        assert_eq!(leaves(mouse, offset, Some(size), viewport), expected);
    }
}

#[test]
fn larger_preview_does_not_come_back() {
    let viewport = [1100.0, 760.0];
    let mouse = [1000.0, 700.0];
    assert!(!leaves(mouse, [10.0, 10.0], Some([110.0, 70.0]), viewport));
    assert!(leaves(mouse, [10.0, 10.0], Some([110.5, 70.0]), viewport));
    assert!(leaves(mouse, [10.0, 10.0], Some([111.0, 90.0]), viewport));
}
