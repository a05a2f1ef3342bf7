use panes::transform::PIXEL_MAX;
use panes::{AbsoluteRect, LocalRect, Ratio, Transform};

#[test]
fn the_identity_scales_nothing() {
    let one = Ratio::identity();
    assert_eq!(one, Ratio { num: 1, den: 1 });
    assert_eq!(one.apply(0), 0);
    assert_eq!(one.apply(77), 77);
    assert_eq!(one.apply(PIXEL_MAX), PIXEL_MAX);
}

#[test]
fn scaling_rounds_down() {
    assert_eq!(Ratio { num: 200, den: 100 }.apply(10), 20);
    assert_eq!(Ratio { num: 1, den: 3 }.apply(10), 3);
    assert_eq!(Ratio { num: 2, den: 3 }.apply(10), 6);
    assert_eq!(Ratio { num: 3, den: 2 }.apply(5), 7);
    assert_eq!(Ratio { num: 350, den: 700 }.apply(51), 25);
    assert_eq!(Ratio { num: 0, den: 5 }.apply(1000), 0);
}

#[test]
fn scaling_is_capped() {
    assert_eq!(PIXEL_MAX, u32::MAX as u64);
    assert_eq!(Ratio { num: 2, den: 1 }.apply(PIXEL_MAX), PIXEL_MAX);
    assert_eq!(Ratio { num: u32::MAX, den: 1 }.apply(u64::MAX), PIXEL_MAX);
    assert_eq!(Ratio { num: 1, den: 1 }.apply(u64::MAX), PIXEL_MAX);
    assert_eq!(Ratio { num: 1, den: 2 }.apply(2 * PIXEL_MAX), PIXEL_MAX);
    assert_eq!(Ratio { num: 1, den: 2 }.apply(2 * PIXEL_MAX - 1), PIXEL_MAX - 1);
}

#[test]
fn a_zero_reference_is_an_unbounded_factor() {
    assert_eq!(Ratio { num: 5, den: 0 }.apply(1), PIXEL_MAX);
    assert_eq!(Ratio { num: 5, den: 0 }.apply(0), 0);
    assert_eq!(Ratio { num: 0, den: 0 }.apply(7), 0);
    assert_eq!(Ratio { num: 0, den: 0 }.apply(0), 0);
}

#[test]
fn a_fresh_transform_has_zoom_one() {
    let t = Transform::at((3, 4));
    assert_eq!(
        t,
        Transform { ox: 3, oy: 4, zx: Ratio { num: 1, den: 1 }, zy: Ratio { num: 1, den: 1 } }
    );
}

#[test]
fn the_origin_is_folded_into_the_recorded_rectangle() {
    assert_eq!(
        LocalRect::recorded((100, 200), 10, 20, 30, 40),
        LocalRect { x: 110, y: 220, w: 30, h: 40 }
    );
    assert_eq!(
        LocalRect::recorded((u32::MAX, u32::MAX), u32::MAX, 1, 0, 0),
        LocalRect { x: 2 * (u32::MAX as u64), y: u32::MAX as u64 + 1, w: 0, h: 0 }
    );
}

#[test]
fn placement_adds_the_origin_to_the_scaled_position() {
    let t = Transform {
        ox: 7,
        oy: 9,
        zx: Ratio { num: 3, den: 1 },
        zy: Ratio { num: 1, den: 2 },
    };
    let local = LocalRect { x: 10, y: 11, w: 20, h: 21 };
    assert_eq!(t.absolute(&local), AbsoluteRect { x: 37, y: 14, w: 60, h: 10 });
}

#[test]
fn placement_cannot_overflow() {
    let t = Transform {
        ox: u32::MAX,
        oy: u32::MAX,
        zx: Ratio { num: u32::MAX, den: 1 },
        zy: Ratio { num: 9, den: 0 },
    };
    let local = LocalRect { x: u64::MAX, y: 1, w: u32::MAX, h: 0 };
    assert_eq!(
        t.absolute(&local),
        AbsoluteRect { x: 2 * PIXEL_MAX, y: 2 * PIXEL_MAX, w: PIXEL_MAX, h: 0 }
    );
}
