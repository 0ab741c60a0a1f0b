use bevy_ui_dsl::class_helpers::{
    all, bottom, brgb8, brgba8, horozontal, left, pc, px, rect, rgb8, rgba8, right, top,
    vertical, ALIGN_CENTER, JUSTIFY_SPACE_EVENLY, NO_WRAP, ROW, WRAP,
};
use bevy_ui_dsl::model::{AlignItems, FlexDirection, FlexWrap, JustifyContent, Rgba, Val};

#[test]
fn rect_writes_top_and_bottom_crosswise() {
    let r = rect(Val::Px(1), Val::Px(2), Val::Px(3), Val::Px(4));
    assert_eq!(r.left, Val::Px(1));
    assert_eq!(r.right, Val::Px(2));
    assert_eq!(r.top, Val::Px(4));
    assert_eq!(r.bottom, Val::Px(3));
}

#[test]
fn all_sets_every_edge() {
    let r = all(Val::Px(5));
    assert_eq!(r.left, Val::Px(5));
    assert_eq!(r.right, Val::Px(5));
    assert_eq!(r.top, Val::Px(5));
    assert_eq!(r.bottom, Val::Px(5));
}

#[test]
fn horozontal_and_vertical_fill_their_axes() {
    let h = horozontal(Val::Px(6));
    assert_eq!(h.left, Val::Px(6));
    assert_eq!(h.right, Val::Px(6));
    assert_eq!(h.top, Val::Px(0));
    assert_eq!(h.bottom, Val::Px(0));

    let v = vertical(Val::Px(7));
    assert_eq!(v.left, Val::Px(0));
    assert_eq!(v.right, Val::Px(0));
    assert_eq!(v.top, Val::Px(7));
    assert_eq!(v.bottom, Val::Px(7));
}

#[test]
fn single_edge_helpers_leave_the_rest_zero() {
    assert_eq!(left(Val::Px(9)).left, Val::Px(9));
    assert_eq!(left(Val::Px(9)).right, Val::Px(0));
    assert_eq!(right(Val::Px(9)).right, Val::Px(9));
    assert_eq!(right(Val::Px(9)).top, Val::Px(0));
    assert_eq!(top(Val::Px(9)).top, Val::Px(9));
    assert_eq!(top(Val::Px(9)).bottom, Val::Px(0));
    assert_eq!(bottom(Val::Px(9)).bottom, Val::Px(9));
    assert_eq!(bottom(Val::Px(9)).left, Val::Px(0));
}

#[test]
fn length_helpers_build_exact_values() {
    assert_eq!(pc(50), Val::Pct(50, 1));
    assert_eq!(px(12), Val::Px(12));
    assert_eq!(bevy_ui_dsl::class_helpers::auto(), Val::Auto);
}

#[test]
fn color_helpers_build_exact_channels() {
    assert_eq!(rgb8(10, 20, 30), Rgba { red: 10, green: 20, blue: 30, alpha: 255 });
    assert_eq!(rgba8(10, 20, 30, 40), Rgba { red: 10, green: 20, blue: 30, alpha: 40 });
    assert_eq!(brgb8(1, 2, 3), Rgba { red: 1, green: 2, blue: 3, alpha: 255 });
    assert_eq!(brgba8(1, 2, 3, 4), Rgba { red: 1, green: 2, blue: 3, alpha: 4 });
}

#[test]
fn named_constants_match_their_variants() {
    assert_eq!(ALIGN_CENTER, AlignItems::Center);
    assert_eq!(JUSTIFY_SPACE_EVENLY, JustifyContent::SpaceEvenly);
    assert_eq!(ROW, FlexDirection::Row);
    assert_eq!(NO_WRAP, FlexWrap::NoWrap);
    assert_eq!(WRAP, FlexWrap::Wrap);
}
