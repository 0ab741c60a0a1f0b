//! Helper constants and functions that make writing classes shorter.

use vstd::prelude::*;

use crate::model::{AlignItems, FlexDirection, FlexWrap, JustifyContent, Rgba, UiRect, Val};

verus! {

pub const ALIGN_FLEX_START: AlignItems = AlignItems::FlexStart;

pub const ALIGN_FLEX_END: AlignItems = AlignItems::FlexEnd;

pub const ALIGN_CENTER: AlignItems = AlignItems::Center;

pub const ALIGN_BASELINE: AlignItems = AlignItems::Baseline;

pub const ALIGN_STRETCH: AlignItems = AlignItems::Stretch;

pub const JUSTIFY_FLEX_START: JustifyContent = JustifyContent::FlexStart;

pub const JUSTIFY_FLEX_END: JustifyContent = JustifyContent::FlexEnd;

pub const JUSTIFY_CENTER: JustifyContent = JustifyContent::Center;

pub const JUSTIFY_SPACE_BETWEEN: JustifyContent = JustifyContent::SpaceBetween;

pub const JUSTIFY_SPACE_AROUND: JustifyContent = JustifyContent::SpaceAround;

pub const JUSTIFY_SPACE_EVENLY: JustifyContent = JustifyContent::SpaceEvenly;

pub const ROW: FlexDirection = FlexDirection::Row;

pub const COLUMN: FlexDirection = FlexDirection::Column;

pub const ROW_REVERSE: FlexDirection = FlexDirection::RowReverse;

pub const COLUMN_REVERSE: FlexDirection = FlexDirection::ColumnReverse;

pub const NO_WRAP: FlexWrap = FlexWrap::NoWrap;

pub const WRAP: FlexWrap = FlexWrap::Wrap;

/// A rectangle from four edge lengths.  Beware: the `top` argument lands in
/// the bottom edge and the `bottom` argument in the top edge; callers rely
/// on this crosswise order.
pub fn rect(left: Val, right: Val, top: Val, bottom: Val) -> (r: UiRect)
    ensures
        r == (UiRect { left, right, top: bottom, bottom: top }),
{
    UiRect { left, right, top: bottom, bottom: top }
}

/// A rectangle with the same length on all four edges.
pub fn all(value: Val) -> (r: UiRect)
    ensures
        r == (UiRect { left: value, right: value, top: value, bottom: value }),
{
    UiRect { left: value, right: value, top: value, bottom: value }
}

/// A rectangle with the given length left and right and zero elsewhere.
pub fn horozontal(value: Val) -> (r: UiRect)
    ensures
        r == (UiRect { left: value, right: value, top: Val::Px(0), bottom: Val::Px(0) }),
{
    UiRect { left: value, right: value, top: Val::Px(0), bottom: Val::Px(0) }
}

/// A rectangle with the given length top and bottom and zero elsewhere.
pub fn vertical(value: Val) -> (r: UiRect)
    ensures
        r == (UiRect { left: Val::Px(0), right: Val::Px(0), top: value, bottom: value }),
{
    UiRect { left: Val::Px(0), right: Val::Px(0), top: value, bottom: value }
}

/// A rectangle with the given length on the left edge and zero elsewhere.
pub fn left(value: Val) -> (r: UiRect)
    ensures
        r == (UiRect { left: value, right: Val::Px(0), top: Val::Px(0), bottom: Val::Px(0) }),
{
    UiRect { left: value, right: Val::Px(0), top: Val::Px(0), bottom: Val::Px(0) }
}

/// A rectangle with the given length on the right edge and zero elsewhere.
pub fn right(value: Val) -> (r: UiRect)
    ensures
        r == (UiRect { left: Val::Px(0), right: value, top: Val::Px(0), bottom: Val::Px(0) }),
{
    UiRect { left: Val::Px(0), right: value, top: Val::Px(0), bottom: Val::Px(0) }
}

/// A rectangle with the given length on the top edge and zero elsewhere.
pub fn top(value: Val) -> (r: UiRect)
    ensures
        r == (UiRect { left: Val::Px(0), right: Val::Px(0), top: value, bottom: Val::Px(0) }),
{
    UiRect { left: Val::Px(0), right: Val::Px(0), top: value, bottom: Val::Px(0) }
}

/// A rectangle with the given length on the bottom edge and zero elsewhere.
pub fn bottom(value: Val) -> (r: UiRect)
    ensures
        r == (UiRect { left: Val::Px(0), right: Val::Px(0), top: Val::Px(0), bottom: value }),
{
    UiRect { left: Val::Px(0), right: Val::Px(0), top: Val::Px(0), bottom: value }
}

/// A whole-number percentage length.
pub fn pc(num: u64) -> (v: Val)
    ensures
        v == Val::Pct(num, 1),
{
    Val::Pct(num, 1)
}

/// A whole-pixel length.
pub fn px(num: i64) -> (v: Val)
    ensures
        v == Val::Px(num),
{
    Val::Px(num)
}

/// An automatic length.
pub fn auto() -> (v: Val)
    ensures
        v == Val::Auto,
{
    Val::Auto
}

/// An opaque color from 8-bit sRGB channels.
pub fn rgb8(r: u8, g: u8, b: u8) -> (c: Rgba)
    ensures
        c == (Rgba { red: r, green: g, blue: b, alpha: 255 }),
{
    Rgba { red: r, green: g, blue: b, alpha: 255 }
}

/// A color from 8-bit sRGB channels and alpha.
pub fn rgba8(r: u8, g: u8, b: u8, a: u8) -> (c: Rgba)
    ensures
        c == (Rgba { red: r, green: g, blue: b, alpha: a }),
{
    Rgba { red: r, green: g, blue: b, alpha: a }
}

/// An opaque background color from 8-bit sRGB channels.
pub fn brgb8(r: u8, g: u8, b: u8) -> (c: Rgba)
    ensures
        c == (Rgba { red: r, green: g, blue: b, alpha: 255 }),
{
    Rgba { red: r, green: g, blue: b, alpha: 255 }
}

/// A background color from 8-bit sRGB channels and alpha.
pub fn brgba8(r: u8, g: u8, b: u8, a: u8) -> (c: Rgba)
    ensures
        c == (Rgba { red: r, green: g, blue: b, alpha: a }),
{
    Rgba { red: r, green: g, blue: b, alpha: a }
}

} // verus!
