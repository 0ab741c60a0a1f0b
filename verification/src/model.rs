//! Plain-value descriptions of widgets.
//!
//! A widget description exists only transiently: it is filled in by style
//! classes and then recorded by the builder.  Every field is a plain value,
//! so contracts can pin descriptions down exactly.  Lengths are either whole
//! pixels or exact percentage fractions; colors are 8-bit sRGB channels;
//! asset references record the path they were loaded from.

use vstd::prelude::*;

verus! {

/// A layout length.
#[derive(Clone, Copy, PartialEq, Eq, Debug, Structural)]
pub enum Val {
    /// The layout engine chooses the length.
    Auto,
    /// A length in whole pixels.
    Px(i64),
    /// A percentage of the parent extent, kept as the exact fraction
    /// `numerator / denominator` of one hundred percent parts.
    Pct(u64, u64),
}

/// Four edge lengths of a box.
#[derive(Clone, Copy, PartialEq, Eq, Debug, Structural)]
pub struct UiRect {
    pub left: Val,
    pub right: Val,
    pub top: Val,
    pub bottom: Val,
}

/// An sRGB color with alpha, 8 bits per channel.
#[derive(Clone, Copy, PartialEq, Eq, Debug, Structural)]
pub struct Rgba {
    pub red: u8,
    pub green: u8,
    pub blue: u8,
    pub alpha: u8,
}

/// Main axis of a flex container.
#[derive(Clone, Copy, PartialEq, Eq, Debug, Structural)]
pub enum FlexDirection {
    Row,
    Column,
    RowReverse,
    ColumnReverse,
}

/// Whether children wrap onto further lines.
#[derive(Clone, Copy, PartialEq, Eq, Debug, Structural)]
pub enum FlexWrap {
    NoWrap,
    Wrap,
}

/// Distribution of children along the main axis.
#[derive(Clone, Copy, PartialEq, Eq, Debug, Structural)]
pub enum JustifyContent {
    FlexStart,
    FlexEnd,
    Center,
    SpaceBetween,
    SpaceAround,
    SpaceEvenly,
}

/// Alignment of children along the cross axis.
#[derive(Clone, Copy, PartialEq, Eq, Debug, Structural)]
pub enum AlignItems {
    FlexStart,
    FlexEnd,
    Center,
    Baseline,
    Stretch,
}

/// The layout box of a widget.
#[derive(Clone, Copy, PartialEq, Eq, Debug, Structural)]
pub struct Style {
    pub width: Val,
    pub height: Val,
    pub flex_direction: FlexDirection,
    pub flex_wrap: FlexWrap,
    pub justify_content: JustifyContent,
    pub align_items: AlignItems,
    pub margin: UiRect,
    pub padding: UiRect,
}

impl UiRect {
    /// A rectangle with all four edges at zero pixels.
    pub open spec fn spec_zero() -> UiRect {
        UiRect { left: Val::Px(0), right: Val::Px(0), top: Val::Px(0), bottom: Val::Px(0) }
    }

    /// A rectangle with all four edges at zero pixels.
    pub fn zero() -> (r: UiRect)
        ensures
            r == UiRect::spec_zero(),
    {
        UiRect { left: Val::Px(0), right: Val::Px(0), top: Val::Px(0), bottom: Val::Px(0) }
    }
}

impl Style {
    /// The engine-defined default layout box.
    pub open spec fn spec_default() -> Style {
        Style {
            width: Val::Auto,
            height: Val::Auto,
            flex_direction: FlexDirection::Row,
            flex_wrap: FlexWrap::NoWrap,
            justify_content: JustifyContent::FlexStart,
            align_items: AlignItems::Stretch,
            margin: UiRect::spec_zero(),
            padding: UiRect::spec_zero(),
        }
    }
}

impl Default for Style {
    fn default() -> (d: Style)
        ensures
            d == Style::spec_default(),
    {
        Style {
            width: Val::Auto,
            height: Val::Auto,
            flex_direction: FlexDirection::Row,
            flex_wrap: FlexWrap::NoWrap,
            justify_content: JustifyContent::FlexStart,
            align_items: AlignItems::Stretch,
            margin: UiRect::zero(),
            padding: UiRect::zero(),
        }
    }
}

impl Rgba {
    /// Fully transparent black: the default background of a widget.
    pub open spec fn spec_transparent() -> Rgba {
        Rgba { red: 0, green: 0, blue: 0, alpha: 0 }
    }

    /// Opaque white: the default text color.
    pub open spec fn spec_white() -> Rgba {
        Rgba { red: 255, green: 255, blue: 255, alpha: 255 }
    }
}

/// A reference to a loadable asset (a font or an image).  The handle records
/// exactly the path it was loaded from; resolving the path to actual data is
/// the host engine's asynchronous business.
#[derive(Clone, PartialEq, Eq, Debug)]
pub struct Handle {
    pub path: String,
}

/// The read-only context carrier: it stands for the host's asset service and
/// is threaded unchanged through every nesting level of a widget tree, so
/// leaf constructors can resolve named resources.
#[derive(Clone, Copy, PartialEq, Eq, Debug, Structural)]
pub struct AssetContext {}

impl AssetContext {
    pub fn new() -> (a: AssetContext)
        ensures
            a == (AssetContext {}),
    {
        AssetContext {}
    }

    /// What requesting a load of `path` yields: a handle recording that path.
    pub open spec fn spec_load(self, path: String) -> Handle {
        Handle { path }
    }

    /// Requests the asset at `path` and returns its handle.  The load is
    /// fire-and-forget: completion is the host engine's business.
    pub fn load(&self, path: String) -> (h: Handle)
        ensures
            h == self.spec_load(path),
    {
        Handle { path }
    }
}

/// Description of a plain container widget.
#[derive(Clone, Copy, PartialEq, Eq, Debug, Structural)]
pub struct NodeBundle {
    pub style: Style,
    pub background_color: Rgba,
}

impl NodeBundle {
    /// The engine-defined default container description.
    pub open spec fn spec_default() -> NodeBundle {
        NodeBundle { style: Style::spec_default(), background_color: Rgba::spec_transparent() }
    }
}

impl Default for NodeBundle {
    fn default() -> (d: NodeBundle)
        ensures
            d == NodeBundle::spec_default(),
    {
        NodeBundle { style: Style::default(), background_color: Rgba { red: 0, green: 0, blue: 0, alpha: 0 } }
    }
}

/// Description of a button widget.
#[derive(Clone, PartialEq, Eq, Debug)]
pub struct ButtonBundle {
    pub style: Style,
    pub background_color: Rgba,
    pub image: Option<Handle>,
}

impl ButtonBundle {
    /// The engine-defined default button description.
    pub open spec fn spec_default() -> ButtonBundle {
        ButtonBundle {
            style: Style::spec_default(),
            background_color: Rgba::spec_white(),
            image: None,
        }
    }
}

impl Default for ButtonBundle {
    fn default() -> (d: ButtonBundle)
        ensures
            d == ButtonBundle::spec_default(),
    {
        ButtonBundle {
            style: Style::default(),
            background_color: Rgba { red: 255, green: 255, blue: 255, alpha: 255 },
            image: None,
        }
    }
}

/// Description of an image widget.
#[derive(Clone, PartialEq, Eq, Debug)]
pub struct ImageBundle {
    pub style: Style,
    pub image: Option<Handle>,
}

impl ImageBundle {
    /// The engine-defined default image description.
    pub open spec fn spec_default() -> ImageBundle {
        ImageBundle { style: Style::spec_default(), image: None }
    }
}

impl Default for ImageBundle {
    fn default() -> (d: ImageBundle)
        ensures
            d == ImageBundle::spec_default(),
    {
        ImageBundle { style: Style::default(), image: None }
    }
}

/// Styling of one run of text.
#[derive(Clone, PartialEq, Eq, Debug)]
pub struct TextStyle {
    pub font: Option<Handle>,
    pub font_size: u32,
    pub color: Rgba,
}

impl TextStyle {
    /// The engine-defined default text styling.
    pub open spec fn spec_default() -> TextStyle {
        TextStyle { font: None, font_size: 24, color: Rgba::spec_white() }
    }
}

impl Default for TextStyle {
    fn default() -> (d: TextStyle)
        ensures
            d == TextStyle::spec_default(),
    {
        TextStyle { font: None, font_size: 24, color: Rgba { red: 255, green: 255, blue: 255, alpha: 255 } }
    }
}

/// One styled run of text.
#[derive(Clone, PartialEq, Eq, Debug)]
pub struct TextSection {
    pub value: String,
    pub style: TextStyle,
}

/// Description of a text widget, apart from its runs of text: the runs are
/// recorded beside it when the widget is spawned.
#[derive(Clone, PartialEq, Eq, Debug)]
pub struct TextBundle {
    pub style: Style,
    pub background_color: Rgba,
}

impl TextBundle {
    /// The engine-defined default text widget description.
    pub open spec fn spec_default() -> TextBundle {
        TextBundle { style: Style::spec_default(), background_color: Rgba::spec_transparent() }
    }
}

impl Default for TextBundle {
    fn default() -> (d: TextBundle)
        ensures
            d == TextBundle::spec_default(),
    {
        TextBundle { style: Style::default(), background_color: Rgba { red: 0, green: 0, blue: 0, alpha: 0 } }
    }
}

} // verus!
