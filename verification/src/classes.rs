//! Style classes: values that edit a widget description in place.
//!
//! A class is applied to a freshly constructed default description before the
//! widget is spawned.  Zero classes (the unit value), one class, or a tuple
//! of up to four classes can be supplied together; a tuple applies its
//! members strictly in left-to-right order, each seeing the cumulative effect
//! of the earlier ones.  An asset-aware class additionally reads the
//! [`AssetContext`] so it can resolve named resources.

use vstd::prelude::*;

use crate::model::{
    AssetContext, ButtonBundle, ImageBundle, NodeBundle, Rgba, Style, TextBundle, TextStyle,
    UiRect, Val,
};
use crate::model::{AlignItems, FlexDirection, FlexWrap, JustifyContent};

verus! {

/// Something that can overwrite parts of a value, typically a widget
/// description.  `spec_apply` is the mathematical meaning of the edit;
/// `apply` performs exactly that edit in place.
pub trait Class<B>: Sized {
    /// The value that applying this class to `b` yields.
    spec fn spec_apply(self, b: B) -> B;

    /// Applies this class to `b` in place.
    fn apply(self, b: &mut B)
        ensures
            *final(b) == self.spec_apply(*old(b)),
    ;
}

/// Like [`Class`], but the edit may also read the [`AssetContext`] to
/// resolve named resources into handles.
pub trait AssetClass<B>: Sized {
    /// The value that applying this class to `b` under `assets` yields.
    spec fn spec_apply(self, assets: AssetContext, b: B) -> B;

    /// Applies this class to `b` in place, resolving resources via `assets`.
    fn apply(self, assets: &AssetContext, b: &mut B)
        ensures
            *final(b) == self.spec_apply(*assets, *old(b)),
    ;
}

/// The empty class: it leaves any value unchanged.
impl<B> Class<B> for () {
    open spec fn spec_apply(self, b: B) -> B {
        b
    }

    fn apply(self, b: &mut B) {
    }
}

impl<B, F1: Class<B>, F2: Class<B>> Class<B> for (F1, F2) {
    open spec fn spec_apply(self, b: B) -> B {
        self.1.spec_apply(self.0.spec_apply(b))
    }

    fn apply(self, b: &mut B) {
        let (f1, f2) = self;
        f1.apply(b);
        f2.apply(b);
    }
}

impl<B, F1: Class<B>, F2: Class<B>, F3: Class<B>> Class<B> for (F1, F2, F3) {
    open spec fn spec_apply(self, b: B) -> B {
        self.2.spec_apply(self.1.spec_apply(self.0.spec_apply(b)))
    }

    fn apply(self, b: &mut B) {
        let (f1, f2, f3) = self;
        f1.apply(b);
        f2.apply(b);
        f3.apply(b);
    }
}

impl<B, F1: Class<B>, F2: Class<B>, F3: Class<B>, F4: Class<B>> Class<B> for (F1, F2, F3, F4) {
    open spec fn spec_apply(self, b: B) -> B {
        self.3.spec_apply(self.2.spec_apply(self.1.spec_apply(self.0.spec_apply(b))))
    }

    fn apply(self, b: &mut B) {
        let (f1, f2, f3, f4) = self;
        f1.apply(b);
        f2.apply(b);
        f3.apply(b);
        f4.apply(b);
    }
}

/// The empty asset-aware class: it leaves any value unchanged.
impl<B> AssetClass<B> for () {
    open spec fn spec_apply(self, assets: AssetContext, b: B) -> B {
        b
    }

    fn apply(self, assets: &AssetContext, b: &mut B) {
    }
}

impl<B, F1: AssetClass<B>, F2: AssetClass<B>> AssetClass<B> for (F1, F2) {
    open spec fn spec_apply(self, assets: AssetContext, b: B) -> B {
        self.1.spec_apply(assets, self.0.spec_apply(assets, b))
    }

    fn apply(self, assets: &AssetContext, b: &mut B) {
        let (f1, f2) = self;
        f1.apply(assets, b);
        f2.apply(assets, b);
    }
}

impl<B, F1: AssetClass<B>, F2: AssetClass<B>, F3: AssetClass<B>> AssetClass<B> for (F1, F2, F3) {
    open spec fn spec_apply(self, assets: AssetContext, b: B) -> B {
        self.2.spec_apply(assets, self.1.spec_apply(assets, self.0.spec_apply(assets, b)))
    }

    fn apply(self, assets: &AssetContext, b: &mut B) {
        let (f1, f2, f3) = self;
        f1.apply(assets, b);
        f2.apply(assets, b);
        f3.apply(assets, b);
    }
}

impl<B, F1: AssetClass<B>, F2: AssetClass<B>, F3: AssetClass<B>, F4: AssetClass<B>> AssetClass<
    B,
> for (F1, F2, F3, F4) {
    open spec fn spec_apply(self, assets: AssetContext, b: B) -> B {
        self.3.spec_apply(
            assets,
            self.2.spec_apply(assets, self.1.spec_apply(assets, self.0.spec_apply(assets, b))),
        )
    }

    fn apply(self, assets: &AssetContext, b: &mut B) {
        let (f1, f2, f3, f4) = self;
        f1.apply(assets, b);
        f2.apply(assets, b);
        f3.apply(assets, b);
        f4.apply(assets, b);
    }
}

/// An edit of one field of a layout box.
#[derive(Clone, Copy, PartialEq, Eq, Debug, Structural)]
pub enum StyleAttr {
    Width(Val),
    Height(Val),
    FlexDirection(FlexDirection),
    FlexWrap(FlexWrap),
    JustifyContent(JustifyContent),
    AlignItems(AlignItems),
    Margin(UiRect),
    Padding(UiRect),
}

impl StyleAttr {
    /// The layout box that this edit turns `s` into.
    pub open spec fn spec_set(self, s: Style) -> Style {
        match self {
            StyleAttr::Width(v) => Style { width: v, ..s },
            StyleAttr::Height(v) => Style { height: v, ..s },
            StyleAttr::FlexDirection(v) => Style { flex_direction: v, ..s },
            StyleAttr::FlexWrap(v) => Style { flex_wrap: v, ..s },
            StyleAttr::JustifyContent(v) => Style { justify_content: v, ..s },
            StyleAttr::AlignItems(v) => Style { align_items: v, ..s },
            StyleAttr::Margin(v) => Style { margin: v, ..s },
            StyleAttr::Padding(v) => Style { padding: v, ..s },
        }
    }

    /// Performs this edit on `s` in place.
    pub fn set(self, s: &mut Style)
        ensures
            *final(s) == self.spec_set(*old(s)),
    {
        match self {
            StyleAttr::Width(v) => s.width = v,
            StyleAttr::Height(v) => s.height = v,
            StyleAttr::FlexDirection(v) => s.flex_direction = v,
            StyleAttr::FlexWrap(v) => s.flex_wrap = v,
            StyleAttr::JustifyContent(v) => s.justify_content = v,
            StyleAttr::AlignItems(v) => s.align_items = v,
            StyleAttr::Margin(v) => s.margin = v,
            StyleAttr::Padding(v) => s.padding = v,
        }
    }
}

/// A class for container widgets.
#[derive(Clone, Copy, PartialEq, Eq, Debug, Structural)]
pub enum NodeClass {
    Layout(StyleAttr),
    BackgroundColor(Rgba),
}

impl Class<NodeBundle> for NodeClass {
    open spec fn spec_apply(self, b: NodeBundle) -> NodeBundle {
        match self {
            NodeClass::Layout(a) => NodeBundle { style: a.spec_set(b.style), ..b },
            NodeClass::BackgroundColor(c) => NodeBundle { background_color: c, ..b },
        }
    }

    fn apply(self, b: &mut NodeBundle) {
        match self {
            NodeClass::Layout(a) => a.set(&mut b.style),
            NodeClass::BackgroundColor(c) => b.background_color = c,
        }
    }
}

/// A whole container description overwrites the target wholesale.
impl Class<NodeBundle> for NodeBundle {
    open spec fn spec_apply(self, b: NodeBundle) -> NodeBundle {
        self
    }

    fn apply(self, b: &mut NodeBundle) {
        *b = self;
    }
}

/// A whole image description overwrites the target wholesale.
impl Class<ImageBundle> for ImageBundle {
    open spec fn spec_apply(self, b: ImageBundle) -> ImageBundle {
        self
    }

    fn apply(self, b: &mut ImageBundle) {
        *b = self;
    }
}

/// A class for button widgets.
#[derive(Clone, PartialEq, Eq, Debug)]
pub enum ButtonClass {
    Layout(StyleAttr),
    BackgroundColor(Rgba),
    /// Loads the image at the given path into the button.
    Image(String),
}

impl AssetClass<ButtonBundle> for ButtonClass {
    open spec fn spec_apply(self, assets: AssetContext, b: ButtonBundle) -> ButtonBundle {
        match self {
            ButtonClass::Layout(a) => ButtonBundle { style: a.spec_set(b.style), ..b },
            ButtonClass::BackgroundColor(c) => ButtonBundle { background_color: c, ..b },
            ButtonClass::Image(path) => ButtonBundle { image: Some(assets.spec_load(path)), ..b },
        }
    }

    fn apply(self, assets: &AssetContext, b: &mut ButtonBundle) {
        match self {
            ButtonClass::Layout(a) => a.set(&mut b.style),
            ButtonClass::BackgroundColor(c) => b.background_color = c,
            ButtonClass::Image(path) => b.image = Some(assets.load(path)),
        }
    }
}

/// A whole button description overwrites the target wholesale.
impl AssetClass<ButtonBundle> for ButtonBundle {
    open spec fn spec_apply(self, assets: AssetContext, b: ButtonBundle) -> ButtonBundle {
        self
    }

    fn apply(self, assets: &AssetContext, b: &mut ButtonBundle) {
        *b = self;
    }
}

/// A class for image widgets.
#[derive(Clone, PartialEq, Eq, Debug)]
pub enum ImageClass {
    Layout(StyleAttr),
    /// Loads the image at the given path into the widget.
    Image(String),
}

impl AssetClass<ImageBundle> for ImageClass {
    open spec fn spec_apply(self, assets: AssetContext, b: ImageBundle) -> ImageBundle {
        match self {
            ImageClass::Layout(a) => ImageBundle { style: a.spec_set(b.style), ..b },
            ImageClass::Image(path) => ImageBundle { image: Some(assets.spec_load(path)), ..b },
        }
    }

    fn apply(self, assets: &AssetContext, b: &mut ImageBundle) {
        match self {
            ImageClass::Layout(a) => a.set(&mut b.style),
            ImageClass::Image(path) => b.image = Some(assets.load(path)),
        }
    }
}

/// A class for text widgets.
#[derive(Clone, Copy, PartialEq, Eq, Debug, Structural)]
pub enum TextClass {
    Layout(StyleAttr),
    BackgroundColor(Rgba),
}

impl AssetClass<TextBundle> for TextClass {
    open spec fn spec_apply(self, assets: AssetContext, b: TextBundle) -> TextBundle {
        match self {
            TextClass::Layout(a) => TextBundle { style: a.spec_set(b.style), ..b },
            TextClass::BackgroundColor(c) => TextBundle { background_color: c, ..b },
        }
    }

    fn apply(self, assets: &AssetContext, b: &mut TextBundle) {
        match self {
            TextClass::Layout(a) => a.set(&mut b.style),
            TextClass::BackgroundColor(c) => b.background_color = c,
        }
    }
}

/// A whole text widget description overwrites the target wholesale.
impl AssetClass<TextBundle> for TextBundle {
    open spec fn spec_apply(self, assets: AssetContext, b: TextBundle) -> TextBundle {
        self
    }

    fn apply(self, assets: &AssetContext, b: &mut TextBundle) {
        *b = self;
    }
}

/// A class for the styling of a run of text.
#[derive(Clone, PartialEq, Eq, Debug)]
pub enum TextStyleClass {
    /// Loads the font at the given path into the styling.
    Font(String),
    FontSize(u32),
    FontColor(Rgba),
}

impl AssetClass<TextStyle> for TextStyleClass {
    open spec fn spec_apply(self, assets: AssetContext, b: TextStyle) -> TextStyle {
        match self {
            TextStyleClass::Font(path) => TextStyle { font: Some(assets.spec_load(path)), ..b },
            TextStyleClass::FontSize(n) => TextStyle { font_size: n, ..b },
            TextStyleClass::FontColor(c) => TextStyle { color: c, ..b },
        }
    }

    fn apply(self, assets: &AssetContext, b: &mut TextStyle) {
        match self {
            TextStyleClass::Font(path) => b.font = Some(assets.load(path)),
            TextStyleClass::FontSize(n) => b.font_size = n,
            TextStyleClass::FontColor(c) => b.color = c,
        }
    }
}

/// A whole text styling overwrites the target wholesale.
impl AssetClass<TextStyle> for TextStyle {
    open spec fn spec_apply(self, assets: AssetContext, b: TextStyle) -> TextStyle {
        self
    }

    fn apply(self, assets: &AssetContext, b: &mut TextStyle) {
        *b = self;
    }
}

/// Law: the empty class leaves any value unchanged.
pub proof fn lemma_empty_class_identity<B>(b: B)
    ensures
        <() as Class<B>>::spec_apply((), b) == b,
{
}

/// Law: the empty asset-aware class leaves any value unchanged, whatever the
/// context carrier is.
pub proof fn lemma_empty_asset_class_identity<B>(assets: AssetContext, b: B)
    ensures
        <() as AssetClass<B>>::spec_apply((), assets, b) == b,
{
}

/// Law: a pair of classes applies its members in left-to-right order, the
/// second seeing the result of the first.
pub proof fn lemma_class_pair_in_order<B, F1: Class<B>, F2: Class<B>>(f1: F1, f2: F2, b: B)
    ensures
        (f1, f2).spec_apply(b) == f2.spec_apply(f1.spec_apply(b)),
{
}

/// Law: a triple of classes applies its members in left-to-right order, each
/// seeing the cumulative effect of the earlier ones.
pub proof fn lemma_class_triple_in_order<B, F1: Class<B>, F2: Class<B>, F3: Class<B>>(
    f1: F1,
    f2: F2,
    f3: F3,
    b: B,
)
    ensures
        (f1, f2, f3).spec_apply(b) == f3.spec_apply(f2.spec_apply(f1.spec_apply(b))),
{
}

/// Law: a quadruple of classes applies its members in left-to-right order,
/// each seeing the cumulative effect of the earlier ones.
pub proof fn lemma_class_quad_in_order<B, F1: Class<B>, F2: Class<B>, F3: Class<B>, F4: Class<B>>(
    f1: F1,
    f2: F2,
    f3: F3,
    f4: F4,
    b: B,
)
    ensures
        (f1, f2, f3, f4).spec_apply(b) == f4.spec_apply(
            f3.spec_apply(f2.spec_apply(f1.spec_apply(b))),
        ),
{
}

/// Law: a pair of asset-aware classes applies its members in left-to-right
/// order under one and the same context carrier.
pub proof fn lemma_asset_class_pair_in_order<B, F1: AssetClass<B>, F2: AssetClass<B>>(
    f1: F1,
    f2: F2,
    assets: AssetContext,
    b: B,
)
    ensures
        (f1, f2).spec_apply(assets, b) == f2.spec_apply(assets, f1.spec_apply(assets, b)),
{
}

/// Law: a triple of asset-aware classes applies its members in
/// left-to-right order under one and the same context carrier.
pub proof fn lemma_asset_class_triple_in_order<
    B,
    F1: AssetClass<B>,
    F2: AssetClass<B>,
    F3: AssetClass<B>,
>(f1: F1, f2: F2, f3: F3, assets: AssetContext, b: B)
    ensures
        (f1, f2, f3).spec_apply(assets, b) == f3.spec_apply(
            assets,
            f2.spec_apply(assets, f1.spec_apply(assets, b)),
        ),
{
}

/// Law: a quadruple of asset-aware classes applies its members in
/// left-to-right order under one and the same context carrier.
pub proof fn lemma_asset_class_quad_in_order<
    B,
    F1: AssetClass<B>,
    F2: AssetClass<B>,
    F3: AssetClass<B>,
    F4: AssetClass<B>,
>(f1: F1, f2: F2, f3: F3, f4: F4, assets: AssetContext, b: B)
    ensures
        (f1, f2, f3, f4).spec_apply(assets, b) == f4.spec_apply(
            assets,
            f3.spec_apply(assets, f2.spec_apply(assets, f1.spec_apply(assets, b))),
        ),
{
}

} // verus!
