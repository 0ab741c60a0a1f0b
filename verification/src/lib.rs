//! Declarative construction of UI widget trees.
//!
//! A widget tree is described by nested constructor calls instead of manual
//! entity-spawn and parent-child-attachment calls against a retained-mode UI
//! engine.  The library keeps a verified model of that construction: widget
//! descriptions are plain values, styling callbacks are closed [`Class`]
//! values applied in call order, and every spawn is recorded together with
//! the parent entity it attaches to.  A host adapter can replay the recorded
//! tree against the engine's own entity and asset services.

pub mod builder;
pub mod class_helpers;
pub mod classes;
pub mod model;
pub mod widgets;

pub use builder::{Entity, EntityWriter, Extras, SpawnRecord, UiChildBuilder, UiEntityCommands,
    Widget};
pub use classes::{AssetClass, Class};
pub use widgets::{blank, blanki, button, buttoni, grid, gridi, image, image_pane, image_panei,
    imagei, node, nodei, root, rooti, simple_button, simple_buttoni, text, text_button,
    text_buttoni, texti, GridCell};
