//! Widget constructors.
//!
//! Every constructor follows the same template: build the default
//! description for its widget kind, apply the caller's class to it, and
//! record the spawn under the builder's current scope (or under an explicit
//! parent).  Children of the new widget are spawned between
//! [`UiChildBuilder::begin_children`] and [`UiChildBuilder::end_children`]
//! on its entity.  Each constructor returns the new entity so the caller can
//! retain it, commonly through [`crate::builder::EntityWriter`].

use vstd::prelude::*;

use crate::builder::{Entity, Extras, SpawnRecord, UiChildBuilder, Widget};
use crate::classes::{AssetClass, Class};
use crate::model::{
    AlignItems, ButtonBundle, FlexWrap, ImageBundle, JustifyContent, NodeBundle, Rgba, Style,
    TextBundle, TextSection, TextStyle, Val,
};

verus! {

/// Holds when `new_b` is exactly `old_b` with one spawn of `widget`
/// appended: the fresh entity is `e`, it attached to `parent`, and nothing
/// else of the builder changed.
pub open spec fn spawned_one(
    old_b: UiChildBuilder,
    new_b: UiChildBuilder,
    e: Entity,
    parent: Option<Entity>,
    widget: Widget,
    extras: Extras,
) -> bool {
    &&& new_b.wf()
    &&& e == Entity(old_b.records@.len() as u64)
    &&& new_b.records@ == old_b.records@.push(SpawnRecord { entity: e, parent, widget, extras })
    &&& new_b.parent == old_b.parent
    &&& new_b.assets == old_b.assets
}

/// Holds when `new_b` is exactly `old_b` with one spawn of a text widget
/// appended, whose description is `bundle` and whose single run of text is
/// `section`.
pub open spec fn spawned_text(
    old_b: UiChildBuilder,
    new_b: UiChildBuilder,
    e: Entity,
    parent: Option<Entity>,
    bundle: TextBundle,
    section: TextSection,
    extras: Extras,
) -> bool {
    &&& new_b.wf()
    &&& e == Entity(old_b.records@.len() as u64)
    &&& new_b.records@.len() == old_b.records@.len() + 1
    &&& forall|i: int| 0 <= i < old_b.records@.len() ==> new_b.records@[i] == old_b.records@[i]
    &&& ({
        let rec = new_b.records@[old_b.records@.len() as int];
        &&& rec.entity == e
        &&& rec.parent == parent
        &&& rec.extras == extras
        &&& rec.widget matches Widget::Text { bundle: b, sections } && b == bundle
            && sections@.len() == 1 && sections@[0] == section
    })
    &&& new_b.parent == old_b.parent
    &&& new_b.assets == old_b.assets
}

/// Spawns a container as a root of the entity graph, with no parent.
pub fn root<C: Class<NodeBundle>>(class: C, commands: &mut UiChildBuilder) -> (e: Entity)
    requires
        old(commands).wf(),
    ensures
        spawned_one(
            *old(commands),
            *final(commands),
            e,
            None,
            Widget::Node(class.spec_apply(NodeBundle::spec_default())),
            Extras::Empty,
        ),
{
    rooti(class, Extras::Empty, commands)
}

/// Spawns a container as a root of the entity graph, with no parent and
/// with extras attached.
pub fn rooti<C: Class<NodeBundle>>(class: C, extras: Extras, commands: &mut UiChildBuilder) -> (e:
    Entity)
    requires
        old(commands).wf(),
    ensures
        spawned_one(
            *old(commands),
            *final(commands),
            e,
            None,
            Widget::Node(class.spec_apply(NodeBundle::spec_default())),
            extras,
        ),
{
    let mut bundle = NodeBundle::default();
    class.apply(&mut bundle);
    commands.spawn_under(None, Widget::Node(bundle), extras).id()
}

/// Spawns a container under an already spawned `parent` entity, for
/// embedding further widgets after the initial tree is built.  Returns the
/// fresh container's handle.
pub fn blank<C: Class<NodeBundle>>(
    parent: Entity,
    class: C,
    commands: &mut UiChildBuilder,
) -> (e: Entity)
    requires
        old(commands).wf(),
        parent.0 < old(commands).records@.len(),
    ensures
        spawned_one(
            *old(commands),
            *final(commands),
            e,
            Some(parent),
            Widget::Node(class.spec_apply(NodeBundle::spec_default())),
            Extras::Empty,
        ),
{
    blanki(parent, class, Extras::Empty, commands)
}

/// Spawns a container under an already spawned `parent` entity, with extras
/// attached.  Returns the fresh container's handle.
pub fn blanki<C: Class<NodeBundle>>(
    parent: Entity,
    class: C,
    extras: Extras,
    commands: &mut UiChildBuilder,
) -> (e: Entity)
    requires
        old(commands).wf(),
        parent.0 < old(commands).records@.len(),
    ensures
        spawned_one(
            *old(commands),
            *final(commands),
            e,
            Some(parent),
            Widget::Node(class.spec_apply(NodeBundle::spec_default())),
            extras,
        ),
{
    let mut bundle = NodeBundle::default();
    class.apply(&mut bundle);
    commands.spawn_under(Some(parent), Widget::Node(bundle), extras).id()
}

/// Spawns a container under the builder's current scope.
pub fn node<C: Class<NodeBundle>>(class: C, parent: &mut UiChildBuilder) -> (e: Entity)
    requires
        old(parent).wf(),
    ensures
        spawned_one(
            *old(parent),
            *final(parent),
            e,
            old(parent).parent,
            Widget::Node(class.spec_apply(NodeBundle::spec_default())),
            Extras::Empty,
        ),
{
    nodei(class, Extras::Empty, parent)
}

/// Spawns a container under the builder's current scope, with extras
/// attached.
pub fn nodei<C: Class<NodeBundle>>(class: C, extras: Extras, parent: &mut UiChildBuilder) -> (e:
    Entity)
    requires
        old(parent).wf(),
    ensures
        spawned_one(
            *old(parent),
            *final(parent),
            e,
            old(parent).parent,
            Widget::Node(class.spec_apply(NodeBundle::spec_default())),
            extras,
        ),
{
    let mut bundle = NodeBundle::default();
    class.apply(&mut bundle);
    parent.spawn(Widget::Node(bundle), extras).id()
}

/// Spawns a text widget with a single run holding `text`, styled by the
/// asset-aware `text_class` applied to the default text styling.
pub fn text<TC: AssetClass<TextBundle>, SC: AssetClass<TextStyle>>(
    txt: String,
    class: TC,
    text_class: SC,
    parent: &mut UiChildBuilder,
) -> (e: Entity)
    requires
        old(parent).wf(),
    ensures
        spawned_text(
            *old(parent),
            *final(parent),
            e,
            old(parent).parent,
            class.spec_apply(old(parent).assets, TextBundle::spec_default()),
            TextSection {
                value: txt,
                style: text_class.spec_apply(old(parent).assets, TextStyle::spec_default()),
            },
            Extras::Empty,
        ),
{
    texti(txt, class, text_class, Extras::Empty, parent)
}

/// Spawns a text widget with a single run holding `text`, with extras
/// attached.
pub fn texti<TC: AssetClass<TextBundle>, SC: AssetClass<TextStyle>>(
    txt: String,
    class: TC,
    text_class: SC,
    extras: Extras,
    parent: &mut UiChildBuilder,
) -> (e: Entity)
    requires
        old(parent).wf(),
    ensures
        spawned_text(
            *old(parent),
            *final(parent),
            e,
            old(parent).parent,
            class.spec_apply(old(parent).assets, TextBundle::spec_default()),
            TextSection {
                value: txt,
                style: text_class.spec_apply(old(parent).assets, TextStyle::spec_default()),
            },
            extras,
        ),
{
    let mut bundle = TextBundle::default();
    class.apply(&parent.assets, &mut bundle);
    let mut style = TextStyle::default();
    text_class.apply(&parent.assets, &mut style);
    let mut sections: Vec<TextSection> = Vec::new();
    sections.push(TextSection { value: txt, style });
    parent.spawn(Widget::Text { bundle, sections }, extras).id()
}

/// Spawns a button under the builder's current scope.
pub fn button<C: AssetClass<ButtonBundle>>(class: C, parent: &mut UiChildBuilder) -> (e: Entity)
    requires
        old(parent).wf(),
    ensures
        spawned_one(
            *old(parent),
            *final(parent),
            e,
            old(parent).parent,
            Widget::Button(class.spec_apply(old(parent).assets, ButtonBundle::spec_default())),
            Extras::Empty,
        ),
{
    buttoni(class, Extras::Empty, parent)
}

/// Spawns a button under the builder's current scope, with extras attached.
pub fn buttoni<C: AssetClass<ButtonBundle>>(
    class: C,
    extras: Extras,
    parent: &mut UiChildBuilder,
) -> (e: Entity)
    requires
        old(parent).wf(),
    ensures
        spawned_one(
            *old(parent),
            *final(parent),
            e,
            old(parent).parent,
            Widget::Button(class.spec_apply(old(parent).assets, ButtonBundle::spec_default())),
            extras,
        ),
{
    let mut bundle = ButtonBundle::default();
    class.apply(&parent.assets, &mut bundle);
    parent.spawn(Widget::Button(bundle), extras).id()
}

/// Spawns a button that is not meant to get children of its own.
pub fn simple_button<C: AssetClass<ButtonBundle>>(class: C, parent: &mut UiChildBuilder) -> (e:
    Entity)
    requires
        old(parent).wf(),
    ensures
        spawned_one(
            *old(parent),
            *final(parent),
            e,
            old(parent).parent,
            Widget::Button(class.spec_apply(old(parent).assets, ButtonBundle::spec_default())),
            Extras::Empty,
        ),
{
    simple_buttoni(class, Extras::Empty, parent)
}

/// Spawns a button that is not meant to get children of its own, with
/// extras attached.
pub fn simple_buttoni<C: AssetClass<ButtonBundle>>(
    class: C,
    extras: Extras,
    parent: &mut UiChildBuilder,
) -> (e: Entity)
    requires
        old(parent).wf(),
    ensures
        spawned_one(
            *old(parent),
            *final(parent),
            e,
            old(parent).parent,
            Widget::Button(class.spec_apply(old(parent).assets, ButtonBundle::spec_default())),
            extras,
        ),
{
    let mut bundle = ButtonBundle::default();
    class.apply(&parent.assets, &mut bundle);
    parent.spawn(Widget::Button(bundle), extras).id()
}

/// Holds when `new_b` extends `old_b` by a button spawned under `old_b`'s
/// scope with extras, followed by one text child of that button whose single
/// run is `section`: the shape a text button leaves behind.
pub open spec fn spawned_text_button(
    old_b: UiChildBuilder,
    new_b: UiChildBuilder,
    e: Entity,
    bundle: ButtonBundle,
    section: TextSection,
    extras: Extras,
) -> bool {
    &&& new_b.wf()
    &&& e == Entity(old_b.records@.len() as u64)
    &&& new_b.records@.len() == old_b.records@.len() + 2
    &&& forall|i: int| 0 <= i < old_b.records@.len() ==> new_b.records@[i] == old_b.records@[i]
    &&& new_b.records@[old_b.records@.len() as int] == SpawnRecord {
        entity: e,
        parent: old_b.parent,
        widget: Widget::Button(bundle),
        extras,
    }
    &&& ({
        let rec = new_b.records@[old_b.records@.len() as int + 1];
        &&& rec.entity == Entity((old_b.records@.len() + 1) as u64)
        &&& rec.parent == Some(e)
        &&& rec.extras == Extras::Empty
        &&& rec.widget matches Widget::Text { bundle: tb, sections } && tb
            == TextBundle::spec_default() && sections@.len() == 1 && sections@[0] == section
    })
    &&& new_b.parent == old_b.parent
    &&& new_b.assets == old_b.assets
}

/// Spawns a button with a single text widget as its only child.
pub fn text_button<C: AssetClass<ButtonBundle>, S: AssetClass<TextStyle>>(
    txt: String,
    class: C,
    text_style: S,
    parent: &mut UiChildBuilder,
) -> (e: Entity)
    requires
        old(parent).wf(),
    ensures
        spawned_text_button(
            *old(parent),
            *final(parent),
            e,
            class.spec_apply(old(parent).assets, ButtonBundle::spec_default()),
            TextSection {
                value: txt,
                style: text_style.spec_apply(old(parent).assets, TextStyle::spec_default()),
            },
            Extras::Empty,
        ),
{
    text_buttoni(txt, class, text_style, Extras::Empty, parent)
}

/// Spawns a button with a single text widget as its only child, with extras
/// attached to the button.
pub fn text_buttoni<C: AssetClass<ButtonBundle>, S: AssetClass<TextStyle>>(
    txt: String,
    class: C,
    text_style: S,
    extras: Extras,
    parent: &mut UiChildBuilder,
) -> (e: Entity)
    requires
        old(parent).wf(),
    ensures
        spawned_text_button(
            *old(parent),
            *final(parent),
            e,
            class.spec_apply(old(parent).assets, ButtonBundle::spec_default()),
            TextSection {
                value: txt,
                style: text_style.spec_apply(old(parent).assets, TextStyle::spec_default()),
            },
            extras,
        ),
{
    let e = buttoni(class, extras, parent);
    let prev = parent.begin_children(e);
    text(txt, (), text_style, parent);
    parent.end_children(prev);
    e
}

/// Spawns an image widget under the builder's current scope.
pub fn image<C: AssetClass<ImageBundle>>(class: C, parent: &mut UiChildBuilder) -> (e: Entity)
    requires
        old(parent).wf(),
    ensures
        spawned_one(
            *old(parent),
            *final(parent),
            e,
            old(parent).parent,
            Widget::Image(class.spec_apply(old(parent).assets, ImageBundle::spec_default())),
            Extras::Empty,
        ),
{
    imagei(class, Extras::Empty, parent)
}

/// Spawns an image widget under the builder's current scope, with extras
/// attached.
pub fn imagei<C: AssetClass<ImageBundle>>(
    class: C,
    extras: Extras,
    parent: &mut UiChildBuilder,
) -> (e: Entity)
    requires
        old(parent).wf(),
    ensures
        spawned_one(
            *old(parent),
            *final(parent),
            e,
            old(parent).parent,
            Widget::Image(class.spec_apply(old(parent).assets, ImageBundle::spec_default())),
            extras,
        ),
{
    let mut bundle = ImageBundle::default();
    class.apply(&parent.assets, &mut bundle);
    parent.spawn(Widget::Image(bundle), extras).id()
}

/// Spawns an image widget that is meant to get children of its own.
pub fn image_pane<C: AssetClass<ImageBundle>>(class: C, parent: &mut UiChildBuilder) -> (e: Entity)
    requires
        old(parent).wf(),
    ensures
        spawned_one(
            *old(parent),
            *final(parent),
            e,
            old(parent).parent,
            Widget::Image(class.spec_apply(old(parent).assets, ImageBundle::spec_default())),
            Extras::Empty,
        ),
{
    image_panei(class, Extras::Empty, parent)
}

/// Spawns an image widget that is meant to get children of its own, with
/// extras attached.
pub fn image_panei<C: AssetClass<ImageBundle>>(
    class: C,
    extras: Extras,
    parent: &mut UiChildBuilder,
) -> (e: Entity)
    requires
        old(parent).wf(),
    ensures
        spawned_one(
            *old(parent),
            *final(parent),
            e,
            old(parent).parent,
            Widget::Image(class.spec_apply(old(parent).assets, ImageBundle::spec_default())),
            extras,
        ),
{
    let mut bundle = ImageBundle::default();
    class.apply(&parent.assets, &mut bundle);
    parent.spawn(Widget::Image(bundle), extras).id()
}

/// One cell of a grid, with its row-major coordinate.
#[derive(Clone, Copy, PartialEq, Eq, Debug, Structural)]
pub struct GridCell {
    pub entity: Entity,
    pub row: usize,
    pub col: usize,
}

/// The container description of a grid: the class applied to the default,
/// with wrap layout forced on afterwards.
pub open spec fn spec_grid_container(b: NodeBundle) -> NodeBundle {
    NodeBundle { style: Style { flex_wrap: FlexWrap::Wrap, ..b.style }, ..b }
}

/// The shared template every grid cell is constructed from: centered
/// content, width and height the exact fractions `100 / columns` and
/// `100 / rows` percent.
pub open spec fn spec_grid_cell(rows: usize, columns: usize) -> NodeBundle {
    NodeBundle {
        style: Style {
            width: Val::Pct(100, columns as u64),
            height: Val::Pct(100, rows as u64),
            justify_content: JustifyContent::Center,
            align_items: AlignItems::Center,
            ..Style::spec_default()
        },
        ..NodeBundle::spec_default()
    }
}

fn grid_cell_bundle(rows: usize, columns: usize) -> (b: NodeBundle)
    ensures
        b == spec_grid_cell(rows, columns),
{
    let mut style = Style::default();
    style.width = Val::Pct(100, columns as u64);
    style.height = Val::Pct(100, rows as u64);
    style.justify_content = JustifyContent::Center;
    style.align_items = AlignItems::Center;
    NodeBundle { style, background_color: Rgba { red: 0, green: 0, blue: 0, alpha: 0 } }
}

/// Holds when `new_b` extends `old_b` by one grid: a container `e` spawned
/// under `old_b`'s scope with wrap layout forced on, followed by exactly
/// `rows * columns` cell children of `e` built from the shared template.
/// `cells` lists the cell entities with their coordinates: the `k`-th cell
/// carries `(k / columns, k % columns)`, so the coordinates cover the full
/// cross product of `[0, rows)` and `[0, columns)` exactly once, in
/// row-major order.
pub open spec fn spawned_grid(
    old_b: UiChildBuilder,
    new_b: UiChildBuilder,
    e: Entity,
    rows: usize,
    columns: usize,
    container: NodeBundle,
    cells: Seq<GridCell>,
    extras: Extras,
) -> bool {
    &&& new_b.wf()
    &&& e == Entity(old_b.records@.len() as u64)
    &&& new_b.records@.len() == old_b.records@.len() + 1 + rows * columns
    &&& forall|i: int| 0 <= i < old_b.records@.len() ==> new_b.records@[i] == old_b.records@[i]
    &&& new_b.records@[old_b.records@.len() as int] == SpawnRecord {
        entity: e,
        parent: old_b.parent,
        widget: Widget::Node(spec_grid_container(container)),
        extras,
    }
    &&& forall|j: int|
        old_b.records@.len() < j < new_b.records@.len() ==> (#[trigger] new_b.records@[j])
            == SpawnRecord {
            entity: Entity(j as u64),
            parent: Some(e),
            widget: Widget::Node(spec_grid_cell(rows, columns)),
            extras: Extras::Empty,
        }
    &&& cells.len() == rows * columns
    &&& forall|k: int|
        0 <= k < cells.len() ==> (#[trigger] cells[k]) == GridCell {
            entity: Entity((old_b.records@.len() + 1 + k) as u64),
            row: (k / columns as int) as usize,
            col: (k % columns as int) as usize,
        }
    &&& new_b.parent == old_b.parent
    &&& new_b.assets == old_b.assets
}

/// Spawns a container composed of `rows * columns` equally sized cells in
/// the form of a grid.  Returns the container entity and the cells with
/// their `(row, column)` coordinates, in row-major order, so the caller can
/// populate each cell in turn.
pub fn grid<C: Class<NodeBundle>>(
    rows: usize,
    columns: usize,
    class: C,
    parent: &mut UiChildBuilder,
) -> (r: (Entity, Vec<GridCell>))
    requires
        old(parent).wf(),
        0 < rows,
        0 < columns,
    ensures
        spawned_grid(
            *old(parent),
            *final(parent),
            r.0,
            rows,
            columns,
            class.spec_apply(NodeBundle::spec_default()),
            r.1@,
            Extras::Empty,
        ),
{
    gridi(rows, columns, class, Extras::Empty, parent)
}

/// Spawns a container composed of `rows * columns` equally sized cells in
/// the form of a grid, with extras attached to the container.  Returns the
/// container entity and the cells with their `(row, column)` coordinates,
/// in row-major order, so the caller can populate each cell in turn.
pub fn gridi<C: Class<NodeBundle>>(
    rows: usize,
    columns: usize,
    class: C,
    extras: Extras,
    parent: &mut UiChildBuilder,
) -> (r: (Entity, Vec<GridCell>))
    requires
        old(parent).wf(),
        0 < rows,
        0 < columns,
    ensures
        spawned_grid(
            *old(parent),
            *final(parent),
            r.0,
            rows,
            columns,
            class.spec_apply(NodeBundle::spec_default()),
            r.1@,
            extras,
        ),
{
    let ghost b0 = *parent;

    // Spawns the container, with wrap layout forced on.
    let mut container_bundle = NodeBundle::default();
    class.apply(&mut container_bundle);
    container_bundle.style.flex_wrap = FlexWrap::Wrap;
    let container = parent.spawn(Widget::Node(container_bundle), extras).id();

    // Spawns the cells as children of the container, row-major.
    let prev = parent.begin_children(container);
    let mut cells: Vec<GridCell> = Vec::new();
    let mut row: usize = 0;
    while row < rows
        invariant
            0 < rows,
            0 < columns,
            row <= rows,
            b0.wf(),
            parent.wf(),
            parent.parent == Some(container),
            parent.assets == b0.assets,
            container == Entity(b0.records@.len() as u64),
            parent.records@.len() == b0.records@.len() + 1 + row * columns,
            cells@.len() == row * columns,
            forall|i: int| 0 <= i < b0.records@.len() ==> parent.records@[i] == b0.records@[i],
            parent.records@[b0.records@.len() as int] == (SpawnRecord {
                entity: container,
                parent: b0.parent,
                widget: Widget::Node(spec_grid_container(class.spec_apply(
                    NodeBundle::spec_default(),
                ))),
                extras,
            }),
            forall|j: int|
                b0.records@.len() < j < parent.records@.len() ==> (#[trigger] parent.records@[j])
                    == (SpawnRecord {
                    entity: Entity(j as u64),
                    parent: Some(container),
                    widget: Widget::Node(spec_grid_cell(rows, columns)),
                    extras: Extras::Empty,
                }),
            forall|k: int|
                0 <= k < cells@.len() ==> (#[trigger] cells@[k]) == (GridCell {
                    entity: Entity((b0.records@.len() + 1 + k) as u64),
                    row: (k / columns as int) as usize,
                    col: (k % columns as int) as usize,
                }),
        decreases rows - row,
    {
        let mut col: usize = 0;
        while col < columns
            invariant
                0 < rows,
                0 < columns,
                row < rows,
                col <= columns,
                b0.wf(),
                parent.wf(),
                parent.parent == Some(container),
                parent.assets == b0.assets,
                container == Entity(b0.records@.len() as u64),
                parent.records@.len() == b0.records@.len() + 1 + row * columns + col,
                cells@.len() == row * columns + col,
                forall|i: int| 0 <= i < b0.records@.len() ==> parent.records@[i] == b0.records@[i],
                parent.records@[b0.records@.len() as int] == (SpawnRecord {
                    entity: container,
                    parent: b0.parent,
                    widget: Widget::Node(spec_grid_container(class.spec_apply(
                        NodeBundle::spec_default(),
                    ))),
                    extras,
                }),
                forall|j: int|
                    b0.records@.len() < j < parent.records@.len() ==> (
                    #[trigger] parent.records@[j]) == (SpawnRecord {
                        entity: Entity(j as u64),
                        parent: Some(container),
                        widget: Widget::Node(spec_grid_cell(rows, columns)),
                        extras: Extras::Empty,
                    }),
                forall|k: int|
                    0 <= k < cells@.len() ==> (#[trigger] cells@[k]) == (GridCell {
                        entity: Entity((b0.records@.len() + 1 + k) as u64),
                        row: (k / columns as int) as usize,
                        col: (k % columns as int) as usize,
                    }),
            decreases columns - col,
        {
            let cell = grid_cell_bundle(rows, columns);
            let e = parent.spawn(Widget::Node(cell), Extras::Empty).id();
            cells.push(GridCell { entity: e, row, col });
            proof {
                let k = row * columns + col;
                vstd::arithmetic::div_mod::lemma_fundamental_div_mod_converse(
                    k as int,
                    columns as int,
                    row as int,
                    col as int,
                );
            }
            col = col + 1;
        }
        proof {
            assert((row + 1) * columns == row * columns + columns) by (nonlinear_arith);
        }
        row = row + 1;
    }
    parent.end_children(prev);
    (container, cells)
}

/// Law: each coordinate of the cross product of `[0, rows)` and
/// `[0, columns)` names exactly one cell of a grid — its row-major index
/// lies in range and decodes back to exactly that coordinate.
pub proof fn lemma_grid_row_major_index(rows: usize, columns: usize, r: int, c: int)
    requires
        0 < rows,
        0 < columns,
        0 <= r < rows,
        0 <= c < columns,
    ensures
        0 <= r * (columns as int) + c < rows * columns,
        (r * (columns as int) + c) / (columns as int) == r,
        (r * (columns as int) + c) % (columns as int) == c,
{
    assert(0 <= r * (columns as int) + c < rows * columns) by (nonlinear_arith)
        requires
            0 <= r < rows,
            0 <= c < columns,
            0 < columns,
    ;
    vstd::arithmetic::div_mod::lemma_fundamental_div_mod_converse(
        r * (columns as int) + c,
        columns as int,
        r,
        c,
    );
}

/// Law: each cell index of a grid decodes to a coordinate inside the cross
/// product of `[0, rows)` and `[0, columns)`, and the decoding is faithful:
/// the index is recovered from its coordinate.  Together with
/// [`lemma_grid_row_major_index`] the cells of a grid cover the cross
/// product exactly once.
pub proof fn lemma_grid_row_major_coordinate(rows: usize, columns: usize, k: int)
    requires
        0 < rows,
        0 < columns,
        0 <= k < rows * columns,
    ensures
        0 <= k / (columns as int) < rows,
        0 <= k % (columns as int) < columns,
        k == (k / (columns as int)) * (columns as int) + k % (columns as int),
{
    vstd::arithmetic::div_mod::lemma_fundamental_div_mod(k, columns as int);
    vstd::arithmetic::div_mod::lemma_mod_bound(k, columns as int);
    vstd::arithmetic::div_mod::lemma_div_pos_is_pos(k, columns as int);
    vstd::arithmetic::mul::lemma_mul_is_commutative(columns as int, k / (columns as int));
    assert(k / (columns as int) < rows) by (nonlinear_arith)
        requires
            0 < columns,
            0 <= k % (columns as int),
            k == (columns as int) * (k / (columns as int)) + k % (columns as int),
            k < rows * columns,
    ;
}

} // verus!
