use bevy_ui_dsl::builder::{Entity, EntityWriter, Extras, UiChildBuilder, Widget};
use bevy_ui_dsl::model::{AssetContext, NodeBundle};

#[test]
fn new_builder_is_empty_and_unscoped() {
    let b = UiChildBuilder::new(AssetContext::new());
    assert_eq!(b.records.len(), 0);
    assert_eq!(b.parent, None);
}

#[test]
fn spawn_allocates_entities_in_order() {
    let mut b = UiChildBuilder::new(AssetContext::new());
    let e0 = b.spawn(Widget::Node(NodeBundle::default()), Extras::Empty).id();
    let e1 = b.spawn(Widget::Node(NodeBundle::default()), Extras::Empty).id();
    let e2 = b.spawn(Widget::Node(NodeBundle::default()), Extras::Empty).id();
    assert_eq!(e0, Entity(0));
    assert_eq!(e1, Entity(1));
    assert_eq!(e2, Entity(2));
    assert_eq!(b.records.len(), 3);
    assert_eq!(b.records[1].entity, Entity(1));
}

#[test]
fn spawn_records_the_scope_as_parent() {
    let mut b = UiChildBuilder::new(AssetContext::new());
    let root = b.spawn(Widget::Node(NodeBundle::default()), Extras::Empty).id();
    assert_eq!(b.records[0].parent, None);

    let prev = b.begin_children(root);
    assert_eq!(prev, None);
    let child = b.spawn(Widget::Node(NodeBundle::default()), Extras::Empty).id();
    assert_eq!(b.records[child.0 as usize].parent, Some(root));

    let prev_inner = b.begin_children(child);
    assert_eq!(prev_inner, Some(root));
    let grandchild = b.spawn(Widget::Node(NodeBundle::default()), Extras::Empty).id();
    assert_eq!(b.records[grandchild.0 as usize].parent, Some(child));
    b.end_children(prev_inner);

    let sibling = b.spawn(Widget::Node(NodeBundle::default()), Extras::Empty).id();
    assert_eq!(b.records[sibling.0 as usize].parent, Some(root));
    b.end_children(prev);
    assert_eq!(b.parent, None);
}

#[test]
fn spawn_under_attaches_to_the_given_slot() {
    let mut b = UiChildBuilder::new(AssetContext::new());
    let root = b.spawn_under(None, Widget::Node(NodeBundle::default()), Extras::Empty).id();
    let child = b
        .spawn_under(Some(root), Widget::Node(NodeBundle::default()), Extras::Marker(9))
        .id();
    assert_eq!(b.records[child.0 as usize].parent, Some(root));
    assert_eq!(b.records[child.0 as usize].extras, Extras::Marker(9));
    assert_eq!(b.parent, None);
}

#[test]
fn insert_replaces_only_the_extras() {
    let mut b = UiChildBuilder::new(AssetContext::new());
    let e = b.spawn(Widget::Node(NodeBundle::default()), Extras::Empty).id();
    b.insert(e, Extras::Marker(42));
    assert_eq!(b.records[0].extras, Extras::Marker(42));
    assert_eq!(b.records[0].entity, e);
    assert_eq!(b.records[0].parent, None);
    assert_eq!(b.records[0].widget, Widget::Node(NodeBundle::default()));
}

#[test]
fn entity_set_fills_an_optional_slot() {
    let mut slot: Option<Entity> = None;
    Entity(7).set(&mut slot);
    assert_eq!(slot, Some(Entity(7)));
    Entity(8).set(&mut slot);
    assert_eq!(slot, Some(Entity(8)));
}

#[test]
fn entity_push_appends_to_a_list() {
    let mut list: Vec<Entity> = Vec::new();
    Entity(1).push(&mut list);
    Entity(2).push(&mut list);
    assert_eq!(list, vec![Entity(1), Entity(2)]);
}

#[test]
fn assets_returns_the_context_carrier() {
    let assets = AssetContext::new();
    let b = UiChildBuilder::new(assets);
    assert_eq!(*b.assets(), assets);
}
