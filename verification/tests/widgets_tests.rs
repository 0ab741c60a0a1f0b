use bevy_ui_dsl::builder::{Entity, Extras, UiChildBuilder, Widget};
use bevy_ui_dsl::classes::{NodeClass, StyleAttr, TextStyleClass};
use bevy_ui_dsl::model::{
    AlignItems, AssetContext, ButtonBundle, FlexWrap, ImageBundle, JustifyContent, NodeBundle,
    Rgba, TextBundle, TextStyle, Val,
};
use bevy_ui_dsl::widgets::{
    blank, button, buttoni, grid, image, image_pane, node, nodei, root, rooti, simple_button,
    text, text_button, texti,
};

fn builder() -> UiChildBuilder {
    UiChildBuilder::new(AssetContext::new())
}

#[test]
fn root_spawns_a_parentless_styled_container() {
    let mut b = builder();
    let e = root(NodeClass::Layout(StyleAttr::Width(Val::Px(100))), &mut b);
    assert_eq!(e, Entity(0));
    assert_eq!(b.records.len(), 1);
    assert_eq!(b.records[0].parent, None);
    let mut expected = NodeBundle::default();
    expected.style.width = Val::Px(100);
    assert_eq!(b.records[0].widget, Widget::Node(expected));
    assert_eq!(b.records[0].extras, Extras::Empty);
}

#[test]
fn rooti_attaches_the_extras() {
    let mut b = builder();
    rooti((), Extras::Marker(3), &mut b);
    assert_eq!(b.records[0].extras, Extras::Marker(3));
}

#[test]
fn node_spawns_under_the_current_scope() {
    let mut b = builder();
    let r = root((), &mut b);
    let prev = b.begin_children(r);
    let n = node((), &mut b);
    b.end_children(prev);
    assert_eq!(n, Entity(1));
    assert_eq!(b.records[1].parent, Some(r));
    assert_eq!(b.records[1].widget, Widget::Node(NodeBundle::default()));
}

#[test]
fn nodei_keeps_nesting_parents_straight() {
    let mut b = builder();
    let r = root((), &mut b);
    let prev = b.begin_children(r);
    let n1 = nodei((), Extras::Marker(1), &mut b);
    let inner = b.begin_children(n1);
    let n2 = node((), &mut b);
    b.end_children(inner);
    let n3 = node((), &mut b);
    b.end_children(prev);
    assert_eq!(b.records[n1.0 as usize].parent, Some(r));
    assert_eq!(b.records[n2.0 as usize].parent, Some(n1));
    assert_eq!(b.records[n3.0 as usize].parent, Some(r));
}

#[test]
fn blank_spawns_under_the_given_parent_and_returns_the_new_handle() {
    let mut b = builder();
    let r = root((), &mut b);
    let e = blank(r, (), &mut b);
    assert_eq!(e, Entity(1));
    assert_eq!(b.records.len(), 2);
    assert_eq!(b.records[1].entity, e);
    assert_eq!(b.records[1].parent, Some(r));
    assert_eq!(b.records[1].widget, Widget::Node(NodeBundle::default()));
}

#[test]
fn text_hello_has_one_run_with_default_styling() {
    let mut b = builder();
    let r = root((), &mut b);
    let prev = b.begin_children(r);
    let e = text(String::from("Hello"), (), (), &mut b);
    b.end_children(prev);
    assert_eq!(e, Entity(1));
    match &b.records[1].widget {
        Widget::Text { bundle, sections } => {
            assert_eq!(*bundle, TextBundle::default());
            assert_eq!(sections.len(), 1);
            assert_eq!(sections[0].value, "Hello");
            assert_eq!(sections[0].style, TextStyle::default());
        }
        other => panic!("expected a text widget, got {:?}", other),
    }
}

#[test]
fn text_style_class_lands_in_the_single_run() {
    let mut b = builder();
    let r = root((), &mut b);
    let prev = b.begin_children(r);
    text(
        String::from("Hello"),
        (),
        TextStyleClass::FontSize(30),
        &mut b,
    );
    b.end_children(prev);
    match &b.records[1].widget {
        Widget::Text { sections, .. } => {
            let mut expected = TextStyle::default();
            expected.font_size = 30;
            assert_eq!(sections[0].style, expected);
        }
        other => panic!("expected a text widget, got {:?}", other),
    }
}

#[test]
fn texti_attaches_the_extras() {
    let mut b = builder();
    texti(String::from("x"), (), (), Extras::Marker(5), &mut b);
    assert_eq!(b.records[0].extras, Extras::Marker(5));
}

#[test]
fn buttons_spawn_with_the_default_description() {
    let mut b = builder();
    let r = root((), &mut b);
    let prev = b.begin_children(r);
    let e1 = button((), &mut b);
    let e2 = simple_button((), &mut b);
    b.end_children(prev);
    assert_eq!(b.records[e1.0 as usize].widget, Widget::Button(ButtonBundle::default()));
    assert_eq!(b.records[e2.0 as usize].widget, Widget::Button(ButtonBundle::default()));
    assert_eq!(b.records[e2.0 as usize].parent, Some(r));
}

#[test]
fn buttoni_attaches_the_extras() {
    let mut b = builder();
    let e = buttoni((), Extras::Marker(11), &mut b);
    assert_eq!(b.records[e.0 as usize].extras, Extras::Marker(11));
}

#[test]
fn text_button_spawns_a_text_child_of_the_button() {
    let mut b = builder();
    let r = root((), &mut b);
    let prev = b.begin_children(r);
    let e = text_button(String::from("Go"), (), TextStyleClass::FontSize(18), &mut b);
    b.end_children(prev);
    assert_eq!(b.records.len(), 3);
    assert_eq!(b.records[e.0 as usize].parent, Some(r));
    let child = &b.records[2];
    assert_eq!(child.parent, Some(e));
    match &child.widget {
        Widget::Text { bundle, sections } => {
            assert_eq!(*bundle, TextBundle::default());
            assert_eq!(sections.len(), 1);
            assert_eq!(sections[0].value, "Go");
            assert_eq!(sections[0].style.font_size, 18);
        }
        other => panic!("expected a text widget, got {:?}", other),
    }
}

#[test]
fn images_spawn_with_the_default_description() {
    let mut b = builder();
    let e1 = image((), &mut b);
    let e2 = image_pane((), &mut b);
    assert_eq!(b.records[e1.0 as usize].widget, Widget::Image(ImageBundle::default()));
    assert_eq!(b.records[e2.0 as usize].widget, Widget::Image(ImageBundle::default()));
}

#[test]
fn grid_two_by_three_spawns_six_cells_row_major() {
    let mut b = builder();
    let r = root((), &mut b);
    let prev = b.begin_children(r);
    let (container, cells) = grid(2, 3, (), &mut b);
    b.end_children(prev);

    assert_eq!(b.records[container.0 as usize].parent, Some(r));
    match &b.records[container.0 as usize].widget {
        Widget::Node(bundle) => assert_eq!(bundle.style.flex_wrap, FlexWrap::Wrap),
        other => panic!("expected a container widget, got {:?}", other),
    }

    assert_eq!(cells.len(), 6);
    let coords: Vec<(usize, usize)> = cells.iter().map(|c| (c.row, c.col)).collect();
    assert_eq!(coords, vec![(0, 0), (0, 1), (0, 2), (1, 0), (1, 1), (1, 2)]);

    for (k, cell) in cells.iter().enumerate() {
        let record = &b.records[cell.entity.0 as usize];
        assert_eq!(record.parent, Some(container));
        match &record.widget {
            Widget::Node(bundle) => {
                assert_eq!(bundle.style.width, Val::Pct(100, 3));
                assert_eq!(bundle.style.height, Val::Pct(100, 2));
                assert_eq!(bundle.style.justify_content, JustifyContent::Center);
                assert_eq!(bundle.style.align_items, AlignItems::Center);
            }
            other => panic!("expected a cell widget, got {:?}", other),
        }
        assert_eq!(cell.entity, Entity(container.0 + 1 + k as u64));
    }
}

#[test]
fn grid_one_by_one_spawns_a_single_full_size_cell() {
    let mut b = builder();
    let (container, cells) = grid(1, 1, (), &mut b);
    assert_eq!(cells.len(), 1);
    assert_eq!(cells[0].row, 0);
    assert_eq!(cells[0].col, 0);
    let record = &b.records[cells[0].entity.0 as usize];
    assert_eq!(record.parent, Some(container));
    match &record.widget {
        Widget::Node(bundle) => {
            assert_eq!(bundle.style.width, Val::Pct(100, 1));
            assert_eq!(bundle.style.height, Val::Pct(100, 1));
        }
        other => panic!("expected a cell widget, got {:?}", other),
    }
}

#[test]
fn grid_class_applies_before_wrap_is_forced() {
    let mut b = builder();
    let (container, _cells) = grid(
        2,
        2,
        NodeClass::Layout(StyleAttr::FlexWrap(FlexWrap::NoWrap)),
        &mut b,
    );
    match &b.records[container.0 as usize].widget {
        Widget::Node(bundle) => assert_eq!(bundle.style.flex_wrap, FlexWrap::Wrap),
        other => panic!("expected a container widget, got {:?}", other),
    }
}

#[test]
fn every_recorded_parent_was_spawned_earlier() {
    let mut b = builder();
    let r = root((), &mut b);
    let prev = b.begin_children(r);
    let n = node((), &mut b);
    let inner = b.begin_children(n);
    text(String::from("deep"), (), (), &mut b);
    grid(2, 2, (), &mut b);
    b.end_children(inner);
    b.end_children(prev);

    for (i, record) in b.records.iter().enumerate() {
        assert_eq!(record.entity, Entity(i as u64));
        if let Some(p) = record.parent {
            assert!((p.0 as usize) < i);
        }
    }
}
