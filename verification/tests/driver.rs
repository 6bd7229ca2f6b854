//! The dirty-tag driver: batch runs, tag clearing, and batch isolation.

use ui_layout::Dim;
use ui_layout::Dim2;
use ui_layout::LayoutWorld;
use ui_layout::Rect;
use ui_layout::Size;
use ui_layout::UIElement;
use ui_layout::Vec2;

#[test]
fn end_to_end_default_element() {
    // One entity, a default element (auto size on both axes, Front
    // alignment, zero padding and position), content measured as zero:
    // after one measure+arrange invocation against a zero container, the
    // measured size is zero and the content area is the zero rectangle.
    let mut world = LayoutWorld::new();
    let id = world.create_entity();
    world.attach_element(id, UIElement::new());
    world.tag_needs_measure(id);
    world.tag_needs_arrange(id);
    world.run();
    let e = world.element(id).unwrap();
    assert_eq!(e.measured_size, Vec2 { x: 0, y: 0 });
    assert_eq!(e.content_area, Rect { x: 0, y: 0, width: 0, height: 0 });
    assert!(!world.is_tagged_needs_measure(id));
    assert!(!world.is_tagged_needs_arrange(id));
}

#[test]
fn tag_batch_isolation() {
    let mut world = LayoutWorld::new();
    let a = world.create_entity();
    let b = world.create_entity();
    world.attach_element(a, UIElement::new());
    let mut elem_b = UIElement::new();
    elem_b.size = Size { width: Some(10), height: Some(10) };
    elem_b.measured_size = Vec2 { x: 42, y: 42 };
    elem_b.content_area = Rect { x: 1, y: 2, width: 3, height: 4 };
    world.attach_element(b, elem_b);
    world.tag_needs_measure(a);
    world.run();
    // A's tag is cleared by the invocation that consumed it.
    assert!(!world.is_tagged_needs_measure(a));
    // B was in neither batch: its cached rectangles are untouched.
    assert_eq!(world.element(b).unwrap(), elem_b);
}

#[test]
fn run_measures_with_each_entitys_own_cached_available_size() {
    let mut world = LayoutWorld::new();
    let id = world.create_entity();
    let mut e = UIElement::new();
    e.size = Size { width: Some(10), height: Some(20) };
    e.padding = Vec2 { x: 1, y: 1 };
    e.last_measure_available_size = Dim2 { x: Dim::Finite(50), y: Dim::Finite(50) };
    world.attach_element(id, e);
    world.tag_needs_measure(id);
    world.run();
    let after = world.element(id).unwrap();
    assert_eq!(after.measured_size, Vec2 { x: 12, y: 22 });
    assert_eq!(after.last_measure_available_size, Dim2 { x: Dim::Finite(50), y: Dim::Finite(50) });
}

#[test]
fn run_arranges_into_each_entitys_own_cached_container() {
    let mut world = LayoutWorld::new();
    let id = world.create_entity();
    let mut e = UIElement::new();
    e.size = Size { width: Some(10), height: Some(10) };
    e.last_measure_container_bounds = Rect { x: 7, y: 8, width: 100, height: 100 };
    world.attach_element(id, e);
    world.tag_needs_measure(id);
    world.tag_needs_arrange(id);
    world.run();
    let after = world.element(id).unwrap();
    // Measured in the same invocation, then arranged into the cached
    // container: both tag sets are drained before the invocation returns.
    assert_eq!(after.visible_bounds, Rect { x: 7, y: 8, width: 10, height: 10 });
    assert_eq!(after.last_measure_container_bounds, Rect { x: 7, y: 8, width: 100, height: 100 });
}

#[test]
fn tagged_entity_without_element_is_skipped() {
    let mut world = LayoutWorld::new();
    let id = world.create_entity();
    world.tag_needs_measure(id);
    world.tag_needs_arrange(id);
    world.run();
    assert_eq!(world.element(id), None);
    assert!(!world.is_tagged_needs_measure(id));
    assert!(!world.is_tagged_needs_arrange(id));
}

#[test]
fn second_invocation_changes_nothing_without_new_tags() {
    let mut world = LayoutWorld::new();
    let id = world.create_entity();
    world.attach_element(id, UIElement::new());
    world.tag_needs_measure(id);
    world.tag_needs_arrange(id);
    world.run();
    let once = world.element(id).unwrap();
    world.run();
    world.run();
    assert_eq!(world.element(id).unwrap(), once);
}

#[test]
fn attach_and_detach_element() {
    let mut world = LayoutWorld::new();
    let id = world.create_entity();
    assert_eq!(world.entity_count(), 1);
    assert_eq!(world.element(id), None);
    world.attach_element(id, UIElement::new());
    assert_eq!(world.element(id), Some(UIElement::new()));
    world.detach_element(id);
    assert_eq!(world.element(id), None);
    assert!(world.check_wf());
}
