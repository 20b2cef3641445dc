use fui::attached::AttachedValues;
use fui::callback::CallbackExecutor;
use fui::common::{Point, Rect, Size};
use fui::control::ControlTree;
use fui::controls::bitmap::Bitmap;
use fui::controls::button::{Button, ButtonProperties};
use fui::controls::horizontal::{Horizontal, HorizontalDefaultStyle};
use fui::style::Metrics;
use fui::controls::text::Text;
use fui::drawing::{Color, Primitive};
use fui::events::{ControlEvent, Gesture};
use fui::observable::Handler;
use fui::property::Property;
use fui::resources::FixedResources;
use fui::routing::{Delivery, EventProcessor};
use fui::style::Style;
use fui::view::{ControlData, ControlStyle, ViewContext, ViewTree};

fn leaf(tree: &mut ControlTree<u8, u8>) -> usize {
    tree.insert(0, 0, AttachedValues::new(), Vec::new()).unwrap()
}

fn parent_of(tree: &mut ControlTree<u8, u8>, children: Vec<usize>) -> usize {
    tree.insert(0, 0, AttachedValues::new(), children).unwrap()
}

fn clean(tree: &mut ControlTree<u8, u8>) {
    for id in 0..tree.len() {
        tree.set_is_dirty(id, false);
    }
}

#[test]
fn new_controls_are_dirty_roots() {
    let mut tree: ControlTree<u8, u8> = ControlTree::new();
    assert_eq!(tree.len(), 0);
    let a = leaf(&mut tree);
    assert_eq!(a, 0);
    assert!(tree.is_dirty(a));
    assert_eq!(tree.get_parent(a), None);
    assert!(tree.get_children(a).is_empty());
    let b = parent_of(&mut tree, vec![a]);
    assert_eq!(b, 1);
    assert_eq!(tree.get_parent(a), Some(b));
    assert_eq!(tree.get_children(b), &vec![a]);
    assert_eq!(tree.get_parent(b), None);
}

#[test]
fn insert_refuses_children_that_cannot_be_adopted() {
    let mut tree: ControlTree<u8, u8> = ControlTree::new();
    let a = leaf(&mut tree);
    let b = leaf(&mut tree);
    assert!(tree.accepts(&vec![a, b]));
    assert!(!tree.accepts(&vec![a, a]));
    assert!(!tree.accepts(&vec![5]));
    assert_eq!(tree.insert(0, 0, AttachedValues::new(), vec![a, a]), None);
    assert_eq!(tree.insert(0, 0, AttachedValues::new(), vec![7]), None);
    assert_eq!(tree.len(), 2);
    let p = parent_of(&mut tree, vec![a]);
    assert!(!tree.accepts(&vec![a]));
    assert_eq!(tree.insert(0, 0, AttachedValues::new(), vec![a]), None);
    assert_eq!(tree.insert(0, 0, AttachedValues::new(), vec![b, p]), Some(3));
    assert_eq!(tree.get_parent(a), Some(p));
    assert_eq!(tree.get_parent(b), Some(3));
    assert_eq!(tree.get_parent(p), Some(3));
}

#[test]
fn dirty_propagates_from_the_deepest_leaf_to_the_root() {
    let mut tree: ControlTree<u8, u8> = ControlTree::new();
    let mut chain = vec![leaf(&mut tree)];
    let mut others = Vec::new();
    for _ in 0..5 {
        let sibling = leaf(&mut tree);
        others.push(sibling);
        let below = *chain.last().unwrap();
        chain.push(parent_of(&mut tree, vec![sibling, below]));
    }
    clean(&mut tree);
    for id in 0..tree.len() {
        assert!(!tree.is_dirty(id));
    }
    tree.set_is_dirty(chain[0], true);
    for id in &chain {
        assert!(tree.is_dirty(*id));
    }
    for id in &others {
        assert!(!tree.is_dirty(*id));
    }
    let root = *chain.last().unwrap();
    assert!(tree.is_dirty(root));
    assert!(tree.is_within(root, chain[0]));
    assert!(tree.is_within(root, others[2]));
    assert!(!tree.is_within(chain[0], root));
    assert!(!tree.is_within(others[0], chain[0]));
}

#[test]
fn dirty_from_the_middle_leaves_descendants_alone() {
    let mut tree: ControlTree<u8, u8> = ControlTree::new();
    let a = leaf(&mut tree);
    let b = parent_of(&mut tree, vec![a]);
    let c = parent_of(&mut tree, vec![b]);
    clean(&mut tree);
    tree.set_is_dirty(b, true);
    assert!(!tree.is_dirty(a));
    assert!(tree.is_dirty(b));
    assert!(tree.is_dirty(c));
}

#[test]
fn clearing_dirty_touches_one_control() {
    let mut tree: ControlTree<u8, u8> = ControlTree::new();
    let a = leaf(&mut tree);
    let b = parent_of(&mut tree, vec![a]);
    tree.set_is_dirty(b, false);
    assert!(tree.is_dirty(a));
    assert!(!tree.is_dirty(b));
    tree.set_is_dirty(a, true);
    assert!(tree.is_dirty(b));
}

#[test]
fn dispatch_marks_dirty_and_queues_callbacks() {
    let mut tree: ControlTree<u8, u8> = ControlTree::new();
    let a = leaf(&mut tree);
    let b = leaf(&mut tree);
    let root = parent_of(&mut tree, vec![a, b]);
    clean(&mut tree);
    let mut executor = CallbackExecutor::new();
    executor.enqueue(9);
    let handlers = vec![
        Handler::Callback { key: 4 },
        Handler::MarkDirty { control: a },
        Handler::MarkDirty { control: 77 },
        Handler::Callback { key: 2 },
    ];
    tree.dispatch(&handlers, &mut executor);
    assert!(tree.is_dirty(a));
    assert!(!tree.is_dirty(b));
    assert!(tree.is_dirty(root));
    assert_eq!(executor.execute_all_in_queue(), vec![9, 4, 2]);
}

fn button_with_text(tree: &mut ViewTree, text: &str) -> (usize, usize) {
    let label = Text::new(String::from(text))
        .to_view(tree, ViewContext { attached_values: AttachedValues::new(), children: vec![] })
        .unwrap();
    let button = Button::control(tree, ButtonProperties { content: label }).unwrap();
    (button, label)
}

fn white() -> Color {
    Color { r: 255, g: 255, b: 255, a: 255 }
}

fn black() -> Color {
    Color { r: 0, g: 0, b: 0, a: 255 }
}

fn line(color: Color, x1: i32, y1: i32, x2: i32, y2: i32) -> Primitive {
    Primitive::Line {
        color,
        thickness: 1,
        start_point: Point::new(x1, y1),
        end_point: Point::new(x2, y2),
    }
}

#[test]
fn button_control_refuses_missing_content() {
    let mut tree = ViewTree::new();
    assert_eq!(Button::control(&mut tree, ButtonProperties { content: 0 }), None);
    let (button, label) = button_with_text(&mut tree, "a");
    assert_eq!(Button::control(&mut tree, ButtonProperties { content: label }), None);
    assert_eq!(tree.get_parent(label), Some(button));
    assert_eq!(tree.len(), 2);
}

#[test]
fn measure_and_arrange_button_with_text() {
    let mut tree = ViewTree::new();
    let resources = FixedResources::new(8, 16);
    let (button, label) = button_with_text(&mut tree, "Increase");
    let desired = tree.get_preferred_size(button, &resources, Size::new(200, 100));
    assert_eq!(desired, Size::new(84, 36));
    assert_eq!(tree.controls[label].desired_size, Size::new(64, 16));
    tree.set_rect(button, Rect::new(0, 0, 200, 100));
    assert_eq!(tree.controls[button].rect, Rect::new(0, 0, 200, 100));
    assert_eq!(tree.controls[button].style.get_rect(), Rect::new(0, 0, 200, 100));
    assert_eq!(tree.controls[label].rect, Rect::new(10, 10, 180, 80));
    assert_eq!(tree.controls[label].style.get_rect(), Rect::new(10, 10, 180, 80));
}

#[test]
fn measure_leaves_other_roots_alone() {
    let mut tree = ViewTree::new();
    let resources = FixedResources::new(8, 16);
    let (_first, first_label) = button_with_text(&mut tree, "abc");
    let (second, second_label) = button_with_text(&mut tree, "abcdef");
    let desired = tree.get_preferred_size(second, &resources, Size::new(200, 100));
    assert_eq!(desired, Size::new(68, 36));
    assert_eq!(tree.controls[second_label].desired_size, Size::new(48, 16));
    assert_eq!(tree.controls[first_label].desired_size, Size::new(0, 0));
    tree.set_rect(second, Rect::new(5, 5, 100, 50));
    assert_eq!(tree.controls[second_label].rect, Rect::new(15, 15, 80, 30));
    assert_eq!(tree.controls[first_label].rect, Rect::new(0, 0, 0, 0));
}

#[test]
fn primitives_of_button_with_text() {
    let mut tree = ViewTree::new();
    let resources = FixedResources::new(8, 16);
    let (button, _label) = button_with_text(&mut tree, "Increase");
    tree.get_preferred_size(button, &resources, Size::new(200, 100));
    tree.set_rect(button, Rect::new(0, 0, 200, 100));
    let primitives = tree.to_primitives(button, &resources);
    assert_eq!(
        primitives,
        vec![
            Primitive::Rectangle {
                color: Color { r: 26, g: 255, b: 0, a: 51 },
                rect: Rect::new(1, 1, 198, 98),
            },
            line(white(), 0, 99, 0, 0),
            line(white(), 0, 0, 199, 0),
            line(black(), 199, 0, 199, 99),
            line(black(), 199, 99, 0, 99),
            Primitive::Text {
                resource_key: String::from("OpenSans-Regular.ttf"),
                color: white(),
                position: Point::new(68, 42),
                size: 20,
                text: String::from("Increase"),
            },
        ]
    );
}

#[test]
fn render_clears_dirty_and_second_pass_emits_nothing() {
    let mut tree = ViewTree::new();
    let resources = FixedResources::new(8, 16);
    let (button, label) = button_with_text(&mut tree, "ok");
    assert!(tree.is_dirty(button));
    let first = tree.render(button, &resources, Size::new(100, 50));
    assert_eq!(first.map(|p| p.len()), Some(6));
    assert!(!tree.is_dirty(button));
    assert_eq!(tree.controls[label].rect, Rect::new(10, 10, 80, 30));
    assert_eq!(tree.render(button, &resources, Size::new(300, 300)), None);
    assert_eq!(tree.controls[label].rect, Rect::new(10, 10, 80, 30));
    tree.set_is_dirty(label, true);
    let third = tree.render(button, &resources, Size::new(300, 300));
    assert!(third.is_some());
    assert_eq!(tree.controls[label].rect, Rect::new(10, 10, 280, 280));
    assert!(!tree.is_dirty(button));
}

#[test]
fn tree_hit_test_finds_the_button_behind_its_text() {
    let mut tree = ViewTree::new();
    let resources = FixedResources::new(8, 16);
    let (button, _label) = button_with_text(&mut tree, "ok");
    tree.get_preferred_size(button, &resources, Size::new(60, 40));
    tree.set_rect(button, Rect::new(10, 10, 50, 20));
    assert_eq!(tree.hit_test(button, Point::new(30, 20)), Some(button));
    assert_eq!(tree.hit_test(button, Point::new(5, 5)), None);
    assert_eq!(tree.hit_test(button, Point::new(61, 20)), None);
    assert_eq!(tree.hit_test(button, Point::new(60, 20)), None);
}

#[test]
fn tree_hit_test_prefers_the_topmost_and_deepest_control() {
    let mut tree = ViewTree::new();
    let resources = FixedResources::new(8, 16);
    let mut bitmap = |tree: &mut ViewTree, key: i32| {
        Bitmap::new(Property::new(key))
            .to_view(tree, ViewContext { attached_values: AttachedValues::new(), children: vec![] })
            .unwrap()
    };
    let below = bitmap(&mut tree, 1);
    let above = bitmap(&mut tree, 2);
    let inner = tree
        .add(
            ControlData::Bitmap(Bitmap::new(Property::new(3))),
            ControlStyle::Bitmap(fui::controls::bitmap::BitmapDefaultStyle::new()),
            AttachedValues::new(),
            vec![below, above],
        )
        .unwrap();
    let (root, _) = {
        let button = Button::control(&mut tree, ButtonProperties { content: inner }).unwrap();
        (button, inner)
    };
    tree.get_preferred_size(root, &resources, Size::new(100, 100));
    tree.set_rect(root, Rect::new(0, 0, 100, 100));
    assert_eq!(tree.controls[inner].rect, Rect::new(10, 10, 80, 80));
    assert_eq!(tree.controls[below].rect, Rect::new(10, 10, 80, 80));
    assert_eq!(tree.hit_test(root, Point::new(50, 50)), Some(above));
    assert_eq!(tree.hit_test(root, Point::new(5, 5)), Some(root));
    assert_eq!(tree.hit_test(root, Point::new(100, 5)), None);
    assert_eq!(tree.hit_test(inner, Point::new(50, 50)), Some(above));
    assert_eq!(tree.hit_test(below, Point::new(50, 50)), Some(below));
}

fn hover_events(deliveries: &Vec<Delivery>) -> Vec<Delivery> {
    deliveries
        .iter()
        .filter(|d| matches!(d.event, ControlEvent::HoverEnter | ControlEvent::HoverLeave))
        .copied()
        .collect()
}

#[test]
fn hover_sequence_sends_one_enter_and_one_leave() {
    let mut processor = EventProcessor::new();
    let inside = Gesture::TapMove { position: Point::new(30, 20) };
    let outside = Gesture::TapMove { position: Point::new(5, 5) };
    let moved = Delivery { control: 4, event: ControlEvent::TapMove { position: Point::new(30, 20) } };
    let mut hovers = Vec::new();
    assert_eq!(processor.route(outside, None), vec![]);
    let first = processor.route(inside, Some(4));
    assert_eq!(first, vec![Delivery { control: 4, event: ControlEvent::HoverEnter }, moved]);
    hovers.extend(hover_events(&first));
    for _ in 0..3 {
        let again = processor.route(inside, Some(4));
        assert_eq!(again, vec![moved]);
        hovers.extend(hover_events(&again));
    }
    let last = processor.route(outside, None);
    assert_eq!(last, vec![Delivery { control: 4, event: ControlEvent::HoverLeave }]);
    hovers.extend(hover_events(&last));
    assert_eq!(processor.route(outside, None), vec![]);
    assert_eq!(processor.hover_control, None);
    assert_eq!(
        hovers,
        vec![
            Delivery { control: 4, event: ControlEvent::HoverEnter },
            Delivery { control: 4, event: ControlEvent::HoverLeave },
        ]
    );
}

#[test]
fn hover_moves_from_one_control_to_the_next() {
    let mut processor = EventProcessor::new();
    let at = Gesture::TapMove { position: Point::new(1, 1) };
    processor.route(at, Some(1));
    assert_eq!(
        processor.route(at, Some(2)),
        vec![
            Delivery { control: 1, event: ControlEvent::HoverLeave },
            Delivery { control: 2, event: ControlEvent::HoverEnter },
            Delivery { control: 2, event: ControlEvent::TapMove { position: Point::new(1, 1) } },
        ]
    );
    assert_eq!(processor.hover_control, Some(2));
}

#[test]
fn taps_go_to_the_control_that_holds_the_pointer() {
    let mut processor = EventProcessor::new();
    let p = Point::new(3, 3);
    let q = Point::new(90, 90);
    assert_eq!(processor.route(Gesture::TapUp { position: p }, Some(1)), vec![]);
    assert_eq!(processor.route(Gesture::TapDown { position: p }, None), vec![]);
    assert_eq!(processor.captured_control, None);
    assert_eq!(
        processor.route(Gesture::TapDown { position: p }, Some(1)),
        vec![Delivery { control: 1, event: ControlEvent::TapDown { position: p } }]
    );
    assert_eq!(processor.captured_control, Some(1));
    assert_eq!(
        processor.route(Gesture::TapMove { position: q }, Some(2)),
        vec![Delivery { control: 1, event: ControlEvent::TapMove { position: q } }]
    );
    assert_eq!(processor.hover_control, None);
    assert_eq!(
        processor.route(Gesture::TapUp { position: q }, Some(2)),
        vec![Delivery { control: 1, event: ControlEvent::TapUp { position: q } }]
    );
    assert_eq!(processor.captured_control, None);
}

#[test]
fn deliver_skips_controls_that_the_tree_does_not_hold() {
    let mut tree = ViewTree::new();
    let (button, _label) = button_with_text(&mut tree, "ok");
    let mut executor = CallbackExecutor::new();
    tree.render(button, &FixedResources::new(8, 16), Size::new(100, 50));
    tree.deliver(
        &vec![
            Delivery { control: 55, event: ControlEvent::HoverEnter },
            Delivery { control: button, event: ControlEvent::HoverEnter },
        ],
        &mut executor,
    );
    assert!(tree.is_dirty(button));
    match &tree.controls[button].data {
        ControlData::Button(b) => assert!(b.state.is_hover.get()),
        _ => panic!("a button was added"),
    }
}

#[test]
fn row_asks_for_the_sum_of_widths_and_the_largest_height() {
    let row = Horizontal::new();
    let mut style = HorizontalDefaultStyle::new();
    let bound = Size::new(1000, 1000);
    assert_eq!(style.measure(&row, &vec![], Metrics::Nothing, bound), Size::new(0, 0));
    assert_eq!(
        style.measure(
            &row,
            &vec![Size::new(10, 5), Size::new(20, 8), Size::new(30, 2)],
            Metrics::Nothing,
            bound
        ),
        Size::new(60, 8)
    );
    assert_eq!(
        style.measure(
            &row,
            &vec![Size::new(i32::MAX, 1), Size::new(i32::MAX, 1)],
            Metrics::Nothing,
            bound
        ),
        Size::new(i32::MAX, 1)
    );
    assert_eq!(style.measure(&row, &vec![Size::new(1, -5)], Metrics::Nothing, bound), Size::new(1, 0));
}

#[test]
fn row_places_children_side_by_side() {
    let row = Horizontal::new();
    let mut style = HorizontalDefaultStyle::new();
    let placed = style.set_rect(
        &row,
        &vec![Size::new(10, 5), Size::new(20, 8), Size::new(30, 2)],
        Rect::new(5, 7, 100, 40),
    );
    assert_eq!(
        placed,
        vec![Rect::new(5, 7, 10, 40), Rect::new(15, 7, 20, 40), Rect::new(35, 7, 30, 40)]
    );
    assert_eq!(style.get_rect(), Rect::new(5, 7, 100, 40));
    assert_eq!(style.set_rect(&row, &vec![], Rect::new(1, 1, 1, 1)), vec![]);
}

fn row_of_two_buttons(tree: &mut ViewTree) -> (usize, usize, usize) {
    let (left, _) = button_with_text(tree, "ab");
    let (right, _) = button_with_text(tree, "abcd");
    let row = Horizontal::new()
        .to_view(
            tree,
            ViewContext { attached_values: AttachedValues::new(), children: vec![left, right] },
        )
        .unwrap();
    (row, left, right)
}

#[test]
fn row_in_a_tree_lays_out_and_routes_to_its_children() {
    let mut tree = ViewTree::new();
    let resources = FixedResources::new(8, 16);
    let (row, left, right) = row_of_two_buttons(&mut tree);
    assert_eq!(tree.get_preferred_size(row, &resources, Size::new(300, 100)), Size::new(88, 36));
    tree.set_rect(row, Rect::new(0, 0, 300, 100));
    assert_eq!(tree.controls[left].rect, Rect::new(0, 0, 36, 100));
    assert_eq!(tree.controls[right].rect, Rect::new(36, 0, 52, 100));
    assert_eq!(tree.hit_test(row, Point::new(10, 10)), Some(left));
    assert_eq!(tree.hit_test(row, Point::new(36, 10)), Some(right));
    assert_eq!(tree.hit_test(row, Point::new(87, 99)), Some(right));
    assert_eq!(tree.hit_test(row, Point::new(88, 10)), None);
    let primitives = tree.to_primitives(row, &resources);
    assert_eq!(primitives.len(), 12);
    assert_eq!(
        primitives[0],
        Primitive::Rectangle {
            color: Color { r: 26, g: 255, b: 0, a: 51 },
            rect: Rect::new(1, 1, 34, 98),
        }
    );
    assert_eq!(
        primitives[6],
        Primitive::Rectangle {
            color: Color { r: 26, g: 255, b: 0, a: 51 },
            rect: Rect::new(37, 1, 50, 98),
        }
    );
    let mut executor = CallbackExecutor::new();
    assert!(!tree.handle_event(row, ControlEvent::HoverEnter, &mut executor));
}

#[test]
fn dirty_child_of_a_row_makes_the_row_dirty() {
    let mut tree = ViewTree::new();
    let resources = FixedResources::new(8, 16);
    let (row, left, right) = row_of_two_buttons(&mut tree);
    assert!(tree.render(row, &resources, Size::new(300, 100)).is_some());
    assert!(!tree.is_dirty(row));
    let mut executor = CallbackExecutor::new();
    tree.handle_event(right, ControlEvent::HoverEnter, &mut executor);
    assert!(tree.is_dirty(right));
    assert!(tree.is_dirty(row));
    assert!(tree.render(row, &resources, Size::new(300, 100)).is_some());
    assert!(tree.render(row, &resources, Size::new(300, 100)).is_none());
    let _ = left;
}
