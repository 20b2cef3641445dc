use fui::attached::AttachedValues;
use fui::common::{HitTestResult, Orientation, Point, Rect, Size};
use fui::control::ControlTree;
use fui::controls::bitmap::{Bitmap, BitmapDefaultStyle};
use fui::controls::button::{Button, ButtonDefaultStyle, ButtonProperties};
use fui::controls::scroll_bar::{ScrollBar, ScrollBarDefaultStyle};
use fui::controls::tab_control::{TabButtonViewModel, TabControl};
use fui::controls::text::{Text, TextDefaultStyle, TextProperties};
use fui::drawing::{Color, Primitive};
use fui::events::{
    ControlEvent, ElementState, Gesture, GestureDetector, GestureDetectorCore, InputEvent,
    MouseButton,
};
use fui::observable::Handler;
use fui::property::{Property, TextProperty};
use fui::resources::FixedResources;
use fui::services::{WindowLayers, WindowService};
use fui::style::{resolve, Metrics, PropertyDirtyExtension, ResourceQuery, Resources, Style};

fn dirty(control: usize) -> Handler {
    Handler::MarkDirty { control }
}

fn watched_button(control: usize) -> (Button, ButtonDefaultStyle) {
    let mut button = Button::new(ButtonProperties { content: 0 });
    let mut style = ButtonDefaultStyle::new();
    style.setup_dirty_watching(&mut button, control);
    style.set_rect(&button, &vec![Size::new(0, 0)], Rect::new(10, 10, 50, 20));
    (button, style)
}

#[test]
fn button_hit_test_containment() {
    let (button, style) = watched_button(1);
    assert_eq!(style.get_rect(), Rect::new(10, 10, 50, 20));
    assert_eq!(style.hit_test(&button, Point::new(30, 20)), HitTestResult::Current);
    assert_eq!(style.hit_test(&button, Point::new(5, 5)), HitTestResult::Nothing);
    assert_eq!(style.hit_test(&button, Point::new(61, 20)), HitTestResult::Nothing);
}

#[test]
fn button_click_inside_emits_clicked() {
    let (mut button, mut style) = watched_button(3);
    button.events.clicked.set(8);
    let inside = Point::new(30, 20);
    assert_eq!(style.handle_event(&mut button, ControlEvent::TapDown { position: inside }), (true, vec![dirty(3)]));
    assert!(button.state.is_pressed.get());
    assert_eq!(
        style.handle_event(&mut button, ControlEvent::TapUp { position: inside }),
        (true, vec![Handler::Callback { key: 8 }, dirty(3)])
    );
    assert!(!button.state.is_pressed.get());
}

#[test]
fn button_release_outside_emits_nothing() {
    let (mut button, mut style) = watched_button(3);
    button.events.clicked.set(8);
    style.handle_event(&mut button, ControlEvent::TapDown { position: Point::new(30, 20) });
    let outside = Point::new(5, 5);
    assert_eq!(
        style.handle_event(&mut button, ControlEvent::TapMove { position: outside }),
        (true, vec![dirty(3)])
    );
    assert!(!button.state.is_pressed.get());
    assert_eq!(
        style.handle_event(&mut button, ControlEvent::TapUp { position: outside }),
        (true, vec![])
    );
    assert!(!button.state.is_pressed.get());
}

#[test]
fn button_move_back_inside_does_not_press_again() {
    let (mut button, mut style) = watched_button(3);
    button.events.clicked.set(8);
    style.handle_event(&mut button, ControlEvent::TapDown { position: Point::new(30, 20) });
    style.handle_event(&mut button, ControlEvent::TapMove { position: Point::new(0, 0) });
    assert!(!button.state.is_pressed.get());
    assert_eq!(
        style.handle_event(&mut button, ControlEvent::TapMove { position: Point::new(11, 11) }),
        (true, vec![])
    );
    assert!(!button.state.is_pressed.get());
    assert_eq!(
        style.handle_event(&mut button, ControlEvent::TapUp { position: Point::new(11, 11) }),
        (true, vec![])
    );
}

#[test]
fn idle_button_is_not_pressed_by_a_move_inside() {
    let (mut button, mut style) = watched_button(3);
    assert_eq!(
        style.handle_event(&mut button, ControlEvent::TapMove { position: Point::new(30, 20) }),
        (true, vec![])
    );
    assert!(!button.state.is_pressed.get());
}

#[test]
fn idle_button_does_not_click_on_tap_up_inside() {
    let (mut button, mut style) = watched_button(3);
    button.events.clicked.set(8);
    assert_eq!(
        style.handle_event(&mut button, ControlEvent::TapUp { position: Point::new(30, 20) }),
        (true, vec![])
    );
    assert!(!button.state.is_pressed.get());
}

#[test]
fn tap_down_outside_does_not_press() {
    let (mut button, mut style) = watched_button(3);
    assert_eq!(
        style.handle_event(&mut button, ControlEvent::TapDown { position: Point::new(5, 5) }),
        (true, vec![])
    );
    assert!(!button.state.is_pressed.get());
    style.handle_event(&mut button, ControlEvent::TapDown { position: Point::new(30, 20) });
    assert_eq!(
        style.handle_event(&mut button, ControlEvent::TapDown { position: Point::new(5, 5) }),
        (true, vec![])
    );
    assert!(button.state.is_pressed.get());
}

#[test]
fn pressed_button_stays_pressed_while_the_tap_moves_inside() {
    let (mut button, mut style) = watched_button(3);
    style.handle_event(&mut button, ControlEvent::TapDown { position: Point::new(30, 20) });
    assert_eq!(
        style.handle_event(&mut button, ControlEvent::TapMove { position: Point::new(12, 11) }),
        (true, vec![])
    );
    assert!(button.state.is_pressed.get());
}

#[test]
fn button_click_without_callback() {
    let (mut button, mut style) = watched_button(3);
    let inside = Point::new(30, 20);
    style.handle_event(&mut button, ControlEvent::TapDown { position: inside });
    assert_eq!(
        style.handle_event(&mut button, ControlEvent::TapUp { position: inside }),
        (true, vec![dirty(3)])
    );
}

#[test]
fn button_hover_is_independent_of_press() {
    let (mut button, mut style) = watched_button(2);
    assert_eq!(style.handle_event(&mut button, ControlEvent::HoverEnter), (true, vec![dirty(2)]));
    assert_eq!(style.handle_event(&mut button, ControlEvent::HoverEnter), (true, vec![]));
    assert!(button.state.is_hover.get());
    assert!(!button.state.is_pressed.get());
    style.handle_event(&mut button, ControlEvent::TapDown { position: Point::new(30, 20) });
    assert!(button.state.is_hover.get());
    assert_eq!(style.handle_event(&mut button, ControlEvent::HoverLeave), (true, vec![dirty(2)]));
    assert!(!button.state.is_hover.get());
    assert!(button.state.is_pressed.get());
}

#[test]
fn button_measures_content_plus_padding() {
    let (button, mut style) = watched_button(0);
    assert_eq!(
        style.measure(&button, &vec![Size::new(64, 16)], Metrics::Nothing, Size::new(500, 500)),
        Size::new(84, 36)
    );
    assert_eq!(style.measure(&button, &vec![], Metrics::Nothing, Size::new(500, 500)), Size::new(20, 20));
    assert_eq!(
        style.set_rect(&button, &vec![Size::new(1, 1), Size::new(2, 2)], Rect::new(0, 0, 100, 40)),
        vec![Rect::new(10, 10, 80, 20), Rect::new(10, 10, 80, 20)]
    );
    assert!(matches!(style.resource_query(&button), ResourceQuery::Nothing));
}

#[test]
fn button_pressed_moves_content_and_inverts_border() {
    let (mut button, mut style) = watched_button(0);
    style.set_rect(&button, &vec![], Rect::new(0, 0, 10, 10));
    style.handle_event(&mut button, ControlEvent::TapDown { position: Point::new(1, 1) });
    let child = vec![Primitive::Image { resource_key: 1, rect: Rect::new(2, 2, 3, 3) }];
    let primitives = style.to_primitives(&button, child, Metrics::Nothing);
    assert_eq!(primitives.len(), 6);
    assert_eq!(
        primitives[0],
        Primitive::Rectangle { color: Color { r: 26, g: 128, b: 0, a: 51 }, rect: Rect::new(1, 1, 8, 8) }
    );
    assert_eq!(
        primitives[1],
        Primitive::Line {
            color: Color { r: 0, g: 0, b: 0, a: 255 },
            thickness: 1,
            start_point: Point::new(0, 9),
            end_point: Point::new(0, 0),
        }
    );
    assert_eq!(primitives[5], Primitive::Image { resource_key: 1, rect: Rect::new(3, 3, 3, 3) });
}

#[test]
fn text_measures_and_centres() {
    let resources = FixedResources::new(8, 16);
    let control = Text::new(String::from("Hello"));
    assert_eq!(control.style.font_name, "OpenSans-Regular.ttf");
    assert_eq!(control.style.font_size, 20);
    let mut style = control.style;
    let properties = control.properties;
    let query = style.resource_query(&properties);
    match &query {
        ResourceQuery::FontDimensions { font, size, text } => {
            assert_eq!(font, "OpenSans-Regular.ttf");
            assert_eq!(*size, 20);
            assert_eq!(text, "Hello");
        }
        _ => panic!("a text asks for the extent of its text"),
    }
    let metrics = resolve(&resources, &query);
    assert_eq!(metrics, Metrics::FontDimensions { width: 40, height: 16 });
    assert_eq!(style.measure(&properties, &vec![], metrics, Size::new(9, 9)), Size::new(40, 16));
    style.set_rect(&properties, &vec![], Rect::new(10, 20, 100, 50));
    assert_eq!(
        style.to_primitives(&properties, vec![], metrics),
        vec![Primitive::Text {
            resource_key: String::from("OpenSans-Regular.ttf"),
            color: Color { r: 255, g: 255, b: 255, a: 255 },
            position: Point::new(40, 37),
            size: 20,
            text: String::from("Hello"),
        }]
    );
}

#[test]
fn text_too_wide_for_its_rect_starts_left_of_it() {
    let mut style = TextDefaultStyle::new(String::from("f"), 12);
    let properties = TextProperties { text: String::from("abcdefghij") };
    style.set_rect(&properties, &vec![], Rect::new(0, 0, 11, 10));
    let metrics = Metrics::FontDimensions { width: 20, height: 15 };
    match &style.to_primitives(&properties, vec![], metrics)[0] {
        Primitive::Text { position, size, .. } => {
            assert_eq!(*position, Point::new(-4, -2));
            assert_eq!(*size, 12);
        }
        _ => panic!("a text draws text"),
    }
}

#[test]
fn text_is_not_hit_and_consumes_events() {
    let mut style = TextDefaultStyle::new(String::from("f"), 12);
    let mut properties = TextProperties { text: String::from("x") };
    style.set_rect(&properties, &vec![], Rect::new(0, 0, 100, 100));
    assert_eq!(style.hit_test(&properties, Point::new(5, 5)), HitTestResult::Nothing);
    assert_eq!(style.handle_event(&mut properties, ControlEvent::HoverEnter), (true, vec![]));
    assert_eq!(style.measure(&properties, &vec![], Metrics::Nothing, Size::new(1, 1)), Size::new(0, 0));
}

#[test]
fn bitmap_takes_the_size_of_its_texture() {
    let mut resources = FixedResources::new(8, 16);
    resources.add_texture(7, 64, 32);
    resources.add_texture(7, 1, 1);
    let mut bitmap = Bitmap::new(Property::new(7));
    let mut style = BitmapDefaultStyle::new();
    style.setup_dirty_watching(&mut bitmap, 5);
    let metrics = resolve(&resources, &style.resource_query(&bitmap));
    assert_eq!(metrics, Metrics::TextureSize { size: Some((64, 32)) });
    assert_eq!(style.measure(&bitmap, &vec![], metrics, Size::new(9, 9)), Size::new(64, 32));
    assert_eq!(style.get_rect(), Rect::new(0, 0, 64, 32));
    assert_eq!(
        style.to_primitives(&bitmap, vec![], metrics),
        vec![Primitive::Image { resource_key: 7, rect: Rect::new(0, 0, 64, 32) }]
    );
    assert_eq!(bitmap.texture_id.set(8), vec![dirty(5)]);
    let metrics = resolve(&resources, &style.resource_query(&bitmap));
    assert_eq!(metrics, Metrics::TextureSize { size: None });
    assert_eq!(style.measure(&bitmap, &vec![], metrics, Size::new(9, 9)), Size::new(0, 0));
    assert_eq!(style.to_primitives(&bitmap, vec![], metrics), vec![]);
    assert_eq!(style.handle_event(&mut bitmap, ControlEvent::HoverEnter), (false, vec![]));
    style.set_rect(&bitmap, &vec![], Rect::new(1, 1, 5, 5));
    assert_eq!(style.hit_test(&bitmap, Point::new(5, 5)), HitTestResult::Current);
    assert_eq!(style.hit_test(&bitmap, Point::new(6, 5)), HitTestResult::Nothing);
}

#[test]
fn fixed_resources_metrics() {
    let mut resources = FixedResources::new(8, 16);
    assert_eq!(resources.get_font_dimensions("any", 10, ""), (0, 16));
    assert_eq!(resources.get_font_dimensions("any", 10, "abc"), (24, 16));
    assert_eq!(resources.get_font_dimensions("any", 10, "äöü"), (24, 16));
    let long = "x".repeat(9000);
    assert_eq!(resources.get_font_dimensions("any", 10, &long), (65535, 16));
    let edge = "x".repeat(8191);
    assert_eq!(resources.get_font_dimensions("any", 10, &edge), (65528, 16));
    assert_eq!(FixedResources::new(0, 3).get_font_dimensions("any", 10, "abc"), (0, 3));
    resources.add_text(String::from("any"), 10, String::from("abc"), 31, 12);
    resources.add_text(String::from("any"), 10, String::from("abc"), 1, 1);
    assert_eq!(resources.get_font_dimensions("any", 10, "abc"), (31, 12));
    assert_eq!(resources.get_font_dimensions("any", 11, "abc"), (24, 16));
    assert_eq!(resources.get_font_dimensions("other", 10, "abc"), (24, 16));
    assert_eq!(resources.get_font_dimensions("any", 10, "abd"), (24, 16));
    assert_eq!(resources.get_texture_size(1), None);
    resources.add_texture(1, 2, 3);
    resources.add_texture(2, 4, 5);
    assert_eq!(resources.get_texture_size(2), Some((4, 5)));
    assert_eq!(resources.get_texture_size(1), Some((2, 3)));
    assert_eq!(resources.get_texture_size(3), None);
}

fn scroll_bar(min: i32, max: i32, value: i32, viewport: i32) -> (ScrollBar, ScrollBarDefaultStyle) {
    let mut bar = ScrollBar::new();
    bar.orientation = Orientation::Horizontal;
    bar.min_value.set(min);
    bar.max_value.set(max);
    bar.value.set(value);
    bar.viewport_size.set(viewport);
    let mut style = ScrollBarDefaultStyle::new();
    style.setup_dirty_watching(&mut bar, 9);
    (bar, style)
}

#[test]
fn scroll_bar_defaults_and_measure() {
    let mut bar = ScrollBar::new();
    assert_eq!(bar.orientation, Orientation::Vertical);
    assert_eq!(
        (bar.min_value.get(), bar.max_value.get(), bar.value.get(), bar.viewport_size.get()),
        (0, 1, 0, 0)
    );
    let mut style = ScrollBarDefaultStyle::new();
    assert_eq!(style.measure(&bar, &vec![], Metrics::Nothing, Size::new(9, 9)), Size::new(20, 150));
    assert_eq!(style.get_rect(), Rect::new(0, 0, 20, 150));
    bar.orientation = Orientation::Horizontal;
    assert_eq!(style.measure(&bar, &vec![], Metrics::Nothing, Size::new(9, 9)), Size::new(150, 20));
}

#[test]
fn scroll_bar_thumb_size_and_position() {
    let (bar, mut style) = scroll_bar(0, 100, 50, 100);
    style.set_rect(&bar, &vec![], Rect::new(0, 0, 200, 20));
    assert_eq!(style.thumb_size_px, 100);
    assert_eq!(style.thumb_pos_px, 50);
    let (bar, mut style) = scroll_bar(0, 100, 100, 5);
    style.set_rect(&bar, &vec![], Rect::new(0, 0, 200, 20));
    assert_eq!(style.thumb_size_px, 20);
    assert_eq!(style.thumb_pos_px, 180);
    let (bar, mut style) = scroll_bar(5, 5, 5, 10);
    style.set_rect(&bar, &vec![], Rect::new(0, 0, 200, 20));
    assert_eq!(style.thumb_size_px, 200);
    assert_eq!(style.thumb_pos_px, 0);
    let (bar, mut style) = scroll_bar(0, 0, 0, 0);
    style.set_rect(&bar, &vec![], Rect::new(0, 0, 200, 20));
    assert_eq!(style.thumb_size_px, 20);
    assert_eq!(style.thumb_pos_px, 0);
}

#[test]
fn scroll_bar_drag_changes_the_value() {
    let (mut bar, mut style) = scroll_bar(0, 100, 50, 100);
    style.set_rect(&bar, &vec![], Rect::new(0, 0, 200, 20));
    assert_eq!(
        style.handle_event(&mut bar, ControlEvent::TapMove { position: Point::new(70, 5) }),
        (true, vec![])
    );
    assert_eq!(bar.value.get(), 50);
    assert_eq!(
        style.handle_event(&mut bar, ControlEvent::TapDown { position: Point::new(10, 5) }),
        (true, vec![])
    );
    assert!(!style.is_thumb_pressed.get());
    assert_eq!(
        style.handle_event(&mut bar, ControlEvent::TapDown { position: Point::new(60, 5) }),
        (true, vec![dirty(9)])
    );
    assert!(style.is_thumb_pressed.get());
    assert_eq!(style.pressed_position, Point::new(60, 5));
    assert_eq!(
        style.handle_event(&mut bar, ControlEvent::TapMove { position: Point::new(70, 5) }),
        (true, vec![dirty(9)])
    );
    assert_eq!(bar.value.get(), 60);
    assert_eq!(style.pressed_position, Point::new(70, 5));
    assert_eq!(
        style.handle_event(&mut bar, ControlEvent::TapMove { position: Point::new(1000, 5) }),
        (true, vec![dirty(9)])
    );
    assert_eq!(bar.value.get(), 100);
    assert_eq!(
        style.handle_event(&mut bar, ControlEvent::TapMove { position: Point::new(-1000, 5) }),
        (true, vec![dirty(9)])
    );
    assert_eq!(bar.value.get(), 0);
    assert_eq!(
        style.handle_event(&mut bar, ControlEvent::TapUp { position: Point::new(0, 0) }),
        (true, vec![dirty(9)])
    );
    assert!(!style.is_thumb_pressed.get());
    assert_eq!(style.handle_event(&mut bar, ControlEvent::HoverEnter), (true, vec![dirty(9)]));
    assert!(style.is_thumb_hover.get());
    assert_eq!(style.handle_event(&mut bar, ControlEvent::HoverLeave), (true, vec![dirty(9)]));
}

#[test]
fn scroll_bar_primitives() {
    let (bar, mut style) = scroll_bar(0, 100, 50, 100);
    style.set_rect(&bar, &vec![], Rect::new(0, 0, 200, 20));
    let primitives = style.to_primitives(&bar, vec![], Metrics::Nothing);
    assert_eq!(primitives.len(), 11);
    let trough = Color { r: 26, g: 128, b: 0, a: 51 };
    assert_eq!(primitives[0], Primitive::Rectangle { color: trough, rect: Rect::new(0, 0, 50, 20) });
    assert_eq!(
        primitives[1],
        Primitive::Rectangle {
            color: Color { r: 26, g: 255, b: 0, a: 51 },
            rect: Rect::new(51, 2, 98, 16),
        }
    );
    assert_eq!(
        primitives[6],
        Primitive::Rectangle { color: trough, rect: Rect::new(150, 0, 50, 20) }
    );
    assert_eq!(
        primitives[7],
        Primitive::Line {
            color: Color { r: 0, g: 0, b: 0, a: 255 },
            thickness: 1,
            start_point: Point::new(0, 19),
            end_point: Point::new(0, 0),
        }
    );
    let (bar, mut style) = scroll_bar(0, 100, 0, 1000);
    style.set_rect(&bar, &vec![], Rect::new(0, 0, 200, 20));
    assert_eq!(style.thumb_size_px, 181);
    assert_eq!(style.to_primitives(&bar, vec![], Metrics::Nothing).len(), 10);
    assert_eq!(style.hit_test(&bar, Point::new(199, 19)), HitTestResult::Current);
    assert_eq!(style.hit_test(&bar, Point::new(200, 19)), HitTestResult::Nothing);
}

#[test]
fn gesture_detector_core_follows_the_pointer() {
    let mut detector = GestureDetectorCore::new();
    let press = InputEvent::MouseInput { button: MouseButton::Left, state: ElementState::Pressed };
    let release = InputEvent::MouseInput { button: MouseButton::Left, state: ElementState::Released };
    assert_eq!(detector.handle_event(&press), Some(Gesture::TapDown { position: Point::new(0, 0) }));
    assert_eq!(
        detector.handle_event(&InputEvent::CursorMoved { position: Point::new(4, 9) }),
        Some(Gesture::TapMove { position: Point::new(4, 9) })
    );
    assert_eq!(detector.handle_event(&press), Some(Gesture::TapDown { position: Point::new(4, 9) }));
    assert_eq!(detector.handle_event(&release), Some(Gesture::TapUp { position: Point::new(4, 9) }));
    assert_eq!(
        detector.handle_event(&InputEvent::MouseInput {
            button: MouseButton::Right,
            state: ElementState::Pressed
        }),
        None
    );
    assert_eq!(detector.handle_event(&InputEvent::CursorLeft), None);
    assert_eq!(detector.handle_event(&InputEvent::Resized { width: 1, height: 1 }), None);
    assert_eq!(detector.handle_event(&InputEvent::Refresh), None);
    assert_eq!(detector.handle_event(&release), Some(Gesture::TapUp { position: Point::new(4, 9) }));
}

#[test]
fn gesture_detector_reports_hover_once() {
    let mut detector = GestureDetector::new();
    detector.set_rect(Rect::new(10, 10, 50, 20));
    detector.on_hover_enter.subscribe(Handler::Callback { key: 1 });
    detector.on_hover_leave.subscribe(Handler::Callback { key: 2 });
    let at = |x: i32, y: i32| InputEvent::CursorMoved { position: Point::new(x, y) };
    assert_eq!(detector.handle_event(&at(5, 5)), vec![]);
    assert_eq!(detector.handle_event(&at(30, 20)), vec![Handler::Callback { key: 1 }]);
    assert_eq!(detector.handle_event(&at(31, 20)), vec![]);
    assert!(detector.is_hover);
    assert_eq!(detector.mouse_pos, Point::new(31, 20));
    assert_eq!(detector.handle_event(&InputEvent::Refresh), vec![]);
    assert_eq!(detector.handle_event(&at(61, 20)), vec![Handler::Callback { key: 2 }]);
    assert_eq!(detector.handle_event(&at(5, 5)), vec![]);
    assert_eq!(detector.handle_event(&at(30, 20)), vec![Handler::Callback { key: 1 }]);
    assert_eq!(detector.handle_event(&InputEvent::CursorLeft), vec![Handler::Callback { key: 2 }]);
    assert_eq!(detector.handle_event(&InputEvent::CursorLeft), vec![]);
    assert!(!detector.is_hover);
}

#[test]
fn attached_title_round_trip() {
    let values = AttachedValues::new();
    assert_eq!(values.title(), None);
    let values = values.with_title(String::from("Settings"));
    assert_eq!(values.title(), Some(String::from("Settings")));
    let values = values.with_title(String::from("Other"));
    assert_eq!(values.title(), Some(String::from("Other")));
}

#[test]
fn attached_title_reports_its_changes() {
    let mut values = AttachedValues::new();
    assert_eq!(values.on_title_changed(Handler::Callback { key: 1 }), None);
    assert_eq!(values.set_title(String::from("a")), vec![]);
    let first = values.on_title_changed(Handler::Callback { key: 1 }).unwrap();
    let second = values.on_title_changed(dirty(2)).unwrap();
    assert_eq!((first.id, second.id), (0, 1));
    assert_eq!(values.set_title(String::from("a")), vec![]);
    assert_eq!(values.set_title(String::from("b")), vec![Handler::Callback { key: 1 }, dirty(2)]);
    assert_eq!(values.title(), Some(String::from("b")));
}

#[test]
fn text_property_set_get_and_notify() {
    let mut p = TextProperty::new(String::from("one"));
    assert_eq!(p.get(), "one");
    let sub = p.on_changed(Handler::Callback { key: 5 });
    p.dirty_watching(7);
    assert_eq!(p.set(String::from("one")), vec![]);
    assert_eq!(p.set(String::from("two")), vec![Handler::Callback { key: 5 }, dirty(7)]);
    assert_eq!(p.get(), "two");
    assert!(p.unsubscribe(sub));
    assert!(!p.unsubscribe(sub));
    assert_eq!(p.set(String::from("")), vec![dirty(7)]);
    assert_eq!(p.get(), "");
}

#[test]
fn tab_button_takes_its_title_from_the_page() {
    let mut tree: ControlTree<u8, u8> = ControlTree::new();
    let titled = tree
        .insert(0, 0, AttachedValues::new().with_title(String::from("Files")), vec![])
        .unwrap();
    let plain = tree.insert(0, 0, AttachedValues::new(), vec![]).unwrap();
    let first = TabButtonViewModel::new(&tree, titled);
    assert_eq!(first.title(&tree), "Files");
    assert_eq!(first.content, titled);
    assert!(!first.is_checked());
    let second = TabButtonViewModel::new(&tree, plain);
    assert_eq!(second.title(&tree), "Tab");
    assert_eq!(second.content, plain);
}

#[test]
fn tab_button_title_follows_the_attached_title() {
    let mut tree: ControlTree<u8, u8> = ControlTree::new();
    let page = tree
        .insert(0, 0, AttachedValues::new().with_title(String::from("s0")), vec![])
        .unwrap();
    let other = tree.insert(0, 0, AttachedValues::new(), vec![]).unwrap();
    let button = TabButtonViewModel::new(&tree, page);
    let untitled = TabButtonViewModel::new(&tree, other);
    assert_eq!(button.title(&tree), "s0");
    tree.controls[page].attached_values.on_title_changed(dirty(page));
    let fired = tree.controls[page].attached_values.set_title(String::from("s1"));
    assert_eq!(fired, vec![dirty(page)]);
    assert_eq!(button.title(&tree), "s1");
    assert_eq!(untitled.title(&tree), "Tab");
    tree.controls[other].attached_values.set_title(String::from("late"));
    assert_eq!(untitled.title(&tree), "late");
}

#[test]
fn tab_button_checked_selects_its_page() {
    let mut tree: ControlTree<u8, u8> = ControlTree::new();
    let a = tree.insert(0, 0, AttachedValues::new(), vec![]).unwrap();
    let b = tree.insert(0, 0, AttachedValues::new(), vec![]).unwrap();
    let view = TabControl::new().to_view(&tree, &vec![a, b]).unwrap();
    assert_eq!(view.control.selected_index.get(), 0);
    assert_eq!(view.selected_tab.get(), a);
    let mut tabs = view.tabs;
    let mut selected = view.selected_tab;
    selected.on_changed(Handler::Callback { key: 1 });
    tabs[1].is_checked.on_changed(Handler::Callback { key: 2 });
    assert_eq!(tabs.len(), 2);
    assert_eq!(
        tabs[1].set_is_checked(true, &mut selected),
        vec![Handler::Callback { key: 1 }, Handler::Callback { key: 2 }]
    );
    assert!(tabs[1].is_checked());
    assert_eq!(selected.get(), b);
    assert_eq!(tabs[1].set_is_checked(true, &mut selected), vec![]);
    assert_eq!(tabs[0].set_is_checked(false, &mut selected), vec![]);
    assert_eq!(selected.get(), b);
    assert_eq!(tabs[1].set_is_checked(false, &mut selected), vec![Handler::Callback { key: 2 }]);
    assert_eq!(selected.get(), b);
    tabs[0].set_is_checked(true, &mut selected);
    assert_eq!(selected.get(), a);
}

#[test]
fn tab_button_on_checked_fires_only_when_it_becomes_checked() {
    let mut tree: ControlTree<u8, u8> = ControlTree::new();
    let a = tree.insert(0, 0, AttachedValues::new(), vec![]).unwrap();
    let mut button = TabButtonViewModel::new(&tree, a);
    let mut selected = Property::new(a);
    button.is_checked.on_changed(Handler::Callback { key: 2 });
    let sub = button.on_checked(Handler::Callback { key: 3 });
    assert_eq!(sub.id, 0);
    button.on_checked(Handler::Callback { key: 4 });
    assert_eq!(
        button.set_is_checked(true, &mut selected),
        vec![
            Handler::Callback { key: 2 },
            Handler::Callback { key: 3 },
            Handler::Callback { key: 4 },
        ]
    );
    assert_eq!(button.set_is_checked(true, &mut selected), vec![]);
    assert_eq!(button.set_is_checked(false, &mut selected), vec![Handler::Callback { key: 2 }]);
    assert_eq!(button.set_is_checked(false, &mut selected), vec![]);
    assert_eq!(
        button.set_is_checked(true, &mut selected),
        vec![
            Handler::Callback { key: 2 },
            Handler::Callback { key: 3 },
            Handler::Callback { key: 4 },
        ]
    );
}

#[test]
fn tab_control_needs_pages_of_the_tree() {
    let mut tree: ControlTree<u8, u8> = ControlTree::new();
    let a = tree.insert(0, 0, AttachedValues::new(), vec![]).unwrap();
    assert!(TabControl::new().to_view(&tree, &vec![]).is_none());
    assert!(TabControl::new().to_view(&tree, &vec![a, 9]).is_none());
    assert!(TabControl::new().to_view(&tree, &vec![a, a]).is_some());
}

#[test]
fn window_layers_stack() {
    let mut layers = WindowLayers::new();
    layers.add_layer(3);
    layers.add_layer(5);
    layers.add_layer(3);
    assert_eq!(layers.layers, vec![3, 5, 3]);
    layers.remove_layer(3);
    assert_eq!(layers.layers, vec![5]);
    layers.remove_layer(9);
    assert_eq!(layers.layers, vec![5]);
}
