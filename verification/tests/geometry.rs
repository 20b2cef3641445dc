use fui::common::{add_px, clamp_to_px, div_px, half_px, sub_px, HitTestResult, Point, Rect, Size};
use fui::default_theme;
use fui::drawing::{translate, Color, Primitive};

#[test]
fn pixel_arithmetic_saturates() {
    assert_eq!(add_px(1, 2), 3);
    assert_eq!(add_px(i32::MAX, 1), i32::MAX);
    assert_eq!(add_px(i32::MIN, -1), i32::MIN);
    assert_eq!(sub_px(5, 7), -2);
    assert_eq!(sub_px(i32::MIN, 1), i32::MIN);
    assert_eq!(sub_px(i32::MAX, -1), i32::MAX);
    assert_eq!(clamp_to_px(1i128 << 40), i32::MAX);
    assert_eq!(clamp_to_px(-(1i128 << 40)), i32::MIN);
    assert_eq!(clamp_to_px(-17), -17);
}

#[test]
fn halves_round_towards_zero() {
    assert_eq!(half_px(7), 3);
    assert_eq!(half_px(-7), -3);
    assert_eq!(half_px(8), 4);
    assert_eq!(half_px(0), 0);
    assert_eq!(half_px(i32::MIN), -1073741824);
}

#[test]
fn division_rounds_towards_zero_and_survives_zero() {
    assert_eq!(div_px(7, 2), 3);
    assert_eq!(div_px(-7, 2), -3);
    assert_eq!(div_px(7, -2), -3);
    assert_eq!(div_px(-7, -2), 3);
    assert_eq!(div_px(7, 0), 0);
    assert_eq!(div_px(0, 5), 0);
}

#[test]
fn hit_test_containment() {
    let rect = Rect::new(10, 10, 50, 20);
    assert!(Point::new(30, 20).is_inside(&rect));
    assert!(!Point::new(5, 5).is_inside(&rect));
    assert!(!Point::new(61, 20).is_inside(&rect));
}

#[test]
fn hit_test_edges() {
    let rect = Rect::new(10, 10, 50, 20);
    assert!(Point::new(10, 10).is_inside(&rect));
    assert!(Point::new(59, 29).is_inside(&rect));
    assert!(!Point::new(60, 20).is_inside(&rect));
    assert!(!Point::new(30, 30).is_inside(&rect));
    assert!(!Point::new(9, 20).is_inside(&rect));
    assert!(!Point::new(30, 9).is_inside(&rect));
    let far = Rect::new(i32::MAX - 1, 0, 10, 10);
    assert!(Point::new(i32::MAX, 5).is_inside(&far));
    let empty = Rect::empty();
    assert!(!Point::new(0, 0).is_inside(&empty));
    assert_ne!(HitTestResult::Current, HitTestResult::Nothing);
}

#[test]
fn rect_deflate_and_translate() {
    let rect = Rect::new(5, 6, 100, 40);
    assert_eq!(rect.deflate(10), Rect::new(15, 16, 80, 20));
    assert_eq!(rect.translate(Point::new(1, 1)), Rect::new(6, 7, 100, 40));
    assert_eq!(Point::new(3, 4).translate(Point::new(-5, 1)), Point::new(-2, 5));
    assert_eq!(Size::new(2, 3), Size { width: 2, height: 3 });
}

#[test]
fn primitives_translate() {
    let white = Color { r: 255, g: 255, b: 255, a: 255 };
    let list = vec![
        Primitive::Rectangle { color: white, rect: Rect::new(0, 0, 4, 4) },
        Primitive::Line {
            color: white,
            thickness: 1,
            start_point: Point::new(0, 0),
            end_point: Point::new(3, 3),
        },
        Primitive::Text {
            resource_key: String::from("font"),
            color: white,
            position: Point::new(2, 2),
            size: 20,
            text: String::from("hi"),
        },
        Primitive::Image { resource_key: 4, rect: Rect::new(1, 1, 2, 2) },
    ];
    let moved = translate(list, Point::new(1, 1));
    assert_eq!(
        moved,
        vec![
            Primitive::Rectangle { color: white, rect: Rect::new(1, 1, 4, 4) },
            Primitive::Line {
                color: white,
                thickness: 1,
                start_point: Point::new(1, 1),
                end_point: Point::new(4, 4),
            },
            Primitive::Text {
                resource_key: String::from("font"),
                color: white,
                position: Point::new(3, 3),
                size: 20,
                text: String::from("hi"),
            },
            Primitive::Image { resource_key: 4, rect: Rect::new(2, 2, 2, 2) },
        ]
    );
}

fn line(color: Color, x1: i32, y1: i32, x2: i32, y2: i32) -> Primitive {
    Primitive::Line {
        color,
        thickness: 1,
        start_point: Point::new(x1, y1),
        end_point: Point::new(x2, y2),
    }
}

#[test]
fn theme_border_raised_and_sunken() {
    let white = Color { r: 255, g: 255, b: 255, a: 255 };
    let black = Color { r: 0, g: 0, b: 0, a: 255 };
    let mut raised = Vec::new();
    default_theme::border_3d(&mut raised, 0, 0, 100, 40, false);
    assert_eq!(
        raised,
        vec![
            line(white, 0, 39, 0, 0),
            line(white, 0, 0, 99, 0),
            line(black, 99, 0, 99, 39),
            line(black, 99, 39, 0, 39),
        ]
    );
    let mut sunken = Vec::new();
    default_theme::border_3d(&mut sunken, 2, 3, 10, 10, true);
    assert_eq!(
        sunken,
        vec![
            line(black, 2, 12, 2, 3),
            line(black, 2, 3, 11, 3),
            line(white, 11, 3, 11, 12),
            line(white, 11, 12, 2, 12),
        ]
    );
}

#[test]
fn theme_button_face_colors() {
    let face = |pressed: bool, hover: bool| {
        let mut vec = Vec::new();
        default_theme::button(&mut vec, 0, 0, 10, 10, pressed, hover);
        assert_eq!(vec.len(), 5);
        match &vec[0] {
            Primitive::Rectangle { color, rect } => {
                assert_eq!(*rect, Rect::new(1, 1, 8, 8));
                *color
            }
            _ => panic!("the face comes first"),
        }
    };
    assert_eq!(face(false, false), Color { r: 26, g: 255, b: 0, a: 51 });
    assert_eq!(face(false, true), Color { r: 26, g: 255, b: 0, a: 102 });
    assert_eq!(face(true, false), Color { r: 26, g: 128, b: 0, a: 51 });
    assert_eq!(face(true, true), Color { r: 26, g: 128, b: 0, a: 51 });
}
