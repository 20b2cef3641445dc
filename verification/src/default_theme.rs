//! The looks shared by the built-in styles: the raised and sunken border
//! and the face of a button.

use vstd::prelude::*;
use crate::common::{add_px, clamp_px, sub_px, Point, Rect};
use crate::drawing::{Color, Primitive};

verus! {

pub open spec fn white() -> Color {
    Color { r: 255, g: 255, b: 255, a: 255 }
}

pub open spec fn black() -> Color {
    Color { r: 0, g: 0, b: 0, a: 255 }
}

/// The colour of the face of a button in the given state.
pub open spec fn face_color(is_pressed: bool, is_hover: bool) -> Color {
    if is_pressed {
        Color { r: 26, g: 128, b: 0, a: 51 }
    } else if is_hover {
        Color { r: 26, g: 255, b: 0, a: 102 }
    } else {
        Color { r: 26, g: 255, b: 0, a: 51 }
    }
}

/// The colour of the trough of a scroll bar.
pub open spec fn trough_color() -> Color {
    Color { r: 26, g: 128, b: 0, a: 51 }
}

/// The last column of a span that starts at `start` and is `extent` wide.
pub open spec fn far_edge(start: i32, extent: i32) -> i32 {
    clamp_px(clamp_px(start + extent) - 1) as i32
}

/// A line one pixel thick.
pub open spec fn thin_line(color: Color, x1: i32, y1: i32, x2: i32, y2: i32) -> Primitive {
    Primitive::Line {
        color,
        thickness: 1,
        start_point: Point { x: x1, y: y1 },
        end_point: Point { x: x2, y: y2 },
    }
}

/// The four lines of a border with a light source at the top left: the
/// left and top edges in one colour, the right and bottom edges in the
/// other. A raised border is lit from the top left, an inverted one from
/// the bottom right.
pub open spec fn border_3d_lines(x: i32, y: i32, width: i32, height: i32, inverted: bool) -> Seq<
    Primitive,
> {
    let lit = if inverted {
        black()
    } else {
        white()
    };
    let shaded = if inverted {
        white()
    } else {
        black()
    };
    let right = far_edge(x, width);
    let bottom = far_edge(y, height);
    seq![
        thin_line(lit, x, bottom, x, y),
        thin_line(lit, x, y, right, y),
        thin_line(shaded, right, y, right, bottom),
        thin_line(shaded, right, bottom, x, bottom),
    ]
}

/// The face of a button, one pixel inside its border, and the border.
pub open spec fn button_primitives(
    x: i32,
    y: i32,
    width: i32,
    height: i32,
    is_pressed: bool,
    is_hover: bool,
) -> Seq<Primitive> {
    seq![
        Primitive::Rectangle {
            color: face_color(is_pressed, is_hover),
            rect: Rect {
                x: clamp_px(x + 1) as i32,
                y: clamp_px(y + 1) as i32,
                width: clamp_px(width - 2) as i32,
                height: clamp_px(height - 2) as i32,
            },
        },
    ] + border_3d_lines(x, y, width, height, is_pressed)
}

fn line(color: Color, x1: i32, y1: i32, x2: i32, y2: i32) -> (p: Primitive)
    ensures
        p == thin_line(color, x1, y1, x2, y2),
{
    Primitive::Line {
        color,
        thickness: 1,
        start_point: Point::new(x1, y1),
        end_point: Point::new(x2, y2),
    }
}

/// Appends a border around the given rectangle to `vec`.
pub fn border_3d(vec: &mut Vec<Primitive>, x: i32, y: i32, width: i32, height: i32, inverted: bool)
    ensures
        final(vec)@ == old(vec)@ + border_3d_lines(x, y, width, height, inverted),
{
    let light = Color { r: 255, g: 255, b: 255, a: 255 };
    let dark = Color { r: 0, g: 0, b: 0, a: 255 };
    let lit = if inverted {
        dark
    } else {
        light
    };
    let shaded = if inverted {
        light
    } else {
        dark
    };
    let right = sub_px(add_px(x, width), 1);
    let bottom = sub_px(add_px(y, height), 1);
    vec.push(line(lit, x, bottom, x, y));
    vec.push(line(lit, x, y, right, y));
    vec.push(line(shaded, right, y, right, bottom));
    vec.push(line(shaded, right, bottom, x, bottom));
    assert(vec@ =~= old(vec)@ + border_3d_lines(x, y, width, height, inverted));
}

/// Appends the face and the border of a button to `vec`.
pub fn button(
    vec: &mut Vec<Primitive>,
    x: i32,
    y: i32,
    width: i32,
    height: i32,
    is_pressed: bool,
    is_hover: bool,
)
    ensures
        final(vec)@ == old(vec)@ + button_primitives(x, y, width, height, is_pressed, is_hover),
{
    let color = if is_pressed {
        Color { r: 26, g: 128, b: 0, a: 51 }
    } else if is_hover {
        Color { r: 26, g: 255, b: 0, a: 102 }
    } else {
        Color { r: 26, g: 255, b: 0, a: 51 }
    };
    vec.push(
        Primitive::Rectangle {
            color,
            rect: Rect::new(add_px(x, 1), add_px(y, 1), sub_px(width, 2), sub_px(height, 2)),
        },
    );
    border_3d(vec, x, y, width, height, is_pressed);
    assert(vec@ =~= old(vec)@ + button_primitives(x, y, width, height, is_pressed, is_hover));
}

} // verus!
