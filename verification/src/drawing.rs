//! Drawing primitives: what a control hands to the renderer.

use vstd::prelude::*;
use crate::common::{Point, Rect};

verus! {

/// A colour with 8 bits for each of red, green, blue and opacity.
#[derive(Clone, Copy, Debug, PartialEq, Eq, Structural)]
pub struct Color {
    pub r: u8,
    pub g: u8,
    pub b: u8,
    pub a: u8,
}

/// One drawing instruction, in window coordinates.
#[allow(inconsistent_fields)]
#[derive(Debug, PartialEq, Eq)]
pub enum Primitive {
    /// A filled rectangle.
    Rectangle { color: Color, rect: Rect },
    /// A straight line between two pixels.
    Line { color: Color, thickness: i32, start_point: Point, end_point: Point },
    /// A run of text in the font `resource_key`, its top-left corner at
    /// `position`.
    Text { resource_key: String, color: Color, position: Point, size: u16, text: String },
    /// The texture `resource_key`, stretched over `rect`.
    Image { resource_key: i32, rect: Rect },
}

impl Primitive {
    /// The primitive moved by `offset`.
    pub open spec fn moved(self, offset: Point) -> Primitive {
        match self {
            Primitive::Rectangle { color, rect } => Primitive::Rectangle {
                color,
                rect: rect.moved(offset),
            },
            Primitive::Line { color, thickness, start_point, end_point } => Primitive::Line {
                color,
                thickness,
                start_point: start_point.moved(offset),
                end_point: end_point.moved(offset),
            },
            Primitive::Text { resource_key, color, position, size, text } => Primitive::Text {
                resource_key,
                color,
                position: position.moved(offset),
                size,
                text,
            },
            Primitive::Image { resource_key, rect } => Primitive::Image {
                resource_key,
                rect: rect.moved(offset),
            },
        }
    }

    pub fn translate(self, offset: Point) -> (p: Primitive)
        ensures
            p == self.moved(offset),
    {
        match self {
            Primitive::Rectangle { color, rect } => Primitive::Rectangle {
                color,
                rect: rect.translate(offset),
            },
            Primitive::Line { color, thickness, start_point, end_point } => Primitive::Line {
                color,
                thickness,
                start_point: start_point.translate(offset),
                end_point: end_point.translate(offset),
            },
            Primitive::Text { resource_key, color, position, size, text } => Primitive::Text {
                resource_key,
                color,
                position: position.translate(offset),
                size,
                text,
            },
            Primitive::Image { resource_key, rect } => Primitive::Image {
                resource_key,
                rect: rect.translate(offset),
            },
        }
    }
}

/// Each of `primitives` moved by `offset`.
pub open spec fn moved_all(primitives: Seq<Primitive>, offset: Point) -> Seq<Primitive> {
    Seq::new(primitives.len(), |i: int| primitives[i].moved(offset))
}

/// Moves every primitive of the list by `offset`.
pub fn translate(primitives: Vec<Primitive>, offset: Point) -> (moved: Vec<Primitive>)
    ensures
        moved@ == moved_all(primitives@, offset),
{
    let mut rest = primitives;
    let mut reversed: Vec<Primitive> = Vec::new();
    while rest.len() > 0
        invariant
            rest@.len() + reversed@.len() == primitives@.len(),
            rest@ == primitives@.take(rest@.len() as int),
            forall|k: int|
                0 <= k < reversed@.len() ==> reversed@[k] == primitives@[primitives@.len() - 1
                    - k].moved(offset),
        decreases rest.len(),
    {
        let p = rest.pop().unwrap();
        reversed.push(p.translate(offset));
    }
    let mut moved: Vec<Primitive> = Vec::new();
    while reversed.len() > 0
        invariant
            moved@.len() + reversed@.len() == primitives@.len(),
            forall|k: int|
                0 <= k < reversed@.len() ==> reversed@[k] == primitives@[primitives@.len() - 1
                    - k].moved(offset),
            forall|k: int| 0 <= k < moved@.len() ==> moved@[k] == primitives@[k].moved(offset),
        decreases reversed.len(),
    {
        let p = reversed.pop().unwrap();
        moved.push(p);
    }
    assert(moved@ =~= moved_all(primitives@, offset));
    moved
}

} // verus!
