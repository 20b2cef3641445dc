//! The capability set of a control kind: measurement, arrangement,
//! hit-testing, event handling and drawing.
//!
//! A style never walks the tree. The tree hands it what its children
//! reported and places the children where the style says.

use vstd::prelude::*;
use crate::common::{HitTestResult, Point, Rect, Size};
use crate::drawing::Primitive;
use crate::events::ControlEvent;
use crate::observable::{EventSubscription, Handler};

verus! {

/// What the surroundings of the tree know: the extent of a run of text in
/// a font, and the extent of a texture.
pub trait Resources {
    /// The width and height of `text` set in `font` at `size`.
    spec fn font_dimensions(&self, font: Seq<char>, size: u8, text: Seq<char>) -> (u16, u16);

    /// The width and height of the texture `key`, if there is such a texture.
    spec fn texture_size(&self, key: i32) -> Option<(u16, u16)>;

    fn get_font_dimensions(&self, font: &str, size: u8, text: &str) -> (dimensions: (u16, u16))
        ensures
            dimensions == self.font_dimensions(font@, size, text@),
    ;

    fn get_texture_size(&self, key: i32) -> (size: Option<(u16, u16)>)
        ensures
            size == self.texture_size(key),
    ;
}

/// What a control needs to know from the resources before it can measure
/// and draw itself.
pub enum ResourceQuery {
    Nothing,
    FontDimensions { font: String, size: u8, text: String },
    TextureSize { key: i32 },
}

/// The answer to a [`ResourceQuery`].
#[derive(Clone, Copy, Debug, PartialEq, Eq)]
pub enum Metrics {
    Nothing,
    FontDimensions { width: u16, height: u16 },
    TextureSize { size: Option<(u16, u16)> },
}

/// The answer that `resources` gives to `query`.
pub open spec fn metrics_of<R: Resources>(resources: &R, query: ResourceQuery) -> Metrics {
    match query {
        ResourceQuery::Nothing => Metrics::Nothing,
        ResourceQuery::FontDimensions { font, size, text } => {
            let dimensions = resources.font_dimensions(font@, size, text@);
            Metrics::FontDimensions { width: dimensions.0, height: dimensions.1 }
        },
        ResourceQuery::TextureSize { key } => Metrics::TextureSize {
            size: resources.texture_size(key),
        },
    }
}

/// Puts `query` to `resources`.
pub fn resolve<R: Resources>(resources: &R, query: &ResourceQuery) -> (metrics: Metrics)
    ensures
        metrics == metrics_of(resources, *query),
{
    match query {
        ResourceQuery::Nothing => Metrics::Nothing,
        ResourceQuery::FontDimensions { font, size, text } => {
            let (width, height) = resources.get_font_dimensions(
                font.as_str(),
                *size,
                text.as_str(),
            );
            Metrics::FontDimensions { width, height }
        },
        ResourceQuery::TextureSize { key } => Metrics::TextureSize {
            size: resources.get_texture_size(*key),
        },
    }
}

/// The behaviour of one kind of control over its data `D`.
///
/// Each operation that changes the style or the data comes with a relation
/// between the state before and the state after; an implementation defines
/// the relation and meets it.
pub trait Style<D>: Sized {
    /// The rectangle last assigned to the control.
    spec fn rect(&self) -> Rect;

    /// `setup_dirty_watching(control)` takes style and data from `self`,
    /// `data` to `style`, `watched`.
    spec fn watches(&self, data: &D, control: usize, style: &Self, watched: &D) -> bool;

    /// `handle_event(event)` takes style and data from `self`, `data` to
    /// `style`, `handled`, with the given result.
    spec fn handles(
        &self,
        data: &D,
        event: ControlEvent,
        style: &Self,
        handled: &D,
        consumed: bool,
        fired: Seq<Handler>,
    ) -> bool;

    /// What the control asks of the resources.
    spec fn query(&self, data: &D) -> ResourceQuery;

    /// `measure` takes the style from `self` to `style` and returns
    /// `desired`, for children that asked for `children` and resources
    /// that answered `metrics`.
    spec fn measures(
        &self,
        data: &D,
        children: Seq<Size>,
        metrics: Metrics,
        size: Size,
        style: &Self,
        desired: Size,
    ) -> bool;

    /// `set_rect(rect)` takes the style from `self` to `style` and places
    /// the children at `placed`, one rectangle for each of `children`.
    spec fn arranges(
        &self,
        data: &D,
        children: Seq<Size>,
        rect: Rect,
        style: &Self,
        placed: Seq<Rect>,
    ) -> bool;

    /// What `hit_test` answers for `point`.
    spec fn hit(&self, data: &D, point: Point) -> HitTestResult;

    /// What `to_primitives` emits around the primitives of the children.
    spec fn primitives(&self, data: &D, children: Seq<Primitive>, metrics: Metrics) -> Seq<
        Primitive,
    >;

    /// Subscribes the control `control` to every property that its looks
    /// depend on, so that a change of any of them marks it dirty.
    fn setup_dirty_watching(&mut self, data: &mut D, control: usize)
        ensures
            old(self).watches(old(data), control, final(self), final(data)),
    ;

    /// Reacts to an event routed to the control. Returns whether the event
    /// was consumed, and the handlers to run for what changed.
    fn handle_event(&mut self, data: &mut D, event: ControlEvent) -> (outcome: (bool, Vec<Handler>))
        ensures
            old(self).handles(
                old(data),
                event,
                final(self),
                final(data),
                outcome.0,
                outcome.1@,
            ),
    ;

    fn resource_query(&self, data: &D) -> (query: ResourceQuery)
        ensures
            query == self.query(data),
    ;

    /// The size the control would like within the upper bound `size`,
    /// given what each child would like.
    fn measure(&mut self, data: &D, children: &Vec<Size>, metrics: Metrics, size: Size) -> (desired:
        Size)
        ensures
            old(self).measures(data, children@, metrics, size, final(self), desired),
    ;

    /// Assigns the control its rectangle. Returns the rectangle of each
    /// child.
    fn set_rect(&mut self, data: &D, children: &Vec<Size>, rect: Rect) -> (placed: Vec<Rect>)
        ensures
            old(self).arranges(data, children@, rect, final(self), placed@),
            placed@.len() == children@.len(),
            final(self).rect() == rect,
    ;

    fn get_rect(&self) -> (rect: Rect)
        ensures
            rect == self.rect(),
    ;

    fn hit_test(&self, data: &D, point: Point) -> (result: HitTestResult)
        ensures
            result == self.hit(data, point),
    ;

    /// The primitives of the control, in window coordinates, around those
    /// of its children.
    fn to_primitives(&self, data: &D, children: Vec<Primitive>, metrics: Metrics) -> (primitives:
        Vec<Primitive>)
        ensures
            primitives@ == self.primitives(data, children@, metrics),
    ;
}

/// Lets a property mark a control dirty whenever its value changes.
pub trait PropertyDirtyExtension {
    /// The handlers subscribed to the property, in order.
    spec fn watchers(&self) -> Seq<Handler>;

    /// Whether one more subscription can be taken.
    spec fn can_watch(&self) -> bool;

    fn dirty_watching(&mut self, control: usize) -> (sub: EventSubscription)
        ensures
            final(self).watchers() == if old(self).can_watch() {
                old(self).watchers().push(Handler::MarkDirty { control })
            } else {
                old(self).watchers()
            },
    ;
}

} // verus!
