//! The bitmap: a texture shown at its own size.

use vstd::prelude::*;
use crate::common::{HitTestResult, Point, Rect, Size};
use crate::drawing::Primitive;
use crate::events::ControlEvent;
use crate::observable::{EventSubscription, Handler};
use crate::property::Property;
use crate::style::{Metrics, PropertyDirtyExtension, ResourceQuery, Style};

verus! {

pub struct Bitmap {
    /// The key of the texture to show.
    pub texture_id: Property<i32>,
}

impl Bitmap {
    pub fn new(texture_id: Property<i32>) -> (bitmap: Self)
        ensures
            bitmap.texture_id == texture_id,
    {
        Bitmap { texture_id }
    }
}

pub struct BitmapDefaultStyle {
    rect: Rect,
    event_subscriptions: Vec<EventSubscription>,
}

/// The rectangle at the origin with the extent of the texture that
/// `metrics` reports; of no extent where it reports no texture.
pub open spec fn texture_rect(metrics: Metrics) -> Rect {
    match metrics {
        Metrics::TextureSize { size: Some(size) } => Rect {
            x: 0,
            y: 0,
            width: size.0 as i32,
            height: size.1 as i32,
        },
        _ => Rect::zero(),
    }
}

impl BitmapDefaultStyle {
    /// Takes `rect` and hands the same rectangle to each child.
    pub fn place_all(&mut self, children: &Vec<Size>, rect: Rect) -> (placed: Vec<Rect>)
        ensures
            final(self).frame() == rect,
            final(self).subscriptions() == old(self).subscriptions(),
            placed@ == Seq::new(children@.len(), |k: int| rect),
    {
        self.rect = rect;
        let mut placed: Vec<Rect> = Vec::new();
        let mut k: usize = 0;
        while k < children.len()
            invariant
                k <= children@.len(),
                placed@.len() == k,
                forall|a: int| 0 <= a < k ==> placed@[a] == rect,
            decreases children.len() - k,
        {
            placed.push(rect);
            k += 1;
        }
        assert(placed@ =~= Seq::new(children@.len(), |k: int| rect));
        placed
    }

    /// The subscriptions that keep the bitmap watching its texture.
    pub closed spec fn subscriptions(&self) -> Seq<EventSubscription> {
        self.event_subscriptions@
    }

    /// The rectangle last measured or assigned.
    pub closed spec fn frame(&self) -> Rect {
        self.rect
    }

    pub fn new() -> (style: Self)
        ensures
            style.frame() == Rect::zero(),
            style.subscriptions() == Seq::<EventSubscription>::empty(),
    {
        BitmapDefaultStyle { rect: Rect::empty(), event_subscriptions: Vec::new() }
    }
}

impl Style<Bitmap> for BitmapDefaultStyle {
    open spec fn rect(&self) -> Rect {
        self.frame()
    }

    open spec fn watches(&self, data: &Bitmap, control: usize, style: &Self, watched: &Bitmap) -> bool {
        &&& style.frame() == self.frame()
        &&& style.subscriptions() == self.subscriptions().push(
            EventSubscription { id: data.texture_id.changed().next_id() },
        )
        &&& data.texture_id.watched_by(&watched.texture_id, control)
    }

    /// A bitmap takes no notice of events.
    open spec fn handles(
        &self,
        data: &Bitmap,
        event: ControlEvent,
        style: &Self,
        handled: &Bitmap,
        consumed: bool,
        fired: Seq<Handler>,
    ) -> bool {
        &&& *style == *self
        &&& *handled == *data
        &&& !consumed
        &&& fired == Seq::<Handler>::empty()
    }

    open spec fn query(&self, data: &Bitmap) -> ResourceQuery {
        ResourceQuery::TextureSize { key: data.texture_id.value() }
    }

    /// Measuring sets the rectangle to the extent of the texture.
    open spec fn measures(
        &self,
        data: &Bitmap,
        children: Seq<Size>,
        metrics: Metrics,
        size: Size,
        style: &Self,
        desired: Size,
    ) -> bool {
        &&& style.frame() == texture_rect(metrics)
        &&& style.subscriptions() == self.subscriptions()
        &&& desired == (Size {
            width: texture_rect(metrics).width,
            height: texture_rect(metrics).height,
        })
    }

    open spec fn arranges(
        &self,
        data: &Bitmap,
        children: Seq<Size>,
        rect: Rect,
        style: &Self,
        placed: Seq<Rect>,
    ) -> bool {
        &&& style.frame() == rect
        &&& style.subscriptions() == self.subscriptions()
        &&& placed == Seq::new(children.len(), |k: int| rect)
    }

    open spec fn hit(&self, data: &Bitmap, point: Point) -> HitTestResult {
        if point.inside(self.frame()) {
            HitTestResult::Current
        } else {
            HitTestResult::Nothing
        }
    }

    /// The texture over the rectangle, or nothing where the rectangle has
    /// no extent.
    open spec fn primitives(&self, data: &Bitmap, children: Seq<Primitive>, metrics: Metrics) -> Seq<
        Primitive,
    > {
        if self.frame().width > 0 && self.frame().height > 0 {
            seq![Primitive::Image { resource_key: data.texture_id.value(), rect: self.frame() }]
        } else {
            Seq::empty()
        }
    }

    fn setup_dirty_watching(&mut self, data: &mut Bitmap, control: usize) {
        let sub = data.texture_id.dirty_watching(control);
        self.event_subscriptions.push(sub);
    }

    fn handle_event(&mut self, data: &mut Bitmap, event: ControlEvent) -> (outcome: (
        bool,
        Vec<Handler>,
    )) {
        (false, Vec::new())
    }

    fn resource_query(&self, data: &Bitmap) -> (query: ResourceQuery) {
        ResourceQuery::TextureSize { key: data.texture_id.get() }
    }

    fn measure(&mut self, data: &Bitmap, children: &Vec<Size>, metrics: Metrics, size: Size) -> (desired:
        Size) {
        self.rect = match metrics {
            Metrics::TextureSize { size: Some(size) } => Rect::new(
                0,
                0,
                size.0 as i32,
                size.1 as i32,
            ),
            _ => Rect::empty(),
        };
        Size::new(self.rect.width, self.rect.height)
    }

    fn set_rect(&mut self, data: &Bitmap, children: &Vec<Size>, rect: Rect) -> (placed: Vec<Rect>) {
        self.place_all(children, rect)
    }

    fn get_rect(&self) -> (rect: Rect) {
        self.rect
    }

    fn hit_test(&self, data: &Bitmap, point: Point) -> (result: HitTestResult) {
        if point.is_inside(&self.rect) {
            HitTestResult::Current
        } else {
            HitTestResult::Nothing
        }
    }

    fn to_primitives(&self, data: &Bitmap, children: Vec<Primitive>, metrics: Metrics) -> (primitives:
        Vec<Primitive>) {
        let mut vec: Vec<Primitive> = Vec::new();
        if self.rect.width > 0 && self.rect.height > 0 {
            vec.push(Primitive::Image { resource_key: data.texture_id.get(), rect: self.rect });
        }
        vec
    }
}

} // verus!
