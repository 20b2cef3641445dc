//! The horizontal row: its children side by side, from left to right, each
//! as wide as it asked to be and as high as the row.

use vstd::prelude::*;
use crate::common::{clamp_px, clamp_to_px, HitTestResult, Point, Rect, Size};
use crate::drawing::Primitive;
use crate::events::ControlEvent;
use crate::observable::Handler;
use crate::style::{Metrics, ResourceQuery, Style};

verus! {

/// A row of controls. It has no properties of its own.
pub struct Horizontal {}

pub struct HorizontalDefaultStyle {
    pub rect: Rect,
}

/// The sum of the widths that `children` asked for.
pub open spec fn total_width(children: Seq<Size>) -> int
    decreases children.len(),
{
    if children.len() == 0 {
        0
    } else {
        total_width(children.drop_last()) + children.last().width
    }
}

/// The largest height that one of `children` asked for; 0 without
/// children.
pub open spec fn max_height(children: Seq<Size>) -> int
    decreases children.len(),
{
    if children.len() == 0 {
        0
    } else {
        let rest = max_height(children.drop_last());
        if children.last().height > rest {
            children.last().height as int
        } else {
            rest
        }
    }
}

/// Where the child `k` of a row that fills `rect` goes: behind the children
/// before it, as wide as it asked to be, as high as the row.
pub open spec fn place_in_row(children: Seq<Size>, rect: Rect, k: int) -> Rect {
    Rect {
        x: clamp_px(rect.x + total_width(children.take(k))) as i32,
        y: rect.y,
        width: children[k].width,
        height: rect.height,
    }
}

impl Horizontal {
    pub fn new() -> (row: Self) {
        Horizontal {  }
    }
}

impl HorizontalDefaultStyle {
    pub fn new() -> (style: Self)
        ensures
            style.rect == Rect::zero(),
    {
        HorizontalDefaultStyle { rect: Rect::empty() }
    }
}

impl Style<Horizontal> for HorizontalDefaultStyle {
    open spec fn rect(&self) -> Rect {
        self.rect
    }

    open spec fn watches(
        &self,
        data: &Horizontal,
        control: usize,
        style: &Self,
        watched: &Horizontal,
    ) -> bool {
        *style == *self && *watched == *data
    }

    /// A row takes no notice of events.
    open spec fn handles(
        &self,
        data: &Horizontal,
        event: ControlEvent,
        style: &Self,
        handled: &Horizontal,
        consumed: bool,
        fired: Seq<Handler>,
    ) -> bool {
        &&& *style == *self
        &&& *handled == *data
        &&& !consumed
        &&& fired == Seq::<Handler>::empty()
    }

    open spec fn query(&self, data: &Horizontal) -> ResourceQuery {
        ResourceQuery::Nothing
    }

    /// A row asks for the sum of the widths and the largest of the heights
    /// of its children.
    open spec fn measures(
        &self,
        data: &Horizontal,
        children: Seq<Size>,
        metrics: Metrics,
        size: Size,
        style: &Self,
        desired: Size,
    ) -> bool {
        &&& *style == *self
        &&& desired == (Size {
            width: clamp_px(total_width(children)) as i32,
            height: max_height(children) as i32,
        })
    }

    open spec fn arranges(
        &self,
        data: &Horizontal,
        children: Seq<Size>,
        rect: Rect,
        style: &Self,
        placed: Seq<Rect>,
    ) -> bool {
        &&& *style == (HorizontalDefaultStyle { rect })
        &&& placed == Seq::new(children.len(), |k: int| place_in_row(children, rect, k))
    }

    /// A row is no target of its own: a point goes to the child under it or
    /// to nothing.
    open spec fn hit(&self, data: &Horizontal, point: Point) -> HitTestResult {
        HitTestResult::Nothing
    }

    /// A row draws its children and nothing else.
    open spec fn primitives(
        &self,
        data: &Horizontal,
        children: Seq<Primitive>,
        metrics: Metrics,
    ) -> Seq<Primitive> {
        children
    }

    fn setup_dirty_watching(&mut self, data: &mut Horizontal, control: usize) {
    }

    fn handle_event(&mut self, data: &mut Horizontal, event: ControlEvent) -> (outcome: (
        bool,
        Vec<Handler>,
    )) {
        (false, Vec::new())
    }

    fn resource_query(&self, data: &Horizontal) -> (query: ResourceQuery) {
        ResourceQuery::Nothing
    }

    fn measure(
        &mut self,
        data: &Horizontal,
        children: &Vec<Size>,
        metrics: Metrics,
        size: Size,
    ) -> (desired: Size) {
        let mut width: i128 = 0;
        let mut height: i32 = 0;
        let mut k: usize = 0;
        while k < children.len()
            invariant
                k <= children@.len(),
                width == total_width(children@.take(k as int)),
                height == max_height(children@.take(k as int)),
                -0x8000_0000 * k <= width <= 0x8000_0000 * k,
            decreases children.len() - k,
        {
            proof {
                assert(children@.take(k as int + 1).drop_last() =~= children@.take(k as int));
            }
            let child = children[k];
            width = width + child.width as i128;
            if child.height > height {
                height = child.height;
            }
            k += 1;
        }
        proof {
            assert(children@.take(k as int) =~= children@);
        }
        Size::new(clamp_to_px(width), height)
    }

    fn set_rect(&mut self, data: &Horizontal, children: &Vec<Size>, rect: Rect) -> (placed: Vec<
        Rect,
    >) {
        self.rect = rect;
        let mut placed: Vec<Rect> = Vec::new();
        let mut offset: i128 = 0;
        let mut k: usize = 0;
        while k < children.len()
            invariant
                k <= children@.len(),
                placed@.len() == k,
                offset == total_width(children@.take(k as int)),
                -0x8000_0000 * k <= offset <= 0x8000_0000 * k,
                forall|a: int| 0 <= a < k ==> placed@[a] == place_in_row(children@, rect, a),
            decreases children.len() - k,
        {
            proof {
                assert(children@.take(k as int + 1).drop_last() =~= children@.take(k as int));
            }
            let child = children[k];
            placed.push(Rect::new(clamp_to_px(rect.x as i128 + offset), rect.y, child.width, rect.height));
            offset = offset + child.width as i128;
            k += 1;
        }
        assert(placed@ =~= Seq::new(
            children@.len(),
            |k: int| place_in_row(children@, rect, k),
        ));
        placed
    }

    fn get_rect(&self) -> (rect: Rect) {
        self.rect
    }

    fn hit_test(&self, data: &Horizontal, point: Point) -> (result: HitTestResult) {
        HitTestResult::Nothing
    }

    fn to_primitives(
        &self,
        data: &Horizontal,
        children: Vec<Primitive>,
        metrics: Metrics,
    ) -> (primitives: Vec<Primitive>) {
        children
    }
}

} // verus!
