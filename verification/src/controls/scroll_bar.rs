//! The scroll bar: a thumb that slides in a trough and sets a value
//! between a minimum and a maximum.
//!
//! Values and the size of the viewport are whole numbers in whatever unit
//! the scrolled content is measured in.

use vstd::prelude::*;
use crate::common::{add_px, clamp_px, clamp_to_px, div_px, quotient, sub_px};
use crate::common::{HitTestResult, Orientation, Point, Rect, Size};
use crate::default_theme;
use crate::drawing::{Color, Primitive};
use crate::events::ControlEvent;
use crate::observable::{EventSubscription, Handler};
use crate::property::{set_report, Property};
use crate::style::{Metrics, PropertyDirtyExtension, ResourceQuery, Style};

verus! {

pub struct ScrollBar {
    pub orientation: Orientation,
    pub min_value: Property<i32>,
    pub max_value: Property<i32>,
    pub value: Property<i32>,
    pub viewport_size: Property<i32>,
}

impl ScrollBar {
    /// A vertical scroll bar from 0 to 1 at 0, for a viewport of no extent.
    pub fn new() -> (bar: Self)
        ensures
            bar.orientation == Orientation::Vertical,
            bar.min_value.value() == 0,
            bar.max_value.value() == 1,
            bar.value.value() == 0,
            bar.viewport_size.value() == 0,
            bar.min_value.handlers().len() == 0,
            bar.max_value.handlers().len() == 0,
            bar.value.handlers().len() == 0,
            bar.viewport_size.handlers().len() == 0,
    {
        ScrollBar {
            orientation: Orientation::Vertical,
            min_value: Property::new(0),
            max_value: Property::new(1),
            value: Property::new(0),
            viewport_size: Property::new(0),
        }
    }
}

pub struct ScrollBarDefaultStyle {
    pub rect: Rect,
    /// Where the thumb starts, from the start of the trough.
    pub thumb_pos_px: i32,
    /// The length of the thumb.
    pub thumb_size_px: i32,
    pub is_thumb_hover: Property<bool>,
    pub is_thumb_pressed: Property<bool>,
    /// Where the pointer was when the thumb was last moved.
    pub pressed_position: Point,
    pub event_subscriptions: Vec<EventSubscription>,
}

/// The shortest thumb that is still drawn.
pub open spec fn min_thumb() -> int {
    20
}

/// The length of the trough in which the thumb slides.
pub open spec fn track_length(orientation: Orientation, rect: Rect) -> int {
    match orientation {
        Orientation::Horizontal => rect.width - rect.x,
        Orientation::Vertical => rect.height - rect.y,
    }
}

/// The length of the thumb: the share of the trough that the viewport
/// takes of the whole content, but no less than the shortest thumb.
pub open spec fn thumb_size(min: int, max: int, viewport: int, track: int) -> int {
    let share = quotient(viewport * track, max - min + viewport);
    clamp_px(
        if share < min_thumb() {
            min_thumb()
        } else {
            share
        },
    )
}

/// Where the thumb starts: as far along the way that is left to it as the
/// value is along its range.
pub open spec fn thumb_pos(min: int, max: int, value: int, track: int, thumb: int) -> int {
    clamp_px(quotient((track - thumb) * (value - min), max - min))
}

/// The value for a thumb that starts at `pos`: as far along the range as
/// the thumb is along the way that it can go, and within the range.
pub open spec fn value_at(min: int, max: int, pos: int, track: int, thumb: int) -> int {
    let raw = min + quotient(pos * (max - min), track - thumb);
    let raised = if raw < min {
        min
    } else {
        raw
    };
    if raised > max {
        max
    } else {
        raised
    }
}

impl ScrollBarDefaultStyle {
    /// Takes `rect` and hands the same rectangle to each child.
    pub fn place_all(&mut self, children: &Vec<Size>, rect: Rect) -> (placed: Vec<Rect>)
        ensures
            *final(self) == (ScrollBarDefaultStyle { rect, ..*old(self) }),
            placed@ == Seq::new(children@.len(), |k: int| rect),
    {
        self.rect = rect;
        let mut placed: Vec<Rect> = Vec::new();
        let mut k: usize = 0;
        while k < children.len()
            invariant
                k <= children@.len(),
                placed@.len() == k,
                forall|a: int| 0 <= a < k ==> placed@[a] == rect,
            decreases children.len() - k,
        {
            placed.push(rect);
            k += 1;
        }
        assert(placed@ =~= Seq::new(children@.len(), |k: int| rect));
        placed
    }

    pub fn new() -> (style: Self)
        ensures
            style.rect == Rect::zero(),
            style.thumb_pos_px == 0,
            style.thumb_size_px == 0,
            !style.is_thumb_hover.value(),
            !style.is_thumb_pressed.value(),
            style.is_thumb_hover.handlers().len() == 0,
            style.is_thumb_pressed.handlers().len() == 0,
            style.pressed_position == (Point { x: 0, y: 0 }),
            style.event_subscriptions@ == Seq::<EventSubscription>::empty(),
    {
        ScrollBarDefaultStyle {
            rect: Rect::empty(),
            thumb_pos_px: 0,
            thumb_size_px: 0,
            is_thumb_hover: Property::new(false),
            is_thumb_pressed: Property::new(false),
            pressed_position: Point::new(0, 0),
            event_subscriptions: Vec::new(),
        }
    }

    /// Whether a tap at `position` takes hold of the thumb.
    pub open spec fn grabs(&self, position: Point) -> bool {
        self.thumb_pos_px <= position.x < self.thumb_pos_px + self.thumb_size_px
    }

    /// Whether the thumb is pressed after `event`.
    pub open spec fn pressed_after(&self, event: ControlEvent) -> bool {
        match event {
            ControlEvent::TapDown { position } => self.is_thumb_pressed.value() || self.grabs(
                position,
            ),
            ControlEvent::TapUp { .. } => false,
            _ => self.is_thumb_pressed.value(),
        }
    }

    /// Whether the pointer hovers over the bar after `event`.
    pub open spec fn hover_after(&self, event: ControlEvent) -> bool {
        match event {
            ControlEvent::HoverEnter => true,
            ControlEvent::HoverLeave => false,
            _ => self.is_thumb_hover.value(),
        }
    }

    /// The value of the bar after `event`: a move with the thumb pressed
    /// drags the value along with the pointer.
    pub open spec fn value_after(&self, data: &ScrollBar, event: ControlEvent) -> int {
        match event {
            ControlEvent::TapMove { position } => if self.is_thumb_pressed.value() {
                value_at(
                    data.min_value.value() as int,
                    data.max_value.value() as int,
                    self.thumb_pos_px + (position.x - self.pressed_position.x),
                    track_length(data.orientation, self.rect),
                    self.thumb_size_px as int,
                )
            } else {
                data.value.value() as int
            },
            _ => data.value.value() as int,
        }
    }

    /// The position of the pointer that the style remembers after `event`:
    /// that of a tap that took hold of the thumb, and that of a move that
    /// changed the value.
    pub open spec fn pressed_position_after(&self, data: &ScrollBar, event: ControlEvent) -> Point {
        match event {
            ControlEvent::TapDown { position } => if self.grabs(position) {
                position
            } else {
                self.pressed_position
            },
            ControlEvent::TapMove { position } => if self.value_after(data, event)
                != data.value.value() {
                position
            } else {
                self.pressed_position
            },
            _ => self.pressed_position,
        }
    }

    /// The primitives of the bar: the trough before the thumb, the thumb,
    /// the trough behind it, and a sunken border around all of it.
    pub open spec fn bar_primitives(&self, data: &ScrollBar) -> Seq<Primitive> {
        let rect = self.rect;
        let track = track_length(data.orientation, rect);
        let before = if self.thumb_pos_px > 0 {
            seq![
                Primitive::Rectangle {
                    color: default_theme::trough_color(),
                    rect: Rect { x: rect.x, y: rect.y, width: self.thumb_pos_px, height: rect.height },
                },
            ]
        } else {
            Seq::empty()
        };
        let thumb = default_theme::button_primitives(
            clamp_px(rect.x + self.thumb_pos_px) as i32,
            clamp_px(rect.y + 1) as i32,
            self.thumb_size_px,
            clamp_px(rect.height - 2) as i32,
            self.is_thumb_pressed.value(),
            self.is_thumb_hover.value(),
        );
        let behind = if self.thumb_pos_px + self.thumb_size_px < track {
            seq![
                Primitive::Rectangle {
                    color: default_theme::trough_color(),
                    rect: Rect {
                        x: clamp_px(rect.x + self.thumb_pos_px + self.thumb_size_px) as i32,
                        y: rect.y,
                        width: clamp_px(track - self.thumb_pos_px - self.thumb_size_px) as i32,
                        height: rect.height,
                    },
                },
            ]
        } else {
            Seq::empty()
        };
        before + thumb + behind + default_theme::border_3d_lines(
            rect.x,
            rect.y,
            rect.width,
            rect.height,
            true,
        )
    }

    fn track(&self, data: &ScrollBar) -> (track: i128)
        ensures
            track == track_length(data.orientation, self.rect),
    {
        match data.orientation {
            Orientation::Horizontal => self.rect.width as i128 - self.rect.x as i128,
            Orientation::Vertical => self.rect.height as i128 - self.rect.y as i128,
        }
    }

    /// Works out the length and the place of the thumb from the rectangle
    /// and the values of the bar.
    fn calc_sizes(&mut self, data: &ScrollBar)
        ensures
            *final(self) == (ScrollBarDefaultStyle {
                thumb_size_px: thumb_size(
                    data.min_value.value() as int,
                    data.max_value.value() as int,
                    data.viewport_size.value() as int,
                    track_length(data.orientation, old(self).rect),
                ) as i32,
                thumb_pos_px: thumb_pos(
                    data.min_value.value() as int,
                    data.max_value.value() as int,
                    data.value.value() as int,
                    track_length(data.orientation, old(self).rect),
                    final(self).thumb_size_px as int,
                ) as i32,
                ..*old(self)
            }),
    {
        let track = self.track(data);
        let min = data.min_value.get() as i128;
        let max = data.max_value.get() as i128;
        let value = data.value.get() as i128;
        let viewport = data.viewport_size.get() as i128;
        assert(-0x1_0000_0000_0000_0000 < viewport * track < 0x1_0000_0000_0000_0000)
            by (nonlinear_arith)
            requires
                -0x8000_0000 <= viewport <= 0x8000_0000,
                -0x1_0000_0000 <= track <= 0x1_0000_0000,
        ;
        let share = div_px(viewport * track, max - min + viewport);
        let thumb = clamp_to_px(
            if share < 20 {
                20
            } else {
                share
            },
        );
        let way = track - thumb as i128;
        let along = value - min;
        assert(-0x10_0000_0000_0000_0000 < way * along < 0x10_0000_0000_0000_0000)
            by (nonlinear_arith)
            requires
                -0x2_0000_0000 <= way <= 0x2_0000_0000,
                -0x1_0000_0000 <= along <= 0x1_0000_0000,
        ;
        self.thumb_size_px = thumb;
        self.thumb_pos_px = clamp_to_px(div_px(way * along, max - min));
    }
}

impl Style<ScrollBar> for ScrollBarDefaultStyle {
    open spec fn rect(&self) -> Rect {
        self.rect
    }

    open spec fn watches(
        &self,
        data: &ScrollBar,
        control: usize,
        style: &Self,
        watched: &ScrollBar,
    ) -> bool {
        &&& style.rect == self.rect
        &&& style.thumb_pos_px == self.thumb_pos_px
        &&& style.thumb_size_px == self.thumb_size_px
        &&& style.pressed_position == self.pressed_position
        &&& self.is_thumb_hover.watched_by(&style.is_thumb_hover, control)
        &&& self.is_thumb_pressed.watched_by(&style.is_thumb_pressed, control)
        &&& watched.orientation == data.orientation
        &&& data.min_value.watched_by(&watched.min_value, control)
        &&& data.max_value.watched_by(&watched.max_value, control)
        &&& data.value.watched_by(&watched.value, control)
        &&& data.viewport_size.watched_by(&watched.viewport_size, control)
        &&& style.event_subscriptions@ == self.event_subscriptions@.push(
            EventSubscription { id: self.is_thumb_hover.changed().next_id() },
        ).push(EventSubscription { id: self.is_thumb_pressed.changed().next_id() }).push(
            EventSubscription { id: data.min_value.changed().next_id() },
        ).push(EventSubscription { id: data.max_value.changed().next_id() }).push(
            EventSubscription { id: data.value.changed().next_id() },
        ).push(EventSubscription { id: data.viewport_size.changed().next_id() })
    }

    open spec fn handles(
        &self,
        data: &ScrollBar,
        event: ControlEvent,
        style: &Self,
        handled: &ScrollBar,
        consumed: bool,
        fired: Seq<Handler>,
    ) -> bool {
        &&& style.rect == self.rect
        &&& style.thumb_pos_px == self.thumb_pos_px
        &&& style.thumb_size_px == self.thumb_size_px
        &&& style.event_subscriptions == self.event_subscriptions
        &&& style.pressed_position == self.pressed_position_after(data, event)
        &&& self.is_thumb_pressed.set_to(&style.is_thumb_pressed, self.pressed_after(event))
        &&& self.is_thumb_hover.set_to(&style.is_thumb_hover, self.hover_after(event))
        &&& *handled == (ScrollBar { value: handled.value, ..*data })
        &&& data.value.set_to(&handled.value, self.value_after(data, event) as i32)
        &&& consumed
        &&& fired == set_report(
            self.is_thumb_pressed.value(),
            self.is_thumb_pressed.handlers(),
            self.pressed_after(event),
        ) + set_report(
            self.is_thumb_hover.value(),
            self.is_thumb_hover.handlers(),
            self.hover_after(event),
        ) + set_report(
            data.value.value(),
            data.value.handlers(),
            self.value_after(data, event) as i32,
        )
    }

    open spec fn query(&self, data: &ScrollBar) -> ResourceQuery {
        ResourceQuery::Nothing
    }

    /// A bar asks for 150 pixels along its orientation and 20 across.
    open spec fn measures(
        &self,
        data: &ScrollBar,
        children: Seq<Size>,
        metrics: Metrics,
        size: Size,
        style: &Self,
        desired: Size,
    ) -> bool {
        &&& desired == match data.orientation {
            Orientation::Horizontal => Size { width: 150, height: 20 },
            Orientation::Vertical => Size { width: 20, height: 150 },
        }
        &&& *style == (ScrollBarDefaultStyle {
            rect: Rect { x: 0, y: 0, width: desired.width, height: desired.height },
            ..*self
        })
    }

    open spec fn arranges(
        &self,
        data: &ScrollBar,
        children: Seq<Size>,
        rect: Rect,
        style: &Self,
        placed: Seq<Rect>,
    ) -> bool {
        &&& style.thumb_size_px == thumb_size(
            data.min_value.value() as int,
            data.max_value.value() as int,
            data.viewport_size.value() as int,
            track_length(data.orientation, rect),
        )
        &&& style.thumb_pos_px == thumb_pos(
            data.min_value.value() as int,
            data.max_value.value() as int,
            data.value.value() as int,
            track_length(data.orientation, rect),
            style.thumb_size_px as int,
        )
        &&& *style == (ScrollBarDefaultStyle {
            rect,
            thumb_size_px: style.thumb_size_px,
            thumb_pos_px: style.thumb_pos_px,
            ..*self
        })
        &&& placed == Seq::new(children.len(), |k: int| rect)
    }

    open spec fn hit(&self, data: &ScrollBar, point: Point) -> HitTestResult {
        if point.inside(self.rect) {
            HitTestResult::Current
        } else {
            HitTestResult::Nothing
        }
    }

    open spec fn primitives(
        &self,
        data: &ScrollBar,
        children: Seq<Primitive>,
        metrics: Metrics,
    ) -> Seq<Primitive> {
        self.bar_primitives(data)
    }

    fn setup_dirty_watching(&mut self, data: &mut ScrollBar, control: usize) {
        let sub = self.is_thumb_hover.dirty_watching(control);
        self.event_subscriptions.push(sub);
        let sub = self.is_thumb_pressed.dirty_watching(control);
        self.event_subscriptions.push(sub);
        let sub = data.min_value.dirty_watching(control);
        self.event_subscriptions.push(sub);
        let sub = data.max_value.dirty_watching(control);
        self.event_subscriptions.push(sub);
        let sub = data.value.dirty_watching(control);
        self.event_subscriptions.push(sub);
        let sub = data.viewport_size.dirty_watching(control);
        self.event_subscriptions.push(sub);
    }

    fn handle_event(&mut self, data: &mut ScrollBar, event: ControlEvent) -> (outcome: (
        bool,
        Vec<Handler>,
    )) {
        broadcast use vstd::laws_eq::group_laws_eq;

        let mut fired: Vec<Handler> = Vec::new();
        match event {
            ControlEvent::TapDown { position } => {
                if position.x as i64 >= self.thumb_pos_px as i64 && (position.x as i64)
                    < self.thumb_pos_px as i64 + self.thumb_size_px as i64 {
                    let mut changed = self.is_thumb_pressed.set(true);
                    fired.append(&mut changed);
                    self.pressed_position = position;
                }
            },
            ControlEvent::TapUp { .. } => {
                let mut changed = self.is_thumb_pressed.set(false);
                fired.append(&mut changed);
            },
            ControlEvent::TapMove { position } => {
                if self.is_thumb_pressed.get() {
                    let track = self.track(data);
                    let min = data.min_value.get() as i128;
                    let max = data.max_value.get() as i128;
                    let offset_x = position.x as i128 - self.pressed_position.x as i128;
                    let pos = self.thumb_pos_px as i128 + offset_x;
                    let range = max - min;
                    assert(-0x10_0000_0000_0000_0000 < pos * range < 0x10_0000_0000_0000_0000)
                        by (nonlinear_arith)
                        requires
                            -0x2_0000_0000 <= pos <= 0x2_0000_0000,
                            -0x1_0000_0000 <= range <= 0x1_0000_0000,
                    ;
                    let raw = min + div_px(pos * range, track - self.thumb_size_px as i128);
                    let raised = if raw < min {
                        min
                    } else {
                        raw
                    };
                    let new_value = if raised > max {
                        max
                    } else {
                        raised
                    };
                    let new_value = new_value as i32;
                    if new_value != data.value.get() {
                        self.pressed_position = position;
                        let mut changed = data.value.set(new_value);
                        fired.append(&mut changed);
                    }
                }
            },
            ControlEvent::HoverEnter => {
                let mut changed = self.is_thumb_hover.set(true);
                fired.append(&mut changed);
            },
            ControlEvent::HoverLeave => {
                let mut changed = self.is_thumb_hover.set(false);
                fired.append(&mut changed);
            },
        }
        assert(fired@ =~= set_report(
            old(self).is_thumb_pressed.value(),
            old(self).is_thumb_pressed.handlers(),
            old(self).pressed_after(event),
        ) + set_report(
            old(self).is_thumb_hover.value(),
            old(self).is_thumb_hover.handlers(),
            old(self).hover_after(event),
        ) + set_report(
            old(data).value.value(),
            old(data).value.handlers(),
            old(self).value_after(old(data), event) as i32,
        ));
        (true, fired)
    }

    fn resource_query(&self, data: &ScrollBar) -> (query: ResourceQuery) {
        ResourceQuery::Nothing
    }

    fn measure(&mut self, data: &ScrollBar, children: &Vec<Size>, metrics: Metrics, size: Size) -> (desired:
        Size) {
        match data.orientation {
            Orientation::Horizontal => {
                self.rect = Rect::new(0, 0, 150, 20);
            },
            Orientation::Vertical => {
                self.rect = Rect::new(0, 0, 20, 150);
            },
        }
        Size::new(self.rect.width, self.rect.height)
    }

    fn set_rect(&mut self, data: &ScrollBar, children: &Vec<Size>, rect: Rect) -> (placed: Vec<
        Rect,
    >) {
        let placed = self.place_all(children, rect);
        self.calc_sizes(data);
        placed
    }

    fn get_rect(&self) -> (rect: Rect) {
        self.rect
    }

    fn hit_test(&self, data: &ScrollBar, point: Point) -> (result: HitTestResult) {
        if point.is_inside(&self.rect) {
            HitTestResult::Current
        } else {
            HitTestResult::Nothing
        }
    }

    fn to_primitives(&self, data: &ScrollBar, children: Vec<Primitive>, metrics: Metrics) -> (primitives:
        Vec<Primitive>) {
        let x = self.rect.x;
        let y = self.rect.y;
        let width = self.rect.width;
        let height = self.rect.height;
        let track = self.track(data);
        let background = Color { r: 26, g: 128, b: 0, a: 51 };
        let mut vec: Vec<Primitive> = Vec::new();
        if self.thumb_pos_px > 0 {
            vec.push(
                Primitive::Rectangle {
                    color: background,
                    rect: Rect::new(x, y, self.thumb_pos_px, height),
                },
            );
        }
        default_theme::button(
            &mut vec,
            add_px(x, self.thumb_pos_px),
            add_px(y, 1),
            self.thumb_size_px,
            sub_px(height, 2),
            self.is_thumb_pressed.get(),
            self.is_thumb_hover.get(),
        );
        let thumb_end = self.thumb_pos_px as i128 + self.thumb_size_px as i128;
        if thumb_end < track {
            vec.push(
                Primitive::Rectangle {
                    color: background,
                    rect: Rect::new(
                        clamp_to_px(x as i128 + thumb_end),
                        y,
                        clamp_to_px(track - thumb_end),
                        height,
                    ),
                },
            );
        }
        default_theme::border_3d(&mut vec, x, y, width, height, true);
        assert(vec@ =~= self.bar_primitives(data));
        vec
    }
}

} // verus!
