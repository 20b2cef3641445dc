//! The button: a frame around one content control that reports clicks.
//!
//! A button is pressed from a tap down inside it until the tap ends or
//! moves outside; a tap that ends inside a pressed button is a click.
//! Whether the pointer hovers over it is tracked apart from that.

use vstd::prelude::*;
use crate::callback::Callback;
use crate::common::{add_px, clamp_px, HitTestResult, Point, Rect, Size};
use crate::default_theme;
use crate::drawing::{moved_all, translate, Primitive};
use crate::events::ControlEvent;
use crate::observable::{EventSubscription, Handler};
use crate::property::{set_report, Property};
use crate::style::{Metrics, PropertyDirtyExtension, ResourceQuery, Style};

verus! {

pub struct ButtonProperties {
    /// The control shown inside the button.
    pub content: usize,
}

pub struct ButtonEvents {
    pub clicked: Callback,
}

pub struct ButtonState {
    pub is_hover: Property<bool>,
    pub is_pressed: Property<bool>,
}

pub struct Button {
    pub properties: ButtonProperties,
    pub events: ButtonEvents,
    pub state: ButtonState,
}

/// The space between the frame of a button and its content.
pub open spec fn padding() -> i32 {
    10
}

impl Button {
    /// Whether the button is pressed after `event`, for a button that
    /// fills `rect`. A tap down inside the button presses it. A pressed
    /// button stays pressed until the tap ends or moves outside; nothing
    /// but a tap down presses it again.
    pub open spec fn pressed_after(&self, event: ControlEvent, rect: Rect) -> bool {
        match event {
            ControlEvent::TapDown { position } => self.state.is_pressed.value() || position.inside(
                rect,
            ),
            ControlEvent::TapUp { .. } => false,
            ControlEvent::TapMove { position } => self.state.is_pressed.value() && position.inside(
                rect,
            ),
            _ => self.state.is_pressed.value(),
        }
    }

    /// Whether the pointer hovers over the button after `event`.
    pub open spec fn hover_after(&self, event: ControlEvent) -> bool {
        match event {
            ControlEvent::HoverEnter => true,
            ControlEvent::HoverLeave => false,
            _ => self.state.is_hover.value(),
        }
    }

    /// The click that `event` amounts to: a tap that ends inside a pressed
    /// button fires the `clicked` callback, if there is one.
    pub open spec fn click_of(&self, event: ControlEvent, rect: Rect) -> Seq<Handler> {
        match event {
            ControlEvent::TapUp { position } => if self.state.is_pressed.value()
                && position.inside(rect) {
                match self.events.clicked.key {
                    Some(key) => seq![Handler::Callback { key }],
                    None => Seq::empty(),
                }
            } else {
                Seq::empty()
            },
            _ => Seq::empty(),
        }
    }

    /// The handlers that `event` fires: the click, then the subscribers of
    /// whichever state changed.
    pub open spec fn fires(&self, event: ControlEvent, rect: Rect) -> Seq<Handler> {
        self.click_of(event, rect) + set_report(
            self.state.is_pressed.value(),
            self.state.is_pressed.handlers(),
            self.pressed_after(event, rect),
        ) + set_report(
            self.state.is_hover.value(),
            self.state.is_hover.handlers(),
            self.hover_after(event),
        )
    }

    /// A button around `properties.content` that is neither pressed nor
    /// hovered and reports its clicks to nobody.
    pub fn new(properties: ButtonProperties) -> (button: Self)
        ensures
            button.properties == properties,
            button.events.clicked.key == None::<usize>,
            !button.state.is_hover.value(),
            !button.state.is_pressed.value(),
            button.state.is_hover.handlers().len() == 0,
            button.state.is_pressed.handlers().len() == 0,
            button.state.is_hover.changed().next_id() == 0,
            button.state.is_pressed.changed().next_id() == 0,
    {
        Button {
            properties,
            events: ButtonEvents { clicked: Callback::new() },
            state: ButtonState { is_hover: Property::new(false), is_pressed: Property::new(false) },
        }
    }
}

pub struct ButtonDefaultStyle {
    rect: Rect,
    event_subscriptions: Vec<EventSubscription>,
}

impl ButtonDefaultStyle {
    /// Takes `rect` and hands the same rectangle to each child.
    pub fn place_all(&mut self, children: &Vec<Size>, rect: Rect) -> (placed: Vec<Rect>)
        ensures
            final(self).frame() == rect,
            final(self).subscriptions() == old(self).subscriptions(),
            placed@ == Seq::new(children@.len(), |k: int| rect),
    {
        self.rect = rect;
        let mut placed: Vec<Rect> = Vec::new();
        let mut k: usize = 0;
        while k < children.len()
            invariant
                k <= children@.len(),
                placed@.len() == k,
                forall|a: int| 0 <= a < k ==> placed@[a] == rect,
            decreases children.len() - k,
        {
            placed.push(rect);
            k += 1;
        }
        assert(placed@ =~= Seq::new(children@.len(), |k: int| rect));
        placed
    }

    /// The subscriptions that keep the button watching its state.
    pub closed spec fn subscriptions(&self) -> Seq<EventSubscription> {
        self.event_subscriptions@
    }

    /// The rectangle last assigned.
    pub closed spec fn frame(&self) -> Rect {
        self.rect
    }

    pub fn new() -> (style: Self)
        ensures
            style.frame() == Rect::zero(),
            style.subscriptions() == Seq::<EventSubscription>::empty(),
    {
        ButtonDefaultStyle { rect: Rect::empty(), event_subscriptions: Vec::new() }
    }
}

/// What the first child asked for, or nothing where there is no child.
pub open spec fn content_size(children: Seq<Size>) -> Size {
    if children.len() > 0 {
        children[0]
    } else {
        Size { width: 0, height: 0 }
    }
}

impl Style<Button> for ButtonDefaultStyle {
    open spec fn rect(&self) -> Rect {
        self.frame()
    }

    open spec fn watches(&self, data: &Button, control: usize, style: &Self, watched: &Button) -> bool {
        &&& style.frame() == self.frame()
        &&& style.subscriptions() == self.subscriptions().push(
            EventSubscription { id: data.state.is_hover.changed().next_id() },
        ).push(EventSubscription { id: data.state.is_pressed.changed().next_id() })
        &&& watched.properties == data.properties
        &&& watched.events == data.events
        &&& data.state.is_hover.watched_by(&watched.state.is_hover, control)
        &&& data.state.is_pressed.watched_by(&watched.state.is_pressed, control)
    }

    open spec fn handles(
        &self,
        data: &Button,
        event: ControlEvent,
        style: &Self,
        handled: &Button,
        consumed: bool,
        fired: Seq<Handler>,
    ) -> bool {
        &&& *style == *self
        &&& handled.properties == data.properties
        &&& handled.events == data.events
        &&& data.state.is_pressed.set_to(
            &handled.state.is_pressed,
            data.pressed_after(event, self.frame()),
        )
        &&& data.state.is_hover.set_to(&handled.state.is_hover, data.hover_after(event))
        &&& consumed
        &&& fired == data.fires(event, self.frame())
    }

    open spec fn query(&self, data: &Button) -> ResourceQuery {
        ResourceQuery::Nothing
    }

    open spec fn measures(
        &self,
        data: &Button,
        children: Seq<Size>,
        metrics: Metrics,
        size: Size,
        style: &Self,
        desired: Size,
    ) -> bool {
        &&& *style == *self
        &&& desired == (Size {
            width: clamp_px(content_size(children).width + 2 * padding()) as i32,
            height: clamp_px(content_size(children).height + 2 * padding()) as i32,
        })
    }

    open spec fn arranges(
        &self,
        data: &Button,
        children: Seq<Size>,
        rect: Rect,
        style: &Self,
        placed: Seq<Rect>,
    ) -> bool {
        &&& style.frame() == rect
        &&& style.subscriptions() == self.subscriptions()
        &&& placed == Seq::new(children.len(), |k: int| rect.deflated(padding()))
    }

    open spec fn hit(&self, data: &Button, point: Point) -> HitTestResult {
        if point.inside(self.frame()) {
            HitTestResult::Current
        } else {
            HitTestResult::Nothing
        }
    }

    open spec fn primitives(&self, data: &Button, children: Seq<Primitive>, metrics: Metrics) -> Seq<
        Primitive,
    > {
        default_theme::button_primitives(
            self.frame().x,
            self.frame().y,
            self.frame().width,
            self.frame().height,
            data.state.is_pressed.value(),
            data.state.is_hover.value(),
        ) + if data.state.is_pressed.value() {
            moved_all(children, Point { x: 1, y: 1 })
        } else {
            children
        }
    }

    fn setup_dirty_watching(&mut self, data: &mut Button, control: usize) {
        let hover = data.state.is_hover.dirty_watching(control);
        self.event_subscriptions.push(hover);
        let pressed = data.state.is_pressed.dirty_watching(control);
        self.event_subscriptions.push(pressed);
    }

    fn handle_event(&mut self, data: &mut Button, event: ControlEvent) -> (outcome: (
        bool,
        Vec<Handler>,
    )) {
        broadcast use vstd::laws_eq::group_laws_eq;

        let mut fired: Vec<Handler> = Vec::new();
        match event {
            ControlEvent::TapDown { position } => {
                if position.is_inside(&self.rect) {
                    let mut changed = data.state.is_pressed.set(true);
                    fired.append(&mut changed);
                }
            },
            ControlEvent::TapUp { position } => {
                if data.state.is_pressed.get() && position.is_inside(&self.rect) {
                    match data.events.clicked.key {
                        Some(key) => {
                            fired.push(Handler::Callback { key });
                        },
                        None => {},
                    }
                }
                let mut changed = data.state.is_pressed.set(false);
                fired.append(&mut changed);
            },
            ControlEvent::TapMove { position } => {
                if data.state.is_pressed.get() && !position.is_inside(&self.rect) {
                    let mut changed = data.state.is_pressed.set(false);
                    fired.append(&mut changed);
                }
            },
            ControlEvent::HoverEnter => {
                let mut changed = data.state.is_hover.set(true);
                fired.append(&mut changed);
            },
            ControlEvent::HoverLeave => {
                let mut changed = data.state.is_hover.set(false);
                fired.append(&mut changed);
            },
        }
        assert(fired@ =~= old(data).fires(event, self.frame()));
        (true, fired)
    }

    fn resource_query(&self, data: &Button) -> (query: ResourceQuery) {
        ResourceQuery::Nothing
    }

    fn measure(&mut self, data: &Button, children: &Vec<Size>, metrics: Metrics, size: Size) -> (desired:
        Size) {
        let content = if children.len() > 0 {
            children[0]
        } else {
            Size::new(0, 0)
        };
        Size::new(add_px(content.width, 20), add_px(content.height, 20))
    }

    fn set_rect(&mut self, data: &Button, children: &Vec<Size>, rect: Rect) -> (placed: Vec<Rect>) {
        self.rect = rect;
        let content_rect = rect.deflate(10);
        let mut placed: Vec<Rect> = Vec::new();
        let mut k: usize = 0;
        while k < children.len()
            invariant
                k <= children@.len(),
                placed@.len() == k,
                forall|a: int| 0 <= a < k ==> placed@[a] == content_rect,
            decreases children.len() - k,
        {
            placed.push(content_rect);
            k += 1;
        }
        assert(placed@ =~= Seq::new(children@.len(), |k: int| rect.deflated(padding())));
        placed
    }

    fn get_rect(&self) -> (rect: Rect) {
        self.rect
    }

    fn hit_test(&self, data: &Button, point: Point) -> (result: HitTestResult) {
        if point.is_inside(&self.rect) {
            HitTestResult::Current
        } else {
            HitTestResult::Nothing
        }
    }

    fn to_primitives(&self, data: &Button, children: Vec<Primitive>, metrics: Metrics) -> (primitives:
        Vec<Primitive>) {
        let mut vec: Vec<Primitive> = Vec::new();
        let is_pressed = data.state.is_pressed.get();
        default_theme::button(
            &mut vec,
            self.rect.x,
            self.rect.y,
            self.rect.width,
            self.rect.height,
            is_pressed,
            data.state.is_hover.get(),
        );
        let mut content = if is_pressed {
            translate(children, Point::new(1, 1))
        } else {
            children
        };
        vec.append(&mut content);
        vec
    }
}

} // verus!
