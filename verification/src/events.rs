//! Input events, and the detectors that turn them into gestures.

use vstd::prelude::*;
use crate::common::{Point, Rect};
use crate::observable::{Event, Handler, Subscriber};

verus! {

/// A button of the pointing device.
#[derive(Clone, Copy, Debug, PartialEq, Eq, Structural)]
pub enum MouseButton {
    Left,
    Right,
    Middle,
    Other,
}

/// Whether a button went down or up.
#[derive(Clone, Copy, Debug, PartialEq, Eq, Structural)]
pub enum ElementState {
    Pressed,
    Released,
}

/// One event of the window, as the event loop hands it over.
#[derive(Clone, Copy, Debug, PartialEq, Eq, Structural)]
pub enum InputEvent {
    CloseRequested,
    Refresh,
    Resized { width: u32, height: u32 },
    CursorMoved { position: Point },
    CursorLeft,
    MouseInput { button: MouseButton, state: ElementState },
    Other,
}

/// An event routed to one control.
#[derive(Clone, Copy, Debug, PartialEq, Eq, Structural)]
pub enum ControlEvent {
    TapDown { position: Point },
    TapUp { position: Point },
    TapMove { position: Point },
    HoverEnter,
    HoverLeave,
}

/// A pointer gesture, not yet routed to a control.
#[derive(Clone, Copy, Debug, PartialEq, Eq, Structural)]
pub enum Gesture {
    TapDown { position: Point },
    TapUp { position: Point },
    TapMove { position: Point },
}

/// Where the pointer is after `event`, if it was at `mouse_pos` before.
pub open spec fn pointer_after(mouse_pos: Point, event: InputEvent) -> Point {
    match event {
        InputEvent::CursorMoved { position } => position,
        _ => mouse_pos,
    }
}

/// The gesture that `event` amounts to with the pointer at `mouse_pos`.
/// Only the left button taps.
pub open spec fn gesture_of(mouse_pos: Point, event: InputEvent) -> Option<Gesture> {
    match event {
        InputEvent::CursorMoved { position } => Some(Gesture::TapMove { position }),
        InputEvent::MouseInput { button: MouseButton::Left, state: ElementState::Pressed } => Some(
            Gesture::TapDown { position: mouse_pos },
        ),
        InputEvent::MouseInput { button: MouseButton::Left, state: ElementState::Released } => Some(
            Gesture::TapUp { position: mouse_pos },
        ),
        _ => None,
    }
}

/// Turns window events into gestures, remembering where the pointer is.
pub struct GestureDetectorCore {
    mouse_pos: Point,
}

impl GestureDetectorCore {
    /// The last known position of the pointer.
    pub closed spec fn mouse_pos(&self) -> Point {
        self.mouse_pos
    }

    pub fn new() -> (d: Self)
        ensures
            d.mouse_pos() == (Point { x: 0, y: 0 }),
    {
        GestureDetectorCore { mouse_pos: Point::new(0, 0) }
    }

    pub fn handle_event(&mut self, event: &InputEvent) -> (gesture: Option<Gesture>)
        ensures
            gesture == gesture_of(old(self).mouse_pos(), *event),
            final(self).mouse_pos() == pointer_after(old(self).mouse_pos(), *event),
    {
        match event {
            InputEvent::CursorMoved { position } => {
                self.mouse_pos = *position;
                Some(Gesture::TapMove { position: self.mouse_pos })
            },
            InputEvent::MouseInput { button: MouseButton::Left, state: ElementState::Pressed } => {
                Some(Gesture::TapDown { position: self.mouse_pos })
            },
            InputEvent::MouseInput { button: MouseButton::Left, state: ElementState::Released } => {
                Some(Gesture::TapUp { position: self.mouse_pos })
            },
            _ => None,
        }
    }
}

/// Whether the pointer hovers after `event`, for a detector that watches
/// `rect` and whose pointer hovered or not before, as `is_hover` says.
pub open spec fn hover_after(rect: Rect, is_hover: bool, event: InputEvent) -> bool {
    match event {
        InputEvent::CursorMoved { position } => position.inside(rect),
        InputEvent::CursorLeft => false,
        _ => is_hover,
    }
}

/// Watches one rectangle and reports when the pointer enters and leaves it.
pub struct GestureDetector {
    pub on_hover_enter: Event,
    pub on_hover_leave: Event,
    /// The rectangle that is watched.
    pub rect: Rect,
    /// The last known position of the pointer.
    pub mouse_pos: Point,
    /// Whether the pointer was inside the rectangle when last heard of.
    pub is_hover: bool,
}

impl GestureDetector {
    /// What `handle_event` reports: the subscribers of `on_hover_enter` when
    /// the pointer comes in, those of `on_hover_leave` when it goes out, and
    /// nothing while it stays where it was.
    pub open spec fn hover_fires(&self, event: InputEvent) -> Seq<Handler> {
        let now = hover_after(self.rect, self.is_hover, event);
        if now && !self.is_hover {
            self.on_hover_enter.handlers()
        } else if !now && self.is_hover {
            self.on_hover_leave.handlers()
        } else {
            Seq::empty()
        }
    }

    /// A detector that watches the rectangle of no extent, with the pointer
    /// at the origin and outside it, and with nobody subscribed to either
    /// event: the first subscription to each gets the id 0.
    pub fn new() -> (d: Self)
        ensures
            d.rect == Rect::zero(),
            d.mouse_pos == (Point { x: 0, y: 0 }),
            !d.is_hover,
            d.on_hover_enter.subscribers() == Seq::<Subscriber>::empty(),
            d.on_hover_enter.next_id() == 0,
            d.on_hover_leave.subscribers() == Seq::<Subscriber>::empty(),
            d.on_hover_leave.next_id() == 0,
    {
        GestureDetector {
            on_hover_enter: Event::new(),
            on_hover_leave: Event::new(),
            rect: Rect::empty(),
            mouse_pos: Point::new(0, 0),
            is_hover: false,
        }
    }

    pub fn set_rect(&mut self, rect: Rect)
        ensures
            *final(self) == (GestureDetector { rect, ..*old(self) }),
    {
        self.rect = rect;
    }

    pub fn handle_event(&mut self, event: &InputEvent) -> (fired: Vec<Handler>)
        ensures
            *final(self) == (GestureDetector {
                mouse_pos: pointer_after(old(self).mouse_pos, *event),
                is_hover: hover_after(old(self).rect, old(self).is_hover, *event),
                ..*old(self)
            }),
            fired@ == old(self).hover_fires(*event),
    {
        match event {
            InputEvent::CursorMoved { position } => {
                self.mouse_pos = *position;
                if self.mouse_pos.is_inside(&self.rect) {
                    if !self.is_hover {
                        self.is_hover = true;
                        return self.on_hover_enter.emit();
                    }
                } else {
                    if self.is_hover {
                        self.is_hover = false;
                        return self.on_hover_leave.emit();
                    }
                }
                Vec::new()
            },
            InputEvent::CursorLeft => {
                if self.is_hover {
                    self.is_hover = false;
                    return self.on_hover_leave.emit();
                }
                Vec::new()
            },
            _ => Vec::new(),
        }
    }
}

} // verus!
