//! Trees of the built-in controls.
//!
//! A tree holds controls of one data type and one style type. To let
//! buttons, texts, bitmaps, scroll bars and rows share a tree, their data
//! and their styles are gathered here in two enums. Another set of control kinds
//! gets a pair of enums of its own, or wraps these.

use vstd::prelude::*;
use crate::attached::AttachedValues;
use crate::common::{HitTestResult, Point, Rect, Size};
use crate::control::{names, Control, ControlTree};
use crate::controls::bitmap::{Bitmap, BitmapDefaultStyle};
use crate::controls::button::{Button, ButtonDefaultStyle, ButtonProperties};
use crate::controls::horizontal::{Horizontal, HorizontalDefaultStyle};
use crate::controls::scroll_bar::{ScrollBar, ScrollBarDefaultStyle};
use crate::controls::text::{Text, TextDefaultStyle, TextProperties};
use crate::drawing::Primitive;
use crate::events::ControlEvent;
use crate::observable::Handler;
use crate::style::{Metrics, ResourceQuery, Style};

verus! {

/// The data of a built-in control.
pub enum ControlData {
    Button(Button),
    Text(TextProperties),
    Bitmap(Bitmap),
    ScrollBar(ScrollBar),
    Horizontal(Horizontal),
}

/// The style of a built-in control. A style over the data of another kind
/// of control is inert: it handles nothing, asks for no room and draws
/// nothing.
pub enum ControlStyle {
    Button(ButtonDefaultStyle),
    Text(TextDefaultStyle),
    Bitmap(BitmapDefaultStyle),
    ScrollBar(ScrollBarDefaultStyle),
    Horizontal(HorizontalDefaultStyle),
}

/// A tree of built-in controls.
pub type ViewTree = ControlTree<ControlData, ControlStyle>;

/// What a control is given when it becomes part of a tree.
pub struct ViewContext {
    pub attached_values: AttachedValues,
    pub children: Vec<usize>,
}

impl ControlStyle {
    /// Whether the style is of the kind that `data` is of.
    pub open spec fn fits(&self, data: &ControlData) -> bool {
        match (*self, *data) {
            (ControlStyle::Button(_), ControlData::Button(_)) => true,
            (ControlStyle::Text(_), ControlData::Text(_)) => true,
            (ControlStyle::Bitmap(_), ControlData::Bitmap(_)) => true,
            (ControlStyle::ScrollBar(_), ControlData::ScrollBar(_)) => true,
            (ControlStyle::Horizontal(_), ControlData::Horizontal(_)) => true,
            _ => false,
        }
    }
}

impl Style<ControlData> for ControlStyle {
    open spec fn rect(&self) -> Rect {
        match *self {
            ControlStyle::Button(s) => s.rect(),
            ControlStyle::Text(s) => s.rect(),
            ControlStyle::Bitmap(s) => s.rect(),
            ControlStyle::ScrollBar(s) => s.rect(),
            ControlStyle::Horizontal(s) => s.rect(),
        }
    }

    open spec fn watches(
        &self,
        data: &ControlData,
        control: usize,
        style: &Self,
        watched: &ControlData,
    ) -> bool {
        match (*self, *data, *style, *watched) {
            (
                ControlStyle::Button(s),
                ControlData::Button(d),
                ControlStyle::Button(s2),
                ControlData::Button(d2),
            ) => s.watches(&d, control, &s2, &d2),
            (
                ControlStyle::Text(s),
                ControlData::Text(d),
                ControlStyle::Text(s2),
                ControlData::Text(d2),
            ) => s.watches(&d, control, &s2, &d2),
            (
                ControlStyle::Bitmap(s),
                ControlData::Bitmap(d),
                ControlStyle::Bitmap(s2),
                ControlData::Bitmap(d2),
            ) => s.watches(&d, control, &s2, &d2),
            (
                ControlStyle::ScrollBar(s),
                ControlData::ScrollBar(d),
                ControlStyle::ScrollBar(s2),
                ControlData::ScrollBar(d2),
            ) => s.watches(&d, control, &s2, &d2),
            (
                ControlStyle::Horizontal(s),
                ControlData::Horizontal(d),
                ControlStyle::Horizontal(s2),
                ControlData::Horizontal(d2),
            ) => s.watches(&d, control, &s2, &d2),
            _ => !self.fits(data) && *style == *self && *watched == *data,
        }
    }

    open spec fn handles(
        &self,
        data: &ControlData,
        event: ControlEvent,
        style: &Self,
        handled: &ControlData,
        consumed: bool,
        fired: Seq<Handler>,
    ) -> bool {
        match (*self, *data, *style, *handled) {
            (
                ControlStyle::Button(s),
                ControlData::Button(d),
                ControlStyle::Button(s2),
                ControlData::Button(d2),
            ) => s.handles(&d, event, &s2, &d2, consumed, fired),
            (
                ControlStyle::Text(s),
                ControlData::Text(d),
                ControlStyle::Text(s2),
                ControlData::Text(d2),
            ) => s.handles(&d, event, &s2, &d2, consumed, fired),
            (
                ControlStyle::Bitmap(s),
                ControlData::Bitmap(d),
                ControlStyle::Bitmap(s2),
                ControlData::Bitmap(d2),
            ) => s.handles(&d, event, &s2, &d2, consumed, fired),
            (
                ControlStyle::ScrollBar(s),
                ControlData::ScrollBar(d),
                ControlStyle::ScrollBar(s2),
                ControlData::ScrollBar(d2),
            ) => s.handles(&d, event, &s2, &d2, consumed, fired),
            (
                ControlStyle::Horizontal(s),
                ControlData::Horizontal(d),
                ControlStyle::Horizontal(s2),
                ControlData::Horizontal(d2),
            ) => s.handles(&d, event, &s2, &d2, consumed, fired),
            _ => {
                &&& !self.fits(data)
                &&& *style == *self
                &&& *handled == *data
                &&& !consumed
                &&& fired == Seq::<Handler>::empty()
            },
        }
    }

    open spec fn query(&self, data: &ControlData) -> ResourceQuery {
        match (*self, *data) {
            (ControlStyle::Button(s), ControlData::Button(d)) => s.query(&d),
            (ControlStyle::Text(s), ControlData::Text(d)) => s.query(&d),
            (ControlStyle::Bitmap(s), ControlData::Bitmap(d)) => s.query(&d),
            (ControlStyle::ScrollBar(s), ControlData::ScrollBar(d)) => s.query(&d),
            (ControlStyle::Horizontal(s), ControlData::Horizontal(d)) => s.query(&d),
            _ => ResourceQuery::Nothing,
        }
    }

    open spec fn measures(
        &self,
        data: &ControlData,
        children: Seq<Size>,
        metrics: Metrics,
        size: Size,
        style: &Self,
        desired: Size,
    ) -> bool {
        match (*self, *data, *style) {
            (ControlStyle::Button(s), ControlData::Button(d), ControlStyle::Button(s2)) => s.measures(
                &d,
                children,
                metrics,
                size,
                &s2,
                desired,
            ),
            (ControlStyle::Text(s), ControlData::Text(d), ControlStyle::Text(s2)) => s.measures(
                &d,
                children,
                metrics,
                size,
                &s2,
                desired,
            ),
            (ControlStyle::Bitmap(s), ControlData::Bitmap(d), ControlStyle::Bitmap(s2)) => s.measures(
                &d,
                children,
                metrics,
                size,
                &s2,
                desired,
            ),
            (
                ControlStyle::ScrollBar(s),
                ControlData::ScrollBar(d),
                ControlStyle::ScrollBar(s2),
            ) => s.measures(&d, children, metrics, size, &s2, desired),
            (
                ControlStyle::Horizontal(s),
                ControlData::Horizontal(d),
                ControlStyle::Horizontal(s2),
            ) => s.measures(&d, children, metrics, size, &s2, desired),
            _ => !self.fits(data) && *style == *self && desired == (Size { width: 0, height: 0 }),
        }
    }

    /// A style that does not fit its data keeps no rectangle of its own;
    /// `rect` then answers for the kind that the style is of.
    open spec fn arranges(
        &self,
        data: &ControlData,
        children: Seq<Size>,
        rect: Rect,
        style: &Self,
        placed: Seq<Rect>,
    ) -> bool {
        match (*self, *style) {
            (ControlStyle::Button(s), ControlStyle::Button(s2)) => match *data {
                ControlData::Button(d) => s.arranges(&d, children, rect, &s2, placed),
                _ => s2.frame() == rect && s2.subscriptions() == s.subscriptions() && placed
                    == Seq::new(children.len(), |k: int| rect),
            },
            (ControlStyle::Text(s), ControlStyle::Text(s2)) => s2 == (TextDefaultStyle {
                rect,
                ..s
            }) && placed == Seq::new(children.len(), |k: int| rect),
            (ControlStyle::Bitmap(s), ControlStyle::Bitmap(s2)) => s2.frame() == rect
                && s2.subscriptions() == s.subscriptions() && placed == Seq::new(
                children.len(),
                |k: int| rect,
            ),
            (ControlStyle::ScrollBar(s), ControlStyle::ScrollBar(s2)) => match *data {
                ControlData::ScrollBar(d) => s.arranges(&d, children, rect, &s2, placed),
                _ => s2 == (ScrollBarDefaultStyle { rect, ..s }) && placed == Seq::new(
                    children.len(),
                    |k: int| rect,
                ),
            },
            (ControlStyle::Horizontal(s), ControlStyle::Horizontal(s2)) => s.arranges(
                &(Horizontal {  }),
                children,
                rect,
                &s2,
                placed,
            ),
            _ => false,
        }
    }

    open spec fn hit(&self, data: &ControlData, point: Point) -> HitTestResult {
        match (*self, *data) {
            (ControlStyle::Button(s), ControlData::Button(d)) => s.hit(&d, point),
            (ControlStyle::Text(s), ControlData::Text(d)) => s.hit(&d, point),
            (ControlStyle::Bitmap(s), ControlData::Bitmap(d)) => s.hit(&d, point),
            (ControlStyle::ScrollBar(s), ControlData::ScrollBar(d)) => s.hit(&d, point),
            (ControlStyle::Horizontal(s), ControlData::Horizontal(d)) => s.hit(&d, point),
            _ => HitTestResult::Nothing,
        }
    }

    open spec fn primitives(
        &self,
        data: &ControlData,
        children: Seq<Primitive>,
        metrics: Metrics,
    ) -> Seq<Primitive> {
        match (*self, *data) {
            (ControlStyle::Button(s), ControlData::Button(d)) => s.primitives(&d, children, metrics),
            (ControlStyle::Text(s), ControlData::Text(d)) => s.primitives(&d, children, metrics),
            (ControlStyle::Bitmap(s), ControlData::Bitmap(d)) => s.primitives(&d, children, metrics),
            (ControlStyle::ScrollBar(s), ControlData::ScrollBar(d)) => s.primitives(
                &d,
                children,
                metrics,
            ),
            (ControlStyle::Horizontal(s), ControlData::Horizontal(d)) => s.primitives(
                &d,
                children,
                metrics,
            ),
            _ => Seq::empty(),
        }
    }

    fn setup_dirty_watching(&mut self, data: &mut ControlData, control: usize) {
        match self {
            ControlStyle::Button(s) => match data {
                ControlData::Button(d) => s.setup_dirty_watching(d, control),
                _ => {},
            },
            ControlStyle::Text(s) => match data {
                ControlData::Text(d) => s.setup_dirty_watching(d, control),
                _ => {},
            },
            ControlStyle::Bitmap(s) => match data {
                ControlData::Bitmap(d) => s.setup_dirty_watching(d, control),
                _ => {},
            },
            ControlStyle::ScrollBar(s) => match data {
                ControlData::ScrollBar(d) => s.setup_dirty_watching(d, control),
                _ => {},
            },
            ControlStyle::Horizontal(s) => match data {
                ControlData::Horizontal(d) => s.setup_dirty_watching(d, control),
                _ => {},
            },
        }
    }

    fn handle_event(&mut self, data: &mut ControlData, event: ControlEvent) -> (outcome: (
        bool,
        Vec<Handler>,
    )) {
        match self {
            ControlStyle::Button(s) => match data {
                ControlData::Button(d) => s.handle_event(d, event),
                _ => (false, Vec::new()),
            },
            ControlStyle::Text(s) => match data {
                ControlData::Text(d) => s.handle_event(d, event),
                _ => (false, Vec::new()),
            },
            ControlStyle::Bitmap(s) => match data {
                ControlData::Bitmap(d) => s.handle_event(d, event),
                _ => (false, Vec::new()),
            },
            ControlStyle::ScrollBar(s) => match data {
                ControlData::ScrollBar(d) => s.handle_event(d, event),
                _ => (false, Vec::new()),
            },
            ControlStyle::Horizontal(s) => match data {
                ControlData::Horizontal(d) => s.handle_event(d, event),
                _ => (false, Vec::new()),
            },
        }
    }

    fn resource_query(&self, data: &ControlData) -> (query: ResourceQuery) {
        match self {
            ControlStyle::Button(s) => match data {
                ControlData::Button(d) => s.resource_query(d),
                _ => ResourceQuery::Nothing,
            },
            ControlStyle::Text(s) => match data {
                ControlData::Text(d) => s.resource_query(d),
                _ => ResourceQuery::Nothing,
            },
            ControlStyle::Bitmap(s) => match data {
                ControlData::Bitmap(d) => s.resource_query(d),
                _ => ResourceQuery::Nothing,
            },
            ControlStyle::ScrollBar(s) => match data {
                ControlData::ScrollBar(d) => s.resource_query(d),
                _ => ResourceQuery::Nothing,
            },
            ControlStyle::Horizontal(s) => match data {
                ControlData::Horizontal(d) => s.resource_query(d),
                _ => ResourceQuery::Nothing,
            },
        }
    }

    fn measure(
        &mut self,
        data: &ControlData,
        children: &Vec<Size>,
        metrics: Metrics,
        size: Size,
    ) -> (desired: Size) {
        match self {
            ControlStyle::Button(s) => match data {
                ControlData::Button(d) => s.measure(d, children, metrics, size),
                _ => Size::new(0, 0),
            },
            ControlStyle::Text(s) => match data {
                ControlData::Text(d) => s.measure(d, children, metrics, size),
                _ => Size::new(0, 0),
            },
            ControlStyle::Bitmap(s) => match data {
                ControlData::Bitmap(d) => s.measure(d, children, metrics, size),
                _ => Size::new(0, 0),
            },
            ControlStyle::ScrollBar(s) => match data {
                ControlData::ScrollBar(d) => s.measure(d, children, metrics, size),
                _ => Size::new(0, 0),
            },
            ControlStyle::Horizontal(s) => match data {
                ControlData::Horizontal(d) => s.measure(d, children, metrics, size),
                _ => Size::new(0, 0),
            },
        }
    }

    fn set_rect(&mut self, data: &ControlData, children: &Vec<Size>, rect: Rect) -> (placed: Vec<
        Rect,
    >) {
        match self {
            ControlStyle::Button(s) => match data {
                ControlData::Button(d) => s.set_rect(d, children, rect),
                _ => s.place_all(children, rect),
            },
            ControlStyle::Text(s) => s.place_all(children, rect),
            ControlStyle::Bitmap(s) => s.place_all(children, rect),
            ControlStyle::ScrollBar(s) => match data {
                ControlData::ScrollBar(d) => s.set_rect(d, children, rect),
                _ => s.place_all(children, rect),
            },
            ControlStyle::Horizontal(s) => s.set_rect(&Horizontal::new(), children, rect),
        }
    }

    fn get_rect(&self) -> (rect: Rect) {
        match self {
            ControlStyle::Button(s) => s.get_rect(),
            ControlStyle::Text(s) => s.get_rect(),
            ControlStyle::Bitmap(s) => s.get_rect(),
            ControlStyle::ScrollBar(s) => s.get_rect(),
            ControlStyle::Horizontal(s) => s.get_rect(),
        }
    }

    fn hit_test(&self, data: &ControlData, point: Point) -> (result: HitTestResult) {
        match self {
            ControlStyle::Button(s) => match data {
                ControlData::Button(d) => s.hit_test(d, point),
                _ => HitTestResult::Nothing,
            },
            ControlStyle::Text(s) => match data {
                ControlData::Text(d) => s.hit_test(d, point),
                _ => HitTestResult::Nothing,
            },
            ControlStyle::Bitmap(s) => match data {
                ControlData::Bitmap(d) => s.hit_test(d, point),
                _ => HitTestResult::Nothing,
            },
            ControlStyle::ScrollBar(s) => match data {
                ControlData::ScrollBar(d) => s.hit_test(d, point),
                _ => HitTestResult::Nothing,
            },
            ControlStyle::Horizontal(s) => match data {
                ControlData::Horizontal(d) => s.hit_test(d, point),
                _ => HitTestResult::Nothing,
            },
        }
    }

    fn to_primitives(&self, data: &ControlData, children: Vec<Primitive>, metrics: Metrics) -> (primitives:
        Vec<Primitive>) {
        match self {
            ControlStyle::Button(s) => match data {
                ControlData::Button(d) => s.to_primitives(d, children, metrics),
                _ => Vec::new(),
            },
            ControlStyle::Text(s) => match data {
                ControlData::Text(d) => s.to_primitives(d, children, metrics),
                _ => Vec::new(),
            },
            ControlStyle::Bitmap(s) => match data {
                ControlData::Bitmap(d) => s.to_primitives(d, children, metrics),
                _ => Vec::new(),
            },
            ControlStyle::ScrollBar(s) => match data {
                ControlData::ScrollBar(d) => s.to_primitives(d, children, metrics),
                _ => Vec::new(),
            },
            ControlStyle::Horizontal(s) => match data {
                ControlData::Horizontal(d) => s.to_primitives(d, children, metrics),
                _ => Vec::new(),
            },
        }
    }
}

/// What `added` says of the tree `post`, made from `pre` by adding a control
/// with the given data, style and context: where the children can be
/// adopted, the control is the newest of the tree, a dirty root that
/// watches its properties, and the children name it as their parent;
/// otherwise nothing was added.
pub open spec fn adds(
    pre: &ViewTree,
    post: &ViewTree,
    data: ControlData,
    style: ControlStyle,
    context: ViewContext,
    added: Option<usize>,
) -> bool {
    match added {
        Some(id) => {
            &&& pre.can_adopt(context.children@)
            &&& id == pre.count()
            &&& post.count() == pre.count() + 1
            &&& style.watches(
                &data,
                id,
                &post.controls()[id as int].style,
                &post.controls()[id as int].data,
            )
            &&& post.controls()[id as int] == (Control {
                data: post.controls()[id as int].data,
                style: post.controls()[id as int].style,
                parent: None,
                children: context.children,
                is_dirty: true,
                attached_values: context.attached_values,
                desired_size: Size { width: 0, height: 0 },
                rect: Rect::zero(),
            })
            &&& forall|j: int|
                0 <= j < pre.count() ==> (#[trigger] post.controls()[j]) == (Control {
                    parent: if names(context.children@, j) {
                        Some(id)
                    } else {
                        pre.parent(j)
                    },
                    ..pre.controls()[j]
                })
        },
        None => !pre.can_adopt(context.children@) && post.controls() == pre.controls(),
    }
}

impl Button {
    /// Adds a button around `properties.content` to the tree. Returns its
    /// index, or `None` where the content is no control of the tree or has
    /// a parent already.
    pub fn control(tree: &mut ViewTree, properties: ButtonProperties) -> (id: Option<usize>)
        requires
            old(tree).wf(),
        ensures
            final(tree).wf(),
            exists|button: Button, style: ButtonDefaultStyle, context: ViewContext|
                {
                    &&& #[trigger] adds(
                        old(tree),
                        final(tree),
                        ControlData::Button(button),
                        ControlStyle::Button(style),
                        context,
                        id,
                    )
                    &&& button.properties == properties
                    &&& button.events.clicked.key == None::<usize>
                    &&& !button.state.is_hover.value()
                    &&& !button.state.is_pressed.value()
                    &&& button.state.is_hover.handlers().len() == 0
                    &&& button.state.is_pressed.handlers().len() == 0
                    &&& style.frame() == Rect::zero()
                    &&& context.children@ == seq![properties.content]
                },
    {
        let mut children: Vec<usize> = Vec::new();
        children.push(properties.content);
        let button = Button::new(properties);
        let style = ButtonDefaultStyle::new();
        let attached_values = AttachedValues::new();
        let ghost context = ViewContext { attached_values, children };
        let id = tree.add(
            ControlData::Button(button),
            ControlStyle::Button(style),
            attached_values,
            children,
        );
        assert(adds(
            old(tree),
            tree,
            ControlData::Button(button),
            ControlStyle::Button(style),
            context,
            id,
        ));
        id
    }
}

impl Text {
    /// Adds the text to the tree as a control in the given context.
    pub fn to_view(self, tree: &mut ViewTree, context: ViewContext) -> (id: Option<usize>)
        requires
            old(tree).wf(),
        ensures
            final(tree).wf(),
            adds(
                old(tree),
                final(tree),
                ControlData::Text(self.properties),
                ControlStyle::Text(self.style),
                context,
                id,
            ),
    {
        tree.add(
            ControlData::Text(self.properties),
            ControlStyle::Text(self.style),
            context.attached_values,
            context.children,
        )
    }
}

impl Bitmap {
    /// Adds the bitmap to the tree as a control in the given context.
    pub fn to_view(self, tree: &mut ViewTree, context: ViewContext) -> (id: Option<usize>)
        requires
            old(tree).wf(),
        ensures
            final(tree).wf(),
            exists|style: BitmapDefaultStyle|
                {
                    &&& #[trigger] adds(
                        old(tree),
                        final(tree),
                        ControlData::Bitmap(self),
                        ControlStyle::Bitmap(style),
                        context,
                        id,
                    )
                    &&& style.frame() == Rect::zero()
                    &&& style.subscriptions().len() == 0
                },
    {
        let style = BitmapDefaultStyle::new();
        let id = tree.add(
            ControlData::Bitmap(self),
            ControlStyle::Bitmap(style),
            context.attached_values,
            context.children,
        );
        assert(adds(
            old(tree),
            tree,
            ControlData::Bitmap(self),
            ControlStyle::Bitmap(style),
            context,
            id,
        ));
        id
    }
}

impl ScrollBar {
    /// Adds the scroll bar to the tree as a control in the given context.
    pub fn to_view(self, tree: &mut ViewTree, context: ViewContext) -> (id: Option<usize>)
        requires
            old(tree).wf(),
        ensures
            final(tree).wf(),
            exists|style: ScrollBarDefaultStyle|
                {
                    &&& #[trigger] adds(
                        old(tree),
                        final(tree),
                        ControlData::ScrollBar(self),
                        ControlStyle::ScrollBar(style),
                        context,
                        id,
                    )
                    &&& style.rect == Rect::zero()
                    &&& style.thumb_pos_px == 0
                    &&& style.thumb_size_px == 0
                    &&& !style.is_thumb_hover.value()
                    &&& !style.is_thumb_pressed.value()
                    &&& style.is_thumb_hover.handlers().len() == 0
                    &&& style.is_thumb_pressed.handlers().len() == 0
                },
    {
        let style = ScrollBarDefaultStyle::new();
        let id = tree.add(
            ControlData::ScrollBar(self),
            ControlStyle::ScrollBar(style),
            context.attached_values,
            context.children,
        );
        assert(adds(
            old(tree),
            tree,
            ControlData::ScrollBar(self),
            ControlStyle::ScrollBar(style),
            context,
            id,
        ));
        id
    }
}

impl Horizontal {
    /// Adds the row to the tree as a control in the given context.
    pub fn to_view(self, tree: &mut ViewTree, context: ViewContext) -> (id: Option<usize>)
        requires
            old(tree).wf(),
        ensures
            final(tree).wf(),
            adds(
                old(tree),
                final(tree),
                ControlData::Horizontal(self),
                ControlStyle::Horizontal(HorizontalDefaultStyle { rect: Rect::zero() }),
                context,
                id,
            ),
    {
        tree.add(
            ControlData::Horizontal(self),
            ControlStyle::Horizontal(HorizontalDefaultStyle::new()),
            context.attached_values,
            context.children,
        )
    }
}

} // verus!
