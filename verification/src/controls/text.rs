//! The text control: one line of text, centred in its rectangle.

use vstd::prelude::*;
use vstd::string::StringExecFns;
use crate::common::{add_px, clamp_px, half, half_px, sub_px, HitTestResult, Point, Rect, Size};
use crate::drawing::{Color, Primitive};
use crate::events::ControlEvent;
use crate::observable::Handler;
use crate::style::{Metrics, ResourceQuery, Style};

verus! {

pub struct TextProperties {
    pub text: String,
}

/// A text and the style that draws it.
pub struct Text {
    pub properties: TextProperties,
    pub style: TextDefaultStyle,
}

/// The size of the default font.
pub open spec fn default_font_size() -> u8 {
    20
}

impl Text {
    /// The text `text` in the default font.
    pub fn new(text: String) -> (control: Self)
        ensures
            control.properties.text == text,
            control.style.font_name@ == "OpenSans-Regular.ttf"@,
            control.style.font_size == default_font_size(),
            control.style.rect == Rect::zero(),
    {
        Text {
            properties: TextProperties { text },
            style: TextDefaultStyle::new(String::from_str("OpenSans-Regular.ttf"), 20),
        }
    }
}

/// Draws the text in one font at one size, in white.
pub struct TextDefaultStyle {
    pub font_name: String,
    pub font_size: u8,
    pub rect: Rect,
}

/// The coordinate at which a run of length `extent` starts when centred in
/// a span of length `span` that starts at `start`.
pub open spec fn centred(start: i32, span: i32, extent: u16) -> i32 {
    clamp_px(start + half(clamp_px(span - extent))) as i32
}

fn centre(start: i32, span: i32, extent: u16) -> (r: i32)
    ensures
        r == centred(start, span, extent),
{
    add_px(start, half_px(sub_px(span, extent as i32)))
}

impl TextDefaultStyle {
    /// Takes `rect` and hands the same rectangle to each child.
    pub fn place_all(&mut self, children: &Vec<Size>, rect: Rect) -> (placed: Vec<Rect>)
        ensures
            *final(self) == (TextDefaultStyle { rect, ..*old(self) }),
            placed@ == Seq::new(children@.len(), |k: int| rect),
    {
        self.rect = rect;
        let mut placed: Vec<Rect> = Vec::new();
        let mut k: usize = 0;
        while k < children.len()
            invariant
                k <= children@.len(),
                placed@.len() == k,
                forall|a: int| 0 <= a < k ==> placed@[a] == rect,
            decreases children.len() - k,
        {
            placed.push(rect);
            k += 1;
        }
        assert(placed@ =~= Seq::new(children@.len(), |k: int| rect));
        placed
    }

    /// The style with the given font and no rectangle yet.
    pub fn new(font_name: String, font_size: u8) -> (style: Self)
        ensures
            style == (TextDefaultStyle { font_name, font_size, rect: Rect::zero() }),
    {
        TextDefaultStyle { font_name, font_size, rect: Rect::empty() }
    }

    /// The primitive that shows `text`, whose extent is `dimensions`.
    pub open spec fn text_primitive(&self, text: String, dimensions: (u16, u16)) -> Primitive {
        Primitive::Text {
            resource_key: self.font_name,
            color: Color { r: 255, g: 255, b: 255, a: 255 },
            position: Point {
                x: centred(self.rect.x, self.rect.width, dimensions.0),
                y: centred(self.rect.y, self.rect.height, dimensions.1),
            },
            size: self.font_size as u16,
            text,
        }
    }
}

/// The extent of the text that `metrics` reports, or none where it reports
/// something else.
pub open spec fn text_extent(metrics: Metrics) -> (u16, u16) {
    match metrics {
        Metrics::FontDimensions { width, height } => (width, height),
        _ => (0, 0),
    }
}

fn extent_of(metrics: Metrics) -> (extent: (u16, u16))
    ensures
        extent == text_extent(metrics),
{
    match metrics {
        Metrics::FontDimensions { width, height } => (width, height),
        _ => (0, 0),
    }
}

impl Style<TextProperties> for TextDefaultStyle {
    open spec fn rect(&self) -> Rect {
        self.rect
    }

    open spec fn watches(
        &self,
        data: &TextProperties,
        control: usize,
        style: &Self,
        watched: &TextProperties,
    ) -> bool {
        *style == *self && *watched == *data
    }

    open spec fn handles(
        &self,
        data: &TextProperties,
        event: ControlEvent,
        style: &Self,
        handled: &TextProperties,
        consumed: bool,
        fired: Seq<Handler>,
    ) -> bool {
        &&& *style == *self
        &&& *handled == *data
        &&& consumed
        &&& fired == Seq::<Handler>::empty()
    }

    open spec fn query(&self, data: &TextProperties) -> ResourceQuery {
        ResourceQuery::FontDimensions {
            font: self.font_name,
            size: self.font_size,
            text: data.text,
        }
    }

    open spec fn measures(
        &self,
        data: &TextProperties,
        children: Seq<Size>,
        metrics: Metrics,
        size: Size,
        style: &Self,
        desired: Size,
    ) -> bool {
        &&& *style == *self
        &&& desired == (Size {
            width: text_extent(metrics).0 as i32,
            height: text_extent(metrics).1 as i32,
        })
    }

    open spec fn arranges(
        &self,
        data: &TextProperties,
        children: Seq<Size>,
        rect: Rect,
        style: &Self,
        placed: Seq<Rect>,
    ) -> bool {
        &&& *style == (TextDefaultStyle { rect, ..*self })
        &&& placed == Seq::new(children.len(), |k: int| rect)
    }

    /// Text lets every point through to what lies beneath it.
    open spec fn hit(&self, data: &TextProperties, point: Point) -> HitTestResult {
        HitTestResult::Nothing
    }

    open spec fn primitives(
        &self,
        data: &TextProperties,
        children: Seq<Primitive>,
        metrics: Metrics,
    ) -> Seq<Primitive> {
        seq![self.text_primitive(data.text, text_extent(metrics))]
    }

    fn setup_dirty_watching(&mut self, data: &mut TextProperties, control: usize) {
    }

    fn handle_event(&mut self, data: &mut TextProperties, event: ControlEvent) -> (outcome: (
        bool,
        Vec<Handler>,
    )) {
        (true, Vec::new())
    }

    fn resource_query(&self, data: &TextProperties) -> (query: ResourceQuery) {
        ResourceQuery::FontDimensions {
            font: self.font_name.clone(),
            size: self.font_size,
            text: data.text.clone(),
        }
    }

    fn measure(
        &mut self,
        data: &TextProperties,
        children: &Vec<Size>,
        metrics: Metrics,
        size: Size,
    ) -> (desired: Size) {
        let (text_width, text_height) = extent_of(metrics);
        Size::new(text_width as i32, text_height as i32)
    }

    fn set_rect(&mut self, data: &TextProperties, children: &Vec<Size>, rect: Rect) -> (placed: Vec<
        Rect,
    >) {
        self.place_all(children, rect)
    }

    fn get_rect(&self) -> (rect: Rect) {
        self.rect
    }

    fn hit_test(&self, data: &TextProperties, point: Point) -> (result: HitTestResult) {
        HitTestResult::Nothing
    }

    fn to_primitives(
        &self,
        data: &TextProperties,
        children: Vec<Primitive>,
        metrics: Metrics,
    ) -> (primitives: Vec<Primitive>) {
        let (text_width, text_height) = extent_of(metrics);
        let mut vec: Vec<Primitive> = Vec::new();
        vec.push(
            Primitive::Text {
                resource_key: self.font_name.clone(),
                color: Color { r: 255, g: 255, b: 255, a: 255 },
                position: Point::new(
                    centre(self.rect.x, self.rect.width, text_width),
                    centre(self.rect.y, self.rect.height, text_height),
                ),
                size: self.font_size as u16,
                text: data.text.clone(),
            },
        );
        assert(vec@ =~= seq![self.text_primitive(data.text, text_extent(metrics))]);
        vec
    }
}

} // verus!
