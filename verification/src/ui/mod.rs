//! Geometry, colours and the widget tree of the overlay.

use vstd::prelude::*;

use crate::config::{ConfigEntryView, ConfigEntryWidget, ConfigField, RuntimeConfig};
use crate::input::PadData;
use crate::ui::container::{Container, ContainerView, List, ListView};
use crate::ffi::{ConfigError, FfiConfig};
use crate::ui::render::{Backend, DrawCall, RenderOffsets, Renderer};
use crate::PlatformData;
use crate::ui::text::TextWidget;

pub mod container;
pub mod overlay;
pub mod render;
pub mod text;

verus! {

/// A colour with alpha. Each channel is the bit pattern of an IEEE-754
/// single-precision number, as the host's drawing functions expect it.
#[derive(Clone, Copy, Debug, PartialEq, Eq, Structural)]
pub struct Color4f {
    pub r: u32,
    pub g: u32,
    pub b: u32,
    pub alpha: u32,
}

/// A point on the screen.
#[derive(Clone, Copy, Debug, PartialEq, Eq, Structural)]
pub struct Point {
    pub x: i32,
    pub z: i32,
}

/// An axis-aligned rectangle.
#[derive(Clone, Copy, Debug, PartialEq, Eq, Structural)]
pub struct Rect {
    pub x: i32,
    pub z: i32,
    pub width: u32,
    pub height: u32,
}

/// A straight line between two points.
#[derive(Clone, Copy, Debug, PartialEq, Eq, Structural)]
pub struct Line {
    pub start: Point,
    pub end: Point,
    pub color: Color4f,
}

/// A node of the overlay.
#[derive(Debug)]
pub enum Widget {
    /// A coloured box with children stacked top to bottom.
    Container(Container),
    /// A stack of entries, one of which can be selected.
    List(List),
    /// A string.
    Text(TextWidget),
    /// A straight line.
    Line(Line),
    /// A labelled switch for a setting.
    ConfigEntry(ConfigEntryWidget),
}

/// What a [`Widget`] is, with its children as a sequence.
pub enum WidgetView {
    Container(ContainerView),
    List(ListView),
    Text(TextWidget),
    Line(Line),
    ConfigEntry(ConfigEntryView),
}

impl View for Widget {
    type V = WidgetView;

    open spec fn view(&self) -> WidgetView {
        self.model()
    }
}

impl Widget {
    /// The widget with its children as sequences.
    pub open spec fn model(&self) -> WidgetView
        decreases self,
    {
        match self {
            Widget::Container(c) => WidgetView::Container(c.model()),
            Widget::List(l) => WidgetView::List(l.model()),
            Widget::Text(t) => WidgetView::Text(*t),
            Widget::Line(l) => WidgetView::Line(*l),
            Widget::ConfigEntry(e) => WidgetView::ConfigEntry(e.model()),
        }
    }
}

/// The views of `widgets`, in order.
pub open spec fn widget_views(widgets: Seq<Widget>) -> Seq<WidgetView> {
    Seq::new(widgets.len(), |i: int| widgets[i]@)
}

/// The heights of `widgets`, in order.
pub open spec fn heights(widgets: Seq<WidgetView>) -> Seq<int> {
    Seq::new(widgets.len(), |i: int| widgets[i].height())
}

/// The sum of the first `k` of `values`.
pub open spec fn prefix_sum(values: Seq<int>, k: int) -> int
    decreases k,
{
    if k <= 0 || k > values.len() {
        0
    } else {
        prefix_sum(values, k - 1) + values[k - 1]
    }
}

/// Whether a stack of widgets with the given heights can be laid out from
/// `base` downwards: every height is a coordinate, and so is the place
/// where each widget ends.
pub open spec fn stackable(heights: Seq<int>, base: Point) -> bool {
    forall|i: int| 0 <= i < heights.len() ==> #[trigger] lands(heights, base, i)
}

/// Whether the widget at position `i` of a stack that starts at `base` has
/// a height that is a coordinate and ends at a coordinate.
pub open spec fn lands(heights: Seq<int>, base: Point, i: int) -> bool {
    heights[i] <= i32::MAX && coordinate(base.z + prefix_sum(heights, i + 1))
}

/// Where the widget at position `i` of a stack starts.
pub open spec fn stacked(heights: Seq<int>, base: Point, i: int) -> Point {
    Point { x: base.x, z: (base.z + prefix_sum(heights, i)) as i32 }
}

/// The inputs that the first `k` of `children` report as handled.
pub open spec fn handled_upto(children: Seq<WidgetView>, inputs: PadData, k: int) -> bool
    decreases children, k,
{
    if k <= 0 || k > children.len() {
        false
    } else {
        handled_upto(children, inputs, k - 1) || children[k - 1].handles(inputs)
    }
}

/// The settings that the first `k` of `children` switch over on `inputs`,
/// in the order of the children.
pub open spec fn toggles_upto(children: Seq<WidgetView>, inputs: PadData, k: int) -> Seq<
    ConfigField,
>
    decreases children, k,
{
    if k <= 0 || k > children.len() {
        Seq::empty()
    } else {
        toggles_upto(children, inputs, k - 1) + children[k - 1].toggles(inputs)
    }
}

/// The calls that draw the first `k` of `children`, stacked from `base`
/// downwards.
pub open spec fn draw_upto(children: Seq<WidgetView>, base: Point, backend: Backend, k: int) -> Seq<
    DrawCall,
>
    decreases children, k,
{
    if k <= 0 || k > children.len() {
        Seq::empty()
    } else {
        draw_upto(children, base, backend, k - 1) + children[k - 1].draw(
            stacked(heights(children), base, k - 1),
            backend,
        )
    }
}

impl WidgetView {
    /// The width that the widget asks for.
    pub open spec fn width(self) -> int {
        match self {
            WidgetView::Container(c) => c.dimensions.0 as int,
            WidgetView::List(_) => List::WIDTH as int,
            WidgetView::Text(_) => TextWidget::WIDTH as int,
            WidgetView::Line(l) => l.width(),
            WidgetView::ConfigEntry(e) => e.inner.dimensions.0 as int,
        }
    }

    /// The height that the widget asks for.
    pub open spec fn height(self) -> int {
        match self {
            WidgetView::Container(c) => c.dimensions.1 as int,
            WidgetView::List(l) => l.height(),
            WidgetView::Text(_) => TextWidget::HEIGHT as int,
            WidgetView::Line(l) => l.height(),
            WidgetView::ConfigEntry(e) => e.inner.dimensions.1 as int,
        }
    }

    /// Whether every list in the widget is well formed.
    pub open spec fn wf(self) -> bool
        decreases self,
    {
        match self {
            WidgetView::Container(c) => c.wf(),
            WidgetView::List(l) => l.wf(),
            WidgetView::Text(_) => true,
            WidgetView::Line(_) => true,
            WidgetView::ConfigEntry(e) => e.inner.wf(),
        }
    }

    /// Whether the widget reports `inputs` as handled.
    pub open spec fn handles(self, inputs: PadData) -> bool
        decreases self, 0int,
    {
        match self {
            WidgetView::Container(c) => c.handles(inputs),
            WidgetView::List(l) => l.handles(inputs),
            WidgetView::Text(_) => false,
            WidgetView::Line(_) => false,
            WidgetView::ConfigEntry(_) => inputs.clicks(),
        }
    }

    /// The settings that the widget switches over on `inputs`.
    pub open spec fn toggles(self, inputs: PadData) -> Seq<ConfigField>
        decreases self, 0int,
    {
        match self {
            WidgetView::Container(c) => c.toggles(inputs),
            WidgetView::List(l) => l.toggles(inputs),
            WidgetView::Text(_) => Seq::empty(),
            WidgetView::Line(_) => Seq::empty(),
            WidgetView::ConfigEntry(e) => if inputs.clicks() {
                seq![e.field]
            } else {
                Seq::empty()
            },
        }
    }

    /// The widget after it has seen `inputs`.
    pub open spec fn after_input(self, inputs: PadData) -> WidgetView
        decreases self,
    {
        match self {
            WidgetView::Container(c) => WidgetView::Container(c.after_input(inputs)),
            WidgetView::List(l) => WidgetView::List(l.after_input(inputs)),
            WidgetView::Text(_) => self,
            WidgetView::Line(_) => self,
            WidgetView::ConfigEntry(_) => self,
        }
    }

    /// Whether the widget can be drawn at `base` without leaving the
    /// coordinate grid.
    pub open spec fn fits(self, base: Point) -> bool
        decreases self,
    {
        match self {
            WidgetView::Container(c) => c.fits(base),
            WidgetView::List(l) => l.fits(base),
            WidgetView::Text(t) => base.can_move(t.pos.x as int, t.pos.z as int),
            WidgetView::Line(l) => l.fits(base),
            WidgetView::ConfigEntry(e) => e.inner.fits(base),
        }
    }

    /// The calls that draw the widget at `base`.
    pub open spec fn draw(self, base: Point, backend: Backend) -> Seq<DrawCall>
        decreases self, 0int,
    {
        match self {
            WidgetView::Container(c) => c.draw(base, backend),
            WidgetView::List(l) => l.draw(base, backend),
            WidgetView::Text(t) => backend.text_calls(
                base.moved(t.pos.x as int, t.pos.z as int),
                t.text,
            ),
            WidgetView::Line(l) => backend.line_calls(l.moved(base)),
            WidgetView::ConfigEntry(e) => e.inner.draw(base, backend),
        }
    }
}

impl Widget {
    /// The width that the widget asks for.
    pub fn get_width(&self) -> (width: u32)
        ensures
            width == self@.width(),
    {
        match self {
            Widget::Container(c) => c.get_width(),
            Widget::List(l) => l.get_width(),
            Widget::Text(t) => t.get_width(),
            Widget::Line(l) => l.get_width(),
            Widget::ConfigEntry(e) => e.get_width(),
        }
    }

    /// The height that the widget asks for.
    pub fn get_height(&self) -> (height: u32)
        requires
            self@.wf(),
        ensures
            height == self@.height(),
    {
        match self {
            Widget::Container(c) => c.get_height(),
            Widget::List(l) => l.get_height(),
            Widget::Text(t) => t.get_height(),
            Widget::Line(l) => l.get_height(),
            Widget::ConfigEntry(e) => e.get_height(),
        }
    }
}

impl Widget {
    /// Shows `inputs` to the widget and reports whether it handled them.
    /// Settings that the widget switches over are switched over in `config`.
    pub fn handle_input(&mut self, inputs: PadData, config: &mut RuntimeConfig) -> (handled: bool)
        requires
            old(self)@.wf(),
        ensures
            final(self)@ == old(self)@.after_input(inputs),
            final(self)@.wf(),
            handled == old(self)@.handles(inputs),
            *final(config) == old(config).toggled_all(old(self)@.toggles(inputs)),
        decreases *old(self),
    {
        match self {
            Widget::Container(c) => c.handle_input(inputs, config),
            Widget::List(l) => l.handle_input(inputs, config),
            Widget::Text(t) => t.handle_input(inputs),
            Widget::Line(l) => l.handle_input(inputs),
            Widget::ConfigEntry(e) => {
                let handled = e.handle_input(inputs, config);
                proof {
                    old(config).lemma_toggled_all_single(e@.field);
                }
                handled
            },
        }
    }
}

/// Reads the drawing functions from `config` and keeps the renderer in
/// `cell`, which must be empty. Where the function that hands out the
/// drawing context is not configured, `cell` stays empty.
pub fn load(config: &FfiConfig, platform: &PlatformData, cell: &mut Option<Renderer>) -> (r: Result<
    (),
    ConfigError,
>)
    requires
        *old(cell) is None,
    ensures
        match RenderOffsets::resolved(*config) {
            Ok(offsets) => {
                &&& r is Ok
                &&& *final(cell) is Some
                &&& (*final(cell))->0.calls@ == Seq::<DrawCall>::empty()
                &&& (*final(cell))->0.backend == (Backend {
                    text_renderer: platform.text_renderer,
                    draw_square_2d: platform.ffi_offsets.draw_square_2d,
                    draw_line_2d: platform.ffi_offsets.draw_line_2d,
                    foreign: 0,
                    offsets,
                })
            },
            Err(e) => r == Err::<(), ConfigError>(e) && *final(cell) is None,
        },
{
    match Renderer::load(config, platform) {
        Ok(renderer) => {
            *cell = Some(renderer);
            Ok(())
        },
        Err(e) => Err(e),
    }
}

/// The renderer in `cell`, once it has been loaded.
pub fn get_renderer(cell: &Option<Renderer>) -> (renderer: Option<&Renderer>)
    ensures
        match *cell {
            Some(loaded) => renderer == Some(&loaded),
            None => renderer is None,
        },
{
    match cell {
        Some(renderer) => Some(renderer),
        None => None,
    }
}

impl Widget {
    /// Queues the calls that draw the widget at `base_pos`.
    pub fn render(&self, base_pos: &Point, renderer: &mut Renderer)
        requires
            self@.wf(),
            self@.fits(*base_pos),
        ensures
            final(renderer).backend == old(renderer).backend,
            final(renderer).calls@ == old(renderer).calls@ + self@.draw(
                *base_pos,
                old(renderer).backend,
            ),
        decreases self,
    {
        match self {
            Widget::Container(c) => c.render(base_pos, renderer),
            Widget::List(l) => l.render(base_pos, renderer),
            Widget::Text(t) => t.render(base_pos, renderer),
            Widget::Line(l) => l.render(base_pos, renderer),
            Widget::ConfigEntry(e) => e.render(base_pos, renderer),
        }
    }

    /// Whether the widget can be drawn at `base_pos` without leaving the
    /// coordinate grid.
    pub fn fits_at(&self, base_pos: &Point) -> (fits: bool)
        requires
            self@.wf(),
        ensures
            fits == self@.fits(*base_pos),
        decreases self,
    {
        match self {
            Widget::Container(c) => c.fits_at(base_pos),
            Widget::List(l) => l.fits_at(base_pos),
            Widget::Text(t) => base_pos.checked_add(t.pos.x, t.pos.z).is_some(),
            Widget::Line(l) => l.fits_at(base_pos),
            Widget::ConfigEntry(e) => e.fits_at(base_pos),
        }
    }
}

impl Line {
    /// Queues the call that draws the line moved by `base_pos`.
    pub fn render(&self, base_pos: &Point, renderer: &mut Renderer)
        requires
            self.fits(*base_pos),
        ensures
            final(renderer).backend == old(renderer).backend,
            final(renderer).calls@ == old(renderer).calls@ + old(renderer).backend.line_calls(
                self.moved(*base_pos),
            ),
    {
        let mut start = self.start;
        start.add(base_pos.x, base_pos.z);
        let mut end = self.end;
        end.add(base_pos.x, base_pos.z);
        let with_offset = Line { start, end, color: self.color };
        renderer.line(&with_offset);
    }

    /// Whether both ends stay on the coordinate grid when moved by
    /// `base_pos`.
    pub fn fits_at(&self, base_pos: &Point) -> (fits: bool)
        ensures
            fits == self.fits(*base_pos),
    {
        self.start.checked_add(base_pos.x, base_pos.z).is_some() && self.end.checked_add(
            base_pos.x,
            base_pos.z,
        ).is_some()
    }

    /// A line takes no input.
    pub fn handle_input(&self, inputs: PadData) -> (handled: bool)
        ensures
            !handled,
    {
        false
    }

    /// The line from `start` to `end` in the given colour.
    pub fn new(start: Point, end: Point, color: Color4f) -> (line: Line)
        ensures
            line == (Line { start, end, color }),
    {
        Line { start, end, color }
    }

    /// The width that the line asks for.
    pub fn get_width(&self) -> (width: u32)
        ensures
            width == self.width(),
    {
        let wide: i64 = self.end.x as i64 - self.start.x as i64;
        if wide >= 1 {
            wide as u32
        } else {
            1
        }
    }

    /// The height that the line asks for.
    pub fn get_height(&self) -> (height: u32)
        ensures
            height == self.height(),
    {
        let wide: i64 = self.end.z as i64 - self.start.z as i64;
        if wide >= 1 {
            wide as u32
        } else {
            1
        }
    }

    /// The width that the line asks for: how far it reaches to the right,
    /// one at least.
    pub open spec fn width(self) -> int {
        if self.end.x - self.start.x >= 1 {
            self.end.x - self.start.x
        } else {
            1
        }
    }

    /// The height that the line asks for: how far it reaches down, one at
    /// least.
    pub open spec fn height(self) -> int {
        if self.end.z - self.start.z >= 1 {
            self.end.z - self.start.z
        } else {
            1
        }
    }

    /// Whether both ends stay on the coordinate grid when moved by `base`.
    pub open spec fn fits(self, base: Point) -> bool {
        self.start.can_move(base.x as int, base.z as int) && self.end.can_move(
            base.x as int,
            base.z as int,
        )
    }

    /// This line moved by `base`.
    pub open spec fn moved(self, base: Point) -> Line {
        Line {
            start: self.start.moved(base.x as int, base.z as int),
            end: self.end.moved(base.x as int, base.z as int),
            color: self.color,
        }
    }
}

/// The distance between two coordinates.
pub open spec fn span(from: i32, to: i32) -> int {
    if to >= from {
        to - from
    } else {
        from - to
    }
}

/// Whether the sum of two coordinates is a coordinate.
pub open spec fn coordinate(sum: int) -> bool {
    i32::MIN <= sum <= i32::MAX
}

/// The distance between two coordinates.
pub fn distance(from: i32, to: i32) -> (d: u32)
    ensures
        d == span(from, to),
{
    let wide: i64 = to as i64 - from as i64;
    if wide >= 0 {
        wide as u32
    } else {
        (-wide) as u32
    }
}

impl Point {
    /// Whether moving this point by `(x, z)` stays on the coordinate grid.
    pub open spec fn can_move(self, x: int, z: int) -> bool {
        coordinate(self.x + x) && coordinate(self.z + z)
    }

    /// This point moved by `(x, z)`.
    pub open spec fn moved(self, x: int, z: int) -> Point
        recommends
            self.can_move(x, z),
    {
        Point { x: (self.x + x) as i32, z: (self.z + z) as i32 }
    }

    /// The point `(x, z)`.
    pub fn new(x: i32, z: i32) -> (p: Point)
        ensures
            p == (Point { x, z }),
    {
        Point { x, z }
    }

    /// The origin.
    pub fn default() -> (p: Point)
        ensures
            p == (Point { x: 0, z: 0 }),
    {
        Point::new(0, 0)
    }

    /// Moves this point by `(x, z)`.
    pub fn add(&mut self, x: i32, z: i32)
        requires
            old(self).can_move(x as int, z as int),
        ensures
            *final(self) == old(self).moved(x as int, z as int),
    {
        self.x = self.x + x;
        self.z = self.z + z;
    }

    /// This point moved by `(x, z)`, unless that leaves the coordinate grid.
    pub fn checked_add(&self, x: i32, z: i32) -> (r: Option<Point>)
        ensures
            r == (if self.can_move(x as int, z as int) {
                Some(self.moved(x as int, z as int))
            } else {
                None
            }),
    {
        match (self.x.checked_add(x), self.z.checked_add(z)) {
            (Some(x), Some(z)) => Some(Point { x, z }),
            _ => None,
        }
    }
}

impl From<(i32, i32)> for Point {
    fn from(coords: (i32, i32)) -> (p: Point) {
        Point::new(coords.0, coords.1)
    }
}

impl vstd::std_specs::convert::FromSpecImpl<(i32, i32)> for Point {
    open spec fn obeys_from_spec() -> bool {
        true
    }

    open spec fn from_spec(coords: (i32, i32)) -> Point {
        Point { x: coords.0, z: coords.1 }
    }
}

impl std::ops::Add<Point> for Point {
    type Output = Point;

    fn add(self, rhs: Point) -> (p: Point) {
        Point { x: self.x + rhs.x, z: self.z + rhs.z }
    }
}

impl vstd::std_specs::ops::AddSpecImpl<Point> for Point {
    open spec fn obeys_add_spec() -> bool {
        true
    }

    open spec fn add_req(self, rhs: Point) -> bool {
        self.can_move(rhs.x as int, rhs.z as int)
    }

    open spec fn add_spec(self, rhs: Point) -> Point {
        self.moved(rhs.x as int, rhs.z as int)
    }
}

impl Color4f {
    /// Transparent black: every channel is `0.0`.
    pub fn default() -> (c: Color4f)
        ensures
            c == (Color4f { r: 0, g: 0, b: 0, alpha: 0 }),
    {
        Color4f::from_rgba(0, 0, 0, 0)
    }

    /// The colour with the given channels.
    pub fn from_rgba(r: u32, g: u32, b: u32, alpha: u32) -> (c: Color4f)
        ensures
            c == (Color4f { r, g, b, alpha }),
    {
        Color4f { r, g, b, alpha }
    }
}

impl Rect {
    /// Queues the call that draws this rectangle as a filled square.
    pub fn render(&self, color: &Color4f, renderer: &mut Renderer)
        ensures
            final(renderer).backend == old(renderer).backend,
            final(renderer).calls@ == old(renderer).calls@ + old(renderer).backend.square_calls(
                *self,
                *color,
            ),
    {
        renderer.square(self, color);
    }

    /// The rectangle that starts at `start` and is as wide and as high as
    /// `end` is away from it.
    pub fn from_points(start: Point, end: Point) -> (rect: Rect)
        ensures
            rect.x == start.x,
            rect.z == start.z,
            rect.width == span(start.x, end.x),
            rect.height == span(start.z, end.z),
    {
        let width = distance(start.x, end.x);
        let height = distance(start.z, end.z);
        Rect::from_point_dimensions(start, (width, height))
    }

    /// The rectangle that starts at `start` with the given width and height.
    pub fn from_point_dimensions(start: Point, dimensions: (u32, u32)) -> (rect: Rect)
        ensures
            rect == (Rect {
                x: start.x,
                z: start.z,
                width: dimensions.0,
                height: dimensions.1,
            }),
    {
        Rect { x: start.x, z: start.z, width: dimensions.0, height: dimensions.1 }
    }
}

} // verus!
