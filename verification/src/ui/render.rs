//! The render backend: which host functions to call, and with what.

use vstd::prelude::*;

use crate::ffi::{ConfigError, FfiConfig, Offset};
use crate::ui::text::{Text, TextRenderer};
use crate::ui::{Color4f, Line, Point, Rect};
use crate::PlatformData;

verus! {

/// One call into the host's drawing functions. `function` is where the
/// function lives; the other fields are its arguments.
#[derive(Clone, Copy, Debug, PartialEq, Eq)]
#[allow(inconsistent_fields)]
pub enum DrawCall {
    /// Sets the colour of the drawing context.
    SetColor { function: Offset, context: u64, color: Color4f },
    /// Fills a rectangle.
    RectFill { function: Offset, context: u64, rect: Rect },
    /// Outlines a rectangle.
    RectOutline { function: Offset, context: u64, rect: Rect },
    /// Draws a filled square without a drawing context.
    Square { function: Offset, rect: Rect, color: Color4f },
    /// Draws a line without a drawing context.
    Line { function: Offset, start: Point, end: Point, color: Color4f },
    /// Sets the colour of the text that follows.
    TextColor { function: Offset, color: Color4f },
    /// Sets the scale of the text that follows.
    TextScale { function: Offset, x: u32, y: u32 },
    /// Draws a string.
    Text { function: Offset, x: i16, y: i16, text: &'static str, shadow: bool },
}

/// Screen width assumed when the host cannot be asked.
pub const DEFAULT_SCREEN_WIDTH: u32 = 1280;

/// Screen height assumed when the host cannot be asked.
pub const DEFAULT_SCREEN_HEIGHT: u32 = 720;

/// The identifier under which the host hands out its drawing context.
pub const DRAW_CONTEXT_ID: u32 = 0xffff_ffff;

/// Where the host's drawing functions live.
#[derive(Clone, Copy, Debug, PartialEq, Eq)]
pub struct RenderOffsets {
    pub deb_draw_get: Offset,
    pub set_color: Option<Offset>,
    pub render_rect_fill: Option<Offset>,
    pub render_rect_outline: Option<Offset>,
    pub get_screen_width: Option<Offset>,
    pub get_screen_height: Option<Offset>,
}

/// Everything that decides which calls a drawing operation turns into.
/// `foreign` is the host's drawing context, zero until it is known.
#[derive(Clone, Copy, Debug, PartialEq, Eq)]
pub struct Backend {
    pub text_renderer: TextRenderer,
    pub draw_square_2d: Option<Offset>,
    pub draw_line_2d: Option<Offset>,
    pub foreign: u64,
    pub offsets: RenderOffsets,
}

/// A backend together with the calls queued for the host, oldest first.
#[derive(Debug)]
pub struct Renderer {
    pub backend: Backend,
    pub calls: Vec<DrawCall>,
}

impl RenderOffsets {
    /// What the drawing namespace of a configuration resolves to.
    pub open spec fn resolved(config: FfiConfig) -> Result<RenderOffsets, ConfigError> {
        match config.function("render-get"@) {
            Some(deb_draw_get) => Ok(
                RenderOffsets {
                    deb_draw_get,
                    set_color: config.function("render-set-color"@),
                    render_rect_fill: config.function("render-rect-fill"@),
                    render_rect_outline: config.function("render-rect-outline"@),
                    get_screen_width: config.function("render-scr-width"@),
                    get_screen_height: config.function("render-scr-height"@),
                },
            ),
            None => Err(ConfigError::MissingFunction("render-get")),
        }
    }
}

impl Backend {
    /// The drawing context, once it is known.
    pub open spec fn context(self) -> Option<u64> {
        if self.foreign == 0 {
            None
        } else {
            Some(self.foreign)
        }
    }

    /// The call that sets the colour of `context`, if the host offers it.
    pub open spec fn color_calls(self, color: Color4f, context: u64) -> Seq<DrawCall> {
        match self.offsets.set_color {
            Some(function) => seq![DrawCall::SetColor { function, context, color }],
            None => Seq::empty(),
        }
    }

    /// The calls that fill `rect` with `color`: none while the drawing
    /// context is unknown or the host has no such function.
    pub open spec fn rect_calls(self, rect: Rect, color: Color4f) -> Seq<DrawCall> {
        match (self.context(), self.offsets.render_rect_fill) {
            (Some(context), Some(function)) => self.color_calls(color, context) + seq![
                DrawCall::RectFill { function, context, rect },
            ],
            _ => Seq::empty(),
        }
    }

    /// The calls that outline `rect` in `color`: none while the drawing
    /// context is unknown or the host has no such function.
    pub open spec fn rect_outline_calls(self, rect: Rect, color: Color4f) -> Seq<DrawCall> {
        match (self.context(), self.offsets.render_rect_outline) {
            (Some(context), Some(function)) => self.color_calls(color, context) + seq![
                DrawCall::RectOutline { function, context, rect },
            ],
            _ => Seq::empty(),
        }
    }

    /// The calls that draw `text` at `point`.
    pub open spec fn text_calls(self, point: Point, text: Text) -> Seq<DrawCall> {
        self.text_renderer.text_calls(point.x, point.z, text)
    }

    /// The call that draws `rect` as a filled square, if the host offers it.
    pub open spec fn square_calls(self, rect: Rect, color: Color4f) -> Seq<DrawCall> {
        match self.draw_square_2d {
            Some(function) => seq![DrawCall::Square { function, rect, color }],
            None => Seq::empty(),
        }
    }

    /// The call that draws `line`, if the host offers it.
    pub open spec fn line_calls(self, line: Line) -> Seq<DrawCall> {
        match self.draw_line_2d {
            Some(function) => seq![
                DrawCall::Line { function, start: line.start, end: line.end, color: line.color },
            ],
            None => Seq::empty(),
        }
    }

    /// The screen size: what the host answered where it can be asked and
    /// did answer, the default otherwise.
    pub open spec fn screen(self, width: Option<u32>, height: Option<u32>) -> (u32, u32) {
        (
            match (self.offsets.get_screen_width, width) {
                (Some(_), Some(width)) => width,
                _ => DEFAULT_SCREEN_WIDTH,
            },
            match (self.offsets.get_screen_height, height) {
                (Some(_), Some(height)) => height,
                _ => DEFAULT_SCREEN_HEIGHT,
            },
        )
    }

    /// The backend after the host answered a request for its drawing
    /// context with `fetched`: a context that is already known stays, and a
    /// null answer changes nothing.
    pub open spec fn resolving(self, fetched: u64) -> Backend {
        if self.foreign == 0 {
            Backend { foreign: fetched, ..self }
        } else {
            self
        }
    }
}

impl Renderer {
    /// Reads the drawing functions from `config` and takes the text and
    /// shape functions from `platform`. The function that hands out the
    /// drawing context is required. The context starts out unknown and no
    /// call is queued.
    pub fn load(config: &FfiConfig, platform: &PlatformData) -> (r: Result<Renderer, ConfigError>)
        ensures
            match RenderOffsets::resolved(*config) {
                Ok(offsets) => r is Ok && r->Ok_0.calls@ == Seq::<DrawCall>::empty()
                    && r->Ok_0.backend == (Backend {
                    text_renderer: platform.text_renderer,
                    draw_square_2d: platform.ffi_offsets.draw_square_2d,
                    draw_line_2d: platform.ffi_offsets.draw_line_2d,
                    foreign: 0,
                    offsets,
                }),
                Err(e) => r is Err && r->Err_0 == e,
            },
    {
        let deb_draw_get = match config.get_function("render-get") {
            Some(o) => o,
            None => { return Err(ConfigError::MissingFunction("render-get")); },
        };
        let offsets = RenderOffsets {
            deb_draw_get,
            set_color: config.get_function("render-set-color"),
            render_rect_fill: config.get_function("render-rect-fill"),
            render_rect_outline: config.get_function("render-rect-outline"),
            get_screen_width: config.get_function("render-scr-width"),
            get_screen_height: config.get_function("render-scr-height"),
        };
        Ok(
            Renderer {
                backend: Backend {
                    text_renderer: platform.text_renderer,
                    draw_square_2d: platform.ffi_offsets.draw_square_2d,
                    draw_line_2d: platform.ffi_offsets.draw_line_2d,
                    foreign: 0,
                    offsets,
                },
                calls: Vec::new(),
            },
        )
    }

    /// Queues the calls that draw `text` at `point`.
    pub fn text(&mut self, point: Point, text: &Text)
        ensures
            final(self).backend == old(self).backend,
            final(self).calls@ == old(self).calls@ + old(self).backend.text_calls(point, *text),
    {
        self.backend.text_renderer.draw_text(point.x, point.z, text, &mut self.calls);
    }

    /// Queues the calls that fill `rect` with `color`.
    pub fn rect(&mut self, rect: &Rect, color: &Color4f)
        ensures
            final(self).backend == old(self).backend,
            final(self).calls@ == old(self).calls@ + old(self).backend.rect_calls(*rect, *color),
    {
        match (self.get_foreign(), self.backend.offsets.render_rect_fill) {
            (Some(context), Some(function)) => {
                self.color(color, context);
                self.calls.push(DrawCall::RectFill { function, context, rect: *rect });
            },
            _ => {},
        }
    }

    /// Queues the calls that outline `rect` in `color`.
    pub fn rect_outline(&mut self, rect: &Rect, color: &Color4f)
        ensures
            final(self).backend == old(self).backend,
            final(self).calls@ == old(self).calls@ + old(self).backend.rect_outline_calls(
                *rect,
                *color,
            ),
    {
        match (self.get_foreign(), self.backend.offsets.render_rect_outline) {
            (Some(context), Some(function)) => {
                self.color(color, context);
                self.calls.push(DrawCall::RectOutline { function, context, rect: *rect });
            },
            _ => {},
        }
    }

    /// Queues the call that draws `rect` as a filled square in `color`.
    pub fn square(&mut self, rect: &Rect, color: &Color4f)
        ensures
            final(self).backend == old(self).backend,
            final(self).calls@ == old(self).calls@ + old(self).backend.square_calls(
                *rect,
                *color,
            ),
    {
        if let Some(function) = self.backend.draw_square_2d {
            self.calls.push(DrawCall::Square { function, rect: *rect, color: *color });
        }
    }

    /// Queues the call that draws `line`.
    pub fn line(&mut self, line: &Line)
        ensures
            final(self).backend == old(self).backend,
            final(self).calls@ == old(self).calls@ + old(self).backend.line_calls(*line),
    {
        if let Some(function) = self.backend.draw_line_2d {
            self.calls.push(
                DrawCall::Line { function, start: line.start, end: line.end, color: line.color },
            );
        }
    }

    /// The screen size. `width` and `height` are what the host answered, if
    /// it was asked; what it cannot be asked falls back to 1280 by 720.
    pub fn get_screen_dimensions(&self, width: Option<u32>, height: Option<u32>) -> (r: (u32, u32))
        ensures
            r == self.backend.screen(width, height),
    {
        let width = match (self.backend.offsets.get_screen_width, width) {
            (Some(_), Some(width)) => width,
            _ => DEFAULT_SCREEN_WIDTH,
        };
        let height = match (self.backend.offsets.get_screen_height, height) {
            (Some(_), Some(height)) => height,
            _ => DEFAULT_SCREEN_HEIGHT,
        };
        (width, height)
    }

    /// Queues the call that sets the colour of `foreign`.
    fn color(&mut self, color: &Color4f, foreign: u64)
        ensures
            final(self).backend == old(self).backend,
            final(self).calls@ == old(self).calls@ + old(self).backend.color_calls(
                *color,
                foreign,
            ),
    {
        if let Some(function) = self.backend.offsets.set_color {
            self.calls.push(DrawCall::SetColor { function, context: foreign, color: *color });
        }
    }

    /// The host's drawing context, once it is known.
    pub fn get_foreign(&self) -> (r: Option<u64>)
        ensures
            r == self.backend.context(),
    {
        if self.backend.foreign == 0 {
            None
        } else {
            Some(self.backend.foreign)
        }
    }

    /// Where to ask the host for its drawing context and under which
    /// identifier, while the context is unknown.
    pub fn foreign_request(&self) -> (r: Option<(Offset, u32)>)
        ensures
            r == (if self.backend.foreign == 0 {
                Some((self.backend.offsets.deb_draw_get, DRAW_CONTEXT_ID))
            } else {
                None
            }),
    {
        if self.backend.foreign == 0 {
            Some((self.backend.offsets.deb_draw_get, DRAW_CONTEXT_ID))
        } else {
            None
        }
    }

    /// Takes note of the host's answer to a request for its drawing
    /// context. The first answer that is not null is kept for good.
    pub fn resolve_foreign(&mut self, fetched: u64) -> (r: Option<u64>)
        ensures
            final(self).backend == old(self).backend.resolving(fetched),
            final(self).calls@ == old(self).calls@,
            r == final(self).backend.context(),
    {
        if self.backend.foreign == 0 {
            self.backend.foreign = fetched;
        }
        self.get_foreign()
    }

    /// Hands out the queued calls, oldest first, and empties the queue.
    pub fn take_calls(&mut self) -> (calls: Vec<DrawCall>)
        ensures
            calls@ == old(self).calls@,
            final(self).calls@ == Seq::<DrawCall>::empty(),
            final(self).backend == old(self).backend,
    {
        let mut calls = Vec::new();
        core::mem::swap(&mut calls, &mut self.calls);
        calls
    }
}

} // verus!
