//! Text: what to draw, and through which host functions.

use vstd::prelude::*;

use crate::ffi::{ConfigError, FfiConfig, Offset};
use crate::input::PadData;
use crate::ui::render::{DrawCall, Renderer};
use crate::ui::Color4f;
use crate::ui::Point;

verus! {

/// The bit pattern of the single-precision number `1.0`.
pub const SCALE_ONE: u32 = 0x3f80_0000;

/// The host functions that draw text.
#[derive(Clone, Copy, Debug, PartialEq, Eq)]
pub struct TextRenderer {
    pub draw_text_fn: Offset,
    pub draw_text_color_fn: Option<Offset>,
    pub draw_text_scale_fn: Option<Offset>,
}

/// A string with its styling. `scale` is the bit pattern of a
/// single-precision number; zero stands for "leave the scale alone".
#[derive(Clone, Copy, Debug, PartialEq, Eq)]
pub struct Text {
    pub text: &'static str,
    pub color: Option<Color4f>,
    pub scale: u32,
    pub shadow: bool,
}

/// A text placed relative to its parent.
#[derive(Clone, Copy, Debug, PartialEq, Eq)]
pub struct TextWidget {
    pub text: Text,
    pub pos: Point,
}

/// The 16-bit coordinate that the host's text function receives for `v`:
/// the low 16 bits of `v`, read as a signed number.
pub open spec fn narrow(v: i32) -> i16 {
    let low = v as int % 0x1_0000;
    if low >= 0x8000 {
        (low - 0x1_0000) as i16
    } else {
        low as i16
    }
}

/// Whether `scale` is the bit pattern of a zero, positive or negative.
pub open spec fn is_zero_scale(scale: u32) -> bool {
    scale == 0 || scale == 0x8000_0000
}

/// The 16-bit coordinate that the host's text function receives for `v`.
pub fn narrow_coordinate(v: i32) -> (r: i16)
    ensures
        r == narrow(v),
{
    let shifted: i64 = v as i64 + 0x8000_0000;
    let low: i64 = shifted % 0x1_0000;
    proof {
        vstd::arithmetic::div_mod::lemma_mod_multiples_vanish(0x8000, v as int, 0x1_0000);
    }
    if low >= 0x8000 {
        (low - 0x1_0000) as i16
    } else {
        low as i16
    }
}

impl TextRenderer {
    /// What `new` makes of a configuration.
    pub open spec fn configured(config: FfiConfig) -> Result<TextRenderer, ConfigError> {
        match config.function("draw-font"@) {
            Some(draw_text_fn) => Ok(
                TextRenderer {
                    draw_text_fn,
                    draw_text_color_fn: config.function("draw-font-color"@),
                    draw_text_scale_fn: config.function("draw-font-scale"@),
                },
            ),
            None => Err(ConfigError::MissingFunction("draw-font")),
        }
    }

    /// The calls that set the text scale to `scale` in both directions: one
    /// if the host offers the function, none otherwise.
    pub open spec fn scale_calls(self, scale: u32) -> Seq<DrawCall> {
        match self.draw_text_scale_fn {
            Some(function) => seq![DrawCall::TextScale { function, x: scale, y: scale }],
            None => Seq::empty(),
        }
    }

    /// The calls that set the text colour for `text`.
    pub open spec fn color_calls(self, text: Text) -> Seq<DrawCall> {
        match (text.color, self.draw_text_color_fn) {
            (Some(color), Some(function)) => seq![DrawCall::TextColor { function, color }],
            _ => Seq::empty(),
        }
    }

    /// The calls that draw `text` at `(x, y)`: the colour if the text has
    /// one, the scale if it has one, the text itself, and the scale set back
    /// to one.
    pub open spec fn text_calls(self, x: i32, y: i32, text: Text) -> Seq<DrawCall> {
        let scaled = !is_zero_scale(text.scale);
        self.color_calls(text) + (if scaled {
            self.scale_calls(text.scale)
        } else {
            Seq::empty()
        }) + seq![
            DrawCall::Text {
                function: self.draw_text_fn,
                x: narrow(x),
                y: narrow(y),
                text: text.text,
                shadow: text.shadow,
            },
        ] + (if scaled {
            self.scale_calls(SCALE_ONE)
        } else {
            Seq::empty()
        })
    }

    /// Reads the text functions from `ffi_cfg`. The function that draws is
    /// required; colour and scale are optional.
    pub fn new(ffi_cfg: &FfiConfig) -> (r: Result<TextRenderer, ConfigError>)
        ensures
            r == TextRenderer::configured(*ffi_cfg),
    {
        match ffi_cfg.get_function("draw-font") {
            Some(draw_text_fn) => Ok(
                TextRenderer {
                    draw_text_fn,
                    draw_text_color_fn: ffi_cfg.get_function("draw-font-color"),
                    draw_text_scale_fn: ffi_cfg.get_function("draw-font-scale"),
                },
            ),
            None => Err(ConfigError::MissingFunction("draw-font")),
        }
    }

    /// Queues the calls that draw `text` at `(x, y)`.
    pub fn draw_text(&self, x: i32, y: i32, text: &Text, calls: &mut Vec<DrawCall>)
        ensures
            final(calls)@ == old(calls)@ + self.text_calls(x, y, *text),
    {
        if let Some(color) = text.color {
            if let Some(function) = self.draw_text_color_fn {
                calls.push(DrawCall::TextColor { function, color });
            }
        }
        let scaled = !(text.scale == 0 || text.scale == 0x8000_0000);
        if scaled {
            self.set_scale(text.scale, calls);
        }
        calls.push(
            DrawCall::Text {
                function: self.draw_text_fn,
                x: narrow_coordinate(x),
                y: narrow_coordinate(y),
                text: text.text,
                shadow: text.shadow,
            },
        );
        if scaled {
            self.set_scale(SCALE_ONE, calls);
        }
    }

    /// Queues the call that sets the text scale, if the host offers it.
    fn set_scale(&self, scale: u32, calls: &mut Vec<DrawCall>)
        ensures
            final(calls)@ == old(calls)@ + self.scale_calls(scale),
    {
        if let Some(function) = self.draw_text_scale_fn {
            calls.push(DrawCall::TextScale { function, x: scale, y: scale });
        }
    }
}

impl Text {
    /// The text `text` without styling.
    pub fn new(text: &'static str) -> (r: Text)
        ensures
            r == (Text { text, color: None, scale: 0, shadow: false }),
    {
        Text { text, color: None, scale: 0, shadow: false }
    }

    /// This text in the given colour.
    pub fn color(self, r: u32, g: u32, b: u32, alpha: u32) -> (t: Text)
        ensures
            t == (Text { color: Some(Color4f { r, g, b, alpha }), ..self }),
    {
        Text { color: Some(Color4f::from_rgba(r, g, b, alpha)), ..self }
    }

    /// This text at the given scale.
    pub fn scale(self, scale: u32) -> (t: Text)
        ensures
            t == (Text { scale, ..self }),
    {
        Text { scale, ..self }
    }

    /// This text with or without a drop shadow.
    pub fn shadow(self, shadow: bool) -> (t: Text)
        ensures
            t == (Text { shadow, ..self }),
    {
        Text { shadow, ..self }
    }
}

impl TextWidget {
    /// Width of every text widget.
    pub const WIDTH: u32 = 100;

    /// Height of every text widget.
    pub const HEIGHT: u32 = 20;

    /// `text` placed at `pos` relative to its parent.
    pub fn new(text: Text, pos: Point) -> (w: TextWidget)
        ensures
            w == (TextWidget { text, pos }),
    {
        TextWidget { text, pos }
    }

    /// Queues the calls that draw the text at its place below `base_pos`.
    pub fn render(&self, base_pos: &Point, renderer: &mut Renderer)
        requires
            base_pos.can_move(self.pos.x as int, self.pos.z as int),
        ensures
            final(renderer).backend == old(renderer).backend,
            final(renderer).calls@ == old(renderer).calls@ + old(renderer).backend.text_calls(
                base_pos.moved(self.pos.x as int, self.pos.z as int),
                self.text,
            ),
    {
        let mut point = *base_pos;
        point.add(self.pos.x, self.pos.z);
        renderer.text(point, &self.text);
    }

    /// A text takes no input.
    pub fn handle_input(&self, inputs: PadData) -> (handled: bool)
        ensures
            !handled,
    {
        false
    }

    /// The width of the widget.
    pub fn get_width(&self) -> (width: u32)
        ensures
            width == TextWidget::WIDTH,
    {
        TextWidget::WIDTH
    }

    /// The height of the widget.
    pub fn get_height(&self) -> (height: u32)
        ensures
            height == TextWidget::HEIGHT,
    {
        TextWidget::HEIGHT
    }

    /// `text` placed where its parent starts.
    pub fn at_root(text: Text) -> (w: TextWidget)
        ensures
            w == (TextWidget { text, pos: Point { x: 0, z: 0 } }),
    {
        TextWidget::new(text, Point::default())
    }
}

} // verus!
