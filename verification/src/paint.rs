//! Paint state: style, pen width, join, and the color source.
//!
//! The paint mirrors the drawing surface's paint object. It is built up by
//! setters, as the drawing code does, so that state deliberately carried
//! over from one draw to the next (the ridge disk keeps the stroke style of
//! the outline pass) stays visible in the plan.

use vstd::prelude::*;
use crate::color::Argb;
use crate::geom::PathPoint;
use crate::num::Frac;
use crate::num::Scalar;

verus! {

/// How stroked segments are joined.
#[derive(Clone, Copy, PartialEq, Eq, Debug)]
pub enum StrokeJoin {
    Miter,
    Bevel,
}

/// Whether the path's interior is filled or its contour stroked.
#[derive(Clone, Copy, PartialEq, Eq, Debug)]
pub enum Style {
    Fill,
    Stroke,
}

/// The color source. Gradients interpolate their two stops in linear light:
/// the evaluator decodes both encoded colors with the sRGB transfer function
/// before blending, never in gamma-encoded space.
#[derive(Clone, Copy, PartialEq, Eq, Debug)]
pub enum Shader {
    /// A solid color, decoded to linear light by the evaluator.
    Solid { color: Argb },
    /// A two-stop radial gradient around `center`, clamped beyond `radius`.
    /// `stops` optionally places the two stops at fractions of the radius.
    Radial { center: PathPoint, radius: Scalar, inner: Argb, outer: Argb, stops: Option<
        (Frac, Frac),
    > },
    /// A two-stop radial gradient of radius `rx` around the origin, scaled by
    /// `ry/rx` along the `y` axis and then translated to `center`: an
    /// anisotropic ellipse with those two semi-axes. No explicit stop
    /// positions; clamped beyond the ellipse.
    ScaledRadial { center: PathPoint, rx: Scalar, ry: Scalar, inner: Argb, outer: Argb },
}

/// A full paint: the ephemeral style rebuilt for every draw call.
#[derive(Clone, Copy, PartialEq, Eq, Debug)]
pub struct Paint {
    pub anti_alias: bool,
    pub stroke_width: Frac,
    pub stroke_join: StrokeJoin,
    pub style: Style,
    pub shader: Shader,
}

impl Paint {
    /// A fresh paint, as the surface library hands it out: no anti-aliasing,
    /// hairline width, miter joins, filling with solid opaque black.
    pub open spec fn default_spec() -> Paint {
        Paint {
            anti_alias: false,
            stroke_width: Frac { num: 0, den: 1 },
            stroke_join: StrokeJoin::Miter,
            style: Style::Fill,
            shader: Shader::Solid { color: Argb { a: 0xff, r: 0, g: 0, b: 0 } },
        }
    }

    pub fn new_default() -> (p: Paint)
        ensures
            p == Paint::default_spec(),
    {
        Paint {
            anti_alias: false,
            stroke_width: Frac { num: 0, den: 1 },
            stroke_join: StrokeJoin::Miter,
            style: Style::Fill,
            shader: Shader::Solid { color: Argb { a: 0xff, r: 0, g: 0, b: 0 } },
        }
    }

    pub fn set_anti_alias(&mut self, v: bool)
        ensures
            *final(self) == (Paint { anti_alias: v, ..*old(self) }),
    {
        self.anti_alias = v;
    }

    pub fn set_stroke_width(&mut self, w: Frac)
        ensures
            *final(self) == (Paint { stroke_width: w, ..*old(self) }),
    {
        self.stroke_width = w;
    }

    pub fn set_stroke_join(&mut self, j: StrokeJoin)
        ensures
            *final(self) == (Paint { stroke_join: j, ..*old(self) }),
    {
        self.stroke_join = j;
    }

    pub fn set_style(&mut self, s: Style)
        ensures
            *final(self) == (Paint { style: s, ..*old(self) }),
    {
        self.style = s;
    }

    /// Replaces the color source. Dropping a gradient and setting a solid
    /// color afterwards collapses to one call here.
    pub fn set_shader(&mut self, sh: Shader)
        ensures
            *final(self) == (Paint { shader: sh, ..*old(self) }),
    {
        self.shader = sh;
    }
}

/// The pen width: one pixel, or a 360th of the canvas width if that is
/// wider. Exactly `max(1, width/360)` as a fraction over 360.
pub open spec fn stroke_width_spec(canvas_width: int) -> Frac {
    if canvas_width <= 360 {
        Frac { num: 360, den: 360 }
    } else {
        Frac { num: canvas_width as i64, den: 360 }
    }
}

pub fn stroke_width(canvas_width: u64) -> (w: Frac)
    requires
        canvas_width <= 0x1_0000_0000,
    ensures
        w == stroke_width_spec(canvas_width as int),
{
    if canvas_width <= 360 {
        Frac { num: 360, den: 360 }
    } else {
        Frac { num: canvas_width as i64, den: 360 }
    }
}

/// Installs the two-stop anisotropic radial gradient the emblem's filled
/// shapes use: radius `rx` around the origin, scaled to `ry` on the `y`
/// axis, translated to `center`, running from `inner` to `outer`. Only the
/// color source changes; every other paint field is kept.
pub fn gradient(paint: &mut Paint, center: PathPoint, rx: Scalar, ry: Scalar, inner: Argb,
    outer: Argb)
    ensures
        *final(paint) == (Paint {
            shader: Shader::ScaledRadial { center, rx, ry, inner, outer },
            ..*old(paint)
        }),
{
    paint.set_shader(Shader::ScaledRadial { center, rx, ry, inner, outer });
}

} // verus!
