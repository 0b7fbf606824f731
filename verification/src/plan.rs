//! The draw plan: the ordered canvas operations that render one frame.
//!
//! Transform state follows a stack discipline: every `Save` is matched by
//! exactly one `Restore`, and `Translate` / `Rotate` compose onto the
//! innermost saved frame, as on the drawing surface itself.

use vstd::prelude::*;
use crate::num::Frac;
use crate::num::Scalar;
use crate::paint::Paint;
use crate::path::Path;
use crate::path::PathCmd;

verus! {

/// One canvas operation.
#[derive(Clone, PartialEq, Debug)]
pub enum DrawOp {
    /// Push the current transform.
    Save,
    /// Pop to the last saved transform.
    Restore,
    /// Translate the frame by whole pixels.
    Translate { x: i64, y: i64 },
    /// Rotate the frame clockwise by an exact number of degrees.
    Rotate { degrees: Frac },
    /// Fill or stroke a path with a paint.
    DrawPath { path: Path, paint: Paint },
    /// Draw a circle around `(x, y)` with a paint.
    DrawCircle { x: i64, y: i64, radius: Scalar, paint: Paint },
}

/// The mathematical value of a canvas operation: the same shape with the
/// path reduced to its command sequence.
#[verifier::ext_equal]
pub enum DrawOpV {
    Save,
    Restore,
    Translate { x: i64, y: i64 },
    Rotate { degrees: Frac },
    DrawPath { cmds: Seq<PathCmd>, paint: Paint },
    DrawCircle { x: i64, y: i64, radius: Scalar, paint: Paint },
}

impl View for DrawOp {
    type V = DrawOpV;

    open spec fn view(&self) -> DrawOpV {
        match self {
            DrawOp::Save => DrawOpV::Save,
            DrawOp::Restore => DrawOpV::Restore,
            DrawOp::Translate { x, y } => DrawOpV::Translate { x: *x, y: *y },
            DrawOp::Rotate { degrees } => DrawOpV::Rotate { degrees: *degrees },
            DrawOp::DrawPath { path, paint } => DrawOpV::DrawPath { cmds: path@, paint: *paint },
            DrawOp::DrawCircle { x, y, radius, paint } => DrawOpV::DrawCircle {
                x: *x,
                y: *y,
                radius: *radius,
                paint: *paint,
            },
        }
    }
}

/// The value of a whole operation list.
pub open spec fn ops_view(ops: Seq<DrawOp>) -> Seq<DrawOpV> {
    ops.map_values(|op: DrawOp| op@)
}

/// The finished plan for one frame: the canvas dimensions it was computed
/// for and the operations in z-order, earliest lowest.
#[derive(Clone, PartialEq, Debug)]
pub struct FramePlan {
    pub width: u64,
    pub height: u64,
    pub ops: Vec<DrawOp>,
}

impl View for FramePlan {
    type V = Seq<DrawOpV>;

    open spec fn view(&self) -> Seq<DrawOpV> {
        ops_view(self.ops@)
    }
}

} // verus!
