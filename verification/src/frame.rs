//! The frame composer: computes the frame's rotation from frame index,
//! frames per second and beats per minute, then lays out the whole draw
//! plan — the chain ring, six vertex-anchored filled blades, and two
//! translucent outline blades — in fixed z-order.

use vstd::prelude::*;
use crate::chain_ring::chain_ring;
use crate::chain_ring::chain_ring_ops;
use crate::color::argb;
use crate::color::Argb;
use crate::num::Frac;
use crate::plan::ops_view;
use crate::plan::DrawOp;
use crate::plan::DrawOpV;
use crate::plan::FramePlan;
use crate::triangle::triangle;
use crate::triangle::triangle_fill_paint;
use crate::triangle::triangle_path_cmds;
use crate::triangle::triangle_stroke_paint;
use crate::triangle::Vertex;

verus! {

/// The frame's rotation: the exact fraction `frame * 12 * bpm / (60 * fps)`
/// degrees — the per-frame step of `12 * bpm / (60 * fps)` degrees, `frame`
/// times. A full revolution takes `360 / step` frames.
pub open spec fn rotation_deg(frame: int, fps: int, bpm: int) -> Frac {
    Frac { num: (12 * (frame * bpm)) as i64, den: (60 * fps) as i64 }
}

/// Frames in one full revolution: `floor(360 / step)` with
/// `step = 12 * bpm / (60 * fps)` degrees per frame, that is
/// `floor(1800 * fps / bpm)`.
pub open spec fn frames_in_cycle(fps: int, bpm: int) -> int {
    1800 * fps / bpm
}

/// The blades' start angle in angle units: `60 + rotation` over the same
/// denominator `60 * fps`.
pub open spec fn blade_deg_num(frame: int, fps: int, bpm: int) -> int {
    3600 * fps + 12 * (frame * bpm)
}

/// The whole frame: the chain ring at the frame's rotation, then, at
/// `60 + rotation` angle units, the six filled blades in fixed order —
/// rounded green, blue, red, then straight yellow, cyan, magenta — and two
/// translucent near-black outline blades, rounded then straight, on top.
/// The square canvas size is the smaller dimension; the ring radius is half
/// of it and the blade radius `0.53` of that half, in whole pixels.
pub open spec fn frame_ops(frame: int, fps: int, bpm: int, width: int, height: int)
    -> Seq<DrawOpV> {
    let size = if width <= height { width } else { height };
    let c = size / 2;
    let ring_r = size / 2 * 100 / 100;
    let tri_r = size / 2 * 53 / 100;
    let dden = 60 * fps;
    let dnum = blade_deg_num(frame, fps, bpm);
    let overlay = argb(0x77_222222);
    chain_ring_ops(c, c, ring_r, rotation_deg(frame, fps, bpm), 32, width) + seq![
        DrawOpV::DrawPath {
            cmds: triangle_path_cmds(c, c, tri_r, dnum, dden, true),
            paint: triangle_fill_paint(c, c, tri_r, dnum, dden, Vertex::V0, argb(0xff_00ff00),
                true),
        },
        DrawOpV::DrawPath {
            cmds: triangle_path_cmds(c, c, tri_r, dnum, dden, true),
            paint: triangle_fill_paint(c, c, tri_r, dnum, dden, Vertex::V1, argb(0xff_0000ff),
                true),
        },
        DrawOpV::DrawPath {
            cmds: triangle_path_cmds(c, c, tri_r, dnum, dden, true),
            paint: triangle_fill_paint(c, c, tri_r, dnum, dden, Vertex::V2, argb(0xff_ff0000),
                true),
        },
        DrawOpV::DrawPath {
            cmds: triangle_path_cmds(c, c, tri_r, dnum, dden, false),
            paint: triangle_fill_paint(c, c, tri_r, dnum, dden, Vertex::V0, argb(0xff_ffff00),
                false),
        },
        DrawOpV::DrawPath {
            cmds: triangle_path_cmds(c, c, tri_r, dnum, dden, false),
            paint: triangle_fill_paint(c, c, tri_r, dnum, dden, Vertex::V1, argb(0xff_00ffff),
                false),
        },
        DrawOpV::DrawPath {
            cmds: triangle_path_cmds(c, c, tri_r, dnum, dden, false),
            paint: triangle_fill_paint(c, c, tri_r, dnum, dden, Vertex::V2, argb(0xff_ff00ff),
                false),
        },
        DrawOpV::DrawPath {
            cmds: triangle_path_cmds(c, c, tri_r, dnum, dden, true),
            paint: triangle_stroke_paint(c, c, tri_r, overlay, width),
        },
        DrawOpV::DrawPath {
            cmds: triangle_path_cmds(c, c, tri_r, dnum, dden, false),
            paint: triangle_stroke_paint(c, c, tri_r, overlay, width),
        },
    ]
}

/// Renders one frame into a draw plan and returns it together with the
/// number of frames remaining in the current revolution,
/// `frames_in_cycle - (frame + 1)`.
///
/// The bounds on the inputs are machine limits: they keep every derived
/// numerator inside `i64` through the `60 * fps` and 90-unit denominators.
/// The frame index must lie within the revolution for the remaining count
/// to be a whole number, as in the original arithmetic, which has no frames
/// past the cycle's end.
pub fn render_frame(frame: u64, fps: u64, bpm: u64, width: u64, height: u64) -> (out: (
    FramePlan,
    u64,
))
    requires
        1 <= fps <= 10_000,
        1 <= bpm <= 10_000,
        frame <= 1_000_000_000_000,
        width <= 0x1_0000_0000,
        height <= 0x1_0000_0000,
        frame as int + 1 <= frames_in_cycle(fps as int, bpm as int),
    ensures
        out.0@ == frame_ops(frame as int, fps as int, bpm as int, width as int, height as int),
        out.0.width == width,
        out.0.height == height,
        out.1 as int == frames_in_cycle(fps as int, bpm as int) - (frame as int + 1),
{
    proof {
        assert(frame as int * bpm as int <= 10_000_000_000_000_000) by (nonlinear_arith)
            requires
                0 <= frame as int <= 1_000_000_000_000,
                0 <= bpm as int <= 10_000,
        ;
    }
    let fb: u64 = frame * bpm;
    let rotation = Frac { num: (12 * fb) as i64, den: (60 * fps) as i64 };
    let cycle: u64 = 1800 * fps / bpm;
    let remaining: u64 = cycle - (frame + 1);

    let size: u64 = if width <= height {
        width
    } else {
        height
    };
    let c: i64 = (size / 2) as i64;
    let ring_r: i64 = (size / 2 * 100 / 100) as i64;
    let tri_r: i64 = (size / 2 * 53 / 100) as i64;

    let mut ops = chain_ring(c, c, ring_r, rotation, 32, width);

    let degrees = Frac { num: (3600 * fps + 12 * fb) as i64, den: (60 * fps) as i64 };
    let green = Argb::from_u32(0xff_00ff00);
    let blue = Argb::from_u32(0xff_0000ff);
    let red = Argb::from_u32(0xff_ff0000);
    let yellow = Argb::from_u32(0xff_ffff00);
    let cyan = Argb::from_u32(0xff_00ffff);
    let magenta = Argb::from_u32(0xff_ff00ff);
    let overlay = Argb::from_u32(0x77_222222);

    let (p0, a0) = triangle(c, c, tri_r, degrees, Some(Vertex::V0), green, true, width);
    ops.push(DrawOp::DrawPath { path: p0, paint: a0 });
    let (p1, a1) = triangle(c, c, tri_r, degrees, Some(Vertex::V1), blue, true, width);
    ops.push(DrawOp::DrawPath { path: p1, paint: a1 });
    let (p2, a2) = triangle(c, c, tri_r, degrees, Some(Vertex::V2), red, true, width);
    ops.push(DrawOp::DrawPath { path: p2, paint: a2 });
    let (p3, a3) = triangle(c, c, tri_r, degrees, Some(Vertex::V0), yellow, false, width);
    ops.push(DrawOp::DrawPath { path: p3, paint: a3 });
    let (p4, a4) = triangle(c, c, tri_r, degrees, Some(Vertex::V1), cyan, false, width);
    ops.push(DrawOp::DrawPath { path: p4, paint: a4 });
    let (p5, a5) = triangle(c, c, tri_r, degrees, Some(Vertex::V2), magenta, false, width);
    ops.push(DrawOp::DrawPath { path: p5, paint: a5 });

    let (p6, a6) = triangle(c, c, tri_r, degrees, None, overlay, true, width);
    ops.push(DrawOp::DrawPath { path: p6, paint: a6 });
    let (p7, a7) = triangle(c, c, tri_r, degrees, None, overlay, false, width);
    ops.push(DrawOp::DrawPath { path: p7, paint: a7 });

    proof {
        assert(ops_view(ops@) =~~= frame_ops(frame as int, fps as int, bpm as int, width as int,
            height as int));
    }
    (FramePlan { width, height, ops }, remaining)
}

/// The plan is a mathematical function of the frame parameters and canvas
/// size alone: two renderings of the same frame at the same size yield the
/// very same plan, operation for operation — there is no hidden state to
/// make them differ.
pub proof fn lemma_render_deterministic(frame: int, fps: int, bpm: int, width: int, height: int,
    p1: Seq<DrawOpV>, p2: Seq<DrawOpV>)
    requires
        p1 == frame_ops(frame, fps, bpm, width, height),
        p2 == frame_ops(frame, fps, bpm, width, height),
    ensures
        p1 == p2,
{
}

} // verus!
