//! The triangular blades: one of three rotational copies of a triangle
//! inscribed in a circle of the given radius, either filled with a radial
//! gradient anchored at one vertex, or stroked as a highlight outline.
//!
//! Angles given to the triangle are measured in a nonstandard unit kept
//! from the original calibration: one "degree" of input is
//! `1 / DEGREE_UNITS_PER_TURN = 1/90` of a turn, that is four degrees of
//! arc. The edge step of `120` such units is therefore `4/3` of a turn,
//! which lands on the same three directions, a third of a turn apart, while
//! winding once more around the circle.
//!
//! The triangle side, by the law of cosines, is
//! `2 * r / cos((pi - delta)/2)` with `delta = 4/3` turn, and
//! `cos((pi - delta)/2) = cos(-150 degrees) = -sqrt(3)/2`, so the side is
//! the negative length `-4*r/sqrt(3) = -(4/3)*sqrt(3)*r`. The gradient
//! radii of the filled blades are fractions of that side and inherit its
//! sign, exactly as the original computes them.

use vstd::prelude::*;
use crate::color::argb;
use crate::color::Argb;
use crate::geom::point_in_circle;
use crate::geom::turns_equiv;
use crate::geom::Base;
use crate::geom::PathPoint;
use crate::num::Frac;
use crate::num::Scalar;
use crate::paint::gradient;
use crate::paint::stroke_width;
use crate::paint::stroke_width_spec;
use crate::paint::Paint;
use crate::paint::Shader;
use crate::paint::StrokeJoin;
use crate::paint::Style;
use crate::path::Path;
use crate::path::PathCmd;

verus! {

/// Angle units per turn: an input "degree" is `1/90` turn, four degrees of
/// arc. Kept as an explicit constant of the API so the calibration of the
/// original (`triangle_rotation = 60 + rotation`, and so on) carries over
/// unchanged.
pub const DEGREE_UNITS_PER_TURN: i64 = 90;

/// Which vertex of the triangle a filled blade anchors its gradient at.
/// Only these three exist: an out-of-range index is unrepresentable, so the
/// fatal runtime check of a loosely typed index moves to the type itself.
#[derive(Clone, Copy, PartialEq, Eq, Debug)]
pub enum Vertex {
    V0,
    V1,
    V2,
}

impl Vertex {
    /// The vertex's index among the three rotational copies.
    pub open spec fn idx(self) -> int {
        match self {
            Vertex::V0 => 0,
            Vertex::V1 => 1,
            Vertex::V2 => 2,
        }
    }

    /// The vertex's index, for executable use.
    pub fn index(self) -> (i: u8)
        ensures
            i as int == self.idx(),
    {
        match self {
            Vertex::V0 => 0,
            Vertex::V1 => 1,
            Vertex::V2 => 2,
        }
    }

    /// Checked conversion from a loose index. Exactly the indices 0, 1 and 2
    /// denote a vertex; everything else is refused, where the loosely typed
    /// original would abort the process.
    pub fn from_index(i: u64) -> (v: Option<Vertex>)
        ensures
            i == 0 ==> v == Some(Vertex::V0),
            i == 1 ==> v == Some(Vertex::V1),
            i == 2 ==> v == Some(Vertex::V2),
            i > 2 ==> v is None,
    {
        if i == 0 {
            Some(Vertex::V0)
        } else if i == 1 {
            Some(Vertex::V1)
        } else if i == 2 {
            Some(Vertex::V2)
        } else {
            None
        }
    }
}

/// A point on the circle around the triangle center `(cx, cy)`: radius
/// `rat/SCALAR_DEN`, angle `num/den` turns.
pub open spec fn tri_pt(cx: int, cy: int, rat: int, num: int, den: int) -> PathPoint {
    PathPoint {
        base: Base::At { x: cx as i64, y: cy as i64 },
        radius: Scalar { rat: rat as i64, inv_pi: 0, rt3: 0 },
        turns: Frac { num: num as i64, den: den as i64 },
    }
}

/// The five commands of the triangle path: a move to the starting vertex at
/// `dnum/dden` angle units, then three edges stepping `120` units each —
/// straight lines, or, in the rounded variant, cubics whose control points
/// sit at `0.9 * r` a third and two thirds of the way back along the step —
/// and a close. The fourth vertex is a whole number of turns past the
/// first, closing the contour exactly.
pub open spec fn triangle_path_cmds(cx: int, cy: int, r: int, dnum: int, dden: int, wankel: bool)
    -> Seq<PathCmd> {
    let den = 90 * dden;
    let v0 = tri_pt(cx, cy, 30_000_000 * r, dnum, den);
    let v1 = tri_pt(cx, cy, 30_000_000 * r, dnum + 120 * dden, den);
    let v2 = tri_pt(cx, cy, 30_000_000 * r, dnum + 240 * dden, den);
    let v3 = tri_pt(cx, cy, 30_000_000 * r, dnum + 360 * dden, den);
    if wankel {
        seq![
            PathCmd::MoveTo { p: v0 },
            PathCmd::CubicTo {
                c1: tri_pt(cx, cy, 27_000_000 * r, dnum + 40 * dden, den),
                c2: tri_pt(cx, cy, 27_000_000 * r, dnum + 80 * dden, den),
                end: v1,
            },
            PathCmd::CubicTo {
                c1: tri_pt(cx, cy, 27_000_000 * r, dnum + 160 * dden, den),
                c2: tri_pt(cx, cy, 27_000_000 * r, dnum + 200 * dden, den),
                end: v2,
            },
            PathCmd::CubicTo {
                c1: tri_pt(cx, cy, 27_000_000 * r, dnum + 280 * dden, den),
                c2: tri_pt(cx, cy, 27_000_000 * r, dnum + 320 * dden, den),
                end: v3,
            },
            PathCmd::Close,
        ]
    } else {
        seq![
            PathCmd::MoveTo { p: v0 },
            PathCmd::LineTo { p: v1 },
            PathCmd::LineTo { p: v2 },
            PathCmd::LineTo { p: v3 },
            PathCmd::Close,
        ]
    }
}

/// Gradient semi-axis along `x` for a filled blade, as the (negative)
/// multiple of `sqrt(3) * r / SCALAR_DEN` that the side fraction works out
/// to: `0.36`, `0.30`, `0.404` or `0.420` of the side `-(4/3)*sqrt(3)*r`.
pub open spec fn blade_rx(v: Vertex, wankel: bool) -> int {
    match v {
        Vertex::V1 => if wankel {
            -16_160_000
        } else {
            -16_800_000
        },
        _ => if wankel {
            -14_400_000
        } else {
            -12_000_000
        },
    }
}

/// Gradient semi-axis along `y` for a filled blade: `0.404`, `0.60` or
/// `0.50` of the side.
pub open spec fn blade_ry(v: Vertex, wankel: bool) -> int {
    match v {
        Vertex::V1 => -20_000_000,
        _ => if wankel {
            -16_160_000
        } else {
            -24_000_000
        },
    }
}

/// The paint of a filled blade: a fresh paint whose color source is the
/// anisotropic radial gradient anchored at vertex `v` (the vertex the path
/// reaches after `v.idx()` steps), running from the blade color to pure
/// blue.
pub open spec fn triangle_fill_paint(cx: int, cy: int, r: int, dnum: int, dden: int, v: Vertex,
    color: Argb, wankel: bool) -> Paint {
    Paint {
        shader: Shader::ScaledRadial {
            center: tri_pt(cx, cy, 30_000_000 * r, dnum + 120 * dden * v.idx(), 90 * dden),
            rx: Scalar { rat: 0, inv_pi: 0, rt3: (blade_rx(v, wankel) * r) as i64 },
            ry: Scalar { rat: 0, inv_pi: 0, rt3: (blade_ry(v, wankel) * r) as i64 },
            inner: color,
            outer: argb(0xff_0000ff),
        },
        ..Paint::default_spec()
    }
}

/// The paint of an outline blade: anti-aliased bevel-joined stroking, with
/// a radial gradient half a radius above the center, from white to the
/// given color — the specular highlight that fades before the lower edges.
pub open spec fn triangle_stroke_paint(cx: int, cy: int, r: int, color: Argb, w: int) -> Paint {
    Paint {
        anti_alias: true,
        stroke_width: stroke_width_spec(w),
        stroke_join: StrokeJoin::Bevel,
        style: Style::Stroke,
        shader: Shader::Radial {
            center: tri_pt(cx, cy, 15_000_000 * r, 1, 4),
            radius: Scalar { rat: (15_000_000 * r) as i64, inv_pi: 0, rt3: 0 },
            inner: argb(0xff_ffffff),
            outer: color,
            stops: None,
        },
    }
}

/// Builds one triangular blade: the path around `(cx, cy)` starting at
/// `degrees` angle units, and its paint — a vertex-anchored gradient fill
/// when `vertex` names one of the three vertices, the highlight stroke when
/// it is absent.
pub fn triangle(cx: i64, cy: i64, radius: i64, degrees: Frac, vertex: Option<Vertex>, color: Argb,
    wankel: bool, canvas_width: u64) -> (out: (Path, Paint))
    requires
        0 <= radius <= 0x1_0000_0000,
        degrees.wf(),
        degrees.den <= 0x1_0000_0000,
        -0x1000_0000_0000_0000 <= degrees.num <= 0x1000_0000_0000_0000,
        canvas_width <= 0x1_0000_0000,
    ensures
        out.0@ == triangle_path_cmds(cx as int, cy as int, radius as int, degrees.num as int,
            degrees.den as int, wankel),
        vertex matches Some(v) ==> out.1 == triangle_fill_paint(cx as int, cy as int,
            radius as int, degrees.num as int, degrees.den as int, v, color, wankel),
        vertex is None ==> out.1 == triangle_stroke_paint(cx as int, cy as int, radius as int,
            color, canvas_width as int),
{
    let den: i64 = DEGREE_UNITS_PER_TURN * degrees.den;
    let dnum: i64 = degrees.num;
    let dd: i64 = degrees.den;
    let circum = Scalar::rational(radius, 30_000_000);
    let bow = Scalar::rational(radius, 27_000_000);
    let at = Base::At { x: cx, y: cy };

    let mut paint = Paint::new_default();
    match vertex {
        Some(v) => {
            let step: i64 = 120 * (v.index() as i64);
            proof {
                assert(0 <= step as int * dd as int <= 0x8000_0000_0000) by (nonlinear_arith)
                    requires
                        0 <= step as int <= 240,
                        0 <= dd as int <= 0x1_0000_0000,
                ;
            }
            let off: i64 = step * dd;
            proof {
                assert(off as int == 120 * dd as int * v.idx()) by (nonlinear_arith)
                    requires
                        off as int == step as int * dd as int,
                        step as int == 120 * v.idx(),
                ;
            }
            let anchor = point_in_circle(at, circum, Frac { num: dnum + off, den });
            let sx = blade_rx_scaled(v, wankel);
            let sy = blade_ry_scaled(v, wankel);
            let rx = Scalar::times_rt3(radius, sx);
            let ry = Scalar::times_rt3(radius, sy);
            proof {
                assert(rx.rt3 as int == blade_rx(v, wankel) * radius as int) by (nonlinear_arith)
                    requires
                        rx.rt3 as int == radius as int * sx as int,
                        sx as int == blade_rx(v, wankel),
                ;
                assert(ry.rt3 as int == blade_ry(v, wankel) * radius as int) by (nonlinear_arith)
                    requires
                        ry.rt3 as int == radius as int * sy as int,
                        sy as int == blade_ry(v, wankel),
                ;
            }
            gradient(&mut paint, anchor, rx, ry, color, Argb::from_u32(0xff_0000ff));
        },
        None => {
            paint.set_anti_alias(true);
            paint.set_stroke_width(stroke_width(canvas_width));
            paint.set_style(Style::Stroke);
            paint.set_stroke_join(StrokeJoin::Bevel);
            // Highlight reflection on the top triangle edge.
            let half_up = Scalar::rational(radius, 15_000_000);
            paint.set_shader(Shader::Radial {
                center: point_in_circle(at, half_up, Frac { num: 1, den: 4 }),
                radius: half_up,
                inner: Argb::from_u32(0xff_ffffff),
                outer: color,
                stops: None,
            });
        },
    }

    let mut path = Path::empty();
    path.move_to(point_in_circle(at, circum, Frac { num: dnum, den }));
    if wankel {
        path.cubic_to(
            point_in_circle(at, bow, Frac { num: dnum + 40 * dd, den }),
            point_in_circle(at, bow, Frac { num: dnum + 80 * dd, den }),
            point_in_circle(at, circum, Frac { num: dnum + 120 * dd, den }),
        );
        path.cubic_to(
            point_in_circle(at, bow, Frac { num: dnum + 160 * dd, den }),
            point_in_circle(at, bow, Frac { num: dnum + 200 * dd, den }),
            point_in_circle(at, circum, Frac { num: dnum + 240 * dd, den }),
        );
        path.cubic_to(
            point_in_circle(at, bow, Frac { num: dnum + 280 * dd, den }),
            point_in_circle(at, bow, Frac { num: dnum + 320 * dd, den }),
            point_in_circle(at, circum, Frac { num: dnum + 360 * dd, den }),
        );
    } else {
        path.line_to(point_in_circle(at, circum, Frac { num: dnum + 120 * dd, den }));
        path.line_to(point_in_circle(at, circum, Frac { num: dnum + 240 * dd, den }));
        path.line_to(point_in_circle(at, circum, Frac { num: dnum + 360 * dd, den }));
    }
    path.close();
    proof {
        assert(path@ =~= triangle_path_cmds(cx as int, cy as int, radius as int, dnum as int,
            dd as int, wankel));
    }
    (path, paint)
}

/// The scaled side fraction of `blade_rx`, for executable use.
pub fn blade_rx_scaled(v: Vertex, wankel: bool) -> (s: i64)
    ensures
        s as int == blade_rx(v, wankel),
{
    match v {
        Vertex::V1 => if wankel {
            -16_160_000
        } else {
            -16_800_000
        },
        _ => if wankel {
            -14_400_000
        } else {
            -12_000_000
        },
    }
}

/// The scaled side fraction of `blade_ry`, for executable use.
pub fn blade_ry_scaled(v: Vertex, wankel: bool) -> (s: i64)
    ensures
        s as int == blade_ry(v, wankel),
{
    match v {
        Vertex::V1 => -20_000_000,
        _ => if wankel {
            -16_160_000
        } else {
            -24_000_000
        },
    }
}


/// The angle of vertex `k` of the path: the start angle plus `k` edge steps
/// of `120` units, over the common denominator of `90 * dden`.
pub open spec fn vertex_turns(dnum: int, dden: int, k: int) -> Frac
    recommends
        0 <= k <= 3,
{
    let off = if k == 0 {
        0
    } else if k == 1 {
        120 * dden
    } else if k == 2 {
        240 * dden
    } else {
        360 * dden
    };
    Frac { num: (dnum + off) as i64, den: (90 * dden) as i64 }
}

/// The point a path command arrives at.
pub open spec fn cmd_end(cmd: PathCmd) -> PathPoint
    recommends
        !(cmd is Close),
{
    match cmd {
        PathCmd::MoveTo { p } => p,
        PathCmd::LineTo { p } => p,
        PathCmd::CubicTo { end, .. } => end,
        PathCmd::Close => arbitrary(),
    }
}

/// `b` points a third of a turn ahead of `a`, up to whole turns:
/// `(b.num/den - a.num/den) - 1/3` is a whole number, which over the common
/// denominator `3 * den` reads as below.
pub open spec fn third_of_turn_ahead(a: Frac, b: Frac) -> bool {
    a.den == b.den && (3 * (b.num - a.num) - a.den) % (3 * a.den) == 0
}

/// In the rounded variant, an edge's two control points lie on the bow
/// circle of `0.9` radii, strictly farther from the triangle's center than
/// half the circumradius — and half the circumradius, `r * cos(60 degrees)`,
/// is exactly the distance from the center to each straight chord between
/// neighbouring vertices. The bow therefore pulls the edge outward past the
/// chord.
pub open spec fn bow_controls_outside(cmd: PathCmd, r: int) -> bool {
    cmd matches PathCmd::CubicTo { c1, c2, .. } && c1.radius.inv_pi == 0 && c1.radius.rt3 == 0
        && c2.radius.inv_pi == 0 && c2.radius.rt3 == 0 && 2 * c1.radius.rat > 30_000_000 * r && 2
        * c2.radius.rat > 30_000_000 * r
}

/// Shape of the triangle path. The path visits three vertices on the
/// circumscribed circle whose directions are pairwise distinct, each a
/// third of a turn (120 degrees of arc) ahead of the one before up to whole
/// turns; the fourth generated vertex points exactly the way the first
/// does, so the contour closes where it began; and in the rounded variant
/// every edge's control points lie strictly outside the straight chord it
/// replaces.
pub proof fn lemma_triangle_path_shape(cx: int, cy: int, r: int, dnum: int, dden: int,
    wankel: bool)
    requires
        1 <= r <= 0x1_0000_0000,
        1 <= dden <= 0x1_0000_0000,
        -0x1000_0000_0000_0000 <= dnum <= 0x1000_0000_0000_0000,
    ensures
        triangle_path_cmds(cx, cy, r, dnum, dden, wankel).len() == 5,
        triangle_path_cmds(cx, cy, r, dnum, dden, wankel)[0] == (PathCmd::MoveTo {
            p: tri_pt(cx, cy, 30_000_000 * r, dnum, 90 * dden),
        }),
        triangle_path_cmds(cx, cy, r, dnum, dden, wankel)[4] == PathCmd::Close,
        forall|k: int|
            1 <= k <= 3 ==> cmd_end(#[trigger] triangle_path_cmds(cx, cy, r, dnum, dden, wankel)[k])
                == (PathPoint {
                base: Base::At { x: cx as i64, y: cy as i64 },
                radius: Scalar { rat: (30_000_000 * r) as i64, inv_pi: 0, rt3: 0 },
                turns: vertex_turns(dnum, dden, k),
            }),
        third_of_turn_ahead(vertex_turns(dnum, dden, 0), vertex_turns(dnum, dden, 1)),
        third_of_turn_ahead(vertex_turns(dnum, dden, 1), vertex_turns(dnum, dden, 2)),
        third_of_turn_ahead(vertex_turns(dnum, dden, 2), vertex_turns(dnum, dden, 3)),
        turns_equiv(vertex_turns(dnum, dden, 0), vertex_turns(dnum, dden, 3)),
        !turns_equiv(vertex_turns(dnum, dden, 0), vertex_turns(dnum, dden, 1)),
        !turns_equiv(vertex_turns(dnum, dden, 1), vertex_turns(dnum, dden, 2)),
        !turns_equiv(vertex_turns(dnum, dden, 0), vertex_turns(dnum, dden, 2)),
        wankel ==> bow_controls_outside(triangle_path_cmds(cx, cy, r, dnum, dden, wankel)[1], r)
            && bow_controls_outside(triangle_path_cmds(cx, cy, r, dnum, dden, wankel)[2], r)
            && bow_controls_outside(triangle_path_cmds(cx, cy, r, dnum, dden, wankel)[3], r),
{
    let s = triangle_path_cmds(cx, cy, r, dnum, dden, wankel);
    assert(s.len() == 5);
    let d = 90 * dden;
    let v0 = vertex_turns(dnum, dden, 0);
    let v1 = vertex_turns(dnum, dden, 1);
    let v2 = vertex_turns(dnum, dden, 2);
    let v3 = vertex_turns(dnum, dden, 3);
    assert(v0.num as int == dnum && v1.num as int == dnum + 120 * dden && v2.num as int == dnum
        + 240 * dden && v3.num as int == dnum + 360 * dden);
    assert(v0.den as int == d && v1.den as int == d && v2.den as int == d && v3.den as int == d);

    // One edge step is 120/90 = 4/3 of a turn: a third of a turn ahead,
    // plus one whole turn. Over the denominator 3*d the condition reads
    // (3*120*dden - 90*dden) = 270*dden = 1 * (3*d) remainder 0.
    assert(3 * d == 270 * dden && 3 * (120 * dden) - d == 270 * dden && 270 * dden > 0);
    vstd::arithmetic::div_mod::lemma_fundamental_div_mod_converse(270 * dden, 270 * dden, 1, 0);

    // Pairwise relations of the vertex directions, over the modulus
    // d * d = 8100 * dden^2: one step leaves remainder 2700*dden^2, two
    // steps 5400*dden^2 — never zero — and three steps exactly four whole
    // turns, remainder zero.
    let dd2 = dden * dden;
    let m = v0.den as int * v1.den as int;
    assert(m == 8100 * dd2 && 0 < 2700 * dd2 && 8100 * dd2 > 5400 * dd2) by (nonlinear_arith)
        requires
            dd2 == dden * dden,
            dden >= 1,
            v0.den as int == 90 * dden,
            v1.den as int == 90 * dden,
            m == v0.den as int * v1.den as int,
    ;
    assert(v1.num * v0.den - v0.num * v1.den == 1 * m + 2700 * dd2) by (nonlinear_arith)
        requires
            v0.num as int == dnum,
            v1.num as int == dnum + 120 * dden,
            v0.den as int == 90 * dden,
            v1.den as int == 90 * dden,
            m == 8100 * dd2,
            dd2 == dden * dden,
    ;
    vstd::arithmetic::div_mod::lemma_fundamental_div_mod_converse(
        v1.num * v0.den - v0.num * v1.den,
        m,
        1,
        2700 * dd2,
    );
    assert(v2.num * v1.den - v1.num * v2.den == 1 * m + 2700 * dd2) by (nonlinear_arith)
        requires
            v1.num as int == dnum + 120 * dden,
            v2.num as int == dnum + 240 * dden,
            v1.den as int == 90 * dden,
            v2.den as int == 90 * dden,
            m == 8100 * dd2,
            dd2 == dden * dden,
    ;
    vstd::arithmetic::div_mod::lemma_fundamental_div_mod_converse(
        v2.num * v1.den - v1.num * v2.den,
        m,
        1,
        2700 * dd2,
    );
    assert(v2.num * v0.den - v0.num * v2.den == 2 * m + 5400 * dd2) by (nonlinear_arith)
        requires
            v0.num as int == dnum,
            v2.num as int == dnum + 240 * dden,
            v0.den as int == 90 * dden,
            v2.den as int == 90 * dden,
            m == 8100 * dd2,
            dd2 == dden * dden,
    ;
    vstd::arithmetic::div_mod::lemma_fundamental_div_mod_converse(
        v2.num * v0.den - v0.num * v2.den,
        m,
        2,
        5400 * dd2,
    );
    assert(v3.num * v0.den - v0.num * v3.den == 4 * m + 0) by (nonlinear_arith)
        requires
            v0.num as int == dnum,
            v3.num as int == dnum + 360 * dden,
            v0.den as int == 90 * dden,
            v3.den as int == 90 * dden,
            m == 8100 * dd2,
            dd2 == dden * dden,
    ;
    vstd::arithmetic::div_mod::lemma_fundamental_div_mod_converse(
        v3.num * v0.den - v0.num * v3.den,
        m,
        4,
        0,
    );

    // The rounded variant's control points sit at 0.9 radii: past half the
    // circumradius, the chords' distance from the center.
    if wankel {
        assert(2 * (27_000_000 * r) > 30_000_000 * r);
    }
}

} // verus!
