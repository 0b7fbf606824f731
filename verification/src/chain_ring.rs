//! The chain ring: a scalloped outer ring of gear teeth, a five-lobed inner
//! ridge star, and five five-pointed bolt-head stars, drawn as one compound
//! path inside a translated and rotated frame, followed by a gradient-shaded
//! ridge circle in the translate-only frame.
//!
//! All radii are exact fractions of the given outer radius `r`:
//! - rim of the tooth bottoms: `(1 - (1 - 0.85) * 0.8) * r = 0.88 * r`;
//! - tooth peaks overshoot to `1.035 * r`;
//! - inner ridge circle: `0.73 * r`; lobe dip `0.73*r - 0.12*r*1.33 = 0.5704*r`;
//!   lobe bump `0.73 * 1.05 * r = 0.7665 * r`;
//! - bolt-head radius: `0.73*r * 0.81 * 0.3 / pi = 0.17739*r/pi`, its peaks
//!   `1.14` times that, and the bolt centers sit at `0.73*r` plus `0.33`
//!   bolt radii from the ring center;
//! - ridge circle: `0.85 * r`.
//!
//! All angles are exact rational turns. The teeth advance by `1/n` turn from
//! a quarter turn; each tooth spans `0.8` of its slot with a `0.2` gap, so
//! its corners sit `8/(20n)` of a turn around its midline and the gap edge
//! `12/(20n)` past it. The star advances by `-1/5` turn with a `0.7` gap;
//! the bolts step their five points by quarter turns clockwise.

use vstd::prelude::*;
use crate::color::argb;
use crate::color::Argb;
use crate::geom::origin;
use crate::geom::point_in_circle;
use crate::geom::turns_equiv;
use crate::geom::Base;
use crate::geom::PathPoint;
use crate::num::Frac;
use crate::num::Scalar;
use crate::num::SCALAR_DEN;
use crate::paint::gradient;
use crate::paint::stroke_width;
use crate::paint::stroke_width_spec;
use crate::paint::Paint;
use crate::paint::Shader;
use crate::paint::StrokeJoin;
use crate::paint::Style;
use crate::path::Path;
use crate::path::PathCmd;
use crate::plan::ops_view;
use crate::plan::DrawOp;
use crate::plan::DrawOpV;

verus! {

/// A point on a circle around the ring center: radius `rat/SCALAR_DEN`,
/// angle `num/den` turns.
pub open spec fn ring_pt(rat: int, num: int, den: int) -> PathPoint {
    PathPoint {
        base: origin(),
        radius: Scalar { rat: rat as i64, inv_pi: 0, rt3: 0 },
        turns: Frac { num: num as i64, den: den as i64 },
    }
}

/// The three commands of tooth `i` of `n`: an edge to the tooth's leading
/// bottom corner, a cubic whose duplicated control point at `1.035 * r`
/// forms the sharp peak, and the short bottom edge across the gap. Angles
/// are multiples of `1/(20n)` turn around the tooth midline at
/// `1/4 + i/n` turns.
pub open spec fn tooth_cmds(r: int, n: int, i: int) -> Seq<PathCmd> {
    let den = 20 * n;
    let s = 5 * n + 20 * i;
    let start = ring_pt(26_400_000 * r, s - 8, den);
    let peak = ring_pt(31_050_000 * r, s, den);
    let after = ring_pt(26_400_000 * r, s + 8, den);
    let bottom = ring_pt(26_400_000 * r, s + 12, den);
    seq![
        if i == 0 {
            PathCmd::MoveTo { p: start }
        } else {
            PathCmd::LineTo { p: start }
        },
        PathCmd::CubicTo { c1: peak, c2: peak, end: after },
        PathCmd::LineTo { p: bottom },
    ]
}

/// The first `i` teeth, in order.
pub open spec fn teeth_cmds(r: int, n: int, i: int) -> Seq<PathCmd>
    decreases i,
{
    if i <= 0 {
        Seq::empty()
    } else {
        teeth_cmds(r, n, i - 1) + tooth_cmds(r, n, i - 1)
    }
}

/// The three commands of ridge-star lobe `i`: an edge to the lobe's start on
/// the inner circle, a cubic dipping to the duplicated control point at
/// `0.5704 * r`, and a return cubic bumping over `0.7665 * r` with two
/// distinct control points. Angles are multiples of `1/5000` turn: the lobes
/// advance by `-1/5` turn (clockwise) from a quarter turn, the gap is `0.7`
/// of that, and the control offsets `0.67` and `0.34` of the gap.
pub open spec fn lobe_cmds(r: int, i: int) -> Seq<PathCmd> {
    let s = 1250 - 1000 * i;
    let start = ring_pt(21_900_000 * r, s + 150, 5000);
    let dip = ring_pt(17_112_000 * r, s, 5000);
    let back = ring_pt(21_900_000 * r, s - 150, 5000);
    let c1 = ring_pt(22_995_000 * r, s - 381, 5000);
    let c2 = ring_pt(22_995_000 * r, s - 612, 5000);
    let end = ring_pt(21_900_000 * r, s - 850, 5000);
    seq![
        if i == 0 {
            PathCmd::MoveTo { p: start }
        } else {
            PathCmd::LineTo { p: start }
        },
        PathCmd::CubicTo { c1: dip, c2: dip, end: back },
        PathCmd::CubicTo { c1, c2, end },
    ]
}

/// The first `i` ridge-star lobes, in order.
pub open spec fn star_cmds(r: int, i: int) -> Seq<PathCmd>
    decreases i,
{
    if i <= 0 {
        Seq::empty()
    } else {
        star_cmds(r, i - 1) + lobe_cmds(r, i - 1)
    }
}

/// The center of bolt `i`: `0.73*r + 0.33 * (0.17739*r/pi)` from the ring
/// center, at `1/4 - i/5` turns.
pub open spec fn bolt_base(r: int, i: int) -> Base {
    Base::Polar {
        radius: Scalar { rat: (21_900_000 * r) as i64, inv_pi: (1_756_161 * r) as i64, rt3: 0 },
        turns: Frac { num: (15 - 12 * i) as i64, den: 60 },
    }
}

/// A point of bolt `i`: radius `ipi * r / (pi * SCALAR_DEN)` around the bolt
/// center, at `num/60` turns.
pub open spec fn bolt_pt(r: int, i: int, ipi: int, num: int) -> PathPoint {
    PathPoint {
        base: bolt_base(r, i),
        radius: Scalar { rat: 0, inv_pi: (ipi * r) as i64, rt3: 0 },
        turns: Frac { num: num as i64, den: 60 },
    }
}

/// The six commands of bolt `i`: a move to its first point, four cubics
/// stepping a quarter turn clockwise each, with duplicated-radius control
/// points at `1.14` bolt radii offset by a sixth and a twelfth of a turn,
/// and a close. `5_321_700` and `6_066_738` are `0.17739` and
/// `0.17739 * 1.14` scaled by `SCALAR_DEN`.
pub open spec fn bolt_cmds(r: int, i: int) -> Seq<PathCmd> {
    let a = 15 - 12 * i;
    seq![
        PathCmd::MoveTo { p: bolt_pt(r, i, 5_321_700, a) },
        PathCmd::CubicTo {
            c1: bolt_pt(r, i, 6_066_738, a - 15 + 10),
            c2: bolt_pt(r, i, 6_066_738, a - 15 + 5),
            end: bolt_pt(r, i, 5_321_700, a - 15),
        },
        PathCmd::CubicTo {
            c1: bolt_pt(r, i, 6_066_738, a - 30 + 10),
            c2: bolt_pt(r, i, 6_066_738, a - 30 + 5),
            end: bolt_pt(r, i, 5_321_700, a - 30),
        },
        PathCmd::CubicTo {
            c1: bolt_pt(r, i, 6_066_738, a - 45 + 10),
            c2: bolt_pt(r, i, 6_066_738, a - 45 + 5),
            end: bolt_pt(r, i, 5_321_700, a - 45),
        },
        PathCmd::CubicTo {
            c1: bolt_pt(r, i, 6_066_738, a - 60 + 10),
            c2: bolt_pt(r, i, 6_066_738, a - 60 + 5),
            end: bolt_pt(r, i, 5_321_700, a - 60),
        },
        PathCmd::Close,
    ]
}

/// The first `i` bolts, each closed on its own.
pub open spec fn bolts_cmds(r: int, i: int) -> Seq<PathCmd>
    decreases i,
{
    if i <= 0 {
        Seq::empty()
    } else {
        bolts_cmds(r, i - 1) + bolt_cmds(r, i - 1)
    }
}

/// The whole compound ring path: `n` teeth closed as one contour, the five
/// ridge-star lobes closed as a second, and five bolts each closed on its
/// own.
pub open spec fn ring_path_cmds(r: int, n: int) -> Seq<PathCmd> {
    teeth_cmds(r, n, n) + seq![PathCmd::Close] + star_cmds(r, 5) + seq![PathCmd::Close]
        + bolts_cmds(r, 5)
}

/// Builds the compound ring path command by command.
pub fn ring_path(radius: i64, teeth_count: i64) -> (p: Path)
    requires
        0 <= radius <= 0x1_0000_0000,
        1 <= teeth_count <= 1_000_000,
    ensures
        p@ == ring_path_cmds(radius as int, teeth_count as int),
{
    let mut path = Path::empty();

    // Outer teeth, advancing counter-clockwise by one slot each.
    let den: i64 = 20 * teeth_count;
    let mut i: i64 = 0;
    proof {
        assert(path@ =~= teeth_cmds(radius as int, teeth_count as int, 0));
    }
    while i < teeth_count
        invariant
            0 <= i <= teeth_count,
            1 <= teeth_count <= 1_000_000,
            0 <= radius <= 0x1_0000_0000,
            den == 20 * teeth_count,
            path@ == teeth_cmds(radius as int, teeth_count as int, i as int),
        decreases teeth_count - i,
    {
        let s: i64 = 5 * teeth_count + 20 * i;
        let rim = Scalar::rational(radius, 26_400_000);
        let peak_r = Scalar::rational(radius, 31_050_000);
        let start = point_in_circle(Base::At { x: 0, y: 0 }, rim, Frac { num: s - 8, den });
        let peak = point_in_circle(Base::At { x: 0, y: 0 }, peak_r, Frac { num: s, den });
        let after = point_in_circle(Base::At { x: 0, y: 0 }, rim, Frac { num: s + 8, den });
        let bottom = point_in_circle(Base::At { x: 0, y: 0 }, rim, Frac { num: s + 12, den });
        if i == 0 {
            path.move_to(start);
        } else {
            path.line_to(start);
        }
        path.cubic_to(peak, peak, after);
        path.line_to(bottom);
        proof {
            assert(path@ =~= teeth_cmds(radius as int, teeth_count as int, i as int + 1));
        }
        i = i + 1;
    }
    path.close();
    let ghost teeth_part = path@;

    // Inner ridge star, five lobes clockwise.
    let mut i: i64 = 0;
    proof {
        assert(star_cmds(radius as int, 0) =~= Seq::<PathCmd>::empty());
        assert(path@ =~= teeth_part + star_cmds(radius as int, 0));
    }
    while i < 5
        invariant
            0 <= i <= 5,
            0 <= radius <= 0x1_0000_0000,
            path@ == teeth_part + star_cmds(radius as int, i as int),
        decreases 5 - i,
    {
        let s: i64 = 1250 - 1000 * i;
        let inner = Scalar::rational(radius, 21_900_000);
        let dip_r = Scalar::rational(radius, 17_112_000);
        let bump_r = Scalar::rational(radius, 22_995_000);
        let start = point_in_circle(Base::At { x: 0, y: 0 }, inner, Frac { num: s + 150, den: 5000 });
        let dip = point_in_circle(Base::At { x: 0, y: 0 }, dip_r, Frac { num: s, den: 5000 });
        let back = point_in_circle(Base::At { x: 0, y: 0 }, inner, Frac { num: s - 150, den: 5000 });
        let c1 = point_in_circle(Base::At { x: 0, y: 0 }, bump_r, Frac { num: s - 381, den: 5000 });
        let c2 = point_in_circle(Base::At { x: 0, y: 0 }, bump_r, Frac { num: s - 612, den: 5000 });
        let end = point_in_circle(Base::At { x: 0, y: 0 }, inner, Frac { num: s - 850, den: 5000 });
        if i == 0 {
            path.move_to(start);
        } else {
            path.line_to(start);
        }
        path.cubic_to(dip, dip, back);
        path.cubic_to(c1, c2, end);
        proof {
            let r = radius as int;
            let ii = i as int;
            assert(star_cmds(r, ii + 1) == star_cmds(r, ii) + lobe_cmds(r, ii));
            assert(start.base == origin());
            assert(start.radius.rat as int == 21_900_000 * r);
            assert(start.radius == (Scalar { rat: (21_900_000 * r) as i64, inv_pi: 0, rt3: 0 }));
            assert(start.turns == (Frac { num: (1250 - 1000 * ii + 150) as i64, den: 5000 as i64 }));
            assert(start == ring_pt(21_900_000 * r, 1250 - 1000 * ii + 150, 5000));
            assert(dip == ring_pt(17_112_000 * r, 1250 - 1000 * ii, 5000));
            assert(end == ring_pt(21_900_000 * r, 1250 - 1000 * ii - 850, 5000));
            assert(path@ =~= teeth_part + star_cmds(r, ii + 1));
        }
        i = i + 1;
    }
    path.close();
    let ghost star_part = path@;

    // Five bolt heads, their centers stepping with the star lobes.
    let mut i: i64 = 0;
    proof {
        assert(bolts_cmds(radius as int, 0) =~= Seq::<PathCmd>::empty());
        assert(path@ =~= star_part + bolts_cmds(radius as int, 0));
    }
    while i < 5
        invariant
            0 <= i <= 5,
            0 <= radius <= 0x1_0000_0000,
            path@ == star_part + bolts_cmds(radius as int, i as int),
        decreases 5 - i,
    {
        let center_r = Scalar::rational(radius, 21_900_000).add_scalar(
            Scalar::over_pi(radius, 1_756_161),
        );
        let bolt_r = Scalar::over_pi(radius, 5_321_700);
        let bolt_peak = Scalar::over_pi(radius, 6_066_738);
        let base = Base::Polar { radius: center_r, turns: Frac { num: 15 - 12 * i, den: 60 } };
        let a: i64 = 15 - 12 * i;
        path.move_to(point_in_circle(base, bolt_r, Frac { num: a, den: 60 }));
        path.cubic_to(
            point_in_circle(base, bolt_peak, Frac { num: a - 15 + 10, den: 60 }),
            point_in_circle(base, bolt_peak, Frac { num: a - 15 + 5, den: 60 }),
            point_in_circle(base, bolt_r, Frac { num: a - 15, den: 60 }),
        );
        path.cubic_to(
            point_in_circle(base, bolt_peak, Frac { num: a - 30 + 10, den: 60 }),
            point_in_circle(base, bolt_peak, Frac { num: a - 30 + 5, den: 60 }),
            point_in_circle(base, bolt_r, Frac { num: a - 30, den: 60 }),
        );
        path.cubic_to(
            point_in_circle(base, bolt_peak, Frac { num: a - 45 + 10, den: 60 }),
            point_in_circle(base, bolt_peak, Frac { num: a - 45 + 5, den: 60 }),
            point_in_circle(base, bolt_r, Frac { num: a - 45, den: 60 }),
        );
        path.cubic_to(
            point_in_circle(base, bolt_peak, Frac { num: a - 60 + 10, den: 60 }),
            point_in_circle(base, bolt_peak, Frac { num: a - 60 + 5, den: 60 }),
            point_in_circle(base, bolt_r, Frac { num: a - 60, den: 60 }),
        );
        path.close();
        proof {
            assert(path@ =~= star_part + bolts_cmds(radius as int, i as int + 1));
        }
        i = i + 1;
    }
    proof {
        assert(path@ =~= ring_path_cmds(radius as int, teeth_count as int));
    }
    path
}


/// The fill of the compound ring: a radial gradient centered a little below
/// the ridge top at `(0, 0.04 * 0.85 * r)`, radius `0.85 * r`, running from
/// steel gray to rust brown between `0.8` and `1.0` of the radius, clamped.
pub open spec fn ring_fill_paint(r: int, w: int) -> Paint {
    Paint {
        anti_alias: true,
        stroke_width: stroke_width_spec(w),
        stroke_join: StrokeJoin::Miter,
        style: Style::Fill,
        shader: Shader::Radial {
            center: ring_pt(1_020_000 * r, -1, 4),
            radius: Scalar { rat: (25_500_000 * r) as i64, inv_pi: 0, rt3: 0 },
            inner: argb(0xff_555555),
            outer: argb(0xff_7b492d),
            stops: Some((Frac { num: 4, den: 5 }, Frac { num: 1, den: 1 })),
        },
    }
}

/// The outline of the compound ring: the same pen, stroking in solid dark
/// brown.
pub open spec fn ring_stroke_paint(r: int, w: int) -> Paint {
    Paint {
        anti_alias: true,
        stroke_width: stroke_width_spec(w),
        stroke_join: StrokeJoin::Miter,
        style: Style::Stroke,
        shader: Shader::Solid { color: argb(0xff_592e1f) },
    }
}

/// The ridge circle's paint: the paint object carries on from the outline
/// pass (still stroking, same pen), with the color source replaced by an
/// anisotropic radial gradient from dark brown to lighter rust whose ellipse
/// matches the square of side `2 * 0.85 * r` above the center.
pub open spec fn ridge_paint(r: int, w: int) -> Paint {
    Paint {
        anti_alias: true,
        stroke_width: stroke_width_spec(w),
        stroke_join: StrokeJoin::Miter,
        style: Style::Stroke,
        shader: Shader::ScaledRadial {
            center: ring_pt(25_500_000 * r, 1, 4),
            rx: Scalar { rat: (51_000_000 * r) as i64, inv_pi: 0, rt3: 0 },
            ry: Scalar { rat: (51_000_000 * r) as i64, inv_pi: 0, rt3: 0 },
            inner: argb(0xff_592e1f),
            outer: argb(0xff_885543),
        },
    }
}

/// The chain ring's nine canvas operations: translate to the center, rotate,
/// fill and outline the compound path, pop the rotation, draw the ridge
/// circle, pop the translation.
pub open spec fn chain_ring_ops(cx: int, cy: int, r: int, rotation: Frac, n: int, w: int)
    -> Seq<DrawOpV> {
    seq![
        DrawOpV::Save,
        DrawOpV::Translate { x: cx as i64, y: cy as i64 },
        DrawOpV::Save,
        DrawOpV::Rotate { degrees: rotation },
        DrawOpV::DrawPath { cmds: ring_path_cmds(r, n), paint: ring_fill_paint(r, w) },
        DrawOpV::DrawPath { cmds: ring_path_cmds(r, n), paint: ring_stroke_paint(r, w) },
        DrawOpV::Restore,
        DrawOpV::DrawCircle {
            x: 0,
            y: 0,
            radius: Scalar { rat: (25_500_000 * r) as i64, inv_pi: 0, rt3: 0 },
            paint: ridge_paint(r, w),
        },
        DrawOpV::Restore,
    ]
}

/// Draws the chain ring: the ring with `teeth_count` teeth, ridge star and
/// bolts rotated by `rotation` degrees about `(cx, cy)`, and the ridge
/// circle under it, unrotated.
pub fn chain_ring(cx: i64, cy: i64, radius: i64, rotation: Frac, teeth_count: i64,
    canvas_width: u64) -> (ops: Vec<DrawOp>)
    requires
        0 <= radius <= 0x1_0000_0000,
        1 <= teeth_count <= 1_000_000,
        canvas_width <= 0x1_0000_0000,
    ensures
        ops_view(ops@) == chain_ring_ops(cx as int, cy as int, radius as int, rotation,
            teeth_count as int, canvas_width as int),
{
    let mut ops: Vec<DrawOp> = Vec::new();
    ops.push(DrawOp::Save);
    ops.push(DrawOp::Translate { x: cx, y: cy });
    ops.push(DrawOp::Save);
    ops.push(DrawOp::Rotate { degrees: rotation });

    let mut paint = Paint::new_default();
    paint.set_anti_alias(true);
    paint.set_stroke_width(stroke_width(canvas_width));

    // Fill the compound path with the steel-to-rust radial gradient.
    paint.set_style(Style::Fill);
    paint.set_shader(Shader::Radial {
        center: point_in_circle(
            Base::At { x: 0, y: 0 },
            Scalar::rational(radius, 1_020_000),  // 0.04 of the 0.85 ridge radius
            Frac { num: -1, den: 4 },  // straight down: (0, +0.034 * r)
        ),
        radius: Scalar::rational(radius, 25_500_000),  // the 0.85 ridge radius
        inner: Argb::from_u32(0xff_555555),
        outer: Argb::from_u32(0xff_7b492d),
        stops: Some((Frac { num: 4, den: 5 }, Frac { num: 1, den: 1 })),
    });
    ops.push(DrawOp::DrawPath { path: ring_path(radius, teeth_count), paint });

    // Stroke the same compound path in solid dark brown.
    paint.set_style(Style::Stroke);
    paint.set_shader(Shader::Solid { color: Argb::from_u32(0xff_592e1f) });
    ops.push(DrawOp::DrawPath { path: ring_path(radius, teeth_count), paint });

    ops.push(DrawOp::Restore);

    // Ridge around the chain ring, under the gear teeth, in the
    // translate-only frame.
    gradient(
        &mut paint,
        point_in_circle(
            Base::At { x: 0, y: 0 },
            Scalar::rational(radius, 25_500_000),
            Frac { num: 1, den: 4 },  // straight up: (0, -0.85 * r)
        ),
        Scalar::rational(radius, 51_000_000),  // a square box of twice the ridge radius
        Scalar::rational(radius, 51_000_000),
        Argb::from_u32(0xff_592e1f),
        Argb::from_u32(0xff_885543),
    );
    ops.push(DrawOp::DrawCircle {
        x: 0,
        y: 0,
        radius: Scalar::rational(radius, 25_500_000),
        paint,
    });

    ops.push(DrawOp::Restore);
    proof {
        assert(ops_view(ops@) =~~= chain_ring_ops(cx as int, cy as int, radius as int, rotation,
            teeth_count as int, canvas_width as int));
    }
    ops
}


/// A command is the peak cubic of a gear tooth: a cubic segment whose first
/// control point sits on the overshoot circle of radius `1.035 * r`. No
/// other command of the compound path touches that circle when `r >= 1`.
pub open spec fn is_tooth_peak(cmd: PathCmd, r: int) -> bool {
    cmd matches PathCmd::CubicTo { c1, .. } && c1.radius == (Scalar {
        rat: (31_050_000 * r) as i64,
        inv_pi: 0,
        rt3: 0,
    })
}

/// How many tooth peaks a command sequence holds.
pub open spec fn tooth_peak_count(s: Seq<PathCmd>, r: int) -> int
    decreases s.len(),
{
    if s.len() == 0 {
        0
    } else {
        tooth_peak_count(s.drop_last(), r) + if is_tooth_peak(s.last(), r) {
            1int
        } else {
            0int
        }
    }
}

/// Peak counting distributes over concatenation.
pub proof fn lemma_peak_count_add(a: Seq<PathCmd>, b: Seq<PathCmd>, r: int)
    ensures
        tooth_peak_count(a + b, r) == tooth_peak_count(a, r) + tooth_peak_count(b, r),
    decreases b.len(),
{
    if b.len() == 0 {
        assert(a + b =~= a);
    } else {
        lemma_peak_count_add(a, b.drop_last(), r);
        assert((a + b).drop_last() =~= a + b.drop_last());
        assert((a + b).last() == b.last());
    }
}

/// Each tooth contributes exactly one peak.
proof fn lemma_tooth_cmds_peaks(r: int, n: int, i: int)
    requires
        1 <= r <= 0x1_0000_0000,
        1 <= n <= 1_000_000,
    ensures
        tooth_peak_count(tooth_cmds(r, n, i), r) == 1,
        tooth_cmds(r, n, i).len() == 3,
{
    reveal_with_fuel(tooth_peak_count, 5);
    let s = tooth_cmds(r, n, i);
    assert(s.drop_last().drop_last().drop_last() =~= Seq::<PathCmd>::empty());
    assert(s.drop_last().drop_last().last() == s[0]);
    assert(s.drop_last().last() == s[1]);
    assert(!is_tooth_peak(s[0], r));
    assert(is_tooth_peak(s[1], r));
    assert(!is_tooth_peak(s[2], r));
}

/// A ridge-star lobe holds no tooth peak: its cubics' control points sit on
/// the circles of radius `0.5704 * r` and `0.7665 * r`, under the overshoot
/// circle for any positive radius.
proof fn lemma_lobe_cmds_peaks(r: int, i: int)
    requires
        1 <= r <= 0x1_0000_0000,
    ensures
        tooth_peak_count(lobe_cmds(r, i), r) == 0,
        lobe_cmds(r, i).len() == 3,
{
    reveal_with_fuel(tooth_peak_count, 5);
    let s = lobe_cmds(r, i);
    assert(s.drop_last().drop_last().drop_last() =~= Seq::<PathCmd>::empty());
    assert(s.drop_last().drop_last().last() == s[0]);
    assert(s.drop_last().last() == s[1]);
    assert(17_112_000 * r < 31_050_000 * r);
    assert(!is_tooth_peak(s[1], r));
    assert(!is_tooth_peak(s[2], r));
}

/// A bolt holds no tooth peak: its cubics' control points carry only a
/// `1/pi` component, never a plain rational radius.
proof fn lemma_bolt_cmds_peaks(r: int, i: int)
    requires
        1 <= r <= 0x1_0000_0000,
    ensures
        tooth_peak_count(bolt_cmds(r, i), r) == 0,
        bolt_cmds(r, i).len() == 6,
{
    reveal_with_fuel(tooth_peak_count, 8);
    let s = bolt_cmds(r, i);
    assert(s.drop_last().drop_last().drop_last().drop_last().drop_last().drop_last()
        =~= Seq::<PathCmd>::empty());
    assert(s.drop_last().drop_last().drop_last().drop_last().drop_last().last() == s[0]);
    assert(s.drop_last().drop_last().drop_last().drop_last().last() == s[1]);
    assert(s.drop_last().drop_last().drop_last().last() == s[2]);
    assert(s.drop_last().drop_last().last() == s[3]);
    assert(s.drop_last().last() == s[4]);
    assert(0 < 31_050_000 * r);
    assert(!is_tooth_peak(s[1], r));
    assert(!is_tooth_peak(s[2], r));
    assert(!is_tooth_peak(s[3], r));
    assert(!is_tooth_peak(s[4], r));
}

/// The first `i` teeth hold `i` peaks and `3 * i` commands, the first of
/// them the contour's opening move.
proof fn lemma_teeth_cmds_peaks(r: int, n: int, i: int)
    requires
        1 <= r <= 0x1_0000_0000,
        1 <= n <= 1_000_000,
        0 <= i,
    ensures
        tooth_peak_count(teeth_cmds(r, n, i), r) == i,
        teeth_cmds(r, n, i).len() == 3 * i,
        i >= 1 ==> teeth_cmds(r, n, i)[0] == (PathCmd::MoveTo {
            p: ring_pt(26_400_000 * r, 5 * n - 8, 20 * n),
        }),
        i >= 1 ==> teeth_cmds(r, n, i).last() == (PathCmd::LineTo {
            p: ring_pt(26_400_000 * r, 5 * n + 20 * (i - 1) + 12, 20 * n),
        }),
    decreases i,
{
    reveal_with_fuel(tooth_peak_count, 2);
    if i <= 0 {
        assert(teeth_cmds(r, n, i) =~= Seq::<PathCmd>::empty());
    } else {
        lemma_teeth_cmds_peaks(r, n, i - 1);
        lemma_tooth_cmds_peaks(r, n, i - 1);
        lemma_peak_count_add(teeth_cmds(r, n, i - 1), tooth_cmds(r, n, i - 1), r);
        assert(teeth_cmds(r, n, i).last() == tooth_cmds(r, n, i - 1)[2]);
        if i == 1 {
            assert(teeth_cmds(r, n, i)[0] == tooth_cmds(r, n, 0)[0]);
        }
    }
}

/// The star prefix holds no peaks; likewise the bolts.
proof fn lemma_star_cmds_peaks(r: int, i: int)
    requires
        1 <= r <= 0x1_0000_0000,
        0 <= i,
    ensures
        tooth_peak_count(star_cmds(r, i), r) == 0,
        star_cmds(r, i).len() == 3 * i,
    decreases i,
{
    reveal_with_fuel(tooth_peak_count, 2);
    if i <= 0 {
        assert(star_cmds(r, i) =~= Seq::<PathCmd>::empty());
    } else {
        lemma_star_cmds_peaks(r, i - 1);
        lemma_lobe_cmds_peaks(r, i - 1);
        lemma_peak_count_add(star_cmds(r, i - 1), lobe_cmds(r, i - 1), r);
    }
}

proof fn lemma_bolts_cmds_peaks(r: int, i: int)
    requires
        1 <= r <= 0x1_0000_0000,
        0 <= i,
    ensures
        tooth_peak_count(bolts_cmds(r, i), r) == 0,
        bolts_cmds(r, i).len() == 6 * i,
    decreases i,
{
    reveal_with_fuel(tooth_peak_count, 2);
    if i <= 0 {
        assert(bolts_cmds(r, i) =~= Seq::<PathCmd>::empty());
    } else {
        lemma_bolts_cmds_peaks(r, i - 1);
        lemma_bolt_cmds_peaks(r, i - 1);
        lemma_peak_count_add(bolts_cmds(r, i - 1), bolt_cmds(r, i - 1), r);
    }
}

/// The compound ring path of a ring with `n` teeth holds exactly `n` tooth
/// peaks, and its teeth contour is closed: it opens with a move to the
/// first tooth's leading corner, its last tooth edge ends on the same
/// circle at an angle exactly one whole turn further, and the contour is
/// closed right there, so the teeth ring returns to its start point.
pub proof fn lemma_ring_path_teeth(r: int, n: int)
    requires
        1 <= r <= 0x1_0000_0000,
        1 <= n <= 1_000_000,
    ensures
        tooth_peak_count(ring_path_cmds(r, n), r) == n,
        ring_path_cmds(r, n).len() == 3 * n + 47,
        ring_path_cmds(r, n)[0] == (PathCmd::MoveTo {
            p: ring_pt(26_400_000 * r, 5 * n - 8, 20 * n),
        }),
        ring_path_cmds(r, n)[3 * n - 1] == (PathCmd::LineTo {
            p: ring_pt(26_400_000 * r, 25 * n - 8, 20 * n),
        }),
        ring_path_cmds(r, n)[3 * n] == PathCmd::Close,
        turns_equiv(
            Frac { num: (5 * n - 8) as i64, den: (20 * n) as i64 },
            Frac { num: (25 * n - 8) as i64, den: (20 * n) as i64 },
        ),
{
    reveal_with_fuel(tooth_peak_count, 3);
    lemma_teeth_cmds_peaks(r, n, n);
    lemma_star_cmds_peaks(r, 5);
    lemma_bolts_cmds_peaks(r, 5);
    let teeth = teeth_cmds(r, n, n);
    let close = seq![PathCmd::Close];
    assert(tooth_peak_count(close, r) == 0);
    lemma_peak_count_add(teeth, close, r);
    lemma_peak_count_add(teeth + close, star_cmds(r, 5), r);
    lemma_peak_count_add(teeth + close + star_cmds(r, 5), close, r);
    lemma_peak_count_add(teeth + close + star_cmds(r, 5) + close, bolts_cmds(r, 5), r);
    assert(5 * n + 20 * (n - 1) + 12 == 25 * n - 8);
    let d = 20 * n;
    assert((25 * n - 8) * d - (5 * n - 8) * d == d * d) by (nonlinear_arith)
        requires
            d == 20 * n,
    ;
    assert(d * d > 0) by (nonlinear_arith)
        requires
            d >= 20,
    ;
    vstd::arithmetic::div_mod::lemma_fundamental_div_mod_converse(d * d, d * d, 1, 0);
    assert(turns_equiv(
        Frac { num: (5 * n - 8) as i64, den: (20 * n) as i64 },
        Frac { num: (25 * n - 8) as i64, den: (20 * n) as i64 },
    ));
}

} // verus!
