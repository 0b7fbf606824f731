use chainring::color::Argb;
use chainring::frame::render_frame;
use chainring::geom::point_in_circle;
use chainring::geom::Base;
use chainring::num::Frac;
use chainring::num::Scalar;
use chainring::paint::stroke_width;
use chainring::paint::Shader;
use chainring::paint::Style;
use chainring::path::PathCmd;
use chainring::plan::DrawOp;
use chainring::triangle::triangle;
use chainring::triangle::Vertex;

/// The number of tooth-peak cubics in a command list: cubics whose first
/// control point sits on the overshoot circle of `1.035 * r`.
fn count_peaks(cmds: &[PathCmd], radius: i64) -> usize {
    let peak = Scalar { rat: 31_050_000 * radius, inv_pi: 0, rt3: 0 };
    cmds.iter()
        .filter(|c| matches!(c, PathCmd::CubicTo { c1, .. } if c1.radius == peak))
        .count()
}

/// Rendering the same frame twice gives identical plans: the plan is a
/// function of the inputs alone.
#[test]
fn render_twice_is_identical() {
    let (plan1, rem1) = render_frame(7, 60, 120, 256, 256);
    let (plan2, rem2) = render_frame(7, 60, 120, 256, 256);
    assert_eq!(rem1, rem2);
    assert_eq!(plan1, plan2);
}

/// Frame 0 at 60 fps and 60 bpm on a 256-square canvas: rotation is zero,
/// the ring radius is 128, the blade radius 67, the step a fifth of a
/// degree per frame, and 1799 of the cycle's 1800 frames remain.
#[test]
fn first_frame_scenario() {
    let (plan, remaining) = render_frame(0, 60, 60, 256, 256);
    assert_eq!(remaining, 1799);
    assert_eq!(plan.width, 256);
    assert_eq!(plan.height, 256);
    assert_eq!(plan.ops.len(), 17);
    assert_eq!(plan.ops[1], DrawOp::Translate { x: 128, y: 128 });
    // rotation = frame * 12 * bpm / (60 * fps) = 0 / 3600 degrees
    assert_eq!(plan.ops[3], DrawOp::Rotate { degrees: Frac { num: 0, den: 3600 } });
    // the ridge circle has radius 0.85 * 128
    match &plan.ops[7] {
        DrawOp::DrawCircle { x, y, radius, .. } => {
            assert_eq!((*x, *y), (0, 0));
            assert_eq!(radius.rat, 25_500_000 * 128);
            assert_eq!(radius.inv_pi, 0);
        }
        other => panic!("expected the ridge circle, found {:?}", other),
    }
    // the blades circumscribe radius 128 * 53 / 100 = 67 and start at
    // 60 + rotation = 60 angle units
    match &plan.ops[9] {
        DrawOp::DrawPath { path, .. } => match &path.cmds[0] {
            PathCmd::MoveTo { p } => {
                assert_eq!(p.radius, Scalar { rat: 30_000_000 * 67, inv_pi: 0, rt3: 0 });
                assert_eq!(p.base, Base::At { x: 128, y: 128 });
                // 216000 / 324000 turns = 60 ninetieths of a turn
                assert_eq!(p.turns, Frac { num: 3600 * 60, den: 90 * 3600 });
            }
            other => panic!("expected the first blade's move, found {:?}", other),
        },
        other => panic!("expected the first blade, found {:?}", other),
    }
}

/// Frame 29 of the same configuration: 29 fifths of a degree of rotation,
/// and 1770 frames remain of the 1800-frame cycle.
#[test]
fn frame_29_scenario() {
    let (plan, remaining) = render_frame(29, 60, 60, 256, 256);
    assert_eq!(remaining, 1770);
    // rotation = 29 * 12 * 60 / 3600 = 20880 / 3600 = 5.8 degrees
    assert_eq!(plan.ops[3], DrawOp::Rotate { degrees: Frac { num: 20880, den: 3600 } });
}

/// The compound ring path of a 32-tooth ring holds exactly 32 tooth peaks,
/// and its teeth contour ends on the same circle exactly one turn past its
/// start.
#[test]
fn ring_path_has_32_peaks_and_closes() {
    let (plan, _) = render_frame(0, 60, 60, 256, 256);
    let cmds = match &plan.ops[4] {
        DrawOp::DrawPath { path, .. } => &path.cmds,
        other => panic!("expected the ring fill, found {:?}", other),
    };
    assert_eq!(cmds.len(), 3 * 32 + 47);
    assert_eq!(count_peaks(cmds, 128), 32);
    let first = match &cmds[0] {
        PathCmd::MoveTo { p } => p,
        other => panic!("expected the opening move, found {:?}", other),
    };
    let last = match &cmds[3 * 32 - 1] {
        PathCmd::LineTo { p } => p,
        other => panic!("expected the final tooth edge, found {:?}", other),
    };
    assert!(matches!(cmds[3 * 32], PathCmd::Close));
    assert_eq!(first.radius, last.radius);
    assert_eq!(first.base, last.base);
    assert_eq!(first.turns.den, last.turns.den);
    // exactly one whole turn apart
    assert_eq!(last.turns.num - first.turns.num, first.turns.den);
    assert_eq!(first.turns, Frac { num: 5 * 32 - 8, den: 20 * 32 });
}

/// The five bolt heads circle the ring center at `0.73 * r` plus a third of
/// a bolt radius, with the bolt radius carrying the `1/pi` factor.
#[test]
fn bolt_heads_carry_inverse_pi_radii() {
    let (plan, _) = render_frame(0, 60, 60, 256, 256);
    let cmds = match &plan.ops[4] {
        DrawOp::DrawPath { path, .. } => &path.cmds,
        other => panic!("expected the ring fill, found {:?}", other),
    };
    // teeth (96) + close + star (15) + close, then the first bolt's move
    match &cmds[113] {
        PathCmd::MoveTo { p } => {
            match p.base {
                Base::Polar { radius, turns } => {
                    assert_eq!(radius.rat, 21_900_000 * 128);
                    assert_eq!(radius.inv_pi, 1_756_161 * 128);
                    assert_eq!(turns, Frac { num: 15, den: 60 });
                }
                other => panic!("expected a polar bolt center, found {:?}", other),
            }
            assert_eq!(p.radius.rat, 0);
            assert_eq!(p.radius.inv_pi, 5_321_700 * 128);
        }
        other => panic!("expected the first bolt's move, found {:?}", other),
    }
}

/// The six filled blades come in fixed order and anchor their gradients at
/// vertices 0, 1, 2 with the fixed color wheel, fading to pure blue.
#[test]
fn blades_in_fixed_order() {
    let (plan, _) = render_frame(0, 60, 60, 256, 256);
    let expected: [(u8, u8, u8, bool); 6] = [
        (0x00, 0xff, 0x00, true),
        (0x00, 0x00, 0xff, true),
        (0xff, 0x00, 0x00, true),
        (0xff, 0xff, 0x00, false),
        (0x00, 0xff, 0xff, false),
        (0xff, 0x00, 0xff, false),
    ];
    for (k, (r, g, b, wankel)) in expected.iter().enumerate() {
        match &plan.ops[8 + 1 + k] {
            DrawOp::DrawPath { path, paint } => {
                // rounded blades have cubic edges, straight ones lines
                assert_eq!(path.cmds.len(), 5);
                let bowed = matches!(path.cmds[1], PathCmd::CubicTo { .. });
                assert_eq!(bowed, *wankel);
                match &paint.shader {
                    Shader::ScaledRadial { inner, outer, .. } => {
                        assert_eq!((inner.r, inner.g, inner.b), (*r, *g, *b));
                        assert_eq!((outer.r, outer.g, outer.b), (0, 0, 0xff));
                    }
                    other => panic!("expected a blade gradient, found {:?}", other),
                }
            }
            other => panic!("expected a blade, found {:?}", other),
        }
    }
}

/// The two outline blades on top stroke with the translucent overlay color.
#[test]
fn outline_blades_on_top() {
    let (plan, _) = render_frame(0, 60, 60, 256, 256);
    for k in [15, 16] {
        match &plan.ops[k] {
            DrawOp::DrawPath { paint, .. } => {
                assert_eq!(paint.style, Style::Stroke);
                assert!(paint.anti_alias);
                match &paint.shader {
                    Shader::Radial { inner, outer, .. } => {
                        assert_eq!((inner.r, inner.g, inner.b), (0xff, 0xff, 0xff));
                        assert_eq!((outer.a, outer.r, outer.g, outer.b), (0x77, 0x22, 0x22, 0x22));
                    }
                    other => panic!("expected the highlight gradient, found {:?}", other),
                }
            }
            other => panic!("expected an outline blade, found {:?}", other),
        }
    }
}

/// A triangle path visits its three vertices 120 angle units apart and the
/// fourth generated vertex returns to the start direction.
#[test]
fn triangle_vertices_evenly_spaced() {
    let degrees = Frac { num: 61, den: 1 };
    let (path, _) = triangle(10, 10, 67, degrees, None, Argb::from_u32(0x77_222222), false, 256);
    let nums: Vec<i64> = path
        .cmds
        .iter()
        .filter_map(|c| match c {
            PathCmd::MoveTo { p } | PathCmd::LineTo { p } => Some(p.turns.num),
            _ => None,
        })
        .collect();
    assert_eq!(nums, vec![61, 61 + 120, 61 + 240, 61 + 360]);
    // four edge steps of 4/3 turn: the last lands four whole turns later
    assert_eq!((nums[3] - nums[0]) % 90, 0);
    assert_eq!((nums[3] - nums[0]) / 90, 4);
    // a single step is no whole number of turns
    assert_ne!((nums[1] - nums[0]) % 90, 0);
}

/// Rounded blades bow their edges through control points at 0.9 radii,
/// strictly farther out than the chords, which pass at half the radius.
#[test]
fn wankel_controls_outside_chord() {
    let degrees = Frac { num: 60, den: 1 };
    let (path, _) = triangle(10, 10, 67, degrees, Some(Vertex::V0), Argb::from_u32(0xff_00ff00),
        true, 256);
    for cmd in &path.cmds[1..4] {
        match cmd {
            PathCmd::CubicTo { c1, c2, .. } => {
                assert_eq!(c1.radius.rat, 27_000_000 * 67);
                assert_eq!(c2.radius.rat, 27_000_000 * 67);
                assert!(2 * c1.radius.rat > 30_000_000 * 67);
            }
            other => panic!("expected a bowed edge, found {:?}", other),
        }
    }
}

/// A filled blade's gradient radii are the table's side fractions: negative
/// multiples of `sqrt(3) * r`, since the side length is negative.
#[test]
fn blade_gradient_radii_table() {
    let degrees = Frac { num: 60, den: 1 };
    let cases: [(Vertex, bool, i64, i64); 4] = [
        (Vertex::V0, true, -14_400_000, -16_160_000),
        (Vertex::V0, false, -12_000_000, -24_000_000),
        (Vertex::V1, true, -16_160_000, -20_000_000),
        (Vertex::V1, false, -16_800_000, -20_000_000),
    ];
    for (v, wankel, ex, ey) in cases {
        let (_, paint) = triangle(0, 0, 100, degrees, Some(v), Argb::from_u32(0xff_ff0000),
            wankel, 256);
        match paint.shader {
            Shader::ScaledRadial { rx, ry, .. } => {
                assert_eq!(rx.rt3, ex * 100);
                assert_eq!(ry.rt3, ey * 100);
                assert_eq!(rx.rat, 0);
                assert_eq!(rx.inv_pi, 0);
            }
            other => panic!("expected a blade gradient, found {:?}", other),
        }
    }
}

/// Only 0, 1 and 2 name a vertex; the out-of-range index 5 is refused
/// instead of drawing anything.
#[test]
fn vertex_index_5_is_refused() {
    assert_eq!(Vertex::from_index(0), Some(Vertex::V0));
    assert_eq!(Vertex::from_index(1), Some(Vertex::V1));
    assert_eq!(Vertex::from_index(2), Some(Vertex::V2));
    assert_eq!(Vertex::from_index(3), None);
    assert_eq!(Vertex::from_index(5), None);
}

/// A polar point with radius zero is its base point, whatever the angle.
#[test]
fn zero_radius_point_is_center() {
    let p = point_in_circle(Base::At { x: 3, y: 4 }, Scalar::zero(), Frac { num: 17, den: 60 });
    let q = point_in_circle(Base::At { x: 3, y: 4 }, Scalar::zero(), Frac { num: -5, den: 7 });
    assert_eq!(p.base, q.base);
    assert_eq!(p.radius, Scalar { rat: 0, inv_pi: 0, rt3: 0 });
    assert_eq!(q.radius, Scalar { rat: 0, inv_pi: 0, rt3: 0 });
}

/// Colors unpack channel by channel from their `0xAARRGGBB` words.
#[test]
fn color_unpacks_channels() {
    let c = Argb::from_u32(0xff_7b492d);
    assert_eq!((c.a, c.r, c.g, c.b), (0xff, 0x7b, 0x49, 0x2d));
    let t = Argb::from_u32(0x77_222222);
    assert_eq!((t.a, t.r, t.g, t.b), (0x77, 0x22, 0x22, 0x22));
}

/// The pen is one pixel up to a 360-wide canvas, then a 360th of the width.
#[test]
fn pen_width_scales_with_canvas() {
    assert_eq!(stroke_width(256), Frac { num: 360, den: 360 });
    assert_eq!(stroke_width(360), Frac { num: 360, den: 360 });
    assert_eq!(stroke_width(720), Frac { num: 720, den: 360 });
}

/// Exact scalar constructors place their value in the right component.
#[test]
fn scalar_components() {
    assert_eq!(
        Scalar::rational(128, 26_400_000),
        Scalar { rat: 128 * 26_400_000, inv_pi: 0, rt3: 0 }
    );
    assert_eq!(
        Scalar::over_pi(128, 5_321_700),
        Scalar { rat: 0, inv_pi: 128 * 5_321_700, rt3: 0 }
    );
    assert_eq!(
        Scalar::times_rt3(128, -14_400_000),
        Scalar { rat: 0, inv_pi: 0, rt3: 128 * -14_400_000 }
    );
    let sum = Scalar::rational(10, 21_900_000).add_scalar(Scalar::over_pi(10, 1_756_161));
    assert_eq!(sum, Scalar { rat: 219_000_000, inv_pi: 17_561_610, rt3: 0 });
}
