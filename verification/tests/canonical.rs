use svgpath::flatten::{Cubic, Flattener, NumAnswer, NumRequest};
use svgpath::normalize::Normalizer;
use svgpath::path::{CanonicalCommand, PathCommand};

fn b(v: f64) -> u64 {
    v.to_bits()
}

fn f(v: u64) -> f64 {
    f64::from_bits(v)
}

/// `2/3*q + 1/3*p` and `2/3*q + 1/3*end`, per axis: the elevation blend.
fn elevate(px: u64, py: u64, qx: u64, qy: u64, x: u64, y: u64) -> (u64, u64, u64, u64) {
    (
        b(2.0 / 3.0 * f(qx) + 1.0 / 3.0 * f(px)),
        b(2.0 / 3.0 * f(qy) + 1.0 / 3.0 * f(py)),
        b(2.0 / 3.0 * f(qx) + 1.0 / 3.0 * f(x)),
        b(2.0 / 3.0 * f(qy) + 1.0 / 3.0 * f(y)),
    )
}

fn answer(req: NumRequest) -> NumAnswer {
    match req {
        NumRequest::Nothing => NumAnswer::Nothing,
        NumRequest::Reflect { ax, ay, cx, cy } => NumAnswer::Reflected {
            x1: b(f(ax) * 2.0 - f(cx)),
            y1: b(f(ay) * 2.0 - f(cy)),
        },
        NumRequest::Elevate { px, py, qx, qy, x, y } => {
            let (x1, y1, x2, y2) = elevate(px, py, qx, qy, x, y);
            NumAnswer::Elevated { x1, y1, x2, y2 }
        }
        NumRequest::ReflectElevate { ax, ay, cx, cy, px, py, x, y } => {
            let rx = b(f(ax) * 2.0 - f(cx));
            let ry = b(f(ay) * 2.0 - f(cy));
            let (x1, y1, x2, y2) = elevate(px, py, rx, ry, x, y);
            NumAnswer::ReflectElevated { rx, ry, x1, y1, x2, y2 }
        }
        NumRequest::Arc { px, py, rx, ry, x_axis_rotation, large_arc, sweep, x, y } => {
            let arc = lyon_geom::SvgArc {
                from: lyon_geom::point(f(px), f(py)),
                to: lyon_geom::point(f(x), f(y)),
                radii: lyon_geom::vector(f(rx), f(ry)),
                x_rotation: euclid::Angle::degrees(f(x_axis_rotation)),
                flags: lyon_geom::ArcFlags { large_arc, sweep },
            };
            if arc.is_straight_line() {
                NumAnswer::Arc { straight: true, curves: vec![] }
            } else {
                let mut curves = vec![];
                arc.for_each_cubic_bezier(&mut |c: &lyon_geom::CubicBezierSegment<f64>| {
                    curves.push(Cubic {
                        x1: b(c.ctrl1.x),
                        y1: b(c.ctrl1.y),
                        x2: b(c.ctrl2.x),
                        y2: b(c.ctrl2.y),
                        x: b(c.to.x),
                        y: b(c.to.y),
                    });
                });
                NumAnswer::Arc { straight: false, curves }
            }
        }
    }
}

fn normalize(cmds: &[PathCommand]) -> Vec<PathCommand> {
    let mut n = Normalizer::new();
    let mut out = Vec::new();
    for c in cmds {
        let pairs = n.request(c);
        let sums: Vec<u64> = pairs.iter().map(|p| b(f(p.a) + f(p.b))).collect();
        out.push(n.apply(c, &sums));
    }
    out
}

fn simplify(cmds: &[PathCommand]) -> Vec<CanonicalCommand> {
    let abs = normalize(cmds);
    let mut fl = Flattener::new();
    let mut out = Vec::new();
    for c in abs.iter() {
        let ans = answer(fl.request(c));
        out.extend(fl.step(c, ans));
    }
    out
}

fn conv(s: svgtypes::PathSegment) -> PathCommand {
    match s {
        svgtypes::PathSegment::MoveTo { abs, x, y } => PathCommand::MoveTo { abs, x: b(x), y: b(y) },
        svgtypes::PathSegment::LineTo { abs, x, y } => PathCommand::LineTo { abs, x: b(x), y: b(y) },
        svgtypes::PathSegment::HorizontalLineTo { abs, x } => {
            PathCommand::HorizontalLineTo { abs, x: b(x) }
        }
        svgtypes::PathSegment::VerticalLineTo { abs, y } => {
            PathCommand::VerticalLineTo { abs, y: b(y) }
        }
        svgtypes::PathSegment::CurveTo { abs, x1, y1, x2, y2, x, y } => PathCommand::CurveTo {
            abs,
            x1: b(x1),
            y1: b(y1),
            x2: b(x2),
            y2: b(y2),
            x: b(x),
            y: b(y),
        },
        svgtypes::PathSegment::SmoothCurveTo { abs, x2, y2, x, y } => PathCommand::SmoothCurveTo {
            abs,
            x2: b(x2),
            y2: b(y2),
            x: b(x),
            y: b(y),
        },
        svgtypes::PathSegment::Quadratic { abs, x1, y1, x, y } => PathCommand::Quadratic {
            abs,
            x1: b(x1),
            y1: b(y1),
            x: b(x),
            y: b(y),
        },
        svgtypes::PathSegment::SmoothQuadratic { abs, x, y } => {
            PathCommand::SmoothQuadratic { abs, x: b(x), y: b(y) }
        }
        svgtypes::PathSegment::EllipticalArc {
            abs,
            rx,
            ry,
            x_axis_rotation,
            large_arc,
            sweep,
            x,
            y,
        } => PathCommand::EllipticalArc {
            abs,
            rx: b(rx),
            ry: b(ry),
            x_axis_rotation: b(x_axis_rotation),
            large_arc,
            sweep,
            x: b(x),
            y: b(y),
        },
        svgtypes::PathSegment::ClosePath { abs } => PathCommand::ClosePath { abs },
    }
}

fn parse(path: &str) -> Vec<PathCommand> {
    svgtypes::PathParser::from(path)
        .map(|s| conv(s.unwrap()))
        .collect()
}

fn move_to(x: f64, y: f64) -> CanonicalCommand {
    CanonicalCommand::MoveTo { x: b(x), y: b(y) }
}

fn line_to(x: f64, y: f64) -> CanonicalCommand {
    CanonicalCommand::LineTo { x: b(x), y: b(y) }
}

#[test]
fn normalize_relative_offsets() {
    let path = vec![
        PathCommand::MoveTo { abs: false, x: b(10.0), y: b(10.0) },
        PathCommand::LineTo { abs: false, x: b(5.0), y: b(0.0) },
    ];
    let out = simplify(&path);
    assert_eq!(out, vec![move_to(10.0, 10.0), line_to(15.0, 10.0)]);
}

#[test]
fn normalize_absolute_is_noop() {
    let path = parse("M1,2 L3,4 C5,6 7,8 9,10 Q1,1 2,2 A3,4 30 1 0 5,6 Z");
    let normalized = normalize(&path);
    assert_eq!(path, normalized);
    let twice = normalize(&normalized);
    assert_eq!(normalized, twice);
}

#[test]
fn normalize_relative_after_close_uses_subpath_start() {
    // The cursor returns to the subpath start across a close, so the
    // relative move is offset from (1,1), not from the line's endpoint.
    let path = parse("M1,1 L5,1 Z m 2,3 L0,0");
    let normalized = normalize(&path);
    assert_eq!(
        normalized[3],
        PathCommand::MoveTo { abs: true, x: b(3.0), y: b(4.0) }
    );
}

#[test]
fn horizontal_vertical_shorthand() {
    let out = simplify(&parse("M0,0 H10 V10"));
    assert_eq!(out, vec![move_to(0.0, 0.0), line_to(10.0, 0.0), line_to(10.0, 10.0)]);
}

#[test]
fn smooth_curve_reflects_previous_control() {
    let out = simplify(&parse("M0,0 C0,0 5,5 10,10 S20,20 30,30"));
    assert_eq!(out.len(), 3);
    match out[2] {
        CanonicalCommand::CurveTo { x1, y1, x2, y2, x, y } => {
            // Mirror of (5,5) about (10,10): (2*10-5, 2*10-5) = (15,15).
            assert_eq!((f(x1), f(y1)), (15.0, 15.0));
            assert_eq!((f(x2), f(y2)), (20.0, 20.0));
            assert_eq!((f(x), f(y)), (30.0, 30.0));
        }
        other => panic!("expected a curve, got {:?}", other),
    }
}

#[test]
fn smooth_curve_without_previous_curve_uses_current_point() {
    let out = simplify(&parse("M1,2 S5,5 10,10"));
    assert_eq!(out.len(), 2);
    match out[1] {
        CanonicalCommand::CurveTo { x1, y1, .. } => {
            assert_eq!((f(x1), f(y1)), (1.0, 2.0));
        }
        other => panic!("expected a curve, got {:?}", other),
    }
}

#[test]
fn consecutive_closes_collapse() {
    let out = simplify(&parse("M0,0 L10,0 Z Z Z"));
    assert_eq!(
        out,
        vec![move_to(0.0, 0.0), line_to(10.0, 0.0), CanonicalCommand::ClosePath]
    );
}

#[test]
fn close_then_draw_then_close_emits_both() {
    let out = simplify(&parse("M0,0 L10,0 Z L5,5 Z"));
    assert_eq!(
        out,
        vec![
            move_to(0.0, 0.0),
            line_to(10.0, 0.0),
            CanonicalCommand::ClosePath,
            line_to(5.0, 5.0),
            CanonicalCommand::ClosePath,
        ]
    );
}

fn quad_at(p: (f64, f64), q: (f64, f64), e: (f64, f64), t: f64) -> (f64, f64) {
    let u = 1.0 - t;
    (
        u * u * p.0 + 2.0 * u * t * q.0 + t * t * e.0,
        u * u * p.1 + 2.0 * u * t * q.1 + t * t * e.1,
    )
}

fn cubic_at(p: (f64, f64), c1: (f64, f64), c2: (f64, f64), e: (f64, f64), t: f64) -> (f64, f64) {
    let u = 1.0 - t;
    (
        u * u * u * p.0 + 3.0 * u * u * t * c1.0 + 3.0 * u * t * t * c2.0 + t * t * t * e.0,
        u * u * u * p.1 + 3.0 * u * u * t * c1.1 + 3.0 * u * t * t * c2.1 + t * t * t * e.1,
    )
}

#[test]
fn quadratic_elevation_round_trip() {
    let out = simplify(&parse("M0,0 Q3,6 6,0"));
    assert_eq!(out.len(), 2);
    match out[1] {
        CanonicalCommand::CurveTo { x1, y1, x2, y2, x, y } => {
            assert!((f(x1) - 2.0).abs() < 1e-9);
            assert!((f(y1) - 4.0).abs() < 1e-9);
            assert!((f(x2) - 4.0).abs() < 1e-9);
            assert!((f(y2) - 4.0).abs() < 1e-9);
            assert_eq!((f(x), f(y)), (6.0, 0.0));
            for t in [0.0, 0.25, 0.5, 0.75, 1.0] {
                let qv = quad_at((0.0, 0.0), (3.0, 6.0), (6.0, 0.0), t);
                let cv = cubic_at((0.0, 0.0), (f(x1), f(y1)), (f(x2), f(y2)), (f(x), f(y)), t);
                assert!((qv.0 - cv.0).abs() < 1e-9, "x at t={}", t);
                assert!((qv.1 - cv.1).abs() < 1e-9, "y at t={}", t);
            }
        }
        other => panic!("expected a curve, got {:?}", other),
    }
}

#[test]
fn smooth_quadratic_chain_reflects_controls() {
    let out = simplify(&parse("M0,0 Q3,6 6,0 T12,0 T18,0"));
    assert_eq!(out.len(), 4);
    // First shorthand: control is the mirror of (3,6) about (6,0) = (9,-6);
    // second: the mirror of the carried (9,-6) about (12,0) = (15,6).
    // Each emitted cubic control is the elevation blend of that quadratic
    // control with the segment's ends.
    match out[2] {
        CanonicalCommand::CurveTo { x1, y1, x2, y2, x, y } => {
            assert!((f(x1) - 8.0).abs() < 1e-9);
            assert!((f(y1) - (-4.0)).abs() < 1e-9);
            assert!((f(x2) - 10.0).abs() < 1e-9);
            assert!((f(y2) - (-4.0)).abs() < 1e-9);
            assert_eq!((f(x), f(y)), (12.0, 0.0));
        }
        other => panic!("expected a curve, got {:?}", other),
    }
    match out[3] {
        CanonicalCommand::CurveTo { x1, y1, x2, y2, x, y } => {
            assert!((f(x1) - 14.0).abs() < 1e-9);
            assert!((f(y1) - 4.0).abs() < 1e-9);
            assert!((f(x2) - 16.0).abs() < 1e-9);
            assert!((f(y2) - 4.0).abs() < 1e-9);
            assert_eq!((f(x), f(y)), (18.0, 0.0));
        }
        other => panic!("expected a curve, got {:?}", other),
    }
}

#[test]
fn degenerate_arc_becomes_line() {
    let out = simplify(&parse("M0,0 A0,5 0 0 1 10,10"));
    assert_eq!(out, vec![move_to(0.0, 0.0), line_to(10.0, 10.0)]);
}

#[test]
fn arc_with_coincident_endpoints_becomes_line() {
    let out = simplify(&parse("M5,5 A4,4 0 0 1 5,5"));
    assert_eq!(out, vec![move_to(5.0, 5.0), line_to(5.0, 5.0)]);
}

#[test]
fn end_to_end_line_arc_close() {
    let out = simplify(&parse("M0,0 L10,0 A5,5 0 0 1 20,10 Z"));
    assert!(out.len() >= 4);
    assert_eq!(out[0], move_to(0.0, 0.0));
    assert_eq!(out[1], line_to(10.0, 0.0));
    assert_eq!(out[out.len() - 1], CanonicalCommand::ClosePath);
    let curves = &out[2..out.len() - 1];
    assert!(!curves.is_empty());
    for c in curves {
        assert!(matches!(c, CanonicalCommand::CurveTo { .. }));
    }
    match curves[curves.len() - 1] {
        CanonicalCommand::CurveTo { x, y, .. } => {
            let shown: Vec<(f64, f64)> = curves
                .iter()
                .map(|c| match c {
                    CanonicalCommand::CurveTo { x, y, .. } => (f(*x), f(*y)),
                    _ => (0.0, 0.0),
                })
                .collect();
            // The tessellator resolves arc angles with an approximate
            // arctangent, so the sampled endpoint is only close to the
            // requested one.
            assert!((f(x) - 20.0).abs() < 1e-2, "curve endpoints: {:?}", shown);
            assert!((f(y) - 10.0).abs() < 1e-2, "curve endpoints: {:?}", shown);
        }
        _ => unreachable!(),
    }
}

#[test]
fn moves_are_preserved_one_for_one() {
    let out = simplify(&parse("M0,0 L1,1 Z M5,5 Q6,6 7,7 M8,8 H9"));
    let moves = out
        .iter()
        .filter(|c| matches!(c, CanonicalCommand::MoveTo { .. }))
        .count();
    assert_eq!(moves, 3);
}


#[test]
fn close_resets_current_point_for_shorthand() {
    // After the close the pen is back at (2,3), so the horizontal
    // shorthand draws at that subpath's starting height.
    let out = simplify(&parse("M2,3 L5,3 Z H10"));
    assert_eq!(
        out,
        vec![
            move_to(2.0, 3.0),
            line_to(5.0, 3.0),
            CanonicalCommand::ClosePath,
            line_to(10.0, 3.0),
        ]
    );
}

#[test]
fn smooth_quadratic_without_previous_quadratic_uses_current_point() {
    let out = simplify(&parse("M1,1 T7,1"));
    assert_eq!(out.len(), 2);
    match out[1] {
        CanonicalCommand::CurveTo { x1, y1, x2, y2, x, y } => {
            // The implicit control falls back to the current point (1,1),
            // so the elevated cubic controls are (1,1) and 2/3*1 + 1/3*7 = 3.
            assert!((f(x1) - 1.0).abs() < 1e-9);
            assert!((f(y1) - 1.0).abs() < 1e-9);
            assert!((f(x2) - 3.0).abs() < 1e-9);
            assert!((f(y2) - 1.0).abs() < 1e-9);
            assert_eq!((f(x), f(y)), (7.0, 1.0));
        }
        other => panic!("expected a curve, got {:?}", other),
    }
}

#[test]
fn relative_commands_mix_with_absolute() {
    let out = simplify(&parse("m 1,2 h 3 v 4 l 1,1 Z"));
    assert_eq!(
        out,
        vec![
            move_to(1.0, 2.0),
            line_to(4.0, 2.0),
            line_to(4.0, 6.0),
            line_to(5.0, 7.0),
            CanonicalCommand::ClosePath,
        ]
    );
}
