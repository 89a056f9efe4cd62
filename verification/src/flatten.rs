//! The segment flattening engine: a one-shot, single-pass transducer from an
//! absolute-coordinate path to the canonical four-command alphabet.
//!
//! The engine owns the traversal state: the current point, the start of the
//! current subpath, the implicit quadratic control carried between smooth
//! quadratic commands, and the previous input command. For each input
//! command, [`Flattener::request`] names the scalar arithmetic the command
//! needs — a control-point mirror, a quadratic-to-cubic elevation blend, or
//! an arc tessellation — and [`Flattener::step`] consumes the caller's
//! answer and emits the canonical commands, advancing the state. Commands
//! that need no arithmetic (moves, lines, axis shorthands, explicit cubics,
//! closes) are handled outright.
//!
//! A fresh engine is required per path: the traversal is not restartable.

use crate::path::{is_abs, CanonicalCommand, PathCommand};
use vstd::prelude::*;

verus! {

/// One cubic curve handed back by an arc tessellation, in traversal order;
/// `(x, y)` is its endpoint.
#[derive(Clone, Copy, PartialEq, Eq, Structural, Debug)]
pub struct Cubic {
    pub x1: u64,
    pub y1: u64,
    pub x2: u64,
    pub y2: u64,
    pub x: u64,
    pub y: u64,
}

/// Traversal state of one flattening pass.
///
/// `(px, py)` is the current point, `(pmx, pmy)` the start of the current
/// subpath, `(ptx, pty)` the resolved control point of the last quadratic
/// shorthand, and `prev` the previous input command.
pub struct Flattener {
    pub px: u64,
    pub py: u64,
    pub pmx: u64,
    pub pmy: u64,
    pub ptx: u64,
    pub pty: u64,
    pub prev: Option<PathCommand>,
}

/// The scalar work one command asks of the caller.
#[derive(Clone, Copy, PartialEq, Eq, Structural, Debug)]
pub enum NumRequest {
    /// No arithmetic is needed.
    Nothing,
    /// Mirror the control point `(cx, cy)` about the point `(ax, ay)`:
    /// the caller answers `(2*ax - cx, 2*ay - cy)` in its scalar encoding.
    Reflect { ax: u64, ay: u64, cx: u64, cy: u64 },
    /// Elevate the quadratic from `(px, py)` with control `(qx, qy)` and
    /// endpoint `(x, y)` to a cubic: the caller answers the two cubic
    /// controls, `2/3*q + 1/3*p` and `2/3*q + 1/3*end`, per axis.
    Elevate { px: u64, py: u64, qx: u64, qy: u64, x: u64, y: u64 },
    /// Mirror `(cx, cy)` about `(ax, ay)` as in `Reflect`, then elevate the
    /// quadratic from `(px, py)` with the mirrored point as its control.
    ReflectElevate { ax: u64, ay: u64, cx: u64, cy: u64, px: u64, py: u64, x: u64, y: u64 },
    /// Tessellate the elliptical arc from `(px, py)` to `(x, y)` into cubic
    /// curves, or report it degenerate (zero radius or coincident
    /// endpoints), in which case it becomes a straight line.
    Arc {
        px: u64,
        py: u64,
        rx: u64,
        ry: u64,
        x_axis_rotation: u64,
        large_arc: bool,
        sweep: bool,
        x: u64,
        y: u64,
    },
}

/// The caller's answer to a [`NumRequest`], variant for variant.
#[derive(Debug)]
pub enum NumAnswer {
    Nothing,
    Reflected { x1: u64, y1: u64 },
    Elevated { x1: u64, y1: u64, x2: u64, y2: u64 },
    ReflectElevated { rx: u64, ry: u64, x1: u64, y1: u64, x2: u64, y2: u64 },
    Arc { straight: bool, curves: Vec<Cubic> },
}

/// The arithmetic `cmd` needs in state `f`.
///
/// A smooth cubic reflects the previous second control point about the
/// previous endpoint, but only when the previous input command was itself a
/// cubic of either form; otherwise the current point stands in and nothing
/// is asked. A quadratic is always elevated. A quadratic shorthand first
/// resolves its implicit control: the mirror of the previous quadratic's
/// control when one directly precedes, the mirror of the carried control
/// after another shorthand, and the current point (no mirror) otherwise.
pub open spec fn request_spec(f: Flattener, cmd: PathCommand) -> NumRequest {
    match cmd {
        PathCommand::SmoothCurveTo { .. } => match f.prev {
            Some(PathCommand::CurveTo { x2, y2, x, y, .. }) => NumRequest::Reflect {
                ax: x,
                ay: y,
                cx: x2,
                cy: y2,
            },
            Some(PathCommand::SmoothCurveTo { x2, y2, x, y, .. }) => NumRequest::Reflect {
                ax: x,
                ay: y,
                cx: x2,
                cy: y2,
            },
            _ => NumRequest::Nothing,
        },
        PathCommand::Quadratic { x1, y1, x, y, .. } => NumRequest::Elevate {
            px: f.px,
            py: f.py,
            qx: x1,
            qy: y1,
            x: x,
            y: y,
        },
        PathCommand::SmoothQuadratic { x, y, .. } => match f.prev {
            Some(PathCommand::Quadratic { x1, y1, x: ex, y: ey, .. }) => {
                NumRequest::ReflectElevate {
                    ax: ex,
                    ay: ey,
                    cx: x1,
                    cy: y1,
                    px: f.px,
                    py: f.py,
                    x: x,
                    y: y,
                }
            },
            Some(PathCommand::SmoothQuadratic { x: ex, y: ey, .. }) => {
                NumRequest::ReflectElevate {
                    ax: ex,
                    ay: ey,
                    cx: f.ptx,
                    cy: f.pty,
                    px: f.px,
                    py: f.py,
                    x: x,
                    y: y,
                }
            },
            _ => NumRequest::Elevate { px: f.px, py: f.py, qx: f.px, qy: f.py, x: x, y: y },
        },
        PathCommand::EllipticalArc { rx, ry, x_axis_rotation, large_arc, sweep, x, y, .. } => {
            NumRequest::Arc {
                px: f.px,
                py: f.py,
                rx: rx,
                ry: ry,
                x_axis_rotation: x_axis_rotation,
                large_arc: large_arc,
                sweep: sweep,
                x: x,
                y: y,
            }
        },
        _ => NumRequest::Nothing,
    }
}

/// Whether an answer is of the variant the request asks for.
pub open spec fn answer_fits(req: NumRequest, ans: NumAnswer) -> bool {
    match (req, ans) {
        (NumRequest::Nothing, NumAnswer::Nothing) => true,
        (NumRequest::Reflect { .. }, NumAnswer::Reflected { .. }) => true,
        (NumRequest::Elevate { .. }, NumAnswer::Elevated { .. }) => true,
        (NumRequest::ReflectElevate { .. }, NumAnswer::ReflectElevated { .. }) => true,
        (NumRequest::Arc { .. }, NumAnswer::Arc { .. }) => true,
        _ => false,
    }
}

/// The canonical curve a tessellated cubic becomes.
pub open spec fn cubic_curve(c: Cubic) -> CanonicalCommand {
    CanonicalCommand::CurveTo { x1: c.x1, y1: c.y1, x2: c.x2, y2: c.y2, x: c.x, y: c.y }
}

/// The canonical commands one step emits: zero or more, in order.
///
/// Moves, lines and explicit cubics pass through; axis shorthands become
/// full lines against the current point; smooth cubics install the mirrored
/// (or fallback) first control; quadratics of both forms become the elevated
/// cubic; an arc becomes its tessellation, or a single straight line when
/// degenerate; a close is emitted unless the previous input command was
/// already a close.
pub open spec fn step_out_spec(f: Flattener, cmd: PathCommand, ans: NumAnswer) -> Seq<
    CanonicalCommand,
> {
    match cmd {
        PathCommand::MoveTo { x, y, .. } => seq![CanonicalCommand::MoveTo { x: x, y: y }],
        PathCommand::LineTo { x, y, .. } => seq![CanonicalCommand::LineTo { x: x, y: y }],
        PathCommand::HorizontalLineTo { x, .. } => seq![
            CanonicalCommand::LineTo { x: x, y: f.py },
        ],
        PathCommand::VerticalLineTo { y, .. } => seq![CanonicalCommand::LineTo { x: f.px, y: y }],
        PathCommand::CurveTo { x1, y1, x2, y2, x, y, .. } => seq![
            CanonicalCommand::CurveTo { x1: x1, y1: y1, x2: x2, y2: y2, x: x, y: y },
        ],
        PathCommand::SmoothCurveTo { x2, y2, x, y, .. } => match ans {
            NumAnswer::Reflected { x1, y1 } => seq![
                CanonicalCommand::CurveTo { x1: x1, y1: y1, x2: x2, y2: y2, x: x, y: y },
            ],
            _ => seq![
                CanonicalCommand::CurveTo { x1: f.px, y1: f.py, x2: x2, y2: y2, x: x, y: y },
            ],
        },
        PathCommand::Quadratic { x, y, .. } => match ans {
            NumAnswer::Elevated { x1, y1, x2, y2 } => seq![
                CanonicalCommand::CurveTo { x1: x1, y1: y1, x2: x2, y2: y2, x: x, y: y },
            ],
            _ => Seq::empty(),
        },
        PathCommand::SmoothQuadratic { x, y, .. } => match ans {
            NumAnswer::Elevated { x1, y1, x2, y2 } => seq![
                CanonicalCommand::CurveTo { x1: x1, y1: y1, x2: x2, y2: y2, x: x, y: y },
            ],
            NumAnswer::ReflectElevated { x1, y1, x2, y2, .. } => seq![
                CanonicalCommand::CurveTo { x1: x1, y1: y1, x2: x2, y2: y2, x: x, y: y },
            ],
            _ => Seq::empty(),
        },
        PathCommand::EllipticalArc { x, y, .. } => match ans {
            NumAnswer::Arc { straight, curves } => if straight {
                seq![CanonicalCommand::LineTo { x: x, y: y }]
            } else {
                curves@.map_values(|c: Cubic| cubic_curve(c))
            },
            _ => Seq::empty(),
        },
        PathCommand::ClosePath { .. } => match f.prev {
            Some(PathCommand::ClosePath { .. }) => Seq::empty(),
            _ => seq![CanonicalCommand::ClosePath],
        },
    }
}

/// The traversal state after one step.
///
/// The current point moves to the endpoint of the last command emitted — for
/// a close, to the subpath start — and stays put when an arc tessellation
/// hands back no curves. A move also resets the subpath start; a quadratic
/// shorthand records its resolved control for the next shorthand; `prev`
/// always becomes the input command itself, emitted or not.
pub open spec fn step_next_spec(f: Flattener, cmd: PathCommand, ans: NumAnswer) -> Flattener {
    match cmd {
        PathCommand::MoveTo { x, y, .. } => Flattener {
            px: x,
            py: y,
            pmx: x,
            pmy: y,
            ptx: f.ptx,
            pty: f.pty,
            prev: Some(cmd),
        },
        PathCommand::LineTo { x, y, .. } => Flattener { px: x, py: y, prev: Some(cmd), ..f },
        PathCommand::HorizontalLineTo { x, .. } => Flattener { px: x, prev: Some(cmd), ..f },
        PathCommand::VerticalLineTo { y, .. } => Flattener { py: y, prev: Some(cmd), ..f },
        PathCommand::CurveTo { x, y, .. } => Flattener { px: x, py: y, prev: Some(cmd), ..f },
        PathCommand::SmoothCurveTo { x, y, .. } => Flattener {
            px: x,
            py: y,
            prev: Some(cmd),
            ..f
        },
        PathCommand::Quadratic { x, y, .. } => Flattener { px: x, py: y, prev: Some(cmd), ..f },
        PathCommand::SmoothQuadratic { x, y, .. } => {
            let (tx, ty) = match ans {
                NumAnswer::ReflectElevated { rx, ry, .. } => (rx, ry),
                _ => (f.px, f.py),
            };
            Flattener { px: x, py: y, ptx: tx, pty: ty, prev: Some(cmd), ..f }
        },
        PathCommand::EllipticalArc { x, y, .. } => match ans {
            NumAnswer::Arc { straight, curves } => if straight {
                Flattener { px: x, py: y, prev: Some(cmd), ..f }
            } else if curves@.len() > 0 {
                Flattener {
                    px: curves@.last().x,
                    py: curves@.last().y,
                    prev: Some(cmd),
                    ..f
                }
            } else {
                Flattener { prev: Some(cmd), ..f }
            },
            _ => Flattener { prev: Some(cmd), ..f },
        },
        PathCommand::ClosePath { .. } => Flattener {
            px: f.pmx,
            py: f.pmy,
            prev: Some(cmd),
            ..f
        },
    }
}

/// States the engine can actually be in: after a close, the current point
/// has returned to the subpath start.
pub open spec fn wf(f: Flattener) -> bool {
    match f.prev {
        Some(PathCommand::ClosePath { .. }) => f.px == f.pmx && f.py == f.pmy,
        _ => true,
    }
}

impl Flattener {
    /// A fresh pass over one path, positioned at the zero scalar with no
    /// previous command.
    pub fn new() -> (r: Self)
        ensures
            r.px == 0 && r.py == 0 && r.pmx == 0 && r.pmy == 0 && r.ptx == 0 && r.pty == 0,
            r.prev is None,
            wf(r),
    {
        Flattener { px: 0, py: 0, pmx: 0, pmy: 0, ptx: 0, pty: 0, prev: None }
    }

    /// The arithmetic the next command needs.
    pub fn request(&self, cmd: &PathCommand) -> (r: NumRequest)
        ensures
            r == request_spec(*self, *cmd),
    {
        match *cmd {
            PathCommand::SmoothCurveTo { .. } => match self.prev {
                Some(PathCommand::CurveTo { x2, y2, x, y, .. }) => NumRequest::Reflect {
                    ax: x,
                    ay: y,
                    cx: x2,
                    cy: y2,
                },
                Some(PathCommand::SmoothCurveTo { x2, y2, x, y, .. }) => NumRequest::Reflect {
                    ax: x,
                    ay: y,
                    cx: x2,
                    cy: y2,
                },
                _ => NumRequest::Nothing,
            },
            PathCommand::Quadratic { x1, y1, x, y, .. } => NumRequest::Elevate {
                px: self.px,
                py: self.py,
                qx: x1,
                qy: y1,
                x,
                y,
            },
            PathCommand::SmoothQuadratic { x, y, .. } => match self.prev {
                Some(PathCommand::Quadratic { x1, y1, x: ex, y: ey, .. }) => {
                    NumRequest::ReflectElevate {
                        ax: ex,
                        ay: ey,
                        cx: x1,
                        cy: y1,
                        px: self.px,
                        py: self.py,
                        x,
                        y,
                    }
                },
                Some(PathCommand::SmoothQuadratic { x: ex, y: ey, .. }) => {
                    NumRequest::ReflectElevate {
                        ax: ex,
                        ay: ey,
                        cx: self.ptx,
                        cy: self.pty,
                        px: self.px,
                        py: self.py,
                        x,
                        y,
                    }
                },
                _ => NumRequest::Elevate {
                    px: self.px,
                    py: self.py,
                    qx: self.px,
                    qy: self.py,
                    x,
                    y,
                },
            },
            PathCommand::EllipticalArc {
                rx,
                ry,
                x_axis_rotation,
                large_arc,
                sweep,
                x,
                y,
                ..
            } => NumRequest::Arc {
                px: self.px,
                py: self.py,
                rx,
                ry,
                x_axis_rotation,
                large_arc,
                sweep,
                x,
                y,
            },
            _ => NumRequest::Nothing,
        }
    }

    /// Process one absolute command with the caller's answer to its request,
    /// and return the canonical commands it emits, in order.
    pub fn step(&mut self, cmd: &PathCommand, ans: NumAnswer) -> (out: Vec<CanonicalCommand>)
        requires
            is_abs(*cmd),
            answer_fits(request_spec(*old(self), *cmd), ans),
        ensures
            out@ == step_out_spec(*old(self), *cmd, ans),
            *final(self) == step_next_spec(*old(self), *cmd, ans),
            wf(*final(self)),
    {
        let mut out: Vec<CanonicalCommand> = Vec::new();
        match *cmd {
            PathCommand::MoveTo { x, y, .. } => {
                out.push(CanonicalCommand::MoveTo { x, y });
                self.px = x;
                self.py = y;
                self.pmx = x;
                self.pmy = y;
            },
            PathCommand::LineTo { x, y, .. } => {
                out.push(CanonicalCommand::LineTo { x, y });
                self.px = x;
                self.py = y;
            },
            PathCommand::HorizontalLineTo { x, .. } => {
                out.push(CanonicalCommand::LineTo { x, y: self.py });
                self.px = x;
            },
            PathCommand::VerticalLineTo { y, .. } => {
                out.push(CanonicalCommand::LineTo { x: self.px, y });
                self.py = y;
            },
            PathCommand::CurveTo { x1, y1, x2, y2, x, y, .. } => {
                out.push(CanonicalCommand::CurveTo { x1, y1, x2, y2, x, y });
                self.px = x;
                self.py = y;
            },
            PathCommand::SmoothCurveTo { x2, y2, x, y, .. } => {
                let (x1, y1) = match ans {
                    NumAnswer::Reflected { x1, y1 } => (x1, y1),
                    _ => (self.px, self.py),
                };
                out.push(CanonicalCommand::CurveTo { x1, y1, x2, y2, x, y });
                self.px = x;
                self.py = y;
            },
            PathCommand::Quadratic { x, y, .. } => {
                match ans {
                    NumAnswer::Elevated { x1, y1, x2, y2 } => {
                        out.push(CanonicalCommand::CurveTo { x1, y1, x2, y2, x, y });
                    },
                    _ => {},
                }
                self.px = x;
                self.py = y;
            },
            PathCommand::SmoothQuadratic { x, y, .. } => {
                match ans {
                    NumAnswer::Elevated { x1, y1, x2, y2 } => {
                        out.push(CanonicalCommand::CurveTo { x1, y1, x2, y2, x, y });
                        self.ptx = self.px;
                        self.pty = self.py;
                    },
                    NumAnswer::ReflectElevated { rx, ry, x1, y1, x2, y2 } => {
                        out.push(CanonicalCommand::CurveTo { x1, y1, x2, y2, x, y });
                        self.ptx = rx;
                        self.pty = ry;
                    },
                    _ => {
                        self.ptx = self.px;
                        self.pty = self.py;
                    },
                }
                self.px = x;
                self.py = y;
            },
            PathCommand::EllipticalArc { x, y, .. } => match ans {
                NumAnswer::Arc { straight, curves } => {
                    if straight {
                        out.push(CanonicalCommand::LineTo { x, y });
                        self.px = x;
                        self.py = y;
                    } else {
                        let n = curves.len();
                        let mut i: usize = 0;
                        while i < n
                            invariant
                                i <= n,
                                n == curves@.len(),
                                out@ == curves@.take(i as int).map_values(
                                    |c: Cubic| cubic_curve(c),
                                ),
                            decreases n - i,
                        {
                            let c = curves[i];
                            out.push(
                                CanonicalCommand::CurveTo {
                                    x1: c.x1,
                                    y1: c.y1,
                                    x2: c.x2,
                                    y2: c.y2,
                                    x: c.x,
                                    y: c.y,
                                },
                            );
                            proof {
                                assert(curves@.take(i as int + 1).drop_last() =~= curves@.take(
                                    i as int,
                                ));
                                assert(out@ =~= curves@.take(i as int + 1).map_values(
                                    |c: Cubic| cubic_curve(c),
                                ));
                            }
                            i = i + 1;
                        }
                        proof {
                            assert(curves@.take(n as int) =~= curves@);
                        }
                        if n > 0 {
                            let last = curves[n - 1];
                            self.px = last.x;
                            self.py = last.y;
                        }
                    }
                },
                _ => {},
            },
            PathCommand::ClosePath { .. } => {
                match self.prev {
                    Some(PathCommand::ClosePath { .. }) => {},
                    _ => {
                        out.push(CanonicalCommand::ClosePath);
                    },
                }
                self.px = self.pmx;
                self.py = self.pmy;
            },
        }
        self.prev = Some(*cmd);
        out
    }
}

} // verus!
