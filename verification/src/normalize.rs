//! The coordinate normalizer: rewrites every command to absolute form.
//!
//! The normalizer owns the running cursor and the subpath start, and decides
//! which fields of a command are coordinates and which cursor axis each one
//! is offset against. The scalar sums themselves are the caller's: for each
//! command, [`Normalizer::request`] lists the pending additions, the caller
//! produces each sum in its scalar encoding (for path data, floating-point
//! `a + b`), and [`Normalizer::apply`] installs the sums and advances the
//! cursor. An absolute command requests no additions and passes through
//! unchanged, so re-running the normalizer on its own output is a no-op.

use crate::path::{is_abs, PathCommand};
use vstd::prelude::*;

verus! {

/// A pending scalar addition: the caller is to hand back the sum of `a`
/// (a relative coordinate) and `b` (the cursor component it is offset from).
#[derive(Clone, Copy, PartialEq, Eq, Structural, Debug)]
pub struct AddPair {
    pub a: u64,
    pub b: u64,
}

/// Cursor state of one normalization pass: the current point `(cx, cy)` and
/// the start `(sx, sy)` of the current subpath, which a close returns to.
pub struct Normalizer {
    pub cx: u64,
    pub cy: u64,
    pub sx: u64,
    pub sy: u64,
}

/// The additions a command needs: one per coordinate field, in field order,
/// each against the cursor axis the field is offset from. Absolute commands
/// need none; radii, rotation and flags of an arc are never offsets.
pub open spec fn pairs_spec(n: Normalizer, cmd: PathCommand) -> Seq<AddPair> {
    if is_abs(cmd) {
        Seq::empty()
    } else {
        match cmd {
            PathCommand::MoveTo { x, y, .. } => seq![
                AddPair { a: x, b: n.cx },
                AddPair { a: y, b: n.cy },
            ],
            PathCommand::LineTo { x, y, .. } => seq![
                AddPair { a: x, b: n.cx },
                AddPair { a: y, b: n.cy },
            ],
            PathCommand::HorizontalLineTo { x, .. } => seq![AddPair { a: x, b: n.cx }],
            PathCommand::VerticalLineTo { y, .. } => seq![AddPair { a: y, b: n.cy }],
            PathCommand::CurveTo { x1, y1, x2, y2, x, y, .. } => seq![
                AddPair { a: x1, b: n.cx },
                AddPair { a: y1, b: n.cy },
                AddPair { a: x2, b: n.cx },
                AddPair { a: y2, b: n.cy },
                AddPair { a: x, b: n.cx },
                AddPair { a: y, b: n.cy },
            ],
            PathCommand::SmoothCurveTo { x2, y2, x, y, .. } => seq![
                AddPair { a: x2, b: n.cx },
                AddPair { a: y2, b: n.cy },
                AddPair { a: x, b: n.cx },
                AddPair { a: y, b: n.cy },
            ],
            PathCommand::Quadratic { x1, y1, x, y, .. } => seq![
                AddPair { a: x1, b: n.cx },
                AddPair { a: y1, b: n.cy },
                AddPair { a: x, b: n.cx },
                AddPair { a: y, b: n.cy },
            ],
            PathCommand::SmoothQuadratic { x, y, .. } => seq![
                AddPair { a: x, b: n.cx },
                AddPair { a: y, b: n.cy },
            ],
            PathCommand::EllipticalArc { x, y, .. } => seq![
                AddPair { a: x, b: n.cx },
                AddPair { a: y, b: n.cy },
            ],
            PathCommand::ClosePath { .. } => Seq::empty(),
        }
    }
}

/// The absolute command that results from installing the requested sums,
/// positionally, into the coordinate fields. An absolute command is returned
/// unchanged.
pub open spec fn apply_spec(cmd: PathCommand, s: Seq<u64>) -> PathCommand {
    if is_abs(cmd) {
        cmd
    } else {
        match cmd {
            PathCommand::MoveTo { .. } => PathCommand::MoveTo { abs: true, x: s[0], y: s[1] },
            PathCommand::LineTo { .. } => PathCommand::LineTo { abs: true, x: s[0], y: s[1] },
            PathCommand::HorizontalLineTo { .. } => PathCommand::HorizontalLineTo {
                abs: true,
                x: s[0],
            },
            PathCommand::VerticalLineTo { .. } => PathCommand::VerticalLineTo {
                abs: true,
                y: s[0],
            },
            PathCommand::CurveTo { .. } => PathCommand::CurveTo {
                abs: true,
                x1: s[0],
                y1: s[1],
                x2: s[2],
                y2: s[3],
                x: s[4],
                y: s[5],
            },
            PathCommand::SmoothCurveTo { .. } => PathCommand::SmoothCurveTo {
                abs: true,
                x2: s[0],
                y2: s[1],
                x: s[2],
                y: s[3],
            },
            PathCommand::Quadratic { .. } => PathCommand::Quadratic {
                abs: true,
                x1: s[0],
                y1: s[1],
                x: s[2],
                y: s[3],
            },
            PathCommand::SmoothQuadratic { .. } => PathCommand::SmoothQuadratic {
                abs: true,
                x: s[0],
                y: s[1],
            },
            PathCommand::EllipticalArc { rx, ry, x_axis_rotation, large_arc, sweep, .. } => {
                PathCommand::EllipticalArc {
                    abs: true,
                    rx,
                    ry,
                    x_axis_rotation,
                    large_arc,
                    sweep,
                    x: s[0],
                    y: s[1],
                }
            },
            PathCommand::ClosePath { .. } => PathCommand::ClosePath { abs: true },
        }
    }
}

/// The cursor after an absolute command `out`: a move sets both the cursor
/// and the subpath start, drawing commands set the cursor to their endpoint,
/// the axis shorthands touch one axis, and a close returns the cursor to the
/// subpath start.
pub open spec fn next_spec(n: Normalizer, out: PathCommand) -> Normalizer {
    match out {
        PathCommand::MoveTo { x, y, .. } => Normalizer { cx: x, cy: y, sx: x, sy: y },
        PathCommand::LineTo { x, y, .. } => Normalizer { cx: x, cy: y, sx: n.sx, sy: n.sy },
        PathCommand::HorizontalLineTo { x, .. } => Normalizer {
            cx: x,
            cy: n.cy,
            sx: n.sx,
            sy: n.sy,
        },
        PathCommand::VerticalLineTo { y, .. } => Normalizer {
            cx: n.cx,
            cy: y,
            sx: n.sx,
            sy: n.sy,
        },
        PathCommand::CurveTo { x, y, .. } => Normalizer { cx: x, cy: y, sx: n.sx, sy: n.sy },
        PathCommand::SmoothCurveTo { x, y, .. } => Normalizer {
            cx: x,
            cy: y,
            sx: n.sx,
            sy: n.sy,
        },
        PathCommand::Quadratic { x, y, .. } => Normalizer { cx: x, cy: y, sx: n.sx, sy: n.sy },
        PathCommand::SmoothQuadratic { x, y, .. } => Normalizer {
            cx: x,
            cy: y,
            sx: n.sx,
            sy: n.sy,
        },
        PathCommand::EllipticalArc { x, y, .. } => Normalizer {
            cx: x,
            cy: y,
            sx: n.sx,
            sy: n.sy,
        },
        PathCommand::ClosePath { .. } => Normalizer { cx: n.sx, cy: n.sy, sx: n.sx, sy: n.sy },
    }
}

impl Normalizer {
    /// A fresh pass: cursor and subpath start at the zero scalar.
    pub fn new() -> (r: Self)
        ensures
            r == (Normalizer { cx: 0, cy: 0, sx: 0, sy: 0 }),
    {
        Normalizer { cx: 0, cy: 0, sx: 0, sy: 0 }
    }

    /// The additions `cmd` needs before it can be made absolute.
    pub fn request(&self, cmd: &PathCommand) -> (r: Vec<AddPair>)
        ensures
            r@ == pairs_spec(*self, *cmd),
    {
        let mut r: Vec<AddPair> = Vec::new();
        if !crate::path::is_absolute(cmd) {
            match *cmd {
                PathCommand::MoveTo { x, y, .. } => {
                    r.push(AddPair { a: x, b: self.cx });
                    r.push(AddPair { a: y, b: self.cy });
                },
                PathCommand::LineTo { x, y, .. } => {
                    r.push(AddPair { a: x, b: self.cx });
                    r.push(AddPair { a: y, b: self.cy });
                },
                PathCommand::HorizontalLineTo { x, .. } => {
                    r.push(AddPair { a: x, b: self.cx });
                },
                PathCommand::VerticalLineTo { y, .. } => {
                    r.push(AddPair { a: y, b: self.cy });
                },
                PathCommand::CurveTo { x1, y1, x2, y2, x, y, .. } => {
                    r.push(AddPair { a: x1, b: self.cx });
                    r.push(AddPair { a: y1, b: self.cy });
                    r.push(AddPair { a: x2, b: self.cx });
                    r.push(AddPair { a: y2, b: self.cy });
                    r.push(AddPair { a: x, b: self.cx });
                    r.push(AddPair { a: y, b: self.cy });
                },
                PathCommand::SmoothCurveTo { x2, y2, x, y, .. } => {
                    r.push(AddPair { a: x2, b: self.cx });
                    r.push(AddPair { a: y2, b: self.cy });
                    r.push(AddPair { a: x, b: self.cx });
                    r.push(AddPair { a: y, b: self.cy });
                },
                PathCommand::Quadratic { x1, y1, x, y, .. } => {
                    r.push(AddPair { a: x1, b: self.cx });
                    r.push(AddPair { a: y1, b: self.cy });
                    r.push(AddPair { a: x, b: self.cx });
                    r.push(AddPair { a: y, b: self.cy });
                },
                PathCommand::SmoothQuadratic { x, y, .. } => {
                    r.push(AddPair { a: x, b: self.cx });
                    r.push(AddPair { a: y, b: self.cy });
                },
                PathCommand::EllipticalArc { x, y, .. } => {
                    r.push(AddPair { a: x, b: self.cx });
                    r.push(AddPair { a: y, b: self.cy });
                },
                PathCommand::ClosePath { .. } => {},
            }
        }
        proof {
            assert(r@ =~= pairs_spec(*self, *cmd));
        }
        r
    }

    /// Install the sums for `cmd` and advance the cursor. `sums` must answer
    /// the additions of [`Normalizer::request`], in order. The result is the
    /// absolute form of `cmd`; an already-absolute command is unchanged.
    pub fn apply(&mut self, cmd: &PathCommand, sums: &Vec<u64>) -> (r: PathCommand)
        requires
            sums@.len() == pairs_spec(*old(self), *cmd).len(),
        ensures
            r == apply_spec(*cmd, sums@),
            *final(self) == next_spec(*old(self), r),
            is_abs(r),
    {
        let r: PathCommand = if crate::path::is_absolute(cmd) {
            *cmd
        } else {
            match *cmd {
                PathCommand::MoveTo { .. } => PathCommand::MoveTo {
                    abs: true,
                    x: sums[0],
                    y: sums[1],
                },
                PathCommand::LineTo { .. } => PathCommand::LineTo {
                    abs: true,
                    x: sums[0],
                    y: sums[1],
                },
                PathCommand::HorizontalLineTo { .. } => PathCommand::HorizontalLineTo {
                    abs: true,
                    x: sums[0],
                },
                PathCommand::VerticalLineTo { .. } => PathCommand::VerticalLineTo {
                    abs: true,
                    y: sums[0],
                },
                PathCommand::CurveTo { .. } => PathCommand::CurveTo {
                    abs: true,
                    x1: sums[0],
                    y1: sums[1],
                    x2: sums[2],
                    y2: sums[3],
                    x: sums[4],
                    y: sums[5],
                },
                PathCommand::SmoothCurveTo { .. } => PathCommand::SmoothCurveTo {
                    abs: true,
                    x2: sums[0],
                    y2: sums[1],
                    x: sums[2],
                    y: sums[3],
                },
                PathCommand::Quadratic { .. } => PathCommand::Quadratic {
                    abs: true,
                    x1: sums[0],
                    y1: sums[1],
                    x: sums[2],
                    y: sums[3],
                },
                PathCommand::SmoothQuadratic { .. } => PathCommand::SmoothQuadratic {
                    abs: true,
                    x: sums[0],
                    y: sums[1],
                },
                PathCommand::EllipticalArc {
                    rx,
                    ry,
                    x_axis_rotation,
                    large_arc,
                    sweep,
                    ..
                } => PathCommand::EllipticalArc {
                    abs: true,
                    rx,
                    ry,
                    x_axis_rotation,
                    large_arc,
                    sweep,
                    x: sums[0],
                    y: sums[1],
                },
                PathCommand::ClosePath { .. } => PathCommand::ClosePath { abs: true },
            }
        };
        match r {
            PathCommand::MoveTo { x, y, .. } => {
                self.cx = x;
                self.cy = y;
                self.sx = x;
                self.sy = y;
            },
            PathCommand::LineTo { x, y, .. } => {
                self.cx = x;
                self.cy = y;
            },
            PathCommand::HorizontalLineTo { x, .. } => {
                self.cx = x;
            },
            PathCommand::VerticalLineTo { y, .. } => {
                self.cy = y;
            },
            PathCommand::CurveTo { x, y, .. } => {
                self.cx = x;
                self.cy = y;
            },
            PathCommand::SmoothCurveTo { x, y, .. } => {
                self.cx = x;
                self.cy = y;
            },
            PathCommand::Quadratic { x, y, .. } => {
                self.cx = x;
                self.cy = y;
            },
            PathCommand::SmoothQuadratic { x, y, .. } => {
                self.cx = x;
                self.cy = y;
            },
            PathCommand::EllipticalArc { x, y, .. } => {
                self.cx = x;
                self.cy = y;
            },
            PathCommand::ClosePath { .. } => {
                self.cx = self.sx;
                self.cy = self.sy;
            },
        }
        r
    }
}

/// Normalizing is idempotent on structure: an absolute command requests no
/// additions and comes back unchanged, whatever sums are offered, so a
/// second pass over the normalizer's own output changes nothing.
pub proof fn lemma_absolute_is_fixed(n: Normalizer, cmd: PathCommand, s: Seq<u64>)
    requires
        is_abs(cmd),
    ensures
        pairs_spec(n, cmd) == Seq::<AddPair>::empty(),
        apply_spec(cmd, s) == cmd,
{
}

/// The output of a whole normalization pass: each command made absolute in
/// turn, the cursor advanced over each result. `sums[i]` answers the
/// additions requested for `cmds[i]`.
pub open spec fn norm_run(n: Normalizer, cmds: Seq<PathCommand>, sums: Seq<Seq<u64>>) -> Seq<
    PathCommand,
>
    decreases cmds.len(),
{
    if cmds.len() == 0 {
        Seq::empty()
    } else {
        let r = apply_spec(cmds[0], sums[0]);
        seq![r] + norm_run(next_spec(n, r), cmds.skip(1), sums.skip(1))
    }
}

/// Idempotence over a whole path: a pass over commands that are already all
/// absolute returns them unchanged, whatever sums are offered — so running
/// the normalizer again on its own output is a no-op.
pub proof fn lemma_normalize_idempotent(n: Normalizer, cmds: Seq<PathCommand>, sums: Seq<Seq<u64>>)
    requires
        forall|i: int| 0 <= i < cmds.len() ==> is_abs(#[trigger] cmds[i]),
    ensures
        norm_run(n, cmds, sums) == cmds,
    decreases cmds.len(),
{
    if cmds.len() > 0 {
        let r = apply_spec(cmds[0], sums[0]);
        lemma_absolute_is_fixed(n, cmds[0], sums[0]);
        assert forall|i: int| 0 <= i < cmds.skip(1).len() implies is_abs(
            #[trigger] cmds.skip(1)[i],
        ) by {
            assert(cmds.skip(1)[i] == cmds[i + 1]);
        }
        lemma_normalize_idempotent(next_spec(n, r), cmds.skip(1), sums.skip(1));
        assert(seq![cmds[0]] + cmds.skip(1) =~= cmds);
    }
}

} // verus!
