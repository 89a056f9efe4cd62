//! Laws of the flattening engine, stated over whole traversals.

use crate::flatten::{
    answer_fits, cubic_curve, request_spec, step_next_spec, step_out_spec, wf, Cubic, Flattener,
    NumAnswer, NumRequest,
};
use crate::path::{CanonicalCommand, PathCommand};
use vstd::prelude::*;

verus! {

/// The output of a whole traversal: the concatenation, in order, of what
/// each command emits, each step from the state the previous steps built.
/// `anss[i]` is the caller's answer for `cmds[i]`.
pub open spec fn run_out(f: Flattener, cmds: Seq<PathCommand>, anss: Seq<NumAnswer>) -> Seq<
    CanonicalCommand,
>
    decreases cmds.len(),
{
    if cmds.len() == 0 {
        Seq::empty()
    } else {
        step_out_spec(f, cmds[0], anss[0]) + run_out(
            step_next_spec(f, cmds[0], anss[0]),
            cmds.skip(1),
            anss.skip(1),
        )
    }
}

/// How many moves an input sequence holds.
pub open spec fn move_count_in(cmds: Seq<PathCommand>) -> nat
    decreases cmds.len(),
{
    if cmds.len() == 0 {
        0
    } else {
        (if cmds[0] matches PathCommand::MoveTo { .. } {
            1nat
        } else {
            0nat
        }) + move_count_in(cmds.skip(1))
    }
}

/// How many moves an output sequence holds.
pub open spec fn move_count_out(outs: Seq<CanonicalCommand>) -> nat
    decreases outs.len(),
{
    if outs.len() == 0 {
        0
    } else {
        (if outs[0] matches CanonicalCommand::MoveTo { .. } {
            1nat
        } else {
            0nat
        }) + move_count_out(outs.skip(1))
    }
}

proof fn lemma_move_count_out_add(a: Seq<CanonicalCommand>, b: Seq<CanonicalCommand>)
    ensures
        move_count_out(a + b) == move_count_out(a) + move_count_out(b),
    decreases a.len(),
{
    if a.len() == 0 {
        assert(a + b =~= b);
    } else {
        assert((a + b).skip(1) =~= a.skip(1) + b);
        lemma_move_count_out_add(a.skip(1), b);
    }
}

proof fn lemma_no_moves(s: Seq<CanonicalCommand>)
    requires
        forall|i: int| 0 <= i < s.len() ==> !((#[trigger] s[i]) matches CanonicalCommand::MoveTo { .. }),
    ensures
        move_count_out(s) == 0,
    decreases s.len(),
{
    if s.len() > 0 {
        assert forall|i: int| 0 <= i < s.skip(1).len() implies !((#[trigger] s.skip(1)[i])
            matches CanonicalCommand::MoveTo { .. }) by {
            assert(s.skip(1)[i] == s[i + 1]);
        }
        lemma_no_moves(s.skip(1));
    }
}

proof fn lemma_step_move_count(f: Flattener, cmd: PathCommand, ans: NumAnswer)
    ensures
        move_count_out(step_out_spec(f, cmd, ans)) == (if cmd matches PathCommand::MoveTo {
            ..
        } {
            1nat
        } else {
            0nat
        }),
{
    let out = step_out_spec(f, cmd, ans);
    match cmd {
        PathCommand::EllipticalArc { .. } => {
            match ans {
                NumAnswer::Arc { straight, curves } => {
                    if !straight {
                        let s = curves@.map_values(|c: Cubic| cubic_curve(c));
                        assert forall|i: int| 0 <= i < s.len() implies !((#[trigger] s[i])
                            matches CanonicalCommand::MoveTo { .. }) by {
                            assert(s[i] == cubic_curve(curves@[i]));
                        }
                        lemma_no_moves(s);
                    }
                },
                _ => {},
            }
        },
        _ => {},
    }
    if out.len() > 0 {
        assert(move_count_out(out.skip(1)) == 0) by {
            if out.len() == 1 {
                assert(out.skip(1) =~= Seq::<CanonicalCommand>::empty());
            } else {
                lemma_no_moves(out.skip(1));
            }
        }
    }
}

/// Moves are preserved one for one, whatever the arithmetic answers: the
/// output holds exactly as many move commands as the input, so a path that
/// begins drawing never loses its opening move. (That the output holds only
/// the four canonical variants is already forced by its type.)
pub proof fn lemma_moves_preserved(f: Flattener, cmds: Seq<PathCommand>, anss: Seq<NumAnswer>)
    ensures
        move_count_out(run_out(f, cmds, anss)) == move_count_in(cmds),
    decreases cmds.len(),
{
    if cmds.len() > 0 {
        let next = step_next_spec(f, cmds[0], anss[0]);
        lemma_step_move_count(f, cmds[0], anss[0]);
        lemma_move_count_out_add(
            step_out_spec(f, cmds[0], anss[0]),
            run_out(next, cmds.skip(1), anss.skip(1)),
        );
        lemma_moves_preserved(next, cmds.skip(1), anss.skip(1));
    }
}

/// Reflection correctness, structural half: a smooth cubic directly after an
/// explicit cubic asks for the mirror of that cubic's second control point
/// `(pcx, pcy)` about its endpoint `(pex, pey)` — the caller answers
/// `(2*pex - pcx, 2*pey - pcy)` in its scalar arithmetic — and the answer is
/// installed verbatim as the first control point of the emitted curve.
pub proof fn lemma_smooth_cubic_reflection(
    f: Flattener,
    px1: u64,
    py1: u64,
    pcx: u64,
    pcy: u64,
    pex: u64,
    pey: u64,
    pabs: bool,
    cabs: bool,
    x2: u64,
    y2: u64,
    x: u64,
    y: u64,
    mx: u64,
    my: u64,
)
    requires
        f.prev == Some(
            PathCommand::CurveTo { abs: pabs, x1: px1, y1: py1, x2: pcx, y2: pcy, x: pex, y: pey },
        ),
    ensures
        request_spec(f, PathCommand::SmoothCurveTo { abs: cabs, x2: x2, y2: y2, x: x, y: y })
            == (NumRequest::Reflect { ax: pex, ay: pey, cx: pcx, cy: pcy }),
        step_out_spec(
            f,
            PathCommand::SmoothCurveTo { abs: cabs, x2: x2, y2: y2, x: x, y: y },
            NumAnswer::Reflected { x1: mx, y1: my },
        ) == seq![CanonicalCommand::CurveTo { x1: mx, y1: my, x2: x2, y2: y2, x: x, y: y }],
{
}

/// Consecutive closes collapse: a close directly after a close emits
/// nothing, while a close after anything else emits exactly one canonical
/// close — so a run of closes yields one, at the position of the first.
pub proof fn lemma_close_collapse(f: Flattener, cabs: bool)
    ensures
        (f.prev matches Some(PathCommand::ClosePath { .. })) ==> step_out_spec(
            f,
            PathCommand::ClosePath { abs: cabs },
            NumAnswer::Nothing,
        ) == Seq::<CanonicalCommand>::empty(),
        !(f.prev matches Some(PathCommand::ClosePath { .. })) ==> step_out_spec(
            f,
            PathCommand::ClosePath { abs: cabs },
            NumAnswer::Nothing,
        ) == seq![CanonicalCommand::ClosePath],
{
}

/// Arc degeneracy: an arc whose tessellation reports a straight line (zero
/// radius or coincident endpoints) becomes exactly one line to the arc's
/// endpoint, never a curve, and the current point moves there.
pub proof fn lemma_degenerate_arc(
    f: Flattener,
    cabs: bool,
    rx: u64,
    ry: u64,
    rot: u64,
    large_arc: bool,
    sweep: bool,
    x: u64,
    y: u64,
    curves: Vec<Cubic>,
)
    ensures
        step_out_spec(
            f,
            PathCommand::EllipticalArc {
                abs: cabs,
                rx: rx,
                ry: ry,
                x_axis_rotation: rot,
                large_arc: large_arc,
                sweep: sweep,
                x: x,
                y: y,
            },
            NumAnswer::Arc { straight: true, curves: curves },
        ) == seq![CanonicalCommand::LineTo { x: x, y: y }],
        step_next_spec(
            f,
            PathCommand::EllipticalArc {
                abs: cabs,
                rx: rx,
                ry: ry,
                x_axis_rotation: rot,
                large_arc: large_arc,
                sweep: sweep,
                x: x,
                y: y,
            },
            NumAnswer::Arc { straight: true, curves: curves },
        ).px == x,
        step_next_spec(
            f,
            PathCommand::EllipticalArc {
                abs: cabs,
                rx: rx,
                ry: ry,
                x_axis_rotation: rot,
                large_arc: large_arc,
                sweep: sweep,
                x: x,
                y: y,
            },
            NumAnswer::Arc { straight: true, curves: curves },
        ).py == y,
{
}

/// The endpoint a canonical command leaves the pen at, when it names one.
pub open spec fn canon_end(c: CanonicalCommand) -> Option<(u64, u64)> {
    match c {
        CanonicalCommand::MoveTo { x, y } => Some((x, y)),
        CanonicalCommand::LineTo { x, y } => Some((x, y)),
        CanonicalCommand::CurveTo { x, y, .. } => Some((x, y)),
        CanonicalCommand::ClosePath => None,
    }
}

/// The traversal invariant: after any step, the current point equals the
/// endpoint of the last command emitted — for a close, the subpath start —
/// and is unchanged when nothing was emitted.
pub proof fn lemma_current_point(f: Flattener, cmd: PathCommand, ans: NumAnswer)
    requires
        wf(f),
        answer_fits(request_spec(f, cmd), ans),
    ensures
        step_out_spec(f, cmd, ans).len() == 0 ==> step_next_spec(f, cmd, ans).px == f.px
            && step_next_spec(f, cmd, ans).py == f.py,
        step_out_spec(f, cmd, ans).len() > 0 ==> match canon_end(
            step_out_spec(f, cmd, ans).last(),
        ) {
            Some(p) => step_next_spec(f, cmd, ans).px == p.0 && step_next_spec(f, cmd, ans).py
                == p.1,
            None => step_next_spec(f, cmd, ans).px == step_next_spec(f, cmd, ans).pmx
                && step_next_spec(f, cmd, ans).py == step_next_spec(f, cmd, ans).pmy,
        },
{
    match cmd {
        PathCommand::EllipticalArc { .. } => {
            match ans {
                NumAnswer::Arc { straight, curves } => {
                    if !straight && curves@.len() > 0 {
                        let s = curves@.map_values(|c: Cubic| cubic_curve(c));
                        assert(s.last() == cubic_curve(curves@.last()));
                    }
                },
                _ => {},
            }
        },
        _ => {},
    }
}

/// How many closes an output sequence holds.
pub open spec fn close_count_out(outs: Seq<CanonicalCommand>) -> nat
    decreases outs.len(),
{
    if outs.len() == 0 {
        0
    } else {
        (if (outs[0] matches CanonicalCommand::ClosePath) {
            1nat
        } else {
            0nat
        }) + close_count_out(outs.skip(1))
    }
}

/// How many closes of the input survive collapsing: one for each close not
/// directly preceded by another close. `prevc` says whether the command
/// before `cmds` was itself a close.
pub open spec fn surviving_close_count(prevc: bool, cmds: Seq<PathCommand>) -> nat
    decreases cmds.len(),
{
    if cmds.len() == 0 {
        0
    } else {
        let isc = cmds[0] matches PathCommand::ClosePath { .. };
        (if isc && !prevc {
            1nat
        } else {
            0nat
        }) + surviving_close_count(isc, cmds.skip(1))
    }
}

proof fn lemma_close_count_out_add(a: Seq<CanonicalCommand>, b: Seq<CanonicalCommand>)
    ensures
        close_count_out(a + b) == close_count_out(a) + close_count_out(b),
    decreases a.len(),
{
    if a.len() == 0 {
        assert(a + b =~= b);
    } else {
        assert((a + b).skip(1) =~= a.skip(1) + b);
        lemma_close_count_out_add(a.skip(1), b);
    }
}

proof fn lemma_no_closes(s: Seq<CanonicalCommand>)
    requires
        forall|i: int| 0 <= i < s.len() ==> !((#[trigger] s[i]) matches CanonicalCommand::ClosePath),
    ensures
        close_count_out(s) == 0,
    decreases s.len(),
{
    if s.len() > 0 {
        assert forall|i: int| 0 <= i < s.skip(1).len() implies !((#[trigger] s.skip(1)[i])
            matches CanonicalCommand::ClosePath) by {
            assert(s.skip(1)[i] == s[i + 1]);
        }
        lemma_no_closes(s.skip(1));
    }
}

proof fn lemma_step_close_count(f: Flattener, cmd: PathCommand, ans: NumAnswer)
    ensures
        close_count_out(step_out_spec(f, cmd, ans)) == (if (cmd matches PathCommand::ClosePath {
            ..
        }) && !(f.prev matches Some(PathCommand::ClosePath { .. })) {
            1nat
        } else {
            0nat
        }),
{
    let out = step_out_spec(f, cmd, ans);
    match cmd {
        PathCommand::EllipticalArc { .. } => {
            match ans {
                NumAnswer::Arc { straight, curves } => {
                    if !straight {
                        let s = curves@.map_values(|c: Cubic| cubic_curve(c));
                        assert forall|i: int| 0 <= i < s.len() implies !((#[trigger] s[i])
                            matches CanonicalCommand::ClosePath) by {
                            assert(s[i] == cubic_curve(curves@[i]));
                        }
                        lemma_no_closes(s);
                    }
                },
                _ => {},
            }
        },
        _ => {},
    }
    if out.len() > 0 {
        assert(close_count_out(out.skip(1)) == 0) by {
            if out.len() == 1 {
                assert(out.skip(1) =~= Seq::<CanonicalCommand>::empty());
            } else {
                lemma_no_closes(out.skip(1));
            }
        }
    }
}

/// Close collapse over a whole traversal: the output holds exactly one
/// canonical close for each input close that does not directly follow
/// another close — a run of consecutive closes yields a single close, at
/// the position of its first member, whatever the arithmetic answers.
pub proof fn lemma_closes_collapse_in_run(f: Flattener, cmds: Seq<PathCommand>, anss: Seq<NumAnswer>)
    ensures
        close_count_out(run_out(f, cmds, anss)) == surviving_close_count(
            f.prev matches Some(PathCommand::ClosePath { .. }),
            cmds,
        ),
    decreases cmds.len(),
{
    if cmds.len() > 0 {
        let next = step_next_spec(f, cmds[0], anss[0]);
        lemma_step_close_count(f, cmds[0], anss[0]);
        lemma_close_count_out_add(
            step_out_spec(f, cmds[0], anss[0]),
            run_out(next, cmds.skip(1), anss.skip(1)),
        );
        assert(next.prev == Some(cmds[0]));
        lemma_closes_collapse_in_run(next, cmds.skip(1), anss.skip(1));
    }
}

/// The same reflection rule when the preceding command is itself a smooth
/// cubic: its own second control point is the one mirrored.
pub proof fn lemma_smooth_after_smooth_reflection(
    f: Flattener,
    pcx: u64,
    pcy: u64,
    pex: u64,
    pey: u64,
    pabs: bool,
    cabs: bool,
    x2: u64,
    y2: u64,
    x: u64,
    y: u64,
)
    requires
        f.prev == Some(
            PathCommand::SmoothCurveTo { abs: pabs, x2: pcx, y2: pcy, x: pex, y: pey },
        ),
    ensures
        request_spec(f, PathCommand::SmoothCurveTo { abs: cabs, x2: x2, y2: y2, x: x, y: y })
            == (NumRequest::Reflect { ax: pex, ay: pey, cx: pcx, cy: pcy }),
{
}

/// The fallback: a smooth cubic after anything that is not a cubic asks for
/// no arithmetic, and the current point stands in as the first control.
pub proof fn lemma_smooth_cubic_fallback(f: Flattener, cabs: bool, x2: u64, y2: u64, x: u64, y: u64)
    requires
        !(f.prev matches Some(PathCommand::CurveTo { .. })),
        !(f.prev matches Some(PathCommand::SmoothCurveTo { .. })),
    ensures
        request_spec(f, PathCommand::SmoothCurveTo { abs: cabs, x2: x2, y2: y2, x: x, y: y })
            == NumRequest::Nothing,
        step_out_spec(
            f,
            PathCommand::SmoothCurveTo { abs: cabs, x2: x2, y2: y2, x: x, y: y },
            NumAnswer::Nothing,
        ) == seq![CanonicalCommand::CurveTo { x1: f.px, y1: f.py, x2: x2, y2: y2, x: x, y: y }],
{
}

} // verus!
