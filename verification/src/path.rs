//! The command alphabet: the full input vocabulary and the canonical subset.

use vstd::prelude::*;

verus! {

/// One drawing instruction of the input mini-language.
///
/// Every coordinate is an opaque 64-bit scalar; `abs` says whether the
/// command's coordinates are absolute or offsets from the current point.
#[derive(Clone, Copy, PartialEq, Eq, Structural, Debug)]
pub enum PathCommand {
    MoveTo { abs: bool, x: u64, y: u64 },
    LineTo { abs: bool, x: u64, y: u64 },
    HorizontalLineTo { abs: bool, x: u64 },
    VerticalLineTo { abs: bool, y: u64 },
    CurveTo { abs: bool, x1: u64, y1: u64, x2: u64, y2: u64, x: u64, y: u64 },
    SmoothCurveTo { abs: bool, x2: u64, y2: u64, x: u64, y: u64 },
    Quadratic { abs: bool, x1: u64, y1: u64, x: u64, y: u64 },
    SmoothQuadratic { abs: bool, x: u64, y: u64 },
    EllipticalArc {
        abs: bool,
        rx: u64,
        ry: u64,
        x_axis_rotation: u64,
        large_arc: bool,
        sweep: bool,
        x: u64,
        y: u64,
    },
    ClosePath { abs: bool },
}

/// One instruction of the canonical output alphabet: exactly four variants,
/// all coordinates absolute.
#[derive(Clone, Copy, PartialEq, Eq, Structural, Debug)]
pub enum CanonicalCommand {
    MoveTo { x: u64, y: u64 },
    LineTo { x: u64, y: u64 },
    CurveTo { x1: u64, y1: u64, x2: u64, y2: u64, x: u64, y: u64 },
    ClosePath,
}

/// Whether a command carries absolute coordinates.
pub open spec fn is_abs(cmd: PathCommand) -> bool {
    match cmd {
        PathCommand::MoveTo { abs, .. } => abs,
        PathCommand::LineTo { abs, .. } => abs,
        PathCommand::HorizontalLineTo { abs, .. } => abs,
        PathCommand::VerticalLineTo { abs, .. } => abs,
        PathCommand::CurveTo { abs, .. } => abs,
        PathCommand::SmoothCurveTo { abs, .. } => abs,
        PathCommand::Quadratic { abs, .. } => abs,
        PathCommand::SmoothQuadratic { abs, .. } => abs,
        PathCommand::EllipticalArc { abs, .. } => abs,
        PathCommand::ClosePath { abs } => abs,
    }
}

/// Runtime check of `is_abs`.
pub fn is_absolute(cmd: &PathCommand) -> (r: bool)
    ensures
        r == is_abs(*cmd),
{
    match *cmd {
        PathCommand::MoveTo { abs, .. } => abs,
        PathCommand::LineTo { abs, .. } => abs,
        PathCommand::HorizontalLineTo { abs, .. } => abs,
        PathCommand::VerticalLineTo { abs, .. } => abs,
        PathCommand::CurveTo { abs, .. } => abs,
        PathCommand::SmoothCurveTo { abs, .. } => abs,
        PathCommand::Quadratic { abs, .. } => abs,
        PathCommand::SmoothQuadratic { abs, .. } => abs,
        PathCommand::EllipticalArc { abs, .. } => abs,
        PathCommand::ClosePath { abs } => abs,
    }
}

} // verus!
