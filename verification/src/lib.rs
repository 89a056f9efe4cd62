//! Canonicalization of vector-path command sequences.
//!
//! A path is an ordered list of drawing commands in the usual path
//! mini-language: moves, lines, cubic and quadratic curves, their smooth
//! shorthands, elliptical arcs and closes, each in absolute or relative form.
//! This crate rewrites such a path into the minimal canonical alphabet —
//! move-to, line-to, cubic-curve-to, close-path, all absolute — resolving
//! implicit control-point reflection, quadratic degree elevation and
//! shorthand lines, and collapsing repeated closes.
//!
//! Coordinates are carried as opaque 64-bit scalars (callers use IEEE 754
//! bit patterns). The crate never interprets a scalar arithmetically: every
//! structural decision — which commands are emitted, which scalar lands in
//! which slot, when a reflection or an elevation applies — is made and
//! verified here, while the handful of scalar blends (sums for the
//! coordinate normalizer, the mirror formula, the elevation blend, arc
//! tessellation) are delegated to the caller through a small request/answer
//! protocol stated precisely in the contracts.

pub mod flatten;
pub mod laws;
pub mod normalize;
pub mod path;
