//! A safe envelope around a non-reentrant routine that integrates
//! multivariate normal and Student-t densities over regions bounded by
//! linear constraints.
//!
//! The routine reads flat column-major buffers and integer codes, keeps
//! state of its own between the steps of a call, and reports how it ended
//! in a status code. This crate
//!
//! * lays out the caller's matrices and bound kinds as the routine reads
//!   them ([`layout`], [`bounds`]),
//! * lets one caller at a time through to the routine ([`gate`]),
//! * reads what the routine returns into a result or an error ([`status`]),
//!
//! and puts the three together in [`mvdist`] and [`mvcrit`] ([`call`]). The
//! routine itself is handed in by the caller, as a closure from [`DistArgs`]
//! or [`CritArgs`] to [`RawOutcome`]. The entries of matrices and vectors
//! are only moved, never computed with, so their type is a parameter.

pub mod bounds;
pub mod call;
pub mod gate;
pub mod layout;
pub mod status;
pub mod text;

pub use bounds::{decode_bounds, encode_bounds, BoundType};
pub use call::{check_dimensions, mvcrit, mvdist, CritArgs, DistArgs};
pub use gate::Gate;
pub use layout::Matrix;
pub use status::{
    interpret_crit, interpret_crit_status, interpret_dist, interpret_dist_status, MVError,
    MVInform, MVResult, RawOutcome,
};
