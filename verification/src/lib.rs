//! Levenberg-Marquardt damped least squares: the decisions of the optimiser,
//! proved, with the arithmetic on reals left to whoever calls it.
//!
//! A host evaluates the model, assembles and solves the damped normal
//! equations, and hands each sum of squares over as a [`binary64::Real`]. The
//! library compares those sums, picks between the two trial steps of an
//! iteration, accepts or rejects the pick, adapts the damping and decides
//! when the run ends.

pub mod config;
pub mod binary64;
pub mod state;
pub mod trial;
pub mod run;
pub mod laws;
