//! Estimation of the initial position and velocity of a body under an
//! inverse-square central force from the bearings at which it was seen.
//!
//! The dynamics, the observation model and the residuals are written once over
//! a numeric element type ([`scalar::Scalar`]); running them on dual numbers
//! ([`dual::Dual`]) yields the Jacobian of the residuals alongside their values.
pub mod dual;
pub mod dynamics;
pub mod fit;
pub mod observation;
pub mod residual;
pub mod scalar;
pub mod state;
