//! Binary logistic regression fitted by iteratively reweighted least squares
//! (IRLS), together with the plain-data model of a terminal event queue.
//!
//! Every scalar that the regression logic inspects is carried as the IEEE-754
//! double-precision bit pattern of the number, held in a `u64`. All checks the
//! fitting procedure performs on its input — that each response entry encodes
//! exactly zero or one, that every entry is finite, that the convergence
//! tolerance is a positive finite value — are exact predicates on those bit
//! patterns, so the whole decision layer of the fit is stated and verified
//! here. The numerical kernels (matrix products, inversion, the logistic
//! transform) run outside this crate's verified core and report their outcome
//! back to the [`logistic::IrlsController`] one step at a time.

pub mod bits;
pub mod events;
pub mod logistic;
