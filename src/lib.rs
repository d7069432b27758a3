//! Rifle precision estimates from the "Theory of Precision" formula.
//!
//! All quantities are exact non-negative rationals ([`ratio::Ratio`]), so
//! every formula is stated and proved without rounding.

pub mod formula;
pub mod inputs;
pub mod laws;
pub mod plot;
pub mod ratio;
pub mod selection;
pub mod top_app;
pub mod variable;
