//! Propositional-logic expressions over named atoms, with Kleene's
//! three-valued truth semantics and precedence-aware rendering.

pub mod laws;
pub mod proposition;
pub mod truth;

pub use proposition::{op_order, Connective, Origin, PropView, Proposition};
pub use truth::Truth;
