//! Agent sessions and turns.
pub mod session;
pub mod turn;
