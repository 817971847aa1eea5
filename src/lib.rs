//! An evaluator for the untyped lambda calculus with native functions and a
//! global environment, where beta reduction rewrites the callee's body.
pub mod context;
pub mod eval;
pub mod expr;
pub mod laws;
