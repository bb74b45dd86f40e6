//! Stateless numeric decision kernels for a reinforcement-learning style
//! agent: keyword-weighted priority triage of free text, shape validation
//! for dense matrix multiplication, and epsilon-greedy action selection.
//!
//! Every kernel is a pure function from plain values to plain values; the
//! floating-point arithmetic that surrounds these decisions lives with the
//! host, which converts its values into the forms the contracts speak of.

pub mod matrix;
pub mod priority;
pub mod select;
