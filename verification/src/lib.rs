//! Declarative prompt chains: a tree of literal, templated, conditional and
//! looping steps that is linearised on demand against a mutable context, and
//! a bounded retry policy for the completion calls made for each step.

pub mod feature;
pub mod flow;
pub mod prelude;
pub mod prompt;
