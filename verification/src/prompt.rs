//! The prompt tree: its nodes, their templates, the context they read and
//! the errors they report.

pub mod context;
pub mod control;
pub mod error;
pub mod naive;
pub mod template;
pub mod text;
