//! Executing a leaf against a completion service: what is sent, what comes
//! back, and what to do when it fails.

pub mod executable;
pub mod executable_flow;
pub mod prompt_result;
pub mod remote;
pub mod retry;
