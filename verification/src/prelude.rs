//! The names that most users of the crate need.

pub use crate::feature::executable_flow::{ExecutableFlow, ExecutablePromptChain};
pub use crate::feature::prompt_result::{PromptExecutableError, PromptResult};
pub use crate::feature::retry::{RetryStrategy, RetryableExecuteError, RetryablePromptResult};
pub use crate::flow::{Flow, PromptChain};
pub use crate::prompt::context::Context;
pub use crate::prompt::control::{IfPrompt, IfPromptBuilder, LoopPrompt, LoopPromptBuilder};
pub use crate::prompt::error::PromptError;
pub use crate::prompt::naive::{Prompt, PromptVariant};
pub use crate::prompt::template::PromptTemplate;
