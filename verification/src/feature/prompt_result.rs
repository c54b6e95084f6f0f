//! The result of executing one leaf.

use vstd::prelude::*;
use vstd::string::*;
use crate::feature::remote::{remote_error, RemoteError};
use async_openai::error::OpenAIError;
use crate::prompt::error::PromptError;
use crate::prompt::text::{decimal, decimal_spec};

verus! {

/// The error type of `serde_json`, which decoders return. Nothing is known of its values.
#[verifier::external_type_specification]
#[verifier::external_body]
pub struct ExJsonError(serde_json::Error);

/// Why executing a leaf failed.
#[derive(Debug)]
pub enum PromptExecutableError {
    /// The binding has no candidate model.
    ModelNotSet,
    /// The selected index is not in the candidate list.
    InvalidModelSelection(usize),
    /// The leaf could not be rendered.
    FailBuildingPrompt(PromptError),
    /// The completion service failed.
    OpenAI(RemoteError),
    /// The retry budget is spent; the last failure is inside.
    RetryFail(Box<PromptExecutableError>),
    /// The response could not be decoded.
    Deserialize(serde_json::Error),
}

/// What `serde_json::Error` shows of itself, by its `Display`.
#[verifier::external_body]
fn json_error_text(e: &serde_json::Error) -> (r: String) {
    e.to_string()
}

/// Whether `text` begins with `prefix`.
pub open spec fn starts_with(text: Seq<char>, prefix: Seq<char>) -> bool {
    prefix.len() <= text.len() && text.take(prefix.len() as int) == prefix
}

impl PromptExecutableError {
    /// Whether `text` can be the message of this error. The message of a
    /// decoding failure ends in what the decoder's error shows of itself,
    /// which is not fixed here.
    pub open spec fn has_message(&self, text: Seq<char>) -> bool
        decreases self,
    {
        match self {
            PromptExecutableError::ModelNotSet => text == "model not set"@,
            PromptExecutableError::InvalidModelSelection(i) => text
                == "invalid model selection: "@ + decimal_spec(*i as nat),
            PromptExecutableError::FailBuildingPrompt(_) => text == "fail building prompt"@,
            PromptExecutableError::OpenAI(e) => text == "openai api error: "@ + e.message_spec(),
            PromptExecutableError::RetryFail(inner) => starts_with(
                text,
                "Fail After Retry, retry error: "@,
            ) && inner.has_message(text.skip("Fail After Retry, retry error: "@.len() as int)),
            PromptExecutableError::Deserialize(_) => starts_with(text, "deserialize error: "@),
        }
    }

    /// The text shown for this error.
    pub fn message(&self) -> (r: String)
        ensures
            self.has_message(r@),
        decreases self,
    {
        match self {
            PromptExecutableError::ModelNotSet => {
                String::from_str("model not set")
            },
            PromptExecutableError::InvalidModelSelection(i) => {
                let number = decimal(*i);
                String::from_str("invalid model selection: ").concat(number.as_str())
            },
            PromptExecutableError::FailBuildingPrompt(_) => {
                String::from_str("fail building prompt")
            },
            PromptExecutableError::OpenAI(e) => {
                let cause = e.message();
                String::from_str("openai api error: ").concat(cause.as_str())
            },
            PromptExecutableError::RetryFail(inner) => {
                let cause = inner.message();
                let r = String::from_str("Fail After Retry, retry error: ").concat(cause.as_str());
                proof {
                    let prefix = "Fail After Retry, retry error: "@;
                    assert(r@.take(prefix.len() as int) =~= prefix);
                    assert(r@.skip(prefix.len() as int) =~= cause@);
                }
                r
            },
            PromptExecutableError::Deserialize(e) => {
                let cause = json_error_text(e);
                let r = String::from_str("deserialize error: ").concat(cause.as_str());
                assert(r@.take("deserialize error: "@.len() as int) =~= "deserialize error: "@);
                r
            },
        }
    }
}

impl From<PromptError> for PromptExecutableError {
    fn from(e: PromptError) -> (r: PromptExecutableError) {
        PromptExecutableError::FailBuildingPrompt(e)
    }
}

impl vstd::std_specs::convert::FromSpecImpl<PromptError> for PromptExecutableError {
    open spec fn obeys_from_spec() -> bool {
        true
    }

    open spec fn from_spec(e: PromptError) -> PromptExecutableError {
        PromptExecutableError::FailBuildingPrompt(e)
    }
}

impl From<RemoteError> for PromptExecutableError {
    fn from(e: RemoteError) -> (r: PromptExecutableError) {
        PromptExecutableError::OpenAI(e)
    }
}

impl vstd::std_specs::convert::FromSpecImpl<RemoteError> for PromptExecutableError {
    open spec fn obeys_from_spec() -> bool {
        true
    }

    open spec fn from_spec(e: RemoteError) -> PromptExecutableError {
        PromptExecutableError::OpenAI(e)
    }
}

impl From<OpenAIError> for PromptExecutableError {
    fn from(e: OpenAIError) -> (r: PromptExecutableError)
        ensures
            r is OpenAI,
    {
        PromptExecutableError::OpenAI(remote_error(e))
    }
}

/// A failure of the client library becomes `OpenAI` around what the
/// library reads of it. What is read is not fixed here, so `from` is
/// specified by its own `ensures` and not by `from_spec`.
impl vstd::std_specs::convert::FromSpecImpl<OpenAIError> for PromptExecutableError {
    open spec fn obeys_from_spec() -> bool {
        false
    }

    open spec fn from_spec(e: OpenAIError) -> PromptExecutableError {
        PromptExecutableError::OpenAI(arbitrary())
    }
}

impl From<serde_json::Error> for PromptExecutableError {
    fn from(e: serde_json::Error) -> (r: PromptExecutableError) {
        PromptExecutableError::Deserialize(e)
    }
}

impl vstd::std_specs::convert::FromSpecImpl<serde_json::Error> for PromptExecutableError {
    open spec fn obeys_from_spec() -> bool {
        true
    }

    open spec fn from_spec(e: serde_json::Error) -> PromptExecutableError {
        PromptExecutableError::Deserialize(e)
    }
}

/// What executing a leaf gave: a decoded value, nothing, or a failure.
#[derive(Debug)]
pub struct PromptResult<S>(pub Result<Option<S>, PromptExecutableError>);

impl<S> PromptResult<S> {
    /// Whether the execution succeeded.
    pub fn is_ok(&self) -> (r: bool)
        ensures
            r == self.0 is Ok,
    {
        self.0.is_ok()
    }

    /// Whether the execution failed.
    pub fn is_err(&self) -> (r: bool)
        ensures
            r == self.0 is Err,
    {
        self.0.is_err()
    }

    /// The value of a success.
    pub fn unwrap(self) -> (r: Option<S>)
        requires
            self.0 is Ok,
        ensures
            self.0 == Ok::<Option<S>, PromptExecutableError>(r),
    {
        match self.0 {
            Ok(s) => s,
            Err(_) => None,
        }
    }

    /// The error of a failure.
    pub fn unwrap_err(self) -> (r: PromptExecutableError)
        requires
            self.0 is Err,
        ensures
            self.0 == Err::<Option<S>, PromptExecutableError>(r),
    {
        match self.0 {
            Ok(_) => PromptExecutableError::ModelNotSet,
            Err(e) => e,
        }
    }

    /// A success.
    pub fn ok(value: Option<S>) -> (r: Self)
        ensures
            r.0 == Ok::<Option<S>, PromptExecutableError>(value),
    {
        PromptResult(Ok(value))
    }

    /// A failure.
    pub fn err(value: PromptExecutableError) -> (r: Self)
        ensures
            r.0 == Err::<Option<S>, PromptExecutableError>(value),
    {
        PromptResult(Err(value))
    }

    /// What decoding a response gave, as the result of the execution.
    pub fn decoded(outcome: Result<Option<S>, serde_json::Error>) -> (r: Self)
        ensures
            match outcome {
                Ok(value) => r.0 == Ok::<Option<S>, PromptExecutableError>(value),
                Err(e) => r.0 == Err::<Option<S>, PromptExecutableError>(
                    PromptExecutableError::Deserialize(e),
                ),
            },
    {
        match outcome {
            Ok(value) => PromptResult(Ok(value)),
            Err(e) => PromptResult(Err(PromptExecutableError::Deserialize(e))),
        }
    }
}

impl<S> From<Option<S>> for PromptResult<S> {
    fn from(value: Option<S>) -> (r: PromptResult<S>) {
        PromptResult(Ok(value))
    }
}

impl<S> vstd::std_specs::convert::FromSpecImpl<Option<S>> for PromptResult<S> {
    open spec fn obeys_from_spec() -> bool {
        true
    }

    open spec fn from_spec(value: Option<S>) -> PromptResult<S> {
        PromptResult(Ok(value))
    }
}

} // verus!
