//! Failures of the completion service, as plain values.

use vstd::prelude::*;
use async_openai::error::OpenAIError;
use async_openai::types::chat::{
    ChatCompletionRequestUserMessage, CreateChatCompletionRequest,
    CreateChatCompletionRequestArgs,
};

verus! {

/// The error type `OpenAIError` of `async_openai`. Nothing is known of its values.
#[verifier::external_type_specification]
#[verifier::external_body]
pub struct ExOpenAIError(async_openai::error::OpenAIError);

/// The request type `CreateChatCompletionRequest` of `async_openai`. Nothing is known of its values.
#[verifier::external_type_specification]
#[verifier::external_body]
pub struct ExChatRequest(async_openai::types::chat::CreateChatCompletionRequest);

/// What the service said when it rejected a request.
#[derive(Debug)]
pub struct ApiError {
    pub message: String,
    /// The service's error code, where it gave one.
    pub code: Option<String>,
}

/// A failure between sending a request and holding a response.
#[derive(Debug)]
pub enum RemoteError {
    /// The connection failed.
    Reqwest(String),
    /// The service answered with an error.
    ApiError(ApiError),
    /// The response could not be read as the expected document.
    JSONDeserialize(String),
    /// A file could not be written.
    FileSaveError(String),
    /// A file could not be read.
    FileReadError(String),
    /// The response stream broke.
    StreamError(String),
    /// The request could not be built from its arguments.
    InvalidArgument(String),
}

impl RemoteError {
    /// A failure of the transport itself, which another attempt may not meet.
    pub open spec fn is_transport(&self) -> bool {
        self is Reqwest || self is JSONDeserialize || self is StreamError
    }

    /// The service's error code, where the failure carries one.
    pub open spec fn code(&self) -> Option<Seq<char>> {
        match self {
            RemoteError::ApiError(e) => match e.code {
                Some(c) => Some(c@),
                None => None,
            },
            _ => None,
        }
    }

    /// The text that describes this failure.
    pub open spec fn message_spec(&self) -> Seq<char> {
        match self {
            RemoteError::Reqwest(m) => m@,
            RemoteError::ApiError(e) => e.message@,
            RemoteError::JSONDeserialize(m) => m@,
            RemoteError::FileSaveError(m) => m@,
            RemoteError::FileReadError(m) => m@,
            RemoteError::StreamError(m) => m@,
            RemoteError::InvalidArgument(m) => m@,
        }
    }

    /// The text that describes this failure.
    pub fn message(&self) -> (r: String)
        ensures
            r@ == self.message_spec(),
    {
        match self {
            RemoteError::Reqwest(m) => m.clone(),
            RemoteError::ApiError(e) => e.message.clone(),
            RemoteError::JSONDeserialize(m) => m.clone(),
            RemoteError::FileSaveError(m) => m.clone(),
            RemoteError::FileReadError(m) => m.clone(),
            RemoteError::StreamError(m) => m.clone(),
            RemoteError::InvalidArgument(m) => m.clone(),
        }
    }
}

/// Reads an `OpenAIError` of the client library into a [`RemoteError`]:
/// each variant becomes the variant of the same name, with the text of
/// what it holds. Of the service's error object the message and the code
/// are kept.
#[verifier::external_body]
pub(crate) fn remote_error(e: OpenAIError) -> (r: RemoteError) {
    match e {
        OpenAIError::Reqwest(e) => RemoteError::Reqwest(e.to_string()),
        OpenAIError::ApiError(e) => RemoteError::ApiError(
            ApiError { message: e.api_error.message, code: e.api_error.code },
        ),
        OpenAIError::JSONDeserialize(e, _) => RemoteError::JSONDeserialize(e.to_string()),
        OpenAIError::FileSaveError(m) => RemoteError::FileSaveError(m),
        OpenAIError::FileReadError(m) => RemoteError::FileReadError(m),
        OpenAIError::StreamError(e) => RemoteError::StreamError(e.to_string()),
        OpenAIError::InvalidArgument(m) => RemoteError::InvalidArgument(m),
    }
}

/// What the builder `CreateChatCompletionRequestArgs` of the client
/// library gives for a request to `model` whose only message is the user
/// message with `prompt` as its content. The builder reads nothing but
/// what it is given, and it takes every field that was not set from the
/// default request, so that it always gives a request.
pub uninterp spec fn chat_request_of(model: Seq<char>, prompt: Seq<char>) -> Result<
    CreateChatCompletionRequest,
    OpenAIError,
>;

/// A chat completion request to `model` whose only message is the user
/// message with `prompt` as its content, by the builder
/// `CreateChatCompletionRequestArgs` of the client library. The prompt is
/// handed over as the user message that the client library's `From<&str>`
/// makes of it. The result is what the builder gives for this model and
/// this prompt, and it is a request: the builder has a default for every
/// field and refuses nothing.
#[verifier::external_body]
pub(crate) fn chat_request(model: &str, prompt: &str) -> (r: Result<
    CreateChatCompletionRequest,
    OpenAIError,
>)
    ensures
        r == chat_request_of(model@, prompt@),
        r is Ok,
{
    let message = ChatCompletionRequestUserMessage::from(prompt);
    CreateChatCompletionRequestArgs::default().messages(vec![message.into()]).model(model).build()
}

} // verus!
