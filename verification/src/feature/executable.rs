//! A leaf bound to a decoder and to its candidate models.

use vstd::prelude::*;
use vstd::string::*;
use crate::feature::prompt_result::{PromptExecutableError, PromptResult};
use crate::feature::remote::{chat_request, chat_request_of, remote_error, RemoteError};
use async_openai::error::OpenAIError;
use async_openai::types::chat::CreateChatCompletionRequest;
use crate::prompt::context::{is_lookup, Context};
use crate::prompt::error::PromptErrorView;
use crate::prompt::naive::{node_prompt, reads_no_var, NodeView, PromptVariant};

verus! {

/// A decoder can be asked of every response in every context.
pub open spec fn total_decoder<R, C, S, P: Fn(R, &mut C) -> Result<Option<S>, serde_json::Error>>(
    processor: P,
) -> bool {
    forall|raw: R, context: &mut C| #[trigger] processor.requires((raw, context))
}

/// What the decoder returned, as the result of an execution: its value, or
/// its error as `Deserialize`.
pub open spec fn decoded_result<S>(decoded: Result<Option<S>, serde_json::Error>) -> Result<
    Option<S>,
    PromptExecutableError,
> {
    match decoded {
        Ok(value) => Ok(value),
        Err(e) => Err(PromptExecutableError::Deserialize(e)),
    }
}

/// A node with the function that decodes the response to it.
pub struct PromptExecutable<'a, C, F: Fn(&C) -> bool, P> {
    prompt: &'a PromptVariant<C, F>,
    processor: P,
}

impl<C, F: Fn(&C) -> bool> PromptVariant<C, F> {
    /// Binds this node to the function that decodes the response to it.
    pub fn to_executable<'a, P>(&'a self, processor: P) -> (r: PromptExecutable<'a, C, F, P>)
        ensures
            r.node() == self@,
            r.decoder() == processor,
    {
        PromptExecutable { prompt: self, processor }
    }
}

impl<'a, C, F: Fn(&C) -> bool, P> PromptExecutable<'a, C, F, P> {
    /// The node that is executed.
    pub closed spec fn node(&self) -> NodeView<C> {
        self.prompt@
    }

    /// The decoder that was bound.
    pub closed spec fn decoder(&self) -> P {
        self.processor
    }

    /// The decoder.
    pub fn get_processor(&self) -> (r: &P)
        ensures
            *r == self.decoder(),
    {
        &self.processor
    }

    /// Adds the candidate models, in order of preference.
    pub fn models(self, models: Vec<&'a str>) -> (r: PromptExecutableWithModel<'a, C, F, P>)
        ensures
            r.node() == self.node(),
            r.decoder() == self.decoder(),
            r.roster() == models@,
    {
        PromptExecutableWithModel { prompt: self, models }
    }
}

/// What is sent to the completion service for one leaf.
#[derive(Debug)]
pub struct CompletionRequest {
    /// The model that is asked.
    pub model: String,
    /// The text that it is asked.
    pub prompt: String,
}

impl CompletionRequest {
    /// What the client library's builders made of a request, as the
    /// outcome of building it: the request they gave, or their refusal as
    /// `OpenAI`.
    pub fn built(outcome: Result<CreateChatCompletionRequest, RemoteError>) -> (r: Result<
        CreateChatCompletionRequest,
        PromptExecutableError,
    >)
        ensures
            r == (match outcome {
                Ok(request) => Ok::<CreateChatCompletionRequest, PromptExecutableError>(request),
                Err(e) => Err(PromptExecutableError::OpenAI(e)),
            }),
    {
        match outcome {
            Ok(request) => Ok(request),
            Err(e) => Err(PromptExecutableError::OpenAI(e)),
        }
    }

    /// The request in the form that the client library sends: what its
    /// builder gives for this model and this prompt.
    pub fn build(&self) -> (r: Result<CreateChatCompletionRequest, PromptExecutableError>)
        ensures
            chat_request_of(self.model@, self.prompt@) matches Ok(request) && r == Ok::<
                CreateChatCompletionRequest,
                PromptExecutableError,
            >(request),
    {
        match chat_request(self.model.as_str(), self.prompt.as_str()) {
            Ok(request) => CompletionRequest::built(Ok(request)),
            Err(e) => CompletionRequest::built(Err(remote_error(e))),
        }
    }
}

/// The index that a selection stands for: itself, or the head of the
/// roster when none was made.
pub open spec fn selected_index(select_model: Option<usize>) -> int {
    match select_model {
        Some(i) => i as int,
        None => 0,
    }
}

/// A node bound to a decoder and to its candidate models.
pub struct PromptExecutableWithModel<'a, C, F: Fn(&C) -> bool, P> {
    prompt: PromptExecutable<'a, C, F, P>,
    models: Vec<&'a str>,
}

impl<'a, C, F: Fn(&C) -> bool, P> PromptExecutableWithModel<'a, C, F, P> {
    /// The node that is executed.
    pub closed spec fn node(&self) -> NodeView<C> {
        self.prompt.node()
    }

    /// The decoder that was bound.
    pub closed spec fn decoder(&self) -> P {
        self.prompt.decoder()
    }

    /// The candidate models.
    pub closed spec fn roster(&self) -> Seq<&'a str> {
        self.models@
    }

    /// The number of candidate models.
    pub fn model_count(&self) -> (n: usize)
        ensures
            n == self.roster().len(),
    {
        self.models.len()
    }

    /// The node that is executed.
    pub fn inner_variant(&self) -> (r: &PromptVariant<C, F>)
        ensures
            r@ == self.node(),
    {
        self.prompt.prompt
    }

    /// The candidate models, in order of preference.
    pub fn models(&self) -> (r: &Vec<&'a str>)
        ensures
            r@ == self.roster(),
    {
        &self.models
    }

    /// The decoder.
    pub fn get_processor(&self) -> (r: &P)
        ensures
            *r == self.decoder(),
    {
        self.prompt.get_processor()
    }
}

impl<'a, C: Context, F: Fn(&C) -> bool, P> PromptExecutableWithModel<'a, C, F, P> {
    /// The first half of an execution: everything up to the request.
    ///
    /// An empty roster is `ModelNotSet`. A selection outside the roster is
    /// `InvalidModelSelection` with the index. Else the node is rendered: a
    /// rendering failure is `FailBuildingPrompt`, a node that asks nothing
    /// gives `Ok(None)`, and text gives the request for the selected model.
    pub fn prepare(&self, context: &C, select_model: Option<usize>) -> (r: Result<
        Option<CompletionRequest>,
        PromptExecutableError,
    >)
        ensures
            if self.roster().len() == 0 {
                r matches Err(PromptExecutableError::ModelNotSet)
            } else if selected_index(select_model) >= self.roster().len() {
                r matches Err(PromptExecutableError::InvalidModelSelection(i)) && i
                    == selected_index(select_model)
            } else {
                &&& (r is Ok || r matches Err(PromptExecutableError::FailBuildingPrompt(_)))
                &&& (r matches Ok(Some(request)) ==> request.model@
                    == self.roster()[selected_index(select_model)]@)
                &&& (is_lookup(context) || reads_no_var(self.node(), context)) ==> (match node_prompt(
                    self.node(),
                    context,
                ) {
                    Ok(Some(text)) => r matches Ok(Some(request)) && request.prompt@ == text,
                    Ok(None) => r matches Ok(None),
                    Err(e) => r matches Err(PromptExecutableError::FailBuildingPrompt(x)) && x@
                        == e,
                })
            },
    {
        if self.models.len() == 0 {
            return Err(PromptExecutableError::ModelNotSet);
        }
        let selected_model = match select_model {
            Some(i) => i,
            None => 0,
        };
        if selected_model >= self.models.len() {
            return Err(PromptExecutableError::InvalidModelSelection(selected_model));
        }
        let model = self.models[selected_model];
        match self.prompt.prompt.render(context) {
            Ok(Some(prompt)) => Ok(
                Some(CompletionRequest { model: String::from_str(model), prompt }),
            ),
            Ok(None) => Ok(None),
            Err(e) => Err(PromptExecutableError::FailBuildingPrompt(e)),
        }
    }

    /// The first half of an execution with the request built: as
    /// [`Self::prepare`], and where that gives a request, what
    /// [`CompletionRequest::build`] makes of it.
    pub fn request(&self, context: &C, select_model: Option<usize>) -> (r: Result<
        Option<CreateChatCompletionRequest>,
        PromptExecutableError,
    >)
        ensures
            if self.roster().len() == 0 {
                r matches Err(PromptExecutableError::ModelNotSet)
            } else if selected_index(select_model) >= self.roster().len() {
                r matches Err(PromptExecutableError::InvalidModelSelection(i)) && i
                    == selected_index(select_model)
            } else {
                &&& (r is Ok || r matches Err(PromptExecutableError::FailBuildingPrompt(_)))
                &&& (r matches Ok(Some(request)) ==> exists|text: Seq<char>| #[trigger]
                    chat_request_of(self.roster()[selected_index(select_model)]@, text) == Ok::<
                        CreateChatCompletionRequest,
                        OpenAIError,
                    >(request))
                &&& (is_lookup(context) || reads_no_var(self.node(), context)) ==> (match node_prompt(
                    self.node(),
                    context,
                ) {
                    Ok(Some(text)) => chat_request_of(
                        self.roster()[selected_index(select_model)]@,
                        text,
                    ) matches Ok(request) && r == Ok::<
                        Option<CreateChatCompletionRequest>,
                        PromptExecutableError,
                    >(Some(request)),
                    Ok(None) => r matches Ok(None),
                    Err(e) => r matches Err(PromptExecutableError::FailBuildingPrompt(x)) && x@
                        == e,
                })
            },
    {
        match self.prepare(context, select_model) {
            Ok(Some(plain)) => match plain.build() {
                Ok(request) => Ok(Some(request)),
                Err(e) => Err(e),
            },
            Ok(None) => Ok(None),
            Err(e) => Err(e),
        }
    }

    /// The second half of an execution: what the service gave becomes the
    /// result. A failure of the service is passed on as `OpenAI` and the
    /// context is left as it was. A response is handed to the decoder
    /// together with the context: the result is what the decoder returned
    /// for them, as [`decoded_result`] gives it, and the context is as the
    /// decoder left it.
    pub fn finish<R, S>(&self, response: Result<R, RemoteError>, context: &mut C) -> (r:
        PromptResult<S>) where P: Fn(R, &mut C) -> Result<Option<S>, serde_json::Error>
        requires
            total_decoder::<R, C, S, P>(self.decoder()),
        ensures
            response matches Err(e) ==> r.0 == Err::<Option<S>, PromptExecutableError>(
                PromptExecutableError::OpenAI(e),
            ) && *final(context) == *old(context),
            response matches Ok(raw) ==> exists|
                decoded: Result<Option<S>, serde_json::Error>,
                passed: &mut C,
            |
                *passed == *old(context) && *final(passed) == *final(context)
                    && #[trigger] call_ensures(self.decoder(), (raw, passed), decoded) && r.0
                    == decoded_result(decoded),
    {
        match response {
            Err(e) => PromptResult::err(PromptExecutableError::OpenAI(e)),
            Ok(raw) => {
                let decoded = (self.prompt.processor)(raw, context);
                PromptResult::decoded(decoded)
            },
        }
    }
}

} // verus!
