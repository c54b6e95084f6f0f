use async_openai::error::{ApiErrorResponse, OpenAIError, StreamError};
use async_openai::types::chat::{
    ChatCompletionRequestMessage, ChatCompletionRequestUserMessageContent,
};
use prompt_flow::feature::executable::CompletionRequest;
use prompt_flow::feature::retry::{classify, RetryAction};
use prompt_flow::feature::prompt_result::{PromptExecutableError, PromptResult};
use prompt_flow::feature::remote::{ApiError, RemoteError};
use prompt_flow::prompt::context::Context;
use prompt_flow::prompt::control::IfPrompt;
use prompt_flow::prompt::error::PromptError;
use prompt_flow::prompt::naive::PromptVariant;
use prompt_flow::prompt::template::PromptTemplate;

pub struct Counter {
    pub seen: Vec<String>,
}

impl Context for Counter {
    fn get<T: 'static>(&self, _: &str) -> Option<&T> {
        None
    }

    fn get_mut<T: 'static>(&mut self, _: &str) -> Option<&mut T> {
        None
    }

    fn template_var(&self, key: &str) -> Option<String> {
        match key {
            "count" => Some(self.seen.len().to_string()),
            _ => None,
        }
    }
}

type Condition = fn(&Counter) -> bool;
type Node = PromptVariant<Counter, Condition>;

fn keep(raw: String, context: &mut Counter) -> Result<Option<String>, serde_json::Error> {
    context.seen.push(raw.clone());
    Ok(Some(raw))
}

fn number(raw: String, _: &mut Counter) -> Result<Option<i32>, serde_json::Error> {
    serde_json::from_str::<i32>(&raw).map(Some)
}

fn request_of(r: Result<Option<CompletionRequest>, PromptExecutableError>) -> CompletionRequest {
    r.unwrap().unwrap()
}

#[test]
fn empty_roster_is_model_not_set() {
    let node: Node = PromptVariant::from("Hello");
    let binding = node.to_executable(keep).models(vec![]);
    assert_eq!(binding.model_count(), 0);
    let context = Counter { seen: vec![] };
    assert!(matches!(binding.prepare(&context, None), Err(PromptExecutableError::ModelNotSet)));
    assert!(matches!(binding.prepare(&context, Some(0)), Err(PromptExecutableError::ModelNotSet)));
}

#[test]
fn selection_outside_the_roster_is_invalid() {
    let node: Node = PromptVariant::from("Hello");
    let binding = node.to_executable(keep).models(vec!["a"]);
    let context = Counter { seen: vec![] };
    assert!(matches!(
        binding.prepare(&context, Some(5)),
        Err(PromptExecutableError::InvalidModelSelection(5))
    ));
    assert!(matches!(
        binding.prepare(&context, Some(1)),
        Err(PromptExecutableError::InvalidModelSelection(1))
    ));
}

#[test]
fn request_names_the_selected_model_and_the_text() {
    let node: Node = PromptVariant::from(PromptTemplate::new("seen {count}").unwrap());
    let binding = node.to_executable(keep).models(vec!["first", "second"]);
    assert_eq!(binding.model_count(), 2);
    assert_eq!(binding.models(), &vec!["first", "second"]);
    assert!(binding.inner_variant().is_leaf());
    let context = Counter { seen: vec!["x".to_string()] };
    let request = request_of(binding.prepare(&context, None));
    assert_eq!(request.model, "first");
    assert_eq!(request.prompt, "seen 1");
    let request = request_of(binding.prepare(&context, Some(0)));
    assert_eq!(request.model, "first");
    let request = request_of(binding.prepare(&context, Some(1)));
    assert_eq!(request.model, "second");
    assert_eq!(request.prompt, "seen 1");
}

#[test]
fn node_that_asks_nothing_sends_nothing() {
    let empty: Node = PromptVariant::from(PromptTemplate::new("").unwrap());
    let binding = empty.to_executable(keep).models(vec!["a"]);
    let context = Counter { seen: vec![] };
    assert!(binding.prepare(&context, None).unwrap().is_none());
    let never: Condition = |_| false;
    let branch: Node =
        PromptVariant::if_prompt(IfPrompt::new(PromptVariant::from("t"), None, never));
    let binding = branch.to_executable(keep).models(vec!["a"]);
    assert!(binding.prepare(&context, None).unwrap().is_none());
}

#[test]
fn rendering_failure_is_reported_as_such() {
    let node: Node = PromptVariant::from(PromptTemplate::new("{nope}").unwrap());
    let binding = node.to_executable(keep).models(vec!["a"]);
    let context = Counter { seen: vec![] };
    match binding.prepare(&context, None) {
        Err(PromptExecutableError::FailBuildingPrompt(PromptError::MissingContextVar(name))) => {
            assert_eq!(name, "nope")
        }
        _ => panic!("the missing variable was not reported"),
    }
}

#[test]
fn response_is_decoded_and_the_context_updated() {
    let node: Node = PromptVariant::from("Hello");
    let binding = node.to_executable(keep).models(vec!["a"]);
    let mut context = Counter { seen: vec![] };
    let result = binding.finish(Ok("answer".to_string()), &mut context);
    assert!(result.is_ok());
    assert!(!result.is_err());
    assert_eq!(result.unwrap(), Some("answer".to_string()));
    assert_eq!(context.seen, vec!["answer".to_string()]);
    assert_eq!((binding.get_processor())("again".to_string(), &mut context).unwrap().unwrap(), "again");
}

#[test]
fn service_failure_is_passed_on() {
    let node: Node = PromptVariant::from("Hello");
    let binding = node.to_executable(keep).models(vec!["a"]);
    let mut context = Counter { seen: vec![] };
    let broken = RemoteError::StreamError("broken".to_string());
    let result = binding.finish(Err(broken), &mut context);
    assert!(result.is_err());
    match result.unwrap_err() {
        PromptExecutableError::OpenAI(RemoteError::StreamError(text)) => assert_eq!(text, "broken"),
        _ => panic!("the failure was not passed on"),
    }
    let refused = RemoteError::InvalidArgument("no messages".to_string());
    match binding.finish(Err(refused), &mut context).unwrap_err() {
        PromptExecutableError::OpenAI(RemoteError::InvalidArgument(text)) => {
            assert_eq!(text, "no messages")
        }
        _ => panic!("the failure was not passed on"),
    }
    let unread = RemoteError::JSONDeserialize("expected value".to_string());
    let unread = binding.finish(Err(unread), &mut context).unwrap_err();
    assert!(matches!(unread, PromptExecutableError::OpenAI(RemoteError::JSONDeserialize(_))));
    assert_eq!(classify(&unread, 2), RetryAction::RetrySameModel);
    assert!(context.seen.is_empty());
}

#[test]
fn service_error_object_keeps_message_and_code() {
    let node: Node = PromptVariant::from("Hello");
    let binding = node.to_executable(keep).models(vec!["a", "b"]);
    let mut context = Counter { seen: vec!["before".to_string()] };
    let object = ApiError { message: "slow down".to_string(), code: Some("429".to_string()) };
    let failure = binding.finish(Err(RemoteError::ApiError(object)), &mut context).unwrap_err();
    match &failure {
        PromptExecutableError::OpenAI(RemoteError::ApiError(e)) => {
            assert_eq!(e.message, "slow down");
            assert_eq!(e.code, Some("429".to_string()));
        }
        _ => panic!("the failure was not passed on"),
    }
    assert_eq!(classify(&failure, binding.model_count()), RetryAction::RetryNextModel);
    assert_eq!(context.seen, vec!["before".to_string()]);
}

#[test]
fn built_request_holds_the_model_and_one_user_message() {
    let node: Node = PromptVariant::from(PromptTemplate::new("seen {count}").unwrap());
    let binding = node.to_executable(keep).models(vec!["first", "second"]);
    let context = Counter { seen: vec![] };
    let request = binding.request(&context, Some(1)).unwrap().unwrap();
    assert_eq!(request.model, "second");
    assert_eq!(request.messages.len(), 1);
    match &request.messages[0] {
        ChatCompletionRequestMessage::User(message) => assert_eq!(
            message.content,
            ChatCompletionRequestUserMessageContent::Text("seen 0".to_string())
        ),
        _ => panic!("the message is not a user message"),
    }
    let plain = CompletionRequest { model: "m".to_string(), prompt: "p".to_string() };
    let built = plain.build().unwrap();
    assert_eq!(built.model, "m");
    assert_eq!(built.messages.len(), 1);
    assert!(matches!(binding.request(&context, Some(2)), Err(PromptExecutableError::InvalidModelSelection(2))));
    let empty: Node = PromptVariant::from(PromptTemplate::new("").unwrap());
    let nothing = empty.to_executable(keep).models(vec!["a"]);
    assert!(nothing.request(&context, None).unwrap().is_none());
    let none = node.to_executable(keep).models(vec![]);
    assert!(matches!(none.request(&context, None), Err(PromptExecutableError::ModelNotSet)));
}

#[test]
fn decoder_failure_is_a_deserialize_error() {
    let node: Node = PromptVariant::from("Hello");
    let binding = node.to_executable(number).models(vec!["a"]);
    let mut context = Counter { seen: vec![] };
    assert_eq!(binding.finish(Ok("42".to_string()), &mut context).unwrap(), Some(42));
    let result = binding.finish(Ok("not a number".to_string()), &mut context);
    assert!(matches!(result.unwrap_err(), PromptExecutableError::Deserialize(_)));
}

#[test]
fn results_are_built_from_their_parts() {
    let ok = PromptResult::<i32>::ok(Some(3));
    assert!(ok.is_ok());
    assert_eq!(ok.unwrap(), Some(3));
    let nothing = PromptResult::<i32>::ok(None);
    assert_eq!(nothing.unwrap(), None);
    let err = PromptResult::<i32>::err(PromptExecutableError::ModelNotSet);
    assert!(err.is_err());
    assert!(matches!(err.unwrap_err(), PromptExecutableError::ModelNotSet));
    let decoded = PromptResult::<i32>::decoded(serde_json::from_str::<i32>("7").map(Some));
    assert_eq!(decoded.unwrap(), Some(7));
    let failed = PromptResult::<i32>::decoded(serde_json::from_str::<i32>("x").map(Some));
    assert!(matches!(failed.unwrap_err(), PromptExecutableError::Deserialize(_)));
}

#[test]
fn errors_convert_into_execution_errors() {
    let from_prompt = PromptExecutableError::from(PromptError::MissingContextVar("v".to_string()));
    assert!(matches!(from_prompt, PromptExecutableError::FailBuildingPrompt(_)));
    let api = ApiError { message: "slow down".to_string(), code: Some("429".to_string()) };
    let from_remote = PromptExecutableError::from(RemoteError::ApiError(api));
    assert!(matches!(from_remote, PromptExecutableError::OpenAI(RemoteError::ApiError(_))));
    let from_json = PromptExecutableError::from(serde_json::from_str::<i32>("x").unwrap_err());
    assert!(matches!(from_json, PromptExecutableError::Deserialize(_)));
}

#[test]
fn execution_errors_have_their_messages() {
    assert_eq!(PromptExecutableError::ModelNotSet.message(), "model not set");
    assert_eq!(
        PromptExecutableError::InvalidModelSelection(5).message(),
        "invalid model selection: 5"
    );
    assert_eq!(
        PromptExecutableError::InvalidModelSelection(0).message(),
        "invalid model selection: 0"
    );
    assert_eq!(
        PromptExecutableError::InvalidModelSelection(1203).message(),
        "invalid model selection: 1203"
    );
    assert_eq!(
        PromptExecutableError::InvalidModelSelection(usize::MAX).message(),
        format!("invalid model selection: {}", usize::MAX)
    );
    assert_eq!(
        PromptExecutableError::FailBuildingPrompt(PromptError::MissingContextVar("v".to_string()))
            .message(),
        "fail building prompt"
    );
    let api = ApiError { message: "slow down".to_string(), code: Some("429".to_string()) };
    assert_eq!(RemoteError::ApiError(api).message(), "slow down");
    assert_eq!(
        PromptExecutableError::OpenAI(RemoteError::Reqwest("reset".to_string())).message(),
        "openai api error: reset"
    );
    let shown = serde_json::from_str::<i32>("x").unwrap_err().to_string();
    assert!(!shown.is_empty());
    let decoding = PromptExecutableError::Deserialize(serde_json::from_str::<i32>("x").unwrap_err());
    assert_eq!(decoding.message(), format!("deserialize error: {}", shown));
    let spent = PromptExecutableError::RetryFail(Box::new(decoding));
    assert_eq!(
        spent.message(),
        format!("Fail After Retry, retry error: deserialize error: {}", shown)
    );
}

#[test]
fn chain_is_executed_leaf_by_leaf() {
    let mut chain = prompt_flow::flow::PromptChain::<Counter, Condition>::new();
    chain.push(PromptVariant::from("Hello"));
    chain.push(PromptVariant::from(PromptTemplate::new("seen {count}").unwrap()));
    let few: Condition = |c| c.seen.len() < 5;
    chain.push(PromptVariant::if_prompt(IfPrompt::new(
        PromptVariant::from("few"),
        Some(PromptVariant::from("many")),
        few,
    )));
    let mut context = Counter { seen: vec![] };
    let mut flow = chain.flow();
    let mut sent: Vec<String> = Vec::new();
    while let Some(prompt) = flow.next_with(&context) {
        let binding = prompt.to_executable(keep).models(vec!["Qwen/Qwen3-8B"]);
        let request = request_of(binding.prepare(&context, None));
        assert_eq!(request.model, "Qwen/Qwen3-8B");
        sent.push(request.prompt.clone());
        let answer = format!("re: {}", request.prompt);
        let result = binding.finish(Ok(answer), &mut context);
        assert!(result.unwrap().is_some());
    }
    assert_eq!(sent, vec!["Hello".to_string(), "seen 1".to_string(), "few".to_string()]);
    assert_eq!(
        context.seen,
        vec!["re: Hello".to_string(), "re: seen 1".to_string(), "re: few".to_string()]
    );
}

#[test]
fn outcome_of_building_is_the_request_or_the_refusal() {
    let plain = CompletionRequest { model: "m".to_string(), prompt: "p".to_string() };
    let request = plain.build().unwrap();
    let same = CompletionRequest::built(Ok(request.clone())).unwrap();
    assert_eq!(same, request);
    let again = plain.build().unwrap();
    assert_eq!(again, request);
    let other = CompletionRequest { model: "m".to_string(), prompt: "q".to_string() };
    assert_ne!(other.build().unwrap(), request);
    let refused = CompletionRequest::built(Err(RemoteError::InvalidArgument("bad".to_string())));
    match refused {
        Err(PromptExecutableError::OpenAI(RemoteError::InvalidArgument(text))) => {
            assert_eq!(text, "bad")
        }
        _ => panic!("the refusal was not reported"),
    }
}

#[test]
fn value_converts_into_a_success() {
    let some = PromptResult::<i32>::from(Some(4));
    assert!(some.is_ok());
    assert_eq!(some.unwrap(), Some(4));
    let none = PromptResult::<i32>::from(None);
    assert_eq!(none.unwrap(), None);
}

#[test]
fn client_failures_are_read_into_the_library_type() {
    let broken = OpenAIError::StreamError(Box::new(StreamError::EventStream("broken".to_string())));
    match PromptExecutableError::from(broken) {
        PromptExecutableError::OpenAI(RemoteError::StreamError(text)) => {
            assert_eq!(text, "EventStream error: broken")
        }
        _ => panic!("the stream failure was not read"),
    }
    match PromptExecutableError::from(OpenAIError::InvalidArgument("bad".to_string())) {
        PromptExecutableError::OpenAI(RemoteError::InvalidArgument(text)) => assert_eq!(text, "bad"),
        _ => panic!("the refusal was not read"),
    }
    match PromptExecutableError::from(OpenAIError::FileReadError("gone".to_string())) {
        PromptExecutableError::OpenAI(RemoteError::FileReadError(text)) => assert_eq!(text, "gone"),
        _ => panic!("the file failure was not read"),
    }
    let unread = OpenAIError::JSONDeserialize(
        serde_json::from_str::<i32>("x").unwrap_err(),
        "x".to_string(),
    );
    let unread = PromptExecutableError::from(unread);
    assert!(matches!(unread, PromptExecutableError::OpenAI(RemoteError::JSONDeserialize(_))));
    assert_eq!(classify(&unread, 2), RetryAction::RetrySameModel);
    let object = serde_json::from_str::<async_openai::error::ApiError>(
        "{\"message\":\"slow down\",\"type\":null,\"param\":null,\"code\":\"429\"}",
    )
    .unwrap();
    let response = ApiErrorResponse { status_code: Default::default(), api_error: object };
    let failure = PromptExecutableError::from(OpenAIError::ApiError(response));
    match &failure {
        PromptExecutableError::OpenAI(RemoteError::ApiError(e)) => {
            assert_eq!(e.message, "slow down");
            assert_eq!(e.code, Some("429".to_string()));
        }
        _ => panic!("the service's error was not read"),
    }
    assert_eq!(classify(&failure, 2), RetryAction::RetryNextModel);
    assert_eq!(classify(&failure, 1), RetryAction::RetryAfterDelay(30));
}

#[test]
fn text_that_reads_no_variable_renders_in_any_context() {
    let node: Node = PromptVariant::from(PromptTemplate::new("only {{text}}").unwrap());
    let binding = node.to_executable(keep).models(vec!["m"]);
    let request = request_of(binding.prepare(&Counter { seen: vec![] }, None));
    assert_eq!(request.prompt, "only {text}");
    let built = binding.request(&Counter { seen: vec![] }, None).unwrap().unwrap();
    assert_eq!(built.model, "m");
}
