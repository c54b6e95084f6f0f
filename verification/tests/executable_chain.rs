use prompt_flow::feature::executable::PromptExecutableWithModel;
use prompt_flow::feature::executable_flow::{
    ExecutableIfPrompt, ExecutableIfPromptBuilder, ExecutableLoopPrompt,
    ExecutableLoopPromptBuilder, ExecutablePromptChain, ExecutablePromptVariant,
};
use prompt_flow::prompt::context::Context;
use prompt_flow::prompt::error::{IfPromptBuilderError, LoopPromptBuilderError};
use prompt_flow::prompt::naive::PromptVariant;

pub struct Steps {
    pub a: i32,
}

impl Context for Steps {
    fn get<T: 'static>(&self, _: &str) -> Option<&T> {
        None
    }

    fn get_mut<T: 'static>(&mut self, _: &str) -> Option<&mut T> {
        None
    }

    fn template_var(&self, _: &str) -> Option<String> {
        None
    }
}

type Condition = fn(&Steps) -> bool;
type Decoder = fn(String, &mut Steps) -> Result<Option<String>, serde_json::Error>;
type Node = PromptVariant<Steps, Condition>;
type Bound<'a> = ExecutablePromptVariant<'a, Steps, Condition, Decoder>;

fn count(raw: String, context: &mut Steps) -> Result<Option<String>, serde_json::Error> {
    context.a += 1;
    Ok(Some(raw))
}

fn bind<'a>(node: &'a Node, model: &'a str) -> PromptExecutableWithModel<'a, Steps, Condition, Decoder> {
    node.to_executable(count as Decoder).models(vec![model])
}

fn leaf<'a>(node: &'a Node, model: &'a str) -> Bound<'a> {
    ExecutablePromptVariant::from(bind(node, model))
}

fn text_of(binding: &PromptExecutableWithModel<Steps, Condition, Decoder>, context: &Steps) -> String {
    let request = binding.prepare(context, None).unwrap().unwrap();
    format!("{}:{}", request.model, request.prompt)
}

#[test]
fn bindings_come_in_order_as_the_conditions_decide() {
    let hello: Node = PromptVariant::from("Hello");
    let yes: Node = PromptVariant::from("If block here!");
    let no: Node = PromptVariant::from("Else block here!");
    let body: Node = PromptVariant::from("Loop block here!");
    let never: Node = PromptVariant::from("never");
    let last: Node = PromptVariant::from("Can I be reached?");
    let mut chain = ExecutablePromptChain::<Steps, Condition, Decoder>::new();
    chain.push(leaf(&hello, "m1"));
    let branch = ExecutableIfPromptBuilder::new()
        .then(leaf(&yes, "m2"))
        .otherwise(leaf(&no, "m3"))
        .condition((|c: &Steps| c.a > 3) as Condition)
        .build()
        .unwrap();
    chain.push(ExecutablePromptVariant::from(branch));
    let repeat = ExecutableLoopPromptBuilder::new()
        .prompt(leaf(&body, "m4"))
        .condition((|c: &Steps| c.a < 5) as Condition)
        .build()
        .unwrap();
    chain.push(ExecutablePromptVariant::from(repeat));
    chain.push(ExecutablePromptVariant::from(ExecutableIfPrompt::new(
        (|_: &Steps| false) as Condition,
        leaf(&never, "m5"),
        None,
    )));
    chain.push(leaf(&last, "m6"));
    assert_eq!(chain.len(), 5);
    let mut context = Steps { a: 1 };
    let mut flow = chain.flow();
    let mut seen: Vec<String> = Vec::new();
    while let Some(binding) = flow.next_with(&context) {
        seen.push(text_of(binding, &context));
        let result = binding.finish(Ok("ok".to_string()), &mut context);
        assert_eq!(result.unwrap(), Some("ok".to_string()));
    }
    assert_eq!(
        seen,
        vec![
            "m1:Hello".to_string(),
            "m3:Else block here!".to_string(),
            "m4:Loop block here!".to_string(),
            "m4:Loop block here!".to_string(),
            "m6:Can I be reached?".to_string(),
        ]
    );
    assert_eq!(context.a, 6);
    assert!(flow.is_spent());
    assert!(flow.next_with(&context).is_none());
}

#[test]
fn empty_chain_of_bindings_is_spent_at_once() {
    let chain = ExecutablePromptChain::<Steps, Condition, Decoder>::new();
    let mut flow = chain.flow();
    assert!(flow.next_with(&Steps { a: 0 }).is_none());
    assert!(flow.next_with(&Steps { a: 9 }).is_none());
}

#[test]
fn bound_branch_and_loop_resolve_to_their_bindings() {
    let yes: Node = PromptVariant::from("yes");
    let no: Node = PromptVariant::from("no");
    let branch = ExecutableIfPrompt::new(
        (|c: &Steps| c.a > 0) as Condition,
        leaf(&yes, "a"),
        Some(leaf(&no, "b")),
    );
    assert!(branch.test(&Steps { a: 1 }));
    assert!((branch.get_condition())(&Steps { a: 1 }));
    assert!(!branch.test(&Steps { a: 0 }));
    assert_eq!(text_of(branch.get_then().resolve(&Steps { a: 0 }).unwrap(), &Steps { a: 0 }), "a:yes");
    assert_eq!(
        text_of(branch.get_otherwise().unwrap().resolve(&Steps { a: 0 }).unwrap(), &Steps { a: 0 }),
        "b:no"
    );
    let repeat =
        ExecutableLoopPrompt::new((|c: &Steps| c.a < 2) as Condition, ExecutablePromptVariant::from(branch));
    assert!(repeat.test(&Steps { a: 1 }));
    assert!((repeat.get_condition())(&Steps { a: 1 }));
    assert!(repeat.get_prompt().resolve(&Steps { a: 5 }).is_some());
    let node: Bound = ExecutablePromptVariant::from(repeat);
    assert_eq!(text_of(node.resolve(&Steps { a: 1 }).unwrap(), &Steps { a: 1 }), "a:yes");
    assert_eq!(text_of(node.resolve(&Steps { a: 0 }).unwrap(), &Steps { a: 0 }), "b:no");
    assert!(node.resolve(&Steps { a: 2 }).is_none());
}

#[test]
fn bound_builders_report_what_is_missing() {
    let t: Node = PromptVariant::from("t");
    let nothing = ExecutableIfPromptBuilder::<Steps, Condition, Decoder>::new().build();
    assert!(matches!(nothing, Err(IfPromptBuilderError::MissingCondition)));
    let no_condition =
        ExecutableIfPromptBuilder::<Steps, Condition, Decoder>::new().then(leaf(&t, "m")).build();
    assert!(matches!(no_condition, Err(IfPromptBuilderError::MissingCondition)));
    let no_then = ExecutableIfPromptBuilder::<Steps, Condition, Decoder>::new()
        .condition((|_: &Steps| true) as Condition)
        .build();
    assert!(matches!(no_then, Err(IfPromptBuilderError::MissingThen)));
    let no_loop_condition =
        ExecutableLoopPromptBuilder::<Steps, Condition, Decoder>::new().prompt(leaf(&t, "m")).build();
    assert!(matches!(no_loop_condition, Err(LoopPromptBuilderError::MissingCondition)));
    let no_body = ExecutableLoopPromptBuilder::<Steps, Condition, Decoder>::new()
        .condition((|_: &Steps| true) as Condition)
        .build();
    assert!(matches!(no_body, Err(LoopPromptBuilderError::MissingPrompt)));
}
