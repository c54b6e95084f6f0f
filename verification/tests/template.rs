use prompt_flow::prompt::context::{Context, DefaultDisplayableContext, DisplayableContext};
use prompt_flow::prompt::error::{
    ControlPromptBuilderError, IfPromptBuilderError, LoopPromptBuilderError, PromptError,
    PromptTemplateError,
};
use prompt_flow::prompt::naive::{Prompt, PromptVariant};
use prompt_flow::prompt::template::PromptTemplate;
use prompt_flow::prompt::text::{chars_of, decimal};

fn people() -> DefaultDisplayableContext {
    let mut context = DefaultDisplayableContext::new();
    context.insert("name".to_string(), Box::new("John"));
    context.insert("age".to_string(), Box::new(18));
    context
}

fn render(template: &str, context: &DefaultDisplayableContext) -> Option<String> {
    PromptTemplate::new(template).unwrap().render(context).unwrap()
}

#[test]
fn empty_template_asks_nothing() {
    let template = PromptTemplate::new("").unwrap();
    assert_eq!(template.part_count(), 0);
    assert!(template.render(&people()).unwrap().is_none());
    assert!(template.render(&()).unwrap().is_none());
}

#[test]
fn text_without_braces_is_one_part() {
    let template = PromptTemplate::new("Hello").unwrap();
    assert_eq!(template.part_count(), 1);
    assert_eq!(template.render(&()).unwrap().unwrap(), "Hello");
}

#[test]
fn doubled_braces_are_literal_braces() {
    assert_eq!(render("{{", &people()).unwrap(), "{");
    assert_eq!(render("}}", &people()).unwrap(), "}");
    assert_eq!(render("{{}}", &people()).unwrap(), "{}");
    assert_eq!(render("a{{b}}c", &people()).unwrap(), "a{b}c");
    assert_eq!(render("{{{name} }}", &people()).unwrap(), "{John }");
}

#[test]
fn doubled_closing_brace_inside_a_placeholder_belongs_to_the_name() {
    let template = PromptTemplate::new("{{{name}}}").unwrap();
    match template.render(&people()) {
        Err(PromptError::MissingContextVar(name)) => assert_eq!(name, "name}"),
        other => panic!("{:?}", other),
    }
}

#[test]
fn variables_are_replaced_by_their_text() {
    let context = people();
    assert_eq!(render("{name}", &context).unwrap(), "John");
    assert_eq!(render("{name}{age}", &context).unwrap(), "John18");
    assert_eq!(render("I'm {name}, {age} years old.", &context).unwrap(), "I'm John, 18 years old.");
    assert_eq!(PromptTemplate::new("{name}{age}").unwrap().part_count(), 4);
    assert_eq!(PromptTemplate::new("I'm {name}.").unwrap().part_count(), 3);
}

#[test]
fn text_beyond_ascii_is_kept() {
    assert_eq!(render("h\u{e9}llo {name} \u{2713}", &people()).unwrap(), "h\u{e9}llo John \u{2713}");
    assert_eq!(chars_of("h\u{e9}\u{2713}"), vec!['h', '\u{e9}', '\u{2713}']);
    assert_eq!(chars_of(""), Vec::<char>::new());
}

#[test]
fn unbalanced_braces_are_a_mismatch() {
    for template in ["{", "x{", "}", "a}b", "{a", "{a{b}", "{a}}", "{{{", "{a}{"] {
        assert!(
            matches!(PromptTemplate::new(template), Err(PromptTemplateError::BraceMismatch)),
            "{}",
            template
        );
    }
}

#[test]
fn placeholder_without_name_is_refused() {
    assert!(matches!(PromptTemplate::new("{}"), Err(PromptTemplateError::EmptyVariable)));
    assert!(matches!(PromptTemplate::new("a {} b"), Err(PromptTemplateError::EmptyVariable)));
}

#[test]
fn missing_variable_is_named() {
    let template = PromptTemplate::new("{name} and {nope} and {other}").unwrap();
    match template.render(&people()) {
        Err(PromptError::MissingContextVar(name)) => assert_eq!(name, "nope"),
        other => panic!("{:?}", other),
    }
    let alone = PromptTemplate::new("{x}").unwrap();
    match alone.render(&()) {
        Err(PromptError::MissingContextVar(name)) => assert_eq!(name, "x"),
        other => panic!("{:?}", other),
    }
}

#[test]
fn rendering_twice_gives_the_same_text() {
    let context = people();
    let template = PromptTemplate::new("{name} is {age}").unwrap();
    let first = template.render(&context).unwrap();
    let second = template.render(&context).unwrap();
    assert_eq!(first, second);
    assert_eq!(first.unwrap(), "John is 18");
    let through_trait = Prompt::prompt_str(&template, &context).unwrap();
    assert_eq!(through_trait.unwrap(), "John is 18");
}

#[test]
fn template_node_renders_like_its_template() {
    let node: PromptVariant<DefaultDisplayableContext, fn(&DefaultDisplayableContext) -> bool> =
        PromptVariant::from(PromptTemplate::new("{name}!").unwrap());
    assert_eq!(node.render(&people()).unwrap().unwrap(), "John!");
    let text: PromptVariant<DefaultDisplayableContext, fn(&DefaultDisplayableContext) -> bool> =
        PromptVariant::naive("plain {name}".to_string());
    assert_eq!(text.prompt_str(&people()).unwrap().unwrap(), "plain {name}");
    let owned: PromptVariant<DefaultDisplayableContext, fn(&DefaultDisplayableContext) -> bool> =
        PromptVariant::from("owned".to_string());
    assert_eq!(owned.prompt_str(&people()).unwrap().unwrap(), "owned");
}

#[test]
fn later_value_replaces_the_earlier_one() {
    let mut context = people();
    assert_eq!(context.get("name").unwrap(), "John");
    assert_eq!(context.get("age").unwrap(), "18");
    assert!(context.get("nope").is_none());
    context.insert("name".to_string(), Box::new("Jane".to_string()));
    assert_eq!(context.get("name").unwrap(), "Jane");
    assert_eq!(context.get("age").unwrap(), "18");
    assert_eq!(context.template_var("name"), Some("Jane".to_string()));
    assert_eq!(context.get_displayable("age"), Some("18".to_string()));
    assert_eq!(context.get_displayable("nope"), None);
    assert!(Context::get::<i32>(&context, "age").is_none());
    assert!(Context::get_mut::<i32>(&mut context, "age").is_none());
}

#[test]
fn empty_contexts_hold_nothing() {
    let context = DefaultDisplayableContext::new();
    assert!(context.get("name").is_none());
    assert_eq!(context.template_var("name"), None);
    let mut unit = ();
    assert_eq!(unit.template_var("name"), None);
    assert!(Context::get::<i32>(&unit, "name").is_none());
    assert!(Context::get_mut::<i32>(&mut unit, "name").is_none());
}

#[test]
fn errors_have_their_messages() {
    assert_eq!(PromptTemplateError::BraceMismatch.message(), "Brace Mismatch in prompt template.");
    assert_eq!(PromptTemplateError::EmptyVariable.message(), "Empty variable in prompt template.");
    assert_eq!(
        PromptError::MissingContextVar("age".to_string()).message(),
        "Missing variable in context: age."
    );
    assert_eq!(PromptError::from(PromptTemplateError::BraceMismatch).message(), "Fail to format.");
    assert_eq!(
        IfPromptBuilderError::MissingCondition.message(),
        "Missing If Condition in IfPrompt."
    );
    assert_eq!(IfPromptBuilderError::MissingThen.message(), "Missing Then Block in IfPrompt");
    assert_eq!(
        LoopPromptBuilderError::MissingCondition.message(),
        "Missing Loop Condition in LoopPrompt."
    );
    assert_eq!(LoopPromptBuilderError::MissingPrompt.message(), "Missing Prompt in LoopPrompt");
    assert_eq!(
        ControlPromptBuilderError::from(IfPromptBuilderError::MissingThen).message(),
        "Missing Then Block in IfPrompt"
    );
    assert_eq!(
        ControlPromptBuilderError::from(LoopPromptBuilderError::MissingPrompt).message(),
        "Missing Prompt in LoopPrompt"
    );
}

#[test]
fn numbers_are_written_in_decimal() {
    assert_eq!(decimal(0), "0");
    assert_eq!(decimal(9), "9");
    assert_eq!(decimal(10), "10");
    assert_eq!(decimal(1234567890), "1234567890");
    assert_eq!(decimal(usize::MAX), usize::MAX.to_string());
}

#[test]
fn text_written_through_the_reference_is_what_the_context_holds() {
    let mut context = people();
    context.insert("name".to_string(), Box::new("Jane"));
    assert!(context.text_mut("nope").is_none());
    match context.text_mut("name") {
        Some(text) => {
            assert_eq!(text.as_str(), "Jane");
            text.push_str(" Doe");
        }
        None => panic!("the name is not there"),
    }
    assert_eq!(context.get("name").unwrap(), "Jane Doe");
    assert_eq!(context.get("age").unwrap(), "18");
    assert_eq!(render("{name} is {age}", &context).unwrap(), "Jane Doe is 18");
}
