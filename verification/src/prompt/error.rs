//! Errors of template parsing, prompt rendering and node builders.

use vstd::prelude::*;
use vstd::string::*;

verus! {

/// Why a template string could not be split into parts.
#[derive(Debug, Clone, Copy, PartialEq, Eq, Structural)]
pub enum PromptTemplateError {
    /// A brace opens inside a placeholder, closes outside one, or a
    /// placeholder is still open at the end of the string.
    BraceMismatch,
    /// A placeholder holds no name.
    EmptyVariable,
}

/// Why a prompt could not be turned into text.
#[derive(Debug)]
pub enum PromptError {
    /// The named variable is not in the context.
    MissingContextVar(String),
    /// The template itself is malformed.
    FailToFormatTemplate(PromptTemplateError),
}

/// The mathematical value of a [`PromptError`].
pub enum PromptErrorView {
    MissingContextVar(Seq<char>),
    FailToFormatTemplate(PromptTemplateError),
}

impl View for PromptError {
    type V = PromptErrorView;

    open spec fn view(&self) -> PromptErrorView {
        match self {
            PromptError::MissingContextVar(name) => PromptErrorView::MissingContextVar(name@),
            PromptError::FailToFormatTemplate(e) => PromptErrorView::FailToFormatTemplate(*e),
        }
    }
}

/// What an `If` builder lacks.
#[derive(Debug, Clone, Copy, PartialEq, Eq, Structural)]
pub enum IfPromptBuilderError {
    MissingCondition,
    MissingThen,
}

/// What a `Loop` builder lacks.
#[derive(Debug, Clone, Copy, PartialEq, Eq, Structural)]
pub enum LoopPromptBuilderError {
    MissingCondition,
    MissingPrompt,
}

/// A failure of either control-node builder.
#[derive(Debug, Clone, Copy, PartialEq, Eq, Structural)]
pub enum ControlPromptBuilderError {
    If(IfPromptBuilderError),
    Loop(LoopPromptBuilderError),
}

impl PromptTemplateError {
    /// The text shown for this error.
    pub open spec fn message_spec(&self) -> Seq<char> {
        match self {
            PromptTemplateError::BraceMismatch => "Brace Mismatch in prompt template."@,
            PromptTemplateError::EmptyVariable => "Empty variable in prompt template."@,
        }
    }

    /// The text shown for this error.
    pub fn message(&self) -> (r: String)
        ensures
            r@ == self.message_spec(),
    {
        match self {
            PromptTemplateError::BraceMismatch => String::from_str(
                "Brace Mismatch in prompt template.",
            ),
            PromptTemplateError::EmptyVariable => String::from_str(
                "Empty variable in prompt template.",
            ),
        }
    }
}

impl PromptError {
    /// The text shown for this error.
    pub open spec fn message_spec(&self) -> Seq<char> {
        match self {
            PromptError::MissingContextVar(name) => "Missing variable in context: "@ + name@
                + "."@,
            PromptError::FailToFormatTemplate(_) => "Fail to format."@,
        }
    }

    /// The text shown for this error.
    pub fn message(&self) -> (r: String)
        ensures
            r@ == self.message_spec(),
    {
        match self {
            PromptError::MissingContextVar(name) => {
                String::from_str("Missing variable in context: ").concat(name.as_str()).concat(".")
            },
            PromptError::FailToFormatTemplate(_) => String::from_str("Fail to format."),
        }
    }
}

impl IfPromptBuilderError {
    /// The text shown for this error.
    pub open spec fn message_spec(&self) -> Seq<char> {
        match self {
            IfPromptBuilderError::MissingCondition => "Missing If Condition in IfPrompt."@,
            IfPromptBuilderError::MissingThen => "Missing Then Block in IfPrompt"@,
        }
    }

    /// The text shown for this error.
    pub fn message(&self) -> (r: String)
        ensures
            r@ == self.message_spec(),
    {
        match self {
            IfPromptBuilderError::MissingCondition => String::from_str(
                "Missing If Condition in IfPrompt.",
            ),
            IfPromptBuilderError::MissingThen => String::from_str("Missing Then Block in IfPrompt"),
        }
    }
}

impl LoopPromptBuilderError {
    /// The text shown for this error.
    pub open spec fn message_spec(&self) -> Seq<char> {
        match self {
            LoopPromptBuilderError::MissingCondition => "Missing Loop Condition in LoopPrompt."@,
            LoopPromptBuilderError::MissingPrompt => "Missing Prompt in LoopPrompt"@,
        }
    }

    /// The text shown for this error.
    pub fn message(&self) -> (r: String)
        ensures
            r@ == self.message_spec(),
    {
        match self {
            LoopPromptBuilderError::MissingCondition => String::from_str(
                "Missing Loop Condition in LoopPrompt.",
            ),
            LoopPromptBuilderError::MissingPrompt => String::from_str(
                "Missing Prompt in LoopPrompt",
            ),
        }
    }
}

impl ControlPromptBuilderError {
    /// The text shown for this error: that of the builder error inside.
    pub open spec fn message_spec(&self) -> Seq<char> {
        match self {
            ControlPromptBuilderError::If(e) => e.message_spec(),
            ControlPromptBuilderError::Loop(e) => e.message_spec(),
        }
    }

    /// The text shown for this error.
    pub fn message(&self) -> (r: String)
        ensures
            r@ == self.message_spec(),
    {
        match self {
            ControlPromptBuilderError::If(e) => e.message(),
            ControlPromptBuilderError::Loop(e) => e.message(),
        }
    }
}

impl From<PromptTemplateError> for PromptError {
    fn from(e: PromptTemplateError) -> (r: PromptError) {
        PromptError::FailToFormatTemplate(e)
    }
}

impl vstd::std_specs::convert::FromSpecImpl<PromptTemplateError> for PromptError {
    open spec fn obeys_from_spec() -> bool {
        true
    }

    open spec fn from_spec(e: PromptTemplateError) -> PromptError {
        PromptError::FailToFormatTemplate(e)
    }
}

impl From<IfPromptBuilderError> for ControlPromptBuilderError {
    fn from(e: IfPromptBuilderError) -> (r: ControlPromptBuilderError) {
        ControlPromptBuilderError::If(e)
    }
}

impl vstd::std_specs::convert::FromSpecImpl<IfPromptBuilderError> for ControlPromptBuilderError {
    open spec fn obeys_from_spec() -> bool {
        true
    }

    open spec fn from_spec(e: IfPromptBuilderError) -> ControlPromptBuilderError {
        ControlPromptBuilderError::If(e)
    }
}

impl From<LoopPromptBuilderError> for ControlPromptBuilderError {
    fn from(e: LoopPromptBuilderError) -> (r: ControlPromptBuilderError) {
        ControlPromptBuilderError::Loop(e)
    }
}

impl vstd::std_specs::convert::FromSpecImpl<LoopPromptBuilderError> for ControlPromptBuilderError {
    open spec fn obeys_from_spec() -> bool {
        true
    }

    open spec fn from_spec(e: LoopPromptBuilderError) -> ControlPromptBuilderError {
        ControlPromptBuilderError::Loop(e)
    }
}

} // verus!
