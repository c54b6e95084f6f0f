//! Branches and loops, and the builders that assemble them.

use vstd::prelude::*;
use std::marker::PhantomData;
use crate::prompt::context::Context;
use crate::prompt::error::{IfPromptBuilderError, PromptError, PromptErrorView};
use crate::prompt::naive::{node_prompt, reads_no_var, NodeView, Prompt, PromptVariant};
use crate::prompt::template::prompt_view;

verus! {

/// A condition is a pure predicate: it can be asked of every context, and
/// a context decides its answer.
pub open spec fn pure_predicate<C, F: Fn(&C) -> bool>(f: F) -> bool {
    &&& forall|c: &C| #[trigger] f.requires((c,))
    &&& forall|c: &C| !(#[trigger] f.ensures((c,), true) && f.ensures((c,), false))
}

/// The predicate that a condition computes.
pub open spec fn predicate_of<C, F: Fn(&C) -> bool>(f: F) -> spec_fn(C) -> bool {
    |c: C| f.ensures((&c,), true)
}

/// The mathematical value of a branch.
#[verifier::reject_recursive_types(C)]
pub struct IfView<C> {
    pub condition: spec_fn(C) -> bool,
    pub then_branch: NodeView<C>,
    pub otherwise: Option<NodeView<C>>,
}

/// The mathematical value of a loop.
#[verifier::reject_recursive_types(C)]
pub struct LoopView<C> {
    pub condition: spec_fn(C) -> bool,
    pub body: NodeView<C>,
}

/// A branch: `then_branch` when the condition holds, else `otherwise` if
/// there is one.
pub struct IfPrompt<C, F: Fn(&C) -> bool> {
    then_branch: PromptVariant<C, F>,
    otherwise: Option<PromptVariant<C, F>>,
    condition: F,
    marker: PhantomData<C>,
}

impl<C, F: Fn(&C) -> bool> View for IfPrompt<C, F> {
    type V = IfView<C>;

    open spec fn view(&self) -> IfView<C> {
        self.model()
    }
}

impl<C, F: Fn(&C) -> bool> IfPrompt<C, F> {
    /// The branch that this value stands for.
    pub closed spec fn model(&self) -> IfView<C>
        decreases self,
    {
        IfView {
            condition: predicate_of::<C, F>(self.condition),
            then_branch: self.then_branch.model(),
            otherwise: match self.otherwise {
                Some(o) => Some(o.model()),
                None => None,
            },
        }
    }

    #[verifier::type_invariant]
    spec fn pure(&self) -> bool {
        pure_predicate::<C, F>(self.condition)
    }

    /// The condition of this branch, as it was given.
    pub closed spec fn condition_fn(&self) -> F {
        self.condition
    }

    /// A branch from its parts.
    pub fn new(then: PromptVariant<C, F>, otherwise: Option<PromptVariant<C, F>>, condition: F) -> (r:
        Self)
        requires
            pure_predicate::<C, F>(condition),
        ensures
            r@.then_branch == then@,
            r@.otherwise == (match otherwise {
                Some(o) => Some(o@),
                None => None,
            }),
            r@.condition == predicate_of::<C, F>(condition),
            r.condition_fn() == condition,
    {
        IfPrompt { then_branch: then, otherwise, condition, marker: PhantomData }
    }

    /// The node taken when the condition holds.
    pub fn get_then(&self) -> (r: &PromptVariant<C, F>)
        ensures
            r@ == self@.then_branch,
    {
        &self.then_branch
    }

    /// The node taken when the condition fails, if there is one.
    pub fn get_otherwise(&self) -> (r: Option<&PromptVariant<C, F>>)
        ensures
            match self@.otherwise {
                Some(o) => r matches Some(n) && n@ == o,
                None => r is None,
            },
    {
        self.otherwise.as_ref()
    }

    /// The condition.
    pub fn get_condition(&self) -> (r: &F)
        ensures
            *r == self.condition_fn(),
            predicate_of::<C, F>(*r) == self@.condition,
            pure_predicate::<C, F>(*r),
    {
        proof {
            use_type_invariant(self);
        }
        &self.condition
    }

    /// Asks the condition of `context`.
    pub fn test(&self, context: &C) -> (r: bool)
        ensures
            r == (self@.condition)(*context),
    {
        proof {
            use_type_invariant(self);
        }
        (self.condition)(context)
    }
}

/// A loop: `body` while the condition holds.
pub struct LoopPrompt<C, F: Fn(&C) -> bool> {
    prompt: PromptVariant<C, F>,
    condition: F,
    marker: PhantomData<C>,
}

impl<C, F: Fn(&C) -> bool> View for LoopPrompt<C, F> {
    type V = LoopView<C>;

    open spec fn view(&self) -> LoopView<C> {
        self.model()
    }
}

impl<C, F: Fn(&C) -> bool> LoopPrompt<C, F> {
    /// The loop that this value stands for.
    pub closed spec fn model(&self) -> LoopView<C>
        decreases self,
    {
        LoopView { condition: predicate_of::<C, F>(self.condition), body: self.prompt.model() }
    }

    #[verifier::type_invariant]
    spec fn pure(&self) -> bool {
        pure_predicate::<C, F>(self.condition)
    }

    /// The condition of this loop, as it was given.
    pub closed spec fn condition_fn(&self) -> F {
        self.condition
    }

    /// A loop from its parts.
    pub fn new(prompt: PromptVariant<C, F>, condition: F) -> (r: Self)
        requires
            pure_predicate::<C, F>(condition),
        ensures
            r@.body == prompt@,
            r@.condition == predicate_of::<C, F>(condition),
            r.condition_fn() == condition,
    {
        LoopPrompt { prompt, condition, marker: PhantomData }
    }

    /// The body.
    pub fn get_prompt(&self) -> (r: &PromptVariant<C, F>)
        ensures
            r@ == self@.body,
    {
        &self.prompt
    }

    /// The condition.
    pub fn get_condition(&self) -> (r: &F)
        ensures
            *r == self.condition_fn(),
            predicate_of::<C, F>(*r) == self@.condition,
            pure_predicate::<C, F>(*r),
    {
        proof {
            use_type_invariant(self);
        }
        &self.condition
    }

    /// Asks the condition of `context`.
    pub fn test(&self, context: &C) -> (r: bool)
        ensures
            r == (self@.condition)(*context),
    {
        proof {
            use_type_invariant(self);
        }
        (self.condition)(context)
    }
}

impl<C: Context, F: Fn(&C) -> bool> Prompt<C> for IfPrompt<C, F> {
    open spec fn prompt_spec(&self, context: &C) -> Result<Option<Seq<char>>, PromptErrorView> {
        node_prompt(NodeView::If(Box::new(self@)), context)
    }

    open spec fn asks_no_var(&self, context: &C) -> bool {
        reads_no_var(NodeView::If(Box::new(self@)), context)
    }

    fn prompt_str(&self, context: &C) -> (r: Result<Option<String>, PromptError>) {
        if self.test(context) {
            self.get_then().render(context)
        } else {
            match self.get_otherwise() {
                Some(o) => o.render(context),
                None => Ok(None),
            }
        }
    }
}

impl<C: Context, F: Fn(&C) -> bool> Prompt<C> for LoopPrompt<C, F> {
    open spec fn prompt_spec(&self, context: &C) -> Result<Option<Seq<char>>, PromptErrorView> {
        node_prompt(NodeView::Loop(Box::new(self@)), context)
    }

    open spec fn asks_no_var(&self, context: &C) -> bool {
        reads_no_var(NodeView::Loop(Box::new(self@)), context)
    }

    fn prompt_str(&self, context: &C) -> (r: Result<Option<String>, PromptError>) {
        self.get_prompt().render(context)
    }
}

/// What an `If` builder holds so far.
#[verifier::reject_recursive_types(C)]
pub struct IfBuilderView<C> {
    pub then_branch: Option<NodeView<C>>,
    pub otherwise: Option<NodeView<C>>,
    pub condition: Option<spec_fn(C) -> bool>,
}

/// Collects the pieces of a branch.
pub struct IfPromptBuilder<C, F: Fn(&C) -> bool> {
    then_branch: Option<PromptVariant<C, F>>,
    otherwise: Option<PromptVariant<C, F>>,
    condition: Option<F>,
    marker: PhantomData<C>,
}

impl<C, F: Fn(&C) -> bool> View for IfPromptBuilder<C, F> {
    type V = IfBuilderView<C>;

    closed spec fn view(&self) -> IfBuilderView<C> {
        IfBuilderView {
            then_branch: match self.then_branch {
                Some(n) => Some(n@),
                None => None,
            },
            otherwise: match self.otherwise {
                Some(n) => Some(n@),
                None => None,
            },
            condition: match self.condition {
                Some(f) => Some(predicate_of::<C, F>(f)),
                None => None,
            },
        }
    }
}

impl<C, F: Fn(&C) -> bool> IfPromptBuilder<C, F> {
    #[verifier::type_invariant]
    spec fn pure(&self) -> bool {
        self.condition matches Some(f) ==> pure_predicate::<C, F>(f)
    }

    /// A builder that holds nothing yet.
    pub fn new() -> (r: Self)
        ensures
            r@ == (IfBuilderView::<C> { then_branch: None, otherwise: None, condition: None }),
    {
        IfPromptBuilder { then_branch: None, otherwise: None, condition: None, marker: PhantomData }
    }

    /// The branch, if the builder holds a condition and a `then` node;
    /// else what is missing, the condition first.
    pub fn build(self) -> (r: Result<IfPrompt<C, F>, IfPromptBuilderError>)
        ensures
            match (self@.condition, self@.then_branch) {
                (None, _) => r matches Err(e) && e == IfPromptBuilderError::MissingCondition,
                (Some(_), None) => r matches Err(e) && e == IfPromptBuilderError::MissingThen,
                (Some(c), Some(t)) => r matches Ok(p) && p@ == (IfView {
                    condition: c,
                    then_branch: t,
                    otherwise: self@.otherwise,
                }),
            },
    {
        proof {
            use_type_invariant(&self);
        }
        match self.condition {
            None => Err(IfPromptBuilderError::MissingCondition),
            Some(condition) => match self.then_branch {
                None => Err(IfPromptBuilderError::MissingThen),
                Some(then_branch) => Ok(
                    IfPrompt { then_branch, otherwise: self.otherwise, condition, marker: PhantomData },
                ),
            },
        }
    }

    /// Sets the node taken when the condition holds.
    pub fn then(self, then: PromptVariant<C, F>) -> (r: Self)
        ensures
            r@ == (IfBuilderView { then_branch: Some(then@), ..self@ }),
    {
        proof {
            use_type_invariant(&self);
        }
        IfPromptBuilder {
            then_branch: Some(then),
            otherwise: self.otherwise,
            condition: self.condition,
            marker: PhantomData,
        }
    }

    /// Sets the node taken when the condition fails.
    pub fn otherwise(self, otherwise: PromptVariant<C, F>) -> (r: Self)
        ensures
            r@ == (IfBuilderView { otherwise: Some(otherwise@), ..self@ }),
    {
        proof {
            use_type_invariant(&self);
        }
        IfPromptBuilder {
            then_branch: self.then_branch,
            otherwise: Some(otherwise),
            condition: self.condition,
            marker: PhantomData,
        }
    }

    /// Sets the condition.
    pub fn condition(self, condition: F) -> (r: Self)
        requires
            pure_predicate::<C, F>(condition),
        ensures
            r@ == (IfBuilderView { condition: Some(predicate_of::<C, F>(condition)), ..self@ }),
    {
        IfPromptBuilder {
            then_branch: self.then_branch,
            otherwise: self.otherwise,
            condition: Some(condition),
            marker: PhantomData,
        }
    }
}

/// What a `Loop` builder holds so far.
#[verifier::reject_recursive_types(C)]
pub struct LoopBuilderView<C> {
    pub body: Option<NodeView<C>>,
    pub condition: Option<spec_fn(C) -> bool>,
}

/// Collects the pieces of a loop.
pub struct LoopPromptBuilder<C, F: Fn(&C) -> bool> {
    prompt: Option<PromptVariant<C, F>>,
    condition: Option<F>,
    marker: PhantomData<C>,
}

impl<C, F: Fn(&C) -> bool> View for LoopPromptBuilder<C, F> {
    type V = LoopBuilderView<C>;

    closed spec fn view(&self) -> LoopBuilderView<C> {
        LoopBuilderView {
            body: match self.prompt {
                Some(n) => Some(n@),
                None => None,
            },
            condition: match self.condition {
                Some(f) => Some(predicate_of::<C, F>(f)),
                None => None,
            },
        }
    }
}

impl<C, F: Fn(&C) -> bool> LoopPromptBuilder<C, F> {
    #[verifier::type_invariant]
    spec fn pure(&self) -> bool {
        self.condition matches Some(f) ==> pure_predicate::<C, F>(f)
    }

    /// A builder that holds nothing yet.
    pub fn new() -> (r: Self)
        ensures
            r@ == (LoopBuilderView::<C> { body: None, condition: None }),
    {
        LoopPromptBuilder { prompt: None, condition: None, marker: PhantomData }
    }

    /// The loop, if the builder holds a condition and a body; else what is
    /// missing, the condition first. A missing body is reported as
    /// `MissingThen`.
    pub fn build(self) -> (r: Result<LoopPrompt<C, F>, IfPromptBuilderError>)
        ensures
            match (self@.condition, self@.body) {
                (None, _) => r matches Err(e) && e == IfPromptBuilderError::MissingCondition,
                (Some(_), None) => r matches Err(e) && e == IfPromptBuilderError::MissingThen,
                (Some(c), Some(b)) => r matches Ok(p) && p@ == (LoopView { condition: c, body: b }),
            },
    {
        proof {
            use_type_invariant(&self);
        }
        match self.condition {
            None => Err(IfPromptBuilderError::MissingCondition),
            Some(condition) => match self.prompt {
                None => Err(IfPromptBuilderError::MissingThen),
                Some(prompt) => Ok(LoopPrompt { prompt, condition, marker: PhantomData }),
            },
        }
    }

    /// Sets the body.
    pub fn prompt(self, prompt: PromptVariant<C, F>) -> (r: Self)
        ensures
            r@ == (LoopBuilderView { body: Some(prompt@), ..self@ }),
    {
        proof {
            use_type_invariant(&self);
        }
        LoopPromptBuilder { prompt: Some(prompt), condition: self.condition, marker: PhantomData }
    }

    /// Sets the condition.
    pub fn condition(self, condition: F) -> (r: Self)
        requires
            pure_predicate::<C, F>(condition),
        ensures
            r@ == (LoopBuilderView { condition: Some(predicate_of::<C, F>(condition)), ..self@ }),
    {
        LoopPromptBuilder { prompt: self.prompt, condition: Some(condition), marker: PhantomData }
    }
}

} // verus!
