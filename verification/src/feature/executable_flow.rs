//! Chains whose leaves are bindings: each leaf comes with its decoder and
//! its candidate models, and the cursor hands out the binding to execute.

use vstd::prelude::*;
use crate::feature::executable::PromptExecutableWithModel;
use crate::prompt::control::{predicate_of, pure_predicate};
use crate::prompt::error::{IfPromptBuilderError, LoopPromptBuilderError};

verus! {

/// The mathematical value of a tree with leaves of type `L`: its
/// conditions are predicates over the context.
#[verifier::reject_recursive_types(C)]
pub enum BoundNodeView<C, L> {
    Direct(L),
    If(Box<BoundIfView<C, L>>),
    Loop(Box<BoundLoopView<C, L>>),
}

/// The mathematical value of a branch.
#[verifier::reject_recursive_types(C)]
pub struct BoundIfView<C, L> {
    pub condition: spec_fn(C) -> bool,
    pub then_branch: BoundNodeView<C, L>,
    pub otherwise: Option<BoundNodeView<C, L>>,
}

/// The mathematical value of a loop.
#[verifier::reject_recursive_types(C)]
pub struct BoundLoopView<C, L> {
    pub condition: spec_fn(C) -> bool,
    pub body: BoundNodeView<C, L>,
}

impl<C, L> BoundNodeView<C, L> {
    /// The leaf that this node stands for in `context`, if any: a branch
    /// stands for what its chosen side stands for, a loop for what its body
    /// stands for while its condition holds.
    pub open spec fn resolve(self, context: &C) -> Option<L>
        decreases self,
    {
        match self {
            BoundNodeView::Direct(leaf) => Some(leaf),
            BoundNodeView::If(p) => if (p.condition)(*context) {
                p.then_branch.resolve(context)
            } else {
                match p.otherwise {
                    Some(o) => o.resolve(context),
                    None => None,
                }
            },
            BoundNodeView::Loop(p) => if (p.condition)(*context) {
                p.body.resolve(context)
            } else {
                None
            },
        }
    }

    /// Whether the walk down from this node in `context` enters a loop
    /// whose condition holds.
    pub open spec fn enters_loop(self, context: &C) -> bool
        decreases self,
    {
        match self {
            BoundNodeView::Direct(_) => false,
            BoundNodeView::If(p) => if (p.condition)(*context) {
                p.then_branch.enters_loop(context)
            } else {
                match p.otherwise {
                    Some(o) => o.enters_loop(context),
                    None => false,
                }
            },
            BoundNodeView::Loop(p) => (p.condition)(*context),
        }
    }
}

/// The leaf that a call at position `from` yields in `context`, and the
/// position after the call. Where the walk down from the node at the
/// cursor enters a loop whose condition holds, the cursor stays and the
/// call yields what the walk found, if anything. Else a leaf is yielded
/// and its node passed, or the node is passed without a leaf and the same
/// call goes on with the next node, until the chain ends.
pub open spec fn next_bound_leaf<C, L>(chain: Seq<BoundNodeView<C, L>>, from: int, context: &C) -> (
    Option<L>,
    int,
)
    decreases chain.len() - from,
{
    if from < 0 || from >= chain.len() {
        (None, from)
    } else if chain[from].enters_loop(context) {
        (chain[from].resolve(context), from)
    } else {
        match chain[from].resolve(context) {
            Some(leaf) => (Some(leaf), from + 1),
            None => next_bound_leaf(chain, from + 1, context),
        }
    }
}

/// A call never moves the cursor back nor past the end. A call that
/// yields nothing leaves the cursor at the end of the chain or on a node
/// whose loop holds in that context.
pub proof fn lemma_next_bound_leaf_bounds<C, L>(
    chain: Seq<BoundNodeView<C, L>>,
    from: int,
    context: &C,
)
    requires
        0 <= from <= chain.len(),
    ensures
        from <= next_bound_leaf(chain, from, context).1 <= chain.len(),
        next_bound_leaf(chain, from, context).0 is None ==> next_bound_leaf(
            chain,
            from,
            context,
        ).1 == chain.len() || chain[next_bound_leaf(chain, from, context).1].enters_loop(
            context,
        ),
    decreases chain.len() - from,
{
    if from < chain.len() && !chain[from].enters_loop(context) && chain[from].resolve(context)
        is None {
        lemma_next_bound_leaf_bounds(chain, from + 1, context);
    }
}

/// One node of a chain of bindings.
pub enum ExecutablePromptVariant<'a, C, F: Fn(&C) -> bool, P> {
    /// A leaf with its decoder and models.
    Direct(PromptExecutableWithModel<'a, C, F, P>),
    /// A branch on a condition.
    If(Box<ExecutableIfPrompt<'a, C, F, P>>),
    /// A body that is offered while a condition holds.
    Loop(Box<ExecutableLoopPrompt<'a, C, F, P>>),
}

impl<'a, C, F: Fn(&C) -> bool, P> ExecutablePromptVariant<'a, C, F, P> {
    /// The tree that this node stands for.
    pub open spec fn model(&self) -> BoundNodeView<C, PromptExecutableWithModel<'a, C, F, P>>
        decreases self,
    {
        match self {
            ExecutablePromptVariant::Direct(binding) => BoundNodeView::Direct(*binding),
            ExecutablePromptVariant::If(p) => BoundNodeView::If(Box::new(p.model())),
            ExecutablePromptVariant::Loop(p) => BoundNodeView::Loop(Box::new(p.model())),
        }
    }

    /// Walks down from this node, evaluating each condition on the way in
    /// `context`: gives the binding that the node stands for now, and
    /// whether the walk entered a loop whose condition holds.
    pub fn descend(&self, context: &C) -> (r: (
        Option<&PromptExecutableWithModel<'a, C, F, P>>,
        bool,
    ))
        ensures
            r.1 == self@.enters_loop(context),
            match self@.resolve(context) {
                Some(leaf) => r.0 matches Some(b) && *b == leaf,
                None => r.0 is None,
            },
    {
        let mut cur = self;
        let mut held = false;
        loop
            invariant
                cur@.resolve(context) == self@.resolve(context),
                self@.enters_loop(context) == (held || cur@.enters_loop(context)),
            decreases cur@,
        {
            match cur {
                ExecutablePromptVariant::Direct(binding) => {
                    return (Some(binding), held);
                },
                ExecutablePromptVariant::If(p) => {
                    if p.test(context) {
                        cur = p.get_then();
                    } else {
                        match p.get_otherwise() {
                            Some(o) => {
                                cur = o;
                            },
                            None => {
                                return (None, held);
                            },
                        }
                    }
                },
                ExecutablePromptVariant::Loop(p) => {
                    if p.test(context) {
                        held = true;
                        cur = p.get_prompt();
                    } else {
                        return (None, held);
                    }
                },
            }
        }
    }

    /// Walks down from this node, evaluating each condition on the way in
    /// `context`, to the binding that the node stands for now.
    pub fn resolve(&self, context: &C) -> (r: Option<&PromptExecutableWithModel<'a, C, F, P>>)
        ensures
            match self@.resolve(context) {
                Some(leaf) => r matches Some(b) && *b == leaf,
                None => r is None,
            },
    {
        let mut cur = self;
        loop
            invariant
                cur@.resolve(context) == self@.resolve(context),
            decreases cur@,
        {
            match cur {
                ExecutablePromptVariant::Direct(binding) => {
                    return Some(binding);
                },
                ExecutablePromptVariant::If(p) => {
                    if p.test(context) {
                        cur = p.get_then();
                    } else {
                        match p.get_otherwise() {
                            Some(o) => {
                                cur = o;
                            },
                            None => {
                                return None;
                            },
                        }
                    }
                },
                ExecutablePromptVariant::Loop(p) => {
                    if p.test(context) {
                        cur = p.get_prompt();
                    } else {
                        return None;
                    }
                },
            }
        }
    }
}

impl<'a, C, F: Fn(&C) -> bool, P> View for ExecutablePromptVariant<'a, C, F, P> {
    type V = BoundNodeView<C, PromptExecutableWithModel<'a, C, F, P>>;

    open spec fn view(&self) -> Self::V {
        self.model()
    }
}

/// A branch between nodes of a chain of bindings.
pub struct ExecutableIfPrompt<'a, C, F: Fn(&C) -> bool, P> {
    condition: F,
    then_branch: ExecutablePromptVariant<'a, C, F, P>,
    otherwise: Option<ExecutablePromptVariant<'a, C, F, P>>,
}

impl<'a, C, F: Fn(&C) -> bool, P> View for ExecutableIfPrompt<'a, C, F, P> {
    type V = BoundIfView<C, PromptExecutableWithModel<'a, C, F, P>>;

    open spec fn view(&self) -> Self::V {
        self.model()
    }
}

impl<'a, C, F: Fn(&C) -> bool, P> ExecutableIfPrompt<'a, C, F, P> {
    /// The branch that this value stands for.
    pub closed spec fn model(&self) -> BoundIfView<C, PromptExecutableWithModel<'a, C, F, P>>
        decreases self,
    {
        BoundIfView {
            condition: predicate_of::<C, F>(self.condition),
            then_branch: self.then_branch.model(),
            otherwise: match self.otherwise {
                Some(o) => Some(o.model()),
                None => None,
            },
        }
    }

    #[verifier::type_invariant]
    spec fn pure(&self) -> bool {
        pure_predicate::<C, F>(self.condition)
    }

    /// A branch from its parts.
    pub fn new(
        condition: F,
        then: ExecutablePromptVariant<'a, C, F, P>,
        otherwise: Option<ExecutablePromptVariant<'a, C, F, P>>,
    ) -> (r: Self)
        requires
            pure_predicate::<C, F>(condition),
        ensures
            r@ == (BoundIfView {
                condition: predicate_of::<C, F>(condition),
                then_branch: then@,
                otherwise: match otherwise {
                    Some(o) => Some(o@),
                    None => None,
                },
            }),
    {
        ExecutableIfPrompt { condition, then_branch: then, otherwise }
    }

    /// The node taken when the condition holds.
    pub fn get_then(&self) -> (r: &ExecutablePromptVariant<'a, C, F, P>)
        ensures
            r@ == self@.then_branch,
    {
        &self.then_branch
    }

    /// The node taken when the condition fails, if there is one.
    pub fn get_otherwise(&self) -> (r: Option<&ExecutablePromptVariant<'a, C, F, P>>)
        ensures
            match self@.otherwise {
                Some(o) => r matches Some(n) && n@ == o,
                None => r is None,
            },
    {
        self.otherwise.as_ref()
    }

    /// The condition.
    pub fn get_condition(&self) -> (r: &F)
        ensures
            predicate_of::<C, F>(*r) == self@.condition,
            pure_predicate::<C, F>(*r),
    {
        proof {
            use_type_invariant(self);
        }
        &self.condition
    }

    /// Asks the condition of `context`.
    pub fn test(&self, context: &C) -> (r: bool)
        ensures
            r == (self@.condition)(*context),
    {
        proof {
            use_type_invariant(self);
        }
        (self.condition)(context)
    }
}

/// A loop over a node of a chain of bindings.
pub struct ExecutableLoopPrompt<'a, C, F: Fn(&C) -> bool, P> {
    condition: F,
    prompt: ExecutablePromptVariant<'a, C, F, P>,
}

impl<'a, C, F: Fn(&C) -> bool, P> View for ExecutableLoopPrompt<'a, C, F, P> {
    type V = BoundLoopView<C, PromptExecutableWithModel<'a, C, F, P>>;

    open spec fn view(&self) -> Self::V {
        self.model()
    }
}

impl<'a, C, F: Fn(&C) -> bool, P> ExecutableLoopPrompt<'a, C, F, P> {
    /// The loop that this value stands for.
    pub closed spec fn model(&self) -> BoundLoopView<C, PromptExecutableWithModel<'a, C, F, P>>
        decreases self,
    {
        BoundLoopView {
            condition: predicate_of::<C, F>(self.condition),
            body: self.prompt.model(),
        }
    }

    #[verifier::type_invariant]
    spec fn pure(&self) -> bool {
        pure_predicate::<C, F>(self.condition)
    }

    /// A loop from its parts.
    pub fn new(condition: F, prompt: ExecutablePromptVariant<'a, C, F, P>) -> (r: Self)
        requires
            pure_predicate::<C, F>(condition),
        ensures
            r@ == (BoundLoopView { condition: predicate_of::<C, F>(condition), body: prompt@ }),
    {
        ExecutableLoopPrompt { condition, prompt }
    }

    /// The body.
    pub fn get_prompt(&self) -> (r: &ExecutablePromptVariant<'a, C, F, P>)
        ensures
            r@ == self@.body,
    {
        &self.prompt
    }

    /// The condition.
    pub fn get_condition(&self) -> (r: &F)
        ensures
            predicate_of::<C, F>(*r) == self@.condition,
            pure_predicate::<C, F>(*r),
    {
        proof {
            use_type_invariant(self);
        }
        &self.condition
    }

    /// Asks the condition of `context`.
    pub fn test(&self, context: &C) -> (r: bool)
        ensures
            r == (self@.condition)(*context),
    {
        proof {
            use_type_invariant(self);
        }
        (self.condition)(context)
    }
}

impl<'a, C, F: Fn(&C) -> bool, P> From<PromptExecutableWithModel<'a, C, F, P>> for ExecutablePromptVariant<'a, C, F, P> {
    fn from(prompt: PromptExecutableWithModel<'a, C, F, P>) -> (r: Self) {
        ExecutablePromptVariant::Direct(prompt)
    }
}

impl<'a, C, F: Fn(&C) -> bool, P> vstd::std_specs::convert::FromSpecImpl<PromptExecutableWithModel<'a, C, F, P>> for ExecutablePromptVariant<'a, C, F, P> {
    open spec fn obeys_from_spec() -> bool {
        true
    }

    open spec fn from_spec(prompt: PromptExecutableWithModel<'a, C, F, P>) -> Self {
        ExecutablePromptVariant::Direct(prompt)
    }
}

impl<'a, C, F: Fn(&C) -> bool, P> From<ExecutableIfPrompt<'a, C, F, P>> for ExecutablePromptVariant<'a, C, F, P> {
    fn from(if_prompt: ExecutableIfPrompt<'a, C, F, P>) -> (r: Self) {
        ExecutablePromptVariant::If(Box::new(if_prompt))
    }
}

impl<'a, C, F: Fn(&C) -> bool, P> vstd::std_specs::convert::FromSpecImpl<ExecutableIfPrompt<'a, C, F, P>> for ExecutablePromptVariant<'a, C, F, P> {
    open spec fn obeys_from_spec() -> bool {
        true
    }

    open spec fn from_spec(if_prompt: ExecutableIfPrompt<'a, C, F, P>) -> Self {
        ExecutablePromptVariant::If(Box::new(if_prompt))
    }
}

impl<'a, C, F: Fn(&C) -> bool, P> From<ExecutableLoopPrompt<'a, C, F, P>> for ExecutablePromptVariant<'a, C, F, P> {
    fn from(loop_prompt: ExecutableLoopPrompt<'a, C, F, P>) -> (r: Self) {
        ExecutablePromptVariant::Loop(Box::new(loop_prompt))
    }
}

impl<'a, C, F: Fn(&C) -> bool, P> vstd::std_specs::convert::FromSpecImpl<ExecutableLoopPrompt<'a, C, F, P>> for ExecutablePromptVariant<'a, C, F, P> {
    open spec fn obeys_from_spec() -> bool {
        true
    }

    open spec fn from_spec(loop_prompt: ExecutableLoopPrompt<'a, C, F, P>) -> Self {
        ExecutablePromptVariant::Loop(Box::new(loop_prompt))
    }
}

/// What a builder of a branch holds so far.
#[verifier::reject_recursive_types(C)]
pub struct BoundIfBuilderView<C, L> {
    pub then_branch: Option<BoundNodeView<C, L>>,
    pub otherwise: Option<BoundNodeView<C, L>>,
    pub condition: Option<spec_fn(C) -> bool>,
}

/// Collects the pieces of a branch.
pub struct ExecutableIfPromptBuilder<'a, C, F: Fn(&C) -> bool, P> {
    then_branch: Option<ExecutablePromptVariant<'a, C, F, P>>,
    otherwise: Option<ExecutablePromptVariant<'a, C, F, P>>,
    condition: Option<F>,
}

impl<'a, C, F: Fn(&C) -> bool, P> View for ExecutableIfPromptBuilder<'a, C, F, P> {
    type V = BoundIfBuilderView<C, PromptExecutableWithModel<'a, C, F, P>>;

    closed spec fn view(&self) -> Self::V {
        BoundIfBuilderView {
            then_branch: match self.then_branch {
                Some(n) => Some(n@),
                None => None,
            },
            otherwise: match self.otherwise {
                Some(n) => Some(n@),
                None => None,
            },
            condition: match self.condition {
                Some(f) => Some(predicate_of::<C, F>(f)),
                None => None,
            },
        }
    }
}

impl<'a, C, F: Fn(&C) -> bool, P> ExecutableIfPromptBuilder<'a, C, F, P> {
    #[verifier::type_invariant]
    spec fn pure(&self) -> bool {
        self.condition matches Some(f) ==> pure_predicate::<C, F>(f)
    }

    /// A builder that holds nothing yet.
    pub fn new() -> (r: Self)
        ensures
            r@ == (BoundIfBuilderView::<C, PromptExecutableWithModel<'a, C, F, P>> {
                then_branch: None,
                otherwise: None,
                condition: None,
            }),
    {
        ExecutableIfPromptBuilder { then_branch: None, otherwise: None, condition: None }
    }

    /// The branch, if the builder holds a condition and a `then` node;
    /// else what is missing, the condition first.
    pub fn build(self) -> (r: Result<ExecutableIfPrompt<'a, C, F, P>, IfPromptBuilderError>)
        ensures
            match (self@.condition, self@.then_branch) {
                (None, _) => r matches Err(e) && e == IfPromptBuilderError::MissingCondition,
                (Some(_), None) => r matches Err(e) && e == IfPromptBuilderError::MissingThen,
                (Some(c), Some(t)) => r matches Ok(p) && p@ == (BoundIfView {
                    condition: c,
                    then_branch: t,
                    otherwise: self@.otherwise,
                }),
            },
    {
        proof {
            use_type_invariant(&self);
        }
        match self.condition {
            None => Err(IfPromptBuilderError::MissingCondition),
            Some(condition) => match self.then_branch {
                None => Err(IfPromptBuilderError::MissingThen),
                Some(then_branch) => Ok(
                    ExecutableIfPrompt { condition, then_branch, otherwise: self.otherwise },
                ),
            },
        }
    }

    /// Sets the node taken when the condition holds.
    pub fn then(self, then: ExecutablePromptVariant<'a, C, F, P>) -> (r: Self)
        ensures
            r@ == (BoundIfBuilderView { then_branch: Some(then@), ..self@ }),
    {
        proof {
            use_type_invariant(&self);
        }
        ExecutableIfPromptBuilder {
            then_branch: Some(then),
            otherwise: self.otherwise,
            condition: self.condition,
        }
    }

    /// Sets the node taken when the condition fails.
    pub fn otherwise(self, otherwise: ExecutablePromptVariant<'a, C, F, P>) -> (r: Self)
        ensures
            r@ == (BoundIfBuilderView { otherwise: Some(otherwise@), ..self@ }),
    {
        proof {
            use_type_invariant(&self);
        }
        ExecutableIfPromptBuilder {
            then_branch: self.then_branch,
            otherwise: Some(otherwise),
            condition: self.condition,
        }
    }

    /// Sets the condition.
    pub fn condition(self, condition: F) -> (r: Self)
        requires
            pure_predicate::<C, F>(condition),
        ensures
            r@ == (BoundIfBuilderView {
                condition: Some(predicate_of::<C, F>(condition)),
                ..self@
            }),
    {
        ExecutableIfPromptBuilder {
            then_branch: self.then_branch,
            otherwise: self.otherwise,
            condition: Some(condition),
        }
    }
}

/// What a builder of a loop holds so far.
#[verifier::reject_recursive_types(C)]
pub struct BoundLoopBuilderView<C, L> {
    pub body: Option<BoundNodeView<C, L>>,
    pub condition: Option<spec_fn(C) -> bool>,
}

/// Collects the pieces of a loop.
pub struct ExecutableLoopPromptBuilder<'a, C, F: Fn(&C) -> bool, P> {
    prompt: Option<ExecutablePromptVariant<'a, C, F, P>>,
    condition: Option<F>,
}

impl<'a, C, F: Fn(&C) -> bool, P> View for ExecutableLoopPromptBuilder<'a, C, F, P> {
    type V = BoundLoopBuilderView<C, PromptExecutableWithModel<'a, C, F, P>>;

    closed spec fn view(&self) -> Self::V {
        BoundLoopBuilderView {
            body: match self.prompt {
                Some(n) => Some(n@),
                None => None,
            },
            condition: match self.condition {
                Some(f) => Some(predicate_of::<C, F>(f)),
                None => None,
            },
        }
    }
}

impl<'a, C, F: Fn(&C) -> bool, P> ExecutableLoopPromptBuilder<'a, C, F, P> {
    #[verifier::type_invariant]
    spec fn pure(&self) -> bool {
        self.condition matches Some(f) ==> pure_predicate::<C, F>(f)
    }

    /// A builder that holds nothing yet.
    pub fn new() -> (r: Self)
        ensures
            r@ == (BoundLoopBuilderView::<C, PromptExecutableWithModel<'a, C, F, P>> {
                body: None,
                condition: None,
            }),
    {
        ExecutableLoopPromptBuilder { prompt: None, condition: None }
    }

    /// The loop, if the builder holds a condition and a body; else what is
    /// missing, the condition first.
    pub fn build(self) -> (r: Result<ExecutableLoopPrompt<'a, C, F, P>, LoopPromptBuilderError>)
        ensures
            match (self@.condition, self@.body) {
                (None, _) => r matches Err(e) && e == LoopPromptBuilderError::MissingCondition,
                (Some(_), None) => r matches Err(e) && e == LoopPromptBuilderError::MissingPrompt,
                (Some(c), Some(b)) => r matches Ok(p) && p@ == (BoundLoopView {
                    condition: c,
                    body: b,
                }),
            },
    {
        proof {
            use_type_invariant(&self);
        }
        match self.condition {
            None => Err(LoopPromptBuilderError::MissingCondition),
            Some(condition) => match self.prompt {
                None => Err(LoopPromptBuilderError::MissingPrompt),
                Some(prompt) => Ok(ExecutableLoopPrompt { condition, prompt }),
            },
        }
    }

    /// Sets the body.
    pub fn prompt(self, prompt: ExecutablePromptVariant<'a, C, F, P>) -> (r: Self)
        ensures
            r@ == (BoundLoopBuilderView { body: Some(prompt@), ..self@ }),
    {
        proof {
            use_type_invariant(&self);
        }
        ExecutableLoopPromptBuilder { prompt: Some(prompt), condition: self.condition }
    }

    /// Sets the condition.
    pub fn condition(self, condition: F) -> (r: Self)
        requires
            pure_predicate::<C, F>(condition),
        ensures
            r@ == (BoundLoopBuilderView {
                condition: Some(predicate_of::<C, F>(condition)),
                ..self@
            }),
    {
        ExecutableLoopPromptBuilder { prompt: self.prompt, condition: Some(condition) }
    }
}

/// The views of a run of nodes.
pub open spec fn bound_chain_view<'a, C, F: Fn(&C) -> bool, P>(
    nodes: Seq<ExecutablePromptVariant<'a, C, F, P>>,
) -> Seq<BoundNodeView<C, PromptExecutableWithModel<'a, C, F, P>>> {
    nodes.map_values(|n: ExecutablePromptVariant<'a, C, F, P>| n@)
}

/// An ordered sequence of top-level nodes whose leaves are bindings. It
/// grows by appending.
pub struct ExecutablePromptChain<'a, C, F: Fn(&C) -> bool, P> {
    prompts: Vec<ExecutablePromptVariant<'a, C, F, P>>,
}

impl<'a, C, F: Fn(&C) -> bool, P> View for ExecutablePromptChain<'a, C, F, P> {
    type V = Seq<BoundNodeView<C, PromptExecutableWithModel<'a, C, F, P>>>;

    closed spec fn view(&self) -> Self::V {
        bound_chain_view(self.prompts@)
    }
}

impl<'a, C, F: Fn(&C) -> bool, P> ExecutablePromptChain<'a, C, F, P> {
    /// The empty chain.
    pub fn new() -> (r: Self)
        ensures
            r@ == Seq::<BoundNodeView<C, PromptExecutableWithModel<'a, C, F, P>>>::empty(),
    {
        let r = ExecutablePromptChain { prompts: Vec::new() };
        assert(bound_chain_view(r.prompts@) =~= Seq::empty());
        r
    }

    /// Appends a node.
    pub fn push(&mut self, prompt: ExecutablePromptVariant<'a, C, F, P>)
        ensures
            final(self)@ == old(self)@.push(prompt@),
    {
        self.prompts.push(prompt);
        assert(bound_chain_view(self.prompts@) =~= bound_chain_view(old(self).prompts@).push(
            prompt@,
        ));
    }

    /// The number of top-level nodes.
    pub fn len(&self) -> (n: usize)
        ensures
            n == self@.len(),
    {
        self.prompts.len()
    }

    /// A cursor at the head of this chain.
    pub fn flow<'b>(&'b self) -> (r: ExecutableFlow<'b, 'a, C, F, P>)
        ensures
            r.chain() == self@,
            r.position() == 0,
    {
        ExecutableFlow { prompts: &self.prompts, cursor: 0 }
    }
}

/// A position in a chain of bindings. It only moves forward, and each call
/// resolves the node under it afresh.
pub struct ExecutableFlow<'b, 'a, C, F: Fn(&C) -> bool, P> {
    prompts: &'b Vec<ExecutablePromptVariant<'a, C, F, P>>,
    cursor: usize,
}

impl<'b, 'a, C, F: Fn(&C) -> bool, P> ExecutableFlow<'b, 'a, C, F, P> {
    #[verifier::type_invariant]
    spec fn in_range(&self) -> bool {
        self.cursor <= self.prompts@.len()
    }

    /// The chain that this cursor walks.
    pub closed spec fn chain(&self) -> Seq<
        BoundNodeView<C, PromptExecutableWithModel<'a, C, F, P>>,
    > {
        bound_chain_view(self.prompts@)
    }

    /// The number of top-level nodes that the cursor has passed.
    pub closed spec fn position(&self) -> int {
        self.cursor as int
    }

    /// Whether the cursor has passed every node of the chain.
    pub fn is_spent(&self) -> (r: bool)
        ensures
            r == (self.position() == self.chain().len()),
    {
        self.cursor == self.prompts.len()
    }

    /// The next binding to execute in `context`. `None` says that there is
    /// none now: the chain is spent, or the cursor stands on a loop whose
    /// condition holds and whose body has nothing to offer in this context
    /// ([`Self::is_spent`] tells the two apart).
    pub fn next_with(&mut self, context: &C) -> (r: Option<
        &'b PromptExecutableWithModel<'a, C, F, P>,
    >)
        ensures
            final(self).chain() == old(self).chain(),
            final(self).position() == next_bound_leaf(
                old(self).chain(),
                old(self).position(),
                context,
            ).1,
            match next_bound_leaf(old(self).chain(), old(self).position(), context).0 {
                Some(leaf) => r matches Some(b) && *b == leaf,
                None => r is None,
            },
    {
        proof {
            use_type_invariant(&*self);
        }
        let prompts = self.prompts;
        let mut at = self.cursor;
        while at < prompts.len()
            invariant
                at <= prompts@.len(),
                prompts == old(self).prompts,
                self.prompts == old(self).prompts,
                self.cursor <= prompts@.len(),
                next_bound_leaf(bound_chain_view(prompts@), at as int, context) == next_bound_leaf(
                    old(self).chain(),
                    old(self).position(),
                    context,
                ),
            decreases prompts@.len() - at,
        {
            let (found, held) = prompts[at].descend(context);
            if held {
                self.cursor = at;
                return found;
            }
            at += 1;
            if found.is_some() {
                self.cursor = at;
                return found;
            }
        }
        self.cursor = at;
        None
    }
}

} // verus!
