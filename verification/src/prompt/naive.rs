//! The nodes of a prompt tree and what they resolve to in a context.

use vstd::prelude::*;
use vstd::string::*;
use crate::prompt::context::{is_lookup, Context};
use crate::prompt::control::{IfPrompt, IfView, LoopPrompt, LoopView};
use crate::prompt::error::{PromptError, PromptErrorView};
use crate::prompt::template::{prompt_view, template_prompt, text_only, PartView, PromptTemplate};

verus! {

/// One node of a prompt tree. `C` is the context that conditions read and
/// `F` the type of those conditions.
pub enum PromptVariant<C, F: Fn(&C) -> bool> {
    /// Fixed text.
    Naive(String),
    /// Text with placeholders.
    Template(PromptTemplate),
    /// A branch on a condition.
    If(Box<IfPrompt<C, F>>),
    /// A body that is offered while a condition holds.
    Loop(Box<LoopPrompt<C, F>>),
}

/// The mathematical value of a node: a tree whose conditions are
/// predicates over the context.
#[verifier::reject_recursive_types(C)]
pub enum NodeView<C> {
    Naive(Seq<char>),
    Template(Seq<PartView>),
    If(Box<IfView<C>>),
    Loop(Box<LoopView<C>>),
}

impl<C, F: Fn(&C) -> bool> PromptVariant<C, F> {
    /// The tree that this node stands for.
    pub open spec fn model(&self) -> NodeView<C>
        decreases self,
    {
        match self {
            PromptVariant::Naive(text) => NodeView::Naive(text@),
            PromptVariant::Template(t) => NodeView::Template(t@),
            PromptVariant::If(p) => NodeView::If(Box::new(p.model())),
            PromptVariant::Loop(p) => NodeView::Loop(Box::new(p.model())),
        }
    }
}

impl<C, F: Fn(&C) -> bool> View for PromptVariant<C, F> {
    type V = NodeView<C>;

    open spec fn view(&self) -> NodeView<C> {
        self.model()
    }
}

impl<C> NodeView<C> {
    /// A literal or a template: a node that can be executed as it stands.
    pub open spec fn is_leaf(self) -> bool {
        self is Naive || self is Template
    }

    /// The leaf that this node stands for in `context`, if any. A branch
    /// stands for what its chosen side stands for, and for nothing when the
    /// condition fails and there is no other side. A loop stands for what
    /// its body stands for while its condition holds, and for nothing after.
    pub open spec fn resolve(self, context: &C) -> Option<NodeView<C>>
        decreases self,
    {
        match self {
            NodeView::Naive(_) => Some(self),
            NodeView::Template(_) => Some(self),
            NodeView::If(p) => if (p.condition)(*context) {
                p.then_branch.resolve(context)
            } else {
                match p.otherwise {
                    Some(o) => o.resolve(context),
                    None => None,
                }
            },
            NodeView::Loop(p) => if (p.condition)(*context) {
                p.body.resolve(context)
            } else {
                None
            },
        }
    }

    /// Whether the walk down from this node in `context` enters a loop
    /// whose condition holds. Such a node is not spent by the call that
    /// walks it: its loop is asked again by the next call.
    pub open spec fn enters_loop(self, context: &C) -> bool
        decreases self,
    {
        match self {
            NodeView::Naive(_) => false,
            NodeView::Template(_) => false,
            NodeView::If(p) => if (p.condition)(*context) {
                p.then_branch.enters_loop(context)
            } else {
                match p.otherwise {
                    Some(o) => o.enters_loop(context),
                    None => false,
                }
            },
            NodeView::Loop(p) => (p.condition)(*context),
        }
    }
}

/// The text that `node` asks in `context`. A branch asks what its chosen
/// side asks, or nothing without one; a loop asks what its body asks,
/// whatever its condition says.
pub open spec fn node_prompt<C: Context>(node: NodeView<C>, context: &C) -> Result<
    Option<Seq<char>>,
    PromptErrorView,
>
    decreases node,
{
    match node {
        NodeView::Naive(text) => Ok(Some(text)),
        NodeView::Template(parts) => template_prompt(parts, context),
        NodeView::If(p) => if (p.condition)(*context) {
            node_prompt(p.then_branch, context)
        } else {
            match p.otherwise {
                Some(o) => node_prompt(o, context),
                None => Ok(None),
            }
        },
        NodeView::Loop(p) => node_prompt(p.body, context),
    }
}

/// Whether asking `node` in `context` reads no variable: the side that the
/// conditions choose ends in a literal, in a template of text only, or in
/// nothing.
pub open spec fn reads_no_var<C>(node: NodeView<C>, context: &C) -> bool
    decreases node,
{
    match node {
        NodeView::Naive(_) => true,
        NodeView::Template(parts) => text_only(parts),
        NodeView::If(p) => if (p.condition)(*context) {
            reads_no_var(p.then_branch, context)
        } else {
            match p.otherwise {
                Some(o) => reads_no_var(o, context),
                None => true,
            }
        },
        NodeView::Loop(p) => reads_no_var(p.body, context),
    }
}

/// What resolves to a leaf asks what that leaf asks.
pub proof fn lemma_resolved_leaf<C>(node: NodeView<C>, context: &C)
    ensures
        node.resolve(context) matches Some(leaf) ==> leaf.is_leaf() && leaf.resolve(context)
            == Some(leaf),
        node.is_leaf() ==> node.resolve(context) == Some(node),
    decreases node,
{
    match node {
        NodeView::Naive(_) => {},
        NodeView::Template(_) => {},
        NodeView::If(p) => {
            lemma_resolved_leaf(p.then_branch, context);
            if let Some(o) = p.otherwise {
                lemma_resolved_leaf(o, context);
            }
        },
        NodeView::Loop(p) => {
            lemma_resolved_leaf(p.body, context);
        },
    }
}

/// Anything that can be asked as text in a context.
pub trait Prompt<C: Context> {
    /// The text that this prompt asks in `context`, or `None` when it asks
    /// nothing.
    spec fn prompt_spec(&self, context: &C) -> Result<Option<Seq<char>>, PromptErrorView>;

    /// Whether asking this prompt in `context` reads no variable.
    spec fn asks_no_var(&self, context: &C) -> bool;

    fn prompt_str(&self, context: &C) -> (r: Result<Option<String>, PromptError>)
        ensures
            (is_lookup(context) || self.asks_no_var(context)) ==> prompt_view(r)
                == self.prompt_spec(context),
    ;
}

impl<C: Context> Prompt<C> for PromptTemplate {
    open spec fn prompt_spec(&self, context: &C) -> Result<Option<Seq<char>>, PromptErrorView> {
        template_prompt(self@, context)
    }

    open spec fn asks_no_var(&self, context: &C) -> bool {
        text_only(self@)
    }

    fn prompt_str(&self, context: &C) -> (r: Result<Option<String>, PromptError>) {
        self.render(context)
    }
}

impl<C: Context, F: Fn(&C) -> bool> Prompt<C> for PromptVariant<C, F> {
    open spec fn prompt_spec(&self, context: &C) -> Result<Option<Seq<char>>, PromptErrorView> {
        node_prompt(self@, context)
    }

    open spec fn asks_no_var(&self, context: &C) -> bool {
        reads_no_var(self@, context)
    }

    fn prompt_str(&self, context: &C) -> (r: Result<Option<String>, PromptError>) {
        self.render(context)
    }
}

impl<C, F: Fn(&C) -> bool> PromptVariant<C, F> {
    /// A literal node.
    pub fn naive(s: String) -> (r: Self)
        ensures
            r@ == NodeView::<C>::Naive(s@),
    {
        PromptVariant::Naive(s)
    }

    /// A template node.
    pub fn template(t: PromptTemplate) -> (r: Self)
        ensures
            r@ == NodeView::<C>::Template(t@),
    {
        PromptVariant::Template(t)
    }

    /// A branch node.
    pub fn if_prompt(p: IfPrompt<C, F>) -> (r: Self)
        ensures
            r@ == NodeView::If(Box::new(p@)),
    {
        PromptVariant::If(Box::new(p))
    }

    /// A loop node.
    pub fn loop_prompt(p: LoopPrompt<C, F>) -> (r: Self)
        ensures
            r@ == NodeView::Loop(Box::new(p@)),
    {
        PromptVariant::Loop(Box::new(p))
    }

    /// Whether this node is a literal or a template.
    pub fn is_leaf(&self) -> (r: bool)
        ensures
            r == self@.is_leaf(),
    {
        match self {
            PromptVariant::Naive(_) => true,
            PromptVariant::Template(_) => true,
            _ => false,
        }
    }

    /// Walks down from this node, evaluating each condition on the way in
    /// `context`: gives the leaf that the node stands for now, and whether
    /// the walk entered a loop whose condition holds.
    pub fn descend(&self, context: &C) -> (r: (Option<&PromptVariant<C, F>>, bool))
        ensures
            r.1 == self@.enters_loop(context),
            match self@.resolve(context) {
                Some(leaf) => r.0 matches Some(n) && n@ == leaf,
                None => r.0 is None,
            },
    {
        let mut cur = self;
        let mut held = false;
        loop
            invariant
                cur@.resolve(context) == self@.resolve(context),
                self@.enters_loop(context) == (held || cur@.enters_loop(context)),
            decreases cur@,
        {
            match cur {
                PromptVariant::Naive(_) => {
                    return (Some(cur), held);
                },
                PromptVariant::Template(_) => {
                    return (Some(cur), held);
                },
                PromptVariant::If(p) => {
                    if p.test(context) {
                        cur = p.get_then();
                    } else {
                        match p.get_otherwise() {
                            Some(o) => {
                                cur = o;
                            },
                            None => {
                                return (None, held);
                            },
                        }
                    }
                },
                PromptVariant::Loop(p) => {
                    if p.test(context) {
                        held = true;
                        cur = p.get_prompt();
                    } else {
                        return (None, held);
                    }
                },
            }
        }
    }

    /// Walks down from this node, evaluating each condition on the way in
    /// `context`, to the leaf that the node stands for now.
    pub fn resolve(&self, context: &C) -> (r: Option<&PromptVariant<C, F>>)
        ensures
            match self@.resolve(context) {
                Some(leaf) => r matches Some(n) && n@ == leaf,
                None => r is None,
            },
    {
        let mut cur = self;
        loop
            invariant
                cur@.resolve(context) == self@.resolve(context),
            decreases cur@,
        {
            match cur {
                PromptVariant::Naive(_) => {
                    return Some(cur);
                },
                PromptVariant::Template(_) => {
                    return Some(cur);
                },
                PromptVariant::If(p) => {
                    if p.test(context) {
                        cur = p.get_then();
                    } else {
                        match p.get_otherwise() {
                            Some(o) => {
                                cur = o;
                            },
                            None => {
                                return None;
                            },
                        }
                    }
                },
                PromptVariant::Loop(p) => {
                    if p.test(context) {
                        cur = p.get_prompt();
                    } else {
                        return None;
                    }
                },
            }
        }
    }
}

impl<C: Context, F: Fn(&C) -> bool> PromptVariant<C, F> {
    /// The text that this node asks in `context`.
    pub fn render(&self, context: &C) -> (r: Result<Option<String>, PromptError>)
        ensures
            (is_lookup(context) || reads_no_var(self@, context)) ==> prompt_view(r) == node_prompt(
                self@,
                context,
            ),
        decreases self@,
    {
        match self {
            PromptVariant::Naive(text) => Ok(Some(text.clone())),
            PromptVariant::Template(t) => t.render(context),
            PromptVariant::If(p) => {
                if p.test(context) {
                    p.get_then().render(context)
                } else {
                    match p.get_otherwise() {
                        Some(o) => o.render(context),
                        None => Ok(None),
                    }
                }
            },
            PromptVariant::Loop(p) => p.get_prompt().render(context),
        }
    }
}

impl<C, F: Fn(&C) -> bool> From<String> for PromptVariant<C, F> {
    fn from(s: String) -> (r: Self) {
        PromptVariant::Naive(s)
    }
}

impl<C, F: Fn(&C) -> bool> vstd::std_specs::convert::FromSpecImpl<String> for PromptVariant<C, F> {
    open spec fn obeys_from_spec() -> bool {
        true
    }

    open spec fn from_spec(s: String) -> Self {
        PromptVariant::Naive(s)
    }
}

impl<C, F: Fn(&C) -> bool> From<PromptTemplate> for PromptVariant<C, F> {
    fn from(t: PromptTemplate) -> (r: Self) {
        PromptVariant::Template(t)
    }
}

impl<C, F: Fn(&C) -> bool> vstd::std_specs::convert::FromSpecImpl<PromptTemplate> for PromptVariant<C, F> {
    open spec fn obeys_from_spec() -> bool {
        true
    }

    open spec fn from_spec(t: PromptTemplate) -> Self {
        PromptVariant::Template(t)
    }
}

impl<C, F: Fn(&C) -> bool> From<IfPrompt<C, F>> for PromptVariant<C, F> {
    fn from(p: IfPrompt<C, F>) -> (r: Self) {
        PromptVariant::If(Box::new(p))
    }
}

impl<C, F: Fn(&C) -> bool> vstd::std_specs::convert::FromSpecImpl<IfPrompt<C, F>> for PromptVariant<C, F> {
    open spec fn obeys_from_spec() -> bool {
        true
    }

    open spec fn from_spec(p: IfPrompt<C, F>) -> Self {
        PromptVariant::If(Box::new(p))
    }
}

impl<C, F: Fn(&C) -> bool> From<LoopPrompt<C, F>> for PromptVariant<C, F> {
    fn from(p: LoopPrompt<C, F>) -> (r: Self) {
        PromptVariant::Loop(Box::new(p))
    }
}

impl<C, F: Fn(&C) -> bool> vstd::std_specs::convert::FromSpecImpl<LoopPrompt<C, F>> for PromptVariant<C, F> {
    open spec fn obeys_from_spec() -> bool {
        true
    }

    open spec fn from_spec(p: LoopPrompt<C, F>) -> Self {
        PromptVariant::Loop(Box::new(p))
    }
}

impl<'a, C, F: Fn(&C) -> bool> From<&'a str> for PromptVariant<C, F> {
    fn from(s: &'a str) -> (r: Self)
        ensures
            r@ == NodeView::<C>::Naive(s@),
    {
        PromptVariant::Naive(String::from_str(s))
    }
}

/// The node made from a string slice is a literal with the same text.
/// Which `String` holds that text is not fixed, so `from` is specified by
/// its own `ensures`, over the view, and not by `from_spec`.
impl<'a, C, F: Fn(&C) -> bool> vstd::std_specs::convert::FromSpecImpl<&'a str> for PromptVariant<C, F> {
    open spec fn obeys_from_spec() -> bool {
        false
    }

    open spec fn from_spec(s: &'a str) -> Self {
        PromptVariant::Naive(choose|text: String| text@ == s@)
    }
}

} // verus!
