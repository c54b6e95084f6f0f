//! Chains of prompt nodes and the cursor that turns a chain into a
//! sequence of leaves, one per call.

use vstd::prelude::*;
use crate::prompt::control::{IfView, LoopView};
use crate::prompt::naive::{lemma_resolved_leaf, NodeView, PromptVariant};

verus! {

/// The leaf that a call at position `from` yields in `context`, and the
/// position after the call. The node at the cursor is walked down afresh.
///
/// - Where the walk enters a loop whose condition holds, the cursor stays:
///   the call yields the leaf that the walk found, or nothing where it
///   found none, and the next call asks the loop again.
/// - Else a leaf is yielded and its node is passed.
/// - Else the node is passed without a leaf (a branch without a side to
///   take, a loop whose condition fails) and the same call goes on with
///   the next node, until the chain ends.
pub open spec fn next_leaf<C>(chain: Seq<NodeView<C>>, from: int, context: &C) -> (
    Option<NodeView<C>>,
    int,
)
    decreases chain.len() - from,
{
    if from < 0 || from >= chain.len() {
        (None, from)
    } else if chain[from].enters_loop(context) {
        (chain[from].resolve(context), from)
    } else {
        match chain[from].resolve(context) {
            Some(leaf) => (Some(leaf), from + 1),
            None => next_leaf(chain, from + 1, context),
        }
    }
}

/// The position of a cursor that stood at `start` and was then asked once
/// in each of `contexts`, in that order.
pub open spec fn position_from<C>(chain: Seq<NodeView<C>>, start: int, contexts: Seq<C>) -> int
    decreases contexts.len(),
{
    if contexts.len() == 0 {
        start
    } else {
        next_leaf(chain, position_from(chain, start, contexts.drop_last()), &contexts.last()).1
    }
}

/// The position of a cursor that started at the head of `chain` and was
/// asked once in each of `contexts`, in that order.
pub open spec fn position_after<C>(chain: Seq<NodeView<C>>, contexts: Seq<C>) -> int {
    position_from(chain, 0, contexts)
}

/// A call never moves the cursor back nor past the end, and what it
/// yields is a leaf. A call that yields nothing leaves the cursor at the
/// end of the chain or on a node whose loop holds in that context.
pub proof fn lemma_next_leaf_bounds<C>(chain: Seq<NodeView<C>>, from: int, context: &C)
    requires
        0 <= from <= chain.len(),
    ensures
        from <= next_leaf(chain, from, context).1 <= chain.len(),
        next_leaf(chain, from, context).0 matches Some(leaf) ==> leaf.is_leaf(),
        next_leaf(chain, from, context).0 is None ==> next_leaf(chain, from, context).1
            == chain.len() || chain[next_leaf(chain, from, context).1].enters_loop(context),
    decreases chain.len() - from,
{
    if from < chain.len() {
        lemma_resolved_leaf(chain[from], context);
        if !chain[from].enters_loop(context) && chain[from].resolve(context) is None {
            lemma_next_leaf_bounds(chain, from + 1, context);
        }
    }
}

/// A node has nothing for a call in `context` and is passed by it: its
/// walk enters no loop whose condition holds and ends in no leaf.
pub open spec fn is_dead<C>(node: NodeView<C>, context: &C) -> bool {
    !node.enters_loop(context) && node.resolve(context) is None
}

/// The first position from `from` on whose node is not dead in `context`,
/// or the length of the chain where there is none.
pub open spec fn first_live<C>(chain: Seq<NodeView<C>>, from: int, context: &C) -> int
    decreases chain.len() - from,
{
    if from < 0 || from >= chain.len() {
        from
    } else if is_dead(chain[from], context) {
        first_live(chain, from + 1, context)
    } else {
        from
    }
}

/// A call passes the dead nodes and no others: it goes to the first node
/// from the cursor on that is not dead and yields what that node resolves
/// to. The cursor stays on that node where its walk enters a loop whose
/// condition holds, and moves one past it where it does not. Where every
/// node from the cursor on is dead, the call yields nothing and the cursor
/// is at the end.
pub proof fn lemma_next_leaf_is_first_live<C>(chain: Seq<NodeView<C>>, from: int, context: &C)
    requires
        0 <= from <= chain.len(),
    ensures
        from <= first_live(chain, from, context) <= chain.len(),
        forall|j: int|
            from <= j < first_live(chain, from, context) ==> is_dead(#[trigger] chain[j], context),
        first_live(chain, from, context) < chain.len() ==> !is_dead(
            chain[first_live(chain, from, context)],
            context,
        ),
        next_leaf(chain, from, context) == if first_live(chain, from, context) == chain.len() {
            (None::<NodeView<C>>, chain.len() as int)
        } else if chain[first_live(chain, from, context)].enters_loop(context) {
            (
                chain[first_live(chain, from, context)].resolve(context),
                first_live(chain, from, context),
            )
        } else {
            (
                chain[first_live(chain, from, context)].resolve(context),
                first_live(chain, from, context) + 1,
            )
        },
    decreases chain.len() - from,
{
    if from < chain.len() && is_dead(chain[from], context) {
        lemma_next_leaf_is_first_live(chain, from + 1, context);
        let live = first_live(chain, from + 1, context);
        assert forall|j: int| from <= j < live implies is_dead(#[trigger] chain[j], context) by {
            if j > from {
                assert(from + 1 <= j);
            }
        }
    }
}

/// At the end of the chain every call yields nothing, in whatever context
/// it is made, and the cursor stays at the end.
pub proof fn lemma_exhausted_stays_exhausted<C>(chain: Seq<NodeView<C>>, contexts: Seq<C>, later: &C)
    ensures
        position_from(chain, chain.len() as int, contexts) == chain.len(),
        next_leaf(chain, position_from(chain, chain.len() as int, contexts), later) == (
            None::<NodeView<C>>,
            chain.len() as int,
        ),
    decreases contexts.len(),
{
    if contexts.len() > 0 {
        lemma_exhausted_stays_exhausted(chain, contexts.drop_last(), &contexts.last());
    }
}

/// A literal or a template enters no loop.
pub proof fn lemma_leaf_enters_no_loop<C>(node: NodeView<C>, context: &C)
    requires
        node.is_leaf(),
    ensures
        !node.enters_loop(context),
        node.resolve(context) == Some(node),
{
}

/// In a chain of literals and templates only, the calls yield the nodes
/// one by one in the order in which they were pushed, each exactly once:
/// after `n` calls the cursor stands at `n` or at the end, the next call
/// yields node `n`, and once the nodes are spent every call yields nothing.
pub proof fn lemma_plain_chain_in_order<C>(chain: Seq<NodeView<C>>, contexts: Seq<C>, context: &C)
    requires
        forall|i: int| 0 <= i < chain.len() ==> (#[trigger] chain[i]).is_leaf(),
    ensures
        position_after(chain, contexts) == if contexts.len() <= chain.len() {
            contexts.len() as int
        } else {
            chain.len() as int
        },
        next_leaf(chain, position_after(chain, contexts), context).0 == if contexts.len()
            < chain.len() {
            Some(chain[contexts.len() as int])
        } else {
            None
        },
    decreases contexts.len(),
{
    if contexts.len() > 0 {
        lemma_plain_chain_in_order(chain, contexts.drop_last(), &contexts.last());
    }
    let at = position_after(chain, contexts);
    if at < chain.len() {
        assert(chain[at].is_leaf());
        lemma_leaf_enters_no_loop(chain[at], context);
    }
    if contexts.len() > 0 {
        let before = position_after(chain, contexts.drop_last());
        if before < chain.len() {
            assert(chain[before].is_leaf());
            lemma_leaf_enters_no_loop(chain[before], &contexts.last());
        }
    }
}

/// A branch whose condition fails and that has no other side does not
/// stall the call: the call yields what the rest of the chain yields.
pub proof fn lemma_dead_branch_is_skipped<C>(chain: Seq<NodeView<C>>, from: int, context: &C)
    requires
        0 <= from < chain.len(),
        chain[from] matches NodeView::If(p) && !(p.condition)(*context) && p.otherwise is None,
    ensures
        next_leaf(chain, from, context) == next_leaf(chain, from + 1, context),
{
}

/// A loop whose condition fails is passed by the call that finds it so,
/// and does not end the chain: the call yields what the rest of the chain
/// yields.
pub proof fn lemma_finished_loop_is_skipped<C>(chain: Seq<NodeView<C>>, from: int, context: &C)
    requires
        0 <= from < chain.len(),
        chain[from] matches NodeView::Loop(p) && !(p.condition)(*context),
    ensures
        next_leaf(chain, from, context) == next_leaf(chain, from + 1, context),
{
}

/// A loop whose condition holds offers what its body resolves to, and the
/// cursor stays on the loop, whether the body resolved to a leaf or not.
pub proof fn lemma_live_loop_offers_body<C>(chain: Seq<NodeView<C>>, from: int, context: &C)
    requires
        0 <= from < chain.len(),
        chain[from] matches NodeView::Loop(p) && (p.condition)(*context),
    ensures
        chain[from] matches NodeView::Loop(p) && next_leaf(chain, from, context) == (
            p.body.resolve(context),
            from,
        ),
{
}

/// A loop is asked again for as long as its condition holds: through any
/// run of calls made in contexts in which it holds, the cursor stays on
/// the loop, so that each of these calls yields what the body resolves to
/// in its context (`lemma_live_loop_offers_body`). With a literal as the
/// body and a counter that the caller moves after each leaf, the loop
/// yields its body once for each value of the counter that meets the
/// condition, and the first call after the last of them goes on to what
/// follows the loop (`lemma_finished_loop_is_skipped`).
pub proof fn lemma_loop_repeats_while_it_holds<C>(
    chain: Seq<NodeView<C>>,
    from: int,
    contexts: Seq<C>,
)
    requires
        0 <= from < chain.len(),
        chain[from] matches NodeView::Loop(p) && (forall|k: int|
            0 <= k < contexts.len() ==> (p.condition)(#[trigger] contexts[k])),
    ensures
        position_from(chain, from, contexts) == from,
    decreases contexts.len(),
{
    if contexts.len() > 0 {
        let earlier = contexts.drop_last();
        assert forall|k: int| 0 <= k < earlier.len() implies (chain[from]->Loop_0.condition)(
            #[trigger] earlier[k],
        ) by {
            assert(earlier[k] == contexts[k]);
        }
        lemma_loop_repeats_while_it_holds(chain, from, earlier);
        assert((chain[from]->Loop_0.condition)(contexts[contexts.len() - 1]));
    }
}

/// A branch inside a loop that found no side to take is taken by the very
/// next call after its condition has come to hold: the call that found
/// nothing yields nothing and leaves the cursor on the loop, and the call
/// made once the condition holds yields what the `then` side resolves to.
pub proof fn lemma_flipped_branch_is_taken<C>(
    chain: Seq<NodeView<C>>,
    from: int,
    before: &C,
    after: &C,
)
    requires
        0 <= from < chain.len(),
        chain[from] matches NodeView::Loop(p) && (p.condition)(*before) && (p.condition)(*after)
            && (p.body matches NodeView::If(inner) && !(inner.condition)(*before)
            && inner.otherwise is None && (inner.condition)(*after)),
    ensures
        next_leaf(chain, from, before) == (None::<NodeView<C>>, from),
        chain[from] matches NodeView::Loop(p) && (p.body matches NodeView::If(inner) && next_leaf(
            chain,
            next_leaf(chain, from, before).1,
            after,
        ) == (inner.then_branch.resolve(after), from)),
{
    reveal_with_fuel(NodeView::resolve, 3);
}

/// A branch inside a loop is decided by the context of the call alone:
/// whatever earlier calls found, a loop whose condition holds resolves to
/// the `then` side of its branch when the branch's condition holds now,
/// and to its other side when it does not.
pub proof fn lemma_nested_branch_follows_context<C>(
    condition: spec_fn(C) -> bool,
    inner: IfView<C>,
    context: &C,
)
    requires
        condition(*context),
    ensures
        NodeView::Loop(
            Box::new(LoopView { condition, body: NodeView::If(Box::new(inner)) }),
        ).resolve(context) == if (inner.condition)(*context) {
            inner.then_branch.resolve(context)
        } else {
            match inner.otherwise {
                Some(o) => o.resolve(context),
                None => None,
            }
        },
{
    reveal_with_fuel(NodeView::resolve, 3);
}

/// The views of a run of nodes.
pub open spec fn chain_view<C, F: Fn(&C) -> bool>(nodes: Seq<PromptVariant<C, F>>) -> Seq<
    NodeView<C>,
> {
    nodes.map_values(|n: PromptVariant<C, F>| n@)
}

/// An ordered sequence of top-level nodes that grows by appending.
pub struct PromptChain<C, F: Fn(&C) -> bool> {
    prompts: Vec<PromptVariant<C, F>>,
}

impl<C, F: Fn(&C) -> bool> View for PromptChain<C, F> {
    type V = Seq<NodeView<C>>;

    closed spec fn view(&self) -> Seq<NodeView<C>> {
        chain_view(self.prompts@)
    }
}

impl<C, F: Fn(&C) -> bool> PromptChain<C, F> {
    /// The empty chain.
    pub fn new() -> (r: Self)
        ensures
            r@ == Seq::<NodeView<C>>::empty(),
    {
        let r = PromptChain { prompts: Vec::new() };
        assert(chain_view(r.prompts@) =~= Seq::empty());
        r
    }

    /// Appends a node.
    pub fn push(&mut self, prompt: PromptVariant<C, F>)
        ensures
            final(self)@ == old(self)@.push(prompt@),
    {
        self.prompts.push(prompt);
        assert(chain_view(self.prompts@) =~= chain_view(old(self).prompts@).push(prompt@));
    }

    /// The number of top-level nodes.
    pub fn len(&self) -> (n: usize)
        ensures
            n == self@.len(),
    {
        self.prompts.len()
    }

    /// A cursor at the head of this chain.
    pub fn flow(&self) -> (r: Flow<'_, C, F>)
        ensures
            r.chain() == self@,
            r.position() == 0,
    {
        Flow { prompts: &self.prompts, cursor: 0 }
    }
}

/// A position in a chain. It only moves forward, and each call resolves
/// the node under it afresh.
pub struct Flow<'a, C, F: Fn(&C) -> bool> {
    prompts: &'a Vec<PromptVariant<C, F>>,
    cursor: usize,
}

impl<'a, C, F: Fn(&C) -> bool> Flow<'a, C, F> {
    #[verifier::type_invariant]
    spec fn in_range(&self) -> bool {
        self.cursor <= self.prompts@.len()
    }

    /// The chain that this cursor walks.
    pub closed spec fn chain(&self) -> Seq<NodeView<C>> {
        chain_view(self.prompts@)
    }

    /// The number of top-level nodes that the cursor has passed.
    pub closed spec fn position(&self) -> int {
        self.cursor as int
    }

    /// Whether the cursor has passed every node of the chain.
    pub fn is_spent(&self) -> (r: bool)
        ensures
            r == (self.position() == self.chain().len()),
    {
        self.cursor == self.prompts.len()
    }

    /// The next leaf to execute in `context`. `None` says that there is
    /// none now: the chain is spent, or the cursor stands on a loop whose
    /// condition holds and whose body has nothing to offer in this context
    /// ([`Self::is_spent`] tells the two apart).
    pub fn next_with(&mut self, context: &C) -> (r: Option<&'a PromptVariant<C, F>>)
        ensures
            final(self).chain() == old(self).chain(),
            final(self).position() == next_leaf(
                old(self).chain(),
                old(self).position(),
                context,
            ).1,
            match next_leaf(old(self).chain(), old(self).position(), context).0 {
                Some(leaf) => r matches Some(n) && n@ == leaf,
                None => r is None,
            },
    {
        proof {
            use_type_invariant(&*self);
        }
        let prompts = self.prompts;
        let mut at = self.cursor;
        while at < prompts.len()
            invariant
                at <= prompts@.len(),
                prompts == old(self).prompts,
                self.prompts == old(self).prompts,
                self.cursor <= prompts@.len(),
                next_leaf(chain_view(prompts@), at as int, context) == next_leaf(
                    old(self).chain(),
                    old(self).position(),
                    context,
                ),
            decreases prompts@.len() - at,
        {
            let (found, held) = prompts[at].descend(context);
            if held {
                self.cursor = at;
                return found;
            }
            at += 1;
            if found.is_some() {
                self.cursor = at;
                return found;
            }
        }
        self.cursor = at;
        None
    }
}

} // verus!
