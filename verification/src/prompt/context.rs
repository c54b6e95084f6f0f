//! The state that a chain reads: predicates are evaluated against it and
//! template variables are looked up in it.

use vstd::prelude::*;
use vstd::string::*;
use std::fmt::Display;

verus! {

/// The view of an optional string.
pub open spec fn text_view(s: Option<String>) -> Option<Seq<char>> {
    match s {
        Some(t) => Some(t@),
        None => None,
    }
}

/// A store of named values. Conditions read it as they like; templates
/// read it through `template_var`.
pub trait Context {
    /// A typed value stored under `key`.
    fn get<T: 'static>(&self, key: &str) -> Option<&T>;

    /// A typed value stored under `key`, for update.
    fn get_mut<T: 'static>(&mut self, key: &str) -> Option<&mut T>;

    /// The text that a template shows for `key`.
    fn template_var(&self, key: &str) -> Option<String>;
}

/// `template_var` may answer `value` when asked for `key` in `context`.
pub open spec fn may_resolve<C: Context>(context: &C, key: Seq<char>, value: Option<Seq<char>>) -> bool {
    exists|k: &str, r: Option<String>|
        k@ == key && text_view(r) == value && #[trigger] call_ensures(
            C::template_var,
            (context, k),
            r,
        )
}

/// The context is a lookup: it has one answer for each name.
pub open spec fn is_lookup<C: Context>(context: &C) -> bool {
    forall|key: Seq<char>, a: Option<Seq<char>>, b: Option<Seq<char>>|
        #[trigger] may_resolve(context, key, a) && #[trigger] may_resolve(context, key, b) ==> a
            == b
}

/// The text that `context` holds for `key`, where the context is a lookup.
pub open spec fn var_of<C: Context>(context: &C, key: Seq<char>) -> Option<Seq<char>> {
    choose|value: Option<Seq<char>>| may_resolve(context, key, value)
}

/// In a lookup, what `template_var` answered is what the context holds.
pub proof fn lemma_answer_is_var<C: Context>(context: &C, key: &str, answer: Option<String>)
    requires
        is_lookup(context),
        call_ensures(C::template_var, (context, key), answer),
    ensures
        var_of(context, key@) == text_view(answer),
{
    assert(may_resolve(context, key@, text_view(answer)));
}

/// The empty context: it holds nothing.
impl Context for () {
    fn get<T: 'static>(&self, _key: &str) -> (r: Option<&T>)
        ensures
            r.is_none(),
    {
        None
    }

    fn get_mut<T: 'static>(&mut self, _key: &str) -> (r: Option<&mut T>)
        ensures
            r.is_none(),
    {
        None
    }

    fn template_var(&self, _key: &str) -> (r: Option<String>)
        ensures
            r.is_none(),
    {
        None
    }
}

/// The empty context is a lookup, and it resolves no name.
pub proof fn lemma_unit_resolves_nothing()
    ensures
        is_lookup(&()),
        forall|key: Seq<char>, value: Option<Seq<char>>| #[trigger]
            may_resolve(&(), key, value) ==> value is None,
{
}

/// A context whose values can be shown as text.
pub trait DisplayableContext: Context {
    /// The text of the value stored under `key`.
    fn get_displayable(&self, key: &str) -> Option<String>;
}

/// A context that maps names to displayable values. Each value is kept as
/// the text that it displays; of two values stored under one name the
/// later one counts.
pub struct DefaultDisplayableContext {
    entries: Vec<(String, String)>,
}

/// The text that the latest entry for `key` holds, if there is one.
pub open spec fn lookup(entries: Seq<(String, String)>, key: Seq<char>) -> Option<Seq<char>>
    decreases entries.len(),
{
    if entries.len() == 0 {
        None
    } else if entries.last().0@ == key {
        Some(entries.last().1@)
    } else {
        lookup(entries.drop_last(), key)
    }
}

/// No entry after position `i` is for `key`.
pub open spec fn none_after(entries: Seq<(String, String)>, i: int, key: Seq<char>) -> bool {
    forall|j: int| i < j < entries.len() ==> (#[trigger] entries[j]).0@ != key
}

/// The latest entry for a key is the one that `lookup` finds; where there
/// is none, it finds nothing.
pub proof fn lemma_lookup_latest(entries: Seq<(String, String)>, i: int, key: Seq<char>)
    requires
        -1 <= i < entries.len(),
        i >= 0 ==> entries[i].0@ == key,
        none_after(entries, i, key),
    ensures
        lookup(entries, key) == if i >= 0 {
            Some(entries[i].1@)
        } else {
            None
        },
    decreases entries.len(),
{
    if entries.len() > 0 {
        let last = entries.len() - 1;
        if i < last {
            assert(entries[last].0@ != key);
            let rest = entries.drop_last();
            assert forall|j: int| i < j < rest.len() implies (#[trigger] rest[j]).0@ != key by {
                assert(rest[j] == entries[j]);
            }
            lemma_lookup_latest(rest, i, key);
        }
    }
}

/// Replacing the text of the latest entry for a key changes what is found
/// for that key and for no other.
pub proof fn lemma_lookup_update(
    entries: Seq<(String, String)>,
    i: int,
    entry: (String, String),
    key: Seq<char>,
)
    requires
        0 <= i < entries.len(),
        entry.0@ == entries[i].0@,
        none_after(entries, i, entries[i].0@),
    ensures
        lookup(entries.update(i, entry), key) == if key == entries[i].0@ {
            Some(entry.1@)
        } else {
            lookup(entries, key)
        },
    decreases entries.len(),
{
    let last = entries.len() - 1;
    let changed = entries.update(i, entry);
    if i == last {
        assert(changed.drop_last() =~= entries.drop_last());
    } else {
        assert(entries[last].0@ != entries[i].0@);
        let rest = entries.drop_last();
        assert(changed.drop_last() =~= rest.update(i, entry));
        assert forall|j: int| i < j < rest.len() implies (#[trigger] rest[j]).0@
            != entries[i].0@ by {
            assert(rest[j] == entries[j]);
        }
        lemma_lookup_update(rest, i, entry, key);
    }
}

impl View for DefaultDisplayableContext {
    type V = Map<Seq<char>, Seq<char>>;

    closed spec fn view(&self) -> Map<Seq<char>, Seq<char>> {
        Map::new(
            |key: Seq<char>| lookup(self.entries@, key) is Some,
            |key: Seq<char>| lookup(self.entries@, key).unwrap(),
        )
    }
}

impl DefaultDisplayableContext {
    /// The text held for `key`, if any.
    pub open spec fn text_of(&self, key: Seq<char>) -> Option<Seq<char>> {
        if self@.contains_key(key) {
            Some(self@[key])
        } else {
            None
        }
    }

    /// The empty context.
    pub fn new() -> (r: Self)
        ensures
            r@ == Map::<Seq<char>, Seq<char>>::empty(),
    {
        let r = DefaultDisplayableContext { entries: Vec::new() };
        assert(r@ =~= Map::empty());
        r
    }

    /// Stores the text of `value` under `key`, in place of what was there.
    pub fn insert<T: Display>(&mut self, key: String, value: Box<T>)
        ensures
            exists|text: String| #[trigger]
                to_string_from_display_ensures::<T>(&*value, text) && final(self)@ == old(
                    self,
                )@.insert(key@, text@),
    {
        let shown: &T = &*value;
        let text = shown.to_string();
        let ghost witness = text;
        self.entries.push((key, text));
        proof {
            assert(self.entries@.drop_last() =~= old(self).entries@);
            assert(self@ =~= old(self)@.insert(key@, witness@));
            assert(to_string_from_display_ensures::<T>(&*value, witness));
        }
    }

    /// The position of the latest entry for `key`, if there is one.
    fn position(&self, key: &str) -> (r: Option<usize>)
        ensures
            match r {
                Some(i) => i < self.entries@.len() && self.entries@[i as int].0@ == key@
                    && none_after(self.entries@, i as int, key@),
                None => none_after(self.entries@, -1, key@),
            },
    {
        let wanted = String::from_str(key);
        let mut i: usize = self.entries.len();
        while i > 0
            invariant
                i <= self.entries@.len(),
                wanted@ == key@,
                none_after(self.entries@, i - 1, key@),
            decreases i,
        {
            i -= 1;
            if self.entries[i].0 == wanted {
                return Some(i);
            }
        }
        None
    }

    /// The text stored under `key`.
    pub fn get(&self, key: &str) -> (r: Option<&String>)
        ensures
            match r {
                Some(text) => self@.contains_key(key@) && self@[key@] == text@,
                None => !self@.contains_key(key@),
            },
    {
        match self.position(key) {
            Some(i) => {
                proof {
                    lemma_lookup_latest(self.entries@, i as int, key@);
                }
                Some(&self.entries[i].1)
            },
            None => {
                proof {
                    lemma_lookup_latest(self.entries@, -1, key@);
                }
                None
            },
        }
    }

    /// The text stored under `key`, for update: what is written through the
    /// reference is what the context holds for `key` afterwards, and no
    /// other name is touched.
    pub fn text_mut(&mut self, key: &str) -> (r: Option<&mut String>)
        ensures
            match r {
                Some(text) => old(self)@.contains_key(key@) && text@ == old(self)@[key@]
                    && final(self)@ =~= old(self)@.insert(key@, final(text)@),
                None => !old(self)@.contains_key(key@) && final(self)@ =~= old(self)@,
            },
    {
        match self.position(key) {
            Some(i) => {
                proof {
                    lemma_lookup_latest(self.entries@, i as int, key@);
                    assert forall|entry: (String, String), other: Seq<char>|
                        entry.0@ == key@ implies #[trigger] lookup(
                        self.entries@.update(i as int, entry),
                        other,
                    ) == if other == key@ {
                        Some(entry.1@)
                    } else {
                        lookup(self.entries@, other)
                    } by {
                        lemma_lookup_update(self.entries@, i as int, entry, other);
                    }
                }
                let entry = &mut self.entries[i];
                Some(&mut entry.1)
            },
            None => {
                proof {
                    lemma_lookup_latest(self.entries@, -1, key@);
                }
                None
            },
        }
    }
}

impl Context for DefaultDisplayableContext {
    /// This context holds text only: there is no typed value to hand out.
    fn get<T: 'static>(&self, _key: &str) -> Option<&T>
        returns
            None::<&T>,
    {
        None
    }

    /// This context holds text only: there is no typed value to hand out.
    fn get_mut<T: 'static>(&mut self, _key: &str) -> (r: Option<&mut T>)
        ensures
            r is None,
            *final(self) == *old(self),
    {
        None
    }

    fn template_var(&self, key: &str) -> (r: Option<String>)
        ensures
            text_view(r) == self.text_of(key@),
    {
        match DefaultDisplayableContext::get(self, key) {
            Some(text) => Some(text.clone()),
            None => None,
        }
    }
}

impl DisplayableContext for DefaultDisplayableContext {
    fn get_displayable(&self, key: &str) -> (r: Option<String>)
        ensures
            text_view(r) == self.text_of(key@),
    {
        self.template_var(key)
    }
}

/// This context is a lookup, and it resolves each name to the text that
/// it holds for it.
pub proof fn lemma_displayable_context_is_lookup(context: &DefaultDisplayableContext)
    ensures
        is_lookup(context),
        forall|key: Seq<char>, value: Option<Seq<char>>| #[trigger]
            may_resolve(context, key, value) ==> value == context.text_of(key),
{
}

} // verus!
