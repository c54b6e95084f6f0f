//! Templates: text with `{name}` placeholders, split once into parts and
//! rendered against a context as often as needed.

use vstd::prelude::*;
use vstd::string::*;
use crate::prompt::context::{is_lookup, lemma_answer_is_var, var_of, Context};
use crate::prompt::error::{PromptError, PromptErrorView, PromptTemplateError};
use crate::prompt::text::{chars_of, push_char};

verus! {

/// One piece of a template.
pub enum TemplatePart {
    /// Text that is shown as it is.
    Text(String),
    /// The name of a variable that the context resolves.
    Var(String),
}

/// The mathematical value of a [`TemplatePart`].
pub enum PartView {
    Text(Seq<char>),
    Var(Seq<char>),
}

impl View for TemplatePart {
    type V = PartView;

    open spec fn view(&self) -> PartView {
        match self {
            TemplatePart::Text(t) => PartView::Text(t@),
            TemplatePart::Var(n) => PartView::Var(n@),
        }
    }
}

/// The views of a run of parts.
pub open spec fn parts_view(parts: Seq<TemplatePart>) -> Seq<PartView> {
    parts.map_values(|p: TemplatePart| p@)
}

/// The lexer as a state machine over the characters of `s` from position
/// `i` on. `waiting` says that a placeholder is open, `buf` holds the text
/// or name read so far and `parts` what is already complete.
///
/// `{{` and `}}` stand for one literal brace each. A single `{` closes the
/// running text and opens a placeholder; a single `}` closes the
/// placeholder, whose name must not be empty. Text after the last
/// placeholder becomes a final text part unless it is empty.
pub open spec fn lex_from(
    s: Seq<char>,
    i: int,
    waiting: bool,
    buf: Seq<char>,
    parts: Seq<PartView>,
) -> Result<Seq<PartView>, PromptTemplateError>
    decreases s.len() - i,
{
    if i < 0 || i >= s.len() {
        if waiting {
            Err(PromptTemplateError::BraceMismatch)
        } else if buf.len() > 0 {
            Ok(parts.push(PartView::Text(buf)))
        } else {
            Ok(parts)
        }
    } else if s[i] == '{' {
        if waiting {
            Err(PromptTemplateError::BraceMismatch)
        } else if i + 1 < s.len() && s[i + 1] == '{' {
            lex_from(s, i + 2, waiting, buf.push('{'), parts)
        } else {
            lex_from(s, i + 1, true, Seq::empty(), parts.push(PartView::Text(buf)))
        }
    } else if s[i] == '}' {
        if i + 1 < s.len() && s[i + 1] == '}' {
            lex_from(s, i + 2, waiting, buf.push('}'), parts)
        } else if !waiting {
            Err(PromptTemplateError::BraceMismatch)
        } else if buf.len() == 0 {
            Err(PromptTemplateError::EmptyVariable)
        } else {
            lex_from(s, i + 1, false, Seq::empty(), parts.push(PartView::Var(buf)))
        }
    } else {
        lex_from(s, i + 1, waiting, buf.push(s[i]), parts)
    }
}

/// The parts of the template string `s`, or why it has none.
pub open spec fn lex(s: Seq<char>) -> Result<Seq<PartView>, PromptTemplateError> {
    lex_from(s, 0, false, Seq::empty(), Seq::empty())
}

/// The text of `parts` in `context`: each text part as it is, each variable
/// replaced by its value. `Err` holds the name of the first variable that
/// the context lacks.
pub open spec fn render_parts<C: Context>(parts: Seq<PartView>, context: &C) -> Result<
    Seq<char>,
    Seq<char>,
>
    decreases parts.len(),
{
    if parts.len() == 0 {
        Ok(Seq::empty())
    } else {
        match render_parts(parts.drop_last(), context) {
            Err(name) => Err(name),
            Ok(text) => match parts.last() {
                PartView::Text(t) => Ok(text + t),
                PartView::Var(name) => match var_of(context, name) {
                    Some(value) => Ok(text + value),
                    None => Err(name),
                },
            },
        }
    }
}

/// The parts are text only: rendering them asks the context nothing.
pub open spec fn text_only(parts: Seq<PartView>) -> bool {
    forall|k: int| 0 <= k < parts.len() ==> (#[trigger] parts[k]) is Text
}

/// What a template with these parts asks in `context`: nothing when it has
/// no parts, else its rendered text.
pub open spec fn template_prompt<C: Context>(parts: Seq<PartView>, context: &C) -> Result<
    Option<Seq<char>>,
    PromptErrorView,
> {
    if parts.len() == 0 {
        Ok(None)
    } else {
        match render_parts(parts, context) {
            Ok(text) => Ok(Some(text)),
            Err(name) => Err(PromptErrorView::MissingContextVar(name)),
        }
    }
}

/// The mathematical value of what rendering a prompt returns.
pub open spec fn prompt_view(r: Result<Option<String>, PromptError>) -> Result<
    Option<Seq<char>>,
    PromptErrorView,
> {
    match r {
        Ok(Some(text)) => Ok(Some(text@)),
        Ok(None) => Ok(None),
        Err(e) => Err(e@),
    }
}

/// A failure in a prefix of the parts is the failure of the whole.
pub proof fn lemma_render_prefix_fails<C: Context>(parts: Seq<PartView>, context: &C, k: int)
    requires
        0 <= k <= parts.len(),
        render_parts(parts.take(k), context) is Err,
    ensures
        render_parts(parts, context) == render_parts(parts.take(k), context),
    decreases parts.len() - k,
{
    if k == parts.len() {
        assert(parts.take(k) =~= parts);
    } else {
        assert(parts.take(k + 1).drop_last() =~= parts.take(k));
        lemma_render_prefix_fails(parts, context, k + 1);
    }
}

/// Rendering reads the context only through its variables: two contexts
/// that resolve every name alike render every template alike, so a
/// repeated render in an unchanged context gives the same result.
pub proof fn lemma_render_depends_on_vars<C: Context>(parts: Seq<PartView>, a: &C, b: &C)
    requires
        forall|key: Seq<char>| var_of(a, key) == var_of(b, key),
    ensures
        render_parts(parts, a) == render_parts(parts, b),
        template_prompt(parts, a) == template_prompt(parts, b),
    decreases parts.len(),
{
    if parts.len() > 0 {
        lemma_render_depends_on_vars(parts.drop_last(), a, b);
    }
}

/// How one character of fixed text is written in a template: a brace is
/// doubled, any other character stands for itself.
pub open spec fn escape_char(c: char) -> Seq<char> {
    if c == '{' {
        seq!['{', '{']
    } else if c == '}' {
        seq!['}', '}']
    } else {
        seq![c]
    }
}

/// How fixed text is written in a template.
pub open spec fn escape(text: Seq<char>) -> Seq<char>
    decreases text.len(),
{
    if text.len() == 0 {
        Seq::empty()
    } else {
        escape_char(text[0]) + escape(text.drop_first())
    }
}

/// The text read so far, with what is still to come, as one last part.
pub open spec fn with_text(parts: Seq<PartView>, text: Seq<char>) -> Seq<PartView> {
    if text.len() > 0 {
        parts.push(PartView::Text(text))
    } else {
        parts
    }
}

/// Outside a placeholder, the lexer reads escaped text back as it was.
pub proof fn lemma_lex_escaped(
    before: Seq<char>,
    rest: Seq<char>,
    buf: Seq<char>,
    parts: Seq<PartView>,
)
    ensures
        lex_from(before + escape(rest), before.len() as int, false, buf, parts) == Ok::<
            Seq<PartView>,
            PromptTemplateError,
        >(with_text(parts, buf + rest)),
    decreases rest.len(),
{
    let s = before + escape(rest);
    let i = before.len() as int;
    if rest.len() == 0 {
        assert(buf + rest =~= buf);
        assert(s =~= before);
    } else {
        let c = rest[0];
        let tail = rest.drop_first();
        let written = escape_char(c);
        assert(s =~= (before + written) + escape(tail));
        assert(buf.push(c) + tail =~= buf + rest);
        lemma_lex_escaped(before + written, tail, buf.push(c), parts);
        assert(s[i] == written[0]);
        if c == '{' || c == '}' {
            assert(s[i + 1] == written[1]);
        }
    }
}

/// Fixed text survives the round trip: written with its braces doubled and
/// parsed, it is a template of one text part that holds it, and such a
/// template renders as that text in every context. Empty text gives a
/// template without parts.
pub proof fn lemma_fixed_text_round_trips<C: Context>(text: Seq<char>, context: &C)
    ensures
        lex(escape(text)) == Ok::<Seq<PartView>, PromptTemplateError>(
            with_text(Seq::empty(), text),
        ),
        template_prompt(with_text(Seq::empty(), text), context) == if text.len() > 0 {
            Ok::<Option<Seq<char>>, PromptErrorView>(Some(text))
        } else {
            Ok(None)
        },
{
    lemma_lex_escaped(Seq::empty(), text, Seq::empty(), Seq::empty());
    assert(Seq::<char>::empty() + escape(text) =~= escape(text));
    assert(Seq::<char>::empty() + text =~= text);
    if text.len() > 0 {
        let parts = with_text(Seq::empty(), text);
        assert(parts.drop_last() =~= Seq::<PartView>::empty());
        assert(parts.last() == PartView::Text(text));
        reveal_with_fuel(render_parts, 2);
    }
}

/// How a part is written in a template: text with its braces doubled, a
/// variable as its name between single braces. A closing brace inside a
/// name is doubled, as the lexer reads it.
pub open spec fn write_part(part: PartView) -> Seq<char> {
    match part {
        PartView::Text(text) => escape(text),
        PartView::Var(name) => seq!['{'] + escape(name) + seq!['}'],
    }
}

/// How a run of parts is written in a template.
pub open spec fn write_parts(parts: Seq<PartView>) -> Seq<char>
    decreases parts.len(),
{
    if parts.len() == 0 {
        Seq::empty()
    } else {
        write_parts(parts.drop_last()) + write_part(parts.last())
    }
}

/// How the lexer's unfinished part is written: running text with its
/// braces doubled, an open placeholder after its opening brace.
pub open spec fn write_pending(waiting: bool, buf: Seq<char>) -> Seq<char> {
    if waiting {
        seq!['{'] + escape(buf)
    } else {
        escape(buf)
    }
}

/// Every variable among the parts has a name.
pub open spec fn vars_named(parts: Seq<PartView>) -> bool {
    forall|k: int|
        0 <= k < parts.len() ==> ((#[trigger] parts[k]) matches PartView::Var(name) ==> name.len()
            > 0)
}

/// Neither brace occurs in `text`.
pub open spec fn brace_free(text: Seq<char>) -> bool {
    forall|k: int| 0 <= k < text.len() ==> #[trigger] text[k] != '{' && text[k] != '}'
}

/// Text written with one more character is the text written, then the
/// character written.
pub proof fn lemma_escape_push(text: Seq<char>, c: char)
    ensures
        escape(text.push(c)) == escape(text) + escape_char(c),
    decreases text.len(),
{
    if text.len() == 0 {
        reveal_with_fuel(escape, 2);
        assert(text.push(c).drop_first() =~= Seq::<char>::empty());
        assert(text.push(c)[0] == c);
        assert(escape(text.push(c)) =~= escape_char(c) + Seq::<char>::empty());
        assert(escape(text) + escape_char(c) =~= escape_char(c));
        assert(escape_char(c) + Seq::<char>::empty() =~= escape_char(c));
    } else {
        let rest = text.drop_first();
        assert(text.push(c).drop_first() =~= rest.push(c));
        lemma_escape_push(rest, c);
        assert(escape_char(text[0]) + (escape(rest) + escape_char(c)) =~= (escape_char(text[0])
            + escape(rest)) + escape_char(c));
    }
}

/// Text without braces is written as it is.
pub proof fn lemma_escape_brace_free(text: Seq<char>)
    requires
        brace_free(text),
    ensures
        escape(text) == text,
    decreases text.len(),
{
    if text.len() > 0 {
        let rest = text.drop_first();
        assert forall|k: int| 0 <= k < rest.len() implies #[trigger] rest[k] != '{' && rest[k]
            != '}' by {
            assert(rest[k] == text[k + 1]);
        }
        lemma_escape_brace_free(rest);
        assert(text[0] != '{' && text[0] != '}');
        assert(seq![text[0]] + rest =~= text);
    } else {
        assert(text =~= Seq::<char>::empty());
    }
}

/// The lexer loses nothing: from a state that accounts for the characters
/// read so far, a successful run ends with parts that are written as the
/// whole template, and every variable among them has a name.
pub proof fn lemma_lex_from_writes_back(
    s: Seq<char>,
    i: int,
    waiting: bool,
    buf: Seq<char>,
    parts: Seq<PartView>,
)
    requires
        0 <= i <= s.len(),
        s.take(i) == write_parts(parts) + write_pending(waiting, buf),
        vars_named(parts),
        lex_from(s, i, waiting, buf, parts) is Ok,
    ensures
        write_parts(lex_from(s, i, waiting, buf, parts)->Ok_0) == s,
        vars_named(lex_from(s, i, waiting, buf, parts)->Ok_0),
    decreases s.len() - i,
{
    let read = s.take(i);
    let done = write_parts(parts);
    if i >= s.len() {
        assert(read =~= s);
        if buf.len() > 0 {
            let all = parts.push(PartView::Text(buf));
            assert(all.drop_last() =~= parts);
        } else {
            assert(buf =~= Seq::<char>::empty());
            assert(done + escape(buf) =~= done);
        }
    } else {
        let c = s[i];
        let doubled = i + 1 < s.len() && s[i + 1] == c;
        if (c == '{' || c == '}') && doubled {
            assert(s.take(i + 2) =~= read + seq![c, c]);
            lemma_escape_push(buf, c);
            assert(escape_char(c) =~= seq![c, c]);
            assert(done + (write_pending(waiting, buf) + seq![c, c]) =~= (done + write_pending(
                waiting,
                buf,
            )) + seq![c, c]);
            if waiting {
                assert(seq!['{'] + (escape(buf) + seq![c, c]) =~= (seq!['{'] + escape(buf))
                    + seq![c, c]);
            }
            assert(s.take(i + 2) == done + write_pending(waiting, buf.push(c)));
            lemma_lex_from_writes_back(s, i + 2, waiting, buf.push(c), parts);
        } else if c == '{' {
            let next = parts.push(PartView::Text(buf));
            assert(next.drop_last() =~= parts);
            assert(s.take(i + 1) =~= read + seq!['{']);
            assert(escape(Seq::<char>::empty()) =~= Seq::<char>::empty());
            assert((done + escape(buf)) + seq!['{'] =~= (done + escape(buf)) + (seq!['{']
                + Seq::<char>::empty()));
            lemma_lex_from_writes_back(s, i + 1, true, Seq::empty(), next);
        } else if c == '}' {
            let next = parts.push(PartView::Var(buf));
            assert(next.drop_last() =~= parts);
            assert(s.take(i + 1) =~= read + seq!['}']);
            assert(escape(Seq::<char>::empty()) =~= Seq::<char>::empty());
            assert((done + (seq!['{'] + escape(buf))) + seq!['}'] =~= (done + ((seq!['{']
                + escape(buf)) + seq!['}'])) + Seq::<char>::empty());
            lemma_lex_from_writes_back(s, i + 1, false, Seq::empty(), next);
        } else {
            assert(s.take(i + 1) =~= read + seq![c]);
            lemma_escape_push(buf, c);
            assert(done + (write_pending(waiting, buf) + seq![c]) =~= (done + write_pending(
                waiting,
                buf,
            )) + seq![c]);
            if waiting {
                assert(seq!['{'] + (escape(buf) + seq![c]) =~= (seq!['{'] + escape(buf))
                    + seq![c]);
            }
            assert(s.take(i + 1) == done + write_pending(waiting, buf.push(c)));
            lemma_lex_from_writes_back(s, i + 1, waiting, buf.push(c), parts);
        }
    }
}

/// Parsing loses nothing: the parts of a template, written back in order,
/// are the template again, and no variable among them has an empty name.
/// A name without braces is written as it stands between its braces.
pub proof fn lemma_parts_write_back(template: Seq<char>)
    requires
        lex(template) is Ok,
    ensures
        write_parts(lex(template)->Ok_0) == template,
        vars_named(lex(template)->Ok_0),
        forall|name: Seq<char>|
            brace_free(name) ==> #[trigger] write_part(PartView::Var(name)) == seq!['{'] + name
                + seq!['}'],
{
    assert(template.take(0) =~= Seq::<char>::empty());
    assert(write_parts(Seq::<PartView>::empty()) + write_pending(false, Seq::<char>::empty())
        =~= Seq::<char>::empty());
    lemma_lex_from_writes_back(template, 0, false, Seq::empty(), Seq::empty());
    assert forall|name: Seq<char>| brace_free(name) implies #[trigger] write_part(
        PartView::Var(name),
    ) == seq!['{'] + name + seq!['}'] by {
        lemma_escape_brace_free(name);
    }
}

/// A parsed template.
pub struct PromptTemplate {
    parts: Vec<TemplatePart>,
}

impl View for PromptTemplate {
    type V = Seq<PartView>;

    closed spec fn view(&self) -> Seq<PartView> {
        parts_view(self.parts@)
    }
}

impl PromptTemplate {
    /// Splits a template string into its parts.
    pub fn new(template: &str) -> (r: Result<PromptTemplate, PromptTemplateError>)
        ensures
            match lex(template@) {
                Ok(parts) => r matches Ok(t) && t@ == parts,
                Err(e) => r matches Err(x) && x == e,
            },
    {
        let chars = chars_of(template);
        let mut waiting = false;
        let mut parts: Vec<TemplatePart> = Vec::new();
        let mut buffer = String::new();
        let mut i: usize = 0;
        assert(parts_view(parts@) =~= Seq::empty());
        while i < chars.len()
            invariant
                i <= chars.len(),
                chars@ == template@,
                lex_from(chars@, i as int, waiting, buffer@, parts_view(parts@)) == lex(
                    template@,
                ),
            decreases chars.len() - i,
        {
            let c = chars[i];
            let ghost before = parts_view(parts@);
            if c == '{' {
                if waiting {
                    return Err(PromptTemplateError::BraceMismatch);
                }
                if i + 1 < chars.len() && chars[i + 1] == '{' {
                    push_char(&mut buffer, '{');
                    i += 2;
                } else {
                    waiting = true;
                    let text = buffer;
                    buffer = String::new();
                    parts.push(TemplatePart::Text(text));
                    assert(parts_view(parts@) =~= before.push(PartView::Text(text@)));
                    i += 1;
                }
            } else if c == '}' {
                if i + 1 < chars.len() && chars[i + 1] == '}' {
                    push_char(&mut buffer, '}');
                    i += 2;
                } else {
                    if !waiting {
                        return Err(PromptTemplateError::BraceMismatch);
                    }
                    if buffer.as_str().is_empty() {
                        return Err(PromptTemplateError::EmptyVariable);
                    }
                    let name = buffer;
                    buffer = String::new();
                    parts.push(TemplatePart::Var(name));
                    assert(parts_view(parts@) =~= before.push(PartView::Var(name@)));
                    waiting = false;
                    i += 1;
                }
            } else {
                push_char(&mut buffer, c);
                i += 1;
            }
        }
        if waiting {
            return Err(PromptTemplateError::BraceMismatch);
        }
        if !buffer.as_str().is_empty() {
            let ghost before = parts_view(parts@);
            parts.push(TemplatePart::Text(buffer));
            assert(parts_view(parts@) =~= before.push(PartView::Text(buffer@)));
        }
        Ok(PromptTemplate { parts })
    }

    /// The number of parts.
    pub fn part_count(&self) -> (n: usize)
        ensures
            n == self@.len(),
    {
        self.parts.len()
    }

    /// Renders the template in `context`. A template without parts asks
    /// nothing; a variable that the context lacks is an error that names it.
    pub fn render<C: Context>(&self, context: &C) -> (r: Result<Option<String>, PromptError>)
        ensures
            (is_lookup(context) || text_only(self@)) ==> prompt_view(r) == template_prompt(
                self@,
                context,
            ),
    {
        let ghost all = self@;
        if self.parts.len() == 0 {
            return Ok(None);
        }
        let mut text = String::new();
        let mut j: usize = 0;
        assert(all.take(0) =~= Seq::empty());
        while j < self.parts.len()
            invariant
                j <= self.parts.len(),
                all == parts_view(self.parts@),
                (is_lookup(context) || text_only(all)) ==> render_parts(
                    all.take(j as int),
                    context,
                ) == Ok::<Seq<char>, Seq<char>>(text@),
            decreases self.parts.len() - j,
        {
            assert(all.take(j + 1).drop_last() =~= all.take(j as int));
            assert(all.take(j + 1).last() == self.parts[j as int]@);
            assert(all[j as int] == self.parts[j as int]@);
            match &self.parts[j] {
                TemplatePart::Text(t) => {
                    text.append(t.as_str());
                },
                TemplatePart::Var(name) => {
                    let key = name.as_str();
                    let answer = context.template_var(key);
                    proof {
                        if is_lookup(context) {
                            lemma_answer_is_var(context, key, answer);
                        }
                    }
                    match answer {
                        Some(value) => {
                            text.append(value.as_str());
                        },
                        None => {
                            proof {
                                if is_lookup(context) {
                                    lemma_render_prefix_fails(all, context, j + 1);
                                }
                            }
                            return Err(PromptError::MissingContextVar(name.clone()));
                        },
                    }
                },
            }
            j += 1;
        }
        assert(all.take(j as int) =~= all);
        Ok(Some(text))
    }
}

} // verus!
