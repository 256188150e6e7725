//! Backslash escaping for the three contexts of the line protocol.
use vstd::prelude::*;

use crate::text::push_char;

verus! {

broadcast use vstd::string::group_string_axioms;

/// The place in a line where a piece of text is written.
#[derive(Clone, Copy, Debug, PartialEq, Eq, Structural)]
pub enum EscapeContext {
    /// A measurement name: `,` and space are escaped.
    Measurement,
    /// A tag key, tag value or field key: `,`, `=` and space are escaped.
    Key,
    /// The payload of a string field value: `"` is escaped.
    FieldString,
}

impl EscapeContext {
    /// Whether `c` is preceded by a backslash in this context.
    pub open spec fn needs_escape(self, c: char) -> bool {
        match self {
            EscapeContext::Measurement => c == ',' || c == ' ',
            EscapeContext::Key => c == ',' || c == '=' || c == ' ',
            EscapeContext::FieldString => c == '"',
        }
    }

    fn escapes(self, c: char) -> (r: bool)
        ensures
            r == self.needs_escape(c),
    {
        match self {
            EscapeContext::Measurement => c == ',' || c == ' ',
            EscapeContext::Key => c == ',' || c == '=' || c == ' ',
            EscapeContext::FieldString => c == '"',
        }
    }
}

/// The text written for the single character `c`.
pub open spec fn escaped_char(ctx: EscapeContext, c: char) -> Seq<char> {
    if ctx.needs_escape(c) {
        seq!['\\', c]
    } else {
        seq![c]
    }
}

/// `s` with a backslash before each character that `ctx` escapes.
pub open spec fn escaped(ctx: EscapeContext, s: Seq<char>) -> Seq<char>
    decreases s.len(),
{
    if s.len() == 0 {
        Seq::empty()
    } else {
        escaped(ctx, s.drop_last()) + escaped_char(ctx, s.last())
    }
}

/// Appends `s`, escaped for `ctx`, to `out`.
pub(crate) fn push_escaped(out: &mut String, s: &str, ctx: EscapeContext)
    ensures
        final(out)@ == old(out)@ + escaped(ctx, s@),
{
    let ghost start = out@;
    for c in it: s.chars()
        invariant
            it.seq() == s@,
            out@ == start + escaped(ctx, s@.take(it.index())),
    {
        assert(s@.take(it.index() + 1).drop_last() == s@.take(it.index()));
        if ctx.escapes(c) {
            push_char(out, '\\');
        }
        push_char(out, c);
    }
    assert(s@.take(s@.len() as int) == s@);
}

/// Escapes a tag key, tag value or field key: a backslash before each `,`,
/// `=` and space.
pub fn escape_tag_and_field_keys(s: &str) -> (r: String)
    ensures
        r@ == escaped(EscapeContext::Key, s@),
{
    let mut out = String::new();
    push_escaped(&mut out, s, EscapeContext::Key);
    out
}

/// Escapes a measurement name: a backslash before each `,` and space.
pub fn escape_measurement(s: &str) -> (r: String)
    ensures
        r@ == escaped(EscapeContext::Measurement, s@),
{
    let mut out = String::new();
    push_escaped(&mut out, s, EscapeContext::Measurement);
    out
}

/// Escapes the payload of a string field value: a backslash before each `"`.
/// The surrounding quotes are not added.
pub fn escape_field_value_string(s: &str) -> (r: String)
    ensures
        r@ == escaped(EscapeContext::FieldString, s@),
{
    let mut out = String::new();
    push_escaped(&mut out, s, EscapeContext::FieldString);
    out
}

/// The number of occurrences of `c` in `s`.
pub open spec fn count_char(s: Seq<char>, c: char) -> nat
    decreases s.len(),
{
    if s.len() == 0 {
        0
    } else {
        count_char(s.drop_last(), c) + if s.last() == c {
            1nat
        } else {
            0nat
        }
    }
}

proof fn lemma_count_char_concat(a: Seq<char>, b: Seq<char>, c: char)
    ensures
        count_char(a + b, c) == count_char(a, c) + count_char(b, c),
    decreases b.len(),
{
    if b.len() == 0 {
        assert(a + b =~= a);
    } else {
        lemma_count_char_concat(a, b.drop_last(), c);
        assert((a + b).drop_last() =~= a + b.drop_last());
    }
}

/// Text in which `ctx` finds nothing to escape is written unchanged.
pub proof fn lemma_escaped_unchanged(ctx: EscapeContext, s: Seq<char>)
    requires
        forall|i: int| 0 <= i < s.len() ==> !ctx.needs_escape(#[trigger] s[i]),
    ensures
        escaped(ctx, s) == s,
    decreases s.len(),
{
    if s.len() > 0 {
        lemma_escaped_unchanged(ctx, s.drop_last());
        assert(escaped(ctx, s) =~= s);
    }
}

/// Text holding none of `,`, `=`, space and `"` is left unchanged both by key
/// escaping and by field-string escaping.
pub proof fn lemma_safe_text_unchanged(s: Seq<char>)
    requires
        forall|i: int|
            0 <= i < s.len() ==> #[trigger] s[i] != ',' && s[i] != '=' && s[i] != ' ' && s[i]
                != '"',
    ensures
        escaped(EscapeContext::Key, s) == s,
        escaped(EscapeContext::FieldString, s) == s,
{
    lemma_escaped_unchanged(EscapeContext::Key, s);
    lemma_escaped_unchanged(EscapeContext::FieldString, s);
}

/// Key escaping inserts exactly one backslash for each `,`, `=` and space of
/// `s`: the backslashes of the result are those of `s` plus that many, and
/// nothing else is added.
pub proof fn lemma_key_escape_backslashes(s: Seq<char>)
    ensures
        count_char(escaped(EscapeContext::Key, s), '\\') == count_char(s, '\\') + count_char(
            s,
            ',',
        ) + count_char(s, '=') + count_char(s, ' '),
        escaped(EscapeContext::Key, s).len() == s.len() + count_char(s, ',') + count_char(s, '=')
            + count_char(s, ' '),
    decreases s.len(),
{
    if s.len() > 0 {
        let ctx = EscapeContext::Key;
        let init = s.drop_last();
        let c = s.last();
        lemma_key_escape_backslashes(init);
        lemma_count_char_concat(escaped(ctx, init), escaped_char(ctx, c), '\\');
        if ctx.needs_escape(c) {
            assert(seq!['\\', c].drop_last() =~= seq!['\\']);
            assert(seq!['\\'].drop_last() =~= Seq::<char>::empty());
            assert(count_char(Seq::<char>::empty(), '\\') == 0);
            assert(count_char(seq!['\\'], '\\') == 1);
            assert(count_char(seq!['\\', c], '\\') == 1);
        } else {
            assert(seq![c].drop_last() =~= Seq::<char>::empty());
            assert(count_char(Seq::<char>::empty(), '\\') == 0);
            assert(count_char(seq![c], '\\') == if c == '\\' {
                1nat
            } else {
                0nat
            });
        }
    }
}

} // verus!
