//! The layout of a line and the writing of points.
use vstd::prelude::*;

use crate::escape::{escaped, push_escaped, EscapeContext};
use crate::models::{push_encoded, push_timestamp, Point, Timestamp, Value};
use crate::text::{push_char, push_str};
use crate::traits::{timestamped, PointSerialize};

verus! {

/// `parts` one after the other, with `sep` between two neighbours.
pub open spec fn joined(parts: Seq<Seq<char>>, sep: char) -> Seq<char>
    decreases parts.len(),
{
    if parts.len() == 0 {
        Seq::empty()
    } else if parts.len() == 1 {
        parts[0]
    } else {
        joined(parts.drop_last(), sep).push(sep) + parts.last()
    }
}

/// A section of a line: nothing when `parts` is empty, else `lead` and then
/// `parts` separated by commas.
pub open spec fn section(lead: char, parts: Seq<Seq<char>>) -> Seq<char> {
    if parts.len() == 0 {
        Seq::empty()
    } else {
        seq![lead] + joined(parts, ',')
    }
}

/// `key=value` of a tag, both escaped.
pub open spec fn tag_text(tag: (String, String)) -> Seq<char> {
    escaped(EscapeContext::Key, tag.0@).push('=') + escaped(EscapeContext::Key, tag.1@)
}

/// `key=value` of a field, the key escaped and the value encoded.
pub open spec fn field_text(field: (String, Value)) -> Seq<char> {
    escaped(EscapeContext::Key, field.0@).push('=') + field.1.encoded()
}

/// `key=value` of each tag, in order.
pub open spec fn tag_texts(tags: Seq<(String, String)>) -> Seq<Seq<char>> {
    tags.map_values(|t: (String, String)| tag_text(t))
}

/// `key=value` of each field, in order.
pub open spec fn field_texts(fields: Seq<(String, Value)>) -> Seq<Seq<char>> {
    fields.map_values(|f: (String, Value)| field_text(f))
}

/// The line of a point without timestamp: the escaped measurement name, the
/// tag section led by `,` and the field section led by a space.
pub open spec fn point_line(p: &Point) -> Seq<char> {
    escaped(EscapeContext::Measurement, p.measurement@) + section(',', tag_texts(p.tags@))
        + section(' ', field_texts(p.fields@))
}

/// The text of the point's own timestamp, `0` when it has none.
pub open spec fn stored_timestamp(p: &Point) -> Seq<char> {
    match p.timestamp {
        Some(t) => t.text(),
        None => seq!['0'],
    }
}

proof fn lemma_joined_step(parts: Seq<Seq<char>>, i: int, sep: char)
    requires
        0 <= i < parts.len(),
    ensures
        joined(parts.take(i + 1), sep) == if i == 0 {
            parts[0]
        } else {
            joined(parts.take(i), sep).push(sep) + parts[i]
        },
{
    assert(parts.take(i + 1).drop_last() =~= parts.take(i));
}

/// Appends the tag section of `tags` to `out`.
fn push_tags(out: &mut String, tags: &Vec<(String, String)>)
    ensures
        final(out)@ == old(out)@ + section(',', tag_texts(tags@)),
{
    let ghost texts = tag_texts(tags@);
    if tags.len() > 0 {
        push_char(out, ',');
        let ghost start = out@;
        for i in 0..tags.len()
            invariant
                texts == tag_texts(tags@),
                out@ == start + joined(texts.take(i as int), ','),
        {
            if i > 0 {
                push_char(out, ',');
            }
            push_escaped(out, tags[i].0.as_str(), EscapeContext::Key);
            push_char(out, '=');
            push_escaped(out, tags[i].1.as_str(), EscapeContext::Key);
            proof {
                lemma_joined_step(texts, i as int, ',');
                assert(out@ =~= start + joined(texts.take(i + 1), ','));
            }
        }
        assert(texts.take(tags@.len() as int) =~= texts);
        assert(out@ =~= old(out)@ + section(',', texts));
    }
}

/// Appends the field section of `fields` to `out`.
fn push_fields(out: &mut String, fields: &Vec<(String, Value)>)
    ensures
        final(out)@ == old(out)@ + section(' ', field_texts(fields@)),
{
    let ghost texts = field_texts(fields@);
    if fields.len() > 0 {
        push_char(out, ' ');
        let ghost start = out@;
        for i in 0..fields.len()
            invariant
                texts == field_texts(fields@),
                out@ == start + joined(texts.take(i as int), ','),
        {
            if i > 0 {
                push_char(out, ',');
            }
            push_escaped(out, fields[i].0.as_str(), EscapeContext::Key);
            push_char(out, '=');
            push_encoded(out, &fields[i].1);
            proof {
                lemma_joined_step(texts, i as int, ',');
                assert(out@ =~= start + joined(texts.take(i + 1), ','));
            }
        }
        assert(texts.take(fields@.len() as int) =~= texts);
        assert(out@ =~= old(out)@ + section(' ', texts));
    }
}

impl PointSerialize for Point {
    open spec fn line(&self) -> Seq<char> {
        point_line(self)
    }

    open spec fn default_timestamp(&self) -> Seq<char> {
        stored_timestamp(self)
    }

    fn serialize(&self) -> (r: String) {
        let mut out = String::new();
        push_escaped(&mut out, self.measurement.as_str(), EscapeContext::Measurement);
        push_tags(&mut out, &self.tags);
        push_fields(&mut out, &self.fields);
        assert(out@ =~= point_line(self));
        out
    }

    fn serialize_with_timestamp(&self, timestamp: Option<Timestamp>) -> (r: String) {
        let mut out = self.serialize();
        push_char(&mut out, ' ');
        match &timestamp {
            Some(t) => push_timestamp(&mut out, t),
            None => match &self.timestamp {
                Some(t) => push_timestamp(&mut out, t),
                None => push_char(&mut out, '0'),
            },
        }
        assert(out@ =~= timestamped(self.line(), timestamp, self.default_timestamp()));
        out
    }
}

/// `s` ends with `t`.
pub open spec fn ends_with(s: Seq<char>, t: Seq<char>) -> bool {
    t.len() <= s.len() && s.subrange(s.len() - t.len(), s.len() as int) == t
}

/// A point without tags has nothing between its measurement name and its
/// field section, which starts with a space; a point without fields has
/// nothing after its tag section; a point with neither is its escaped
/// measurement name alone.
pub proof fn lemma_empty_sections(p: &Point)
    ensures
        p.tags@.len() == 0 ==> p.line() == escaped(EscapeContext::Measurement, p.measurement@)
            + section(' ', field_texts(p.fields@)),
        p.tags@.len() == 0 && p.fields@.len() > 0 ==> p.line()[escaped(
            EscapeContext::Measurement,
            p.measurement@,
        ).len() as int] == ' ',
        p.fields@.len() == 0 ==> p.line() == escaped(EscapeContext::Measurement, p.measurement@)
            + section(',', tag_texts(p.tags@)),
        p.tags@.len() == 0 && p.fields@.len() == 0 ==> p.line() == escaped(
            EscapeContext::Measurement,
            p.measurement@,
        ),
{
    let m = escaped(EscapeContext::Measurement, p.measurement@);
    let t = section(',', tag_texts(p.tags@));
    let f = section(' ', field_texts(p.fields@));
    if p.tags@.len() == 0 {
        assert(m + t =~= m);
        if p.fields@.len() > 0 {
            assert((m + f)[m.len() as int] == f[0]);
        }
    }
    if p.fields@.len() == 0 {
        assert(m + t + f =~= m + t);
    }
}

/// Timestamp precedence: a timestamp given at the call ends the line; without
/// one the point's own timestamp does; without either the line ends with `0`.
pub proof fn lemma_timestamp_precedence(p: &Point, given: Timestamp)
    ensures
        ends_with(timestamped(p.line(), Some(given), p.default_timestamp()), given.text()),
        p.timestamp matches Some(own) ==> ends_with(
            timestamped(p.line(), None, p.default_timestamp()),
            own.text(),
        ),
        p.timestamp is None ==> ends_with(
            timestamped(p.line(), None, p.default_timestamp()),
            seq!['0'],
        ),
{
    let head = p.line().push(' ');
    assert((head + given.text()).subrange(head.len() as int, (head + given.text()).len() as int)
        =~= given.text());
    if let Some(own) = p.timestamp {
        assert((head + own.text()).subrange(head.len() as int, (head + own.text()).len() as int)
            =~= own.text());
    } else {
        assert((head + seq!['0']).subrange(head.len() as int, head.len() + 1int) =~= seq!['0']);
    }
}

/// Two points with the same measurement name, tag texts, field keys and
/// field values have the same line, with or without a timestamp: writing
/// depends on nothing but the content of the point.
pub proof fn lemma_serialize_deterministic(p: &Point, q: &Point)
    requires
        p.measurement@ == q.measurement@,
        p.tags@.len() == q.tags@.len(),
        forall|i: int|
            0 <= i < p.tags@.len() ==> (#[trigger] p.tags@[i]).0@ == q.tags@[i].0@ && p.tags@[i].1@
                == q.tags@[i].1@,
        p.fields@.len() == q.fields@.len(),
        forall|i: int|
            0 <= i < p.fields@.len() ==> (#[trigger] p.fields@[i]).0@ == q.fields@[i].0@
                && p.fields@[i].1.encoded() == q.fields@[i].1.encoded(),
        p.default_timestamp() == q.default_timestamp(),
    ensures
        p.line() == q.line(),
        forall|t: Option<Timestamp>|
            #[trigger] timestamped(p.line(), t, p.default_timestamp()) == timestamped(
                q.line(),
                t,
                q.default_timestamp(),
            ),
{
    assert(tag_texts(p.tags@) =~= tag_texts(q.tags@));
    assert(field_texts(p.fields@) =~= field_texts(q.fields@));
}

} // verus!
