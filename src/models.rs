//! The values a point carries and how each is written as text.
use vstd::prelude::*;

use crate::escape::{escaped, push_escaped, EscapeContext};
use crate::text::{decimal, digits, push_char, push_decimal, push_digits, push_str};

verus! {

broadcast use vstd::string::group_string_axioms;

/// The characters of `true` or `false`.
pub open spec fn bool_text(b: bool) -> Seq<char> {
    if b {
        seq!['t', 'r', 'u', 'e']
    } else {
        seq!['f', 'a', 'l', 's', 'e']
    }
}

/// A field value.
///
/// A float is held as its decimal text, the shortest text that reads back as
/// the same `f64` (what `f64`'s `Display` writes); it is written as it stands.
#[derive(Debug)]
pub enum Value {
    Str(String),
    Int(i64),
    UInt(u64),
    Float(String),
    Bool(bool),
}

impl Value {
    /// The text of a field value in a line: a string quoted with its `"`
    /// escaped, a signed integer with an `i` suffix, an unsigned one with a
    /// `u` suffix, a float and a boolean as they are.
    pub open spec fn encoded(&self) -> Seq<char> {
        match self {
            Value::Str(s) => seq!['"'] + escaped(EscapeContext::FieldString, s@) + seq!['"'],
            Value::Int(i) => decimal(*i as int).push('i'),
            Value::UInt(u) => digits(*u as nat).push('u'),
            Value::Float(f) => f@,
            Value::Bool(b) => bool_text(*b),
        }
    }

    /// The plain text of the value: a string as it is, a number without
    /// suffix, a boolean as `true` or `false`.
    pub open spec fn text(&self) -> Seq<char> {
        match self {
            Value::Str(s) => s@,
            Value::Int(i) => decimal(*i as int),
            Value::UInt(u) => digits(*u as nat),
            Value::Float(f) => f@,
            Value::Bool(b) => bool_text(*b),
        }
    }

    /// Writes the value as it stands in a field of a line.
    pub fn encode(&self) -> (r: String)
        ensures
            r@ == self.encoded(),
    {
        let mut out = String::new();
        push_encoded(&mut out, self);
        out
    }

    /// Writes the plain text of the value.
    pub fn to_string(&self) -> (r: String)
        ensures
            r@ == self.text(),
    {
        let mut out = String::new();
        match self {
            Value::Str(s) => push_str(&mut out, s.as_str()),
            Value::Int(i) => push_decimal(&mut out, *i),
            Value::UInt(u) => push_digits(&mut out, *u),
            Value::Float(f) => push_str(&mut out, f.as_str()),
            Value::Bool(b) => push_bool(&mut out, *b),
        }
        out
    }
}

impl Clone for Value {
    fn clone(&self) -> (r: Self)
        ensures
            r == *self,
    {
        match self {
            Value::Str(s) => Value::Str(s.clone()),
            Value::Int(i) => Value::Int(*i),
            Value::UInt(u) => Value::UInt(*u),
            Value::Float(f) => Value::Float(f.clone()),
            Value::Bool(b) => Value::Bool(*b),
        }
    }
}

impl From<i64> for Value {
    fn from(v: i64) -> Value {
        Value::Int(v)
    }
}

impl vstd::std_specs::convert::FromSpecImpl<i64> for Value {
    open spec fn obeys_from_spec() -> bool {
        true
    }

    open spec fn from_spec(v: i64) -> Value {
        Value::Int(v)
    }
}

impl From<u64> for Value {
    fn from(v: u64) -> Value {
        Value::UInt(v)
    }
}

impl vstd::std_specs::convert::FromSpecImpl<u64> for Value {
    open spec fn obeys_from_spec() -> bool {
        true
    }

    open spec fn from_spec(v: u64) -> Value {
        Value::UInt(v)
    }
}

impl From<bool> for Value {
    fn from(v: bool) -> Value {
        Value::Bool(v)
    }
}

impl vstd::std_specs::convert::FromSpecImpl<bool> for Value {
    open spec fn obeys_from_spec() -> bool {
        true
    }

    open spec fn from_spec(v: bool) -> Value {
        Value::Bool(v)
    }
}

pub(crate) fn push_bool(out: &mut String, b: bool)
    ensures
        final(out)@ == old(out)@ + bool_text(b),
{
    if b {
        proof {
            reveal_strlit("true");
        }
        push_str(out, "true");
    } else {
        proof {
            reveal_strlit("false");
        }
        push_str(out, "false");
    }
}

/// Appends the text of `v` as it stands in a field of a line.
pub(crate) fn push_encoded(out: &mut String, v: &Value)
    ensures
        final(out)@ == old(out)@ + v.encoded(),
{
    let ghost start = out@;
    match v {
        Value::Str(s) => {
            push_char(out, '"');
            push_escaped(out, s.as_str(), EscapeContext::FieldString);
            push_char(out, '"');
        },
        Value::Int(i) => {
            push_decimal(out, *i);
            push_char(out, 'i');
        },
        Value::UInt(u) => {
            push_digits(out, *u);
            push_char(out, 'u');
        },
        Value::Float(f) => push_str(out, f.as_str()),
        Value::Bool(b) => push_bool(out, *b),
    }
    assert(out@ =~= start + v.encoded());
}

/// The time of a point, in whatever precision the write declares: either
/// text written as it stands or an integer count.
#[derive(Debug)]
pub enum Timestamp {
    Str(String),
    Int(i64),
}

impl Timestamp {
    /// The text written for the timestamp at the end of a line.
    pub open spec fn text(&self) -> Seq<char> {
        match self {
            Timestamp::Str(s) => s@,
            Timestamp::Int(i) => decimal(*i as int),
        }
    }

    /// Writes the timestamp as it stands at the end of a line.
    pub fn to_string(&self) -> (r: String)
        ensures
            r@ == self.text(),
    {
        let mut out = String::new();
        push_timestamp(&mut out, self);
        out
    }
}

/// Appends the text of `t` to `out`.
pub(crate) fn push_timestamp(out: &mut String, t: &Timestamp)
    ensures
        final(out)@ == old(out)@ + t.text(),
{
    match t {
        Timestamp::Str(s) => push_str(out, s.as_str()),
        Timestamp::Int(i) => push_decimal(out, *i),
    }
}

impl Clone for Timestamp {
    fn clone(&self) -> (r: Self)
        ensures
            r == *self,
    {
        match self {
            Timestamp::Str(s) => Timestamp::Str(s.clone()),
            Timestamp::Int(i) => Timestamp::Int(*i),
        }
    }
}

impl From<i64> for Timestamp {
    fn from(v: i64) -> Timestamp {
        Timestamp::Int(v)
    }
}

impl vstd::std_specs::convert::FromSpecImpl<i64> for Timestamp {
    open spec fn obeys_from_spec() -> bool {
        true
    }

    open spec fn from_spec(v: i64) -> Timestamp {
        Timestamp::Int(v)
    }
}

/// One measurement observation: a name, tags and fields in the order they
/// were added, and an optional timestamp.
///
/// Keys may repeat; every pair is written, in order.
#[derive(Debug)]
pub struct Point {
    pub measurement: String,
    pub timestamp: Option<Timestamp>,
    pub tags: Vec<(String, String)>,
    pub fields: Vec<(String, Value)>,
}

impl Point {
    /// A point of the measurement `measurement`, with no tags, no fields and
    /// no timestamp.
    pub fn new(measurement: &str) -> (r: Point)
        ensures
            r.measurement@ == measurement@,
            r.timestamp is None,
            r.tags@.len() == 0,
            r.fields@.len() == 0,
    {
        Point {
            measurement: String::from_str(measurement),
            tags: Vec::new(),
            fields: Vec::new(),
            timestamp: None,
        }
    }

    /// The point with the tag `key=value` added after its other tags.
    pub fn tag(self, key: &str, value: &str) -> (r: Point)
        ensures
            r.measurement == self.measurement,
            r.timestamp == self.timestamp,
            r.fields == self.fields,
            r.tags@.len() == self.tags@.len() + 1,
            r.tags@.drop_last() == self.tags@,
            r.tags@.last().0@ == key@,
            r.tags@.last().1@ == value@,
    {
        let mut p = self;
        p.tags.push((String::from_str(key), String::from_str(value)));
        p
    }

    /// The point with the field `key=value` added after its other fields.
    pub fn field(self, key: &str, value: Value) -> (r: Point)
        ensures
            r.measurement == self.measurement,
            r.timestamp == self.timestamp,
            r.tags == self.tags,
            r.fields@.len() == self.fields@.len() + 1,
            r.fields@.drop_last() == self.fields@,
            r.fields@.last().0@ == key@,
            r.fields@.last().1 == value,
    {
        let mut p = self;
        p.fields.push((String::from_str(key), value));
        p
    }

    /// The point with its timestamp set to `timestamp`.
    pub fn timestamp(self, timestamp: Timestamp) -> (r: Point)
        ensures
            r.measurement == self.measurement,
            r.tags == self.tags,
            r.fields == self.fields,
            r.timestamp == Some(timestamp),
    {
        let mut p = self;
        p.timestamp = Some(timestamp);
        p
    }
}

impl Clone for Point {
    fn clone(&self) -> (r: Self)
        ensures
            r.measurement == self.measurement,
            r.timestamp == self.timestamp,
            r.tags@ == self.tags@,
            r.fields@ == self.fields@,
    {
        let mut tags: Vec<(String, String)> = Vec::new();
        for i in 0..self.tags.len()
            invariant
                tags@ == self.tags@.take(i as int),
        {
            tags.push((self.tags[i].0.clone(), self.tags[i].1.clone()));
            assert(tags@ =~= self.tags@.take(i + 1));
        }
        let mut fields: Vec<(String, Value)> = Vec::new();
        for i in 0..self.fields.len()
            invariant
                fields@ == self.fields@.take(i as int),
        {
            fields.push((self.fields[i].0.clone(), self.fields[i].1.clone()));
            assert(fields@ =~= self.fields@.take(i + 1));
        }
        assert(tags@ =~= self.tags@);
        assert(fields@ =~= self.fields@);
        let timestamp = match &self.timestamp {
            Some(t) => Some(t.clone()),
            None => None,
        };
        Point { measurement: self.measurement.clone(), timestamp, tags, fields }
    }
}

/// Which timestamp each line of a write carries.
pub enum TimestampOptions {
    /// No timestamp: the server assigns the time of the write.
    Omit,
    /// The same timestamp on every line.
    Use(Timestamp),
    /// Each point's own timestamp.
    FromPoint,
}

impl Clone for TimestampOptions {
    fn clone(&self) -> (r: Self)
        ensures
            r == *self,
    {
        match self {
            TimestampOptions::Omit => TimestampOptions::Omit,
            TimestampOptions::Use(t) => TimestampOptions::Use(t.clone()),
            TimestampOptions::FromPoint => TimestampOptions::FromPoint,
        }
    }
}

/// The unit in which a write declares its integer timestamps.
#[derive(Debug, Clone, Copy, PartialEq, Eq, Structural)]
pub enum Precision {
    NS,
    US,
    MS,
    S,
}

impl Precision {
    /// The name of the unit in a write request: `ns`, `us`, `ms` or `s`.
    pub open spec fn text(self) -> Seq<char> {
        match self {
            Precision::NS => seq!['n', 's'],
            Precision::US => seq!['u', 's'],
            Precision::MS => seq!['m', 's'],
            Precision::S => seq!['s'],
        }
    }

    /// The name of the unit in a write request.
    pub fn to_string(&self) -> (r: &'static str)
        ensures
            r@ == self.text(),
    {
        match self {
            Precision::NS => {
                proof {
                    reveal_strlit("ns");
                }
                "ns"
            },
            Precision::US => {
                proof {
                    reveal_strlit("us");
                }
                "us"
            },
            Precision::MS => {
                proof {
                    reveal_strlit("ms");
                }
                "ms"
            },
            Precision::S => {
                proof {
                    reveal_strlit("s");
                }
                "s"
            },
        }
    }
}

/// Why a write was refused.
#[derive(Debug)]
pub enum InfluxError {
    /// The request did not reach the server, or no answer came back.
    Network(String),
    /// The server could not parse the body (status 400).
    InvalidSyntax(String),
    /// The token was not accepted (status 401).
    InvalidCredentials(String),
    /// The token may not write there (status 403).
    Forbidden(String),
    /// Any other refusal.
    Unknown(String),
}

} // verus!
