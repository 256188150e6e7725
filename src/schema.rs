//! Schema mapping: a record type is registered once as a list of members,
//! each with a role (tag, field or timestamp) and a protocol name, and its
//! records are then turned into points without building them by hand.
use vstd::prelude::*;

use crate::escape::{escaped, EscapeContext};
use crate::line::{point_line, section, stored_timestamp, field_texts, tag_texts};
use crate::models::{Point, Timestamp, Value};
use crate::traits::{timestamped, PointSerialize};

verus! {

/// The literal given to an annotation: text, or anything else.
#[derive(Debug)]
pub enum Literal {
    Text(String),
    Other,
}

/// The role of a record member. A tag or field may carry the name it has in
/// the protocol; without one, the member's own name is used.
#[derive(Debug)]
pub enum Role {
    Tag(Option<Literal>),
    Field(Option<Literal>),
    Timestamp,
    /// A member that is not written.
    Unmarked,
}

/// A member of a record type, as declared.
#[derive(Debug)]
pub struct Member {
    /// The member's own name.
    pub ident: String,
    pub role: Role,
    /// Whether the member's declared type is `Timestamp`.
    pub timestamp_typed: bool,
}

/// Why a record type cannot be registered.
#[derive(Debug, PartialEq, Eq, Structural)]
pub enum ConfigurationError {
    /// No measurement name was given.
    MissingMeasurement,
    /// The measurement name is not text.
    MeasurementNotText,
    /// No member has the field role.
    MissingField,
    /// The protocol name of the member at this position is not text.
    NameNotText(usize),
    /// No member has the timestamp role.
    MissingTimestamp,
    /// More than one member has the timestamp role.
    MultipleTimestamps,
    /// The timestamp member's type is not `Timestamp`.
    TimestampType,
}

/// Whether the protocol name of `m`, if it has one, is text.
pub open spec fn name_is_text(m: Member) -> bool {
    match m.role {
        Role::Tag(Some(Literal::Other)) => false,
        Role::Field(Some(Literal::Other)) => false,
        _ => true,
    }
}

/// The name under which `m` is written.
pub open spec fn protocol_name(m: Member) -> Seq<char> {
    match m.role {
        Role::Tag(Some(Literal::Text(s))) => s@,
        Role::Field(Some(Literal::Text(s))) => s@,
        _ => m.ident@,
    }
}

/// The position and protocol name of each member with the tag role (when
/// `tags`) or the field role (otherwise), in declaration order.
pub open spec fn role_entries(ms: Seq<Member>, tags: bool) -> Seq<(int, Seq<char>)>
    decreases ms.len(),
{
    if ms.len() == 0 {
        Seq::empty()
    } else {
        let rest = role_entries(ms.drop_last(), tags);
        let m = ms.last();
        if (tags && m.role is Tag) || (!tags && m.role is Field) {
            rest.push(((ms.len() - 1) as int, protocol_name(m)))
        } else {
            rest
        }
    }
}

/// The position of the first member whose protocol name is not text.
pub open spec fn first_bad_name(ms: Seq<Member>) -> Option<int>
    decreases ms.len(),
{
    if ms.len() == 0 {
        None
    } else {
        match first_bad_name(ms.drop_last()) {
            Some(i) => Some(i),
            None => if name_is_text(ms.last()) {
                None
            } else {
                Some(ms.len() - 1)
            },
        }
    }
}

/// The number of members with the timestamp role.
pub open spec fn timestamp_count(ms: Seq<Member>) -> nat
    decreases ms.len(),
{
    if ms.len() == 0 {
        0
    } else {
        timestamp_count(ms.drop_last()) + if ms.last().role is Timestamp {
            1nat
        } else {
            0nat
        }
    }
}

/// The position of the last member with the timestamp role, 0 when there is
/// none.
pub open spec fn timestamp_index(ms: Seq<Member>) -> int
    decreases ms.len(),
{
    if ms.len() == 0 {
        0
    } else if ms.last().role is Timestamp {
        ms.len() - 1
    } else {
        timestamp_index(ms.drop_last())
    }
}

/// What refuses a registration, checked in this order: the measurement name,
/// the presence of a field, the protocol names, the presence and uniqueness
/// of the timestamp, the timestamp's type.
pub open spec fn registration_error(measurement: Option<Literal>, ms: Seq<Member>) -> Option<
    ConfigurationError,
> {
    match measurement {
        None => Some(ConfigurationError::MissingMeasurement),
        Some(Literal::Other) => Some(ConfigurationError::MeasurementNotText),
        Some(Literal::Text(_)) => if role_entries(ms, false).len() == 0 {
            Some(ConfigurationError::MissingField)
        } else if first_bad_name(ms) is Some {
            Some(ConfigurationError::NameNotText(first_bad_name(ms)->0 as usize))
        } else if timestamp_count(ms) == 0 {
            Some(ConfigurationError::MissingTimestamp)
        } else if timestamp_count(ms) > 1 {
            Some(ConfigurationError::MultipleTimestamps)
        } else if !ms[timestamp_index(ms)].timestamp_typed {
            Some(ConfigurationError::TimestampType)
        } else {
            None
        },
    }
}

/// A registered record type, as the contracts see it.
pub struct SchemaView {
    pub measurement: Seq<char>,
    /// Position of the member and protocol name of each tag, in order.
    pub tags: Seq<(int, Seq<char>)>,
    /// Position of the member and protocol name of each field, in order.
    pub fields: Seq<(int, Seq<char>)>,
    /// Position of the timestamp member.
    pub timestamp: int,
    /// Number of members.
    pub members: nat,
}

/// The schema that registering `ms` under `measurement` yields.
pub open spec fn registered(measurement: Seq<char>, ms: Seq<Member>) -> SchemaView {
    SchemaView {
        measurement,
        tags: role_entries(ms, true),
        fields: role_entries(ms, false),
        timestamp: timestamp_index(ms),
        members: ms.len(),
    }
}

/// The positions and texts of a list of entries.
pub open spec fn entries_text(v: Seq<(usize, String)>) -> Seq<(int, Seq<char>)> {
    v.map_values(|e: (usize, String)| (e.0 as int, e.1@))
}

/// A registered record type: how each of its records is written.
#[derive(Debug)]
pub struct Schema {
    measurement: String,
    tags: Vec<(usize, String)>,
    fields: Vec<(usize, String)>,
    timestamp: usize,
    members: usize,
}

impl View for Schema {
    type V = SchemaView;

    closed spec fn view(&self) -> SchemaView {
        SchemaView {
            measurement: self.measurement@,
            tags: entries_text(self.tags@),
            fields: entries_text(self.fields@),
            timestamp: self.timestamp as int,
            members: self.members as nat,
        }
    }
}

fn name_of(m: &Member) -> (r: String)
    ensures
        r@ == protocol_name(*m),
{
    match &m.role {
        Role::Tag(Some(Literal::Text(s))) => s.clone(),
        Role::Field(Some(Literal::Text(s))) => s.clone(),
        _ => m.ident.clone(),
    }
}

fn name_ok(m: &Member) -> (r: bool)
    ensures
        r == name_is_text(*m),
{
    match &m.role {
        Role::Tag(Some(Literal::Other)) => false,
        Role::Field(Some(Literal::Other)) => false,
        _ => true,
    }
}

impl Schema {
    /// Registers a record type with the members `members`, in declaration
    /// order, under the measurement name `measurement`. Fails with the
    /// first error that `registration_error` names; otherwise tags and
    /// fields are kept in declaration order with their protocol names.
    pub fn register(measurement: Option<Literal>, members: &Vec<Member>) -> (r: Result<
        Schema,
        ConfigurationError,
    >)
        ensures
            match r {
                Ok(s) => {
                    &&& registration_error(measurement, members@) is None
                    &&& measurement matches Some(Literal::Text(name))
                    &&& s@ == registered(name@, members@)
                },
                Err(e) => registration_error(measurement, members@) == Some(e),
            },
    {
        let name = match measurement {
            None => return Err(ConfigurationError::MissingMeasurement),
            Some(Literal::Other) => return Err(ConfigurationError::MeasurementNotText),
            Some(Literal::Text(s)) => s,
        };
        let ghost ms = members@;
        let mut tags: Vec<(usize, String)> = Vec::new();
        let mut fields: Vec<(usize, String)> = Vec::new();
        let mut timestamps: usize = 0;
        let mut ts_index: usize = 0;
        let mut bad: Option<usize> = None;
        for i in 0..members.len()
            invariant
                ms == members@,
                entries_text(tags@) == role_entries(ms.take(i as int), true),
                entries_text(fields@) == role_entries(ms.take(i as int), false),
                timestamps == timestamp_count(ms.take(i as int)),
                timestamps <= i,
                ts_index as int == timestamp_index(ms.take(i as int)),
                timestamps > 0 ==> ts_index < i,
                match bad {
                    Some(b) => first_bad_name(ms.take(i as int)) == Some(b as int),
                    None => first_bad_name(ms.take(i as int)) is None,
                },
        {
            let m = &members[i];
            proof {
                assert(ms.take(i + 1).drop_last() =~= ms.take(i as int));
                assert(ms.take(i + 1).last() == ms[i as int]);
            }
            if bad.is_none() && !name_ok(m) {
                bad = Some(i);
            }
            match &m.role {
                Role::Tag(_) => {
                    tags.push((i, name_of(m)));
                    assert(entries_text(tags@) =~= role_entries(ms.take(i + 1), true));
                },
                Role::Field(_) => {
                    fields.push((i, name_of(m)));
                    assert(entries_text(fields@) =~= role_entries(ms.take(i + 1), false));
                },
                Role::Timestamp => {
                    timestamps = timestamps + 1;
                    ts_index = i;
                },
                Role::Unmarked => {},
            }
        }
        assert(ms.take(ms.len() as int) =~= ms);
        if fields.len() == 0 {
            return Err(ConfigurationError::MissingField);
        }
        if let Some(b) = bad {
            return Err(ConfigurationError::NameNotText(b));
        }
        if timestamps == 0 {
            return Err(ConfigurationError::MissingTimestamp);
        }
        if timestamps > 1 {
            return Err(ConfigurationError::MultipleTimestamps);
        }
        if !members[ts_index].timestamp_typed {
            return Err(ConfigurationError::TimestampType);
        }
        let members_len = members.len();
        Ok(Schema { measurement: name, tags, fields, timestamp: ts_index, members: members_len })
    }
}

/// What a record holds in one member: a value, a timestamp, or something
/// the schema does not write.
#[derive(Debug)]
pub enum MemberValue {
    Value(Value),
    Time(Timestamp),
    Other,
}

/// Whether `row`, one entry per member in declaration order, is a record of
/// the schema `s`: each tag and field member holds a value and the timestamp
/// member holds a timestamp.
pub open spec fn fits_schema(s: SchemaView, row: Seq<MemberValue>) -> bool {
    &&& row.len() == s.members
    &&& forall|k: int|
        0 <= k < s.tags.len() ==> 0 <= (#[trigger] s.tags[k]).0 < row.len() && row[s.tags[k].0] is Value
    &&& forall|k: int|
        0 <= k < s.fields.len() ==> 0 <= (#[trigger] s.fields[k]).0 < row.len()
            && row[s.fields[k].0] is Value
    &&& 0 <= s.timestamp < row.len()
    &&& row[s.timestamp] is Time
}

/// Whether `p` is the point of the record `row` of schema `s`: the schema's
/// measurement name; a tag per tag member and a field per field member, in
/// declaration order, under their protocol names, a tag holding the plain
/// text of its member's value; the record's timestamp.
pub open spec fn mapped(s: SchemaView, row: Seq<MemberValue>, p: Point) -> bool {
    &&& p.measurement@ == s.measurement
    &&& p.tags@.len() == s.tags.len()
    &&& forall|k: int|
        0 <= k < s.tags.len() ==> (#[trigger] p.tags@[k]).0@ == s.tags[k].1 && p.tags@[k].1@ == (
        row[s.tags[k].0]->Value_0).text()
    &&& p.fields@.len() == s.fields.len()
    &&& forall|k: int|
        0 <= k < s.fields.len() ==> (#[trigger] p.fields@[k]).0@ == s.fields[k].1 && p.fields@[k].1
            == row[s.fields[k].0]->Value_0
    &&& p.timestamp == Some(row[s.timestamp]->Time_0)
}

/// `key=value` of each tag of the record, in order.
pub open spec fn record_tag_texts(s: SchemaView, row: Seq<MemberValue>) -> Seq<Seq<char>> {
    s.tags.map_values(
        |e: (int, Seq<char>)|
            escaped(EscapeContext::Key, e.1).push('=') + escaped(
                EscapeContext::Key,
                (row[e.0]->Value_0).text(),
            ),
    )
}

/// `key=value` of each field of the record, in order.
pub open spec fn record_field_texts(s: SchemaView, row: Seq<MemberValue>) -> Seq<Seq<char>> {
    s.fields.map_values(
        |e: (int, Seq<char>)| escaped(EscapeContext::Key, e.1).push('=') + (row[e.0]->Value_0).encoded(),
    )
}

/// The line of the record `row` of schema `s`, without timestamp.
pub open spec fn record_line(s: SchemaView, row: Seq<MemberValue>) -> Seq<char> {
    escaped(EscapeContext::Measurement, s.measurement) + section(',', record_tag_texts(s, row))
        + section(' ', record_field_texts(s, row))
}

/// The text of the record's own timestamp.
pub open spec fn record_timestamp(s: SchemaView, row: Seq<MemberValue>) -> Seq<char> {
    (row[s.timestamp]->Time_0).text()
}

proof fn lemma_mapped_line(s: SchemaView, row: Seq<MemberValue>, p: Point)
    requires
        fits_schema(s, row),
        mapped(s, row, p),
    ensures
        point_line(&p) == record_line(s, row),
        stored_timestamp(&p) == record_timestamp(s, row),
{
    assert(tag_texts(p.tags@) =~= record_tag_texts(s, row));
    assert(field_texts(p.fields@) =~= record_field_texts(s, row));
}

/// A record without tags is written as its measurement name, a space and its
/// fields: no comma follows the name.
pub proof fn lemma_record_without_tags(s: SchemaView, row: Seq<MemberValue>)
    requires
        s.tags.len() == 0,
        s.fields.len() > 0,
    ensures
        record_line(s, row) == escaped(EscapeContext::Measurement, s.measurement) + seq![' ']
            + crate::line::joined(record_field_texts(s, row), ','),
{
    let m = escaped(EscapeContext::Measurement, s.measurement);
    assert(m + section(',', record_tag_texts(s, row)) =~= m);
}

impl Schema {
    /// Whether `row` is a record of this schema.
    pub fn accepts(&self, row: &Vec<MemberValue>) -> (r: bool)
        ensures
            r == fits_schema(self@, row@),
    {
        if row.len() != self.members {
            return false;
        }
        for k in 0..self.tags.len()
            invariant
                row.len() == self.members,
                forall|j: int|
                    0 <= j < k ==> 0 <= (#[trigger] self@.tags[j]).0 < row.len() && row@[self@.tags[j].0] is Value,
        {
            let idx = self.tags[k].0;
            assert(self@.tags[k as int].0 == idx);
            if idx >= row.len() {
                return false;
            }
            match &row[idx] {
                MemberValue::Value(_) => {},
                _ => return false,
            }
        }
        for k in 0..self.fields.len()
            invariant
                row.len() == self.members,
                forall|j: int|
                    0 <= j < self.tags@.len() ==> 0 <= (#[trigger] self@.tags[j]).0 < row.len() && row@[self@.tags[j].0] is Value,
                forall|j: int|
                    0 <= j < k ==> 0 <= (#[trigger] self@.fields[j]).0 < row.len() && row@[self@.fields[j].0] is Value,
        {
            let idx = self.fields[k].0;
            assert(self@.fields[k as int].0 == idx);
            if idx >= row.len() {
                return false;
            }
            match &row[idx] {
                MemberValue::Value(_) => {},
                _ => return false,
            }
        }
        if self.timestamp >= row.len() {
            return false;
        }
        match &row[self.timestamp] {
            MemberValue::Time(_) => true,
            _ => false,
        }
    }

    /// The point of the record `row`, or `None` when `row` is not a record of
    /// this schema.
    pub fn point_of(&self, row: &Vec<MemberValue>) -> (r: Option<Point>)
        ensures
            r is Some == fits_schema(self@, row@),
            r matches Some(p) ==> mapped(self@, row@, p),
    {
        if !self.accepts(row) {
            return None;
        }
        let mut tags: Vec<(String, String)> = Vec::new();
        for k in 0..self.tags.len()
            invariant
                fits_schema(self@, row@),
                tags@.len() == k,
                forall|j: int|
                    0 <= j < k ==> (#[trigger] tags@[j]).0@ == self@.tags[j].1 && tags@[j].1@ == (
                    row@[self@.tags[j].0]->Value_0).text(),
        {
            let idx = self.tags[k].0;
            assert(self@.tags[k as int].0 == idx);
            match &row[idx] {
                MemberValue::Value(v) => tags.push((self.tags[k].1.clone(), v.to_string())),
                _ => {},
            }
        }
        let mut fields: Vec<(String, Value)> = Vec::new();
        for k in 0..self.fields.len()
            invariant
                fits_schema(self@, row@),
                fields@.len() == k,
                forall|j: int|
                    0 <= j < k ==> (#[trigger] fields@[j]).0@ == self@.fields[j].1 && fields@[j].1
                        == row@[self@.fields[j].0]->Value_0,
        {
            let idx = self.fields[k].0;
            assert(self@.fields[k as int].0 == idx);
            match &row[idx] {
                MemberValue::Value(v) => fields.push((self.fields[k].1.clone(), v.clone())),
                _ => {},
            }
        }
        let timestamp = match &row[self.timestamp] {
            MemberValue::Time(t) => Some(t.clone()),
            _ => None,
        };
        Some(Point { measurement: self.measurement.clone(), timestamp, tags, fields })
    }

    /// Writes the record `row` as a line without timestamp, or gives `None`
    /// when `row` is not a record of this schema.
    pub fn serialize(&self, row: &Vec<MemberValue>) -> (r: Option<String>)
        ensures
            r is Some == fits_schema(self@, row@),
            r matches Some(line) ==> line@ == record_line(self@, row@),
    {
        match self.point_of(row) {
            None => None,
            Some(p) => {
                proof {
                    lemma_mapped_line(self@, row@, p);
                }
                Some(p.serialize())
            },
        }
    }

    /// Writes the record `row` as a line followed by a space and a timestamp:
    /// `timestamp` where given, else the record's own. Gives `None` when
    /// `row` is not a record of this schema.
    pub fn serialize_with_timestamp(&self, row: &Vec<MemberValue>, timestamp: Option<Timestamp>) -> (r:
        Option<String>)
        ensures
            r is Some == fits_schema(self@, row@),
            r matches Some(line) ==> line@ == timestamped(
                record_line(self@, row@),
                timestamp,
                record_timestamp(self@, row@),
            ),
    {
        match self.point_of(row) {
            None => None,
            Some(p) => {
                proof {
                    lemma_mapped_line(self@, row@, p);
                }
                Some(p.serialize_with_timestamp(timestamp))
            },
        }
    }
}

} // verus!
