//! What a type provides to be written as a line.
use vstd::prelude::*;

use crate::models::Timestamp;

verus! {

/// The line `line`, then a space and the timestamp: `timestamp` where given,
/// else `fallback`.
pub open spec fn timestamped(line: Seq<char>, timestamp: Option<Timestamp>, fallback: Seq<char>) -> Seq<
    char,
> {
    line.push(' ') + match timestamp {
        Some(t) => t.text(),
        None => fallback,
    }
}

/// A value that can be written as one line of the line protocol.
pub trait PointSerialize {
    /// The line of the value, without a timestamp.
    spec fn line(&self) -> Seq<char>;

    /// The timestamp text written when the caller gives none.
    spec fn default_timestamp(&self) -> Seq<char>;

    /// Writes the line without a timestamp.
    fn serialize(&self) -> (r: String)
        ensures
            r@ == self.line(),
    ;

    /// Writes the line followed by a space and a timestamp: `timestamp` where
    /// given, else the value's own.
    fn serialize_with_timestamp(&self, timestamp: Option<Timestamp>) -> (r: String)
        ensures
            r@ == timestamped(self.line(), timestamp, self.default_timestamp()),
    ;
}

} // verus!
