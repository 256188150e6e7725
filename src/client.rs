//! What a write request is made of: its body, its query, its authorization,
//! and how the server's answer is read. Sending it is left to the caller.
use vstd::prelude::*;

use crate::line::joined;
use crate::models::{InfluxError, Precision, TimestampOptions};
use crate::text::{push_char, push_str};
use crate::traits::{timestamped, PointSerialize};

verus! {

broadcast use vstd::string::group_string_axioms;

/// The line written for `p` under `options`.
pub open spec fn option_line<P: PointSerialize>(options: TimestampOptions, p: P) -> Seq<char> {
    match options {
        TimestampOptions::Omit => p.line(),
        TimestampOptions::Use(t) => timestamped(p.line(), Some(t), p.default_timestamp()),
        TimestampOptions::FromPoint => timestamped(p.line(), None, p.default_timestamp()),
    }
}

/// The lines written for `points` under `options`, in order.
pub open spec fn body_lines<P: PointSerialize>(points: Seq<P>, options: TimestampOptions) -> Seq<
    Seq<char>,
> {
    points.map_values(|p: P| option_line(options, p))
}

/// The body of a write: one line per point, in the order of `points`,
/// separated by newlines; empty when there are no points.
pub fn serialize_points<P: PointSerialize>(points: &[P], options: &TimestampOptions) -> (r: String)
    ensures
        r@ == joined(body_lines(points@, *options), '\n'),
{
    let ghost lines = body_lines(points@, *options);
    let mut out = String::new();
    for i in 0..points.len()
        invariant
            lines == body_lines(points@, *options),
            out@ == joined(lines.take(i as int), '\n'),
    {
        let p = &points[i];
        let line = match options {
            TimestampOptions::Omit => p.serialize(),
            TimestampOptions::Use(t) => p.serialize_with_timestamp(Some(t.clone())),
            TimestampOptions::FromPoint => p.serialize_with_timestamp(None),
        };
        if i > 0 {
            push_char(&mut out, '\n');
        }
        push_str(&mut out, line.as_str());
        proof {
            assert(lines.take(i + 1).drop_last() =~= lines.take(i as int));
            assert(out@ =~= joined(lines.take(i + 1), '\n'));
        }
    }
    assert(lines.take(points@.len() as int) =~= lines);
    out
}

/// The text of an optional setting.
pub open spec fn opt_text(o: Option<String>) -> Option<Seq<char>> {
    match o {
        Some(s) => Some(s@),
        None => None,
    }
}

/// The texts of a list of query parameters.
pub open spec fn query_text(q: Seq<(String, String)>) -> Seq<(Seq<char>, Seq<char>)> {
    q.map_values(|p: (String, String)| (p.0@, p.1@))
}

/// The settings of a client that shape its write requests: the token, where
/// the points go, the declared precision, and whether the body is printed
/// instead of sent.
#[derive(Debug)]
pub struct ClientOptions {
    pub token: String,
    pub bucket: Option<String>,
    pub org: Option<String>,
    pub org_id: Option<String>,
    pub precision: Precision,
    pub insert_to_stdout: bool,
}

fn clone_opt(o: &Option<String>) -> (r: Option<String>)
    ensures
        r == *o,
{
    match o {
        Some(s) => Some(s.clone()),
        None => None,
    }
}

impl Clone for ClientOptions {
    fn clone(&self) -> (r: Self)
        ensures
            r == *self,
    {
        ClientOptions {
            token: self.token.clone(),
            bucket: clone_opt(&self.bucket),
            org: clone_opt(&self.org),
            org_id: clone_opt(&self.org_id),
            precision: self.precision,
            insert_to_stdout: self.insert_to_stdout,
        }
    }
}

impl ClientOptions {
    /// The `bucket` parameter, when a bucket is set.
    pub open spec fn bucket_query(&self) -> Seq<(Seq<char>, Seq<char>)> {
        match opt_text(self.bucket) {
            Some(b) => seq![(seq!['b', 'u', 'c', 'k', 'e', 't'], b)],
            None => Seq::empty(),
        }
    }

    /// The `org` parameter when an organisation name is set, else the `orgID`
    /// parameter when an organisation id is set.
    pub open spec fn org_query(&self) -> Seq<(Seq<char>, Seq<char>)> {
        match opt_text(self.org) {
            Some(o) => seq![(seq!['o', 'r', 'g'], o)],
            None => match opt_text(self.org_id) {
                Some(i) => seq![(seq!['o', 'r', 'g', 'I', 'D'], i)],
                None => Seq::empty(),
            },
        }
    }

    /// The query of a write request: the bucket, the organisation, then
    /// `precision`.
    pub open spec fn write_query_text(&self) -> Seq<(Seq<char>, Seq<char>)> {
        self.bucket_query() + self.org_query() + seq![
            (seq!['p', 'r', 'e', 'c', 'i', 's', 'i', 'o', 'n'], self.precision.text()),
        ]
    }

    /// Settings with the token `token`, no bucket or organisation,
    /// nanosecond precision, and requests sent.
    pub fn new(token: &str) -> (r: ClientOptions)
        ensures
            r.token@ == token@,
            r.bucket is None,
            r.org is None,
            r.org_id is None,
            r.precision == Precision::NS,
            !r.insert_to_stdout,
    {
        ClientOptions {
            token: String::from_str(token),
            bucket: None,
            org: None,
            org_id: None,
            precision: Precision::NS,
            insert_to_stdout: false,
        }
    }

    /// The settings with bodies printed instead of sent.
    pub fn insert_to_stdout(self) -> (r: ClientOptions)
        ensures
            r == (ClientOptions { insert_to_stdout: true, ..self }),
    {
        ClientOptions { insert_to_stdout: true, ..self }
    }

    /// The settings with the bucket set to `bucket`.
    pub fn with_bucket(self, bucket: &str) -> (r: ClientOptions)
        ensures
            opt_text(r.bucket) == Some(bucket@),
            r.token == self.token,
            r.org == self.org,
            r.org_id == self.org_id,
            r.precision == self.precision,
            r.insert_to_stdout == self.insert_to_stdout,
    {
        ClientOptions { bucket: Some(String::from_str(bucket)), ..self }
    }

    /// The settings with the organisation name set to `org`.
    pub fn with_org(self, org: &str) -> (r: ClientOptions)
        ensures
            opt_text(r.org) == Some(org@),
            r.token == self.token,
            r.bucket == self.bucket,
            r.org_id == self.org_id,
            r.precision == self.precision,
            r.insert_to_stdout == self.insert_to_stdout,
    {
        ClientOptions { org: Some(String::from_str(org)), ..self }
    }

    /// The settings with the organisation id set to `org_id`.
    pub fn with_org_id(self, org_id: &str) -> (r: ClientOptions)
        ensures
            opt_text(r.org_id) == Some(org_id@),
            r.token == self.token,
            r.bucket == self.bucket,
            r.org == self.org,
            r.precision == self.precision,
            r.insert_to_stdout == self.insert_to_stdout,
    {
        ClientOptions { org_id: Some(String::from_str(org_id)), ..self }
    }

    /// The settings with the declared precision set to `precision`.
    pub fn with_precision(self, precision: Precision) -> (r: ClientOptions)
        ensures
            r == (ClientOptions { precision, ..self }),
    {
        ClientOptions { precision, ..self }
    }

    /// The name of the declared precision.
    pub fn precision(&self) -> (r: &'static str)
        ensures
            r@ == self.precision.text(),
    {
        self.precision.to_string()
    }

    /// The value of the `Authorization` header: `Token ` and the token.
    pub fn authorization(&self) -> (r: String)
        ensures
            r@ == seq!['T', 'o', 'k', 'e', 'n', ' '] + self.token@,
    {
        proof {
            reveal_strlit("Token ");
        }
        let mut out = String::from_str("Token ");
        push_str(&mut out, self.token.as_str());
        out
    }

    /// The query parameters of a write request.
    pub fn write_query(&self) -> (r: Vec<(String, String)>)
        ensures
            query_text(r@) == self.write_query_text(),
    {
        let mut q: Vec<(String, String)> = Vec::new();
        if let Some(bucket) = &self.bucket {
            proof {
                reveal_strlit("bucket");
            }
            let key = String::from_str("bucket");
            assert(key@ == seq!['b', 'u', 'c', 'k', 'e', 't']);
            q.push((key, bucket.clone()));
        }
        assert(query_text(q@) =~= self.bucket_query());
        if let Some(org) = &self.org {
            proof {
                reveal_strlit("org");
            }
            let key = String::from_str("org");
            assert(key@ == seq!['o', 'r', 'g']);
            q.push((key, org.clone()));
        } else if let Some(org_id) = &self.org_id {
            proof {
                reveal_strlit("orgID");
            }
            let key = String::from_str("orgID");
            assert(key@ == seq!['o', 'r', 'g', 'I', 'D']);
            q.push((key, org_id.clone()));
        }
        assert(query_text(q@) =~= self.bucket_query() + self.org_query());
        proof {
            reveal_strlit("precision");
        }
        let key = String::from_str("precision");
        assert(key@ == seq!['p', 'r', 'e', 'c', 'i', 's', 'i', 'o', 'n']);
        q.push((key, String::from_str(self.precision())));
        assert(query_text(q@) =~= self.write_query_text());
        q
    }
}

impl InfluxError {
    /// The error for a response with status `status`, or `None` when the
    /// write was accepted: 400, 401 and 403 have errors of their own; any
    /// other status from 400 to 500 is `Unknown`; every other status is
    /// success.
    pub fn from_status(status: u16, message: String) -> (r: Option<InfluxError>)
        ensures
            status == 400 ==> r == Some(InfluxError::InvalidSyntax(message)),
            status == 401 ==> r == Some(InfluxError::InvalidCredentials(message)),
            status == 403 ==> r == Some(InfluxError::Forbidden(message)),
            400 <= status <= 500 && status != 400 && status != 401 && status != 403 ==> r == Some(
                InfluxError::Unknown(message),
            ),
            status < 400 || status > 500 ==> r is None,
    {
        if status == 400 {
            Some(InfluxError::InvalidSyntax(message))
        } else if status == 401 {
            Some(InfluxError::InvalidCredentials(message))
        } else if status == 403 {
            Some(InfluxError::Forbidden(message))
        } else if 400 <= status && status <= 500 {
            Some(InfluxError::Unknown(message))
        } else {
            None
        }
    }
}

} // verus!
