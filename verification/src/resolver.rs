use vstd::prelude::*;

use crate::descriptor::{LoadShape, TaskDescriptor};

verus! {

/// The string field `name` of the top-level JSON object denoted by `doc`:
/// present exactly when `doc` parses as JSON and carries `name` with a string
/// value. What `text_field` returns.
pub uninterp spec fn text_field_of(doc: Seq<char>, name: Seq<char>) -> Option<Seq<char>>;

/// The numeric field `name` of the top-level JSON object denoted by `doc`:
/// the outer option tells whether the field is present with a number (which
/// is what selects a load shape), the inner one whether that number is a
/// nonnegative integer that fits in `u64`, and which. What `num_field`
/// returns.
pub uninterp spec fn num_field_of(doc: Seq<char>, name: Seq<char>) -> Option<Option<u64>>;

/// The instant an RFC 3339 date-time string denotes, in milliseconds since
/// the Unix epoch, or nothing when the string is not a valid RFC 3339
/// date-time. What `parse_rfc3339_ms` returns.
pub uninterp spec fn rfc3339_millis_of(s: Seq<char>) -> Option<i64>;

/// Relies on serde_json::from_str, serde_json::Value::get and the
/// Value::String variant: the `name` field of the top-level JSON value in
/// `doc`, when `doc` parses and that field holds a string. Parsing and the
/// lookup are deterministic, so the result is a function of the two strings
/// alone.
#[verifier::external_body]
fn text_field(doc: &str, name: &str) -> (r: Option<String>)
    ensures
        r is Some <==> text_field_of(doc@, name@) is Some,
        r matches Some(t) ==> text_field_of(doc@, name@) == Some(t@),
{
    let parsed: Option<serde_json::Value> = serde_json::from_str(doc).ok();
    match parsed.as_ref().and_then(|v| v.get(name)) {
        Some(serde_json::Value::String(t)) => Some(t.clone()),
        _ => None,
    }
}

/// Relies on serde_json::from_str, serde_json::Value::get, the Value::Number
/// variant and Number::as_u64: the `name` field of the top-level JSON value
/// in `doc`, when `doc` parses and that field holds a number, and the
/// number's value when it is an integer representable in `u64`. Parsing and
/// the lookup are deterministic, so the result is a function of the two
/// strings alone.
#[verifier::external_body]
fn num_field(doc: &str, name: &str) -> (r: Option<Option<u64>>)
    ensures
        r == num_field_of(doc@, name@),
{
    let parsed: Option<serde_json::Value> = serde_json::from_str(doc).ok();
    match parsed.as_ref().and_then(|v| v.get(name)) {
        Some(serde_json::Value::Number(k)) => Some(k.as_u64()),
        _ => None,
    }
}

/// Relies on chrono::DateTime::parse_from_rfc3339, DateTime::with_timezone
/// and DateTime::timestamp_millis: the instant the string denotes as
/// milliseconds since the Unix epoch. Parsing is deterministic and
/// timestamp_millis is pure calendar arithmetic on the parsed value, so the
/// result is a function of the string alone.
#[verifier::external_body]
fn parse_rfc3339_ms(s: &str) -> (r: Option<i64>)
    ensures
        r == rfc3339_millis_of(s@),
{
    match chrono::DateTime::parse_from_rfc3339(s) {
        Ok(t) => Some(t.with_timezone(&chrono::Utc).timestamp_millis()),
        Err(_) => None,
    }
}

/// A present `createdAt`, `startTime` or `endTime` value that is not a valid
/// RFC 3339 date-time. Fatal, unlike a malformed top-level document, which
/// merely degrades to an empty configuration: absence of configuration is
/// expected, a present but broken timestamp is a hard misconfiguration.
#[derive(Clone, Copy, Debug, PartialEq, Eq, Structural)]
pub enum ResolveError {
    BadCreatedAt,
    BadStartTime,
    BadEndTime,
}

pub open spec fn created_at_key() -> Seq<char> {
    "createdAt"@
}

pub open spec fn start_time_key() -> Seq<char> {
    "startTime"@
}

pub open spec fn end_time_key() -> Seq<char> {
    "endTime"@
}

pub open spec fn url_key() -> Seq<char> {
    "url"@
}

pub open spec fn qps_key() -> Seq<char> {
    "qps"@
}

pub open spec fn n_key() -> Seq<char> {
    "n"@
}

pub open spec fn c_key() -> Seq<char> {
    "c"@
}

/// A timestamp field that is present as a string but fails RFC 3339 parsing.
pub open spec fn ts_field_bad(doc: Seq<char>, name: Seq<char>) -> bool {
    text_field_of(doc, name) matches Some(t) && rfc3339_millis_of(t) is None
}

/// The instant a timestamp field denotes, when present and well formed.
pub open spec fn ts_field_value(doc: Seq<char>, name: Seq<char>) -> Option<i64> {
    match text_field_of(doc, name) {
        Some(t) => rfc3339_millis_of(t),
        None => None,
    }
}

/// The first timestamp field, in resolution order, that is present but
/// unparsable: `createdAt`, then `startTime`, then `endTime`.
pub open spec fn first_bad_ts(doc: Seq<char>) -> Option<ResolveError> {
    if ts_field_bad(doc, created_at_key()) {
        Some(ResolveError::BadCreatedAt)
    } else if ts_field_bad(doc, start_time_key()) {
        Some(ResolveError::BadStartTime)
    } else if ts_field_bad(doc, end_time_key()) {
        Some(ResolveError::BadEndTime)
    } else {
        None
    }
}

/// A numeric shape field's effective value: a positive integer stands for
/// itself; a number that is not a positive integer in `u64` falls back to 1.
pub open spec fn shape_value(raw: Option<u64>) -> u64 {
    match raw {
        Some(k) => if k >= 1 {
            k
        } else {
            1
        },
        None => 1,
    }
}

/// Shape selection, by structural inspection: a numeric `qps` selects rate
/// mode whatever its value; otherwise numeric `n` and `c` together select
/// count mode; otherwise exactly one request is made. Presence is never
/// defaulted, only the values are.
pub open spec fn spec_shape(
    qps: Option<Option<u64>>,
    n: Option<Option<u64>>,
    c: Option<Option<u64>>,
) -> LoadShape {
    match qps {
        Some(q) => LoadShape::Rate { qps: shape_value(q) },
        None => match (n, c) {
            (Some(nv), Some(cv)) => LoadShape::Count { n: shape_value(nv), c: shape_value(cv) },
            _ => LoadShape::Single,
        },
    }
}

/// A numeric shape field's effective value, executably.
fn effective(raw: Option<u64>) -> (r: u64)
    ensures
        r == shape_value(raw),
{
    match raw {
        Some(k) => if k >= 1 {
            k
        } else {
            1
        },
        None => 1,
    }
}

/// Resolve a raw configuration document into the schedule it denotes.
///
/// A document that is not JSON at all, and any field that is absent or of the
/// wrong type, degrades to that part's default; a present but unparsable
/// timestamp is fatal and names the offending field.
pub fn resolve(doc: &str) -> (r: Result<TaskDescriptor, ResolveError>)
    ensures
        r is Err <==> first_bad_ts(doc@) is Some,
        r matches Err(e) ==> first_bad_ts(doc@) == Some(e),
        r matches Ok(d) ==> d.wf(),
        r matches Ok(d) ==> d.created_at == ts_field_value(doc@, created_at_key()),
        r matches Ok(d) ==> d.start_time == ts_field_value(doc@, start_time_key()),
        r matches Ok(d) ==> d.end_time == ts_field_value(doc@, end_time_key()),
        r matches Ok(d) ==> (d.url is Some <==> text_field_of(doc@, url_key()) is Some),
        r matches Ok(d) ==> (d.url matches Some(u) ==> text_field_of(doc@, url_key()) == Some(
            u@,
        )),
        r matches Ok(d) ==> d.load_shape == spec_shape(
            num_field_of(doc@, qps_key()),
            num_field_of(doc@, n_key()),
            num_field_of(doc@, c_key()),
        ),
{
    let created_at = match text_field(doc, "createdAt") {
        Some(t) => match parse_rfc3339_ms(t.as_str()) {
            Some(ms) => Some(ms),
            None => {
                return Err(ResolveError::BadCreatedAt);
            },
        },
        None => None,
    };
    let start_time = match text_field(doc, "startTime") {
        Some(t) => match parse_rfc3339_ms(t.as_str()) {
            Some(ms) => Some(ms),
            None => {
                return Err(ResolveError::BadStartTime);
            },
        },
        None => None,
    };
    let end_time = match text_field(doc, "endTime") {
        Some(t) => match parse_rfc3339_ms(t.as_str()) {
            Some(ms) => Some(ms),
            None => {
                return Err(ResolveError::BadEndTime);
            },
        },
        None => None,
    };
    let url = text_field(doc, "url");
    let qps = num_field(doc, "qps");
    let n = num_field(doc, "n");
    let c = num_field(doc, "c");
    let load_shape = match qps {
        Some(q) => LoadShape::Rate { qps: effective(q) },
        None => match (n, c) {
            (Some(nv), Some(cv)) => LoadShape::Count { n: effective(nv), c: effective(cv) },
            _ => LoadShape::Single,
        },
    };
    Ok(TaskDescriptor { created_at, start_time, end_time, url, load_shape })
}

} // verus!
