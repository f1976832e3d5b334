use vstd::prelude::*;
use crate::text::{trim_spec, trim_str};

verus! {

/// What `str::to_lowercase` returns for a given character sequence.
pub uninterp spec fn lower_of(s: Seq<char>) -> Seq<char>;

/// Relies on `str::to_lowercase`: Unicode lower-casing whose result
/// depends on the characters alone (no locale is consulted).
#[verifier::external_body]
fn to_lower(s: &str) -> (r: String)
    ensures
        r@ == lower_of(s@),
{
    s.to_lowercase()
}

/// The fallback judgment: the submitted text, trimmed, equals the
/// reference answer up to Unicode lower-casing.
pub open spec fn fallback_matches(reference: Seq<char>, text: Seq<char>) -> bool {
    lower_of(trim_spec(text)) == lower_of(reference)
}

/// Case-insensitive comparison of the trimmed submission against the
/// reference answer; the judgment used whenever the external service
/// cannot be asked or does not answer sensibly.
pub fn fallback_correct(reference: &str, text: &str) -> (r: bool)
    ensures
        r == fallback_matches(reference@, text@),
{
    let trimmed = trim_str(text);
    let a = to_lower(trimmed);
    let b = to_lower(reference);
    a == b
}

/// What the strict parse of a judgment reply returns: the `correct` and
/// `feedback` fields when the reply is a JSON object carrying a boolean
/// `correct` and a string `feedback`, and nothing otherwise.
pub uninterp spec fn check_json_of(s: Seq<char>) -> Option<(bool, Seq<char>)>;

/// The view of a parsed judgment reply.
pub open spec fn check_pair_view(r: Option<(bool, String)>) -> Option<(bool, Seq<char>)> {
    match r {
        None => None,
        Some(p) => Some((p.0, p.1@)),
    }
}

/// Relies on `serde_json::from_str::<Value>`, `Value::get`,
/// `Value::as_bool` and `Value::as_str`: decodes a reply of the shape
/// `{"correct": bool, "feedback": string}`; any other text yields `None`.
#[verifier::external_body]
fn parse_check_json(raw: &str) -> (r: Option<(bool, String)>)
    ensures
        check_pair_view(r) == check_json_of(raw@),
{
    let v: serde_json::Value = match serde_json::from_str(raw) {
        Ok(v) => v,
        Err(_) => return None,
    };
    let c = v.get("correct").and_then(|c| c.as_bool());
    let f = v.get("feedback").and_then(|f| f.as_str());
    match (c, f) {
        (Some(c), Some(f)) => Some((c, f.to_string())),
        _ => None,
    }
}

/// The view of the optional raw reply handed to `judge`.
pub open spec fn opt_string_view(r: Option<&String>) -> Option<Seq<char>> {
    match r {
        None => None,
        Some(s) => Some(s@),
    }
}

/// The judgment policy: use the external reply when it parses to the
/// expected shape; on a missing or malformed reply fall back to the
/// case-insensitive exact match, with empty feedback.  A reply that
/// fails to parse is a failure, never a judgment of "incorrect".
pub open spec fn judge_spec(reference: Seq<char>, text: Seq<char>, reply: Option<Seq<char>>) -> (
    bool,
    Seq<char>,
) {
    match reply {
        Some(raw) => match check_json_of(raw) {
            Some(cf) => cf,
            None => (fallback_matches(reference, text), Seq::<char>::empty()),
        },
        None => (fallback_matches(reference, text), Seq::<char>::empty()),
    }
}

/// Decide a submission against the round's reference answer.  `reply` is
/// the external judgment service's raw reply, or `None` when the call
/// was not made (no credential, rate limit exhausted) or failed.
pub fn judge(reference: &str, text: &str, reply: Option<&String>) -> (r: (bool, String))
    ensures
        (r.0, r.1@) == judge_spec(reference@, text@, opt_string_view(reply)),
{
    match reply {
        Some(raw) => match parse_check_json(raw.as_str()) {
            Some(cf) => cf,
            None => (fallback_correct(reference, text), String::new()),
        },
        None => (fallback_correct(reference, text), String::new()),
    }
}

} // verus!
