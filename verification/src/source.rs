use vstd::prelude::*;
use crate::errors::QuizError;
use crate::text::{find_label, find_sub_from, label_value, label_value_at, find_label_exec};

verus! {

/// What the strict parse of a generation reply returns: the `question`
/// and `answer` fields when the reply is a JSON object carrying both as
/// strings, and nothing otherwise.
pub uninterp spec fn riddle_json_of(s: Seq<char>) -> Option<(Seq<char>, Seq<char>)>;

/// The view of a parsed question/answer pair.
pub open spec fn pair_view(r: Option<(String, String)>) -> Option<(Seq<char>, Seq<char>)> {
    match r {
        None => None,
        Some(p) => Some((p.0@, p.1@)),
    }
}

/// Relies on `serde_json::from_str::<Value>`, `Value::get` and
/// `Value::as_str`: decodes a reply of the shape
/// `{"question": string, "answer": string}`; any other text yields `None`.
#[verifier::external_body]
fn parse_riddle_json(raw: &str) -> (r: Option<(String, String)>)
    ensures
        pair_view(r) == riddle_json_of(raw@),
{
    let v: serde_json::Value = match serde_json::from_str(raw) {
        Ok(v) => v,
        Err(_) => return None,
    };
    let q = v.get("question").and_then(|q| q.as_str());
    let a = v.get("answer").and_then(|a| a.as_str());
    match (q, a) {
        (Some(q), Some(a)) => Some((q.to_string(), a.to_string())),
        _ => None,
    }
}

/// The `question` label, lower-case.
pub open spec fn question_label() -> Seq<char> {
    seq!['q', 'u', 'e', 's', 't', 'i', 'o', 'n']
}

/// The `answer` label, lower-case.
pub open spec fn answer_label() -> Seq<char> {
    seq!['a', 'n', 's', 'w', 'e', 'r']
}

/// The lenient labeled-line parse: find the `question` and `answer`
/// labels (ASCII case-insensitively), take each one's line value, and
/// succeed only when both values are non-empty.
pub open spec fn lenient_riddle_of(s: Seq<char>) -> Option<(Seq<char>, Seq<char>)> {
    match (find_label(s, question_label()), find_label(s, answer_label())) {
        (Some(qi), Some(ai)) => {
            let q = label_value(s, qi);
            let a = label_value(s, ai);
            if q.len() > 0 && a.len() > 0 {
                Some((q, a))
            } else {
                None
            }
        },
        _ => None,
    }
}

/// Two-stage parse of a generation reply: the strict JSON decode first;
/// where that fails, or yields an empty question or answer, the lenient
/// labeled-line scan.  A successful parse always carries two non-empty
/// strings.
pub open spec fn riddle_reply_spec(s: Seq<char>) -> Option<(Seq<char>, Seq<char>)> {
    match riddle_json_of(s) {
        Some(p) => if p.0.len() > 0 && p.1.len() > 0 {
            Some(p)
        } else {
            lenient_riddle_of(s)
        },
        None => lenient_riddle_of(s),
    }
}

proof fn lemma_find_sub_from_bounds(s: Seq<char>, needle: Seq<char>, from: int)
    requires
        0 <= from,
    ensures
        (match find_sub_from(s, needle, from) {
            Some(i) => from <= i && i + needle.len() <= s.len(),
            None => true,
        }),
    decreases s.len() + 1 - from,
{
    if from + needle.len() <= s.len() && s.subrange(from, from + needle.len()) != needle {
        lemma_find_sub_from_bounds(s, needle, from + 1);
    }
}

fn question_needle() -> (r: Vec<char>)
    ensures
        r@ == question_label(),
{
    let mut v: Vec<char> = Vec::new();
    v.push('q');
    v.push('u');
    v.push('e');
    v.push('s');
    v.push('t');
    v.push('i');
    v.push('o');
    v.push('n');
    proof {
        assert(v@ =~= question_label());
    }
    v
}

fn answer_needle() -> (r: Vec<char>)
    ensures
        r@ == answer_label(),
{
    let mut v: Vec<char> = Vec::new();
    v.push('a');
    v.push('n');
    v.push('s');
    v.push('w');
    v.push('e');
    v.push('r');
    proof {
        assert(v@ =~= answer_label());
    }
    v
}

/// The lenient parse, on a raw reply.
pub fn lenient_parse(raw: &str) -> (r: Option<(String, String)>)
    ensures
        pair_view(r) == lenient_riddle_of(raw@),
{
    let qneedle = question_needle();
    let aneedle = answer_needle();
    let qpos = find_label_exec(raw, &qneedle);
    let apos = find_label_exec(raw, &aneedle);
    proof {
        lemma_find_sub_from_bounds(crate::text::lower_ascii(raw@), question_label(), 0);
        lemma_find_sub_from_bounds(crate::text::lower_ascii(raw@), answer_label(), 0);
    }
    match (qpos, apos) {
        (Some(qi), Some(ai)) => {
            let q = label_value_at(raw, qi);
            let a = label_value_at(raw, ai);
            if q.unicode_len() > 0 && a.unicode_len() > 0 {
                Some((String::from_str(q), String::from_str(a)))
            } else {
                None
            }
        },
        _ => None,
    }
}

/// Parse the external service's reply into a `(question, answer)` pair,
/// or fail with `MalformedResponse` when neither stage accepts it.
pub fn parse_riddle_reply(raw: &str) -> (r: Result<(String, String), QuizError>)
    ensures
        (match r {
            Ok(p) => riddle_reply_spec(raw@) == Some((p.0@, p.1@)) && p.0@.len() > 0 && p.1@.len()
                > 0,
            Err(e) => e == QuizError::MalformedResponse && riddle_reply_spec(raw@) is None,
        }),
{
    let strict = parse_riddle_json(raw);
    match strict {
        Some(p) => {
            if p.0.as_str().unicode_len() > 0 && p.1.as_str().unicode_len() > 0 {
                Ok(p)
            } else {
                match lenient_parse(raw) {
                    Some(p2) => Ok(p2),
                    None => Err(QuizError::MalformedResponse),
                }
            }
        },
        None => match lenient_parse(raw) {
            Some(p2) => Ok(p2),
            None => Err(QuizError::MalformedResponse),
        },
    }
}

/// The view of the optional raw generation reply.
pub open spec fn opt_reply_view(r: Option<&String>) -> Option<Seq<char>> {
    match r {
        None => None,
        Some(s) => Some(s@),
    }
}

/// Interpret the outcome of a generation call: a missing reply is a
/// failed call; a reply in hand must parse into a non-empty pair.
pub fn complete_generation(reply: Option<&String>) -> (r: Result<(String, String), QuizError>)
    ensures
        (match opt_reply_view(reply) {
            None => r == Err::<(String, String), QuizError>(QuizError::ExternalCallFailed),
            Some(raw) => (match r {
                Ok(p) => riddle_reply_spec(raw) == Some((p.0@, p.1@)) && p.0@.len() > 0
                    && p.1@.len() > 0,
                Err(e) => e == QuizError::MalformedResponse && riddle_reply_spec(raw) is None,
            }),
        }),
{
    match reply {
        None => Err(QuizError::ExternalCallFailed),
        Some(raw) => parse_riddle_reply(raw.as_str()),
    }
}

} // verus!
