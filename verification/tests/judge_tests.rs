use quiz_engine::judge::{fallback_correct, judge};
use quiz_engine::round::{RoundState, Verdict};

#[test]
fn fallback_cyrillic_case_insensitive() {
    let (correct, feedback) = judge("Москва", "москва", None);
    assert!(correct);
    assert_eq!(feedback, "");
}

#[test]
fn fallback_cyrillic_upper_with_trailing_space() {
    let (correct, feedback) = judge("Москва", "МОСКВА ", None);
    assert!(correct);
    assert_eq!(feedback, "");
}

#[test]
fn fallback_wrong_answer() {
    let (correct, _) = judge("Москва", "Питер", None);
    assert!(!correct);
}

#[test]
fn fallback_trims_submission_only() {
    assert!(fallback_correct("four", "  four\t"));
    assert!(!fallback_correct(" four", "four"));
}

#[test]
fn external_reply_decides_when_it_parses() {
    // The reply says "incorrect" even though the text matches exactly:
    // the external judgment must be taken over the fallback.
    let reply = String::from("{\"correct\": false, \"feedback\": \"close\"}");
    let (correct, feedback) = judge("4", "4", Some(&reply));
    assert!(!correct);
    assert_eq!(feedback, "close");

    // And the reverse: the reply accepts a text the fallback would not.
    let reply = String::from("{\"correct\": true, \"feedback\": \"well done\"}");
    let (correct, feedback) = judge("4", "four", Some(&reply));
    assert!(correct);
    assert_eq!(feedback, "well done");
}

#[test]
fn malformed_reply_falls_back() {
    let reply = String::from("no json here");
    let (correct, feedback) = judge("Москва", "москва", Some(&reply));
    assert!(correct);
    assert_eq!(feedback, "");
}

#[test]
fn reply_missing_field_falls_back() {
    // `feedback` missing: the reply fails validation and must count as a
    // failure, not as a judgment of "incorrect".
    let reply = String::from("{\"correct\": false}");
    let (correct, _) = judge("ok", "OK", Some(&reply));
    assert!(correct);
}

#[test]
fn reply_wrong_type_falls_back() {
    let reply = String::from("{\"correct\": \"yes\", \"feedback\": \"x\"}");
    let (correct, _) = judge("ok", "ok", Some(&reply));
    assert!(correct);
}

#[test]
fn submit_answer_uses_external_reply() {
    let mut rs = RoundState::new();
    rs.start_round(String::from("Capital of France?"), String::from("Paris")).unwrap();
    let reply = String::from("{\"correct\": true, \"feedback\": \"oui\"}");
    let (v, feedback) = rs.submit_answer(String::from("A"), 1, String::from("paris!"), Some(&reply));
    assert_eq!(v, Verdict::Won);
    assert_eq!(feedback, "oui");
    assert_eq!(rs.winner_label().unwrap(), "A");
}

#[test]
fn submit_answer_feedback_on_loss() {
    let mut rs = RoundState::new();
    rs.start_round(String::from("Capital of France?"), String::from("Paris")).unwrap();
    let reply = String::from("{\"correct\": false, \"feedback\": \"wrong city\"}");
    let (v, feedback) = rs.submit_answer(String::from("A"), 1, String::from("Lyon"), Some(&reply));
    assert_eq!(v, Verdict::Lost);
    assert_eq!(feedback, "wrong city");
    assert_eq!(rs.pending_text(1).unwrap(), "Lyon");
}
