use quiz_engine::round::{RoundState, Verdict};
use quiz_engine::registry::SubscriberSet;
use quiz_engine::errors::QuizError;

fn started() -> RoundState {
    let mut rs = RoundState::new();
    rs.start_round(String::from("2+2?"), String::from("4")).unwrap();
    rs
}

#[test]
fn scenario_first_correct_wins() {
    let mut subs = SubscriberSet::new();
    assert!(subs.register(1));
    let mut rs = RoundState::new();
    rs.start_round(String::from("2+2?"), String::from("4")).unwrap();

    let (v, _) = rs.submit_answer(String::from("A"), 1, String::from("5"), None);
    assert_eq!(v, Verdict::Lost);

    let (v, _) = rs.submit_answer(String::from("B"), 2, String::from("4"), None);
    assert_eq!(v, Verdict::Won);
    assert_eq!(rs.winner_label().unwrap(), "B");

    let (v, _) = rs.submit_answer(String::from("A"), 1, String::from("4"), None);
    assert_eq!(v, Verdict::Rejected);
    assert_eq!(rs.winner_label().unwrap(), "B");
}

#[test]
fn start_round_rejected_while_active() {
    let mut rs = started();
    let r = rs.start_round(String::from("Other?"), String::from("x"));
    assert_eq!(r, Err(QuizError::RoundAlreadyActive));
}

#[test]
fn start_round_rejected_after_win_until_reset() {
    let mut rs = started();
    let (v, _) = rs.submit_answer(String::from("B"), 2, String::from("4"), None);
    assert_eq!(v, Verdict::Won);
    let r = rs.start_round(String::from("Other?"), String::from("x"));
    assert_eq!(r, Err(QuizError::RoundAlreadyActive));
    rs.reset();
    let r = rs.start_round(String::from("Other?"), String::from("x"));
    assert_eq!(r, Ok(()));
}

#[test]
fn round_isolation_after_win() {
    let mut rs = started();
    let (v, _) = rs.submit_answer(String::from("A"), 1, String::from("5"), None);
    assert_eq!(v, Verdict::Lost);
    assert_eq!(rs.pending_text(1).unwrap(), "5");
    let (v, _) = rs.submit_answer(String::from("B"), 2, String::from("4"), None);
    assert_eq!(v, Verdict::Won);

    rs.reset();
    rs.start_round(String::from("3+3?"), String::from("6")).unwrap();
    assert_eq!(rs.pending_text(1), None);
    assert_eq!(rs.winner_label(), None);
}

#[test]
fn submit_rejected_when_idle() {
    let mut rs = RoundState::new();
    let (v, feedback) = rs.submit_answer(String::from("A"), 1, String::from("4"), None);
    assert_eq!(v, Verdict::Rejected);
    assert_eq!(feedback, "");
}

#[test]
fn begin_answer_round_not_active() {
    let rs = RoundState::new();
    assert_eq!(rs.begin_answer(), Err(QuizError::RoundNotActive));
}

#[test]
fn begin_answer_snapshots_open_round() {
    let rs = started();
    let (q, a) = rs.begin_answer().unwrap();
    assert_eq!(q, "2+2?");
    assert_eq!(a, "4");
}

#[test]
fn begin_answer_rejected_after_win() {
    let mut rs = started();
    let (v, _) = rs.submit_answer(String::from("B"), 2, String::from("4"), None);
    assert_eq!(v, Verdict::Won);
    assert_eq!(rs.begin_answer(), Err(QuizError::RoundNotActive));
}

#[test]
fn current_question_reflects_round() {
    let mut rs = RoundState::new();
    assert_eq!(rs.current_question(), None);
    rs.start_round(String::from("2+2?"), String::from("4")).unwrap();
    assert_eq!(rs.current_question().unwrap(), "2+2?");
    rs.reset();
    assert_eq!(rs.current_question(), None);
}

#[test]
fn pending_keeps_latest_text() {
    let mut rs = started();
    let (v, _) = rs.submit_answer(String::from("A"), 1, String::from("7"), None);
    assert_eq!(v, Verdict::Lost);
    let (v, _) = rs.submit_answer(String::from("A"), 1, String::from("8"), None);
    assert_eq!(v, Verdict::Lost);
    assert_eq!(rs.pending_text(1).unwrap(), "8");
    assert_eq!(rs.pending_text(2), None);
}

#[test]
fn commit_answer_compare_and_set() {
    let mut rs = started();
    // Two submissions both judged correct: only the first commit wins.
    let v1 = rs.commit_answer(String::from("A"), 1, String::from("4"), true);
    let v2 = rs.commit_answer(String::from("B"), 2, String::from("4"), true);
    assert_eq!(v1, Verdict::Won);
    assert_eq!(v2, Verdict::Rejected);
    assert_eq!(rs.winner_label().unwrap(), "A");
}
