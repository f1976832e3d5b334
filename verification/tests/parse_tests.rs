use quiz_engine::source::{complete_generation, lenient_parse, parse_riddle_reply};
use quiz_engine::errors::QuizError;

#[test]
fn strict_json_reply() {
    let r = parse_riddle_reply("{\"question\": \"What has keys?\", \"answer\": \"A piano\"}");
    let (q, a) = r.unwrap();
    assert_eq!(q, "What has keys?");
    assert_eq!(a, "A piano");
}

#[test]
fn strict_json_reply_with_whitespace() {
    let r = parse_riddle_reply("  {\"question\": \"Q?\", \"answer\": \"A\"}  ");
    assert_eq!(r.unwrap(), (String::from("Q?"), String::from("A")));
}

#[test]
fn lenient_labeled_lines() {
    let r = parse_riddle_reply("Question: What has keys?\nAnswer: A piano");
    let (q, a) = r.unwrap();
    assert_eq!(q, "What has keys?");
    assert_eq!(a, "A piano");
}

#[test]
fn lenient_labels_are_case_insensitive() {
    let r = parse_riddle_reply("QUESTION: one\nANSWER: two");
    assert_eq!(r.unwrap(), (String::from("one"), String::from("two")));
}

#[test]
fn lenient_value_stops_at_second_colon() {
    let r = lenient_parse("Question: one: extra\nAnswer: two");
    let (q, a) = r.unwrap();
    assert_eq!(q, "one");
    assert_eq!(a, "two");
}

#[test]
fn lenient_missing_answer_label() {
    let r = parse_riddle_reply("Question: only a question here");
    assert_eq!(r, Err(QuizError::MalformedResponse));
}

#[test]
fn lenient_empty_value_is_malformed() {
    let r = parse_riddle_reply("Question:\nAnswer: two");
    assert_eq!(r, Err(QuizError::MalformedResponse));
}

#[test]
fn garbage_reply_is_malformed() {
    let r = parse_riddle_reply("the service had nothing to say");
    assert_eq!(r, Err(QuizError::MalformedResponse));
}

#[test]
fn strict_without_fields_falls_to_lenient() {
    let r = parse_riddle_reply("{}\nQuestion: q\nAnswer: a");
    assert_eq!(r.unwrap(), (String::from("q"), String::from("a")));
}

#[test]
fn complete_generation_without_reply() {
    assert_eq!(complete_generation(None), Err(QuizError::ExternalCallFailed));
}

#[test]
fn complete_generation_with_reply() {
    let reply = String::from("{\"question\": \"Q?\", \"answer\": \"A\"}");
    let r = complete_generation(Some(&reply));
    assert_eq!(r.unwrap(), (String::from("Q?"), String::from("A")));
}
