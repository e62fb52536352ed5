use dashboard_proxy::commands::{submit_task_request, API_BASE};
use dashboard_proxy::decode::decode_submit_task_request;
use dashboard_proxy::encode::encode_submit_task_request;
use dashboard_proxy::records::SubmitTaskRequest;
use serde_json::Value;

fn through_text(name: &str, description: &str) -> SubmitTaskRequest {
    let request = submit_task_request(API_BASE, String::from(name), String::from(description))
        .expect("a task submission can be written");
    let text = request.body.expect("a submission has a body");
    let read: Value = serde_json::from_slice(&text).expect("the body is JSON");
    decode_submit_task_request(&read).expect("the body is a task submission")
}

fn check(name: &str, description: &str) {
    let back = through_text(name, description);
    assert_eq!(back.name.as_bytes(), name.as_bytes());
    assert_eq!(back.description.as_bytes(), description.as_bytes());
}

#[test]
fn encode_puts_the_name_first() {
    let submission =
        SubmitTaskRequest { name: String::from("build-x"), description: String::from("desc") };
    let document = encode_submit_task_request(&submission);
    let members: Vec<(&String, &Value)> =
        document.as_object().expect("a submission is an object").iter().collect();
    assert_eq!(members.len(), 2);
    assert_eq!(members[0].0, "name");
    assert_eq!(members[0].1, &Value::String(String::from("build-x")));
    assert_eq!(members[1].0, "description");
    assert_eq!(members[1].1, &Value::String(String::from("desc")));
}

#[test]
fn encode_then_decode_gives_the_submission_back() {
    let submission = SubmitTaskRequest {
        name: String::from("nightly \"build\""),
        description: String::from("first line\nsecond line"),
    };
    let document = encode_submit_task_request(&submission);
    assert_eq!(decode_submit_task_request(&document), Ok(submission));
}

#[test]
fn round_trip_of_plain_strings() {
    check("build-x", "desc");
}

#[test]
fn round_trip_of_empty_strings() {
    check("", "");
}

#[test]
fn round_trip_of_quotes_and_backslashes() {
    check("say \"hi\"", "C:\\temp\\\"x\"");
}

#[test]
fn round_trip_of_newlines_and_control_characters() {
    check("line one\nline two\r\n", "tab\tbell\u{7}null\u{0}escape\u{1b}");
}

#[test]
fn round_trip_of_unicode() {
    check("bäu-ñ 説明", "emoji \u{1F680}, separator \u{2028}, mark \u{feff}");
}

#[test]
fn round_trip_of_text_that_looks_like_json() {
    check("{\"name\":\"x\"}", "\\u0041 \\n </script>");
}
