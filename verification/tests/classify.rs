use oxideoverflow::classify::{
    body_plan, classify, no_body_message, outcome_report, Body, BodyPlan, DecodeFailure,
    PollOutcome, Reply, STATUS_OK,
};
use oxideoverflow::model::{Owner, Question, Response};
use oxideoverflow::report::{Context, Report, Severity};
use oxideoverflow::status::status_phrase;

fn question(id: u64, title: &str) -> Question {
    Question {
        title: String::from(title),
        link: format!("https://stackoverflow.com/questions/{}", id),
        score: 0,
        question_id: id,
        creation_date: 1_600_000_000 + id,
        owner: Owner {
            reputation: 1,
            user_id: 10 + id,
            user_type: String::from("registered"),
            accept_rate: None,
            profile_image: format!("https://img.example/{}.png", id),
            display_name: format!("user{}", id),
            link: format!("https://stackoverflow.com/users/{}", 10 + id),
        },
        tags: vec![String::from("sentry")],
        is_answered: false,
        view_count: 3,
    }
}

fn batch(ids: &[u64]) -> Response {
    Response {
        has_more: false,
        quota_max: 300,
        quota_remaining: 299,
        items: ids.iter().map(|id| question(*id, &format!("q{}", id))).collect(),
    }
}

#[test]
fn ok_status_with_a_batch_is_success_in_input_order() {
    let sent = batch(&[30, 10, 20, 10]);
    let outcome = classify(Reply::Answered { status: 200, body: Body::Decoded(sent.clone()) });
    match outcome {
        PollOutcome::Success(got) => {
            let ids: Vec<u64> = got.items.iter().map(|q| q.question_id).collect();
            assert_eq!(ids, vec![30, 10, 20, 10]);
            assert_eq!(got, sent);
        }
        other => panic!("not a success: {:?}", other),
    }
}

#[test]
fn success_keeps_the_quota_figures() {
    let mut sent = batch(&[1]);
    sent.has_more = true;
    sent.quota_max = 10_000;
    sent.quota_remaining = 9_876;
    let outcome = classify(Reply::Answered { status: 200, body: Body::Decoded(sent) });
    match outcome {
        PollOutcome::Success(got) => {
            assert!(got.has_more);
            assert_eq!(got.quota_max, 10_000);
            assert_eq!(got.quota_remaining, 9_876);
        }
        other => panic!("not a success: {:?}", other),
    }
}

#[test]
fn empty_batch_is_success() {
    let outcome = classify(Reply::Answered { status: 200, body: Body::Decoded(batch(&[])) });
    assert_eq!(outcome, PollOutcome::Success(batch(&[])));
    assert_eq!(outcome_report(&outcome, "u"), None);
}

#[test]
fn other_status_with_a_body_is_api_error_with_that_body() {
    let text = "{\"error_id\":502,\"error_message\":\"too many requests\"}";
    let outcome =
        classify(Reply::Answered { status: 400, body: Body::Text(String::from(text)) });
    assert_eq!(outcome, PollOutcome::ApiError(400, Some(String::from(text))));
    assert_eq!(
        outcome_report(&outcome, "https://example.test/q"),
        Some(Report {
            severity: Severity::Error,
            message: String::from(text),
            context: Context::HttpStatus(400),
        })
    );
}

#[test]
fn other_status_without_a_body_reports_the_fixed_message() {
    let outcome = classify(Reply::Answered { status: 500, body: Body::Unreadable });
    assert_eq!(outcome, PollOutcome::ApiError(500, None));
    let report = outcome_report(&outcome, "https://example.test/q").unwrap();
    assert_eq!(report.severity, Severity::Error);
    assert_eq!(
        report.message,
        "Call failed with status 500 Internal Server Error and no body."
    );
    assert_eq!(report.context, Context::Nothing);
}

#[test]
fn ok_status_with_a_body_that_lacks_a_field_is_decode_error() {
    let failure = DecodeFailure {
        message: String::from(
            "error decoding response body: missing field `items` at line 1 column 58",
        ),
        body_size: Some(58),
    };
    let outcome =
        classify(Reply::Answered { status: 200, body: Body::Undecodable(failure.clone()) });
    assert_eq!(outcome, PollOutcome::DecodeError(failure.clone()));
    assert!(!matches!(outcome, PollOutcome::Success(_)));
    assert_eq!(
        outcome_report(&outcome, "https://example.test/q"),
        Some(Report {
            severity: Severity::Error,
            message: failure.message,
            context: Context::BodySize(58),
        })
    );
}

#[test]
fn decode_error_of_unknown_size_has_no_context() {
    let failure = DecodeFailure { message: String::from("EOF while parsing"), body_size: None };
    let outcome = classify(Reply::Answered { status: 200, body: Body::Undecodable(failure) });
    let report = outcome_report(&outcome, "u").unwrap();
    assert_eq!(report.severity, Severity::Error);
    assert_eq!(report.message, "EOF while parsing");
    assert_eq!(report.context, Context::Nothing);
}

#[test]
fn no_answer_is_transport_error_and_a_warning() {
    let outcome = classify(Reply::Unreachable { cause: String::from("connection refused") });
    assert_eq!(outcome, PollOutcome::TransportError(String::from("connection refused")));
    assert_eq!(
        outcome_report(&outcome, "https://example.test/q?x=1"),
        Some(Report {
            severity: Severity::Warning,
            message: String::from(
                "Failed with error: connection refused, on stackoverflow_url: https://example.test/q?x=1"
            ),
            context: Context::Nothing,
        })
    );
}

#[test]
fn only_status_200_is_decoded() {
    assert_eq!(STATUS_OK, 200);
    assert_eq!(body_plan(200), BodyPlan::Decode);
    for status in [0u16, 100, 199, 201, 204, 301, 404, 500, 999, u16::MAX] {
        assert_eq!(body_plan(status), BodyPlan::ReadText);
    }
}

#[test]
fn body_answers_the_plan_for_its_status() {
    let decoded = Body::Decoded(batch(&[1]));
    let undecodable =
        Body::Undecodable(DecodeFailure { message: String::from("bad"), body_size: None });
    let text = Body::Text(String::from("t"));
    assert!(decoded.answers(200));
    assert!(undecodable.answers(200));
    assert!(!text.answers(200));
    assert!(!Body::Unreadable.answers(200));
    assert!(!decoded.answers(404));
    assert!(!undecodable.answers(404));
    assert!(text.answers(404));
    assert!(Body::Unreadable.answers(404));
}

#[test]
fn empty_error_body_is_still_a_body() {
    let outcome = classify(Reply::Answered { status: 503, body: Body::Text(String::new()) });
    assert_eq!(outcome, PollOutcome::ApiError(503, Some(String::new())));
    let report = outcome_report(&outcome, "u").unwrap();
    assert_eq!(report.message, "");
    assert_eq!(report.context, Context::HttpStatus(503));
}

#[test]
fn no_body_message_wraps_the_status_text() {
    assert_eq!(no_body_message("404 Not Found"), "Call failed with status 404 Not Found and no body.");
    assert_eq!(no_body_message(""), "Call failed with status  and no body.");
}

#[test]
fn status_reads_as_code_and_reason() {
    assert_eq!(status_phrase(404), "404 Not Found");
    assert_eq!(status_phrase(200), "200 OK");
    assert_eq!(status_phrase(429), "429 Too Many Requests");
    assert_eq!(status_phrase(100), "100 Continue");
}

#[test]
fn status_without_a_registered_reason() {
    assert_eq!(status_phrase(599), "599 <unknown status code>");
    assert_eq!(status_phrase(999), "999 <unknown status code>");
}

#[test]
fn number_that_is_no_status_reads_as_decimal() {
    assert_eq!(status_phrase(0), "0");
    assert_eq!(status_phrase(99), "99");
    assert_eq!(status_phrase(1000), "1000");
    assert_eq!(status_phrase(u16::MAX), "65535");
}
