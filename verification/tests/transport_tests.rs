//! The retry/backoff state machine, driven over recorded attempt outcomes.

use edgarkit::error::EdgarError;
use edgarkit::transport::calculate_backoff;
use edgarkit::transport::run_fetch_bytes;
use edgarkit::transport::run_fetch_text;
use edgarkit::transport::transport_step_text;
use edgarkit::transport::BytesAttempt;
use edgarkit::transport::BytesResponse;
use edgarkit::transport::StepAction;
use edgarkit::transport::TextAttempt;
use edgarkit::transport::TextResponse;
use edgarkit::transport::MAX_RETRIES;

fn ok_response(body: &str) -> TextAttempt {
    TextAttempt::Returned(TextResponse {
        status: 200,
        content_type: None,
        retry_after_secs: None,
        body: body.to_string(),
    })
}

fn status_response(status: u16) -> TextAttempt {
    TextAttempt::Returned(TextResponse {
        status,
        content_type: None,
        retry_after_secs: None,
        body: String::new(),
    })
}

#[test]
fn test_calculate_backoff() {
    let backoff0 = calculate_backoff(0);
    let backoff1 = calculate_backoff(1);
    let backoff2 = calculate_backoff(2);

    // Check that backoff increases exponentially
    assert!(backoff0 < backoff1);
    assert!(backoff1 < backoff2);

    // Check that backoff is roughly within expected range
    assert!(backoff0 >= 800 && backoff0 <= 1200); // ±20% of 1000ms
    assert!(backoff1 >= 1600 && backoff1 <= 2400); // ±20% of 2000ms
    assert!(backoff2 >= 3200 && backoff2 <= 4800); // ±20% of 4000ms
}

#[test]
fn retry_cap_rate_limited() {
    // 429 on every attempt: exactly 1 + MAX_RETRIES attempts, then the
    // terminal rate limit error.
    let events: Vec<TextAttempt> = (0..8).map(|_| status_response(429)).collect();
    let run = run_fetch_text("https://example.test/data.json", &events);
    assert_eq!(run.attempts, (MAX_RETRIES + 1) as usize);
    assert!(matches!(run.result, Err(EdgarError::RateLimitExceeded)));
    assert_eq!(run.sleeps.len(), MAX_RETRIES as usize);
}

#[test]
fn no_retry_on_not_found() {
    let mut events = vec![status_response(404)];
    events.extend((0..5).map(|_| ok_response("never reached")));
    let run = run_fetch_text("https://example.test/missing", &events);
    assert_eq!(run.attempts, 1);
    assert!(matches!(run.result, Err(EdgarError::NotFound)));
    assert!(run.sleeps.is_empty());
}

#[test]
fn three_rate_limits_then_success() {
    // 429 three times, then 200 with body "ok": success after exactly four
    // attempts, having slept at least the low edge of each jitter band.
    let mut events: Vec<TextAttempt> = (0..3).map(|_| status_response(429)).collect();
    events.push(ok_response("ok"));
    events.extend((0..2).map(|_| status_response(500)));
    let run = run_fetch_text("https://example.test/data", &events);
    assert_eq!(run.attempts, 4);
    assert_eq!(run.result.unwrap(), "ok");
    let total: u64 = run.sleeps.iter().sum();
    assert!(total >= 800 + 1600 + 3200);
    assert!(total <= 1200 + 2400 + 4800);
}

#[test]
fn mislabeled_json_accepted() {
    // A .json URL answered with Content-Type text/html but a JSON body is
    // accepted despite the header.
    let events = vec![TextAttempt::Returned(TextResponse {
        status: 200,
        content_type: Some("text/html; charset=utf-8".to_string()),
        retry_after_secs: None,
        body: "{\"a\":1}".to_string(),
    })];
    let mut padded = events.clone();
    padded.extend((0..5).map(|_| status_response(500)));
    let run = run_fetch_text("https://example.test/data.json", &padded);
    assert_eq!(run.attempts, 1);
    assert_eq!(run.result.unwrap(), "{\"a\":1}");
}

#[test]
fn unicode_space_before_json_body_is_tolerated() {
    // A no-break space leads the body; trimming is by Unicode whitespace, so
    // the body still sniffs as JSON.
    let mut events = vec![TextAttempt::Returned(TextResponse {
        status: 200,
        content_type: Some("text/html".to_string()),
        retry_after_secs: None,
        body: "\u{A0}\u{2003} {\"a\":1}".to_string(),
    })];
    events.extend((0..5).map(|_| status_response(500)));
    let run = run_fetch_text("https://example.test/data.json", &events);
    assert_eq!(run.attempts, 1);
    assert_eq!(run.result.unwrap(), "\u{A0}\u{2003} {\"a\":1}");
}

#[test]
fn html_body_rejected_with_preview() {
    let long_body = format!("<html>{}</html>", "x".repeat(400));
    let mut events = vec![TextAttempt::Returned(TextResponse {
        status: 200,
        content_type: Some("Text/HTML".to_string()),
        retry_after_secs: None,
        body: long_body.clone(),
    })];
    events.extend((0..5).map(|_| status_response(500)));
    let run = run_fetch_text("https://example.test/data.json", &events);
    assert_eq!(run.attempts, 1);
    match run.result {
        Err(EdgarError::UnexpectedContentType {
            url,
            expected_pattern,
            got_content_type,
            content_preview,
        }) => {
            assert_eq!(url, "https://example.test/data.json");
            assert_eq!(expected_pattern, "application/json");
            assert_eq!(got_content_type, "Text/HTML");
            assert_eq!(content_preview.chars().count(), 200);
            assert!(long_body.starts_with(&content_preview));
        }
        other => panic!("expected a content type mismatch, got {:?}", other),
    }
}

#[test]
fn html_content_type_ignored_for_plain_urls() {
    // Without the .json suffix the content type is not validated.
    let mut events = vec![TextAttempt::Returned(TextResponse {
        status: 200,
        content_type: Some("text/html".to_string()),
        retry_after_secs: None,
        body: "<html></html>".to_string(),
    })];
    events.extend((0..5).map(|_| status_response(500)));
    let run = run_fetch_text("https://example.test/page", &events);
    assert_eq!(run.result.unwrap(), "<html></html>");
}

#[test]
fn other_status_fails_at_once_with_preview() {
    let mut events = vec![TextAttempt::Returned(TextResponse {
        status: 503,
        content_type: None,
        retry_after_secs: None,
        body: "server is busy".to_string(),
    })];
    events.extend((0..5).map(|_| ok_response("later")));
    let run = run_fetch_text("https://example.test/data", &events);
    assert_eq!(run.attempts, 1);
    match run.result {
        Err(EdgarError::InvalidResponse(msg)) => {
            assert_eq!(
                msg,
                "Unexpected status code: 503 for URL: https://example.test/data. \
                 Response preview: server is busy"
            );
        }
        other => panic!("expected an invalid response, got {:?}", other),
    }
}

#[test]
fn transport_failures_retried_then_surfaced() {
    let events: Vec<TextAttempt> =
        (0..6).map(|_| TextAttempt::Failed("dns failure".to_string())).collect();
    let run = run_fetch_text("https://example.test/", &events);
    assert_eq!(run.attempts, 6);
    match run.result {
        Err(EdgarError::RequestError(msg)) => assert_eq!(msg, "dns failure"),
        other => panic!("expected a request error, got {:?}", other),
    }
}

#[test]
fn retry_after_header_honored() {
    let mut events = vec![TextAttempt::Returned(TextResponse {
        status: 429,
        content_type: None,
        retry_after_secs: Some(7),
        body: String::new(),
    })];
    events.push(ok_response("done"));
    events.extend((0..4).map(|_| status_response(500)));
    let run = run_fetch_text("https://example.test/", &events);
    assert_eq!(run.attempts, 2);
    assert_eq!(run.sleeps, vec![7000]);
    assert_eq!(run.result.unwrap(), "done");
}

#[test]
fn bytes_fetch_shares_the_policy() {
    let mut events: Vec<BytesAttempt> = (0..2)
        .map(|_| {
            BytesAttempt::Returned(BytesResponse {
                status: 429,
                retry_after_secs: None,
                body: Vec::new(),
            })
        })
        .collect();
    events.push(BytesAttempt::Returned(BytesResponse {
        status: 200,
        retry_after_secs: None,
        body: vec![1, 2, 3],
    }));
    events.extend((0..3).map(|_| BytesAttempt::Failed("x".to_string())));
    let run = run_fetch_bytes(&events);
    assert_eq!(run.attempts, 3);
    assert_eq!(run.result.unwrap(), vec![1, 2, 3]);
}

#[test]
fn bytes_not_found_is_terminal() {
    let mut events = vec![BytesAttempt::Returned(BytesResponse {
        status: 404,
        retry_after_secs: None,
        body: Vec::new(),
    })];
    events.extend((0..5).map(|_| BytesAttempt::Failed("x".to_string())));
    let run = run_fetch_bytes(&events);
    assert_eq!(run.attempts, 1);
    assert!(matches!(run.result, Err(EdgarError::NotFound)));
}

#[test]
fn step_sleeps_before_cap_and_stops_at_cap() {
    let attempt = status_response(429);
    match transport_step_text("https://example.test/", 0, &attempt) {
        StepAction::Sleep(ms) => assert!((800..=1200).contains(&ms)),
        other => panic!("expected a sleep, got {:?}", other),
    }
    match transport_step_text("https://example.test/", MAX_RETRIES, &attempt) {
        StepAction::Done(Err(EdgarError::RateLimitExceeded)) => {}
        other => panic!("expected the rate limit error, got {:?}", other),
    }
}
