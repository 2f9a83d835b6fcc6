use nutrition_ai::generator::{CallState, Step, TransportOutcome};
use nutrition_ai::response::{extract_text, Candidate, ContentPart, ProviderResponse};
use nutrition_ai::types::GenError;

/// Runs the call loop against a stub that answers with `outcomes` in turn.
/// Returns the result, the number of calls made and the pauses asked for.
fn run(outcomes: Vec<TransportOutcome>) -> (Result<String, GenError>, usize, Vec<u64>) {
    let mut state = CallState::new();
    let mut calls = 0;
    let mut delays = Vec::new();
    let mut stub = outcomes.into_iter();
    loop {
        let outcome = stub.next().expect("stub called too often");
        calls += 1;
        match state.on_outcome(outcome) {
            Step::RetryAfter(secs) => delays.push(secs),
            Step::Finished(r) => return (r, calls, delays),
        }
    }
}

fn text_response(texts: &[Option<&str>]) -> ProviderResponse {
    ProviderResponse::Generated {
        candidates: vec![Candidate {
            parts: texts.iter().map(|t| ContentPart { text: t.map(|s| s.to_string()) }).collect(),
        }],
    }
}

fn failed(msg: &str) -> TransportOutcome {
    TransportOutcome::Failed(msg.to_string())
}

#[test]
fn overloaded_twice_then_success() {
    let (r, calls, delays) = run(vec![
        failed("model is overloaded"),
        failed("The model is overloaded. Please try again later."),
        TransportOutcome::Replied(text_response(&[Some("Apple, 95 kcal")])),
    ]);
    assert_eq!(r, Ok("Apple, 95 kcal".to_string()));
    assert_eq!(calls, 3);
    assert_eq!(delays, vec![2, 4]);
}

#[test]
fn status_503_is_retried() {
    let (r, calls, delays) = run(vec![
        failed("GoogleAPIError - code: Some(503) error: unavailable"),
        TransportOutcome::Replied(text_response(&[Some("ok")])),
    ]);
    assert_eq!(r, Ok("ok".to_string()));
    assert_eq!(calls, 2);
    assert_eq!(delays, vec![2]);
}

#[test]
fn always_overloaded_fails_after_three_calls() {
    let (r, calls, delays) = run(vec![
        failed("overloaded"),
        failed("overloaded"),
        failed("overloaded"),
        failed("overloaded"),
        failed("overloaded"),
    ]);
    assert_eq!(r, Err(GenError::Overloaded));
    assert_eq!(calls, 3);
    assert_eq!(delays, vec![2, 4]);
}

#[test]
fn unrelated_error_is_not_retried() {
    let (r, calls, delays) = run(vec![
        failed("invalid API key"),
        TransportOutcome::Replied(text_response(&[Some("never reached")])),
    ]);
    assert_eq!(r, Err(GenError::ProviderError("invalid API key".to_string())));
    assert_eq!(calls, 1);
    assert!(delays.is_empty());
}

#[test]
fn unrelated_error_after_overload_stops() {
    let (r, calls, delays) = run(vec![failed("overloaded"), failed("quota exceeded")]);
    assert_eq!(r, Err(GenError::ProviderError("quota exceeded".to_string())));
    assert_eq!(calls, 2);
    assert_eq!(delays, vec![2]);
}

#[test]
fn single_text_part_returned_unmodified() {
    let resp = text_response(&[Some("Apple, 95 kcal")]);
    assert_eq!(extract_text(&resp), Ok("Apple, 95 kcal".to_string()));
    let (r, calls, _) = run(vec![TransportOutcome::Replied(resp)]);
    assert_eq!(r, Ok("Apple, 95 kcal".to_string()));
    assert_eq!(calls, 1);
}

#[test]
fn text_is_not_trimmed() {
    let resp = text_response(&[Some("  | Apple | 95 |\n"), Some("second")]);
    assert_eq!(extract_text(&resp), Ok("  | Apple | 95 |\n".to_string()));
}

#[test]
fn zero_candidates() {
    let resp = ProviderResponse::Generated { candidates: vec![] };
    assert_eq!(extract_text(&resp), Err(GenError::NoCandidates));
    let (r, calls, _) = run(vec![TransportOutcome::Replied(resp)]);
    assert_eq!(r, Err(GenError::NoCandidates));
    assert_eq!(calls, 1);
}

#[test]
fn candidate_without_parts() {
    let resp = text_response(&[]);
    assert_eq!(extract_text(&resp), Err(GenError::NoParts));
}

#[test]
fn part_without_text() {
    let resp = text_response(&[None, Some("later text")]);
    assert_eq!(extract_text(&resp), Err(GenError::NoText));
}

#[test]
fn other_response_shape() {
    assert_eq!(extract_text(&ProviderResponse::Other), Err(GenError::UnexpectedResponseShape));
}

#[test]
fn only_first_candidate_is_read() {
    let resp = ProviderResponse::Generated {
        candidates: vec![
            Candidate { parts: vec![ContentPart { text: Some("first".to_string()) }] },
            Candidate { parts: vec![ContentPart { text: Some("second".to_string()) }] },
        ],
    };
    assert_eq!(extract_text(&resp), Ok("first".to_string()));
}
