use deepseek_agent::resolve::extract_ollama_answer;
use deepseek_agent::resolve::resolve_failure;
use deepseek_agent::resolve::resolve_outcome;
use deepseek_agent::resolve::resolve_success;
use deepseek_agent::resolve::resolve_text;
use deepseek_agent::resolve::CallOutcome;
use deepseek_agent::resolve::TransportError;

#[test]
fn answer_field_is_returned_verbatim() {
    assert_eq!(resolve_text("{\"answer\":\"42\"}"), "42");
}

#[test]
fn other_field_falls_back_to_raw_body() {
    assert_eq!(
        resolve_text("{\"other\":\"x\"}"),
        "Ollama response: {\"other\":\"x\"}"
    );
}

#[test]
fn invalid_json_falls_back_to_raw_body() {
    assert_eq!(resolve_text("not json"), "Ollama response: not json");
}

#[test]
fn non_string_answer_falls_back() {
    assert_eq!(
        resolve_text("{\"answer\":5}"),
        "Ollama response: {\"answer\":5}"
    );
    assert_eq!(resolve_text("[1,2]"), "Ollama response: [1,2]");
    assert_eq!(resolve_text("\"answer\""), "Ollama response: \"answer\"");
}

#[test]
fn extract_finds_only_string_answers() {
    assert_eq!(
        extract_ollama_answer("{\"answer\":\"yes\"}"),
        Some("yes".to_string())
    );
    assert_eq!(extract_ollama_answer("{\"answer\":null}"), None);
    assert_eq!(extract_ollama_answer("{}"), None);
    assert_eq!(extract_ollama_answer("nonsense"), None);
}

#[test]
fn success_bytes_are_decoded_then_resolved() {
    let body: Vec<u8> = "{\"answer\":\"yes\"}".as_bytes().to_vec();
    assert_eq!(resolve_success(&body), "yes");
}

#[test]
fn invalid_utf8_is_replaced_not_rejected() {
    let body: Vec<u8> = vec![0xff, 0xfe];
    assert_eq!(
        resolve_success(&body),
        format!("Ollama response: {}{}", '\u{FFFD}', '\u{FFFD}')
    );
}

#[test]
fn transport_error_gets_prefixed() {
    let err = TransportError {
        detail: "(RejectionCode::SysTransient, \"timeout\")".to_string(),
    };
    let resolved = resolve_failure(&err);
    assert!(resolved.starts_with("Ollama HTTPS error: "));
    assert_eq!(
        resolved,
        "Ollama HTTPS error: (RejectionCode::SysTransient, \"timeout\")"
    );
}

#[test]
fn outcome_covers_both_paths() {
    let ok = CallOutcome::Success {
        body: "{\"answer\":\"42\"}".as_bytes().to_vec(),
    };
    assert_eq!(resolve_outcome(&ok), "42");
    let bad = CallOutcome::Failure {
        error: TransportError {
            detail: "no route".to_string(),
        },
    };
    assert_eq!(resolve_outcome(&bad), "Ollama HTTPS error: no route");
}

#[test]
fn resolver_is_deterministic_and_idempotent() {
    let outcome = CallOutcome::Success {
        body: "{\"other\":\"x\"}".as_bytes().to_vec(),
    };
    let first = resolve_outcome(&outcome);
    let second = resolve_outcome(&outcome);
    assert_eq!(first, second);
    let failure = CallOutcome::Failure {
        error: TransportError {
            detail: "boom".to_string(),
        },
    };
    assert_eq!(resolve_outcome(&failure), resolve_outcome(&failure));
}
