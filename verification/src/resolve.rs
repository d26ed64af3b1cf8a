//! Response resolver: decodes the outcome of one outbound call into the text
//! handed back to the caller.
//!
//! A successful call carries raw body bytes. They are decoded as UTF-8 (with
//! lossy substitution, so decoding never fails) and the text is parsed as
//! JSON; a top-level string field `"answer"` is returned verbatim, anything
//! else falls back to a diagnostic string embedding the raw text. A failed
//! call is rendered as a diagnostic string embedding the transport error's
//! detail. Both paths are pure: the result is a function of the outcome
//! alone.
use vstd::prelude::*;

verus! {

/// The text that lossy UTF-8 decoding yields for the given bytes. It depends
/// on the bytes alone.
pub uninterp spec fn lossy_utf8_of(bytes: Seq<u8>) -> Seq<char>;

/// The `"answer"` field of the text read as JSON: `Some` exactly when the
/// text parses as a JSON value whose top-level `"answer"` field holds a
/// string, and then that string. It depends on the characters alone.
pub uninterp spec fn json_answer_of(text: Seq<char>) -> Option<Seq<char>>;

/// The view of an optional string, for relating executable results to
/// [`json_answer_of`].
pub open spec fn opt_str_view(r: Option<String>) -> Option<Seq<char>> {
    match r {
        Some(s) => Some(s@),
        None => None,
    }
}

/// A transport-level failure of the outbound call, carried as the host's
/// debug rendering of the error.
pub struct TransportError {
    pub detail: String,
}

/// What one outbound call came to: a response body, or a transport error.
/// Exactly one of the two is produced per call, never both.
pub enum CallOutcome {
    Success { body: Vec<u8> },
    Failure { error: TransportError },
}

/// Decodes bytes as UTF-8 text.
///
/// Relies on `String::from_utf8_lossy`: invalid sequences are replaced, so
/// decoding is total, and the result depends on the bytes alone.
#[verifier::external_body]
fn decode_lossy(bytes: &Vec<u8>) -> (r: String)
    ensures
        r@ == lossy_utf8_of(bytes@),
{
    String::from_utf8_lossy(bytes).into_owned()
}

/// Reads the `"answer"` field out of the text taken as JSON.
///
/// Relies on `serde_json::from_str`, `serde_json::Value::get` and
/// `serde_json::Value::as_str`: parsing and the field lookup depend on the
/// characters of the text alone; `get` returns the entry only when the value
/// is an object holding the key, and `as_str` returns the string only when
/// the entry is a JSON string.
#[verifier::external_body]
fn extract_answer_raw(text: &str) -> (r: Option<String>)
    ensures
        opt_str_view(r) == json_answer_of(text@),
{
    let parsed: Result<serde_json::Value, serde_json::Error> = serde_json::from_str(text);
    match parsed {
        Ok(v) => match v.get("answer") {
            Some(entry) => entry.as_str().map(|s| s.to_string()),
            None => None,
        },
        Err(_) => None,
    }
}

/// The extracted answer: present only if the text is JSON with a top-level
/// string field `"answer"`.
pub fn extract_ollama_answer(text: &str) -> (r: Option<String>)
    ensures
        opt_str_view(r) == json_answer_of(text@),
{
    extract_answer_raw(text)
}

/// What the resolver makes of decoded response text.
pub open spec fn spec_resolve_text(t: Seq<char>) -> Seq<char> {
    match json_answer_of(t) {
        Some(answer) => answer,
        None => "Ollama response: "@ + t,
    }
}

/// What the resolver makes of raw response bytes.
pub open spec fn spec_resolve_success(b: Seq<u8>) -> Seq<char> {
    spec_resolve_text(lossy_utf8_of(b))
}

/// What the resolver makes of a transport error.
pub open spec fn spec_resolve_failure(detail: Seq<char>) -> Seq<char> {
    "Ollama HTTPS error: "@ + detail
}

/// What the resolver makes of a whole call outcome.
pub open spec fn spec_resolve_outcome(o: CallOutcome) -> Seq<char> {
    match o {
        CallOutcome::Success { body } => spec_resolve_success(body@),
        CallOutcome::Failure { error } => spec_resolve_failure(error.detail@),
    }
}

/// Resolves decoded response text: the `"answer"` field verbatim if the text
/// is JSON with such a string field, else the fallback string embedding the
/// text.
pub fn resolve_text(text: &str) -> (r: String)
    ensures
        r@ == spec_resolve_text(text@),
{
    match extract_ollama_answer(text) {
        Some(answer) => answer,
        None => {
            let mut out = String::from_str("Ollama response: ");
            out.append(text);
            out
        },
    }
}

/// Resolves a successful call's body bytes.
pub fn resolve_success(body: &Vec<u8>) -> (r: String)
    ensures
        r@ == spec_resolve_success(body@),
{
    let text = decode_lossy(body);
    resolve_text(text.as_str())
}

/// Resolves a transport error into its diagnostic string.
pub fn resolve_failure(error: &TransportError) -> (r: String)
    ensures
        r@ == spec_resolve_failure(error.detail@),
{
    let mut out = String::from_str("Ollama HTTPS error: ");
    out.append(error.detail.as_str());
    out
}

/// Resolves one call outcome into the final text for the caller.
pub fn resolve_outcome(outcome: &CallOutcome) -> (r: String)
    ensures
        r@ == spec_resolve_outcome(*outcome),
{
    match outcome {
        CallOutcome::Success { body } => resolve_success(body),
        CallOutcome::Failure { error } => resolve_failure(error),
    }
}

/// Whatever the transport error, the resolved text begins with the literal
/// prefix `Ollama HTTPS error: `.
pub proof fn lemma_failure_has_prefix(detail: Seq<char>)
    ensures
        spec_resolve_failure(detail).len() >= "Ollama HTTPS error: "@.len(),
        spec_resolve_failure(detail).subrange(0, "Ollama HTTPS error: "@.len() as int)
            == "Ollama HTTPS error: "@,
{
    assert(spec_resolve_failure(detail).subrange(0, "Ollama HTTPS error: "@.len() as int)
        =~= "Ollama HTTPS error: "@);
}

/// The resolver is deterministic and idempotent: two resolutions of the same
/// call outcome yield the same text.
pub proof fn lemma_resolver_deterministic(o: CallOutcome, r1: Seq<char>, r2: Seq<char>)
    requires
        r1 == spec_resolve_outcome(o),
        r2 == spec_resolve_outcome(o),
    ensures
        r1 == r2,
{
}

} // verus!
