//! A small canister-style agent: it greets, and it bridges a free-text
//! question to a remote inference endpoint over HTTPS, returning either the
//! extracted answer or a diagnostic fallback string.
//!
//! The bridge is strictly linear: the payload encoder turns the question into
//! a JSON body, the request builder assembles the outbound call descriptor,
//! the host performs the call, and the response resolver turns the outcome
//! into the final text.
use vstd::prelude::*;

pub mod payload;
pub mod request;
pub mod resolve;

verus! {

/// Adds two numbers; the caller guarantees the sum fits in a `u64`.
pub fn add(left: u64, right: u64) -> (r: u64)
    requires
        left + right <= u64::MAX,
    ensures
        r == left + right,
{
    left + right
}

/// Liveness probe: always returns the same fixed greeting, whatever the
/// state of the world.
pub fn greet() -> (r: String)
    ensures
        r@ == "Ollama Spicy AI agent is live!"@,
{
    "Ollama Spicy AI agent is live!".to_owned()
}

} // verus!
