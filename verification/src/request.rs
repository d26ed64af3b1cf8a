//! Request builder: assembles the outbound call descriptor for one bridge
//! invocation. Pure assembly over the encoded payload; every field but the
//! body is the same constant on every call.
use vstd::prelude::*;
use crate::payload::encode_payload;
use crate::payload::spec_payload;

verus! {

/// The HTTP method of the outbound call. Only POST is ever used.
pub enum Method {
    Post,
}

/// One HTTP header, as a name/value pair.
pub struct Header {
    pub name: String,
    pub value: String,
}

/// The descriptor of one outbound call: everything the host needs to perform
/// the HTTPS request on the bridge's behalf.
pub struct OutboundRequest {
    /// The fixed inference endpoint.
    pub url: String,
    /// Always POST.
    pub method: Method,
    /// Exactly one pair: `Content-Type: application/json`.
    pub headers: Vec<Header>,
    /// The encoded JSON payload, as text; the host sends its UTF-8 bytes.
    pub body: String,
    /// Upper bound on the response size the host may hand back, in bytes.
    pub max_response_bytes: u64,
    /// Execution-time allowance granted to the call, as accounted by the
    /// host. Advisory: the host enforces it, the bridge does not.
    pub time_budget: u64,
}

/// Builds the outbound request for one question: fixed endpoint, POST, the
/// single JSON content-type header, the encoded payload as body, a two
/// megabyte response cap and a thirty-second time budget.
pub fn build_request(question: &str) -> (r: OutboundRequest)
    ensures
        r.url@ == "https://ollama.com/ICSPICY/SpicyAi"@,
        r.method is Post,
        r.headers@.len() == 1,
        r.headers@[0].name@ == "Content-Type"@,
        r.headers@[0].value@ == "application/json"@,
        r.body@ == spec_payload(question@),
        r.max_response_bytes == 2_000_000u64,
        r.time_budget == 30_000_000_000u64,
{
    let header = Header {
        name: String::from_str("Content-Type"),
        value: String::from_str("application/json"),
    };
    let mut headers: Vec<Header> = Vec::new();
    headers.push(header);
    OutboundRequest {
        url: String::from_str("https://ollama.com/ICSPICY/SpicyAi"),
        method: Method::Post,
        headers,
        body: encode_payload(question),
        max_response_bytes: 2_000_000,
        time_budget: 30_000_000_000,
    }
}

} // verus!
