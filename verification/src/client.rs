//! Normalisation of the sidecar's HTTP replies into typed results.
//!
//! The HTTP transport itself stays outside the library; a caller hands the
//! observed reply (or the fact that the sidecar was unreachable) to the
//! functions here, which decide between success and each error kind.  The
//! JSON reading of the reply bodies is delegated to `serde_json` behind
//! trusted wrappers whose results are named by uninterpreted functions:
//! what the library proves about a reply holds for whatever those parses
//! return.

use vstd::prelude::*;
use crate::errors::SidecarError;
use crate::numfmt::{spec_scaled_1000, scale_decimal_1000};
use crate::request::InferenceResponse;

verus! {

/// One observed reply of an HTTP call against the sidecar, as the transport
/// hands it over: either the sidecar was unreachable (connection refused or
/// reset), or it answered with a status and a body.
#[derive(Debug, Clone)]
pub enum HttpReply {
    Unreachable,
    Response { status: u16, body: String },
}

/// Success statuses of the sidecar's HTTP surface.
pub open spec fn is_success_status(status: u16) -> bool {
    200 <= status < 300
}

/// What `serde_json` reads out of a completion response body: the `content`
/// field and, when present, the rendered text of the total
/// per-token-millisecond timing figure; nothing when the body is unparsable
/// or has no string `content`.
pub uninterp spec fn completion_of(s: Seq<char>) -> Option<(Seq<char>, Option<Seq<char>>)>;

/// The token estimate a completion reply yields: the timing figure scaled
/// by 1000 and truncated (a rough heuristic the wire format forces; an
/// absent figure counts as zero).
pub open spec fn spec_token_estimate(timing: Option<Seq<char>>) -> u32 {
    match timing {
        Some(t) => spec_scaled_1000(t),
        None => 0u32,
    }
}

/// What `serde_json` reads out of an embedding response body: the length of
/// the `embedding` array, or nothing when the body is unparsable or the
/// field is absent or not an array.
pub uninterp spec fn embedding_len_of(s: Seq<char>) -> Option<usize>;

/// What `serde_json` reads out of a JSON array of strings, or nothing when
/// the text is not such an array.
pub uninterp spec fn string_array_of(s: Seq<char>) -> Option<Seq<Seq<char>>>;

/// Relies on `serde_json::from_str`, the `Value` accessors `get` and
/// `as_str`, and `Value`'s rendering: reads the `content` field of a
/// completion response and the rendered text of the
/// `timings.totalpredicted_per_token_ms` figure when that key is present.
/// The result depends on the text alone.
#[verifier::external_body]
fn parse_completion_json(s: &str) -> (r: Option<(String, Option<String>)>)
    ensures
        match r {
            Some(p) => completion_of(s@) == Some(
                (
                    p.0@,
                    match p.1 {
                        Some(t) => Some(t@),
                        None => None,
                    },
                ),
            ),
            None => completion_of(s@) is None,
        },
{
    let v: serde_json::Value = match serde_json::from_str(s) {
        Ok(v) => v,
        Err(_) => return None,
    };
    let content = match v.get("content").and_then(serde_json::Value::as_str) {
        Some(c) => c.to_string(),
        None => return None,
    };
    let timing = v
        .get("timings")
        .and_then(|t| t.get("totalpredicted_per_token_ms"))
        .map(|x| x.to_string());
    Some((content, timing))
}

/// Relies on `serde_json::from_str` and `Value::as_array`: the length of
/// the `embedding` array of an embedding response.  The result depends on
/// the text alone.
#[verifier::external_body]
fn embedding_array_len(s: &str) -> (r: Option<usize>)
    ensures
        r == embedding_len_of(s@),
{
    let v: serde_json::Value = match serde_json::from_str(s) {
        Ok(v) => v,
        Err(_) => return None,
    };
    v.get("embedding").and_then(serde_json::Value::as_array).map(|a| a.len())
}

/// Relies on `serde_json::from_str`: parses a JSON array of strings.  The
/// result depends on the text alone.
#[verifier::external_body]
fn parse_string_array_json(s: &str) -> (r: Option<Vec<String>>)
    ensures
        match r {
            Some(v) => string_array_of(s@) == Some(v.deep_view()),
            None => string_array_of(s@) is None,
        },
{
    serde_json::from_str::<Vec<String>>(s).ok()
}

/// Decides the outcome of a non-streaming completion call from the observed
/// reply: a transport failure is a `Transport` error, a non-success status
/// an `Inference` error carrying status and body, an unreadable body a
/// `Protocol` error, and otherwise the response carries the content, the
/// token estimate, and the elapsed time.
pub fn complete_outcome(reply: HttpReply, elapsed_ms: u64) -> (r: Result<
    InferenceResponse,
    SidecarError,
>)
    ensures
        match reply {
            HttpReply::Unreachable => r is Err && r->Err_0 is Transport,
            HttpReply::Response { status, body } => if !is_success_status(status) {
                r is Err && (r->Err_0 matches SidecarError::Inference { status: s2, body: b2 }
                    && s2 == status && b2@ == body@)
            } else {
                match completion_of(body@) {
                    None => r is Err && r->Err_0 is Protocol,
                    Some(p) => {
                        &&& r is Ok
                        &&& r->Ok_0.text@ == p.0
                        &&& r->Ok_0.tokens_generated == spec_token_estimate(p.1)
                        &&& r->Ok_0.inference_time_ms == elapsed_ms
                    },
                }
            },
        },
{
    match reply {
        HttpReply::Unreachable => Err(SidecarError::Transport),
        HttpReply::Response { status, body } => {
            if !(200 <= status && status < 300) {
                return Err(SidecarError::Inference { status, body });
            }
            match parse_completion_json(body.as_str()) {
                None => Err(SidecarError::Protocol),
                Some((text, timing)) => {
                    let tokens = match timing {
                        Some(t) => scale_decimal_1000(t.as_str()),
                        None => 0,
                    };
                    Ok(
                        InferenceResponse {
                            text,
                            tokens_generated: tokens,
                            inference_time_ms: elapsed_ms,
                        },
                    )
                },
            }
        },
    }
}

/// Decides the outcome of an embedding call from the observed reply, as
/// [`complete_outcome`] does; on success it reports how many entries the
/// embedding vector carries (their numeric decoding stays with the caller).
pub fn embed_outcome(reply: HttpReply) -> (r: Result<usize, SidecarError>)
    ensures
        match reply {
            HttpReply::Unreachable => r is Err && r->Err_0 is Transport,
            HttpReply::Response { status, body } => if !is_success_status(status) {
                r is Err && (r->Err_0 matches SidecarError::Inference { status: s2, body: b2 }
                    && s2 == status && b2@ == body@)
            } else {
                match embedding_len_of(body@) {
                    None => r is Err && r->Err_0 is Protocol,
                    Some(n) => r is Ok && r->Ok_0 == n,
                }
            },
        },
{
    match reply {
        HttpReply::Unreachable => Err(SidecarError::Transport),
        HttpReply::Response { status, body } => {
            if !(200 <= status && status < 300) {
                return Err(SidecarError::Inference { status, body });
            }
            match embedding_array_len(body.as_str()) {
                None => Err(SidecarError::Protocol),
                Some(n) => Ok(n),
            }
        },
    }
}

/// Reads a completion's response text as a JSON array of strings, as the
/// distractor and knowledge-tag calls expect it: a `Protocol` error when the
/// text is not such an array.
pub fn parse_string_list(text: &str) -> (r: Result<Vec<String>, SidecarError>)
    ensures
        string_array_of(text@) matches Some(a) ==> r is Ok && r->Ok_0.deep_view() == a,
        string_array_of(text@) is None ==> r is Err && r->Err_0 is Protocol,
{
    match parse_string_array_json(text) {
        Some(v) => Ok(v),
        None => Err(SidecarError::Protocol),
    }
}

} // verus!
