use vstd::prelude::*;

verus! {

/// Error taxonomy of the sidecar core.
///
/// Process-level errors (`Process`, `HealthTimeout`) are fatal to a lifecycle
/// call; per-request errors (`Transport`, `Protocol`, `Inference`) are scoped
/// to the single request that produced them.
#[derive(Debug, Clone)]
pub enum SidecarError {
    /// The binary is missing, the spawn failed, or the termination signal
    /// could not be sent.  Carries a description of the failure.
    Process(String),
    /// The bounded health wait elapsed without a healthy response.
    HealthTimeout,
    /// The sidecar could not be reached (connection refused or reset).
    Transport,
    /// A response body was malformed or had an unexpected shape.
    Protocol,
    /// The sidecar answered a call with a non-success HTTP status.
    Inference { status: u16, body: String },
}

} // verus!
