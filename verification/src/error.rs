use vstd::prelude::*;

verus! {

/// Every failure the pipeline can surface to the caller, by stage.
///
/// Failures are always reported as typed results; nothing is retried
/// internally. The one deliberate non-error is the per-entry skip of store
/// credentials that fail to parse during matching.
#[derive(Debug)]
pub enum OID4VPError {
    /// Transport setup failed; fatal to construction of the driver.
    HttpClientInitialization(String),
    /// The static wallet configuration could not be built.
    MetadataInitialization(String),
    /// The request was malformed, unverifiable, or its identity was not
    /// trusted. A hard stop: no credential is examined afterwards.
    RequestValidation(String),
    /// The negotiated response mode is not implemented. A hard stop.
    UnsupportedResponseMode(String),
    /// The presentation definition could not be fetched or parsed.
    PresentationDefinitionResolution(String),
    /// The response payload could not be built or delivered.
    ResponseSubmission(String),
    /// The caller's credential selection was empty or not drawn from the
    /// candidate list of its permission request.
    SelectionValidation(String),
}

} // verus!
