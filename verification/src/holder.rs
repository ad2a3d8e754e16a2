use vstd::prelude::*;
use vstd::string::StringExecFns;
use crate::error::OID4VPError;
use crate::matching::{
    credential_matches, lemma_matched_upto_all_match, lemma_matched_upto_extend,
    lemma_matches_congruent, matched_credentials, matched_upto, parsed_entries, parsed_upto,
};
use crate::model::{
    AuthorizationRequest, ClientIdScheme, DefinitionSource, ParsedCredential,
    PresentationDefinition, ResponseMode, StoredCredential, SupportedFormat, WalletMetadata,
    cred_seq_views_equal, same_definition,
};
use crate::permission::{PermissionRequest, PermissionResponse};

verus! {

/// Where the holder's candidate credentials come from: an explicit list
/// supplied at construction, or the entries of the credential store. The
/// choice is made once, at construction; an explicit list is exclusive and
/// the store is then never consulted.
pub enum CredentialSource {
    Provided(Vec<ParsedCredential>),
    Store(Vec<StoredCredential>),
}

/// An entity that possesses verifiable credentials and answers verifiers'
/// presentation requests with them. It shares no mutable state between
/// calls: every field is fixed at construction.
pub struct Holder {
    /// What this wallet supports; built once, read-only afterwards.
    pub metadata: WalletMetadata,
    /// Identifiers the holder is prepared to trust. Retained for a future
    /// trust policy; the present default trusts the requester's own claimed
    /// identifier, pending that policy.
    pub trusted_dids: Vec<String>,
    /// The candidate pool configuration.
    pub credentials: CredentialSource,
}

/// The identity check the caller must run before anything else happens:
/// resolve the claimed identifier's key material and verify the request
/// signature against it, constrained to the allowed identifiers.
pub struct VerificationJob {
    pub request: AuthorizationRequest,
    /// Identifiers acceptable for this request. The conservative default is
    /// the requester's own claimed identifier, pending a richer trust policy.
    pub allowed_identifiers: Vec<String>,
}

/// What the external identity verification reported.
pub enum VerificationOutcome {
    Verified,
    Rejected(String),
}

/// A fetch of the presentation definition from its reference URL, owed to
/// the pipeline before matching can start.
pub struct DefinitionFetchJob {
    pub url: String,
    pub request: AuthorizationRequest,
}

/// After a request is verified: either its definition was inline and the
/// pipeline can proceed, or the definition must first be fetched.
pub enum DefinitionStep {
    Resolved(AuthorizationRequest, PresentationDefinition),
    Fetch(DefinitionFetchJob),
}

/// What the external definition fetch yielded: the parsed definition, or the
/// fetch or parse failure.
pub enum DefinitionFetchOutcome {
    Fetched(PresentationDefinition),
    Failed(String),
}

/// The single network delivery owed for a permission response: where to
/// deliver it, and whether the negotiated response mode asks for an
/// additional signed envelope.
pub struct SubmissionJob {
    pub endpoint: String,
    pub signed_envelope: bool,
}

/// What the external delivery reported: a terminal status with an optional
/// redirect target, or a payload-construction or transport failure.
pub enum SubmissionOutcome {
    Delivered { status: u16, redirect_uri: Option<String> },
    Failed(String),
}

/// Does the wallet support `scheme`? Schemes the wallet does not explicitly
/// recognize are never supported; rejection is the default.
pub open spec fn scheme_supported(m: WalletMetadata, scheme: ClientIdScheme) -> bool {
    match scheme {
        ClientIdScheme::Did => exists|i: int|
            0 <= i < m.client_id_schemes_supported@.len()
                && (#[trigger] m.client_id_schemes_supported@[i]) is Did,
        ClientIdScheme::Unsupported(_) => false,
    }
}

/// The response modes this pipeline implements.
pub open spec fn mode_supported(mode: ResponseMode) -> bool {
    mode is DirectPost || mode is DirectPostJwt
}

/// The static wallet configuration, in full: the decentralized-identifier
/// scheme is the only identity scheme, and the SD-JWT credential format with
/// the ES256 algorithm is the only format. Every holder is built with
/// exactly this metadata, identically at every construction.
pub open spec fn is_static_metadata(m: WalletMetadata) -> bool {
    &&& m.client_id_schemes_supported@.len() == 1
    &&& m.client_id_schemes_supported@[0] is Did
    &&& m.vp_formats_supported@.len() == 1
    &&& m.vp_formats_supported@[0].designation@ == "vcdm2_sd_jwt"@
    &&& m.vp_formats_supported@[0].algorithms@.len() == 1
    &&& m.vp_formats_supported@[0].algorithms@[0]@ == "ES256"@
}

/// The candidate pool of a holder: the provided list if one was supplied at
/// construction, otherwise every store entry that parses.
pub open spec fn candidate_pool(h: Holder) -> Seq<ParsedCredential> {
    match h.credentials {
        CredentialSource::Provided(cs) => cs@,
        CredentialSource::Store(es) => parsed_entries(es@),
    }
}

impl Holder {
    /// The static wallet configuration: the decentralized-identifier scheme
    /// and the SD-JWT credential format with its accepted algorithm.
    pub fn metadata() -> (r: Result<WalletMetadata, OID4VPError>)
        ensures
            r matches Ok(m) ==> is_static_metadata(m),
            r is Ok,
    {
        let mut schemes: Vec<ClientIdScheme> = Vec::new();
        schemes.push(ClientIdScheme::Did);
        let mut algorithms: Vec<String> = Vec::new();
        algorithms.push(String::from_str("ES256"));
        let mut formats: Vec<SupportedFormat> = Vec::new();
        formats.push(
            SupportedFormat { designation: String::from_str("vcdm2_sd_jwt"), algorithms },
        );
        Ok(WalletMetadata { client_id_schemes_supported: schemes, vp_formats_supported: formats })
    }

    /// A holder whose candidates are the entries of the credential store.
    pub fn new(vdc_collection: Vec<StoredCredential>, trusted_dids: Vec<String>) -> (r: Result<
        Holder,
        OID4VPError,
    >)
        ensures
            r matches Ok(h) ==> {
                &&& h.credentials matches CredentialSource::Store(es) && es == vdc_collection
                &&& h.trusted_dids == trusted_dids
                &&& is_static_metadata(h.metadata)
                &&& scheme_supported(h.metadata, ClientIdScheme::Did)
            },
            r is Ok,
    {
        let metadata = Self::metadata()?;
        Ok(
            Holder {
                metadata,
                trusted_dids,
                credentials: CredentialSource::Store(vdc_collection),
            },
        )
    }

    /// A holder whose candidates are exactly the provided credentials; the
    /// store, if any, is never consulted.
    pub fn new_with_credentials(
        provided_credentials: Vec<ParsedCredential>,
        trusted_dids: Vec<String>,
    ) -> (r: Result<Holder, OID4VPError>)
        ensures
            r matches Ok(h) ==> {
                &&& h.credentials matches CredentialSource::Provided(cs) && cs
                    == provided_credentials
                &&& h.trusted_dids == trusted_dids
                &&& is_static_metadata(h.metadata)
                &&& scheme_supported(h.metadata, ClientIdScheme::Did)
            },
            r is Ok,
    {
        let metadata = Self::metadata()?;
        Ok(
            Holder {
                metadata,
                trusted_dids,
                credentials: CredentialSource::Provided(provided_credentials),
            },
        )
    }

    /// Does the wallet support the decentralized-identifier scheme?
    fn supports_did_scheme(&self) -> (r: bool)
        ensures
            r == scheme_supported(self.metadata, ClientIdScheme::Did),
    {
        let schemes = &self.metadata.client_id_schemes_supported;
        let mut i: usize = 0;
        while i < schemes.len()
            invariant
                0 <= i <= schemes.len(),
                schemes@ == self.metadata.client_id_schemes_supported@,
                forall|j: int| 0 <= j < i ==> !(#[trigger] schemes@[j] is Did),
            decreases schemes.len() - i,
        {
            let entry = &schemes[i];
            let found = match entry {
                ClientIdScheme::Did => true,
                _ => false,
            };
            if found {
                assert(self.metadata.client_id_schemes_supported@[i as int] is Did);
                return true;
            }
            i += 1;
        }
        false
    }

    /// Gate an incoming decoded authorization request. A request whose
    /// identity scheme the wallet does not support is rejected here, before
    /// any verification, matching or fetch: no credential is examined and no
    /// presentation definition is requested for it. On success the returned
    /// job names the identity check still owed; nothing downstream may run
    /// until that check succeeds.
    pub fn authorization_request(&self, request: AuthorizationRequest) -> (r: Result<
        VerificationJob,
        OID4VPError,
    >)
        ensures
            r is Ok <==> scheme_supported(self.metadata, request.scheme),
            r matches Ok(job) ==> {
                &&& job.request == request
                &&& job.allowed_identifiers@.len() == 1
                &&& job.allowed_identifiers@[0] == request.client_id
            },
            r matches Err(e) ==> e matches OID4VPError::RequestValidation(_),
    {
        match &request.scheme {
            ClientIdScheme::Did => {
                if self.supports_did_scheme() {
                    let mut allowed_identifiers: Vec<String> = Vec::new();
                    allowed_identifiers.push(request.client_id.clone());
                    Ok(VerificationJob { request, allowed_identifiers })
                } else {
                    Err(
                        OID4VPError::RequestValidation(
                            String::from_str("the claimed identity scheme is not supported"),
                        ),
                    )
                }
            },
            ClientIdScheme::Unsupported(_) => Err(
                OID4VPError::RequestValidation(
                    String::from_str("the claimed identity scheme is not recognized"),
                ),
            ),
        }
    }

    /// Fold the outcome of the external identity verification back into the
    /// pipeline. A rejected request is a hard stop: the call fails and no
    /// candidate list is ever computed for it. A verified request must also
    /// carry a response mode this pipeline implements; only then does the
    /// definition stage open.
    pub fn request_verified(job: VerificationJob, outcome: VerificationOutcome) -> (r: Result<
        DefinitionStep,
        OID4VPError,
    >)
        ensures
            r is Ok <==> outcome is Verified && mode_supported(job.request.response_mode),
            outcome matches VerificationOutcome::Rejected(_) ==> r matches Err(e)
                && e matches OID4VPError::RequestValidation(_),
            outcome is Verified && !mode_supported(job.request.response_mode) ==> (r matches Err(e)
                && e matches OID4VPError::UnsupportedResponseMode(_)),
            r matches Ok(DefinitionStep::Resolved(req, d)) ==> {
                &&& req == job.request
                &&& job.request.definition matches DefinitionSource::Inline(inline)
                    && same_definition(d, inline)
            },
            r matches Ok(DefinitionStep::Fetch(fetch)) ==> {
                &&& fetch.request == job.request
                &&& job.request.definition matches DefinitionSource::ByReference(u) && fetch.url
                    == u
            },
    {
        match outcome {
            VerificationOutcome::Rejected(_) => Err(
                OID4VPError::RequestValidation(
                    String::from_str("identity verification rejected the request"),
                ),
            ),
            VerificationOutcome::Verified => {
                match &job.request.response_mode {
                    ResponseMode::Unsupported(mode) => Err(
                        OID4VPError::UnsupportedResponseMode(mode.clone()),
                    ),
                    _ => {
                        match &job.request.definition {
                            DefinitionSource::Inline(d) => {
                                let definition = d.clone();
                                Ok(DefinitionStep::Resolved(job.request, definition))
                            },
                            DefinitionSource::ByReference(u) => {
                                let url = u.clone();
                                Ok(
                                    DefinitionStep::Fetch(
                                        DefinitionFetchJob { url, request: job.request },
                                    ),
                                )
                            },
                        }
                    },
                }
            },
        }
    }

    /// Fold the outcome of the external definition fetch back into the
    /// pipeline. A fetch or parse failure is a hard stop: the call fails
    /// with a definition-resolution error and no permission request is ever
    /// constructed. No partial definition is ever accepted.
    pub fn definition_resolved(job: DefinitionFetchJob, outcome: DefinitionFetchOutcome) -> (r:
        Result<(AuthorizationRequest, PresentationDefinition), OID4VPError>)
        ensures
            r is Ok <==> outcome is Fetched,
            r matches Ok(p) ==> {
                &&& p.0 == job.request
                &&& outcome matches DefinitionFetchOutcome::Fetched(d) && p.1 == d
            },
            r matches Err(e) ==> e matches OID4VPError::PresentationDefinitionResolution(_),
    {
        match outcome {
            DefinitionFetchOutcome::Fetched(d) => Ok((job.request, d)),
            DefinitionFetchOutcome::Failed(_) => Err(
                OID4VPError::PresentationDefinitionResolution(
                    String::from_str("the presentation definition could not be obtained"),
                ),
            ),
        }
    }

    /// Exactly the credentials of this holder's candidate pool that satisfy
    /// `definition`, in pool order. With a provided list, that list is the
    /// exclusive pool; otherwise every store entry is enumerated, entries
    /// that failed to parse are silently skipped, and the rest are tested.
    /// The decision reads nothing but the pool and the definition.
    pub fn search_credentials_vs_presentation_definition(
        &self,
        definition: &PresentationDefinition,
    ) -> (r: Vec<ParsedCredential>)
        ensures
            cred_seq_views_equal(r@, matched_credentials(candidate_pool(*self), *definition)),
    {
        let mut r: Vec<ParsedCredential> = Vec::new();
        match &self.credentials {
            CredentialSource::Provided(cs) => {
                let ghost pool = cs@;
                let mut i: usize = 0;
                while i < cs.len()
                    invariant
                        0 <= i <= cs.len(),
                        pool == cs@,
                        cred_seq_views_equal(r@, matched_upto(pool, *definition, i as int)),
                    decreases cs.len() - i,
                {
                    if cs[i].check_presentation_definition(definition) {
                        r.push(cs[i].clone());
                        assert(matched_upto(pool, *definition, i + 1 as int) =~= matched_upto(
                            pool,
                            *definition,
                            i as int,
                        ).push(pool[i as int]));
                    } else {
                        assert(matched_upto(pool, *definition, i + 1 as int) =~= matched_upto(
                            pool,
                            *definition,
                            i as int,
                        ));
                    }
                    i += 1;
                }
            },
            CredentialSource::Store(es) => {
                let ghost entries = es@;
                let mut i: usize = 0;
                while i < es.len()
                    invariant
                        0 <= i <= es.len(),
                        entries == es@,
                        cred_seq_views_equal(
                            r@,
                            matched_credentials(parsed_upto(entries, i as int), *definition),
                        ),
                    decreases es.len() - i,
                {
                    let ghost prev_pool = parsed_upto(entries, i as int);
                    let ghost next_pool = parsed_upto(entries, i + 1 as int);
                    proof {
                        lemma_matched_upto_extend(
                            prev_pool,
                            next_pool,
                            *definition,
                            prev_pool.len() as int,
                        );
                    }
                    match &es[i].parsed {
                        Some(c) => {
                            assert(next_pool =~= prev_pool.push(entries[i as int].parsed->0));
                            if c.check_presentation_definition(definition) {
                                r.push(c.clone());
                                assert(matched_credentials(next_pool, *definition) =~= matched_upto(
                                    next_pool,
                                    *definition,
                                    prev_pool.len() as int,
                                ).push(next_pool[next_pool.len() - 1]));
                            } else {
                                assert(matched_credentials(next_pool, *definition) =~= matched_upto(
                                    next_pool,
                                    *definition,
                                    prev_pool.len() as int,
                                ));
                            }
                        },
                        None => {
                            assert(next_pool =~= prev_pool);
                        },
                    }
                    i += 1;
                }
            },
        }
        r
    }

    /// Package the resolved definition, the matched candidates and the
    /// originating request into a permission request. Every candidate in the
    /// result independently satisfies the definition at construction time.
    pub fn permission_request(
        &self,
        request: AuthorizationRequest,
        definition: PresentationDefinition,
    ) -> (r: PermissionRequest)
        ensures
            r.authorization_request == request,
            r.presentation_definition == definition,
            cred_seq_views_equal(
                r.credentials@,
                matched_credentials(candidate_pool(*self), definition),
            ),
            forall|k: int| 0 <= k < r.credentials@.len() ==> credential_matches(
                #[trigger] r.credentials@[k],
                definition,
            ),
    {
        let credentials = self.search_credentials_vs_presentation_definition(&definition);
        proof {
            let pool = candidate_pool(*self);
            lemma_matched_upto_all_match(pool, definition, pool.len() as int);
            assert forall|k: int| 0 <= k < credentials@.len() implies credential_matches(
                #[trigger] credentials@[k],
                definition,
            ) by {
                lemma_matches_congruent(
                    credentials@[k],
                    matched_credentials(pool, definition)[k],
                    definition,
                );
            }
        }
        PermissionRequest::new(definition, credentials, request)
    }

    /// The single delivery owed for an approved response: the endpoint the
    /// request named, with a signed envelope exactly when the negotiated
    /// response mode asks for one.
    pub fn submit_permission_response(&self, response: &PermissionResponse) -> (r: SubmissionJob)
        ensures
            r.endpoint == response.authorization_request.response_uri,
            r.signed_envelope == response.authorization_request.response_mode is DirectPostJwt,
    {
        let signed_envelope = match &response.authorization_request.response_mode {
            ResponseMode::DirectPostJwt => true,
            _ => false,
        };
        SubmissionJob {
            endpoint: response.authorization_request.response_uri.clone(),
            signed_envelope,
        }
    }
}

/// A failed definition fetch is a hard stop, whatever the job was: every
/// result `definition_resolved` can return for a failed outcome is the
/// resolution error. In particular no request-and-definition pair comes out
/// of it, and `permission_request` — the only way to a permission request —
/// needs that pair: no permission request is ever constructed from a request
/// whose definition could not be fetched.
pub proof fn lemma_fetch_failure_is_hard_stop(
    job: DefinitionFetchJob,
    outcome: DefinitionFetchOutcome,
    r: Result<(AuthorizationRequest, PresentationDefinition), OID4VPError>,
)
    requires
        outcome is Failed,
        call_ensures(Holder::definition_resolved, (job, outcome), r),
    ensures
        r matches Err(e) && e matches OID4VPError::PresentationDefinitionResolution(_),
{
}

/// Fold the outcome of the external delivery back into the pipeline. A
/// successful delivery yields the verifier's optional redirect target,
/// untouched; a payload-construction failure, transport failure or
/// non-success status is reported as a submission error. Nothing is retried
/// here: retry policy belongs to the caller.
pub fn submission_result(outcome: SubmissionOutcome) -> (r: Result<Option<String>, OID4VPError>)
    ensures
        r is Ok <==> (outcome matches SubmissionOutcome::Delivered { status, .. } && 200 <= status
            < 300),
        r matches Ok(redirect) ==> outcome matches SubmissionOutcome::Delivered {
            status,
            redirect_uri,
        } && redirect == redirect_uri,
        r matches Err(e) ==> e matches OID4VPError::ResponseSubmission(_),
{
    match outcome {
        SubmissionOutcome::Delivered { status, redirect_uri } => {
            if 200 <= status && status < 300 {
                Ok(redirect_uri)
            } else {
                Err(
                    OID4VPError::ResponseSubmission(
                        String::from_str("the verifier reported a non-success status"),
                    ),
                )
            }
        },
        SubmissionOutcome::Failed(_) => Err(
            OID4VPError::ResponseSubmission(
                String::from_str("the response could not be built or delivered"),
            ),
        ),
    }
}

} // verus!
