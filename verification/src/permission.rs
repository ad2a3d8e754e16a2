use vstd::prelude::*;
use vstd::string::StringExecFns;
use crate::error::OID4VPError;
use crate::matching::{requested_fields, requested_fields_spec};
use crate::model::{
    AuthorizationRequest, ParsedCredential, PresentationDefinition, cred_seq_views_equal,
    same_credential, same_definition, same_request,
};

verus! {

/// Does `candidates` hold a credential with the same content as `c`?
pub open spec fn candidates_contain(candidates: Seq<ParsedCredential>, c: ParsedCredential) -> bool {
    exists|j: int| 0 <= j < candidates.len() && same_credential(#[trigger] candidates[j], c)
}

/// Is every credential of `selected` drawn from `candidates`?
pub open spec fn selection_from_candidates(
    selected: Seq<ParsedCredential>,
    candidates: Seq<ParsedCredential>,
) -> bool {
    forall|i: int| 0 <= i < selected.len() ==> candidates_contain(candidates, #[trigger] selected[i])
}

/// The offer put before the user: the resolved presentation definition, the
/// full list of candidate credentials that satisfy it, and the originating
/// authorization request, retained for response submission. The candidate
/// list is fixed at construction and never narrowed afterwards.
pub struct PermissionRequest {
    pub presentation_definition: PresentationDefinition,
    pub credentials: Vec<ParsedCredential>,
    pub authorization_request: AuthorizationRequest,
}

/// The caller's approved selection, ready to be turned into a submitted
/// presentation. Its selection is non-empty and drawn from the candidate
/// list of the permission request it came from; building and signing the
/// concrete payload is deferred to submission time.
pub struct PermissionResponse {
    pub presentation_definition: PresentationDefinition,
    pub authorization_request: AuthorizationRequest,
    pub selected_credentials: Vec<ParsedCredential>,
}

/// Are two credentials equal in content: same format, same claims?
pub fn credential_eq(a: &ParsedCredential, b: &ParsedCredential) -> (r: bool)
    ensures
        r == same_credential(*a, *b),
{
    if a.format != b.format {
        return false;
    }
    if a.claims.len() != b.claims.len() {
        return false;
    }
    let mut i: usize = 0;
    while i < a.claims.len()
        invariant
            0 <= i <= a.claims.len(),
            a.claims@.len() == b.claims@.len(),
            a.format@ == b.format@,
            forall|j: int| 0 <= j < i ==> a.claims@[j]@ == #[trigger] b.claims@[j]@,
        decreases a.claims.len() - i,
    {
        if a.claims[i] != b.claims[i] {
            return false;
        }
        i += 1;
    }
    true
}

impl PermissionRequest {
    /// Pure packaging of the matched candidates with the definition and the
    /// originating request; nothing can fail here.
    pub fn new(
        presentation_definition: PresentationDefinition,
        credentials: Vec<ParsedCredential>,
        authorization_request: AuthorizationRequest,
    ) -> (r: Self)
        ensures
            r.presentation_definition == presentation_definition,
            r.credentials == credentials,
            r.authorization_request == authorization_request,
    {
        PermissionRequest { presentation_definition, credentials, authorization_request }
    }

    /// The candidate credentials offered by this permission request, each
    /// copied in content.
    pub fn credentials(&self) -> (r: Vec<ParsedCredential>)
        ensures
            cred_seq_views_equal(r@, self.credentials@),
    {
        let mut r: Vec<ParsedCredential> = Vec::new();
        let mut i: usize = 0;
        while i < self.credentials.len()
            invariant
                0 <= i <= self.credentials.len(),
                r@.len() == i,
                forall|j: int| 0 <= j < i ==> same_credential(#[trigger] r@[j], self.credentials@[j]),
            decreases self.credentials.len() - i,
        {
            r.push(self.credentials[i].clone());
            i += 1;
        }
        r
    }

    /// The ordered claim paths the verifier asked to see of `credential`
    /// under this request's definition. Purely presentational.
    pub fn requested_fields(&self, credential: &ParsedCredential) -> (r: Vec<String>)
        ensures
            r@ == requested_fields_spec(self.presentation_definition, *credential),
    {
        requested_fields(&self.presentation_definition, credential)
    }

    /// Turn the caller's selection into a permission response. The selection
    /// must be non-empty and drawn from this request's candidate list;
    /// otherwise the call fails with a selection validation error and no
    /// response exists. No cryptographic work happens here — signing is
    /// deferred to submission.
    pub fn create_permission_response(&self, selected_credentials: Vec<ParsedCredential>) -> (r:
        Result<PermissionResponse, OID4VPError>)
        ensures
            r is Ok <==> selected_credentials@.len() > 0 && selection_from_candidates(
                selected_credentials@,
                self.credentials@,
            ),
            r matches Ok(resp) ==> {
                &&& resp.selected_credentials == selected_credentials
                &&& same_request(resp.authorization_request, self.authorization_request)
                &&& same_definition(resp.presentation_definition, self.presentation_definition)
            },
            r matches Err(e) ==> e matches OID4VPError::SelectionValidation(_),
    {
        if selected_credentials.len() == 0 {
            return Err(
                OID4VPError::SelectionValidation(
                    String::from_str("no credential was selected"),
                ),
            );
        }
        let mut i: usize = 0;
        while i < selected_credentials.len()
            invariant
                0 <= i <= selected_credentials.len(),
                forall|j: int| 0 <= j < i ==> candidates_contain(
                    self.credentials@,
                    #[trigger] selected_credentials@[j],
                ),
            decreases selected_credentials.len() - i,
        {
            if !self.contains_candidate(&selected_credentials[i]) {
                return Err(
                    OID4VPError::SelectionValidation(
                        String::from_str("a selected credential is not among the candidates"),
                    ),
                );
            }
            i += 1;
        }
        Ok(
            PermissionResponse {
                presentation_definition: self.presentation_definition.clone(),
                authorization_request: self.authorization_request.clone(),
                selected_credentials,
            },
        )
    }

    /// Is `c` equal in content to one of this request's candidates?
    fn contains_candidate(&self, c: &ParsedCredential) -> (r: bool)
        ensures
            r == candidates_contain(self.credentials@, *c),
    {
        let mut i: usize = 0;
        while i < self.credentials.len()
            invariant
                0 <= i <= self.credentials.len(),
                forall|j: int| 0 <= j < i ==> !same_credential(#[trigger] self.credentials@[j], *c),
            decreases self.credentials.len() - i,
        {
            if credential_eq(&self.credentials[i], c) {
                return true;
            }
            i += 1;
        }
        false
    }
}

} // verus!
