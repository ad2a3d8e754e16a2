use vstd::prelude::*;

verus! {

/// One named requirement unit within a presentation definition: the
/// credential formats the verifier accepts for it, and the claim paths it
/// requires to be disclosed.
pub struct InputDescriptor {
    /// Format designations the verifier accepts for this descriptor.
    pub formats: Vec<String>,
    /// Claim paths that must resolve against a satisfying credential.
    pub required_fields: Vec<String>,
}

/// Declarative, verifier-authored description of the requested credentials:
/// one or more input descriptors.
pub struct PresentationDefinition {
    pub input_descriptors: Vec<InputDescriptor>,
}

/// A credential in normalized in-memory form: its format designation and the
/// claim paths that resolve against it. The pipeline only ever borrows these.
pub struct ParsedCredential {
    pub format: String,
    pub claims: Vec<String>,
}

/// The mechanism by which a verifier's request identity is authenticated.
/// Any scheme the wallet does not explicitly recognize is carried as
/// `Unsupported` and rejected, never silently accepted.
pub enum ClientIdScheme {
    Did,
    Unsupported(String),
}

/// The response mode negotiated by the request: how the authorization
/// response is to be delivered back to the verifier.
pub enum ResponseMode {
    DirectPost,
    DirectPostJwt,
    Unsupported(String),
}

/// Where the presentation definition of a request comes from: inline in the
/// request object, or behind a reference URL that must be fetched.
pub enum DefinitionSource {
    Inline(PresentationDefinition),
    ByReference(String),
}

/// The decoded authorization request. Immutable once constructed; it is
/// retained through the pipeline so the response can be submitted to the
/// endpoint the request named.
pub struct AuthorizationRequest {
    /// The requester's claimed, scheme-qualified identifier.
    pub client_id: String,
    /// The identity scheme qualifying `client_id`.
    pub scheme: ClientIdScheme,
    pub response_mode: ResponseMode,
    pub definition: DefinitionSource,
    /// The verifier endpoint the authorization response is delivered to.
    pub response_uri: String,
}

/// One entry of the credential store as the adapter hands it over: the
/// outcome of parsing the stored bytes. An entry whose parse failed is
/// carried as `None` and silently skipped by the matcher.
pub struct StoredCredential {
    pub parsed: Option<ParsedCredential>,
}

/// One credential format the wallet supports, with its accepted algorithms.
pub struct SupportedFormat {
    pub designation: String,
    pub algorithms: Vec<String>,
}

/// Process-wide, immutable description of what the holder supports:
/// identity schemes and credential formats. Built once at construction and
/// never mutated afterwards.
pub struct WalletMetadata {
    pub client_id_schemes_supported: Vec<ClientIdScheme>,
    pub vp_formats_supported: Vec<SupportedFormat>,
}

/// Two string sequences hold the same texts, position by position.
pub open spec fn str_seq_views_equal(a: Seq<String>, b: Seq<String>) -> bool {
    a.len() == b.len() && forall|i: int| 0 <= i < a.len() ==> a[i]@ == #[trigger] b[i]@
}

/// Two credentials carry the same content: the same format designation and
/// the same claim paths in the same order.
pub open spec fn same_credential(a: ParsedCredential, b: ParsedCredential) -> bool {
    a.format@ == b.format@ && str_seq_views_equal(a.claims@, b.claims@)
}

/// Two credential sequences carry the same credentials, position by position.
pub open spec fn cred_seq_views_equal(a: Seq<ParsedCredential>, b: Seq<ParsedCredential>) -> bool {
    a.len() == b.len() && forall|i: int| 0 <= i < a.len() ==> same_credential(#[trigger] a[i], b[i])
}

/// Two input descriptors with equal format and field lists.
pub open spec fn same_descriptor(a: InputDescriptor, b: InputDescriptor) -> bool {
    a.formats@ == b.formats@ && a.required_fields@ == b.required_fields@
}

/// Two presentation definitions with equal descriptors, position by position.
pub open spec fn same_definition(a: PresentationDefinition, b: PresentationDefinition) -> bool {
    a.input_descriptors@.len() == b.input_descriptors@.len()
        && forall|i: int| 0 <= i < a.input_descriptors@.len()
            ==> same_descriptor(#[trigger] a.input_descriptors@[i], b.input_descriptors@[i])
}

/// Two definition sources of the same kind with equal contents.
pub open spec fn same_source(a: DefinitionSource, b: DefinitionSource) -> bool {
    match a {
        DefinitionSource::Inline(d1) => b matches DefinitionSource::Inline(d2)
            && same_definition(d1, d2),
        DefinitionSource::ByReference(u1) => b matches DefinitionSource::ByReference(u2)
            && u1 == u2,
    }
}

/// Two requests that agree on every field, with definitions compared by
/// content.
pub open spec fn same_request(a: AuthorizationRequest, b: AuthorizationRequest) -> bool {
    &&& a.client_id == b.client_id
    &&& a.scheme == b.scheme
    &&& a.response_mode == b.response_mode
    &&& a.response_uri == b.response_uri
    &&& same_source(a.definition, b.definition)
}

/// Element-by-element copy of a string list. The copy holds the same string
/// values, so the views coincide as well.
pub fn clone_strings(v: &Vec<String>) -> (res: Vec<String>)
    ensures
        res@ == v@,
{
    let mut res: Vec<String> = Vec::new();
    let mut i: usize = 0;
    while i < v.len()
        invariant
            0 <= i <= v.len(),
            res@ == v@.subrange(0, i as int),
        decreases v.len() - i,
    {
        res.push(v[i].clone());
        assert(v@.subrange(0, i as int).push(v@[i as int]) =~= v@.subrange(0, i + 1 as int));
        i += 1;
    }
    assert(v@.subrange(0, v@.len() as int) =~= v@);
    res
}

impl Clone for ParsedCredential {
    /// The copy carries the same format value and the same claim values.
    fn clone(&self) -> (res: Self)
        ensures
            res.format == self.format,
            res.claims@ == self.claims@,
            same_credential(res, *self),
    {
        ParsedCredential { format: self.format.clone(), claims: clone_strings(&self.claims) }
    }
}

impl Clone for InputDescriptor {
    fn clone(&self) -> (res: Self)
        ensures
            res.formats@ == self.formats@,
            res.required_fields@ == self.required_fields@,
            same_descriptor(res, *self),
    {
        InputDescriptor {
            formats: clone_strings(&self.formats),
            required_fields: clone_strings(&self.required_fields),
        }
    }
}

impl Clone for PresentationDefinition {
    /// The copy holds descriptors equal in content, position by position.
    fn clone(&self) -> (res: Self)
        ensures
            same_definition(res, *self),
    {
        let mut input_descriptors: Vec<InputDescriptor> = Vec::new();
        let mut i: usize = 0;
        while i < self.input_descriptors.len()
            invariant
                0 <= i <= self.input_descriptors.len(),
                input_descriptors@.len() == i,
                forall|j: int| 0 <= j < i ==> same_descriptor(
                    #[trigger] input_descriptors@[j],
                    self.input_descriptors@[j],
                ),
            decreases self.input_descriptors.len() - i,
        {
            input_descriptors.push(self.input_descriptors[i].clone());
            i += 1;
        }
        PresentationDefinition { input_descriptors }
    }
}

impl Clone for ClientIdScheme {
    fn clone(&self) -> (res: Self)
        ensures
            res == *self,
    {
        match self {
            ClientIdScheme::Did => ClientIdScheme::Did,
            ClientIdScheme::Unsupported(s) => ClientIdScheme::Unsupported(s.clone()),
        }
    }
}

impl Clone for ResponseMode {
    fn clone(&self) -> (res: Self)
        ensures
            res == *self,
    {
        match self {
            ResponseMode::DirectPost => ResponseMode::DirectPost,
            ResponseMode::DirectPostJwt => ResponseMode::DirectPostJwt,
            ResponseMode::Unsupported(s) => ResponseMode::Unsupported(s.clone()),
        }
    }
}

impl Clone for DefinitionSource {
    fn clone(&self) -> (res: Self)
        ensures
            same_source(res, *self),
    {
        match self {
            DefinitionSource::Inline(d) => DefinitionSource::Inline(d.clone()),
            DefinitionSource::ByReference(u) => DefinitionSource::ByReference(u.clone()),
        }
    }
}

impl Clone for AuthorizationRequest {
    fn clone(&self) -> (res: Self)
        ensures
            same_request(res, *self),
    {
        AuthorizationRequest {
            client_id: self.client_id.clone(),
            scheme: self.scheme.clone(),
            response_mode: self.response_mode.clone(),
            definition: self.definition.clone(),
            response_uri: self.response_uri.clone(),
        }
    }
}

} // verus!
