use oid4vp_holder::error::OID4VPError;
use oid4vp_holder::holder::Holder;
use oid4vp_holder::model::{
    InputDescriptor, ParsedCredential, PresentationDefinition, StoredCredential,
};
use oid4vp_holder::permission::PermissionRequest;

fn strings(xs: &[&str]) -> Vec<String> {
    xs.iter().map(|s| s.to_string()).collect()
}

fn descriptor(formats: &[&str], required_fields: &[&str]) -> InputDescriptor {
    InputDescriptor { formats: strings(formats), required_fields: strings(required_fields) }
}

fn definition(descriptors: Vec<InputDescriptor>) -> PresentationDefinition {
    PresentationDefinition { input_descriptors: descriptors }
}

fn credential(format: &str, claims: &[&str]) -> ParsedCredential {
    ParsedCredential { format: format.to_string(), claims: strings(claims) }
}

#[test]
fn credential_matches_on_format_and_fields() {
    let c = credential("X", &["name", "birthdate"]);
    let def = definition(vec![descriptor(&["X"], &["name"])]);
    assert!(c.check_presentation_definition(&def));

    // Wrong format.
    let other_format = definition(vec![descriptor(&["Y"], &["name"])]);
    assert!(!c.check_presentation_definition(&other_format));

    // A required field the credential cannot resolve.
    let missing_field = definition(vec![descriptor(&["X"], &["name", "nationality"])]);
    assert!(!c.check_presentation_definition(&missing_field));

    // Satisfying any one descriptor of several is enough.
    let either = definition(vec![
        descriptor(&["Y"], &["name"]),
        descriptor(&["X"], &["birthdate"]),
    ]);
    assert!(c.check_presentation_definition(&either));
}

#[test]
fn empty_definition_matches_nothing() {
    let c = credential("X", &["name"]);
    let def = definition(vec![]);
    assert!(!c.check_presentation_definition(&def));
}

#[test]
fn matched_credential_has_nonempty_requested_fields() {
    // The requested fields of a matched credential are never empty when
    // every descriptor carries a field constraint.
    let c = credential("X", &["name", "birthdate"]);
    let def = definition(vec![descriptor(&["X"], &["name"])]);
    assert!(c.check_presentation_definition(&def));
    let request = PermissionRequest::new(def, vec![c], dummy_request());
    let candidates = request.credentials();
    let fields = request.requested_fields(&candidates[0]);
    assert!(fields.len() > 0);
}

#[test]
fn unparseable_store_entry_is_silently_skipped() {
    // One store entry fails to parse, one parses and matches: the matched
    // set holds exactly the one parsed credential and no error is raised.
    let store = vec![
        StoredCredential { parsed: None },
        StoredCredential { parsed: Some(credential("X", &["name"])) },
    ];
    let holder = Holder::new(store, vec![]).unwrap();
    let def = definition(vec![descriptor(&["X"], &["name"])]);
    let matched = holder.search_credentials_vs_presentation_definition(&def);
    assert_eq!(matched.len(), 1);
    assert_eq!(matched[0].format, "X".to_string());
    assert_eq!(matched[0].claims, vec!["name".to_string()]);
}

#[test]
fn matching_is_deterministic_across_invocations() {
    let holder = Holder::new_with_credentials(
        vec![
            credential("X", &["name"]),
            credential("Y", &["name"]),
            credential("X", &["birthdate"]),
        ],
        vec![],
    )
    .unwrap();
    let def = definition(vec![descriptor(&["X"], &["name"])]);
    let first = holder.search_credentials_vs_presentation_definition(&def);
    let second = holder.search_credentials_vs_presentation_definition(&def);
    assert_eq!(first.len(), 1);
    assert_eq!(second.len(), first.len());
    for (a, b) in first.iter().zip(second.iter()) {
        assert_eq!(a.format, b.format);
        assert_eq!(a.claims, b.claims);
    }
}

#[test]
fn duplicate_satisfaction_returns_credential_once() {
    // A credential satisfying two descriptors of the definition is returned
    // once, not once per descriptor.
    let holder =
        Holder::new_with_credentials(vec![credential("X", &["name", "age"])], vec![]).unwrap();
    let def = definition(vec![
        descriptor(&["X"], &["name"]),
        descriptor(&["X"], &["age"]),
    ]);
    let matched = holder.search_credentials_vs_presentation_definition(&def);
    assert_eq!(matched.len(), 1);
}

#[test]
fn create_response_fails_on_empty_selection() {
    let def = definition(vec![descriptor(&["X"], &["name"])]);
    let request = PermissionRequest::new(def, vec![credential("X", &["name"])], dummy_request());
    let r = request.create_permission_response(vec![]);
    assert!(matches!(r, Err(OID4VPError::SelectionValidation(_))));
}

#[test]
fn create_response_fails_on_credential_outside_candidates() {
    let def = definition(vec![descriptor(&["X"], &["name"])]);
    let request = PermissionRequest::new(def, vec![credential("X", &["name"])], dummy_request());
    let foreign = credential("X", &["nationality"]);
    let r = request.create_permission_response(vec![foreign]);
    assert!(matches!(r, Err(OID4VPError::SelectionValidation(_))));
}

#[test]
fn create_response_accepts_subset_of_candidates() {
    let def = definition(vec![descriptor(&["X"], &["name"])]);
    let request = PermissionRequest::new(
        def,
        vec![credential("X", &["name"]), credential("X", &["name", "birthdate"])],
        dummy_request(),
    );
    let selection = vec![credential("X", &["name"])];
    let response = request.create_permission_response(selection).unwrap();
    assert_eq!(response.selected_credentials.len(), 1);
    assert_eq!(response.selected_credentials[0].format, "X".to_string());
}

fn dummy_request() -> oid4vp_holder::model::AuthorizationRequest {
    oid4vp_holder::model::AuthorizationRequest {
        client_id: "did:web:verifier.example".to_string(),
        scheme: oid4vp_holder::model::ClientIdScheme::Did,
        response_mode: oid4vp_holder::model::ResponseMode::DirectPost,
        definition: oid4vp_holder::model::DefinitionSource::ByReference(
            "https://verifier.example/definition".to_string(),
        ),
        response_uri: "https://verifier.example/callback".to_string(),
    }
}

#[test]
fn empty_candidate_pool_matches_nothing() {
    let holder = Holder::new_with_credentials(vec![], vec![]).unwrap();
    let def = definition(vec![descriptor(&["X"], &["name"])]);
    assert_eq!(holder.search_credentials_vs_presentation_definition(&def).len(), 0);
}

#[test]
fn store_of_unparseable_entries_matches_nothing() {
    let store = vec![StoredCredential { parsed: None }, StoredCredential { parsed: None }];
    let holder = Holder::new(store, vec![]).unwrap();
    let def = definition(vec![descriptor(&["X"], &["name"])]);
    assert_eq!(holder.search_credentials_vs_presentation_definition(&def).len(), 0);
}

#[test]
fn descriptor_with_no_accepted_format_matches_nothing() {
    let c = credential("X", &["name"]);
    let def = definition(vec![descriptor(&[], &["name"])]);
    assert!(!c.check_presentation_definition(&def));
}

#[test]
fn descriptor_without_field_constraints_matches_on_format_alone() {
    let c = credential("X", &[]);
    let def = definition(vec![descriptor(&["X"], &[])]);
    assert!(c.check_presentation_definition(&def));
    // Nothing is requested of such a credential.
    let request = PermissionRequest::new(def, vec![c], dummy_request());
    let candidates = request.credentials();
    assert_eq!(request.requested_fields(&candidates[0]).len(), 0);
}

#[test]
fn store_entries_are_matched_in_store_order() {
    let store = vec![
        StoredCredential { parsed: Some(credential("X", &["name"])) },
        StoredCredential { parsed: None },
        StoredCredential { parsed: Some(credential("Y", &["name"])) },
        StoredCredential { parsed: Some(credential("X", &["name", "age"])) },
    ];
    let holder = Holder::new(store, vec![]).unwrap();
    let def = definition(vec![descriptor(&["X"], &["name"])]);
    let matched = holder.search_credentials_vs_presentation_definition(&def);
    assert_eq!(matched.len(), 2);
    assert_eq!(matched[0].claims, vec!["name".to_string()]);
    assert_eq!(matched[1].claims, vec!["name".to_string(), "age".to_string()]);
}
