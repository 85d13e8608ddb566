use synaplan_qdrant_service::request_id::request_id_middleware;

#[test]
fn test_request_id_generated_if_missing() {
    let id = request_id_middleware(None);
    let parsed = uuid::Uuid::parse_str(&id);
    assert!(parsed.is_ok(), "Should be valid UUID");
    assert_eq!(parsed.unwrap().get_version_num(), 4);
    assert_eq!(id.len(), 36);
    assert_eq!(id, id.to_lowercase());
}

#[test]
fn test_request_id_propagated_from_client() {
    let client_id = "client-request-123";
    assert_eq!(request_id_middleware(Some(client_id)), client_id);
}

#[test]
fn an_empty_identifier_is_kept_as_sent() {
    assert_eq!(request_id_middleware(Some("")), "");
}

#[test]
fn fresh_identifiers_differ() {
    assert_ne!(request_id_middleware(None), request_id_middleware(None));
}
