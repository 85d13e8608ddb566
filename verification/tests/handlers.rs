use synaplan_qdrant_service::config::Config;
use synaplan_qdrant_service::engine::Distance;
use synaplan_qdrant_service::engine::MatchValue;
use synaplan_qdrant_service::error::AppError;
use synaplan_qdrant_service::handlers::get_capabilities;
use synaplan_qdrant_service::handlers::get_collection_info_response;
use synaplan_qdrant_service::handlers::get_document_response;
use synaplan_qdrant_service::handlers::get_memory_response;
use synaplan_qdrant_service::handlers::scroll_memories;
use synaplan_qdrant_service::handlers::scroll_memories_response;
use synaplan_qdrant_service::handlers::search_documents;
use synaplan_qdrant_service::handlers::search_memories;
use synaplan_qdrant_service::handlers::search_memories_response;
use synaplan_qdrant_service::handlers::upsert_document;
use synaplan_qdrant_service::handlers::upsert_memory;
use synaplan_qdrant_service::handlers::NamespaceQuery;
use synaplan_qdrant_service::models::default_limit;
use synaplan_qdrant_service::models::default_scroll_limit;
use synaplan_qdrant_service::models::DocumentPayload;
use synaplan_qdrant_service::models::DocumentSearchResult;
use synaplan_qdrant_service::models::MemoryPayload;
use synaplan_qdrant_service::models::Score;
use synaplan_qdrant_service::models::ScrollMemoriesRequest;
use synaplan_qdrant_service::models::SearchDocumentsRequest;
use synaplan_qdrant_service::models::SearchMemoriesRequest;
use synaplan_qdrant_service::models::UpsertDocumentRequest;
use synaplan_qdrant_service::models::UpsertMemoryRequest;
use synaplan_qdrant_service::point_id::string_to_point_id;
use synaplan_qdrant_service::qdrant::QdrantService;

fn service() -> QdrantService {
    QdrantService::new(&Config::test_config())
}

fn memory() -> MemoryPayload {
    MemoryPayload {
        user_id: 1,
        category: "test".to_string(),
        key: "test_key".to_string(),
        value: "test_value".to_string(),
        source: "manual".to_string(),
        message_id: None,
        created: 1234567890,
        updated: 1234567890,
        active: true,
    }
}

fn chunk() -> DocumentPayload {
    DocumentPayload {
        user_id: 7,
        file_id: 42,
        group_key: "DEFAULT".to_string(),
        file_type: 1,
        chunk_index: 0,
        start_line: 1,
        end_line: 9,
        text: "text".to_string(),
        created: 1234567890,
    }
}

#[test]
fn test_search_request_defaults() {
    let req = SearchMemoriesRequest {
        query_vector: vec![0.1_f32; 1024],
        user_id: 1,
        category: None,
        namespace: None,
        limit: default_limit(),
        min_score: 0.7_f32,
    };

    assert_eq!(req.limit, 5);
    assert_eq!(req.min_score, 0.7);
    assert_eq!(default_scroll_limit(), 1000);
}

#[test]
fn capabilities_tell_the_dimension_and_no_embedding() {
    let body = get_capabilities(&Config::test_config(), "0.0.0");
    assert_eq!(body.service, "synaplan-qdrant-service");
    assert_eq!(body.version, "0.0.0");
    assert_eq!(body.vector_dimension, 128);
    assert!(!body.embedding.supported);
    assert_eq!(body.embedding.backend, "none");
    assert_eq!(body.embedding.model, None);
    assert_eq!(body.embedding.device, "none");
    assert_eq!(body.embedding.vector_dimension, 128);
}

#[test]
fn a_memory_request_is_planned_in_its_namespace() {
    let req = UpsertMemoryRequest {
        point_id: "mem_1_123".to_string(),
        vector: vec![0.1_f32; 128],
        payload: memory(),
        namespace: Some("Feedback-False_Positive".to_string()),
    };
    let plan = upsert_memory(&service(), req).unwrap();
    assert_eq!(plan.provision.name, "test_collection_feedback_false_positive");
    assert_eq!(plan.provision.dimension, 128);
    assert_eq!(plan.provision.distance, Distance::Cosine);
    assert_eq!(plan.write.collection, "test_collection_feedback_false_positive");
    assert_eq!(plan.write.id, string_to_point_id("mem_1_123"));
    assert_eq!(plan.write.vector, vec![0.1_f32; 128]);
    assert_eq!(
        synaplan_qdrant_service::codec::decode_memory(&plan.write.payload),
        Ok(memory())
    );
}

#[test]
fn a_memory_request_of_the_wrong_dimension_is_rejected() {
    let req = UpsertMemoryRequest {
        point_id: "mem_1_123".to_string(),
        vector: vec![0.1_f32, 0.2, 0.3],
        payload: memory(),
        namespace: None,
    };
    assert_eq!(
        upsert_memory(&service(), req).unwrap_err(),
        AppError::InvalidRequest("Vector dimension mismatch: expected 128, got 3".to_string())
    );
}

#[test]
fn a_search_request_is_planned_with_its_filter() {
    let req = SearchMemoriesRequest {
        query_vector: vec![0.1_f32; 128],
        user_id: 1730,
        category: Some("personal".to_string()),
        namespace: None,
        limit: 15,
        min_score: 0.35_f32,
    };
    let search = search_memories(&service(), req).unwrap();
    assert_eq!(search.collection, "test_collection");
    assert_eq!(search.limit, 15);
    assert_eq!(search.score_threshold, 0.35);
    assert!(search.with_payload);
    let conditions: Vec<(&str, &MatchValue)> =
        search.filter.must.iter().map(|c| (c.key.as_str(), &c.value)).collect();
    assert_eq!(
        conditions,
        vec![
            ("user_id", &MatchValue::Integer(1730)),
            ("active", &MatchValue::Bool(true)),
            ("category", &MatchValue::Keyword("personal".to_string())),
        ]
    );
}

#[test]
fn a_search_without_category_filters_by_owner_and_activity() {
    let req = SearchMemoriesRequest {
        query_vector: vec![0.1_f32; 128],
        user_id: 5,
        category: None,
        namespace: Some("x".to_string()),
        limit: 5,
        min_score: 0.7_f32,
    };
    let search = search_memories(&service(), req).unwrap();
    assert_eq!(search.collection, "test_collection_x");
    assert_eq!(search.filter.must.len(), 2);
    assert_eq!(search.filter.must[0].value, MatchValue::Integer(5));
    assert_eq!(search.filter.must[1].value, MatchValue::Bool(true));
}

#[test]
fn a_search_request_of_the_wrong_dimension_is_rejected() {
    let req = SearchMemoriesRequest {
        query_vector: vec![0.1_f32; 1024],
        user_id: 1,
        category: None,
        namespace: None,
        limit: 5,
        min_score: 0.7_f32,
    };
    assert_eq!(
        search_memories(&service(), req).unwrap_err(),
        AppError::InvalidRequest(
            "Query vector dimension mismatch: expected 128, got 1024".to_string()
        )
    );
}

#[test]
fn a_scroll_request_is_planned_in_its_namespace() {
    let req = ScrollMemoriesRequest {
        user_id: 1,
        category: None,
        namespace: Some("Team A".to_string()),
        limit: default_scroll_limit(),
    };
    let scroll = scroll_memories(&service(), req);
    assert_eq!(scroll.collection, "test_collection_team_a");
    assert_eq!(scroll.limit, 1000);
    assert_eq!(scroll.offset, None);
    assert_eq!(scroll.filter.must.len(), 2);
}

#[test]
fn a_missing_memory_is_not_found() {
    assert_eq!(
        get_memory_response("mem_1_123".to_string(), None).unwrap_err(),
        AppError::NotFound("Memory not found: mem_1_123".to_string())
    );
    let found = get_memory_response("mem_1_123".to_string(), Some(memory())).unwrap();
    assert_eq!(found.id, "mem_1_123");
    assert_eq!(found.payload, memory());
}

#[test]
fn a_missing_document_is_not_found() {
    let none: Option<DocumentSearchResult<f32>> = None;
    assert_eq!(
        get_document_response(none).unwrap_err(),
        AppError::NotFound("Document not found".to_string())
    );
    let doc = DocumentSearchResult {
        id: "doc".to_string(),
        score: Score::<f32>::Exact,
        payload: chunk(),
        vector: Some(vec![1.0_f32]),
    };
    let found = get_document_response(Some(doc)).unwrap();
    assert_eq!(found.id, "doc");
    assert_eq!(found.vector, Some(vec![1.0_f32]));
}

#[test]
fn search_results_are_answered_in_order_with_their_count() {
    let found = vec![
        ("mem_1_123".to_string(), 0.95_f32, memory()),
        ("mem_1_124".to_string(), 0.5_f32, memory()),
    ];
    let body = search_memories_response(found);
    assert_eq!(body.count, 2);
    assert_eq!(body.results[0].id, "mem_1_123");
    assert_eq!(body.results[0].score, 0.95);
    assert_eq!(body.results[1].id, "mem_1_124");
    assert_eq!(body.results[1].payload, memory());
    let none: Vec<(String, f32, MemoryPayload)> = Vec::new();
    assert_eq!(search_memories_response(none).count, 0);
}

#[test]
fn scrolled_memories_are_answered_in_order_with_their_count() {
    let body = scroll_memories_response(vec![
        ("a".to_string(), memory()),
        ("b".to_string(), memory()),
        ("c".to_string(), memory()),
    ]);
    assert_eq!(body.count, 3);
    let ids: Vec<&str> = body.memories.iter().map(|m| m.id.as_str()).collect();
    assert_eq!(ids, vec!["a", "b", "c"]);
}

#[test]
fn collection_info_is_answered_field_by_field() {
    let body = get_collection_info_response(("1".to_string(), 10, 11, 12));
    assert_eq!(body.status, "1");
    assert_eq!(body.points_count, 10);
    assert_eq!(body.vectors_count, 11);
    assert_eq!(body.indexed_vectors_count, 12);
}

#[test]
fn a_document_is_checked_against_the_configured_dimension() {
    let req = UpsertDocumentRequest {
        point_id: "doc_1_123_0".to_string(),
        vector: vec![0.1_f32; 1024],
        payload: chunk(),
    };
    assert_eq!(
        upsert_document(&service(), req).unwrap_err(),
        AppError::InvalidRequest("Vector must have exactly 128 dimensions, got 1024".to_string())
    );
    let req = UpsertDocumentRequest {
        point_id: "doc_1_123_0".to_string(),
        vector: vec![0.1_f32; 128],
        payload: chunk(),
    };
    let write = upsert_document(&service(), req).unwrap();
    assert_eq!(write.collection, "test_documents");
    assert_eq!(write.id, string_to_point_id("doc_1_123_0"));
    assert_eq!(write.vector.len(), 128);
    assert_eq!(synaplan_qdrant_service::codec::decode_document(&write.payload), Ok(chunk()));
}

#[test]
fn a_document_search_is_checked_and_filtered_by_owner() {
    let req = SearchDocumentsRequest {
        vector: vec![0.1_f32; 127],
        user_id: 7,
        group_key: None,
        limit: 10,
        min_score: 0.3_f32,
    };
    assert_eq!(
        search_documents(&service(), req).unwrap_err(),
        AppError::InvalidRequest("Vector must have exactly 128 dimensions, got 127".to_string())
    );
    let req = SearchDocumentsRequest {
        vector: vec![0.1_f32; 128],
        user_id: 7,
        group_key: Some("WIDGET:1".to_string()),
        limit: 10,
        min_score: 0.3_f32,
    };
    let search = search_documents(&service(), req).unwrap();
    assert_eq!(search.collection, "test_documents");
    assert_eq!(search.limit, 10);
    assert_eq!(search.filter.must.len(), 2);
    assert_eq!(search.filter.must[0].key, "user_id");
    assert_eq!(search.filter.must[0].value, MatchValue::Integer(7));
    assert_eq!(search.filter.must[1].key, "group_key");
    assert_eq!(search.filter.must[1].value, MatchValue::Keyword("WIDGET:1".to_string()));
}

#[test]
fn a_namespace_query_may_name_none() {
    let query = NamespaceQuery { namespace: None };
    assert_eq!(service().get_collection_name(query.namespace.as_deref()), "test_collection");
    let query = NamespaceQuery { namespace: Some("A".to_string()) };
    assert_eq!(service().get_collection_name(query.namespace.as_deref()), "test_collection_a");
}
