use std::collections::BTreeMap;

use synaplan_qdrant_service::config::Config;
use synaplan_qdrant_service::doc_stats::DocumentStatsScan;
use synaplan_qdrant_service::engine::CollectionDescription;
use synaplan_qdrant_service::engine::CollectionSpec;
use synaplan_qdrant_service::engine::Condition;
use synaplan_qdrant_service::engine::Filter;
use synaplan_qdrant_service::engine::MatchValue;
use synaplan_qdrant_service::engine::PayloadPatch;
use synaplan_qdrant_service::engine::PointDelete;
use synaplan_qdrant_service::engine::PointLookup;
use synaplan_qdrant_service::engine::PointRef;
use synaplan_qdrant_service::engine::PointSelector;
use synaplan_qdrant_service::engine::PointWrite;
use synaplan_qdrant_service::engine::RetrievedPoint;
use synaplan_qdrant_service::engine::ScoredPoint;
use synaplan_qdrant_service::engine::ScrollPage;
use synaplan_qdrant_service::engine::ScrollPoints;
use synaplan_qdrant_service::engine::SearchPoints;
use synaplan_qdrant_service::error::AppError;
use synaplan_qdrant_service::handlers::batch_upsert_documents;
use synaplan_qdrant_service::handlers::batch_upsert_memories;
use synaplan_qdrant_service::models::DocumentPayload;
use synaplan_qdrant_service::models::DocumentStatsResponse;
use synaplan_qdrant_service::models::GroupCount;
use synaplan_qdrant_service::models::MemoryPayload;
use synaplan_qdrant_service::models::Score;
use synaplan_qdrant_service::models::UpsertDocumentRequest;
use synaplan_qdrant_service::payload::Payload;
use synaplan_qdrant_service::payload::PayloadValue;
use synaplan_qdrant_service::point_id::string_to_point_id;
use synaplan_qdrant_service::provision::ProvisionReply;
use synaplan_qdrant_service::provision::ProvisionStep;
use synaplan_qdrant_service::qdrant::QdrantService;

/// A vector engine in memory: collections of points keyed by id.
struct Engine {
    collections: BTreeMap<String, BTreeMap<u64, (Vec<f32>, Payload)>>,
    calls: usize,
}

fn holds(payload: &Payload, condition: &Condition) -> bool {
    match (payload.get(&condition.key), &condition.value) {
        (Some(PayloadValue::Integer(have)), MatchValue::Integer(want)) => have == want,
        (Some(PayloadValue::Bool(have)), MatchValue::Bool(want)) => have == want,
        (Some(PayloadValue::Text(have)), MatchValue::Keyword(want)) => have == want,
        _ => false,
    }
}

fn passes(payload: &Payload, filter: &Filter) -> bool {
    filter.must.iter().all(|c| holds(payload, c))
}

fn cosine(a: &[f32], b: &[f32]) -> f32 {
    let dot: f32 = a.iter().zip(b).map(|(x, y)| x * y).sum();
    let na: f32 = a.iter().map(|x| x * x).sum::<f32>().sqrt();
    let nb: f32 = b.iter().map(|x| x * x).sum::<f32>().sqrt();
    if na == 0.0 || nb == 0.0 {
        0.0
    } else {
        dot / (na * nb)
    }
}

impl Engine {
    fn new() -> Engine {
        Engine { collections: BTreeMap::new(), calls: 0 }
    }

    fn provision(&mut self, spec: &CollectionSpec) -> Result<(), AppError> {
        let mut step = spec.begin();
        loop {
            let reply = match step {
                ProvisionStep::Done => return Ok(()),
                ProvisionStep::ListCollections => {
                    self.calls += 1;
                    ProvisionReply::Collections(self.collections.keys().cloned().collect())
                }
                ProvisionStep::CreateCollection => {
                    self.calls += 1;
                    if self.collections.contains_key(&spec.name) {
                        ProvisionReply::Conflict("exists".to_string())
                    } else {
                        self.collections.insert(spec.name.clone(), BTreeMap::new());
                        ProvisionReply::Accepted
                    }
                }
                ProvisionStep::CreateFieldIndex(_) => {
                    self.calls += 1;
                    ProvisionReply::Accepted
                }
            };
            step = spec.advance(step, &reply)?;
        }
    }

    fn points(&self, collection: &str) -> Result<&BTreeMap<u64, (Vec<f32>, Payload)>, AppError> {
        self.collections
            .get(collection)
            .ok_or_else(|| AppError::Qdrant(format!("Collection `{}` doesn't exist!", collection)))
    }

    fn upsert(&mut self, write: PointWrite<f32>) -> Result<(), AppError> {
        self.calls += 1;
        let points = self
            .collections
            .get_mut(&write.collection)
            .ok_or_else(|| AppError::Qdrant("no such collection".to_string()))?;
        points.insert(write.id, (write.vector, write.payload));
        Ok(())
    }

    fn get(&mut self, lookup: &PointLookup) -> Result<Vec<RetrievedPoint<f32>>, AppError> {
        self.calls += 1;
        let points = self.points(&lookup.collection)?;
        Ok(points
            .get(&lookup.id)
            .map(|(vector, payload)| RetrievedPoint {
                id: Some(PointRef::Num(lookup.id)),
                payload: payload.clone(),
                vector: if lookup.with_vectors { Some(vector.clone()) } else { None },
            })
            .into_iter()
            .collect())
    }

    fn delete(&mut self, delete: &PointDelete) -> Result<Option<i32>, AppError> {
        self.calls += 1;
        let points = self
            .collections
            .get_mut(&delete.collection)
            .ok_or_else(|| AppError::Qdrant("no such collection".to_string()))?;
        match &delete.selector {
            PointSelector::Id(id) => {
                points.remove(id);
            }
            PointSelector::Matching(filter) => {
                points.retain(|_, (_, payload)| !passes(payload, filter));
            }
        }
        // the engine answers with a status, not with a tally: 2 is "completed"
        Ok(Some(2))
    }

    fn search(&mut self, search: &SearchPoints<f32>) -> Result<Vec<ScoredPoint<f32>>, AppError> {
        self.calls += 1;
        let points = self.points(&search.collection)?;
        let mut hits: Vec<ScoredPoint<f32>> = points
            .iter()
            .filter(|(_, (_, payload))| passes(payload, &search.filter))
            .map(|(id, (vector, payload))| ScoredPoint {
                id: Some(PointRef::Num(*id)),
                payload: payload.clone(),
                score: cosine(vector, &search.vector),
            })
            .filter(|hit| hit.score >= search.score_threshold)
            .collect();
        hits.sort_by(|a, b| b.score.partial_cmp(&a.score).unwrap());
        hits.truncate(search.limit as usize);
        Ok(hits)
    }

    fn scroll(&mut self, scroll: &ScrollPoints) -> Result<ScrollPage<f32>, AppError> {
        self.calls += 1;
        let points = self.points(&scroll.collection)?;
        let from = match &scroll.offset {
            Some(PointRef::Num(n)) => *n,
            _ => 0,
        };
        let mut matching = points
            .range(from..)
            .filter(|(_, (_, payload))| passes(payload, &scroll.filter));
        let mut page: Vec<RetrievedPoint<f32>> = Vec::new();
        for (id, (vector, payload)) in matching.by_ref().take(scroll.limit as usize) {
            page.push(RetrievedPoint {
                id: Some(PointRef::Num(*id)),
                payload: payload.clone(),
                vector: if scroll.with_vectors { Some(vector.clone()) } else { None },
            });
        }
        let next_page_offset = matching.next().map(|(id, _)| PointRef::Num(*id));
        Ok(ScrollPage { points: page, next_page_offset })
    }

    fn set_payload(&mut self, patch: &PayloadPatch) -> Result<(), AppError> {
        self.calls += 1;
        let points = self
            .collections
            .get_mut(&patch.collection)
            .ok_or_else(|| AppError::Qdrant("no such collection".to_string()))?;
        for (_, payload) in points.values_mut() {
            if passes(payload, &patch.filter) {
                for field in patch.payload.entries() {
                    payload.insert(field.key.clone(), field.value.clone());
                }
            }
        }
        Ok(())
    }
}

fn service() -> QdrantService {
    QdrantService::new(&Config::test_config())
}

fn vector(seed: usize) -> Vec<f32> {
    (0..128).map(|i| (((i + seed) % 7) as f32) - 3.0 + 0.25).collect()
}

fn memory(user_id: i64, category: &str, active: bool) -> MemoryPayload {
    MemoryPayload {
        user_id,
        category: category.to_string(),
        key: "name".to_string(),
        value: "Ada".to_string(),
        source: "manual".to_string(),
        message_id: None,
        created: 1769034136,
        updated: 1769034136,
        active,
    }
}

fn chunk(user_id: i64, file_id: i64, group_key: &str, chunk_index: i32) -> DocumentPayload {
    DocumentPayload {
        user_id,
        file_id,
        group_key: group_key.to_string(),
        file_type: 1,
        chunk_index,
        start_line: chunk_index * 10,
        end_line: chunk_index * 10 + 9,
        text: format!("chunk {}", chunk_index),
        created: 1769034136,
    }
}

fn store_memory(
    engine: &mut Engine,
    id: &str,
    vector: Vec<f32>,
    record: MemoryPayload,
    namespace: Option<&str>,
) -> Result<(), AppError> {
    let plan = service().upsert_memory(id.to_string(), vector, record, namespace)?;
    engine.provision(&plan.provision)?;
    engine.upsert(plan.write)
}

fn fetch_memory(
    engine: &mut Engine,
    id: &str,
    namespace: Option<&str>,
) -> Result<Option<MemoryPayload>, AppError> {
    let points = engine.get(&service().get_memory(id, namespace))?;
    QdrantService::get_memory_result(&points)
}

fn store_chunk(engine: &mut Engine, id: &str, seed: usize, record: &DocumentPayload) {
    let write = service().upsert_document(id, vector(seed), record);
    engine.upsert(write).unwrap();
}

fn documents_engine() -> Engine {
    let mut engine = Engine::new();
    let (memories, documents) = service().ensure_collection_exists();
    engine.provision(&memories).unwrap();
    engine.provision(&documents).unwrap();
    engine
}

fn stats(engine: &mut Engine, user_id: i64) -> DocumentStatsResponse {
    let mut scan = DocumentStatsScan::new();
    let mut offset = None;
    loop {
        let page = engine.scroll(&service().get_document_stats(user_id, offset)).unwrap();
        offset = scan.absorb(&page);
        if offset.is_none() {
            return scan.finish();
        }
    }
}

fn count_of(stats: &DocumentStatsResponse, group: &str) -> u64 {
    stats.chunks_by_group.iter().filter(|g| g.group_key == group).map(|g| g.chunks).sum()
}

#[test]
fn an_upserted_memory_is_found_by_search() {
    let mut engine = Engine::new();
    store_memory(&mut engine, "mem_1_a", vector(0), memory(1, "personal", true), None).unwrap();

    let search = service().search_memories(vector(0), 1, None, 5, 0.5_f32, None).unwrap();
    let hits = engine.search(&search).unwrap();
    let found = QdrantService::search_memories_result(&hits).unwrap();

    assert_eq!(found.len(), 1);
    assert_eq!(found[0].0, "mem_1_a");
    assert!(found[0].1 >= 0.5);
    assert_eq!(found[0].2, memory(1, "personal", true));
}

#[test]
fn search_is_isolated_by_owner_activity_and_category() {
    let mut engine = Engine::new();
    store_memory(&mut engine, "mem_1_a", vector(0), memory(1, "personal", true), None).unwrap();
    store_memory(&mut engine, "mem_1_b", vector(0), memory(1, "work", true), None).unwrap();
    store_memory(&mut engine, "mem_1_c", vector(0), memory(1, "personal", false), None).unwrap();
    store_memory(&mut engine, "mem_2_a", vector(0), memory(2, "personal", true), None).unwrap();

    let ids = |engine: &mut Engine, user: i64, category: Option<&str>| -> Vec<String> {
        let search = service()
            .search_memories(vector(0), user, category.map(|c| c.to_string()), 10, 0.5_f32, None)
            .unwrap();
        let hits = engine.search(&search).unwrap();
        let mut ids: Vec<String> = QdrantService::search_memories_result(&hits)
            .unwrap()
            .into_iter()
            .map(|(id, _, _)| id)
            .collect();
        ids.sort();
        ids
    };
    assert_eq!(ids(&mut engine, 1, None), vec!["mem_1_a", "mem_1_b"]);
    assert_eq!(ids(&mut engine, 1, Some("personal")), vec!["mem_1_a"]);
    assert_eq!(ids(&mut engine, 2, None), vec!["mem_2_a"]);
    assert!(ids(&mut engine, 3, None).is_empty());
}

#[test]
fn a_second_upsert_replaces_the_first() {
    let mut engine = Engine::new();
    let mut second = memory(1, "work", true);
    second.value = "Grace".to_string();
    store_memory(&mut engine, "mem_1_a", vector(0), memory(1, "personal", true), None).unwrap();
    store_memory(&mut engine, "mem_1_a", vector(3), second.clone(), None).unwrap();

    let points = &engine.collections["test_collection"];
    assert_eq!(points.len(), 1);
    let (stored_vector, _) = &points[&string_to_point_id("mem_1_a")];
    assert_eq!(stored_vector, &vector(3));
    assert_eq!(fetch_memory(&mut engine, "mem_1_a", None), Ok(Some(second)));
}

#[test]
fn a_deleted_memory_is_not_found() {
    let mut engine = Engine::new();
    store_memory(&mut engine, "mem_1_a", vector(0), memory(1, "personal", true), None).unwrap();
    assert!(fetch_memory(&mut engine, "mem_1_a", None).unwrap().is_some());

    engine.delete(&service().delete_memory("mem_1_a", None)).unwrap();
    assert_eq!(fetch_memory(&mut engine, "mem_1_a", None), Ok(None));

    // deleting what is not there succeeds too
    assert!(engine.delete(&service().delete_memory("mem_1_a", None)).is_ok());
    assert!(engine.delete(&service().delete_memory("never_stored", None)).is_ok());
}

#[test]
fn delete_acts_on_inactive_memories_too() {
    let mut engine = Engine::new();
    store_memory(&mut engine, "mem_1_c", vector(0), memory(1, "personal", false), None).unwrap();
    assert!(fetch_memory(&mut engine, "mem_1_c", None).unwrap().is_some());
    engine.delete(&service().delete_memory("mem_1_c", None)).unwrap();
    assert_eq!(fetch_memory(&mut engine, "mem_1_c", None), Ok(None));
}

#[test]
fn a_vector_of_the_wrong_length_reaches_no_engine() {
    let mut engine = Engine::new();
    let short: Vec<f32> = vec![0.5; 127];
    let stored = store_memory(&mut engine, "mem_1_a", short.clone(), memory(1, "x", true), None);
    assert_eq!(
        stored,
        Err(AppError::InvalidRequest(
            "Vector dimension mismatch: expected 128, got 127".to_string()
        ))
    );
    let planned = service().search_memories(short, 1, None, 5, 0.5_f32, None);
    match planned {
        Err(AppError::InvalidRequest(message)) => {
            assert_eq!(message, "Query vector dimension mismatch: expected 128, got 127");
        }
        other => panic!("a query of the wrong length was planned: {:?}", other),
    }
    let long: Vec<f32> = vec![0.5; 129];
    assert!(matches!(
        store_memory(&mut engine, "mem_1_a", long, memory(1, "x", true), None),
        Err(AppError::InvalidRequest(_))
    ));
    let empty: Vec<f32> = Vec::new();
    assert!(matches!(
        store_memory(&mut engine, "mem_1_a", empty, memory(1, "x", true), None),
        Err(AppError::InvalidRequest(_))
    ));
    assert_eq!(engine.calls, 0);
    assert!(engine.collections.is_empty());
}

#[test]
fn namespaces_keep_their_memories_apart() {
    let mut engine = Engine::new();
    store_memory(&mut engine, "mem_1_a", vector(0), memory(1, "personal", true), None).unwrap();
    store_memory(&mut engine, "mem_1_a", vector(1), memory(1, "work", true), Some("Team-A"))
        .unwrap();
    let names: Vec<&String> = engine.collections.keys().collect();
    assert_eq!(names, vec!["test_collection", "test_collection_team_a"]);
    assert_eq!(fetch_memory(&mut engine, "mem_1_a", None).unwrap().unwrap().category, "personal");
    assert_eq!(
        fetch_memory(&mut engine, "mem_1_a", Some("team a")).unwrap().unwrap().category,
        "work"
    );
    // a namespace that sanitizes to nothing is the default namespace
    assert_eq!(
        fetch_memory(&mut engine, "mem_1_a", Some("--")).unwrap().unwrap().category,
        "personal"
    );
}

#[test]
fn provisioning_is_repeated_without_harm() {
    let mut engine = Engine::new();
    store_memory(&mut engine, "mem_1_a", vector(0), memory(1, "personal", true), None).unwrap();
    let after_first = engine.calls;
    // list, create, upsert
    assert_eq!(after_first, 3);
    store_memory(&mut engine, "mem_1_b", vector(0), memory(1, "personal", true), None).unwrap();
    // list, upsert: the collection is there and is not created again
    assert_eq!(engine.calls, after_first + 2);
    assert_eq!(engine.collections["test_collection"].len(), 2);
}

#[test]
fn scroll_lists_one_page_of_the_owners_active_memories() {
    let mut engine = Engine::new();
    for n in 0..5 {
        let id = format!("mem_1_{}", n);
        store_memory(&mut engine, &id, vector(n), memory(1, "personal", true), None).unwrap();
    }
    store_memory(&mut engine, "mem_1_off", vector(0), memory(1, "personal", false), None).unwrap();
    store_memory(&mut engine, "mem_2_a", vector(0), memory(2, "personal", true), None).unwrap();

    let scroll = service().scroll_memories(1, None, 3, None);
    assert_eq!(scroll.limit, 3);
    assert!(scroll.with_payload && !scroll.with_vectors);
    let page = engine.scroll(&scroll).unwrap();
    let listed = QdrantService::scroll_memories_result(&page.points).unwrap();
    assert_eq!(listed.len(), 3);
    assert!(listed.iter().all(|(id, record)| id.starts_with("mem_1_") && record.active));

    let all = engine.scroll(&service().scroll_memories(1, None, 1000, None)).unwrap();
    assert_eq!(QdrantService::scroll_memories_result(&all.points).unwrap().len(), 5);
}

#[test]
fn a_scroll_limit_is_cut_to_32_bits() {
    assert_eq!(service().scroll_memories(1, None, u32::MAX as u64, None).limit, u32::MAX);
    assert_eq!(service().scroll_memories(1, None, (1u64 << 32) + 7, None).limit, 7);
}

#[test]
fn a_point_without_identifier_is_reported_by_its_number() {
    let mut payload = synaplan_qdrant_service::codec::encode_memory(&memory(1, "x", true), "gone");
    // a payload written by another writer, without the reserved field
    let mut stripped = Payload::new();
    for field in payload.entries() {
        if field.key != "_point_id" {
            stripped.insert(field.key.clone(), field.value.clone());
        }
    }
    payload = stripped;
    let hits = vec![
        ScoredPoint { id: Some(PointRef::Num(77)), payload: payload.clone(), score: 0.9_f32 },
        ScoredPoint {
            id: Some(PointRef::Uuid("0b0f-11".to_string())),
            payload: payload.clone(),
            score: 0.8_f32,
        },
        ScoredPoint { id: None, payload, score: 0.7_f32 },
    ];
    let found = QdrantService::search_memories_result(&hits).unwrap();
    let ids: Vec<&str> = found.iter().map(|(id, _, _)| id.as_str()).collect();
    assert_eq!(ids, vec!["77", "0b0f-11", "unknown"]);
    let scores: Vec<f32> = found.iter().map(|(_, score, _)| *score).collect();
    assert_eq!(scores, vec![0.9, 0.8, 0.7]);
}

#[test]
fn a_payload_that_does_not_decode_fails_the_read() {
    let good = synaplan_qdrant_service::codec::encode_memory(&memory(1, "x", true), "a");
    let mut bad = good.clone();
    bad.insert("active".to_string(), PayloadValue::Text("yes".to_string()));
    let hits = vec![
        ScoredPoint { id: None, payload: good.clone(), score: 0.9_f32 },
        ScoredPoint { id: None, payload: bad.clone(), score: 0.8_f32 },
    ];
    assert_eq!(
        QdrantService::search_memories_result(&hits),
        Err(AppError::Internal(
            "Failed to deserialize payload: invalid type for field `active`".to_string()
        ))
    );
    let points: Vec<RetrievedPoint<f32>> =
        vec![RetrievedPoint { id: None, payload: bad, vector: None }];
    assert!(matches!(
        QdrantService::get_memory_result(&points),
        Err(AppError::Internal(_))
    ));
    assert!(matches!(
        QdrantService::scroll_memories_result(&points),
        Err(AppError::Internal(_))
    ));
}

#[test]
fn a_batch_with_one_bad_dimension_stores_the_others() {
    let mut engine = documents_engine();
    let calls_before = engine.calls;
    let documents = vec![
        UpsertDocumentRequest {
            point_id: "doc_7_42_0".to_string(),
            vector: vector(0),
            payload: chunk(7, 42, "DEFAULT", 0),
        },
        UpsertDocumentRequest {
            point_id: "doc_7_42_1".to_string(),
            vector: vec![0.5_f32; 64],
            payload: chunk(7, 42, "DEFAULT", 1),
        },
        UpsertDocumentRequest {
            point_id: "doc_7_42_2".to_string(),
            vector: vector(2),
            payload: chunk(7, 42, "DEFAULT", 2),
        },
    ];

    let mut response = batch_upsert_documents(documents.len()).unwrap();
    for document in documents {
        let point_id = document.point_id.clone();
        if let Some(write) = response.screen(&service(), document) {
            let outcome = engine.upsert(write);
            response.record(&point_id, &outcome);
        }
    }

    assert_eq!(response.success_count, 2);
    assert_eq!(response.failed_count, 1);
    assert_eq!(response.errors, vec!["Document doc_7_42_1: invalid vector dimension"]);
    assert_eq!(engine.calls, calls_before + 2);
    assert_eq!(engine.collections["test_documents"].len(), 2);
}

#[test]
fn a_batch_goes_on_after_an_engine_failure() {
    let mut response = batch_upsert_documents(2).unwrap();
    response.record("doc_a", &Err(AppError::Qdrant("timeout".to_string())));
    response.record("doc_b", &Ok(()));
    assert_eq!(response.success_count, 1);
    assert_eq!(response.failed_count, 1);
    assert_eq!(response.errors, vec!["Document doc_a: Qdrant error: timeout"]);
}

#[test]
fn a_batch_of_memories_tallies_each_point() {
    let mut engine = Engine::new();
    let points = vec![
        ("mem_1_a", vector(0)),
        ("mem_1_b", vec![0.5_f32; 3]),
        ("mem_1_c", vector(2)),
    ];
    let mut response = batch_upsert_memories(points.len()).unwrap();
    for (id, v) in points {
        let outcome = store_memory(&mut engine, id, v, memory(1, "personal", true), None);
        response.record(id.to_string(), &outcome);
    }
    assert_eq!(response.success_count, 2);
    assert_eq!(response.failed_count, 1);
    assert_eq!(response.errors.len(), 1);
    assert_eq!(response.errors[0].point_id, "mem_1_b");
    assert_eq!(
        response.errors[0].error,
        "Invalid request: Vector dimension mismatch: expected 128, got 3"
    );
}

#[test]
fn batches_have_bounds() {
    assert_eq!(
        batch_upsert_memories(0).unwrap_err(),
        AppError::InvalidRequest("Batch cannot be empty".to_string())
    );
    assert_eq!(
        batch_upsert_memories(101).unwrap_err(),
        AppError::InvalidRequest("Batch size exceeds maximum of 100 points".to_string())
    );
    assert!(batch_upsert_memories(1).is_ok());
    assert!(batch_upsert_memories(100).is_ok());
    assert_eq!(
        batch_upsert_documents(101).unwrap_err(),
        AppError::InvalidRequest("Maximum 100 documents per batch".to_string())
    );
    let empty = batch_upsert_documents(0).unwrap();
    assert_eq!((empty.success_count, empty.failed_count, empty.errors.len()), (0, 0, 0));
    assert!(batch_upsert_documents(100).is_ok());
}

#[test]
fn reassigning_a_group_moves_the_chunks_of_the_file() {
    let mut engine = documents_engine();
    for n in 0..3 {
        store_chunk(&mut engine, &format!("doc_7_42_{}", n), n as usize, &chunk(7, 42, "OLD", n));
    }
    let before = stats(&mut engine, 7);
    assert_eq!(before.total_chunks, 3);
    assert_eq!(count_of(&before, "OLD"), 3);
    let vectors_before: Vec<Vec<f32>> =
        engine.collections["test_documents"].values().map(|(v, _)| v.clone()).collect();

    let patch = service().update_document_group_key(7, 42, "NEWGROUP");
    engine.set_payload(&patch).unwrap();
    assert_eq!(QdrantService::updated_count(), 1);

    let after = stats(&mut engine, 7);
    assert_eq!(after.total_chunks, 3);
    assert_eq!(count_of(&after, "NEWGROUP"), 3);
    assert_eq!(count_of(&after, "OLD"), 0);
    assert_eq!(
        after.chunks_by_group,
        vec![GroupCount { group_key: "NEWGROUP".to_string(), chunks: 3 }]
    );
    assert_eq!(after.total_groups, 1);
    assert_eq!(after.total_files, 1);
    let vectors_after: Vec<Vec<f32>> =
        engine.collections["test_documents"].values().map(|(v, _)| v.clone()).collect();
    assert_eq!(vectors_before, vectors_after);
}

#[test]
fn reassigning_leaves_other_files_and_owners_alone() {
    let mut engine = documents_engine();
    store_chunk(&mut engine, "doc_7_42_0", 0, &chunk(7, 42, "OLD", 0));
    store_chunk(&mut engine, "doc_7_43_0", 1, &chunk(7, 43, "OLD", 0));
    store_chunk(&mut engine, "doc_8_42_0", 2, &chunk(8, 42, "OLD", 0));
    engine.set_payload(&service().update_document_group_key(7, 42, "NEWGROUP")).unwrap();

    let mine = stats(&mut engine, 7);
    assert_eq!(count_of(&mine, "NEWGROUP"), 1);
    assert_eq!(count_of(&mine, "OLD"), 1);
    assert_eq!(mine.total_files, 2);
    assert_eq!(mine.total_groups, 2);
    let theirs = stats(&mut engine, 8);
    assert_eq!(count_of(&theirs, "OLD"), 1);
    assert_eq!(count_of(&theirs, "NEWGROUP"), 0);
}

#[test]
fn statistics_count_chunks_files_and_groups_over_pages() {
    let mut engine = documents_engine();
    // 2500 chunks of owner 7: more than two pages of 1000
    for n in 0..2500 {
        let file = (n % 5) as i64;
        let group = if n % 2 == 0 { "EVEN" } else { "ODD" };
        let write = service().upsert_document(
            &format!("doc_7_{}", n),
            vec![0.0_f32; 0],
            &chunk(7, file, group, n),
        );
        engine.upsert(write).unwrap();
    }
    store_chunk(&mut engine, "doc_8_0", 0, &chunk(8, 99, "OTHER", 0));
    let calls_before = engine.calls;
    let found = stats(&mut engine, 7);
    assert_eq!(engine.calls - calls_before, 3);
    assert_eq!(found.total_chunks, 2500);
    assert_eq!(found.total_files, 5);
    assert_eq!(found.total_groups, 2);
    assert_eq!(count_of(&found, "EVEN"), 1250);
    assert_eq!(count_of(&found, "ODD"), 1250);
    assert_eq!(count_of(&found, "OTHER"), 0);
    let mut keys = QdrantService::get_document_group_keys(&found);
    keys.sort();
    assert_eq!(keys, vec!["EVEN", "ODD"]);
}

#[test]
fn statistics_of_an_owner_without_chunks_are_zero() {
    let mut engine = documents_engine();
    let found = stats(&mut engine, 7);
    assert_eq!(
        (found.total_chunks, found.total_files, found.total_groups, found.chunks_by_group.len()),
        (0, 0, 0, 0)
    );
    assert!(QdrantService::get_document_group_keys(&found).is_empty());
}

#[test]
fn statistics_list_groups_in_the_order_met() {
    let mut scan = DocumentStatsScan::new();
    let point = |group: Option<&str>, file: Option<i64>| -> RetrievedPoint<f32> {
        let mut payload = Payload::new();
        if let Some(g) = group {
            payload.insert("group_key".to_string(), PayloadValue::Text(g.to_string()));
        }
        if let Some(f) = file {
            payload.insert("file_id".to_string(), PayloadValue::Integer(f));
        }
        RetrievedPoint { id: None, payload, vector: None }
    };
    let first = ScrollPage {
        points: vec![point(Some("B"), Some(1)), point(Some("A"), Some(1)), point(None, None)],
        next_page_offset: Some(PointRef::Num(10)),
    };
    assert_eq!(scan.absorb(&first), Some(PointRef::Num(10)));
    assert_eq!(scan.total_chunks(), 3);
    let second = ScrollPage {
        points: vec![point(Some("B"), Some(2)), point(Some("C"), None)],
        next_page_offset: None,
    };
    assert_eq!(scan.absorb(&second), None);
    let found = scan.finish();
    assert_eq!(found.total_chunks, 5);
    assert_eq!(found.total_files, 2);
    assert_eq!(found.total_groups, 3);
    assert_eq!(
        found.chunks_by_group,
        vec![
            GroupCount { group_key: "B".to_string(), chunks: 2 },
            GroupCount { group_key: "A".to_string(), chunks: 1 },
            GroupCount { group_key: "C".to_string(), chunks: 1 },
        ]
    );
}

#[test]
fn an_empty_page_ends_the_scroll_whatever_its_continuation() {
    let mut scan = DocumentStatsScan::new();
    let page: ScrollPage<f32> =
        ScrollPage { points: Vec::new(), next_page_offset: Some(PointRef::Num(5)) };
    assert_eq!(scan.absorb(&page), None);
    assert_eq!(scan.finish().total_chunks, 0);
}

#[test]
fn a_chunk_is_fetched_with_its_vector_as_an_exact_match() {
    let mut engine = documents_engine();
    store_chunk(&mut engine, "doc_7_42_0", 4, &chunk(7, 42, "DEFAULT", 0));
    let lookup = service().get_document("doc_7_42_0");
    assert!(lookup.with_payload && lookup.with_vectors);
    let points = engine.get(&lookup).unwrap();
    let found = QdrantService::get_document_result("doc_7_42_0", points).unwrap().unwrap();
    assert_eq!(found.id, "doc_7_42_0");
    assert_eq!(found.score, Score::Exact);
    assert_eq!(found.payload, chunk(7, 42, "DEFAULT", 0));
    assert_eq!(found.vector, Some(vector(4)));

    let missing = engine.get(&service().get_document("doc_7_42_9")).unwrap();
    assert!(QdrantService::get_document_result("doc_7_42_9", missing).unwrap().is_none());
}

#[test]
fn document_search_is_isolated_by_owner_and_group() {
    let mut engine = documents_engine();
    store_chunk(&mut engine, "doc_7_1_0", 0, &chunk(7, 1, "A", 0));
    store_chunk(&mut engine, "doc_7_2_0", 0, &chunk(7, 2, "B", 0));
    store_chunk(&mut engine, "doc_8_1_0", 0, &chunk(8, 1, "A", 0));
    let ids = |engine: &mut Engine, user: i64, group: Option<&str>| -> Vec<String> {
        let search = service().search_documents(vector(0), user, group, 10, 0.3_f32);
        let hits = engine.search(&search).unwrap();
        let found = QdrantService::search_documents_result(&hits).unwrap();
        assert!(found.iter().all(|d| d.vector.is_none()));
        assert!(found.iter().all(|d| matches!(d.score, Score::Similarity(s) if s >= 0.3)));
        let mut ids: Vec<String> = found.into_iter().map(|d| d.id).collect();
        ids.sort();
        ids
    };
    assert_eq!(ids(&mut engine, 7, None), vec!["doc_7_1_0", "doc_7_2_0"]);
    assert_eq!(ids(&mut engine, 7, Some("A")), vec!["doc_7_1_0"]);
    assert_eq!(ids(&mut engine, 8, None), vec!["doc_8_1_0"]);
    assert!(ids(&mut engine, 9, None).is_empty());
}

#[test]
fn search_results_come_best_first_and_bounded() {
    let mut engine = documents_engine();
    for n in 0..6 {
        store_chunk(&mut engine, &format!("doc_7_1_{}", n), n as usize, &chunk(7, 1, "A", n));
    }
    let search = service().search_documents(vector(0), 7, None, 3, -1.0_f32);
    let hits = engine.search(&search).unwrap();
    let found = QdrantService::search_documents_result(&hits).unwrap();
    assert_eq!(found.len(), 3);
    assert_eq!(found[0].id, "doc_7_1_0");
    let scores: Vec<f32> = found
        .iter()
        .map(|d| match d.score {
            Score::Similarity(s) => s,
            Score::Exact => 1.0,
        })
        .collect();
    assert!(scores[0] >= scores[1] && scores[1] >= scores[2]);
}

#[test]
fn filtered_deletes_remove_what_the_filter_selects() {
    let mut engine = documents_engine();
    store_chunk(&mut engine, "doc_7_1_0", 0, &chunk(7, 1, "A", 0));
    store_chunk(&mut engine, "doc_7_1_1", 1, &chunk(7, 1, "B", 1));
    store_chunk(&mut engine, "doc_7_2_0", 2, &chunk(7, 2, "A", 0));
    store_chunk(&mut engine, "doc_8_1_0", 3, &chunk(8, 1, "A", 0));

    let status = engine.delete(&service().delete_documents_by_file(7, 1)).unwrap();
    // the count is the engine's status, not a tally of what was removed
    assert_eq!(QdrantService::deleted_count(status), 2);
    assert_eq!(stats(&mut engine, 7).total_chunks, 1);
    assert_eq!(stats(&mut engine, 8).total_chunks, 1);

    store_chunk(&mut engine, "doc_7_3_0", 0, &chunk(7, 3, "B", 0));
    engine.delete(&service().delete_documents_by_group_key(7, "A")).unwrap();
    let left = stats(&mut engine, 7);
    assert_eq!(left.total_chunks, 1);
    assert_eq!(count_of(&left, "B"), 1);
    assert_eq!(stats(&mut engine, 8).total_chunks, 1);

    engine.delete(&service().delete_all_documents_for_user(7)).unwrap();
    assert_eq!(stats(&mut engine, 7).total_chunks, 0);
    assert_eq!(stats(&mut engine, 8).total_chunks, 1);

    engine.delete(&service().delete_document("doc_8_1_0")).unwrap();
    assert_eq!(stats(&mut engine, 8).total_chunks, 0);
}

#[test]
fn the_reported_count_reads_the_status_as_unsigned() {
    assert_eq!(QdrantService::deleted_count(None), 0);
    assert_eq!(QdrantService::deleted_count(Some(0)), 0);
    assert_eq!(QdrantService::deleted_count(Some(2)), 2);
    assert_eq!(QdrantService::deleted_count(Some(i32::MAX)), i32::MAX as u64);
    assert_eq!(QdrantService::deleted_count(Some(-1)), u64::MAX);
    assert_eq!(QdrantService::deleted_count(Some(i32::MIN)), i32::MIN as u64);
}

#[test]
fn the_state_of_a_collection_is_read_from_its_description() {
    assert_eq!(service().get_collection_info(Some("Team A")), "test_collection_team_a");
    assert_eq!(
        QdrantService::get_collection_info_result(Some(CollectionDescription {
            status: 1,
            points_count: Some(12548),
        })),
        Ok(("1".to_string(), 12548, 12548, 12548))
    );
    assert_eq!(
        QdrantService::get_collection_info_result(Some(CollectionDescription {
            status: -3,
            points_count: None,
        })),
        Ok(("-3".to_string(), 0, 0, 0))
    );
    assert_eq!(
        QdrantService::get_collection_info_result(None),
        Err(AppError::Internal("Collection info result is empty".to_string()))
    );
}

#[test]
fn an_engine_that_answers_is_healthy() {
    assert_eq!(QdrantService::health_check(&Ok(())), Ok(true));
    assert_eq!(
        QdrantService::health_check(&Err(AppError::Qdrant("down".to_string()))),
        Ok(false)
    );
}
