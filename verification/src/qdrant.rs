//! The store itself: for each operation on memories and document chunks, the
//! request to put to the engine and the meaning of the engine's answer.
//!
//! Every write and every search checks the vector's length against the one
//! configured dimension before any request exists. Every read of memories is
//! filtered by owner and by the active flag; every read, search and delete of
//! document chunks is filtered by owner.

use crate::codec::DecodeFailure;
use crate::codec::decode_error;
use crate::codec::decode_memory;
use crate::codec::decoded_memory;
use crate::codec::embedded_point_id;
use crate::codec::encode_memory;
use crate::codec::encoded_memory;
use crate::codec::original_point_id;
use crate::config::Config;
use crate::engine::CollectionDescription;
use crate::engine::CollectionSpec;
use crate::engine::Condition;
use crate::engine::ConditionView;
use crate::engine::Distance;
use crate::engine::FieldIndex;
use crate::engine::FieldType;
use crate::engine::Filter;
use crate::engine::HnswConfig;
use crate::engine::MatchValue;
use crate::engine::PointDelete;
use crate::engine::PointLookup;
use crate::engine::PointRef;
use crate::engine::PointRefView;
use crate::engine::PointSelector;
use crate::engine::PointWrite;
use crate::engine::RetrievedPoint;
use crate::engine::ScoredPoint;
use crate::engine::ScrollPoints;
use crate::engine::SearchPoints;
use crate::engine::bool_condition;
use crate::engine::integer_condition;
use crate::engine::keyword_condition;
use crate::engine::point_ref_view;
use crate::error::AppError;
use crate::error::ErrorView;
use crate::models::MemoryPayload;
use crate::models::MemoryRecord;
use crate::namespace::physical_name;
use crate::namespace::resolve_collection_name;
use crate::namespace::sanitize_namespace;
use crate::namespace::sanitized;
use crate::payload::Payload;
use crate::payload::ValueView;
use crate::point_id::native_id;
use crate::point_id::string_to_point_id;
use crate::text::decimal;
use crate::text::i64_to_string;
use crate::text::optional_str;
use crate::text::optional_text;
use crate::text::push_decimal;
use crate::text::signed_decimal;
use crate::text::u64_to_string;
use vstd::prelude::*;
use vstd::string::*;

verus! {

/// The store's configuration: the logical collection of memories, the
/// collection of document chunks, and the one dimension of every vector.
#[derive(Debug, Clone)]
pub struct QdrantService {
    pub collection_name: String,
    pub documents_collection_name: String,
    pub vector_dimension: u64,
}

/// A memory upsert: the collection that must exist first, then the write.
#[derive(Debug)]
pub struct MemoryUpsert<V> {
    pub provision: CollectionSpec,
    pub write: PointWrite<V>,
}

/// The words that reject a vector of the wrong length on upsert.
pub open spec fn dimension_mismatch(expected: nat, got: nat) -> Seq<char> {
    "Vector dimension mismatch: expected "@ + decimal(expected) + ", got "@ + decimal(got)
}

/// The words that reject a query vector of the wrong length.
pub open spec fn query_dimension_mismatch(expected: nat, got: nat) -> Seq<char> {
    "Query vector dimension mismatch: expected "@ + decimal(expected) + ", got "@ + decimal(got)
}

/// The filter of every read of memories: the owner's, active, and of the
/// category if one is given.
pub open spec fn memory_filter(user_id: i64, category: Option<Seq<char>>) -> Seq<ConditionView> {
    let owned = seq![
        integer_condition("user_id"@, user_id),
        bool_condition("active"@, true),
    ];
    match category {
        Some(c) => owned.push(keyword_condition("category"@, c)),
        None => owned,
    }
}

/// The identifier that a point is reported under: the caller's identifier
/// that its payload carries; failing that, the engine's own name of the
/// point, which is a number, written in decimal, or a UUID; failing that,
/// `unknown`. The fallbacks are a degraded answer and no error.
pub open spec fn point_label(
    payload: Map<Seq<char>, ValueView>,
    id: Option<PointRefView>,
) -> Seq<char> {
    match embedded_point_id(payload) {
        Some(s) => s,
        None => match id {
            Some(PointRefView::Num(n)) => decimal(n as nat),
            Some(PointRefView::Uuid(u)) => u,
            None => "unknown"@,
        },
    }
}

/// Whether `spec` is what a collection of memories called `name` is created
/// with: the dimension, cosine distance, the engine's own graph parameters
/// and no secondary index.
pub open spec fn is_memory_collection(spec: CollectionSpec, name: Seq<char>, dimension: u64) -> bool {
    &&& spec.name@ == name
    &&& spec.dimension == dimension
    &&& spec.distance == Distance::Cosine
    &&& spec.hnsw is None
    &&& spec.indexes@.len() == 0
}

/// Whether `spec` is what a collection of document chunks called `name` is
/// created with: the dimension, cosine distance, a graph index of 16 links
/// built with a candidate list of 100, and secondary indexes on the owner
/// and the file, both whole numbers, and on the group, a keyword.
pub open spec fn is_documents_collection(
    spec: CollectionSpec,
    name: Seq<char>,
    dimension: u64,
) -> bool {
    &&& spec.name@ == name
    &&& spec.dimension == dimension
    &&& spec.distance == Distance::Cosine
    &&& spec.hnsw == Some(HnswConfig { m: 16, ef_construct: 100 })
    &&& spec.indexes@.len() == 3
    &&& spec.indexes@[0].field_name@ == "user_id"@
    &&& spec.indexes@[0].field_type == FieldType::Integer
    &&& spec.indexes@[1].field_name@ == "file_id"@
    &&& spec.indexes@[1].field_type == FieldType::Integer
    &&& spec.indexes@[2].field_name@ == "group_key"@
    &&& spec.indexes@[2].field_type == FieldType::Keyword
}

fn owner_condition(user_id: i64) -> (c: Condition)
    ensures
        c@ == integer_condition("user_id"@, user_id),
{
    Condition { key: String::from_str("user_id"), value: MatchValue::Integer(user_id) }
}

/// The identifier that a point is reported under.
pub fn render_label(payload: &Payload, id: &Option<PointRef>) -> (label: String)
    ensures
        label@ == point_label(payload@, point_ref_view(*id)),
{
    match original_point_id(payload) {
        Some(s) => s,
        None => match id {
            Some(PointRef::Num(n)) => u64_to_string(*n),
            Some(PointRef::Uuid(u)) => u.clone(),
            None => String::from_str("unknown"),
        },
    }
}

impl QdrantService {
    /// The store for a configuration.
    pub fn new(config: &Config) -> (service: QdrantService)
        ensures
            service.collection_name@ == config.collection_name@,
            service.documents_collection_name@ == config.documents_collection_name@,
            service.vector_dimension == config.vector_dimension,
    {
        QdrantService {
            collection_name: config.collection_name.clone(),
            documents_collection_name: config.documents_collection_name.clone(),
            vector_dimension: config.vector_dimension,
        }
    }

    /// The physical collection of the memories of a namespace.
    pub fn get_collection_name(&self, namespace: Option<&str>) -> (name: String)
        ensures
            name@ == physical_name(self.collection_name@, optional_str(namespace)),
    {
        resolve_collection_name(self.collection_name.as_str(), namespace)
    }

    /// Sanitizes a namespace: see `sanitized`.
    pub fn sanitize_namespace(value: &str) -> (out: String)
        ensures
            out@ == sanitized(value@),
    {
        sanitize_namespace(value)
    }

    /// What a collection of memories is created with: the configured
    /// dimension, cosine distance, no secondary index.
    pub fn ensure_collection_exists_for(&self, collection_name: &str) -> (spec: CollectionSpec)
        ensures
            is_memory_collection(spec, collection_name@, self.vector_dimension),
    {
        CollectionSpec {
            name: String::from_str(collection_name),
            dimension: self.vector_dimension,
            distance: Distance::Cosine,
            hnsw: None,
            indexes: Vec::new(),
        }
    }

    /// What a collection of document chunks is created with: the configured
    /// dimension, cosine distance, a graph index of 16 links built with a
    /// candidate list of 100, and secondary indexes on owner, file and group.
    pub fn ensure_collection_exists_for_documents(&self, collection_name: &str) -> (spec:
        CollectionSpec)
        ensures
            is_documents_collection(spec, collection_name@, self.vector_dimension),
    {
        let mut indexes: Vec<FieldIndex> = Vec::new();
        indexes.push(
            FieldIndex { field_name: String::from_str("user_id"), field_type: FieldType::Integer },
        );
        indexes.push(
            FieldIndex { field_name: String::from_str("file_id"), field_type: FieldType::Integer },
        );
        indexes.push(
            FieldIndex {
                field_name: String::from_str("group_key"),
                field_type: FieldType::Keyword,
            },
        );
        CollectionSpec {
            name: String::from_str(collection_name),
            dimension: self.vector_dimension,
            distance: Distance::Cosine,
            hnsw: Some(HnswConfig { m: 16, ef_construct: 100 }),
            indexes,
        }
    }

    /// The collections that must exist before the store serves: that of the
    /// memories without namespace, then that of the document chunks.
    pub fn ensure_collection_exists(&self) -> (specs: (CollectionSpec, CollectionSpec))
        ensures
            is_memory_collection(specs.0, self.collection_name@, self.vector_dimension),
            is_documents_collection(
                specs.1,
                self.documents_collection_name@,
                self.vector_dimension,
            ),
    {
        (
            self.ensure_collection_exists_for(self.collection_name.as_str()),
            self.ensure_collection_exists_for_documents(self.documents_collection_name.as_str()),
        )
    }

    fn memory_conditions(user_id: i64, category: Option<String>) -> (filter: Filter)
        ensures
            filter@ == memory_filter(user_id, optional_text(category)),
    {
        let mut must: Vec<Condition> = Vec::new();
        must.push(owner_condition(user_id));
        must.push(Condition { key: String::from_str("active"), value: MatchValue::Bool(true) });
        match category {
            Some(c) => {
                must.push(
                    Condition { key: String::from_str("category"), value: MatchValue::Keyword(c) },
                );
            },
            None => {},
        }
        let filter = Filter { must };
        assert(filter@ =~= memory_filter(user_id, optional_text(category)));
        filter
    }

    /// Plans the upsert of a memory. A vector whose length is not the
    /// configured dimension is rejected and nothing is planned; otherwise the
    /// plan names the collection of the namespace, to be created first if the
    /// engine lacks it, and writes the point under the key of `point_id`,
    /// with the vector as given and the record encoded with `point_id`.
    pub fn upsert_memory<V>(
        &self,
        point_id: String,
        vector: Vec<V>,
        payload: MemoryPayload,
        namespace: Option<&str>,
    ) -> (r: Result<MemoryUpsert<V>, AppError>)
        ensures
            vector@.len() != self.vector_dimension ==> r is Err && r->Err_0@
                == ErrorView::InvalidRequest(
                dimension_mismatch(self.vector_dimension as nat, vector@.len()),
            ),
            vector@.len() == self.vector_dimension ==> r is Ok && ({
                let plan = r->Ok_0;
                let name = physical_name(self.collection_name@, optional_str(namespace));
                &&& is_memory_collection(plan.provision, name, self.vector_dimension)
                &&& plan.write.collection@ == name
                &&& plan.write.id == native_id(point_id@)
                &&& plan.write.vector@ == vector@
                &&& plan.write.payload@ == encoded_memory(payload@, point_id@)
            }),
    {
        if vector.len() as u64 != self.vector_dimension {
            let mut message = String::from_str("Vector dimension mismatch: expected ");
            push_decimal(&mut message, self.vector_dimension);
            message.append(", got ");
            push_decimal(&mut message, vector.len() as u64);
            return Err(AppError::InvalidRequest(message));
        }
        let encoded = encode_memory(&payload, point_id.as_str());
        let id = string_to_point_id(point_id.as_str());
        let collection = self.get_collection_name(namespace);
        let provision = self.ensure_collection_exists_for(collection.as_str());
        Ok(MemoryUpsert { provision, write: PointWrite { collection, id, vector, payload: encoded } })
    }

    /// The request that fetches a memory: the point under the key of
    /// `point_id` in the collection of the namespace, payload only.
    pub fn get_memory(&self, point_id: &str, namespace: Option<&str>) -> (lookup: PointLookup)
        ensures
            lookup.collection@ == physical_name(self.collection_name@, optional_str(namespace)),
            lookup.id == native_id(point_id@),
            lookup.with_payload,
            !lookup.with_vectors,
    {
        PointLookup {
            collection: self.get_collection_name(namespace),
            id: string_to_point_id(point_id),
            with_payload: true,
            with_vectors: false,
        }
    }

    /// Reads the answer to `get_memory`. No point means that the memory does
    /// not exist, which is no error; otherwise the first point is decoded,
    /// and a payload that does not decode is an internal error.
    pub fn get_memory_result<V>(points: &Vec<RetrievedPoint<V>>) -> (r: Result<
        Option<MemoryPayload>,
        AppError,
    >)
        ensures
            points@.len() == 0 ==> r is Ok && r->Ok_0 is None,
            points@.len() > 0 ==> match decoded_memory(points@[0].payload@) {
                Ok(record) => r is Ok && r->Ok_0 is Some && r->Ok_0->Some_0@ == record,
                Err(f) => r is Err && r->Err_0@ == decode_error(f),
            },
    {
        if points.len() == 0 {
            return Ok(None);
        }
        match decode_memory(&points[0].payload) {
            Ok(record) => Ok(Some(record)),
            Err(e) => Err(e.into_app_error()),
        }
    }

    /// Plans a similarity search over the memories of an owner. A query
    /// vector whose length is not the configured dimension is rejected and
    /// nothing is planned; otherwise the search runs in the collection of the
    /// namespace, over the owner's active memories, of the category if one is
    /// given, with the limit and the score floor handed to the engine.
    pub fn search_memories<V>(
        &self,
        query_vector: Vec<V>,
        user_id: i64,
        category: Option<String>,
        limit: u64,
        min_score: V,
        namespace: Option<&str>,
    ) -> (r: Result<SearchPoints<V>, AppError>)
        ensures
            query_vector@.len() != self.vector_dimension ==> r is Err && r->Err_0@
                == ErrorView::InvalidRequest(
                query_dimension_mismatch(self.vector_dimension as nat, query_vector@.len()),
            ),
            query_vector@.len() == self.vector_dimension ==> r is Ok && ({
                let search = r->Ok_0;
                &&& search.collection@ == physical_name(
                    self.collection_name@,
                    optional_str(namespace),
                )
                &&& search.vector@ == query_vector@
                &&& search.limit == limit
                &&& search.filter@ == memory_filter(user_id, optional_text(category))
                &&& search.score_threshold == min_score
                &&& search.with_payload
            }),
    {
        if query_vector.len() as u64 != self.vector_dimension {
            let mut message = String::from_str("Query vector dimension mismatch: expected ");
            push_decimal(&mut message, self.vector_dimension);
            message.append(", got ");
            push_decimal(&mut message, query_vector.len() as u64);
            return Err(AppError::InvalidRequest(message));
        }
        let filter = Self::memory_conditions(user_id, category);
        Ok(
            SearchPoints {
                collection: self.get_collection_name(namespace),
                vector: query_vector,
                limit,
                filter,
                score_threshold: min_score,
                with_payload: true,
            },
        )
    }

    /// Reads the answer to `search_memories`: one result for each point, in
    /// the engine's order, under the point's label, with the engine's score
    /// and the decoded record. The first payload that does not decode fails
    /// the whole read with an internal error.
    pub fn search_memories_result<V: Copy>(hits: &Vec<ScoredPoint<V>>) -> (r: Result<
        Vec<(String, V, MemoryPayload)>,
        AppError,
    >)
        ensures
            match r {
                Ok(found) => {
                    &&& found@.len() == hits@.len()
                    &&& forall|i: int|
                        0 <= i < hits@.len() ==> {
                            &&& (#[trigger] found@[i]).0@ == point_label(
                                hits@[i].payload@,
                                point_ref_view(hits@[i].id),
                            )
                            &&& found@[i].1 == hits@[i].score
                            &&& decoded_memory(hits@[i].payload@) == Ok::<
                                MemoryRecord,
                                DecodeFailure,
                            >(found@[i].2@)
                        }
                },
                Err(e) => exists|i: int|
                    0 <= i < hits@.len() && (forall|j: int|
                        0 <= j < i ==> (#[trigger] decoded_memory(hits@[j].payload@)) is Ok) && (
                    #[trigger] decoded_memory(hits@[i].payload@)) is Err && e@ == decode_error(
                        decoded_memory(hits@[i].payload@)->Err_0,
                    ),
            },
    {
        let mut found: Vec<(String, V, MemoryPayload)> = Vec::new();
        let mut i: usize = 0;
        while i < hits.len()
            invariant
                i <= hits@.len(),
                found@.len() == i,
                forall|k: int|
                    0 <= k < i ==> {
                        &&& (#[trigger] found@[k]).0@ == point_label(
                            hits@[k].payload@,
                            point_ref_view(hits@[k].id),
                        )
                        &&& found@[k].1 == hits@[k].score
                        &&& decoded_memory(hits@[k].payload@) == Ok::<MemoryRecord, DecodeFailure>(
                            found@[k].2@,
                        )
                    },
            decreases hits@.len() - i,
        {
            let hit = &hits[i];
            let label = render_label(&hit.payload, &hit.id);
            match decode_memory(&hit.payload) {
                Ok(record) => {
                    found.push((label, hit.score, record));
                },
                Err(e) => {
                    proof {
                        assert forall|j: int| 0 <= j < i implies (#[trigger] decoded_memory(
                            hits@[j].payload@,
                        )) is Ok by {
                            assert(found@[j].1 == hits@[j].score);
                        }
                        assert(decoded_memory(hits@[i as int].payload@) is Err);
                    }
                    return Err(e.into_app_error());
                },
            }
            i += 1;
        }
        Ok(found)
    }

    /// The request that deletes a memory: the point under the key of
    /// `point_id` in the collection of the namespace. The engine deletes
    /// whether or not the memory is active, and a point that does not exist
    /// is deleted with success.
    pub fn delete_memory(&self, point_id: &str, namespace: Option<&str>) -> (delete: PointDelete)
        ensures
            delete.collection@ == physical_name(self.collection_name@, optional_str(namespace)),
            delete.selector matches PointSelector::Id(id) && id == native_id(point_id@),
    {
        PointDelete {
            collection: self.get_collection_name(namespace),
            selector: PointSelector::Id(string_to_point_id(point_id)),
        }
    }

    /// Reads the answer to a health probe: an engine that answered is
    /// healthy, one that failed is not, and neither is an error.
    pub fn health_check(probe: &Result<(), AppError>) -> (r: Result<bool, AppError>)
        ensures
            r is Ok,
            r->Ok_0 == (probe is Ok),
    {
        match probe {
            Ok(_) => Ok(true),
            Err(_) => Ok(false),
        }
    }

    /// The collection whose state `get_collection_info_result` reads: that of
    /// the namespace.
    pub fn get_collection_info(&self, namespace: Option<&str>) -> (name: String)
        ensures
            name@ == physical_name(self.collection_name@, optional_str(namespace)),
    {
        self.get_collection_name(namespace)
    }

    /// Reads the engine's description of a collection: the status as the
    /// engine numbers it, and the number of points, which also stands for the
    /// number of vectors and of indexed vectors, since the engine reports
    /// neither. A missing count reads as zero; a missing description is an
    /// internal error.
    pub fn get_collection_info_result(info: Option<CollectionDescription>) -> (r: Result<
        (String, u64, u64, u64),
        AppError,
    >)
        ensures
            match info {
                None => r is Err && r->Err_0@ == ErrorView::Internal(
                    "Collection info result is empty"@,
                ),
                Some(d) => r is Ok && ({
                    let points: u64 = match d.points_count {
                        Some(n) => n,
                        None => 0,
                    };
                    &&& r->Ok_0.0@ == signed_decimal(d.status as int)
                    &&& r->Ok_0.1 == points
                    &&& r->Ok_0.2 == points
                    &&& r->Ok_0.3 == points
                }),
            },
    {
        match info {
            None => Err(AppError::Internal(String::from_str("Collection info result is empty"))),
            Some(d) => {
                let status = i64_to_string(d.status as i64);
                let points: u64 = match d.points_count {
                    Some(n) => n,
                    None => 0,
                };
                Ok((status, points, points, points))
            },
        }
    }

    /// The request that lists memories of an owner without a query vector:
    /// one page of at most `limit` of the owner's active memories, of the
    /// category if one is given, from the collection of the namespace,
    /// payload only. The engine takes a 32-bit page size: a larger `limit`
    /// is cut to its low 32 bits.
    pub fn scroll_memories(
        &self,
        user_id: i64,
        category: Option<String>,
        limit: u64,
        namespace: Option<&str>,
    ) -> (scroll: ScrollPoints)
        ensures
            scroll.collection@ == physical_name(self.collection_name@, optional_str(namespace)),
            scroll.filter@ == memory_filter(user_id, optional_text(category)),
            scroll.limit == limit % 0x1_0000_0000,
            scroll.offset is None,
            scroll.with_payload,
            !scroll.with_vectors,
    {
        let filter = Self::memory_conditions(user_id, category);
        ScrollPoints {
            collection: self.get_collection_name(namespace),
            filter,
            limit: (limit % 0x1_0000_0000) as u32,
            offset: None,
            with_payload: true,
            with_vectors: false,
        }
    }

    /// Reads the answer to `scroll_memories`: one entry for each point, in
    /// the engine's order, under the point's label, with the decoded record.
    /// The first payload that does not decode fails the whole read with an
    /// internal error.
    pub fn scroll_memories_result<V>(points: &Vec<RetrievedPoint<V>>) -> (r: Result<
        Vec<(String, MemoryPayload)>,
        AppError,
    >)
        ensures
            match r {
                Ok(found) => {
                    &&& found@.len() == points@.len()
                    &&& forall|i: int|
                        0 <= i < points@.len() ==> {
                            &&& (#[trigger] found@[i]).0@ == point_label(
                                points@[i].payload@,
                                point_ref_view(points@[i].id),
                            )
                            &&& decoded_memory(points@[i].payload@) == Ok::<
                                MemoryRecord,
                                DecodeFailure,
                            >(found@[i].1@)
                        }
                },
                Err(e) => exists|i: int|
                    0 <= i < points@.len() && (forall|j: int|
                        0 <= j < i ==> (#[trigger] decoded_memory(points@[j].payload@)) is Ok) && (
                    #[trigger] decoded_memory(points@[i].payload@)) is Err && e@ == decode_error(
                        decoded_memory(points@[i].payload@)->Err_0,
                    ),
            },
    {
        let mut found: Vec<(String, MemoryPayload)> = Vec::new();
        let mut i: usize = 0;
        while i < points.len()
            invariant
                i <= points@.len(),
                found@.len() == i,
                forall|k: int|
                    0 <= k < i ==> {
                        &&& (#[trigger] found@[k]).0@ == point_label(
                            points@[k].payload@,
                            point_ref_view(points@[k].id),
                        )
                        &&& decoded_memory(points@[k].payload@) == Ok::<
                            MemoryRecord,
                            DecodeFailure,
                        >(found@[k].1@)
                    },
            decreases points@.len() - i,
        {
            let point = &points[i];
            let label = render_label(&point.payload, &point.id);
            match decode_memory(&point.payload) {
                Ok(record) => {
                    found.push((label, record));
                },
                Err(e) => {
                    proof {
                        assert forall|j: int| 0 <= j < i implies (#[trigger] decoded_memory(
                            points@[j].payload@,
                        )) is Ok by {
                            assert(found@[j].0@ == point_label(
                                points@[j].payload@,
                                point_ref_view(points@[j].id),
                            ));
                        }
                        assert(decoded_memory(points@[i as int].payload@) is Err);
                    }
                    return Err(e.into_app_error());
                },
            }
            i += 1;
        }
        Ok(found)
    }
}

} // verus!
