//! What the service's endpoints decide around the store: which requests are
//! well-formed, what a missing entity is answered with, how the outcome of a
//! batch is tallied. Reading a request off the wire and writing the answer
//! back is the caller's part.

use crate::codec::encoded_document;
use crate::codec::encoded_memory;
use crate::config::Config;
use crate::documents::document_filter;
use crate::engine::PointWrite;
use crate::engine::ScrollPoints;
use crate::engine::SearchPoints;
use crate::error::AppError;
use crate::error::ErrorView;
use crate::error::error_text;
use crate::models::BatchError;
use crate::models::BatchOperationResponse;
use crate::models::BatchUpsertResponse;
use crate::models::CollectionInfo;
use crate::models::DocumentSearchResult;
use crate::models::EmbeddingCapabilities;
use crate::models::MemoryPayload;
use crate::models::MemoryResponse;
use crate::models::ScrollMemoriesRequest;
use crate::models::ScrollMemoriesResponse;
use crate::models::SearchDocumentsRequest;
use crate::models::SearchMemoriesRequest;
use crate::models::SearchMemoriesResponse;
use crate::models::SearchResult;
use crate::models::ServiceCapabilities;
use crate::models::UpsertDocumentRequest;
use crate::models::UpsertMemoryRequest;
use crate::namespace::physical_name;
use crate::point_id::native_id;
use crate::qdrant::MemoryUpsert;
use crate::qdrant::QdrantService;
use crate::qdrant::dimension_mismatch;
use crate::qdrant::is_memory_collection;
use crate::qdrant::memory_filter;
use crate::qdrant::query_dimension_mismatch;
use crate::text::decimal;
use crate::text::join2;
use crate::text::join3;
use crate::text::optional_text;
use crate::text::push_decimal;
use vstd::prelude::*;
use vstd::string::*;

verus! {

/// The namespace that a request names in its query string, if any.
#[derive(Debug)]
pub struct NamespaceQuery {
    pub namespace: Option<String>,
}

/// The most points that one batch may hold.
pub const MAX_BATCH: usize = 100;

/// The words that reject a document vector of the wrong length.
pub open spec fn document_dimension_mismatch(expected: nat, got: nat) -> Seq<char> {
    "Vector must have exactly "@ + decimal(expected) + " dimensions, got "@ + decimal(got)
}

/// The entry that a batch of documents lists for a failed document.
pub open spec fn document_failure(point_id: Seq<char>, reason: Seq<char>) -> Seq<char> {
    "Document "@ + point_id + ": "@ + reason
}

/// What the service says of itself: its name and version, the configured
/// dimension, and that it embeds nothing: callers send vectors.
pub fn get_capabilities(config: &Config, version: &str) -> (body: ServiceCapabilities)
    ensures
        body.service@ == "synaplan-qdrant-service"@,
        body.version@ == version@,
        body.vector_dimension == config.vector_dimension,
        !body.embedding.supported,
        body.embedding.backend@ == "none"@,
        body.embedding.model is None,
        body.embedding.device@ == "none"@,
        body.embedding.vector_dimension == config.vector_dimension,
{
    ServiceCapabilities {
        service: String::from_str("synaplan-qdrant-service"),
        version: String::from_str(version),
        vector_dimension: config.vector_dimension,
        embedding: EmbeddingCapabilities {
            supported: false,
            backend: String::from_str("none"),
            model: None,
            device: String::from_str("none"),
            vector_dimension: config.vector_dimension,
        },
    }
}

/// Plans the upsert of the memory of a request: see
/// `QdrantService::upsert_memory`.
pub fn upsert_memory<V>(service: &QdrantService, req: UpsertMemoryRequest<V>) -> (r: Result<
    MemoryUpsert<V>,
    AppError,
>)
    ensures
        req.vector@.len() != service.vector_dimension ==> r is Err && r->Err_0@
            == ErrorView::InvalidRequest(
            dimension_mismatch(service.vector_dimension as nat, req.vector@.len()),
        ),
        req.vector@.len() == service.vector_dimension ==> r is Ok && ({
            let plan = r->Ok_0;
            let name = physical_name(service.collection_name@, optional_text(req.namespace));
            &&& is_memory_collection(plan.provision, name, service.vector_dimension)
            &&& plan.write.collection@ == name
            &&& plan.write.id == native_id(req.point_id@)
            &&& plan.write.vector@ == req.vector@
            &&& plan.write.payload@ == encoded_memory(req.payload@, req.point_id@)
        }),
{
    let UpsertMemoryRequest { point_id, vector, payload, namespace } = req;
    let space: Option<&str> = match &namespace {
        Some(n) => Some(n.as_str()),
        None => None,
    };
    service.upsert_memory(point_id, vector, payload, space)
}

/// Plans the search of a request: see `QdrantService::search_memories`.
pub fn search_memories<V>(service: &QdrantService, req: SearchMemoriesRequest<V>) -> (r: Result<
    SearchPoints<V>,
    AppError,
>)
    ensures
        req.query_vector@.len() != service.vector_dimension ==> r is Err && r->Err_0@
            == ErrorView::InvalidRequest(
            query_dimension_mismatch(service.vector_dimension as nat, req.query_vector@.len()),
        ),
        req.query_vector@.len() == service.vector_dimension ==> r is Ok && ({
            let search = r->Ok_0;
            &&& search.collection@ == physical_name(
                service.collection_name@,
                optional_text(req.namespace),
            )
            &&& search.vector@ == req.query_vector@
            &&& search.limit == req.limit
            &&& search.filter@ == memory_filter(req.user_id, optional_text(req.category))
            &&& search.score_threshold == req.min_score
            &&& search.with_payload
        }),
{
    let SearchMemoriesRequest { query_vector, user_id, category, namespace, limit, min_score } =
        req;
    let space: Option<&str> = match &namespace {
        Some(n) => Some(n.as_str()),
        None => None,
    };
    service.search_memories(query_vector, user_id, category, limit, min_score, space)
}

/// Plans the scroll of a request: see `QdrantService::scroll_memories`.
pub fn scroll_memories(service: &QdrantService, req: ScrollMemoriesRequest) -> (scroll:
    ScrollPoints)
    ensures
        scroll.collection@ == physical_name(service.collection_name@, optional_text(req.namespace)),
        scroll.filter@ == memory_filter(req.user_id, optional_text(req.category)),
        scroll.limit == req.limit % 0x1_0000_0000,
        scroll.offset is None,
        scroll.with_payload,
        !scroll.with_vectors,
{
    let ScrollMemoriesRequest { user_id, category, namespace, limit } = req;
    let space: Option<&str> = match &namespace {
        Some(n) => Some(n.as_str()),
        None => None,
    };
    service.scroll_memories(user_id, category, limit, space)
}

/// Answers a request for one memory: the memory under its identifier, or
/// not found where the store has none.
pub fn get_memory_response(point_id: String, found: Option<MemoryPayload>) -> (r: Result<
    MemoryResponse,
    AppError,
>)
    ensures
        match found {
            Some(payload) => r is Ok && r->Ok_0.id@ == point_id@ && r->Ok_0.payload == payload,
            None => r is Err && r->Err_0@ == ErrorView::NotFound(
                "Memory not found: "@ + point_id@,
            ),
        },
{
    match found {
        Some(payload) => Ok(MemoryResponse { id: point_id, payload }),
        None => Err(AppError::NotFound(join2("Memory not found: ", point_id.as_str()))),
    }
}

/// Answers a search: the results in the store's order, and their number.
pub fn search_memories_response<V>(found: Vec<(String, V, MemoryPayload)>) -> (body: SearchMemoriesResponse<
    V,
>)
    ensures
        body.count == found@.len(),
        body.results@.len() == found@.len(),
        forall|i: int|
            0 <= i < found@.len() ==> {
                &&& (#[trigger] body.results@[i]).id == found@[i].0
                &&& body.results@[i].score == found@[i].1
                &&& body.results@[i].payload == found@[i].2
            },
{
    let ghost all = found@;
    let mut results: Vec<SearchResult<V>> = Vec::new();
    for entry in iter: found
        invariant
            iter.seq() == all,
            results@.len() == iter.index(),
            forall|i: int|
                0 <= i < iter.index() ==> {
                    &&& (#[trigger] results@[i]).id == all[i].0
                    &&& results@[i].score == all[i].1
                    &&& results@[i].payload == all[i].2
                },
    {
        let (id, score, payload) = entry;
        results.push(SearchResult { id, score, payload });
    }
    let count = results.len();
    SearchMemoriesResponse { results, count }
}

/// Answers a scroll: the memories in the store's order, and their number.
pub fn scroll_memories_response(found: Vec<(String, MemoryPayload)>) -> (body: ScrollMemoriesResponse)
    ensures
        body.count == found@.len(),
        body.memories@.len() == found@.len(),
        forall|i: int|
            0 <= i < found@.len() ==> {
                &&& (#[trigger] body.memories@[i]).id == found@[i].0
                &&& body.memories@[i].payload == found@[i].1
            },
{
    let ghost all = found@;
    let mut memories: Vec<MemoryResponse> = Vec::new();
    for entry in iter: found
        invariant
            iter.seq() == all,
            memories@.len() == iter.index(),
            forall|i: int|
                0 <= i < iter.index() ==> {
                    &&& (#[trigger] memories@[i]).id == all[i].0
                    &&& memories@[i].payload == all[i].1
                },
    {
        let (id, payload) = entry;
        memories.push(MemoryResponse { id, payload });
    }
    let count = memories.len();
    ScrollMemoriesResponse { memories, count }
}

/// Answers a request for the state of a collection.
pub fn get_collection_info_response(info: (String, u64, u64, u64)) -> (body: CollectionInfo)
    ensures
        body.status == info.0,
        body.points_count == info.1,
        body.vectors_count == info.2,
        body.indexed_vectors_count == info.3,
{
    let (status, points_count, vectors_count, indexed_vectors_count) = info;
    CollectionInfo { status, points_count, vectors_count, indexed_vectors_count }
}

/// Opens the tally of a batch of memories. A batch holds at least one point
/// and at most `MAX_BATCH`; any other is rejected whole.
pub fn batch_upsert_memories(point_count: usize) -> (r: Result<BatchOperationResponse, AppError>)
    ensures
        point_count == 0 ==> r is Err && r->Err_0@ == ErrorView::InvalidRequest(
            "Batch cannot be empty"@,
        ),
        point_count > MAX_BATCH ==> r is Err && r->Err_0@ == ErrorView::InvalidRequest(
            "Batch size exceeds maximum of 100 points"@,
        ),
        0 < point_count <= MAX_BATCH ==> r is Ok && r->Ok_0.success_count == 0
            && r->Ok_0.failed_count == 0 && r->Ok_0.errors@.len() == 0,
{
    if point_count == 0 {
        return Err(AppError::InvalidRequest(String::from_str("Batch cannot be empty")));
    }
    if point_count > MAX_BATCH {
        return Err(
            AppError::InvalidRequest(String::from_str("Batch size exceeds maximum of 100 points")),
        );
    }
    Ok(BatchOperationResponse { success_count: 0, failed_count: 0, errors: Vec::new() })
}

impl BatchOperationResponse {
    /// Tallies the outcome of one point of a batch. A point that was stored
    /// counts as a success; one that was not counts as a failure and is
    /// listed with its identifier and the full text of its error. The points
    /// tallied before keep their place: a failure ends nothing.
    pub fn record(&mut self, point_id: String, outcome: &Result<(), AppError>)
        requires
            old(self).success_count < usize::MAX,
            old(self).failed_count < usize::MAX,
        ensures
            match outcome {
                Ok(_) => {
                    &&& final(self).success_count == old(self).success_count + 1
                    &&& final(self).failed_count == old(self).failed_count
                    &&& final(self).errors@ == old(self).errors@
                },
                Err(e) => {
                    &&& final(self).success_count == old(self).success_count
                    &&& final(self).failed_count == old(self).failed_count + 1
                    &&& final(self).errors@.len() == old(self).errors@.len() + 1
                    &&& final(self).errors@.take(old(self).errors@.len() as int) == old(
                        self,
                    ).errors@
                    &&& final(self).errors@.last().point_id@ == point_id@
                    &&& final(self).errors@.last().error@ == error_text(e@)
                },
            },
    {
        match outcome {
            Ok(_) => {
                self.success_count = self.success_count + 1;
            },
            Err(e) => {
                self.failed_count = self.failed_count + 1;
                self.errors.push(BatchError { point_id, error: e.to_string() });
                assert(self.errors@.take(old(self).errors@.len() as int) =~= old(self).errors@);
            },
        }
    }
}

/// Checks one document chunk at the boundary and plans its write. A vector
/// whose length is not the configured dimension is rejected and nothing is
/// planned.
pub fn upsert_document<V>(service: &QdrantService, req: UpsertDocumentRequest<V>) -> (r: Result<
    PointWrite<V>,
    AppError,
>)
    ensures
        req.vector@.len() != service.vector_dimension ==> r is Err && r->Err_0@
            == ErrorView::InvalidRequest(
            document_dimension_mismatch(service.vector_dimension as nat, req.vector@.len()),
        ),
        req.vector@.len() == service.vector_dimension ==> r is Ok && ({
            let write = r->Ok_0;
            &&& write.collection@ == service.documents_collection_name@
            &&& write.id == native_id(req.point_id@)
            &&& write.vector@ == req.vector@
            &&& write.payload@ == encoded_document(req.payload@, req.point_id@)
        }),
{
    if req.vector.len() as u64 != service.vector_dimension {
        let mut message = String::from_str("Vector must have exactly ");
        push_decimal(&mut message, service.vector_dimension);
        message.append(" dimensions, got ");
        push_decimal(&mut message, req.vector.len() as u64);
        return Err(AppError::InvalidRequest(message));
    }
    let UpsertDocumentRequest { point_id, vector, payload } = req;
    Ok(service.upsert_document(point_id.as_str(), vector, &payload))
}

/// Opens the tally of a batch of document chunks. A batch holds at most
/// `MAX_BATCH` documents; a larger one is rejected whole.
pub fn batch_upsert_documents(document_count: usize) -> (r: Result<BatchUpsertResponse, AppError>)
    ensures
        document_count > MAX_BATCH ==> r is Err && r->Err_0@ == ErrorView::InvalidRequest(
            "Maximum 100 documents per batch"@,
        ),
        document_count <= MAX_BATCH ==> r is Ok && r->Ok_0.success_count == 0
            && r->Ok_0.failed_count == 0 && r->Ok_0.errors@.len() == 0,
{
    if document_count > MAX_BATCH {
        return Err(AppError::InvalidRequest(String::from_str("Maximum 100 documents per batch")));
    }
    Ok(BatchUpsertResponse { success_count: 0, failed_count: 0, errors: Vec::new() })
}

impl BatchUpsertResponse {
    /// Screens one document of a batch. A document whose vector has the
    /// configured dimension gives its write; any other is tallied as failed,
    /// listed under its identifier, and gives none.
    pub fn screen<V>(&mut self, service: &QdrantService, doc: UpsertDocumentRequest<V>) -> (write:
        Option<PointWrite<V>>)
        requires
            old(self).failed_count < usize::MAX,
        ensures
            doc.vector@.len() == service.vector_dimension ==> {
                &&& *final(self) == *old(self)
                &&& write is Some
                &&& write->Some_0.collection@ == service.documents_collection_name@
                &&& write->Some_0.id == native_id(doc.point_id@)
                &&& write->Some_0.vector@ == doc.vector@
                &&& write->Some_0.payload@ == encoded_document(doc.payload@, doc.point_id@)
            },
            doc.vector@.len() != service.vector_dimension ==> {
                &&& write is None
                &&& final(self).success_count == old(self).success_count
                &&& final(self).failed_count == old(self).failed_count + 1
                &&& final(self).errors@.len() == old(self).errors@.len() + 1
                &&& final(self).errors@.take(old(self).errors@.len() as int) == old(self).errors@
                &&& final(self).errors@.last()@ == document_failure(
                    doc.point_id@,
                    "invalid vector dimension"@,
                )
            },
    {
        if doc.vector.len() as u64 != service.vector_dimension {
            self.fail(doc.point_id.as_str(), "invalid vector dimension");
            return None;
        }
        let UpsertDocumentRequest { point_id, vector, payload } = doc;
        Some(service.upsert_document(point_id.as_str(), vector, &payload))
    }

    fn fail(&mut self, point_id: &str, reason: &str)
        requires
            old(self).failed_count < usize::MAX,
        ensures
            final(self).success_count == old(self).success_count,
            final(self).failed_count == old(self).failed_count + 1,
            final(self).errors@.len() == old(self).errors@.len() + 1,
            final(self).errors@.take(old(self).errors@.len() as int) == old(self).errors@,
            final(self).errors@.last()@ == document_failure(point_id@, reason@),
    {
        let mut entry = join3("Document ", point_id, ": ");
        entry.append(reason);
        self.failed_count = self.failed_count + 1;
        self.errors.push(entry);
        assert(self.errors@.take(old(self).errors@.len() as int) =~= old(self).errors@);
    }

    /// Tallies the engine's answer for one document that was sent. A
    /// document that was stored counts as a success; one that was not counts
    /// as a failure and is listed under its identifier with the full text of
    /// its error. It is not sent again.
    pub fn record(&mut self, point_id: &str, outcome: &Result<(), AppError>)
        requires
            old(self).success_count < usize::MAX,
            old(self).failed_count < usize::MAX,
        ensures
            match outcome {
                Ok(_) => {
                    &&& final(self).success_count == old(self).success_count + 1
                    &&& final(self).failed_count == old(self).failed_count
                    &&& final(self).errors@ == old(self).errors@
                },
                Err(e) => {
                    &&& final(self).success_count == old(self).success_count
                    &&& final(self).failed_count == old(self).failed_count + 1
                    &&& final(self).errors@.len() == old(self).errors@.len() + 1
                    &&& final(self).errors@.take(old(self).errors@.len() as int) == old(
                        self,
                    ).errors@
                    &&& final(self).errors@.last()@ == document_failure(point_id@, error_text(e@))
                },
            },
    {
        match outcome {
            Ok(_) => {
                self.success_count = self.success_count + 1;
            },
            Err(e) => {
                let text = e.to_string();
                self.fail(point_id, text.as_str());
            },
        }
    }
}

/// Checks a document search at the boundary and plans it. A query vector
/// whose length is not the configured dimension is rejected and nothing is
/// planned.
pub fn search_documents<V>(service: &QdrantService, req: SearchDocumentsRequest<V>) -> (r: Result<
    SearchPoints<V>,
    AppError,
>)
    ensures
        req.vector@.len() != service.vector_dimension ==> r is Err && r->Err_0@
            == ErrorView::InvalidRequest(
            document_dimension_mismatch(service.vector_dimension as nat, req.vector@.len()),
        ),
        req.vector@.len() == service.vector_dimension ==> r is Ok && ({
            let search = r->Ok_0;
            &&& search.collection@ == service.documents_collection_name@
            &&& search.vector@ == req.vector@
            &&& search.limit == req.limit
            &&& search.filter@ == document_filter(req.user_id, optional_text(req.group_key))
            &&& search.score_threshold == req.min_score
            &&& search.with_payload
        }),
{
    if req.vector.len() as u64 != service.vector_dimension {
        let mut message = String::from_str("Vector must have exactly ");
        push_decimal(&mut message, service.vector_dimension);
        message.append(" dimensions, got ");
        push_decimal(&mut message, req.vector.len() as u64);
        return Err(AppError::InvalidRequest(message));
    }
    let SearchDocumentsRequest { vector, user_id, group_key, limit, min_score } = req;
    let group: Option<&str> = match &group_key {
        Some(g) => Some(g.as_str()),
        None => None,
    };
    Ok(service.search_documents(vector, user_id, group, limit, min_score))
}

/// Answers a request for one document chunk: the chunk, or not found where
/// the store has none.
pub fn get_document_response<V>(found: Option<DocumentSearchResult<V>>) -> (r: Result<
    DocumentSearchResult<V>,
    AppError,
>)
    ensures
        match found {
            Some(doc) => r is Ok && r->Ok_0 == doc,
            None => r is Err && r->Err_0@ == ErrorView::NotFound("Document not found"@),
        },
{
    match found {
        Some(doc) => Ok(doc),
        None => Err(AppError::NotFound(String::from_str("Document not found"))),
    }
}

} // verus!
