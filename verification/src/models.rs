//! The records that the store keeps and the requests and responses of its
//! operations. Types that carry a vector or a similarity score are generic
//! in the scalar type `V`: the store hands vectors and scores through and
//! never looks inside one.

use vstd::prelude::*;

verus! {

/// What the service says of itself.
#[derive(Debug, Clone)]
pub struct ServiceCapabilities {
    pub service: String,
    pub version: String,
    pub vector_dimension: u64,
    pub embedding: EmbeddingCapabilities,
}

/// What the service says of its embedding support.
#[derive(Debug, Clone)]
pub struct EmbeddingCapabilities {
    pub supported: bool,
    pub backend: String,
    pub model: Option<String>,
    pub device: String,
    pub vector_dimension: u64,
}

/// A memory record: one fact remembered for one owner.
#[derive(Debug, Clone, PartialEq, Eq)]
pub struct MemoryPayload {
    /// The owner, by which every read is filtered.
    pub user_id: i64,
    /// A free-text classification.
    pub category: String,
    pub key: String,
    pub value: String,
    /// Where the record came from.
    pub source: String,
    /// The message that gave rise to the record, if known.
    pub message_id: Option<i64>,
    /// Unix time of creation.
    pub created: i64,
    /// Unix time of the last change.
    pub updated: i64,
    /// Cleared to hide the record from search and scroll without deleting it.
    pub active: bool,
}

/// The mathematical form of a memory record.
pub ghost struct MemoryRecord {
    pub user_id: i64,
    pub category: Seq<char>,
    pub key: Seq<char>,
    pub value: Seq<char>,
    pub source: Seq<char>,
    pub message_id: Option<i64>,
    pub created: i64,
    pub updated: i64,
    pub active: bool,
}

impl View for MemoryPayload {
    type V = MemoryRecord;

    open spec fn view(&self) -> MemoryRecord {
        MemoryRecord {
            user_id: self.user_id,
            category: self.category@,
            key: self.key@,
            value: self.value@,
            source: self.source@,
            message_id: self.message_id,
            created: self.created,
            updated: self.updated,
            active: self.active,
        }
    }
}

/// A request to store one memory with its vector.
#[derive(Debug)]
pub struct UpsertMemoryRequest<V> {
    pub point_id: String,
    pub vector: Vec<V>,
    pub payload: MemoryPayload,
    pub namespace: Option<String>,
}

/// A request to store several memories.
#[derive(Debug)]
pub struct BatchUpsertRequest<V> {
    pub points: Vec<UpsertMemoryRequest<V>>,
}

/// A memory with its identifier.
#[derive(Debug)]
pub struct MemoryResponse {
    pub id: String,
    pub payload: MemoryPayload,
}

/// A request to find the memories of an owner nearest to a vector.
#[derive(Debug)]
pub struct SearchMemoriesRequest<V> {
    pub query_vector: Vec<V>,
    pub user_id: i64,
    pub category: Option<String>,
    pub namespace: Option<String>,
    pub limit: u64,
    pub min_score: V,
}

/// One memory found by a search, with its similarity to the query.
#[derive(Debug)]
pub struct SearchResult<V> {
    pub id: String,
    pub score: V,
    pub payload: MemoryPayload,
}

/// The memories found by a search, best first.
#[derive(Debug)]
pub struct SearchMemoriesResponse<V> {
    pub results: Vec<SearchResult<V>>,
    pub count: usize,
}

/// A request to list the memories of an owner.
#[derive(Debug)]
pub struct ScrollMemoriesRequest {
    pub user_id: i64,
    pub category: Option<String>,
    pub namespace: Option<String>,
    pub limit: u64,
}

/// One page of the memories of an owner.
#[derive(Debug)]
pub struct ScrollMemoriesResponse {
    pub memories: Vec<MemoryResponse>,
    pub count: usize,
}

/// The state of one collection.
#[derive(Debug)]
pub struct CollectionInfo {
    pub status: String,
    pub points_count: u64,
    pub vectors_count: u64,
    pub indexed_vectors_count: u64,
}

/// The outcome of a batch of memory upserts.
#[derive(Debug)]
pub struct BatchOperationResponse {
    pub success_count: usize,
    pub failed_count: usize,
    pub errors: Vec<BatchError>,
}

/// Why one point of a batch was not stored.
#[derive(Debug)]
pub struct BatchError {
    pub point_id: String,
    pub error: String,
}

/// A document chunk record: one piece of one file of one owner.
#[derive(Debug, Clone, PartialEq, Eq)]
pub struct DocumentPayload {
    /// The owner, by which every read, search and delete is filtered.
    pub user_id: i64,
    /// The file that the chunk was cut from.
    pub file_id: i64,
    /// A free-text grouping of files.
    pub group_key: String,
    pub file_type: i32,
    /// The position of the chunk in its file.
    pub chunk_index: i32,
    pub start_line: i32,
    pub end_line: i32,
    pub text: String,
    /// Unix time of creation.
    pub created: i64,
}

/// The mathematical form of a document chunk record.
pub ghost struct DocumentRecord {
    pub user_id: i64,
    pub file_id: i64,
    pub group_key: Seq<char>,
    pub file_type: i32,
    pub chunk_index: i32,
    pub start_line: i32,
    pub end_line: i32,
    pub text: Seq<char>,
    pub created: i64,
}

impl View for DocumentPayload {
    type V = DocumentRecord;

    open spec fn view(&self) -> DocumentRecord {
        DocumentRecord {
            user_id: self.user_id,
            file_id: self.file_id,
            group_key: self.group_key@,
            file_type: self.file_type,
            chunk_index: self.chunk_index,
            start_line: self.start_line,
            end_line: self.end_line,
            text: self.text@,
            created: self.created,
        }
    }
}

/// A request to store one document chunk with its vector.
#[derive(Debug)]
pub struct UpsertDocumentRequest<V> {
    pub point_id: String,
    pub vector: Vec<V>,
    pub payload: DocumentPayload,
}

/// A request to store several document chunks.
#[derive(Debug)]
pub struct BatchUpsertDocumentsRequest<V> {
    pub documents: Vec<UpsertDocumentRequest<V>>,
}

/// The outcome of a batch of document upserts.
#[derive(Debug)]
pub struct BatchUpsertResponse {
    pub success_count: usize,
    pub failed_count: usize,
    pub errors: Vec<String>,
}

/// A request to find the chunks of an owner nearest to a vector.
#[derive(Debug)]
pub struct SearchDocumentsRequest<V> {
    pub vector: Vec<V>,
    pub user_id: i64,
    pub group_key: Option<String>,
    pub limit: u64,
    pub min_score: V,
}

/// How a chunk came to be in a result.
#[derive(Debug, Clone, Copy, PartialEq, Eq)]
pub enum Score<V> {
    /// The chunk was asked for by identifier: it matches itself fully.
    Exact,
    /// The chunk was found by a search, with this similarity to the query.
    Similarity(V),
}

/// One document chunk of a result.
#[derive(Debug)]
pub struct DocumentSearchResult<V> {
    pub id: String,
    pub score: Score<V>,
    pub payload: DocumentPayload,
    /// The stored vector; present only where the chunk was asked for by
    /// identifier.
    pub vector: Option<Vec<V>>,
}

/// A request to delete the chunks of one file.
#[derive(Debug)]
pub struct DeleteByFileRequest {
    pub user_id: i64,
    pub file_id: i64,
}

/// A request to delete the chunks of one group.
#[derive(Debug)]
pub struct DeleteByGroupKeyRequest {
    pub user_id: i64,
    pub group_key: String,
}

/// A request to move the chunks of one file to another group.
#[derive(Debug)]
pub struct UpdateGroupKeyRequest {
    pub user_id: i64,
    pub file_id: i64,
    pub new_group_key: String,
}

/// How many chunks one group holds.
#[derive(Debug, Clone, PartialEq, Eq)]
pub struct GroupCount {
    pub group_key: String,
    pub chunks: u64,
}

/// What an owner has stored: chunks, distinct files, distinct groups, and
/// the chunks of each group, each group once, in the order in which the
/// groups were first met.
#[derive(Debug)]
pub struct DocumentStatsResponse {
    pub total_chunks: u64,
    pub total_files: u64,
    pub total_groups: u64,
    pub chunks_by_group: Vec<GroupCount>,
}

/// The page size of a search that names none.
pub fn default_limit() -> (limit: u64)
    ensures
        limit == 5,
{
    5
}

/// The page size of a scroll that names none.
pub fn default_scroll_limit() -> (limit: u64)
    ensures
        limit == 1000,
{
    1000
}

} // verus!
