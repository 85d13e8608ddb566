//! The document store: the operations of `QdrantService` on document chunks.
//! There is no request that spans owners: every search, every filtered
//! delete, the reassignment of a group and the statistics name one owner.

use crate::codec::DecodeFailure;
use crate::codec::decode_document;
use crate::codec::decode_error;
use crate::codec::decoded_document;
use crate::codec::encode_document;
use crate::codec::encoded_document;
use crate::engine::Condition;
use crate::engine::ConditionView;
use crate::engine::Filter;
use crate::engine::MatchValue;
use crate::engine::PayloadPatch;
use crate::engine::PointDelete;
use crate::engine::PointLookup;
use crate::engine::PointRef;
use crate::engine::PointSelector;
use crate::engine::PointWrite;
use crate::engine::RetrievedPoint;
use crate::engine::ScoredPoint;
use crate::engine::ScrollPoints;
use crate::engine::SearchPoints;
use crate::engine::integer_condition;
use crate::engine::keyword_condition;
use crate::engine::point_ref_view;
use crate::error::AppError;
use crate::models::DocumentPayload;
use crate::models::DocumentRecord;
use crate::models::DocumentSearchResult;
use crate::models::DocumentStatsResponse;
use crate::models::Score;
use crate::payload::Payload;
use crate::payload::PayloadValue;
use crate::payload::ValueView;
use crate::point_id::native_id;
use crate::point_id::string_to_point_id;
use crate::qdrant::QdrantService;
use crate::qdrant::point_label;
use crate::qdrant::render_label;
use crate::text::optional_str;
use vstd::prelude::*;
use vstd::string::*;

verus! {

/// The filter of a document search: the owner's, and of the group if one is
/// given.
pub open spec fn document_filter(user_id: i64, group_key: Option<Seq<char>>) -> Seq<
    ConditionView,
> {
    let owned = seq![integer_condition("user_id"@, user_id)];
    match group_key {
        Some(g) => owned.push(keyword_condition("group_key"@, g)),
        None => owned,
    }
}

/// The filter that selects every chunk of one owner.
pub open spec fn owner_filter(user_id: i64) -> Seq<ConditionView> {
    seq![integer_condition("user_id"@, user_id)]
}

/// The filter that selects the chunks of one file of one owner.
pub open spec fn file_filter(user_id: i64, file_id: i64) -> Seq<ConditionView> {
    seq![integer_condition("user_id"@, user_id), integer_condition("file_id"@, file_id)]
}

/// The filter that selects the chunks of one group of one owner.
pub open spec fn group_filter(user_id: i64, group_key: Seq<char>) -> Seq<ConditionView> {
    seq![integer_condition("user_id"@, user_id), keyword_condition("group_key"@, group_key)]
}

/// The payload fields that moving chunks to the group `group_key` sets:
/// the group, and nothing else.
pub open spec fn group_patch(group_key: Seq<char>) -> Map<Seq<char>, ValueView> {
    Map::<Seq<char>, ValueView>::empty().insert("group_key"@, ValueView::Text(group_key))
}

/// The count that a filtered delete reports: the engine's status number,
/// read as unsigned, or zero where the engine sent no result. It need not be
/// the number of points removed.
pub open spec fn reported_count(status: Option<i32>) -> u64 {
    match status {
        Some(s) => if s >= 0 {
            s as u64
        } else {
            (s + 0x1_0000_0000_0000_0000) as u64
        },
        None => 0,
    }
}

/// The page size of the scroll that gathers statistics.
pub const STATS_PAGE_SIZE: u32 = 1000;

fn integer_match(key: &str, value: i64) -> (c: Condition)
    ensures
        c@ == integer_condition(key@, value),
{
    Condition { key: String::from_str(key), value: MatchValue::Integer(value) }
}

fn keyword_match(key: &str, value: &str) -> (c: Condition)
    ensures
        c@ == keyword_condition(key@, value@),
{
    Condition { key: String::from_str(key), value: MatchValue::Keyword(String::from_str(value)) }
}

fn owner_only(user_id: i64) -> (filter: Filter)
    ensures
        filter@ == owner_filter(user_id),
{
    let mut must: Vec<Condition> = Vec::new();
    must.push(integer_match("user_id", user_id));
    let filter = Filter { must };
    assert(filter@ =~= owner_filter(user_id));
    filter
}

fn owner_and_file(user_id: i64, file_id: i64) -> (filter: Filter)
    ensures
        filter@ == file_filter(user_id, file_id),
{
    let mut must: Vec<Condition> = Vec::new();
    must.push(integer_match("user_id", user_id));
    must.push(integer_match("file_id", file_id));
    let filter = Filter { must };
    assert(filter@ =~= file_filter(user_id, file_id));
    filter
}

impl QdrantService {
    /// The request that stores one document chunk: the point under the key
    /// of `point_id` in the collection of document chunks, with the vector
    /// as given and the record encoded with `point_id`. The vector's length
    /// is the caller's to check against the configured dimension.
    pub fn upsert_document<V>(&self, point_id: &str, vector: Vec<V>, payload: &DocumentPayload) -> (write:
        PointWrite<V>)
        ensures
            write.collection@ == self.documents_collection_name@,
            write.id == native_id(point_id@),
            write.vector@ == vector@,
            write.payload@ == encoded_document(payload@, point_id@),
    {
        PointWrite {
            collection: self.documents_collection_name.clone(),
            id: string_to_point_id(point_id),
            vector,
            payload: encode_document(payload, point_id),
        }
    }

    /// The request that searches the chunks of one owner, of the group if
    /// one is given, with the limit and the score floor handed to the
    /// engine.
    pub fn search_documents<V>(
        &self,
        query_vector: Vec<V>,
        user_id: i64,
        group_key: Option<&str>,
        limit: u64,
        min_score: V,
    ) -> (search: SearchPoints<V>)
        ensures
            search.collection@ == self.documents_collection_name@,
            search.vector@ == query_vector@,
            search.limit == limit,
            search.filter@ == document_filter(user_id, optional_str(group_key)),
            search.score_threshold == min_score,
            search.with_payload,
    {
        let mut must: Vec<Condition> = Vec::new();
        must.push(integer_match("user_id", user_id));
        match group_key {
            Some(g) => {
                must.push(keyword_match("group_key", g));
            },
            None => {},
        }
        let filter = Filter { must };
        assert(filter@ =~= document_filter(user_id, optional_str(group_key)));
        SearchPoints {
            collection: self.documents_collection_name.clone(),
            vector: query_vector,
            limit,
            filter,
            score_threshold: min_score,
            with_payload: true,
        }
    }

    /// Reads the answer to `search_documents`: one result for each point, in
    /// the engine's order, under the point's label, with the engine's score,
    /// the decoded chunk and no vector. The first payload that does not
    /// decode fails the whole read with an internal error.
    pub fn search_documents_result<V: Copy>(hits: &Vec<ScoredPoint<V>>) -> (r: Result<
        Vec<DocumentSearchResult<V>>,
        AppError,
    >)
        ensures
            match r {
                Ok(found) => {
                    &&& found@.len() == hits@.len()
                    &&& forall|i: int|
                        0 <= i < hits@.len() ==> {
                            &&& (#[trigger] found@[i]).id@ == point_label(
                                hits@[i].payload@,
                                point_ref_view(hits@[i].id),
                            )
                            &&& found@[i].score == Score::Similarity(hits@[i].score)
                            &&& decoded_document(hits@[i].payload@) == Ok::<
                                DocumentRecord,
                                DecodeFailure,
                            >(found@[i].payload@)
                            &&& found@[i].vector is None
                        }
                },
                Err(e) => exists|i: int|
                    0 <= i < hits@.len() && (forall|j: int|
                        0 <= j < i ==> (#[trigger] decoded_document(hits@[j].payload@)) is Ok) && (
                    #[trigger] decoded_document(hits@[i].payload@)) is Err && e@ == decode_error(
                        decoded_document(hits@[i].payload@)->Err_0,
                    ),
            },
    {
        let mut found: Vec<DocumentSearchResult<V>> = Vec::new();
        let mut i: usize = 0;
        while i < hits.len()
            invariant
                i <= hits@.len(),
                found@.len() == i,
                forall|k: int|
                    0 <= k < i ==> {
                        &&& (#[trigger] found@[k]).id@ == point_label(
                            hits@[k].payload@,
                            point_ref_view(hits@[k].id),
                        )
                        &&& found@[k].score == Score::Similarity(hits@[k].score)
                        &&& decoded_document(hits@[k].payload@) == Ok::<
                            DocumentRecord,
                            DecodeFailure,
                        >(found@[k].payload@)
                        &&& found@[k].vector is None
                    },
            decreases hits@.len() - i,
        {
            let hit = &hits[i];
            match decode_document(&hit.payload) {
                Ok(payload) => {
                    let id = render_label(&hit.payload, &hit.id);
                    found.push(
                        DocumentSearchResult {
                            id,
                            score: Score::Similarity(hit.score),
                            payload,
                            vector: None,
                        },
                    );
                },
                Err(e) => {
                    proof {
                        assert forall|j: int| 0 <= j < i implies (#[trigger] decoded_document(
                            hits@[j].payload@,
                        )) is Ok by {
                            assert(found@[j].vector is None);
                        }
                        assert(decoded_document(hits@[i as int].payload@) is Err);
                    }
                    return Err(e.into_app_error());
                },
            }
            i += 1;
        }
        Ok(found)
    }

    /// The request that fetches one chunk: the point under the key of
    /// `point_id` in the collection of document chunks, with its payload and
    /// its vector.
    pub fn get_document(&self, point_id: &str) -> (lookup: PointLookup)
        ensures
            lookup.collection@ == self.documents_collection_name@,
            lookup.id == native_id(point_id@),
            lookup.with_payload,
            lookup.with_vectors,
    {
        PointLookup {
            collection: self.documents_collection_name.clone(),
            id: string_to_point_id(point_id),
            with_payload: true,
            with_vectors: true,
        }
    }

    /// Reads the answer to `get_document`. No point means that the chunk
    /// does not exist, which is no error; otherwise the first point is
    /// reported under the identifier asked for, as an exact match, with its
    /// decoded chunk and the vector that the engine sent, if it sent one. A
    /// payload that does not decode is an internal error.
    pub fn get_document_result<V>(point_id: &str, points: Vec<RetrievedPoint<V>>) -> (r: Result<
        Option<DocumentSearchResult<V>>,
        AppError,
    >)
        ensures
            points@.len() == 0 ==> r is Ok && r->Ok_0 is None,
            points@.len() > 0 ==> match decoded_document(points@[0].payload@) {
                Ok(record) => r is Ok && r->Ok_0 is Some && ({
                    let found = r->Ok_0->Some_0;
                    &&& found.id@ == point_id@
                    &&& found.score == Score::<V>::Exact
                    &&& found.payload@ == record
                    &&& found.vector == points@[0].vector
                }),
                Err(f) => r is Err && r->Err_0@ == decode_error(f),
            },
    {
        let mut points = points;
        if points.len() == 0 {
            return Ok(None);
        }
        let first = points.swap_remove(0);
        match decode_document(&first.payload) {
            Ok(payload) => Ok(
                Some(
                    DocumentSearchResult {
                        id: String::from_str(point_id),
                        score: Score::Exact,
                        payload,
                        vector: first.vector,
                    },
                ),
            ),
            Err(e) => Err(e.into_app_error()),
        }
    }

    /// The request that deletes one chunk: the point under the key of
    /// `point_id` in the collection of document chunks.
    pub fn delete_document(&self, point_id: &str) -> (delete: PointDelete)
        ensures
            delete.collection@ == self.documents_collection_name@,
            delete.selector matches PointSelector::Id(id) && id == native_id(point_id@),
    {
        PointDelete {
            collection: self.documents_collection_name.clone(),
            selector: PointSelector::Id(string_to_point_id(point_id)),
        }
    }

    /// The request that deletes the chunks of one file of one owner.
    pub fn delete_documents_by_file(&self, user_id: i64, file_id: i64) -> (delete: PointDelete)
        ensures
            delete.collection@ == self.documents_collection_name@,
            delete.selector matches PointSelector::Matching(f) && f@ == file_filter(
                user_id,
                file_id,
            ),
    {
        PointDelete {
            collection: self.documents_collection_name.clone(),
            selector: PointSelector::Matching(owner_and_file(user_id, file_id)),
        }
    }

    /// The request that deletes the chunks of one group of one owner.
    pub fn delete_documents_by_group_key(&self, user_id: i64, group_key: &str) -> (delete:
        PointDelete)
        ensures
            delete.collection@ == self.documents_collection_name@,
            delete.selector matches PointSelector::Matching(f) && f@ == group_filter(
                user_id,
                group_key@,
            ),
    {
        let mut must: Vec<Condition> = Vec::new();
        must.push(integer_match("user_id", user_id));
        must.push(keyword_match("group_key", group_key));
        let filter = Filter { must };
        assert(filter@ =~= group_filter(user_id, group_key@));
        PointDelete {
            collection: self.documents_collection_name.clone(),
            selector: PointSelector::Matching(filter),
        }
    }

    /// The request that deletes every chunk of one owner.
    pub fn delete_all_documents_for_user(&self, user_id: i64) -> (delete: PointDelete)
        ensures
            delete.collection@ == self.documents_collection_name@,
            delete.selector matches PointSelector::Matching(f) && f@ == owner_filter(user_id),
    {
        PointDelete {
            collection: self.documents_collection_name.clone(),
            selector: PointSelector::Matching(owner_only(user_id)),
        }
    }

    /// Reads the answer to a filtered delete: the count to report. The
    /// engine sends a status, not a tally, so the count is the engine's best
    /// word and not the number of chunks removed.
    pub fn deleted_count(status: Option<i32>) -> (count: u64)
        ensures
            count == reported_count(status),
    {
        match status {
            Some(s) => if s >= 0 {
                s as u64
            } else {
                u64::MAX - ((-(s + 1)) as u64)
            },
            None => 0,
        }
    }

    /// The request that moves the chunks of one file of one owner to another
    /// group: a patch that sets the group on every chunk that the filter
    /// selects. Vectors, identities and the other fields stay.
    pub fn update_document_group_key(&self, user_id: i64, file_id: i64, new_group_key: &str) -> (patch:
        PayloadPatch)
        ensures
            patch.collection@ == self.documents_collection_name@,
            patch.filter@ == file_filter(user_id, file_id),
            patch.payload@ == group_patch(new_group_key@),
    {
        let mut payload = Payload::new();
        payload.insert(
            String::from_str("group_key"),
            PayloadValue::Text(String::from_str(new_group_key)),
        );
        PayloadPatch {
            collection: self.documents_collection_name.clone(),
            filter: owner_and_file(user_id, file_id),
            payload,
        }
    }

    /// The count that a reassignment reports. The engine tells no count for
    /// a patch, so the report is always 1: an estimate.
    pub fn updated_count() -> (count: u64)
        ensures
            count == 1,
    {
        1
    }

    /// The request for one page of the scroll that gathers the statistics of
    /// one owner: up to 1000 of the owner's chunks from `offset` on, payload
    /// only.
    pub fn get_document_stats(&self, user_id: i64, offset: Option<PointRef>) -> (scroll:
        ScrollPoints)
        ensures
            scroll.collection@ == self.documents_collection_name@,
            scroll.filter@ == owner_filter(user_id),
            scroll.limit == STATS_PAGE_SIZE,
            scroll.offset == offset,
            scroll.with_payload,
            !scroll.with_vectors,
    {
        ScrollPoints {
            collection: self.documents_collection_name.clone(),
            filter: owner_only(user_id),
            limit: STATS_PAGE_SIZE,
            offset,
            with_payload: true,
            with_vectors: false,
        }
    }

    /// The distinct group keys of an owner, from the owner's statistics: the
    /// groups in the order in which the statistics list them.
    pub fn get_document_group_keys(stats: &DocumentStatsResponse) -> (keys: Vec<String>)
        ensures
            keys@.len() == stats.chunks_by_group@.len(),
            forall|i: int|
                0 <= i < keys@.len() ==> (#[trigger] keys@[i])@
                    == stats.chunks_by_group@[i].group_key@,
    {
        let mut keys: Vec<String> = Vec::new();
        let mut i: usize = 0;
        while i < stats.chunks_by_group.len()
            invariant
                i <= stats.chunks_by_group@.len(),
                keys@.len() == i,
                forall|k: int|
                    0 <= k < i ==> (#[trigger] keys@[k])@ == stats.chunks_by_group@[k].group_key@,
            decreases stats.chunks_by_group@.len() - i,
        {
            keys.push(stats.chunks_by_group[i].group_key.clone());
            i += 1;
        }
        keys
    }
}

} // verus!
