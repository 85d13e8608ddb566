//! A model of what the vector engine keeps, for stating what the store's
//! requests amount to. The engine keys the points of a collection by their
//! numeric id; a write replaces the point of its id, a delete by id removes
//! it, and a patch sets payload fields on the points that pass its filter.
//! The laws below hold of every engine that behaves so.

use crate::codec::DecodeFailure;
use crate::codec::decoded_memory;
use crate::codec::encoded_memory;
use crate::codec::lemma_memory_round_trip;
use crate::doc_stats::group_of;
use crate::documents::document_filter;
use crate::documents::file_filter;
use crate::documents::group_filter;
use crate::documents::group_patch;
use crate::documents::owner_filter;
use crate::engine::ConditionView;
use crate::engine::passes;
use crate::models::MemoryRecord;
use crate::payload::ValueView;
use crate::point_id::native_id;
use crate::qdrant::memory_filter;
use vstd::prelude::*;

verus! {

/// A point as the engine keeps it: its vector and its payload.
pub ghost struct StoredPoint<V> {
    pub vector: Seq<V>,
    pub payload: Map<Seq<char>, ValueView>,
}

/// The points of a collection after a write of `vector` and `payload` under
/// `id`.
pub open spec fn after_write<V>(
    points: Map<u64, StoredPoint<V>>,
    id: u64,
    vector: Seq<V>,
    payload: Map<Seq<char>, ValueView>,
) -> Map<u64, StoredPoint<V>> {
    points.insert(id, StoredPoint { vector, payload })
}

/// The points of a collection after the delete of the point `id`.
pub open spec fn after_delete<V>(points: Map<u64, StoredPoint<V>>, id: u64) -> Map<
    u64,
    StoredPoint<V>,
> {
    points.remove(id)
}

/// The points that a fetch of `id` returns: the point, or none.
pub open spec fn fetched<V>(points: Map<u64, StoredPoint<V>>, id: u64) -> Seq<StoredPoint<V>> {
    if points.contains_key(id) {
        seq![points[id]]
    } else {
        Seq::empty()
    }
}

/// A payload after a patch: the fields of the patch as the patch has them,
/// every other field as before.
pub open spec fn patched(
    payload: Map<Seq<char>, ValueView>,
    patch: Map<Seq<char>, ValueView>,
) -> Map<Seq<char>, ValueView> {
    payload.union_prefer_right(patch)
}

/// The points of a collection after a patch of the points that pass
/// `filter`. Vectors and ids stay.
pub open spec fn after_patch<V>(
    points: Map<u64, StoredPoint<V>>,
    filter: Seq<ConditionView>,
    patch: Map<Seq<char>, ValueView>,
) -> Map<u64, StoredPoint<V>> {
    Map::new(
        |id: u64| points.contains_key(id),
        |id: u64|
            if passes(points[id].payload, filter) {
                StoredPoint { vector: points[id].vector, payload: patched(points[id].payload, patch) }
            } else {
                points[id]
            },
    )
}

/// The points after the write that an upsert of a memory plans: the vector
/// and the encoded record, under the key of the identifier.
pub open spec fn after_memory_upsert<V>(
    points: Map<u64, StoredPoint<V>>,
    point_id: Seq<char>,
    vector: Seq<V>,
    record: MemoryRecord,
) -> Map<u64, StoredPoint<V>> {
    after_write(points, native_id(point_id), vector, encoded_memory(record, point_id))
}

/// Upsert is idempotent per identifier: two upserts under one identifier
/// leave what the second alone would leave. The collection holds one point
/// for the identifier, beside the points of other keys that it held before;
/// that point carries the second vector, and its payload decodes to the
/// second record.
pub proof fn lemma_upsert_replaces<V>(
    points: Map<u64, StoredPoint<V>>,
    point_id: Seq<char>,
    first_vector: Seq<V>,
    first: MemoryRecord,
    second_vector: Seq<V>,
    second: MemoryRecord,
)
    ensures
        ({
            let once = after_memory_upsert(points, point_id, first_vector, first);
            let twice = after_memory_upsert(once, point_id, second_vector, second);
            &&& twice == after_memory_upsert(points, point_id, second_vector, second)
            &&& twice.dom() == points.dom().insert(native_id(point_id))
            &&& fetched(twice, native_id(point_id)).len() == 1
            &&& fetched(twice, native_id(point_id))[0].vector == second_vector
            &&& decoded_memory(fetched(twice, native_id(point_id))[0].payload) == Ok::<
                MemoryRecord,
                DecodeFailure,
            >(second)
        }),
{
    let once = after_memory_upsert(points, point_id, first_vector, first);
    let twice = after_memory_upsert(once, point_id, second_vector, second);
    assert(twice =~= after_memory_upsert(points, point_id, second_vector, second));
    assert(twice.dom() =~= points.dom().insert(native_id(point_id)));
    lemma_memory_round_trip(second, point_id);
}

/// A memory that was deleted is not found: after the delete of an
/// identifier's point, a fetch of that identifier returns no point, whatever
/// the collection held and whether or not the memory was active.
pub proof fn lemma_deleted_is_not_found<V>(points: Map<u64, StoredPoint<V>>, point_id: Seq<char>)
    ensures
        fetched(after_delete(points, native_id(point_id)), native_id(point_id)).len() == 0,
{
}

/// Deleting is idempotent: the delete of a point that does not exist
/// changes nothing.
pub proof fn lemma_delete_absent<V>(points: Map<u64, StoredPoint<V>>, id: u64)
    requires
        !points.contains_key(id),
    ensures
        after_delete(points, id) == points,
{
    assert(after_delete(points, id) =~= points);
}

/// Reads of memories are isolated: a payload that passes the filter of a
/// search or a scroll belongs to the owner asked for and is active, and is of
/// the category asked for, if one was.
pub proof fn lemma_memory_reads_are_isolated(
    payload: Map<Seq<char>, ValueView>,
    user_id: i64,
    category: Option<Seq<char>>,
)
    requires
        passes(payload, memory_filter(user_id, category)),
    ensures
        payload.contains_key("user_id"@) && payload["user_id"@] == ValueView::Integer(user_id),
        payload.contains_key("active"@) && payload["active"@] == ValueView::Bool(true),
        category matches Some(c) ==> payload.contains_key("category"@) && payload["category"@]
            == ValueView::Text(c),
{
    let filter = memory_filter(user_id, category);
    assert(crate::engine::meets(payload, filter[0]));
    assert(crate::engine::meets(payload, filter[1]));
    if category is Some {
        assert(crate::engine::meets(payload, filter[2]));
    }
}

/// Requests on document chunks are isolated: a payload that passes the
/// filter of a search, of a delete by file, by group or by owner, of the
/// reassignment of a group or of the statistics belongs to the owner asked
/// for.
pub proof fn lemma_document_requests_are_isolated(
    payload: Map<Seq<char>, ValueView>,
    user_id: i64,
    file_id: i64,
    group_key: Seq<char>,
    optional_group: Option<Seq<char>>,
)
    requires
        passes(payload, document_filter(user_id, optional_group)) || passes(
            payload,
            owner_filter(user_id),
        ) || passes(payload, file_filter(user_id, file_id)) || passes(
            payload,
            group_filter(user_id, group_key),
        ),
    ensures
        payload.contains_key("user_id"@) && payload["user_id"@] == ValueView::Integer(user_id),
{
    if passes(payload, document_filter(user_id, optional_group)) {
        assert(crate::engine::meets(payload, document_filter(user_id, optional_group)[0]));
    } else if passes(payload, owner_filter(user_id)) {
        assert(crate::engine::meets(payload, owner_filter(user_id)[0]));
    } else if passes(payload, file_filter(user_id, file_id)) {
        assert(crate::engine::meets(payload, file_filter(user_id, file_id)[0]));
    } else {
        assert(crate::engine::meets(payload, group_filter(user_id, group_key)[0]));
    }
}

/// Reassigning the group of a file moves every chunk of the file, and no
/// other: after the patch that `update_document_group_key` plans, each
/// point that passed the file's filter belongs to the new group and keeps
/// its vector, and each other point is as it was.
pub proof fn lemma_reassigned_group<V>(
    points: Map<u64, StoredPoint<V>>,
    user_id: i64,
    file_id: i64,
    new_group_key: Seq<char>,
    id: u64,
)
    requires
        points.contains_key(id),
    ensures
        ({
            let after = after_patch(
                points,
                file_filter(user_id, file_id),
                group_patch(new_group_key),
            );
            &&& after.dom() == points.dom()
            &&& after[id].vector == points[id].vector
            &&& passes(points[id].payload, file_filter(user_id, file_id)) ==> group_of(
                after[id].payload,
            ) == Some(new_group_key)
            &&& !passes(points[id].payload, file_filter(user_id, file_id)) ==> after[id]
                == points[id]
        }),
{
    let after = after_patch(points, file_filter(user_id, file_id), group_patch(new_group_key));
    assert(after.dom() =~= points.dom());
}

} // verus!
