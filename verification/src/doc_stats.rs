//! Statistics of the document chunks of one owner. The engine has no
//! aggregation: the statistics are gathered by scrolling through all of the
//! owner's chunks, page by page, and counting here. The cost is linear in the
//! number of the owner's chunks.

use crate::engine::PointRef;
use crate::engine::RetrievedPoint;
use crate::engine::ScrollPage;
use crate::models::DocumentStatsResponse;
use crate::models::GroupCount;
use crate::payload::Payload;
use crate::payload::ValueView;
use crate::text::str_eq;
use std::collections::HashSet;
use vstd::prelude::*;

verus! {

/// The file that a stored chunk belongs to, if its payload names one.
pub open spec fn file_of(m: Map<Seq<char>, ValueView>) -> Option<i64> {
    if m.contains_key("file_id"@) {
        match m["file_id"@] {
            ValueView::Integer(i) => Some(i),
            _ => None,
        }
    } else {
        None
    }
}

/// The group that a stored chunk belongs to, if its payload names one.
pub open spec fn group_of(m: Map<Seq<char>, ValueView>) -> Option<Seq<char>> {
    if m.contains_key("group_key"@) {
        match m["group_key"@] {
            ValueView::Text(s) => Some(s),
            _ => None,
        }
    } else {
        None
    }
}

/// The files that the chunks belong to.
pub open spec fn files_among(chunks: Seq<Map<Seq<char>, ValueView>>) -> Set<i64>
    decreases chunks.len(),
{
    if chunks.len() == 0 {
        Set::empty()
    } else {
        match file_of(chunks.last()) {
            Some(f) => files_among(chunks.drop_last()).insert(f),
            None => files_among(chunks.drop_last()),
        }
    }
}

/// How many of the chunks belong to the group `g`.
pub open spec fn group_size(chunks: Seq<Map<Seq<char>, ValueView>>, g: Seq<char>) -> nat
    decreases chunks.len(),
{
    if chunks.len() == 0 {
        0
    } else if group_of(chunks.last()) == Some(g) {
        group_size(chunks.drop_last(), g) + 1
    } else {
        group_size(chunks.drop_last(), g)
    }
}

/// The groups that the chunks belong to, each once, in the order in which
/// they are first met.
pub open spec fn groups_among(chunks: Seq<Map<Seq<char>, ValueView>>) -> Seq<Seq<char>>
    decreases chunks.len(),
{
    if chunks.len() == 0 {
        Seq::empty()
    } else {
        let before = groups_among(chunks.drop_last());
        match group_of(chunks.last()) {
            Some(g) => if before.contains(g) {
                before
            } else {
                before.push(g)
            },
            None => before,
        }
    }
}

/// The payloads of the points of a page, in order.
pub open spec fn payloads_of<V>(points: Seq<RetrievedPoint<V>>) -> Seq<Map<Seq<char>, ValueView>> {
    Seq::new(points.len(), |i: int| points[i].payload@)
}

/// Whether `stats` are the statistics of the chunks: the number of chunks,
/// of distinct files and of distinct groups, and for each group, in the order
/// of first meeting, the number of its chunks.
pub open spec fn is_stats_of(
    stats: DocumentStatsResponse,
    chunks: Seq<Map<Seq<char>, ValueView>>,
) -> bool {
    &&& stats.total_chunks == chunks.len()
    &&& stats.total_files == files_among(chunks).len()
    &&& stats.total_groups == groups_among(chunks).len()
    &&& stats.chunks_by_group@.len() == groups_among(chunks).len()
    &&& forall|k: int|
        0 <= k < stats.chunks_by_group@.len() ==> {
            &&& (#[trigger] stats.chunks_by_group@[k]).group_key@ == groups_among(chunks)[k]
            &&& stats.chunks_by_group@[k].chunks == group_size(chunks, groups_among(chunks)[k])
        }
}

/// No group holds more chunks than there are.
pub proof fn lemma_group_size_bound(chunks: Seq<Map<Seq<char>, ValueView>>, g: Seq<char>)
    ensures
        group_size(chunks, g) <= chunks.len(),
    decreases chunks.len(),
{
    if chunks.len() > 0 {
        lemma_group_size_bound(chunks.drop_last(), g);
    }
}

/// A group is listed exactly when it holds a chunk.
pub proof fn lemma_listed_groups(chunks: Seq<Map<Seq<char>, ValueView>>, g: Seq<char>)
    ensures
        groups_among(chunks).contains(g) <==> group_size(chunks, g) > 0,
    decreases chunks.len(),
{
    if chunks.len() > 0 {
        let before = groups_among(chunks.drop_last());
        lemma_listed_groups(chunks.drop_last(), g);
        match group_of(chunks.last()) {
            Some(h) => {
                if !before.contains(h) {
                    let after = before.push(h);
                    assert(after[before.len() as int] == h);
                    if before.contains(g) {
                        let i = choose|i: int| 0 <= i < before.len() && before[i] == g;
                        assert(after[i] == g);
                    }
                }
            },
            None => {},
        }
    }
}

/// No group is listed twice.
pub proof fn lemma_groups_distinct(chunks: Seq<Map<Seq<char>, ValueView>>)
    ensures
        forall|i: int, j: int|
            0 <= i < j < groups_among(chunks).len() ==> groups_among(chunks)[i] != groups_among(
                chunks,
            )[j],
    decreases chunks.len(),
{
    if chunks.len() > 0 {
        let before = groups_among(chunks.drop_last());
        let all = groups_among(chunks);
        lemma_groups_distinct(chunks.drop_last());
        assert forall|i: int, j: int| 0 <= i < j < all.len() implies all[i] != all[j] by {
            if j < before.len() {
                assert(all[i] == before[i] && all[j] == before[j]);
            } else {
                assert(all[i] == before[i]);
                assert(!before.contains(all[j]));
            }
        }
    }
}

/// The files of the chunks are finitely many.
pub proof fn lemma_files_finite(chunks: Seq<Map<Seq<char>, ValueView>>)
    ensures
        files_among(chunks).finite(),
        files_among(chunks).len() <= chunks.len(),
    decreases chunks.len(),
{
    if chunks.len() > 0 {
        lemma_files_finite(chunks.drop_last());
    }
}

/// The running statistics of a scroll through the chunks of one owner.
pub struct DocumentStatsScan {
    total_chunks: u64,
    file_ids: HashSet<i64>,
    chunks_by_group: Vec<GroupCount>,
    seen: Ghost<Seq<Map<Seq<char>, ValueView>>>,
}

fn copy_point_ref(id: &PointRef) -> (copy: PointRef)
    ensures
        copy == *id,
{
    match id {
        PointRef::Num(n) => PointRef::Num(*n),
        PointRef::Uuid(u) => PointRef::Uuid(u.clone()),
    }
}

impl DocumentStatsScan {
    /// The payloads of the chunks counted so far, in the order counted.
    pub closed spec fn seen(&self) -> Seq<Map<Seq<char>, ValueView>> {
        self.seen@
    }

    /// The counts agree with the chunks counted so far.
    pub closed spec fn wf(&self) -> bool {
        &&& self.total_chunks == self.seen@.len()
        &&& self.file_ids@ == files_among(self.seen@)
        &&& self.chunks_by_group@.len() == groups_among(self.seen@).len()
        &&& forall|k: int|
            0 <= k < self.chunks_by_group@.len() ==> {
                &&& (#[trigger] self.chunks_by_group@[k]).group_key@ == groups_among(self.seen@)[k]
                &&& self.chunks_by_group@[k].chunks == group_size(
                    self.seen@,
                    groups_among(self.seen@)[k],
                )
            }
    }

    /// A scroll that has counted nothing yet.
    pub fn new() -> (scan: DocumentStatsScan)
        ensures
            scan.wf(),
            scan.seen() == Seq::<Map<Seq<char>, ValueView>>::empty(),
    {
        DocumentStatsScan {
            total_chunks: 0,
            file_ids: HashSet::new(),
            chunks_by_group: Vec::new(),
            seen: Ghost(Seq::empty()),
        }
    }

    /// The number of chunks counted so far.
    pub fn total_chunks(&self) -> (total: u64)
        requires
            self.wf(),
        ensures
            total == self.seen().len(),
    {
        self.total_chunks
    }

    /// Counts one chunk.
    fn count(&mut self, payload: &Payload)
        requires
            old(self).wf(),
            old(self).seen().len() < u64::MAX,
        ensures
            final(self).wf(),
            final(self).seen() == old(self).seen().push(payload@),
    {
        let ghost before = self.seen@;
        let ghost after = before.push(payload@);
        proof {
            assert(after.drop_last() =~= before);
            assert(after.last() == payload@);
        }
        self.total_chunks = self.total_chunks + 1;
        match payload.get_integer("file_id") {
            Some(file_id) => {
                self.file_ids.insert(file_id);
            },
            None => {},
        }
        match payload.get_str("group_key") {
            Some(group_key) => {
                let mut at: usize = 0;
                let mut found = false;
                while at < self.chunks_by_group.len()
                    invariant_except_break
                        !found,
                    invariant
                        at <= self.chunks_by_group@.len(),
                        forall|k: int|
                            0 <= k < at ==> (#[trigger] self.chunks_by_group@[k]).group_key@
                                != group_key@,
                    ensures
                        found ==> at < self.chunks_by_group@.len()
                            && self.chunks_by_group@[at as int].group_key@ == group_key@,
                        !found ==> forall|k: int|
                            0 <= k < self.chunks_by_group@.len() ==> (
                            #[trigger] self.chunks_by_group@[k]).group_key@ != group_key@,
                    decreases self.chunks_by_group@.len() - at,
                {
                    if str_eq(self.chunks_by_group[at].group_key.as_str(), group_key.as_str()) {
                        found = true;
                        break ;
                    }
                    at += 1;
                }
                let ghost listed = groups_among(before);
                proof {
                    lemma_groups_distinct(before);
                    lemma_group_size_bound(before, group_key@);
                    if !found {
                        assert(!listed.contains(group_key@)) by {
                            if listed.contains(group_key@) {
                                let i = choose|i: int|
                                    0 <= i < listed.len() && listed[i] == group_key@;
                                assert(self.chunks_by_group@[i].group_key@ == listed[i]);
                            }
                        }
                        lemma_listed_groups(before, group_key@);
                    } else {
                        assert(self.chunks_by_group@[at as int].group_key@ == listed[at as int]);
                        assert(listed.contains(group_key@));
                    }
                }
                if found {
                    let entry = &self.chunks_by_group[at];
                    let updated = GroupCount {
                        group_key: entry.group_key.clone(),
                        chunks: entry.chunks + 1,
                    };
                    self.chunks_by_group.set(at, updated);
                } else {
                    self.chunks_by_group.push(
                        GroupCount { group_key: group_key.clone(), chunks: 1 },
                    );
                }
                proof {
                    assert forall|k: int| 0 <= k < self.chunks_by_group@.len() implies {
                        &&& (#[trigger] self.chunks_by_group@[k]).group_key@ == groups_among(
                            after,
                        )[k]
                        &&& self.chunks_by_group@[k].chunks == group_size(
                            after,
                            groups_among(after)[k],
                        )
                    } by {
                        if k < listed.len() {
                            assert(old(self).chunks_by_group@[k].group_key@ == listed[k]);
                        }
                    }
                }
            },
            None => {
                proof {
                    assert forall|k: int| 0 <= k < self.chunks_by_group@.len() implies {
                        &&& (#[trigger] self.chunks_by_group@[k]).group_key@ == groups_among(
                            after,
                        )[k]
                        &&& self.chunks_by_group@[k].chunks == group_size(
                            after,
                            groups_among(after)[k],
                        )
                    } by {
                        assert(old(self).chunks_by_group@[k].group_key@ == groups_among(before)[k]);
                    }
                }
            },
        }
        self.seen = Ghost(after);
    }

    /// Counts the chunks of one page and says where the scroll goes on: at
    /// the page's continuation, or nowhere where the engine gave none or the
    /// page was empty.
    pub fn absorb<V>(&mut self, page: &ScrollPage<V>) -> (next: Option<PointRef>)
        requires
            old(self).wf(),
            old(self).seen().len() + page.points@.len() <= u64::MAX,
        ensures
            final(self).wf(),
            final(self).seen() == old(self).seen() + payloads_of(page.points@),
            next == if page.points@.len() > 0 {
                page.next_page_offset
            } else {
                None
            },
    {
        let mut i: usize = 0;
        while i < page.points.len()
            invariant
                i <= page.points@.len(),
                self.wf(),
                old(self).seen().len() + page.points@.len() <= u64::MAX,
                self.seen() == old(self).seen() + payloads_of(page.points@).take(i as int),
            decreases page.points@.len() - i,
        {
            self.count(&page.points[i].payload);
            proof {
                let all = payloads_of(page.points@);
                assert(all.take(i + 1) =~= all.take(i as int).push(all[i as int]));
                assert(self.seen() =~= old(self).seen() + all.take(i + 1));
            }
            i += 1;
        }
        proof {
            let all = payloads_of(page.points@);
            assert(all.take(all.len() as int) =~= all);
        }
        if page.points.len() == 0 {
            return None;
        }
        match &page.next_page_offset {
            Some(offset) => Some(copy_point_ref(offset)),
            None => None,
        }
    }

    /// The statistics of the chunks counted.
    pub fn finish(self) -> (stats: DocumentStatsResponse)
        requires
            self.wf(),
        ensures
            is_stats_of(stats, self.seen()),
    {
        proof {
            lemma_files_finite(self.seen@);
        }
        let total_files = self.file_ids.len() as u64;
        let total_groups = self.chunks_by_group.len() as u64;
        DocumentStatsResponse {
            total_chunks: self.total_chunks,
            total_files,
            total_groups,
            chunks_by_group: self.chunks_by_group,
        }
    }
}

} // verus!
