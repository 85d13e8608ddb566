//! What the store asks of the vector engine and what the engine answers,
//! as plain data. The store decides which request to make and what an answer
//! means; sending a request and awaiting its answer is the caller's part.

use crate::payload::Payload;
use crate::payload::ValueView;
use vstd::prelude::*;

verus! {

/// How the engine names a point: by number or by UUID.
#[derive(Debug, Clone, PartialEq, Eq)]
pub enum PointRef {
    Num(u64),
    Uuid(String),
}

/// The mathematical form of a point name.
pub ghost enum PointRefView {
    Num(u64),
    Uuid(Seq<char>),
}

impl View for PointRef {
    type V = PointRefView;

    open spec fn view(&self) -> PointRefView {
        match self {
            PointRef::Num(n) => PointRefView::Num(*n),
            PointRef::Uuid(u) => PointRefView::Uuid(u@),
        }
    }
}

/// The mathematical form of an optional point name.
pub open spec fn point_ref_view(id: Option<PointRef>) -> Option<PointRefView> {
    match id {
        Some(p) => Some(p@),
        None => None,
    }
}

/// The value that a payload field is compared with.
#[derive(Debug, Clone, PartialEq, Eq)]
pub enum MatchValue {
    /// A whole number to equal.
    Integer(i64),
    /// A truth value to equal.
    Bool(bool),
    /// A string to match. How the engine matches a string is the engine's
    /// affair: as a keyword to equal, or as text to find.
    Keyword(String),
}

/// The condition that a payload field equals a value.
#[derive(Debug, Clone, PartialEq, Eq)]
pub struct Condition {
    pub key: String,
    pub value: MatchValue,
}

/// The mathematical form of a condition: the field and the payload value
/// that it must hold.
pub ghost struct ConditionView {
    pub key: Seq<char>,
    pub value: ValueView,
}

impl View for Condition {
    type V = ConditionView;

    open spec fn view(&self) -> ConditionView {
        ConditionView {
            key: self.key@,
            value: match self.value {
                MatchValue::Integer(i) => ValueView::Integer(i),
                MatchValue::Bool(b) => ValueView::Bool(b),
                MatchValue::Keyword(s) => ValueView::Text(s@),
            },
        }
    }
}

/// A conjunction of conditions: a point passes where it meets every one.
#[derive(Debug, Clone, PartialEq, Eq)]
pub struct Filter {
    pub must: Vec<Condition>,
}

impl View for Filter {
    type V = Seq<ConditionView>;

    open spec fn view(&self) -> Seq<ConditionView> {
        Seq::new(self.must@.len(), |i: int| self.must@[i]@)
    }
}

/// Whether a payload meets one condition.
pub open spec fn meets(payload: Map<Seq<char>, ValueView>, c: ConditionView) -> bool {
    payload.contains_key(c.key) && payload[c.key] == c.value
}

/// Whether a payload passes a filter.
pub open spec fn passes(payload: Map<Seq<char>, ValueView>, filter: Seq<ConditionView>) -> bool {
    forall|i: int| 0 <= i < filter.len() ==> meets(payload, #[trigger] filter[i])
}

/// The condition that the whole-number field `key` equals `value`.
pub open spec fn integer_condition(key: Seq<char>, value: i64) -> ConditionView {
    ConditionView { key, value: ValueView::Integer(value) }
}

/// The condition that the boolean field `key` equals `value`.
pub open spec fn bool_condition(key: Seq<char>, value: bool) -> ConditionView {
    ConditionView { key, value: ValueView::Bool(value) }
}

/// The condition that the string field `key` equals `value`.
pub open spec fn keyword_condition(key: Seq<char>, value: Seq<char>) -> ConditionView {
    ConditionView { key, value: ValueView::Text(value) }
}

/// How the engine measures the likeness of two vectors.
#[derive(Debug, Clone, Copy, PartialEq, Eq)]
pub enum Distance {
    Cosine,
    Euclid,
    Dot,
    Manhattan,
}

/// The kind of a secondary index on a payload field.
#[derive(Debug, Clone, Copy, PartialEq, Eq)]
pub enum FieldType {
    Keyword,
    Integer,
}

/// A secondary index on one payload field.
#[derive(Debug, Clone, PartialEq, Eq)]
pub struct FieldIndex {
    pub field_name: String,
    pub field_type: FieldType,
}

/// Parameters of the engine's graph index.
#[derive(Debug, Clone, Copy, PartialEq, Eq)]
pub struct HnswConfig {
    pub m: u64,
    pub ef_construct: u64,
}

/// What a physical collection is created with.
#[derive(Debug, Clone, PartialEq, Eq)]
pub struct CollectionSpec {
    pub name: String,
    pub dimension: u64,
    pub distance: Distance,
    pub hnsw: Option<HnswConfig>,
    pub indexes: Vec<FieldIndex>,
}

/// A request to store one point, replacing the point of the same id.
#[derive(Debug)]
pub struct PointWrite<V> {
    pub collection: String,
    pub id: u64,
    pub vector: Vec<V>,
    pub payload: Payload,
}

/// A request to fetch one point by id.
#[derive(Debug)]
pub struct PointLookup {
    pub collection: String,
    pub id: u64,
    pub with_payload: bool,
    pub with_vectors: bool,
}

/// Which points a delete removes.
#[derive(Debug)]
pub enum PointSelector {
    /// The point of this id, if it exists.
    Id(u64),
    /// Every point that passes the filter.
    Matching(Filter),
}

/// A request to delete points.
#[derive(Debug)]
pub struct PointDelete {
    pub collection: String,
    pub selector: PointSelector,
}

/// A request for the points nearest to a vector among those that pass a
/// filter. The engine leaves out points that score below the threshold and
/// returns at most `limit` points, best first.
#[derive(Debug)]
pub struct SearchPoints<V> {
    pub collection: String,
    pub vector: Vec<V>,
    pub limit: u64,
    pub filter: Filter,
    pub score_threshold: V,
    pub with_payload: bool,
}

/// A request for one page of the points that pass a filter, in the engine's
/// own order, starting at `offset`.
#[derive(Debug)]
pub struct ScrollPoints {
    pub collection: String,
    pub filter: Filter,
    pub limit: u32,
    pub offset: Option<PointRef>,
    pub with_payload: bool,
    pub with_vectors: bool,
}

/// A request to set payload fields on every point that passes a filter. The
/// fields named are overwritten; other fields and the vector stay.
#[derive(Debug)]
pub struct PayloadPatch {
    pub collection: String,
    pub filter: Filter,
    pub payload: Payload,
}

/// A point as the engine returns it from a fetch or a scroll.
#[derive(Debug)]
pub struct RetrievedPoint<V> {
    pub id: Option<PointRef>,
    pub payload: Payload,
    pub vector: Option<Vec<V>>,
}

/// A point as the engine returns it from a search.
#[derive(Debug)]
pub struct ScoredPoint<V> {
    pub id: Option<PointRef>,
    pub payload: Payload,
    pub score: V,
}

/// One page of a scroll and where the next page begins, if there is one.
#[derive(Debug)]
pub struct ScrollPage<V> {
    pub points: Vec<RetrievedPoint<V>>,
    pub next_page_offset: Option<PointRef>,
}

/// What the engine says of a collection.
#[derive(Debug, Clone, Copy, PartialEq, Eq)]
pub struct CollectionDescription {
    pub status: i32,
    pub points_count: Option<u64>,
}

} // verus!
