//! The structured payload stored beside a vector: a map from field names to
//! values. The engine keeps it as a JSON-like object; here it is modelled by
//! the kinds of value that the records of this crate use, and one more kind
//! for everything else.

use crate::text::str_eq;
use vstd::prelude::*;

verus! {

/// One payload value.
#[derive(Debug, Clone, PartialEq, Eq)]
pub enum PayloadValue {
    /// An explicit null.
    Null,
    /// A boolean.
    Bool(bool),
    /// A whole number.
    Integer(i64),
    /// A string.
    Text(String),
    /// A value of a kind that no record of this crate reads: a fractional
    /// number, a list or a nested object.
    Other,
}

/// The mathematical form of a payload value.
pub ghost enum ValueView {
    Null,
    Bool(bool),
    Integer(i64),
    Text(Seq<char>),
    Other,
}

impl View for PayloadValue {
    type V = ValueView;

    open spec fn view(&self) -> ValueView {
        match self {
            PayloadValue::Null => ValueView::Null,
            PayloadValue::Bool(b) => ValueView::Bool(*b),
            PayloadValue::Integer(i) => ValueView::Integer(*i),
            PayloadValue::Text(s) => ValueView::Text(s@),
            PayloadValue::Other => ValueView::Other,
        }
    }
}

/// A field of a payload: its name and its value.
#[derive(Debug, Clone, PartialEq, Eq)]
pub struct PayloadField {
    pub key: String,
    pub value: PayloadValue,
}

/// The map that a list of fields stands for. Where a name occurs twice, the
/// earlier field counts.
pub open spec fn fields_map(fields: Seq<PayloadField>) -> Map<Seq<char>, ValueView>
    decreases fields.len(),
{
    if fields.len() == 0 {
        Map::empty()
    } else {
        fields_map(fields.drop_first()).insert(fields[0].key@, fields[0].value@)
    }
}

/// A payload: the fields of one stored point.
#[derive(Debug, Clone, PartialEq, Eq)]
pub struct Payload {
    fields: Vec<PayloadField>,
}

impl View for Payload {
    type V = Map<Seq<char>, ValueView>;

    closed spec fn view(&self) -> Map<Seq<char>, ValueView> {
        fields_map(self.fields@)
    }
}

/// A key that no field before `upto` carries is looked up in the rest.
proof fn lemma_skip_absent(fields: Seq<PayloadField>, key: Seq<char>, upto: int)
    requires
        0 <= upto <= fields.len(),
        forall|j: int| 0 <= j < upto ==> fields[j].key@ != key,
    ensures
        fields_map(fields).contains_key(key) == fields_map(fields.skip(upto)).contains_key(key),
        fields_map(fields).contains_key(key) ==> fields_map(fields)[key] == fields_map(
            fields.skip(upto),
        )[key],
    decreases upto,
{
    if upto == 0 {
        assert(fields.skip(0) =~= fields);
    } else {
        let rest = fields.drop_first();
        assert forall|j: int| 0 <= j < upto - 1 implies rest[j].key@ != key by {
            assert(rest[j] == fields[j + 1]);
        }
        lemma_skip_absent(rest, key, upto - 1);
        assert(rest.skip(upto - 1) =~= fields.skip(upto));
    }
}

/// Replacing the value of the field at `at`, the first to carry its key,
/// updates the map at that key alone.
proof fn lemma_replace(fields: Seq<PayloadField>, at: int, field: PayloadField)
    requires
        0 <= at < fields.len(),
        fields[at].key@ == field.key@,
        forall|j: int| 0 <= j < at ==> fields[j].key@ != field.key@,
    ensures
        fields_map(fields.update(at, field)) == fields_map(fields).insert(field.key@, field.value@),
    decreases at,
{
    let updated = fields.update(at, field);
    if at == 0 {
        assert(updated.drop_first() =~= fields.drop_first());
        assert(fields_map(updated) =~= fields_map(fields).insert(field.key@, field.value@));
    } else {
        lemma_replace(fields.drop_first(), at - 1, field);
        assert(updated.drop_first() =~= fields.drop_first().update(at - 1, field));
        assert(fields_map(updated) =~= fields_map(fields).insert(field.key@, field.value@));
    }
}

/// Appending a field whose key no field carries adds that key to the map.
proof fn lemma_append(fields: Seq<PayloadField>, field: PayloadField)
    requires
        forall|j: int| 0 <= j < fields.len() ==> fields[j].key@ != field.key@,
    ensures
        fields_map(fields.push(field)) == fields_map(fields).insert(field.key@, field.value@),
    decreases fields.len(),
{
    let pushed = fields.push(field);
    if fields.len() == 0 {
        assert(pushed.drop_first() =~= fields);
        assert(fields_map(pushed) =~= fields_map(fields).insert(field.key@, field.value@));
    } else {
        let rest = fields.drop_first();
        assert forall|j: int| 0 <= j < rest.len() implies rest[j].key@ != field.key@ by {
            assert(rest[j] == fields[j + 1]);
        }
        lemma_append(rest, field);
        assert(pushed.drop_first() =~= rest.push(field));
        assert(fields_map(pushed) =~= fields_map(fields).insert(field.key@, field.value@));
    }
}

impl Payload {
    /// The payload without fields.
    pub fn new() -> (payload: Payload)
        ensures
            payload@ == Map::<Seq<char>, ValueView>::empty(),
    {
        Payload { fields: Vec::new() }
    }

    /// The position of the first field called `key`, if there is one.
    fn position(&self, key: &str) -> (at: Option<usize>)
        ensures
            match at {
                Some(i) => {
                    &&& i < self.fields@.len()
                    &&& self.fields@[i as int].key@ == key@
                    &&& forall|j: int| 0 <= j < i ==> self.fields@[j].key@ != key@
                },
                None => forall|j: int| 0 <= j < self.fields@.len() ==> self.fields@[j].key@ != key@,
            },
    {
        let mut i: usize = 0;
        while i < self.fields.len()
            invariant
                i <= self.fields@.len(),
                forall|j: int| 0 <= j < i ==> self.fields@[j].key@ != key@,
            decreases self.fields@.len() - i,
        {
            if str_eq(self.fields[i].key.as_str(), key) {
                return Some(i);
            }
            i += 1;
        }
        None
    }

    /// Sets the field `key` to `value`, replacing the value it had, if any.
    /// No other field changes.
    pub fn insert(&mut self, key: String, value: PayloadValue)
        ensures
            final(self)@ == old(self)@.insert(key@, value@),
    {
        let at = self.position(key.as_str());
        let field = PayloadField { key, value };
        match at {
            Some(i) => {
                proof {
                    lemma_replace(self.fields@, i as int, field);
                }
                self.fields.set(i, field);
            },
            None => {
                proof {
                    lemma_append(self.fields@, field);
                }
                self.fields.push(field);
            },
        }
    }

    /// The value of the field `key`, if the payload has that field.
    pub fn get(&self, key: &str) -> (value: Option<&PayloadValue>)
        ensures
            match value {
                Some(v) => self@.contains_key(key@) && self@[key@] == v@,
                None => !self@.contains_key(key@),
            },
    {
        match self.position(key) {
            Some(i) => {
                proof {
                    lemma_skip_absent(self.fields@, key@, i as int);
                }
                Some(&self.fields[i].value)
            },
            None => {
                proof {
                    lemma_skip_absent(self.fields@, key@, self.fields@.len() as int);
                }
                None
            },
        }
    }

    /// The text of the field `key`, if the payload has that field and it
    /// holds a string.
    pub fn get_str(&self, key: &str) -> (text: Option<&String>)
        ensures
            match text {
                Some(s) => self@.contains_key(key@) && self@[key@] == ValueView::Text(s@),
                None => !(self@.contains_key(key@) && self@[key@] is Text),
            },
    {
        match self.get(key) {
            Some(PayloadValue::Text(s)) => Some(s),
            _ => None,
        }
    }

    /// The number of the field `key`, if the payload has that field and it
    /// holds a whole number.
    pub fn get_integer(&self, key: &str) -> (number: Option<i64>)
        ensures
            match number {
                Some(i) => self@.contains_key(key@) && self@[key@] == ValueView::Integer(i),
                None => !(self@.contains_key(key@) && self@[key@] is Integer),
            },
    {
        match self.get(key) {
            Some(PayloadValue::Integer(i)) => Some(*i),
            _ => None,
        }
    }

    /// The fields as a list. The list stands for the payload as `fields_map`
    /// says: where it holds a name twice, the earlier field counts.
    pub fn entries(&self) -> (fields: &Vec<PayloadField>)
        ensures
            fields_map(fields@) == self@,
    {
        &self.fields
    }
}

} // verus!
