//! The payload codec: records to payloads and back. An encoded payload
//! carries, beside the record's fields, the caller's identifier of the point
//! under a reserved name, so that it can be recovered on read.

use crate::error::AppError;
use crate::models::DocumentPayload;
use crate::models::DocumentRecord;
use crate::models::MemoryPayload;
use crate::models::MemoryRecord;
use crate::payload::Payload;
use crate::payload::PayloadValue;
use crate::payload::ValueView;
use crate::text::join2;
use crate::text::join3;
use vstd::prelude::*;
use vstd::string::*;

verus! {

/// Why a payload is not the encoding of a record.
#[derive(Debug, Clone, PartialEq, Eq)]
pub enum DecodeError {
    /// A required field is absent.
    MissingField(String),
    /// A field holds a value of the wrong kind.
    WrongType(String),
    /// A field holds a number too large or too small for it.
    OutOfRange(String),
}

/// The mathematical form of a decoding error.
pub ghost enum DecodeFailure {
    Missing(Seq<char>),
    Mistyped(Seq<char>),
    OutOfRange(Seq<char>),
}

impl View for DecodeError {
    type V = DecodeFailure;

    open spec fn view(&self) -> DecodeFailure {
        match self {
            DecodeError::MissingField(k) => DecodeFailure::Missing(k@),
            DecodeError::WrongType(k) => DecodeFailure::Mistyped(k@),
            DecodeError::OutOfRange(k) => DecodeFailure::OutOfRange(k@),
        }
    }
}

/// The words for a decoding error.
pub open spec fn failure_text(f: DecodeFailure) -> Seq<char> {
    match f {
        DecodeFailure::Missing(k) => "missing field `"@ + k + "`"@,
        DecodeFailure::Mistyped(k) => "invalid type for field `"@ + k + "`"@,
        DecodeFailure::OutOfRange(k) => "value out of range for field `"@ + k + "`"@,
    }
}

/// The internal error that a payload which does not decode is surfaced as.
pub open spec fn decode_error(f: DecodeFailure) -> crate::error::ErrorView {
    crate::error::ErrorView::Internal("Failed to deserialize payload: "@ + failure_text(f))
}

impl DecodeError {
    /// The words for the error.
    pub fn describe(&self) -> (text: String)
        ensures
            text@ == failure_text(self@),
    {
        match self {
            DecodeError::MissingField(k) => join3("missing field `", k.as_str(), "`"),
            DecodeError::WrongType(k) => join3("invalid type for field `", k.as_str(), "`"),
            DecodeError::OutOfRange(k) => join3(
                "value out of range for field `",
                k.as_str(),
                "`",
            ),
        }
    }

    /// The error as the store surfaces it: internal, never dropped and never
    /// mended with a default.
    pub fn into_app_error(self) -> (e: AppError)
        ensures
            e@ == decode_error(self@),
    {
        let text = self.describe();
        AppError::Internal(join2("Failed to deserialize payload: ", text.as_str()))
    }
}

/// The required whole number `key` of a payload.
pub open spec fn integer_field(m: Map<Seq<char>, ValueView>, key: Seq<char>) -> Result<
    i64,
    DecodeFailure,
> {
    if !m.contains_key(key) {
        Err(DecodeFailure::Missing(key))
    } else {
        match m[key] {
            ValueView::Integer(i) => Ok(i),
            _ => Err(DecodeFailure::Mistyped(key)),
        }
    }
}

/// The required 32-bit number `key` of a payload.
pub open spec fn small_integer_field(m: Map<Seq<char>, ValueView>, key: Seq<char>) -> Result<
    i32,
    DecodeFailure,
> {
    match integer_field(m, key) {
        Err(f) => Err(f),
        Ok(i) => if i32::MIN <= i && i <= i32::MAX {
            Ok(i as i32)
        } else {
            Err(DecodeFailure::OutOfRange(key))
        },
    }
}

/// The optional whole number `key` of a payload: absent and null both mean
/// none.
pub open spec fn optional_integer_field(m: Map<Seq<char>, ValueView>, key: Seq<char>) -> Result<
    Option<i64>,
    DecodeFailure,
> {
    if !m.contains_key(key) {
        Ok(None)
    } else {
        match m[key] {
            ValueView::Integer(i) => Ok(Some(i)),
            ValueView::Null => Ok(None),
            _ => Err(DecodeFailure::Mistyped(key)),
        }
    }
}

/// The required string `key` of a payload.
pub open spec fn text_field(m: Map<Seq<char>, ValueView>, key: Seq<char>) -> Result<
    Seq<char>,
    DecodeFailure,
> {
    if !m.contains_key(key) {
        Err(DecodeFailure::Missing(key))
    } else {
        match m[key] {
            ValueView::Text(s) => Ok(s),
            _ => Err(DecodeFailure::Mistyped(key)),
        }
    }
}

/// The required boolean `key` of a payload.
pub open spec fn bool_field(m: Map<Seq<char>, ValueView>, key: Seq<char>) -> Result<
    bool,
    DecodeFailure,
> {
    if !m.contains_key(key) {
        Err(DecodeFailure::Missing(key))
    } else {
        match m[key] {
            ValueView::Bool(b) => Ok(b),
            _ => Err(DecodeFailure::Mistyped(key)),
        }
    }
}

/// The payload that encodes a memory record stored under the identifier
/// `id`. An absent message reference is left out.
pub open spec fn encoded_memory(r: MemoryRecord, id: Seq<char>) -> Map<Seq<char>, ValueView> {
    let fixed = Map::<Seq<char>, ValueView>::empty().insert(
        "user_id"@,
        ValueView::Integer(r.user_id),
    ).insert("category"@, ValueView::Text(r.category)).insert(
        "key"@,
        ValueView::Text(r.key),
    ).insert("value"@, ValueView::Text(r.value)).insert("source"@, ValueView::Text(r.source)).insert(
        "created"@,
        ValueView::Integer(r.created),
    ).insert("updated"@, ValueView::Integer(r.updated)).insert(
        "active"@,
        ValueView::Bool(r.active),
    );
    let with_message = match r.message_id {
        Some(m) => fixed.insert("message_id"@, ValueView::Integer(m)),
        None => fixed,
    };
    with_message.insert("_point_id"@, ValueView::Text(id))
}

/// The memory record that a payload encodes, or why it encodes none. The
/// fields are read in the order of the record; the first that fails decides
/// the error. Fields that the record does not have are ignored.
pub open spec fn decoded_memory(m: Map<Seq<char>, ValueView>) -> Result<
    MemoryRecord,
    DecodeFailure,
> {
    match integer_field(m, "user_id"@) {
        Err(f) => Err(f),
        Ok(user_id) => match text_field(m, "category"@) {
            Err(f) => Err(f),
            Ok(category) => match text_field(m, "key"@) {
                Err(f) => Err(f),
                Ok(key) => match text_field(m, "value"@) {
                    Err(f) => Err(f),
                    Ok(value) => match text_field(m, "source"@) {
                        Err(f) => Err(f),
                        Ok(source) => match optional_integer_field(m, "message_id"@) {
                            Err(f) => Err(f),
                            Ok(message_id) => match integer_field(m, "created"@) {
                                Err(f) => Err(f),
                                Ok(created) => match integer_field(m, "updated"@) {
                                    Err(f) => Err(f),
                                    Ok(updated) => match bool_field(m, "active"@) {
                                        Err(f) => Err(f),
                                        Ok(active) => Ok(
                                            MemoryRecord {
                                                user_id,
                                                category,
                                                key,
                                                value,
                                                source,
                                                message_id,
                                                created,
                                                updated,
                                                active,
                                            },
                                        ),
                                    },
                                },
                            },
                        },
                    },
                },
            },
        },
    }
}

/// The payload that encodes a document chunk stored under the identifier
/// `id`.
pub open spec fn encoded_document(r: DocumentRecord, id: Seq<char>) -> Map<Seq<char>, ValueView> {
    Map::<Seq<char>, ValueView>::empty().insert("user_id"@, ValueView::Integer(r.user_id)).insert(
        "file_id"@,
        ValueView::Integer(r.file_id),
    ).insert("group_key"@, ValueView::Text(r.group_key)).insert(
        "file_type"@,
        ValueView::Integer(r.file_type as i64),
    ).insert("chunk_index"@, ValueView::Integer(r.chunk_index as i64)).insert(
        "start_line"@,
        ValueView::Integer(r.start_line as i64),
    ).insert("end_line"@, ValueView::Integer(r.end_line as i64)).insert(
        "text"@,
        ValueView::Text(r.text),
    ).insert("created"@, ValueView::Integer(r.created)).insert("_point_id"@, ValueView::Text(id))
}

/// The document chunk that a payload encodes, or why it encodes none. The
/// fields are read in the order of the record; the first that fails decides
/// the error.
pub open spec fn decoded_document(m: Map<Seq<char>, ValueView>) -> Result<
    DocumentRecord,
    DecodeFailure,
> {
    match integer_field(m, "user_id"@) {
        Err(f) => Err(f),
        Ok(user_id) => match integer_field(m, "file_id"@) {
            Err(f) => Err(f),
            Ok(file_id) => match text_field(m, "group_key"@) {
                Err(f) => Err(f),
                Ok(group_key) => match small_integer_field(m, "file_type"@) {
                    Err(f) => Err(f),
                    Ok(file_type) => match small_integer_field(m, "chunk_index"@) {
                        Err(f) => Err(f),
                        Ok(chunk_index) => match small_integer_field(m, "start_line"@) {
                            Err(f) => Err(f),
                            Ok(start_line) => match small_integer_field(m, "end_line"@) {
                                Err(f) => Err(f),
                                Ok(end_line) => match text_field(m, "text"@) {
                                    Err(f) => Err(f),
                                    Ok(text) => match integer_field(m, "created"@) {
                                        Err(f) => Err(f),
                                        Ok(created) => Ok(
                                            DocumentRecord {
                                                user_id,
                                                file_id,
                                                group_key,
                                                file_type,
                                                chunk_index,
                                                start_line,
                                                end_line,
                                                text,
                                                created,
                                            },
                                        ),
                                    },
                                },
                            },
                        },
                    },
                },
            },
        },
    }
}

/// The caller's identifier that a payload carries, if it carries one.
pub open spec fn embedded_point_id(m: Map<Seq<char>, ValueView>) -> Option<Seq<char>> {
    if m.contains_key("_point_id"@) {
        match m["_point_id"@] {
            ValueView::Text(s) => Some(s),
            _ => None,
        }
    } else {
        None
    }
}

/// The field names of the two records and the reserved name differ from one
/// another wherever two of them stand in one payload.
proof fn lemma_field_names()
    ensures
        "user_id"@ != "category"@,
        "user_id"@ != "key"@,
        "user_id"@ != "value"@,
        "user_id"@ != "source"@,
        "user_id"@ != "message_id"@,
        "user_id"@ != "created"@,
        "user_id"@ != "updated"@,
        "user_id"@ != "active"@,
        "user_id"@ != "_point_id"@,
        "category"@ != "key"@,
        "category"@ != "value"@,
        "category"@ != "source"@,
        "category"@ != "message_id"@,
        "category"@ != "created"@,
        "category"@ != "updated"@,
        "category"@ != "active"@,
        "category"@ != "_point_id"@,
        "key"@ != "value"@,
        "key"@ != "source"@,
        "key"@ != "message_id"@,
        "key"@ != "created"@,
        "key"@ != "updated"@,
        "key"@ != "active"@,
        "key"@ != "_point_id"@,
        "value"@ != "source"@,
        "value"@ != "message_id"@,
        "value"@ != "created"@,
        "value"@ != "updated"@,
        "value"@ != "active"@,
        "value"@ != "_point_id"@,
        "source"@ != "message_id"@,
        "source"@ != "created"@,
        "source"@ != "updated"@,
        "source"@ != "active"@,
        "source"@ != "_point_id"@,
        "message_id"@ != "created"@,
        "message_id"@ != "updated"@,
        "message_id"@ != "active"@,
        "message_id"@ != "_point_id"@,
        "created"@ != "updated"@,
        "created"@ != "active"@,
        "created"@ != "_point_id"@,
        "updated"@ != "active"@,
        "updated"@ != "_point_id"@,
        "active"@ != "_point_id"@,
        "user_id"@ != "file_id"@,
        "user_id"@ != "group_key"@,
        "user_id"@ != "file_type"@,
        "user_id"@ != "chunk_index"@,
        "user_id"@ != "start_line"@,
        "user_id"@ != "end_line"@,
        "user_id"@ != "text"@,
        "file_id"@ != "group_key"@,
        "file_id"@ != "file_type"@,
        "file_id"@ != "chunk_index"@,
        "file_id"@ != "start_line"@,
        "file_id"@ != "end_line"@,
        "file_id"@ != "text"@,
        "file_id"@ != "created"@,
        "file_id"@ != "_point_id"@,
        "group_key"@ != "file_type"@,
        "group_key"@ != "chunk_index"@,
        "group_key"@ != "start_line"@,
        "group_key"@ != "end_line"@,
        "group_key"@ != "text"@,
        "group_key"@ != "created"@,
        "group_key"@ != "_point_id"@,
        "file_type"@ != "chunk_index"@,
        "file_type"@ != "start_line"@,
        "file_type"@ != "end_line"@,
        "file_type"@ != "text"@,
        "file_type"@ != "created"@,
        "file_type"@ != "_point_id"@,
        "chunk_index"@ != "start_line"@,
        "chunk_index"@ != "end_line"@,
        "chunk_index"@ != "text"@,
        "chunk_index"@ != "created"@,
        "chunk_index"@ != "_point_id"@,
        "start_line"@ != "end_line"@,
        "start_line"@ != "text"@,
        "start_line"@ != "created"@,
        "start_line"@ != "_point_id"@,
        "end_line"@ != "text"@,
        "end_line"@ != "created"@,
        "end_line"@ != "_point_id"@,
        "text"@ != "created"@,
        "text"@ != "_point_id"@,
{
    reveal_strlit("user_id");
    reveal_strlit("category");
    reveal_strlit("key");
    reveal_strlit("value");
    reveal_strlit("source");
    reveal_strlit("message_id");
    reveal_strlit("created");
    reveal_strlit("updated");
    reveal_strlit("active");
    reveal_strlit("_point_id");
    reveal_strlit("file_id");
    reveal_strlit("group_key");
    reveal_strlit("file_type");
    reveal_strlit("chunk_index");
    reveal_strlit("start_line");
    reveal_strlit("end_line");
    reveal_strlit("text");
    assert("user_id"@.len() == 7);
    assert("category"@.len() == 8);
    assert("key"@.len() == 3);
    assert("value"@.len() == 5);
    assert("source"@.len() == 6);
    assert("message_id"@.len() == 10);
    assert("created"@.len() == 7);
    assert("updated"@.len() == 7);
    assert("active"@.len() == 6);
    assert("_point_id"@.len() == 9);
    assert("file_id"@.len() == 7);
    assert("group_key"@.len() == 9);
    assert("file_type"@.len() == 9);
    assert("chunk_index"@.len() == 11);
    assert("start_line"@.len() == 10);
    assert("end_line"@.len() == 8);
    assert("text"@.len() == 4);
    assert("user_id"@[0] != "created"@[0]);
    assert("user_id"@[1] != "updated"@[1]);
    assert("created"@[0] != "updated"@[0]);
    assert("source"@[0] != "active"@[0]);
    assert("user_id"@[0] != "file_id"@[0]);
    assert("file_id"@[0] != "created"@[0]);
    assert("group_key"@[0] != "file_type"@[0]);
    assert("group_key"@[0] != "_point_id"@[0]);
    assert("file_type"@[0] != "_point_id"@[0]);
    assert("category"@[0] != "end_line"@[0]);
}

/// Decoding what was encoded gives the record back, and the payload carries
/// the identifier it was encoded with: for every memory record and every
/// identifier.
pub proof fn lemma_memory_round_trip(r: MemoryRecord, id: Seq<char>)
    ensures
        decoded_memory(encoded_memory(r, id)) == Ok::<MemoryRecord, DecodeFailure>(r),
        embedded_point_id(encoded_memory(r, id)) == Some(id),
{
    lemma_field_names();
}

/// Decoding what was encoded gives the record back, and the payload carries
/// the identifier it was encoded with: for every document chunk and every
/// identifier.
pub proof fn lemma_document_round_trip(r: DocumentRecord, id: Seq<char>)
    ensures
        decoded_document(encoded_document(r, id)) == Ok::<DocumentRecord, DecodeFailure>(r),
        embedded_point_id(encoded_document(r, id)) == Some(id),
{
    lemma_field_names();
}

fn read_integer(payload: &Payload, key: &str) -> (r: Result<i64, DecodeError>)
    ensures
        match r {
            Ok(i) => integer_field(payload@, key@) == Ok::<i64, DecodeFailure>(i),
            Err(e) => integer_field(payload@, key@) == Err::<i64, DecodeFailure>(e@),
        },
{
    match payload.get(key) {
        None => Err(DecodeError::MissingField(String::from_str(key))),
        Some(PayloadValue::Integer(i)) => Ok(*i),
        Some(_) => Err(DecodeError::WrongType(String::from_str(key))),
    }
}

fn read_small_integer(payload: &Payload, key: &str) -> (r: Result<i32, DecodeError>)
    ensures
        match r {
            Ok(i) => small_integer_field(payload@, key@) == Ok::<i32, DecodeFailure>(i),
            Err(e) => small_integer_field(payload@, key@) == Err::<i32, DecodeFailure>(e@),
        },
{
    let wide = read_integer(payload, key)?;
    if wide >= -2147483648 && wide <= 2147483647 {
        Ok(wide as i32)
    } else {
        Err(DecodeError::OutOfRange(String::from_str(key)))
    }
}

fn read_optional_integer(payload: &Payload, key: &str) -> (r: Result<Option<i64>, DecodeError>)
    ensures
        match r {
            Ok(i) => optional_integer_field(payload@, key@) == Ok::<Option<i64>, DecodeFailure>(i),
            Err(e) => optional_integer_field(payload@, key@) == Err::<Option<i64>, DecodeFailure>(
                e@,
            ),
        },
{
    match payload.get(key) {
        None => Ok(None),
        Some(PayloadValue::Integer(i)) => Ok(Some(*i)),
        Some(PayloadValue::Null) => Ok(None),
        Some(_) => Err(DecodeError::WrongType(String::from_str(key))),
    }
}

fn read_text(payload: &Payload, key: &str) -> (r: Result<String, DecodeError>)
    ensures
        match r {
            Ok(s) => text_field(payload@, key@) == Ok::<Seq<char>, DecodeFailure>(s@),
            Err(e) => text_field(payload@, key@) == Err::<Seq<char>, DecodeFailure>(e@),
        },
{
    match payload.get(key) {
        None => Err(DecodeError::MissingField(String::from_str(key))),
        Some(PayloadValue::Text(s)) => Ok(s.clone()),
        Some(_) => Err(DecodeError::WrongType(String::from_str(key))),
    }
}

fn read_bool(payload: &Payload, key: &str) -> (r: Result<bool, DecodeError>)
    ensures
        match r {
            Ok(b) => bool_field(payload@, key@) == Ok::<bool, DecodeFailure>(b),
            Err(e) => bool_field(payload@, key@) == Err::<bool, DecodeFailure>(e@),
        },
{
    match payload.get(key) {
        None => Err(DecodeError::MissingField(String::from_str(key))),
        Some(PayloadValue::Bool(b)) => Ok(*b),
        Some(_) => Err(DecodeError::WrongType(String::from_str(key))),
    }
}

/// Encodes a memory record for storage under the identifier `point_id`.
pub fn encode_memory(record: &MemoryPayload, point_id: &str) -> (payload: Payload)
    ensures
        payload@ == encoded_memory(record@, point_id@),
{
    let mut payload = Payload::new();
    payload.insert(String::from_str("user_id"), PayloadValue::Integer(record.user_id));
    payload.insert(String::from_str("category"), PayloadValue::Text(record.category.clone()));
    payload.insert(String::from_str("key"), PayloadValue::Text(record.key.clone()));
    payload.insert(String::from_str("value"), PayloadValue::Text(record.value.clone()));
    payload.insert(String::from_str("source"), PayloadValue::Text(record.source.clone()));
    payload.insert(String::from_str("created"), PayloadValue::Integer(record.created));
    payload.insert(String::from_str("updated"), PayloadValue::Integer(record.updated));
    payload.insert(String::from_str("active"), PayloadValue::Bool(record.active));
    match record.message_id {
        Some(m) => {
            payload.insert(String::from_str("message_id"), PayloadValue::Integer(m));
        },
        None => {},
    }
    payload.insert(String::from_str("_point_id"), PayloadValue::Text(String::from_str(point_id)));
    payload
}

/// Decodes a memory record. Fails exactly where a required field is absent
/// or a field holds a value of the wrong kind, and says which field.
pub fn decode_memory(payload: &Payload) -> (r: Result<MemoryPayload, DecodeError>)
    ensures
        match r {
            Ok(record) => decoded_memory(payload@) == Ok::<MemoryRecord, DecodeFailure>(record@),
            Err(e) => decoded_memory(payload@) == Err::<MemoryRecord, DecodeFailure>(e@),
        },
{
    let user_id = read_integer(payload, "user_id")?;
    let category = read_text(payload, "category")?;
    let key = read_text(payload, "key")?;
    let value = read_text(payload, "value")?;
    let source = read_text(payload, "source")?;
    let message_id = read_optional_integer(payload, "message_id")?;
    let created = read_integer(payload, "created")?;
    let updated = read_integer(payload, "updated")?;
    let active = read_bool(payload, "active")?;
    Ok(MemoryPayload { user_id, category, key, value, source, message_id, created, updated, active })
}

/// Encodes a document chunk for storage under the identifier `point_id`.
pub fn encode_document(record: &DocumentPayload, point_id: &str) -> (payload: Payload)
    ensures
        payload@ == encoded_document(record@, point_id@),
{
    let mut payload = Payload::new();
    payload.insert(String::from_str("user_id"), PayloadValue::Integer(record.user_id));
    payload.insert(String::from_str("file_id"), PayloadValue::Integer(record.file_id));
    payload.insert(String::from_str("group_key"), PayloadValue::Text(record.group_key.clone()));
    payload.insert(String::from_str("file_type"), PayloadValue::Integer(record.file_type as i64));
    payload.insert(
        String::from_str("chunk_index"),
        PayloadValue::Integer(record.chunk_index as i64),
    );
    payload.insert(String::from_str("start_line"), PayloadValue::Integer(record.start_line as i64));
    payload.insert(String::from_str("end_line"), PayloadValue::Integer(record.end_line as i64));
    payload.insert(String::from_str("text"), PayloadValue::Text(record.text.clone()));
    payload.insert(String::from_str("created"), PayloadValue::Integer(record.created));
    payload.insert(String::from_str("_point_id"), PayloadValue::Text(String::from_str(point_id)));
    payload
}

/// Decodes a document chunk. Fails exactly where a required field is absent,
/// a field holds a value of the wrong kind or a number does not fit its
/// field, and says which field.
pub fn decode_document(payload: &Payload) -> (r: Result<DocumentPayload, DecodeError>)
    ensures
        match r {
            Ok(record) => decoded_document(payload@) == Ok::<DocumentRecord, DecodeFailure>(
                record@,
            ),
            Err(e) => decoded_document(payload@) == Err::<DocumentRecord, DecodeFailure>(e@),
        },
{
    let user_id = read_integer(payload, "user_id")?;
    let file_id = read_integer(payload, "file_id")?;
    let group_key = read_text(payload, "group_key")?;
    let file_type = read_small_integer(payload, "file_type")?;
    let chunk_index = read_small_integer(payload, "chunk_index")?;
    let start_line = read_small_integer(payload, "start_line")?;
    let end_line = read_small_integer(payload, "end_line")?;
    let text = read_text(payload, "text")?;
    let created = read_integer(payload, "created")?;
    Ok(
        DocumentPayload {
            user_id,
            file_id,
            group_key,
            file_type,
            chunk_index,
            start_line,
            end_line,
            text,
            created,
        },
    )
}

/// The caller's identifier that a payload carries, if it carries one.
pub fn original_point_id(payload: &Payload) -> (id: Option<String>)
    ensures
        match id {
            Some(s) => embedded_point_id(payload@) == Some(s@),
            None => embedded_point_id(payload@) is None,
        },
{
    match payload.get_str("_point_id") {
        Some(s) => Some(s.clone()),
        None => None,
    }
}

} // verus!
