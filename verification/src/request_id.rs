//! Request identifiers for tracing a request across services. A request
//! that brings an identifier keeps it; one that brings none is given a fresh
//! random one.

use vstd::prelude::*;
use vstd::string::*;

verus! {

/// Whether a text has the shape of a random UUID in its usual writing: 36
/// characters in groups of 8, 4, 4, 4 and 12 with hyphens between, the third
/// group beginning with the version, 4.
pub open spec fn is_random_uuid_text(id: Seq<char>) -> bool {
    &&& id.len() == 36
    &&& id[8] == '-'
    &&& id[13] == '-'
    &&& id[18] == '-'
    &&& id[23] == '-'
    &&& id[14] == '4'
}

/// `Uuid::new_v4` of the uuid crate, written out by its `Display`: a random
/// UUID of version 4 in lower-case hyphenated form. Which UUID it is, is
/// chance: two calls give two identifiers.
#[verifier::external_body]
fn fresh_request_id() -> (id: String)
    ensures
        is_random_uuid_text(id@),
{
    uuid::Uuid::new_v4().to_string()
}

/// The identifier of a request: the one that the request sent, as sent, or
/// a fresh random UUID where it sent none.
pub fn request_id_middleware(sent: Option<&str>) -> (id: String)
    ensures
        match sent {
            Some(s) => id@ == s@,
            None => is_random_uuid_text(id@),
        },
{
    match sent {
        Some(s) => String::from_str(s),
        None => fresh_request_id(),
    }
}

} // verus!
