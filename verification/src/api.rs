//! Creating short links.

use crate::allocator::{allocate, AllocationError};
use crate::id::is_code;
use crate::storage::Storage;
use crate::structs::{CreateShortUrl, ShortUrlCreated};
use vstd::prelude::*;

verus! {

/// The status of an answer that carries a new code.
pub const CREATED: u16 = 201;

/// The status of an answer to a request that could not be served.
pub const INTERNAL_SERVER_ERROR: u16 = 500;

/// The answer to a request for a new short link.
pub struct CreateResponse {
    pub status: u16,
    /// The allocated code, where one was allocated.
    pub body: Option<ShortUrlCreated>,
}

/// The answer for the outcome of an allocation: the code with status
/// `CREATED`, or `INTERNAL_SERVER_ERROR` where the codes were exhausted or the
/// backend failed.
pub fn create_response(allocated: Result<String, AllocationError>) -> (response: CreateResponse)
    ensures
        match allocated {
            Ok(code) => response.status == CREATED && response.body == Some(
                ShortUrlCreated { id: code },
            ),
            Err(_) => response.status == INTERNAL_SERVER_ERROR && response.body is None,
        },
{
    match allocated {
        Ok(code) => CreateResponse { status: CREATED, body: Some(ShortUrlCreated { id: code }) },
        Err(_) => CreateResponse { status: INTERNAL_SERVER_ERROR, body: None },
    }
}

/// Allocates a code for the URL of `payload` and answers with it.
pub fn create_short_url<S: Storage>(store: &mut S, payload: &CreateShortUrl) -> (response:
    CreateResponse)
    ensures
        final(store).exact() == old(store).exact(),
        match response.body {
            Some(created) => response.status == CREATED && is_code(created.id@),
            None => response.status == INTERNAL_SERVER_ERROR,
        },
        old(store).exact() && (forall|code: Seq<char>|
            is_code(code) ==> !old(store).contents().contains_key(code)) ==> response.status
            == CREATED,
        old(store).exact() ==> match response.body {
            Some(created) => {
                &&& !old(store).contents().contains_key(created.id@)
                &&& final(store).contents() == old(store).contents().insert(
                    created.id@,
                    payload.url@,
                )
            },
            None => final(store).contents() == old(store).contents(),
        },
{
    let allocated = allocate(store, payload.url.as_str());
    create_response(allocated)
}

} // verus!
