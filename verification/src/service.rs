//! Request handlers: the usage page, paste creation and paste lookup.
//!
//! Each handler is a function from plain values to plain values. The
//! transport layer reads the request, hands the handler what it read, and
//! maps the handler's result onto a response.

use crate::ids::fresh_paste_id;
use crate::ids::is_uuid_text;
use crate::store::lookup;
use crate::store::Store;
use crate::store::StoreError;
use vstd::prelude::*;

verus! {

/// The largest paste body accepted, in bytes.
pub const MAX_PASTE_BYTES: usize = 10240;

/// Why an upload was rejected.
#[derive(Clone, Copy, Debug, PartialEq, Eq, Structural)]
pub enum UploadError {
    /// The body is longer than `MAX_PASTE_BYTES`: the client's fault.
    TooLarge,
    /// The body ended before its natural end: the client's fault.
    Truncated,
    /// Reading the body failed below the protocol: the server's fault.
    ReadFault,
    /// The store refused or could not complete the insert: the server's fault.
    StoreFailed,
}

/// The status class owed for each rejection: 400 for a fault in the request,
/// 500 for a fault on the server's side.
pub fn status_for(e: &UploadError) -> (s: u16)
    ensures
        s == 400 || s == 500,
        s == 400 <==> (e == UploadError::TooLarge || e == UploadError::Truncated),
{
    match e {
        UploadError::TooLarge => 400,
        UploadError::Truncated => 400,
        UploadError::ReadFault => 500,
        UploadError::StoreFailed => 500,
    }
}

/// What a bounded read of the request body produced.
pub enum BodyRead {
    /// The body ended within the bound; these are its bytes.
    Complete(Vec<u8>),
    /// The bound was reached, or the stream broke off, before the body's end.
    Truncated,
    /// The read itself failed.
    Fault,
}

/// Admits or rejects what the transport read: a complete body goes through
/// unchanged, a truncated one is the client's error, a failed read the
/// server's.
pub fn accept_body(r: BodyRead) -> (out: Result<Vec<u8>, UploadError>)
    ensures
        match r {
            BodyRead::Complete(b) => out == Ok::<Vec<u8>, UploadError>(b),
            BodyRead::Truncated => out == Err::<Vec<u8>, UploadError>(UploadError::Truncated),
            BodyRead::Fault => out == Err::<Vec<u8>, UploadError>(UploadError::ReadFault),
        },
{
    match r {
        BodyRead::Complete(b) => Ok(b),
        BodyRead::Truncated => Err(UploadError::Truncated),
        BodyRead::Fault => Err(UploadError::ReadFault),
    }
}

/// Handles `POST /`: stores `body` under a fresh identifier and returns the
/// identifier. A body over the size bound is rejected without touching the
/// store; on success the store gains exactly the one new paste, and the
/// returned identifier was not in use before.
pub fn upload(db: &mut Store, body: Vec<u8>) -> (r: Result<String, UploadError>)
    requires
        old(db).wf(),
    ensures
        final(db).wf(),
        match r {
            Ok(id) => body@.len() <= MAX_PASTE_BYTES
                && is_uuid_text(id@)
                && !old(db)@.contains_key(id@)
                && final(db)@ == old(db)@.insert(id@, body@),
            Err(e) => final(db)@ == old(db)@
                && (e == UploadError::TooLarge || e == UploadError::StoreFailed)
                && (e == UploadError::TooLarge <==> body@.len() > MAX_PASTE_BYTES),
        },
{
    if body.len() > MAX_PASTE_BYTES {
        return Err(UploadError::TooLarge);
    }
    let id = fresh_paste_id();
    match db.put(id.clone(), body) {
        Ok(()) => Ok(id),
        Err(_) => Err(UploadError::StoreFailed),
    }
}

/// Handles `GET /<id>`: an exact-match lookup. Any string is accepted as a
/// key; one that was never issued simply misses.
pub fn get_paste<'a>(db: &'a Store, id: &String) -> (r: Option<&'a Vec<u8>>)
    requires
        db.wf(),
    ensures
        match r {
            Some(c) => lookup(db@, id@) == Some(c@),
            None => lookup(db@, id@) is None,
        },
{
    db.get(id)
}

/// Collapses a fetch outcome for the client: a found body is returned, and
/// an absent identifier and a store fault both come back empty — the
/// fetch path does not tell the two apart.
pub fn fetch_body(outcome: Result<Option<Vec<u8>>, StoreError>) -> (r: Option<Vec<u8>>)
    ensures
        match outcome {
            Ok(c) => r == c,
            Err(_) => r is None,
        },
{
    match outcome {
        Ok(c) => c,
        Err(_) => None,
    }
}

/// The help text served at the root path. Fixed: it never depends on the
/// store's state.
pub open spec fn usage_text() -> Seq<char> {
    "Usage:

    GET /
        This usage page!

    GET /<id>
        Returns the paste with the given <id>.

    POST /
        Uploads the posted data as a paste. Response is the <id> of the paste."@
}

/// Handles `GET /`: returns the fixed usage page. Every call returns the
/// same text, whatever the store holds.
pub fn usage() -> (r: &'static str)
    ensures
        r@ == usage_text(),
{
    "Usage:

    GET /
        This usage page!

    GET /<id>
        Returns the paste with the given <id>.

    POST /
        Uploads the posted data as a paste. Response is the <id> of the paste."
}

} // verus!
