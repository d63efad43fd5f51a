//! The service's laws, stated over the store's map model. `upload` ensures
//! that a successful call turns the store's contents `m` into
//! `m.insert(id, body)` for a fresh `id`, and `get_paste` ensures that its
//! result is `lookup` applied to the store's contents; these laws connect
//! the two.

use crate::store::lookup;
use vstd::prelude::*;

verus! {

/// A paste fetched right after its successful upload is the uploaded body,
/// byte for byte.
pub proof fn lemma_upload_then_get(m: Map<Seq<char>, Seq<u8>>, id: Seq<char>, body: Seq<u8>)
    ensures
        lookup(m.insert(id, body), id) == Some(body),
{
}

/// An upload touches no other identifier: every lookup under a different
/// identifier reads, before and after, the same thing.
pub proof fn lemma_upload_preserves_others(
    m: Map<Seq<char>, Seq<u8>>,
    id: Seq<char>,
    body: Seq<u8>,
    other: Seq<char>,
)
    requires
        other != id,
    ensures
        lookup(m.insert(id, body), other) == lookup(m, other),
{
}

/// An identifier the store does not hold — so, one no upload ever returned —
/// is not found.
pub proof fn lemma_never_uploaded_misses(m: Map<Seq<char>, Seq<u8>>, id: Seq<char>)
    requires
        !m.contains_key(id),
    ensures
        lookup(m, id) is None,
{
}

/// Two successful uploads return distinct identifiers — the second upload's
/// identifier was fresh for a store already holding the first's — and each
/// identifier afterwards maps to its own body.
pub proof fn lemma_two_uploads_distinct(
    m: Map<Seq<char>, Seq<u8>>,
    id1: Seq<char>,
    body1: Seq<u8>,
    id2: Seq<char>,
    body2: Seq<u8>,
)
    requires
        !m.contains_key(id1),
        !m.insert(id1, body1).contains_key(id2),
    ensures
        id1 != id2,
        lookup(m.insert(id1, body1).insert(id2, body2), id1) == Some(body1),
        lookup(m.insert(id1, body1).insert(id2, body2), id2) == Some(body2),
{
}

/// Fetching is idempotent: a lookup's result is a function of the store's
/// contents and the identifier alone, so repeated fetches of one identifier
/// against an unchanged store — and pastes are never changed once stored —
/// agree.
pub proof fn lemma_fetch_idempotent(
    m: Map<Seq<char>, Seq<u8>>,
    id: Seq<char>,
    r1: Option<Seq<u8>>,
    r2: Option<Seq<u8>>,
)
    requires
        r1 == lookup(m, id),
        r2 == lookup(m, id),
    ensures
        r1 == r2,
{
}

} // verus!
