//! Paste identifiers: random 128-bit values rendered as text.

use vstd::prelude::*;

verus! {

/// What may stand at position `i` of an identifier: a hyphen at the four
/// fixed positions, a lowercase hexadecimal digit everywhere else.
pub open spec fn is_uuid_char(i: int, c: char) -> bool {
    if i == 8 || i == 13 || i == 18 || i == 23 {
        c == '-'
    } else {
        (48 <= c as u32 && c as u32 <= 57) || (97 <= c as u32 && c as u32 <= 102)
    }
}

/// The canonical 36-character hyphenated lowercase form of a 128-bit
/// identifier: five groups of hex digits of lengths 8, 4, 4, 4 and 12.
pub open spec fn is_uuid_text(s: Seq<char>) -> bool {
    s.len() == 36 && forall|i: int| 0 <= i < 36 ==> is_uuid_char(i, s[i])
}

/// Relies on `uuid::Uuid::new_v4` and the `Display` impl of `uuid::Uuid`:
/// a freshly drawn random version-4 UUID, rendered in its canonical
/// 36-character lowercase hyphenated form. The value is random, so nothing
/// here relates one call's result to another's.
#[verifier::external_body]
pub(crate) fn fresh_paste_id() -> (r: String)
    ensures
        is_uuid_text(r@),
{
    uuid::Uuid::new_v4().to_string()
}

} // verus!
