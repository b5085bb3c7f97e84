//! Session identifiers.

use vstd::prelude::*;

verus! {

/// Whether `c` is a decimal digit or one of the letters `a` to `f`.
pub open spec fn is_lower_hex(c: char) -> bool {
    ('0' <= c && c <= '9') || ('a' <= c && c <= 'f')
}

/// Whether `id` has the form of a random (version 4) UUID in lower-case
/// hyphenated notation: 36 characters, hyphens after the 8th, 12th, 16th
/// and 20th digit, every other character a lower-case hexadecimal digit,
/// the 13th digit `4` and the 17th one of `8`, `9`, `a`, `b`.
pub open spec fn is_session_id(id: Seq<char>) -> bool {
    &&& id.len() == 36
    &&& forall|i: int|
        0 <= i < 36 ==> if i == 8 || i == 13 || i == 18 || i == 23 {
            id[i] == '-'
        } else {
            is_lower_hex(#[trigger] id[i])
        }
    &&& id[14] == '4'
    &&& (id[19] == '8' || id[19] == '9' || id[19] == 'a' || id[19] == 'b')
}

/// A fresh session identifier: the text of a random UUID that
/// `uuid::Uuid::new_v4` draws from the operating system's generator. Which
/// one comes is open; its form is the fixed one of version 4. The call
/// stops the program where the operating system gives no random bytes.
#[verifier::external_body]
pub(crate) fn fresh_session_id() -> (id: String)
    ensures
        is_session_id(id@),
{
    uuid::Uuid::new_v4().to_string()
}

} // verus!
