//! The identifiers of the `ulid` crate.

use ulid::Ulid;
use vstd::prelude::*;

verus! {

/// Number of characters of an identifier.
pub const ULID_LEN: usize = 26;

/// The characters an identifier is written in.
pub open spec fn ulid_alphabet() -> Seq<char> {
    "0123456789ABCDEFGHJKMNPQRSTVWXYZ"@
}

/// Whether `text` has the shape of an identifier: 26 characters of the
/// alphabet.
pub open spec fn is_ulid_text(text: Seq<char>) -> bool {
    &&& text.len() == ULID_LEN
    &&& forall|i: int| 0 <= i < text.len() ==> ulid_alphabet().contains(#[trigger] text[i])
}

/// Calls `Ulid::new` and `Ulid::to_string`. The identifier is drawn from the
/// clock and a random source, eighty bits of it at random; only its shape is
/// known. The call panics where the random source cannot be seeded.
#[verifier::external_body]
pub(crate) fn new_ulid() -> (id: String)
    ensures
        is_ulid_text(id@),
{
    Ulid::new().to_string()
}

} // verus!
