//! Generation of opaque record identifiers.

use vstd::prelude::*;

verus! {

/// Whether a character may appear in a generated id: lowercase hex or the
/// hyphen of the canonical UUID rendering.
pub open spec fn is_uuid_char(c: char) -> bool {
    ||| '0' <= c && c <= '9'
    ||| 'a' <= c && c <= 'f'
    ||| c == '-'
}

/// A generated id: 36 characters of lowercase hex and hyphens. In
/// particular it holds no path separator, so it is safe as a single path
/// segment.
pub open spec fn is_generated_id(s: Seq<char>) -> bool {
    &&& s.len() == 36
    &&& forall|i: int| 0 <= i < s.len() ==> is_uuid_char(#[trigger] s[i])
}

/// A generated id contains no slash.
pub broadcast proof fn lemma_generated_id_slash_free(s: Seq<char>)
    requires
        #[trigger] is_generated_id(s),
    ensures
        crate::path::slash_free(s),
{
}

/// Relies on uuid's `Uuid::new_v4` and its `Display`: a fresh random UUID
/// rendered in the hyphenated form, 36 characters of lowercase hex digits
/// and hyphens. Nothing is assumed about which id comes out, only about its
/// shape.
#[verifier::external_body]
pub fn new_uuid() -> (r: String)
    ensures
        is_generated_id(r@),
{
    uuid::Uuid::new_v4().to_string()
}

} // verus!
