//! The form of a capability.

use vstd::prelude::*;

use crate::text::{blank, byte_len, is_blank, utf8_len, white_space};

verus! {

/// How many bytes a capability may take.
pub const MAX_CAPABILITY_BYTES: usize = 128;

/// Whether `c` is a hexadecimal digit in lower case.
pub open spec fn lower_hex_digit(c: char) -> bool {
    '0' <= c <= '9' || 'a' <= c <= 'f'
}

/// Whether `text` has the form of a random UUID: five groups of hexadecimal digits in lower case,
/// with hyphens between them, in which one digit tells that the UUID is random and one is of the
/// four that tell the layout.
pub open spec fn random_uuid(text: Seq<char>) -> bool {
    &&& text.len() == 36
    &&& forall|i: int|
        0 <= i < 36 ==> if i == 8 || i == 13 || i == 18 || i == 23 {
            #[trigger] text[i] == '-'
        } else {
            lower_hex_digit(text[i])
        }
    &&& text[14] == '4'
    &&& text[19] == '8' || text[19] == '9' || text[19] == 'a' || text[19] == 'b'
}

/// Whether `capability` can be a capability at all.
pub open spec fn acceptable_capability(capability: Seq<char>) -> bool {
    !blank(capability) && utf8_len(capability) <= MAX_CAPABILITY_BYTES
}

/// Calls `uuid::Uuid::new_v4` and writes the UUID out, with hyphens and in lower case. Which UUID
/// it is is left to chance.
#[verifier::external_body]
pub(crate) fn new_capability() -> (capability: String)
    ensures
        random_uuid(capability@),
{
    uuid::Uuid::new_v4().to_string()
}

/// Whether `capability` can be a capability at all.
pub fn is_acceptable_capability(capability: &str) -> (r: bool)
    ensures
        r == acceptable_capability(capability@),
{
    !is_blank(capability) && byte_len(capability) <= MAX_CAPABILITY_BYTES
}

/// A random UUID can be a capability.
pub proof fn random_uuid_is_acceptable(capability: Seq<char>)
    requires
        random_uuid(capability),
    ensures
        acceptable_capability(capability),
{
    assert(!white_space(capability[8]));
    assert(vstd::utf8::is_ascii_chars(capability)) by {
        assert forall|i: int| 0 <= i < capability.len() implies 0 <= (
        #[trigger] capability[i] as nat) < 128 by {
            if i == 8 || i == 13 || i == 18 || i == 23 {
                assert(capability[i] == '-');
            } else {
                assert(lower_hex_digit(capability[i]));
            }
        }
    }
    vstd::utf8::is_ascii_chars_encode_utf8(capability);
}

} // verus!
