//! Random identifiers.

use vstd::prelude::*;

use crate::text::{chars_of, push_char, push_str, seq_starts_with};

verus! {

/// A lower-case hexadecimal digit.
pub open spec fn is_lower_hex(c: char) -> bool {
    ('0' as u32 <= c as u32 <= '9' as u32) || ('a' as u32 <= c as u32 <= 'f' as u32)
}

/// The hyphenated text form of a UUID: 36 characters, hyphens at positions
/// 8, 13, 18 and 23, lower-case hexadecimal digits everywhere else.
pub open spec fn is_hyphenated_uuid(s: Seq<char>) -> bool {
    &&& s.len() == 36
    &&& forall|i: int| 0 <= i < 36 ==> if i == 8 || i == 13 || i == 18 || i == 23 {
            #[trigger] s[i] == '-'
        } else {
            is_lower_hex(s[i])
        }
}

/// `uuid::Uuid::new_v4()` rendered by its `Display` impl, which writes the
/// hyphenated lower-case form. The UUID is random; only its shape is stated.
#[verifier::external_body]
pub(crate) fn new_uuid_text() -> (r: String)
    ensures
        is_hyphenated_uuid(r@),
{
    uuid::Uuid::new_v4().to_string()
}

/// The shape of a network ID: "net-" followed by eight lower-case
/// hexadecimal digits.
pub open spec fn is_network_id(s: Seq<char>) -> bool {
    &&& s.len() == 12
    &&& seq_starts_with(s, "net-"@)
    &&& forall|i: int| 4 <= i < 12 ==> is_lower_hex(#[trigger] s[i])
}

/// Generates a unique network ID: "net-" followed by the first eight
/// hexadecimal digits of a random UUID.
pub fn generate_network_id() -> (r: String)
    ensures
        is_network_id(r@),
{
    let uuid = new_uuid_text();
    let cs = chars_of(uuid.as_str());
    let mut id = String::new();
    push_str(&mut id, "net-");
    proof { reveal_strlit("net-"); }
    let mut i: usize = 0;
    while i < 8
        invariant
            i <= 8,
            cs@ == uuid@,
            is_hyphenated_uuid(uuid@),
            id@.len() == 4 + i,
            id@.subrange(0, 4) == "net-"@,
            forall|k: int| 4 <= k < 4 + i ==> is_lower_hex(#[trigger] id@[k]),
        decreases 8 - i,
    {
        assert(is_lower_hex(cs@[i as int]));
        let ghost before = id@;
        push_char(&mut id, cs[i]);
        assert(id@.subrange(0, 4) =~= before.subrange(0, 4));
        i = i + 1;
    }
    id
}

} // verus!
