//! Fresh identifiers for shows and characters.
use vstd::prelude::*;

verus! {

/// `c` is a lowercase hexadecimal digit.
pub open spec fn is_lower_hex(c: char) -> bool {
    ('0' <= c && c <= '9') || ('a' <= c && c <= 'f')
}

/// `s` has the hyphenated form of a UUID: 36 characters, `-` at positions 8,
/// 13, 18 and 23, and lowercase hexadecimal digits everywhere else.
pub open spec fn hyphenated_uuid(s: Seq<char>) -> bool {
    &&& s.len() == 36
    &&& forall|i: int|
        0 <= i < 36 ==> if i == 8 || i == 13 || i == 18 || i == 23 {
            #[trigger] s[i] == '-'
        } else {
            is_lower_hex(s[i])
        }
}

/// `s` neither starts nor ends with `-` and never has two `-` in a row.
pub open spec fn plain_id(s: Seq<char>) -> bool {
    &&& forall|i: int| 0 <= i < s.len() - 1 ==> !(#[trigger] s[i] == '-' && s[i + 1] == '-')
    &&& s.len() > 0 ==> s[0] != '-' && s[s.len() - 1] != '-'
}

/// A hyphenated UUID is a plain id.
pub proof fn lemma_hyphenated_uuid_is_plain(s: Seq<char>)
    requires
        hyphenated_uuid(s),
    ensures
        plain_id(s),
{
    assert(s[0] != '-') by {
        assert(is_lower_hex(s[0]));
    }
    assert(s[35] != '-') by {
        assert(is_lower_hex(s[35]));
    }
    assert forall|i: int| 0 <= i < s.len() - 1 implies !(#[trigger] s[i] == '-' && s[i + 1] == '-') by {
        if s[i] == '-' {
            if !(i == 8 || i == 13 || i == 18 || i == 23) {
                assert(is_lower_hex(s[i]));
            }
            assert(is_lower_hex(s[i + 1]));
        }
    }
}

/// Relies on `uuid::Uuid::new_v4` and its `Display` impl, which writes the
/// hyphenated form: 32 lowercase hexadecimal digits in groups of 8, 4, 4, 4
/// and 12, joined by `-`. The value itself is random.
#[verifier::external_body]
pub(crate) fn fresh_id() -> (r: String)
    ensures
        hyphenated_uuid(r@),
{
    uuid::Uuid::new_v4().to_string()
}

} // verus!
