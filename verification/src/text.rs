//! Verified string helpers: character-wise equality and stripping of the
//! optional `"Bearer "` prefix from an authorization header value.

use vstd::prelude::*;
use vstd::string::{StrSliceExecFns, StringExecFns};

verus! {

/// An owned copy of a string slice.
pub fn owned_str(s: &str) -> (r: String)
    ensures
        r@ == s@,
{
    String::from_str(s)
}

/// Whether a character sequence starts with `"Bearer "`.
pub open spec fn has_bearer_prefix(s: Seq<char>) -> bool {
    s.len() >= 7 && s.subrange(0, 7) == seq!['B', 'e', 'a', 'r', 'e', 'r', ' ']
}

/// The token part of an authorization header value: what follows a
/// `"Bearer "` prefix, or the whole value when there is none.
pub open spec fn token_body(s: Seq<char>) -> Seq<char> {
    if has_bearer_prefix(s) {
        s.subrange(7, s.len() as int)
    } else {
        s
    }
}

/// Character-wise equality of two string slices.
pub fn str_eq(a: &str, b: &str) -> (r: bool)
    ensures
        r == (a@ == b@),
{
    let alen = a.unicode_len();
    let blen = b.unicode_len();
    if alen != blen {
        proof {
            assert(a@ != b@);
        }
        return false;
    }
    let mut i: usize = 0;
    while i < alen
        invariant
            0 <= i <= alen,
            alen == a@.len(),
            alen == b@.len(),
            forall|j: int| 0 <= j < i ==> a@[j] == b@[j],
        decreases alen - i,
    {
        if a.get_char(i) != b.get_char(i) {
            proof {
                assert(a@[i as int] != b@[i as int]);
            }
            return false;
        }
        i = i + 1;
    }
    proof {
        assert(a@ =~= b@);
    }
    true
}

/// Strips one `"Bearer "` prefix if the header value carries one; otherwise
/// hands the value back unchanged.
pub fn strip_bearer<'a>(header: &'a str) -> (r: &'a str)
    ensures
        r@ == token_body(header@),
{
    let len = header.unicode_len();
    if len >= 7 && header.get_char(0) == 'B' && header.get_char(1) == 'e' && header.get_char(2)
        == 'a' && header.get_char(3) == 'r' && header.get_char(4) == 'e' && header.get_char(5)
        == 'r' && header.get_char(6) == ' ' {
        proof {
            assert(header@.subrange(0, 7) =~= seq!['B', 'e', 'a', 'r', 'e', 'r', ' ']);
        }
        header.substring_char(7, len)
    } else {
        proof {
            if header@.len() >= 7 {
                let p = header@.subrange(0, 7);
                if p == seq!['B', 'e', 'a', 'r', 'e', 'r', ' '] {
                    assert(header@[0] == p[0]);
                    assert(header@[1] == p[1]);
                    assert(header@[2] == p[2]);
                    assert(header@[3] == p[3]);
                    assert(header@[4] == p[4]);
                    assert(header@[5] == p[5]);
                    assert(header@[6] == p[6]);
                    assert(false);
                }
            }
        }
        header
    }
}

} // verus!
