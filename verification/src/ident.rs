//! Local validation of caller-chosen link identifiers. An invalid
//! identifier is rejected before any network call.

use vstd::prelude::*;
use vstd::string::StrSliceExecFns;

verus! {

/// A character allowed in a caller-chosen link identifier: an ASCII letter,
/// an ASCII digit, a hyphen, or an underscore.
pub open spec fn valid_strid_char(c: char) -> bool {
    ||| ('a' as u32 <= c as u32 && c as u32 <= 'z' as u32)
    ||| ('A' as u32 <= c as u32 && c as u32 <= 'Z' as u32)
    ||| ('0' as u32 <= c as u32 && c as u32 <= '9' as u32)
    ||| c == '-'
    ||| c == '_'
}

/// True when every character of the identifier is allowed.
pub open spec fn valid_strid(s: Seq<char>) -> bool {
    forall|i: int| 0 <= i < s.len() ==> valid_strid_char(s[i])
}

/// Checks the identifier character rule. Operations that take an
/// identifier are only ever performed for identifiers this accepts; a
/// rejected identifier costs no network call.
pub fn is_valid(strid: &str) -> (r: bool)
    ensures
        r == valid_strid(strid@),
{
    let n = strid.unicode_len();
    let mut i: usize = 0;
    while i < n
        invariant
            n == strid@.len(),
            0 <= i <= n,
            forall|j: int| 0 <= j < i ==> valid_strid_char(strid@[j]),
        decreases n - i,
    {
        let c = strid.get_char(i);
        let cv = c as u32;
        let ok = (97 <= cv && cv <= 122) || (65 <= cv && cv <= 90) || (48 <= cv && cv <= 57)
            || c == '-' || c == '_';
        if !ok {
            proof {
                assert(!valid_strid_char(strid@[i as int]));
            }
            return false;
        }
        i = i + 1;
    }
    true
}

} // verus!
