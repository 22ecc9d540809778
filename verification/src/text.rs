//! Character-level string helpers used by parsing and equality checks.

use vstd::prelude::*;
use vstd::string::StrSliceExecFns;

verus! {

/// Whether two string slices hold the same characters.
pub fn str_eq(a: &str, b: &str) -> (r: bool)
    ensures
        r == (a@ == b@),
{
    let alen = a.unicode_len();
    let blen = b.unicode_len();
    if alen != blen {
        proof {
            assert(a@.len() != b@.len());
        }
        false
    } else {
        let mut i: usize = 0;
        let mut same = true;
        while same && i < alen
            invariant
                0 <= i <= alen,
                alen as nat == a@.len(),
                blen as nat == b@.len(),
                alen == blen,
                same ==> forall|j: int| 0 <= j < i ==> a@[j] == b@[j],
                !same ==> a@ != b@,
            decreases alen - i + (if same { 1int } else { 0int }),
        {
            if a.get_char(i) != b.get_char(i) {
                proof {
                    assert(a@[i as int] != b@[i as int]);
                }
                same = false;
            } else {
                i += 1;
            }
        }
        proof {
            if same {
                assert(a@ =~= b@);
            }
        }
        same
    }
}

} // verus!
