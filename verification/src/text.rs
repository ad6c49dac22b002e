//! Character-level helpers shared by the path and diff builders.

use vstd::prelude::*;
use vstd::string::StrSliceExecFns;

verus! {

/// The characters of a string slice, as a vector.
pub fn to_char_vec(s: &str) -> (r: Vec<char>)
    ensures
        r@ == s@,
{
    let n = s.unicode_len();
    let mut r: Vec<char> = Vec::new();
    let mut i: usize = 0;
    while i < n
        invariant
            i <= n,
            n == s@.len(),
            r@ == s@.subrange(0, i as int),
        decreases n - i,
    {
        r.push(s.get_char(i));
        i = i + 1;
        proof {
            assert(r@ =~= s@.subrange(0, i as int));
        }
    }
    proof {
        assert(r@ =~= s@);
    }
    r
}

/// Relies on `core::iter::Iterator::collect` for `String`: a `String`
/// collected from characters views as exactly that character sequence.
#[verifier::external_body]
pub fn chars_to_string(v: &Vec<char>) -> (r: String)
    ensures
        r@ == v@,
{
    v.iter().collect()
}

/// Whether the string begins with the prefix.
pub open spec fn starts_with_seq(s: Seq<char>, prefix: Seq<char>) -> bool {
    s.len() >= prefix.len() && s.subrange(0, prefix.len() as int) == prefix
}

/// The string with the prefix removed where it carries it, unchanged
/// otherwise.
pub open spec fn trim_prefix_seq(s: Seq<char>, prefix: Seq<char>) -> Seq<char> {
    if starts_with_seq(s, prefix) {
        s.subrange(prefix.len() as int, s.len() as int)
    } else {
        s
    }
}

/// The substring stands at position `i`.
pub open spec fn has_substring_at(s: Seq<char>, sub: Seq<char>, i: int) -> bool {
    0 <= i && i + sub.len() <= s.len() && s.subrange(i, i + sub.len()) == sub
}

/// The substring stands somewhere in the string.
pub open spec fn contains_seq(s: Seq<char>, sub: Seq<char>) -> bool {
    exists|i: int| has_substring_at(s, sub, i)
}

/// Whether the string begins with the prefix.
pub fn starts_with_str(s: &str, prefix: &str) -> (r: bool)
    ensures
        r == starts_with_seq(s@, prefix@),
{
    let np = prefix.unicode_len();
    let ns = s.unicode_len();
    if ns < np {
        return false;
    }
    let mut i: usize = 0;
    while i < np
        invariant
            i <= np,
            np == prefix@.len(),
            ns == s@.len(),
            ns >= np,
            forall|j: int| 0 <= j < i ==> s@[j] == prefix@[j],
        decreases np - i,
    {
        if s.get_char(i) != prefix.get_char(i) {
            proof {
                if starts_with_seq(s@, prefix@) {
                    assert(s@.subrange(0, prefix@.len() as int)[i as int] == prefix@[i as int]);
                }
            }
            return false;
        }
        i = i + 1;
    }
    proof {
        assert(s@.subrange(0, np as int) =~= prefix@);
    }
    true
}

/// The string with the prefix removed where it carries it.
pub fn trim_prefix_str(s: &str, prefix: &str) -> (r: String)
    ensures
        r@ == trim_prefix_seq(s@, prefix@),
{
    if starts_with_str(s, prefix) {
        let np = prefix.unicode_len();
        let ns = s.unicode_len();
        let rest = s.substring_char(np, ns);
        rest.to_owned()
    } else {
        s.to_owned()
    }
}

/// Whether the string holds the substring anywhere.
pub fn contains_str(s: &str, sub: &str) -> (r: bool)
    ensures
        r == contains_seq(s@, sub@),
{
    let ns = s.unicode_len();
    let nb = sub.unicode_len();
    if nb > ns {
        proof {
            assert forall|i: int| !has_substring_at(s@, sub@, i) by {}
        }
        return false;
    }
    if nb == 0 {
        proof {
            assert(s@.subrange(0, 0) =~= sub@);
            assert(has_substring_at(s@, sub@, 0));
        }
        return true;
    }
    let mut i: usize = 0;
    while i <= ns - nb
        invariant
            0 < nb <= ns,
            ns == s@.len(),
            nb == sub@.len(),
            i <= ns - nb + 1,
            forall|k: int| 0 <= k < i ==> !has_substring_at(s@, sub@, k),
        decreases ns - nb + 1 - i,
    {
        let mut j: usize = 0;
        let mut mismatch = false;
        while j < nb
            invariant
                j <= nb,
                i + nb <= ns,
                ns == s@.len(),
                nb == sub@.len(),
                !mismatch ==> forall|l: int| 0 <= l < j ==> s@[i + l] == sub@[l],
                mismatch ==> !has_substring_at(s@, sub@, i as int),
            decreases nb - j,
        {
            if s.get_char(i + j) != sub.get_char(j) {
                proof {
                    if has_substring_at(s@, sub@, i as int) {
                        assert(s@.subrange(i as int, i + sub@.len())[j as int] == sub@[j as int]);
                    }
                }
                mismatch = true;
                j = nb;
            } else {
                j = j + 1;
            }
        }
        if !mismatch {
            proof {
                assert(s@.subrange(i as int, i + sub@.len()) =~= sub@);
                assert(has_substring_at(s@, sub@, i as int));
            }
            return true;
        }
        i = i + 1;
    }
    proof {
        assert forall|k: int| !has_substring_at(s@, sub@, k) by {
            if 0 <= k && k + sub@.len() <= s@.len() {
                assert(k < i);
            }
        }
    }
    false
}

/// Character-wise string equality, the meaning of `==` on the views.
pub fn str_eq(a: &str, b: &str) -> (r: bool)
    ensures
        r == (a@ == b@),
{
    let na = a.unicode_len();
    let nb = b.unicode_len();
    if na != nb {
        return false;
    }
    let mut i: usize = 0;
    while i < na
        invariant
            i <= na,
            na == a@.len(),
            na == b@.len(),
            forall|j: int| 0 <= j < i ==> a@[j] == b@[j],
        decreases na - i,
    {
        if a.get_char(i) != b.get_char(i) {
            return false;
        }
        i = i + 1;
    }
    proof {
        assert(a@ =~= b@);
    }
    true
}

} // verus!
