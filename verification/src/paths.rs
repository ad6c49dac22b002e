//! Shim path normalization.
//!
//! The desired shim path is always rendered with forward slashes when it
//! is compared against, or written into, a persisted value, whatever the
//! host path-separator convention.  An extended-length path prefix that
//! some environments prepend to absolute paths is stripped first, so it
//! never leaks into a stored value.

use vstd::prelude::*;
use crate::text::{chars_to_string, to_char_vec, trim_prefix_seq, trim_prefix_str};

verus! {

/// The extended-length path prefix marker.
pub open spec fn extended_prefix() -> Seq<char> {
    "\\\\?\\"@
}

/// The path with the extended-length prefix removed, if it carries one.
pub open spec fn strip_extended_prefix(s: Seq<char>) -> Seq<char> {
    trim_prefix_seq(s, extended_prefix())
}

/// Every backslash replaced by a forward slash.
pub open spec fn forward_slashed(s: Seq<char>) -> Seq<char> {
    s.map_values(|c: char| if c == '\\' { '/' } else { c })
}

/// The normalized form of a shim path: the extended-length prefix
/// stripped, then all backslashes turned into forward slashes.
pub open spec fn normalized_path(s: Seq<char>) -> Seq<char> {
    forward_slashed(strip_extended_prefix(s))
}

/// Strip the extended-length path prefix, leaving any other path alone.
pub fn clean_path(path: &str) -> (r: String)
    ensures
        r@ == strip_extended_prefix(path@),
{
    trim_prefix_str(path, "\\\\?\\")
}

/// The normalized rendering of the shim path, as stored in and compared
/// against every persisted value.
pub fn normalize_shim_path(path: &str) -> (r: String)
    ensures
        r@ == normalized_path(path@),
{
    let cleaned = clean_path(path);
    let chars = to_char_vec(cleaned.as_str());
    let mut out: Vec<char> = Vec::new();
    let mut i: usize = 0;
    while i < chars.len()
        invariant
            i <= chars@.len(),
            chars@ == strip_extended_prefix(path@),
            out@ == forward_slashed(chars@.subrange(0, i as int)),
        decreases chars@.len() - i,
    {
        let c = chars[i];
        if c == '\\' {
            out.push('/');
        } else {
            out.push(c);
        }
        i = i + 1;
        proof {
            assert(out@ =~= forward_slashed(chars@.subrange(0, i as int)));
        }
    }
    proof {
        assert(chars@.subrange(0, chars@.len() as int) =~= chars@);
        assert(out@ =~= normalized_path(path@));
    }
    chars_to_string(&out)
}

} // verus!
