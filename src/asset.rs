//! The check on a logical asset name before it is looked up on disk: it
//! must stay below the asset directory.
//!
//! A name is read as pieces separated by `/`. It is refused when it is
//! absolute (it begins with `/`) or when a piece is `..`.
use vstd::prelude::*;
use vstd::string::StrSliceExecFns;

verus! {

/// A `..` piece begins at `i`.
pub open spec fn parent_piece_at(s: Seq<char>, i: int) -> bool {
    &&& 0 <= i
    &&& i + 1 < s.len()
    &&& s[i] == '.'
    &&& s[i + 1] == '.'
    &&& (i == 0 || s[i - 1] == '/')
    &&& (i + 2 == s.len() || s[i + 2] == '/')
}

/// Every piece of the name is a plain name or `.`: it is not absolute and
/// has no `..` piece.
pub open spec fn plain_name(s: Seq<char>) -> bool {
    &&& !(s.len() > 0 && s[0] == '/')
    &&& forall|i: int| !#[trigger] parent_piece_at(s, i)
}

/// Whether the name may be resolved below the asset directory.
pub fn is_plain_asset_name(name: &str) -> (r: bool)
    ensures
        r == plain_name(name@),
{
    let n = name.unicode_len();
    let mut chars: Vec<char> = Vec::new();
    let mut k: usize = 0;
    while k < n
        invariant
            n == name@.len(),
            k <= n,
            chars@ == name@.subrange(0, k as int),
        decreases n - k,
    {
        chars.push(name.get_char(k));
        k = k + 1;
    }
    proof {
        assert(chars@ =~= name@);
    }
    if n > 0 && chars[0] == '/' {
        return false;
    }
    let mut i: usize = 0;
    while i < n
        invariant
            i <= n,
            n == chars@.len(),
            chars@ == name@,
            forall|j: int| 0 <= j < i ==> !#[trigger] parent_piece_at(chars@, j),
        decreases n - i,
    {
        if i + 1 < n && chars[i] == '.' && chars[i + 1] == '.' && (i == 0 || chars[i - 1] == '/')
            && (i + 2 == n || chars[i + 2] == '/') {
            proof {
                assert(parent_piece_at(name@, i as int));
            }
            return false;
        }
        i = i + 1;
    }
    proof {
        assert forall|j: int| !#[trigger] parent_piece_at(chars@, j) by {
            if 0 <= j && j + 1 < n {
                assert(j < i);
            }
        }
    }
    true
}

} // verus!
