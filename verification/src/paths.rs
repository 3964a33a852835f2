//! Path shape checks shared by the namespace facade: validity, prefix
//! order, and the parent/child relation of the flat path table.

use vstd::prelude::*;
use vstd::string::*;

verus! {

/// A usable namespace path: non-empty and absolute.
pub open spec fn spec_valid_path(p: Seq<char>) -> bool {
    p.len() > 0 && p[0] == '/'
}

/// Check a path's shape.
pub fn valid_path(p: &String) -> (r: bool)
    ensures
        r == spec_valid_path(p@),
{
    let s = p.as_str();
    let n = s.unicode_len();
    if n == 0 {
        false
    } else {
        s.get_char(0) == '/'
    }
}

/// One character sequence starts with another.
pub open spec fn spec_is_prefix(pre: Seq<char>, s: Seq<char>) -> bool {
    pre.len() <= s.len() && forall|i: int| 0 <= i < pre.len() ==> pre[i] == s[i]
}

/// Check whether `pre` is a prefix of `s`.
pub fn str_is_prefix(pre: &str, s: &str) -> (r: bool)
    ensures
        r == spec_is_prefix(pre@, s@),
{
    let pn = pre.unicode_len();
    let sn = s.unicode_len();
    if pn > sn {
        return false;
    }
    let mut i: usize = 0;
    while i < pn
        invariant
            pn == pre@.len(),
            sn == s@.len(),
            pn <= sn,
            i <= pn,
            forall|j: int| 0 <= j < i ==> pre@[j] == s@[j],
        decreases pn - i,
    {
        if pre.get_char(i) != s.get_char(i) {
            return false;
        }
        i += 1;
    }
    true
}

/// The prefix every entry inside a directory starts with: the
/// directory's path closed by a separator.
pub open spec fn child_prefix(dir: Seq<char>) -> Seq<char> {
    if dir.len() > 0 && dir[dir.len() - 1] == '/' {
        dir
    } else {
        dir + "/"@
    }
}

/// Whether `p` lies inside the directory at `dir`.
pub open spec fn is_child_path(dir: Seq<char>, p: Seq<char>) -> bool {
    spec_is_prefix(child_prefix(dir), p)
}

/// Check whether `p` lies inside the directory at `dir`.
pub fn is_child_of(dir: &String, p: &String) -> (r: bool)
    ensures
        r == is_child_path(dir@, p@),
{
    let d = dir.as_str();
    let n = d.unicode_len();
    if n > 0 && d.get_char(n - 1) == '/' {
        str_is_prefix(d, p.as_str())
    } else {
        let pre = dir.clone().concat("/");
        str_is_prefix(pre.as_str(), p.as_str())
    }
}

} // verus!
