//! Path and string helpers shared by the whole crate.
//!
//! Paths are modelled as UTF-8 strings whose components are separated by
//! `'/'`; an empty string stands for the empty relative path.

use vstd::prelude::*;
use vstd::string::StrSliceExecFns;
use vstd::string::StringExecFns;

verus! {

/// Joining two path fragments: an empty side leaves the other unchanged,
/// otherwise the fragments are separated by a single `'/'`.
pub open spec fn spec_path_join(a: Seq<char>, b: Seq<char>) -> Seq<char> {
    if a.len() == 0 {
        b
    } else if b.len() == 0 {
        a
    } else {
        a + seq!['/'] + b
    }
}

/// Join two path fragments with `'/'`.
pub fn path_join(a: &str, b: &str) -> (r: String)
    ensures
        r@ == spec_path_join(a@, b@),
{
    if a.is_empty() {
        String::from_str(b)
    } else if b.is_empty() {
        String::from_str(a)
    } else {
        let r = String::from_str(a).concat("/").concat(b);
        proof {
            reveal_strlit("/");
            assert(r@ =~= a@ + seq!['/'] + b@);
        }
        r
    }
}

/// String-slice equality, decided through `String` equality.
pub fn str_eq(a: &str, b: &str) -> (r: bool)
    ensures
        r == (a@ == b@),
{
    let sa = String::from_str(a);
    let sb = String::from_str(b);
    sa == sb
}

/// Whether `p` is a prefix of `s`, compared character by character.
pub fn has_prefix(s: &str, p: &str) -> (r: bool)
    ensures
        r == p@.is_prefix_of(s@),
{
    let n = p.unicode_len();
    if n > s.unicode_len() {
        return false;
    }
    let mut i: usize = 0;
    while i < n
        invariant
            i <= n,
            n == p@.len(),
            n <= s@.len(),
            forall|k: int| 0 <= k < i ==> s@[k] == p@[k],
        decreases n - i,
    {
        if s.get_char(i) != p.get_char(i) {
            return false;
        }
        i += 1;
    }
    proof {
        assert(p@ =~= s@.subrange(0, n as int));
    }
    true
}

/// The path of `child` relative to `root`: empty when they are equal,
/// the remainder after `root` and one `'/'` when `child` lies below
/// `root`, and nothing otherwise.
pub open spec fn spec_rel_to(child: Seq<char>, root: Seq<char>) -> Option<Seq<char>> {
    if child == root {
        Some(Seq::<char>::empty())
    } else if root.len() + 1 <= child.len() && root.is_prefix_of(child) && child[root.len() as int]
        == '/' {
        Some(child.subrange(root.len() as int + 1, child.len() as int))
    } else {
        None
    }
}

/// Strip `root` (plus the separating `'/'`) from the front of `child`.
pub fn rel_to(child: &str, root: &str) -> (r: Option<String>)
    ensures
        r is Some <==> spec_rel_to(child@, root@) is Some,
        r matches Some(s) ==> Some(s@) == spec_rel_to(child@, root@),
{
    if str_eq(child, root) {
        return Some(String::new());
    }
    let rn = root.unicode_len();
    let cn = child.unicode_len();
    if rn < cn && has_prefix(child, root) && child.get_char(rn) == '/' {
        let rest = child.substring_char(rn + 1, cn);
        Some(String::from_str(rest))
    } else {
        None
    }
}

/// The position of the last `'/'` in `s`, if any.
pub open spec fn spec_last_slash(s: Seq<char>) -> Option<int>
    decreases s.len(),
{
    if s.len() == 0 {
        None
    } else if s[s.len() - 1] == '/' {
        Some(s.len() - 1)
    } else {
        spec_last_slash(s.drop_last())
    }
}

/// Find the last `'/'` in `s`, scanning from the end.
pub fn last_slash(s: &str) -> (r: Option<usize>)
    ensures
        r matches Some(i) ==> i < s@.len() && Some(i as int) == spec_last_slash(s@),
        r is None ==> spec_last_slash(s@) is None,
{
    let mut i = s.unicode_len();
    proof {
        assert(s@.subrange(0, i as int) =~= s@);
    }
    while i > 0
        invariant
            i <= s@.len(),
            spec_last_slash(s@) == spec_last_slash(s@.subrange(0, i as int)),
        decreases i,
    {
        if s.get_char(i - 1) == '/' {
            proof {
                assert(s@.subrange(0, i as int)[i - 1] == '/');
            }
            return Some(i - 1);
        }
        proof {
            assert(s@.subrange(0, i as int).drop_last() =~= s@.subrange(0, i as int - 1));
        }
        i -= 1;
    }
    proof {
        assert(s@.subrange(0, 0) =~= Seq::<char>::empty());
    }
    None
}

/// Take the substring of `s` between the character positions `from` and
/// `to`, as an owned string.
pub fn substring(s: &str, from: usize, to: usize) -> (r: String)
    requires
        from <= to <= s@.len(),
    ensures
        r@ == s@.subrange(from as int, to as int),
{
    String::from_str(s.substring_char(from, to))
}

/// The view of an optional owned string.
pub open spec fn spec_opt_str(o: Option<String>) -> Option<Seq<char>> {
    match o {
        Option::None => Option::None,
        Option::Some(s) => Option::Some(s@),
    }
}

} // verus!
