//! Small verified operations on text that the rest of the library builds on.

use vstd::prelude::*;
use vstd::string::StrSliceExecFns;
use vstd::string::StringExecFns;

verus! {

/// `s` ends with `suffix`.
pub open spec fn has_suffix(s: Seq<char>, suffix: Seq<char>) -> bool {
    suffix.len() <= s.len() && s.subrange(s.len() - suffix.len(), s.len() as int) == suffix
}

/// `s` starts with `prefix`.
pub open spec fn has_prefix(s: Seq<char>, prefix: Seq<char>) -> bool {
    prefix.len() <= s.len() && s.subrange(0, prefix.len() as int) == prefix
}

/// Whether `s` ends with `suffix`.
pub fn ends_with(s: &str, suffix: &str) -> (r: bool)
    ensures
        r == has_suffix(s@, suffix@),
{
    let n = s.unicode_len();
    let m = suffix.unicode_len();
    if m > n {
        return false;
    }
    let off = n - m;
    let mut i: usize = 0;
    while i < m
        invariant
            n == s@.len(),
            m == suffix@.len(),
            off == n - m,
            i <= m,
            forall|j: int| 0 <= j < i ==> s@[off + j] == suffix@[j],
        decreases m - i,
    {
        if s.get_char(off + i) != suffix.get_char(i) {
            assert(s@.subrange(off as int, n as int)[i as int] != suffix@[i as int]);
            return false;
        }
        i += 1;
    }
    assert(s@.subrange(off as int, n as int) =~= suffix@);
    true
}

/// Whether `s` starts with `prefix`.
pub fn starts_with(s: &str, prefix: &str) -> (r: bool)
    ensures
        r == has_prefix(s@, prefix@),
{
    let n = s.unicode_len();
    let m = prefix.unicode_len();
    if m > n {
        return false;
    }
    let mut i: usize = 0;
    while i < m
        invariant
            n == s@.len(),
            m == prefix@.len(),
            m <= n,
            i <= m,
            forall|j: int| 0 <= j < i ==> s@[j] == prefix@[j],
        decreases m - i,
    {
        if s.get_char(i) != prefix.get_char(i) {
            assert(s@.subrange(0, m as int)[i as int] != prefix@[i as int]);
            return false;
        }
        i += 1;
    }
    assert(s@.subrange(0, m as int) =~= prefix@);
    true
}

/// `s` without its last `suffix_len` characters, where it ends with `suffix`.
pub fn strip_suffix(s: &str, suffix: &str) -> (r: Option<String>)
    ensures
        r is Some <==> has_suffix(s@, suffix@),
        r is Some ==> r->0@ == s@.subrange(0, s@.len() - suffix@.len()),
        r is Some ==> r->0@ + suffix@ == s@,
{
    if ends_with(s, suffix) {
        let n = s.unicode_len();
        let m = suffix.unicode_len();
        let head = s.substring_char(0, n - m);
        assert(head@ + suffix@ =~= s@);
        Some(head.to_owned())
    } else {
        None
    }
}

/// `s` without its first `prefix` characters, where it starts with `prefix`.
pub fn strip_prefix(s: &str, prefix: &str) -> (r: Option<String>)
    ensures
        r is Some <==> has_prefix(s@, prefix@),
        r is Some ==> r->0@ == s@.subrange(prefix@.len() as int, s@.len() as int),
{
    if starts_with(s, prefix) {
        let n = s.unicode_len();
        let m = prefix.unicode_len();
        let tail = s.substring_char(m, n);
        Some(tail.to_owned())
    } else {
        None
    }
}

/// Whether `a` and `b` hold the same characters.
pub fn same_text(a: &str, b: &str) -> (r: bool)
    ensures
        r == (a@ == b@),
{
    let n = a.unicode_len();
    if n != b.unicode_len() {
        return false;
    }
    let mut i: usize = 0;
    while i < n
        invariant
            n == a@.len(),
            n == b@.len(),
            i <= n,
            forall|j: int| 0 <= j < i ==> a@[j] == b@[j],
        decreases n - i,
    {
        if a.get_char(i) != b.get_char(i) {
            return false;
        }
        i += 1;
    }
    assert(a@ =~= b@);
    true
}

/// The concatenation of `a` and `b`.
pub fn concat(a: &str, b: &str) -> (r: String)
    ensures
        r@ == a@ + b@,
{
    let mut s = String::from_str(a);
    s.append(b);
    s
}

/// `k` is where the last component of `path` starts: no '/' from `k` on,
/// and `k` is the start or follows a '/'.
pub open spec fn is_base_start(path: Seq<char>, k: int) -> bool {
    &&& 0 <= k <= path.len()
    &&& forall|j: int| k <= j < path.len() ==> path[j] != '/'
    &&& (k == 0 || path[k - 1] == '/')
}

/// The last component of a '/'-separated path: what follows its last '/'.
pub open spec fn base_name(path: Seq<char>) -> Seq<char> {
    path.subrange(choose|k: int| is_base_start(path, k), path.len() as int)
}

/// There is exactly one place where the last component starts.
pub proof fn lemma_base_start_unique(path: Seq<char>, k: int)
    requires
        is_base_start(path, k),
    ensures
        (choose|k2: int| is_base_start(path, k2)) == k,
        base_name(path) == path.subrange(k, path.len() as int),
{
    let c = choose|k2: int| is_base_start(path, k2);
    assert(is_base_start(path, c));
    if c < k {
        assert(path[k - 1] == '/');
    } else if c > k {
        assert(path[c - 1] == '/');
    }
}

/// The last component of `path`.
pub fn last_component(path: &str) -> (r: String)
    ensures
        r@ == base_name(path@),
{
    let n = path.unicode_len();
    let mut k: usize = n;
    while k > 0
        invariant
            n == path@.len(),
            k <= n,
            forall|j: int| k <= j < n ==> path@[j] != '/',
        ensures
            is_base_start(path@, k as int),
        decreases k,
    {
        if path.get_char(k - 1) == '/' {
            break;
        }
        k -= 1;
    }
    proof {
        lemma_base_start_unique(path@, k as int);
    }
    path.substring_char(k, n).to_owned()
}

} // verus!
