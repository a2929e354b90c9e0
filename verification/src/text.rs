//! Small verified string helpers shared by the display and command-line logic.

use vstd::prelude::*;
use vstd::string::{StrSliceExecFns, StringExecFns};

verus! {

/// `pat` occurs in `s` starting at index `i`.
pub open spec fn occurs_at(s: Seq<char>, pat: Seq<char>, i: int) -> bool {
    0 <= i && i + pat.len() <= s.len() && s.subrange(i, i + pat.len()) == pat
}

/// `pat` occurs somewhere in `s`.
pub open spec fn contains_seq(s: Seq<char>, pat: Seq<char>) -> bool {
    exists|i: int| occurs_at(s, pat, i)
}

/// The parts joined with `sep` between each two neighbours.
pub open spec fn joined(parts: Seq<Seq<char>>, sep: Seq<char>) -> Seq<char>
    decreases parts.len(),
{
    if parts.len() == 0 {
        Seq::empty()
    } else if parts.len() == 1 {
        parts[0]
    } else {
        joined(parts.drop_last(), sep) + sep + parts.last()
    }
}

/// The character views of a list of strings.
pub open spec fn views(parts: Seq<String>) -> Seq<Seq<char>> {
    parts.map_values(|p: String| p@)
}

/// Whether `s[from..from + pat.len()]` equals `pat`, character by character.
fn matches_at(s: &str, pat: &str, from: usize) -> (r: bool)
    requires
        from + pat@.len() <= s@.len(),
        s@.len() <= usize::MAX,
    ensures
        r == (s@.subrange(from as int, from + pat@.len()) == pat@),
{
    let n = pat.unicode_len();
    let mut k: usize = 0;
    while k < n
        invariant
            n == pat@.len(),
            from + n <= s@.len(),
            s@.len() <= usize::MAX,
            k <= n,
            forall|j: int| 0 <= j < k ==> s@[from + j] == pat@[j],
        decreases n - k,
    {
        if s.get_char(from + k) != pat.get_char(k) {
            assert(s@.subrange(from as int, from + n)[k as int] != pat@[k as int]);
            return false;
        }
        k = k + 1;
    }
    assert(s@.subrange(from as int, from + n) =~= pat@);
    true
}

/// Whether two strings hold the same characters.
pub fn str_eq(a: &str, b: &str) -> (r: bool)
    ensures
        r == (a@ == b@),
{
    let n = a.unicode_len();
    if n != b.unicode_len() {
        return false;
    }
    let r = matches_at(a, b, 0);
    assert(a@.subrange(0, n as int) =~= a@);
    r
}

/// Whether `s` begins with `prefix`.
pub fn starts_with(s: &str, prefix: &str) -> (r: bool)
    ensures
        r == occurs_at(s@, prefix@, 0),
{
    if prefix.unicode_len() > s.unicode_len() {
        return false;
    }
    matches_at(s, prefix, 0)
}

/// Whether `pat` occurs in `s`.
pub fn contains(s: &str, pat: &str) -> (r: bool)
    ensures
        r == contains_seq(s@, pat@),
{
    let n = s.unicode_len();
    let m = pat.unicode_len();
    if m > n {
        assert forall|i: int| !occurs_at(s@, pat@, i) by {}
        return false;
    }
    let last = n - m;
    let mut i: usize = 0;
    while i < last
        invariant
            n == s@.len(),
            m == pat@.len(),
            last == n - m,
            i <= last,
            forall|j: int| 0 <= j < i ==> !occurs_at(s@, pat@, j),
        decreases last - i,
    {
        if matches_at(s, pat, i) {
            assert(occurs_at(s@, pat@, i as int));
            return true;
        }
        i = i + 1;
    }
    if matches_at(s, pat, last) {
        assert(occurs_at(s@, pat@, last as int));
        return true;
    }
    assert forall|j: int| !occurs_at(s@, pat@, j) by {
        if 0 <= j && j + m <= n {
            assert(j <= last);
        }
    }
    false
}

/// The characters of `s` from index `from` on.
pub fn suffix_from(s: &str, from: usize) -> (r: String)
    requires
        from <= s@.len(),
    ensures
        r@ == s@.subrange(from as int, s@.len() as int),
{
    let n = s.unicode_len();
    String::from_str(s.substring_char(from, n))
}

/// The parts joined with `sep` between each two neighbours.
pub fn join(parts: &Vec<String>, sep: &str) -> (r: String)
    ensures
        r@ == joined(views(parts@), sep@),
{
    let mut out = String::new();
    let n = parts.len();
    let mut i: usize = 0;
    while i < n
        invariant
            n == parts@.len(),
            i <= n,
            out@ == joined(views(parts@.subrange(0, i as int)), sep@),
        decreases n - i,
    {
        let ghost before = parts@.subrange(0, i as int);
        let ghost after = parts@.subrange(0, i + 1);
        proof {
            assert(views(after).drop_last() =~= views(before));
            assert(views(after).last() == parts@[i as int]@);
        }
        if i > 0 {
            out.append(sep);
        }
        out.append(parts[i].as_str());
        proof {
            if i == 0 {
                assert(views(after) =~= seq![parts@[0]@]);
                assert(out@ =~= parts@[0]@);
            }
        }
        i = i + 1;
    }
    assert(parts@.subrange(0, n as int) =~= parts@);
    out
}

/// An element is in a concatenation exactly when it is in one of its parts.
pub proof fn lemma_contains_concat<T>(a: Seq<T>, b: Seq<T>, x: T)
    ensures
        (a + b).contains(x) <==> a.contains(x) || b.contains(x),
{
    if a.contains(x) {
        let i = choose|i: int| 0 <= i < a.len() && a[i] == x;
        assert((a + b)[i] == x);
    }
    if b.contains(x) {
        let i = choose|i: int| 0 <= i < b.len() && b[i] == x;
        assert((a + b)[a.len() + i] == x);
    }
    if (a + b).contains(x) {
        let i = choose|i: int| 0 <= i < (a + b).len() && (a + b)[i] == x;
        if i < a.len() {
            assert(a[i] == x);
        } else {
            assert(b[i - a.len()] == x);
        }
    }
}

} // verus!
