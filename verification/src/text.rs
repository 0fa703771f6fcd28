//! Text helpers over the character view of strings.

use vstd::prelude::*;

verus! {

broadcast use vstd::string::group_string_axioms;

/// `suffix` is the tail of `s`.
pub open spec fn has_suffix(s: Seq<char>, suffix: Seq<char>) -> bool {
    &&& suffix.len() <= s.len()
    &&& s.subrange(s.len() - suffix.len(), s.len() as int) == suffix
}

/// The number of leading occurrences of `c` in `s` at or after `from`.
pub open spec fn leading_run(s: Seq<char>, c: char, from: int) -> int
    decreases s.len() - from,
{
    if 0 <= from < s.len() && s[from] == c {
        1 + leading_run(s, c, from + 1)
    } else {
        0
    }
}

/// `s` without its leading occurrences of `c`.
pub open spec fn without_leading(s: Seq<char>, c: char) -> Seq<char> {
    s.subrange(leading_run(s, c, 0), s.len() as int)
}

/// Lexicographic comparison by character value from index `from` on, for
/// two texts that agree before `from`.
pub open spec fn lex_lt_from(a: Seq<char>, b: Seq<char>, from: int) -> bool
    decreases a.len() - from,
{
    if from < 0 || from >= b.len() {
        false
    } else if from >= a.len() {
        true
    } else if a[from] != b[from] {
        a[from] < b[from]
    } else {
        lex_lt_from(a, b, from + 1)
    }
}

/// `a` sorts strictly before `b` in lexicographic order by character value:
/// a proper prefix comes first, else the first differing character decides.
pub open spec fn lex_lt(a: Seq<char>, b: Seq<char>) -> bool {
    lex_lt_from(a, b, 0)
}

/// The characters of `s`, in order.
pub fn chars_of(s: &str) -> (out: Vec<char>)
    ensures
        out@ == s@,
{
    let mut out: Vec<char> = Vec::new();
    for c in it: s.chars()
        invariant
            it.seq() == s@,
            out@ == it.seq().subrange(0, it.index() as int),
    {
        out.push(c);
    }
    out
}

/// Whether two texts hold the same characters.
pub fn same_text(a: &str, b: &str) -> (same: bool)
    ensures
        same == (a@ == b@),
{
    let x = chars_of(a);
    let y = chars_of(b);
    if x.len() != y.len() {
        return false;
    }
    let mut i: usize = 0;
    while i < x.len()
        invariant
            i <= x.len(),
            x.len() == y.len(),
            x@ == a@,
            y@ == b@,
            forall|k: int| 0 <= k < i ==> x@[k] == y@[k],
        decreases x.len() - i,
    {
        if x[i] != y[i] {
            return false;
        }
        i += 1;
    }
    assert(x@ =~= y@);
    true
}

/// Whether `s` ends with `suffix`.
pub fn ends_with(s: &str, suffix: &str) -> (yes: bool)
    ensures
        yes == has_suffix(s@, suffix@),
{
    let x = chars_of(s);
    let y = chars_of(suffix);
    if y.len() > x.len() {
        return false;
    }
    let start: usize = x.len() - y.len();
    let ghost tail = x@.subrange(start as int, x.len() as int);
    let mut i: usize = 0;
    while i < y.len()
        invariant
            i <= y.len(),
            start + y.len() == x.len(),
            x@ == s@,
            y@ == suffix@,
            tail == x@.subrange(start as int, x.len() as int),
            forall|k: int| 0 <= k < i ==> tail[k] == y@[k],
        decreases y.len() - i,
    {
        if x[start + i] != y[i] {
            assert(tail[i as int] != y@[i as int]);
            return false;
        }
        i += 1;
    }
    assert(tail =~= y@);
    true
}

/// Whether `a` sorts strictly before `b` lexicographically by character value.
pub fn sorts_before(a: &str, b: &str) -> (less: bool)
    ensures
        less == lex_lt(a@, b@),
{
    let x = chars_of(a);
    let y = chars_of(b);
    let mut i: usize = 0;
    while i < x.len() && i < y.len()
        invariant
            i <= x.len(),
            i <= y.len(),
            x@ == a@,
            y@ == b@,
            lex_lt(x@, y@) == lex_lt_from(x@, y@, i as int),
        decreases x.len() - i,
    {
        if x[i] != y[i] {
            return x[i] < y[i];
        }
        i += 1;
    }
    i < y.len()
}

/// `s` without its leading occurrences of `c`.
pub fn trim_leading(s: &str, c: char) -> (out: String)
    ensures
        out@ == without_leading(s@, c),
{
    let x = chars_of(s);
    let mut k: usize = 0;
    while k < x.len() && x[k] == c
        invariant
            k <= x.len(),
            leading_run(x@, c, 0) == k + leading_run(x@, c, k as int),
        decreases x.len() - k,
    {
        k += 1;
    }
    s.substring_char(k, x.len()).to_owned()
}

/// `a` followed by `b`.
pub fn joined(a: &str, b: &str) -> (out: String)
    ensures
        out@ == a@ + b@,
{
    let mut out = a.to_owned();
    out.append(b);
    out
}

/// Lexicographic order never ranks a text before itself, nor two texts
/// before each other.
pub proof fn lex_lt_asymmetric(a: Seq<char>, b: Seq<char>, from: int)
    requires
        0 <= from,
    ensures
        !(lex_lt_from(a, b, from) && lex_lt_from(b, a, from)),
    decreases a.len() - from,
{
    if from < a.len() && from < b.len() && a[from] == b[from] {
        lex_lt_asymmetric(a, b, from + 1);
    }
}

/// Two texts of which neither sorts before the other from `from` on have the
/// same length and the same characters from there on.
pub proof fn lex_lt_total(a: Seq<char>, b: Seq<char>, from: int)
    requires
        0 <= from <= a.len(),
        from <= b.len(),
        !lex_lt_from(a, b, from),
        !lex_lt_from(b, a, from),
    ensures
        a.len() == b.len(),
        forall|k: int| from <= k < a.len() ==> a[k] == b[k],
    decreases a.len() - from,
{
    if from < a.len() && from < b.len() && a[from] == b[from] {
        lex_lt_total(a, b, from + 1);
    }
}

/// If `a` sorts before `c`, then any `b` has `a` before it or comes before `c`.
pub proof fn lex_lt_splits(a: Seq<char>, b: Seq<char>, c: Seq<char>, from: int)
    requires
        0 <= from,
        lex_lt_from(a, c, from),
    ensures
        lex_lt_from(a, b, from) || lex_lt_from(b, c, from),
    decreases c.len() - from,
{
    if from < a.len() && from < b.len() && from < c.len() && a[from] == c[from] && a[from]
        == b[from] {
        lex_lt_splits(a, b, c, from + 1);
    }
}

} // verus!
