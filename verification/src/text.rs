//! Text primitives over the character sequence of a string: prefixes,
//! first occurrences of a pattern, splitting at a separator and trimming.
use vstd::prelude::*;

verus! {

/// `p` is a prefix of `s`.
pub open spec fn is_prefix(p: Seq<char>, s: Seq<char>) -> bool {
    p.len() <= s.len() && s.subrange(0, p.len() as int) == p
}

/// `pat` occurs in `s` starting at index `i`.
pub open spec fn occurs_at(s: Seq<char>, pat: Seq<char>, i: int) -> bool {
    0 <= i && i + pat.len() <= s.len() && s.subrange(i, i + pat.len()) == pat
}

/// `pat` occurs somewhere in `s`.
pub open spec fn contains(s: Seq<char>, pat: Seq<char>) -> bool {
    exists|i: int| occurs_at(s, pat, i)
}

/// `i` is the leftmost index at which `pat` occurs in `s`.
pub open spec fn is_first_occurrence(s: Seq<char>, pat: Seq<char>, i: int) -> bool {
    occurs_at(s, pat, i) && forall|j: int| 0 <= j < i ==> !occurs_at(s, pat, j)
}

/// The leftmost index at which `pat` occurs in `s` (meaningful when `contains(s, pat)`).
pub open spec fn first_occurrence(s: Seq<char>, pat: Seq<char>) -> int {
    choose|i: int| is_first_occurrence(s, pat, i)
}

/// `s` split around the first occurrence of `sep`: the text before it and the text after it.
pub open spec fn split_once(s: Seq<char>, sep: Seq<char>) -> Option<(Seq<char>, Seq<char>)> {
    if contains(s, sep) {
        let i = first_occurrence(s, sep);
        Some((s.take(i), s.skip(i + sep.len())))
    } else {
        None
    }
}

/// `s` without the prefix `p`, if `p` is a prefix of `s`.
pub open spec fn strip_prefix(s: Seq<char>, p: Seq<char>) -> Option<Seq<char>> {
    if is_prefix(p, s) {
        Some(s.skip(p.len() as int))
    } else {
        None
    }
}

/// Whether a character has the Unicode `White_Space` property (the property that
/// `char::is_whitespace` tests): tab to carriage return, space, next line,
/// no-break space, ogham space mark, the spaces from en quad to hair space, line
/// and paragraph separators, narrow no-break space, medium mathematical space and
/// ideographic space.
pub open spec fn is_whitespace(c: char) -> bool {
    let n = c as u32;
    ||| 0x09 <= n <= 0x0D
    ||| n == 0x20
    ||| n == 0x85
    ||| n == 0xA0
    ||| n == 0x1680
    ||| 0x2000 <= n <= 0x200A
    ||| n == 0x2028
    ||| n == 0x2029
    ||| n == 0x202F
    ||| n == 0x205F
    ||| n == 0x3000
}

/// `s` without its leading whitespace.
pub open spec fn trim_start(s: Seq<char>) -> Seq<char>
    decreases s.len(),
{
    if s.len() > 0 && is_whitespace(s[0]) {
        trim_start(s.drop_first())
    } else {
        s
    }
}

/// `s` without its trailing whitespace.
pub open spec fn trim_end(s: Seq<char>) -> Seq<char>
    decreases s.len(),
{
    if s.len() > 0 && is_whitespace(s.last()) {
        trim_end(s.drop_last())
    } else {
        s
    }
}

/// `s` without leading and trailing whitespace.
pub open spec fn trim(s: Seq<char>) -> Seq<char> {
    trim_end(trim_start(s))
}

/// A pattern that occurs somewhere has a leftmost occurrence.
pub proof fn lemma_first_occurrence_exists(s: Seq<char>, pat: Seq<char>, i: int)
    requires
        occurs_at(s, pat, i),
    ensures
        exists|k: int| is_first_occurrence(s, pat, k),
    decreases i,
{
    if exists|j: int| 0 <= j < i && occurs_at(s, pat, j) {
        let j = choose|j: int| 0 <= j < i && occurs_at(s, pat, j);
        lemma_first_occurrence_exists(s, pat, j);
    } else {
        assert(is_first_occurrence(s, pat, i));
    }
}

/// The leftmost occurrence is unique.
pub proof fn lemma_first_occurrence_unique(s: Seq<char>, pat: Seq<char>, i: int)
    requires
        is_first_occurrence(s, pat, i),
    ensures
        first_occurrence(s, pat) == i,
{
    let k = first_occurrence(s, pat);
    assert(is_first_occurrence(s, pat, k));
    if k < i {
        assert(!occurs_at(s, pat, k));
    }
    if i < k {
        assert(!occurs_at(s, pat, i));
    }
}

/// Splitting at a separator that occurs nowhere before index `i`, but at `i`,
/// cuts the text at `i`.
pub proof fn lemma_split_once_at(s: Seq<char>, sep: Seq<char>, i: int)
    requires
        is_first_occurrence(s, sep, i),
    ensures
        split_once(s, sep) == Some((s.take(i), s.skip(i + sep.len()))),
{
    lemma_first_occurrence_unique(s, sep, i);
}

/// Whether `c` has the Unicode `White_Space` property.
pub fn char_is_whitespace(c: char) -> (b: bool)
    ensures
        b == is_whitespace(c),
{
    let n = c as u32;
    (0x09 <= n && n <= 0x0D) || n == 0x20 || n == 0x85 || n == 0xA0 || n == 0x1680 || (0x2000
        <= n && n <= 0x200A) || n == 0x2028 || n == 0x2029 || n == 0x202F || n == 0x205F || n
        == 0x3000
}

/// The characters of a string slice, in order.
pub fn chars_of(s: &str) -> (v: Vec<char>)
    ensures
        v@ == s@,
{
    let mut v: Vec<char> = Vec::new();
    for c in it: s.chars()
        invariant
            it.seq() == s@,
            v@ == it.seq().take(it.index() as int),
    {
        v.push(c);
    }
    v
}

/// Whether `pat` occurs in `cs` at index `i`.
fn matches_at(cs: &Vec<char>, ps: &Vec<char>, i: usize) -> (b: bool)
    ensures
        b == occurs_at(cs@, ps@, i as int),
{
    let n = cs.len();
    let m = ps.len();
    if m > n || i > n - m {
        return false;
    }
    let mut k: usize = 0;
    while k < m
        invariant
            n == cs@.len(),
            m == ps@.len(),
            i + m <= n,
            k <= m,
            forall|t: int| 0 <= t < k ==> cs@[i + t] == ps@[t],
        decreases m - k,
    {
        if cs[i + k] != ps[k] {
            assert(cs@.subrange(i as int, i + m)[k as int] != ps@[k as int]);
            return false;
        }
        k = k + 1;
    }
    assert(cs@.subrange(i as int, i + m) =~= ps@);
    true
}

/// Whether `prefix` is a prefix of `s`.
pub fn starts_with(s: &str, prefix: &str) -> (b: bool)
    ensures
        b == is_prefix(prefix@, s@),
{
    let cs = chars_of(s);
    let ps = chars_of(prefix);
    matches_at(&cs, &ps, 0)
}

/// The leftmost index at which `pat` occurs in `cs`, if any.
fn find_chars(cs: &Vec<char>, ps: &Vec<char>) -> (r: Option<usize>)
    ensures
        r is None ==> !contains(cs@, ps@),
        r matches Some(i) ==> is_first_occurrence(cs@, ps@, i as int),
{
    let n = cs.len();
    let m = ps.len();
    if m > n {
        assert forall|j: int| !occurs_at(cs@, ps@, j) by {}
        return None;
    }
    if m == 0 {
        assert(cs@.subrange(0, 0) =~= ps@);
        assert(is_first_occurrence(cs@, ps@, 0));
        return Some(0);
    }
    let mut i: usize = 0;
    while i <= n - m
        invariant
            n == cs@.len(),
            m == ps@.len(),
            1 <= m <= n,
            i <= n - m + 1,
            forall|j: int| 0 <= j < i ==> !occurs_at(cs@, ps@, j),
        decreases n - m + 1 - i,
    {
        if matches_at(cs, ps, i) {
            return Some(i);
        }
        i = i + 1;
    }
    assert forall|j: int| !occurs_at(cs@, ps@, j) by {
        if 0 <= j < i {
        }
    }
    None
}

/// The leftmost character index at which `pat` occurs in `s`, if any.
pub fn find(s: &str, pat: &str) -> (r: Option<usize>)
    ensures
        r is None ==> !contains(s@, pat@),
        r matches Some(i) ==> is_first_occurrence(s@, pat@, i as int),
{
    let cs = chars_of(s);
    let ps = chars_of(pat);
    find_chars(&cs, &ps)
}

/// Whether `pat` occurs in `s`.
pub fn contains_str(s: &str, pat: &str) -> (b: bool)
    ensures
        b == contains(s@, pat@),
{
    match find(s, pat) {
        Some(i) => {
            assert(occurs_at(s@, pat@, i as int));
            true
        },
        None => false,
    }
}

/// `s` without the prefix `prefix`, if it starts with it.
pub fn strip_prefix_str<'a>(s: &'a str, prefix: &str) -> (r: Option<&'a str>)
    ensures
        r is Some <==> strip_prefix(s@, prefix@) is Some,
        r matches Some(t) ==> t@ == strip_prefix(s@, prefix@)->Some_0,
{
    if starts_with(s, prefix) {
        let n = s.unicode_len();
        let m = prefix.unicode_len();
        Some(s.substring_char(m, n))
    } else {
        None
    }
}

/// `s` split around the first occurrence of `sep`.
pub fn split_once_str<'a>(s: &'a str, sep: &str) -> (r: Option<(&'a str, &'a str)>)
    ensures
        r is Some <==> split_once(s@, sep@) is Some,
        r matches Some(p) ==> (p.0@, p.1@) == split_once(s@, sep@)->Some_0,
{
    let cs = chars_of(s);
    let ps = chars_of(sep);
    match find_chars(&cs, &ps) {
        Some(i) => {
            proof {
                lemma_split_once_at(s@, sep@, i as int);
            }
            let n = cs.len();
            let before = s.substring_char(0, i);
            let after = s.substring_char(i + ps.len(), n);
            assert(before@ =~= s@.take(i as int));
            assert(after@ =~= s@.skip(i + sep@.len()));
            Some((before, after))
        },
        None => None,
    }
}

/// `s` without leading and trailing whitespace.
pub fn trim_str<'a>(s: &'a str) -> (r: &'a str)
    ensures
        r@ == trim(s@),
{
    let cs = chars_of(s);
    let n = cs.len();
    let mut a: usize = 0;
    assert(s@.skip(0) =~= s@);
    while a < n && char_is_whitespace(cs[a])
        invariant
            n == cs@.len(),
            cs@ == s@,
            a <= n,
            trim_start(s@) == trim_start(s@.skip(a as int)),
        decreases n - a,
    {
        assert(s@.skip(a as int).drop_first() =~= s@.skip(a + 1));
        a = a + 1;
    }
    assert(trim_start(s@) == s@.skip(a as int));
    let mut b: usize = n;
    while b > a && char_is_whitespace(cs[b - 1])
        invariant
            n == cs@.len(),
            cs@ == s@,
            a <= b <= n,
            trim_end(s@.subrange(a as int, n as int)) == trim_end(s@.subrange(a as int, b as int)),
        decreases b - a,
    {
        assert(s@.subrange(a as int, b as int).drop_last() =~= s@.subrange(a as int, b - 1));
        b = b - 1;
    }
    assert(s@.skip(a as int) =~= s@.subrange(a as int, n as int));
    assert(trim_end(s@.subrange(a as int, b as int)) == s@.subrange(a as int, b as int));
    s.substring_char(a, b)
}

/// Whether two strings hold the same characters.
pub fn str_eq(a: &str, b: &str) -> (r: bool)
    ensures
        r == (a@ == b@),
{
    let ca = chars_of(a);
    let cb = chars_of(b);
    if ca.len() != cb.len() {
        return false;
    }
    assert(ca@.subrange(0, ca@.len() as int) =~= ca@);
    let same = matches_at(&ca, &cb, 0);
    same
}

} // verus!
