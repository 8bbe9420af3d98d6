//! Character-level helpers shared by the text rewriting and the asset
//! classification: prefixes, searches and conversions between strings and
//! character vectors.
use vstd::prelude::*;

verus! {

/// Whether `c` is a Unicode white-space character.
pub open spec fn is_space(c: char) -> bool {
    let u = c as u32;
    (0x09 <= u && u <= 0x0D) || u == 0x20 || u == 0x85 || u == 0xA0 || u == 0x1680 || (0x2000
        <= u && u <= 0x200A) || u == 0x2028 || u == 0x2029 || u == 0x202F || u == 0x205F || u
        == 0x3000
}

/// Whether `p` occurs in `s` at position `i`.
pub open spec fn starts_at(s: Seq<char>, i: int, p: Seq<char>) -> bool {
    0 <= i && i + p.len() <= s.len() && s.subrange(i, i + p.len()) == p
}

/// Whether `s` contains `p` at some position.
pub open spec fn contains(s: Seq<char>, p: Seq<char>) -> bool {
    exists|i: int| starts_at(s, i, p)
}

/// Whether `s` ends with `p`.
pub open spec fn ends_with(s: Seq<char>, p: Seq<char>) -> bool {
    p.len() <= s.len() && starts_at(s, s.len() - p.len(), p)
}

/// The first position at or after `j` that holds `a` or `b`, or the length
/// of `s` when there is none.
pub open spec fn next_of(s: Seq<char>, j: int, a: char, b: char) -> int
    decreases s.len() - j,
{
    if j < 0 || j >= s.len() {
        s.len() as int
    } else if s[j] == a || s[j] == b {
        j
    } else {
        next_of(s, j + 1, a, b)
    }
}

/// The first position at or after `j` that holds no white space, or the
/// length of `s` when there is none.
pub open spec fn skip_spaces(s: Seq<char>, j: int) -> int
    decreases s.len() - j,
{
    if j < 0 || j >= s.len() {
        s.len() as int
    } else if !is_space(s[j]) {
        j
    } else {
        skip_spaces(s, j + 1)
    }
}

/// The first position at or after `j` where `p` occurs, or the length of
/// `s` when there is none.
pub open spec fn next_match(s: Seq<char>, j: int, p: Seq<char>) -> int
    decreases s.len() - j,
{
    if j < 0 || j >= s.len() {
        s.len() as int
    } else if starts_at(s, j, p) {
        j
    } else {
        next_match(s, j + 1, p)
    }
}

/// Where `next_match` finds a position inside `s`, the pattern occurs there.
pub proof fn lemma_next_match_found(s: Seq<char>, j: int, p: Seq<char>)
    requires
        0 <= j,
        next_match(s, j, p) < s.len(),
    ensures
        starts_at(s, next_match(s, j, p), p),
    decreases s.len() - j,
{
    if j < s.len() && !starts_at(s, j, p) {
        lemma_next_match_found(s, j + 1, p);
    }
}

/// `next_of` reaches the first position that holds `a` or `b`.
pub proof fn lemma_next_of_first(s: Seq<char>, j: int, k: int, a: char, b: char)
    requires
        0 <= j <= k <= s.len(),
        k == s.len() || s[k] == a || s[k] == b,
        forall|m: int| j <= m < k ==> s[m] != a && s[m] != b,
    ensures
        next_of(s, j, a, b) == k,
    decreases k - j,
{
    if j < k {
        lemma_next_of_first(s, j + 1, k, a, b);
    }
}

/// Whether `c` is white space.
pub fn space(c: char) -> (r: bool)
    ensures
        r == is_space(c),
{
    let u = c as u32;
    (0x09 <= u && u <= 0x0D) || u == 0x20 || u == 0x85 || u == 0xA0 || u == 0x1680 || (0x2000
        <= u && u <= 0x200A) || u == 0x2028 || u == 0x2029 || u == 0x202F || u == 0x205F || u
        == 0x3000
}

/// Relies on `str::chars` collected into a vector: the characters of `s` in order.
#[verifier::external_body]
pub fn chars_of(s: &str) -> (r: Vec<char>)
    ensures
        r@ == s@,
{
    s.chars().collect()
}

/// Relies on collecting characters into a `String`: the text holds them in order.
#[verifier::external_body]
pub fn text_of(v: &Vec<char>) -> (r: String)
    ensures
        r@ == v@,
{
    v.iter().collect()
}

/// Whether `p` occurs in `s` at position `i`.
pub fn starts_at_exec(s: &Vec<char>, i: usize, p: &Vec<char>) -> (r: bool)
    ensures
        r == starts_at(s@, i as int, p@),
{
    if p.len() > s.len() || i > s.len() - p.len() {
        return false;
    }
    let mut k: usize = 0;
    while k < p.len()
        invariant
            k <= p.len(),
            i + p.len() <= s.len(),
            forall|m: int| 0 <= m < k ==> s@[i + m] == p@[m],
        decreases p.len() - k,
    {
        if s[i + k] != p[k] {
            return false;
        }
        k = k + 1;
    }
    assert(s@.subrange(i as int, i + p.len()) =~= p@);
    true
}

/// Whether `s` ends with `p`.
pub fn ends_with_exec(s: &Vec<char>, p: &Vec<char>) -> (r: bool)
    ensures
        r == ends_with(s@, p@),
{
    if p.len() > s.len() {
        return false;
    }
    starts_at_exec(s, s.len() - p.len(), p)
}

/// Whether `s` contains `p`.
pub fn contains_exec(s: &Vec<char>, p: &Vec<char>) -> (r: bool)
    ensures
        r == contains(s@, p@),
{
    if p.len() > s.len() {
        return false;
    }
    let last = s.len() - p.len();
    let mut i: usize = 0;
    while i < last
        invariant
            i <= last,
            last + p.len() == s.len(),
            forall|m: int| 0 <= m < i ==> !starts_at(s@, m, p@),
        decreases last - i,
    {
        if starts_at_exec(s, i, p) {
            return true;
        }
        i = i + 1;
    }
    if starts_at_exec(s, last, p) {
        return true;
    }
    assert forall|m: int| !starts_at(s@, m, p@) by {
        if 0 <= m && m < i {
        } else if m == i {
        }
    }
    false
}

/// The first position at or after `j` that holds `a` or `b`.
pub fn next_of_exec(s: &Vec<char>, j: usize, a: char, b: char) -> (k: usize)
    requires
        j <= s.len(),
    ensures
        k == next_of(s@, j as int, a, b),
        j <= k <= s.len(),
{
    let mut k = j;
    while k < s.len() && s[k] != a && s[k] != b
        invariant
            j <= k <= s.len(),
            next_of(s@, k as int, a, b) == next_of(s@, j as int, a, b),
        decreases s.len() - k,
    {
        k = k + 1;
    }
    k
}

/// The first position at or after `j` where `p` occurs.
pub fn next_match_exec(s: &Vec<char>, j: usize, p: &Vec<char>) -> (k: usize)
    requires
        j <= s.len(),
    ensures
        k == next_match(s@, j as int, p@),
        j <= k <= s.len(),
{
    let mut k = j;
    while k < s.len() && !starts_at_exec(s, k, p)
        invariant
            j <= k <= s.len(),
            next_match(s@, k as int, p@) == next_match(s@, j as int, p@),
        decreases s.len() - k,
    {
        k = k + 1;
    }
    k
}

/// The first position at or after `j` that holds no white space.
pub fn skip_spaces_exec(s: &Vec<char>, j: usize) -> (k: usize)
    requires
        j <= s.len(),
    ensures
        k == skip_spaces(s@, j as int),
        j <= k <= s.len(),
{
    let mut k = j;
    while k < s.len() && space(s[k])
        invariant
            j <= k <= s.len(),
            skip_spaces(s@, k as int) == skip_spaces(s@, j as int),
        decreases s.len() - k,
    {
        k = k + 1;
    }
    k
}

/// The characters of `s` from `from` up to `to`.
pub fn slice_chars(s: &Vec<char>, from: usize, to: usize) -> (r: Vec<char>)
    requires
        from <= to <= s.len(),
    ensures
        r@ == s@.subrange(from as int, to as int),
{
    let mut r: Vec<char> = Vec::new();
    let mut k = from;
    while k < to
        invariant
            from <= k <= to <= s.len(),
            r@ == s@.subrange(from as int, k as int),
        decreases to - k,
    {
        r.push(s[k]);
        k = k + 1;
        assert(r@ =~= s@.subrange(from as int, k as int));
    }
    r
}

/// Whether two character vectors are equal.
pub fn same_chars(a: &Vec<char>, b: &Vec<char>) -> (r: bool)
    ensures
        r == (a@ == b@),
{
    if a.len() != b.len() {
        return false;
    }
    let r = starts_at_exec(a, 0, b);
    assert(a@.subrange(0, b@.len() as int) =~= a@);
    r
}

} // verus!
