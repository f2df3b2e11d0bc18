use vstd::prelude::*;
use crate::parser::{is_digit, is_space, occurs_at, lit_at, digits_value, parse_digits, in_class, CharClass};

verus! {

/// Whether two strings hold the same characters.
pub fn str_eq(a: &str, b: &str) -> (r: bool)
    ensures
        r == (a@ == b@),
{
    let n = a.unicode_len();
    if n != b.unicode_len() {
        return false;
    }
    let mut i: usize = 0;
    while i < n
        invariant
            n == a@.len(),
            n == b@.len(),
            i <= n,
            forall|k: int| 0 <= k < i ==> a@[k] == b@[k],
        decreases n - i,
    {
        if a.get_char(i) != b.get_char(i) {
            return false;
        }
        i = i + 1;
    }
    assert(a@ =~= b@);
    true
}

/// The characters of `s`.
pub fn chars_of(s: &str) -> (r: Vec<char>)
    ensures
        r@ == s@,
{
    let n = s.unicode_len();
    let mut v: Vec<char> = Vec::new();
    let mut i: usize = 0;
    while i < n
        invariant
            n == s@.len(),
            i <= n,
            v@ == s@.subrange(0, i as int),
        decreases n - i,
    {
        v.push(s.get_char(i));
        i = i + 1;
        assert(v@ =~= s@.subrange(0, i as int));
    }
    assert(v@ =~= s@);
    v
}

/// The characters `v[a..b]` as a vector of their own.
pub fn copy_range(v: &Vec<char>, a: usize, b: usize) -> (r: Vec<char>)
    requires
        a <= b <= v@.len(),
    ensures
        r@ == v@.subrange(a as int, b as int),
{
    let mut r: Vec<char> = Vec::new();
    let mut i = a;
    while i < b
        invariant
            a <= i <= b <= v@.len(),
            r@ == v@.subrange(a as int, i as int),
        decreases b - i,
    {
        r.push(v[i]);
        i = i + 1;
        assert(r@ =~= v@.subrange(a as int, i as int));
    }
    r
}


/// Relies on std's `FromIterator<char>` for `String`: the string holds the
/// characters in order.
#[verifier::external_body]
pub(crate) fn string_from_chars(v: &Vec<char>) -> (r: String)
    ensures
        r@ == v@,
{
    v.iter().collect()
}

pub open spec fn lead_ws(s: Seq<char>, i: int) -> int
    decreases s.len() - i,
{
    if 0 <= i < s.len() && is_space(s[i]) {
        lead_ws(s, i + 1)
    } else {
        i
    }
}

pub open spec fn tail_ws(s: Seq<char>, n: int) -> int
    decreases n,
{
    if n > 0 && is_space(s[n - 1]) {
        tail_ws(s, n - 1)
    } else {
        n
    }
}

/// `s` without leading and trailing whitespace.
pub open spec fn trim_seq(s: Seq<char>) -> Seq<char> {
    let a = lead_ws(s, 0);
    let b = tail_ws(s, s.len() as int);
    if a < b { s.subrange(a, b) } else { seq![] }
}

pub(crate) proof fn lemma_tail_ws(s: Seq<char>, n: int)
    requires
        0 <= n <= s.len(),
    ensures
        0 <= tail_ws(s, n) <= n,
    decreases n,
{
    if n > 0 && is_space(s[n - 1]) {
        lemma_tail_ws(s, n - 1);
    }
}

fn space(c: char) -> (r: bool)
    ensures
        r == is_space(c),
{
    c == ' ' || c == '\t' || c == '\n' || c == '\r' || c == '\x0B' || c == '\x0C'
}

/// Computes `trim_seq`.
pub fn trimmed(v: &Vec<char>) -> (r: Vec<char>)
    ensures
        r@ == trim_seq(v@),
{
    let mut a: usize = 0;
    while a < v.len() && space(v[a])
        invariant
            a <= v@.len(),
            lead_ws(v@, a as int) == lead_ws(v@, 0),
        decreases v@.len() - a,
    {
        a = a + 1;
    }
    let mut b: usize = v.len();
    while b > 0 && space(v[b - 1])
        invariant
            b <= v@.len(),
            tail_ws(v@, b as int) == tail_ws(v@, v@.len() as int),
        decreases b,
    {
        b = b - 1;
    }
    if a < b {
        copy_range(v, a, b)
    } else {
        Vec::new()
    }
}

pub open spec fn contains_seq(s: Seq<char>, pat: Seq<char>) -> bool {
    exists|i: int| occurs_at(s, i, pat)
}

/// Computes `contains_seq`.
pub fn contains_lit(v: &Vec<char>, pat: &str) -> (r: bool)
    ensures
        r == contains_seq(v@, pat@),
{
    let mut i: usize = 0;
    while i < v.len()
        invariant
            i <= v@.len(),
            forall|j: int| 0 <= j < i ==> !occurs_at(v@, j, pat@),
        decreases v@.len() - i,
    {
        if lit_at(v, i, pat) {
            return true;
        }
        i = i + 1;
    }
    if lit_at(v, v.len(), pat) {
        return true;
    }
    assert forall|j: int| !occurs_at(v@, j, pat@) by {
        if 0 <= j && j < v@.len() {
            assert(j < i);
        }
    }
    false
}

/// Position of the first `c` in `s`, at or after `i`.
pub open spec fn first_index(s: Seq<char>, c: char, i: int) -> Option<int>
    decreases s.len() - i,
{
    if i < 0 || i >= s.len() {
        None
    } else if s[i] == c {
        Some(i)
    } else {
        first_index(s, c, i + 1)
    }
}

pub fn find_char(v: &Vec<char>, c: char) -> (r: Option<usize>)
    ensures
        r matches Some(i) ==> first_index(v@, c, 0) == Some(i as int) && i < v@.len(),
        r is None ==> first_index(v@, c, 0) is None,
{
    let mut i: usize = 0;
    while i < v.len()
        invariant
            i <= v@.len(),
            first_index(v@, c, 0) == first_index(v@, c, i as int),
        decreases v@.len() - i,
    {
        if v[i] == c {
            return Some(i);
        }
        i = i + 1;
    }
    None
}

/// Position of the last `c` in `s[..n]`.
pub open spec fn last_index(s: Seq<char>, c: char, n: int) -> Option<int>
    decreases n,
{
    if n <= 0 || n > s.len() {
        None
    } else if s[n - 1] == c {
        Some(n - 1)
    } else {
        last_index(s, c, n - 1)
    }
}

pub fn rfind_char(v: &Vec<char>, c: char) -> (r: Option<usize>)
    ensures
        r matches Some(i) ==> last_index(v@, c, v@.len() as int) == Some(i as int) && i < v@.len(),
        r is None ==> last_index(v@, c, v@.len() as int) is None,
{
    let mut n: usize = v.len();
    while n > 0
        invariant
            n <= v@.len(),
            last_index(v@, c, v@.len() as int) == last_index(v@, c, n as int),
        decreases n,
    {
        if v[n - 1] == c {
            return Some(n - 1);
        }
        n = n - 1;
    }
    None
}

/// `s` with every occurrence of the non-empty `pat` removed, left to right.
pub open spec fn remove_all(s: Seq<char>, pat: Seq<char>) -> Seq<char>
    decreases s.len(),
{
    if s.len() == 0 {
        s
    } else if pat.len() > 0 && occurs_at(s, 0, pat) {
        remove_all(s.skip(pat.len() as int), pat)
    } else {
        seq![s[0]] + remove_all(s.skip(1), pat)
    }
}

/// Computes `remove_all`.
pub fn remove_lit(v: &Vec<char>, pat: &str) -> (r: Vec<char>)
    ensures
        r@ == remove_all(v@, pat@),
{
    let n = pat.unicode_len();
    let mut out: Vec<char> = Vec::new();
    let mut i: usize = 0;
    assert(v@.skip(0) =~= v@);
    assert(out@ + remove_all(v@.skip(0), pat@) =~= remove_all(v@, pat@));
    while i < v.len()
        invariant
            n == pat@.len(),
            i <= v@.len(),
            out@ + remove_all(v@.skip(i as int), pat@) == remove_all(v@, pat@),
        decreases v@.len() - i,
    {
        let ghost rest = v@.skip(i as int);
        let hit = n > 0 && lit_at(v, i, pat);
        proof {
            if n > 0 {
                assert(occurs_at(rest, 0, pat@) == occurs_at(v@, i as int, pat@)) by {
                    if i + n <= v@.len() {
                        assert(rest.subrange(0, n as int) =~= v@.subrange(i as int, i + n));
                    }
                }
            }
        }
        if hit {
            assert(rest.skip(n as int) =~= v@.skip(i + n));
            i = i + n;
        } else {
            let ghost before = out@;
            out.push(v[i]);
            assert(rest.skip(1) =~= v@.skip(i + 1));
            assert(out@ + remove_all(v@.skip(i + 1), pat@) =~= before + (seq![rest[0]] + remove_all(rest.skip(1), pat@)));
            i = i + 1;
        }
    }
    assert(v@.skip(i as int).len() == 0);
    assert(out@ + remove_all(v@.skip(i as int), pat@) =~= out@);
    out
}

/// `s` without any of the characters `a`, `b`, `c`.
pub open spec fn strip3(s: Seq<char>, a: char, b: char, c: char) -> Seq<char>
    decreases s.len(),
{
    if s.len() == 0 {
        s
    } else if s.last() == a || s.last() == b || s.last() == c {
        strip3(s.drop_last(), a, b, c)
    } else {
        strip3(s.drop_last(), a, b, c).push(s.last())
    }
}

/// Computes `strip3`.
pub fn strip_chars(v: &Vec<char>, a: char, b: char, c: char) -> (r: Vec<char>)
    ensures
        r@ == strip3(v@, a, b, c),
{
    let mut out: Vec<char> = Vec::new();
    let mut i: usize = 0;
    while i < v.len()
        invariant
            i <= v@.len(),
            out@ == strip3(v@.take(i as int), a, b, c),
        decreases v@.len() - i,
    {
        assert(v@.take(i + 1).drop_last() =~= v@.take(i as int));
        let x = v[i];
        if x != a && x != b && x != c {
            out.push(x);
        }
        i = i + 1;
    }
    assert(v@.take(v@.len() as int) =~= v@);
    out
}

/// The value of a non-empty run of digits that fits in `i32`.
pub open spec fn int_value(s: Seq<char>) -> Option<i32> {
    if s.len() > 0 && (forall|i: int| 0 <= i < s.len() ==> is_digit(#[trigger] s[i])) && digits_value(s)
        <= i32::MAX {
        Some(digits_value(s) as i32)
    } else {
        None
    }
}

/// Computes `int_value`.
pub fn parse_int(v: &Vec<char>) -> (r: Option<i32>)
    ensures
        r == int_value(v@),
{
    let mut i: usize = 0;
    while i < v.len()
        invariant
            i <= v@.len(),
            forall|j: int| 0 <= j < i ==> is_digit(#[trigger] v@[j]),
        decreases v@.len() - i,
    {
        if !('0' <= v[i] && v[i] <= '9') {
            return None;
        }
        i = i + 1;
    }
    if v.len() == 0 {
        return None;
    }
    assert forall|j: int| 0 <= j < v@.len() implies in_class(#[trigger] v@[j], CharClass::DigitOrComma) by {}
    assert(v@.subrange(0, v@.len() as int) =~= v@);
    match parse_digits(v, 0, v.len(), i32::MAX as u64) {
        Some(x) => Some(x as i32),
        None => {
            assert(is_digit(v@[0]));
            None
        },
    }
}

} // verus!
