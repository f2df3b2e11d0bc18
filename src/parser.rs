use vstd::prelude::*;
use crate::text::{chars_of, copy_range, lemma_tail_ws, tail_ws};
use crate::types::{Component, Message, SelectOption};

verus! {

/// Character classes of the embed grammars (ASCII).
#[derive(Debug, Clone, Copy, PartialEq, Eq, Structural)]
pub enum CharClass {
    Digit,
    Space,
    NotGt,
    NameChar,
    DigitOrComma,
    NotNewline,
    DigitOrDot,
    NotStar,
}

pub open spec fn is_digit(c: char) -> bool {
    '0' <= c && c <= '9'
}

pub open spec fn is_space(c: char) -> bool {
    c == ' ' || c == '\t' || c == '\n' || c == '\r' || c == '\x0B' || c == '\x0C'
}

pub open spec fn is_word(c: char) -> bool {
    is_digit(c) || ('a' <= c && c <= 'z') || ('A' <= c && c <= 'Z') || c == '_'
}

pub open spec fn in_class(c: char, k: CharClass) -> bool {
    match k {
        CharClass::Digit => is_digit(c),
        CharClass::Space => is_space(c),
        CharClass::NotGt => c != '>',
        CharClass::NameChar => is_word(c) || is_space(c),
        CharClass::DigitOrComma => is_digit(c) || c == ',',
        CharClass::NotNewline => c != '\n',
        CharClass::DigitOrDot => is_digit(c) || c == '.',
        CharClass::NotStar => c != '*',
    }
}

pub fn char_in_class(c: char, k: CharClass) -> (r: bool)
    ensures
        r == in_class(c, k),
{
    match k {
        CharClass::Digit => '0' <= c && c <= '9',
        CharClass::Space => c == ' ' || c == '\t' || c == '\n' || c == '\r' || c == '\x0B' || c == '\x0C',
        CharClass::NotGt => c != '>',
        CharClass::NameChar => ('0' <= c && c <= '9') || ('a' <= c && c <= 'z') || ('A' <= c && c <= 'Z')
            || c == '_' || c == ' ' || c == '\t' || c == '\n' || c == '\r' || c == '\x0B' || c == '\x0C',
        CharClass::DigitOrComma => ('0' <= c && c <= '9') || c == ',',
        CharClass::NotNewline => c != '\n',
        CharClass::DigitOrDot => ('0' <= c && c <= '9') || c == '.',
        CharClass::NotStar => c != '*',
    }
}

/// End of the longest run of class `k` that starts at `i`.
pub open spec fn run_end(s: Seq<char>, i: int, k: CharClass) -> int
    decreases s.len() - i,
{
    if 0 <= i < s.len() && in_class(s[i], k) {
        run_end(s, i + 1, k)
    } else {
        i
    }
}

pub(crate) proof fn lemma_run_end(s: Seq<char>, i: int, k: CharClass)
    requires
        0 <= i <= s.len(),
    ensures
        i <= run_end(s, i, k) <= s.len(),
        forall|j: int| i <= j < run_end(s, i, k) ==> in_class(#[trigger] s[j], k),
        run_end(s, i, k) < s.len() ==> !in_class(s[run_end(s, i, k)], k),
    decreases s.len() - i,
{
    if i < s.len() && in_class(s[i], k) {
        lemma_run_end(s, i + 1, k);
    }
}

/// Computes `run_end` on the characters of `v`.
pub fn scan_run(v: &Vec<char>, i: usize, k: CharClass) -> (r: usize)
    requires
        i <= v@.len(),
    ensures
        r as int == run_end(v@, i as int, k),
        i <= r <= v@.len(),
{
    let mut j = i;
    proof {
        lemma_run_end(v@, i as int, k);
    }
    while j < v.len() && char_in_class(v[j], k)
        invariant
            i <= j <= v@.len(),
            run_end(v@, j as int, k) == run_end(v@, i as int, k),
        decreases v@.len() - j,
    {
        j = j + 1;
    }
    j
}

/// The catch grammar at position `i`: a count, whitespace, an emoji tag
/// `<:…>`, whitespace, and a name of word characters and spaces. Gives the
/// count's digits and the span of the name without trailing whitespace.
pub open spec fn catch_at(s: Seq<char>, i: int) -> Option<(Seq<char>, int, int)> {
    let d = run_end(s, i, CharClass::Digit);
    let w = run_end(s, d, CharClass::Space);
    let g = run_end(s, w + 2, CharClass::NotGt);
    let h = run_end(s, g + 1, CharClass::Space);
    let n = run_end(s, h, CharClass::NameChar);
    if d > i && w > d && w + 1 < s.len() && s[w] == '<' && s[w + 1] == ':' && g > w + 2 && g
        < s.len() && h > g + 1 && n > h {
        Some((s.subrange(i, d), h, h + tail_ws(s.subrange(h, n), n - h)))
    } else {
        None
    }
}

/// The leftmost match of the catch grammar at or after `i`.
pub open spec fn first_catch(s: Seq<char>, i: int) -> Option<(Seq<char>, int, int)>
    decreases s.len() - i,
{
    if i < 0 || i >= s.len() {
        None
    } else if catch_at(s, i) is Some {
        catch_at(s, i)
    } else {
        first_catch(s, i + 1)
    }
}

/// The XP grammar at position `i`: `+`, digits and commas, whitespace, `XP`.
/// Gives the digits and commas.
pub open spec fn xp_at(s: Seq<char>, i: int) -> Option<Seq<char>> {
    let e = run_end(s, i + 1, CharClass::DigitOrComma);
    let w = run_end(s, e, CharClass::Space);
    if 0 <= i < s.len() && s[i] == '+' && e > i + 1 && w > e && w + 1 < s.len() && s[w] == 'X'
        && s[w + 1] == 'P' {
        Some(s.subrange(i + 1, e))
    } else {
        None
    }
}

pub open spec fn first_xp(s: Seq<char>, i: int) -> Option<Seq<char>>
    decreases s.len() - i,
{
    if i < 0 || i >= s.len() {
        None
    } else if xp_at(s, i) is Some {
        xp_at(s, i)
    } else {
        first_xp(s, i + 1)
    }
}

/// The decimal value of a run of digits, commas skipped.
pub open spec fn digits_value(ds: Seq<char>) -> int
    decreases ds.len(),
{
    if ds.len() == 0 {
        0
    } else if ds.last() == ',' {
        digits_value(ds.drop_last())
    } else {
        digits_value(ds.drop_last()) * 10 + (ds.last() as int - '0' as int)
    }
}

pub open spec fn has_digit(ds: Seq<char>) -> bool {
    exists|i: int| 0 <= i < ds.len() && is_digit(#[trigger] ds[i])
}

proof fn lemma_digits_value_nonneg(ds: Seq<char>)
    requires
        forall|i: int| 0 <= i < ds.len() ==> in_class(#[trigger] ds[i], CharClass::DigitOrComma),
    ensures
        digits_value(ds) >= 0,
    decreases ds.len(),
{
    if ds.len() > 0 {
        let p = ds.drop_last();
        assert forall|i: int| 0 <= i < p.len() implies in_class(#[trigger] p[i], CharClass::DigitOrComma) by {
            assert(p[i] == ds[i]);
        }
        lemma_digits_value_nonneg(p);
        assert(in_class(ds[ds.len() - 1], CharClass::DigitOrComma));
    }
}

/// The value of `v[a..b]`, a run of digits and commas, if it holds a digit
/// and the value fits in `limit`.
pub fn parse_digits(v: &Vec<char>, a: usize, b: usize, limit: u64) -> (r: Option<u64>)
    requires
        a <= b <= v@.len(),
        forall|i: int| a <= i < b ==> in_class(#[trigger] v@[i], CharClass::DigitOrComma),
    ensures
        r matches Some(x) ==> x <= limit && x == digits_value(v@.subrange(a as int, b as int)) && has_digit(
            v@.subrange(a as int, b as int),
        ),
        r is None ==> !has_digit(v@.subrange(a as int, b as int)) || digits_value(
            v@.subrange(a as int, b as int),
        ) > limit,
{
    let mut acc: u64 = 0;
    let mut seen = false;
    let mut i = a;
    while i < b
        invariant
            a <= i <= b <= v@.len(),
            forall|j: int| a <= j < b ==> in_class(#[trigger] v@[j], CharClass::DigitOrComma),
            acc == digits_value(v@.subrange(a as int, i as int)),
            acc <= limit,
            seen == has_digit(v@.subrange(a as int, i as int)),
        decreases b - i,
    {
        let ghost pre = v@.subrange(a as int, i as int);
        let ghost cur = v@.subrange(a as int, i + 1);
        assert(cur.drop_last() =~= pre);
        assert(cur.last() == v@[i as int]);
        let c = v[i];
        if c != ',' {
            let dg = (c as u32 - '0' as u32) as u64;
            if dg > limit || acc > (limit - dg) / 10 {
                proof {
                    assert(digits_value(cur) == acc * 10 + dg);
                    if dg <= limit {
                        let q = (limit - dg) as int;
                        let x = acc as int;
                        assert(x * 10 + dg > limit) by (nonlinear_arith)
                            requires
                                x > q / 10,
                                q == limit - dg,
                                q >= 0,
                        ;
                    }
                    let rest = v@.subrange(a as int, b as int);
                    lemma_digits_prefix_monotone(v@, a as int, i + 1, b as int);
                    assert(has_digit(rest)) by {
                        assert(rest[i - a] == c);
                    }
                }
                return None;
            }
            proof {
                let q = (limit - dg) as int;
                let x = acc as int;
                assert(x * 10 + dg <= limit) by (nonlinear_arith)
                    requires
                        0 <= x <= q / 10,
                        q == limit - dg,
                        q >= 0,
                ;
            }
            acc = acc * 10 + dg;
            seen = true;
            proof {
                assert(cur[i - a] == c);
            }
        } else {
            proof {
                if has_digit(cur) {
                    let k = choose|k: int| 0 <= k < cur.len() && is_digit(#[trigger] cur[k]);
                    assert(k < pre.len());
                    assert(pre[k] == cur[k]);
                }
                if has_digit(pre) {
                    let k = choose|k: int| 0 <= k < pre.len() && is_digit(#[trigger] pre[k]);
                    assert(pre[k] == cur[k]);
                }
            }
        }
        i = i + 1;
    }
    assert(v@.subrange(a as int, i as int) =~= v@.subrange(a as int, b as int));
    if seen {
        Some(acc)
    } else {
        None
    }
}

/// The value of a run of digits and commas never shrinks as it grows.
proof fn lemma_digits_prefix_monotone(v: Seq<char>, a: int, m: int, b: int)
    requires
        0 <= a <= m <= b <= v.len(),
        forall|j: int| a <= j < b ==> in_class(#[trigger] v[j], CharClass::DigitOrComma),
    ensures
        digits_value(v.subrange(a, m)) <= digits_value(v.subrange(a, b)),
    decreases b - m,
{
    if m < b {
        lemma_digits_prefix_monotone(v, a, m, b - 1);
        let s = v.subrange(a, b);
        assert(s.drop_last() =~= v.subrange(a, b - 1));
        let p = v.subrange(a, b - 1);
        assert forall|i: int| 0 <= i < p.len() implies in_class(#[trigger] p[i], CharClass::DigitOrComma) by {
            assert(p[i] == v[a + i]);
        }
        lemma_digits_value_nonneg(p);
        assert(s.last() == v[b - 1]);
        assert(in_class(v[b - 1], CharClass::DigitOrComma));
    }
}

fn trimmed_end(v: &Vec<char>, h: usize, n: usize) -> (t: usize)
    requires
        h <= n <= v@.len(),
    ensures
        t == h + tail_ws(v@.subrange(h as int, n as int), n - h),
{
    let ghost sub = v@.subrange(h as int, n as int);
    let mut t = n;
    while t > h && char_in_class(v[t - 1], CharClass::Space)
        invariant
            h <= t <= n <= v@.len(),
            sub == v@.subrange(h as int, n as int),
            tail_ws(sub, n - h) == tail_ws(sub, t - h),
        decreases t,
    {
        assert(sub[t - 1 - h] == v@[t - 1]);
        t = t - 1;
    }
    proof {
        if t > h {
            assert(sub[t - 1 - h] == v@[t - 1]);
        }
    }
    t
}

/// Computes `catch_at`: the end of the count and the span of the name.
pub fn match_catch_at(v: &Vec<char>, i: usize) -> (r: Option<(usize, usize, usize)>)
    requires
        i <= v@.len(),
    ensures
        r matches Some((d, a, b)) ==> catch_at(v@, i as int) == Some((v@.subrange(i as int, d as int), a as int, b as int))
            && i < d <= v@.len() && a <= b <= v@.len()
            && forall|j: int| i <= j < d ==> is_digit(#[trigger] v@[j]),
        r is None ==> catch_at(v@, i as int) is None,
{
    let d = scan_run(v, i, CharClass::Digit);
    if d == i {
        return None;
    }
    let w = scan_run(v, d, CharClass::Space);
    if w == d || v.len() - w < 2 || v[w] != '<' || v[w + 1] != ':' {
        return None;
    }
    let g = scan_run(v, w + 2, CharClass::NotGt);
    if g == w + 2 || g >= v.len() {
        return None;
    }
    let h = scan_run(v, g + 1, CharClass::Space);
    if h == g + 1 {
        return None;
    }
    let n = scan_run(v, h, CharClass::NameChar);
    if n == h {
        return None;
    }
    let t = trimmed_end(v, h, n);
    proof {
        lemma_run_end(v@, i as int, CharClass::Digit);
        let sub = v@.subrange(h as int, n as int);
        lemma_tail_ws(sub, n - h);
    }
    Some((d, h, t))
}

/// Computes `first_catch(v@, 0)`.
pub fn find_catch(v: &Vec<char>) -> (r: Option<(usize, usize, usize, usize)>)
    ensures
        r matches Some((i, d, a, b)) ==> first_catch(v@, 0) == Some((v@.subrange(i as int, d as int), a as int, b as int))
            && i < d <= v@.len() && a <= b <= v@.len()
            && forall|j: int| i <= j < d ==> is_digit(#[trigger] v@[j]),
        r is None ==> first_catch(v@, 0) is None,
{
    let mut i: usize = 0;
    while i < v.len()
        invariant
            i <= v@.len(),
            first_catch(v@, 0) == first_catch(v@, i as int),
        decreases v@.len() - i,
    {
        match match_catch_at(v, i) {
            Some((d, a, b)) => {
                return Some((i, d, a, b));
            },
            None => {},
        }
        i = i + 1;
    }
    None
}

/// Computes `xp_at`: the end of the digits and commas.
pub fn match_xp_at(v: &Vec<char>, i: usize) -> (r: Option<usize>)
    requires
        i < v@.len(),
    ensures
        r matches Some(e) ==> xp_at(v@, i as int) == Some(v@.subrange(i + 1, e as int)) && i + 1 < e <= v@.len()
            && forall|j: int| i + 1 <= j < e ==> in_class(#[trigger] v@[j], CharClass::DigitOrComma),
        r is None ==> xp_at(v@, i as int) is None,
{
    let len = v.len();
    if v[i] != '+' {
        return None;
    }
    let e = scan_run(v, i + 1, CharClass::DigitOrComma);
    if e == i + 1 {
        return None;
    }
    let w = scan_run(v, e, CharClass::Space);
    if w == e || v.len() - w < 2 || v[w] != 'X' || v[w + 1] != 'P' {
        return None;
    }
    proof {
        lemma_run_end(v@, i + 1, CharClass::DigitOrComma);
    }
    Some(e)
}

/// Computes `first_xp(v@, 0)`.
pub fn find_xp(v: &Vec<char>) -> (r: Option<(usize, usize)>)
    ensures
        r matches Some((i, e)) ==> first_xp(v@, 0) == Some(v@.subrange(i as int, e as int)) && i <= e <= v@.len()
            && forall|j: int| i <= j < e ==> in_class(#[trigger] v@[j], CharClass::DigitOrComma),
        r is None ==> first_xp(v@, 0) is None,
{
    let mut i: usize = 0;
    while i < v.len()
        invariant
            i <= v@.len(),
            first_xp(v@, 0) == first_xp(v@, i as int),
        decreases v@.len() - i,
    {
        match match_xp_at(v, i) {
            Some(e) => {
                return Some((i + 1, e));
            },
            None => {},
        }
        i = i + 1;
    }
    None
}

/// A parsed catch: each species with its count, and the XP gained.
#[derive(Debug)]
pub struct CatchEvent {
    pub fish: Vec<(String, u32)>,
    pub xp: u64,
}

impl CatchEvent {
    pub open spec fn fish_view(&self) -> Seq<(Seq<char>, u32)> {
        self.fish@.map_values(|p: (String, u32)| (p.0@, p.1))
    }
}

/// End of the line that starts at `start`, before its terminator.
pub open spec fn line_stop(s: Seq<char>, start: int) -> int {
    let e = run_end(s, start, CharClass::NotNewline);
    if e > start && s[e - 1] == '\r' { e - 1 } else { e }
}

pub open spec fn line_of(s: Seq<char>, start: int) -> Seq<char> {
    s.subrange(start, line_stop(s, start))
}

/// The species caught on one line: its first match of the catch grammar,
/// when the count fits in `u32`.
pub open spec fn line_fish(l: Seq<char>) -> Seq<(Seq<char>, u32)> {
    match first_catch(l, 0) {
        Some((ds, a, b)) => if digits_value(ds) <= u32::MAX {
            seq![(l.subrange(a, b), digits_value(ds) as u32)]
        } else {
            seq![]
        },
        None => seq![],
    }
}

/// XP after reading one line: the value of its first match of the XP
/// grammar, when it has a digit and fits in `u64`; `acc` otherwise.
pub open spec fn line_xp(l: Seq<char>, acc: u64) -> u64 {
    match first_xp(l, 0) {
        Some(ds) => if has_digit(ds) && digits_value(ds) <= u64::MAX {
            digits_value(ds) as u64
        } else {
            acc
        },
        None => acc,
    }
}

pub open spec fn fish_from(s: Seq<char>, start: int) -> Seq<(Seq<char>, u32)>
    decreases s.len() + 1 - start,
{
    let e = run_end(s, start, CharClass::NotNewline);
    if start < 0 || start >= s.len() || e < start || e > s.len() {
        seq![]
    } else {
        line_fish(line_of(s, start)) + fish_from(s, e + 1)
    }
}

pub open spec fn xp_from(s: Seq<char>, start: int, acc: u64) -> u64
    decreases s.len() + 1 - start,
{
    let e = run_end(s, start, CharClass::NotNewline);
    if start < 0 || start >= s.len() || e < start || e > s.len() {
        acc
    } else {
        xp_from(s, e + 1, line_xp(line_of(s, start), acc))
    }
}

/// What a catch message says: the species of every line, the XP of the last
/// line that states one; nothing when it names no fish and no positive XP.
pub open spec fn catch_spec(s: Seq<char>) -> Option<(Seq<(Seq<char>, u32)>, u64)> {
    let f = fish_from(s, 0);
    let x = xp_from(s, 0, 0);
    if f.len() > 0 || x > 0 {
        Some((f, x))
    } else {
        None
    }
}

/// Reads a catch message, line by line.
pub fn parse_catch_embed(description: &str) -> (r: Option<CatchEvent>)
    ensures
        r matches Some(e) ==> catch_spec(description@) == Some((e.fish_view(), e.xp)),
        r is None ==> catch_spec(description@) is None,
{
    let v = chars_of(description);
    let mut fish: Vec<(String, u32)> = Vec::new();
    let mut xp: u64 = 0;
    let mut start: usize = 0;
    let ghost s = v@;
    while start < v.len()
        invariant
            s == v@,
            s == description@,
            start <= v@.len(),
            fish@.map_values(|p: (String, u32)| (p.0@, p.1)) + fish_from(s, start as int) == fish_from(s, 0),
            xp_from(s, start as int, xp) == xp_from(s, 0, 0),
        decreases v@.len() - start,
    {
        let e = scan_run(&v, start, CharClass::NotNewline);
        proof {
            lemma_run_end(s, start as int, CharClass::NotNewline);
        }
        let stop = if e > start && v[e - 1] == '\r' {
            e - 1
        } else {
            e
        };
        let line = copy_range(&v, start, stop);
        let ghost l = line@;
        assert(l == line_of(s, start as int));
        let ghost before = fish@.map_values(|p: (String, u32)| (p.0@, p.1));
        match find_catch(&line) {
            Some((i, d, a, b)) => {
                match parse_digits(&line, i, d, u32::MAX as u64) {
                    Some(c) => {
                        let name = String::from_str(description.substring_char(start + a, start + b));
                        assert(name@ =~= l.subrange(a as int, b as int));
                        let ghost old_fish = fish@;
                        fish.push((name, c as u32));
                        assert(fish@ == old_fish.push((name, c as u32)));
                        assert(fish@.map_values(|p: (String, u32)| (p.0@, p.1)) =~= old_fish.map_values(
                            |p: (String, u32)| (p.0@, p.1),
                        ).push((name@, c as u32)));
                        assert(fish@.map_values(|p: (String, u32)| (p.0@, p.1)) =~= before + line_fish(l));
                    },
                    None => {
                        assert(has_digit(l.subrange(i as int, d as int))) by {
                            assert(is_digit(l.subrange(i as int, d as int)[0]));
                        }
                        assert(fish@.map_values(|p: (String, u32)| (p.0@, p.1)) =~= before + line_fish(l));
                    },
                }
            },
            None => {
                assert(fish@.map_values(|p: (String, u32)| (p.0@, p.1)) =~= before + line_fish(l));
            },
        }
        let ghost xp_before = xp;
        match find_xp(&line) {
            Some((i, e2)) => {
                match parse_digits(&line, i, e2, u64::MAX) {
                    Some(x) => {
                        xp = x;
                    },
                    None => {},
                }
            },
            None => {},
        }
        assert(xp == line_xp(l, xp_before));
        assert(xp_from(s, start as int, xp_before) == xp_from(s, e + 1, xp));
        assert(fish_from(s, start as int) == line_fish(l) + fish_from(s, e + 1));
        assert(fish@.map_values(|p: (String, u32)| (p.0@, p.1)) + fish_from(s, e + 1) =~= fish_from(s, 0));
        if e >= v.len() {
            assert(xp_from(s, e + 1, xp) == xp);
            assert(xp_from(s, v.len() as int, xp) == xp);
            start = v.len();
        } else {
            start = e + 1;
        }
    }
    proof {
        assert(fish_from(s, start as int) == Seq::<(Seq<char>, u32)>::empty());
        assert(fish@.map_values(|p: (String, u32)| (p.0@, p.1)) =~= fish_from(s, 0));
    }
    if fish.len() > 0 || xp > 0 {
        Some(CatchEvent { fish, xp })
    } else {
        None
    }
}

/// Whether `m` occurs in `s` at position `i`.
pub open spec fn occurs_at(s: Seq<char>, i: int, m: Seq<char>) -> bool {
    0 <= i && i + m.len() <= s.len() && s.subrange(i, i + m.len()) == m
}

/// Computes `occurs_at`.
pub fn lit_at(v: &Vec<char>, i: usize, m: &str) -> (r: bool)
    requires
        i <= v@.len(),
    ensures
        r == occurs_at(v@, i as int, m@),
{
    let n = m.unicode_len();
    let len = v.len();
    if n > len - i {
        return false;
    }
    let mut k: usize = 0;
    while k < n
        invariant
            len == v@.len(),
            n == m@.len(),
            i + n <= v@.len(),
            k <= n,
            forall|j: int| 0 <= j < k ==> v@[i + j] == m@[j],
        decreases n - k,
    {
        if v[i + k] != m.get_char(k) {
            assert(v@.subrange(i as int, i + n)[k as int] != m@[k as int]);
            return false;
        }
        k = k + 1;
    }
    assert(v@.subrange(i as int, i + n) =~= m@);
    true
}

/// Position of the first `.` in `ds`, or its length.
pub open spec fn dot_pos(ds: Seq<char>, i: int) -> int
    decreases ds.len() - i,
{
    if 0 <= i < ds.len() && ds[i] != '.' {
        dot_pos(ds, i + 1)
    } else {
        i
    }
}

pub open spec fn digit_at(f: Seq<char>, k: int) -> int {
    if 0 <= k < f.len() { f[k] as int - '0' as int } else { 0 }
}

/// Largest whole number of seconds a duration may state.
pub const MAX_WHOLE_SECONDS: u64 = 1_000_000_000;
/// Largest whole part whose thousandths fit in `u64`.
pub const MAX_WHOLE_MILLI: u64 = 18_446_744_073_709_550;

/// Milliseconds stated by a decimal number of seconds such as `2.5`: digits,
/// at most one point, at least one digit; fraction digits past the third
/// are dropped.
pub open spec fn decimal_ms(ds: Seq<char>) -> Option<int> {
    decimal_milli(ds, MAX_WHOLE_SECONDS as int)
}

/// Thousandths stated by a decimal number such as `2.5`: digits, at most
/// one point, at least one digit, a whole part of at most `max_whole`;
/// fraction digits past the third are dropped.
pub open spec fn decimal_milli(ds: Seq<char>, max_whole: int) -> Option<int> {
    let p = dot_pos(ds, 0);
    let whole = ds.subrange(0, p);
    let frac = if p < ds.len() { ds.subrange(p + 1, ds.len() as int) } else { seq![] };
    if dot_pos(frac, 0) < frac.len() || whole.len() + frac.len() == 0 || digits_value(whole)
        > max_whole {
        None
    } else {
        Some(digits_value(whole) * 1000 + digit_at(frac, 0) * 100 + digit_at(frac, 1) * 10 + digit_at(frac, 2))
    }
}

/// The stated duration at `i`: `pre`, a decimal, `post`.
pub open spec fn duration_at(s: Seq<char>, i: int, pre: Seq<char>, post: Seq<char>) -> Option<int> {
    let j = i + pre.len();
    let e = run_end(s, j, CharClass::DigitOrDot);
    if occurs_at(s, i, pre) && e > j && occurs_at(s, e, post) {
        decimal_ms(s.subrange(j, e))
    } else {
        None
    }
}

/// The leftmost stated duration at or after `i`.
pub open spec fn first_duration(s: Seq<char>, i: int, pre: Seq<char>, post: Seq<char>) -> Option<int>
    decreases s.len() - i,
{
    if i < 0 || i >= s.len() {
        None
    } else if occurs_at(s, i, pre) && run_end(s, i + pre.len(), CharClass::DigitOrDot) > i + pre.len()
        && occurs_at(s, run_end(s, i + pre.len(), CharClass::DigitOrDot), post) {
        duration_at(s, i, pre, post)
    } else {
        first_duration(s, i + 1, pre, post)
    }
}

fn find_dot(v: &Vec<char>, a: usize, b: usize) -> (r: usize)
    requires
        a <= b <= v@.len(),
    ensures
        a <= r <= b,
        r - a == dot_pos(v@.subrange(a as int, b as int), 0),
{
    let ghost ds = v@.subrange(a as int, b as int);
    let mut i = a;
    while i < b && v[i] != '.'
        invariant
            a <= i <= b <= v@.len(),
            ds == v@.subrange(a as int, b as int),
            dot_pos(ds, i - a) == dot_pos(ds, 0),
        decreases b - i,
    {
        assert(ds[i - a] == v@[i as int]);
        i = i + 1;
    }
    proof {
        if i < b {
            assert(ds[i - a] == v@[i as int]);
        }
    }
    i
}

/// Computes `decimal_milli(v[a..b], max_whole)` for a run of digits and points.
pub fn decimal_value(v: &Vec<char>, a: usize, b: usize, max_whole: u64) -> (r: Option<u64>)
    requires
        a <= b <= v@.len(),
        forall|j: int| a <= j < b ==> in_class(#[trigger] v@[j], CharClass::DigitOrDot),
        max_whole <= MAX_WHOLE_MILLI,
    ensures
        r matches Some(x) ==> decimal_milli(v@.subrange(a as int, b as int), max_whole as int) == Some(x as int),
        r is None ==> decimal_milli(v@.subrange(a as int, b as int), max_whole as int) is None,
{
    let ghost ds = v@.subrange(a as int, b as int);
    let p = find_dot(v, a, b);
    let fs = if p < b { p + 1 } else { b };
    let ghost frac = if p < b { ds.subrange(p - a + 1, ds.len() as int) } else { seq![] };
    assert(frac =~= v@.subrange(fs as int, b as int));
    assert(ds.subrange(0, p - a) =~= v@.subrange(a as int, p as int));
    let q = find_dot(v, fs, b);
    if q < b || (p - a) + (b - fs) == 0 {
        return None;
    }
    proof {
        assert forall|j: int| a <= j < p implies in_class(#[trigger] v@[j], CharClass::DigitOrComma) by {
            assert(in_class(v@[j], CharClass::DigitOrDot));
            assert(ds.subrange(0, p - a)[j - a] == v@[j]);
            lemma_before_dot(ds, 0, j - a);
        }
        assert forall|j: int| fs <= j < b implies is_digit(#[trigger] v@[j]) by {
            assert(in_class(v@[j], CharClass::DigitOrDot));
            assert(frac[j - fs] == v@[j]);
            lemma_before_dot(frac, 0, j - fs);
        }
    }
    let whole = if p == a {
        proof {
            assert(v@.subrange(a as int, p as int) =~= Seq::<char>::empty());
        }
        Some(0u64)
    } else {
        parse_digits(v, a, p, max_whole)
    };
    match whole {
        None => {
            proof {
                let w = v@.subrange(a as int, p as int);
                assert(w[0] == v@[a as int]);
                assert(is_digit(w[0]));
                assert(has_digit(w));
            }
            None
        },
        Some(w) => {
            let d0: u64 = if fs < b { (v[fs] as u32 - '0' as u32) as u64 } else { 0 };
            let d1: u64 = if b - fs > 1 { (v[fs + 1] as u32 - '0' as u32) as u64 } else { 0 };
            let d2: u64 = if b - fs > 2 { (v[fs + 2] as u32 - '0' as u32) as u64 } else { 0 };
            proof {
                if fs < b {
                    assert(frac[0] == v@[fs as int]);
                }
                if b - fs > 1 {
                    assert(frac[1] == v@[fs + 1]);
                }
                if b - fs > 2 {
                    assert(frac[2] == v@[fs + 2]);
                }
            }
            Some(w * 1000 + d0 * 100 + d1 * 10 + d2)
        },
    }
}

/// Characters before the first point of a run of digits and points are digits.
proof fn lemma_before_dot(ds: Seq<char>, i: int, j: int)
    requires
        0 <= i <= j < dot_pos(ds, i),
        dot_pos(ds, i) <= ds.len(),
        forall|k: int| 0 <= k < ds.len() ==> in_class(#[trigger] ds[k], CharClass::DigitOrDot),
    ensures
        is_digit(ds[j]),
    decreases j - i,
{
    if i < j {
        lemma_before_dot(ds, i + 1, j);
    }
}

/// Computes `first_duration(v@, 0, pre@, post@)`.
pub fn find_duration(v: &Vec<char>, pre: &str, post: &str) -> (r: Option<u64>)
    ensures
        r matches Some(x) ==> first_duration(v@, 0, pre@, post@) == Some(x as int),
        r is None ==> first_duration(v@, 0, pre@, post@) is None,
{
    let n = pre.unicode_len();
    let mut i: usize = 0;
    while i < v.len()
        invariant
            n == pre@.len(),
            i <= v@.len(),
            first_duration(v@, 0, pre@, post@) == first_duration(v@, i as int, pre@, post@),
        decreases v@.len() - i,
    {
        if lit_at(v, i, pre) {
            let j = i + n;
            let e = scan_run(v, j, CharClass::DigitOrDot);
            if e > j && lit_at(v, e, post) {
                proof {
                    lemma_run_end(v@, j as int, CharClass::DigitOrDot);
                }
                return decimal_value(v, j, e, MAX_WHOLE_SECONDS);
            }
        }
        i = i + 1;
    }
    None
}

/// A reported cooldown violation: the time still to wait and the full
/// cooldown, in milliseconds (0 where the message states none).
#[derive(Debug, Clone, Copy, PartialEq, Eq, Structural)]
pub struct CooldownEvent {
    pub wait_time_ms: u64,
    pub total_cooldown_ms: u64,
}

pub open spec fn wait_marker() -> (Seq<char>, Seq<char>) {
    ("You must wait **"@, "**s"@)
}

pub open spec fn total_marker() -> (Seq<char>, Seq<char>) {
    ("Current cooldown: **"@, "** seconds"@)
}

/// What a cooldown message states: the wait and the total, each 0 where
/// absent; nothing when both are 0.
pub open spec fn cooldown_spec(s: Seq<char>) -> Option<CooldownEvent> {
    let w = match first_duration(s, 0, wait_marker().0, wait_marker().1) {
        Some(x) => x,
        None => 0,
    };
    let t = match first_duration(s, 0, total_marker().0, total_marker().1) {
        Some(x) => x,
        None => 0,
    };
    if w > 0 || t > 0 {
        Some(CooldownEvent { wait_time_ms: w as u64, total_cooldown_ms: t as u64 })
    } else {
        None
    }
}

/// Reads a cooldown-violation message.
pub fn parse_cooldown_embed(description: &str) -> (r: Option<CooldownEvent>)
    ensures
        r == cooldown_spec(description@),
{
    let v = chars_of(description);
    let w = match find_duration(&v, "You must wait **", "**s") {
        Some(x) => x,
        None => 0,
    };
    let t = match find_duration(&v, "Current cooldown: **", "** seconds") {
        Some(x) => x,
        None => 0,
    };
    if w > 0 || t > 0 {
        Some(CooldownEvent { wait_time_ms: w, total_cooldown_ms: t })
    } else {
        None
    }
}


// ---- select menus ----

/// One choice of a select menu.
#[derive(Debug)]
pub struct SelectMenuOption {
    pub label: String,
    pub value: String,
    pub description: Option<String>,
}

pub open spec fn row_comps(c: Component) -> Seq<Component> {
    match c.components {
        Some(v) => v@,
        None => seq![],
    }
}

pub open spec fn is_menu(c: Component) -> bool {
    c.kind == 3 && c.options is Some
}

pub open spec fn first_menu_in(cs: Seq<Component>, j: int) -> Option<int>
    decreases cs.len() - j,
{
    if j < 0 || j >= cs.len() {
        None
    } else if is_menu(cs[j]) {
        Some(j)
    } else {
        first_menu_in(cs, j + 1)
    }
}

/// Row and position of the first select menu with options.
pub open spec fn first_menu(rows: Seq<Component>, i: int) -> Option<(int, int)>
    decreases rows.len() - i,
{
    if i < 0 || i >= rows.len() {
        None
    } else {
        match first_menu_in(row_comps(rows[i]), 0) {
            Some(j) => Some((i, j)),
            None => first_menu(rows, i + 1),
        }
    }
}

pub open spec fn msg_rows(m: &Message) -> Seq<Component> {
    match m.components {
        Some(v) => v@,
        None => seq![],
    }
}

fn clone_opt(s: &Option<String>) -> (r: Option<String>)
    ensures
        r == *s,
{
    match s {
        Some(x) => Some(x.clone()),
        None => None,
    }
}

fn menu_options(opts: &Vec<SelectOption>) -> (r: Vec<SelectMenuOption>)
    ensures
        r@.len() == opts@.len(),
        forall|k: int| 0 <= k < r@.len() ==> #[trigger] r@[k].label == opts@[k].label && r@[k].value
            == opts@[k].value && r@[k].description == opts@[k].description,
{
    let mut r: Vec<SelectMenuOption> = Vec::new();
    let mut k: usize = 0;
    while k < opts.len()
        invariant
            k <= opts@.len(),
            r@.len() == k,
            forall|q: int| 0 <= q < k ==> #[trigger] r@[q].label == opts@[q].label && r@[q].value
                == opts@[q].value && r@[q].description == opts@[q].description,
        decreases opts@.len() - k,
    {
        let o = &opts[k];
        r.push(SelectMenuOption { label: o.label.clone(), value: o.value.clone(), description: clone_opt(&o.description) });
        k = k + 1;
    }
    r
}

/// The first select menu of a message: its id (empty where it has none)
/// and its choices.
pub fn parse_select_menu_options(msg: &Message) -> (r: Option<(String, Vec<SelectMenuOption>)>)
    ensures
        r is None <==> first_menu(msg_rows(msg), 0) is None,
        r matches Some((id, opts)) ==> ({
            let (i, j) = first_menu(msg_rows(msg), 0)->0;
            let c = row_comps(msg_rows(msg)[i])[j];
            let src = c.options->0@;
            &&& id@ == match c.custom_id {
                Some(x) => x@,
                None => Seq::<char>::empty(),
            }
            &&& opts@.len() == src.len()
            &&& forall|k: int| 0 <= k < opts@.len() ==> #[trigger] opts@[k].label == src[k].label
                && opts@[k].value == src[k].value && opts@[k].description == src[k].description
        }),
{
    match &msg.components {
        Some(rows) => {
            let mut i: usize = 0;
            while i < rows.len()
                invariant
                    msg_rows(msg) == rows@,
                    i <= rows@.len(),
                    first_menu(rows@, 0) == first_menu(rows@, i as int),
                decreases rows@.len() - i,
            {
                match &rows[i].components {
                    Some(comps) => {
                        let mut j: usize = 0;
                        while j < comps.len()
                            invariant
                                msg_rows(msg) == rows@,
                                i < rows@.len(),
                                row_comps(rows@[i as int]) == comps@,
                                j <= comps@.len(),
                                first_menu(rows@, 0) == first_menu(rows@, i as int),
                                first_menu_in(comps@, 0) == first_menu_in(comps@, j as int),
                            decreases comps@.len() - j,
                        {
                            let comp = &comps[j];
                            if comp.kind == 3 {
                                match &comp.options {
                                    Some(opts) => {
                                        let id = match &comp.custom_id {
                                            Some(x) => x.clone(),
                                            None => String::new(),
                                        };
                                        return Some((id, menu_options(opts)));
                                    },
                                    None => {},
                                }
                            }
                            j = j + 1;
                        }
                    },
                    None => {},
                }
                i = i + 1;
            }
            None
        },
        None => None,
    }
}

// ---- generic listings ----

/// One line of a listing message.
#[derive(Debug)]
pub struct GameEntity {
    pub entity_type: String,
    pub name: String,
    pub details: String,
}

/// Start of the run of non-whitespace that ends at `e`.
pub open spec fn word_start(s: Seq<char>, e: int) -> int
    decreases e,
{
    if e > 0 && !is_space(s[e - 1]) {
        word_start(s, e - 1)
    } else {
        e
    }
}

/// The last whitespace-separated word of `t`, or `Unknown`.
pub open spec fn listing_type(t: Seq<char>) -> Seq<char> {
    let e = tail_ws(t, t.len() as int);
    if e > 0 {
        t.subrange(word_start(t, e), e)
    } else {
        "Unknown"@
    }
}

/// Longest name kept for an entity.
pub const ENTITY_NAME_LEN: usize = 50;

/// The (name, details) of every non-blank line of `s` from `start` on.
pub open spec fn entities_from(s: Seq<char>, start: int) -> Seq<(Seq<char>, Seq<char>)>
    decreases s.len() + 1 - start,
{
    let e = run_end(s, start, CharClass::NotNewline);
    if start < 0 || start >= s.len() || e < start || e > s.len() {
        seq![]
    } else {
        let l = line_of(s, start);
        let here = if tail_ws(l, l.len() as int) == 0 {
            seq![]
        } else {
            seq![(l.take(if l.len() < ENTITY_NAME_LEN { l.len() as int } else { ENTITY_NAME_LEN as int }), l)]
        };
        here + entities_from(s, e + 1)
    }
}

fn trim_len(v: &Vec<char>, n: usize) -> (r: usize)
    requires
        n <= v@.len(),
    ensures
        r == tail_ws(v@, n as int),
        r <= n,
{
    let mut e = n;
    while e > 0 && (v[e - 1] == ' ' || v[e - 1] == '\t' || v[e - 1] == '\n' || v[e - 1] == '\r' || v[e - 1] == '\x0B' || v[e - 1] == '\x0C')
        invariant
            e <= n <= v@.len(),
            tail_ws(v@, e as int) == tail_ws(v@, n as int),
        decreases e,
    {
        e = e - 1;
    }
    e
}

/// Reads a listing message: each non-blank line becomes an entity of the
/// type named by the title's last word.
pub fn parse_generic_list(title: &str, description: &str) -> (r: Vec<GameEntity>)
    ensures
        r@.len() == entities_from(description@, 0).len(),
        forall|k: int| 0 <= k < r@.len() ==> {
            &&& (#[trigger] r@[k]).entity_type@ == listing_type(title@)
            &&& r@[k].name@ == entities_from(description@, 0)[k].0
            &&& r@[k].details@ == entities_from(description@, 0)[k].1
        },
{
    let tv = chars_of(title);
    let e = trim_len(&tv, tv.len());
    let ty: String = if e > 0 {
        let mut a = e;
        while a > 0 && !(tv[a - 1] == ' ' || tv[a - 1] == '\t' || tv[a - 1] == '\n' || tv[a - 1] == '\r' || tv[a - 1] == '\x0B' || tv[a - 1] == '\x0C')
            invariant
                a <= e <= tv@.len(),
                word_start(tv@, a as int) == word_start(tv@, e as int),
            decreases a,
        {
            a = a - 1;
        }
        String::from_str(title.substring_char(a, e))
    } else {
        String::from_str("Unknown")
    };
    let v = chars_of(description);
    let ghost s = v@;
    let mut out: Vec<GameEntity> = Vec::new();
    let mut start: usize = 0;
    let ghost mut acc: Seq<(Seq<char>, Seq<char>)> = seq![];
    while start < v.len()
        invariant
            s == v@,
            s == description@,
            ty@ == listing_type(title@),
            start <= v@.len(),
            acc + entities_from(s, start as int) == entities_from(s, 0),
            out@.len() == acc.len(),
            forall|k: int| 0 <= k < out@.len() ==> {
                &&& (#[trigger] out@[k]).entity_type@ == listing_type(title@)
                &&& out@[k].name@ == acc[k].0
                &&& out@[k].details@ == acc[k].1
            },
        decreases v@.len() - start,
    {
        let e = scan_run(&v, start, CharClass::NotNewline);
        proof {
            lemma_run_end(s, start as int, CharClass::NotNewline);
        }
        let stop = if e > start && v[e - 1] == '\r' {
            e - 1
        } else {
            e
        };
        let line = copy_range(&v, start, stop);
        let ghost l = line@;
        assert(l == line_of(s, start as int));
        let ghost rest = entities_from(s, e + 1);
        let ghost cur = entities_from(s, start as int);
        if trim_len(&line, line.len()) > 0 {
            let n = if line.len() < ENTITY_NAME_LEN { line.len() } else { ENTITY_NAME_LEN };
            let name = String::from_str(description.substring_char(start, start + n));
            let details = String::from_str(description.substring_char(start, stop));
            assert(name@ =~= l.take(n as int));
            assert(details@ =~= l);
            assert(cur == seq![(l.take(n as int), l)] + rest);
            out.push(GameEntity { entity_type: ty.clone(), name, details });
            proof {
                acc = acc.push((l.take(n as int), l));
                assert(acc + rest =~= entities_from(s, 0));
            }
        } else {
            assert(cur =~= rest);
        }
        if e >= v.len() {
            assert(entities_from(s, e + 1).len() == 0);
            start = v.len();
        } else {
            start = e + 1;
        }
    }
    proof {
        assert(acc =~= entities_from(s, 0));
    }
    out
}

} // verus!
