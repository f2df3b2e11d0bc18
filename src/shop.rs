use vstd::prelude::*;
use crate::parser::{
    decimal_milli, decimal_value, digits_value, has_digit, in_class, is_digit,
    lemma_run_end, lit_at, occurs_at, parse_digits, run_end, scan_run, CharClass,
    MAX_WHOLE_MILLI,
};
use crate::profile::{lines_from, split_lines, views};
use crate::text::{chars_of, contains_lit, contains_seq, string_from_chars, strip3, strip_chars, trim_seq, trimmed};
use crate::types::EmbedField;

verus! {

/// An item a shop message offers; `price_milli` is in thousandths of the
/// shop's currency.
#[derive(Debug)]
pub struct ShopItem {
    pub name: String,
    pub price_milli: u64,
    pub currency: String,
    pub description: String,
    pub stock: Option<i32>,
    pub stats: Option<String>,
}

/// End of a separator `-`, `:` or `–` at `j`, if one stands there.
pub open spec fn sep_end(s: Seq<char>, j: int) -> Option<int> {
    if 0 <= j < s.len() && (s[j] == '-' || s[j] == ':' || s[j] == '\u{2013}') {
        Some(j + 1)
    } else {
        None
    }
}

/// The listing grammar at `i`: `**name**`, a separator between optional
/// spaces, then `$price` with the price optionally in bold. Gives the spans
/// of the name and of the price's digits and commas.
pub open spec fn listing_at(s: Seq<char>, i: int) -> Option<(int, int, int, int)> {
    let b = run_end(s, i + 2, CharClass::NotStar);
    let j = run_end(s, b + 2, CharClass::Space);
    match sep_end(s, j) {
        Some(k) => {
            let m = run_end(s, k, CharClass::Space);
            let m2 = if occurs_at(s, m, "**"@) { m + 2 } else { m };
            let d = run_end(s, m2 + 1, CharClass::DigitOrComma);
            if occurs_at(s, i, "**"@) && b > i + 2 && occurs_at(s, b, "**"@) && occurs_at(s, m2, "$"@)
                && d > m2 + 1 {
                Some((i + 2, b, m2 + 1, d))
            } else {
                None
            }
        },
        None => None,
    }
}

pub open spec fn first_listing(s: Seq<char>, i: int) -> Option<(int, int, int, int)>
    decreases s.len() - i,
{
    if i < 0 || i >= s.len() {
        None
    } else if listing_at(s, i) is Some {
        listing_at(s, i)
    } else {
        first_listing(s, i + 1)
    }
}

/// The item a description line lists, as (name, price in thousandths).
pub open spec fn listed_item(l: Seq<char>) -> Option<(Seq<char>, int)> {
    match first_listing(l, 0) {
        Some((a, b, c, d)) => {
            let ds = l.subrange(c, d);
            if has_digit(ds) && digits_value(ds) <= MAX_WHOLE_MILLI {
                Some((trim_seq(l.subrange(a, b)), digits_value(ds) * 1000))
            } else {
                None
            }
        },
        None => None,
    }
}

/// Items listed by the lines `ls`, each as (name, price, whole line).
pub open spec fn listed_items(ls: Seq<Seq<char>>) -> Seq<(Seq<char>, int, Seq<char>)>
    decreases ls.len(),
{
    if ls.len() == 0 {
        seq![]
    } else {
        let prev = listed_items(ls.drop_last());
        match listed_item(ls.last()) {
            Some((n, p)) => prev.push((n, p, ls.last())),
            None => prev,
        }
    }
}

fn sep_end_exec(v: &Vec<char>, j: usize) -> (r: Option<usize>)
    requires
        j <= v@.len(),
    ensures
        r matches Some(k) ==> sep_end(v@, j as int) == Some(k as int) && k <= v@.len(),
        r is None ==> sep_end(v@, j as int) is None,
{
    if j < v.len() && (v[j] == '-' || v[j] == ':' || v[j] == '\u{2013}') {
        Some(j + 1)
    } else {
        None
    }
}

/// Computes `listing_at`.
fn match_listing_at(v: &Vec<char>, i: usize) -> (r: Option<(usize, usize, usize, usize)>)
    requires
        i < v@.len(),
    ensures
        r matches Some((a, b, c, d)) ==> listing_at(v@, i as int) == Some((a as int, b as int, c as int, d as int))
            && a <= b && c <= d <= v@.len() && b <= v@.len()
            && forall|j: int| c <= j < d ==> in_class(#[trigger] v@[j], CharClass::DigitOrComma),
        r is None ==> listing_at(v@, i as int) is None,
{
    let n = v.len();
    if !lit_at(v, i, "**") {
        return None;
    }
    proof {
        reveal_strlit("**");
        reveal_strlit("$");
    }
    let b = scan_run(v, i + 2, CharClass::NotStar);
    if b == i + 2 || !lit_at(v, b, "**") {
        return None;
    }
    let j = scan_run(v, b + 2, CharClass::Space);
    let k = match sep_end_exec(v, j) {
        Some(k) => k,
        None => {
            return None;
        },
    };
    let m = scan_run(v, k, CharClass::Space);
    let m2 = if lit_at(v, m, "**") { m + 2 } else { m };
    if !lit_at(v, m2, "$") {
        return None;
    }
    let d = scan_run(v, m2 + 1, CharClass::DigitOrComma);
    if d == m2 + 1 {
        return None;
    }
    proof {
        lemma_run_end(v@, m2 + 1, CharClass::DigitOrComma);
    }
    Some((i + 2, b, m2 + 1, d))
}

fn find_listing(v: &Vec<char>) -> (r: Option<(usize, usize, usize, usize)>)
    ensures
        r matches Some((a, b, c, d)) ==> first_listing(v@, 0) == Some((a as int, b as int, c as int, d as int))
            && a <= b <= v@.len() && c <= d <= v@.len()
            && forall|j: int| c <= j < d ==> in_class(#[trigger] v@[j], CharClass::DigitOrComma),
        r is None ==> first_listing(v@, 0) is None,
{
    let mut i: usize = 0;
    while i < v.len()
        invariant
            i <= v@.len(),
            first_listing(v@, 0) == first_listing(v@, i as int),
        decreases v@.len() - i,
    {
        match match_listing_at(v, i) {
            Some(t) => {
                return Some(t);
            },
            None => {},
        }
        i = i + 1;
    }
    None
}

pub open spec fn items_view(v: Seq<ShopItem>) -> Seq<(Seq<char>, int, Seq<char>)> {
    v.map_values(|x: ShopItem| (x.name@, x.price_milli as int, x.description@))
}

/// The items a shop message lists in its description, line by line.
pub fn parse_listing(description: &str, currency: &str) -> (r: Vec<ShopItem>)
    ensures
        items_view(r@) == listed_items(lines_from(description@, 0)),
        forall|k: int| 0 <= k < r@.len() ==> (#[trigger] r@[k]).currency@ == currency@ && r@[k].stock is None
            && r@[k].stats is None,
{
    let v = chars_of(description);
    let lines = split_lines(&v);
    let ghost ls = views(lines@);
    let mut out: Vec<ShopItem> = Vec::new();
    let mut i: usize = 0;
    while i < lines.len()
        invariant
            ls == views(lines@),
            ls == lines_from(description@, 0),
            i <= lines@.len(),
            items_view(out@) == listed_items(ls.take(i as int)),
            forall|k: int| 0 <= k < out@.len() ==> (#[trigger] out@[k]).currency@ == currency@ && out@[k].stock is None
                && out@[k].stats is None,
        decreases lines@.len() - i,
    {
        assert(ls.take(i + 1).drop_last() =~= ls.take(i as int));
        assert(ls.take(i + 1).last() == lines@[i as int]@);
        let l = &lines[i];
        let ghost before = out@;
        match find_listing(l) {
            Some((a, b, c, d)) => {
                match parse_digits(l, c, d, MAX_WHOLE_MILLI) {
                    Some(x) => {
                        let name = trimmed(&crate::text::copy_range(l, a, b));
                        out.push(ShopItem {
                            name: string_from_chars(&name),
                            price_milli: x * 1000,
                            currency: String::from_str(currency),
                            description: string_from_chars(l),
                            stock: None,
                            stats: None,
                        });
                        assert(items_view(out@) =~= items_view(before).push(
                            (trim_seq(l@.subrange(a as int, b as int)), x * 1000, l@),
                        ));
                    },
                    None => {},
                }
            },
            None => {},
        }
        i = i + 1;
    }
    assert(ls.take(lines@.len() as int) =~= ls);
    out
}


// ---- items given as fields ----

/// Whether `s` holds the word "price" in any letter case at `i`.
pub open spec fn price_at(s: Seq<char>, i: int) -> bool {
    &&& 0 <= i && i + 5 <= s.len()
    &&& (s[i] == 'p' || s[i] == 'P')
    &&& (s[i + 1] == 'r' || s[i + 1] == 'R')
    &&& (s[i + 2] == 'i' || s[i + 2] == 'I')
    &&& (s[i + 3] == 'c' || s[i + 3] == 'C')
    &&& (s[i + 4] == 'e' || s[i + 4] == 'E')
}

pub open spec fn is_price_line(l: Seq<char>) -> bool {
    (exists|i: int| price_at(l, i)) || contains_seq(l, "$"@)
}

/// The digits and points of `s`, in order.
pub open spec fn digits_and_points(s: Seq<char>) -> Seq<char>
    decreases s.len(),
{
    if s.len() == 0 {
        s
    } else if in_class(s.last(), CharClass::DigitOrDot) {
        digits_and_points(s.drop_last()).push(s.last())
    } else {
        digits_and_points(s.drop_last())
    }
}

/// Price (thousandths, 0 while none) and description that the lines of a
/// field's value give: a line naming a price sets it when its digits and
/// points form a number; any other line joins the description.
pub open spec fn field_scan(ls: Seq<Seq<char>>) -> (int, Seq<char>)
    decreases ls.len(),
{
    if ls.len() == 0 {
        (0, seq![])
    } else {
        let (p, d) = field_scan(ls.drop_last());
        let l = ls.last();
        if is_price_line(l) {
            match decimal_milli(digits_and_points(l), MAX_WHOLE_MILLI as int) {
                Some(x) => (x, d),
                None => (p, d),
            }
        } else {
            (p, d + l + seq!['\n'])
        }
    }
}

/// The trimmed lines of `ls` that start with `+`.
pub open spec fn stat_lines(ls: Seq<Seq<char>>) -> Seq<Seq<char>>
    decreases ls.len(),
{
    if ls.len() == 0 {
        seq![]
    } else {
        let prev = stat_lines(ls.drop_last());
        let t = trim_seq(ls.last());
        if t.len() > 0 && t[0] == '+' { prev.push(t) } else { prev }
    }
}

/// `parts` separated by `, `.
pub open spec fn joined(parts: Seq<Seq<char>>) -> Seq<char>
    decreases parts.len(),
{
    if parts.len() == 0 {
        seq![]
    } else if parts.len() == 1 {
        parts[0]
    } else {
        joined(parts.drop_last()) + ", "@ + parts.last()
    }
}

/// The item a field describes, as (name, price, description, stats), when
/// it names a positive price.
pub open spec fn field_item(name: Seq<char>, value: Seq<char>) -> Option<(Seq<char>, int, Seq<char>, Option<Seq<char>>)> {
    let (p, d) = field_scan(lines_from(value, 0));
    if p > 0 {
        let ds = trim_seq(d);
        let st = stat_lines(lines_from(ds, 0));
        Some((trim_seq(strip3(name, '*', '*', '*')), p, ds, if st.len() == 0 { None } else { Some(joined(st)) }))
    } else {
        None
    }
}

pub open spec fn field_items(fs: Seq<EmbedField>) -> Seq<(Seq<char>, int, Seq<char>, Option<Seq<char>>)>
    decreases fs.len(),
{
    if fs.len() == 0 {
        seq![]
    } else {
        let prev = field_items(fs.drop_last());
        match field_item(fs.last().name@, fs.last().value@) {
            Some(x) => prev.push(x),
            None => prev,
        }
    }
}

fn mentions_price(l: &Vec<char>) -> (r: bool)
    ensures
        r == is_price_line(l@),
{
    let n = l.len();
    let mut i: usize = 0;
    let mut found = false;
    while i < n && !found
        invariant
            n == l@.len(),
            i <= n,
            found ==> exists|j: int| price_at(l@, j),
            !found ==> forall|j: int| 0 <= j < i ==> !price_at(l@, j),
        decreases n - i + if found { 0int } else { 1 },
    {
        if n - i >= 5 && (l[i] == 'p' || l[i] == 'P') && (l[i + 1] == 'r' || l[i + 1] == 'R') && (l[i + 2] == 'i'
            || l[i + 2] == 'I') && (l[i + 3] == 'c' || l[i + 3] == 'C') && (l[i + 4] == 'e' || l[i + 4] == 'E') {
            assert(price_at(l@, i as int));
            found = true;
        } else {
            i = i + 1;
        }
    }
    if !found {
        assert forall|j: int| !price_at(l@, j) by {
            if 0 <= j < i {
            }
        }
    }
    found || contains_lit(l, "$")
}

fn keep_digits_and_points(l: &Vec<char>) -> (r: Vec<char>)
    ensures
        r@ == digits_and_points(l@),
        forall|j: int| 0 <= j < r@.len() ==> in_class(#[trigger] r@[j], CharClass::DigitOrDot),
{
    let mut out: Vec<char> = Vec::new();
    let mut i: usize = 0;
    while i < l.len()
        invariant
            i <= l@.len(),
            out@ == digits_and_points(l@.take(i as int)),
            forall|j: int| 0 <= j < out@.len() ==> in_class(#[trigger] out@[j], CharClass::DigitOrDot),
        decreases l@.len() - i,
    {
        assert(l@.take(i + 1).drop_last() =~= l@.take(i as int));
        let c = l[i];
        if ('0' <= c && c <= '9') || c == '.' {
            out.push(c);
        }
        i = i + 1;
    }
    assert(l@.take(l@.len() as int) =~= l@);
    out
}

fn append_chars(dst: &mut Vec<char>, src: &Vec<char>)
    ensures
        final(dst)@ == old(dst)@ + src@,
{
    let mut i: usize = 0;
    while i < src.len()
        invariant
            i <= src@.len(),
            dst@ == old(dst)@ + src@.take(i as int),
        decreases src@.len() - i,
    {
        dst.push(src[i]);
        i = i + 1;
        assert(dst@ =~= old(dst)@ + src@.take(i as int));
    }
    assert(src@.take(src@.len() as int) =~= src@);
}

fn scan_field(value: &str) -> (r: (u64, Vec<char>))
    ensures
        (r.0 as int, r.1@) == field_scan(lines_from(value@, 0)),
{
    let v = chars_of(value);
    let lines = split_lines(&v);
    let ghost ls = views(lines@);
    let mut price: u64 = 0;
    let mut desc: Vec<char> = Vec::new();
    let mut i: usize = 0;
    while i < lines.len()
        invariant
            ls == views(lines@),
            ls == lines_from(value@, 0),
            i <= lines@.len(),
            (price as int, desc@) == field_scan(ls.take(i as int)),
        decreases lines@.len() - i,
    {
        assert(ls.take(i + 1).drop_last() =~= ls.take(i as int));
        assert(ls.take(i + 1).last() == lines@[i as int]@);
        let l = &lines[i];
        if mentions_price(l) {
            let num = keep_digits_and_points(l);
            assert(num@.subrange(0, num@.len() as int) =~= num@);
            match decimal_value(&num, 0, num.len(), MAX_WHOLE_MILLI) {
                Some(x) => {
                    price = x;
                },
                None => {},
            }
        } else {
            append_chars(&mut desc, l);
            desc.push('\n');
        }
        i = i + 1;
    }
    assert(ls.take(lines@.len() as int) =~= ls);
    (price, desc)
}

fn stats_text(d: &Vec<char>) -> (r: Option<Vec<char>>)
    ensures
        ({
            let st = stat_lines(lines_from(d@, 0));
            &&& st.len() == 0 ==> r is None
            &&& st.len() > 0 ==> (r matches Some(x) && x@ == joined(st))
        }),
{
    let lines = split_lines(d);
    let ghost ls = views(lines@);
    let mut out: Vec<char> = Vec::new();
    let mut count: usize = 0;
    let mut i: usize = 0;
    while i < lines.len()
        invariant
            ls == views(lines@),
            ls == lines_from(d@, 0),
            i <= lines@.len(),
            count == stat_lines(ls.take(i as int)).len(),
            out@ == joined(stat_lines(ls.take(i as int))),
            count <= i,
        decreases lines@.len() - i,
    {
        assert(ls.take(i + 1).drop_last() =~= ls.take(i as int));
        assert(ls.take(i + 1).last() == lines@[i as int]@);
        let t = trimmed(&lines[i]);
        if t.len() > 0 && t[0] == '+' {
            if count > 0 {
                out.push(',');
                out.push(' ');
                proof {
                    reveal_strlit(", ");
                }
            }
            let ghost before = out@;
            append_chars(&mut out, &t);
            proof {
                let st = stat_lines(ls.take(i + 1));
                assert(st == stat_lines(ls.take(i as int)).push(t@));
                if count > 0 {
                    assert(st.drop_last() == stat_lines(ls.take(i as int)));
                    assert(out@ =~= joined(st.drop_last()) + ", "@ + t@);
                } else {
                    assert(st.len() == 1);
                    assert(out@ =~= t@);
                }
            }
            count = count + 1;
        }
        i = i + 1;
    }
    assert(ls.take(lines@.len() as int) =~= ls);
    if count == 0 {
        None
    } else {
        Some(out)
    }
}

pub open spec fn field_items_view(v: Seq<ShopItem>) -> Seq<(Seq<char>, int, Seq<char>, Option<Seq<char>>)> {
    v.map_values(
        |x: ShopItem|
            (
                x.name@,
                x.price_milli as int,
                x.description@,
                match x.stats {
                    Some(s) => Some(s@),
                    None => None,
                },
            ),
    )
}

/// The items that a shop message's fields describe.
pub fn parse_fields(fields: &Vec<EmbedField>, currency: &str) -> (r: Vec<ShopItem>)
    ensures
        field_items_view(r@) == field_items(fields@),
        forall|k: int| 0 <= k < r@.len() ==> (#[trigger] r@[k]).currency@ == currency@ && r@[k].stock is None,
{
    let mut out: Vec<ShopItem> = Vec::new();
    let mut i: usize = 0;
    while i < fields.len()
        invariant
            i <= fields@.len(),
            field_items_view(out@) == field_items(fields@.take(i as int)),
            forall|k: int| 0 <= k < out@.len() ==> (#[trigger] out@[k]).currency@ == currency@ && out@[k].stock is None,
        decreases fields@.len() - i,
    {
        assert(fields@.take(i + 1).drop_last() =~= fields@.take(i as int));
        assert(fields@.take(i + 1).last() == fields@[i as int]);
        let f = &fields[i];
        let (price, desc) = scan_field(f.value.as_str());
        if price > 0 {
            let ds = trimmed(&desc);
            let stats = match stats_text(&ds) {
                Some(x) => Some(string_from_chars(&x)),
                None => None,
            };
            let name = trimmed(&strip_chars(&chars_of(f.name.as_str()), '*', '*', '*'));
            let ghost before = out@;
            out.push(ShopItem {
                name: string_from_chars(&name),
                price_milli: price,
                currency: String::from_str(currency),
                description: string_from_chars(&ds),
                stock: None,
                stats,
            });
            assert(field_items_view(out@) =~= field_items_view(before).push(
                field_item(f.name@, f.value@)->0,
            ));
        }
        i = i + 1;
    }
    assert(fields@.take(fields@.len() as int) =~= fields@);
    out
}

/// The items a shop message offers: those its fields describe, or, when
/// they describe none, those its description lists. The currency is
/// `Magma` for a shop whose title names it, `Money` otherwise.
pub fn parse_shop_embed(title: &str, description: &str, fields: Option<&Vec<EmbedField>>) -> (r: Vec<ShopItem>)
    ensures
        ({
            let from_fields = match fields {
                Some(f) => field_items(f@),
                None => seq![],
            };
            &&& from_fields.len() > 0 ==> field_items_view(r@) == from_fields
            &&& from_fields.len() == 0 ==> items_view(r@) == listed_items(lines_from(description@, 0))
            &&& forall|k: int| 0 <= k < r@.len() ==> (#[trigger] r@[k]).currency@ == if contains_seq(title@, "Magma"@) {
                "Magma"@
            } else {
                "Money"@
            }
        }),
{
    let magma = contains_lit(&chars_of(title), "Magma");
    let currency = if magma { "Magma" } else { "Money" };
    let items = match fields {
        Some(f) => parse_fields(f, currency),
        None => Vec::new(),
    };
    if items.len() > 0 {
        items
    } else {
        parse_listing(description, currency)
    }
}


// ---- player summary ----

/// Balance, level and biome that a player summary states.
#[derive(Debug)]
pub struct PlayerStats {
    pub balance: Option<u64>,
    pub level: Option<i32>,
    pub biome: Option<String>,
}

/// `Balance: **$digits**` at `i`: the span of the digits and commas.
pub open spec fn balance_at(s: Seq<char>, i: int) -> Option<(int, int)> {
    let c = i + 12;
    let d = run_end(s, c, CharClass::DigitOrComma);
    if occurs_at(s, i, "Balance: **$"@) && d > c && occurs_at(s, d, "**"@) { Some((c, d)) } else { None }
}

/// `Level digits` at `i`: the span of the digits.
pub open spec fn level_at(s: Seq<char>, i: int) -> Option<(int, int)> {
    let c = i + 6;
    let d = run_end(s, c, CharClass::Digit);
    if occurs_at(s, i, "Level "@) && d > c { Some((c, d)) } else { None }
}

/// ` **name**` at `p`, the name of word characters and whitespace: its span.
pub open spec fn bold_at(s: Seq<char>, p: int) -> Option<(int, int)> {
    let a = p + 3;
    let b = run_end(s, a, CharClass::NameChar);
    if occurs_at(s, p, " **"@) && b > a && occurs_at(s, b, "**"@) { Some((a, b)) } else { None }
}

/// The last bold name that starts at or after `j` and at or before `q`.
pub open spec fn last_bold(s: Seq<char>, j: int, q: int) -> Option<(int, int)>
    decreases q - j + 1,
{
    if q < j {
        None
    } else if bold_at(s, q) is Some {
        bold_at(s, q)
    } else {
        last_bold(s, j, q - 1)
    }
}

/// `Current Biome: ` at `i`, followed on the same line by a bold name: the
/// span of the last such name.
pub open spec fn biome_at(s: Seq<char>, i: int) -> Option<(int, int)> {
    let j = i + 15;
    if occurs_at(s, i, "Current Biome: "@) {
        last_bold(s, j, run_end(s, j, CharClass::NotNewline))
    } else {
        None
    }
}

pub open spec fn first_of(s: Seq<char>, i: int, which: int) -> Option<(int, int)>
    decreases s.len() + 1 - i,
{
    if i < 0 || i > s.len() {
        None
    } else {
        let here = if which == 0 { balance_at(s, i) } else if which == 1 { level_at(s, i) } else { biome_at(s, i) };
        if here is Some { here } else { first_of(s, i + 1, which) }
    }
}

/// What a player summary states.
pub open spec fn summary_spec(s: Seq<char>) -> (Option<int>, Option<int>, Option<Seq<char>>) {
    (
        match first_of(s, 0, 0) {
            Some((c, d)) => if has_digit(s.subrange(c, d)) && digits_value(s.subrange(c, d)) <= u64::MAX {
                Some(digits_value(s.subrange(c, d)))
            } else {
                None
            },
            None => None,
        },
        match first_of(s, 0, 1) {
            Some((c, d)) => if digits_value(s.subrange(c, d)) <= i32::MAX {
                Some(digits_value(s.subrange(c, d)))
            } else {
                None
            },
            None => None,
        },
        match first_of(s, 0, 2) {
            Some((a, b)) => Some(s.subrange(a, b)),
            None => None,
        },
    )
}

fn match_at(v: &Vec<char>, i: usize, which: u8) -> (r: Option<(usize, usize)>)
    requires
        i <= v@.len(),
        which <= 2,
    ensures
        r matches Some((c, d)) ==> c <= d <= v@.len() && (if which == 0 { balance_at(v@, i as int) } else if which == 1 {
            level_at(v@, i as int)
        } else {
            biome_at(v@, i as int)
        }) == Some((c as int, d as int))
            && (which == 0 ==> forall|j: int| c <= j < d ==> in_class(#[trigger] v@[j], CharClass::DigitOrComma))
            && (which == 1 ==> c < d && forall|j: int| c <= j < d ==> is_digit(#[trigger] v@[j])),
        r is None ==> (if which == 0 { balance_at(v@, i as int) } else if which == 1 { level_at(v@, i as int) } else {
            biome_at(v@, i as int)
        }) is None,
{
    proof {
        reveal_strlit("Balance: **$");
        reveal_strlit("Level ");
        reveal_strlit("Current Biome: ");
        reveal_strlit("**");
        reveal_strlit(" **");
    }
    let n = v.len();
    if which == 0 {
        if !lit_at(v, i, "Balance: **$") {
            return None;
        }
        let d = scan_run(v, i + 12, CharClass::DigitOrComma);
        proof {
            lemma_run_end(v@, i + 12, CharClass::DigitOrComma);
        }
        if d > i + 12 && lit_at(v, d, "**") {
            Some((i + 12, d))
        } else {
            None
        }
    } else if which == 1 {
        if !lit_at(v, i, "Level ") {
            return None;
        }
        let d = scan_run(v, i + 6, CharClass::Digit);
        proof {
            lemma_run_end(v@, i + 6, CharClass::Digit);
        }
        if d > i + 6 {
            Some((i + 6, d))
        } else {
            None
        }
    } else {
        if !lit_at(v, i, "Current Biome: ") {
            return None;
        }
        let j = i + 15;
        let e = scan_run(v, j, CharClass::NotNewline);
        let mut q = e;
        loop
            invariant
                j <= q + 1,
                q <= e <= v@.len(),
                n == v@.len(),
                which == 2,
                j == i + 15,
                e == run_end(v@, j as int, CharClass::NotNewline),
                " **"@.len() == 3,
                "**"@.len() == 2,
                occurs_at(v@, i as int, "Current Biome: "@),
                last_bold(v@, j as int, e as int) == last_bold(v@, j as int, q as int),
            decreases q + 1 - j,
        {
            if q < j {
                return None;
            }
            if lit_at(v, q, " **") {
                let a = q + 3;
                let b = scan_run(v, a, CharClass::NameChar);
                if b > a && lit_at(v, b, "**") {
                    return Some((a, b));
                }
            }
            if q == 0 {
                return None;
            }
            q = q - 1;
        }
    }
}


fn find_first(v: &Vec<char>, which: u8) -> (r: Option<(usize, usize)>)
    requires
        which <= 2,
    ensures
        r matches Some((c, d)) ==> c <= d <= v@.len() && first_of(v@, 0, which as int) == Some((c as int, d as int))
            && (which == 0 ==> forall|j: int| c <= j < d ==> in_class(#[trigger] v@[j], CharClass::DigitOrComma))
            && (which == 1 ==> c < d && forall|j: int| c <= j < d ==> is_digit(#[trigger] v@[j])),
        r is None ==> first_of(v@, 0, which as int) is None,
{
    let mut i: usize = 0;
    loop
        invariant
            i <= v@.len(),
            which <= 2,
            first_of(v@, 0, which as int) == first_of(v@, i as int, which as int),
        decreases v@.len() - i,
    {
        match match_at(v, i, which) {
            Some(t) => {
                return Some(t);
            },
            None => {},
        }
        if i == v.len() {
            assert(first_of(v@, i + 1, which as int) is None);
            return None;
        }
        i = i + 1;
    }
}

/// Reads a player summary: the first stated balance and level, and the
/// biome named in bold at the end of the `Current Biome:` line.
pub fn parse_profile_embed(description: &str) -> (r: PlayerStats)
    ensures
        ({
            let (bal, lvl, bio) = summary_spec(description@);
            &&& bal == match r.balance {
                Some(x) => Some(x as int),
                None => None,
            }
            &&& lvl == match r.level {
                Some(x) => Some(x as int),
                None => None,
            }
            &&& bio == match r.biome {
                Some(x) => Some(x@),
                None => None,
            }
        }),
{
    let v = chars_of(description);
    let balance = match find_first(&v, 0) {
        Some((c, d)) => parse_digits(&v, c, d, u64::MAX),
        None => None,
    };
    let level = match find_first(&v, 1) {
        Some((c, d)) => {
            assert forall|j: int| c <= j < d implies in_class(#[trigger] v@[j], CharClass::DigitOrComma) by {
                assert(is_digit(v@[j]));
            }
            match parse_digits(&v, c, d, i32::MAX as u64) {
                Some(x) => Some(x as i32),
                None => {
                    assert(v@.subrange(c as int, d as int)[0] == v@[c as int]);
                    None
                },
            }
        },
        None => None,
    };
    let biome = match find_first(&v, 2) {
        Some((a, b)) => Some(string_from_chars(&crate::text::copy_range(&v, a, b))),
        None => None,
    };
    PlayerStats { balance, level, biome }
}

} // verus!
