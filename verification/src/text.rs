//! Text building blocks shared by the generators: joining, decimal rendering
//! and character-level queries over `String`s.

use vstd::prelude::*;

verus! {

/// Concatenation of `parts` with `sep` between consecutive parts.
pub open spec fn join(parts: Seq<Seq<char>>, sep: Seq<char>) -> Seq<char>
    decreases parts.len(),
{
    if parts.len() == 0 {
        Seq::empty()
    } else if parts.len() == 1 {
        parts[0]
    } else {
        join(parts.drop_last(), sep) + sep + parts.last()
    }
}

/// The views of a vector of strings.
pub open spec fn views(v: Seq<String>) -> Seq<Seq<char>> {
    Seq::new(v.len(), |i: int| v[i]@)
}

pub proof fn lemma_deep_view_strings(v: Vec<String>)
    ensures
        v.deep_view() == views(v@),
{
    assert(v.deep_view() =~= views(v@));
}

pub proof fn lemma_views_push(v: Seq<String>, x: String)
    ensures
        views(v.push(x)) == views(v).push(x@),
{
    assert(views(v.push(x)) =~= views(v).push(x@));
}

/// Decimal digits of `n`, most significant first, without leading zeros
/// (`0` is rendered as a single `'0'`).
pub open spec fn decimal(n: nat) -> Seq<char>
    decreases n,
{
    if n < 10 {
        seq![digit_char(n)]
    } else {
        decimal(n / 10).push(digit_char(n % 10))
    }
}

pub open spec fn digit_char(d: nat) -> char {
    if d == 0 { '0' }
    else if d == 1 { '1' }
    else if d == 2 { '2' }
    else if d == 3 { '3' }
    else if d == 4 { '4' }
    else if d == 5 { '5' }
    else if d == 6 { '6' }
    else if d == 7 { '7' }
    else if d == 8 { '8' }
    else { '9' }
}

/// Decimal rendering of a signed integer, with a leading `-` when negative.
pub open spec fn signed_decimal(i: int) -> Seq<char> {
    if i < 0 {
        seq!['-'] + decimal((-i) as nat)
    } else {
        decimal(i as nat)
    }
}

pub open spec fn starts_with(s: Seq<char>, prefix: Seq<char>) -> bool {
    prefix.len() <= s.len() && s.subrange(0, prefix.len() as int) == prefix
}

pub open spec fn ends_with(s: Seq<char>, suffix: Seq<char>) -> bool {
    suffix.len() <= s.len() && s.subrange(s.len() - suffix.len(), s.len() as int) == suffix
}

pub open spec fn contains_char(s: Seq<char>, c: char) -> bool {
    exists|i: int| 0 <= i < s.len() && s[i] == c
}

/// Appends one character to a string (`String::push`).
#[verifier::external_body]
pub(crate) fn push_char(s: &mut String, c: char)
    ensures
        final(s)@ == old(s)@.push(c),
{
    s.push(c)
}

/// String equality of two `str` slices (`<str as PartialEq>::eq`).
#[verifier::external_body]
pub(crate) fn str_eq(a: &str, b: &str) -> (r: bool)
    ensures
        r == (a@ == b@),
{
    a == b
}

/// What `str::to_lowercase` gives for a string.
pub uninterp spec fn unicode_lowercase(s: Seq<char>) -> Seq<char>;

/// What `str::to_uppercase` gives for a string.
pub uninterp spec fn unicode_uppercase(s: Seq<char>) -> Seq<char>;

/// The first character that `char::to_uppercase` yields for a character.
pub uninterp spec fn unicode_upper_first(c: char) -> char;

/// Whether every character of `s` is ASCII.
pub open spec fn is_ascii_text(s: Seq<char>) -> bool {
    forall|i: int| 0 <= i < s.len() ==> (#[trigger] s[i] as u32) < 128
}

/// `A`-`Z` to `a`-`z`; every other character is kept.
pub open spec fn ascii_lower_char(c: char) -> char {
    if 'A' <= c && c <= 'Z' { ((c as u32) + 32) as char } else { c }
}

/// `a`-`z` to `A`-`Z`; every other character is kept.
pub open spec fn ascii_upper_char(c: char) -> char {
    if 'a' <= c && c <= 'z' { ((c as u32) - 32) as char } else { c }
}

/// The lowercase form of a string as `str::to_lowercase` gives it: on ASCII
/// text `A`-`Z` become `a`-`z`, one for one.
pub open spec fn lowercase(s: Seq<char>) -> Seq<char> {
    if is_ascii_text(s) { s.map_values(|c: char| ascii_lower_char(c)) } else { unicode_lowercase(s) }
}

/// The uppercase form of a string as `str::to_uppercase` gives it: on ASCII
/// text `a`-`z` become `A`-`Z`, one for one.
pub open spec fn uppercase(s: Seq<char>) -> Seq<char> {
    if is_ascii_text(s) { s.map_values(|c: char| ascii_upper_char(c)) } else { unicode_uppercase(s) }
}

/// `str::to_lowercase`: the lowercase mapping of each character (one or more
/// characters each), so the result is never shorter than the input; on ASCII
/// text that is `A`-`Z` to `a`-`z`, one for one.
#[verifier::external_body]
pub(crate) fn to_lowercase(s: &str) -> (r: String)
    ensures
        r@ == unicode_lowercase(s@),
        r@.len() >= s@.len(),
        is_ascii_text(s@) ==> r@ == s@.map_values(|c: char| ascii_lower_char(c)),
        r@ == lowercase(s@),
{
    s.to_lowercase()
}

/// `str::to_uppercase`: the uppercase mapping of each character; on ASCII
/// text that is `a`-`z` to `A`-`Z`, one for one.
#[verifier::external_body]
pub(crate) fn to_uppercase(s: &str) -> (r: String)
    ensures
        r@ == unicode_uppercase(s@),
        is_ascii_text(s@) ==> r@ == s@.map_values(|c: char| ascii_upper_char(c)),
        r@ == uppercase(s@),
{
    s.to_uppercase()
}

/// The first character of `char::to_uppercase` (which always yields at least
/// one): the capital of an ASCII small letter, and an ASCII capital itself.
#[verifier::external_body]
pub(crate) fn upper_first(c: char) -> (r: char)
    ensures
        r == unicode_upper_first(c),
        ('a' <= c && c <= 'z') ==> r as u32 == c as u32 - 32,
        ('A' <= c && c <= 'Z') ==> r == c,
{
    c.to_uppercase().nth(0).unwrap()
}

/// Builds an owned string from a slice.
pub fn owned(s: &str) -> (r: String)
    ensures
        r@ == s@,
{
    String::from_str(s)
}

fn digit(d: u128) -> (c: char)
    requires
        d < 10,
    ensures
        c == digit_char(d as nat),
{
    if d == 0 { '0' }
    else if d == 1 { '1' }
    else if d == 2 { '2' }
    else if d == 3 { '3' }
    else if d == 4 { '4' }
    else if d == 5 { '5' }
    else if d == 6 { '6' }
    else if d == 7 { '7' }
    else if d == 8 { '8' }
    else { '9' }
}

/// Appends the decimal digits of `n` to `s`.
pub fn push_decimal(s: &mut String, n: u128)
    ensures
        final(s)@ == old(s)@ + decimal(n as nat),
    decreases n,
{
    if n < 10 {
        push_char(s, digit(n));
        assert(decimal(n as nat) == seq![digit_char(n as nat)]);
    } else {
        push_decimal(s, n / 10);
        push_char(s, digit(n % 10));
        assert(decimal(n as nat) == decimal((n / 10) as nat).push(digit_char((n % 10) as nat)));
    }
}

/// Appends the decimal rendering of a signed integer to `s`.
pub fn push_signed_decimal(s: &mut String, i: i128)
    ensures
        final(s)@ == old(s)@ + signed_decimal(i as int),
{
    if i < 0 {
        push_char(s, '-');
        let m: u128 = if i == i128::MIN { (i128::MAX as u128) + 1 } else { (-i) as u128 };
        push_decimal(s, m);
        assert(old(s)@.push('-') + decimal(m as nat) == old(s)@ + (seq!['-'] + decimal(m as nat)));
    } else {
        push_decimal(s, i as u128);
    }
}

/// Decimal rendering of an unsigned integer.
pub fn decimal_string(n: u128) -> (r: String)
    ensures
        r@ == decimal(n as nat),
{
    let mut r = String::new();
    push_decimal(&mut r, n);
    assert(Seq::<char>::empty() + decimal(n as nat) == decimal(n as nat));
    r
}

/// Joins `list` with `sep` between consecutive items.
pub fn join_strings(list: &Vec<String>, sep: &str) -> (r: String)
    ensures
        r@ == join(views(list@), sep@),
{
    let mut r = String::new();
    let ghost all = views(list@);
    let n = list.len();
    let mut i: usize = 0;
    while i < n
        invariant
            n == list.len(),
            i <= n,
            all == views(list@),
            all.len() == n,
            r@ == join(all.take(i as int), sep@),
        decreases n - i,
    {
        if i != 0 {
            r.append(sep);
        }
        r.append(list[i].as_str());
        assert(all.take(i + 1).drop_last() == all.take(i as int));
        assert(all.take(i + 1).last() == list@[i as int]@);
        i = i + 1;
    }
    assert(all.take(n as int) == all);
    r
}

/// The characters of `s`, in order.
pub fn chars_of(s: &str) -> (r: Vec<char>)
    ensures
        r@ == s@,
{
    let mut r: Vec<char> = Vec::new();
    for c in it: s.chars()
        invariant
            r@ == it.seq().take(it.index() as int),
            it.seq() == s@,
    {
        r.push(c);
    }
    r
}

/// The pieces of `s` between the non-overlapping occurrences of `sep`,
/// found left to right from position `i`; the current piece starts at `start`.
pub open spec fn split_scan(s: Seq<char>, sep: Seq<char>, i: int, start: int, acc: Seq<Seq<char>>) -> Seq<Seq<char>>
    decreases s.len() - i,
{
    if sep.len() == 0 || start < 0 || i < start || i + sep.len() > s.len() {
        acc.push(s.subrange(start, s.len() as int))
    } else if s.subrange(i, i + sep.len()) == sep {
        split_scan(s, sep, i + sep.len(), i + sep.len(), acc.push(s.subrange(start, i)))
    } else {
        split_scan(s, sep, i + 1, start, acc)
    }
}

/// `s` split at each non-overlapping occurrence of `sep`, left to right.
pub open spec fn split(s: Seq<char>, sep: Seq<char>) -> Seq<Seq<char>> {
    split_scan(s, sep, 0, 0, Seq::empty())
}

/// The string made of `cs[a..b]`.
pub fn string_of_range(cs: &Vec<char>, a: usize, b: usize) -> (r: String)
    requires
        a <= b <= cs.len(),
    ensures
        r@ == cs@.subrange(a as int, b as int),
{
    let mut r = String::new();
    let mut i = a;
    while i < b
        invariant
            a <= i <= b <= cs.len(),
            r@ == cs@.subrange(a as int, i as int),
        decreases b - i,
    {
        push_char(&mut r, cs[i]);
        assert(cs@.subrange(a as int, i + 1) == cs@.subrange(a as int, i as int).push(cs@[i as int]));
        i = i + 1;
    }
    r
}

pub(crate) fn matches_at(cs: &Vec<char>, ps: &Vec<char>, i: usize) -> (r: bool)
    requires
        i + ps.len() <= cs.len(),
    ensures
        r == (cs@.subrange(i as int, i + ps.len()) == ps@),
{
    let mut j: usize = 0;
    while j < ps.len()
        invariant
            i + ps.len() <= cs.len(),
            j <= ps.len(),
            forall|k: int| 0 <= k < j ==> cs@[i + k] == ps@[k],
        decreases ps.len() - j,
    {
        if cs[i + j] != ps[j] {
            assert(cs@.subrange(i as int, i + ps.len())[j as int] != ps@[j as int]);
            return false;
        }
        j = j + 1;
    }
    assert(cs@.subrange(i as int, i + ps.len()) =~= ps@);
    true
}

/// `s` split at each non-overlapping occurrence of `sep`, left to right.
pub fn split_str(s: &str, sep: &str) -> (r: Vec<String>)
    requires
        sep@.len() > 0,
    ensures
        views(r@) == split(s@, sep@),
{
    let cs = chars_of(s);
    let ps = chars_of(sep);
    let mut out: Vec<String> = Vec::new();
    let mut i: usize = 0;
    let mut start: usize = 0;
    assert(views(out@) =~= Seq::<Seq<char>>::empty());
    while ps.len() <= cs.len() && i <= cs.len() - ps.len()
        invariant
            cs@ == s@,
            ps@ == sep@,
            ps.len() > 0,
            start <= i <= cs.len(),
            split(s@, sep@) == split_scan(s@, sep@, i as int, start as int, views(out@)),
        decreases cs.len() - i,
    {
        if matches_at(&cs, &ps, i) {
            let piece = string_of_range(&cs, start, i);
            let ghost before = out@;
            out.push(piece);
            proof { lemma_views_push(before, piece); }
            i = i + ps.len();
            start = i;
        } else {
            i = i + 1;
        }
    }
    let last = string_of_range(&cs, start, cs.len());
    let ghost before = out@;
    out.push(last);
    proof { lemma_views_push(before, last); }
    out
}

/// Whether `s` ends with `suffix`.
pub fn str_ends_with(s: &str, suffix: &str) -> (r: bool)
    ensures
        r == ends_with(s@, suffix@),
{
    let a = chars_of(s);
    let b = chars_of(suffix);
    if b.len() > a.len() {
        return false;
    }
    matches_at(&a, &b, a.len() - b.len())
}

/// Whether `s` starts with `prefix`.
pub fn str_starts_with(s: &str, prefix: &str) -> (r: bool)
    ensures
        r == starts_with(s@, prefix@),
{
    let a = chars_of(s);
    let b = chars_of(prefix);
    if b.len() > a.len() {
        return false;
    }
    matches_at(&a, &b, 0)
}

/// Splitting always yields at least one piece, and never fewer than were
/// already found.
pub proof fn lemma_split_nonempty(s: Seq<char>, sep: Seq<char>, i: int, start: int, acc: Seq<Seq<char>>)
    ensures
        split_scan(s, sep, i, start, acc).len() > acc.len(),
    decreases s.len() - i,
{
    if sep.len() == 0 || start < 0 || i < start || i + sep.len() > s.len() {
    } else if s.subrange(i, i + sep.len()) == sep {
        lemma_split_nonempty(s, sep, i + sep.len(), i + sep.len(), acc.push(s.subrange(start, i)));
    } else {
        lemma_split_nonempty(s, sep, i + 1, start, acc);
    }
}

} // verus!
