//! Text building blocks: decimal rendering of integers, joining words, and
//! the few `str` / `String` operations of std that vstd leaves unspecified.

use vstd::prelude::*;

verus! {

/// Whether `needle` occurs in `hay` as a contiguous run of characters.
pub open spec fn seq_has_infix(hay: Seq<char>, needle: Seq<char>) -> bool {
    exists|i: int|
        0 <= i && i + needle.len() <= hay.len() && #[trigger] hay.subrange(i, i + needle.len())
            == needle
}

/// Appends one character (`String::push`).
#[verifier::external_body]
pub fn push_char(s: &mut String, c: char)
    ensures
        final(s)@ == old(s)@.push(c),
{
    s.push(c);
}

/// The character with scalar value `n`, if there is one (`char::from_u32`).
#[verifier::external_body]
pub fn char_from_u32(n: u32) -> (c: Option<char>)
    ensures
        c is Some <==> (n <= 0x10FFFF && !(0xD800 <= n <= 0xDFFF)),
        c matches Some(ch) ==> ch == n as char,
{
    char::from_u32(n)
}

/// String equality (`str == str`).
#[verifier::external_body]
pub fn str_eq(a: &str, b: &str) -> (eq: bool)
    ensures
        eq == (a@ == b@),
{
    a == b
}

/// Substring search (`str::contains` with a `&str` pattern).
#[verifier::external_body]
pub fn str_contains(hay: &str, needle: &str) -> (found: bool)
    ensures
        found == seq_has_infix(hay@, needle@),
{
    hay.contains(needle)
}

/// What `str::to_lowercase` returns: the Unicode lowercase mapping of the text.
pub uninterp spec fn spec_to_lowercase(s: Seq<char>) -> Seq<char>;

/// `str::to_lowercase`; its result is named, not spelled out.
#[verifier::external_body]
pub fn to_lowercase(s: &str) -> (t: String)
    ensures
        t@ == spec_to_lowercase(s@),
{
    s.to_lowercase()
}

/// The decimal digit character for `d` in `0..10`.
pub open spec fn digit_char(d: nat) -> char {
    ((d + 48) as u32) as char
}

/// Decimal representation of a natural number, without leading zeros.
pub open spec fn spec_decimal_nat(n: nat) -> Seq<char>
    decreases n,
{
    if n < 10 {
        seq![digit_char(n)]
    } else {
        spec_decimal_nat(n / 10).push(digit_char(n % 10))
    }
}

/// Decimal representation of an integer, with a leading `-` when negative
/// (what `format!("{}", n)` writes).
pub open spec fn spec_decimal(n: int) -> Seq<char> {
    if n < 0 {
        seq!['-'] + spec_decimal_nat((-n) as nat)
    } else {
        spec_decimal_nat(n as nat)
    }
}

fn digit(d: u64) -> (c: char)
    requires
        d < 10,
    ensures
        c == digit_char(d as nat),
{
    let b: u8 = (d as u8) + 48;
    b as char
}

/// Appends the decimal digits of `n`.
pub fn push_decimal_u64(s: &mut String, n: u64)
    ensures
        final(s)@ == old(s)@ + spec_decimal_nat(n as nat),
    decreases n,
{
    if n >= 10 {
        push_decimal_u64(s, n / 10);
    }
    push_char(s, digit(n % 10));
    assert(final(s)@ =~= old(s)@ + spec_decimal_nat(n as nat));
}

/// Appends the decimal representation of `n` (with `-` when negative).
pub fn push_decimal_i64(s: &mut String, n: i64)
    ensures
        final(s)@ == old(s)@ + spec_decimal(n as int),
{
    if n < 0 {
        push_char(s, '-');
        let m: u64 = (0i128 - n as i128) as u64;
        push_decimal_u64(s, m);
        assert(final(s)@ =~= old(s)@ + spec_decimal(n as int));
    } else {
        push_decimal_u64(s, n as u64);
    }
}

/// Words joined by single spaces.
pub open spec fn spec_join_words(ws: Seq<Seq<char>>) -> Seq<char>
    decreases ws.len(),
{
    if ws.len() == 0 {
        Seq::empty()
    } else if ws.len() == 1 {
        ws[0]
    } else {
        spec_join_words(ws.drop_last()) + seq![' '] + ws.last()
    }
}

pub open spec fn string_views(v: Seq<String>) -> Seq<Seq<char>> {
    v.map_values(|s: String| s@)
}

/// Joins the words with single spaces (`words.join(" ")`).
pub fn join_words(words: &Vec<String>) -> (joined: String)
    ensures
        joined@ == spec_join_words(string_views(words@)),
{
    let mut joined = String::new();
    let mut i: usize = 0;
    while i < words.len()
        invariant
            i <= words@.len(),
            joined@ == spec_join_words(string_views(words@).take(i as int)),
        decreases words@.len() - i,
    {
        let ghost before = joined@;
        assert(string_views(words@).take(i + 1).drop_last() =~= string_views(words@).take(
            i as int,
        ));
        if i != 0 {
            push_char(&mut joined, ' ');
        }
        joined.append(words[i].as_str());
        proof {
            let ws = string_views(words@).take(i + 1);
            assert(ws.last() == words@[i as int]@);
            if i == 0 {
                assert(joined@ =~= spec_join_words(ws));
            } else {
                assert(joined@ =~= before + seq![' '] + ws.last());
            }
        }
        i = i + 1;
    }
    assert(string_views(words@).take(words@.len() as int) =~= string_views(words@));
    joined
}

/// The text without any trailing occurrences of `c`.
pub open spec fn spec_trim_end_char(s: Seq<char>, c: char) -> Seq<char>
    decreases s.len(),
{
    if s.len() > 0 && s.last() == c {
        spec_trim_end_char(s.drop_last(), c)
    } else {
        s
    }
}

/// `str::trim_end_matches` with a `char` pattern: every trailing `c` removed.
#[verifier::external_body]
pub fn trim_end_char(s: &str, c: char) -> (t: &str)
    ensures
        t@ == spec_trim_end_char(s@, c),
{
    s.trim_end_matches(c)
}

/// The view of an optional string.
pub open spec fn opt_view(s: Option<String>) -> Option<Seq<char>> {
    match s {
        Some(t) => Some(t@),
        None => None,
    }
}

/// The view of an optional string slice.
pub open spec fn opt_str_view(s: Option<&str>) -> Option<Seq<char>> {
    match s {
        Some(t) => Some(t@),
        None => None,
    }
}

} // verus!
