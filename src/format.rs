//! Plain-text renderings of numbers, versions and status words.
use vstd::prelude::*;
use crate::text::{chars_of, eq_ignoring_case, same_ignoring_case, string_of};

verus! {

/// The digit character of `d`.
pub open spec fn digit_char(d: nat) -> char {
    ((d % 10) as u8 + 48) as char
}

/// The decimal digits of `n`, most significant first.
pub open spec fn decimal(n: nat) -> Seq<char>
    decreases n,
{
    if n < 10 {
        seq![digit_char(n)]
    } else {
        decimal(n / 10).push(digit_char(n % 10))
    }
}

/// `n` in decimal.
pub fn decimal_text(n: u64) -> (r: String)
    ensures
        r@ == decimal(n as nat),
{
    let ds = decimal_digits(n);
    string_of(&ds)
}

/// Digits with a comma before each group of three counted from the right.
pub open spec fn grouped(ds: Seq<char>) -> Seq<char>
    decreases ds.len(),
{
    if ds.len() <= 3 {
        ds
    } else {
        grouped(ds.subrange(0, ds.len() - 3)) + seq![','] + ds.subrange(ds.len() - 3, ds.len() as int)
    }
}

fn decimal_digits(n: u64) -> (r: Vec<char>)
    ensures
        r@ == decimal(n as nat),
    decreases n,
{
    let d = ((n % 10) as u8 + 48) as char;
    if n < 10 {
        let mut v: Vec<char> = Vec::new();
        v.push(d);
        assert(v@ =~= seq![digit_char(n as nat)]);
        v
    } else {
        let mut v = decimal_digits(n / 10);
        v.push(d);
        v
    }
}

fn group_digits(ds: &Vec<char>, end: usize) -> (r: Vec<char>)
    requires
        end <= ds.len(),
    ensures
        r@ == grouped(ds@.subrange(0, end as int)),
    decreases end,
{
    let ghost s = ds@.subrange(0, end as int);
    let mut r: Vec<char>;
    let start: usize;
    if end <= 3 {
        r = Vec::new();
        start = 0;
    } else {
        r = group_digits(ds, end - 3);
        r.push(',');
        start = end - 3;
        assert(s.subrange(0, s.len() - 3) =~= ds@.subrange(0, end - 3));
    }
    let ghost base = r@;
    let mut k = start;
    while k < end
        invariant
            start <= k <= end <= ds.len(),
            r@ == base + ds@.subrange(start as int, k as int),
        decreases end - k,
    {
        r.push(ds[k]);
        k += 1;
        assert(r@ =~= base + ds@.subrange(start as int, k as int));
    }
    if end <= 3 {
        assert(r@ =~= s);
    } else {
        assert(s.subrange(s.len() - 3, s.len() as int) =~= ds@.subrange(start as int, end as int));
        assert(r@ =~= grouped(s.subrange(0, s.len() - 3)) + seq![','] + s.subrange(
            s.len() - 3,
            s.len() as int,
        ));
    }
    r
}

/// `n` in decimal, with a comma between each group of three digits.
pub fn format_number(n: u64) -> (r: String)
    ensures
        r@ == grouped(decimal(n as nat)),
{
    let ds = decimal_digits(n);
    let g = group_digits(&ds, ds.len());
    assert(ds@.subrange(0, ds@.len() as int) =~= ds@);
    string_of(&g)
}

/// `s` without its leading `v` characters.
pub open spec fn strip_v(s: Seq<char>) -> Seq<char>
    decreases s.len(),
{
    if s.len() > 0 && s[0] == 'v' {
        strip_v(s.drop_first())
    } else {
        s
    }
}

/// A release tag as a version: the tag without its leading `v` characters.
pub fn normalize_version(tag: &str) -> (r: String)
    ensures
        r@ == strip_v(tag@),
{
    let cs = chars_of(tag);
    let mut a: usize = 0;
    assert(cs@.subrange(0, cs@.len() as int) =~= cs@);
    while a < cs.len() && cs[a] == 'v'
        invariant
            a <= cs.len(),
            strip_v(cs@) == strip_v(cs@.subrange(a as int, cs@.len() as int)),
        decreases cs.len() - a,
    {
        assert(cs@.subrange(a as int, cs@.len() as int).drop_first() =~= cs@.subrange(
            a + 1,
            cs@.len() as int,
        ));
        a += 1;
    }
    let mut rest: Vec<char> = Vec::new();
    let mut k = a;
    while k < cs.len()
        invariant
            a <= k <= cs.len(),
            rest@ == cs@.subrange(a as int, k as int),
        decreases cs.len() - k,
    {
        rest.push(cs[k]);
        k += 1;
        assert(rest@ =~= cs@.subrange(a as int, k as int));
    }
    string_of(&rest)
}

/// The colour a status badge is shown in.
#[derive(Debug, Clone, Copy, PartialEq, Eq, Structural)]
pub enum BadgeColor {
    Green,
    Yellow,
    Blue,
    Red,
    Dimmed,
    Plain,
}

/// A status word as it is shown: its text and its colour.
#[derive(Debug, Clone, PartialEq)]
pub struct Badge {
    pub text: String,
    pub color: BadgeColor,
}

/// The text and colour of the badge for a status word, compared without regard to case.
pub open spec fn badge_of(s: Seq<char>) -> (Seq<char>, BadgeColor) {
    if same_ignoring_case(s, "active"@) {
        ("\u{25cf} active"@, BadgeColor::Green)
    } else if same_ignoring_case(s, "pending"@) {
        ("\u{25cf} pending"@, BadgeColor::Yellow)
    } else if same_ignoring_case(s, "initializing"@) {
        ("\u{25cf} initializing"@, BadgeColor::Yellow)
    } else if same_ignoring_case(s, "moved"@) {
        ("\u{25cf} moved"@, BadgeColor::Blue)
    } else if same_ignoring_case(s, "deleted"@) {
        ("\u{25cf} deleted"@, BadgeColor::Red)
    } else if same_ignoring_case(s, "deactivated"@) {
        ("\u{25cf} deactivated"@, BadgeColor::Dimmed)
    } else if same_ignoring_case(s, "on"@) || same_ignoring_case(s, "true"@) || same_ignoring_case(
        s,
        "enabled"@,
    ) {
        ("\u{25cf} ON"@, BadgeColor::Green)
    } else if same_ignoring_case(s, "off"@) || same_ignoring_case(s, "false"@) || same_ignoring_case(
        s,
        "disabled"@,
    ) {
        ("\u{25cf} OFF"@, BadgeColor::Red)
    } else {
        (s, BadgeColor::Plain)
    }
}

fn is_word(cs: &Vec<char>, w: &str) -> (r: bool)
    ensures
        r == same_ignoring_case(cs@, w@),
{
    eq_ignoring_case(cs, &chars_of(w))
}

/// The badge for a status word; a word outside the known ones is shown as it is, uncoloured.
pub fn status_badge(status: &str) -> (r: Badge)
    ensures
        (r.text@, r.color) == badge_of(status@),
{
    let cs = chars_of(status);
    let (text, color) = if is_word(&cs, "active") {
        ("\u{25cf} active", BadgeColor::Green)
    } else if is_word(&cs, "pending") {
        ("\u{25cf} pending", BadgeColor::Yellow)
    } else if is_word(&cs, "initializing") {
        ("\u{25cf} initializing", BadgeColor::Yellow)
    } else if is_word(&cs, "moved") {
        ("\u{25cf} moved", BadgeColor::Blue)
    } else if is_word(&cs, "deleted") {
        ("\u{25cf} deleted", BadgeColor::Red)
    } else if is_word(&cs, "deactivated") {
        ("\u{25cf} deactivated", BadgeColor::Dimmed)
    } else if is_word(&cs, "on") || is_word(&cs, "true") || is_word(&cs, "enabled") {
        ("\u{25cf} ON", BadgeColor::Green)
    } else if is_word(&cs, "off") || is_word(&cs, "false") || is_word(&cs, "disabled") {
        ("\u{25cf} OFF", BadgeColor::Red)
    } else {
        (status, BadgeColor::Plain)
    };
    Badge { text: text.to_owned(), color }
}

} // verus!
