//! Text as sequences of characters: what the find field and the status
//! line need of the standard library's strings.

use vstd::prelude::*;

verus! {

/// `text` in lower case, character by character as Unicode defines it.
pub uninterp spec fn lowercase_of(text: Seq<char>) -> Seq<char>;

/// Whether `needle` occurs in `text` as a run of consecutive characters.
/// The empty text occurs everywhere.
pub open spec fn occurs_in(needle: Seq<char>, text: Seq<char>) -> bool {
    exists|at: int|
        0 <= at && at + needle.len() <= text.len() && #[trigger] text.subrange(
            at,
            at + needle.len(),
        ) == needle
}

/// Whether `a` comes before `b`, or equals it, in the order of a
/// dictionary over the characters' code points.
pub open spec fn text_le(a: Seq<char>, b: Seq<char>) -> bool
    decreases a.len(),
{
    if a.len() == 0 {
        true
    } else if b.len() == 0 {
        false
    } else if a[0] != b[0] {
        (a[0] as int) < (b[0] as int)
    } else {
        text_le(a.drop_first(), b.drop_first())
    }
}

/// Of two texts one comes before the other, or they are equal.
pub proof fn lemma_text_le_total(a: Seq<char>, b: Seq<char>)
    ensures
        text_le(a, b) || text_le(b, a),
    decreases a.len(),
{
    if a.len() > 0 && b.len() > 0 {
        if a[0] == b[0] {
            lemma_text_le_total(a.drop_first(), b.drop_first());
        } else {
            assert(a[0] as int != b[0] as int);
        }
    }
}

/// What comes before a text comes before everything behind that text.
pub proof fn lemma_text_le_transitive(a: Seq<char>, b: Seq<char>, c: Seq<char>)
    requires
        text_le(a, b),
        text_le(b, c),
    ensures
        text_le(a, c),
    decreases a.len(),
{
    if a.len() > 0 {
        if a[0] == b[0] && b[0] == c[0] {
            lemma_text_le_transitive(a.drop_first(), b.drop_first(), c.drop_first());
        }
    }
}

/// The decimal digit `d` as a character.
pub open spec fn digit(d: nat) -> char
    recommends
        d < 10,
{
    ((48 + d) as u8) as char
}

/// `n` in decimal digits, without leading zeros.
pub open spec fn decimal(n: nat) -> Seq<char>
    decreases n,
{
    if n < 10 {
        seq![digit(n)]
    } else {
        decimal(n / 10).push(digit(n % 10))
    }
}

/// `n` in decimal digits, with a leading zero where it has one digit.
pub open spec fn two_digits(n: nat) -> Seq<char> {
    if n < 10 {
        seq!['0', digit(n)]
    } else {
        decimal(n)
    }
}

/// Elapsed and total time as `mm:ss / mm:ss`.
pub open spec fn clock_text(
    elapsed_min: nat,
    elapsed_sec: nat,
    total_min: nat,
    total_sec: nat,
) -> Seq<char> {
    two_digits(elapsed_min) + seq![':'] + two_digits(elapsed_sec) + seq![' ', '/', ' ']
        + two_digits(total_min) + seq![':'] + two_digits(total_sec)
}

/// Lower-cases `text` with `str::to_lowercase`. The result depends on the
/// characters of `text` alone.
#[verifier::external_body]
pub(crate) fn lowercase(text: &str) -> (lower: String)
    ensures
        lower@ == lowercase_of(text@),
{
    text.to_lowercase()
}

/// Searches `text` for `needle` with `str::contains`, which finds a
/// pattern string wherever its characters occur in a row.
#[verifier::external_body]
pub(crate) fn contains_text(text: &str, needle: &str) -> (found: bool)
    ensures
        found == occurs_in(needle@, text@),
{
    text.contains(needle)
}

/// Orders two texts with `<=` on `str`, which goes through the bytes of
/// both as a dictionary does; for UTF-8 that is the order of the
/// characters' code points.
#[verifier::external_body]
pub(crate) fn precedes_or_equals(a: &str, b: &str) -> (le: bool)
    ensures
        le == text_le(a@, b@),
{
    a <= b
}

/// The text made of the one character `c`, by `String::from`.
#[verifier::external_body]
pub(crate) fn char_text(c: char) -> (text: String)
    ensures
        text@ == seq![c],
{
    String::from(c)
}

/// Writes four numbers as `mm:ss / mm:ss` with the standard formatter: each
/// in decimal, at least two digits wide, padded with a zero.
#[verifier::external_body]
pub(crate) fn format_clock(
    elapsed_min: u64,
    elapsed_sec: u64,
    total_min: u64,
    total_sec: u64,
) -> (text: String)
    ensures
        text@ == clock_text(
            elapsed_min as nat,
            elapsed_sec as nat,
            total_min as nat,
            total_sec as nat,
        ),
{
    format!("{:02}:{:02} / {:02}:{:02}", elapsed_min, elapsed_sec, total_min, total_sec)
}

/// The cell `cell`, `count` times over.
pub(crate) fn repeated(cell: char, count: usize) -> (text: String)
    ensures
        text@ == Seq::new(count as nat, |i: int| cell),
{
    let piece: String = char_text(cell);
    let mut text: String = String::new();
    let mut done: usize = 0;
    while done < count
        invariant
            done <= count,
            piece@ == seq![cell],
            text@ == Seq::new(done as nat, |i: int| cell),
        decreases count - done,
    {
        text.append(piece.as_str());
        done += 1;
        assert(text@ =~= Seq::new(done as nat, |i: int| cell));
    }
    text
}

/// The part of `text` from character `from` up to character `to`.
pub(crate) fn slice_of(text: &String, from: usize, to: usize) -> (part: String)
    requires
        from <= to <= text@.len(),
    ensures
        part@ == text@.subrange(from as int, to as int),
{
    String::from_str(text.as_str().substring_char(from, to))
}

} // verus!
