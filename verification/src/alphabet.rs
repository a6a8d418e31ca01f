//! The z-base-32 encoding alphabet and the character-level helpers that
//! prefix validation and prefix matching are built on.

use vstd::prelude::*;

verus! {

/// Membership in the z-base-32 alphabet: ybndrfg8ejkmcpqxot1uwisza345h769.
/// The visually ambiguous symbols v, 0, l and 2 are deliberately absent.
pub open spec fn is_zbase32_char(c: char) -> bool {
    c == 'y' || c == 'b' || c == 'n' || c == 'd' || c == 'r' || c == 'f' || c == 'g' || c == '8'
        || c == 'e' || c == 'j' || c == 'k' || c == 'm' || c == 'c' || c == 'p' || c == 'q'
        || c == 'x' || c == 'o' || c == 't' || c == '1' || c == 'u' || c == 'w' || c == 'i'
        || c == 's' || c == 'z' || c == 'a' || c == '3' || c == '4' || c == '5' || c == 'h'
        || c == '7' || c == '6' || c == '9'
}

/// Whether `c` is one of the 32 symbols of the z-base-32 alphabet.
pub fn is_valid_zbase32_char(c: char) -> (b: bool)
    ensures
        b == is_zbase32_char(c),
{
    matches!(c,
        'y' | 'b' | 'n' | 'd' | 'r' | 'f' | 'g' | '8' | 'e' | 'j' | 'k' |
        'm' | 'c' | 'p' | 'q' | 'x' | 'o' | 't' | '1' | 'u' | 'w' | 'i' |
        's' | 'z' | 'a' | '3' | '4' | '5' | 'h' | '7' | '6' | '9')
}

/// ASCII whitespace, the characters trimmed from the ends of a raw prefix.
pub open spec fn is_space_char(c: char) -> bool {
    c == ' ' || c == '\t' || c == '\n' || c == '\r' || c == '\u{b}' || c == '\u{c}'
}

/// Whether `c` is ASCII whitespace.
pub fn is_space(c: char) -> (b: bool)
    ensures
        b == is_space_char(c),
{
    c == ' ' || c == '\t' || c == '\n' || c == '\r' || c == '\u{b}' || c == '\u{c}'
}

/// ASCII case folding of one character: uppercase letters map to lowercase,
/// everything else is unchanged.
pub open spec fn lower_char(c: char) -> char {
    if 'A' <= c && c <= 'Z' {
        ((c as u8) + 32) as char
    } else {
        c
    }
}

/// Folds one character to lowercase (ASCII).
pub fn to_lower_char(c: char) -> (r: char)
    ensures
        r == lower_char(c),
{
    if 'A' <= c && c <= 'Z' {
        (c as u8 + 32) as char
    } else {
        c
    }
}

/// ASCII case folding of a whole character sequence.
pub open spec fn lower_seq(s: Seq<char>) -> Seq<char> {
    s.map_values(|c: char| lower_char(c))
}

/// The characters of `s`, in order, as a vector.
pub fn chars_of(s: &str) -> (r: Vec<char>)
    ensures
        r@ == s@,
{
    let n = s.unicode_len();
    let mut r: Vec<char> = Vec::new();
    let mut i: usize = 0;
    while i < n
        invariant
            i <= n,
            n == s@.len(),
            r@ == s@.take(i as int),
        decreases n - i,
    {
        r.push(s.get_char(i));
        proof {
            assert(r@ =~= s@.take(i as int + 1));
        }
        i = i + 1;
    }
    proof {
        assert(r@ =~= s@);
    }
    r
}

/// Relies on `String`'s `FromIterator<char>` impl: collecting characters
/// yields the string of exactly those characters, in order.
#[verifier::external_body]
pub fn string_from_chars(v: &Vec<char>) -> (s: String)
    ensures
        s@ == v@,
{
    v.iter().collect()
}

/// Folds every character of `v` to lowercase (ASCII).
pub fn lower_chars(v: &Vec<char>) -> (r: Vec<char>)
    ensures
        r@ == lower_seq(v@),
{
    let mut r: Vec<char> = Vec::new();
    let mut i: usize = 0;
    while i < v.len()
        invariant
            i <= v@.len(),
            r@ == lower_seq(v@.take(i as int)),
        decreases v@.len() - i,
    {
        r.push(to_lower_char(v[i]));
        proof {
            assert(r@ =~= lower_seq(v@.take(i as int + 1)));
        }
        i = i + 1;
    }
    proof {
        assert(v@.take(v@.len() as int) =~= v@);
    }
    r
}

/// Folds a string to lowercase (ASCII).
pub fn fold_lower(s: &str) -> (r: String)
    ensures
        r@ == lower_seq(s@),
{
    let cs = chars_of(s);
    let folded = lower_chars(&cs);
    string_from_chars(&folded)
}

} // verus!
