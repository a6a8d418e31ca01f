//! Prefix validation: trims surrounding whitespace, rejects empty input,
//! embedded spaces and characters outside the z-base-32 alphabet, and folds
//! the surviving prefix to lowercase.

use vstd::prelude::*;
use crate::alphabet::{
    is_space_char, is_space, is_zbase32_char, is_valid_zbase32_char, lower_char, to_lower_char,
    lower_seq, lower_chars, chars_of, string_from_chars,
};

verus! {

/// Why a raw prefix was rejected.
#[derive(Debug)]
pub enum ValidationError {
    /// Nothing remains once surrounding whitespace is trimmed.
    EmptyInput,
    /// A space stands between two non-space characters.
    ContainsWhitespace,
    /// Characters outside the alphabet, listed in input order.
    InvalidCharacters(Vec<char>),
}

/// `s` without its leading whitespace.
pub open spec fn trim_front(s: Seq<char>) -> Seq<char>
    decreases s.len(),
{
    if s.len() > 0 && is_space_char(s[0]) {
        trim_front(s.drop_first())
    } else {
        s
    }
}

/// `s` without its trailing whitespace.
pub open spec fn trim_back(s: Seq<char>) -> Seq<char>
    decreases s.len(),
{
    if s.len() > 0 && is_space_char(s.last()) {
        trim_back(s.drop_last())
    } else {
        s
    }
}

/// `s` without surrounding whitespace.
pub open spec fn trim_spec(s: Seq<char>) -> Seq<char> {
    trim_back(trim_front(s))
}

/// The characters of `s` whose lowercase fold lies outside the alphabet,
/// in input order.
pub open spec fn offending_chars(s: Seq<char>) -> Seq<char>
    decreases s.len(),
{
    if s.len() == 0 {
        Seq::empty()
    } else if !is_zbase32_char(lower_char(s[0])) {
        seq![s[0]] + offending_chars(s.drop_first())
    } else {
        offending_chars(s.drop_first())
    }
}

/// A well-formed search prefix: non-empty and wholly inside the alphabet.
/// Alphabet members are lowercase, so such a prefix is its own fold.
pub open spec fn valid_prefix(p: Seq<char>) -> bool {
    p.len() > 0 && forall|i: int| 0 <= i < p.len() ==> is_zbase32_char(p[i])
}

/// Whether validation accepts the raw input `s`.
pub open spec fn validate_ok(s: Seq<char>) -> bool {
    let t = trim_spec(s);
    t.len() > 0 && (forall|i: int| 0 <= i < t.len() ==> t[i] != ' ')
        && offending_chars(t).len() == 0
}

/// What validation returns on an accepted input: the trimmed input, folded
/// to lowercase.
pub open spec fn validated_of(s: Seq<char>) -> Seq<char> {
    lower_seq(trim_spec(s))
}

/// Validates a raw prefix: trims surrounding whitespace, then fails with
/// `EmptyInput` if nothing remains, with `ContainsWhitespace` if an internal
/// space remains, or with `InvalidCharacters` listing every character whose
/// fold lies outside the alphabet; otherwise returns the lowercase prefix.
pub fn validate(input: &str) -> (r: Result<String, ValidationError>)
    ensures
        r is Ok <==> validate_ok(input@),
        r matches Ok(p) ==> p@ == validated_of(input@) && valid_prefix(p@),
        r matches Err(e) ==> match e {
            ValidationError::EmptyInput => trim_spec(input@).len() == 0,
            ValidationError::ContainsWhitespace => trim_spec(input@).len() > 0
                && exists|i: int| 0 <= i < trim_spec(input@).len() && trim_spec(input@)[i] == ' ',
            ValidationError::InvalidCharacters(cs) => trim_spec(input@).len() > 0
                && (forall|i: int| 0 <= i < trim_spec(input@).len() ==> trim_spec(input@)[i] != ' ')
                && cs@ == offending_chars(trim_spec(input@))
                && cs@.len() > 0,
        },
{
    let v = chars_of(input);
    let ghost s = input@;
    proof {
        assert(s.subrange(0, s.len() as int) =~= s);
    }

    // Trim leading whitespace.
    let mut start: usize = 0;
    while start < v.len() && is_space(v[start])
        invariant
            start <= v@.len(),
            v@ == s,
            trim_front(s) == trim_front(s.subrange(start as int, s.len() as int)),
        decreases v@.len() - start,
    {
        proof {
            assert(s.subrange(start as int, s.len() as int).drop_first()
                =~= s.subrange(start as int + 1, s.len() as int));
        }
        start = start + 1;
    }
    proof {
        // The remainder is empty or does not start with whitespace, so
        // trim_front leaves it unchanged.
        assert(trim_front(s) =~= s.subrange(start as int, s.len() as int));
    }

    // Trim trailing whitespace.
    let mut end: usize = v.len();
    while end > start && is_space(v[end - 1])
        invariant
            start <= end <= v@.len(),
            v@ == s,
            trim_front(s) == s.subrange(start as int, s.len() as int),
            trim_back(trim_front(s)) == trim_back(s.subrange(start as int, end as int)),
        decreases end,
    {
        proof {
            assert(s.subrange(start as int, end as int).drop_last()
                =~= s.subrange(start as int, end as int - 1));
        }
        end = end - 1;
    }
    let ghost t = trim_spec(s);
    proof {
        assert(t =~= s.subrange(start as int, end as int));
    }

    if start == end {
        return Err(ValidationError::EmptyInput);
    }

    // Reject internal spaces.
    let mut i: usize = start;
    while i < end
        invariant
            start <= i <= end <= v@.len(),
            start < end,
            v@ == s,
            s == input@,
            t == trim_spec(s),
            t == s.subrange(start as int, end as int),
            forall|j: int| 0 <= j < i - start ==> t[j] != ' ',
        decreases end - i,
    {
        if v[i] == ' ' {
            proof {
                assert(t[i - start as int] == s[i as int]);
                assert(t[i - start as int] == ' ');
            }
            return Err(ValidationError::ContainsWhitespace);
        }
        i = i + 1;
    }

    // Collect every character whose fold lies outside the alphabet.
    let mut bad: Vec<char> = Vec::new();
    let mut i: usize = start;
    while i < end
        invariant
            start <= i <= end <= v@.len(),
            start < end,
            v@ == s,
            s == input@,
            t == trim_spec(s),
            t == s.subrange(start as int, end as int),
            forall|j: int| 0 <= j < t.len() ==> t[j] != ' ',
            offending_chars(t) == bad@ + offending_chars(s.subrange(i as int, end as int)),
        decreases end - i,
    {
        let ghost rest = s.subrange(i as int, end as int);
        proof {
            assert(rest.drop_first() =~= s.subrange(i as int + 1, end as int));
        }
        if !is_valid_zbase32_char(to_lower_char(v[i])) {
            bad.push(v[i]);
            proof {
                assert(offending_chars(t) =~= bad@ + offending_chars(
                    s.subrange(i as int + 1, end as int)));
            }
        } else {
            proof {
                assert(offending_chars(t) =~= bad@ + offending_chars(
                    s.subrange(i as int + 1, end as int)));
            }
        }
        i = i + 1;
    }
    proof {
        assert(offending_chars(t) =~= bad@);
    }

    if bad.len() > 0 {
        return Err(ValidationError::InvalidCharacters(bad));
    }

    // Fold the trimmed prefix to lowercase.
    let mut trimmed: Vec<char> = Vec::new();
    let mut i: usize = start;
    while i < end
        invariant
            start <= i <= end <= v@.len(),
            start < end,
            v@ == s,
            s == input@,
            t == trim_spec(s),
            t == s.subrange(start as int, end as int),
            forall|j: int| 0 <= j < t.len() ==> t[j] != ' ',
            offending_chars(t).len() == 0,
            trimmed@ == t.take(i - start as int),
        decreases end - i,
    {
        trimmed.push(v[i]);
        proof {
            assert(trimmed@ =~= t.take(i as int + 1 - start as int));
        }
        i = i + 1;
    }
    proof {
        assert(trimmed@ =~= t);
    }
    let folded = lower_chars(&trimmed);
    let out = string_from_chars(&folded);
    proof {
        lemma_no_offending_all_valid(t);
        assert forall|i: int| 0 <= i < out@.len() implies is_zbase32_char(
            #[trigger] out@[i],
        ) by {
            assert(out@[i] == lower_char(t[i]));
        }
        assert(valid_prefix(out@));
    }
    Ok(out)
}

/// On a sequence with no offending characters, every fold is in the alphabet.
proof fn lemma_no_offending_all_valid(s: Seq<char>)
    requires
        offending_chars(s).len() == 0,
    ensures
        forall|i: int| 0 <= i < s.len() ==> is_zbase32_char(lower_char(#[trigger] s[i])),
    decreases s.len(),
{
    if s.len() > 0 {
        assert(is_zbase32_char(lower_char(s[0])));
        lemma_no_offending_all_valid(s.drop_first());
        assert forall|i: int| 0 <= i < s.len() implies is_zbase32_char(
            lower_char(#[trigger] s[i]),
        ) by {
            if i > 0 {
                assert(s[i] == s.drop_first()[i - 1]);
            }
        }
    }
}

/// On a sequence of alphabet characters, no character offends.
proof fn lemma_all_valid_no_offending(s: Seq<char>)
    requires
        forall|i: int| 0 <= i < s.len() ==> is_zbase32_char(#[trigger] s[i]),
    ensures
        offending_chars(s).len() == 0,
    decreases s.len(),
{
    if s.len() > 0 {
        assert(forall|i: int|
            0 <= i < s.drop_first().len() ==> #[trigger] s.drop_first()[i] == s[i + 1]);
        lemma_all_valid_no_offending(s.drop_first());
    }
}

/// Law: a single alphabet character is accepted unchanged. Alphabet members
/// are lowercase and not whitespace, so the one-character input survives
/// trimming, offends nowhere, and folds to itself.
pub proof fn lemma_validate_single_valid(c: char)
    requires
        is_zbase32_char(c),
    ensures
        validate_ok(seq![c]),
        validated_of(seq![c]) == seq![c],
{
    let s = seq![c];
    assert(trim_front(s) == s);
    assert(trim_back(s) == s);
    assert(offending_chars(s.drop_first()) =~= Seq::empty());
    assert(offending_chars(s).len() == 0);
    assert(lower_seq(s) =~= s);
}

/// Law: a single non-whitespace character whose fold lies outside the
/// alphabet is rejected, and the offending list names exactly it.
pub proof fn lemma_validate_single_invalid(c: char)
    requires
        !is_zbase32_char(lower_char(c)),
        !is_space_char(c),
    ensures
        !validate_ok(seq![c]),
        trim_spec(seq![c]) == seq![c],
        offending_chars(seq![c]) == seq![c],
{
    let s = seq![c];
    assert(trim_front(s) == s);
    assert(trim_back(s) == s);
    assert(offending_chars(s.drop_first()) =~= Seq::empty());
    assert(offending_chars(s) =~= seq![c] + Seq::empty());
    assert(offending_chars(s) =~= s);
}

/// Law: validation is idempotent. A string that is already a valid prefix
/// (non-empty, wholly inside the alphabet) is accepted and returned
/// unchanged: it has nothing to trim and nothing to fold.
pub proof fn lemma_validate_idempotent(p: Seq<char>)
    requires
        valid_prefix(p),
    ensures
        validate_ok(p),
        validated_of(p) == p,
{
    assert(!is_space_char(p[0]));
    assert(trim_front(p) == p);
    assert(!is_space_char(p.last()));
    assert(trim_back(p) == p);
    assert(forall|i: int| 0 <= i < p.len() ==> lower_char(#[trigger] p[i]) == p[i]);
    lemma_all_valid_no_offending(p);
    assert(lower_seq(p) =~= p);
}

} // verus!
