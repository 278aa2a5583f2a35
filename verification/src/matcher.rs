//! The match evaluator: a literal prefix criterion and a clean-ratio
//! criterion, both pure functions of the candidate address.

use vstd::prelude::*;
use vstd::string::StrSliceExecFns;

verus! {

/// Denominator of clean-ratio thresholds: thresholds are given in parts per
/// million of the address body's length.
pub const PPM: u64 = 1000000;

/// A character with an ASCII capital letter mapped to its small form; every
/// other character is unchanged.
pub open spec fn lower_char(c: char) -> char {
    if 65 <= c as u32 && c as u32 <= 90 {
        ((c as u32 + 32) as u8) as char
    } else {
        c
    }
}

/// The character-wise ASCII lowercasing of a string.
pub open spec fn lower_seq(s: Seq<char>) -> Seq<char> {
    s.map_values(|c: char| lower_char(c))
}

/// Lowercase one character.
fn to_lower_char(c: char) -> (r: char)
    ensures
        r == lower_char(c),
{
    let v = c as u32;
    if 65 <= v && v <= 90 {
        ((v + 32) as u8) as char
    } else {
        c
    }
}

/// A prefix query matches an address exactly when, after lowercasing both,
/// the query is an initial segment of the address.
pub open spec fn spec_prefix_matches(addr: Seq<char>, prefix: Seq<char>) -> bool {
    prefix.len() <= addr.len() && lower_seq(addr).subrange(0, prefix.len() as int) == lower_seq(
        prefix,
    )
}

/// Decide the prefix criterion for one address.
pub fn prefix_matches(address: &str, prefix: &str) -> (r: bool)
    ensures
        r == spec_prefix_matches(address@, prefix@),
{
    let alen = address.unicode_len();
    let plen = prefix.unicode_len();
    if plen > alen {
        return false;
    }
    let mut i: usize = 0;
    while i < plen
        invariant
            i <= plen,
            plen == prefix@.len(),
            alen == address@.len(),
            plen <= alen,
            forall|j: int| 0 <= j < i ==> lower_char(address@[j]) == lower_char(prefix@[j]),
        decreases plen - i,
    {
        let ac = address.get_char(i);
        let pc = prefix.get_char(i);
        if to_lower_char(ac) != to_lower_char(pc) {
            proof {
                if spec_prefix_matches(address@, prefix@) {
                    assert(lower_seq(address@).subrange(0, plen as int)[i as int] == lower_seq(
                        prefix@,
                    )[i as int]);
                    assert(false);
                }
            }
            return false;
        }
        i = i + 1;
    }
    proof {
        assert(lower_seq(address@).subrange(0, plen as int) =~= lower_seq(prefix@));
    }
    true
}

/// Lowercasing a character twice is the same as lowercasing it once.
pub proof fn lemma_lower_char_idempotent(c: char)
    ensures
        lower_char(lower_char(c)) == lower_char(c),
{
}

/// Lowercasing a string twice is the same as lowercasing it once.
pub proof fn lemma_lower_seq_idempotent(s: Seq<char>)
    ensures
        lower_seq(lower_seq(s)) == lower_seq(s),
{
    assert forall|i: int| 0 <= i < s.len() implies lower_seq(lower_seq(s))[i] == lower_seq(s)[i] by {
        lemma_lower_char_idempotent(s[i]);
    }
    assert(lower_seq(lower_seq(s)) =~= lower_seq(s));
}

/// Prefix matching ignores ASCII case on both sides: lowercasing the address
/// or the query beforehand never changes the verdict, and the match is
/// anchored at position 0 of the address.
pub proof fn lemma_prefix_match_case_insensitive(addr: Seq<char>, prefix: Seq<char>)
    ensures
        spec_prefix_matches(addr, prefix) == spec_prefix_matches(lower_seq(addr), lower_seq(prefix)),
{
    lemma_lower_seq_idempotent(addr);
    lemma_lower_seq_idempotent(prefix);
}

/// A decimal digit.
pub open spec fn is_digit_char(c: char) -> bool {
    48 <= c as u32 && c as u32 <= 57
}

/// An ASCII letter of either case.
pub open spec fn is_letter_char(c: char) -> bool {
    (65 <= c as u32 && c as u32 <= 90) || (97 <= c as u32 && c as u32 <= 122)
}

/// How many characters of the string are decimal digits.
pub open spec fn count_digits(s: Seq<char>) -> nat
    decreases s.len(),
{
    if s.len() == 0 {
        0
    } else {
        count_digits(s.drop_last()) + if is_digit_char(s.last()) {
            1nat
        } else {
            0nat
        }
    }
}

/// How many characters of the string are ASCII letters.
pub open spec fn count_letters(s: Seq<char>) -> nat
    decreases s.len(),
{
    if s.len() == 0 {
        0
    } else {
        count_letters(s.drop_last()) + if is_letter_char(s.last()) {
            1nat
        } else {
            0nat
        }
    }
}

/// Neither count can exceed the string's length.
pub proof fn lemma_counts_bounded(s: Seq<char>)
    ensures
        count_digits(s) <= s.len(),
        count_letters(s) <= s.len(),
    decreases s.len(),
{
    if s.len() > 0 {
        lemma_counts_bounded(s.drop_last());
    }
}

/// The address body that clean-ratio mode examines: the string with one
/// leading `0x` removed when present.
pub open spec fn clean_body(s: Seq<char>) -> Seq<char> {
    if s.len() >= 2 && s[0] == '0' && s[1] == 'x' {
        s.skip(2)
    } else {
        s
    }
}

/// The larger of the digit count and the letter count.
pub open spec fn dominant_count(s: Seq<char>) -> nat {
    if count_digits(s) >= count_letters(s) {
        count_digits(s)
    } else {
        count_letters(s)
    }
}

/// Whether an address satisfies the clean criterion at a threshold in parts
/// per million: the dominant-class share of the body is at least the
/// threshold. An empty body has ratio 0 and so matches only a zero
/// threshold.
pub open spec fn spec_clean_matches(s: Seq<char>, threshold_ppm: u64) -> bool {
    let body = clean_body(s);
    if body.len() == 0 {
        threshold_ppm == 0
    } else {
        dominant_count(body) * (PPM as nat) >= (threshold_ppm as nat) * body.len()
    }
}

/// The clean ratio of an address in parts per million, rounded down: the
/// dominant-class count over the body length, or 0 for an empty body.
pub open spec fn spec_clean_ratio_ppm(s: Seq<char>) -> nat {
    let body = clean_body(s);
    if body.len() == 0 {
        0
    } else {
        dominant_count(body) * (PPM as nat) / body.len()
    }
}

/// Count digits and letters in the characters of `s` from `start` on.
fn char_counts(s: &str, start: usize) -> (counts: (usize, usize))
    requires
        start <= s@.len(),
    ensures
        counts.0 == count_digits(s@.skip(start as int)),
        counts.1 == count_letters(s@.skip(start as int)),
{
    let n = s.unicode_len();
    let mut digits: usize = 0;
    let mut letters: usize = 0;
    let mut i: usize = start;
    while i < n
        invariant
            start <= i <= n,
            n == s@.len(),
            digits <= i - start,
            letters <= i - start,
            digits == count_digits(s@.subrange(start as int, i as int)),
            letters == count_letters(s@.subrange(start as int, i as int)),
        decreases n - i,
    {
        let c = s.get_char(i);
        let v = c as u32;
        proof {
            assert(s@.subrange(start as int, i + 1).drop_last() =~= s@.subrange(
                start as int,
                i as int,
            ));
            assert(s@.subrange(start as int, i + 1).last() == s@[i as int]);
        }
        if 48 <= v && v <= 57 {
            digits = digits + 1;
        }
        if (65 <= v && v <= 90) || (97 <= v && v <= 122) {
            letters = letters + 1;
        }
        i = i + 1;
    }
    proof {
        assert(s@.subrange(start as int, n as int) =~= s@.skip(start as int));
    }
    (digits, letters)
}

/// Find where the address body starts: after a leading `0x` when present.
fn body_start(s: &str) -> (start: usize)
    ensures
        start <= s@.len(),
        s@.skip(start as int) == clean_body(s@),
{
    let n = s.unicode_len();
    proof {
        reveal_strlit("0");
        reveal_strlit("x");
    }
    if n >= 2 && s.get_char(0) == '0' && s.get_char(1) == 'x' {
        2
    } else {
        proof {
            assert(s@.skip(0) =~= s@);
        }
        0
    }
}

/// Decide the clean criterion for one address at a threshold in parts per
/// million.
pub fn clean_matches(s: &str, threshold_ppm: u64) -> (r: bool)
    ensures
        r == spec_clean_matches(s@, threshold_ppm),
{
    let start = body_start(s);
    let n = s.unicode_len();
    let (digits, letters) = char_counts(s, start);
    let dominant = if digits >= letters {
        digits
    } else {
        letters
    };
    let body_len = n - start;
    if body_len == 0 {
        threshold_ppm == 0
    } else {
        proof {
            assert(clean_body(s@).len() == body_len);
            vstd::arithmetic::mul::lemma_mul_upper_bound(
                threshold_ppm as int,
                0xffff_ffff_ffff_ffff,
                body_len as int,
                0xffff_ffff_ffff_ffff,
            );
        }
        (dominant as u128) * (PPM as u128) >= (threshold_ppm as u128) * (body_len as u128)
    }
}

/// Report the clean ratio of one address in parts per million, rounded down.
pub fn clean_ratio_ppm(s: &str) -> (r: u64)
    ensures
        r == spec_clean_ratio_ppm(s@),
{
    let start = body_start(s);
    let n = s.unicode_len();
    let (digits, letters) = char_counts(s, start);
    let dominant = if digits >= letters {
        digits
    } else {
        letters
    };
    let body_len = n - start;
    if body_len == 0 {
        0
    } else {
        proof {
            lemma_counts_bounded(clean_body(s@));
            assert(clean_body(s@).len() == body_len);
            vstd::arithmetic::mul::lemma_mul_inequality(
                dominant as int,
                body_len as int,
                PPM as int,
            );
            vstd::arithmetic::div_mod::lemma_div_is_ordered(
                dominant as int * PPM as int,
                body_len as int * PPM as int,
                body_len as int,
            );
            vstd::arithmetic::div_mod::lemma_div_multiples_vanish(
                PPM as int,
                body_len as int,
            );
        }
        (((dominant as u128) * (PPM as u128)) / (body_len as u128)) as u64
    }
}

/// The search criterion, fixed for a whole run: a literal prefix, or a
/// clean-ratio threshold in parts per million.
pub enum Criterion {
    Prefix(String),
    CleanRatio(u64),
}

/// What it means for an address to satisfy the criterion.
pub open spec fn spec_criterion_matches(c: &Criterion, addr: Seq<char>) -> bool {
    match c {
        Criterion::Prefix(p) => spec_prefix_matches(addr, p@),
        Criterion::CleanRatio(t) => spec_clean_matches(addr, *t),
    }
}

/// Decide the active criterion for one address.
pub fn criterion_matches(c: &Criterion, address: &str) -> (r: bool)
    ensures
        r == spec_criterion_matches(c, address@),
{
    match c {
        Criterion::Prefix(p) => prefix_matches(address, p.as_str()),
        Criterion::CleanRatio(t) => clean_matches(address, *t),
    }
}

} // verus!
