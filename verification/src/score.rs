//! Similarity scores as fixed-point numbers, and their decimal rendering.
//!
//! The vector store reports similarity as a fractional number.  The library
//! carries it in millionths of a unit (`micros`), which keeps the threshold
//! comparison exact; the boundary that performs the search converts the
//! store's raw value into this form.

use vstd::prelude::*;

use crate::text::string_from_chars;

verus! {

/// Micro-units per whole unit of similarity.
pub const SCORE_SCALE: u64 = 1000000;

/// A similarity score (or a configured threshold), in millionths of a unit.
/// `Score { micros: 920000 }` is the score `0.92`.
#[derive(Clone, Copy, PartialEq, Eq, Structural)]
pub struct Score {
    pub micros: i64,
}

/// The decimal digit character for `d` (`0` to `9`).
pub open spec fn digit_char(d: nat) -> char {
    ((d + 48) as u8) as char
}

/// The decimal digits of `n`, most significant first, without leading zeros
/// (a single `'0'` for zero).
pub open spec fn dec_digits(n: nat) -> Seq<char>
    decreases n,
{
    if n < 10 {
        seq![digit_char(n)]
    } else {
        dec_digits(n / 10).push(digit_char(n % 10))
    }
}

/// The last `w` decimal digits of `n`, zero-padded to exactly width `w`.
pub open spec fn dec_digits_fixed(n: nat, w: nat) -> Seq<char>
    decreases w,
{
    if w == 0 {
        Seq::<char>::empty()
    } else {
        dec_digits_fixed(n / 10, (w - 1) as nat).push(digit_char(n % 10))
    }
}

/// `s` with trailing `'0'` characters removed, keeping at least one character.
pub open spec fn trim_trailing_zeros(s: Seq<char>) -> Seq<char>
    decreases s.len(),
{
    if s.len() <= 1 {
        s
    } else if s.last() == '0' {
        trim_trailing_zeros(s.drop_last())
    } else {
        s
    }
}

/// The decimal rendering of a score of `micros` millionths: optional minus
/// sign, integer part, `'.'`, then the fraction with trailing zeros trimmed
/// but at least one digit.  Zero renders as `0.0`, `920000` as `0.92`.
pub open spec fn score_text(micros: int) -> Seq<char> {
    let mag = (if micros < 0 {
        -micros
    } else {
        micros
    }) as nat;
    let sign: Seq<char> = if micros < 0 {
        seq!['-']
    } else {
        Seq::<char>::empty()
    };
    sign + dec_digits(mag / (SCORE_SCALE as nat)) + seq!['.'] + trim_trailing_zeros(
        dec_digits_fixed(mag % (SCORE_SCALE as nat), 6),
    )
}

/// The digit character for `d`, executably.
fn digit_of(d: u64) -> (c: char)
    requires
        d < 10,
    ensures
        c == digit_char(d as nat),
{
    ((48 + d) as u8) as char
}

/// Appends the decimal digits of `n` to `buf`.
fn push_dec(buf: &mut Vec<char>, n: u64)
    ensures
        final(buf)@ == old(buf)@ + dec_digits(n as nat),
    decreases n,
{
    if n < 10 {
        buf.push(digit_of(n));
    } else {
        push_dec(buf, n / 10);
        buf.push(digit_of(n % 10));
    }
}

/// Appends the last `w` decimal digits of `n`, zero-padded, to `buf`.
fn push_dec_fixed(buf: &mut Vec<char>, n: u64, w: u64)
    ensures
        final(buf)@ == old(buf)@ + dec_digits_fixed(n as nat, w as nat),
    decreases w,
{
    if w > 0 {
        push_dec_fixed(buf, n / 10, w - 1);
        buf.push(digit_of(n % 10));
    }
}

/// If everything at and after `end` in `s` is `'0'`, and `end` is either 1 or
/// sits just after a non-zero character, trimming `s` keeps exactly the first
/// `end` characters.
proof fn lemma_trim_is_take(s: Seq<char>, end: int)
    requires
        1 <= end <= s.len(),
        forall|j: int| end <= j < s.len() ==> s[j] == '0',
        end == 1 || s[end - 1] != '0',
    ensures
        trim_trailing_zeros(s) == s.take(end),
    decreases s.len(),
{
    if s.len() <= 1 {
        assert(trim_trailing_zeros(s) =~= s.take(end));
    } else if end < s.len() {
        assert(s.last() == '0');
        lemma_trim_is_take(s.drop_last(), end);
        assert(s.drop_last().take(end) =~= s.take(end));
    } else {
        assert(s.last() != '0');
        assert(trim_trailing_zeros(s) =~= s.take(end));
    }
}

impl Score {
    /// Whether this score is strictly above `threshold`: the confidence gate
    /// is a strict comparison, so a score exactly at the threshold does not
    /// pass.
    pub fn exceeds(&self, threshold: &Score) -> (r: bool)
        ensures
            r == (self.micros > threshold.micros),
    {
        self.micros > threshold.micros
    }

    /// The decimal rendering of this score.
    pub fn to_text(&self) -> (r: String)
        ensures
            r@ == score_text(self.micros as int),
    {
        let mag: u64 = if self.micros >= 0 {
            self.micros as u64
        } else {
            (-(self.micros as i128)) as u64
        };
        let mut buf: Vec<char> = Vec::new();
        if self.micros < 0 {
            buf.push('-');
        }
        push_dec(&mut buf, mag / SCORE_SCALE);
        buf.push('.');
        let mut frac: Vec<char> = Vec::new();
        push_dec_fixed(&mut frac, mag % SCORE_SCALE, 6);
        let mut end: usize = frac.len();
        while end > 1 && frac[end - 1] == '0'
            invariant
                1 <= end <= frac@.len(),
                forall|j: int| end <= j < frac@.len() ==> frac@[j] == '0',
            decreases end,
        {
            end = end - 1;
        }
        proof {
            lemma_trim_is_take(frac@, end as int);
        }
        let ghost head = buf@;
        let mut i: usize = 0;
        while i < end
            invariant
                0 <= i <= end <= frac@.len(),
                buf@ == head + frac@.take(i as int),
            decreases end - i,
        {
            buf.push(frac[i]);
            i = i + 1;
        }
        string_from_chars(&buf)
    }
}

/// A zero score, rendered `0.0`: the score reported when no confident match
/// was found.
pub fn zero_score_text() -> (r: String)
    ensures
        r@ == score_text(0),
        r@ == "0.0"@,
{
    proof {
        reveal_strlit("0.0");
        reveal_with_fuel(dec_digits_fixed, 8);
        reveal_with_fuel(trim_trailing_zeros, 8);
        assert(score_text(0) =~= "0.0"@);
    }
    String::from_str("0.0")
}

} // verus!
