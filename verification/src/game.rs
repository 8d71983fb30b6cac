//! The guessing game's decisions: a secret between 1 and 100, a verdict for
//! each guess, and a decimal parser for the player's input. Reading input
//! and printing stay outside the library.

use vstd::prelude::*;
use rand::Rng;

verus! {

/// How a guess compares to the secret.
#[derive(PartialEq, Eq, Structural, Debug, Clone, Copy)]
pub enum Outcome {
    /// The guess is below the secret.
    TooSmall,
    /// The guess is above the secret.
    TooBig,
    /// The guess equals the secret.
    Win,
}

/// Relies on rand's `Rng::gen_range`: on the non-empty range `1..=100` it
/// returns a uniformly sampled value inside that range and does not panic.
#[verifier::external_body]
fn random_secret() -> (r: u32)
    ensures
        1 <= r <= 100,
{
    rand::thread_rng().gen_range(1..=100)
}

/// One round of the game: a fixed secret between 1 and 100.
pub struct Game {
    secret: u32,
}

impl Game {
    /// The secret of this round.
    pub closed spec fn secret(self) -> u32 {
        self.secret
    }

    /// Start a round with a freshly drawn secret; whatever the draw, the
    /// secret lies between 1 and 100.
    pub fn new() -> (g: Game)
        ensures
            1 <= g.secret() <= 100,
    {
        Game { secret: random_secret() }
    }

    /// Judge a guess against the secret: too small, too big, or a win, by
    /// plain comparison.
    pub fn evaluate(&self, guess: u32) -> (r: Outcome)
        ensures
            r == Outcome::TooSmall <==> guess < self.secret(),
            r == Outcome::TooBig <==> guess > self.secret(),
            r == Outcome::Win <==> guess == self.secret(),
    {
        if guess < self.secret {
            Outcome::TooSmall
        } else if guess > self.secret {
            Outcome::TooBig
        } else {
            Outcome::Win
        }
    }
}

/// The number that a sequence of decimal digit characters denotes.
pub open spec fn decimal_value(s: Seq<char>) -> int
    decreases s.len(),
{
    if s.len() == 0 {
        0
    } else {
        decimal_value(s.drop_last()) * 10 + (s.last() as int - '0' as int)
    }
}

/// Whether every character of the sequence is a decimal digit.
pub open spec fn all_digits(s: Seq<char>) -> bool {
    forall|i: int| 0 <= i < s.len() ==> '0' <= #[trigger] s[i] <= '9'
}

/// Parse a non-empty string of decimal digits as a `u32`. `None` exactly
/// when the string is empty, holds a non-digit, or denotes a number that
/// does not fit in a `u32`.
pub fn parse_u32(s: &str) -> (r: Option<u32>)
    ensures
        r is Some <==> s@.len() > 0 && all_digits(s@) && decimal_value(s@) <= u32::MAX,
        r matches Some(v) ==> v == decimal_value(s@),
{
    let n = s.unicode_len();
    if n == 0 {
        return None;
    }
    let mut acc: u32 = 0;
    let mut i: usize = 0;
    while i < n
        invariant
            n == s@.len(),
            0 <= i <= n,
            all_digits(s@.subrange(0, i as int)),
            acc == decimal_value(s@.subrange(0, i as int)),
        decreases n - i,
    {
        let c = s.get_char(i);
        if c < '0' || c > '9' {
            proof {
                assert(!all_digits(s@));
            }
            return None;
        }
        let d: u32 = (c as u32) - ('0' as u32);
        let wide: u64 = (acc as u64) * 10 + (d as u64);
        proof {
            assert(s@.subrange(0, i as int + 1).drop_last() =~= s@.subrange(0, i as int));
            assert(s@.subrange(0, i as int + 1).last() == c);
            assert(decimal_value(s@.subrange(0, i as int + 1)) == wide);
        }
        if wide > 0xffff_ffffu64 {
            proof {
                if all_digits(s@) {
                    lemma_decimal_value_monotone(s@.subrange(0, i as int + 1), s@);
                }
            }
            return None;
        }
        acc = wide as u32;
        i += 1;
    }
    proof {
        assert(s@.subrange(0, n as int) =~= s@);
    }
    Some(acc)
}

/// Growing a digit string can only grow the number it denotes: a prefix of a
/// digit string denotes no more than the whole.
proof fn lemma_decimal_value_monotone(p: Seq<char>, s: Seq<char>)
    requires
        all_digits(s),
        p.len() <= s.len(),
        forall|i: int| 0 <= i < p.len() ==> p[i] == s[i],
    ensures
        decimal_value(p) <= decimal_value(s),
        decimal_value(p) >= 0,
    decreases s.len(),
{
    if p.len() == s.len() {
        assert(p =~= s);
        lemma_decimal_value_nonneg(s);
    } else {
        lemma_decimal_value_monotone(p, s.drop_last());
        lemma_decimal_value_nonneg(s.drop_last());
        assert(all_digits(s.drop_last()));
        assert(decimal_value(s) >= decimal_value(s.drop_last()));
    }
}

/// A digit string denotes a number that is not negative.
proof fn lemma_decimal_value_nonneg(s: Seq<char>)
    requires
        all_digits(s),
    ensures
        decimal_value(s) >= 0,
    decreases s.len(),
{
    if s.len() > 0 {
        assert(all_digits(s.drop_last()));
        lemma_decimal_value_nonneg(s.drop_last());
    }
}

} // verus!
