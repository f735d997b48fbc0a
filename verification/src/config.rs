//! Tunables and counters of the network: the packet loss rate, the latency
//! range, and the number of messages sent.

use std::ops::Range;
use vstd::arithmetic::mul::{lemma_mul_inequality, lemma_mul_is_associative, lemma_mul_strict_inequality};
use vstd::arithmetic::power2::{lemma2_to64, lemma_pow2_adds, lemma_pow2_pos, lemma_pow2_strictly_increases, lemma_pow2_unfold, pow2};
use vstd::prelude::*;

verus! {

/// Number of fraction bits in a binary64 pattern, as a power of two.
pub const FRACTION_RANGE: u64 = 0x10_0000_0000_0000;

/// Number of values of the exponent field of a binary64 pattern.
pub const EXPONENT_RANGE: u64 = 0x800;

/// The exponent field of the number one.
pub const EXPONENT_BIAS: u64 = 1023;

/// Bit pattern of the number one.
pub const ONE_BITS: u64 = 0x3FF0_0000_0000_0000;

/// Bit pattern of negative zero, which is also the sign bit alone.
pub const SIGN_BIT: u64 = 0x8000_0000_0000_0000;

/// A probability, held as the bit pattern of an IEEE 754 binary64 number.
///
/// Two probabilities are equal, and hash alike, exactly when their bit
/// patterns are the same.
#[derive(Debug, Clone, Copy, PartialEq, Eq, Structural, Hash)]
pub struct Probability {
    bits: u64,
}

impl View for Probability {
    type V = u64;

    /// The bit pattern.
    closed spec fn view(&self) -> u64 {
        self.bits
    }
}

impl Probability {
    /// The exponent field of the pattern.
    pub open spec fn exponent(&self) -> nat {
        ((self@ / FRACTION_RANGE) % EXPONENT_RANGE) as nat
    }

    /// The fraction field of the pattern.
    pub open spec fn fraction(&self) -> nat {
        (self@ % FRACTION_RANGE) as nat
    }

    /// Whether the sign bit of the pattern is set.
    pub open spec fn negative(&self) -> bool {
        self@ >= SIGN_BIT
    }

    /// The numerator `m` of the number's magnitude `m / 2^scale`: the
    /// fraction, with the implicit leading bit unless the number is subnormal.
    pub open spec fn significand(&self) -> nat {
        if self.exponent() == 0 {
            self.fraction()
        } else {
            FRACTION_RANGE as nat + self.fraction()
        }
    }

    /// The power `k` of the denominator `2^k` of the number's magnitude.
    /// It is meant for patterns whose exponent field is at most that of one.
    pub open spec fn scale(&self) -> nat {
        if self.exponent() == 0 {
            1074
        } else {
            (1075 - self.exponent()) as nat
        }
    }

    /// Whether the pattern is a number between zero and one, both included.
    /// Both zeros are; no other negative number, no infinity and no NaN is.
    pub open spec fn spec_is_valid(&self) -> bool {
        ||| self.significand() == 0
        ||| !self.negative() && self.exponent() < EXPONENT_BIAS
        ||| !self.negative() && self.exponent() == EXPONENT_BIAS && self.fraction() == 0
    }

    /// Whether the pattern is a zero, of either sign.
    pub open spec fn is_zero(&self) -> bool {
        self@ == 0 || self@ == SIGN_BIT
    }

    /// Whether the pattern is the number one.
    pub open spec fn is_one(&self) -> bool {
        self@ == ONE_BITS
    }

    /// Whether a roll of `word`, read as the number `word / 2^64` of the
    /// half-open unit interval, falls below this probability.
    pub open spec fn spec_covers(&self, word: u64) -> bool {
        word * pow2(self.scale()) < self.significand() * pow2(64)
    }

    /// The probability with the given binary64 bit pattern.
    pub fn from_bits(bits: u64) -> (p: Probability)
        ensures
            p@ == bits,
    {
        Probability { bits }
    }

    /// The binary64 bit pattern.
    pub fn to_bits(&self) -> (bits: u64)
        ensures
            bits == self@,
    {
        self.bits
    }

    /// The probability zero: no roll falls below it.
    pub fn zero() -> (p: Probability)
        ensures
            p@ == 0,
            p.spec_is_valid(),
            forall|word: u64| !p.spec_covers(word),
    {
        let p = Probability { bits: 0 };
        assert forall|word: u64| !p.spec_covers(word) by {
            lemma_covers_none(p, word);
        }
        p
    }

    /// The probability one: every roll falls below it.
    pub fn one() -> (p: Probability)
        ensures
            p@ == ONE_BITS,
            p.spec_is_valid(),
            forall|word: u64| p.spec_covers(word),
    {
        let p = Probability { bits: ONE_BITS };
        assert forall|word: u64| p.spec_covers(word) by {
            lemma_covers_all(p, word);
        }
        p
    }

    /// Whether the pattern is a number between zero and one, both included.
    #[verifier::when_used_as_spec(spec_is_valid)]
    pub fn is_valid(&self) -> (valid: bool)
        ensures
            valid == self.spec_is_valid(),
    {
        self.bits == 0 || self.bits == SIGN_BIT || self.bits <= ONE_BITS
    }

    /// Whether a roll of `word` falls below this probability.
    #[verifier::when_used_as_spec(spec_covers)]
    pub fn covers(&self, word: u64) -> (below: bool)
        requires
            self.spec_is_valid(),
        ensures
            below == self.spec_covers(word),
    {
        let exponent: u64 = (self.bits / FRACTION_RANGE) % EXPONENT_RANGE;
        let fraction: u64 = self.bits % FRACTION_RANGE;
        let significand: u64 = if exponent == 0 {
            fraction
        } else {
            FRACTION_RANGE + fraction
        };
        // The roll is below `m / 2^k` when `word * 2^(k - 52) < m * 2^12`.
        let shift: u64 = if exponent == 0 {
            1022
        } else {
            1023 - exponent
        };
        proof {
            lemma_covers_reduced(*self, word);
            lemma2_to64();
        }
        if shift > 64 {
            proof {
                lemma_pow2_unfold(65);
                if shift > 65 {
                    lemma_pow2_strictly_increases(65, shift as nat);
                }
                let big = pow2(shift as nat) as int;
                if word > 0 {
                    assert(word * big >= big) by (nonlinear_arith)
                        requires
                            word >= 1,
                            big >= 0,
                    ;
                } else {
                    assert(word * big == 0) by (nonlinear_arith)
                        requires
                            word == 0,
                    ;
                }
            }
            word == 0 && significand > 0
        } else {
            let factor = power_of_two(shift);
            proof {
                if shift < 64 {
                    lemma_pow2_strictly_increases(shift as nat, 64);
                }
                assert(word * factor <= 0xFFFF_FFFF_FFFF_FFFF * 0x1_0000_0000_0000_0000)
                    by (nonlinear_arith)
                    requires
                        0 <= word <= 0xFFFF_FFFF_FFFF_FFFF,
                        0 <= factor <= 0x1_0000_0000_0000_0000,
                ;
            }
            (word as u128) * factor < (significand as u128) * 4096
        }
    }
}

/// `2^exponent`, for exponents that fit.
fn power_of_two(exponent: u64) -> (power: u128)
    requires
        exponent <= 64,
    ensures
        power == pow2(exponent as nat),
{
    let mut power: u128 = 1;
    let mut done: u64 = 0;
    proof {
        lemma2_to64();
    }
    while done < exponent
        invariant
            done <= exponent <= 64,
            power == pow2(done as nat),
            pow2(64) == 0x1_0000_0000_0000_0000,
        decreases exponent - done,
    {
        proof {
            lemma_pow2_unfold((done + 1) as nat);
            if done + 1 < 64 {
                lemma_pow2_strictly_increases((done + 1) as nat, 64);
            }
        }
        power = power * 2;
        done = done + 1;
    }
    power
}

/// Dividing both sides of the comparison by `2^52` keeps it.
proof fn lemma_covers_reduced(p: Probability, word: u64)
    requires
        p.scale() >= 52,
    ensures
        p.spec_covers(word) == (word * pow2((p.scale() - 52) as nat) < p.significand() * 4096),
{
    let rest = (p.scale() - 52) as nat;
    let unit = pow2(52) as int;
    let left = (word * pow2(rest)) as int;
    let right = (p.significand() * 4096) as int;
    lemma2_to64();
    lemma_pow2_adds(rest, 52);
    lemma_pow2_adds(12, 52);
    lemma_pow2_pos(52);
    lemma_mul_is_associative(word as int, pow2(rest) as int, unit);
    lemma_mul_is_associative(p.significand() as int, 4096, unit);
    if left < right {
        lemma_mul_strict_inequality(left, right, unit);
    } else {
        lemma_mul_inequality(right, left, unit);
    }
}

/// No roll falls below the probability zero.
pub proof fn lemma_covers_none(p: Probability, word: u64)
    requires
        p.is_zero(),
    ensures
        p.spec_is_valid(),
        !p.spec_covers(word),
{
    assert(p.significand() * pow2(64) == 0) by (nonlinear_arith)
        requires
            p.significand() == 0,
    ;
}

/// Every roll falls below the probability one.
pub proof fn lemma_covers_all(p: Probability, word: u64)
    requires
        p.is_one(),
    ensures
        p.spec_is_valid(),
        p.spec_covers(word),
{
    lemma2_to64();
    lemma_covers_reduced(p, word);
    assert(word * pow2(0) == word) by (nonlinear_arith)
        requires
            pow2(0) == 1,
    ;
}

/// The two ends of the range of probabilities: no roll falls below zero,
/// and every roll falls below one.
pub proof fn lemma_covers_none_or_all(p: Probability, word: u64)
    ensures
        p.is_zero() ==> p.spec_is_valid() && !p.spec_covers(word),
        p.is_one() ==> p.spec_is_valid() && p.spec_covers(word),
{
    if p.is_zero() {
        lemma_covers_none(p, word);
    }
    if p.is_one() {
        lemma_covers_all(p, word);
    }
}

/// A span of virtual time, counted in nanoseconds.
#[derive(Debug, Clone, Copy, PartialEq, Eq, Structural, PartialOrd, Ord, Hash)]
pub struct Duration {
    /// The number of nanoseconds.
    pub nanos: u128,
}

impl View for Duration {
    type V = nat;

    /// The number of nanoseconds.
    open spec fn view(&self) -> nat {
        self.nanos as nat
    }
}

impl Duration {
    /// The span of `nanos` nanoseconds.
    pub fn from_nanos(nanos: u128) -> (d: Duration)
        ensures
            d@ == nanos,
    {
        Duration { nanos }
    }

    /// The span of `millis` milliseconds.
    pub fn from_millis(millis: u64) -> (d: Duration)
        ensures
            d@ == millis * 1_000_000,
    {
        Duration { nanos: millis as u128 * 1_000_000 }
    }

    /// The number of nanoseconds.
    pub fn as_nanos(&self) -> (nanos: u128)
        ensures
            nanos == self@,
    {
        self.nanos
    }
}

/// `Clone::clone` of `std::ops::Range`: it hands out a range of its own.
/// Nothing is claimed of the copy.
pub assume_specification<Idx: Clone>[ <Range<Idx> as Clone>::clone ](range: &Range<Idx>) -> (copy:
    Range<Idx>)
;

/// Network configurations.
#[derive(Debug, Clone, PartialEq, Eq, Hash)]
pub struct Config {
    /// Possibility of packet loss.
    pub packet_loss_rate: Probability,
    /// The latency range of sending packets: from `start`, up to and not
    /// including `end`.
    pub send_latency: Range<Duration>,
}

/// The latency range of a fresh configuration: from 1 ms up to 10 ms.
pub fn default_send_latency() -> (range: Range<Duration>)
    ensures
        range.start@ == 1_000_000,
        range.end@ == 10_000_000,
{
    Duration::from_millis(1)..Duration::from_millis(10)
}

impl Default for Config {
    /// No packet loss, and the default latency range.
    fn default() -> (config: Config)
        ensures
            config.packet_loss_rate@ == 0,
            config.send_latency.start@ == 1_000_000,
            config.send_latency.end@ == 10_000_000,
            config.spec_is_valid(),
    {
        Config { packet_loss_rate: Probability::zero(), send_latency: default_send_latency() }
    }
}

impl Config {
    /// Whether the loss rate is a probability and the latency range is not
    /// empty.
    pub open spec fn spec_is_valid(&self) -> bool {
        &&& self.packet_loss_rate.spec_is_valid()
        &&& self.send_latency.start@ < self.send_latency.end@
    }

    /// Whether the loss rate is a probability and the latency range is not
    /// empty.
    #[verifier::when_used_as_spec(spec_is_valid)]
    pub fn is_valid(&self) -> (valid: bool)
        ensures
            valid == self.spec_is_valid(),
    {
        self.packet_loss_rate.is_valid() && self.send_latency.start.as_nanos()
            < self.send_latency.end.as_nanos()
    }

    /// Whether a packet with the loss roll `word` is lost.
    pub open spec fn spec_loses(&self, word: u64) -> bool {
        self.packet_loss_rate.spec_covers(word)
    }

    /// The latency that the roll `word` picks from the latency range:
    /// the start, plus the roll reduced modulo the length of the range.
    pub open spec fn spec_latency(&self, word: u64) -> Duration {
        let span = (self.send_latency.end@ - self.send_latency.start@) as nat;
        Duration { nanos: (self.send_latency.start@ + (word as nat) % span) as u128 }
    }

    /// Whether a packet with the loss roll `word` is lost.
    #[verifier::when_used_as_spec(spec_loses)]
    pub fn loses(&self, word: u64) -> (lost: bool)
        requires
            self.spec_is_valid(),
        ensures
            lost == self.spec_loses(word),
    {
        self.packet_loss_rate.covers(word)
    }

    /// The latency that the roll `word` picks from the latency range.
    #[verifier::when_used_as_spec(spec_latency)]
    pub fn latency(&self, word: u64) -> (latency: Duration)
        requires
            self.spec_is_valid(),
        ensures
            latency == self.spec_latency(word),
            self.send_latency.start@ <= latency@ < self.send_latency.end@,
    {
        let start = self.send_latency.start.as_nanos();
        let span = self.send_latency.end.as_nanos() - start;
        Duration::from_nanos(start + word as u128 % span)
    }
}

/// Network statistics.
#[derive(Debug, Clone)]
pub struct Stat {
    /// Total number of messages.
    pub msg_count: u64,
}

impl Default for Stat {
    /// No message yet.
    fn default() -> (stat: Stat)
        ensures
            stat.msg_count == 0,
    {
        Stat { msg_count: 0 }
    }
}

} // verus!
