//! The wait between two submissions of one order.

use vstd::prelude::*;
use crate::api::alert::FixedDecimal;

verus! {

/// Ten to the power `e`.
pub open spec fn pow10(e: nat) -> nat
    decreases e,
{
    if e == 0 {
        1
    } else {
        10 * pow10((e - 1) as nat)
    }
}

proof fn lemma_pow10_positive(e: nat)
    ensures
        pow10(e) > 0,
    decreases e,
{
    if e > 0 {
        lemma_pow10_positive((e - 1) as nat);
    }
}

proof fn lemma_pow10_adds(a: nat, b: nat)
    ensures
        pow10(a + b) == pow10(a) * pow10(b),
    decreases a,
{
    if a > 0 {
        lemma_pow10_adds((a - 1) as nat, b);
        assert(pow10(a + b) == 10 * pow10((a - 1 + b) as nat));
        assert(10 * (pow10((a - 1) as nat) * pow10(b)) == (10 * pow10((a - 1) as nat)) * pow10(b))
            by (nonlinear_arith);
    } else {
        assert(pow10(a + b) == 1 * pow10(b));
    }
}

proof fn lemma_cancel(a: int, b: int, c: int)
    requires
        c > 0,
        a * c == b * c,
    ensures
        a == b,
{
    assert(a == b) by (nonlinear_arith)
        requires
            c > 0,
            a * c == b * c,
    ;
}

proof fn lemma_regroup(a: int, b: int, c: int)
    ensures
        a * (b * c) == (a * b) * c,
        a * (b * c) == (a * c) * b,
{
    assert(a * (b * c) == (a * b) * c) by (nonlinear_arith);
    assert(a * (b * c) == (a * c) * b) by (nonlinear_arith);
}

/// Ten to the power `e`, for the powers up to a billion.
fn ten_to(e: u32) -> (power: u64)
    requires
        e <= 9,
    ensures
        power == pow10(e as nat),
        1 <= power <= 1_000_000_000,
{
    proof {
        reveal_with_fuel(pow10, 11);
    }
    match e {
        0 => 1,
        1 => 10,
        2 => 100,
        3 => 1_000,
        4 => 10_000,
        5 => 100_000,
        6 => 1_000_000,
        7 => 10_000_000,
        8 => 100_000_000,
        _ => 1_000_000_000,
    }
}

/// Nanoseconds in one second.
pub const NANOS_PER_SEC: u64 = 1_000_000_000;

/// A fixed wait, held as a whole number of nanoseconds so that a configured
/// value with a fractional part is kept exactly.
#[derive(Clone, Copy, Debug, PartialEq, Eq, Structural)]
pub struct RetryDelay {
    pub nanos: u64,
}

impl RetryDelay {
    /// The wait of `secs` seconds and `nanos` nanoseconds, as a plain number.
    pub open spec fn nanos_of(secs: u64, nanos: u32) -> int {
        secs * 1_000_000_000 + nanos
    }

    /// The wait of `secs` seconds and `nanos` further nanoseconds, or `None`
    /// where the total does not fit in 64 bits.
    pub fn from_parts(secs: u64, nanos: u32) -> (delay: Option<RetryDelay>)
        ensures
            Self::nanos_of(secs, nanos) <= u64::MAX ==> delay == Some(
                (RetryDelay { nanos: Self::nanos_of(secs, nanos) as u64 }),
            ),
            Self::nanos_of(secs, nanos) > u64::MAX ==> delay.is_none(),
    {
        match secs.checked_mul(NANOS_PER_SEC) {
            Some(whole) => match whole.checked_add(nanos as u64) {
                Some(total) => Some(RetryDelay { nanos: total }),
                None => None,
            },
            None => None,
        }
    }

    /// The wait is exactly `seconds` seconds long: its nanoseconds, divided by
    /// a billion, are the number `mantissa / 10^scale`.
    pub open spec fn is_exactly(self, seconds: FixedDecimal) -> bool {
        self.nanos * pow10(seconds.scale as nat) == seconds.mantissa * 1_000_000_000
    }

    /// The wait of `seconds` seconds, kept exactly. `None` exactly when no
    /// whole number of nanoseconds below 2^64 is that long: the number is
    /// negative, too large, or finer than a nanosecond.
    pub fn from_seconds(seconds: FixedDecimal) -> (delay: Option<RetryDelay>)
        ensures
            match delay {
                Some(wait) => wait.is_exactly(seconds),
                None => forall|wait: RetryDelay| !#[trigger] wait.is_exactly(seconds),
            },
    {
        let ghost scale = seconds.scale as nat;
        proof {
            reveal_with_fuel(pow10, 11);
            lemma_pow10_positive(scale);
        }
        if seconds.mantissa < 0 {
            proof {
                assert forall|wait: RetryDelay| !#[trigger] wait.is_exactly(seconds) by {
                    assert(wait.nanos * pow10(scale) >= 0) by (nonlinear_arith)
                        requires
                            wait.nanos >= 0,
                            pow10(scale) > 0,
                    ;
                }
            }
            return None;
        }
        if seconds.mantissa == 0 {
            proof {
                assert(0 * pow10(scale) == 0);
            }
            return Some(RetryDelay { nanos: 0 });
        }
        let whole: u128 = seconds.mantissa as u128;
        if seconds.scale <= 9 {
            let factor = ten_to(9 - seconds.scale);
            proof {
                lemma_pow10_adds((9 - scale) as nat, scale);
                assert(pow10(9) == 1_000_000_000);
                assert(factor * pow10(scale) == 1_000_000_000);
                assert forall|wait: RetryDelay| #[trigger]
                    wait.is_exactly(seconds) implies wait.nanos == whole * factor by {
                    lemma_regroup(whole as int, factor as int, pow10(scale) as int);
                    lemma_cancel(
                        wait.nanos as int,
                        whole as int * factor as int,
                        pow10(scale) as int,
                    );
                }
                lemma_regroup(whole as int, factor as int, pow10(scale) as int);
            }
            if whole > u64::MAX as u128 {
                proof {
                    assert(whole * factor >= whole) by (nonlinear_arith)
                        requires
                            factor >= 1,
                            whole >= 0,
                    ;
                }
                return None;
            }
            proof {
                assert(whole * factor <= 0xffff_ffff_ffff_ffff * 1_000_000_000) by (nonlinear_arith)
                    requires
                        0 <= whole <= 0xffff_ffff_ffff_ffff,
                        0 <= factor <= 1_000_000_000,
                ;
            }
            let total: u128 = whole * (factor as u128);
            if total > u64::MAX as u128 {
                return None;
            }
            return Some(RetryDelay { nanos: total as u64 });
        }
        let finer: u32 = seconds.scale - 9;
        let mut left: u32 = finer;
        let mut rest: u128 = whole;
        let ghost mut done: nat = 0;
        proof {
            lemma_pow10_adds(finer as nat, 9);
            assert(pow10(scale) == pow10(finer as nat) * 1_000_000_000);
            // A wait is exact just when its nanoseconds, times the finer
            // power of ten, are the mantissa.
            assert forall|wait: RetryDelay| #[trigger]
                wait.is_exactly(seconds) implies wait.nanos * pow10(finer as nat) == whole by {
                lemma_regroup(wait.nanos as int, pow10(finer as nat) as int, 1_000_000_000);
                lemma_cancel(wait.nanos * pow10(finer as nat), whole as int, 1_000_000_000);
            }
            assert(pow10(0) == 1);
            assert(whole == rest * pow10(0)) by (nonlinear_arith)
                requires
                    whole == rest,
                    pow10(0) == 1,
            ;
        }
        while left > 0
            invariant
                rest > 0,
                left <= finer,
                done + left == finer,
                whole == rest * pow10(done),
                forall|wait: RetryDelay| #[trigger]
                    wait.is_exactly(seconds) ==> wait.nanos * pow10(finer as nat) == whole,
            decreases left,
        {
            if rest % 10 != 0 {
                proof {
                    assert forall|wait: RetryDelay| !#[trigger] wait.is_exactly(seconds) by {
                        if wait.is_exactly(seconds) {
                            let ahead = pow10((left - 1) as nat);
                            lemma_pow10_adds(left as nat, done);
                            lemma_pow10_positive(done);
                            assert(pow10(left as nat) == 10 * ahead);
                            lemma_regroup(
                                wait.nanos as int,
                                pow10(left as nat) as int,
                                pow10(done) as int,
                            );
                            lemma_cancel(
                                wait.nanos * pow10(left as nat),
                                rest as int,
                                pow10(done) as int,
                            );
                            assert(rest == 10 * (wait.nanos * ahead)) by (nonlinear_arith)
                                requires
                                    rest == wait.nanos * pow10(left as nat),
                                    pow10(left as nat) == 10 * ahead,
                            ;
                            assert(false);
                        }
                    }
                }
                return None;
            }
            proof {
                assert(pow10(done + 1) == 10 * pow10(done));
                assert(rest * pow10(done) == (rest / 10) * (10 * pow10(done))) by (nonlinear_arith)
                    requires
                        rest % 10 == 0,
                ;
            }
            rest = rest / 10;
            left = left - 1;
            proof {
                done = done + 1;
            }
        }
        proof {
            assert forall|wait: RetryDelay| #[trigger]
                wait.is_exactly(seconds) implies wait.nanos == rest by {
                lemma_pow10_positive(done);
                lemma_cancel(wait.nanos as int, rest as int, pow10(done) as int);
            }
            lemma_regroup(rest as int, pow10(finer as nat) as int, 1_000_000_000);
        }
        if rest > u64::MAX as u128 {
            return None;
        }
        Some(RetryDelay { nanos: rest as u64 })
    }

    /// The whole seconds of the wait.
    pub fn secs(&self) -> (secs: u64)
        ensures
            secs == self.nanos / 1_000_000_000,
    {
        self.nanos / NANOS_PER_SEC
    }

    /// The nanoseconds beyond the whole seconds.
    pub fn subsec_nanos(&self) -> (part: u32)
        ensures
            part == self.nanos % 1_000_000_000,
    {
        (self.nanos % NANOS_PER_SEC) as u32
    }
}

/// At most one wait is exactly a given number of seconds long.
pub proof fn law_exact_delay_is_unique(seconds: FixedDecimal, one: RetryDelay, other: RetryDelay)
    requires
        one.is_exactly(seconds),
        other.is_exactly(seconds),
    ensures
        one == other,
{
    lemma_pow10_positive(seconds.scale as nat);
    lemma_cancel(one.nanos as int, other.nanos as int, pow10(seconds.scale as nat) as int);
}

} // verus!
