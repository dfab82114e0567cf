//! How long a failed upload waits before its next attempt.

use vstd::arithmetic::power2::lemma2_to64;
use vstd::arithmetic::power2::lemma_pow2_unfold;
use vstd::arithmetic::power2::pow2;
use vstd::prelude::*;

verus! {

/// Base of the retry delay, in seconds.
pub const RETRY_DELAY_BASE_SECS: u64 = 5;

/// Failed attempts after which a file is given up.
pub const MAX_RETRIES: u32 = 10;

/// The delay stops doubling after this many failures.
pub const BACKOFF_CAP_EXPONENT: u32 = 6;

/// Longest delay between two attempts, in seconds.
pub const MAX_RETRY_DELAY_SECS: u64 = 320;

/// Seconds to wait after the `failures`-th failed attempt of a file: the base
/// delay doubled once per failure, up to [`BACKOFF_CAP_EXPONENT`] times.
pub open spec fn backoff_delay(failures: nat) -> nat {
    (RETRY_DELAY_BASE_SECS * pow2(doublings(failures))) as nat
}

/// How often the base delay has doubled after `failures` failed attempts.
pub open spec fn doublings(failures: nat) -> nat {
    if failures < BACKOFF_CAP_EXPONENT {
        failures
    } else {
        BACKOFF_CAP_EXPONENT as nat
    }
}

/// Seconds to wait after the `retries`-th failed attempt of a file.
pub fn retry_delay_secs(retries: u32) -> (delay: u64)
    ensures
        delay == backoff_delay(retries as nat),
        RETRY_DELAY_BASE_SECS <= delay <= MAX_RETRY_DELAY_SECS,
{
    let wanted: u32 = if retries < BACKOFF_CAP_EXPONENT {
        retries
    } else {
        BACKOFF_CAP_EXPONENT
    };
    let mut factor: u64 = 1;
    let mut done: u32 = 0;
    proof {
        lemma2_to64();
    }
    while done < wanted
        invariant
            done <= wanted <= BACKOFF_CAP_EXPONENT,
            factor == pow2(done as nat),
            factor <= 64,
        decreases wanted - done,
    {
        proof {
            lemma_pow2_unfold((done + 1) as nat);
            lemma2_to64();
        }
        factor = factor * 2;
        done += 1;
    }
    RETRY_DELAY_BASE_SECS * factor
}

/// The delay never shrinks from one failure to the next.
pub proof fn backoff_is_monotonic(earlier: nat, later: nat)
    requires
        earlier <= later,
    ensures
        backoff_delay(earlier) <= backoff_delay(later),
{
    lemma2_to64();
}

/// The delay is at least the base and never more than
/// [`MAX_RETRY_DELAY_SECS`], which it reaches from the sixth failure on.
pub proof fn backoff_is_capped(failures: nat)
    ensures
        RETRY_DELAY_BASE_SECS <= backoff_delay(failures) <= MAX_RETRY_DELAY_SECS,
        failures >= BACKOFF_CAP_EXPONENT ==> backoff_delay(failures) == MAX_RETRY_DELAY_SECS,
{
    lemma2_to64();
}

/// The first delays, one by one: 10, 20, 40, 80, 160 and 320 seconds.
pub proof fn backoff_table()
    ensures
        backoff_delay(1) == 10,
        backoff_delay(2) == 20,
        backoff_delay(3) == 40,
        backoff_delay(4) == 80,
        backoff_delay(5) == 160,
        backoff_delay(6) == 320,
        backoff_delay(7) == 320,
{
    lemma2_to64();
}

} // verus!
