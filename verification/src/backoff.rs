//! The delay between two attempts to reach the store.
//!
//! The delay starts at one second and doubles after every failed attempt
//! until it has reached its ceiling of 64 seconds.

use vstd::arithmetic::power2::{lemma2_to64, pow2};
use vstd::prelude::*;

verus! {

/// The delay before the second attempt, in seconds.
pub const INITIAL_DELAY: u64 = 1;

/// The delay never grows beyond this many seconds.
pub const MAX_DELAY: u64 = 64;

/// The delay that follows `delay`: twice as long, but never longer than
/// the ceiling.
pub open spec fn grown(delay: nat) -> nat {
    if 2 * delay < MAX_DELAY {
        2 * delay
    } else {
        MAX_DELAY as nat
    }
}

/// The delay in force once `failures` attempts have failed.
pub open spec fn delay_after(failures: nat) -> nat {
    if failures >= 6 {
        MAX_DELAY as nat
    } else {
        pow2(failures)
    }
}

/// Whether `delay` is one of the delays that the schedule reaches.
pub open spec fn on_schedule(delay: nat) -> bool {
    delay == 1 || delay == 2 || delay == 4 || delay == 8 || delay == 16 || delay == 32 || delay
        == 64
}

/// The seconds spent waiting by the time `failures` attempts have failed.
pub open spec fn total_pause(failures: nat) -> nat
    decreases failures,
{
    if failures == 0 {
        0
    } else {
        total_pause((failures - 1) as nat) + delay_after((failures - 1) as nat)
    }
}

/// Hands out the delay to wait now and moves `backoff` on to the next one:
/// twice the delay, or the ceiling where twice the delay would pass it. A
/// delay within the ceiling never shrinks.
pub fn apply_backoff(backoff: &mut u64) -> (pause: u64)
    ensures
        pause == *old(backoff),
        *final(backoff) == grown(*old(backoff) as nat),
        *final(backoff) <= MAX_DELAY,
        *old(backoff) <= MAX_DELAY ==> *old(backoff) <= *final(backoff),
        on_schedule(*old(backoff) as nat) ==> on_schedule(*final(backoff) as nat),
{
    let pause: u64 = *backoff;
    if pause < MAX_DELAY / 2 {
        *backoff = pause * 2;
    } else {
        *backoff = MAX_DELAY;
    }
    pause
}

/// Growing a delay never takes it past the ceiling, and never shortens a
/// delay that is within the ceiling.
pub proof fn lemma_grown_capped(delay: nat)
    ensures
        grown(delay) <= MAX_DELAY,
        delay <= MAX_DELAY ==> delay <= grown(delay),
        grown(delay) == if 2 * delay <= MAX_DELAY {
            2 * delay
        } else {
            MAX_DELAY as nat
        },
{
}

/// The first delay is the initial one, and each later delay is the one
/// before it, grown.
pub proof fn lemma_delay_unfolds(failures: nat)
    ensures
        delay_after(0) == INITIAL_DELAY,
        delay_after(failures + 1) == grown(delay_after(failures)),
{
    lemma2_to64();
}

/// The schedule holds exactly the delays in force after some number of
/// failures, and growing a delay on the schedule stays on it.
pub proof fn lemma_on_schedule(delay: nat)
    ensures
        on_schedule(delay) <==> exists|failures: nat| delay == delay_after(failures),
        on_schedule(delay) ==> on_schedule(grown(delay)),
{
    lemma2_to64();
    if on_schedule(delay) {
        let failures: nat = if delay == 1 {
            0
        } else if delay == 2 {
            1
        } else if delay == 4 {
            2
        } else if delay == 8 {
            3
        } else if delay == 16 {
            4
        } else if delay == 32 {
            5
        } else {
            6
        };
        assert(delay == delay_after(failures));
    }
}

/// Every delay lies between the initial delay and the ceiling.
pub proof fn lemma_delay_bounded(failures: nat)
    ensures
        INITIAL_DELAY <= delay_after(failures) <= MAX_DELAY,
{
    lemma2_to64();
}

/// Below the ceiling each delay is strictly longer than the one before; at
/// the ceiling it stays.
pub proof fn lemma_delay_increases(failures: nat)
    ensures
        delay_after(failures) < MAX_DELAY ==> delay_after(failures) < delay_after(failures + 1),
        delay_after(failures) == MAX_DELAY ==> delay_after(failures + 1) == MAX_DELAY,
        delay_after(failures) == MAX_DELAY <==> failures >= 6,
{
    lemma2_to64();
}

/// A later delay is never shorter than an earlier one.
pub proof fn lemma_delay_monotonic(earlier: nat, later: nat)
    requires
        earlier <= later,
    ensures
        delay_after(earlier) <= delay_after(later),
{
    lemma2_to64();
}

/// The waiting adds up to one less than the next delay while the delay still
/// doubles, and grows by the ceiling for each failure after that.
pub proof fn lemma_total_pause(failures: nat)
    ensures
        failures <= 6 ==> total_pause(failures) == pow2(failures) - 1,
        failures > 6 ==> total_pause(failures) == 63 + 64 * (failures - 6),
    decreases failures,
{
    lemma2_to64();
    if failures > 0 {
        lemma_total_pause((failures - 1) as nat);
    }
}

} // verus!
