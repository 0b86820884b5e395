//! When the usage is fetched again by itself.

use vstd::arithmetic::power2::{lemma2_to64, pow2};
use vstd::prelude::*;

verus! {

/// Seconds after a key press for which the user counts as active.
pub const ACTIVE_WINDOW_SECS: u64 = 20;

/// Seconds between fetches while the user is active.
pub const ACTIVE_POLL_SECS: u64 = 30;

/// Seconds between fetches while the user is idle.
pub const IDLE_HEARTBEAT_SECS: u64 = 300;

/// How often failures in a row double the time between fetches.
pub const MAX_BACKOFF_STEPS: u32 = 4;

/// Nanoseconds in a second.
pub const NANOS_PER_SEC: u128 = 1_000_000_000;

/// Whether the user counts as idle, so long after the last key press.
pub open spec fn is_idle(since_input: u128) -> bool {
    since_input >= ACTIVE_WINDOW_SECS * NANOS_PER_SEC
}

/// The seconds between fetches: a base time, doubled for each failure in a row
/// up to a limit.
pub open spec fn interval_secs(idle: bool, failures: u32) -> nat {
    let base = if idle {
        IDLE_HEARTBEAT_SECS as nat
    } else {
        ACTIVE_POLL_SECS as nat
    };
    let steps = if failures < MAX_BACKOFF_STEPS {
        failures as nat
    } else {
        MAX_BACKOFF_STEPS as nat
    };
    base * pow2(steps)
}

/// Whether a fetch is due: the account has a token, and there was no fetch yet
/// or the last one is long enough ago. Times are in nanoseconds.
pub open spec fn is_due(
    has_token: bool,
    since_input: u128,
    since_refresh: Option<u128>,
    failures: u32,
) -> bool {
    has_token && match since_refresh {
        Some(passed) => passed >= interval_secs(is_idle(since_input), failures) * NANOS_PER_SEC,
        None => true,
    }
}

/// The seconds between fetches.
pub fn poll_interval_secs(idle: bool, failures: u32) -> (secs: u64)
    ensures
        secs == interval_secs(idle, failures),
        ACTIVE_POLL_SECS <= secs <= 4800,
{
    let base: u64 = if idle {
        IDLE_HEARTBEAT_SECS
    } else {
        ACTIVE_POLL_SECS
    };
    let steps: u32 = if failures < MAX_BACKOFF_STEPS {
        failures
    } else {
        MAX_BACKOFF_STEPS
    };
    proof {
        lemma2_to64();
        assert(steps <= 4 ==> (1u64 << steps) == (if steps == 0 {
            1u64
        } else if steps == 1 {
            2u64
        } else if steps == 2 {
            4u64
        } else if steps == 3 {
            8u64
        } else {
            16u64
        })) by (bit_vector);
    }
    let factor: u64 = 1u64 << steps;
    assert(factor == pow2(steps as nat));
    assert(1 <= factor <= 16);
    assert(base <= base * factor <= 16 * base) by (nonlinear_arith)
        requires
            1 <= factor <= 16,
    ;
    base * factor
}

/// Whether a fetch is due. Times are in nanoseconds.
pub fn refresh_due(
    has_token: bool,
    since_input: u128,
    since_refresh: Option<u128>,
    failures: u32,
) -> (due: bool)
    ensures
        due == is_due(has_token, since_input, since_refresh, failures),
{
    if !has_token {
        return false;
    }
    let idle = since_input >= ACTIVE_WINDOW_SECS as u128 * NANOS_PER_SEC;
    let interval: u64 = poll_interval_secs(idle, failures);
    match since_refresh {
        Some(passed) => passed >= interval as u128 * NANOS_PER_SEC,
        None => true,
    }
}

/// The times between fetches, written out.
proof fn lemma_interval_table(idle: bool, failures: u32)
    ensures
        interval_secs(idle, failures) == (if idle {
            300nat
        } else {
            30nat
        }) * (if failures == 0 {
            1nat
        } else if failures == 1 {
            2nat
        } else if failures == 2 {
            4nat
        } else if failures == 3 {
            8nat
        } else {
            16nat
        }),
{
    lemma2_to64();
    if failures == 0 {
    } else if failures == 1 {
    } else if failures == 2 {
    } else if failures == 3 {
    } else {
    }
}

/// The active user's fetches are 30 seconds apart and the idle user's 5 minutes,
/// as long as nothing fails.
pub proof fn law_base_intervals()
    ensures
        interval_secs(false, 0) == 30,
        interval_secs(true, 0) == 5 * 60,
{
    lemma2_to64();
}

/// One more failure doubles the time between fetches until four have happened
/// in a row, and changes nothing after that.
pub proof fn law_failure_doubles_interval(idle: bool, failures: u32)
    requires
        failures < u32::MAX,
    ensures
        interval_secs(idle, (failures + 1) as u32) == if failures < 4 {
            2 * interval_secs(idle, failures)
        } else {
            interval_secs(idle, failures)
        },
{
    lemma_interval_table(idle, failures);
    lemma_interval_table(idle, (failures + 1) as u32);
}

/// More failures in a row never bring fetches closer together, and there are
/// always between 30 seconds and 80 minutes between them.
pub proof fn law_intervals_grow_with_failures(idle: bool, fewer: u32, more: u32)
    requires
        fewer <= more,
    ensures
        30 <= interval_secs(idle, fewer) <= interval_secs(idle, more) <= 80 * 60,
{
    lemma_interval_table(idle, fewer);
    lemma_interval_table(idle, more);
}

/// An idle user's fetches are ten times as far apart as an active user's.
pub proof fn law_idle_is_slower(failures: u32)
    ensures
        interval_secs(true, failures) == 10 * interval_secs(false, failures),
{
    lemma_interval_table(true, failures);
    lemma_interval_table(false, failures);
}

/// With a token, a fetch is due where there was none yet, and else once the last
/// one is long enough ago: 30 seconds, or 300 from 20 seconds after the last key
/// press on, times 1, 2, 4, 8 or 16 after as many failures in a row as that takes
/// doublings. Without a token none is due.
pub proof fn law_fetch_falls_due(
    has_token: bool,
    since_input: u128,
    since_refresh: Option<u128>,
    failures: u32,
    due: bool,
)
    requires
        call_ensures(refresh_due, (has_token, since_input, since_refresh, failures), due),
    ensures
        due <==> has_token && match since_refresh {
            None => true,
            Some(passed) => passed >= 1_000_000_000 * (if since_input >= 20_000_000_000 {
                300int
            } else {
                30int
            }) * (if failures == 0 {
                1int
            } else if failures == 1 {
                2int
            } else if failures == 2 {
                4int
            } else if failures == 3 {
                8int
            } else {
                16int
            }),
        },
{
    lemma_interval_table(since_input >= 20_000_000_000, failures);
}

/// Whatever has failed, a fetch is due again after 80 minutes, and none is due
/// within 30 seconds of the last one.
pub proof fn law_fetch_never_stays_away(
    since_input: u128,
    passed: u128,
    failures: u32,
    due: bool,
)
    requires
        call_ensures(refresh_due, (true, since_input, Some(passed), failures), due),
    ensures
        passed >= 4_800_000_000_000 ==> due,
        passed < 30_000_000_000 ==> !due,
{
    law_fetch_falls_due(true, since_input, Some(passed), failures, due);
}

/// A fetch that is due stays due as time passes, as the user becomes active, and
/// with fewer failures.
pub proof fn law_due_fetch_stays_due(
    since_input: u128,
    sooner: u128,
    passed: u128,
    longer: u128,
    failures: u32,
    fewer: u32,
    due: bool,
    later: bool,
)
    requires
        sooner <= since_input,
        passed <= longer,
        fewer <= failures,
        call_ensures(refresh_due, (true, since_input, Some(passed), failures), due),
        call_ensures(refresh_due, (true, sooner, Some(longer), fewer), later),
        due,
    ensures
        later,
{
    law_fetch_falls_due(true, since_input, Some(passed), failures, due);
    law_fetch_falls_due(true, sooner, Some(longer), fewer, later);
}

/// The seconds between fetches: 30 or 300, doubled for each of the first four
/// failures in a row.
pub proof fn law_interval_is_doubled(idle: bool, failures: u32, secs: u64)
    requires
        call_ensures(poll_interval_secs, (idle, failures), secs),
    ensures
        failures == 0 ==> secs == if idle { 300int } else { 30int },
        failures == 1 ==> secs == if idle { 600int } else { 60int },
        failures == 2 ==> secs == if idle { 1200int } else { 120int },
        failures == 3 ==> secs == if idle { 2400int } else { 240int },
        failures >= 4 ==> secs == if idle { 4800int } else { 480int },
{
    lemma_interval_table(idle, failures);
}

/// The user counts as idle just from 20 seconds after the last key press on.
pub proof fn law_idle_after_twenty_seconds(since_input: u128)
    ensures
        is_idle(since_input) <==> since_input >= 20_000_000_000,
{
}

/// Whether a fetch is due, in numbers.
pub proof fn law_due_in_numbers(
    has_token: bool,
    since_input: u128,
    since_refresh: Option<u128>,
    failures: u32,
)
    ensures
        !has_token ==> !is_due(has_token, since_input, since_refresh, failures),
        has_token && since_refresh is None ==> is_due(
            has_token,
            since_input,
            since_refresh,
            failures,
        ),
        has_token ==> (since_refresh matches Some(passed) ==> (is_due(
            has_token,
            since_input,
            since_refresh,
            failures,
        ) <==> passed >= 1_000_000_000 * (if since_input >= 20_000_000_000 {
            300int
        } else {
            30int
        }) * (if failures == 0 {
            1int
        } else if failures == 1 {
            2int
        } else if failures == 2 {
            4int
        } else if failures == 3 {
            8int
        } else {
            16int
        }))),
{
    lemma_interval_table(since_input >= 20_000_000_000, failures);
}

} // verus!
