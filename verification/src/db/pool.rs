//! When to try again to reach the store.
//!
//! A store that has been idle may take a few seconds to answer. A failed
//! first attempt is therefore followed by up to three more, each after a
//! pause twice as long as the one before. The first attempt that connects
//! ends the trying; where none does, the failure of the last one stands.

use vstd::prelude::*;

verus! {

/// How many connections the pool may hold.
pub const MAX_CONNECTIONS: u32 = 5;

/// How many seconds a request may wait for a connection.
pub const ACQUIRE_TIMEOUT_SECS: u64 = 15;

/// How many attempts may follow a failed first one.
pub const MAX_RETRIES: u32 = 3;

/// The pause in milliseconds before the retry with the given number, the
/// first retry being number 0; nothing where no retry is left.
pub open spec fn pause_before(retry: u32) -> Option<u64> {
    if retry == 0 {
        Some(500u64)
    } else if retry == 1 {
        Some(1000u64)
    } else if retry == 2 {
        Some(2000u64)
    } else {
        None
    }
}

/// The pause in milliseconds before the retry with the given number, the
/// first retry being number 0; nothing where no retry is left, and the last
/// failure stands.
pub fn retry_delay_ms(retry: u32) -> (pause: Option<u64>)
    ensures
        pause == pause_before(retry),
        pause is Some <==> retry < MAX_RETRIES,
{
    match retry {
        0 => Some(500),
        1 => Some(1000),
        2 => Some(2000),
        _ => None,
    }
}

/// What to do once an attempt to reach the store has ended.
#[derive(Debug, Clone, Copy, PartialEq, Eq, Structural)]
pub enum NextStep {
    /// The attempt has connected: what it made is the pool, and no further
    /// attempt is made.
    Use,
    /// The attempt has failed: pause for so many milliseconds, then try again.
    RetryAfter { pause_ms: u64 },
    /// The attempt has failed and no retry is left: its failure is the
    /// answer.
    GiveUp,
}

/// What to do once the attempt with the given number has ended, the first
/// attempt being number 0 and the retry with number `n` being attempt
/// `n + 1`.
pub open spec fn step_after(attempt: u32, connected: bool) -> NextStep {
    if connected {
        NextStep::Use
    } else {
        match pause_before(attempt) {
            Some(pause_ms) => NextStep::RetryAfter { pause_ms },
            None => NextStep::GiveUp,
        }
    }
}

/// What to do once the attempt with the given number has ended, the first
/// attempt being number 0. After a [`NextStep::RetryAfter`] the next attempt
/// has the next number.
pub fn next_step(attempt: u32, connected: bool) -> (step: NextStep)
    ensures
        step == step_after(attempt, connected),
        step is Use <==> connected,
        step is GiveUp <==> !connected && attempt >= MAX_RETRIES,
        step is RetryAfter ==> attempt < MAX_RETRIES,
{
    if connected {
        return NextStep::Use;
    }
    match retry_delay_ms(attempt) {
        Some(pause_ms) => NextStep::RetryAfter { pause_ms },
        None => NextStep::GiveUp,
    }
}

} // verus!
