//! The two cadences of the run loop: when the next wake-up is due, and
//! what is due at a wake-up. Times are in milliseconds.

use vstd::prelude::*;

verus! {

/// The time between two refreshes of the snapshot.
pub const REFRESH_INTERVAL_MS: u64 = 1000;

/// The time between two frames of the spinner.
pub const ANIMATION_INTERVAL_MS: u64 = 100;

/// The grace period between a signal that succeeded and the refresh that
/// follows it.
pub const GRACE_PERIOD_MS: u64 = 500;

/// What is left of `interval` after `elapsed`; nothing where more has
/// elapsed.
pub open spec fn remaining(interval: nat, elapsed: nat) -> nat {
    if elapsed >= interval {
        0
    } else {
        (interval - elapsed) as nat
    }
}

/// The longest time the run loop may wait for a key: until the next
/// refresh is due, and while no snapshot has arrived also no longer than
/// until the next frame of the spinner is due.
pub open spec fn timeout_for(loaded: bool, since_refresh: nat, since_animation: nat) -> nat {
    let refresh = remaining(REFRESH_INTERVAL_MS as nat, since_refresh);
    let animation = remaining(ANIMATION_INTERVAL_MS as nat, since_animation);
    if loaded || refresh <= animation {
        refresh
    } else {
        animation
    }
}

/// The longest time to wait for a key, given the times since the last
/// refresh and the last frame.
pub fn poll_timeout(loaded: bool, since_refresh_ms: u64, since_animation_ms: u64) -> (ms: u64)
    ensures
        ms == timeout_for(loaded, since_refresh_ms as nat, since_animation_ms as nat),
        ms <= REFRESH_INTERVAL_MS,
        ms == 0 <==> refresh_is_due(since_refresh_ms) || animation_is_due(loaded, since_animation_ms),
{
    let refresh: u64 = if since_refresh_ms >= REFRESH_INTERVAL_MS {
        0
    } else {
        REFRESH_INTERVAL_MS - since_refresh_ms
    };
    let animation: u64 = if since_animation_ms >= ANIMATION_INTERVAL_MS {
        0
    } else {
        ANIMATION_INTERVAL_MS - since_animation_ms
    };
    if loaded || refresh <= animation {
        refresh
    } else {
        animation
    }
}

/// Whether a refresh is due: a full interval has passed since the last.
pub fn refresh_due(since_refresh_ms: u64) -> (due: bool)
    ensures
        due == refresh_is_due(since_refresh_ms),
{
    since_refresh_ms >= REFRESH_INTERVAL_MS
}

/// Whether a refresh is due.
pub open spec fn refresh_is_due(since_refresh_ms: u64) -> bool {
    since_refresh_ms >= REFRESH_INTERVAL_MS
}

/// Whether a frame of the spinner is due: no snapshot has arrived yet and
/// a full interval has passed since the last frame.
pub fn animation_due(loaded: bool, since_animation_ms: u64) -> (due: bool)
    ensures
        due == animation_is_due(loaded, since_animation_ms),
{
    !loaded && since_animation_ms >= ANIMATION_INTERVAL_MS
}

/// Whether a frame of the spinner is due.
pub open spec fn animation_is_due(loaded: bool, since_animation_ms: u64) -> bool {
    !loaded && since_animation_ms >= ANIMATION_INTERVAL_MS
}

} // verus!
