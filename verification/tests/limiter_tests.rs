use quiz_engine::limiter::{AcquireStep, RateLimiter, MAX_ATTEMPTS, MIN_INTERVAL_TICKS};
use quiz_engine::engine::QuizEngine;
use quiz_engine::errors::QuizError;

#[test]
fn permits_only_after_min_interval() {
    let mut l = RateLimiter::new(0);
    assert_eq!(MIN_INTERVAL_TICKS, 3);
    assert_eq!(l.acquire_step(2, 0), AcquireStep::Retry { wait: 1 });
    // A rejected attempt leaves the limiter untouched.
    assert_eq!(l.last_call, 0);
    assert_eq!(l.acquire_step(3, 0), AcquireStep::Permitted);
    assert_eq!(l.last_call, 3);
    // The next permitted reading is 6 at the earliest: 3 ticks after 3.
    assert_eq!(l.acquire_step(5, 0), AcquireStep::Retry { wait: 1 });
    assert_eq!(l.acquire_step(6, 0), AcquireStep::Permitted);
    assert_eq!(l.last_call, 6);
}

#[test]
fn wait_covers_the_remaining_interval() {
    let mut l = RateLimiter::new(10);
    assert_eq!(l.acquire_step(10, 0), AcquireStep::Retry { wait: 3 });
    assert_eq!(l.acquire_step(11, 1), AcquireStep::Retry { wait: 2 });
    // A clock reading before the last call waits the full interval.
    assert_eq!(l.acquire_step(9, 0), AcquireStep::Retry { wait: 3 });
}

#[test]
fn ceiling_yields_exceeded_instead_of_waiting() {
    let mut l = RateLimiter::new(0);
    assert_eq!(MAX_ATTEMPTS, 3);
    assert_eq!(l.acquire_step(1, 0), AcquireStep::Retry { wait: 2 });
    assert_eq!(l.acquire_step(1, 1), AcquireStep::Retry { wait: 2 });
    assert_eq!(l.acquire_step(1, 2), AcquireStep::Exceeded);
    assert_eq!(l.last_call, 0);
}

#[test]
fn engine_acquire_maps_ceiling_to_error() {
    let mut e = QuizEngine::new(0);
    assert_eq!(e.acquire_external_call(1, 0), Ok(Some(2)));
    assert_eq!(e.acquire_external_call(1, 2), Err(QuizError::RateLimitExceeded));
    assert_eq!(e.acquire_external_call(3, 0), Ok(None));
    assert_eq!(e.limiter.last_call, 3);
}
