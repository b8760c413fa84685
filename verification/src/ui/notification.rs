//! Toast notifications: a message that disappears four seconds after it
//! was raised.
use vstd::prelude::*;

use std::time::{Duration, Instant};

verus! {

/// How long a toast stays on screen, in milliseconds.
pub const TOAST_MILLIS: u64 = 4000;

/// `std::time::Instant`, held as it is: a moment of the monotonic clock.
#[verifier::external_type_specification]
#[verifier::external_body]
pub struct ExInstant(Instant);

/// The kind of a toast.
#[derive(Debug, Clone, Copy, PartialEq, Eq, Structural)]
pub enum NotificationLevel {
    Success,
    Error,
    Warning,
    Info,
}

/// A message shown for a while in a corner of the screen.
pub struct ToastNotification {
    pub message: String,
    pub level: NotificationLevel,
    pub created_at: Instant,
    pub duration_ms: u64,
}

/// `Instant::now`: the monotonic clock's current moment. Nothing is claimed
/// of it.
#[verifier::external_body]
fn instant_now() -> (r: Instant) {
    Instant::now()
}

/// `Instant::elapsed`: the time since `t` by the monotonic clock. Nothing is
/// claimed of it.
#[verifier::external_body]
fn elapsed_since(t: &Instant) -> (r: Duration) {
    t.elapsed()
}

/// `Duration::as_millis`: the whole milliseconds of `d`. `Duration` is
/// opaque here, so nothing is claimed of the number.
#[verifier::external_body]
fn whole_millis(d: &Duration) -> (r: u128) {
    d.as_millis()
}

impl ToastNotification {
    /// A toast raised now, shown for four seconds.
    pub fn new(message: String, level: NotificationLevel) -> (r: ToastNotification)
        ensures
            r.message == message,
            r.level == level,
            r.duration_ms == TOAST_MILLIS,
    {
        ToastNotification { message, level, created_at: instant_now(), duration_ms: TOAST_MILLIS }
    }

    /// The toast has had its time once `elapsed_ms` milliseconds have passed
    /// since it was raised.
    pub open spec fn reached(self, elapsed_ms: int) -> bool {
        elapsed_ms >= self.duration_ms
    }

    /// Whether the toast has had its time once `elapsed_ms` milliseconds
    /// have passed since it was raised.
    pub fn expired_after(&self, elapsed_ms: u128) -> (r: bool)
        ensures
            r == self.reached(elapsed_ms as int),
    {
        elapsed_ms >= self.duration_ms as u128
    }

    /// Whether the toast has had its time by the monotonic clock: the
    /// answer of `expired_after` for the whole milliseconds the clock reports
    /// since the toast was raised, which nothing here can know in advance
    /// beyond their being a count from zero (so a toast of no duration has
    /// always had its time).
    pub fn is_expired(&self) -> (r: bool)
        ensures
            exists|ms: int| 0 <= ms && #[trigger] self.reached(ms) == r,
    {
        let d = elapsed_since(&self.created_at);
        let ms = whole_millis(&d);
        let r = self.expired_after(ms);
        proof {
            assert(self.reached(ms as int) == r);
        }
        r
    }
}

} // verus!
