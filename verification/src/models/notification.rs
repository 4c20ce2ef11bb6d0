//! Notifications: short messages shown on top of the screen for a while.

use vstd::prelude::*;
use crate::clock::{elapsed, now, whole_millis};

verus! {

/// For how long a notification is shown unless it says otherwise, in
/// milliseconds.
pub const DEFAULT_DURATION_MS: u64 = 3_000;

/// What a notification is about.
#[derive(Debug, Clone, Copy, PartialEq, Eq, Structural)]
pub enum NotificationKind {
    Info,
    Success,
    Warning,
    Error,
}

/// A message shown to the user until its time is up.
#[derive(Debug, Clone)]
pub struct Notification {
    pub message: String,
    pub created_at: std::time::Instant,
    pub duration_ms: u64,
    pub kind: NotificationKind,
}

/// Whether a notification shown for `duration_ms` milliseconds is over once
/// `elapsed_ms` whole milliseconds have passed.
pub open spec fn is_over(duration_ms: nat, elapsed_ms: nat) -> bool {
    elapsed_ms >= duration_ms
}

/// How much of its time a notification has left, in thousandths: all of it
/// at the start, none of it from the end on.
pub open spec fn permille_left(duration_ms: nat, elapsed_ms: nat) -> nat {
    if elapsed_ms >= duration_ms {
        0
    } else {
        (1000 - elapsed_ms * 1000 / duration_ms) as nat
    }
}

impl Notification {
    /// A notification made now, to be shown for the default time.
    pub fn new(message: &str, kind: NotificationKind) -> (notification: Notification)
        ensures
            notification.message@ == message@,
            notification.kind == kind,
            notification.duration_ms == DEFAULT_DURATION_MS,
    {
        Notification {
            message: message.to_owned(),
            created_at: now(),
            duration_ms: DEFAULT_DURATION_MS,
            kind,
        }
    }

    /// A notification that informs.
    pub fn info(message: &str) -> (notification: Notification)
        ensures
            notification.message@ == message@,
            notification.kind == NotificationKind::Info,
            notification.duration_ms == DEFAULT_DURATION_MS,
    {
        Self::new(message, NotificationKind::Info)
    }

    /// A notification of a success.
    pub fn success(message: &str) -> (notification: Notification)
        ensures
            notification.message@ == message@,
            notification.kind == NotificationKind::Success,
            notification.duration_ms == DEFAULT_DURATION_MS,
    {
        Self::new(message, NotificationKind::Success)
    }

    /// A notification that warns.
    pub fn warning(message: &str) -> (notification: Notification)
        ensures
            notification.message@ == message@,
            notification.kind == NotificationKind::Warning,
            notification.duration_ms == DEFAULT_DURATION_MS,
    {
        Self::new(message, NotificationKind::Warning)
    }

    /// A notification of an error.
    pub fn error(message: &str) -> (notification: Notification)
        ensures
            notification.message@ == message@,
            notification.kind == NotificationKind::Error,
            notification.duration_ms == DEFAULT_DURATION_MS,
    {
        Self::new(message, NotificationKind::Error)
    }

    /// The notification, to be shown for `duration_ms` milliseconds from
    /// when it was made.
    pub fn with_duration(self, duration_ms: u64) -> (notification: Notification)
        ensures
            notification.duration_ms == duration_ms,
            notification.message == self.message,
            notification.kind == self.kind,
            notification.created_at == self.created_at,
    {
        Notification {
            message: self.message,
            created_at: self.created_at,
            duration_ms,
            kind: self.kind,
        }
    }

    /// Whether the notification's time is up once `elapsed_ms` whole
    /// milliseconds have passed since it was made.
    pub fn expired_after(&self, elapsed_ms: u128) -> (over: bool)
        ensures
            over == is_over(self.duration_ms as nat, elapsed_ms as nat),
    {
        elapsed_ms >= self.duration_ms as u128
    }

    /// Whether the notification's time is up, by the clock. A notification
    /// that is shown for no time at all is always over.
    pub fn is_expired(&self) -> (over: bool)
        ensures
            self.duration_ms == 0 ==> over,
    {
        let span = elapsed(&self.created_at);
        self.expired_after(whole_millis(&span))
    }

    /// How much of its time the notification has left once `elapsed_ms`
    /// whole milliseconds have passed, in thousandths.
    pub fn remaining_permille(&self, elapsed_ms: u128) -> (left: u16)
        ensures
            left == permille_left(self.duration_ms as nat, elapsed_ms as nat),
            left <= 1000,
    {
        if elapsed_ms >= self.duration_ms as u128 {
            0
        } else {
            let total = self.duration_ms as u128;
            let gone: u128 = elapsed_ms * 1000 / total;
            assert(gone < 1000) by (nonlinear_arith)
                requires
                    gone == (elapsed_ms * 1000) as int / total as int,
                    elapsed_ms < total,
                    total > 0,
            ;
            (1000 - gone) as u16
        }
    }
}

} // verus!
