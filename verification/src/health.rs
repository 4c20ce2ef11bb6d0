//! The cache health monitor: how full the cache is, when the user is warned,
//! and when the cache is cleared.
//!
//! The monitor is driven by a timer that is independent of rendering. On each
//! tick the caller lists the cache directory and hands the total here; what
//! comes back says whether to warn and whether to clear. A clear is always of
//! the whole cache, disk and memory.

use vstd::prelude::*;
use vstd::string::StringExecFns;
use crate::decimal::{decimal_text, push_decimal};

verus! {

/// The usage, in percent, at and above which a cache that is cleared "when
/// full" is cleared.
pub const FULL_PERCENT: u8 = 95;

/// Bytes in a mebibyte.
pub const BYTES_PER_MB: u64 = 1_048_576;

/// When the cache is cleared without being asked.
#[derive(Clone, Copy, Debug, PartialEq, Eq, Structural)]
pub enum EvictionPolicy {
    /// Never.
    Never,
    /// When usage reaches [`FULL_PERCENT`].
    WhenFull,
    /// Whenever this many seconds have passed since the last clear.
    Periodic(u64),
}

/// Why the monitor asks for a clear.
#[derive(Clone, Copy, Debug, PartialEq, Eq, Structural)]
pub enum ClearCause {
    /// The cache is full.
    Full,
    /// The interval of a periodic policy has passed.
    Scheduled,
}

/// What one tick of the monitor decided.
#[derive(Clone, Copy, Debug, PartialEq, Eq, Structural)]
pub struct HealthReport {
    /// How full the cache is, in percent of its configured maximum.
    pub usage_percent: u8,
    /// Whether to show the user a warning now.
    pub warn: bool,
    /// Whether to clear the whole cache now, and why.
    pub clear: Option<ClearCause>,
}

/// How full the cache is: `total_bytes` as a percentage of `max_mb`
/// mebibytes, rounded down and capped at 255. A cache with no room at all is
/// as full as can be as soon as it holds anything.
pub open spec fn usage_percent_of(total_bytes: nat, max_mb: nat) -> nat {
    let max_bytes = max_mb * 1_048_576;
    if max_bytes == 0 {
        if total_bytes == 0 {
            0
        } else {
            255
        }
    } else if total_bytes * 100 / max_bytes > 255 {
        255
    } else {
        total_bytes * 100 / max_bytes
    }
}

/// Whether a tick at this usage emits a warning: only on the way up.
pub open spec fn warns(warning_active: bool, usage: nat, threshold: nat) -> bool {
    usage >= threshold && !warning_active
}

/// Whether the warning is active after a tick at this usage: it stays active
/// for as long as usage stays at or above the threshold, and only then.
pub open spec fn active_after(usage: nat, threshold: nat) -> bool {
    usage >= threshold
}

/// Whether a tick clears the cache, and why.
pub open spec fn clear_decision(policy: EvictionPolicy, usage: nat, secs_since_clear: nat) -> Option<
    ClearCause,
> {
    match policy {
        EvictionPolicy::Never => None,
        EvictionPolicy::WhenFull => if usage >= 95 {
            Some(ClearCause::Full)
        } else {
            None
        },
        EvictionPolicy::Periodic(every) => if secs_since_clear >= every {
            Some(ClearCause::Scheduled)
        } else {
            None
        },
    }
}

/// The number of warnings that a run of ticks emits, given the usage seen at
/// each tick.
pub open spec fn warnings_emitted(warning_active: bool, usages: Seq<nat>, threshold: nat) -> nat
    decreases usages.len(),
{
    if usages.len() == 0 {
        0
    } else {
        let now = if warns(warning_active, usages.first(), threshold) {
            1nat
        } else {
            0nat
        };
        now + warnings_emitted(
            active_after(usages.first(), threshold),
            usages.drop_first(),
            threshold,
        )
    }
}

/// The number of times usage comes up to the threshold from below over a run
/// of ticks, where `above_before` says on which side it was before the run.
pub open spec fn upward_crossings(above_before: bool, usages: Seq<nat>, threshold: nat) -> nat
    decreases usages.len(),
{
    if usages.len() == 0 {
        0
    } else {
        let now = if !above_before && usages.first() >= threshold {
            1nat
        } else {
            0nat
        };
        now + upward_crossings(usages.first() >= threshold, usages.drop_first(), threshold)
    }
}

/// Warnings are edge-triggered: over any run of ticks there are exactly as
/// many warnings as upward crossings of the threshold, however long usage
/// stays above it in between.
pub proof fn lemma_warnings_are_edge_triggered(
    warning_active: bool,
    usages: Seq<nat>,
    threshold: nat,
)
    ensures
        warnings_emitted(warning_active, usages, threshold) == upward_crossings(
            warning_active,
            usages,
            threshold,
        ),
    decreases usages.len(),
{
    if usages.len() > 0 {
        lemma_warnings_are_edge_triggered(
            active_after(usages.first(), threshold),
            usages.drop_first(),
            threshold,
        );
    }
}

/// Up, down and up again makes two warnings, and a tick that finds usage
/// still above the threshold makes none.
pub proof fn lemma_up_down_up_warns_twice(high1: nat, high2: nat, low: nat, high3: nat, threshold: nat)
    requires
        high1 >= threshold,
        high2 >= threshold,
        low < threshold,
        high3 >= threshold,
    ensures
        warnings_emitted(false, seq![high1, high2, low, high3], threshold) == 2,
{
    let s0 = seq![high1, high2, low, high3];
    let s1 = seq![high2, low, high3];
    let s2 = seq![low, high3];
    let s3 = seq![high3];
    assert(s0.drop_first() == s1);
    assert(s1.drop_first() == s2);
    assert(s2.drop_first() == s3);
    assert(s3.drop_first().len() == 0);
    assert(warnings_emitted(active_after(high3, threshold), s3.drop_first(), threshold) == 0);
    assert(warnings_emitted(false, s3, threshold) == 1);
    assert(warnings_emitted(true, s2, threshold) == 1);
    assert(warnings_emitted(true, s1, threshold) == 1);
}

/// How full the cache is, in percent.
pub fn usage_percent(total_bytes: u64, max_cache_size_mb: usize) -> (percent: u8)
    ensures
        percent == usage_percent_of(total_bytes as nat, max_cache_size_mb as nat),
{
    let max_bytes: u128 = (max_cache_size_mb as u128) * 1_048_576;
    if max_bytes == 0 {
        if total_bytes == 0 {
            0
        } else {
            255
        }
    } else {
        let scaled: u128 = (total_bytes as u128) * 100;
        let percent: u128 = scaled / max_bytes;
        if percent > 255 {
            255
        } else {
            percent as u8
        }
    }
}

/// The whole seconds that have passed at `now_secs` since `last_clear_secs`,
/// both read off one clock; none where the clock reads less than it did
/// then.
pub open spec fn secs_since(last_clear_secs: nat, now_secs: nat) -> nat {
    if now_secs >= last_clear_secs {
        (now_secs - last_clear_secs) as nat
    } else {
        0
    }
}

/// When the interval of a periodic policy begins after a tick at `now_secs`
/// that decided `clear`: at the tick where it was a scheduled clear, and
/// where it began before otherwise.
pub open spec fn interval_start_after(
    last_clear_secs: nat,
    now_secs: nat,
    clear: Option<ClearCause>,
) -> nat {
    if clear == Some(ClearCause::Scheduled) {
        now_secs
    } else {
        last_clear_secs
    }
}

/// The monitor's memory between ticks: whether a warning is in force, and
/// when the interval of a periodic policy began.
///
/// Time is handed in as whole seconds on a clock of the caller's that reads
/// zero when the monitor is made and never goes back.
#[derive(Clone, Copy, Debug)]
pub struct CacheHealthMonitor {
    warning_active: bool,
    last_clear_secs: u64,
}

impl CacheHealthMonitor {
    /// Whether a warning is in force: usage was at or above the threshold at
    /// the last tick.
    pub closed spec fn warning_active(&self) -> bool {
        self.warning_active
    }

    /// The reading of the clock at which the interval of a periodic policy
    /// began: at the last scheduled clear, or at zero before the first.
    pub closed spec fn last_clear(&self) -> nat {
        self.last_clear_secs as nat
    }

    /// A monitor that has not warned yet, and whose interval begins now.
    pub fn new() -> (monitor: CacheHealthMonitor)
        ensures
            !monitor.warning_active(),
            monitor.last_clear() == 0,
    {
        CacheHealthMonitor { warning_active: false, last_clear_secs: 0 }
    }

    /// The reading of the clock at which the interval began.
    pub fn last_clear_secs(&self) -> (secs: u64)
        ensures
            secs == self.last_clear(),
    {
        self.last_clear_secs
    }

    /// Whether a warning is in force.
    pub fn is_warning_active(&self) -> (active: bool)
        ensures
            active == self.warning_active(),
    {
        self.warning_active
    }

    /// One tick on usage alone: computes the usage, warns on the way up, and
    /// asks for a clear of a full cache where the policy says so.
    pub fn check_cache_health(
        &mut self,
        total_bytes: u64,
        max_cache_size_mb: usize,
        warn_threshold_percent: u8,
        policy: EvictionPolicy,
    ) -> (report: HealthReport)
        ensures
            report.usage_percent == usage_percent_of(total_bytes as nat, max_cache_size_mb as nat),
            report.warn == warns(
                old(self).warning_active(),
                report.usage_percent as nat,
                warn_threshold_percent as nat,
            ),
            report.clear == if policy == EvictionPolicy::WhenFull {
                clear_decision(policy, report.usage_percent as nat, 0)
            } else {
                None
            },
            final(self).warning_active() == active_after(
                report.usage_percent as nat,
                warn_threshold_percent as nat,
            ),
            final(self).last_clear() == old(self).last_clear(),
    {
        let usage = usage_percent(total_bytes, max_cache_size_mb);
        let above = usage >= warn_threshold_percent;
        let warn = above && !self.warning_active;
        self.warning_active = above;
        let clear = match policy {
            EvictionPolicy::WhenFull => if usage >= FULL_PERCENT {
                Some(ClearCause::Full)
            } else {
                None
            },
            _ => None,
        };
        HealthReport { usage_percent: usage, warn, clear }
    }

    /// Whether a periodic policy is due: its interval has passed since the
    /// last clear.
    pub fn check_scheduled_cache_clear(policy: EvictionPolicy, secs_since_clear: u64) -> (due: bool)
        ensures
            due == (clear_decision(policy, 0, secs_since_clear as nat) == Some(
                ClearCause::Scheduled,
            )),
    {
        match policy {
            EvictionPolicy::Periodic(every) => secs_since_clear >= every,
            _ => false,
        }
    }

    /// One tick on time alone, at `now_secs` on the clock: says whether a
    /// periodic policy is due, and where it is, the interval begins anew at
    /// this tick. Nothing else changes.
    pub fn scheduled_clear(&mut self, policy: EvictionPolicy, now_secs: u64) -> (due: bool)
        ensures
            due == (clear_decision(policy, 0, secs_since(old(self).last_clear(), now_secs as nat))
                == Some(ClearCause::Scheduled)),
            final(self).last_clear() == if due {
                now_secs as nat
            } else {
                old(self).last_clear()
            },
            final(self).warning_active() == old(self).warning_active(),
            !due ==> *final(self) == *old(self),
    {
        let elapsed: u64 = if now_secs >= self.last_clear_secs {
            now_secs - self.last_clear_secs
        } else {
            0
        };
        if Self::check_scheduled_cache_clear(policy, elapsed) {
            self.last_clear_secs = now_secs;
            true
        } else {
            false
        }
    }

    /// One whole tick at `now_secs` on the clock: usage, warning and clear
    /// decision together. After a scheduled clear the interval begins anew
    /// at this tick.
    pub fn tick(
        &mut self,
        total_bytes: u64,
        max_cache_size_mb: usize,
        warn_threshold_percent: u8,
        policy: EvictionPolicy,
        now_secs: u64,
    ) -> (report: HealthReport)
        ensures
            report.usage_percent == usage_percent_of(total_bytes as nat, max_cache_size_mb as nat),
            report.warn == warns(
                old(self).warning_active(),
                report.usage_percent as nat,
                warn_threshold_percent as nat,
            ),
            report.clear == clear_decision(
                policy,
                report.usage_percent as nat,
                secs_since(old(self).last_clear(), now_secs as nat),
            ),
            final(self).warning_active() == active_after(
                report.usage_percent as nat,
                warn_threshold_percent as nat,
            ),
            final(self).last_clear() == interval_start_after(
                old(self).last_clear(),
                now_secs as nat,
                report.clear,
            ),
    {
        let report = self.check_cache_health(
            total_bytes,
            max_cache_size_mb,
            warn_threshold_percent,
            policy,
        );
        if self.scheduled_clear(policy, now_secs) {
            HealthReport { clear: Some(ClearCause::Scheduled), ..report }
        } else {
            report
        }
    }
}

/// After a scheduled clear at `now_secs` the next one is due exactly when
/// the whole interval has passed again, counted from that clear.
pub proof fn lemma_scheduled_clear_restarts_the_interval(
    last_clear_secs: nat,
    every: u64,
    now_secs: nat,
    later_secs: nat,
)
    requires
        now_secs <= later_secs,
        clear_decision(EvictionPolicy::Periodic(every), 0, secs_since(last_clear_secs, now_secs))
            == Some(ClearCause::Scheduled),
    ensures
        (clear_decision(
            EvictionPolicy::Periodic(every),
            0,
            secs_since(
                interval_start_after(last_clear_secs, now_secs, Some(ClearCause::Scheduled)),
                later_secs,
            ),
        ) == Some(ClearCause::Scheduled)) <==> later_secs >= now_secs + every,
{
}

/// The warning shown when the cache fills up.
pub open spec fn warning_text(usage_percent: nat, used_mb: nat, max_mb: nat) -> Seq<char> {
    "Cache is "@ + decimal_text(usage_percent) + "% full ("@ + decimal_text(used_mb) + "/"@
        + decimal_text(max_mb) + "MB). Consider clearing cache in settings."@
}

/// The notice shown when a clear begins.
pub open spec fn clear_text(cause: ClearCause) -> Seq<char> {
    match cause {
        ClearCause::Full => "Cache full, auto-clearing..."@,
        ClearCause::Scheduled => "Scheduled cache clear..."@,
    }
}

/// The warning shown when the cache fills up: how full it is, and how many
/// whole mebibytes of how many it holds.
pub fn warning_message(usage_percent: u8, total_bytes: u64, max_cache_size_mb: usize) -> (text: String)
    ensures
        text@ == warning_text(
            usage_percent as nat,
            (total_bytes / BYTES_PER_MB) as nat,
            max_cache_size_mb as nat,
        ),
{
    let mut text = "Cache is ".to_owned();
    push_decimal(&mut text, usage_percent as u64);
    text.append("% full (");
    push_decimal(&mut text, total_bytes / BYTES_PER_MB);
    text.append("/");
    push_decimal(&mut text, max_cache_size_mb as u64);
    text.append("MB). Consider clearing cache in settings.");
    text
}

/// The notice shown when a clear begins.
pub fn clear_message(cause: ClearCause) -> (text: &'static str)
    ensures
        text@ == clear_text(cause),
{
    match cause {
        ClearCause::Full => "Cache full, auto-clearing...",
        ClearCause::Scheduled => "Scheduled cache clear...",
    }
}

} // verus!
