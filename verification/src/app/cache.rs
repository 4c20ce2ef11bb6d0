//! The cache health monitor at work in the client: what the user is told and
//! what is forgotten on each tick.

use vstd::prelude::*;
use crate::app::model::App;
use crate::config::policy_of;
use crate::disk_cache::clear::{names_view, removed_names, ClearScope};
use crate::disk_cache::listing::{listing_view, FileEntry};
use crate::health::{
    active_after, clear_decision, clear_message, clear_text, secs_since, usage_percent_of,
    warning_message, warning_text, warns, ClearCause, HealthReport,
};
use crate::models::notification::NotificationKind;
use crate::models::Notification;

verus! {

/// The notifications that a tick adds: a warning where it warns, and then a
/// notice where it clears.
pub open spec fn tick_notices(report: HealthReport, total_bytes: nat, max_mb: nat) -> Seq<
    (NotificationKind, Seq<char>),
> {
    let warning = if report.warn {
        seq![
            (
                NotificationKind::Warning,
                warning_text(report.usage_percent as nat, total_bytes / 1_048_576, max_mb),
            ),
        ]
    } else {
        Seq::empty()
    };
    let notice = match report.clear {
        Some(cause) => seq![(NotificationKind::Info, clear_text(cause))],
        None => Seq::empty(),
    };
    warning + notice
}

/// What a run of notifications says: the kind and the text of each.
pub open spec fn notices(notifications: Seq<Notification>) -> Seq<(NotificationKind, Seq<char>)> {
    notifications.map_values(|n: Notification| (n.kind, n.message@))
}

impl App {
    /// One tick of the cache health monitor on usage, on the statistics last
    /// taken. Without statistics nothing happens. Otherwise the user is
    /// warned on the way up, and a full cache that is cleared when full is
    /// forgotten from memory; the caller deletes the files.
    pub fn check_cache_health(&mut self) -> (report: Option<HealthReport>)
        requires
            old(self).wf(),
        ensures
            final(self).wf(),
            match old(self).cache_stats {
                None => report is None && *final(self) == *old(self),
                Some(stats) => {
                    let images = old(self).config.images;
                    let total = stats.total_size_bytes as nat;
                    let max_mb = images.max_cache_size_mb as nat;
                    let threshold = images.cache_warn_threshold_percent as nat;
                    &&& report matches Some(r)
                    &&& r.usage_percent == usage_percent_of(total, max_mb)
                    &&& r.warn == warns(
                        old(self).monitor.warning_active(),
                        r.usage_percent as nat,
                        threshold,
                    )
                    &&& r.clear == if images.cache_auto_clear == crate::config::CacheAutoClear::WhenFull {
                        clear_decision(policy_of(images.cache_auto_clear), r.usage_percent as nat, 0)
                    } else {
                        None
                    }
                    &&& final(self).monitor.warning_active() == active_after(
                        r.usage_percent as nat,
                        threshold,
                    )
                    &&& final(self).monitor.last_clear() == old(self).monitor.last_clear()
                    &&& notices(final(self).notifications@) == notices(old(self).notifications@)
                        + tick_notices(r, total, max_mb)
                    &&& final(self).image_renderer.avatars() == if r.clear is Some {
                        old(self).image_renderer.avatars().forgotten()
                    } else {
                        old(self).image_renderer.avatars()
                    }
                    &&& final(self).image_renderer.attachments() == if r.clear is Some {
                        old(self).image_renderer.attachments().forgotten()
                    } else {
                        old(self).image_renderer.attachments()
                    }
                    &&& *final(self) == (App {
                        notifications: final(self).notifications,
                        image_renderer: final(self).image_renderer,
                        monitor: final(self).monitor,
                        ..*old(self)
                    })
                },
            },
    {
        let (total_bytes, max_mb, threshold, policy) = match &self.cache_stats {
            Some(stats) => (
                stats.total_size_bytes,
                self.config.images.max_cache_size_mb,
                self.config.images.cache_warn_threshold_percent,
                self.config.images.cache_auto_clear.policy(),
            ),
            None => {
                return None;
            },
        };
        let report = self.monitor.check_cache_health(total_bytes, max_mb, threshold, policy);
        let ghost before = self.notifications@;
        if report.warn {
            let text = warning_message(report.usage_percent, total_bytes, max_mb);
            let note = Notification::warning(text.as_str());
            self.notifications.push(note);
            assert(notices(self.notifications@) == notices(before).push(
                (NotificationKind::Warning, text@),
            ));
        }
        let ghost warned = self.notifications@;
        match report.clear {
            Some(cause) => {
                let note = Notification::info(clear_message(cause));
                self.notifications.push(note);
                assert(notices(self.notifications@) == notices(warned).push(
                    (NotificationKind::Info, clear_text(cause)),
                ));
                self.image_renderer.clear_memory_cache();
            },
            None => {},
        }
        assert(notices(self.notifications@) == notices(before) + tick_notices(
            report,
            total_bytes as nat,
            max_mb as nat,
        ));
        Some(report)
    }

    /// What is deleted when the client is left: the whole cache where the
    /// settings say so, and nothing otherwise. What is deleted is forgotten
    /// from memory too.
    pub fn clear_on_exit(&mut self, entries: &Vec<FileEntry>) -> (names: Vec<String>)
        requires
            old(self).wf(),
        ensures
            final(self).wf(),
            if old(self).config.images.cache_clear_on_exit {
                &&& names_view(names@) == removed_names(ClearScope::All, listing_view(entries@))
                &&& final(self).image_renderer.avatars() == old(
                    self,
                ).image_renderer.avatars().forgotten()
                &&& final(self).image_renderer.attachments() == old(
                    self,
                ).image_renderer.attachments().forgotten()
                &&& *final(self) == (App { image_renderer: final(self).image_renderer, ..*old(self) })
            } else {
                names@.len() == 0 && *final(self) == *old(self)
            },
    {
        if self.config.images.cache_clear_on_exit {
            self.image_renderer.clear_cache(entries)
        } else {
            Vec::new()
        }
    }

    /// One tick of the cache health monitor on time, at `now_secs` on the
    /// monitor's clock: where the setting is periodic and its interval has
    /// passed since the last scheduled clear, memory is forgotten, the user
    /// is told and the interval begins anew at this tick. Says whether the
    /// caller is to delete the files.
    pub fn check_scheduled_cache_clear(&mut self, now_secs: u64) -> (due: bool)
        requires
            old(self).wf(),
        ensures
            final(self).wf(),
            due == (clear_decision(
                policy_of(old(self).config.images.cache_auto_clear),
                0,
                secs_since(old(self).monitor.last_clear(), now_secs as nat),
            ) == Some(ClearCause::Scheduled)),
            !due ==> *final(self) == *old(self),
            due ==> {
                &&& final(self).monitor.last_clear() == now_secs
                &&& final(self).monitor.warning_active() == old(self).monitor.warning_active()
                &&& notices(final(self).notifications@) == notices(old(self).notifications@).push(
                    (NotificationKind::Info, clear_text(ClearCause::Scheduled)),
                )
                &&& final(self).image_renderer.avatars() == old(
                    self,
                ).image_renderer.avatars().forgotten()
                &&& final(self).image_renderer.attachments() == old(
                    self,
                ).image_renderer.attachments().forgotten()
                &&& *final(self) == (App {
                    notifications: final(self).notifications,
                    image_renderer: final(self).image_renderer,
                    monitor: final(self).monitor,
                    ..*old(self)
                })
            },
    {
        let policy = self.config.images.cache_auto_clear.policy();
        if !self.monitor.scheduled_clear(policy, now_secs) {
            return false;
        }
        let ghost before = self.notifications@;
        let note = Notification::info(clear_message(ClearCause::Scheduled));
        self.notifications.push(note);
        assert(notices(self.notifications@) == notices(before).push(
            (NotificationKind::Info, clear_text(ClearCause::Scheduled)),
        ));
        self.image_renderer.clear_memory_cache();
        true
    }
}

} // verus!
