//! Counters of the store's operations: how many vectors were upserted, how
//! many searches and deletes were made since the last report. The counters
//! are snapshotted and reset from time to time.
//!
//! A tracker is owned by the process and handed to the handlers by
//! reference; it is a plain value, and sharing it between tasks is the
//! owner's part.

use crate::text::push_decimal;
use std::time::Instant;
use vstd::prelude::*;
use vstd::string::*;

verus! {

/// The counters and the time since which the process runs.
#[derive(Debug, Clone)]
pub struct StatsTracker {
    pub upserts: u64,
    pub searches: u64,
    pub deletes: u64,
    pub start_time: Instant,
}

/// The counters at one moment.
#[derive(Debug, Clone)]
pub struct StatsSnapshot {
    pub upserts: u64,
    pub searches: u64,
    pub deletes: u64,
    pub uptime_seconds: u64,
}

/// A counter after `count` more events: counters wrap around at 2^64.
pub open spec fn counted(counter: u64, count: u64) -> u64 {
    if counter + count > u64::MAX {
        (counter + count - 0x1_0000_0000_0000_0000) as u64
    } else {
        (counter + count) as u64
    }
}

/// An uptime in words: days, hours and minutes, leaving out the days of an
/// uptime under a day and the hours of an uptime under an hour. Seconds are
/// not told.
pub open spec fn uptime_text(seconds: nat) -> Seq<char> {
    let days = seconds / 86400;
    let hours = (seconds % 86400) / 3600;
    let minutes = (seconds % 3600) / 60;
    if days > 0 {
        crate::text::decimal(days) + "d "@ + crate::text::decimal(hours) + "h "@
            + crate::text::decimal(minutes) + "m"@
    } else if hours > 0 {
        crate::text::decimal(hours) + "h "@ + crate::text::decimal(minutes) + "m"@
    } else {
        crate::text::decimal(minutes) + "m"@
    }
}

impl StatsTracker {
    /// A tracker that has counted nothing, started now.
    pub fn new() -> (tracker: StatsTracker)
        ensures
            tracker.upserts == 0,
            tracker.searches == 0,
            tracker.deletes == 0,
    {
        StatsTracker { upserts: 0, searches: 0, deletes: 0, start_time: Instant::now() }
    }

    /// Counts `count` upserted vectors.
    pub fn increment_upserts(&mut self, count: u64)
        ensures
            final(self).upserts == counted(old(self).upserts, count),
            final(self).searches == old(self).searches,
            final(self).deletes == old(self).deletes,
            final(self).start_time == old(self).start_time,
    {
        self.upserts = self.upserts.wrapping_add(count);
    }

    /// Counts one search.
    pub fn increment_searches(&mut self)
        ensures
            final(self).searches == counted(old(self).searches, 1),
            final(self).upserts == old(self).upserts,
            final(self).deletes == old(self).deletes,
            final(self).start_time == old(self).start_time,
    {
        self.searches = self.searches.wrapping_add(1);
    }

    /// Counts one delete.
    pub fn increment_deletes(&mut self)
        ensures
            final(self).deletes == counted(old(self).deletes, 1),
            final(self).upserts == old(self).upserts,
            final(self).searches == old(self).searches,
            final(self).start_time == old(self).start_time,
    {
        self.deletes = self.deletes.wrapping_add(1);
    }

    /// The counters as they stand, with the uptime as the clock tells it.
    pub fn get_snapshot(&self) -> (snapshot: StatsSnapshot)
        ensures
            snapshot.upserts == self.upserts,
            snapshot.searches == self.searches,
            snapshot.deletes == self.deletes,
    {
        let running = self.start_time.elapsed();
        StatsSnapshot {
            upserts: self.upserts,
            searches: self.searches,
            deletes: self.deletes,
            uptime_seconds: running.as_secs(),
        }
    }

    /// Sets the counters back to zero. The start time stays.
    pub fn reset(&mut self)
        ensures
            final(self).upserts == 0,
            final(self).searches == 0,
            final(self).deletes == 0,
            final(self).start_time == old(self).start_time,
    {
        self.upserts = 0;
        self.searches = 0;
        self.deletes = 0;
    }
}

impl Default for StatsTracker {
    fn default() -> (tracker: StatsTracker)
        ensures
            tracker.upserts == 0,
            tracker.searches == 0,
            tracker.deletes == 0,
    {
        StatsTracker::new()
    }
}

impl StatsSnapshot {
    /// The uptime in words, such as `1d 1h 1m`, `1h 1m` or `1m`.
    pub fn format_uptime(&self) -> (text: String)
        ensures
            text@ == uptime_text(self.uptime_seconds as nat),
    {
        let days = self.uptime_seconds / 86400;
        let hours = (self.uptime_seconds % 86400) / 3600;
        let minutes = (self.uptime_seconds % 3600) / 60;
        let mut text = String::new();
        if days > 0 {
            push_decimal(&mut text, days);
            text.append("d ");
        }
        if days > 0 || hours > 0 {
            push_decimal(&mut text, hours);
            text.append("h ");
        }
        push_decimal(&mut text, minutes);
        text.append("m");
        proof {
            assert(text@ =~= uptime_text(self.uptime_seconds as nat));
        }
        text
    }
}

} // verus!
