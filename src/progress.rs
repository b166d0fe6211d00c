//! Aggregate progress of one batch of transfers.
use vstd::prelude::*;
use crate::download_util::{capped, per_second, rate_per_second};

verus! {

/// A snapshot of a batch's progress, as handed to its observer.
pub struct MultiDownloadProgress {
    pub files_total: u64,
    pub files_downloaded: u64,
    /// Throughput over the window since the previous snapshot.
    pub bytes_per_second: u64,
}

/// Counters shared by the transfers of one batch. Every update is an
/// increment; a snapshot measures throughput over the window that began at
/// the previous snapshot.
pub struct ProgressAggregator {
    pub files_total: u64,
    pub files_done: u64,
    pub bytes_total: u64,
    pub bytes_done: u64,
    /// `bytes_done` when the current measurement window opened.
    pub window_bytes: u64,
    /// Clock reading, in milliseconds, when the current window opened.
    pub window_start_ms: u64,
}

/// `a + b` held in `u64`, with larger sums replaced by `u64::MAX`.
pub open spec fn sat_add(a: int, b: int) -> int {
    capped(a + b, u64::MAX as int)
}

impl ProgressAggregator {
    pub open spec fn wf(&self) -> bool {
        &&& self.files_done <= self.files_total
        &&& self.window_bytes <= self.bytes_done
    }

    /// Counters at zero, with a window opening at `now_ms`.
    pub fn new(now_ms: u64) -> (r: Self)
        ensures
            r.wf(),
            r.files_total == 0,
            r.files_done == 0,
            r.bytes_total == 0,
            r.bytes_done == 0,
            r.window_bytes == 0,
            r.window_start_ms == now_ms,
    {
        ProgressAggregator {
            files_total: 0,
            files_done: 0,
            bytes_total: 0,
            bytes_done: 0,
            window_bytes: 0,
            window_start_ms: now_ms,
        }
    }

    /// Registers `n` more files to transfer.
    pub fn add_files_total(&mut self, n: u64)
        requires
            old(self).wf(),
        ensures
            final(self).wf(),
            final(self).files_total == sat_add(old(self).files_total as int, n as int),
            final(self).files_done == old(self).files_done,
            final(self).bytes_total == old(self).bytes_total,
            final(self).bytes_done == old(self).bytes_done,
            final(self).window_bytes == old(self).window_bytes,
            final(self).window_start_ms == old(self).window_start_ms,
    {
        self.files_total = self.files_total.saturating_add(n);
    }

    /// Registers `n` more bytes to transfer.
    pub fn add_bytes_total(&mut self, n: u64)
        requires
            old(self).wf(),
        ensures
            final(self).wf(),
            final(self).bytes_total == sat_add(old(self).bytes_total as int, n as int),
            final(self).files_total == old(self).files_total,
            final(self).files_done == old(self).files_done,
            final(self).bytes_done == old(self).bytes_done,
            final(self).window_bytes == old(self).window_bytes,
            final(self).window_start_ms == old(self).window_start_ms,
    {
        self.bytes_total = self.bytes_total.saturating_add(n);
    }

    /// Counts one more finished file.
    pub fn mark_file_done(&mut self)
        requires
            old(self).wf(),
            old(self).files_done < old(self).files_total,
        ensures
            final(self).wf(),
            final(self).files_done == old(self).files_done + 1,
            final(self).files_total == old(self).files_total,
            final(self).bytes_total == old(self).bytes_total,
            final(self).bytes_done == old(self).bytes_done,
            final(self).window_bytes == old(self).window_bytes,
            final(self).window_start_ms == old(self).window_start_ms,
    {
        self.files_done = self.files_done + 1;
    }

    /// Counts `n` more transferred bytes.
    pub fn add_bytes_done(&mut self, n: u64)
        requires
            old(self).wf(),
        ensures
            final(self).wf(),
            final(self).bytes_done == sat_add(old(self).bytes_done as int, n as int),
            final(self).files_total == old(self).files_total,
            final(self).files_done == old(self).files_done,
            final(self).bytes_total == old(self).bytes_total,
            final(self).window_bytes == old(self).window_bytes,
            final(self).window_start_ms == old(self).window_start_ms,
    {
        self.bytes_done = self.bytes_done.saturating_add(n);
    }

    /// The current figures at clock reading `now_ms`. Throughput is the bytes
    /// counted since the window opened over the time since then; when time
    /// has passed, a new window opens now.
    pub fn snapshot(&mut self, now_ms: u64) -> (r: MultiDownloadProgress)
        requires
            old(self).wf(),
        ensures
            final(self).wf(),
            r.files_total == old(self).files_total,
            r.files_downloaded == old(self).files_done,
            r.bytes_per_second == (if now_ms > old(self).window_start_ms {
                capped(
                    per_second(
                        old(self).bytes_done - old(self).window_bytes,
                        now_ms - old(self).window_start_ms,
                    ),
                    u64::MAX as int,
                )
            } else {
                0
            }),
            final(self).files_total == old(self).files_total,
            final(self).files_done == old(self).files_done,
            final(self).bytes_total == old(self).bytes_total,
            final(self).bytes_done == old(self).bytes_done,
            now_ms > old(self).window_start_ms ==> final(self).window_bytes == old(self).bytes_done
                && final(self).window_start_ms == now_ms,
            now_ms <= old(self).window_start_ms ==> final(self).window_bytes == old(
                self,
            ).window_bytes && final(self).window_start_ms == old(self).window_start_ms,
    {
        let rate = if now_ms > self.window_start_ms {
            let r = rate_per_second(self.bytes_done - self.window_bytes, now_ms - self.window_start_ms);
            self.window_bytes = self.bytes_done;
            self.window_start_ms = now_ms;
            r
        } else {
            0
        };
        MultiDownloadProgress {
            files_total: self.files_total,
            files_downloaded: self.files_done,
            bytes_per_second: rate,
        }
    }
}

} // verus!
