//! Frame timing history and health diagnostics of the triple buffer.

use std::time::Instant;
use vstd::prelude::*;

use super::constants::DEBUG_HISTORY_SIZE;
use crate::clock::{elapsed_micros, now};
use crate::binary64::{
    binary64_text, counter_percentage, counter_percentage_exceeds, counter_percentage_parts,
    counter_quotient, counter_quotient_parts, lemma_zero_value, push_counter_percentage, push_counter_quotient, value_den,
    value_num,
};
use crate::text::{decimal, push_char, push_decimal, Ratio};

verus! {

/// Timing record of one frame.
#[derive(Debug, Clone, Copy, PartialEq, Eq, Structural)]
pub struct FrameTiming {
    /// Frame number.
    pub frame: u64,
    /// Slot written by the CPU.
    pub write_slot: usize,
    /// Slot read by the GPU.
    pub gpu_read_slot: usize,
    /// Time spent waiting for a fence, in microseconds.
    pub fence_wait_us: u64,
    /// Time spent writing, in microseconds.
    pub write_time_us: u64,
    /// Instances written.
    pub instance_count: u32,
    /// Whether the buffer was reallocated.
    pub reallocated: bool,
}

impl FrameTiming {
    /// The all-zero record.
    pub open spec fn zero() -> FrameTiming {
        FrameTiming {
            frame: 0,
            write_slot: 0,
            gpu_read_slot: 0,
            fence_wait_us: 0,
            write_time_us: 0,
            instance_count: 0,
            reallocated: false,
        }
    }
}

impl Default for FrameTiming {
    fn default() -> (timing: Self)
        ensures
            timing == FrameTiming::zero(),
    {
        FrameTiming {
            frame: 0,
            write_slot: 0,
            gpu_read_slot: 0,
            fence_wait_us: 0,
            write_time_us: 0,
            instance_count: 0,
            reallocated: false,
        }
    }
}

/// Sum of the fence waits of `h`.
pub open spec fn total_fence_wait(h: Seq<FrameTiming>) -> nat
    decreases h.len(),
{
    if h.len() == 0 {
        0
    } else {
        total_fence_wait(h.drop_last()) + h.last().fence_wait_us as nat
    }
}

/// Sum of the write times of `h`.
pub open spec fn total_write_time(h: Seq<FrameTiming>) -> nat
    decreases h.len(),
{
    if h.len() == 0 {
        0
    } else {
        total_write_time(h.drop_last()) + h.last().write_time_us as nat
    }
}

/// Number of frames of `h` that waited on a fence.
pub open spec fn waiting_frames(h: Seq<FrameTiming>) -> nat
    decreases h.len(),
{
    if h.len() == 0 {
        0
    } else {
        waiting_frames(h.drop_last()) + if h.last().fence_wait_us > 0 {
            1nat
        } else {
            0nat
        }
    }
}

/// Number of frames of `h` that reallocated.
pub open spec fn reallocating_frames(h: Seq<FrameTiming>) -> nat
    decreases h.len(),
{
    if h.len() == 0 {
        0
    } else {
        reallocating_frames(h.drop_last()) + if h.last().reallocated {
            1nat
        } else {
            0nat
        }
    }
}


/// Debug statistics of a triple buffer: a ring of the last
/// [`DEBUG_HISTORY_SIZE`] frame timings plus running counters.
#[derive(Debug, Clone)]
pub struct DebugStats {
    /// Whether tracking is on; every recording call is a no-op when off.
    pub enabled: bool,
    /// Stored timings: a ring of at most [`DEBUG_HISTORY_SIZE`] entries.
    pub frame_history: Vec<FrameTiming>,
    /// Position in the ring where the next timing is stored.
    pub history_index: usize,
    /// Frames whose fence wait was non-zero.
    pub total_fence_waits: u64,
    /// Longest fence wait observed, in microseconds.
    pub max_fence_wait_us: u64,
    /// Reallocations recorded.
    pub total_reallocations: u32,
    /// When tracking started.
    pub start_time: Option<Instant>,
    /// When the last frame was stored.
    pub last_frame_time: Option<Instant>,
    /// The frame being recorded.
    pub current_frame: FrameTiming,
    /// When the frame being recorded started.
    pub current_frame_start: Option<Instant>,
}

impl Default for DebugStats {
    fn default() -> (stats: Self)
        ensures
            stats.wf(),
            !stats.enabled,
            stats.history().len() == 0,
            stats.counters_zero(),
    {
        DebugStats::new()
    }
}

/// The text of [`DebugStats::summary`] for a tracker with data.
pub open spec fn summary_text(s: DebugStats) -> Seq<char> {
    let h = s.history();
    "Triple Buffer Debug Stats:\n- Frames tracked: "@ + decimal(h.len()) + "\n- Avg fence wait: "@
        + binary64_text(counter_quotient(total_fence_wait(h), h.len()), 1) + "µs (max: "@
        + decimal(s.max_fence_wait_us as nat) + "µs)\n- Fence wait rate: "@ + binary64_text(
        counter_percentage(waiting_frames(h), h.len()),
        1,
    ) + "%\n- Avg write time: "@ + binary64_text(counter_quotient(total_write_time(h), h.len()), 1)
        + "µs\n- Total reallocations: "@ + decimal(s.total_reallocations as nat)
        + "\n- Total fence waits: "@ + decimal(s.total_fence_waits as nat)
}

/// The text of [`DebugStats::status_line`] for an enabled tracker.
pub open spec fn status_text(s: DebugStats) -> Seq<char> {
    let h = s.history();
    let n: nat = if h.len() == 0 {
        1
    } else {
        h.len()
    };
    "TB: fence="@ + binary64_text(counter_quotient(total_fence_wait(h), n), 0) + "µs/"@
        + binary64_text(counter_percentage(waiting_frames(h), n), 1) + "% realloc="@ + decimal(s.total_reallocations as nat) + " frames="@ + decimal(h.len())
}

/// Whether the value of the binary64 number `d` exceeds `limit`.
pub open spec fn exceeds(d: (nat, int), limit: nat) -> bool {
    value_num(d) > limit * value_den(d)
}

/// Whether the fence wait rate is above five percent.
pub open spec fn high_wait_rate(s: DebugStats) -> bool {
    exceeds(counter_percentage(waiting_frames(s.history()), s.history().len()), 5)
}

/// Whether some fence wait exceeded one millisecond.
pub open spec fn high_max_wait(s: DebugStats) -> bool {
    s.max_fence_wait_us > 1000
}

/// Whether more than ten frames are tracked and over ten percent reallocated.
pub open spec fn high_realloc_rate(s: DebugStats) -> bool {
    s.history().len() > 10 && exceeds(
        counter_percentage(reallocating_frames(s.history()), s.history().len()),
        10,
    )
}

/// Issue line for a high fence wait rate.
pub open spec fn wait_rate_issue(s: DebugStats) -> Seq<char> {
    "High fence wait rate: "@ + binary64_text(
        counter_percentage(waiting_frames(s.history()), s.history().len()),
        1,
    ) + "% (expected <5%)"@
}

/// Issue line for a long fence wait.
pub open spec fn max_wait_issue(s: DebugStats) -> Seq<char> {
    "High max fence wait: "@ + decimal(s.max_fence_wait_us as nat) + "µs (>1ms indicates stalls)"@
}

/// Issue line for a high reallocation rate.
pub open spec fn realloc_rate_issue(s: DebugStats) -> Seq<char> {
    "High reallocation rate: "@ + binary64_text(
        counter_percentage(reallocating_frames(s.history()), s.history().len()),
        1,
    ) + "% (consider larger growth factor)"@
}

/// `text` appended to `acc` as a new line (no separator before the first).
pub open spec fn add_line(acc: Seq<char>, text: Seq<char>) -> Seq<char> {
    if acc.len() == 0 {
        text
    } else {
        acc + seq!['\n'] + text
    }
}

/// The issues found by [`DebugStats::health_check`], one per line.
pub open spec fn health_issues(s: DebugStats) -> Seq<char> {
    let a: Seq<char> = if high_wait_rate(s) {
        wait_rate_issue(s)
    } else {
        Seq::empty()
    };
    let b = if high_max_wait(s) {
        add_line(a, max_wait_issue(s))
    } else {
        a
    };
    if high_realloc_rate(s) {
        add_line(b, realloc_rate_issue(s))
    } else {
        b
    }
}

/// Whether any health issue is present.
pub open spec fn has_health_issue(s: DebugStats) -> bool {
    high_wait_rate(s) || high_max_wait(s) || high_realloc_rate(s)
}

/// The history after recording `timing` in a ring of
/// [`DEBUG_HISTORY_SIZE`] slots whose next write position is `index`.
pub open spec fn ring_record(history: Seq<FrameTiming>, index: nat, timing: FrameTiming) -> Seq<
    FrameTiming,
> {
    if history.len() < DEBUG_HISTORY_SIZE {
        history.push(timing)
    } else {
        history.update(index as int, timing)
    }
}

/// The ring in recording order, oldest first.
pub open spec fn chronological(history: Seq<FrameTiming>, index: nat) -> Seq<FrameTiming> {
    history.subrange(index as int, history.len() as int) + history.subrange(0, index as int)
}

/// The last `DEBUG_HISTORY_SIZE` entries of `s` (all of them if fewer).
pub open spec fn last_window(s: Seq<FrameTiming>) -> Seq<FrameTiming> {
    if s.len() <= DEBUG_HISTORY_SIZE {
        s
    } else {
        s.subrange(s.len() - DEBUG_HISTORY_SIZE, s.len() as int)
    }
}

impl DebugStats {
    /// Ring buffer shape: at most [`DEBUG_HISTORY_SIZE`] entries, the write
    /// position inside the ring and at the end until the ring is full.
    pub open spec fn wf(&self) -> bool {
        &&& self.frame_history@.len() <= DEBUG_HISTORY_SIZE
        &&& self.history_index < DEBUG_HISTORY_SIZE
        &&& self.frame_history@.len() < DEBUG_HISTORY_SIZE ==> self.history_index
            == self.frame_history@.len()
    }

    /// Recorded timings in storage order (what [`DebugStats::recent_frames`] returns).
    pub open spec fn history(&self) -> Seq<FrameTiming> {
        self.frame_history@
    }

    /// Recorded timings, oldest first.
    pub open spec fn timeline(&self) -> Seq<FrameTiming> {
        chronological(self.frame_history@, self.history_index as nat)
    }

    /// Position the next timing will be stored at.
    pub open spec fn next_index(&self) -> nat {
        self.history_index as nat
    }

    /// The frame being recorded.
    pub open spec fn in_progress(&self) -> FrameTiming {
        self.current_frame
    }

    /// Whether a start-of-frame instant is recorded for the frame in progress.
    pub open spec fn frame_started(&self) -> bool {
        self.current_frame_start is Some
    }

    /// Whether the tracking start instant is recorded.
    pub open spec fn started(&self) -> bool {
        self.start_time is Some
    }

    /// No frame recorded, nothing counted.
    pub open spec fn counters_zero(&self) -> bool {
        &&& self.total_fence_waits == 0
        &&& self.max_fence_wait_us == 0
        &&& self.total_reallocations == 0
        &&& self.in_progress() == FrameTiming::zero()
    }

    /// Everything but the frame in progress and the counters is as in `other`.
    pub open spec fn same_history(&self, other: DebugStats) -> bool {
        &&& self.enabled == other.enabled
        &&& self.history() == other.history()
        &&& self.next_index() == other.next_index()
        &&& self.wf() == other.wf()
    }

    /// A disabled tracker with no data.
    pub fn new() -> (stats: Self)
        ensures
            stats.wf(),
            !stats.enabled,
            stats.history().len() == 0,
            stats.counters_zero(),
            !stats.started(),
            !stats.frame_started(),
            stats.last_frame_time is None,
    {
        DebugStats {
            enabled: false,
            frame_history: Vec::new(),
            history_index: 0,
            total_fence_waits: 0,
            max_fence_wait_us: 0,
            total_reallocations: 0,
            start_time: None,
            last_frame_time: None,
            current_frame: FrameTiming::default(),
            current_frame_start: None,
        }
    }

    /// An enabled tracker with no data, started now.
    pub fn new_enabled() -> (stats: Self)
        ensures
            stats.wf(),
            stats.enabled,
            stats.history().len() == 0,
            stats.counters_zero(),
            stats.started(),
    {
        DebugStats {
            enabled: true,
            frame_history: Vec::new(),
            history_index: 0,
            total_fence_waits: 0,
            max_fence_wait_us: 0,
            total_reallocations: 0,
            start_time: Some(now()),
            last_frame_time: None,
            current_frame: FrameTiming::default(),
            current_frame_start: None,
        }
    }

    /// Turns tracking on, recording the start instant if none was.
    pub fn enable(&mut self)
        ensures
            final(self).enabled,
            final(self).started(),
            *final(self) == (DebugStats {
                enabled: true,
                start_time: final(self).start_time,
                ..*old(self)
            }),
            final(self).history() == old(self).history(),
            final(self).next_index() == old(self).next_index(),
            final(self).wf() == old(self).wf(),
            final(self).in_progress() == old(self).in_progress(),
            final(self).total_fence_waits == old(self).total_fence_waits,
            final(self).max_fence_wait_us == old(self).max_fence_wait_us,
            final(self).total_reallocations == old(self).total_reallocations,
    {
        self.enabled = true;
        if self.start_time.is_none() {
            self.start_time = Some(now());
        }
    }

    /// Turns tracking off; recorded data is kept.
    pub fn disable(&mut self)
        ensures
            *final(self) == (DebugStats { enabled: false, ..*old(self) }),
    {
        self.enabled = false;
    }

    /// Starts recording frame `frame` (no-op when disabled).
    pub fn begin_frame(&mut self, frame: u64, write_slot: usize, gpu_read_slot: usize)
        ensures
            !old(self).enabled ==> *final(self) == *old(self),
            old(self).enabled ==> {
                &&& final(self).in_progress() == FrameTiming {
                    frame,
                    write_slot,
                    gpu_read_slot,
                    ..FrameTiming::zero()
                }
                &&& final(self).frame_started()
                &&& final(self).same_history(*old(self))
                &&& final(self).total_fence_waits == old(self).total_fence_waits
                &&& final(self).max_fence_wait_us == old(self).max_fence_wait_us
                &&& final(self).total_reallocations == old(self).total_reallocations
            },
    {
        if !self.enabled {
            return;
        }
        self.current_frame = FrameTiming {
            frame,
            write_slot,
            gpu_read_slot,
            fence_wait_us: 0,
            write_time_us: 0,
            instance_count: 0,
            reallocated: false,
        };
        self.current_frame_start = Some(now());
    }

    /// Records a fence wait for the frame in progress (no-op when disabled).
    pub fn record_fence_wait(&mut self, wait_us: u64)
        requires
            old(self).enabled && wait_us > 0 ==> old(self).total_fence_waits < u64::MAX,
        ensures
            !old(self).enabled ==> *final(self) == *old(self),
            old(self).enabled ==> {
                &&& final(self).in_progress() == FrameTiming {
                    fence_wait_us: wait_us,
                    ..old(self).in_progress()
                }
                &&& final(self).total_fence_waits == old(self).total_fence_waits + if wait_us > 0 {
                    1int
                } else {
                    0int
                }
                &&& final(self).max_fence_wait_us == if wait_us > old(self).max_fence_wait_us {
                    wait_us
                } else {
                    old(self).max_fence_wait_us
                }
                &&& final(self).total_reallocations == old(self).total_reallocations
                &&& final(self).same_history(*old(self))
                &&& final(self).frame_started() == old(self).frame_started()
            },
    {
        if !self.enabled {
            return;
        }
        self.current_frame.fence_wait_us = wait_us;
        if wait_us > 0 {
            self.total_fence_waits = self.total_fence_waits + 1;
            if wait_us > self.max_fence_wait_us {
                self.max_fence_wait_us = wait_us;
            }
        }
    }

    /// Records a reallocation in the frame in progress (no-op when disabled).
    pub fn record_reallocation(&mut self)
        requires
            old(self).enabled ==> old(self).total_reallocations < u32::MAX,
        ensures
            !old(self).enabled ==> *final(self) == *old(self),
            old(self).enabled ==> {
                &&& final(self).in_progress() == FrameTiming {
                    reallocated: true,
                    ..old(self).in_progress()
                }
                &&& final(self).total_reallocations == old(self).total_reallocations + 1
                &&& final(self).total_fence_waits == old(self).total_fence_waits
                &&& final(self).max_fence_wait_us == old(self).max_fence_wait_us
                &&& final(self).same_history(*old(self))
                &&& final(self).frame_started() == old(self).frame_started()
            },
    {
        if !self.enabled {
            return;
        }
        self.current_frame.reallocated = true;
        self.total_reallocations = self.total_reallocations + 1;
    }

    /// Records the instance count of the frame in progress (no-op when disabled).
    pub fn record_instance_count(&mut self, count: u32)
        ensures
            !old(self).enabled ==> *final(self) == *old(self),
            old(self).enabled ==> {
                &&& final(self).in_progress() == FrameTiming {
                    instance_count: count,
                    ..old(self).in_progress()
                }
                &&& final(self).total_reallocations == old(self).total_reallocations
                &&& final(self).total_fence_waits == old(self).total_fence_waits
                &&& final(self).max_fence_wait_us == old(self).max_fence_wait_us
                &&& final(self).same_history(*old(self))
                &&& final(self).frame_started() == old(self).frame_started()
            },
    {
        if !self.enabled {
            return;
        }
        self.current_frame.instance_count = count;
    }

    /// Completes the frame in progress: stamps its write time (when a start
    /// was recorded) and stores it in the ring (no-op when disabled).
    pub fn end_frame(&mut self)
        requires
            old(self).wf(),
        ensures
            final(self).wf(),
            !old(self).enabled ==> *final(self) == *old(self),
            old(self).enabled ==> {
                let stored = final(self).in_progress();
                &&& stored == FrameTiming {
                    write_time_us: stored.write_time_us,
                    ..old(self).in_progress()
                }
                &&& !old(self).frame_started() ==> stored == old(self).in_progress()
                &&& final(self).history() == ring_record(
                    old(self).history(),
                    old(self).next_index(),
                    stored,
                )
                &&& final(self).next_index() == (old(self).next_index() + 1) % (
                DEBUG_HISTORY_SIZE as nat)
                &&& final(self).timeline() == last_window(old(self).timeline().push(stored))
                &&& final(self).enabled
                &&& final(self).total_fence_waits == old(self).total_fence_waits
                &&& final(self).max_fence_wait_us == old(self).max_fence_wait_us
                &&& final(self).total_reallocations == old(self).total_reallocations
                &&& final(self).frame_started() == old(self).frame_started()
            },
    {
        if !self.enabled {
            return;
        }
        if let Some(start) = &self.current_frame_start {
            self.current_frame.write_time_us = elapsed_micros(start);
        }
        let ghost old_history = self.frame_history@;
        let ghost old_index = self.history_index as nat;
        if self.frame_history.len() < DEBUG_HISTORY_SIZE {
            self.frame_history.push(self.current_frame);
        } else {
            self.frame_history.set(self.history_index, self.current_frame);
        }
        self.history_index = (self.history_index + 1) % DEBUG_HISTORY_SIZE;
        self.last_frame_time = Some(now());
        proof {
            lemma_ring_record_timeline(old_history, old_index, self.current_frame);
        }
    }

    /// The stored timings, in storage order (at most [`DEBUG_HISTORY_SIZE`]).
    pub fn recent_frames(&self) -> (frames: &[FrameTiming])
        ensures
            frames@ == self.history(),
    {
        self.frame_history.as_slice()
    }

    /// Mean fence wait over the stored frames, in microseconds: the exact value
    /// of `total as f64 / frames as f64` (zero when empty).
    pub fn avg_fence_wait_us(&self) -> (avg: Ratio)
        requires
            self.wf(),
        ensures
            avg.numerator == value_num(counter_quotient(total_fence_wait(self.history()), self.history().len())),
            avg.denominator == value_den(counter_quotient(total_fence_wait(self.history()), self.history().len())),
    {
        if self.frame_history.len() == 0 {
            proof {
                lemma_zero_value();
            }
            return Ratio { numerator: 0, denominator: 1 };
        }
        let total = self.sum_fence_waits();
        let v = counter_quotient_parts(total, self.frame_history.len() as u64);
        Ratio { numerator: v.0, denominator: v.1 as u64 }
    }

    /// Mean write time over the stored frames, in microseconds: the exact value
    /// of `total as f64 / frames as f64` (zero when empty).
    pub fn avg_write_time_us(&self) -> (avg: Ratio)
        requires
            self.wf(),
        ensures
            avg.numerator == value_num(counter_quotient(total_write_time(self.history()), self.history().len())),
            avg.denominator == value_den(counter_quotient(total_write_time(self.history()), self.history().len())),
    {
        if self.frame_history.len() == 0 {
            proof {
                lemma_zero_value();
            }
            return Ratio { numerator: 0, denominator: 1 };
        }
        let total = self.sum_write_times();
        let v = counter_quotient_parts(total, self.frame_history.len() as u64);
        Ratio { numerator: v.0, denominator: v.1 as u64 }
    }

    /// Percentage of stored frames that waited on a fence, as the exact
    /// value of `(waiting as f64 / frames as f64) * 100.0` (zero when empty).
    pub fn fence_wait_percentage(&self) -> (pct: Ratio)
        requires
            self.wf(),
        ensures
            pct.numerator == value_num(counter_percentage(waiting_frames(self.history()), self.history().len())),
            pct.denominator == value_den(counter_percentage(waiting_frames(self.history()), self.history().len())),
    {
        if self.frame_history.len() == 0 {
            proof {
                lemma_zero_value();
            }
            return Ratio { numerator: 0, denominator: 1 };
        }
        let waits = self.count_waiting();
        let v = counter_percentage_parts(waits as u64, self.frame_history.len() as u64);
        Ratio { numerator: v.0, denominator: v.1 as u64 }
    }

    /// Multi-line report of the statistics, or a fixed notice when tracking
    /// is off or nothing was recorded.
    pub fn summary(&self) -> (text: String)
        requires
            self.wf(),
        ensures
            (!self.enabled || self.history().len() == 0) ==> text@
                == "Debug stats: disabled or no data"@,
            (self.enabled && self.history().len() > 0) ==> text@ == summary_text(*self),
    {
        if !self.enabled || self.frame_history.len() == 0 {
            return String::from_str("Debug stats: disabled or no data");
        }
        let mut s = String::new();
        let total_wait = self.sum_fence_waits();
        let total_write = self.sum_write_times();
        let waits = self.count_waiting();
        let n = self.frame_history.len() as u64;
        s.append("Triple Buffer Debug Stats:\n- Frames tracked: ");
        push_decimal(&mut s, self.frame_history.len() as u128);
        s.append("\n- Avg fence wait: ");
        push_counter_quotient(&mut s, total_wait, n, 1);
        s.append("µs (max: ");
        push_decimal(&mut s, self.max_fence_wait_us as u128);
        s.append("µs)\n- Fence wait rate: ");
        push_counter_percentage(&mut s, waits as u64, n, 1);
        s.append("%\n- Avg write time: ");
        push_counter_quotient(&mut s, total_write, n, 1);
        s.append("µs\n- Total reallocations: ");
        push_decimal(&mut s, self.total_reallocations as u128);
        s.append("\n- Total fence waits: ");
        push_decimal(&mut s, self.total_fence_waits as u128);
        assert(s@ =~= summary_text(*self));
        s
    }

    /// One-line status for a heads-up display.
    pub fn status_line(&self) -> (text: String)
        requires
            self.wf(),
        ensures
            !self.enabled ==> text@ == "Debug: OFF"@,
            self.enabled ==> text@ == status_text(*self),
    {
        if !self.enabled {
            return String::from_str("Debug: OFF");
        }
        let mut s = String::new();
        let total_wait = self.sum_fence_waits();
        let waits = self.count_waiting();
        let n: u64 = if self.frame_history.len() == 0 {
            1
        } else {
            self.frame_history.len() as u64
        };
        s.append("TB: fence=");
        push_counter_quotient(&mut s, total_wait, n, 0);
        s.append("µs/");
        push_counter_percentage(&mut s, waits as u64, n, 1);
        s.append("% realloc=");
        push_decimal(&mut s, self.total_reallocations as u128);
        s.append(" frames=");
        push_decimal(&mut s, self.frame_history.len() as u128);
        assert(s@ =~= status_text(*self));
        s
    }

    /// `Ok` when tracking is off or no issue is found; otherwise `Err` with
    /// one line per issue: fence wait rate above 5%, a fence wait above
    /// 1000 µs, or (over more than ten frames) a reallocation rate above 10%.
    pub fn health_check(&self) -> (result: Result<(), String>)
        requires
            self.wf(),
        ensures
            (!self.enabled || !has_health_issue(*self)) <==> result is Ok,
            result matches Err(text) ==> text@ == health_issues(*self),
            self.enabled && self.max_fence_wait_us > 1000 ==> (result matches Err(text) && contains_text(
                text@,
                "High max fence wait: "@ + decimal(self.max_fence_wait_us as nat)
                    + "µs (>1ms indicates stalls)"@,
            )),
    {
        if !self.enabled {
            return Ok(());
        }
        let n = self.frame_history.len();
        let waits = self.count_waiting();
        let mut issues = String::new();
        let mut any = false;
        proof {
            if n == 0 {
                lemma_zero_value();
                assert(counter_percentage(waits as nat, 0) == (0nat, 0int));
                assert(!high_wait_rate(*self));
            }
        }
        if n > 0 && counter_percentage_exceeds(waits as u64, n as u64, 5) {
            issues.append("High fence wait rate: ");
            push_counter_percentage(&mut issues, waits as u64, n as u64, 1);
            issues.append("% (expected <5%)");
            any = true;
        }
        assert(issues@ =~= (if high_wait_rate(*self) { wait_rate_issue(*self) } else { Seq::empty() }));
        assert(any == high_wait_rate(*self));
        let ghost a = issues@;
        if self.max_fence_wait_us > 1000 {
            if any {
                push_char(&mut issues, '\n');
            }
            issues.append("High max fence wait: ");
            push_decimal(&mut issues, self.max_fence_wait_us as u128);
            issues.append("µs (>1ms indicates stalls)");
            any = true;
        }
        assert(issues@ =~= (if high_max_wait(*self) { add_line(a, max_wait_issue(*self)) } else { a }));
        let ghost b = issues@;
        if n > 10 {
            let reallocs = self.count_reallocating();
            if counter_percentage_exceeds(reallocs as u64, n as u64, 10) {
                if any {
                    push_char(&mut issues, '\n');
                }
                issues.append("High reallocation rate: ");
                push_counter_percentage(&mut issues, reallocs as u64, n as u64, 1);
                issues.append("% (consider larger growth factor)");
                any = true;
            }
        }
        assert(issues@ =~= health_issues(*self));
        proof {
            if self.max_fence_wait_us > 1000 {
                lemma_long_fence_wait_reported(*self);
            }
        }
        if any {
            Err(issues)
        } else {
            Ok(())
        }
    }

    fn sum_fence_waits(&self) -> (total: u128)
        requires
            self.wf(),
        ensures
            total == total_fence_wait(self.history()),
            total <= DEBUG_HISTORY_SIZE * 18446744073709551615nat,
    {
        let h = &self.frame_history;
        let mut acc: u128 = 0;
        let mut i: usize = 0;
        while i < h.len()
            invariant
                h@ == self.history(),
                h@.len() <= DEBUG_HISTORY_SIZE,
                i <= h@.len(),
                acc == total_fence_wait(h@.subrange(0, i as int)),
                acc <= i * 18446744073709551615nat,
            decreases h@.len() - i,
        {
            assert(h@.subrange(0, i + 1).drop_last() =~= h@.subrange(0, i as int));
            acc = acc + h[i].fence_wait_us as u128;
            i = i + 1;
        }
        assert(h@.subrange(0, h@.len() as int) =~= h@);
        acc
    }

    fn sum_write_times(&self) -> (total: u128)
        requires
            self.wf(),
        ensures
            total == total_write_time(self.history()),
            total <= DEBUG_HISTORY_SIZE * 18446744073709551615nat,
    {
        let h = &self.frame_history;
        let mut acc: u128 = 0;
        let mut i: usize = 0;
        while i < h.len()
            invariant
                h@ == self.history(),
                h@.len() <= DEBUG_HISTORY_SIZE,
                i <= h@.len(),
                acc == total_write_time(h@.subrange(0, i as int)),
                acc <= i * 18446744073709551615nat,
            decreases h@.len() - i,
        {
            assert(h@.subrange(0, i + 1).drop_last() =~= h@.subrange(0, i as int));
            acc = acc + h[i].write_time_us as u128;
            i = i + 1;
        }
        assert(h@.subrange(0, h@.len() as int) =~= h@);
        acc
    }

    fn count_waiting(&self) -> (count: usize)
        requires
            self.wf(),
        ensures
            count == waiting_frames(self.history()),
            count <= self.history().len(),
    {
        let h = &self.frame_history;
        let mut acc: usize = 0;
        let mut i: usize = 0;
        while i < h.len()
            invariant
                h@ == self.history(),
                i <= h@.len(),
                acc == waiting_frames(h@.subrange(0, i as int)),
                acc <= i,
            decreases h@.len() - i,
        {
            assert(h@.subrange(0, i + 1).drop_last() =~= h@.subrange(0, i as int));
            if h[i].fence_wait_us > 0 {
                acc = acc + 1;
            }
            i = i + 1;
        }
        assert(h@.subrange(0, h@.len() as int) =~= h@);
        acc
    }

    fn count_reallocating(&self) -> (count: usize)
        requires
            self.wf(),
        ensures
            count == reallocating_frames(self.history()),
            count <= self.history().len(),
    {
        let h = &self.frame_history;
        let mut acc: usize = 0;
        let mut i: usize = 0;
        while i < h.len()
            invariant
                h@ == self.history(),
                i <= h@.len(),
                acc == reallocating_frames(h@.subrange(0, i as int)),
                acc <= i,
            decreases h@.len() - i,
        {
            assert(h@.subrange(0, i + 1).drop_last() =~= h@.subrange(0, i as int));
            if h[i].reallocated {
                acc = acc + 1;
            }
            i = i + 1;
        }
        assert(h@.subrange(0, h@.len() as int) =~= h@);
        acc
    }
}

/// Recording in the ring keeps exactly the last [`DEBUG_HISTORY_SIZE`]
/// timings: the oldest-first view after recording `timing` is the previous
/// oldest-first view with `timing` appended, cut to its last
/// `DEBUG_HISTORY_SIZE` entries.
pub proof fn lemma_ring_record_timeline(history: Seq<FrameTiming>, index: nat, timing: FrameTiming)
    requires
        history.len() <= DEBUG_HISTORY_SIZE,
        index < DEBUG_HISTORY_SIZE,
        history.len() < DEBUG_HISTORY_SIZE ==> index == history.len(),
    ensures
        chronological(
            ring_record(history, index, timing),
            (index + 1) % (DEBUG_HISTORY_SIZE as nat),
        ) == last_window(chronological(history, index).push(timing)),
{
    let new_history = ring_record(history, index, timing);
    let new_index = (index + 1) % (DEBUG_HISTORY_SIZE as nat);
    let old_chrono = chronological(history, index);
    if history.len() < DEBUG_HISTORY_SIZE {
        assert(old_chrono =~= history);
        if index + 1 < DEBUG_HISTORY_SIZE {
            assert(chronological(new_history, new_index) =~= history.push(timing));
        } else {
            assert(chronological(new_history, new_index) =~= history.push(timing));
        }
    } else {
        let pushed = old_chrono.push(timing);
        assert(last_window(pushed) =~= pushed.subrange(1, pushed.len() as int));
        assert(chronological(new_history, new_index) =~= pushed.subrange(1, pushed.len() as int));
    }
}

/// Whether `needle` occurs in `hay`.
pub open spec fn contains_text(hay: Seq<char>, needle: Seq<char>) -> bool {
    exists|i: int| 0 <= i && i + needle.len() <= hay.len() && #[trigger] hay.subrange(i, i + needle.len()) == needle
}

/// A fence wait above one millisecond is always reported: once the
/// longest recorded wait exceeds 1000 µs, an enabled tracker has a health
/// issue, and its report holds the line naming that wait, whatever else
/// it reports.
pub proof fn lemma_long_fence_wait_reported(s: DebugStats)
    requires
        s.enabled,
        s.max_fence_wait_us > 1000,
    ensures
        has_health_issue(s),
        contains_text(
            health_issues(s),
            "High max fence wait: "@ + decimal(s.max_fence_wait_us as nat) + "µs (>1ms indicates stalls)"@,
        ),
{
    let line = "High max fence wait: "@ + decimal(s.max_fence_wait_us as nat) + "µs (>1ms indicates stalls)"@;
    assert(line == max_wait_issue(s));
    let a: Seq<char> = if high_wait_rate(s) {
        wait_rate_issue(s)
    } else {
        Seq::empty()
    };
    let b = add_line(a, line);
    let at: int = if a.len() == 0 { 0int } else { a.len() as int + 1 };
    assert(b.subrange(at, at + line.len()) =~= line);
    assert(b.len() >= at + line.len());
    let all = health_issues(s);
    if high_realloc_rate(s) {
        assert(b.len() > 0);
        assert(all == b + seq!['\n'] + realloc_rate_issue(s));
        assert(all.subrange(at, at + line.len()) =~= b.subrange(at, at + line.len()));
    } else {
        assert(all == b);
    }
    assert(all.subrange(at, at + line.len()) == line);
}

} // verus!
