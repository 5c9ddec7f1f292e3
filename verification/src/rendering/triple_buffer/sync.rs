//! Per-slot synchronization state: the logical fence of a buffer slot.

use std::time::{Duration, Instant};
use vstd::prelude::*;

use super::constants::FRAMES_UNTIL_SAFE;
use crate::clock::{duration_between, now};

verus! {

/// Lifecycle of the GPU work in one buffer slot.
#[derive(Debug, Clone, Copy, PartialEq, Eq, Structural)]
pub enum FrameSyncState {
    /// Never used, or just reset.
    Unused,
    /// The CPU is writing the slot.
    Writing,
    /// Submitted to the GPU, completion not yet known.
    Submitted,
    /// The GPU is done; the CPU may reuse the slot.
    Complete,
}

impl Default for FrameSyncState {
    fn default() -> (state: Self)
        ensures
            state == FrameSyncState::Unused,
    {
        FrameSyncState::Unused
    }
}

impl FrameSyncState {
    /// Whether the CPU may write the slot: unused or complete.
    pub fn is_safe_for_write(&self) -> (safe: bool)
        ensures
            safe == (*self == FrameSyncState::Unused || *self == FrameSyncState::Complete),
    {
        match self {
            FrameSyncState::Unused | FrameSyncState::Complete => true,
            _ => false,
        }
    }

    /// Whether the GPU may still be using the slot: submitted.
    pub fn is_gpu_busy(&self) -> (busy: bool)
        ensures
            busy == (*self == FrameSyncState::Submitted),
    {
        match self {
            FrameSyncState::Submitted => true,
            _ => false,
        }
    }
}

/// `a - b`, or zero when `b > a`.
pub open spec fn saturating_diff(a: u64, b: u64) -> nat {
    if a >= b {
        (a - b) as nat
    } else {
        0
    }
}

/// Whether a slot last submitted at `submission` may be reused at `frame`.
pub open spec fn fence_ready(submission: Option<u64>, frame: u64) -> bool {
    match submission {
        None => true,
        Some(submitted) => saturating_diff(frame, submitted) >= FRAMES_UNTIL_SAFE,
    }
}

/// Fence of one buffer slot: when it was submitted and where it stands.
#[derive(Debug, Clone, Copy)]
pub struct FrameFence {
    /// Frame at which the slot was last submitted; `None` if never.
    pub submission_frame: Option<u64>,
    /// Current synchronization state.
    pub state: FrameSyncState,
    /// When the last submission happened.
    pub submission_time: Option<Instant>,
    /// When the fence was last signalled complete.
    pub completion_time: Option<Instant>,
}

impl Default for FrameFence {
    fn default() -> (fence: Self)
        ensures
            fence.is_unused(),
    {
        FrameFence::new()
    }
}

impl FrameFence {
    /// The state of a fence that has never been used.
    pub open spec fn is_unused(&self) -> bool {
        &&& self.submission_frame is None
        &&& self.state == FrameSyncState::Unused
        &&& self.submission_time is None
        &&& self.completion_time is None
    }

    /// A fence that has never been used.
    pub fn new() -> (fence: Self)
        ensures
            fence.is_unused(),
    {
        FrameFence {
            submission_frame: None,
            state: FrameSyncState::Unused,
            submission_time: None,
            completion_time: None,
        }
    }

    /// Records a submission at `frame`, timestamped now; clears the
    /// completion time.
    pub fn signal_submission(&mut self, frame: u64)
        ensures
            final(self).submission_frame == Some(frame),
            final(self).state == FrameSyncState::Submitted,
            final(self).submission_time is Some,
            final(self).completion_time is None,
    {
        self.submission_frame = Some(frame);
        self.state = FrameSyncState::Submitted;
        self.submission_time = Some(now());
        self.completion_time = None;
    }

    /// Records that the GPU is done, timestamped now.
    pub fn signal_complete(&mut self)
        ensures
            final(self).state == FrameSyncState::Complete,
            final(self).submission_frame == old(self).submission_frame,
            final(self).submission_time == old(self).submission_time,
            final(self).completion_time is Some,
    {
        self.state = FrameSyncState::Complete;
        self.completion_time = Some(now());
    }

    /// Records that the CPU is writing the slot.
    pub fn signal_writing(&mut self)
        ensures
            *final(self) == (FrameFence { state: FrameSyncState::Writing, ..*old(self) }),
    {
        self.state = FrameSyncState::Writing;
    }

    /// Whether the slot may be reused at `current_frame`: never submitted,
    /// or submitted at least [`FRAMES_UNTIL_SAFE`] frames earlier.
    pub fn is_ready(&self, current_frame: u64) -> (ready: bool)
        ensures
            ready == fence_ready(self.submission_frame, current_frame),
    {
        match self.submission_frame {
            None => true,
            Some(submitted) => current_frame.saturating_sub(submitted) >= FRAMES_UNTIL_SAFE,
        }
    }

    /// Frames since the last submission (zero if it lies in the future);
    /// `None` if never submitted.
    pub fn frames_since_submission(&self, current_frame: u64) -> (frames: Option<u64>)
        ensures
            match self.submission_frame {
                None => frames is None,
                Some(submitted) => frames == Some(saturating_diff(current_frame, submitted) as u64),
            },
    {
        match self.submission_frame {
            None => None,
            Some(submitted) => Some(current_frame.saturating_sub(submitted)),
        }
    }

    /// Time from submission to completion, when both were recorded.
    pub fn measured_latency(&self) -> (latency: Option<Duration>)
        ensures
            latency is Some <==> (self.submission_time is Some && self.completion_time is Some),
    {
        match (&self.submission_time, &self.completion_time) {
            (Some(start), Some(end)) => Some(duration_between(end, start)),
            _ => None,
        }
    }

    /// Returns the fence to its never-used state.
    pub fn reset(&mut self)
        ensures
            final(self).is_unused(),
    {
        *self = FrameFence::new();
    }
}

} // verus!
