//! The triple-buffered resource container: three frame slots rotating with
//! the frame counter, with fence bookkeeping, allocation statistics and
//! debug statistics.

use vstd::prelude::*;

use super::allocation_stats::{allocation_summary_text, AllocationStats};
use super::capacity::{
    byte_size_text, calculate_grown_capacity, calculate_initial_capacity, grown_capacity,
    initial_capacity, push_bytes,
};
use super::constants::{BUFFER_COUNT, FRAMES_UNTIL_SAFE};
use super::debug_stats::{
    has_health_issue, health_issues, last_window, summary_text, DebugStats, FrameTiming,
};
use super::slot::{FrameSlot, GpuBufferHandle};
use super::sync::{fence_ready, saturating_diff, FrameFence, FrameSyncState};
use crate::text::{decimal, push_decimal};

verus! {

// ==================== Rotation ====================

/// Slot written by the CPU at `frame`.
pub open spec fn write_slot_of(frame: nat) -> nat {
    frame % 3
}

/// Slot read by the GPU at `frame`: the one written two frames earlier.
pub open spec fn gpu_read_slot_of(frame: nat) -> nat {
    (frame + 1) % 3
}

/// Slot in flight at `frame`: the one written one frame earlier.
pub open spec fn in_flight_slot_of(frame: nat) -> nat {
    (frame + 2) % 3
}

/// Which slot is used for what at one frame.
#[derive(Debug, Clone, Copy, PartialEq, Eq, Structural)]
pub struct RotationState {
    /// Frame number.
    pub frame: u64,
    /// Slot written by the CPU.
    pub write_slot: usize,
    /// Slot read by the GPU (written two frames ago).
    pub gpu_read_slot: usize,
    /// Slot submitted one frame ago, possibly still queued.
    pub in_flight_slot: usize,
}

/// The rotation at `frame`.
pub open spec fn rotation_at(frame: u64) -> RotationState {
    RotationState {
        frame,
        write_slot: write_slot_of(frame as nat) as usize,
        gpu_read_slot: gpu_read_slot_of(frame as nat) as usize,
        in_flight_slot: in_flight_slot_of(frame as nat) as usize,
    }
}

/// The text of [`RotationState::to_string`].
pub open spec fn rotation_text(r: RotationState) -> Seq<char> {
    "Frame "@ + decimal(r.frame as nat) + ": Write["@ + decimal(r.write_slot as nat)
        + "] InFlight["@ + decimal(r.in_flight_slot as nat) + "] GPURead["@ + decimal(
        r.gpu_read_slot as nat,
    ) + "]"@
}

impl RotationState {
    /// The rotation at `frame`: write `frame % 3`, GPU read `(frame + 1) % 3`,
    /// in flight `(frame + 2) % 3`.
    pub fn for_frame(frame: u64) -> (state: Self)
        requires
            frame <= u64::MAX - BUFFER_COUNT,
        ensures
            state == rotation_at(frame),
    {
        let write_slot = (frame % BUFFER_COUNT as u64) as usize;
        let gpu_read_slot = ((frame + BUFFER_COUNT as u64 - 2) % BUFFER_COUNT as u64) as usize;
        let in_flight_slot = ((frame + BUFFER_COUNT as u64 - 1) % BUFFER_COUNT as u64) as usize;
        RotationState { frame, write_slot, gpu_read_slot, in_flight_slot }
    }

    /// Only the write slot may be written.
    pub fn is_safe_to_write(&self, slot_index: usize) -> (safe: bool)
        ensures
            safe == (slot_index == self.write_slot),
    {
        slot_index == self.write_slot
    }

    /// What `slot_index` is used for: "WRITING", "GPU_READ", "IN_FLIGHT" or
    /// "UNKNOWN" (checked in that order).
    pub fn slot_status(&self, slot_index: usize) -> (status: &'static str)
        ensures
            status@ == (if slot_index == self.write_slot {
                "WRITING"@
            } else if slot_index == self.gpu_read_slot {
                "GPU_READ"@
            } else if slot_index == self.in_flight_slot {
                "IN_FLIGHT"@
            } else {
                "UNKNOWN"@
            }),
    {
        if slot_index == self.write_slot {
            "WRITING"
        } else if slot_index == self.gpu_read_slot {
            "GPU_READ"
        } else if slot_index == self.in_flight_slot {
            "IN_FLIGHT"
        } else {
            "UNKNOWN"
        }
    }

    /// Appends [`rotation_text`].
    pub fn push_text(&self, s: &mut String)
        ensures
            final(s)@ == old(s)@ + rotation_text(*self),
    {
        s.append("Frame ");
        push_decimal(s, self.frame as u128);
        s.append(": Write[");
        push_decimal(s, self.write_slot as u128);
        s.append("] InFlight[");
        push_decimal(s, self.in_flight_slot as u128);
        s.append("] GPURead[");
        push_decimal(s, self.gpu_read_slot as u128);
        s.append("]");
        assert(s@ =~= old(s)@ + rotation_text(*self));
    }

    /// "Frame F: Write[w] InFlight[i] GPURead[g]".
    pub fn to_string(&self) -> (text: String)
        ensures
            text@ == rotation_text(*self),
    {
        let mut s = String::new();
        self.push_text(&mut s);
        s
    }
}

/// At every frame the write, GPU-read and in-flight slots are three
/// different slots; together they are all the slots.
pub proof fn lemma_rotation_partitions_slots(frame: nat)
    ensures
        write_slot_of(frame) < 3,
        gpu_read_slot_of(frame) < 3,
        in_flight_slot_of(frame) < 3,
        write_slot_of(frame) != gpu_read_slot_of(frame),
        write_slot_of(frame) != in_flight_slot_of(frame),
        gpu_read_slot_of(frame) != in_flight_slot_of(frame),
{
}

/// The GPU reads at frame `f + 2` the slot written at `f`, which is in
/// flight at `f + 1`, and written again at `f + 3`: the rotation repeats
/// every [`BUFFER_COUNT`] frames.
pub proof fn lemma_rotation_schedule(frame: nat)
    ensures
        in_flight_slot_of(frame + 1) == write_slot_of(frame),
        gpu_read_slot_of(frame + 2) == write_slot_of(frame),
        write_slot_of(frame + 3) == write_slot_of(frame),
        gpu_read_slot_of(frame + 3) == gpu_read_slot_of(frame),
        in_flight_slot_of(frame + 3) == in_flight_slot_of(frame),
        write_slot_of(frame + 1) != write_slot_of(frame),
        write_slot_of(frame + 2) != write_slot_of(frame),
{
}

// ==================== Acquisition and frame context ====================

/// Outcome of trying to acquire the current slot.
#[derive(Debug, Clone, Copy, PartialEq, Eq, Structural)]
pub enum SlotAcquisition {
    /// The slot may be written.
    Ready {
        /// Index of the slot.
        slot_index: usize,
    },
    /// The GPU may still be using the slot.
    Busy {
        /// Index of the slot.
        slot_index: usize,
        /// Frames until the slot becomes ready.
        frames_remaining: u64,
    },
}

impl SlotAcquisition {
    /// Whether the slot is ready.
    pub fn is_ready(&self) -> (ready: bool)
        ensures
            ready == (*self is Ready),
    {
        match self {
            SlotAcquisition::Ready { .. } => true,
            SlotAcquisition::Busy { .. } => false,
        }
    }

    /// The slot index, ready or not.
    pub fn slot_index(&self) -> (index: usize)
        ensures
            index == match *self {
                SlotAcquisition::Ready { slot_index } => slot_index,
                SlotAcquisition::Busy { slot_index, .. } => slot_index,
            },
    {
        match self {
            SlotAcquisition::Ready { slot_index } => *slot_index,
            SlotAcquisition::Busy { slot_index, .. } => *slot_index,
        }
    }
}

/// What one frame's rendering needs to know.
#[derive(Debug, Clone, Copy, PartialEq, Eq, Structural)]
pub struct FrameContext {
    /// Frame number.
    pub frame_number: u64,
    /// Slot used this frame.
    pub slot_index: usize,
    /// Instances to render.
    pub instance_count: u32,
}

impl FrameContext {
    /// Whether there is anything to render.
    pub fn has_instances(&self) -> (has: bool)
        ensures
            has == (self.instance_count > 0),
    {
        self.instance_count > 0
    }
}

// ==================== Floating-point change detection ====================

/// Whether the `f32` with bit pattern `bits` is a NaN.
pub open spec fn f32_is_nan(bits: u32) -> bool {
    (bits & 0x7f80_0000u32) == 0x7f80_0000u32 && (bits & 0x007f_ffffu32) != 0
}

/// Whether the `f32` with bit pattern `bits` is a zero of either sign.
pub open spec fn f32_is_zero(bits: u32) -> bool {
    (bits & 0x7fff_ffffu32) == 0
}

/// IEEE 754 equality of two `f32` values given by their bit patterns:
/// NaN equals nothing, the two zeros are equal, otherwise bits must match.
pub open spec fn f32_bits_eq(a: u32, b: u32) -> bool {
    !f32_is_nan(a) && !f32_is_nan(b) && (a == b || (f32_is_zero(a) && f32_is_zero(b)))
}

/// IEEE 754 equality of four-component `f32` colors given by bit patterns.
pub open spec fn color_bits_eq(a: [u32; 4], b: [u32; 4]) -> bool {
    forall|i: int| 0 <= i < 4 ==> f32_bits_eq(#[trigger] a[i], b[i])
}

/// IEEE 754 `==` on `f32` bit patterns.
pub fn f32_bits_equal(a: u32, b: u32) -> (eq: bool)
    ensures
        eq == f32_bits_eq(a, b),
{
    let a_nan = (a & 0x7f80_0000u32) == 0x7f80_0000u32 && (a & 0x007f_ffffu32) != 0;
    let b_nan = (b & 0x7f80_0000u32) == 0x7f80_0000u32 && (b & 0x007f_ffffu32) != 0;
    !a_nan && !b_nan && (a == b || ((a & 0x7fff_ffffu32) == 0 && (b & 0x7fff_ffffu32) == 0))
}

/// IEEE 754 `==` on four-component colors given by bit patterns.
pub fn color_bits_equal(a: &[u32; 4], b: &[u32; 4]) -> (eq: bool)
    ensures
        eq == color_bits_eq(*a, *b),
{
    let e0 = f32_bits_equal(a[0], b[0]);
    let e1 = f32_bits_equal(a[1], b[1]);
    let e2 = f32_bits_equal(a[2], b[2]);
    let e3 = f32_bits_equal(a[3], b[3]);
    proof {
        if e0 && e1 && e2 && e3 {
            assert forall|i: int| 0 <= i < 4 implies f32_bits_eq(#[trigger] a[i], b[i]) by {
                if i == 0 {
                } else if i == 1 {
                } else if i == 2 {
                } else {
                }
            }
        }
    }
    e0 && e1 && e2 && e3
}

/// Change detection sees no change after recording the same values: once
/// the tracking holds a viewport and colors, `view_uniform_changed` with
/// those values is false, unless one of them is a NaN (which compares
/// unequal to itself).
pub proof fn lemma_tracked_view_unchanged(
    width: u32,
    height: u32,
    bull: [u32; 4],
    bear: [u32; 4],
    wick: [u32; 4],
)
    requires
        !f32_is_nan(width),
        !f32_is_nan(height),
        forall|i: int| 0 <= i < 4 ==> !f32_is_nan(#[trigger] bull[i]),
        forall|i: int| 0 <= i < 4 ==> !f32_is_nan(#[trigger] bear[i]),
        forall|i: int| 0 <= i < 4 ==> !f32_is_nan(#[trigger] wick[i]),
    ensures
        f32_bits_eq(width, width) && f32_bits_eq(height, height) && color_bits_eq(bull, bull)
            && color_bits_eq(bear, bear) && color_bits_eq(wick, wick),
{
}

/// A NaN always counts as a change.
pub proof fn lemma_nan_always_changes(a: u32, b: u32)
    requires
        f32_is_nan(a) || f32_is_nan(b),
    ensures
        !f32_bits_eq(a, b),
{
}

// ==================== The container ====================

/// Three frame slots rotating with the frame counter, plus the shared
/// configuration buffer, view change tracking and statistics.
#[derive(Debug)]
pub struct TripleBufferedResources {
    /// The three frame slots.
    pub slots: [FrameSlot; BUFFER_COUNT],
    /// Frame counter; the current slot is `frame_count % 3`.
    pub frame_count: u64,
    /// Shared configuration buffer.
    pub config_buffer: Option<GpuBufferHandle>,
    /// Last viewport width uploaded (`f32` bit pattern).
    pub last_viewport_width: u32,
    /// Last viewport height uploaded (`f32` bit pattern).
    pub last_viewport_height: u32,
    /// Last bullish color uploaded (`f32` bit patterns).
    pub last_bull_color: [u32; 4],
    /// Last bearish color uploaded (`f32` bit patterns).
    pub last_bear_color: [u32; 4],
    /// Last wick color uploaded (`f32` bit patterns).
    pub last_wick_color: [u32; 4],
    /// Instances currently stored.
    pub instance_count: u32,
    /// Allocation counters.
    pub allocation_stats: AllocationStats,
    /// Debug statistics.
    pub debug_stats: DebugStats,
    /// Slot written by the frame begun last; the renderer reads this one.
    pub current_write_slot: usize,
}

/// `(frame - k)` modulo 2^64, as `wrapping_sub` computes it.
pub open spec fn wrapping_frame_sub(frame: u64, k: u64) -> nat {
    if frame >= k {
        (frame - k) as nat
    } else {
        (frame - k + 0x1_0000_0000_0000_0000) as nat
    }
}

/// Whether the fence of `slot` is reset and nothing else changed.
pub open spec fn fence_reset_of(before: FrameSlot, after: FrameSlot) -> bool {
    after.same_buffers(before) && after.fence.is_unused()
}

/// What [`TripleBufferedResources::update_fence_states`] makes of one slot
/// at `frame`: a submitted slot whose fence is ready becomes complete.
pub open spec fn fence_updated(before: FrameSlot, after: FrameSlot, frame: u64) -> bool {
    if before.fence.state == FrameSyncState::Submitted && fence_ready(
        before.fence.submission_frame,
        frame,
    ) {
        &&& after.fence.state == FrameSyncState::Complete
        &&& after.fence.submission_frame == before.fence.submission_frame
        &&& after.fence.completion_time is Some
        &&& after.same_buffers(before)
    } else {
        after == before
    }
}

/// The text of one line of the fence report.
pub open spec fn fence_line_text(index: nat, fence: FrameFence) -> Seq<char> {
    "  Slot "@ + decimal(index) + ": "@ + sync_state_name(fence.state) + " (submitted: "@
        + option_frame_text(fence.submission_frame) + ")\n"@
}

/// Debug name of a synchronization state.
pub open spec fn sync_state_name(state: FrameSyncState) -> Seq<char> {
    match state {
        FrameSyncState::Unused => "Unused"@,
        FrameSyncState::Writing => "Writing"@,
        FrameSyncState::Submitted => "Submitted"@,
        FrameSyncState::Complete => "Complete"@,
    }
}

/// Debug text of an optional frame number: "None" or "Some(n)".
pub open spec fn option_frame_text(frame: Option<u64>) -> Seq<char> {
    match frame {
        None => "None"@,
        Some(f) => "Some("@ + decimal(f as nat) + ")"@,
    }
}

/// Appends [`sync_state_name`].
fn push_sync_state(s: &mut String, state: FrameSyncState)
    ensures
        final(s)@ == old(s)@ + sync_state_name(state),
{
    match state {
        FrameSyncState::Unused => s.append("Unused"),
        FrameSyncState::Writing => s.append("Writing"),
        FrameSyncState::Submitted => s.append("Submitted"),
        FrameSyncState::Complete => s.append("Complete"),
    }
}

/// Appends [`option_frame_text`].
fn push_option_frame(s: &mut String, frame: Option<u64>)
    ensures
        final(s)@ == old(s)@ + option_frame_text(frame),
{
    match frame {
        None => s.append("None"),
        Some(f) => {
            s.append("Some(");
            push_decimal(s, f as u128);
            s.append(")");
            assert(s@ =~= old(s)@ + option_frame_text(frame));
        },
    }
}

impl Default for TripleBufferedResources {
    fn default() -> (r: Self)
        ensures
            r.is_fresh(),
            !r.debug_stats.enabled,
    {
        TripleBufferedResources::new()
    }
}

impl TripleBufferedResources {
    /// Well-formedness: the debug ring is well formed.
    pub open spec fn wf(&self) -> bool {
        self.debug_stats.wf()
    }

    /// A container that has done nothing yet.
    pub open spec fn is_fresh(&self) -> bool {
        &&& forall|i: int| 0 <= i < 3 ==> (#[trigger] self.slots[i]).is_empty()
        &&& self.frame_count == 0
        &&& self.config_buffer is None
        &&& self.last_viewport_width == 0
        &&& self.last_viewport_height == 0
        &&& self.last_bull_color@ == seq![0u32, 0u32, 0u32, 0u32]
        &&& self.last_bear_color@ == seq![0u32, 0u32, 0u32, 0u32]
        &&& self.last_wick_color@ == seq![0u32, 0u32, 0u32, 0u32]
        &&& self.instance_count == 0
        &&& self.allocation_stats == AllocationStats::zero()
        &&& self.debug_stats.wf()
        &&& self.debug_stats.history().len() == 0
        &&& self.debug_stats.counters_zero()
        &&& self.current_write_slot == 0
    }

    /// Every slot's last submission happened at an earlier frame that maps
    /// to that slot. The documented per-frame workflow keeps this.
    pub open spec fn submissions_aligned(&self) -> bool {
        forall|i: int|
            0 <= i < 3 ==> match (#[trigger] self.slots[i]).fence.submission_frame {
                None => true,
                Some(f) => f % 3 == i && f < self.frame_count,
            }
    }

    /// Index of the current slot.
    pub open spec fn current(&self) -> int {
        (self.frame_count % 3) as int
    }

    /// Everything but the slots is as in `other`.
    pub open spec fn same_except_slots(&self, other: TripleBufferedResources) -> bool {
        &&& self.frame_count == other.frame_count
        &&& self.config_buffer == other.config_buffer
        &&& self.last_viewport_width == other.last_viewport_width
        &&& self.last_viewport_height == other.last_viewport_height
        &&& self.last_bull_color == other.last_bull_color
        &&& self.last_bear_color == other.last_bear_color
        &&& self.last_wick_color == other.last_wick_color
        &&& self.instance_count == other.instance_count
        &&& self.allocation_stats == other.allocation_stats
        &&& self.debug_stats == other.debug_stats
        &&& self.current_write_slot == other.current_write_slot
    }

    /// A container with three empty slots at frame 0, debug tracking off.
    pub fn new() -> (r: Self)
        ensures
            r.is_fresh(),
            !r.debug_stats.enabled,
            r.submissions_aligned(),
    {
        TripleBufferedResources {
            slots: [FrameSlot::new(), FrameSlot::new(), FrameSlot::new()],
            frame_count: 0,
            config_buffer: None,
            last_viewport_width: 0,
            last_viewport_height: 0,
            last_bull_color: [0u32, 0u32, 0u32, 0u32],
            last_bear_color: [0u32, 0u32, 0u32, 0u32],
            last_wick_color: [0u32, 0u32, 0u32, 0u32],
            instance_count: 0,
            allocation_stats: AllocationStats::default(),
            debug_stats: DebugStats::new(),
            current_write_slot: 0,
        }
    }

    /// A fresh container with debug tracking on.
    pub fn new_with_debug() -> (r: Self)
        ensures
            r.is_fresh(),
            r.debug_stats.enabled,
            r.submissions_aligned(),
    {
        let mut r = TripleBufferedResources::new();
        r.debug_stats = DebugStats::new_enabled();
        r
    }

    /// Whether every slot has an instance buffer.
    pub fn is_preallocated(&self) -> (all: bool)
        ensures
            all == (forall|i: int| 0 <= i < 3 ==> (#[trigger] self.slots[i]).instance_buffer is Some),
    {
        let r = self.slots[0].instance_buffer.is_some() && self.slots[1].instance_buffer.is_some()
            && self.slots[2].instance_buffer.is_some();
        proof {
            if r {
                assert forall|i: int| 0 <= i < 3 implies (#[trigger] self.slots[i]).instance_buffer is Some by {
                    if i == 0 {} else if i == 1 {} else {}
                }
            }
        }
        r
    }

    /// Index of the current slot: `frame_count % 3`.
    pub fn current_index(&self) -> (index: usize)
        ensures
            index == self.current(),
            index < 3,
    {
        (self.frame_count % BUFFER_COUNT as u64) as usize
    }

    /// Slot written by the frame begun last (what the renderer must read).
    pub fn render_slot_index(&self) -> (index: usize)
        ensures
            index == self.current_write_slot,
    {
        self.current_write_slot
    }

    /// The current slot.
    pub fn current_slot(&self) -> (slot: &FrameSlot)
        ensures
            *slot == self.slots[self.current()],
    {
        &self.slots[self.current_index()]
    }

    /// The current slot, for update in place.
    pub fn current_slot_mut(&mut self) -> (slot: &mut FrameSlot)
        ensures
            *slot == old(self).slots[old(self).current()],
            final(self).slots@ == old(self).slots@.update(old(self).current(), *final(slot)),
            final(self).same_except_slots(*old(self)),
    {
        let index = self.current_index();
        &mut self.slots[index]
    }

    /// Moves to the next frame (the counter wraps at `u64::MAX`).
    pub fn advance_frame(&mut self)
        ensures
            final(self).frame_count == (if old(self).frame_count == u64::MAX {
                0
            } else {
                old(self).frame_count + 1
            }),
            *final(self) == (TripleBufferedResources { frame_count: final(self).frame_count, ..*old(self) }),
            old(self).submissions_aligned() && old(self).frame_count < u64::MAX
                ==> final(self).submissions_aligned(),
    {
        self.frame_count = self.frame_count.wrapping_add(1);
    }

    /// Slot used `frames_ago` frames before the current one.
    pub fn index_frames_ago(&self, frames_ago: u64) -> (index: usize)
        ensures
            index == wrapping_frame_sub(self.frame_count, frames_ago) % 3,
    {
        ((self.frame_count.wrapping_sub(frames_ago)) % BUFFER_COUNT as u64) as usize
    }

    /// The rotation at the current frame.
    pub fn rotation_state(&self) -> (state: RotationState)
        requires
            self.frame_count <= u64::MAX - BUFFER_COUNT,
        ensures
            state == rotation_at(self.frame_count),
    {
        RotationState::for_frame(self.frame_count)
    }

    /// Slot read by the GPU: the one written two frames ago.
    pub fn gpu_read_index(&self) -> (index: usize)
        requires
            self.frame_count <= u64::MAX - BUFFER_COUNT,
        ensures
            index == gpu_read_slot_of(self.frame_count as nat),
    {
        ((self.frame_count + BUFFER_COUNT as u64 - 2) % BUFFER_COUNT as u64) as usize
    }

    /// Slot in flight: the one written one frame ago.
    pub fn in_flight_index(&self) -> (index: usize)
        requires
            self.frame_count <= u64::MAX - BUFFER_COUNT,
        ensures
            index == in_flight_slot_of(self.frame_count as nat),
    {
        ((self.frame_count + BUFFER_COUNT as u64 - 1) % BUFFER_COUNT as u64) as usize
    }

    /// Whether some slot lacks an instance buffer of `required_size` bytes.
    pub fn any_slot_needs_reallocation(&self, required_size: usize) -> (any: bool)
        ensures
            any == (exists|i: int|
                0 <= i < 3 && ((#[trigger] self.slots[i]).instance_buffer is None
                    || self.slots[i].buffer_capacity < required_size)),
    {
        let a = self.slots[0].needs_reallocation(required_size);
        let b = self.slots[1].needs_reallocation(required_size);
        let c = self.slots[2].needs_reallocation(required_size);
        proof {
            if a {
                assert(self.slots[0].instance_buffer is None || self.slots[0].buffer_capacity < required_size);
            }
            if b {
                assert(self.slots[1].instance_buffer is None || self.slots[1].buffer_capacity < required_size);
            }
            if c {
                assert(self.slots[2].instance_buffer is None || self.slots[2].buffer_capacity < required_size);
            }
        }
        a || b || c
    }

    /// Marks every slot's bind group stale.
    pub fn invalidate_all_bind_groups(&mut self)
        ensures
            forall|i: int|
                0 <= i < 3 ==> #[trigger] final(self).slots[i] == (FrameSlot {
                    bind_group_valid: false,
                    ..old(self).slots[i]
                }),
            final(self).same_except_slots(*old(self)),
    {
        self.slots[0].invalidate_bind_group();
        self.slots[1].invalidate_bind_group();
        self.slots[2].invalidate_bind_group();
    }

    /// Whether the viewport or a color differs (IEEE `!=`) from the last upload.
    pub fn view_uniform_changed(
        &self,
        viewport_width: u32,
        viewport_height: u32,
        bull_color: [u32; 4],
        bear_color: [u32; 4],
        wick_color: [u32; 4],
    ) -> (changed: bool)
        ensures
            changed == !(f32_bits_eq(self.last_viewport_width, viewport_width) && f32_bits_eq(
                self.last_viewport_height,
                viewport_height,
            ) && color_bits_eq(self.last_bull_color, bull_color) && color_bits_eq(
                self.last_bear_color,
                bear_color,
            ) && color_bits_eq(self.last_wick_color, wick_color)),
    {
        !f32_bits_equal(self.last_viewport_width, viewport_width) || !f32_bits_equal(
            self.last_viewport_height,
            viewport_height,
        ) || !color_bits_equal(&self.last_bull_color, &bull_color) || !color_bits_equal(
            &self.last_bear_color,
            &bear_color,
        ) || !color_bits_equal(&self.last_wick_color, &wick_color)
    }

    /// Remembers the viewport and colors of the last upload.
    pub fn update_view_tracking(
        &mut self,
        viewport_width: u32,
        viewport_height: u32,
        bull_color: [u32; 4],
        bear_color: [u32; 4],
        wick_color: [u32; 4],
    )
        ensures
            *final(self) == (TripleBufferedResources {
                last_viewport_width: viewport_width,
                last_viewport_height: viewport_height,
                last_bull_color: bull_color,
                last_bear_color: bear_color,
                last_wick_color: wick_color,
                ..*old(self)
            }),
    {
        self.last_viewport_width = viewport_width;
        self.last_viewport_height = viewport_height;
        self.last_bull_color = bull_color;
        self.last_bear_color = bear_color;
        self.last_wick_color = wick_color;
    }

    /// Capacity for the first allocation of `required_size` bytes.
    pub fn recommended_initial_capacity(&self, required_size: usize) -> (capacity: usize)
        ensures
            capacity == initial_capacity(required_size as nat),
    {
        calculate_initial_capacity(required_size)
    }

    /// Capacity for growing to `required_size` bytes.
    pub fn recommended_grown_capacity(&self, required_size: usize) -> (capacity: usize)
        ensures
            capacity == grown_capacity(required_size as nat),
    {
        calculate_grown_capacity(required_size)
    }

    /// Records the initial allocation of all three slots, `capacity_per_slot` each.
    pub fn record_initial_allocation(&mut self, capacity_per_slot: usize)
        requires
            old(self).allocation_stats.initial_allocations + 3 <= u32::MAX,
            old(self).allocation_stats.current_capacity + 3 * capacity_per_slot <= usize::MAX,
            old(self).allocation_stats.total_bytes_allocated + 3 * capacity_per_slot <= usize::MAX,
        ensures
            final(self).allocation_stats == old(self).allocation_stats.after_initial(
                capacity_per_slot as nat,
            ).after_initial(capacity_per_slot as nat).after_initial(capacity_per_slot as nat),
            *final(self) == (TripleBufferedResources {
                allocation_stats: final(self).allocation_stats,
                ..*old(self)
            }),
    {
        let mut i: usize = 0;
        let ghost start = self.allocation_stats;
        while i < BUFFER_COUNT
            invariant
                i <= 3,
                self.allocation_stats.initial_allocations == start.initial_allocations + i,
                self.allocation_stats.current_capacity == start.current_capacity + i
                    * capacity_per_slot,
                self.allocation_stats.total_bytes_allocated == start.total_bytes_allocated + i
                    * capacity_per_slot,
                start == old(self).allocation_stats,
                i == 0 ==> self.allocation_stats == start,
                i == 1 ==> self.allocation_stats == start.after_initial(capacity_per_slot as nat),
                i == 2 ==> self.allocation_stats == start.after_initial(
                    capacity_per_slot as nat,
                ).after_initial(capacity_per_slot as nat),
                i == 3 ==> self.allocation_stats == start.after_initial(
                    capacity_per_slot as nat,
                ).after_initial(capacity_per_slot as nat).after_initial(capacity_per_slot as nat),
                *self == (TripleBufferedResources {
                    allocation_stats: self.allocation_stats,
                    ..*old(self)
                }),
                start.initial_allocations + 3 <= u32::MAX,
                start.current_capacity + 3 * capacity_per_slot <= usize::MAX,
                start.total_bytes_allocated + 3 * capacity_per_slot <= usize::MAX,
            decreases 3 - i,
        {
            self.allocation_stats.record_initial_allocation(capacity_per_slot);
            i = i + 1;
        }
    }

    /// Records one slot reallocation from `old_capacity` to `new_capacity` bytes.
    pub fn record_slot_reallocation(&mut self, old_capacity: usize, new_capacity: usize)
        requires
            old(self).allocation_stats.can_record_reallocation(
                old_capacity as nat,
                new_capacity as nat,
            ),
        ensures
            *final(self) == (TripleBufferedResources {
                allocation_stats: old(self).allocation_stats.after_reallocation(
                    old_capacity as nat,
                    new_capacity as nat,
                ),
                ..*old(self)
            }),
    {
        self.allocation_stats.record_reallocation(old_capacity, new_capacity);
    }

    /// Keeps the largest instance count seen.
    pub fn track_instance_count(&mut self, count: u32)
        ensures
            final(self).allocation_stats.peak_instance_count == (if count > old(
                self,
            ).allocation_stats.peak_instance_count {
                count
            } else {
                old(self).allocation_stats.peak_instance_count
            }),
            *final(self) == (TripleBufferedResources {
                allocation_stats: AllocationStats {
                    peak_instance_count: final(self).allocation_stats.peak_instance_count,
                    ..old(self).allocation_stats
                },
                ..*old(self)
            }),
    {
        self.allocation_stats.record_instance_count(count);
    }

    /// The allocation counters.
    pub fn get_allocation_stats(&self) -> (stats: &AllocationStats)
        ensures
            *stats == self.allocation_stats,
    {
        &self.allocation_stats
    }

    /// Largest instance buffer capacity among the slots.
    pub fn max_slot_capacity(&self) -> (m: usize)
        ensures
            forall|i: int| 0 <= i < 3 ==> (#[trigger] self.slots[i]).buffer_capacity <= m,
            exists|i: int| 0 <= i < 3 && (#[trigger] self.slots[i]).buffer_capacity == m,
    {
        let a = self.slots[0].buffer_capacity;
        let b = self.slots[1].buffer_capacity;
        let c = self.slots[2].buffer_capacity;
        let m = if a >= b && a >= c {
            a
        } else if b >= c {
            b
        } else {
            c
        };
        proof {
            assert forall|i: int| 0 <= i < 3 implies (#[trigger] self.slots[i]).buffer_capacity <= m by {
                if i == 0 {} else if i == 1 {} else {}
            }
            if m == a {
                assert(self.slots[0].buffer_capacity == m);
            } else if m == b {
                assert(self.slots[1].buffer_capacity == m);
            } else {
                assert(self.slots[2].buffer_capacity == m);
            }
        }
        m
    }

    /// Smallest instance buffer capacity among the slots.
    pub fn min_slot_capacity(&self) -> (m: usize)
        ensures
            forall|i: int| 0 <= i < 3 ==> (#[trigger] self.slots[i]).buffer_capacity >= m,
            exists|i: int| 0 <= i < 3 && (#[trigger] self.slots[i]).buffer_capacity == m,
    {
        let a = self.slots[0].buffer_capacity;
        let b = self.slots[1].buffer_capacity;
        let c = self.slots[2].buffer_capacity;
        let m = if a <= b && a <= c {
            a
        } else if b <= c {
            b
        } else {
            c
        };
        proof {
            assert forall|i: int| 0 <= i < 3 implies (#[trigger] self.slots[i]).buffer_capacity >= m by {
                if i == 0 {} else if i == 1 {} else {}
            }
            if m == a {
                assert(self.slots[0].buffer_capacity == m);
            } else if m == b {
                assert(self.slots[1].buffer_capacity == m);
            } else {
                assert(self.slots[2].buffer_capacity == m);
            }
        }
        m
    }

    /// Whether all slots have the same instance buffer capacity.
    pub fn capacities_consistent(&self) -> (same: bool)
        ensures
            same == (self.slots[0].buffer_capacity == self.slots[1].buffer_capacity
                && self.slots[1].buffer_capacity == self.slots[2].buffer_capacity),
    {
        let mx = self.max_slot_capacity();
        let mn = self.min_slot_capacity();
        proof {
            assert(self.slots[0].buffer_capacity <= mx && self.slots[1].buffer_capacity <= mx
                && self.slots[2].buffer_capacity <= mx);
            assert(self.slots[0].buffer_capacity >= mn && self.slots[1].buffer_capacity >= mn
                && self.slots[2].buffer_capacity >= mn);
        }
        mx == mn
    }

    /// Sum of the instance buffer capacities.
    pub open spec fn instance_memory(&self) -> nat {
        (self.slots[0].buffer_capacity + self.slots[1].buffer_capacity
            + self.slots[2].buffer_capacity) as nat
    }

    /// Sum of the uniform buffer capacities.
    pub open spec fn uniform_memory(&self) -> nat {
        (self.slots[0].uniform_buffer_capacity + self.slots[1].uniform_buffer_capacity
            + self.slots[2].uniform_buffer_capacity) as nat
    }

    /// Total bytes of instance buffers.
    pub fn total_instance_buffer_memory(&self) -> (total: usize)
        requires
            self.instance_memory() <= usize::MAX,
        ensures
            total == self.instance_memory(),
    {
        self.slots[0].buffer_capacity + self.slots[1].buffer_capacity
            + self.slots[2].buffer_capacity
    }

    /// Total bytes of uniform buffers.
    pub fn total_uniform_buffer_memory(&self) -> (total: usize)
        requires
            self.uniform_memory() <= usize::MAX,
        ensures
            total == self.uniform_memory(),
    {
        self.slots[0].uniform_buffer_capacity + self.slots[1].uniform_buffer_capacity
            + self.slots[2].uniform_buffer_capacity
    }

    /// The text of [`TripleBufferedResources::memory_summary`].
    pub open spec fn memory_summary_text(&self) -> Seq<char> {
        "Memory: "@ + byte_size_text(self.instance_memory() + self.uniform_memory()) + " total ("@
            + byte_size_text(self.instance_memory()) + " instance, "@ + byte_size_text(
            self.uniform_memory(),
        ) + " uniform) | "@ + allocation_summary_text(self.allocation_stats)
    }

    /// Whether the memory totals fit a `usize`.
    pub open spec fn memory_fits(&self) -> bool {
        self.instance_memory() + self.uniform_memory() <= usize::MAX
    }

    /// Appends [`TripleBufferedResources::memory_summary_text`].
    pub fn push_memory_summary(&self, s: &mut String)
        requires
            self.memory_fits(),
        ensures
            final(s)@ == old(s)@ + self.memory_summary_text(),
    {
        let instance_mem = self.total_instance_buffer_memory();
        let uniform_mem = self.total_uniform_buffer_memory();
        let total = instance_mem + uniform_mem;
        s.append("Memory: ");
        push_bytes(s, total);
        s.append(" total (");
        push_bytes(s, instance_mem);
        s.append(" instance, ");
        push_bytes(s, uniform_mem);
        s.append(" uniform) | ");
        self.allocation_stats.push_summary(s);
        assert(s@ =~= old(s)@ + self.memory_summary_text());
    }

    /// Memory use of the buffers and the allocation counters, on one line.
    pub fn memory_summary(&self) -> (text: String)
        requires
            self.memory_fits(),
        ensures
            text@ == self.memory_summary_text(),
    {
        let mut s = String::new();
        self.push_memory_summary(&mut s);
        s
    }

    /// Turns debug tracking on.
    pub fn enable_debug(&mut self)
        ensures
            final(self).debug_stats.enabled,
            final(self).debug_stats == (DebugStats {
                enabled: true,
                start_time: final(self).debug_stats.start_time,
                ..old(self).debug_stats
            }),
            final(self).debug_stats.history() == old(self).debug_stats.history(),
            final(self).debug_stats.wf() == old(self).debug_stats.wf(),
            final(self).same_except_debug(*old(self)),
    {
        self.debug_stats.enable();
    }

    /// Everything but the debug statistics is as in `other`.
    pub open spec fn same_except_debug(&self, other: TripleBufferedResources) -> bool {
        &&& self.slots == other.slots
        &&& self.frame_count == other.frame_count
        &&& self.config_buffer == other.config_buffer
        &&& self.instance_count == other.instance_count
        &&& self.allocation_stats == other.allocation_stats
        &&& self.current_write_slot == other.current_write_slot
        &&& self.last_viewport_width == other.last_viewport_width
        &&& self.last_viewport_height == other.last_viewport_height
        &&& self.last_bull_color == other.last_bull_color
        &&& self.last_bear_color == other.last_bear_color
        &&& self.last_wick_color == other.last_wick_color
    }

    /// Turns debug tracking off.
    pub fn disable_debug(&mut self)
        ensures
            final(self).debug_stats == (DebugStats { enabled: false, ..old(self).debug_stats }),
            final(self).same_except_debug(*old(self)),
    {
        self.debug_stats.disable();
    }

    /// Whether debug tracking is on.
    pub fn is_debug_enabled(&self) -> (enabled: bool)
        ensures
            enabled == self.debug_stats.enabled,
    {
        self.debug_stats.enabled
    }

    /// The debug statistics.
    pub fn get_debug_stats(&self) -> (stats: &DebugStats)
        ensures
            *stats == self.debug_stats,
    {
        &self.debug_stats
    }

    /// Starts debug timing of the current frame with its rotation.
    pub fn debug_begin_frame(&mut self)
        requires
            old(self).frame_count <= u64::MAX - BUFFER_COUNT,
        ensures
            !old(self).debug_stats.enabled ==> *final(self) == *old(self),
            old(self).debug_stats.enabled ==> {
                &&& final(self).debug_stats.in_progress() == FrameTiming {
                    frame: old(self).frame_count,
                    write_slot: write_slot_of(old(self).frame_count as nat) as usize,
                    gpu_read_slot: gpu_read_slot_of(old(self).frame_count as nat) as usize,
                    ..FrameTiming::zero()
                }
                &&& final(self).debug_stats.same_history(old(self).debug_stats)
                &&& final(self).debug_stats.total_fence_waits == old(self).debug_stats.total_fence_waits
                &&& final(self).debug_stats.total_reallocations == old(self).debug_stats.total_reallocations
            },
            final(self).same_except_debug(*old(self)),
    {
        let rotation = self.rotation_state();
        self.debug_stats.begin_frame(rotation.frame, rotation.write_slot, rotation.gpu_read_slot);
    }

    /// Records a fence wait in the debug statistics.
    pub fn debug_record_fence_wait(&mut self, wait_us: u64)
        requires
            old(self).debug_stats.enabled && wait_us > 0 ==> old(self).debug_stats.total_fence_waits
                < u64::MAX,
        ensures
            !old(self).debug_stats.enabled ==> *final(self) == *old(self),
            old(self).debug_stats.enabled ==> {
                &&& final(self).debug_stats.in_progress() == FrameTiming {
                    fence_wait_us: wait_us,
                    ..old(self).debug_stats.in_progress()
                }
                &&& final(self).debug_stats.total_fence_waits == old(self).debug_stats.total_fence_waits + if wait_us > 0 { 1int } else { 0int }
                &&& final(self).debug_stats.total_reallocations == old(self).debug_stats.total_reallocations
                &&& final(self).debug_stats.same_history(old(self).debug_stats)
            },
            final(self).same_except_debug(*old(self)),
    {
        self.debug_stats.record_fence_wait(wait_us);
    }

    /// Records a reallocation in the debug statistics.
    pub fn debug_record_reallocation(&mut self)
        requires
            old(self).debug_stats.enabled ==> old(self).debug_stats.total_reallocations < u32::MAX,
        ensures
            !old(self).debug_stats.enabled ==> *final(self) == *old(self),
            old(self).debug_stats.enabled ==> {
                &&& final(self).debug_stats.in_progress() == FrameTiming {
                    reallocated: true,
                    ..old(self).debug_stats.in_progress()
                }
                &&& final(self).debug_stats.total_reallocations == old(self).debug_stats.total_reallocations + 1
                &&& final(self).debug_stats.total_fence_waits == old(self).debug_stats.total_fence_waits
                &&& final(self).debug_stats.same_history(old(self).debug_stats)
            },
            final(self).same_except_debug(*old(self)),
    {
        self.debug_stats.record_reallocation();
    }

    /// Records the instance count in the debug statistics.
    pub fn debug_record_instance_count(&mut self, count: u32)
        ensures
            !old(self).debug_stats.enabled ==> *final(self) == *old(self),
            old(self).debug_stats.enabled ==> {
                &&& final(self).debug_stats.in_progress() == FrameTiming {
                    instance_count: count,
                    ..old(self).debug_stats.in_progress()
                }
                &&& final(self).debug_stats.total_reallocations == old(self).debug_stats.total_reallocations
                &&& final(self).debug_stats.total_fence_waits == old(self).debug_stats.total_fence_waits
                &&& final(self).debug_stats.same_history(old(self).debug_stats)
            },
            final(self).same_except_debug(*old(self)),
    {
        self.debug_stats.record_instance_count(count);
    }

    /// Ends debug timing of the current frame.
    pub fn debug_end_frame(&mut self)
        requires
            old(self).wf(),
        ensures
            final(self).wf(),
            !old(self).debug_stats.enabled ==> *final(self) == *old(self),
            old(self).debug_stats.enabled ==> final(self).debug_stats.history().len() == (if old(
                self,
            ).debug_stats.history().len() < 60 {
                old(self).debug_stats.history().len() + 1
            } else {
                60
            }),
            old(self).debug_stats.enabled ==> {
                let stored = final(self).debug_stats.in_progress();
                &&& stored == FrameTiming {
                    write_time_us: stored.write_time_us,
                    ..old(self).debug_stats.in_progress()
                }
                &&& final(self).debug_stats.timeline() == last_window(
                    old(self).debug_stats.timeline().push(stored),
                )
                &&& final(self).debug_stats.enabled
                &&& final(self).debug_stats.total_fence_waits == old(self).debug_stats.total_fence_waits
                &&& final(self).debug_stats.max_fence_wait_us == old(self).debug_stats.max_fence_wait_us
                &&& final(self).debug_stats.total_reallocations == old(self).debug_stats.total_reallocations
            },
            final(self).same_except_debug(*old(self)),
    {
        self.debug_stats.end_frame();
    }

    // ==================== Fence management ====================

    /// Whether the current slot's fence is ready at the current frame.
    pub fn current_slot_is_safe(&self) -> (safe: bool)
        ensures
            safe == fence_ready(self.slots[self.current()].fence.submission_frame, self.frame_count),
    {
        self.current_slot().is_safe_for_write(self.frame_count)
    }

    /// Marks the current slot as being written.
    pub fn begin_frame_write(&mut self)
        ensures
            final(self).slots@ == old(self).slots@.update(
                old(self).current(),
                FrameSlot {
                    fence: FrameFence {
                        state: FrameSyncState::Writing,
                        ..old(self).slots[old(self).current()].fence
                    },
                    ..old(self).slots[old(self).current()]
                },
            ),
            final(self).same_except_slots(*old(self)),
            old(self).submissions_aligned() ==> final(self).submissions_aligned(),
    {
        let index = self.current_index();
        self.slots[index].begin_write();
        assert(self.slots@ =~= old(self).slots@.update(
            old(self).current(),
            FrameSlot {
                fence: FrameFence {
                    state: FrameSyncState::Writing,
                    ..old(self).slots[old(self).current()].fence
                },
                ..old(self).slots[old(self).current()]
            },
        ));
    }

    /// Marks the current slot as submitted at the current frame.
    pub fn end_frame_write(&mut self)
        ensures
            ({
                let i = old(self).current();
                &&& final(self).slots[i].fence.submission_frame == Some(old(self).frame_count)
                &&& final(self).slots[i].fence.state == FrameSyncState::Submitted
                &&& final(self).slots[i].fence.submission_time is Some
                &&& final(self).slots[i].fence.completion_time is None
                &&& final(self).slots[i].same_buffers(old(self).slots[i])
                &&& forall|j: int|
                    0 <= j < 3 && j != i ==> #[trigger] final(self).slots[j] == old(self).slots[j]
            }),
            final(self).same_except_slots(*old(self)),
    {
        let frame = self.frame_count;
        let index = self.current_index();
        self.slots[index].end_write(frame);
    }

    /// Applies the fence rule to slot `i`.
    fn update_slot_fence(&mut self, i: usize)
        requires
            i < 3,
        ensures
            fence_updated(old(self).slots[i as int], final(self).slots[i as int], old(self).frame_count),
            forall|j: int| 0 <= j < 3 && j != i ==> #[trigger] final(self).slots[j] == old(self).slots[j],
            final(self).same_except_slots(*old(self)),
    {
        if self.slots[i].fence.state == FrameSyncState::Submitted && self.slots[i].fence.is_ready(
            self.frame_count,
        ) {
            self.slots[i].mark_complete();
        }
    }

    /// Completes every submitted slot whose fence is ready; nothing else changes.
    pub fn update_fence_states(&mut self)
        ensures
            forall|i: int|
                0 <= i < 3 ==> fence_updated(
                    old(self).slots[i],
                    #[trigger] final(self).slots[i],
                    old(self).frame_count,
                ),
            final(self).same_except_slots(*old(self)),
            old(self).submissions_aligned() ==> final(self).submissions_aligned(),
    {
        self.update_slot_fence(0);
        self.update_slot_fence(1);
        self.update_slot_fence(2);
        assert forall|i: int|
            0 <= i < 3 implies fence_updated(
            old(self).slots[i],
            #[trigger] self.slots[i],
            old(self).frame_count,
        ) by {
            if i == 0 {} else if i == 1 {} else {}
        }
        proof {
            if old(self).submissions_aligned() {
                assert forall|i: int| 0 <= i < 3 implies match (#[trigger] self.slots[i]).fence.submission_frame {
                    None => true,
                    Some(f) => f % 3 == i && f < self.frame_count,
                } by {
                    assert(self.slots[i].fence.submission_frame == old(self).slots[i].fence.submission_frame);
                }
            }
        }
    }

    /// `(index, state, submission frame)` of each slot.
    pub fn fence_summary(&self) -> (summary: [(usize, FrameSyncState, Option<u64>); BUFFER_COUNT])
        ensures
            forall|i: int|
                0 <= i < 3 ==> #[trigger] summary[i] == (
                    i as usize,
                    self.slots[i].fence.state,
                    self.slots[i].fence.submission_frame,
                ),
    {
        let summary = [
            (0usize, self.slots[0].fence.state, self.slots[0].fence.submission_frame),
            (1usize, self.slots[1].fence.state, self.slots[1].fence.submission_frame),
            (2usize, self.slots[2].fence.state, self.slots[2].fence.submission_frame),
        ];
        assert forall|i: int|
            0 <= i < 3 implies #[trigger] summary[i] == (
            i as usize,
            self.slots[i].fence.state,
            self.slots[i].fence.submission_frame,
        ) by {
            if i == 0 {} else if i == 1 {} else {}
        }
        summary
    }

    /// Whether some slot is submitted and not yet complete.
    pub fn has_pending_fences(&self) -> (pending: bool)
        ensures
            pending == (exists|i: int|
                0 <= i < 3 && (#[trigger] self.slots[i]).fence.state == FrameSyncState::Submitted),
    {
        let a = self.slots[0].fence.state == FrameSyncState::Submitted;
        let b = self.slots[1].fence.state == FrameSyncState::Submitted;
        let c = self.slots[2].fence.state == FrameSyncState::Submitted;
        proof {
            if a {
                assert(self.slots[0].fence.state == FrameSyncState::Submitted);
            }
            if b {
                assert(self.slots[1].fence.state == FrameSyncState::Submitted);
            }
            if c {
                assert(self.slots[2].fence.state == FrameSyncState::Submitted);
            }
        }
        a || b || c
    }

    /// Completes every submitted slot, ready or not.
    pub fn wait_all_fences(&mut self)
        ensures
            forall|i: int|
                0 <= i < 3 ==> {
                    let before = old(self).slots[i];
                    let after = #[trigger] final(self).slots[i];
                    if before.fence.state == FrameSyncState::Submitted {
                        &&& after.fence.state == FrameSyncState::Complete
                        &&& after.fence.submission_frame == before.fence.submission_frame
                        &&& after.fence.completion_time is Some
                        &&& after.same_buffers(before)
                    } else {
                        after == before
                    }
                },
            final(self).same_except_slots(*old(self)),
    {
        if self.slots[0].fence.state == FrameSyncState::Submitted {
            self.slots[0].mark_complete();
        }
        if self.slots[1].fence.state == FrameSyncState::Submitted {
            self.slots[1].mark_complete();
        }
        if self.slots[2].fence.state == FrameSyncState::Submitted {
            self.slots[2].mark_complete();
        }
        assert forall|i: int|
            0 <= i < 3 implies {
            let before = old(self).slots[i];
            let after = #[trigger] self.slots[i];
            if before.fence.state == FrameSyncState::Submitted {
                &&& after.fence.state == FrameSyncState::Complete
                &&& after.fence.submission_frame == before.fence.submission_frame
                &&& after.fence.completion_time is Some
                &&& after.same_buffers(before)
            } else {
                after == before
            }
        } by {
            if i == 0 {} else if i == 1 {} else {}
        }
    }

    /// Resets every fence to the never-used state; buffers stay.
    pub fn reset_all_fences(&mut self)
        ensures
            forall|i: int| 0 <= i < 3 ==> fence_reset_of(old(self).slots[i], #[trigger] final(self).slots[i]),
            final(self).same_except_slots(*old(self)),
            final(self).submissions_aligned(),
    {
        self.slots[0].fence.reset();
        self.slots[1].fence.reset();
        self.slots[2].fence.reset();
        assert forall|i: int| 0 <= i < 3 implies fence_reset_of(old(self).slots[i], #[trigger] self.slots[i]) by {
            if i == 0 {} else if i == 1 {} else {}
        }
    }

    // ==================== Synchronization flow ====================

    /// Updates the fences, then reports whether the current slot is ready,
    /// or how many frames it still needs.
    pub fn try_acquire_slot(&mut self) -> (acquisition: SlotAcquisition)
        ensures
            forall|i: int|
                0 <= i < 3 ==> fence_updated(
                    old(self).slots[i],
                    #[trigger] final(self).slots[i],
                    old(self).frame_count,
                ),
            final(self).same_except_slots(*old(self)),
            ({
                let i = old(self).current();
                let submission = old(self).slots[i].fence.submission_frame;
                if fence_ready(submission, old(self).frame_count) {
                    acquisition == SlotAcquisition::Ready { slot_index: i as usize }
                } else {
                    acquisition == SlotAcquisition::Busy {
                        slot_index: i as usize,
                        frames_remaining: saturating_diff(
                            FRAMES_UNTIL_SAFE,
                            saturating_diff(old(self).frame_count, submission.unwrap()) as u64,
                        ) as u64,
                    }
                }
            }),
            old(self).submissions_aligned() ==> final(self).submissions_aligned(),
    {
        self.update_fence_states();
        let index = self.current_index();
        if self.slots[index].fence.is_ready(self.frame_count) {
            SlotAcquisition::Ready { slot_index: index }
        } else {
            let frames_remaining = match self.slots[index].fence.submission_frame {
                Some(sub) => FRAMES_UNTIL_SAFE.saturating_sub(self.frame_count.saturating_sub(sub)),
                None => 0,
            };
            SlotAcquisition::Busy { slot_index: index, frames_remaining }
        }
    }

    /// Updates the fences and returns the current slot index; a current slot
    /// whose fence is not ready is forced complete, which never happens when
    /// the submissions are aligned.
    pub fn wait_for_current_slot(&mut self) -> (index: usize)
        ensures
            index == old(self).current(),
            forall|i: int|
                0 <= i < 3 && i != index ==> fence_updated(
                    old(self).slots[i],
                    #[trigger] final(self).slots[i],
                    old(self).frame_count,
                ),
            ({
                let before = old(self).slots[index as int];
                let after = final(self).slots[index as int];
                if fence_ready(before.fence.submission_frame, old(self).frame_count) {
                    fence_updated(before, after, old(self).frame_count)
                } else {
                    &&& after.fence.state == FrameSyncState::Complete
                    &&& after.fence.submission_frame == before.fence.submission_frame
                    &&& after.fence.completion_time is Some
                    &&& after.same_buffers(before)
                }
            }),
            final(self).same_except_slots(*old(self)),
            old(self).submissions_aligned() ==> final(self).submissions_aligned(),
            old(self).submissions_aligned() ==> fence_updated(
                old(self).slots[index as int],
                final(self).slots[index as int],
                old(self).frame_count,
            ),
    {
        proof {
            if old(self).submissions_aligned() {
                lemma_aligned_slot_is_ready(*old(self));
            }
        }
        self.update_fence_states();
        let index = self.current_index();
        if !self.slots[index].fence.is_ready(self.frame_count) {
            self.slots[index].mark_complete();
        }
        proof {
            if old(self).submissions_aligned() {
                assert forall|i: int| 0 <= i < 3 implies match (#[trigger] self.slots[i]).fence.submission_frame {
                    None => true,
                    Some(f) => f % 3 == i && f < self.frame_count,
                } by {
                    assert(self.slots[i].fence.submission_frame == old(self).slots[i].fence.submission_frame);
                }
            }
        }
        index
    }

    /// Begins a frame: updates the fences, acquires the current slot (forcing
    /// it complete if needed), remembers it as the render slot and marks it
    /// as being written. Under the documented workflow (submissions aligned
    /// with the rotation, as every state reached from `new` by
    /// `begin_frame`/`complete_frame` pairs and `skip_frame` is) the slot was
    /// last submitted at least [`BUFFER_COUNT`] frames ago, so it is ready
    /// and never has to be forced: there is no fence wait after warm-up.
    pub fn begin_frame(&mut self) -> (context: FrameContext)
        ensures
            context == (FrameContext {
                frame_number: old(self).frame_count,
                slot_index: old(self).current() as usize,
                instance_count: old(self).instance_count,
            }),
            final(self).current_write_slot == context.slot_index,
            final(self).slots[old(self).current()].fence.state == FrameSyncState::Writing,
            final(self).slots[old(self).current()].fence.submission_frame == old(self).slots[old(
                self,
            ).current()].fence.submission_frame,
            final(self).slots[old(self).current()].same_buffers(old(self).slots[old(self).current()]),
            forall|i: int|
                0 <= i < 3 && i != old(self).current() ==> fence_updated(
                    old(self).slots[i],
                    #[trigger] final(self).slots[i],
                    old(self).frame_count,
                ),
            *final(self) == (TripleBufferedResources {
                slots: final(self).slots,
                current_write_slot: final(self).current_write_slot,
                ..*old(self)
            }),
            old(self).submissions_aligned() ==> final(self).submissions_aligned(),
            old(self).submissions_aligned() ==> fence_ready(
                old(self).slots[old(self).current()].fence.submission_frame,
                old(self).frame_count,
            ),
            old(self).submissions_aligned() ==> (old(self).slots[old(
                self,
            ).current()].fence.submission_frame matches Some(f) ==> f + BUFFER_COUNT <= old(
                self,
            ).frame_count),
    {
        proof {
            if old(self).submissions_aligned() {
                lemma_aligned_slot_is_ready(*old(self));
            }
        }
        self.update_fence_states();
        let ghost mid = *self;
        let slot_index = self.wait_for_current_slot();
        proof {
            assert forall|i: int|
                0 <= i < 3 && i != old(self).current() implies fence_updated(
                old(self).slots[i],
                #[trigger] self.slots[i],
                old(self).frame_count,
            ) by {
                lemma_fence_update_idempotent(old(self).slots[i], mid.slots[i], self.slots[i], old(self).frame_count);
            }
        }
        self.current_write_slot = slot_index;
        self.begin_frame_write();
        FrameContext {
            frame_number: self.frame_count,
            slot_index,
            instance_count: self.instance_count,
        }
    }

    /// Completes a frame: marks the current slot submitted and advances.
    pub fn complete_frame(&mut self)
        ensures
            ({
                let i = old(self).current();
                &&& final(self).slots[i].fence.submission_frame == Some(old(self).frame_count)
                &&& final(self).slots[i].fence.state == FrameSyncState::Submitted
                &&& final(self).slots[i].same_buffers(old(self).slots[i])
                &&& forall|j: int|
                    0 <= j < 3 && j != i ==> #[trigger] final(self).slots[j] == old(self).slots[j]
            }),
            final(self).frame_count == (if old(self).frame_count == u64::MAX {
                0
            } else {
                old(self).frame_count + 1
            }),
            *final(self) == (TripleBufferedResources {
                slots: final(self).slots,
                frame_count: final(self).frame_count,
                ..*old(self)
            }),
            old(self).submissions_aligned() && old(self).frame_count < u64::MAX
                ==> final(self).submissions_aligned(),
    {
        self.end_frame_write();
        proof {
            if old(self).submissions_aligned() && old(self).frame_count < u64::MAX {
                assert forall|i: int| 0 <= i < 3 implies match (#[trigger] self.slots[i]).fence.submission_frame {
                    None => true,
                    Some(f) => f % 3 == i && f < self.frame_count + 1,
                } by {
                    if i != old(self).current() {
                        assert(self.slots[i] == old(self).slots[i]);
                    }
                }
            }
        }
        self.advance_frame();
    }

    /// Advances without writing: updates the fences and moves to the next frame.
    pub fn skip_frame(&mut self)
        ensures
            forall|i: int|
                0 <= i < 3 ==> fence_updated(
                    old(self).slots[i],
                    #[trigger] final(self).slots[i],
                    old(self).frame_count,
                ),
            final(self).frame_count == (if old(self).frame_count == u64::MAX {
                0
            } else {
                old(self).frame_count + 1
            }),
            *final(self) == (TripleBufferedResources {
                slots: final(self).slots,
                frame_count: final(self).frame_count,
                ..*old(self)
            }),
            old(self).submissions_aligned() && old(self).frame_count < u64::MAX
                ==> final(self).submissions_aligned(),
    {
        self.update_fence_states();
        self.advance_frame();
    }

    // ==================== Report ====================

    /// The text of [`TripleBufferedResources::debug_report`].
    pub open spec fn debug_report_text(&self) -> Seq<char> {
        "=== Triple Buffer Debug Report ===\n\nCurrent State: "@ + rotation_text(
            rotation_at(self.frame_count),
        ) + "\n"@ + self.memory_summary_text() + "\n\n"@ + stats_summary_part(self.debug_stats)
            + "\n\nFence States:\n"@ + fence_line_text(0, self.slots[0].fence) + fence_line_text(
            1,
            self.slots[1].fence,
        ) + fence_line_text(2, self.slots[2].fence) + "\nHealth Check: "@ + health_part(
            self.debug_stats,
        )
    }

    /// Appends one line of the fence report.
    fn push_fence_line(s: &mut String, index: usize, fence: FrameFence)
        ensures
            final(s)@ == old(s)@ + fence_line_text(index as nat, fence),
    {
        s.append("  Slot ");
        push_decimal(s, index as u128);
        s.append(": ");
        push_sync_state(s, fence.state);
        s.append(" (submitted: ");
        push_option_frame(s, fence.submission_frame);
        s.append(")\n");
        assert(s@ =~= old(s)@ + fence_line_text(index as nat, fence));
    }

    /// Full report: rotation, memory, statistics, fences and health.
    pub fn debug_report(&self) -> (report: String)
        requires
            self.wf(),
            self.memory_fits(),
            self.frame_count <= u64::MAX - BUFFER_COUNT,
        ensures
            report@ == self.debug_report_text(),
    {
        let mut report = String::new();
        report.append("=== Triple Buffer Debug Report ===\n\nCurrent State: ");
        let rotation = self.rotation_state();
        rotation.push_text(&mut report);
        report.append("\n");
        self.push_memory_summary(&mut report);
        report.append("\n\n");
        let summary = self.debug_stats.summary();
        report.append(summary.as_str());
        report.append("\n\nFence States:\n");
        Self::push_fence_line(&mut report, 0, self.slots[0].fence);
        Self::push_fence_line(&mut report, 1, self.slots[1].fence);
        Self::push_fence_line(&mut report, 2, self.slots[2].fence);
        report.append("\nHealth Check: ");
        match self.debug_stats.health_check() {
            Ok(()) => {
                report.append("HEALTHY ✓\n");
            },
            Err(issues) => {
                report.append("ISSUES DETECTED:\n");
                report.append(issues.as_str());
                report.append("\n");
            },
        }
        assert(report@ =~= self.debug_report_text());
        report
    }
}

/// The statistics part of the debug report.
pub open spec fn stats_summary_part(d: DebugStats) -> Seq<char> {
    if !d.enabled || d.history().len() == 0 {
        "Debug stats: disabled or no data"@
    } else {
        summary_text(d)
    }
}

/// The health part of the debug report.
pub open spec fn health_part(d: DebugStats) -> Seq<char> {
    if !d.enabled || !has_health_issue(d) {
        "HEALTHY ✓\n"@
    } else {
        "ISSUES DETECTED:\n"@ + health_issues(d) + "\n"@
    }
}

/// Updating the fences twice at the same frame is the same as updating
/// them once: a slot the first update completed is no longer submitted,
/// and a submitted slot it left alone is still not ready.
pub proof fn lemma_fence_update_idempotent(a: FrameSlot, b: FrameSlot, c: FrameSlot, frame: u64)
    requires
        fence_updated(a, b, frame),
        fence_updated(b, c, frame),
    ensures
        fence_updated(a, c, frame),
{
}

/// Under the documented workflow a slot is never reused early: when the
/// submissions are aligned, the current slot was last submitted at least
/// [`BUFFER_COUNT`] frames ago (or never), so its fence is ready and
/// acquiring it never has to wait.
pub proof fn lemma_aligned_slot_is_ready(r: TripleBufferedResources)
    requires
        r.submissions_aligned(),
    ensures
        fence_ready(r.slots[r.current()].fence.submission_frame, r.frame_count),
        r.slots[r.current()].fence.submission_frame matches Some(f) ==> f + BUFFER_COUNT
            <= r.frame_count,
{
    let i = r.current();
    match r.slots[i].fence.submission_frame {
        None => {},
        Some(f) => {
            assert(f % 3 == r.frame_count % 3 && f < r.frame_count);
            assert(f + 3 <= r.frame_count);
        },
    }
}

} // verus!
