//! One slot of the triple buffer: which GPU buffers it holds, their
//! capacities, and its fence.

use vstd::prelude::*;

use super::sync::{fence_ready, FrameFence, FrameSyncState};

verus! {

/// Handle of a GPU buffer owned by the renderer. The library only tracks
/// which buffers exist; the renderer maps handles to device buffers.
#[derive(Debug, Clone, Copy, PartialEq, Eq, Structural)]
pub struct GpuBufferHandle {
    /// Renderer-assigned identifier.
    pub id: u64,
}

/// Handle of a GPU bind group owned by the renderer.
#[derive(Debug, Clone, Copy, PartialEq, Eq, Structural)]
pub struct BindGroupHandle {
    /// Renderer-assigned identifier.
    pub id: u64,
}

/// Resources of one frame slot.
#[derive(Debug, Clone, Copy)]
pub struct FrameSlot {
    /// Instance data buffer of this slot.
    pub instance_buffer: Option<GpuBufferHandle>,
    /// View uniform buffer of this slot.
    pub view_uniform_buffer: Option<GpuBufferHandle>,
    /// Bind group referencing this slot's buffers.
    pub bind_group: Option<BindGroupHandle>,
    /// Allocated capacity of the instance buffer, in bytes.
    pub buffer_capacity: usize,
    /// Allocated capacity of the uniform buffer, in bytes.
    pub uniform_buffer_capacity: usize,
    /// Whether the bind group matches the current buffers.
    pub bind_group_valid: bool,
    /// Synchronization fence of this slot.
    pub fence: FrameFence,
}

impl Default for FrameSlot {
    fn default() -> (slot: Self)
        ensures
            slot.is_empty(),
    {
        FrameSlot::new()
    }
}

impl FrameSlot {
    /// A slot with no buffers, zero capacities and an unused fence.
    pub open spec fn is_empty(&self) -> bool {
        &&& self.instance_buffer is None
        &&& self.view_uniform_buffer is None
        &&& self.bind_group is None
        &&& self.buffer_capacity == 0
        &&& self.uniform_buffer_capacity == 0
        &&& !self.bind_group_valid
        &&& self.fence.is_unused()
    }

    /// An empty slot.
    pub fn new() -> (slot: Self)
        ensures
            slot.is_empty(),
    {
        FrameSlot {
            instance_buffer: None,
            view_uniform_buffer: None,
            bind_group: None,
            buffer_capacity: 0,
            uniform_buffer_capacity: 0,
            bind_group_valid: false,
            fence: FrameFence::new(),
        }
    }

    /// Whether the instance buffer is missing or smaller than `required_size`.
    pub fn needs_reallocation(&self, required_size: usize) -> (needs: bool)
        ensures
            needs == (self.instance_buffer is None || self.buffer_capacity < required_size),
    {
        self.instance_buffer.is_none() || self.buffer_capacity < required_size
    }

    /// Whether the uniform buffer is missing or smaller than `required_size`.
    pub fn needs_uniform_reallocation(&self, required_size: usize) -> (needs: bool)
        ensures
            needs == (self.view_uniform_buffer is None || self.uniform_buffer_capacity
                < required_size),
    {
        self.view_uniform_buffer.is_none() || self.uniform_buffer_capacity < required_size
    }

    /// Marks the bind group stale; nothing else changes.
    pub fn invalidate_bind_group(&mut self)
        ensures
            *final(self) == (FrameSlot { bind_group_valid: false, ..*old(self) }),
    {
        self.bind_group_valid = false;
    }

    /// Whether the CPU may write the slot at `current_frame` (its fence is ready).
    pub fn is_safe_for_write(&self, current_frame: u64) -> (safe: bool)
        ensures
            safe == fence_ready(self.fence.submission_frame, current_frame),
    {
        self.fence.is_ready(current_frame)
    }

    /// Marks the slot as being written by the CPU.
    pub fn begin_write(&mut self)
        ensures
            *final(self) == (FrameSlot {
                fence: FrameFence { state: FrameSyncState::Writing, ..old(self).fence },
                ..*old(self)
            }),
    {
        self.fence.signal_writing();
    }

    /// Marks the slot as submitted to the GPU at `frame`.
    pub fn end_write(&mut self, frame: u64)
        ensures
            final(self).fence.submission_frame == Some(frame),
            final(self).fence.state == FrameSyncState::Submitted,
            final(self).fence.submission_time is Some,
            final(self).fence.completion_time is None,
            final(self).same_buffers(*old(self)),
    {
        self.fence.signal_submission(frame);
    }

    /// Marks the slot's GPU work complete.
    pub fn mark_complete(&mut self)
        ensures
            final(self).fence.state == FrameSyncState::Complete,
            final(self).fence.submission_frame == old(self).fence.submission_frame,
            final(self).fence.completion_time is Some,
            final(self).same_buffers(*old(self)),
    {
        self.fence.signal_complete();
    }

    /// The slot's synchronization state.
    pub fn sync_state(&self) -> (state: FrameSyncState)
        ensures
            state == self.fence.state,
    {
        self.fence.state
    }

    /// Everything but the fence is as in `other`.
    pub open spec fn same_buffers(&self, other: FrameSlot) -> bool {
        &&& self.instance_buffer == other.instance_buffer
        &&& self.view_uniform_buffer == other.view_uniform_buffer
        &&& self.bind_group == other.bind_group
        &&& self.buffer_capacity == other.buffer_capacity
        &&& self.uniform_buffer_capacity == other.uniform_buffer_capacity
        &&& self.bind_group_valid == other.bind_group_valid
    }
}

} // verus!
