//! Triple buffering of GPU resources: while the CPU writes slot
//! `frame % 3`, the GPU reads the slot written two frames earlier and the
//! slot written one frame earlier is in flight.

pub mod capacity;
pub mod constants;

pub use capacity::{calculate_grown_capacity, calculate_initial_capacity, format_bytes};
pub use constants::{
    BUFFER_COUNT, BUFFER_GROWTH_FACTOR, DEBUG_HISTORY_SIZE, FRAMES_UNTIL_SAFE, MIN_BUFFER_CAPACITY,
};
pub mod sync;
pub use sync::{FrameFence, FrameSyncState};
pub mod slot;
pub use slot::{BindGroupHandle, FrameSlot, GpuBufferHandle};
pub mod allocation_stats;
pub use allocation_stats::AllocationStats;
pub mod debug_stats;
pub use debug_stats::{DebugStats, FrameTiming};
pub mod resources;
pub use resources::{FrameContext, RotationState, SlotAcquisition, TripleBufferedResources};
pub mod wrappers;
pub use wrappers::{CandleTripleBuffer, VolumeTripleBuffer};
