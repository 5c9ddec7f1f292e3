//! The per-frame upload of instance data into the triple buffer: which GPU
//! buffers are created or written, and how the slot bookkeeping follows.
//! The renderer carries out the returned commands in order, creating a
//! device buffer or bind group for each new handle.

use vstd::prelude::*;

use super::triple_buffer::allocation_stats::AllocationStats;
use super::triple_buffer::capacity::{
    calculate_grown_capacity, calculate_initial_capacity, grown_capacity, initial_capacity,
    lemma_capacities_cover,
};
use super::triple_buffer::debug_stats::{last_window, FrameTiming};
use super::triple_buffer::resources::{
    fence_updated, gpu_read_slot_of, wrapping_frame_sub, TripleBufferedResources,
};
use super::triple_buffer::slot::{BindGroupHandle, FrameSlot, GpuBufferHandle};
use super::triple_buffer::sync::FrameSyncState;
use crate::clock::{elapsed_micros, now};

verus! {

/// Bytes of one instance record (candle or volume: eight `f32`).
pub const INSTANCE_RECORD_SIZE: usize = 32;

/// Bytes of the view uniform (a 4x4 matrix and four `f32` quadruples).
pub const VIEW_UNIFORM_SIZE: usize = 128;

/// Which instanced pass is uploaded. Both rewrite their instance data into
/// the slot every frame, so the slot a later frame draws holds the data of
/// the frame that wrote it; the candle pass's bind group also references a
/// shared configuration buffer.
#[derive(Debug, Clone, Copy, PartialEq, Eq, Structural)]
pub enum InstancePass {
    /// Candlestick bodies and wicks.
    Candles,
    /// Volume bars.
    Volumes,
}

/// What the renderer extracted for this frame. Floats are given by their
/// IEEE bit patterns.
#[derive(Debug, Clone, Copy)]
pub struct UploadInput {
    /// Whether the render pipeline is ready.
    pub has_pipeline: bool,
    /// Number of instance records.
    pub instance_count: usize,
    /// Viewport width.
    pub viewport_width: u32,
    /// Viewport height.
    pub viewport_height: u32,
    /// Bullish color.
    pub bull_color: [u32; 4],
    /// Bearish color.
    pub bear_color: [u32; 4],
    /// Wick color (candles only).
    pub wick_color: [u32; 4],
}

/// GPU work for the renderer, in order.
#[derive(Debug, Clone, Copy, PartialEq, Eq)]
pub enum GpuCommand {
    /// Create the instance buffer of `slot`: `capacity` bytes holding the
    /// instance records followed by zeros.
    CreateInstanceBuffer { slot: usize, handle: GpuBufferHandle, capacity: usize },
    /// Write the instance records at the start of an existing buffer.
    WriteInstances { handle: GpuBufferHandle },
    /// Create the view uniform buffer of `slot` holding the view uniform.
    CreateUniformBuffer { slot: usize, handle: GpuBufferHandle, size: usize },
    /// Write the view uniform into an existing buffer.
    WriteUniform { handle: GpuBufferHandle },
    /// Create the shared configuration buffer holding the default config.
    CreateConfigBuffer { handle: GpuBufferHandle },
    /// Create the bind group of `slot` over its view uniform buffer and,
    /// for candles, the configuration buffer.
    CreateBindGroup {
        slot: usize,
        group: BindGroupHandle,
        view: GpuBufferHandle,
        config: Option<GpuBufferHandle>,
    },
}

// ==================== The plan ====================

/// 1 when `s` has no instance buffer, else 0.
pub open spec fn missing(s: FrameSlot) -> nat {
    if s.instance_buffer is None {
        1
    } else {
        0
    }
}

/// Buffer handle number `id`.
pub open spec fn handle(id: nat) -> GpuBufferHandle {
    GpuBufferHandle { id: id as u64 }
}

/// Slot `s` after preallocation: a missing instance buffer is created with
/// handle `id` and `capacity` bytes.
pub open spec fn prealloc_slot(s: FrameSlot, capacity: nat, id: nat) -> FrameSlot {
    if s.instance_buffer is None {
        FrameSlot { instance_buffer: Some(handle(id)), buffer_capacity: capacity as usize, ..s }
    } else {
        s
    }
}

/// The command preallocating slot `s` at index `i`.
pub open spec fn prealloc_commands(s: FrameSlot, i: nat, capacity: nat, id: nat) -> Seq<GpuCommand> {
    if s.instance_buffer is None {
        seq![GpuCommand::CreateInstanceBuffer { slot: i as usize, handle: handle(id), capacity: capacity as usize }]
    } else {
        Seq::empty()
    }
}

/// Whether the slots are preallocated before a frame of `bytes` bytes:
/// some slot lacks an instance buffer and there is data.
pub open spec fn preallocates(slots: Seq<FrameSlot>, bytes: nat) -> bool {
    (slots[0].instance_buffer is None || slots[1].instance_buffer is None
        || slots[2].instance_buffer is None) && bytes > 0
}

/// Slots, commands and next handle number after preallocation, handles
/// numbered from `first` in slot order.
pub open spec fn plan_prealloc(slots: Seq<FrameSlot>, bytes: nat, first: nat) -> (Seq<FrameSlot>, Seq<GpuCommand>, nat) {
    if preallocates(slots, bytes) {
        let cap = initial_capacity(bytes);
        let id1 = first + missing(slots[0]);
        let id2 = id1 + missing(slots[1]);
        (
            seq![prealloc_slot(slots[0], cap, first), prealloc_slot(slots[1], cap, id1), prealloc_slot(slots[2], cap, id2)],
            prealloc_commands(slots[0], 0, cap, first) + prealloc_commands(slots[1], 1, cap, id1)
                + prealloc_commands(slots[2], 2, cap, id2),
            id2 + missing(slots[2]),
        )
    } else {
        (slots, Seq::empty(), first)
    }
}

/// Whether slot `s` must get a new instance buffer for `bytes` bytes.
pub open spec fn needs_instance_buffer(s: FrameSlot, bytes: nat) -> bool {
    s.instance_buffer is None || s.buffer_capacity < bytes
}

/// Slot `s` after the instance upload: a new buffer of grown capacity with
/// handle `id` when needed (its bind group goes stale).
pub open spec fn instance_slot(s: FrameSlot, bytes: nat, id: nat) -> FrameSlot {
    if needs_instance_buffer(s, bytes) {
        FrameSlot {
            instance_buffer: Some(handle(id)),
            buffer_capacity: grown_capacity(bytes) as usize,
            bind_group_valid: false,
            ..s
        }
    } else {
        s
    }
}

/// The instance upload of slot `s` at index `c`: create a buffer holding
/// the data, or write the data into the existing one. Either way the slot
/// holds this frame's instances afterwards.
pub open spec fn instance_commands(s: FrameSlot, c: nat, bytes: nat, id: nat) -> Seq<GpuCommand> {
    if needs_instance_buffer(s, bytes) {
        seq![GpuCommand::CreateInstanceBuffer { slot: c as usize, handle: handle(id), capacity: grown_capacity(bytes) as usize }]
    } else {
        seq![GpuCommand::WriteInstances { handle: s.instance_buffer.unwrap() }]
    }
}

/// Whether slot `s` must get a new view uniform buffer of `size` bytes.
pub open spec fn needs_uniform_buffer(s: FrameSlot, size: nat) -> bool {
    s.view_uniform_buffer is None || s.uniform_buffer_capacity < size
}

/// Slot `s` after the uniform upload.
pub open spec fn uniform_slot(s: FrameSlot, size: nat, id: nat) -> FrameSlot {
    if needs_uniform_buffer(s, size) {
        FrameSlot {
            view_uniform_buffer: Some(handle(id)),
            uniform_buffer_capacity: size as usize,
            bind_group_valid: false,
            ..s
        }
    } else {
        s
    }
}

/// The uniform upload of slot `s` at index `c`: create a buffer, or write
/// the existing one.
pub open spec fn uniform_commands(s: FrameSlot, c: nat, size: nat, id: nat) -> Seq<GpuCommand> {
    if needs_uniform_buffer(s, size) {
        seq![GpuCommand::CreateUniformBuffer { slot: c as usize, handle: handle(id), size: size as usize }]
    } else {
        seq![GpuCommand::WriteUniform { handle: s.view_uniform_buffer.unwrap() }]
    }
}

/// Slot `s` with a stale bind group.
pub open spec fn invalidated(s: FrameSlot) -> FrameSlot {
    FrameSlot { bind_group_valid: false, ..s }
}

/// Whether the pass creates the shared configuration buffer now.
pub open spec fn creates_config(pass: InstancePass, config: Option<GpuBufferHandle>) -> bool {
    pass == InstancePass::Candles && config is None
}

/// Whether slot `s` needs a (new) bind group and has what it binds.
pub open spec fn needs_bind_group(s: FrameSlot, pass: InstancePass, config: Option<GpuBufferHandle>) -> bool {
    &&& s.bind_group is None || !s.bind_group_valid
    &&& s.instance_buffer is Some
    &&& s.view_uniform_buffer is Some
    &&& pass == InstancePass::Candles ==> config is Some
}

/// Slots after the candle pass creates its configuration buffer (every
/// bind group goes stale), or unchanged.
pub open spec fn after_config(slots: Seq<FrameSlot>, creates: bool) -> Seq<FrameSlot> {
    if creates {
        slots.map_values(|x: FrameSlot| invalidated(x))
    } else {
        slots
    }
}

/// Slot `d` with the bind group numbered `id`, valid.
pub open spec fn bound(d: FrameSlot, id: nat) -> FrameSlot {
    FrameSlot { bind_group: Some(BindGroupHandle { id: id as u64 }), bind_group_valid: true, ..d }
}

/// Bytes of the instance records of `input`.
pub open spec fn instance_bytes(input: UploadInput) -> nat {
    (input.instance_count * INSTANCE_RECORD_SIZE) as nat
}

/// The upload of a frame that has instances, starting from `r` with fresh
/// handles numbered from `first`: the slots' buffers (fences as in `r`),
/// the configuration buffer, the commands, and the next free number.
pub open spec fn upload_plan(r: TripleBufferedResources, pass: InstancePass, input: UploadInput, first: nat) -> (
    Seq<FrameSlot>,
    Option<GpuBufferHandle>,
    Seq<GpuCommand>,
    nat,
) {
    let bytes = instance_bytes(input);
    let c = r.current();
    let pre = plan_prealloc(r.slots@, bytes, first);
    let a = pre.0[c];
    let n1 = pre.2;
    let b = instance_slot(a, bytes, n1);
    let n2 = n1 + if needs_instance_buffer(a, bytes) { 1nat } else { 0nat };
    let u = uniform_slot(b, VIEW_UNIFORM_SIZE as nat, n2);
    let n3 = n2 + if needs_uniform_buffer(b, VIEW_UNIFORM_SIZE as nat) { 1nat } else { 0nat };
    let s3 = pre.0.update(c, u);
    let cfg = creates_config(pass, r.config_buffer);
    let s4 = after_config(s3, cfg);
    let config = if cfg { Some(handle(n3)) } else { r.config_buffer };
    let n4 = n3 + if cfg { 1nat } else { 0nat };
    let d = s4[c];
    let bind = needs_bind_group(d, pass, config);
    let s5 = if bind { s4.update(c, bound(d, n4)) } else { s4 };
    let commands = pre.1 + instance_commands(a, c as nat, bytes, n1)
        + uniform_commands(b, c as nat, VIEW_UNIFORM_SIZE as nat, n2) + (if cfg {
        seq![GpuCommand::CreateConfigBuffer { handle: handle(n3) }]
    } else {
        Seq::empty()
    }) + (if bind {
        seq![GpuCommand::CreateBindGroup {
            slot: c as usize,
            group: BindGroupHandle { id: n4 as u64 },
            view: d.view_uniform_buffer.unwrap(),
            config: if pass == InstancePass::Candles { config } else { None },
        }]
    } else {
        Seq::empty()
    });
    (s5, config, commands, n4 + if bind { 1nat } else { 0nat })
}

/// Allocation counters once the frame's slot is acquired: the three
/// initial allocations when preallocating, and the peak instance count.
pub open spec fn start_stats(r: TripleBufferedResources, input: UploadInput) -> AllocationStats {
    let bytes = instance_bytes(input);
    let cap = initial_capacity(bytes);
    let st1 = if preallocates(r.slots@, bytes) {
        r.allocation_stats.after_initial(cap).after_initial(cap).after_initial(cap)
    } else {
        r.allocation_stats
    };
    let count = input.instance_count as u32;
    AllocationStats {
        peak_instance_count: if count > st1.peak_instance_count {
            count
        } else {
            st1.peak_instance_count
        },
        ..st1
    }
}

/// The current slot once preallocated (its handle numbers aside).
pub open spec fn current_after_prealloc(r: TripleBufferedResources, input: UploadInput) -> FrameSlot {
    plan_prealloc(r.slots@, instance_bytes(input), 0).0[r.current()]
}

/// Whether the upload of `input` grows the current slot's instance buffer.
pub open spec fn upload_reallocates(r: TripleBufferedResources, input: UploadInput) -> bool {
    needs_instance_buffer(current_after_prealloc(r, input), instance_bytes(input))
}

/// Allocation counters after the upload of a frame with instances.
pub open spec fn upload_stats(r: TripleBufferedResources, input: UploadInput) -> AllocationStats {
    if upload_reallocates(r, input) {
        start_stats(r, input).after_reallocation(
            current_after_prealloc(r, input).buffer_capacity as nat,
            grown_capacity(instance_bytes(input)),
        )
    } else {
        start_stats(r, input)
    }
}

/// Counter headroom for the upload of `input` (a skipped frame needs none:
/// its frame counter wraps): room for the three initial allocations when
/// it preallocates, for the reallocation when it grows the current slot,
/// and, with debug statistics on, for a fence wait (whether one is timed
/// depends on the clock) and for the reallocation it records.
pub open spec fn upload_fits(r: TripleBufferedResources, input: UploadInput) -> bool {
    let bytes = instance_bytes(input);
    let cap = initial_capacity(bytes);
    let a = r.allocation_stats;
    &&& input.instance_count * INSTANCE_RECORD_SIZE <= usize::MAX
    &&& r.frame_count <= u64::MAX - 3
    &&& preallocates(r.slots@, bytes) ==> {
        &&& a.initial_allocations + 3 <= u32::MAX
        &&& a.current_capacity + 3 * cap <= usize::MAX
        &&& a.total_bytes_allocated + 3 * cap <= usize::MAX
    }
    &&& upload_reallocates(r, input) ==> start_stats(r, input).can_record_reallocation(
        current_after_prealloc(r, input).buffer_capacity as nat,
        grown_capacity(bytes),
    )
    &&& r.debug_stats.enabled ==> r.debug_stats.total_fence_waits < u64::MAX
    &&& r.debug_stats.enabled && upload_reallocates(r, input) ==> r.debug_stats.total_reallocations
        < u32::MAX
}

// ==================== The upload ====================

/// Creates the instance buffer of slot `i` when it has none, with the
/// next free handle and `capacity` bytes.
fn preallocate_slot(
    res: &mut TripleBufferedResources,
    i: usize,
    capacity: usize,
    next_handle: &mut u64,
    commands: &mut Vec<GpuCommand>,
)
    requires
        i < 3,
        *old(next_handle) < u64::MAX,
    ensures
        final(res).slots@ == old(res).slots@.update(
            i as int,
            prealloc_slot(old(res).slots[i as int], capacity as nat, *old(next_handle) as nat),
        ),
        *final(res) == (TripleBufferedResources { slots: final(res).slots, ..*old(res) }),
        final(commands)@ == old(commands)@ + prealloc_commands(
            old(res).slots[i as int],
            i as nat,
            capacity as nat,
            *old(next_handle) as nat,
        ),
        *final(next_handle) == *old(next_handle) + missing(old(res).slots[i as int]),
{
    if res.slots[i].instance_buffer.is_none() {
        let h = GpuBufferHandle { id: *next_handle };
        *next_handle = *next_handle + 1;
        let slot = &mut res.slots[i];
        slot.instance_buffer = Some(h);
        slot.buffer_capacity = capacity;
        commands.push(GpuCommand::CreateInstanceBuffer { slot: i, handle: h, capacity });
    } else {
        assert(old(commands)@ + Seq::<GpuCommand>::empty() =~= old(commands)@);
        assert(res.slots@ =~= old(res).slots@.update(i as int, old(res).slots[i as int]));
    }
}

/// First-frame preallocation: when some slot lacks an instance buffer and
/// there is data, every missing buffer is created with the initial
/// capacity for `bytes`, and the three initial allocations are counted.
fn preallocate(
    res: &mut TripleBufferedResources,
    bytes: usize,
    next_handle: &mut u64,
    commands: &mut Vec<GpuCommand>,
)
    requires
        *old(next_handle) <= u64::MAX - 3,
        preallocates(old(res).slots@, bytes as nat) ==> {
            &&& old(res).allocation_stats.initial_allocations + 3 <= u32::MAX
            &&& old(res).allocation_stats.current_capacity + 3 * initial_capacity(bytes as nat)
                <= usize::MAX
            &&& old(res).allocation_stats.total_bytes_allocated + 3 * initial_capacity(bytes as nat)
                <= usize::MAX
        },
    ensures
        ({
            let p = plan_prealloc(old(res).slots@, bytes as nat, *old(next_handle) as nat);
            &&& final(res).slots@ == p.0
            &&& final(commands)@ == old(commands)@ + p.1
            &&& *final(next_handle) == p.2
        }),
        final(res).allocation_stats == (if preallocates(old(res).slots@, bytes as nat) {
            old(res).allocation_stats.after_initial(initial_capacity(bytes as nat)).after_initial(
                initial_capacity(bytes as nat),
            ).after_initial(initial_capacity(bytes as nat))
        } else {
            old(res).allocation_stats
        }),
        *final(res) == (TripleBufferedResources {
            slots: final(res).slots,
            allocation_stats: final(res).allocation_stats,
            ..*old(res)
        }),
{
    let ghost s0 = old(res).slots@;
    if !res.is_preallocated() && bytes > 0 {
        assert(preallocates(s0, bytes as nat));
        let cap = calculate_initial_capacity(bytes);
        let ghost first = *next_handle as nat;
        let ghost c0 = commands@;
        preallocate_slot(res, 0, cap, next_handle, commands);
        preallocate_slot(res, 1, cap, next_handle, commands);
        preallocate_slot(res, 2, cap, next_handle, commands);
        res.record_initial_allocation(cap);
        proof {
            let p = plan_prealloc(s0, bytes as nat, first);
            assert(res.slots@ =~= p.0);
            assert(commands@ =~= c0 + p.1);
        }
    } else {
        proof {
            assert(!preallocates(s0, bytes as nat));
            assert(commands@ =~= old(commands)@ + Seq::<GpuCommand>::empty());
        }
    }
}

/// Instance upload into slot `c`: a new buffer of grown capacity when the
/// slot's is missing or too small, else a rewrite of the existing one.
/// Returns the old and new capacity of a reallocation.
fn upload_instances(
    slot: &mut FrameSlot,
    c: usize,
    bytes: usize,
    next_handle: &mut u64,
    commands: &mut Vec<GpuCommand>,
) -> (realloc: Option<(usize, usize)>)
    requires
        *old(next_handle) < u64::MAX,
    ensures
        *final(slot) == instance_slot(*old(slot), bytes as nat, *old(next_handle) as nat),
        final(commands)@ == old(commands)@ + instance_commands(
            *old(slot),
            c as nat,
            bytes as nat,
            *old(next_handle) as nat,
        ),
        *final(next_handle) == *old(next_handle) + if needs_instance_buffer(*old(slot), bytes as nat) {
            1int
        } else {
            0int
        },
        realloc == (if needs_instance_buffer(*old(slot), bytes as nat) {
            Some((old(slot).buffer_capacity, grown_capacity(bytes as nat) as usize))
        } else {
            None
        }),
{
    if slot.needs_reallocation(bytes) {
        let new_capacity = calculate_grown_capacity(bytes);
        let old_capacity = slot.buffer_capacity;
        let h = GpuBufferHandle { id: *next_handle };
        *next_handle = *next_handle + 1;
        slot.instance_buffer = Some(h);
        slot.buffer_capacity = new_capacity;
        slot.invalidate_bind_group();
        commands.push(GpuCommand::CreateInstanceBuffer { slot: c, handle: h, capacity: new_capacity });
        Some((old_capacity, new_capacity))
    } else {
        if let Some(h) = slot.instance_buffer {
            commands.push(GpuCommand::WriteInstances { handle: h });
        }
        None
    }
}

/// View uniform upload into slot `c`: a new buffer of `size` bytes when
/// the slot's is missing or too small, else a rewrite.
fn upload_uniform(
    slot: &mut FrameSlot,
    c: usize,
    size: usize,
    next_handle: &mut u64,
    commands: &mut Vec<GpuCommand>,
)
    requires
        *old(next_handle) < u64::MAX,
    ensures
        *final(slot) == uniform_slot(*old(slot), size as nat, *old(next_handle) as nat),
        final(commands)@ == old(commands)@ + uniform_commands(
            *old(slot),
            c as nat,
            size as nat,
            *old(next_handle) as nat,
        ),
        *final(next_handle) == *old(next_handle) + if needs_uniform_buffer(*old(slot), size as nat) {
            1int
        } else {
            0int
        },
{
    if slot.needs_uniform_reallocation(size) {
        let h = GpuBufferHandle { id: *next_handle };
        *next_handle = *next_handle + 1;
        slot.view_uniform_buffer = Some(h);
        slot.uniform_buffer_capacity = size;
        slot.invalidate_bind_group();
        commands.push(GpuCommand::CreateUniformBuffer { slot: c, handle: h, size });
    } else if let Some(h) = slot.view_uniform_buffer {
        commands.push(GpuCommand::WriteUniform { handle: h });
    }
}

/// Bind group of slot `c`: created (and marked valid) when missing or
/// stale and the slot has both buffers (and, for candles, the
/// configuration buffer exists).
fn bind_slot(
    slot: &mut FrameSlot,
    c: usize,
    pass: InstancePass,
    config: Option<GpuBufferHandle>,
    next_handle: &mut u64,
    commands: &mut Vec<GpuCommand>,
)
    requires
        *old(next_handle) < u64::MAX,
    ensures
        needs_bind_group(*old(slot), pass, config) ==> {
            &&& *final(slot) == (FrameSlot {
                bind_group: Some(BindGroupHandle { id: *old(next_handle) }),
                bind_group_valid: true,
                ..*old(slot)
            })
            &&& final(commands)@ == old(commands)@.push(
                GpuCommand::CreateBindGroup {
                    slot: c,
                    group: BindGroupHandle { id: *old(next_handle) },
                    view: old(slot).view_uniform_buffer.unwrap(),
                    config: if pass == InstancePass::Candles { config } else { None },
                },
            )
            &&& *final(next_handle) == *old(next_handle) + 1
        },
        !needs_bind_group(*old(slot), pass, config) ==> {
            &&& *final(slot) == *old(slot)
            &&& final(commands)@ == old(commands)@
            &&& *final(next_handle) == *old(next_handle)
        },
{
    let stale = slot.bind_group.is_none() || !slot.bind_group_valid;
    let config_ready = match pass {
        InstancePass::Candles => config.is_some(),
        InstancePass::Volumes => true,
    };
    if stale && slot.instance_buffer.is_some() && config_ready {
        if let Some(view) = slot.view_uniform_buffer {
            let h = BindGroupHandle { id: *next_handle };
            *next_handle = *next_handle + 1;
            let bound_config = match pass {
                InstancePass::Candles => config,
                InstancePass::Volumes => None,
            };
            slot.bind_group = Some(h);
            slot.bind_group_valid = true;
            commands.push(GpuCommand::CreateBindGroup { slot: c, group: h, view, config: bound_config });
        }
    }
}

/// Wick color remembered for change detection: the pass's own for
/// candles, zeros for volumes (which draw no wicks).
pub open spec fn tracked_wick(pass: InstancePass, input: UploadInput) -> [u32; 4] {
    if pass == InstancePass::Candles {
        input.wick_color
    } else {
        [0u32, 0u32, 0u32, 0u32]
    }
}

/// The frame in progress right after the slot is acquired by an upload at
/// `frame` into slot `c` (its fence wait aside).
pub open spec fn started_timing(t: FrameTiming, frame: u64, c: int, count: u32) -> bool {
    t == FrameTiming {
        frame,
        write_slot: c as usize,
        gpu_read_slot: gpu_read_slot_of(frame as nat) as usize,
        fence_wait_us: t.fence_wait_us,
        instance_count: count,
        ..FrameTiming::zero()
    }
}

/// Preallocates, counts the instances, acquires the current slot (timing
/// the wait) and starts the frame's debug record. Returns the slot index.
fn start_frame(
    res: &mut TripleBufferedResources,
    input: &UploadInput,
    next_handle: &mut u64,
    commands: &mut Vec<GpuCommand>,
) -> (c: usize)
    requires
        old(res).wf(),
        upload_fits(*old(res), *input),
        *old(next_handle) <= u64::MAX - 3,
    ensures
        c == old(res).current(),
        ({
            let pre = plan_prealloc(old(res).slots@, instance_bytes(*input), *old(next_handle) as nat);
            &&& final(commands)@ == old(commands)@ + pre.1
            &&& *final(next_handle) == pre.2
            &&& forall|i: int|
                0 <= i < 3 && i != c ==> fence_updated(
                    pre.0[i],
                    #[trigger] final(res).slots[i],
                    old(res).frame_count,
                )
            &&& final(res).slots[c as int].same_buffers(pre.0[c as int])
            &&& final(res).slots[c as int].fence.state == FrameSyncState::Writing
            &&& final(res).slots[c as int].fence.submission_frame == old(res).slots[c as int].fence.submission_frame
        }),
        final(res).allocation_stats == start_stats(*old(res), *input),
        final(res).frame_count == old(res).frame_count,
        final(res).current_write_slot == c,
        final(res).config_buffer == old(res).config_buffer,
        final(res).instance_count == old(res).instance_count,
        final(res).last_viewport_width == old(res).last_viewport_width,
        final(res).last_viewport_height == old(res).last_viewport_height,
        final(res).last_bull_color == old(res).last_bull_color,
        final(res).last_bear_color == old(res).last_bear_color,
        final(res).last_wick_color == old(res).last_wick_color,
        final(res).wf(),
        old(res).submissions_aligned() ==> final(res).submissions_aligned(),
        !old(res).debug_stats.enabled ==> final(res).debug_stats == old(res).debug_stats,
        old(res).debug_stats.enabled ==> {
            &&& started_timing(
                final(res).debug_stats.in_progress(),
                old(res).frame_count,
                c as int,
                input.instance_count as u32,
            )
            &&& final(res).debug_stats.same_history(old(res).debug_stats)
            &&& final(res).debug_stats.total_reallocations == old(res).debug_stats.total_reallocations
            &&& (final(res).debug_stats.total_fence_waits == old(res).debug_stats.total_fence_waits
                || final(res).debug_stats.total_fence_waits == old(res).debug_stats.total_fence_waits + 1)
        },
{
    let bytes = input.instance_count * INSTANCE_RECORD_SIZE;
    let count = input.instance_count as u32;
    preallocate(res, bytes, next_handle, commands);
    res.track_instance_count(count);
    let start = now();
    let frame = res.begin_frame();
    let fence_wait_us = elapsed_micros(&start);
    res.debug_begin_frame();
    res.debug_record_fence_wait(fence_wait_us);
    res.debug_record_instance_count(count);
    frame.slot_index
}

/// Fills the current slot `c`: grows or rewrites its instance buffer
/// (counting a growth), grows or rewrites its view uniform buffer, and
/// remembers the view for change detection. Returns whether the instance
/// buffer grew.
fn fill_current_slot(
    res: &mut TripleBufferedResources,
    c: usize,
    pass: InstancePass,
    input: &UploadInput,
    next_handle: &mut u64,
    commands: &mut Vec<GpuCommand>,
) -> (grew: bool)
    requires
        c < 3,
        *old(next_handle) <= u64::MAX - 2,
        input.instance_count * INSTANCE_RECORD_SIZE <= usize::MAX,
        needs_instance_buffer(old(res).slots[c as int], instance_bytes(*input))
            ==> old(res).allocation_stats.can_record_reallocation(
            old(res).slots[c as int].buffer_capacity as nat,
            grown_capacity(instance_bytes(*input)),
        ),
        old(res).debug_stats.enabled && needs_instance_buffer(
            old(res).slots[c as int],
            instance_bytes(*input),
        ) ==> old(res).debug_stats.total_reallocations < u32::MAX,
    ensures
        ({
            let bytes = instance_bytes(*input);
            let a = old(res).slots[c as int];
            let n = *old(next_handle) as nat;
            let b = instance_slot(a, bytes, n);
            let n2 = n + if needs_instance_buffer(a, bytes) { 1nat } else { 0nat };
            &&& grew == needs_instance_buffer(a, bytes)
            &&& final(res).slots@ == old(res).slots@.update(
                c as int,
                uniform_slot(b, VIEW_UNIFORM_SIZE as nat, n2),
            )
            &&& final(commands)@ == old(commands)@ + instance_commands(
                a,
                c as nat,
                bytes,
                n,
            ) + uniform_commands(b, c as nat, VIEW_UNIFORM_SIZE as nat, n2)
            &&& *final(next_handle) == n2 + if needs_uniform_buffer(b, VIEW_UNIFORM_SIZE as nat) {
                1nat
            } else {
                0nat
            }
            &&& final(res).allocation_stats == if grew {
                old(res).allocation_stats.after_reallocation(a.buffer_capacity as nat, grown_capacity(bytes))
            } else {
                old(res).allocation_stats
            }
            &&& !old(res).debug_stats.enabled ==> final(res).debug_stats == old(res).debug_stats
            &&& old(res).debug_stats.enabled ==> {
                &&& final(res).debug_stats.in_progress() == (if grew {
                    FrameTiming { reallocated: true, ..old(res).debug_stats.in_progress() }
                } else {
                    old(res).debug_stats.in_progress()
                })
                &&& final(res).debug_stats.same_history(old(res).debug_stats)
                &&& final(res).debug_stats.total_reallocations == old(res).debug_stats.total_reallocations
                    + if grew { 1int } else { 0int }
                &&& final(res).debug_stats.total_fence_waits == old(res).debug_stats.total_fence_waits
            }
        }),
        final(res).frame_count == old(res).frame_count,
        final(res).current_write_slot == old(res).current_write_slot,
        final(res).config_buffer == old(res).config_buffer,
        final(res).instance_count == old(res).instance_count,
        final(res).last_viewport_width == input.viewport_width,
        final(res).last_viewport_height == input.viewport_height,
        final(res).last_bull_color == input.bull_color,
        final(res).last_bear_color == input.bear_color,
        final(res).last_wick_color == tracked_wick(pass, *input),
        final(res).debug_stats.wf() == old(res).debug_stats.wf(),
{
    let bytes = input.instance_count * INSTANCE_RECORD_SIZE;
    let ghost r0 = *res;
    let realloc = upload_instances(&mut res.slots[c], c, bytes, next_handle, commands);
    let grew = match realloc {
        Some((old_capacity, new_capacity)) => {
            res.record_slot_reallocation(old_capacity, new_capacity);
            res.debug_record_reallocation();
            true
        },
        None => false,
    };
    upload_uniform(&mut res.slots[c], c, VIEW_UNIFORM_SIZE, next_handle, commands);
    let wick = match pass {
        InstancePass::Candles => input.wick_color,
        InstancePass::Volumes => [0u32, 0u32, 0u32, 0u32],
    };
    res.update_view_tracking(
        input.viewport_width,
        input.viewport_height,
        input.bull_color,
        input.bear_color,
        wick,
    );
    proof {
        assert(res.slots@ =~= r0.slots@.update(
            c as int,
            uniform_slot(
                instance_slot(r0.slots[c as int], bytes as nat, *old(next_handle) as nat),
                VIEW_UNIFORM_SIZE as nat,
                *old(next_handle) as nat + if grew { 1nat } else { 0nat },
            ),
        ));
    }
    grew
}

/// Creates the candle pass's configuration buffer when missing (staling
/// every bind group), then renews the bind group of slot `c` when needed.
fn finish_bindings(
    res: &mut TripleBufferedResources,
    c: usize,
    pass: InstancePass,
    next_handle: &mut u64,
    commands: &mut Vec<GpuCommand>,
)
    requires
        c < 3,
        *old(next_handle) <= u64::MAX - 2,
    ensures
        ({
            let n = *old(next_handle) as nat;
            let cfg = creates_config(pass, old(res).config_buffer);
            let s4 = after_config(old(res).slots@, cfg);
            let config = if cfg { Some(handle(n)) } else { old(res).config_buffer };
            let n4 = n + if cfg { 1nat } else { 0nat };
            let d = s4[c as int];
            let bind = needs_bind_group(d, pass, config);
            &&& final(res).config_buffer == config
            &&& final(res).slots@ == if bind { s4.update(c as int, bound(d, n4)) } else { s4 }
            &&& final(commands)@ == old(commands)@ + (if cfg {
                seq![GpuCommand::CreateConfigBuffer { handle: handle(n) }]
            } else {
                Seq::empty()
            }) + (if bind {
                seq![GpuCommand::CreateBindGroup {
                    slot: c,
                    group: BindGroupHandle { id: n4 as u64 },
                    view: d.view_uniform_buffer.unwrap(),
                    config: if pass == InstancePass::Candles { config } else { None },
                }]
            } else {
                Seq::empty()
            })
            &&& *final(next_handle) == n4 + if bind { 1nat } else { 0nat }
        }),
        *final(res) == (TripleBufferedResources {
            slots: final(res).slots,
            config_buffer: final(res).config_buffer,
            ..*old(res)
        }),
{
    let ghost r0 = *res;
    let ghost c0 = commands@;
    let creates = match pass {
        InstancePass::Candles => res.config_buffer.is_none(),
        InstancePass::Volumes => false,
    };
    if creates {
        let h = GpuBufferHandle { id: *next_handle };
        *next_handle = *next_handle + 1;
        res.config_buffer = Some(h);
        commands.push(GpuCommand::CreateConfigBuffer { handle: h });
        res.invalidate_all_bind_groups();
        assert(res.slots@ =~= after_config(r0.slots@, true));
    } else {
        assert(commands@ =~= c0 + Seq::<GpuCommand>::empty());
    }
    let ghost r1 = *res;
    let ghost c1 = commands@;
    let config = res.config_buffer;
    bind_slot(&mut res.slots[c], c, pass, config, next_handle, commands);
    proof {
        if needs_bind_group(r1.slots[c as int], pass, config) {
            assert(res.slots@ =~= r1.slots@.update(c as int, bound(r1.slots[c as int], (*next_handle - 1) as nat)));
        } else {
            assert(res.slots@ =~= r1.slots@);
            assert(commands@ =~= c1 + Seq::<GpuCommand>::empty());
        }
    }
}


/// Preallocation uses at most three handles, leaves the current slot's
/// instance buffer as it would with any other handle numbers, and after it
/// the counters have room for the reallocation the frame makes.
proof fn lemma_prealloc_bounds(r: TripleBufferedResources, input: UploadInput, first: nat)
    requires
        upload_fits(r, input),
        r.current() < 3,
    ensures
        plan_prealloc(r.slots@, instance_bytes(input), first).2 <= first + 3,
        plan_prealloc(r.slots@, instance_bytes(input), first).0[r.current()].buffer_capacity
            == current_after_prealloc(r, input).buffer_capacity,
        needs_instance_buffer(
            plan_prealloc(r.slots@, instance_bytes(input), first).0[r.current()],
            instance_bytes(input),
        ) == upload_reallocates(r, input),
        upload_reallocates(r, input) ==> start_stats(r, input).can_record_reallocation(
            current_after_prealloc(r, input).buffer_capacity as nat,
            grown_capacity(instance_bytes(input)),
        ),
{
}

/// The frame timing recorded by an upload at `frame` into slot `c`.
pub open spec fn recorded_timing(t: FrameTiming, frame: u64, c: int, count: u32, grew: bool) -> bool {
    &&& t.frame == frame
    &&& t.write_slot == c
    &&& t.gpu_read_slot == gpu_read_slot_of(frame as nat)
    &&& t.instance_count == count
    &&& t.reallocated == grew
}

/// Uploads one frame of instances (see [`upload_plan`]) and returns the GPU
/// commands to carry out, in order. Without a pipeline, or without
/// instances (then the instance count is reset), the frame is skipped:
/// fences are updated and the frame counter advances. Otherwise: missing
/// slot buffers are preallocated on the first frame, the current slot is
/// acquired (the wait is timed for the debug statistics), its instance and
/// view uniform buffers are grown or rewritten, the view is remembered for
/// change detection, the candle pass creates its configuration buffer once
/// (staling every bind group), the slot's bind group is renewed when
/// stale, and the slot is submitted. New handles are numbered from
/// `next_handle` on.
pub fn upload_frame(
    res: &mut TripleBufferedResources,
    pass: InstancePass,
    input: &UploadInput,
    next_handle: &mut u64,
) -> (commands: Vec<GpuCommand>)
    requires
        old(res).wf(),
        input.has_pipeline && input.instance_count > 0 ==> upload_fits(*old(res), *input),
        input.has_pipeline && input.instance_count > 0 ==> *old(next_handle) <= u64::MAX - 7,
    ensures
        final(res).wf(),
        old(res).submissions_aligned() && old(res).frame_count < u64::MAX ==> final(res).submissions_aligned(),
        !old(res).debug_stats.enabled ==> final(res).debug_stats == old(res).debug_stats,
        !input.has_pipeline || input.instance_count == 0 ==> {
            &&& commands@.len() == 0
            &&& *final(next_handle) == *old(next_handle)
            &&& forall|i: int|
                0 <= i < 3 ==> fence_updated(
                    old(res).slots[i],
                    #[trigger] final(res).slots[i],
                    old(res).frame_count,
                )
            &&& *final(res) == (TripleBufferedResources {
                slots: final(res).slots,
                frame_count: if old(res).frame_count == u64::MAX { 0 } else { (old(res).frame_count + 1) as u64 },
                instance_count: if input.has_pipeline { 0 } else { old(res).instance_count },
                ..*old(res)
            })
        },
        input.has_pipeline && input.instance_count > 0 ==> {
            let plan = upload_plan(*old(res), pass, *input, *old(next_handle) as nat);
            let c = old(res).current();
            &&& commands@ == plan.2
            &&& *final(next_handle) == plan.3
            &&& final(res).config_buffer == plan.1
            &&& forall|i: int| 0 <= i < 3 ==> (#[trigger] final(res).slots[i]).same_buffers(plan.0[i])
            &&& forall|i: int|
                0 <= i < 3 && i != c ==> fence_updated(
                    plan.0[i],
                    #[trigger] final(res).slots[i],
                    old(res).frame_count,
                )
            &&& final(res).slots[c].fence.state == FrameSyncState::Submitted
            &&& final(res).slots[c].fence.submission_frame == Some(old(res).frame_count)
            &&& final(res).frame_count == old(res).frame_count + 1
            &&& final(res).current_write_slot == c
            &&& draw_slot(*final(res), pass) == c
            &&& final(res).slots[c].instance_buffer is Some
            &&& final(res).slots[c].view_uniform_buffer is Some
            &&& final(res).slots[c].bind_group is Some
            &&& final(res).slots[c].bind_group_valid
            &&& final(res).slots[c].buffer_capacity >= instance_bytes(*input)
            &&& final(res).instance_count == input.instance_count as u32
            &&& final(res).last_viewport_width == input.viewport_width
            &&& final(res).last_viewport_height == input.viewport_height
            &&& final(res).last_bull_color == input.bull_color
            &&& final(res).last_bear_color == input.bear_color
            &&& final(res).last_wick_color == tracked_wick(pass, *input)
            &&& final(res).allocation_stats == upload_stats(*old(res), *input)
            &&& old(res).debug_stats.enabled ==> {
                let grew = upload_reallocates(*old(res), *input);
                &&& final(res).debug_stats.enabled
                &&& exists|t: FrameTiming|
                    recorded_timing(t, old(res).frame_count, c, input.instance_count as u32, grew)
                        && final(res).debug_stats.timeline() == last_window(
                        old(res).debug_stats.timeline().push(t),
                    )
                &&& final(res).debug_stats.total_reallocations == old(res).debug_stats.total_reallocations
                    + if grew { 1int } else { 0int }
                &&& (final(res).debug_stats.total_fence_waits == old(res).debug_stats.total_fence_waits
                    || final(res).debug_stats.total_fence_waits == old(res).debug_stats.total_fence_waits + 1)
            }
        },
{
    let mut commands: Vec<GpuCommand> = Vec::new();
    if !input.has_pipeline {
        res.skip_frame();
        return commands;
    }
    if input.instance_count == 0 {
        res.instance_count = 0;
        res.skip_frame();
        return commands;
    }
    let ghost r0 = *res;
    let ghost first = *next_handle as nat;
    let ghost bytes = instance_bytes(*input);
    proof {
        lemma_capacities_cover(bytes);
    }
    let c = start_frame(res, input, next_handle, &mut commands);
    let ghost r1 = *res;
    let ghost n1 = *next_handle as nat;
    proof {
        lemma_prealloc_bounds(r0, *input, first);
    }
    let grew = fill_current_slot(res, c, pass, input, next_handle, &mut commands);
    let ghost r2 = *res;
    finish_bindings(res, c, pass, next_handle, &mut commands);
    let ghost r3 = *res;
    res.instance_count = input.instance_count as u32;
    res.debug_end_frame();
    res.complete_frame();
    proof {
        if r0.debug_stats.enabled {
            let t = res.debug_stats.in_progress();
            assert(grew == upload_reallocates(r0, *input));
            assert(recorded_timing(t, r0.frame_count, c as int, input.instance_count as u32, grew));
            assert(res.debug_stats.timeline() == last_window(r0.debug_stats.timeline().push(t)));
        }
    }
    commands
}

// ==================== Drawing ====================

/// Vertices drawn per candle instance (body and wick quads).
pub const VERTICES_PER_CANDLE: u32 = 12;

/// Vertices drawn per volume bar instance (one quad).
pub const VERTICES_PER_BAR: u32 = 6;

/// One instanced draw: vertices `0..vertices` of instances `0..instances`
/// from the given buffer with the given bind group.
#[derive(Debug, Clone, Copy, PartialEq, Eq, Structural)]
pub struct DrawCall {
    /// Instance buffer to bind.
    pub instance_buffer: GpuBufferHandle,
    /// Bind group to bind.
    pub bind_group: BindGroupHandle,
    /// Vertices per instance.
    pub vertices: u32,
    /// Number of instances.
    pub instances: u32,
}

/// Slot the render pass reads after an upload: the candle pass reads the
/// slot its last frame wrote, the volume pass the slot one frame back.
pub open spec fn draw_slot(r: TripleBufferedResources, pass: InstancePass) -> int {
    if pass == InstancePass::Candles {
        r.current_write_slot as int
    } else {
        (wrapping_frame_sub(r.frame_count, 1) % 3) as int
    }
}

/// The draw of the render pass after an upload: nothing without instances
/// or while the slot lacks its instance buffer or bind group; otherwise the
/// slot's buffer and bind group, all instances, and the pass's vertex count.
pub fn draw_call(res: &TripleBufferedResources, pass: InstancePass) -> (call: Option<DrawCall>)
    requires
        pass == InstancePass::Candles ==> res.current_write_slot < 3,
    ensures
        ({
            let slot = res.slots[draw_slot(*res, pass)];
            match call {
                None => res.instance_count == 0 || slot.instance_buffer is None || slot.bind_group is None,
                Some(d) => {
                    &&& res.instance_count > 0
                    &&& slot.instance_buffer == Some(d.instance_buffer)
                    &&& slot.bind_group == Some(d.bind_group)
                    &&& d.instances == res.instance_count
                    &&& d.vertices == if pass == InstancePass::Candles {
                        VERTICES_PER_CANDLE
                    } else {
                        VERTICES_PER_BAR
                    }
                },
            }
        }),
{
    if res.instance_count == 0 {
        return None;
    }
    let (index, vertices) = match pass {
        InstancePass::Candles => (res.render_slot_index(), VERTICES_PER_CANDLE),
        InstancePass::Volumes => (res.index_frames_ago(1), VERTICES_PER_BAR),
    };
    let slot = &res.slots[index];
    match (slot.instance_buffer, slot.bind_group) {
        (Some(instance_buffer), Some(bind_group)) => Some(
            DrawCall { instance_buffer, bind_group, vertices, instances: res.instance_count },
        ),
        _ => None,
    }
}

} // verus!
