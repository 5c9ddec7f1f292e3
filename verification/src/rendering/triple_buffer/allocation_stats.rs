//! Counters of buffer allocations: how often, how large, how much churn.

use vstd::prelude::*;

use crate::binary64::{binary32_ratio, binary32_ratio_value, BinaryFloat};
use crate::text::{decimal, push_decimal};

verus! {

/// Allocation counters of one triple-buffered resource.
#[derive(Debug, Clone, Copy, PartialEq, Eq, Structural)]
pub struct AllocationStats {
    /// Initial allocations (one per slot).
    pub initial_allocations: u32,
    /// Reallocations caused by growth.
    pub reallocations: u32,
    /// Largest capacity ever allocated, in bytes.
    pub peak_capacity: usize,
    /// Largest instance count ever recorded.
    pub peak_instance_count: u32,
    /// Capacity currently allocated across all slots, in bytes.
    pub current_capacity: usize,
    /// Bytes allocated over all allocations.
    pub total_bytes_allocated: usize,
}

impl Default for AllocationStats {
    fn default() -> (stats: Self)
        ensures
            stats == AllocationStats::zero(),
    {
        AllocationStats {
            initial_allocations: 0,
            reallocations: 0,
            peak_capacity: 0,
            peak_instance_count: 0,
            current_capacity: 0,
            total_bytes_allocated: 0,
        }
    }
}

/// The larger of `a` and `b`.
pub open spec fn max_nat(a: nat, b: nat) -> nat {
    if a >= b {
        a
    } else {
        b
    }
}

/// The text of [`AllocationStats::summary`].
pub open spec fn allocation_summary_text(s: AllocationStats) -> Seq<char> {
    "Allocations: "@ + decimal(s.initial_allocations as nat) + " initial, "@ + decimal(
        s.reallocations as nat,
    ) + " reallocs | Peak: "@ + decimal(s.peak_capacity as nat) + " bytes ("@ + decimal(
        s.peak_instance_count as nat,
    ) + " instances) | Current: "@ + decimal(s.current_capacity as nat) + " bytes | Total churn: "@
        + decimal(s.total_bytes_allocated as nat) + " bytes"@
}

impl AllocationStats {
    /// All counters at zero.
    pub open spec fn zero() -> AllocationStats {
        AllocationStats {
            initial_allocations: 0,
            reallocations: 0,
            peak_capacity: 0,
            peak_instance_count: 0,
            current_capacity: 0,
            total_bytes_allocated: 0,
        }
    }

    /// Counters after one initial allocation of `capacity` bytes.
    pub open spec fn after_initial(self, capacity: nat) -> AllocationStats {
        AllocationStats {
            initial_allocations: (self.initial_allocations + 1) as u32,
            current_capacity: (self.current_capacity + capacity) as usize,
            total_bytes_allocated: (self.total_bytes_allocated + capacity) as usize,
            peak_capacity: max_nat(self.peak_capacity as nat, capacity) as usize,
            ..self
        }
    }

    /// Whether one more initial allocation of `capacity` bytes fits the counters.
    pub open spec fn can_record_initial(self, capacity: nat) -> bool {
        &&& self.initial_allocations < u32::MAX
        &&& self.current_capacity + capacity <= usize::MAX
        &&& self.total_bytes_allocated + capacity <= usize::MAX
    }

    /// Records an initial allocation of `capacity` bytes.
    pub fn record_initial_allocation(&mut self, capacity: usize)
        requires
            old(self).can_record_initial(capacity as nat),
        ensures
            *final(self) == old(self).after_initial(capacity as nat),
    {
        self.initial_allocations = self.initial_allocations + 1;
        self.current_capacity = self.current_capacity + capacity;
        self.total_bytes_allocated = self.total_bytes_allocated + capacity;
        if capacity > self.peak_capacity {
            self.peak_capacity = capacity;
        }
    }

    /// Counters after replacing a buffer of `old_capacity` bytes by one of
    /// `new_capacity` bytes.
    pub open spec fn after_reallocation(self, old_capacity: nat, new_capacity: nat) -> AllocationStats {
        let remaining: nat = if self.current_capacity >= old_capacity {
            (self.current_capacity - old_capacity) as nat
        } else {
            0
        };
        AllocationStats {
            reallocations: (self.reallocations + 1) as u32,
            current_capacity: (remaining + new_capacity) as usize,
            total_bytes_allocated: (self.total_bytes_allocated + new_capacity) as usize,
            peak_capacity: max_nat(self.peak_capacity as nat, new_capacity) as usize,
            ..self
        }
    }

    /// Whether one more reallocation fits the counters.
    pub open spec fn can_record_reallocation(self, old_capacity: nat, new_capacity: nat) -> bool {
        let remaining: nat = if self.current_capacity >= old_capacity {
            (self.current_capacity - old_capacity) as nat
        } else {
            0
        };
        &&& self.reallocations < u32::MAX
        &&& remaining + new_capacity <= usize::MAX
        &&& self.total_bytes_allocated + new_capacity <= usize::MAX
    }

    /// Records that a buffer of `old_capacity` bytes was replaced by one of
    /// `new_capacity` bytes.
    pub fn record_reallocation(&mut self, old_capacity: usize, new_capacity: usize)
        requires
            old(self).can_record_reallocation(old_capacity as nat, new_capacity as nat),
        ensures
            *final(self) == old(self).after_reallocation(old_capacity as nat, new_capacity as nat),
    {
        self.reallocations = self.reallocations + 1;
        self.current_capacity = self.current_capacity.saturating_sub(old_capacity) + new_capacity;
        self.total_bytes_allocated = self.total_bytes_allocated + new_capacity;
        if new_capacity > self.peak_capacity {
            self.peak_capacity = new_capacity;
        }
    }

    /// Keeps the largest instance count seen.
    pub fn record_instance_count(&mut self, count: u32)
        ensures
            *final(self) == (AllocationStats {
                peak_instance_count: max_nat(old(self).peak_instance_count as nat, count as nat)
                    as u32,
                ..*old(self)
            }),
    {
        if count > self.peak_instance_count {
            self.peak_instance_count = count;
        }
    }

    /// Fill ratio `current_used as f32 / current_capacity as f32`, as the
    /// binary32 number it is; `None` while nothing is allocated.
    pub fn efficiency(&self, current_used: usize) -> (ratio: Option<BinaryFloat>)
        ensures
            self.current_capacity == 0 ==> ratio is None,
            self.current_capacity != 0 ==> (ratio matches Some(r) && r.significand == binary32_ratio(
                current_used as nat,
                self.current_capacity as nat,
            ).0 && r.exponent == binary32_ratio(current_used as nat, self.current_capacity as nat).1),
    {
        if self.current_capacity == 0 {
            None
        } else {
            Some(binary32_ratio_value(current_used as u64, self.current_capacity as u64))
        }
    }

    /// Appends [`allocation_summary_text`].
    pub fn push_summary(&self, s: &mut String)
        ensures
            final(s)@ == old(s)@ + allocation_summary_text(*self),
    {
        s.append("Allocations: ");
        push_decimal(s, self.initial_allocations as u128);
        s.append(" initial, ");
        push_decimal(s, self.reallocations as u128);
        s.append(" reallocs | Peak: ");
        push_decimal(s, self.peak_capacity as u128);
        s.append(" bytes (");
        push_decimal(s, self.peak_instance_count as u128);
        s.append(" instances) | Current: ");
        push_decimal(s, self.current_capacity as u128);
        s.append(" bytes | Total churn: ");
        push_decimal(s, self.total_bytes_allocated as u128);
        s.append(" bytes");
        assert(s@ =~= old(s)@ + allocation_summary_text(*self));
    }

    /// One-line summary of the counters.
    pub fn summary(&self) -> (text: String)
        ensures
            text@ == allocation_summary_text(*self),
    {
        let mut s = String::new();
        self.push_summary(&mut s);
        s
    }
}

} // verus!
