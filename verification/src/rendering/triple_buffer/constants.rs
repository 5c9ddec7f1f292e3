//! Parameters of the triple buffering scheme.

use vstd::prelude::*;

verus! {

/// Number of buffer slots.
pub const BUFFER_COUNT: usize = 3;

/// Frames that must pass after a submission before its slot may be reused.
pub const FRAMES_UNTIL_SAFE: u64 = 2;

/// Growth factor applied when a buffer grows, as `(numerator, denominator)`:
/// three halves.
pub const BUFFER_GROWTH_FACTOR: (usize, usize) = (3, 2);

/// Smallest capacity ever allocated, in bytes (one 4 KiB page).
pub const MIN_BUFFER_CAPACITY: usize = 4096;

/// Number of frames kept in the debug timing history.
pub const DEBUG_HISTORY_SIZE: usize = 60;

} // verus!
