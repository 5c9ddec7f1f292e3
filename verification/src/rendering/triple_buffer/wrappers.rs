//! The triple buffers of the two instanced renderers (candles and volume
//! bars). Debug builds of the renderer turn debug tracking on.

use vstd::prelude::*;

use super::resources::TripleBufferedResources;

verus! {

/// Triple-buffered resources of the candlestick renderer.
#[derive(Debug)]
pub struct CandleTripleBuffer {
    /// The triple-buffered resources.
    pub resources: TripleBufferedResources,
}

impl Default for CandleTripleBuffer {
    fn default() -> (buffer: Self)
        ensures
            buffer.resources.is_fresh(),
            !buffer.resources.debug_stats.enabled,
    {
        CandleTripleBuffer { resources: TripleBufferedResources::new() }
    }
}

impl CandleTripleBuffer {
    /// Fresh resources; debug tracking on exactly when `debug_build`.
    pub fn new(debug_build: bool) -> (buffer: Self)
        ensures
            buffer.resources.is_fresh(),
            buffer.resources.submissions_aligned(),
            buffer.resources.debug_stats.enabled == debug_build,
    {
        let mut buffer = CandleTripleBuffer { resources: TripleBufferedResources::new() };
        if debug_build {
            buffer.resources.enable_debug();
        }
        buffer
    }
}

/// Triple-buffered resources of the volume bar renderer.
#[derive(Debug)]
pub struct VolumeTripleBuffer {
    /// The triple-buffered resources.
    pub resources: TripleBufferedResources,
}

impl Default for VolumeTripleBuffer {
    fn default() -> (buffer: Self)
        ensures
            buffer.resources.is_fresh(),
            !buffer.resources.debug_stats.enabled,
    {
        VolumeTripleBuffer { resources: TripleBufferedResources::new() }
    }
}

impl VolumeTripleBuffer {
    /// Fresh resources; debug tracking on exactly when `debug_build`.
    pub fn new(debug_build: bool) -> (buffer: Self)
        ensures
            buffer.resources.is_fresh(),
            buffer.resources.submissions_aligned(),
            buffer.resources.debug_stats.enabled == debug_build,
    {
        let mut buffer = VolumeTripleBuffer { resources: TripleBufferedResources::new() };
        if debug_build {
            buffer.resources.enable_debug();
        }
        buffer
    }
}

} // verus!
