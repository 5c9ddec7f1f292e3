//! Layout of the per-instance vertex data of the instanced renderers: which
//! shader location reads which bytes of an instance record. The renderer
//! turns these descriptions into GPU vertex buffer layouts.

use vstd::prelude::*;

verus! {

/// Size in bytes of one candle instance record (eight `f32`).
pub const CANDLE_INSTANCE_SIZE: u64 = 32;

/// Size in bytes of one volume instance record (eight `f32`).
pub const VOLUME_INSTANCE_SIZE: u64 = 32;

/// Vertex attribute formats used by the instance layouts.
#[derive(Debug, Clone, Copy, PartialEq, Eq, Structural)]
pub enum AttributeFormat {
    /// One `f32`.
    Float32,
    /// Four `f32`.
    Float32x4,
}

/// Whether attributes advance per vertex or per instance.
#[derive(Debug, Clone, Copy, PartialEq, Eq, Structural)]
pub enum StepMode {
    /// Per vertex.
    Vertex,
    /// Per instance.
    Instance,
}

/// One vertex attribute.
#[derive(Debug, Clone, Copy, PartialEq, Eq, Structural)]
pub struct AttributeDesc {
    /// Data format.
    pub format: AttributeFormat,
    /// Byte offset inside the record.
    pub offset: u64,
    /// Shader input location.
    pub shader_location: u32,
}

/// A vertex buffer layout.
#[derive(Debug, Clone)]
pub struct BufferLayoutDesc {
    /// Bytes per record.
    pub array_stride: u64,
    /// Step mode.
    pub step_mode: StepMode,
    /// Attributes in shader location order.
    pub attributes: Vec<AttributeDesc>,
}

/// Size in bytes of an attribute format.
pub open spec fn format_size(f: AttributeFormat) -> nat {
    match f {
        AttributeFormat::Float32 => 4,
        AttributeFormat::Float32x4 => 16,
    }
}

/// Attributes `attrs`, in order, read consecutive bytes from offset 0,
/// at shader locations 0, 1, 2, ..., all with format `format`.
pub open spec fn consecutive_attributes(attrs: Seq<AttributeDesc>, format: AttributeFormat) -> bool {
    forall|i: int|
        0 <= i < attrs.len() ==> #[trigger] attrs[i] == AttributeDesc {
            format,
            offset: (i * format_size(format)) as u64,
            shader_location: i as u32,
        }
}

/// The attributes of a layout lie inside one record and do not overlap.
pub open spec fn attributes_fit(layout: BufferLayoutDesc) -> bool {
    &&& forall|i: int|
        0 <= i < layout.attributes@.len() ==> #[trigger] layout.attributes@[i].offset + format_size(
            layout.attributes@[i].format,
        ) <= layout.array_stride
    &&& forall|i: int, j: int|
        0 <= i < j < layout.attributes@.len() ==> #[trigger] layout.attributes@[i].offset
            + format_size(layout.attributes@[i].format) <= #[trigger] layout.attributes@[j].offset
}

/// `count` consecutive attributes of `format`.
fn consecutive(format: AttributeFormat, count: u32) -> (attrs: Vec<AttributeDesc>)
    requires
        count <= 8,
    ensures
        attrs@.len() == count,
        consecutive_attributes(attrs@, format),
{
    let size: u64 = match format {
        AttributeFormat::Float32 => 4,
        AttributeFormat::Float32x4 => 16,
    };
    let mut attrs: Vec<AttributeDesc> = Vec::new();
    let mut i: u32 = 0;
    while i < count
        invariant
            i <= count <= 8,
            size == format_size(format),
            attrs@.len() == i,
            consecutive_attributes(attrs@, format),
        decreases count - i,
    {
        attrs.push(AttributeDesc { format, offset: (i as u64) * size, shader_location: i });
        i = i + 1;
    }
    attrs
}

/// Candle layout with two four-float attributes: (x, width, open, high) at
/// location 0 and (low, close, bullish flag, padding) at location 1.
pub fn candle_layout_packed() -> (layout: BufferLayoutDesc)
    ensures
        layout.array_stride == CANDLE_INSTANCE_SIZE,
        layout.step_mode == StepMode::Instance,
        layout.attributes@.len() == 2,
        consecutive_attributes(layout.attributes@, AttributeFormat::Float32x4),
        attributes_fit(layout),
{
    BufferLayoutDesc {
        array_stride: CANDLE_INSTANCE_SIZE,
        step_mode: StepMode::Instance,
        attributes: consecutive(AttributeFormat::Float32x4, 2),
    }
}

/// Candle layout with one float per field: x, width, open, high, low,
/// close and the bullish flag at locations 0 to 6 (padding not exposed).
pub fn candle_layout_unpacked() -> (layout: BufferLayoutDesc)
    ensures
        layout.array_stride == CANDLE_INSTANCE_SIZE,
        layout.step_mode == StepMode::Instance,
        layout.attributes@.len() == 7,
        consecutive_attributes(layout.attributes@, AttributeFormat::Float32),
        attributes_fit(layout),
{
    BufferLayoutDesc {
        array_stride: CANDLE_INSTANCE_SIZE,
        step_mode: StepMode::Instance,
        attributes: consecutive(AttributeFormat::Float32, 7),
    }
}

/// Volume bar layout: (x, width, bottom, top) at location 0 and (bullish
/// flag, padding) at location 1.
pub fn volume_layout() -> (layout: BufferLayoutDesc)
    ensures
        layout.array_stride == VOLUME_INSTANCE_SIZE,
        layout.step_mode == StepMode::Instance,
        layout.attributes@.len() == 2,
        consecutive_attributes(layout.attributes@, AttributeFormat::Float32x4),
        attributes_fit(layout),
{
    BufferLayoutDesc {
        array_stride: VOLUME_INSTANCE_SIZE,
        step_mode: StepMode::Instance,
        attributes: consecutive(AttributeFormat::Float32x4, 2),
    }
}

} // verus!
