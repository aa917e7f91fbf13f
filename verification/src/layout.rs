use vstd::prelude::*;

verus! {

/// Components of a vertex position.
pub const POSITION_COMPONENTS: usize = 3;

/// Components of a vertex normal.
pub const NORMAL_COMPONENTS: usize = 3;

/// Components of one interleaved vertex record: a position, then a normal.
pub const VERTEX_COMPONENTS: usize = 6;

/// Bytes of one vertex component, a 32-bit number.
pub const COMPONENT_BYTES: usize = 4;

/// Bytes of one entry of the index buffer, a 32-bit number.
pub const INDEX_BYTES: usize = 4;

/// The sizes and strides that a graphics interface is told when an
/// interleaved vertex buffer and its index buffer are handed over.
#[derive(Clone, Copy, Debug, PartialEq, Eq, Structural)]
pub struct BufferLayout {
    /// Bytes of the vertex buffer.
    pub vertex_bytes: isize,
    /// Bytes of the index buffer.
    pub index_bytes: isize,
    /// Bytes from one vertex record to the next.
    pub stride: i32,
    /// Bytes from the start of a vertex record to its normal.
    pub normal_offset: usize,
    /// Entries of the index buffer, as a draw call counts them.
    pub index_count: i32,
}

/// Whether buffers of these lengths can be described to the graphics
/// interface: both byte sizes fit a signed pointer-sized integer and the
/// index count fits a signed 32-bit integer.
pub open spec fn describable(components: usize, indices: usize) -> bool {
    &&& components * COMPONENT_BYTES <= isize::MAX
    &&& indices * INDEX_BYTES <= isize::MAX
    &&& indices <= i32::MAX
}

/// The layout of a vertex buffer of `components` numbers and an index buffer
/// of `indices` entries.
pub open spec fn spec_buffer_layout(components: usize, indices: usize) -> BufferLayout {
    BufferLayout {
        vertex_bytes: (components * COMPONENT_BYTES) as isize,
        index_bytes: (indices * INDEX_BYTES) as isize,
        stride: (VERTEX_COMPONENTS * COMPONENT_BYTES) as i32,
        normal_offset: (POSITION_COMPONENTS * COMPONENT_BYTES) as usize,
        index_count: indices as i32,
    }
}

/// Describes a vertex buffer of `components` numbers and an index buffer of
/// `indices` entries, or gives `None` where a size does not fit the integer
/// that the graphics interface takes it in.
pub fn buffer_layout(components: usize, indices: usize) -> (r: Option<BufferLayout>)
    ensures
        r is Some <==> describable(components, indices),
        r matches Some(layout) ==> layout == spec_buffer_layout(components, indices),
        r matches Some(layout) ==> layout.stride == 24 && layout.normal_offset == 12,
{
    let limit: usize = isize::MAX as usize;
    if components > limit / COMPONENT_BYTES || indices > limit / INDEX_BYTES {
        return None;
    }
    if indices > i32::MAX as usize {
        return None;
    }
    Some(
        BufferLayout {
            vertex_bytes: (components * COMPONENT_BYTES) as isize,
            index_bytes: (indices * INDEX_BYTES) as isize,
            stride: (VERTEX_COMPONENTS * COMPONENT_BYTES) as i32,
            normal_offset: POSITION_COMPONENTS * COMPONENT_BYTES,
            index_count: indices as i32,
        },
    )
}

/// The length of the interleaved buffer that holds `vertices` records.
pub open spec fn spec_component_count(vertices: usize) -> int {
    vertices * VERTEX_COMPONENTS
}

/// The length of the interleaved buffer that holds `vertices` records, or
/// `None` where that length has no machine representation.
pub fn component_count(vertices: usize) -> (r: Option<usize>)
    ensures
        r is Some <==> spec_component_count(vertices) <= usize::MAX,
        r matches Some(n) ==> n == spec_component_count(vertices),
{
    if vertices > usize::MAX / VERTEX_COMPONENTS {
        None
    } else {
        Some(vertices * VERTEX_COMPONENTS)
    }
}

/// Where the position of vertex `k` starts in the interleaved buffer.
pub open spec fn spec_position_offset(k: usize) -> int {
    k * VERTEX_COMPONENTS
}

/// Where the normal of vertex `k` starts in the interleaved buffer.
pub open spec fn spec_normal_offset(k: usize) -> int {
    k * VERTEX_COMPONENTS + POSITION_COMPONENTS
}

/// Where the position of vertex `k` starts in an interleaved buffer of
/// `len` components, or `None` where the buffer does not hold that vertex
/// whole.
pub fn position_offset(k: usize, len: usize) -> (r: Option<usize>)
    ensures
        r is Some <==> spec_position_offset(k) + VERTEX_COMPONENTS <= len,
        r matches Some(at) ==> at == spec_position_offset(k),
{
    if k >= len / VERTEX_COMPONENTS {
        None
    } else {
        Some(k * VERTEX_COMPONENTS)
    }
}

/// Where the normal of vertex `k` starts in an interleaved buffer of `len`
/// components, or `None` where the buffer does not hold that vertex whole.
pub fn normal_offset(k: usize, len: usize) -> (r: Option<usize>)
    ensures
        r is Some <==> spec_position_offset(k) + VERTEX_COMPONENTS <= len,
        r matches Some(at) ==> at == spec_normal_offset(k),
{
    match position_offset(k, len) {
        None => None,
        Some(at) => Some(at + POSITION_COMPONENTS),
    }
}

/// The records of an interleaved buffer do not overlap: the normal of a
/// vertex follows its position, and the next vertex follows the normal.
pub proof fn lemma_records_disjoint(k: usize)
    ensures
        spec_position_offset(k) + POSITION_COMPONENTS == spec_normal_offset(k),
        spec_normal_offset(k) + NORMAL_COMPONENTS == spec_position_offset(k) + VERTEX_COMPONENTS,
        k < usize::MAX ==> spec_position_offset(k) + VERTEX_COMPONENTS == spec_position_offset(
            (k + 1) as usize,
        ),
{
}

} // verus!
