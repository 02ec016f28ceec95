//! Sizes of the GPU buffers that stand behind one path, and the rule that
//! decides whether a buffer is written in place or replaced.
//!
//! A path of `n` control points has `n / 2` quadratic segments. The
//! tessellation kernel reads the points from a storage buffer and writes three
//! vertices for every segment plus one shared vertex, and six indices for every
//! segment.

use vstd::prelude::*;

verus! {

/// Bytes that one control point takes in the point buffer: three 32-bit
/// components, padded to the 16-byte stride of a storage array.
pub const POINT_STRIDE: u64 = 16;

/// Bytes of one vertex record: a four-component position and a two-component
/// curve parameter, at a fixed stride.
pub const VERTEX_SIZE: u64 = 32;

/// Bytes of one index entry.
pub const INDEX_SIZE: u64 = 4;

/// Segments that one workgroup of the tessellation kernel handles.
pub const WORKGROUP_SIZE: usize = 64;

/// The longest path whose index range still fits the 32-bit range of an
/// indexed draw. Every buffer size of a path within this bound fits in 64 bits.
pub const MAX_POINTS: usize = 1_431_655_765;

/// Number of quadratic segments in a path of `n_points` control points.
pub open spec fn segment_count(n_points: nat) -> nat {
    n_points / 2
}

/// Number of vertex records that the kernel writes for `n_points` points.
pub open spec fn vertex_records(n_points: nat) -> nat {
    segment_count(n_points) * 3 + 1
}

/// Number of index entries that the kernel writes for `n_points` points.
pub open spec fn index_entries(n_points: nat) -> nat {
    segment_count(n_points) * 6
}

/// Bytes of the point buffer for `n_points` points.
pub open spec fn point_bytes(n_points: nat) -> nat {
    n_points * 16
}

/// Bytes of the vertex buffer for `n_points` points.
pub open spec fn vertex_bytes(n_points: nat) -> nat {
    vertex_records(n_points) * 32
}

/// Bytes of the index buffer for `n_points` points.
pub open spec fn index_bytes(n_points: nat) -> nat {
    index_entries(n_points) * 4
}

/// Workgroups needed to cover every segment: the segment count divided by the
/// workgroup size, rounded up.
pub open spec fn workgroups(n_points: nat) -> nat {
    (segment_count(n_points) + 63) / 64
}

/// A buffer of `current` bytes is kept for `required` bytes when the new
/// contents fill at least half of it (rounded down) and do not overflow it.
pub open spec fn fits(current: nat, required: nat) -> bool {
    current / 2 <= required <= current
}

/// Longer paths never need smaller buffers.
pub proof fn lemma_sizes_monotonic(a: nat, b: nat)
    requires
        a <= b,
    ensures
        segment_count(a) <= segment_count(b),
        vertex_records(a) <= vertex_records(b),
        index_entries(a) <= index_entries(b),
        point_bytes(a) <= point_bytes(b),
        vertex_bytes(a) <= vertex_bytes(b),
        index_bytes(a) <= index_bytes(b),
        workgroups(a) <= workgroups(b),
{
}

/// Within [`MAX_POINTS`] every size fits its machine type.
pub proof fn lemma_sizes_in_range(n_points: nat)
    requires
        n_points <= MAX_POINTS,
    ensures
        point_bytes(n_points) <= u64::MAX,
        vertex_bytes(n_points) <= u64::MAX,
        index_bytes(n_points) <= u64::MAX,
        index_entries(n_points) <= u32::MAX,
        workgroups(n_points) <= u32::MAX,
{
}

/// The workgroups of a dispatch cover every segment, and the last one is not
/// idle.
pub proof fn lemma_workgroups_cover(n_points: nat)
    ensures
        workgroups(n_points) * 64 >= segment_count(n_points),
        segment_count(n_points) > 0 ==> (workgroups(n_points) - 1) * 64 < segment_count(
            n_points,
        ),
        segment_count(n_points) == 0 ==> workgroups(n_points) == 0,
{
}

/// Byte size of the point buffer that holds `n_points` control points.
pub fn point_buffer_size(n_points: usize) -> (bytes: u64)
    requires
        point_bytes(n_points as nat) <= u64::MAX,
    ensures
        bytes == point_bytes(n_points as nat),
{
    n_points as u64 * POINT_STRIDE
}

/// Byte size of the vertex buffer for a path of `n_points` control points.
pub fn vertex_buffer_size(n_points: usize) -> (bytes: u64)
    requires
        vertex_bytes(n_points as nat) <= u64::MAX,
    ensures
        bytes == vertex_bytes(n_points as nat),
{
    (n_points as u64 / 2 * 3 + 1) * VERTEX_SIZE
}

/// Byte size of the index buffer for a path of `n_points` control points.
pub fn index_buffer_size(n_points: usize) -> (bytes: u64)
    requires
        index_bytes(n_points as nat) <= u64::MAX,
    ensures
        bytes == index_bytes(n_points as nat),
{
    (n_points as u64 / 2 * 6) * INDEX_SIZE
}

/// Number of indices that a draw over an index buffer of `bytes` bytes covers.
pub fn index_count(bytes: u64) -> (count: u32)
    requires
        bytes / 4 <= u32::MAX,
    ensures
        count == bytes / 4,
{
    (bytes / INDEX_SIZE) as u32
}

/// Workgroups to dispatch for a path of `n_points` control points.
pub fn num_compute_workgroups(n_points: usize) -> (count: u32)
    requires
        workgroups(n_points as nat) <= u32::MAX,
    ensures
        count == workgroups(n_points as nat),
{
    let segments: usize = n_points / 2;
    let full: usize = segments / WORKGROUP_SIZE;
    if segments % WORKGROUP_SIZE == 0 {
        full as u32
    } else {
        (full + 1) as u32
    }
}

/// Whether a buffer of `current` bytes is kept for contents of `required`
/// bytes.
pub fn buffer_fits(current: u64, required: u64) -> (keep: bool)
    ensures
        keep == fits(current as nat, required as nat),
{
    current / 2 <= required && required <= current
}

/// Whether new contents of `required` bytes call for a new buffer: always when
/// there is none yet, otherwise exactly when `required` lies outside the range
/// from half the current size to the current size.
pub fn needs_reallocation(current: Option<u64>, required: u64) -> (replace: bool)
    ensures
        replace == match current {
            Some(size) => !fits(size as nat, required as nat),
            None => true,
        },
{
    match current {
        Some(size) => !buffer_fits(size, required),
        None => true,
    }
}

} // verus!
