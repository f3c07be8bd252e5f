use vstd::prelude::*;

verus! {

/// Side length, in pixels, of the square workgroup of the ray-tracing shader.
pub const WORKGROUP_SIZE: u32 = 16;

/// Number of workgroups of `WORKGROUP_SIZE` pixels needed along one axis to
/// cover `extent` pixels: `ceil(extent / WORKGROUP_SIZE)`.
pub open spec fn workgroups_for(extent: int) -> int {
    (extent + WORKGROUP_SIZE - 1) / (WORKGROUP_SIZE as int)
}

/// Workgroups to dispatch along one axis of the output texture.
///
/// The workgroups cover every pixel of the axis, and the last one still
/// starts inside it.
pub fn workgroup_count(extent: u32) -> (n: u32)
    requires
        extent + WORKGROUP_SIZE - 1 <= u32::MAX,
    ensures
        n == workgroups_for(extent as int),
        n * WORKGROUP_SIZE >= extent,
        n == 0 || (n - 1) * WORKGROUP_SIZE < extent,
{
    (extent + (WORKGROUP_SIZE - 1)) / WORKGROUP_SIZE
}

/// Workgroups to dispatch over a `width` by `height` output texture.
pub fn workgroup_counts(width: u32, height: u32) -> (wh: (u32, u32))
    requires
        width + WORKGROUP_SIZE - 1 <= u32::MAX,
        height + WORKGROUP_SIZE - 1 <= u32::MAX,
    ensures
        wh.0 == workgroups_for(width as int),
        wh.1 == workgroups_for(height as int),
{
    (workgroup_count(width), workgroup_count(height))
}

/// Hands out the index of the frame about to be rendered, the one that the
/// shader's accumulation divides by, and counts that frame.
pub fn next_frame_index(frame_count: &mut u32) -> (frame: u32)
    requires
        *old(frame_count) < u32::MAX,
    ensures
        frame == *old(frame_count),
        *final(frame_count) == *old(frame_count) + 1,
{
    let frame = *frame_count;
    *frame_count = *frame_count + 1;
    frame
}

} // verus!
