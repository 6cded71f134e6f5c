use vstd::prelude::*;

verus! {

/// The row pitches of the three planes of a 4:2:0 YUV frame whose luma rows
/// are `y_pitch` bytes apart: the luma pitch, and half of it (rounded down)
/// for each chroma plane. `None` when the luma pitch does not fit in an
/// `i32`.
pub fn yuv_plane_pitches(y_pitch: usize) -> (r: Option<(i32, i32)>)
    ensures
        y_pitch <= i32::MAX ==> r == Some((y_pitch as i32, (y_pitch / 2) as i32)),
        y_pitch > i32::MAX ==> r is None,
{
    if y_pitch > i32::MAX as usize {
        None
    } else {
        Some((y_pitch as i32, (y_pitch / 2) as i32))
    }
}

} // verus!
