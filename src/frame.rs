use vstd::prelude::*;

verus! {

/// A decoded picture as an array of shape `[height, width, 3]`: one RGB
/// triple per pixel, rows from the top.
#[verifier::external_body]
pub struct Frame {
    pub array: ndarray::Array3<u8>,
}

/// The shape of a frame's array: height, width and channels.
pub uninterp spec fn frame_shape(f: Frame) -> (usize, usize, usize);

/// The elements of a frame's array in row-major order.
pub uninterp spec fn frame_data(f: Frame) -> Seq<u8>;

/// Relies on ndarray's `Array::from_shape_vec`: with a row-major shape it
/// takes the elements of `data` in order. It fails when their number is not
/// the product of the shape, or when the product of the non-zero axis
/// lengths overflows `isize`; with the element count matching, the latter
/// can only happen through an axis whose companion is zero, which the bounds
/// on `height * 3` and `width * 3` rule out.
#[verifier::external_body]
fn array_from_shape_vec(height: usize, width: usize, data: Vec<u8>) -> (r: Option<Frame>)
    ensures
        r matches Some(f) ==> frame_shape(f) == (height, width, 3usize) && frame_data(f) == data@,
        data@.len() == height * width * 3 && height * 3 <= isize::MAX && width * 3
            <= isize::MAX ==> r is Some,
{
    match ndarray::Array3::from_shape_vec((height, width, 3), data) {
        Ok(array) => Some(Frame { array }),
        Err(_) => None,
    }
}

/// Whether `height` rows of `width` RGB pixels, each row starting `stride`
/// bytes after the one before, lie within a plane of `len` bytes.
pub open spec fn rows_fit(len: int, width: int, height: int, stride: int) -> bool {
    &&& width * 3 <= stride
    &&& height == 0 || (height - 1) * stride + width * 3 <= len
}

/// Whether an array of shape `[height, width, 3]` can be made at all: each
/// axis with the channels stays within `isize`.
pub open spec fn axes_fit(width: int, height: int) -> bool {
    height * 3 <= isize::MAX && width * 3 <= isize::MAX
}

/// Whether `packed` holds the pixel rows of `plane` one after the other,
/// without the padding at the end of each row.
pub open spec fn packs_rows(packed: Seq<u8>, plane: Seq<u8>, width: int, height: int, stride: int) -> bool {
    &&& packed.len() == height * (width * 3)
    &&& forall|y: int, i: int|
        0 <= y < height && 0 <= i < width * 3 ==> #[trigger] packed[y * (width * 3) + i]
            == plane[y * stride + i]
}

proof fn lemma_row_index(y: int, i: int, row: int, bound_y: int)
    requires
        0 <= y < bound_y,
        0 <= i < row,
    ensures
        0 <= y * row + i < bound_y * row,
        y * row + i < (y + 1) * row,
        y * row <= y * row + i,
{
    vstd::arithmetic::mul::lemma_mul_inequality(y + 1, bound_y, row);
    vstd::arithmetic::mul::lemma_mul_is_distributive_add_other_way(row, y, 1);
    vstd::arithmetic::mul::lemma_mul_nonnegative(y, row);
}

/// Copies the pixel rows of an RGB24 plane with row pitch `stride` into one
/// row-major buffer. `None` when the rows do not lie within the plane.
pub fn pack_rgb24_rows(plane: &[u8], width: usize, height: usize, stride: usize) -> (r: Option<
    Vec<u8>,
>)
    ensures
        r is Some <==> rows_fit(plane@.len() as int, width as int, height as int, stride as int),
        r matches Some(v) ==> packs_rows(v@, plane@, width as int, height as int, stride as int),
{
    let len: usize = plane.len();
    let row = match width.checked_mul(3) {
        Some(row) => row,
        None => {
            return None;
        },
    };
    if row > stride {
        return None;
    }
    if height > 0 {
        let last = match (height - 1).checked_mul(stride) {
            Some(last) => last,
            None => {
                proof {
                    assert((height as int - 1) * (stride as int) > usize::MAX);
                    assert(plane@.len() == len);
                }
                return None;
            },
        };
        if last > len || len - last < row {
            proof {
                vstd::arithmetic::mul::lemma_mul_nonnegative((height - 1) as int, stride as int);
            }
            return None;
        }
    }
    let ghost w3 = row as int;
    let mut out: Vec<u8> = Vec::new();
    let mut y: usize = 0;
    while y < height
        invariant
            row == width * 3,
            w3 == row,
            row <= stride,
            len == plane@.len(),
            y <= height,
            height == 0 || (height - 1) * stride + row <= plane@.len(),
            out@.len() == y * w3,
            forall|yy: int, i: int|
                0 <= yy < y && 0 <= i < w3 ==> #[trigger] out@[yy * w3 + i] == plane@[yy * stride
                    + i],
        decreases height - y,
    {
        proof {
            vstd::arithmetic::mul::lemma_mul_inequality(y as int, height as int - 1, stride as int);
            vstd::arithmetic::mul::lemma_mul_nonnegative(y as int, stride as int);
            assert(y as int * stride as int + row <= plane@.len());
        }
        let start: usize = y * stride;
        let mut i: usize = 0;
        while i < row
            invariant
                row == width * 3,
                w3 == row,
                y < height,
                start == y * stride,
                start + row <= plane@.len(),
                len == plane@.len(),
                i <= row,
                out@.len() == y * w3 + i,
                forall|yy: int, k: int|
                    0 <= yy < y && 0 <= k < w3 ==> #[trigger] out@[yy * w3 + k] == plane@[yy
                        * stride + k],
                forall|k: int| 0 <= k < i ==> #[trigger] out@[y * w3 + k] == plane@[start + k],
            decreases row - i,
        {
            let ghost before = out@;
            out.push(plane[start + i]);
            proof {
                assert forall|yy: int, k: int|
                    0 <= yy < y && 0 <= k < w3 implies #[trigger] out@[yy * w3 + k] == plane@[yy
                    * stride + k] by {
                    lemma_row_index(yy, k, w3, y as int);
                    assert(out@[yy * w3 + k] == before[yy * w3 + k]);
                }
                assert forall|k: int| 0 <= k < i + 1 implies #[trigger] out@[y * w3 + k]
                    == plane@[start + k] by {
                    if k < i {
                        assert(out@[y * w3 + k] == before[y * w3 + k]);
                    }
                }
            }
            i = i + 1;
        }
        proof {
            vstd::arithmetic::mul::lemma_mul_is_distributive_add_other_way(w3, y as int, 1);
            assert forall|yy: int, k: int|
                0 <= yy < y + 1 && 0 <= k < w3 implies #[trigger] out@[yy * w3 + k] == plane@[yy
                * stride + k] by {
                if yy == y {
                    assert(out@[y * w3 + k] == plane@[start + k]);
                }
            }
        }
        y = y + 1;
    }
    Some(out)
}

/// The frame held by an RGB24 plane of `height` rows of `width` pixels,
/// `stride` bytes apart: an array of shape `[height, width, 3]` whose
/// elements are the pixel rows in order. `None` when the rows do not lie
/// within the plane, or when an axis is too long for an array.
pub fn rgb24_frame(plane: &[u8], width: usize, height: usize, stride: usize) -> (r: Option<Frame>)
    ensures
        r is Some <==> rows_fit(plane@.len() as int, width as int, height as int, stride as int)
            && axes_fit(width as int, height as int),
        r matches Some(f) ==> frame_shape(f) == (height, width, 3usize) && packs_rows(
            frame_data(f),
            plane@,
            width as int,
            height as int,
            stride as int,
        ),
{
    if height > (isize::MAX as usize) / 3 || width > (isize::MAX as usize) / 3 {
        return None;
    }
    match pack_rgb24_rows(plane, width, height, stride) {
        None => None,
        Some(rows) => {
            proof {
                vstd::arithmetic::mul::lemma_mul_is_associative(height as int, width as int, 3);
            }
            array_from_shape_vec(height, width, rows)
        },
    }
}

} // verus!
