use vstd::prelude::*;

verus! {

/// How decoded frames are resized before they are handed out.
#[derive(Clone, Copy, Debug, PartialEq, Eq, Structural)]
pub enum Resize {
    /// Exactly this width and height.
    Exact(u32, u32),
    /// As large as fits inside this width and height with the aspect ratio
    /// kept; a frame that already fits is left as it is.
    Fit(u32, u32),
}

/// The size of a `(w, h)` frame scaled down to fit `(w_max, h_max)`: the
/// smaller of the two scale factors decides, and the other side is rounded
/// down.
pub open spec fn fit_dims(w: int, h: int, w_max: int, h_max: int) -> (int, int) {
    if w_max >= w && h_max >= h {
        (w, h)
    } else if w_max * h <= h_max * w {
        (w_max, (h * w_max) / w)
    } else {
        ((w * h_max) / h, h_max)
    }
}

impl Resize {
    /// The output size for an input of size `dims`, or `None` when the
    /// policy leaves no positive width and height.
    pub open spec fn spec_compute_for(self, dims: (u32, u32)) -> Option<(u32, u32)> {
        match self {
            Resize::Exact(w, h) => if w > 0 && h > 0 {
                Some((w, h))
            } else {
                None
            },
            Resize::Fit(w_max, h_max) => {
                let (w, h) = (dims.0 as int, dims.1 as int);
                if w == 0 || h == 0 {
                    None
                } else {
                    let out = fit_dims(w, h, w_max as int, h_max as int);
                    if out.0 > 0 && out.1 > 0 {
                        Some((out.0 as u32, out.1 as u32))
                    } else {
                        None
                    }
                }
            },
        }
    }

    pub fn compute_for(self, dims: (u32, u32)) -> (r: Option<(u32, u32)>)
        ensures
            r == self.spec_compute_for(dims),
    {
        match self {
            Resize::Exact(w, h) => if w > 0 && h > 0 {
                Some((w, h))
            } else {
                None
            },
            Resize::Fit(w_max, h_max) => {
                let (w, h) = dims;
                if w == 0 || h == 0 {
                    return None;
                }
                proof {
                    lemma_u32_product(w_max as int, h as int);
                    lemma_u32_product(h_max as int, w as int);
                    if !(w_max >= w && h_max >= h) {
                        lemma_smaller_factor(w as int, h as int, w_max as int, h_max as int);
                    }
                }
                let (out_w, out_h): (u32, u32) = if w_max >= w && h_max >= h {
                    (w, h)
                } else if (w_max as u64) * (h as u64) <= (h_max as u64) * (w as u64) {
                    proof {
                        lemma_scaled_side_fits(h as int, w_max as int, w as int);
                    }
                    (w_max, ((h as u64) * (w_max as u64) / (w as u64)) as u32)
                } else {
                    proof {
                        lemma_scaled_side_fits(w as int, h_max as int, h as int);
                    }
                    ((w as u64 * h_max as u64 / h as u64) as u32, h_max)
                };
                if out_w > 0 && out_h > 0 {
                    Some((out_w, out_h))
                } else {
                    None
                }
            },
        }
    }
}

proof fn lemma_u32_product(a: int, b: int)
    requires
        0 <= a <= u32::MAX,
        0 <= b <= u32::MAX,
    ensures
        0 <= a * b <= u64::MAX,
{
    vstd::arithmetic::mul::lemma_mul_upper_bound(a, u32::MAX as int, b, u32::MAX as int);
    vstd::arithmetic::mul::lemma_mul_nonnegative(a, b);
}

/// When a frame does not fit, the side whose scale factor is the smaller
/// one must shrink.
proof fn lemma_smaller_factor(w: int, h: int, w_max: int, h_max: int)
    requires
        0 < w,
        0 < h,
        0 <= w_max,
        0 <= h_max,
        !(w_max >= w && h_max >= h),
    ensures
        w_max * h <= h_max * w ==> w_max < w,
        w_max * h > h_max * w ==> h_max < h,
{
    if w_max >= w {
        vstd::arithmetic::mul::lemma_mul_inequality(w, w_max, h);
        vstd::arithmetic::mul::lemma_mul_strict_inequality(h_max, h, w);
        vstd::arithmetic::mul::lemma_mul_is_commutative(w, h);
        vstd::arithmetic::mul::lemma_mul_is_commutative(h_max, w);
    }
    if h_max >= h {
        vstd::arithmetic::mul::lemma_mul_inequality(h, h_max, w);
        vstd::arithmetic::mul::lemma_mul_strict_inequality(w_max, w, h);
        vstd::arithmetic::mul::lemma_mul_is_commutative(w_max, h);
        vstd::arithmetic::mul::lemma_mul_is_commutative(h, w);
    }
}

/// Scaling side `a` by `num / den` with `num <= den` gives no more than `a`.
proof fn lemma_scaled_side_fits(a: int, num: int, den: int)
    requires
        0 <= a,
        0 <= num < den,
    ensures
        0 <= (a * num) / den <= a,
        a * num <= u64::MAX || a > u32::MAX || num > u32::MAX,
{
    vstd::arithmetic::mul::lemma_mul_inequality(num, den, a);
    vstd::arithmetic::mul::lemma_mul_is_commutative(a, num);
    vstd::arithmetic::mul::lemma_mul_is_commutative(a, den);
    vstd::arithmetic::div_mod::lemma_div_is_ordered(a * num, a * den, den);
    vstd::arithmetic::div_mod::lemma_div_multiples_vanish(a, den);
    vstd::arithmetic::mul::lemma_mul_nonnegative(a, num);
    vstd::arithmetic::div_mod::lemma_div_pos_is_pos(a * num, den);
    if a <= u32::MAX && num <= u32::MAX {
        vstd::arithmetic::mul::lemma_mul_upper_bound(a, u32::MAX as int, num, u32::MAX as int);
    }
}

} // verus!
