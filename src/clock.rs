use vstd::prelude::*;

use crate::time::Rational;

verus! {

#[verifier::external_type_specification]
#[verifier::external_body]
pub struct ExInstant(std::time::Instant);

/// Relies on `Instant::now`: reads the monotonic clock. Nothing is known of
/// the value it returns.
#[verifier::external_body]
fn instant_now() -> (r: std::time::Instant) {
    std::time::Instant::now()
}

/// Relies on `Instant::elapsed`: the time that has passed since `start`.
#[verifier::external_body]
fn elapsed_since(start: &std::time::Instant) -> (r: core::time::Duration) {
    start.elapsed()
}

/// Relies on `Duration::as_nanos`: the whole nanoseconds of a duration.
#[verifier::external_body]
fn whole_nanos(d: &core::time::Duration) -> (r: u128) {
    d.as_nanos()
}

pub const NANOS_PER_SECOND: i128 = 1_000_000_000;

/// Where `pts` lies after the start of the stream, in nanoseconds, rounded
/// down.
pub open spec fn pts_offset_nanos(pts: int, time_base: Rational) -> int {
    (pts * time_base.num * NANOS_PER_SECOND) / (time_base.den as int)
}

/// How long to wait until the deadline of `pts`, when `elapsed` nanoseconds
/// have passed since the clock started: never below zero, and held to what
/// a `u64` can count.
pub open spec fn delay_nanos(pts: int, time_base: Rational, elapsed: int) -> int {
    let d = pts_offset_nanos(pts, time_base) - elapsed;
    if d <= 0 {
        0
    } else if d > u64::MAX {
        u64::MAX as int
    } else {
        d
    }
}

/// The wait before a frame with timestamp `pts` is due, given the time that
/// has passed since the clock started.
pub fn delay_after(pts: i64, time_base: Rational, elapsed: u128) -> (r: u64)
    requires
        time_base.valid(),
    ensures
        r == delay_nanos(pts as int, time_base, elapsed as int),
{
    let p: i128 = pts as i128;
    let n: i128 = time_base.num as i128;
    proof {
        assert(-0x4000_0000_0000_0000_0000_0000 <= p * n <= 0x4000_0000_0000_0000_0000_0000)
            by (nonlinear_arith)
            requires
                -0x8000_0000_0000_0000 <= p <= 0x7fff_ffff_ffff_ffff,
                0 < n <= 0x7fff_ffff,
        ;
    }
    let pn: i128 = p * n;
    proof {
        assert(-0x4000_0000_0000_0000_0000_0000_0000_0000 <= pn * NANOS_PER_SECOND
            <= 0x4000_0000_0000_0000_0000_0000_0000_0000) by (nonlinear_arith)
            requires
                -0x4000_0000_0000_0000_0000_0000 <= pn <= 0x4000_0000_0000_0000_0000_0000,
        ;
    }
    let scaled: i128 = pn * NANOS_PER_SECOND;
    if scaled <= 0 {
        proof {
            assert(pts as int * time_base.num * NANOS_PER_SECOND <= 0);
            vstd::arithmetic::div_mod::lemma_div_is_ordered(
                pts as int * time_base.num * NANOS_PER_SECOND,
                0,
                time_base.den as int,
            );
            vstd::arithmetic::div_mod::lemma_div_basics(time_base.den as int);
        }
        return 0;
    }
    let offset: u128 = (scaled as u128) / (time_base.den as u128);
    if offset <= elapsed {
        0
    } else if offset - elapsed > u64::MAX as u128 {
        u64::MAX
    } else {
        (offset - elapsed) as u64
    }
}

/// Turns stream timestamps into waits against a monotonic clock that starts
/// when the clock is made.
pub struct StreamClock {
    pub time_base: Rational,
    pub start_time: std::time::Instant,
}

impl StreamClock {
    pub open spec fn valid(&self) -> bool {
        self.time_base.valid()
    }

    pub fn new(time_base: Rational) -> (r: StreamClock)
        requires
            time_base.valid(),
        ensures
            r.valid(),
            r.time_base == time_base,
    {
        StreamClock { time_base, start_time: instant_now() }
    }

    /// The wait in nanoseconds before a frame with timestamp `pts` is due:
    /// `None` exactly when the frame has no timestamp. A deadline that has
    /// already passed gives a wait of zero.
    pub fn convert_pts_to_delay(&self, pts: Option<i64>) -> (r: Option<u64>)
        requires
            self.valid(),
        ensures
            r.is_none() <==> pts.is_none(),
            pts.is_some() ==> exists|elapsed: u128|
                r == Some(delay_nanos(pts.unwrap() as int, self.time_base, elapsed as int) as u64),
    {
        match pts {
            None => None,
            Some(p) => {
                let since = elapsed_since(&self.start_time);
                let elapsed = whole_nanos(&since);
                Some(delay_after(p, self.time_base, elapsed))
            }
        }
    }
}

} // verus!
