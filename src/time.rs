use vstd::prelude::*;

verus! {

/// A time base: one timestamp unit lasts `num / den` seconds.
#[derive(Clone, Copy, Debug, PartialEq, Eq, Structural)]
pub struct Rational {
    pub num: i32,
    pub den: i32,
}

impl Rational {
    pub fn new(num: i32, den: i32) -> (r: Rational)
        ensures
            r.num == num,
            r.den == den,
    {
        Rational { num, den }
    }

    /// Both parts are positive, as a stream's time base must be.
    pub open spec fn valid(self) -> bool {
        self.num > 0 && self.den > 0
    }

    pub fn is_valid(&self) -> (r: bool)
        ensures
            r == self.valid(),
    {
        self.num > 0 && self.den > 0
    }
}

/// A timestamp together with the time base it is expressed in.
#[derive(Clone, Copy, Debug, PartialEq, Eq, Structural)]
pub struct Time {
    pub time: Option<i64>,
    pub time_base: Rational,
}

impl Time {
    pub open spec fn new_spec(time: Option<i64>, time_base: Rational) -> Time {
        Time { time, time_base }
    }

    pub fn new(time: Option<i64>, time_base: Rational) -> (r: Time)
        ensures
            r == Time::new_spec(time, time_base),
    {
        Time { time, time_base }
    }

    pub fn time(&self) -> (r: Option<i64>)
        ensures
            r == self.time,
    {
        self.time
    }

    pub fn time_base(&self) -> (r: Rational)
        ensures
            r == self.time_base,
    {
        self.time_base
    }
}

} // verus!
