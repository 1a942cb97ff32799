use vstd::prelude::*;

verus! {

/// Nanoseconds in a second.
pub const NANOS_PER_SEC: u32 = 1_000_000_000;

/// A span of time as whole seconds and the nanoseconds beyond them, the way
/// `std::time::Duration` holds one.
#[derive(PartialEq, Eq, Structural, Debug, Clone, Copy)]
pub struct Span {
    pub secs: u64,
    pub nanos: u32,
}

impl Span {
    /// The nanoseconds part is below one second.
    pub open spec fn wf(self) -> bool {
        self.nanos < NANOS_PER_SEC
    }

    /// The whole span in nanoseconds.
    pub open spec fn total_nanos(self) -> int {
        self.secs * 1_000_000_000 + self.nanos
    }

    /// A span of `secs` seconds and `nanos` nanoseconds.
    pub fn new(secs: u64, nanos: u32) -> (s: Span)
        requires
            nanos < NANOS_PER_SEC,
        ensures
            s.wf(),
            s.secs == secs,
            s.nanos == nanos,
    {
        Span { secs, nanos }
    }

    /// A span of `micros` microseconds.
    pub fn from_micros(micros: u64) -> (s: Span)
        ensures
            s.wf(),
            s.total_nanos() == micros * 1000,
    {
        let secs = micros / 1_000_000;
        let rest = micros % 1_000_000;
        let nanos = (rest * 1000) as u32;
        Span { secs, nanos }
    }

    /// `self - other`, or `None` when `other` is the longer span.
    pub fn checked_sub(self, other: Span) -> (r: Option<Span>)
        requires
            self.wf(),
            other.wf(),
        ensures
            r is Some <==> other.total_nanos() <= self.total_nanos(),
            r matches Some(d) ==> d.wf() && d.total_nanos() == self.total_nanos()
                - other.total_nanos(),
    {
        if self.secs < other.secs {
            None
        } else if self.nanos >= other.nanos {
            Some(Span { secs: self.secs - other.secs, nanos: self.nanos - other.nanos })
        } else if self.secs == other.secs {
            None
        } else {
            Some(
                Span {
                    secs: self.secs - other.secs - 1,
                    nanos: NANOS_PER_SEC - other.nanos + self.nanos,
                },
            )
        }
    }
}

/// The wait between samples when taking `samples_per_second` of them each
/// second: one second divided by that number, in whole microseconds; a
/// negative rate, read as an unsigned number, gives no wait at all.
pub fn sample_delay(samples_per_second: i32) -> (s: Span)
    requires
        samples_per_second != 0,
    ensures
        s.wf(),
        samples_per_second > 0 ==> s.total_nanos() == (1_000_000int / samples_per_second as int)
            * 1000,
        samples_per_second < 0 ==> s.total_nanos() == 0,
{
    let rate = #[verifier::truncate] (samples_per_second as u64);
    if samples_per_second < 0 {
        assert(samples_per_second < 0 ==> (samples_per_second as u64) > 1_000_000u64)
            by (bit_vector);
        proof {
            vstd::arithmetic::div_mod::lemma_basic_div(1_000_000, rate as int);
        }
    }
    Span::from_micros(1_000_000 / rate)
}

} // verus!
