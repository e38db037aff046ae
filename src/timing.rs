//! Conversion of packet timestamps into whole seconds.

use vstd::prelude::*;

verus! {

/// Number of distinct `u64` values: whole seconds wrap modulo this.
pub open spec fn u64_span() -> int {
    0x1_0000_0000_0000_0000
}

/// Relies on symphonia's `TimeBase::calc_time`: the whole seconds of `ts`
/// ticks of `numer / denom` seconds each, which wrap on overflow. Both
/// `TimeBase::new` and `calc_time` panic on a zero numerator or denominator.
#[verifier::external_body]
fn calc_time_seconds(numer: u32, denom: u32, ts: u64) -> (r: u64)
    requires
        numer > 0,
        denom > 0,
    ensures
        r as int == (ts as int * numer as int / denom as int) % u64_span(),
{
    symphonia::core::units::TimeBase::new(numer, denom).calc_time(ts).seconds
}

/// The unit fraction of a track's timestamps: one tick lasts `numer / denom`
/// seconds.
#[derive(Debug, Clone, Copy, PartialEq, Eq, Structural)]
pub struct TimeBase {
    pub numer: u32,
    pub denom: u32,
}

impl TimeBase {
    /// Both parts are positive.
    pub open spec fn wf(self) -> bool {
        self.numer > 0 && self.denom > 0
    }

    /// Whole seconds in `ts` ticks, before any wrap.
    pub open spec fn seconds(self, ts: u64) -> int {
        ts as int * self.numer as int / self.denom as int
    }

    /// Makes a time base, refusing a zero part.
    pub fn new(numer: u32, denom: u32) -> (r: Option<TimeBase>)
        ensures
            r.is_some() <==> numer > 0 && denom > 0,
            r matches Some(tb) ==> tb.numer == numer && tb.denom == denom && tb.wf(),
    {
        if numer > 0 && denom > 0 {
            Some(TimeBase { numer, denom })
        } else {
            None
        }
    }

    /// Whole seconds in `ts` ticks; they wrap when they exceed `u64`.
    pub fn calc_seconds(&self, ts: u64) -> (r: u64)
        requires
            self.wf(),
        ensures
            r as int == self.seconds(ts) % u64_span(),
            self.seconds(ts) < u64_span() ==> r as int == self.seconds(ts),
    {
        let r = calc_time_seconds(self.numer, self.denom, ts);
        proof {
            let s = self.seconds(ts);
            assert(s >= 0) by (nonlinear_arith)
                requires
                    s == ts as int * self.numer as int / self.denom as int,
                    self.denom > 0,
            ;
            if s < u64_span() {
                vstd::arithmetic::div_mod::lemma_small_mod(s as nat, u64_span() as nat);
            }
        }
        r
    }
}

/// More ticks never give fewer seconds, while the seconds fit.
pub proof fn lemma_seconds_monotonic(tb: TimeBase, a: u64, b: u64)
    requires
        tb.wf(),
        a <= b,
    ensures
        tb.seconds(a) <= tb.seconds(b),
{
    let n = tb.numer as int;
    let d = tb.denom as int;
    assert(a as int * n <= b as int * n) by (nonlinear_arith)
        requires
            a <= b,
            n > 0,
    ;
    vstd::arithmetic::div_mod::lemma_div_is_ordered(a as int * n, b as int * n, d);
}

} // verus!
