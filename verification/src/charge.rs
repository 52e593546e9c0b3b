use vstd::prelude::*;

use crate::gas::Gas;
use crate::gas::sat_i64;

verus! {

#[verifier::external_type_specification]
#[verifier::external_body]
pub struct ExInstant(std::time::Instant);

/// Relies on std::time::Instant::now: an opaque reading of the monotonic clock.
#[verifier::external_body]
pub(crate) fn instant_now() -> std::time::Instant {
    std::time::Instant::now()
}

/// Relies on std::time::Instant::elapsed: the time that passed since the reading.
#[verifier::external_body]
pub(crate) fn instant_elapsed(start: &std::time::Instant) -> core::time::Duration {
    start.elapsed()
}

/// A single metering event: a label, a compute cost, an auxiliary cost, and,
/// once a scoped timer has stopped, the measured elapsed time.
#[derive(Debug)]
pub struct GasCharge {
    pub name: String,
    pub compute_gas: Gas,
    pub other_gas: Gas,
    pub elapsed: Option<core::time::Duration>,
}

impl GasCharge {
    /// Total cost of the event: compute cost plus auxiliary cost, saturating.
    pub open spec fn spec_total(&self) -> int {
        sat_i64(self.compute_gas@ + self.other_gas@)
    }

    pub fn new(name: &str, compute_gas: Gas, other_gas: Gas) -> (r: GasCharge)
        ensures
            r.name@ == name@,
            r.compute_gas == compute_gas,
            r.other_gas == other_gas,
            r.elapsed is None,
    {
        GasCharge { name: name.to_owned(), compute_gas, other_gas, elapsed: None }
    }

    pub fn total(&self) -> (r: Gas)
        ensures
            r@ == self.spec_total(),
    {
        self.compute_gas.add(self.other_gas)
    }
}

/// A scoped timer handed out by a charge. It remembers which trace entry it
/// belongs to (none when tracing is disabled, making it a no-op) and the
/// instant at which the charge was applied.
pub struct GasTimer {
    pub(crate) target: Option<(usize, std::time::Instant)>,
}

impl GasTimer {
    /// The trace entry this timer will fill in, if any.
    pub closed spec fn spec_idx(&self) -> Option<int> {
        match self.target {
            Some((i, _)) => Some(i as int),
            None => None,
        }
    }

    /// A no-op timer, used when tracing is disabled.
    pub fn empty() -> (r: GasTimer)
        ensures
            r.spec_idx() is None,
    {
        GasTimer { target: None }
    }

    /// Hands back the entry index and start instant this timer was bound to.
    pub(crate) fn take_target(self) -> (r: Option<(usize, std::time::Instant)>)
        ensures
            (r is Some) == (self.spec_idx() is Some),
            r matches Some(p) ==> self.spec_idx() == Some(p.0 as int),
    {
        self.target
    }

    pub(crate) fn for_entry(idx: usize) -> (r: GasTimer)
        ensures
            r.spec_idx() == Some(idx as int),
    {
        GasTimer { target: Some((idx, instant_now())) }
    }
}

} // verus!
