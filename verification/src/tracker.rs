use vstd::prelude::*;

use crate::charge::GasCharge;
use crate::charge::GasTimer;
use crate::charge::instant_elapsed;
use crate::gas::Gas;
use crate::gas::sat_i64;

verus! {

/// The out-of-gas condition: a charge would have pushed usage past the limit.
#[derive(Debug, Eq, PartialEq, Copy, Clone, Structural)]
pub struct OutOfGas;

/// Whether a charge of `amount` fits a tracker with the given limit and usage:
/// the saturating sum of usage and amount stays within the limit.
pub open spec fn charge_fits(limit: int, used: int, amount: int) -> bool {
    sat_i64(used + amount) <= limit
}

/// Usage after a charge attempt: the saturating sum when the charge fits,
/// and usage clamped to exactly the limit when it does not.
pub open spec fn used_after_charge(limit: int, used: int, amount: int) -> int {
    if charge_fits(limit, used, amount) {
        sat_i64(used + amount)
    } else {
        limit
    }
}

/// What a drain hands back from a tracker whose trace buffer holds `trace`.
pub open spec fn drain_returns(trace: Seq<GasCharge>) -> Seq<GasCharge> {
    trace
}

/// The trace buffer a drain leaves behind.
pub open spec fn drain_leaves(trace: Seq<GasCharge>) -> Seq<GasCharge> {
    Seq::<GasCharge>::empty()
}

/// Sum of a sequence of charge amounts.
pub open spec fn seq_sum(s: Seq<int>) -> int
    decreases s.len(),
{
    if s.len() == 0 {
        0
    } else {
        seq_sum(s.drop_last()) + s.last()
    }
}

/// Usage after a sequence of charge attempts, applied in order.
pub open spec fn used_after_charges(limit: int, used: int, amounts: Seq<int>) -> int
    decreases amounts.len(),
{
    if amounts.len() == 0 {
        used
    } else {
        used_after_charge(
            limit,
            used_after_charges(limit, used, amounts.drop_last()),
            amounts.last(),
        )
    }
}

/// A sequence of non-negative amounts has a non-negative sum.
proof fn lemma_seq_sum_nonneg(s: Seq<int>)
    requires
        forall|j: int| 0 <= j < s.len() ==> 0 <= #[trigger] s[j],
    ensures
        0 <= seq_sum(s),
    decreases s.len(),
{
    if s.len() > 0 {
        lemma_seq_sum_nonneg(s.drop_last());
    }
}

/// A run of positive charges against a tracker of limit `limit` and initial
/// usage `u0`: while the cumulative sum stays within the limit, every charge
/// fits and usage tracks the exact sum; the first charge whose cumulative sum
/// passes the limit does not fit and leaves usage at exactly the limit, and
/// every charge after that does not fit either and leaves usage at exactly
/// the limit (the clamp is sticky).
pub proof fn lemma_charge_sequence(limit: int, u0: int, amounts: Seq<int>)
    requires
        0 <= u0 <= limit,
        limit < i64::MAX as int,
        forall|j: int| 0 <= j < amounts.len() ==> 0 < #[trigger] amounts[j] <= i64::MAX as int,
    ensures
        forall|i: int|
            0 <= i <= amounts.len() ==> #[trigger] used_after_charges(limit, u0, amounts.take(i))
                == (if u0 + seq_sum(amounts.take(i)) <= limit {
                u0 + seq_sum(amounts.take(i))
            } else {
                limit
            }),
        forall|i: int|
            0 <= i < amounts.len() ==> (charge_fits(
                limit,
                used_after_charges(limit, u0, amounts.take(i)),
                amounts[i],
            ) <==> u0 + seq_sum(amounts.take(i + 1)) <= limit),
    decreases amounts.len(),
{
    if amounts.len() == 0 {
        assert forall|i: int| 0 <= i <= amounts.len() implies #[trigger] used_after_charges(
            limit,
            u0,
            amounts.take(i),
        ) == (if u0 + seq_sum(amounts.take(i)) <= limit {
            u0 + seq_sum(amounts.take(i))
        } else {
            limit
        }) by {
            assert(amounts.take(i) =~= amounts);
        }
    } else {
        let n = amounts.len() as int;
        let pre = amounts.drop_last();
        let a = amounts.last();
        lemma_charge_sequence(limit, u0, pre);
        assert forall|i: int| 0 <= i <= n implies #[trigger] used_after_charges(
            limit,
            u0,
            amounts.take(i),
        ) == (if u0 + seq_sum(amounts.take(i)) <= limit {
            u0 + seq_sum(amounts.take(i))
        } else {
            limit
        }) by {
            if i < n {
                assert(amounts.take(i) =~= pre.take(i));
            } else {
                assert(amounts.take(i) =~= amounts);
                assert(amounts.drop_last() =~= pre.take(n - 1));
                let s_pre = seq_sum(pre.take(n - 1));
                let prev = used_after_charges(limit, u0, pre.take(n - 1));
                assert(seq_sum(amounts) == seq_sum(amounts.drop_last()) + a);
                assert(forall|j: int| 0 <= j < pre.len() ==> 0 <= #[trigger] pre[j]);
                lemma_seq_sum_nonneg(pre);
                assert(pre.take(n - 1) =~= pre);
                assert(used_after_charges(limit, u0, amounts) == used_after_charge(
                    limit,
                    prev,
                    a,
                ));
            }
        }
        assert forall|i: int| 0 <= i < n implies (charge_fits(
            limit,
            used_after_charges(limit, u0, amounts.take(i)),
            amounts[i],
        ) <==> u0 + seq_sum(amounts.take(i + 1)) <= limit) by {
            if i < n - 1 {
                assert(amounts.take(i) =~= pre.take(i));
                assert(amounts.take(i + 1) =~= pre.take(i + 1));
            } else {
                assert(amounts.take(i) =~= pre.take(i));
                assert(amounts.take(i) =~= pre);
                assert(amounts.take(i + 1) =~= amounts);
                let s_pre = seq_sum(pre);
                lemma_seq_sum_nonneg(pre);
                assert(seq_sum(amounts) == s_pre + a);
                let prev = used_after_charges(limit, u0, amounts.take(i));
                assert(pre.take(i) =~= pre);
            }
        }
    }
}

/// Absorbing a child that used `t` into a parent with enough remaining
/// budget charges the parent for exactly `t`: the charge fits and the
/// parent's usage increases by exactly `t`.
pub proof fn lemma_absorb_exact(limit: int, used: int, t: int)
    requires
        0 <= t,
        0 <= used,
        used + t <= limit <= i64::MAX as int,
    ensures
        charge_fits(limit, used, t),
        used_after_charge(limit, used, t) == used + t,
{
}

/// Draining hands back the whole trace and leaves an empty one, so a second
/// drain in succession hands back nothing.
pub proof fn lemma_drain_twice(trace: Seq<GasCharge>)
    ensures
        drain_returns(trace) == trace,
        drain_returns(drain_leaves(trace)) == Seq::<GasCharge>::empty(),
        drain_leaves(drain_leaves(trace)) == Seq::<GasCharge>::empty(),
{
}

/// The per-call-frame gas accounting authority: a fixed limit, the usage
/// accumulated so far, and an optional trace of every charge attempted.
pub struct GasTracker {
    gas_limit: Gas,
    gas_used: Gas,
    trace: Option<Vec<GasCharge>>,
}

impl GasTracker {
    pub closed spec fn spec_limit(&self) -> int {
        self.gas_limit@
    }

    pub closed spec fn spec_used(&self) -> int {
        self.gas_used@
    }

    pub closed spec fn spec_tracing(&self) -> bool {
        self.trace is Some
    }

    /// The recorded charges, oldest first; empty whenever tracing is off.
    pub closed spec fn spec_trace(&self) -> Seq<GasCharge> {
        match self.trace {
            Some(v) => v@,
            None => Seq::<GasCharge>::empty(),
        }
    }

    /// Creates a tracker with the given limit and an initial usage (which
    /// supports resuming accounting); a trace buffer is allocated only when
    /// tracing is requested.
    pub fn new(gas_limit: Gas, gas_used: Gas, enable_tracing: bool) -> (r: GasTracker)
        ensures
            r.spec_limit() == gas_limit@,
            r.spec_used() == gas_used@,
            r.spec_tracing() == enable_tracing,
            r.spec_trace() == Seq::<GasCharge>::empty(),
    {
        GasTracker {
            gas_limit,
            gas_used,
            trace: if enable_tracing {
                Some(Vec::new())
            } else {
                None
            },
        }
    }

    fn charge_gas_inner(&mut self, to_use: Gas) -> (r: Result<(), OutOfGas>)
        ensures
            final(self).spec_limit() == old(self).spec_limit(),
            final(self).spec_tracing() == old(self).spec_tracing(),
            final(self).spec_trace() == old(self).spec_trace(),
            final(self).spec_used() == used_after_charge(
                old(self).spec_limit(),
                old(self).spec_used(),
                to_use@,
            ),
            (r is Ok) == charge_fits(old(self).spec_limit(), old(self).spec_used(), to_use@),
    {
        let gas_used = self.gas_used.add(to_use);
        if gas_used.as_milligas() > self.gas_limit.as_milligas() {
            self.gas_used = self.gas_limit;
            Err(OutOfGas)
        } else {
            self.gas_used = gas_used;
            Ok(())
        }
    }

    /// Pushes a record onto the trace when tracing is on, returning the index
    /// it was stored at.
    fn push_record(&mut self, charge: GasCharge) -> (r: Option<usize>)
        ensures
            final(self).spec_limit() == old(self).spec_limit(),
            final(self).spec_used() == old(self).spec_used(),
            final(self).spec_tracing() == old(self).spec_tracing(),
            old(self).spec_tracing() ==> final(self).spec_trace() == old(self).spec_trace().push(
                charge,
            ) && (r matches Some(i) && i as int == old(self).spec_trace().len() as int),
            !old(self).spec_tracing() ==> final(self).spec_trace() == old(self).spec_trace() && r
                is None,
    {
        match self.trace.take() {
            Some(mut tr) => {
                let idx = tr.len();
                tr.push(charge);
                self.trace = Some(tr);
                Some(idx)
            },
            None => None,
        }
    }

    /// Consumes gas, recording the attempt in the trace whether or not it
    /// fits. Returns an out-of-gas error if the charge would exceed the
    /// limit, leaving usage clamped to exactly the limit; on success returns
    /// a scoped timer bound to the new trace entry (a no-op timer when
    /// tracing is disabled).
    pub fn charge_gas(&mut self, name: &str, to_use: Gas) -> (r: Result<GasTimer, OutOfGas>)
        ensures
            final(self).spec_limit() == old(self).spec_limit(),
            final(self).spec_tracing() == old(self).spec_tracing(),
            final(self).spec_used() == used_after_charge(
                old(self).spec_limit(),
                old(self).spec_used(),
                to_use@,
            ),
            (r is Ok) == charge_fits(old(self).spec_limit(), old(self).spec_used(), to_use@),
            old(self).spec_tracing() ==> {
                let t = final(self).spec_trace();
                &&& t.len() == old(self).spec_trace().len() + 1
                &&& t.subrange(0, old(self).spec_trace().len() as int) == old(self).spec_trace()
                &&& t.last().name@ == name@
                &&& t.last().compute_gas@ == to_use@
                &&& t.last().other_gas@ == 0
                &&& t.last().elapsed is None
            },
            !old(self).spec_tracing() ==> final(self).spec_trace() == old(self).spec_trace(),
            r matches Ok(timer) ==> timer.spec_idx() == (if old(self).spec_tracing() {
                Some(old(self).spec_trace().len() as int)
            } else {
                None::<int>
            }),
    {
        let res = self.charge_gas_inner(to_use);
        let charge = GasCharge::new(name, to_use, Gas::zero());
        let slot = self.push_record(charge);
        proof {
            if old(self).spec_tracing() {
                assert(self.spec_trace().subrange(0, old(self).spec_trace().len() as int)
                    =~= old(self).spec_trace());
            }
        }
        match res {
            Ok(_) => Ok(
                match slot {
                    Some(idx) => GasTimer::for_entry(idx),
                    None => GasTimer::empty(),
                },
            ),
            Err(e) => Err(e),
        }
    }

    /// Applies a caller-assembled charge record, whose total is its compute
    /// cost plus its auxiliary cost; otherwise identical to `charge_gas`.
    pub fn apply_charge(&mut self, charge: GasCharge) -> (r: Result<GasTimer, OutOfGas>)
        ensures
            final(self).spec_limit() == old(self).spec_limit(),
            final(self).spec_tracing() == old(self).spec_tracing(),
            final(self).spec_used() == used_after_charge(
                old(self).spec_limit(),
                old(self).spec_used(),
                charge.spec_total(),
            ),
            (r is Ok) == charge_fits(
                old(self).spec_limit(),
                old(self).spec_used(),
                charge.spec_total(),
            ),
            old(self).spec_tracing() ==> final(self).spec_trace() == old(self).spec_trace().push(
                charge,
            ),
            !old(self).spec_tracing() ==> final(self).spec_trace() == old(self).spec_trace(),
            r matches Ok(timer) ==> timer.spec_idx() == (if old(self).spec_tracing() {
                Some(old(self).spec_trace().len() as int)
            } else {
                None::<int>
            }),
    {
        let to_use = charge.total();
        let res = self.charge_gas_inner(to_use);
        let slot = self.push_record(charge);
        match res {
            Ok(_) => Ok(
                match slot {
                    Some(idx) => GasTimer::for_entry(idx),
                    None => GasTimer::empty(),
                },
            ),
            Err(e) => Err(e),
        }
    }

    /// Absorbs a nested tracker into this one: charges this tracker for the
    /// child's whole usage (which can itself run out of gas) and, when this
    /// tracker traces, appends the child's charge records, in their original
    /// order, after this tracker's own.
    pub fn absorb(&mut self, other: GasTracker) -> (r: Result<(), OutOfGas>)
        ensures
            final(self).spec_limit() == old(self).spec_limit(),
            final(self).spec_tracing() == old(self).spec_tracing(),
            final(self).spec_used() == used_after_charge(
                old(self).spec_limit(),
                old(self).spec_used(),
                other.spec_used(),
            ),
            (r is Ok) == charge_fits(
                old(self).spec_limit(),
                old(self).spec_used(),
                other.spec_used(),
            ),
            old(self).spec_tracing() ==> final(self).spec_trace() == old(self).spec_trace()
                + other.spec_trace(),
            !old(self).spec_tracing() ==> final(self).spec_trace() == old(self).spec_trace(),
    {
        let mut child = other;
        let child_used = child.gas_used();
        let mut drained = child.drain_trace();
        match self.trace.take() {
            Some(mut tr) => {
                tr.append(&mut drained);
                self.trace = Some(tr);
            },
            None => {},
        }
        self.charge_gas_inner(child_used)
    }

    /// Makes a child tracker with a new limit, if and only if the new limit
    /// is strictly less than the gas still available here. The child starts
    /// at zero usage and inherits this tracker's tracing flag.
    pub fn new_child(&self, new_limit: Gas) -> (r: Option<GasTracker>)
        ensures
            (r is Some) == (new_limit@ < sat_i64(self.spec_limit() - self.spec_used())),
            r matches Some(child) ==> {
                &&& child.spec_limit() == new_limit@
                &&& child.spec_used() == 0
                &&& child.spec_tracing() == self.spec_tracing()
                &&& child.spec_trace() == Seq::<GasCharge>::empty()
            },
    {
        let available = self.gas_available();
        if new_limit.as_milligas() < available.as_milligas() {
            Some(GasTracker::new(new_limit, Gas::zero(), self.trace.is_some()))
        } else {
            None
        }
    }

    /// Getter for the maximum gas usable by this frame.
    pub fn gas_limit(&self) -> (r: Gas)
        ensures
            r@ == self.spec_limit(),
    {
        self.gas_limit
    }

    /// Getter for gas used.
    pub fn gas_used(&self) -> (r: Gas)
        ensures
            r@ == self.spec_used(),
    {
        self.gas_used
    }

    /// Getter for gas available: the limit minus the usage, saturating.
    pub fn gas_available(&self) -> (r: Gas)
        ensures
            r@ == sat_i64(self.spec_limit() - self.spec_used()),
    {
        self.gas_limit.sub(self.gas_used)
    }

    /// Returns the accumulated trace, oldest charge first, and clears the
    /// buffer; an empty vector when nothing is pending or tracing is off.
    pub fn drain_trace(&mut self) -> (r: Vec<GasCharge>)
        ensures
            final(self).spec_limit() == old(self).spec_limit(),
            final(self).spec_used() == old(self).spec_used(),
            final(self).spec_tracing() == old(self).spec_tracing(),
            r@ == drain_returns(old(self).spec_trace()),
            final(self).spec_trace() == drain_leaves(old(self).spec_trace()),
    {
        match self.trace.take() {
            Some(v) => {
                self.trace = Some(Vec::new());
                v
            },
            None => Vec::new(),
        }
    }

    /// Stops a scoped timer: fills in the elapsed field of the trace entry
    /// the timer was bound to, if that entry still exists and has not been
    /// filled yet; a no-op timer, or a stale one, changes nothing.
    pub fn stop_timer(&mut self, timer: GasTimer)
        ensures
            final(self).spec_limit() == old(self).spec_limit(),
            final(self).spec_used() == old(self).spec_used(),
            final(self).spec_tracing() == old(self).spec_tracing(),
            match timer.spec_idx() {
                Some(i) => {
                    if 0 <= i < old(self).spec_trace().len() && old(self).spec_trace()[i].elapsed
                        is None {
                        let t = final(self).spec_trace();
                        &&& t.len() == old(self).spec_trace().len()
                        &&& (forall|j: int|
                            0 <= j < t.len() && j != i ==> t[j] == old(self).spec_trace()[j])
                        &&& t[i].name == old(self).spec_trace()[i].name
                        &&& t[i].compute_gas == old(self).spec_trace()[i].compute_gas
                        &&& t[i].other_gas == old(self).spec_trace()[i].other_gas
                        &&& t[i].elapsed is Some
                    } else {
                        final(self).spec_trace() == old(self).spec_trace()
                    }
                },
                None => final(self).spec_trace() == old(self).spec_trace(),
            },
    {
        match timer.take_target() {
            None => {},
            Some((idx, start)) => {
                let elapsed = instant_elapsed(&start);
                match self.trace.take() {
                    Some(mut tr) => {
                        if idx < tr.len() {
                            if tr[idx].elapsed.is_none() {
                                let mut entry = tr.remove(idx);
                                entry.elapsed = Some(elapsed);
                                let ghost e = entry;
                                let ghost mid = tr@;
                                tr.insert(idx, entry);
                                proof {
                                    let i = idx as int;
                                    let old_tr = old(self).spec_trace();
                                    old_tr.remove_ensures(i);
                                    mid.insert_ensures(i, e);
                                    assert(tr@[i] == e);
                                    assert forall|j: int|
                                        0 <= j < tr@.len() && j != i implies tr@[j] == old_tr[j] by {
                                        if j < i {
                                            assert(mid.insert(i, e)[j] == mid[j]);
                                            assert(old_tr.remove(i)[j] == old_tr[j]);
                                        } else {
                                            assert(mid.insert(i, e)[(j - 1) + 1] == mid[j - 1]);
                                            assert(old_tr.remove(i)[j - 1] == old_tr[(j - 1) + 1]);
                                        }
                                    }
                                }
                            }
                        }
                        self.trace = Some(tr);
                    },
                    None => {},
                }
            },
        }
    }
}

} // verus!
