//! GPIO dummy input/output.
//!
//! The dummy backend stands in for hardware-bound GPIO implementations in
//! unit tests or on hosts without pins. It satisfies the same capability
//! traits as the real backends, driven by user-supplied callbacks: a dummy
//! input samples a callback on every read, a dummy output passes every set
//! value to a callback, and a dummy edge iterator polls registered inputs
//! for transitions matching each pin's edge policy.

use vstd::prelude::*;

use crate::GpioEdge;
use crate::GpioIn;
use crate::GpioOut;
use crate::GpioValue;

verus! {

/// Dummy GPIO input pin: every read samples the callback `value`.
pub struct DummyGpioIn<F: Fn() -> GpioValue> {
    value: F,
    edge: GpioEdge,
}

impl<F: Fn() -> GpioValue> DummyGpioIn<F> {
    #[verifier::type_invariant]
    spec fn wf(self) -> bool {
        call_requires(self.value, ())
    }

    /// The callback the pin was created with.
    pub closed spec fn spec_source(self) -> F {
        self.value
    }

    /// The pin's configured edge policy.
    pub closed spec fn spec_edge(self) -> GpioEdge {
        self.edge
    }

    /// Create a new dummy pin that returns the value of `value` every
    /// time it is read. The edge policy starts out as `NoInterrupt`.
    pub fn new(value: F) -> (r: DummyGpioIn<F>)
        requires
            call_requires(value, ()),
        ensures
            r.spec_source() == value,
            r.spec_edge() == GpioEdge::NoInterrupt,
    {
        DummyGpioIn { value, edge: GpioEdge::NoInterrupt }
    }

    /// Sample the callback once.
    fn sample(&self) -> (r: GpioValue)
        ensures
            call_ensures(self.spec_source(), (), r),
    {
        proof {
            use_type_invariant(self);
        }
        (self.value)()
    }
}

impl<F: Fn() -> GpioValue> GpioIn for DummyGpioIn<F> {
    type Error = ();

    fn read_value(&self) -> (r: Result<GpioValue, ()>)
        ensures
            r matches Ok(v) && call_ensures(self.spec_source(), (), v),
    {
        Ok(self.sample())
    }

    fn set_edge(&mut self, edge: GpioEdge) -> (r: Result<(), ()>)
        ensures
            r is Ok,
            final(self).spec_edge() == edge,
            final(self).spec_source() == old(self).spec_source(),
    {
        proof {
            use_type_invariant(&*self);
        }
        self.edge = edge;
        Ok(())
    }
}

/// Whether a pin whose value just changed to `new_val` is reported under
/// the edge policy `edge`: `Both` reports every change, `Rising` only
/// changes that end `High`, `Falling` only changes that end `Low`, and
/// `NoInterrupt` reports nothing.
pub open spec fn spec_edge_reports(edge: GpioEdge, new_val: GpioValue) -> bool {
    match (edge, new_val) {
        (GpioEdge::Both, _) => true,
        (GpioEdge::Rising, GpioValue::High) => true,
        (GpioEdge::Falling, GpioValue::Low) => true,
        _ => false,
    }
}

/// Whether a change to `new_val` is reported under `edge`.
pub fn edge_reports(edge: GpioEdge, new_val: GpioValue) -> (r: bool)
    ensures
        r == spec_edge_reports(edge, new_val),
{
    match (edge, new_val) {
        (GpioEdge::Both, _) => true,
        (GpioEdge::Rising, GpioValue::High) => true,
        (GpioEdge::Falling, GpioValue::Low) => true,
        _ => false,
    }
}

/// The four edge policies, characterized: `Rising` reports exactly the
/// changes that end `High`, `Falling` exactly those that end `Low`,
/// `Both` reports every change, and `NoInterrupt` reports no change,
/// ever.
pub proof fn lemma_edge_policy_characterization(new_val: GpioValue)
    ensures
        spec_edge_reports(GpioEdge::Rising, new_val) <==> new_val is High,
        spec_edge_reports(GpioEdge::Falling, new_val) <==> new_val is Low,
        spec_edge_reports(GpioEdge::Both, new_val),
        !spec_edge_reports(GpioEdge::NoInterrupt, new_val),
{
}

/// One pin's poll outcome when nothing was reported for it: its stored
/// value is a fresh sample of its callback that either equals the value
/// already stored (no transition) or is a change its edge policy does
/// not report.
pub open spec fn spec_quiet_poll<F: Fn() -> GpioValue>(
    dev: &DummyGpioIn<F>,
    old_stored: GpioValue,
    new_stored: GpioValue,
) -> bool {
    exists|v: GpioValue|
        #![trigger call_ensures(dev.spec_source(), (), v)]
        call_ensures(dev.spec_source(), (), v) && new_stored == v && (v == old_stored
            || !spec_edge_reports(dev.spec_edge(), v))
}

/// Polls a set of dummy input pins for edges.
///
/// Each registered pin is remembered together with the value it last
/// showed. A pull samples every pin in registration order and yields the
/// first pin whose value changed in a way its edge policy reports;
/// with a timeout configured, a pull that sees no such change within the
/// bound yields an error instead, and the iterator remains usable.
pub struct DummyEdgeIter<'a, F: Fn() -> GpioValue> {
    timeout_ms: Option<u64>,
    devs: Vec<(&'a DummyGpioIn<F>, GpioValue)>,
}

impl<'a, F: Fn() -> GpioValue> DummyEdgeIter<'a, F> {
    /// The configured wait bound, if any.
    pub closed spec fn spec_timeout(self) -> Option<u64> {
        self.timeout_ms
    }

    /// The registered pins, each with the value it last showed.
    pub closed spec fn spec_devs(self) -> Seq<(&'a DummyGpioIn<F>, GpioValue)> {
        self.devs@
    }

    /// A fresh iterator: nothing registered, waits unbounded.
    pub fn new() -> (r: Result<DummyEdgeIter<'a, F>, ()>)
        ensures
            r matches Ok(it) && it.spec_devs() == Seq::<(&'a DummyGpioIn<F>, GpioValue)>::empty()
                && it.spec_timeout() is None,
    {
        Ok(DummyEdgeIter { timeout_ms: None, devs: Vec::new() })
    }

    /// Bound every subsequent pull to `timeout_ms` milliseconds. Pure
    /// configuration: the registered pins are untouched.
    pub fn timeout_ms(&mut self, timeout_ms: u64)
        ensures
            final(self).spec_devs() == old(self).spec_devs(),
            final(self).spec_timeout() == Some(timeout_ms),
    {
        self.timeout_ms = Some(timeout_ms);
    }

    /// Register a pin: its current value is sampled once and remembered
    /// as the baseline against which later samples are compared.
    pub fn add(&mut self, dev: &'a DummyGpioIn<F>) -> (r: Result<(), ()>)
        ensures
            r is Ok,
            final(self).spec_timeout() == old(self).spec_timeout(),
            exists|v: GpioValue|
                call_ensures(dev.spec_source(), (), v) && final(self).spec_devs() == old(self).spec_devs().push((dev, v)),
    {
        let val = dev.sample();
        self.devs.push((dev, val));
        proof {
            assert(call_ensures(dev.spec_source(), (), val) && self.spec_devs() == old(
                self,
            ).spec_devs().push((dev, val)));
        }
        Ok(())
    }

    /// Sample every registered pin once, in registration order. The first
    /// pin whose value changed in a way its policy reports is yielded and
    /// its stored value updated; pins after it are left untouched until
    /// the next pass. With no reported change, every stored value has
    /// been refreshed and nothing is yielded.
    fn poll_pass(&mut self) -> (r: Option<&'a DummyGpioIn<F>>)
        ensures
            final(self).spec_timeout() == old(self).spec_timeout(),
            final(self).spec_devs().len() == old(self).spec_devs().len(),
            forall|j: int|
                0 <= j < old(self).spec_devs().len() ==> (#[trigger] final(self).spec_devs()[j]).0
                    == old(self).spec_devs()[j].0,
            r matches Some(d) ==> exists|i: int|
                0 <= i < final(self).spec_devs().len() && d == (#[trigger] final(self).spec_devs()[i]).0 && spec_edge_reports(d.spec_edge(), final(self).spec_devs()[i].1),
            // nothing reported: every pin was sampled once and stayed quiet
            r is None ==> forall|j: int|
                0 <= j < old(self).spec_devs().len() ==> spec_quiet_poll(
                    (#[trigger] old(self).spec_devs()[j]).0,
                    old(self).spec_devs()[j].1,
                    final(self).spec_devs()[j].1,
                ),
            // a pin is yielded: it is the first whose sample was a change
            // its policy reports; pins before it stayed quiet, pins after
            // it were not sampled this pass
            r matches Some(d) ==> exists|i: int|
                0 <= i < old(self).spec_devs().len() && d == (#[trigger] old(
                    self,
                ).spec_devs()[i]).0 && call_ensures(d.spec_source(), (), final(self).spec_devs()[i].1)
                    && final(self).spec_devs()[i].1 != old(self).spec_devs()[i].1
                    && spec_edge_reports(d.spec_edge(), final(self).spec_devs()[i].1) && (forall|
                    j: int,
                |
                    0 <= j < i ==> spec_quiet_poll(
                        (#[trigger] old(self).spec_devs()[j]).0,
                        old(self).spec_devs()[j].1,
                        final(self).spec_devs()[j].1,
                    )) && (forall|j: int|
                    i < j < old(self).spec_devs().len() ==> #[trigger] final(self).spec_devs()[j]
                        == old(self).spec_devs()[j]),
    {
        let num_devs = self.devs.len();
        let mut i: usize = 0;
        while i < num_devs
            invariant
                num_devs == self.devs@.len(),
                i <= num_devs,
                self.timeout_ms == old(self).spec_timeout(),
                self.devs@.len() == old(self).spec_devs().len(),
                forall|j: int|
                    0 <= j < i ==> spec_quiet_poll(
                        (#[trigger] old(self).spec_devs()[j]).0,
                        old(self).spec_devs()[j].1,
                        self.devs@[j].1,
                    ),
                forall|j: int|
                    i <= j < old(self).spec_devs().len() ==> #[trigger] self.devs@[j] == old(
                        self,
                    ).spec_devs()[j],
                forall|j: int|
                    0 <= j < old(self).spec_devs().len() ==> (#[trigger] self.devs@[j]).0 == old(self).spec_devs()[j].0,
            decreases num_devs - i,
        {
            let pair: (&'a DummyGpioIn<F>, GpioValue) = self.devs[i];
            let new_val = pair.0.sample();
            if new_val != pair.1 {
                self.devs[i] = (pair.0, new_val);
                if edge_reports(pair.0.edge, new_val) {
                    proof {
                        assert((i as int) < self.spec_devs().len() && pair.0 == (
                        self.spec_devs()[i as int]).0 && spec_edge_reports(
                            pair.0.spec_edge(),
                            self.spec_devs()[i as int].1,
                        ));
                        assert(call_ensures(pair.0.spec_source(), (), new_val));
                        assert(self.spec_devs()[i as int].1 != old(self).spec_devs()[i as int].1);
                    }
                    return Some(pair.0);
                }
                proof {
                    // the change is one the pin's policy does not report
                    assert(call_ensures((old(self).spec_devs()[i as int].0).spec_source(), (),
                    new_val) && self.devs@[i as int].1 == new_val && !spec_edge_reports(
                        (old(self).spec_devs()[i as int].0).spec_edge(),
                        new_val,
                    ));
                    assert(spec_quiet_poll(
                        old(self).spec_devs()[i as int].0,
                        old(self).spec_devs()[i as int].1,
                        self.devs@[i as int].1,
                    ));
                }
            } else {
                proof {
                    // no change: the stored value is the fresh sample
                    assert(call_ensures((old(self).spec_devs()[i as int].0).spec_source(), (),
                    new_val) && self.devs@[i as int].1 == new_val && new_val == old(
                        self,
                    ).spec_devs()[i as int].1);
                    assert(spec_quiet_poll(
                        old(self).spec_devs()[i as int].0,
                        old(self).spec_devs()[i as int].1,
                        self.devs@[i as int].1,
                    ));
                }
            }
            i = i + 1;
        }
        None
    }

    /// Pull the next edge event: pins are polled until one reports a
    /// change, which yields that pin. With a timeout configured, a pull
    /// that sees no reported change within the bound yields `Some(Err(()))`
    /// instead — the iterator is not exhausted, the next pull may succeed.
    /// The sequence never ends on its own: the result is always `Some`.
    pub fn next(&mut self) -> (r: Option<Result<&'a DummyGpioIn<F>, ()>>)
        ensures
            r is Some,
            final(self).spec_timeout() == old(self).spec_timeout(),
            final(self).spec_devs().len() == old(self).spec_devs().len(),
            forall|j: int|
                0 <= j < old(self).spec_devs().len() ==> (#[trigger] final(self).spec_devs()[j]).0
                    == old(self).spec_devs()[j].0,
            r matches Some(Ok(d)) ==> exists|i: int|
                0 <= i < final(self).spec_devs().len() && d == (#[trigger] final(self).spec_devs()[i]).0 && spec_edge_reports(d.spec_edge(), final(self).spec_devs()[i].1),
    {
        let start = monotonic_now();
        let mut spins: u64 = 0;
        while spins < u64::MAX
            invariant
                self.timeout_ms == old(self).spec_timeout(),
                self.devs@.len() == old(self).spec_devs().len(),
                forall|j: int|
                    0 <= j < old(self).spec_devs().len() ==> (#[trigger] self.devs@[j]).0 == old(self).spec_devs()[j].0,
            decreases u64::MAX - spins,
        {
            match self.timeout_ms {
                Some(bound) => {
                    let elapsed = duration_millis(&elapsed_since(&start));
                    if elapsed > bound {
                        return Some(Err(()));
                    }
                },
                None => (),
            }
            match self.poll_pass() {
                Some(dev) => {
                    return Some(Ok(dev));
                },
                None => (),
            }
            spins = spins + 1;
        }
        Some(Err(()))
    }
}

#[verifier::external_type_specification]
#[verifier::external_body]
pub struct ExInstant(std::time::Instant);

/// Relies on `std::time::Instant::now`: a point on the monotonic clock.
/// Nothing is promised of it — when a wait times out is time-dependent.
#[verifier::external_body]
fn monotonic_now() -> std::time::Instant {
    std::time::Instant::now()
}

/// Relies on `std::time::Instant::elapsed`: the time since `start`.
/// Nothing is promised of it — how fast the clock advances is not the
/// library's to state.
#[verifier::external_body]
fn elapsed_since(start: &std::time::Instant) -> std::time::Duration {
    start.elapsed()
}

/// Relies on `std::time::Duration::as_millis`, truncated to 64 bits.
#[verifier::external_body]
fn duration_millis(d: &std::time::Duration) -> u64 {
    d.as_millis() as u64
}

/// Dummy GPIO output pin: every set value is passed to `dest`.
#[derive(Debug)]
pub struct DummyGpioOut<F: Fn(GpioValue)> {
    dest: F,
}

impl<F: Fn(GpioValue)> DummyGpioOut<F> {
    #[verifier::type_invariant]
    spec fn wf(self) -> bool {
        forall|v: GpioValue| call_requires(self.dest, (v,))
    }

    /// The callback the pin was created with.
    pub closed spec fn spec_dest(self) -> F {
        self.dest
    }

    /// Creates a new dummy pin that passes all set values to `dest`.
    pub fn new(dest: F) -> (r: DummyGpioOut<F>)
        requires
            forall|v: GpioValue| call_requires(dest, (v,)),
        ensures
            r.spec_dest() == dest,
    {
        DummyGpioOut { dest }
    }
}

impl<F: Fn(GpioValue)> GpioOut for DummyGpioOut<F> {
    type Error = ();

    fn set_low(&mut self) -> (r: Result<(), ()>)
        ensures
            r is Ok,
            final(self).spec_dest() == old(self).spec_dest(),
            exists|out: ()| call_ensures(final(self).spec_dest(), (GpioValue::Low,), out),
    {
        proof {
            use_type_invariant(&*self);
        }
        let out = (self.dest)(GpioValue::Low);
        proof {
            assert(call_ensures(self.spec_dest(), (GpioValue::Low,), out));
        }
        Ok(())
    }

    fn set_high(&mut self) -> (r: Result<(), ()>)
        ensures
            r is Ok,
            final(self).spec_dest() == old(self).spec_dest(),
            exists|out: ()| call_ensures(final(self).spec_dest(), (GpioValue::High,), out),
    {
        proof {
            use_type_invariant(&*self);
        }
        let out = (self.dest)(GpioValue::High);
        proof {
            assert(call_ensures(self.spec_dest(), (GpioValue::High,), out));
        }
        Ok(())
    }
}

} // verus!
