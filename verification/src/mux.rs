//! The verified core of the edge multiplexer.
//!
//! A multiplexer aggregates several sampled-capable pin handles into one
//! readiness-wait primitive. Each registered handle occupies one small
//! integer slot; the slot number doubles as the opaque correlation token
//! handed to the kernel event context, so a readiness notification can be
//! mapped back to the originating handle by a bounds-checked lookup. The
//! kernel wait itself is performed by an unverified shell, which feeds
//! the observed event count and token back into [`EdgeMultiplexer::resolve_wait`].

use vstd::prelude::*;

use crate::GpioError;
use crate::GpioResult;

verus! {

/// The abstract state of a multiplexer: the registered handles in slot
/// order, and the configured wait bound.
pub ghost struct MuxModel<H> {
    /// The registered handles; the handle in slot `i` was registered by
    /// the `i`-th registration.
    pub slots: Seq<H>,
    /// `None` waits without bound; `Some(t)` bounds each wait to `t`
    /// milliseconds.
    pub timeout_ms: Option<u64>,
}

/// What a wait outcome means, given the number of registered slots, the
/// observed event count and the correlation token the kernel echoed back:
/// zero events is a timeout, more than one event is a protocol violation,
/// exactly one event resolves through the slot table, with an out-of-range
/// token reported as a typed error rather than an out-of-bounds access.
pub open spec fn spec_wait_outcome(num_slots: nat, event_count: usize, token: u64) -> GpioResult<
    u64,
> {
    if event_count == 0 {
        Err(GpioError::Timeout)
    } else if event_count != 1 {
        Err(GpioError::UnexpectedEventCount(event_count))
    } else if token < num_slots {
        Ok(token)
    } else {
        Err(GpioError::UnexpectedCorrelationToken(token))
    }
}

/// A registry of handles watched for edges, indexed by correlation token.
pub struct EdgeMultiplexer<H> {
    slots: Vec<H>,
    timeout_ms: Option<u64>,
}

impl<H> View for EdgeMultiplexer<H> {
    type V = MuxModel<H>;

    closed spec fn view(&self) -> MuxModel<H> {
        MuxModel { slots: self.slots@, timeout_ms: self.timeout_ms }
    }
}

impl<H> EdgeMultiplexer<H> {
    /// A fresh multiplexer: nothing registered, waits unbounded.
    pub fn new() -> (r: EdgeMultiplexer<H>)
        ensures
            r@.slots == Seq::<H>::empty(),
            r@.timeout_ms is None,
    {
        EdgeMultiplexer { slots: Vec::new(), timeout_ms: None }
    }

    /// Bound every subsequent wait to `timeout_ms` milliseconds. Pure
    /// configuration: the registry is untouched.
    pub fn timeout_ms(&mut self, timeout_ms: u64)
        ensures
            final(self)@.slots == old(self)@.slots,
            final(self)@.timeout_ms == Some(timeout_ms),
    {
        self.timeout_ms = Some(timeout_ms);
    }

    /// The configured wait bound, if any.
    pub fn wait_timeout_ms(&self) -> (r: Option<u64>)
        ensures
            r == self@.timeout_ms,
    {
        self.timeout_ms
    }

    /// The number of registered handles.
    pub fn len(&self) -> (r: usize)
        ensures
            r == self@.slots.len(),
    {
        self.slots.len()
    }

    /// The slot the next registration will occupy: the correlation token
    /// to hand to the kernel when registering the next handle.
    pub fn next_slot(&self) -> (r: u64)
        ensures
            r == self@.slots.len(),
    {
        self.slots.len() as u64
    }

    /// Register a handle: it takes the next sequential slot, which is
    /// returned and stays stable for the lifetime of the registration.
    pub fn register(&mut self, handle: H) -> (slot: u64)
        ensures
            slot == old(self)@.slots.len(),
            final(self)@.slots == old(self)@.slots.push(handle),
            final(self)@.timeout_ms == old(self)@.timeout_ms,
    {
        let slot: u64 = self.slots.len() as u64;
        self.slots.push(handle);
        slot
    }

    /// Map one observed wakeup back to the registered handle it concerns.
    /// `event_count` is how many events the kernel reported, `token` the
    /// correlation data of the reported event.
    pub fn resolve_wait(&self, event_count: usize, token: u64) -> (r: GpioResult<&H>)
        ensures
            match spec_wait_outcome(self@.slots.len(), event_count, token) {
                Ok(slot) => r matches Ok(h) && *h == self@.slots[slot as int],
                Err(e) => r matches Err(e2) && e2 == e,
            },
    {
        if event_count == 0 {
            Err(GpioError::Timeout)
        } else if event_count != 1 {
            Err(GpioError::UnexpectedEventCount(event_count))
        } else if token < self.slots.len() as u64 {
            Ok(&self.slots[token as usize])
        } else {
            Err(GpioError::UnexpectedCorrelationToken(token))
        }
    }
}

/// A single readiness event carrying token `t` resolves to exactly the
/// handle in slot `t` — the handle whose registration returned `t` —
/// however many other handles are registered around it and in whatever
/// order the registrations happened.
pub proof fn lemma_token_identifies_slot(num_slots: nat, token: u64)
    requires
        token < num_slots,
    ensures
        spec_wait_outcome(num_slots, 1, token) == Ok::<u64, GpioError>(token),
{
}

/// A wait that observes zero events is a timeout, whatever is registered;
/// the registry is not consumed, so the next wait may still succeed.
pub proof fn lemma_zero_events_time_out(num_slots: nat, token: u64)
    ensures
        spec_wait_outcome(num_slots, 0, token) == Err::<u64, GpioError>(GpioError::Timeout),
{
}

} // verus!
