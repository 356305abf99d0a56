//! The frame gate: a counting semaphore, kept as plain state.
//!
//! The type decides; it never sleeps. A caller that is told to block parks
//! its thread by whatever means the platform offers and asks again once a
//! `signal` has reported that it woke a waiter.
use vstd::prelude::*;

verus! {

/// A point in time, or one of the two constants below.
pub type dispatch_time_t = u64;

/// Do not wait at all.
pub const DISPATCH_TIME_NOW: dispatch_time_t = 0;

/// Wait until the semaphore is signalled, however long that takes.
pub const DISPATCH_TIME_FOREVER: dispatch_time_t = 0xffff_ffff_ffff_ffff;

/// What a semaphore is, mathematically: the number of permits it was made
/// with, the permits that are free, and the callers that were told to block
/// and have not been woken yet.
pub struct GateState {
    pub limit: nat,
    pub count: nat,
    pub waiting: nat,
}

/// One call on a semaphore: a `wait` with its timeout, or a `signal`.
pub enum GateCall {
    Wait(dispatch_time_t),
    Signal,
}

/// What `signal` did.
#[derive(Copy, Clone, Debug, PartialEq, Eq, Structural)]
pub enum SignalOutcome {
    /// A permit went back and nobody was waiting for it.
    Released,
    /// A permit went back and exactly one blocked caller was woken.
    WokeWaiter,
    /// Every permit was free already: nothing was checked out, so there was
    /// nothing to give back. The semaphore is unchanged.
    NothingCheckedOut,
}

impl GateState {
    /// A fresh semaphore with `limit` free permits.
    pub open spec fn initial(limit: nat) -> GateState {
        GateState { limit, count: limit, waiting: 0 }
    }

    /// No more permits are free than the semaphore was made with.
    pub open spec fn bounded(self) -> bool {
        self.count <= self.limit
    }

    /// The permits that are checked out.
    pub open spec fn checked_out(self) -> int {
        self.limit - self.count
    }

    /// Whether a `wait` now gets a permit.
    pub open spec fn grants(self) -> bool {
        self.count > 0
    }

    /// The semaphore after a `wait`: one permit fewer where one was free.
    /// Where none was, a caller that does not wait at all leaves no trace,
    /// and any other caller is counted as blocked.
    pub open spec fn after_wait(self, timeout: dispatch_time_t) -> GateState {
        if self.count > 0 {
            GateState { count: (self.count - 1) as nat, ..self }
        } else if timeout == DISPATCH_TIME_NOW {
            self
        } else {
            GateState { waiting: self.waiting + 1, ..self }
        }
    }

    /// The semaphore after a `signal`: unchanged where nothing was checked
    /// out; else one permit more and, where callers were blocked, one of them
    /// fewer.
    pub open spec fn after_signal(self) -> GateState {
        if self.count >= self.limit {
            self
        } else if self.waiting > 0 {
            GateState { count: self.count + 1, waiting: (self.waiting - 1) as nat, ..self }
        } else {
            GateState { count: self.count + 1, ..self }
        }
    }

    /// What a `signal` reports in this state.
    pub open spec fn signal_outcome(self) -> SignalOutcome {
        if self.count >= self.limit {
            SignalOutcome::NothingCheckedOut
        } else if self.waiting > 0 {
            SignalOutcome::WokeWaiter
        } else {
            SignalOutcome::Released
        }
    }

    /// The semaphore after one call.
    pub open spec fn after(self, call: GateCall) -> GateState {
        match call {
            GateCall::Wait(timeout) => self.after_wait(timeout),
            GateCall::Signal => self.after_signal(),
        }
    }

    /// The semaphore after a sequence of calls, first to last.
    pub open spec fn after_all(self, calls: Seq<GateCall>) -> GateState
        decreases calls.len(),
    {
        if calls.len() == 0 {
            self
        } else {
            self.after_all(calls.drop_last()).after(calls.last())
        }
    }
}

/// A counting semaphore that bounds the frames in flight.
#[derive(Debug)]
pub struct DispatchSemaphore {
    limit: u64,
    count: u64,
    waiting: u64,
}

impl DispatchSemaphore {
    /// The semaphore as a mathematical value.
    pub closed spec fn view(&self) -> GateState {
        GateState {
            limit: self.limit as nat,
            count: self.count as nat,
            waiting: self.waiting as nat,
        }
    }

    /// The invariant of the type: the free permits never exceed the number
    /// the semaphore was made with.
    pub open spec fn wf(&self) -> bool {
        &&& self@.bounded()
        &&& self@.limit <= u64::MAX
        &&& self@.count <= u64::MAX
        &&& self@.waiting <= u64::MAX
    }

    /// Makes a semaphore with `value` free permits. A negative value gives
    /// no semaphore.
    pub fn create(value: i64) -> (r: Option<Self>)
        ensures
            r is Some <==> value >= 0,
            r matches Some(s) ==> s.wf() && s@ == GateState::initial(value as nat),
    {
        if value < 0 {
            None
        } else {
            Some(DispatchSemaphore { limit: value as u64, count: value as u64, waiting: 0 })
        }
    }

    /// The number of permits the semaphore was made with.
    pub fn limit(&self) -> (r: u64)
        ensures
            r == self@.limit,
    {
        self.limit
    }

    /// The permits that are free now.
    pub fn count(&self) -> (r: u64)
        ensures
            r == self@.count,
    {
        self.count
    }

    /// The callers that were told to block and have not been woken.
    pub fn waiting(&self) -> (r: u64)
        ensures
            r == self@.waiting,
    {
        self.waiting
    }

    /// The permits that are checked out now.
    pub fn checked_out(&self) -> (r: u64)
        requires
            self.wf(),
        ensures
            r == self@.checked_out(),
            r <= self@.limit,
    {
        self.limit - self.count
    }

    /// Asks for a permit. Returns `true` where one was free, and takes it.
    /// Returns `false` where none was: with `DISPATCH_TIME_NOW` that is the
    /// end of it; with any other timeout the caller is counted as blocked,
    /// must sleep until a `signal` wakes it, and then ask again.
    pub fn wait(&mut self, timeout: dispatch_time_t) -> (acquired: bool)
        requires
            old(self).wf(),
            timeout != DISPATCH_TIME_NOW ==> old(self)@.waiting < u64::MAX,
        ensures
            final(self).wf(),
            acquired == old(self)@.grants(),
            final(self)@ == old(self)@.after_wait(timeout),
    {
        if self.count > 0 {
            self.count = self.count - 1;
            true
        } else {
            if timeout != DISPATCH_TIME_NOW {
                self.waiting = self.waiting + 1;
            }
            false
        }
    }

    /// Gives a permit back and wakes one blocked caller, if there is one.
    /// Where nothing is checked out the semaphore stays as it is.
    pub fn signal(&mut self) -> (outcome: SignalOutcome)
        requires
            old(self).wf(),
        ensures
            final(self).wf(),
            outcome == old(self)@.signal_outcome(),
            final(self)@ == old(self)@.after_signal(),
    {
        if self.count >= self.limit {
            SignalOutcome::NothingCheckedOut
        } else {
            self.count = self.count + 1;
            if self.waiting > 0 {
                self.waiting = self.waiting - 1;
                SignalOutcome::WokeWaiter
            } else {
                SignalOutcome::Released
            }
        }
    }
}

/// One call keeps the free permits between zero and the limit, and leaves
/// the limit as it was.
pub proof fn lemma_call_keeps_bound(s: GateState, call: GateCall)
    requires
        s.bounded(),
    ensures
        s.after(call).bounded(),
        s.after(call).limit == s.limit,
        0 <= s.after(call).checked_out() <= s.limit,
{
}

/// Whatever calls are made, in whatever order, on a semaphore that starts
/// with `limit` free permits: the free permits stay between zero and
/// `limit`, and so do the permits checked out.
pub proof fn lemma_gate_bounded(limit: nat, calls: Seq<GateCall>)
    ensures
        GateState::initial(limit).after_all(calls).limit == limit,
        0 <= GateState::initial(limit).after_all(calls).count <= limit,
        0 <= GateState::initial(limit).after_all(calls).checked_out() <= limit,
    decreases calls.len(),
{
    if calls.len() > 0 {
        lemma_gate_bounded(limit, calls.drop_last());
        lemma_call_keeps_bound(
            GateState::initial(limit).after_all(calls.drop_last()),
            calls.last(),
        );
    }
}

/// A caller is turned away exactly when every permit is checked out: the
/// semaphore holds callers back then, and only then.
pub proof fn lemma_blocks_iff_all_checked_out(s: GateState)
    requires
        s.bounded(),
    ensures
        !s.grants() <==> s.checked_out() == s.limit,
        s.grants() ==> s.after_wait(DISPATCH_TIME_FOREVER).checked_out() == s.checked_out() + 1,
        s.checked_out() > 0 ==> s.after_signal().checked_out() == s.checked_out() - 1,
        s.checked_out() == 0 ==> s.after_signal() == s,
{
}

/// A `wait` that finds no free permit takes none. A caller that is
/// prepared to wait is counted as blocked, the count stays at zero, and the
/// next `signal` wakes exactly one blocked caller and leaves one permit
/// free for it.
pub proof fn lemma_wait_blocks_at_zero(s: GateState, timeout: dispatch_time_t)
    requires
        s.count == 0,
        timeout != DISPATCH_TIME_NOW,
    ensures
        !s.grants(),
        s.after_wait(timeout).count == 0,
        s.after_wait(timeout).waiting == s.waiting + 1,
        s.limit > 0 ==> s.after_wait(timeout).after_signal().count == 1
            && s.after_wait(timeout).after_signal().waiting == s.waiting
            && s.after_wait(timeout).signal_outcome() == SignalOutcome::WokeWaiter,
{
}

} // verus!
