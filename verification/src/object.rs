use crate::error::DeviceError;
use vstd::prelude::*;

verus! {

/// Names an execution context that calls into the device.
pub type ContextId = u64;

/// Room for this many parked contexts is reserved when an object is made.
pub const INITIAL_QUEUE_ROOM: usize = 4;

/// What a context is told when it waits on a completion object.
#[derive(Clone, Copy, Debug, PartialEq, Eq, Structural)]
pub enum WaitOutcome {
    /// The object has been signalled: the context goes on at once.
    Ready,
    /// The context is on the wait queue and has to suspend until a signal.
    Parked,
}

/// The state of a completion object: whether it has been signalled, and the
/// contexts parked on it, oldest first.
#[verifier::ext_equal]
pub struct CompletionState {
    pub done: bool,
    pub waiters: Seq<ContextId>,
}

impl CompletionState {
    /// A newly made object: not signalled, nobody parked.
    pub open spec fn fresh() -> CompletionState {
        CompletionState { done: false, waiters: Seq::empty() }
    }

    /// No context is parked twice, and nobody is parked on a signalled object.
    pub open spec fn valid(self) -> bool {
        &&& self.waiters.no_duplicates()
        &&& self.done ==> self.waiters.len() == 0
    }

    /// What a context is told when it waits in this state.
    pub open spec fn wait_outcome(self) -> WaitOutcome {
        if self.done {
            WaitOutcome::Ready
        } else {
            WaitOutcome::Parked
        }
    }

    /// The state after `ctx` has waited: it joins the queue unless the object
    /// is signalled or it is parked already.
    pub open spec fn after_wait(self, ctx: ContextId) -> CompletionState {
        if self.done || self.waiters.contains(ctx) {
            self
        } else {
            CompletionState { done: false, waiters: self.waiters.push(ctx) }
        }
    }

    /// The state after a signal: signalled for good, and nobody parked.
    pub open spec fn after_signal(self) -> CompletionState {
        CompletionState { done: true, waiters: Seq::empty() }
    }

    /// Waiting keeps a valid state valid and unparks nobody, and on an
    /// object that is not signalled it leaves the caller parked.
    pub proof fn wait_parks(self, ctx: ContextId)
        requires
            self.valid(),
        ensures
            self.after_wait(ctx).valid(),
            self.after_wait(ctx).done == self.done,
            !self.done ==> self.after_wait(ctx).waiters.contains(ctx),
            forall|other: ContextId|
                self.waiters.contains(other) ==> #[trigger] self.after_wait(ctx).waiters.contains(
                    other,
                ),
    {
        if !self.done && !self.waiters.contains(ctx) {
            let grown = self.waiters.push(ctx);
            assert(grown[self.waiters.len() as int] == ctx);
            assert forall|other: ContextId| self.waiters.contains(other) implies grown.contains(
                other,
            ) by {
                let i = choose|i: int| 0 <= i < self.waiters.len() && self.waiters[i] == other;
                assert(grown[i] == other);
            }
            assert forall|i: int, j: int|
                0 <= i < grown.len() && 0 <= j < grown.len() && i != j implies grown[i]
                != grown[j] by {
                if i < self.waiters.len() && j < self.waiters.len() {
                } else if i < self.waiters.len() {
                    assert(self.waiters.contains(grown[i]));
                } else {
                    assert(self.waiters.contains(grown[j]));
                }
            }
        }
    }
}

/// The wait/signal primitive. `wait` and `signal` are all that changes it.
#[derive(Debug)]
pub struct CompletionObject {
    done: bool,
    waiters: Vec<ContextId>,
}

impl View for CompletionObject {
    type V = CompletionState;

    closed spec fn view(&self) -> CompletionState {
        CompletionState { done: self.done, waiters: self.waiters@ }
    }
}

impl CompletionObject {
    /// Holds of every object there is.
    #[verifier::type_invariant]
    pub open spec fn inv(self) -> bool {
        self@.valid()
    }

    /// Makes a new object, with its wait queue allocated.
    ///
    /// Whether the allocation succeeds is the allocator's decision; if it
    /// does not, the error is `AllocationError` and no object exists.
    pub fn try_new() -> (made: Result<CompletionObject, DeviceError>)
        ensures
            match made {
                Ok(object) => object@ == CompletionState::fresh(),
                Err(e) => e == DeviceError::AllocationError,
            },
    {
        let mut queue: Vec<ContextId> = Vec::new();
        let reservation = queue.try_reserve(INITIAL_QUEUE_ROOM);
        CompletionObject::from_reservation(queue, reservation)
    }

    /// Makes the object whose wait queue is `queue`, given what the allocator
    /// answered when room was asked for in that queue.
    ///
    /// A refused reservation is `AllocationError`, and no object exists. A
    /// granted one always gives an object, and a new one: it is not
    /// signalled and nobody is parked on it, whatever `queue` held.
    pub fn from_reservation(
        queue: Vec<ContextId>,
        reservation: Result<(), std::collections::TryReserveError>,
    ) -> (made: Result<CompletionObject, DeviceError>)
        ensures
            match reservation {
                Ok(_) => made matches Ok(object) && object@ == CompletionState::fresh(),
                Err(_) => made matches Err(e) && e == DeviceError::AllocationError,
            },
    {
        match reservation {
            Ok(_) => {
                let mut waiters = queue;
                waiters.clear();
                Ok(CompletionObject { done: false, waiters })
            },
            Err(_) => Err(DeviceError::AllocationError),
        }
    }

    /// Whether the object has been signalled.
    pub fn is_done(&self) -> (done: bool)
        ensures
            done == self@.done,
            self@.valid(),
    {
        proof {
            use_type_invariant(self);
        }
        self.done
    }

    /// How many contexts are parked.
    pub fn parked_count(&self) -> (count: usize)
        ensures
            count == self@.waiters.len(),
            self@.valid(),
    {
        proof {
            use_type_invariant(self);
        }
        self.waiters.len()
    }

    /// Whether `ctx` is parked.
    pub fn is_parked(&self, ctx: ContextId) -> (parked: bool)
        ensures
            parked == self@.waiters.contains(ctx),
            self@.valid(),
    {
        proof {
            use_type_invariant(self);
        }
        let mut i: usize = 0;
        while i < self.waiters.len()
            invariant
                self@.valid(),
                i <= self.waiters.len(),
                forall|k: int| 0 <= k < i ==> self.waiters@[k] != ctx,
            decreases self.waiters.len() - i,
        {
            if self.waiters[i] == ctx {
                return true;
            }
            i += 1;
        }
        false
    }

    /// Registers the interest of `ctx` in the next signal.
    ///
    /// On a signalled object the answer is `Ready` and nothing changes.
    /// Otherwise `ctx` is parked, at the end of the queue unless it is in it
    /// already, and the answer is `Parked`. Test and enqueue are one step, so
    /// no signal can fall between them.
    pub fn wait(&mut self, ctx: ContextId) -> (outcome: WaitOutcome)
        ensures
            outcome == old(self)@.wait_outcome(),
            final(self)@ == old(self)@.after_wait(ctx),
            final(self)@.valid(),
    {
        proof {
            use_type_invariant(&*self);
        }
        if self.done {
            return WaitOutcome::Ready;
        }
        if !self.is_parked(ctx) {
            // The queue is moved out while it grows: a field of a type with
            // an invariant is not lent to `push`.
            let mut queue: Vec<ContextId> = Vec::new();
            std::mem::swap(&mut queue, &mut self.waiters);
            queue.push(ctx);
            std::mem::swap(&mut queue, &mut self.waiters);
        }
        WaitOutcome::Parked
    }

    /// Destroys the object without a signal and hands back the contexts that
    /// were still parked on it, oldest first.
    pub fn into_parked(self) -> (parked: Vec<ContextId>)
        ensures
            parked@ == self@.waiters,
            self@.valid(),
    {
        proof {
            use_type_invariant(&self);
        }
        self.waiters
    }

    /// Signals the object and hands back every context that was parked,
    /// oldest first: all of them are to be woken. The object stays signalled.
    pub fn signal(&mut self) -> (woken: Vec<ContextId>)
        ensures
            woken@ == old(self)@.waiters,
            woken@.no_duplicates(),
            final(self)@ == old(self)@.after_signal(),
            final(self)@.valid(),
    {
        proof {
            use_type_invariant(&*self);
        }
        let mut woken: Vec<ContextId> = Vec::new();
        std::mem::swap(&mut woken, &mut self.waiters);
        self.done = true;
        woken
    }
}

} // verus!
