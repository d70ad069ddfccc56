use crate::error::DeviceError;
use crate::object::CompletionObject;
use crate::object::CompletionState;
use vstd::prelude::*;

verus! {

/// What a cell holds: nothing, or the state of its one completion object.
pub type Slot = Option<CompletionState>;

/// The object in the slot, if there is one, is in a valid state.
pub open spec fn slot_valid(slot: Slot) -> bool {
    slot matches Some(state) ==> state.valid()
}

/// What `install` answers on a cell holding `slot` when the allocation came
/// out as `allocation`. A full slot is reported before a failed allocation.
pub open spec fn install_result(slot: Slot, allocation: Slot) -> Result<(), DeviceError> {
    if slot is Some {
        Err(DeviceError::AlreadyInitialized)
    } else if allocation is None {
        Err(DeviceError::AllocationError)
    } else {
        Ok(())
    }
}

/// What the cell holds after that `install`: the allocated object if the
/// slot was empty, otherwise what it held before.
pub open spec fn after_install(slot: Slot, allocation: Slot) -> Slot {
    if slot is Some {
        slot
    } else {
        allocation
    }
}

/// Holder of at most one completion object.
///
/// The slot goes from empty to full once and is never emptied again. A host
/// that shares the cell between execution contexts keeps it behind a lock;
/// exclusive access (`&mut self`) stands for holding that lock, and since no
/// method here blocks, nothing ever suspends while it is held.
#[derive(Debug)]
pub struct CompletionCell {
    slot: Option<CompletionObject>,
}

impl View for CompletionCell {
    type V = Slot;

    closed spec fn view(&self) -> Slot {
        match self.slot {
            Some(object) => Some(object@),
            None => None,
        }
    }
}

impl CompletionCell {
    /// An empty cell.
    pub fn new() -> (cell: CompletionCell)
        ensures
            cell@ is None,
    {
        CompletionCell { slot: None }
    }

    /// Whether the slot is full.
    pub fn is_initialized(&self) -> (initialized: bool)
        ensures
            initialized == (self@ is Some),
            slot_valid(self@),
    {
        match &self.slot {
            Some(object) => {
                proof {
                    use_type_invariant(object);
                }
                true
            },
            None => false,
        }
    }

    /// Stores the outcome of an allocation: `Some` is the object that was
    /// made, `None` says that memory for it could not be had.
    ///
    /// A full slot refuses with `AlreadyInitialized` and keeps the object it
    /// has; an object handed in is then dropped. On an empty slot a failed
    /// allocation is `AllocationError`, and the slot stays empty.
    pub fn install(&mut self, allocation: Option<CompletionObject>) -> (r: Result<(), DeviceError>)
        ensures
            r == install_result(
                old(self)@,
                match allocation {
                    Some(object) => Some(object@),
                    None => None,
                },
            ),
            final(self)@ == after_install(
                old(self)@,
                match allocation {
                    Some(object) => Some(object@),
                    None => None,
                },
            ),
            slot_valid(final(self)@),
    {
        if self.is_initialized() {
            return Err(DeviceError::AlreadyInitialized);
        }
        match allocation {
            Some(object) => {
                proof {
                    use_type_invariant(&object);
                }
                self.slot = Some(object);
                Ok(())
            },
            None => Err(DeviceError::AllocationError),
        }
    }

    /// Makes a new completion object and stores it.
    ///
    /// A full slot refuses with `AlreadyInitialized`, unchanged, and nothing
    /// is allocated. On an empty slot the allocator decides, and the call
    /// goes as `install` goes on what the allocator gave: on a new object, or
    /// on nothing.
    pub fn initialize(&mut self) -> (r: Result<(), DeviceError>)
        ensures
            ({
                let made = Some(CompletionState::fresh());
                ||| r == install_result(old(self)@, made) && final(self)@ == after_install(
                    old(self)@,
                    made,
                )
                ||| r == install_result(old(self)@, None) && final(self)@ == after_install(
                    old(self)@,
                    None,
                )
            }),
            slot_valid(final(self)@),
    {
        if self.is_initialized() {
            return Err(DeviceError::AlreadyInitialized);
        }
        match CompletionObject::try_new() {
            Ok(object) => self.install(Some(object)),
            Err(_) => self.install(None),
        }
    }

    /// The object in a full slot.
    pub closed spec fn object(&self) -> CompletionObject
        recommends
            self@ is Some,
    {
        self.slot.unwrap()
    }

    /// Lends the object to `f` for as long as `f` runs and hands back what
    /// `f` copied out of it; `NotInitialized` if the slot is empty, in which
    /// case `f` is not called.
    pub fn with_object<R, F: FnOnce(&CompletionObject) -> R>(&self, f: F) -> (r: Result<
        R,
        DeviceError,
    >)
        requires
            self@ is Some ==> call_requires(f, (&self.object(),)),
        ensures
            match r {
                Ok(out) => self@ == Some(self.object()@) && call_ensures(f, (&self.object(),), out),
                Err(e) => self@ is None && e == DeviceError::NotInitialized,
            },
            slot_valid(self@),
    {
        match &self.slot {
            Some(object) => {
                proof {
                    use_type_invariant(object);
                }
                Ok(f(object))
            },
            None => Err(DeviceError::NotInitialized),
        }
    }

    /// Gives up the cell and hands out its object, if it has one.
    pub fn into_object(self) -> (object: Option<CompletionObject>)
        ensures
            self@ == match object {
                Some(object) => Some(object@),
                None => None,
            },
    {
        self.slot
    }

    /// Lends the object for a `wait` or a `signal`; `NotInitialized` if the
    /// slot is empty. Whatever the borrower leaves in the object is what the
    /// cell holds afterwards.
    pub fn object_mut(&mut self) -> (r: Result<&mut CompletionObject, DeviceError>)
        ensures
            match r {
                Ok(object) => old(self)@ == Some(object@) && object@.valid() && final(self)@ == Some(
                    final(object)@,
                ),
                Err(e) => e == DeviceError::NotInitialized && old(self)@ is None && final(self)@ is None,
            },
    {
        match &mut self.slot {
            Some(object) => {
                proof {
                    use_type_invariant(&*object);
                }
                Ok(object)
            },
            None => Err(DeviceError::NotInitialized),
        }
    }
}

} // verus!
