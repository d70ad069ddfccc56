use crate::cell::after_install;
use crate::cell::install_result;
use crate::cell::slot_valid;
use crate::cell::CompletionCell;
use crate::cell::Slot;
use crate::error::DeviceError;
use crate::object::CompletionObject;
use crate::object::CompletionState;
use crate::object::ContextId;
use crate::object::WaitOutcome;
use vstd::prelude::*;

verus! {

/// How a `read` went.
#[derive(Clone, Copy, Debug, PartialEq, Eq, Structural)]
pub enum ReadOutcome {
    /// No signal yet. The caller is parked: the host suspends it, and calls
    /// `read` for it again once a write has woken it.
    Blocked,
    /// The read is over and has transferred this many bytes, which is
    /// always zero: a wake-up carries no payload.
    Completed(usize),
}

/// How a `write` went.
#[derive(Debug, PartialEq, Eq)]
pub struct WriteOutcome {
    /// Bytes taken from the caller: all it offered.
    pub accepted: usize,
    /// The contexts that were parked, oldest first. The host wakes each.
    pub woken: Vec<ContextId>,
}

/// The contexts parked on a device whose cell holds `slot`, oldest first.
pub open spec fn parked(slot: Slot) -> Seq<ContextId> {
    match slot {
        None => Seq::empty(),
        Some(state) => state.waiters,
    }
}

/// What `read` answers on a device whose cell holds `slot`: an error while
/// the device is unregistered, completion with zero bytes once it has been
/// written to, and `Blocked` in between.
pub open spec fn read_result(slot: Slot) -> Result<ReadOutcome, DeviceError> {
    match slot {
        None => Err(DeviceError::NotInitialized),
        Some(state) => if state.done {
            Ok(ReadOutcome::Completed(0))
        } else {
            Ok(ReadOutcome::Blocked)
        },
    }
}

/// What the cell holds after a `read` by `ctx`.
pub open spec fn after_read(slot: Slot, ctx: ContextId) -> Slot {
    match slot {
        None => None,
        Some(state) => Some(state.after_wait(ctx)),
    }
}

/// What `write` answers when `data` is written to a device whose cell holds
/// `slot`: an error while the device is unregistered, and otherwise the
/// number of bytes accepted, which is all of them, with the contexts woken,
/// which is every one that is parked.
pub open spec fn write_result(slot: Slot, data: Seq<u8>) -> Result<
    (nat, Seq<ContextId>),
    DeviceError,
> {
    match slot {
        None => Err(DeviceError::NotInitialized),
        Some(state) => Ok((data.len(), state.waiters)),
    }
}

/// What the cell holds after a `write`, whatever was written.
pub open spec fn after_write(slot: Slot) -> Slot {
    match slot {
        None => None,
        Some(state) => Some(state.after_signal()),
    }
}

/// What registration answers on a device whose cell holds `slot`, when the
/// host's handle was or was not allocated and the allocation of the object
/// came out as `allocation`. The handle comes first, then the cell.
pub open spec fn register_result(slot: Slot, handle_allocated: bool, allocation: Slot) -> Result<
    (),
    DeviceError,
> {
    if handle_allocated {
        install_result(slot, allocation)
    } else {
        Err(DeviceError::AllocationError)
    }
}

/// What the cell holds after that registration.
pub open spec fn after_register(slot: Slot, handle_allocated: bool, allocation: Slot) -> Slot {
    if handle_allocated {
        after_install(slot, allocation)
    } else {
        slot
    }
}

/// The device: the file operations, all acting on one shared cell.
///
/// It is made unregistered, with an empty cell. `register` fills the cell;
/// from then on `read` and `write` work. No state is kept per open file.
#[derive(Debug)]
pub struct CompletionDevice {
    cell: CompletionCell,
}

impl View for CompletionDevice {
    type V = Slot;

    closed spec fn view(&self) -> Slot {
        self.cell@
    }
}

impl CompletionDevice {
    /// A device that is not registered yet.
    pub fn new() -> (device: CompletionDevice)
        ensures
            device@ is None,
    {
        CompletionDevice { cell: CompletionCell::new() }
    }

    /// Whether `register` has succeeded.
    pub fn is_registered(&self) -> (registered: bool)
        ensures
            registered == (self@ is Some),
            slot_valid(self@),
    {
        self.cell.is_initialized()
    }

    /// The shared cell.
    pub fn cell(&self) -> (cell: &CompletionCell)
        ensures
            cell@ == self@,
    {
        &self.cell
    }

    /// Registers the device, given how both allocations came out.
    ///
    /// `handle_allocated` is the host's answer to the request for a
    /// registration handle, which comes first; `allocation` is the
    /// completion object that was made, or `None` if memory for it could not
    /// be had. The first step that fails decides the error, and a failed
    /// registration changes nothing: without a handle it is
    /// `AllocationError`; with a handle on a registered device it is
    /// `AlreadyInitialized`; with a handle and no object it is
    /// `AllocationError`. Otherwise the object goes into the cell. After
    /// `Ok` the host binds the file operations to its handle.
    pub fn register_with(
        &mut self,
        handle_allocated: bool,
        allocation: Option<CompletionObject>,
    ) -> (r: Result<(), DeviceError>)
        ensures
            r == register_result(
                old(self)@,
                handle_allocated,
                match allocation {
                    Some(object) => Some(object@),
                    None => None,
                },
            ),
            final(self)@ == after_register(
                old(self)@,
                handle_allocated,
                match allocation {
                    Some(object) => Some(object@),
                    None => None,
                },
            ),
            slot_valid(final(self)@),
    {
        let registered = self.cell.is_initialized();
        if !handle_allocated {
            Err(DeviceError::AllocationError)
        } else if registered {
            Err(DeviceError::AlreadyInitialized)
        } else {
            self.cell.install(allocation)
        }
    }

    /// Registers the device. `handle_allocated` is the host's answer to the
    /// request for a registration handle.
    ///
    /// The completion object is allocated here, and only if nothing else
    /// stands in the way: with a handle, on an unregistered device. There
    /// the allocator decides, and the call goes as `register_with` goes on
    /// what the allocator gave: on a new object, or on nothing. Everywhere
    /// else the two agree, and the answer is the one error that
    /// `register_with` names.
    pub fn register(&mut self, handle_allocated: bool) -> (r: Result<(), DeviceError>)
        ensures
            ({
                let made = Some(CompletionState::fresh());
                ||| r == register_result(old(self)@, handle_allocated, made) && final(self)@
                    == after_register(old(self)@, handle_allocated, made)
                ||| r == register_result(old(self)@, handle_allocated, None) && final(self)@
                    == after_register(old(self)@, handle_allocated, None)
            }),
            slot_valid(final(self)@),
    {
        if handle_allocated && !self.cell.is_initialized() {
            match CompletionObject::try_new() {
                Ok(object) => self.register_with(true, Some(object)),
                Err(_) => self.register_with(true, None),
            }
        } else {
            self.register_with(handle_allocated, None)
        }
    }

    /// Opens the device file. It always succeeds, registered or not, and
    /// acquires nothing.
    pub fn open(&self) -> (r: Result<(), DeviceError>)
        ensures
            r is Ok,
    {
        Ok(())
    }

    /// One step of a read by `ctx`.
    ///
    /// On an unregistered device it fails with `NotInitialized` and parks
    /// nobody. Once the device has been written to, it completes with zero
    /// bytes. Until then it parks `ctx` and answers `Blocked`. Nothing is
    /// ever copied into `buffer`.
    pub fn read(&mut self, ctx: ContextId, buffer: &mut Vec<u8>) -> (r: Result<
        ReadOutcome,
        DeviceError,
    >)
        ensures
            r == read_result(old(self)@),
            final(self)@ == after_read(old(self)@, ctx),
            slot_valid(final(self)@),
            final(buffer)@ == old(buffer)@,
    {
        match self.cell.object_mut() {
            Ok(object) => match object.wait(ctx) {
                WaitOutcome::Ready => Ok(ReadOutcome::Completed(0)),
                WaitOutcome::Parked => Ok(ReadOutcome::Blocked),
            },
            Err(e) => Err(e),
        }
    }

    /// A write of `data`.
    ///
    /// On an unregistered device it fails with `NotInitialized`. Otherwise
    /// it succeeds, parked readers or none: it signals the object, accepts
    /// all of `data` without looking at it, and names every context that was
    /// parked, each once. It never blocks.
    pub fn write(&mut self, data: &[u8]) -> (r: Result<WriteOutcome, DeviceError>)
        ensures
            match r {
                Ok(outcome) => write_result(old(self)@, data@) == Ok::<
                    (nat, Seq<ContextId>),
                    DeviceError,
                >((outcome.accepted as nat, outcome.woken@)),
                Err(e) => write_result(old(self)@, data@) == Err::<
                    (nat, Seq<ContextId>),
                    DeviceError,
                >(e),
            },
            r matches Ok(outcome) ==> outcome.woken@.no_duplicates(),
            final(self)@ == after_write(old(self)@),
            slot_valid(final(self)@),
    {
        match self.cell.object_mut() {
            Ok(object) => {
                let woken = object.signal();
                Ok(WriteOutcome { accepted: data.len(), woken })
            },
            Err(e) => Err(e),
        }
    }

    /// Whether a write has signalled the device; `NotInitialized` if it is
    /// not registered.
    pub fn is_signalled(&self) -> (r: Result<bool, DeviceError>)
        ensures
            r == match self@ {
                Some(state) => Ok::<bool, DeviceError>(state.done),
                None => Err::<bool, DeviceError>(DeviceError::NotInitialized),
            },
    {
        let done_flag = |object: &CompletionObject| -> (done: bool)
            ensures
                done == object@.done,
            {
                object.is_done()
            };
        self.cell.with_object(done_flag)
    }

    /// How many readers are parked; `NotInitialized` if the device is not
    /// registered.
    pub fn parked_count(&self) -> (r: Result<usize, DeviceError>)
        ensures
            match r {
                Ok(count) => self@ matches Some(state) && count == state.waiters.len(),
                Err(e) => self@ is None && e == DeviceError::NotInitialized,
            },
    {
        let queue_length = |object: &CompletionObject| -> (count: usize)
            ensures
                count == object@.waiters.len(),
            {
                object.parked_count()
            };
        self.cell.with_object(queue_length)
    }

    /// Ends the device's life and destroys the cell with its object.
    ///
    /// The host calls this once, when no read or write is in flight. Readers
    /// that are still parked are not woken: they are handed back, each once
    /// and oldest first, for the host to terminate. There are none if the device was
    /// never registered or has been written to.
    pub fn teardown(self) -> (stranded: Vec<ContextId>)
        ensures
            stranded@ == parked(self@),
            stranded@.no_duplicates(),
    {
        match self.cell.into_object() {
            Some(object) => object.into_parked(),
            None => Vec::new(),
        }
    }
}

} // verus!
