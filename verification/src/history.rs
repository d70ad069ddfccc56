use crate::cell::after_install;
use crate::cell::install_result;
use crate::cell::slot_valid;
use crate::cell::Slot;
use crate::device::after_read;
use crate::device::after_register;
use crate::device::after_write;
use crate::device::parked;
use crate::device::read_result;
use crate::device::register_result;
use crate::device::write_result;
use crate::device::ReadOutcome;
use crate::error::DeviceError;
use crate::object::CompletionState;
use crate::object::ContextId;
use vstd::prelude::*;

verus! {

/// One call of a file operation that can change the device.
pub enum Call {
    /// A `read` step by this context.
    Read(ContextId),
    /// A `write` of these bytes.
    Write(Seq<u8>),
}

/// What the cell holds after `call`.
pub open spec fn after_call(slot: Slot, call: Call) -> Slot {
    match call {
        Call::Read(ctx) => after_read(slot, ctx),
        Call::Write(_) => after_write(slot),
    }
}

/// What the cell holds after `calls`, made one after the other in whatever
/// order the contexts happened to get the lock.
pub open spec fn after_calls(slot: Slot, calls: Seq<Call>) -> Slot
    decreases calls.len(),
{
    if calls.len() == 0 {
        slot
    } else {
        after_call(after_calls(slot, calls.drop_last()), calls.last())
    }
}

/// The device has been written to.
pub open spec fn signalled(slot: Slot) -> bool {
    slot matches Some(state) && state.done
}

/// No call fills or empties the cell, and every call leaves a valid object
/// valid.
pub proof fn calls_keep_the_cell(slot: Slot, calls: Seq<Call>)
    requires
        slot_valid(slot),
    ensures
        after_calls(slot, calls) is Some <==> slot is Some,
        slot_valid(after_calls(slot, calls)),
    decreases calls.len(),
{
    if calls.len() > 0 {
        calls_keep_the_cell(slot, calls.drop_last());
        if let Some(state) = after_calls(slot, calls.drop_last()) {
            if let Call::Read(ctx) = calls.last() {
                state.wait_parks(ctx);
            }
        }
    }
}

/// Nothing resets the device: once written to, it stays written to.
pub proof fn signal_is_never_lost(slot: Slot, calls: Seq<Call>)
    requires
        signalled(slot),
    ensures
        signalled(after_calls(slot, calls)),
    decreases calls.len(),
{
    if calls.len() > 0 {
        signal_is_never_lost(slot, calls.drop_last());
    }
}

/// From the first write on, a registered device is written to.
proof fn signalled_from_first_write(slot: Slot, calls: Seq<Call>, w: int, n: int)
    requires
        slot is Some,
        0 <= w < n <= calls.len(),
        calls[w] is Write,
    ensures
        signalled(after_calls(slot, calls.take(n))),
    decreases n,
{
    let upto = calls.take(n);
    assert(upto.drop_last() == calls.take(n - 1));
    assert(upto.last() == calls[n - 1]);
    if n - 1 == w {
        after_calls_of_some(slot, calls.take(w));
    } else {
        signalled_from_first_write(slot, calls, w, n - 1);
    }
}

/// A full cell stays full, valid or not.
proof fn after_calls_of_some(slot: Slot, calls: Seq<Call>)
    requires
        slot is Some,
    ensures
        after_calls(slot, calls) is Some,
    decreases calls.len(),
{
    if calls.len() > 0 {
        after_calls_of_some(slot, calls.drop_last());
    }
}

/// No missed wake-up. In any run of reads and writes, in any interleaving, a
/// read that is called after a write has returned does not block: on a
/// registered device it completes at once with zero bytes.
///
/// `calls` is the run, `w` the place of the write in it and `r` the place of
/// the later read; `calls.take(r)` is everything that happened before that
/// read.
pub proof fn read_after_write_never_blocks(slot: Slot, calls: Seq<Call>, w: int, r: int)
    requires
        0 <= w < r < calls.len(),
        calls[w] is Write,
        calls[r] is Read,
    ensures
        read_result(after_calls(slot, calls.take(r))) != Ok::<ReadOutcome, DeviceError>(
            ReadOutcome::Blocked,
        ),
        slot is Some ==> read_result(after_calls(slot, calls.take(r))) == Ok::<
            ReadOutcome,
            DeviceError,
        >(ReadOutcome::Completed(0)),
{
    if slot is Some {
        signalled_from_first_write(slot, calls, w, r);
    } else {
        unregistered_device_refuses(calls.take(r), Seq::empty());
    }
}

/// A write needs no reader. On a registered device with nobody parked it
/// still succeeds and accepts every byte it is given, and it wakes nobody;
/// the device is written to all the same.
pub proof fn write_without_readers_succeeds(slot: Slot, data: Seq<u8>)
    requires
        slot is Some,
        parked(slot).len() == 0,
    ensures
        write_result(slot, data) == Ok::<(nat, Seq<ContextId>), DeviceError>(
            (data.len(), Seq::empty()),
        ),
        signalled(after_write(slot)),
{
    assert(parked(slot) =~= Seq::empty());
}

/// Broadcast. A write wakes every reader that is parked when it is made,
/// not just one: each is named in the write's answer, nobody is parked
/// afterwards, and the read of each then completes with zero bytes.
pub proof fn write_wakes_every_parked_reader(slot: Slot, data: Seq<u8>, ctx: ContextId)
    requires
        parked(slot).contains(ctx),
    ensures
        write_result(slot, data) matches Ok((accepted, woken)) && woken.contains(ctx),
        parked(after_write(slot)).len() == 0,
        read_result(after_write(slot)) == Ok::<ReadOutcome, DeviceError>(ReadOutcome::Completed(0)),
        read_result(after_read(after_write(slot), ctx)) == Ok::<ReadOutcome, DeviceError>(
            ReadOutcome::Completed(0),
        ),
{
}

/// No window for a missed wake-up. A reader that was told `Blocked` stays
/// parked through every read that anyone makes after it, its own repeated
/// ones included, so the next write, whenever it comes, names it.
pub proof fn blocked_reader_is_woken_by_next_write(
    slot: Slot,
    ctx: ContextId,
    reads: Seq<Call>,
    data: Seq<u8>,
)
    requires
        slot_valid(slot),
        read_result(slot) == Ok::<ReadOutcome, DeviceError>(ReadOutcome::Blocked),
        forall|i: int| 0 <= i < reads.len() ==> reads[i] is Read,
    ensures
        write_result(after_calls(after_read(slot, ctx), reads), data) matches Ok((accepted, woken))
            && woken.contains(ctx),
{
    slot.unwrap().wait_parks(ctx);
    stays_parked(slot.unwrap().after_wait(ctx), ctx, reads);
}

/// Reads unpark nobody.
proof fn stays_parked(state: CompletionState, ctx: ContextId, reads: Seq<Call>)
    requires
        state.valid(),
        state.waiters.contains(ctx),
        forall|i: int| 0 <= i < reads.len() ==> reads[i] is Read,
    ensures
        parked(after_calls(Some(state), reads)).contains(ctx),
        slot_valid(after_calls(Some(state), reads)),
    decreases reads.len(),
{
    if reads.len() > 0 {
        stays_parked(state, ctx, reads.drop_last());
        calls_keep_the_cell(Some(state), reads.drop_last());
        let before = after_calls(Some(state), reads.drop_last()).unwrap();
        before.wait_parks(reads.last()->Read_0);
    }
}

/// Two readers that block one after the other on a device not yet written to
/// are parked at the same time, and a single write then wakes both, each
/// once.
pub proof fn one_write_wakes_two_readers(
    state: CompletionState,
    first: ContextId,
    second: ContextId,
    data: Seq<u8>,
)
    requires
        state.valid(),
        !state.done,
        first != second,
    ensures
        ({
            let one_blocked = after_read(Some(state), first);
            let both_blocked = after_read(one_blocked, second);
            &&& read_result(Some(state)) == Ok::<ReadOutcome, DeviceError>(ReadOutcome::Blocked)
            &&& read_result(one_blocked) == Ok::<ReadOutcome, DeviceError>(ReadOutcome::Blocked)
            &&& parked(both_blocked).contains(first)
            &&& parked(both_blocked).contains(second)
            &&& parked(both_blocked).no_duplicates()
            &&& write_result(both_blocked, data) == Ok::<(nat, Seq<ContextId>), DeviceError>(
                (data.len(), parked(both_blocked)),
            )
            &&& read_result(after_write(both_blocked)) == Ok::<ReadOutcome, DeviceError>(
                ReadOutcome::Completed(0),
            )
        }),
{
    state.wait_parks(first);
    state.after_wait(first).wait_parks(second);
}

/// A cell is filled once. After an initialization that succeeded, and
/// whatever reads and writes have followed it, the next one fails with
/// `AlreadyInitialized`, whether or not its allocation would have succeeded,
/// and the cell still holds the object it held.
pub proof fn second_initialization_is_refused(
    slot: Slot,
    first: Slot,
    calls: Seq<Call>,
    second: Slot,
)
    requires
        install_result(slot, first) is Ok,
    ensures
        ({
            let held = after_calls(after_install(slot, first), calls);
            &&& install_result(held, second) == Err::<(), DeviceError>(
                DeviceError::AlreadyInitialized,
            )
            &&& after_install(held, second) == held
        }),
{
    after_calls_of_some(after_install(slot, first), calls);
}

/// A registration that fails leaves nothing behind, whichever step failed
/// it; one that succeeds leaves a device that is not yet written to, with
/// nobody parked, on which reads block and writes succeed.
pub proof fn registration_is_all_or_nothing(
    slot: Slot,
    handle_allocated: bool,
    allocation: Slot,
    data: Seq<u8>,
)
    requires
        allocation is Some ==> allocation == Some(CompletionState::fresh()),
    ensures
        register_result(slot, handle_allocated, allocation) is Err ==> after_register(
            slot,
            handle_allocated,
            allocation,
        ) == slot,
        register_result(slot, handle_allocated, allocation) is Ok ==> ({
            let registered = after_register(slot, handle_allocated, allocation);
            &&& slot is None
            &&& registered == Some(CompletionState::fresh())
            &&& read_result(registered) == Ok::<ReadOutcome, DeviceError>(ReadOutcome::Blocked)
            &&& write_result(registered, data) == Ok::<(nat, Seq<ContextId>), DeviceError>(
                (data.len(), Seq::empty()),
            )
        }),
{
}

/// Before registration every read and every write fails with
/// `NotInitialized`, however many came before it, and none of them parks
/// anybody or leaves anything else behind: the cell stays empty.
pub proof fn unregistered_device_refuses(calls: Seq<Call>, data: Seq<u8>)
    ensures
        after_calls(None, calls) is None,
        read_result(after_calls(None, calls)) == Err::<ReadOutcome, DeviceError>(
            DeviceError::NotInitialized,
        ),
        write_result(after_calls(None, calls), data) == Err::<(nat, Seq<ContextId>), DeviceError>(
            DeviceError::NotInitialized,
        ),
        parked(after_calls(None, calls)).len() == 0,
    decreases calls.len(),
{
    if calls.len() > 0 {
        unregistered_device_refuses(calls.drop_last(), data);
    }
}

} // verus!
