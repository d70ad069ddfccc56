use completion::device::CompletionDevice;
use completion::device::ReadOutcome;
use completion::device::WriteOutcome;
use completion::error::DeviceError;
use completion::object::CompletionObject;
use completion::object::WaitOutcome;

fn registered() -> CompletionDevice {
    let mut device = CompletionDevice::new();
    assert_eq!(device.register(true), Ok(()));
    device
}

#[test]
fn new_device_is_not_registered() {
    let device = CompletionDevice::new();
    assert!(!device.is_registered());
    assert!(!device.cell().is_initialized());
}

#[test]
fn register_fills_the_cell() {
    let device = registered();
    assert!(device.is_registered());
    assert!(device.cell().is_initialized());
    assert_eq!(device.is_signalled(), Ok(false));
    assert_eq!(device.parked_count(), Ok(0));
}

#[test]
fn register_without_handle_is_allocation_error() {
    let mut device = CompletionDevice::new();
    assert_eq!(device.register(false), Err(DeviceError::AllocationError));
    assert!(!device.is_registered());
    let mut buffer = Vec::new();
    assert_eq!(device.read(1, &mut buffer), Err(DeviceError::NotInitialized));
}

#[test]
fn register_twice_is_already_initialized() {
    let mut device = registered();
    let mut buffer = Vec::new();
    assert_eq!(device.read(4, &mut buffer), Ok(ReadOutcome::Blocked));
    assert_eq!(device.register(true), Err(DeviceError::AlreadyInitialized));
    assert!(device.is_registered());
    assert_eq!(device.parked_count(), Ok(1));
    assert_eq!(device.is_signalled(), Ok(false));
}

#[test]
fn first_failing_step_decides_the_error() {
    let mut device = registered();
    assert_eq!(device.register(false), Err(DeviceError::AllocationError));
    assert_eq!(device.register(true), Err(DeviceError::AlreadyInitialized));
    assert!(device.is_registered());
}

#[test]
fn open_always_succeeds() {
    let device = CompletionDevice::new();
    assert_eq!(device.open(), Ok(()));
    let device = registered();
    assert_eq!(device.open(), Ok(()));
    assert_eq!(device.parked_count(), Ok(0));
}

#[test]
fn read_before_registration_fails() {
    let mut device = CompletionDevice::new();
    let mut buffer = Vec::new();
    assert_eq!(device.read(1, &mut buffer), Err(DeviceError::NotInitialized));
    assert_eq!(device.read(1, &mut buffer), Err(DeviceError::NotInitialized));
    assert_eq!(device.parked_count(), Err(DeviceError::NotInitialized));
    assert!(!device.is_registered());
    assert_eq!(device.teardown(), Vec::<u64>::new());
}

#[test]
fn write_before_registration_fails() {
    let mut device = CompletionDevice::new();
    assert_eq!(device.write(&[1, 2, 3]), Err(DeviceError::NotInitialized));
    assert_eq!(device.is_signalled(), Err(DeviceError::NotInitialized));
    assert!(!device.is_registered());
}

#[test]
fn write_before_registration_wakes_nobody_later() {
    let mut device = CompletionDevice::new();
    assert_eq!(device.write(&[0x41]), Err(DeviceError::NotInitialized));
    assert_eq!(device.register(true), Ok(()));
    let mut buffer = Vec::new();
    assert_eq!(device.read(1, &mut buffer), Ok(ReadOutcome::Blocked));
}

#[test]
fn reader_blocks_until_write() {
    let mut device = registered();
    let mut buffer = Vec::new();
    assert_eq!(device.read(1, &mut buffer), Ok(ReadOutcome::Blocked));
    assert_eq!(
        device.write(&[0x41]),
        Ok(WriteOutcome { accepted: 1, woken: vec![1] })
    );
    assert_eq!(device.read(1, &mut buffer), Ok(ReadOutcome::Completed(0)));
}

#[test]
fn write_without_readers_returns_zero() {
    let mut device = registered();
    assert_eq!(
        device.write(&[]),
        Ok(WriteOutcome { accepted: 0, woken: vec![] })
    );
    assert_eq!(device.is_signalled(), Ok(true));
}

#[test]
fn write_without_readers_accepts_every_byte() {
    let mut device = registered();
    let data = [7u8; 300];
    assert_eq!(
        device.write(&data),
        Ok(WriteOutcome { accepted: 300, woken: vec![] })
    );
    assert_eq!(
        device.write(&data[..5]),
        Ok(WriteOutcome { accepted: 5, woken: vec![] })
    );
}

#[test]
fn one_write_wakes_both_blocked_readers() {
    let mut device = registered();
    let mut first = Vec::new();
    let mut second = Vec::new();
    assert_eq!(device.read(10, &mut first), Ok(ReadOutcome::Blocked));
    assert_eq!(device.read(20, &mut second), Ok(ReadOutcome::Blocked));
    assert_eq!(device.parked_count(), Ok(2));
    let outcome = device.write(&[1, 2]).unwrap();
    assert_eq!(outcome.accepted, 2);
    assert_eq!(outcome.woken, vec![10, 20]);
    assert_eq!(device.parked_count(), Ok(0));
    assert_eq!(device.read(20, &mut second), Ok(ReadOutcome::Completed(0)));
    assert_eq!(device.read(10, &mut first), Ok(ReadOutcome::Completed(0)));
}

#[test]
fn readers_are_woken_oldest_first() {
    let mut device = registered();
    let mut buffer = Vec::new();
    for ctx in [5u64, 3, 9, 1] {
        assert_eq!(device.read(ctx, &mut buffer), Ok(ReadOutcome::Blocked));
    }
    assert_eq!(device.write(&[0]).unwrap().woken, vec![5, 3, 9, 1]);
}

#[test]
fn read_after_write_completes_at_once() {
    let mut device = registered();
    let mut buffer = Vec::new();
    assert_eq!(device.read(1, &mut buffer), Ok(ReadOutcome::Blocked));
    assert_eq!(device.write(&[1]).unwrap().woken, vec![1]);
    assert_eq!(device.read(2, &mut buffer), Ok(ReadOutcome::Completed(0)));
    assert_eq!(device.write(&[2, 3]).unwrap().woken, Vec::<u64>::new());
    assert_eq!(device.read(3, &mut buffer), Ok(ReadOutcome::Completed(0)));
    assert_eq!(device.read(1, &mut buffer), Ok(ReadOutcome::Completed(0)));
    assert_eq!(device.parked_count(), Ok(0));
}

#[test]
fn reader_that_asks_again_is_parked_once() {
    let mut device = registered();
    let mut buffer = Vec::new();
    assert_eq!(device.read(8, &mut buffer), Ok(ReadOutcome::Blocked));
    assert_eq!(device.read(8, &mut buffer), Ok(ReadOutcome::Blocked));
    assert_eq!(device.read(8, &mut buffer), Ok(ReadOutcome::Blocked));
    assert_eq!(device.parked_count(), Ok(1));
    assert_eq!(device.write(&[]).unwrap().woken, vec![8]);
}

#[test]
fn read_copies_nothing_into_the_buffer() {
    let mut device = registered();
    let mut buffer = vec![0xAAu8, 0xBB, 0xCC];
    assert_eq!(device.read(1, &mut buffer), Ok(ReadOutcome::Blocked));
    assert_eq!(buffer, vec![0xAA, 0xBB, 0xCC]);
    assert_eq!(device.write(&[0x41, 0x42]).unwrap().accepted, 2);
    assert_eq!(device.read(1, &mut buffer), Ok(ReadOutcome::Completed(0)));
    assert_eq!(buffer, vec![0xAA, 0xBB, 0xCC]);
    let mut unregistered = CompletionDevice::new();
    assert_eq!(
        unregistered.read(1, &mut buffer),
        Err(DeviceError::NotInitialized)
    );
    assert_eq!(buffer, vec![0xAA, 0xBB, 0xCC]);
}

#[test]
fn second_write_finds_nobody_parked() {
    let mut device = registered();
    let mut buffer = Vec::new();
    assert_eq!(device.read(1, &mut buffer), Ok(ReadOutcome::Blocked));
    assert_eq!(
        device.write(&[9]),
        Ok(WriteOutcome { accepted: 1, woken: vec![1] })
    );
    assert_eq!(
        device.write(&[9, 9, 9]),
        Ok(WriteOutcome { accepted: 3, woken: vec![] })
    );
    assert_eq!(device.is_signalled(), Ok(true));
}

#[test]
fn teardown_hands_back_parked_readers() {
    let mut device = registered();
    let mut buffer = Vec::new();
    assert_eq!(device.read(11, &mut buffer), Ok(ReadOutcome::Blocked));
    assert_eq!(device.read(12, &mut buffer), Ok(ReadOutcome::Blocked));
    assert_eq!(device.teardown(), vec![11, 12]);
}

#[test]
fn teardown_after_write_strands_nobody() {
    let mut device = registered();
    let mut buffer = Vec::new();
    assert_eq!(device.read(11, &mut buffer), Ok(ReadOutcome::Blocked));
    assert_eq!(device.write(&[1]).unwrap().woken, vec![11]);
    assert_eq!(device.teardown(), Vec::<u64>::new());
}

#[test]
fn a_new_device_can_be_registered_after_teardown() {
    let mut device = registered();
    let mut buffer = Vec::new();
    assert_eq!(device.write(&[1]).unwrap().accepted, 1);
    assert_eq!(device.teardown(), Vec::<u64>::new());
    let mut device = registered();
    assert_eq!(device.is_signalled(), Ok(false));
    assert_eq!(device.read(1, &mut buffer), Ok(ReadOutcome::Blocked));
}

#[test]
fn register_with_object_succeeds() {
    let mut device = CompletionDevice::new();
    let object = CompletionObject::try_new().unwrap();
    assert_eq!(device.register_with(true, Some(object)), Ok(()));
    assert!(device.is_registered());
    assert_eq!(device.is_signalled(), Ok(false));
    assert_eq!(device.parked_count(), Ok(0));
}

#[test]
fn register_without_object_is_allocation_error() {
    let mut device = CompletionDevice::new();
    assert_eq!(
        device.register_with(true, None),
        Err(DeviceError::AllocationError)
    );
    assert!(!device.is_registered());
    assert_eq!(device.write(&[1]), Err(DeviceError::NotInitialized));
}

#[test]
fn missing_handle_is_reported_before_anything_else() {
    let mut device = CompletionDevice::new();
    let object = CompletionObject::try_new().unwrap();
    assert_eq!(
        device.register_with(false, Some(object)),
        Err(DeviceError::AllocationError)
    );
    assert!(!device.is_registered());
    assert_eq!(
        device.register_with(false, None),
        Err(DeviceError::AllocationError)
    );
    let mut device = registered();
    assert_eq!(
        device.register_with(false, None),
        Err(DeviceError::AllocationError)
    );
    assert!(device.is_registered());
}

#[test]
fn registered_device_is_reported_before_failed_allocation() {
    let mut device = registered();
    let mut buffer = Vec::new();
    assert_eq!(device.read(2, &mut buffer), Ok(ReadOutcome::Blocked));
    assert_eq!(
        device.register_with(true, None),
        Err(DeviceError::AlreadyInitialized)
    );
    let other = CompletionObject::try_new().unwrap();
    assert_eq!(
        device.register_with(true, Some(other)),
        Err(DeviceError::AlreadyInitialized)
    );
    assert_eq!(device.parked_count(), Ok(1));
    assert_eq!(device.write(&[]).unwrap().woken, vec![2]);
}

#[test]
fn register_with_keeps_the_state_of_the_object() {
    let mut object = CompletionObject::try_new().unwrap();
    assert_eq!(object.wait(77), WaitOutcome::Parked);
    let mut device = CompletionDevice::new();
    assert_eq!(device.register_with(true, Some(object)), Ok(()));
    assert_eq!(device.parked_count(), Ok(1));
    assert_eq!(device.teardown(), vec![77]);
}
