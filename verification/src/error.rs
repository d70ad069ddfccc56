use vstd::prelude::*;

verus! {

/// Why the device refused an operation. None of these is worth a retry.
#[derive(Clone, Copy, Debug, PartialEq, Eq, Structural)]
pub enum DeviceError {
    /// Memory for the completion object, or the host's registration handle,
    /// could not be had.
    AllocationError,
    /// The cell already holds a completion object.
    AlreadyInitialized,
    /// The cell holds no completion object yet.
    NotInitialized,
}

impl DeviceError {
    /// `true` for the errors that only a caller's mistake in the order of
    /// operations can produce, `false` for exhausted resources.
    pub open spec fn contract_violation(self) -> bool {
        self != DeviceError::AllocationError
    }

    /// Tells a broken calling order from a shortage of resources.
    pub fn is_contract_violation(&self) -> (violation: bool)
        ensures
            violation == self.contract_violation(),
    {
        match self {
            DeviceError::AllocationError => false,
            DeviceError::AlreadyInitialized => true,
            DeviceError::NotInitialized => true,
        }
    }
}

} // verus!
