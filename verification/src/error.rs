use vstd::prelude::*;

verus! {

/// The error taxonomy of the whole layer.
///
/// Every fallible operation of the crate returns one of these; no operation
/// aborts the process.
#[derive(Clone, Copy, Debug, PartialEq, Eq, Structural)]
pub enum EspError {
    /// The radio peripheral or the storage partition is already claimed.
    ResourceUnavailable,
    /// A supplied configuration is internally inconsistent.
    InvalidConfig,
    /// The operation is not valid in the current state-machine position.
    InvalidState,
    /// The storage medium failed, or a caller-supplied buffer is too small.
    StorageError,
    /// A blocking scan exceeded its bound.
    Timeout,
    /// The radio firmware reported an unrecoverable fault.
    RadioFault,
}

impl EspError {
    /// A short description, for embedders that log errors.
    pub fn message(&self) -> (r: &'static str)
    {
        match self {
            EspError::ResourceUnavailable => "resource already claimed",
            EspError::InvalidConfig => "invalid configuration",
            EspError::InvalidState => "operation not valid in this state",
            EspError::StorageError => "storage failure or undersized buffer",
            EspError::Timeout => "blocking operation exceeded its bound",
            EspError::RadioFault => "radio firmware fault",
        }
    }
}

} // verus!
