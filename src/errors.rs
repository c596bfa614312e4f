//! What a failed charge reports.
use vstd::prelude::*;

verus! {

/// Why execution stopped.
#[derive(Clone, Copy, Debug, PartialEq, Eq, Structural)]
pub enum StatusCode {
    /// A deduction asked for more gas than the balance held.
    OutOfGas,
}

/// Where a failure arose; gas accounting belongs to no module.
#[derive(Clone, Copy, Debug, PartialEq, Eq, Structural)]
pub enum Location {
    Undefined,
}

/// A failure that has not yet been given a location.
#[derive(Clone, Copy, Debug, PartialEq, Eq, Structural)]
pub struct PartialVMError {
    pub major_status: StatusCode,
}

/// A failure together with where it arose.
#[derive(Clone, Copy, Debug, PartialEq, Eq, Structural)]
pub struct VMError {
    pub major_status: StatusCode,
    pub location: Location,
}

pub type PartialVMResult<T> = Result<T, PartialVMError>;

pub type VMResult<T> = Result<T, VMError>;

impl PartialVMError {
    pub fn new(major_status: StatusCode) -> (r: Self)
        ensures
            r.major_status == major_status,
    {
        PartialVMError { major_status }
    }

    /// The failure tagged with where it arose.
    pub open spec fn finish_spec(self, location: Location) -> VMError {
        VMError { major_status: self.major_status, location }
    }

    /// Tags the failure with where it arose.
    pub fn finish(self, location: Location) -> (r: VMError)
        ensures
            r == self.finish_spec(location),
    {
        VMError { major_status: self.major_status, location }
    }
}

} // verus!
