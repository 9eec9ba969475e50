//! The error taxonomy of configuration and registration.

use vstd::prelude::*;

verus! {

/// Why a configuration step or a registration attempt did not succeed.
///
/// The variants that carry a number hold the non-zero status code that the
/// external service reported.
#[derive(Clone, Copy, Debug, PartialEq, Eq, Structural)]
pub enum Error {
    /// More handlers were bound than the capacity window has room for.
    CapacityExceeded,
    /// The granted identifier range does not fit the identifier width.
    RangeConversionError,
    /// The identifier allocator rejected the range request.
    AllocationFailed(i32),
    /// A slot's device record could not be initialized.
    SlotInitFailed(i32),
    /// A slot's identifier could not be entered into the active-device registry.
    PublishFailed(i32),
    /// The directory service did not create the entry of a slot.
    DirectoryCreateFailed(i32),
}

impl Error {
    /// The status code of the external service, where the error carries one.
    pub open spec fn spec_code(self) -> Option<i32> {
        match self {
            Error::CapacityExceeded => None,
            Error::RangeConversionError => None,
            Error::AllocationFailed(c) => Some(c),
            Error::SlotInitFailed(c) => Some(c),
            Error::PublishFailed(c) => Some(c),
            Error::DirectoryCreateFailed(c) => Some(c),
        }
    }

    /// The status code of the external service, where the error carries one.
    #[verifier::when_used_as_spec(spec_code)]
    pub fn code(self) -> (r: Option<i32>)
        ensures
            r == self.spec_code(),
    {
        match self {
            Error::CapacityExceeded => None,
            Error::RangeConversionError => None,
            Error::AllocationFailed(c) => Some(c),
            Error::SlotInitFailed(c) => Some(c),
            Error::PublishFailed(c) => Some(c),
            Error::DirectoryCreateFailed(c) => Some(c),
        }
    }
}

} // verus!
