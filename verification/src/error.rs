//! The failures that an operation on the socket, or a call to the registry,
//! can end in.

use vstd::prelude::*;

verus! {

/// How an operation on the handle failed.
#[derive(Clone, Copy, Debug, PartialEq, Eq, Structural)]
pub enum IoError {
    /// The handle is not ready. The caller waits for the next readiness
    /// notification and then tries again.
    WouldBlock,
    /// The call was interrupted before it did anything.
    Interrupted,
    /// Any other failure that the operating system reported, with its code.
    Os(i32),
}

/// How the registry answered a call that it did not consent to. The classes
/// are those of the registry's answer: the library makes none of these errors
/// itself, and hands each on as it came.
#[derive(Clone, Copy, Debug, PartialEq, Eq, Structural)]
pub enum RegistryError {
    /// The registry holds the handle already, and was asked to register it.
    AlreadyRegistered,
    /// The registry does not hold the handle, and was asked to change or end
    /// its registration.
    NotRegistered,
    /// Any other refusal, with the code that the registry gave.
    Refused(i32),
}

impl IoError {
    /// True of the one failure that a caller never sees, because the operation
    /// is tried again at once.
    pub open spec fn is_transient(self) -> bool {
        self is Interrupted
    }

    /// The code of the operating system, where the failure carries one.
    pub open spec fn spec_os_code(self) -> Option<i32> {
        match self {
            IoError::Os(code) => Some(code),
            _ => None,
        }
    }

    /// Whether the handle was merely not ready.
    pub fn is_would_block(&self) -> (b: bool)
        ensures
            b == (*self is WouldBlock),
    {
        match self {
            IoError::WouldBlock => true,
            _ => false,
        }
    }

    /// Whether the call was interrupted.
    pub fn is_interrupted(&self) -> (b: bool)
        ensures
            b == self.is_transient(),
    {
        match self {
            IoError::Interrupted => true,
            _ => false,
        }
    }

    /// The code of the operating system, where the failure carries one.
    pub fn os_code(&self) -> (code: Option<i32>)
        ensures
            code == self.spec_os_code(),
    {
        match self {
            IoError::Os(code) => Some(*code),
            _ => None,
        }
    }
}

} // verus!
