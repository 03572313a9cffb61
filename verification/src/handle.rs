//! Raw handles of the operating system.

use vstd::prelude::*;

verus! {

/// The raw value by which the operating system knows a socket: a file
/// descriptor on POSIX, a socket handle on Windows. It is a number only, and
/// owns nothing: the one owner of the socket behind it is the
/// [`IoSource`](crate::source::IoSource) that holds it.
#[derive(Clone, Copy, Debug, PartialEq, Eq, Structural, Hash)]
pub enum RawHandle {
    /// A POSIX file descriptor.
    Fd(i32),
    /// A Windows socket handle.
    Socket(u64),
}

} // verus!
