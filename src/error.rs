//! The error kinds of acquisition and of bulk writes.
use vstd::prelude::*;

verus! {

/// Why a Linux shared-memory file could not become a region.
#[derive(Debug, Clone, Copy, PartialEq, Eq, Structural)]
pub enum UnixError {
    /// The file could not be opened for reading and writing.
    OpenFailed,
    /// The file's length could not be measured or the mapping failed.
    MapFailed,
}

/// Why no region could be had from a Windows IVSHMEM device.
#[derive(Debug, Clone, Copy, PartialEq, Eq, Structural)]
pub enum WindowsError {
    /// No handle could be opened on the device path.
    OpenFailed,
    /// The size query or the mapping request failed, or reported zero bytes.
    MapFailed,
    /// The device is already mapped by another process.
    AlreadyAttached,
    /// Enumeration found no IVSHMEM device.
    NoDeviceFound,
    /// The mapping reported another size than the size query.
    SizeMismatch,
    /// The interface data of an enumerated device could not be read.
    EnumerationFailed,
}

/// Why a bulk write left the region untouched.
#[derive(Debug, Clone, Copy, PartialEq, Eq, Structural)]
pub enum WriteError {
    /// The source buffer is not as long as the region.
    SizeMismatch,
    /// The workers have been told to exit.
    WorkersExited,
}

} // verus!
