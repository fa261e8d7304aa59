//! Acquisition of a region from a shared-memory file: the checks on what the
//! operating system answered while opening, measuring and mapping the file.
use vstd::prelude::*;
use crate::device::IvshmemDevice;
use crate::error::UnixError;

verus! {

/// A region mapped from a shared-memory file.
pub struct UnixMemoryMap {
    memory: &'static mut [u8],
}

impl UnixMemoryMap {
    /// The bytes of the mapping.
    pub closed spec fn bytes(&self) -> Seq<u8> {
        self.memory@
    }

    /// Wraps the outcome of the mapping call: nothing mapped is a failed map.
    pub fn new(mapping: Option<&'static mut [u8]>) -> (r: Result<Self, UnixError>)
        ensures
            mapping is None ==> r == Err::<Self, UnixError>(UnixError::MapFailed),
            mapping is Some ==> (r matches Ok(m) && m.bytes() == mapping->0@),
    {
        match mapping {
            Some(memory) => Ok(UnixMemoryMap { memory }),
            None => Err(UnixError::MapFailed),
        }
    }

    /// Length of the mapping in bytes.
    pub fn len(&self) -> (r: usize)
        ensures
            r == self.bytes().len(),
    {
        self.memory.len()
    }
}

/// Checks the descriptor returned by opening the file: a negative one means the
/// file could not be opened.
pub fn check_open(file_descriptor: i32) -> (r: Result<i32, UnixError>)
    ensures
        r == if file_descriptor < 0 {
            Err::<i32, UnixError>(UnixError::OpenFailed)
        } else {
            Ok(file_descriptor)
        },
{
    if file_descriptor < 0 {
        Err(UnixError::OpenFailed)
    } else {
        Ok(file_descriptor)
    }
}

/// The region length from the end-of-file offset: a negative offset, or one that
/// does not fit in memory, means the file cannot be mapped.
pub fn region_length(end_offset: i64) -> (r: Result<usize, UnixError>)
    ensures
        r == if end_offset < 0 || end_offset > usize::MAX {
            Err::<usize, UnixError>(UnixError::MapFailed)
        } else {
            Ok(end_offset as usize)
        },
{
    if end_offset < 0 || end_offset as u64 > usize::MAX as u64 {
        Err(UnixError::MapFailed)
    } else {
        Ok(end_offset as usize)
    }
}

/// A device over the mapped file, with `worker_threads` participants in bulk copies.
pub fn ivshmem_device(map: UnixMemoryMap, worker_threads: usize) -> (r: IvshmemDevice)
    requires
        worker_threads > 0,
    ensures
        r.wf(),
        r.bytes() == map.bytes(),
        r.workers() == worker_threads,
        r.job_state() == crate::device::Job::Release,
{
    IvshmemDevice::with_memory(map.memory, worker_threads)
}

} // verus!
