//! Shared memory of an IVSHMEM device as a flat byte buffer, with a bulk write
//! that splits the work between several participants.
use vstd::prelude::*;
use crate::error::WindowsError;
use crate::windows::IvshmemDescriptor;

pub mod device;
pub mod error;
pub mod linux;
pub mod partition;
pub mod windows;

verus! {

/// Lets `picker` choose one of the enumerated Windows IVSHMEM devices. `picker`
/// removes the chosen device from the list it is given, which is never empty;
/// with no device at all the call fails with `NoDeviceFound` and `picker` is not
/// called: its precondition is granted only for a non-empty list.
pub fn pick_windows_ivshmem_device<F>(choices: Vec<IvshmemDescriptor>, picker: F) -> (r: Result<
    IvshmemDescriptor,
    WindowsError,
>) where F: FnOnce(Vec<IvshmemDescriptor>) -> IvshmemDescriptor
    requires
        choices@.len() > 0 ==> picker.requires((choices,)),
    ensures
        choices@.len() == 0 ==> r == Err::<IvshmemDescriptor, WindowsError>(
            WindowsError::NoDeviceFound,
        ),
        choices@.len() > 0 ==> (r matches Ok(d) && picker.ensures((choices,), d)),
{
    windows::pick_ivshmem_device(choices, picker)
}

} // verus!
