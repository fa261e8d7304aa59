//! Acquisition of a region from a Windows IVSHMEM device: reading the interface
//! data of enumerated devices, choosing one, and checking the driver's answers
//! to the size query and to the mapping request.
use vstd::prelude::*;
use crate::device::IvshmemDevice;
use crate::error::WindowsError;

pub mod winerror;

verus! {

/// Hardware interface class of IVSHMEM devices, DF576976-569D-4672-95A0-F57E4EA0B210.
pub const IVSHMEM_CLASS_GUID: u128 = 0xDF576976_569D_4672_95A0_F57E4EA0B210u128;

/// Driver control code that asks for the size of the shared memory.
pub const REQUEST_SIZE_CODE: u32 = (0x22u32 << 16u32) | (0x801u32 << 2u32);

/// Driver control code that asks for the shared memory to be mapped into the process.
pub const REQUEST_MMAP_CODE: u32 = (0x22u32 << 16u32) | (0x802u32 << 2u32);

/// System error code the mapping request fails with when another process holds the device.
pub const ERROR_DEVICE_ALREADY_ATTACHED: u32 = 548;

/// The fields of the system's device information record.
#[derive(Debug, Clone, Copy, PartialEq, Eq, Structural)]
pub struct DeviceInfoData {
    pub cb_size: u32,
    pub class_guid: u128,
    pub dev_inst: u32,
    pub reserved: usize,
}

/// Little-endian 16-bit units read from a byte sequence of even length.
pub open spec fn le_units(bytes: Seq<u8>) -> Seq<u16> {
    Seq::new(
        bytes.len() / 2,
        |i: int| (bytes[2 * i] as int + 256 * (bytes[2 * i + 1] as int)) as u16,
    )
}

/// Whether a device interface detail record can be read: a four-byte size
/// field followed by a whole number of 16-bit units.
pub open spec fn detail_readable(detail: Seq<u8>) -> bool {
    detail.len() >= 4 && (detail.len() - 4) % 2 == 0
}

/// One enumerated IVSHMEM device, before it is opened.
pub struct IvshmemDescriptor {
    path_bytes: Vec<u16>,
    info: isize,
    data: DeviceInfoData,
}

impl IvshmemDescriptor {
    /// The device interface path, in 16-bit units, as the system reported it.
    pub closed spec fn path(&self) -> Seq<u16> {
        self.path_bytes@
    }

    /// The handle of the enumeration that found the device.
    pub closed spec fn info_set(&self) -> isize {
        self.info
    }

    /// The device information record of the device.
    pub closed spec fn info_data(&self) -> DeviceInfoData {
        self.data
    }

    /// Reads the interface path out of a device interface detail record.
    pub fn load(device_info_set: isize, device_info_data: DeviceInfoData, detail: &[u8]) -> (r:
        Result<Self, WindowsError>)
        requires
            device_info_set > 0,
            device_info_data.cb_size > 0,
        ensures
            !detail_readable(detail@) ==> r == Err::<Self, WindowsError>(
                WindowsError::EnumerationFailed,
            ),
            detail_readable(detail@) ==> (r matches Ok(d) && d.path() == le_units(
                detail@.subrange(4, detail@.len() as int),
            ) && d.info_set() == device_info_set && d.info_data() == device_info_data),
    {
        let len = detail.len();
        if len < 4 || (len - 4) % 2 != 0 {
            return Err(WindowsError::EnumerationFailed);
        }
        let ghost body = detail@.subrange(4, len as int);
        let mut path_bytes: Vec<u16> = Vec::new();
        let mut j: usize = 4;
        while j < len
            invariant
                4 <= j <= len,
                (j - 4) % 2 == 0,
                (len - 4) % 2 == 0,
                len == detail@.len(),
                body == detail@.subrange(4, len as int),
                path_bytes@ == le_units(body).subrange(0, (j - 4) / 2),
            decreases len - j,
        {
            let unit = (detail[j] as u16) + 256u16 * (detail[j + 1] as u16);
            proof {
                let i = (j - 4) / 2;
                assert(2 * i == j - 4);
                assert(body[2 * i] == detail@[j as int]);
                assert(body[2 * i + 1] == detail@[j + 1]);
            }
            path_bytes.push(unit);
            j = j + 2;
            proof {
                assert(path_bytes@ =~= le_units(body).subrange(0, (j - 4) / 2));
            }
        }
        proof {
            assert(le_units(body).subrange(0, (len - 4) / 2) =~= le_units(body));
        }
        Ok(IvshmemDescriptor { path_bytes, info: device_info_set, data: device_info_data })
    }

    /// The device interface path, in 16-bit units.
    pub fn pcwstr(&self) -> (r: &[u16])
        ensures
            r@ == self.path(),
    {
        self.path_bytes.as_slice()
    }

    /// The handle of the enumeration that found the device.
    pub fn info(&self) -> (r: &isize)
        ensures
            *r == self.info_set(),
    {
        &self.info
    }

    /// The device information record of the device.
    pub fn data(&self) -> (r: &DeviceInfoData)
        ensures
            *r == self.info_data(),
    {
        &self.data
    }
}

/// Hands the enumerated devices to `picker`, which removes one and returns it.
/// With no device at all, fails with `NoDeviceFound` without calling `picker`:
/// its precondition is granted only for a non-empty list, so a picker that
/// requires one is never called on an empty list.
pub fn pick_ivshmem_device<F>(choices: Vec<IvshmemDescriptor>, picker: F) -> (r: Result<
    IvshmemDescriptor,
    WindowsError,
>) where F: FnOnce(Vec<IvshmemDescriptor>) -> IvshmemDescriptor
    requires
        choices@.len() > 0 ==> picker.requires((choices,)),
    ensures
        choices@.len() == 0 ==> r == Err::<IvshmemDescriptor, WindowsError>(
            WindowsError::NoDeviceFound,
        ),
        choices@.len() > 0 ==> (r matches Ok(d) && picker.ensures((choices,), d)),
{
    if choices.len() == 0 {
        Err(WindowsError::NoDeviceFound)
    } else {
        Ok(picker(choices))
    }
}

/// The first failed load among the enumerated devices, in enumeration order.
pub open spec fn first_failure(outcomes: Seq<Result<IvshmemDescriptor, WindowsError>>) -> Option<
    WindowsError,
>
    decreases outcomes.len(),
{
    if outcomes.len() == 0 {
        None
    } else {
        match outcomes[0] {
            Err(e) => Some(e),
            Ok(_) => first_failure(outcomes.drop_first()),
        }
    }
}

/// The descriptors of loads that all succeeded, in enumeration order.
pub open spec fn loaded(outcomes: Seq<Result<IvshmemDescriptor, WindowsError>>) -> Seq<
    IvshmemDescriptor,
> {
    outcomes.map_values(|o: Result<IvshmemDescriptor, WindowsError>| o->Ok_0)
}

/// The descriptors of the enumerated devices, or the first failed load.
pub fn collect_loaded(outcomes: Vec<Result<IvshmemDescriptor, WindowsError>>) -> (r: Result<
    Vec<IvshmemDescriptor>,
    WindowsError,
>)
    ensures
        first_failure(outcomes@) matches Some(e) ==> r == Err::<Vec<IvshmemDescriptor>, WindowsError>(e),
        first_failure(outcomes@) is None ==> (r matches Ok(v) && v@ == loaded(outcomes@)),
{
    let ghost all = outcomes@;
    let mut rest = outcomes;
    let mut choices: Vec<IvshmemDescriptor> = Vec::new();
    while rest.len() > 0
        invariant
            all == outcomes@,
            first_failure(all) == first_failure(rest@),
            first_failure(rest@) is None ==> loaded(all) == choices@ + loaded(rest@),
        decreases rest@.len(),
    {
        let ghost before = rest@;
        let outcome = rest.remove(0);
        proof {
            assert(rest@ =~= before.drop_first());
        }
        match outcome {
            Ok(d) => {
                proof {
                    assert(first_failure(before) == first_failure(before.drop_first()));
                    if first_failure(rest@) is None {
                        assert(loaded(before) =~= seq![d] + loaded(rest@));
                        assert(loaded(all) =~= choices@.push(d) + loaded(rest@));
                    }
                }
                choices.push(d);
            },
            Err(e) => {
                assert(first_failure(before) == Some(e));
                return Err(e);
            },
        }
    }
    proof {
        assert(loaded(rest@) =~= Seq::<IvshmemDescriptor>::empty());
        assert(choices@ =~= loaded(all));
    }
    Ok(choices)
}

/// Picks a device from the outcomes of loading every enumerated device. The
/// first failed load ends the pick with its error; with no device at all the
/// pick fails with `NoDeviceFound`. In both cases `picker` is not called.
pub fn pick_loaded<F>(outcomes: Vec<Result<IvshmemDescriptor, WindowsError>>, picker: F) -> (r:
    Result<IvshmemDescriptor, WindowsError>) where
    F: FnOnce(Vec<IvshmemDescriptor>) -> IvshmemDescriptor,

    requires
        forall|v: Vec<IvshmemDescriptor>| v@.len() > 0 ==> #[trigger] picker.requires((v,)),
    ensures
        first_failure(outcomes@) matches Some(e) ==> r == Err::<IvshmemDescriptor, WindowsError>(e),
        first_failure(outcomes@) is None && outcomes@.len() == 0 ==> r == Err::<
            IvshmemDescriptor,
            WindowsError,
        >(WindowsError::NoDeviceFound),
        first_failure(outcomes@) is None && outcomes@.len() > 0 ==> (r matches Ok(d) && exists|
            v: Vec<IvshmemDescriptor>,
        | v@ == loaded(outcomes@) && #[trigger] picker.ensures((v,), d)),
{
    match collect_loaded(outcomes) {
        Err(e) => Err(e),
        Ok(choices) => pick_ivshmem_device(choices, picker),
    }
}

/// The next step of opening a device: what to ask the system or driver, or
/// how opening ended.
#[derive(Debug, Clone, Copy, PartialEq, Eq, Structural)]
pub enum OpenStage {
    /// Open a read/write handle on the device path.
    OpenHandle,
    /// Ask the driver for the size of the shared memory.
    QuerySize,
    /// Ask the driver to map `size` bytes into the process.
    RequestMapping { size: u64 },
    /// Check the mapping against `size` and build the region (`upgrade`).
    Upgrade { size: u64 },
    /// Opening failed.
    Failed { error: WindowsError },
}

/// What the system or the driver answered to the last request.
#[derive(Debug, Clone, Copy, PartialEq, Eq, Structural)]
pub enum DriverAnswer {
    /// Outcome of opening the handle, and the thread's last error code after it.
    Handle { valid: bool, last_error: winerror::WindowsError },
    /// Outcome of the size query, and the size it reported.
    Size { succeeded: bool, size: u64 },
    /// Outcome of the mapping request, and the error code when it failed.
    Mapping { succeeded: bool, error_code: u32 },
}

/// The stage after `answer` at `stage`. The handle comes first, then the size
/// query, then the mapping request, then `upgrade`; a failure ends the sequence,
/// and an answer that does not belong to the stage changes nothing.
pub open spec fn open_next(stage: OpenStage, answer: DriverAnswer) -> OpenStage {
    match (stage, answer) {
        (OpenStage::OpenHandle, DriverAnswer::Handle { valid, last_error }) => if valid
            && last_error.0 == 0 {
            OpenStage::QuerySize
        } else {
            OpenStage::Failed { error: WindowsError::OpenFailed }
        },
        (OpenStage::QuerySize, DriverAnswer::Size { succeeded, size }) => if succeeded && size > 0 {
            OpenStage::RequestMapping { size }
        } else {
            OpenStage::Failed { error: WindowsError::MapFailed }
        },
        (OpenStage::RequestMapping { size }, DriverAnswer::Mapping { succeeded, error_code }) => if succeeded {
            OpenStage::Upgrade { size }
        } else if error_code == ERROR_DEVICE_ALREADY_ATTACHED {
            OpenStage::Failed { error: WindowsError::AlreadyAttached }
        } else {
            OpenStage::Failed { error: WindowsError::MapFailed }
        },
        _ => stage,
    }
}

/// Advances the opening of a device by the answer to its last request.
pub fn open_step(stage: OpenStage, answer: DriverAnswer) -> (r: OpenStage)
    ensures
        r == open_next(stage, answer),
{
    match (stage, answer) {
        (OpenStage::OpenHandle, DriverAnswer::Handle { valid, last_error }) => {
            match check_handle(valid, last_error) {
                Ok(()) => OpenStage::QuerySize,
                Err(error) => OpenStage::Failed { error },
            }
        },
        (OpenStage::QuerySize, DriverAnswer::Size { succeeded, size }) => {
            match check_size_query(succeeded, size) {
                Ok(size) => OpenStage::RequestMapping { size },
                Err(error) => OpenStage::Failed { error },
            }
        },
        (OpenStage::RequestMapping { size }, DriverAnswer::Mapping { succeeded, error_code }) => {
            match check_mapping(succeeded, error_code) {
                Ok(()) => OpenStage::Upgrade { size },
                Err(error) => OpenStage::Failed { error },
            }
        },
        _ => stage,
    }
}

/// A failed or empty size query ends the opening: the mapping is never requested,
/// and no later answer moves a failed opening on.
pub proof fn lemma_failed_size_query_never_maps(succeeded: bool, size: u64, later: DriverAnswer)
    requires
        !succeeded || size == 0,
    ensures
        open_next(OpenStage::QuerySize, DriverAnswer::Size { succeeded, size }) == (OpenStage::Failed {
            error: WindowsError::MapFailed,
        }),
        open_next(OpenStage::Failed { error: WindowsError::MapFailed }, later) == (OpenStage::Failed {
            error: WindowsError::MapFailed,
        }),
{
}

/// Checks the handle opened on a device path: the call must have produced a
/// valid handle and left no error code behind.
pub fn check_handle(valid_handle: bool, last_error: winerror::WindowsError) -> (r: Result<(), WindowsError>)
    ensures
        r == if valid_handle && last_error.0 == 0 {
            Ok::<(), WindowsError>(())
        } else {
            Err(WindowsError::OpenFailed)
        },
{
    match last_error.check() {
        Ok(()) => {
            if valid_handle {
                Ok(())
            } else {
                Err(WindowsError::OpenFailed)
            }
        },
        Err(_) => Err(WindowsError::OpenFailed),
    }
}

/// Checks the answer to the size query: it must have succeeded with a nonzero size.
pub fn check_size_query(succeeded: bool, size: u64) -> (r: Result<u64, WindowsError>)
    ensures
        r == if succeeded && size > 0 {
            Ok::<u64, WindowsError>(size)
        } else {
            Err(WindowsError::MapFailed)
        },
{
    if succeeded && size > 0 {
        Ok(size)
    } else {
        Err(WindowsError::MapFailed)
    }
}

/// Checks the answer to the mapping request, telling a device held by another
/// process apart from any other failure.
pub fn check_mapping(succeeded: bool, error_code: u32) -> (r: Result<(), WindowsError>)
    ensures
        r == if succeeded {
            Ok::<(), WindowsError>(())
        } else if error_code == ERROR_DEVICE_ALREADY_ATTACHED {
            Err(WindowsError::AlreadyAttached)
        } else {
            Err(WindowsError::MapFailed)
        },
{
    if succeeded {
        Ok(())
    } else if error_code == ERROR_DEVICE_ALREADY_ATTACHED {
        Err(WindowsError::AlreadyAttached)
    } else {
        Err(WindowsError::MapFailed)
    }
}

/// The driver's answer to the mapping request.
#[derive(Debug, Clone, Copy, PartialEq, Eq, Structural)]
pub struct IvshmemMemoryMapResponse {
    pub peer_id: u64,
    pub size: u64,
    pub memory_address: usize,
    pub vectors: u64,
}

impl IvshmemMemoryMapResponse {
    /// An empty answer, for the driver to fill in.
    pub fn new() -> (r: Self)
        ensures
            r == (IvshmemMemoryMapResponse { peer_id: 0, size: 0, memory_address: 0, vectors: 0 }),
    {
        IvshmemMemoryMapResponse { peer_id: 0, size: 0, memory_address: 0, vectors: 0 }
    }

    /// The mapped region, once its size is checked against the size query.
    pub fn upgrade(self, ivshmem_size: u64, memory: &'static mut [u8]) -> (r: Result<
        WindowsMemoryMap,
        WindowsError,
    >)
        requires
            old(memory)@.len() == self.size,
        ensures
            self.size != ivshmem_size ==> r == Err::<WindowsMemoryMap, WindowsError>(
                WindowsError::SizeMismatch,
            ),
            self.size == ivshmem_size ==> (r matches Ok(m) && m.peer_id() == self.peer_id
                && m.size() == self.size && m.vectors() == self.vectors && m.bytes()
                == old(memory)@),
    {
        if self.size != ivshmem_size {
            return Err(WindowsError::SizeMismatch);
        }
        Ok(WindowsMemoryMap::from_parts(self.peer_id, self.size, self.vectors, memory))
    }
}

/// A region mapped by the IVSHMEM driver, with the driver's peer id and vector count.
pub struct WindowsMemoryMap {
    peer_id: u64,
    size: u64,
    vectors: u64,
    ptr: &'static mut [u8],
}

impl WindowsMemoryMap {
    /// The peer id reported by the driver.
    pub closed spec fn peer_id(&self) -> u64 {
        self.peer_id
    }

    /// The size reported by the driver.
    pub closed spec fn size(&self) -> u64 {
        self.size
    }

    /// The interrupt vector count reported by the driver.
    pub closed spec fn vectors(&self) -> u64 {
        self.vectors
    }

    /// The bytes of the mapping.
    pub closed spec fn bytes(&self) -> Seq<u8> {
        self.ptr@
    }

    /// A mapping from its parts.
    pub fn from_parts(peer_id: u64, size: u64, vectors: u64, ptr: &'static mut [u8]) -> (r: Self)
        ensures
            r.peer_id() == peer_id,
            r.size() == size,
            r.vectors() == vectors,
            r.bytes() == old(ptr)@,
    {
        WindowsMemoryMap { peer_id, size, vectors, ptr }
    }

    /// A live view of the mapped bytes.
    pub fn ptr(&mut self) -> (r: &mut [u8])
        ensures
            r@ == old(self).bytes(),
            final(self).bytes() == final(r)@,
            final(self).peer_id() == old(self).peer_id(),
            final(self).size() == old(self).size(),
            final(self).vectors() == old(self).vectors(),
    {
        self.ptr
    }
}

/// A device over the mapped region, with `worker_threads` participants in bulk copies.
pub fn ivshmem_device(map: WindowsMemoryMap, worker_threads: usize) -> (r: IvshmemDevice)
    requires
        worker_threads > 0,
    ensures
        r.wf(),
        r.bytes() == map.bytes(),
        r.workers() == worker_threads,
        r.job_state() == crate::device::Job::Release,
{
    IvshmemDevice::with_memory(map.ptr, worker_threads)
}

} // verus!
