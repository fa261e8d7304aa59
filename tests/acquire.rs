use ivshmemmap::error::{UnixError, WindowsError};
use ivshmemmap::linux::{check_open, ivshmem_device, region_length, UnixMemoryMap};
use ivshmemmap::pick_windows_ivshmem_device;
use ivshmemmap::windows::winerror;
use ivshmemmap::windows::{
    collect_loaded, open_step, pick_loaded, DriverAnswer, OpenStage,
    check_handle, check_mapping, check_size_query, DeviceInfoData, IvshmemDescriptor,
    IvshmemMemoryMapResponse, WindowsMemoryMap, IVSHMEM_CLASS_GUID, REQUEST_MMAP_CODE,
    REQUEST_SIZE_CODE,
};

fn info_data() -> DeviceInfoData {
    DeviceInfoData { cb_size: 32, class_guid: IVSHMEM_CLASS_GUID, dev_inst: 1, reserved: 0 }
}

fn descriptor(path: &str) -> IvshmemDescriptor {
    let mut detail = vec![8u8, 0, 0, 0];
    for unit in path.encode_utf16() {
        detail.extend_from_slice(&unit.to_le_bytes());
    }
    IvshmemDescriptor::load(7, info_data(), &detail).unwrap()
}

#[test]
fn failed_open_is_open_failed() {
    assert_eq!(check_open(-1), Err(UnixError::OpenFailed));
    assert_eq!(check_open(3), Ok(3));
}

#[test]
fn negative_length_is_map_failed() {
    assert_eq!(region_length(-1), Err(UnixError::MapFailed));
    assert_eq!(region_length(4096), Ok(4096));
    assert_eq!(region_length(0), Ok(0));
}

#[test]
fn failed_mapping_is_map_failed() {
    assert!(matches!(UnixMemoryMap::new(None), Err(UnixError::MapFailed)));
    let memory: &'static mut [u8] = Box::leak(vec![3u8; 10].into_boxed_slice());
    let map = UnixMemoryMap::new(Some(memory)).unwrap();
    assert_eq!(map.len(), 10);
    let mut device = ivshmem_device(map, 2);
    assert_eq!(device.direct_view(), &[3u8; 10]);
}

#[test]
fn no_device_found_without_calling_picker() {
    let r = pick_windows_ivshmem_device(Vec::new(), |_: Vec<IvshmemDescriptor>| -> IvshmemDescriptor {
        panic!("picker called without candidates")
    });
    assert!(matches!(r, Err(WindowsError::NoDeviceFound)));
}

#[test]
fn picker_chooses_among_candidates() {
    let choices = vec![descriptor("a"), descriptor("bc")];
    let r = pick_windows_ivshmem_device(choices, |mut d: Vec<IvshmemDescriptor>| {
        assert_eq!(d.len(), 2);
        d.remove(1)
    });
    let chosen = r.unwrap();
    assert_eq!(chosen.pcwstr(), &[b'b' as u16, b'c' as u16]);
}

#[test]
fn load_reads_little_endian_path() {
    let detail = [8u8, 0, 0, 0, 0x5c, 0x00, 0x3f, 0x04, 0x00, 0x00];
    let d = IvshmemDescriptor::load(5, info_data(), &detail).unwrap();
    assert_eq!(d.pcwstr(), &[0x005c, 0x043f, 0x0000]);
    assert_eq!(*d.info(), 5);
    assert_eq!(*d.data(), info_data());
}

#[test]
fn load_refuses_truncated_detail() {
    assert!(matches!(
        IvshmemDescriptor::load(5, info_data(), &[8, 0, 0]),
        Err(WindowsError::EnumerationFailed)
    ));
    assert!(matches!(
        IvshmemDescriptor::load(5, info_data(), &[8, 0, 0, 0, 1]),
        Err(WindowsError::EnumerationFailed)
    ));
    let d = IvshmemDescriptor::load(5, info_data(), &[8, 0, 0, 0]).unwrap();
    assert!(d.pcwstr().is_empty());
}

#[test]
fn open_checks() {
    assert_eq!(check_handle(true, winerror::WindowsError(0)), Ok(()));
    assert_eq!(check_handle(false, winerror::WindowsError(0)), Err(WindowsError::OpenFailed));
    assert_eq!(check_handle(true, winerror::WindowsError(5)), Err(WindowsError::OpenFailed));
    assert_eq!(check_size_query(true, 4096), Ok(4096));
    assert_eq!(check_size_query(true, 0), Err(WindowsError::MapFailed));
    assert_eq!(check_size_query(false, 4096), Err(WindowsError::MapFailed));
    assert_eq!(check_mapping(true, 548), Ok(()));
    assert_eq!(check_mapping(false, 548), Err(WindowsError::AlreadyAttached));
    assert_eq!(check_mapping(false, 31), Err(WindowsError::MapFailed));
}

#[test]
fn control_codes() {
    assert_eq!(REQUEST_SIZE_CODE, 0x0022_2004);
    assert_eq!(REQUEST_MMAP_CODE, 0x0022_2008);
    assert_eq!(IVSHMEM_CLASS_GUID, 296871711915466174647497163522302849552u128);
}

#[test]
fn upgrade_checks_size() {
    let response = IvshmemMemoryMapResponse { peer_id: 2, size: 8, memory_address: 0, vectors: 1 };
    let memory: &'static mut [u8] = Box::leak(vec![0u8; 8].into_boxed_slice());
    assert!(matches!(response.upgrade(16, memory), Err(WindowsError::SizeMismatch)));
    let memory: &'static mut [u8] = Box::leak(vec![1u8; 8].into_boxed_slice());
    let mut map = response.upgrade(8, memory).unwrap();
    assert_eq!(map.ptr(), &[1u8; 8]);
    let empty = IvshmemMemoryMapResponse::new();
    assert_eq!(empty.size, 0);
    let memory: &'static mut [u8] = Box::leak(vec![6u8; 3].into_boxed_slice());
    let map = WindowsMemoryMap::from_parts(1, 3, 0, memory);
    let mut device = ivshmemmap::windows::ivshmem_device(map, 1);
    assert_eq!(device.direct_view(), &[6u8; 3]);
}

#[test]
fn winerror_codes() {
    assert!(!winerror::WindowsError(0).is_error());
    assert!(winerror::WindowsError(5).is_error());
    assert_eq!(winerror::WindowsError(0).check(), Ok(()));
    assert_eq!(winerror::WindowsError(5).check(), Err(winerror::WindowsError(5)));
}

#[test]
fn failed_load_ends_pick_without_picker() {
    let outcomes = vec![Ok(descriptor("a")), Err(WindowsError::EnumerationFailed), Ok(descriptor("b"))];
    let r = pick_loaded(outcomes, |_: Vec<IvshmemDescriptor>| -> IvshmemDescriptor {
        panic!("picker called after a failed load")
    });
    assert!(matches!(r, Err(WindowsError::EnumerationFailed)));
}

#[test]
fn pick_loaded_without_devices() {
    let r = pick_loaded(Vec::new(), |_: Vec<IvshmemDescriptor>| -> IvshmemDescriptor {
        panic!("picker called without candidates")
    });
    assert!(matches!(r, Err(WindowsError::NoDeviceFound)));
}

#[test]
fn pick_loaded_hands_over_all_in_order() {
    let outcomes = vec![Ok(descriptor("x")), Ok(descriptor("yz"))];
    let chosen = pick_loaded(outcomes, |mut d: Vec<IvshmemDescriptor>| {
        assert_eq!(d.len(), 2);
        d.remove(0)
    })
    .unwrap();
    assert_eq!(chosen.pcwstr(), &[b'x' as u16]);
    let collected = collect_loaded(vec![Ok(descriptor("p")), Ok(descriptor("q"))]).unwrap();
    assert_eq!(collected[1].pcwstr(), &[b'q' as u16]);
}

#[test]
fn open_runs_in_order() {
    let ok_handle = DriverAnswer::Handle { valid: true, last_error: winerror::WindowsError(0) };
    let mut stage = OpenStage::OpenHandle;
    // A size answer before the handle changes nothing.
    assert_eq!(open_step(stage, DriverAnswer::Size { succeeded: true, size: 64 }), stage);
    stage = open_step(stage, ok_handle);
    assert_eq!(stage, OpenStage::QuerySize);
    stage = open_step(stage, DriverAnswer::Size { succeeded: true, size: 64 });
    assert_eq!(stage, OpenStage::RequestMapping { size: 64 });
    stage = open_step(stage, DriverAnswer::Mapping { succeeded: true, error_code: 0 });
    assert_eq!(stage, OpenStage::Upgrade { size: 64 });
}

#[test]
fn open_failures_end_the_sequence() {
    assert_eq!(
        open_step(OpenStage::OpenHandle, DriverAnswer::Handle { valid: false, last_error: winerror::WindowsError(0) }),
        OpenStage::Failed { error: WindowsError::OpenFailed }
    );
    assert_eq!(
        open_step(OpenStage::OpenHandle, DriverAnswer::Handle { valid: true, last_error: winerror::WindowsError(2) }),
        OpenStage::Failed { error: WindowsError::OpenFailed }
    );
    let failed = open_step(OpenStage::QuerySize, DriverAnswer::Size { succeeded: true, size: 0 });
    assert_eq!(failed, OpenStage::Failed { error: WindowsError::MapFailed });
    assert_eq!(open_step(failed, DriverAnswer::Mapping { succeeded: true, error_code: 0 }), failed);
    assert_eq!(
        open_step(OpenStage::RequestMapping { size: 8 }, DriverAnswer::Mapping { succeeded: false, error_code: 548 }),
        OpenStage::Failed { error: WindowsError::AlreadyAttached }
    );
    assert_eq!(
        open_step(OpenStage::RequestMapping { size: 8 }, DriverAnswer::Mapping { succeeded: false, error_code: 1 }),
        OpenStage::Failed { error: WindowsError::MapFailed }
    );
}
