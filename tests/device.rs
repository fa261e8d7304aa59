use ivshmemmap::device::{copy_range, IvshmemDevice, Job};
use ivshmemmap::error::WriteError;

fn region(bytes: Vec<u8>) -> &'static mut [u8] {
    Box::leak(bytes.into_boxed_slice())
}

fn pseudo_random(len: usize, seed: u32) -> Vec<u8> {
    let mut x = seed.wrapping_mul(2654435761).wrapping_add(1);
    (0..len)
        .map(|_| {
            x ^= x << 13;
            x ^= x >> 17;
            x ^= x << 5;
            (x >> 24) as u8
        })
        .collect()
}

#[test]
fn fill_sets_every_byte() {
    for len in [0usize, 1, 2, 17] {
        for byte in [0u8, 1, 127, 255] {
            let mut device = IvshmemDevice::with_memory(region(vec![9; len]), 3);
            device.set_all_bytes(byte);
            let view = device.direct_view();
            assert_eq!(view.len(), len);
            assert!(view.iter().all(|&b| b == byte));
        }
    }
}

#[test]
fn write_round_trip() {
    for workers in [1usize, 2, 3, 4, 8] {
        for len in [0usize, 1, 64, 100, 4096] {
            if !(len < workers || len % workers < len / workers) {
                continue;
            }
            let buffer = pseudo_random(len, (workers * 1000 + len) as u32);
            let mut device = IvshmemDevice::with_memory(region(vec![0; len]), workers);
            assert_eq!(device.write_to_all(&buffer), Ok(()));
            assert_eq!(device.direct_view().to_vec(), buffer);
            assert_eq!(device.job(), Job::Release);
        }
    }
}

#[test]
fn write_leaves_uncovered_tail() {
    let mut device = IvshmemDevice::with_memory(region(vec![0; 5]), 3);
    assert_eq!(device.write_to_all(&[1, 2, 3, 4, 5]), Ok(()));
    assert_eq!(device.as_slice(), &[1, 2, 3, 0, 0]);
}

#[test]
fn size_mismatch_writes_nothing() {
    let mut device = IvshmemDevice::with_memory(region(vec![7; 8]), 2);
    assert_eq!(device.write_to_all(&[1; 7]), Err(WriteError::SizeMismatch));
    assert_eq!(device.write_to_all(&[1; 9]), Err(WriteError::SizeMismatch));
    assert_eq!(device.write_to_all(&[]), Err(WriteError::SizeMismatch));
    assert_eq!(device.as_slice(), &[7; 8]);
}

#[test]
fn no_write_after_exit() {
    let mut device = IvshmemDevice::with_memory(region(vec![4; 6]), 3);
    device.exit_workers();
    device.exit_workers();
    assert!(device.is_shut_down());
    assert_eq!(device.write_to_all(&[1; 6]), Err(WriteError::WorkersExited));
    assert_eq!(device.as_slice(), &[4; 6]);
    assert_eq!(device.begin_copy(6), Err(WriteError::WorkersExited));
}

#[test]
fn begin_and_finish_copy() {
    let mut device = IvshmemDevice::with_memory(region(vec![0; 6]), 2);
    assert_eq!(device.begin_copy(5), Err(WriteError::SizeMismatch));
    assert_eq!(device.job(), Job::Release);
    assert_eq!(device.begin_copy(6), Ok(Job::Copy { length: 6 }));
    assert_eq!(device.job(), Job::Copy { length: 6 });
    device.finish_copy();
    assert_eq!(device.job(), Job::Release);
}

#[test]
fn direct_view_writes_through() {
    let mut device = IvshmemDevice::with_memory(region(vec![0; 4]), 1);
    device.direct_view()[2] = 42;
    assert_eq!(device.as_slice(), &[0, 0, 42, 0]);
    assert_eq!(device.len(), 4);
    assert_eq!(device.thread_count(), 1);
    let memory = device.into_memory();
    assert_eq!(memory, &[0, 0, 42, 0]);
}

#[test]
fn copy_range_copies_only_the_range() {
    let mut dst = vec![0u8; 6];
    copy_range(&mut dst, &[1, 2, 3, 4, 5, 6], 2, 3);
    assert_eq!(dst, vec![0, 0, 3, 4, 5, 0]);
}

#[test]
fn size_mismatch_after_exit() {
    let mut device = IvshmemDevice::with_memory(region(vec![4; 6]), 2);
    device.exit_workers();
    assert_eq!(device.write_to_all(&[1; 5]), Err(WriteError::SizeMismatch));
    assert_eq!(device.write_to_all(&[1; 7]), Err(WriteError::SizeMismatch));
    assert_eq!(device.begin_copy(5), Err(WriteError::SizeMismatch));
    assert_eq!(device.as_slice(), &[4; 6]);
}
