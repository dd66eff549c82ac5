use forge::transfer::{padded_size, ReadJob, Step, TransferError, WriteJob, BLOCK_SIZE, CHUNK_SIZE};

/// Writes `image` onto `device` the way the write path does, through a buffer whose
/// window starts at `start`. Returns the bytes written in total, padding included.
fn write_image(image: &[u8], device: &mut Vec<u8>, start: usize) -> usize {
    let mut job = WriteJob::new(image.len() as u64);
    let mut buffer = vec![0xEEu8; CHUNK_SIZE + BLOCK_SIZE];
    let mut pos = 0usize;
    loop {
        match job.next_step(false) {
            Step::Complete => break,
            Step::Transfer(n) => {
                let read_from = job.written as usize;
                buffer[start..start + n].copy_from_slice(&image[read_from..read_from + n]);
                let padded = job.stage_block(&mut buffer, start, n);
                device[pos..pos + padded].copy_from_slice(&buffer[start..start + padded]);
                pos += padded;
            }
            Step::Cancelled { .. } => panic!("not cancelled"),
        }
    }
    pos
}

/// Reads `size` bytes from `device` the way the read path does.
fn read_image(device: &[u8], size: u64, start: usize) -> Vec<u8> {
    let mut job = ReadJob::new(size).unwrap();
    let mut buffer = vec![0xEEu8; CHUNK_SIZE + BLOCK_SIZE];
    let mut out = Vec::new();
    loop {
        match job.next_step(false) {
            Step::Complete => break,
            Step::Transfer(n) => {
                let at = job.done as usize;
                // A device read fills whole blocks of the buffer.
                let whole = padded_size(n);
                let avail = whole.min(device.len() - at);
                buffer[start..start + avail].copy_from_slice(&device[at..at + avail]);
                out.extend_from_slice(job.capture(&buffer, start, n));
            }
            Step::Cancelled { .. } => panic!("not cancelled"),
        }
    }
    out
}

fn pattern(len: usize) -> Vec<u8> {
    (0..len).map(|i| (i * 7 + 3) as u8).collect()
}

#[test]
fn padding_rounds_to_blocks() {
    assert_eq!(padded_size(0), 0);
    assert_eq!(padded_size(1), 512);
    assert_eq!(padded_size(10), 512);
    assert_eq!(padded_size(512), 512);
    assert_eq!(padded_size(513), 1024);
    assert_eq!(padded_size(CHUNK_SIZE), CHUNK_SIZE);
}

#[test]
fn ten_byte_image_pads_to_one_block() {
    let image: Vec<u8> = (1u8..=10).collect();
    let mut job = WriteJob::new(10);
    assert_eq!(job.next_step(false), Step::Transfer(10));
    let mut buffer = vec![0xAAu8; CHUNK_SIZE + BLOCK_SIZE];
    buffer[3..13].copy_from_slice(&image);
    let padded = job.stage_block(&mut buffer, 3, 10);
    assert_eq!(padded, 512);
    assert_eq!(&buffer[3..13], &image[..]);
    assert!(buffer[13..515].iter().all(|&b| b == 0));
    assert_eq!(buffer[515], 0xAA);
    assert_eq!(buffer[2], 0xAA);
    assert_eq!(job.written, 10);
    assert_eq!(job.next_step(false), Step::Complete);

    let mut device = vec![0xFFu8; 4096];
    let sent = write_image(&image, &mut device, 0);
    assert_eq!(sent, 512);
    assert_eq!(&device[..10], &image[..]);
    assert!(device[10..512].iter().all(|&b| b == 0));
    assert_eq!(read_image(&device, 10, 0), image);
}

#[test]
fn round_trip_whole_blocks() {
    let image = pattern(4096);
    let mut device = vec![0x55u8; 8192];
    assert_eq!(write_image(&image, &mut device, 64), 4096);
    assert_eq!(read_image(&device, 4096, 64), image);
}

#[test]
fn round_trip_partial_block() {
    let image = pattern(1000);
    let mut device = vec![0x55u8; 8192];
    assert_eq!(write_image(&image, &mut device, 0), 1024);
    assert_eq!(read_image(&device, 1000, 0), image);
}

#[test]
fn round_trip_over_several_chunks() {
    let image = pattern(2 * CHUNK_SIZE + 700);
    let mut device = vec![0x11u8; 3 * CHUNK_SIZE];
    assert_eq!(write_image(&image, &mut device, 512), 2 * CHUNK_SIZE + 1024);
    assert_eq!(read_image(&device, image.len() as u64, 512), image);
    assert_eq!(device[2 * CHUNK_SIZE + 1024], 0x11);
}

#[test]
fn chunks_are_one_mebibyte() {
    let mut job = WriteJob::new(CHUNK_SIZE as u64 + 5);
    assert_eq!(job.next_step(false), Step::Transfer(CHUNK_SIZE));
    let mut buffer = vec![1u8; CHUNK_SIZE + BLOCK_SIZE];
    assert_eq!(job.stage_block(&mut buffer, 0, CHUNK_SIZE), CHUNK_SIZE);
    assert_eq!(job.next_step(false), Step::Transfer(5));
    let read = ReadJob::new(3 * CHUNK_SIZE as u64).unwrap();
    assert_eq!(read.next_step(false), Step::Transfer(CHUNK_SIZE));
}

#[test]
fn cancelled_read_discards_output() {
    let mut job = ReadJob::new(2000).unwrap();
    assert_eq!(job.next_step(true), Step::Cancelled { discard_output: true });
    let buffer = vec![9u8; CHUNK_SIZE];
    assert_eq!(job.capture(&buffer, 0, 2000).len(), 2000);
    assert_eq!(job.next_step(true), Step::Complete);
}

#[test]
fn cancelled_write_keeps_what_was_written() {
    let image = pattern(CHUNK_SIZE + 100);
    let mut device = vec![0u8; 2 * CHUNK_SIZE];
    let mut job = WriteJob::new(image.len() as u64);
    let mut buffer = vec![0u8; CHUNK_SIZE + BLOCK_SIZE];
    let n = match job.next_step(false) {
        Step::Transfer(n) => n,
        other => panic!("unexpected {:?}", other),
    };
    buffer[..n].copy_from_slice(&image[..n]);
    let padded = job.stage_block(&mut buffer, 0, n);
    device[..padded].copy_from_slice(&buffer[..padded]);
    assert_eq!(job.next_step(true), Step::Cancelled { discard_output: false });
    assert_eq!(job.written, CHUNK_SIZE as u64);
    assert_eq!(&device[..CHUNK_SIZE], &image[..CHUNK_SIZE]);
}

#[test]
fn zero_size_device_cannot_be_read() {
    assert_eq!(ReadJob::new(0).err(), Some(TransferError::DeviceSizeUnknown));
}

#[test]
fn empty_image_writes_nothing() {
    let job = WriteJob::new(0);
    assert!(job.is_complete());
    assert_eq!(job.next_step(true), Step::Complete);
}
