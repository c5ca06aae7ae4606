use perf_collector::memory_ring_storage::MemoryRingStorage;
use perf_collector::ring::{PerfRing, PerfRingError, PERF_RECORD_SAMPLE};

const PAGE: u64 = 4096;

fn storage(n_pages: u32) -> Vec<u8> {
    vec![0u8; (PAGE * (1 + u64::from(n_pages))) as usize]
}

#[test]
fn test_init_contiguous() {
    let data = storage(2);
    let result = PerfRing::init_contiguous(&data, 2, PAGE);
    assert!(result.is_ok());

    let small_data = vec![0u8; 7];
    let result = PerfRing::init_contiguous(&small_data, 1, 7);
    assert!(result.is_err());
    match result {
        Err(PerfRingError::InvalidBufferLength) => {}
        _ => panic!("Expected InvalidBufferLength error"),
    }

    let empty_data: Vec<u8> = vec![];
    let result = PerfRing::init_contiguous(&empty_data, 2, PAGE);
    assert!(result.is_err());
    match result {
        Err(PerfRingError::NilBuffer) => {}
        _ => panic!("Expected NilBuffer error"),
    }
}

#[test]
fn test_write_and_read() {
    let data = storage(2);
    let mut ring = PerfRing::init_contiguous(&data, 2, PAGE).unwrap();
    let test_data = b"test data";
    let event_type = 1u32;
    ring.start_write_batch();
    let offset = ring.write(test_data, event_type).unwrap();
    assert!(offset < (PAGE * 2) as usize);
    ring.finish_write_batch();
    ring.start_read_batch();
    let size = ring.peek_size().unwrap();
    let expected_size = ((test_data.len() + 7) / 8) * 8;
    assert_eq!(size, expected_size);
    assert_eq!(ring.peek_type(), event_type);
    let mut read_buf = vec![0u8; size];
    ring.peek_copy(&mut read_buf, 0).unwrap();
    assert_eq!(&read_buf[..test_data.len()], test_data);
    ring.pop().unwrap();
    assert_eq!(ring.bytes_remaining(), 0);
    ring.finish_read_batch();
}

#[test]
fn test_bytes_remaining() {
    let data = storage(2);
    let ring = PerfRing::init_contiguous(&data, 2, PAGE).unwrap();
    assert_eq!(ring.bytes_remaining(), 0);
}

#[test]
fn test_wraparound() {
    let mut data = storage(2);
    data[1040..1048].copy_from_slice(&PAGE.to_le_bytes());
    data[1048..1056].copy_from_slice(&(PAGE * 2).to_le_bytes());
    let mut ring = PerfRing::init_contiguous(&data, 2, PAGE).unwrap();

    let data_size = PAGE as usize - 8 - 10;
    let mut test_data = vec![0u8; data_size];
    for i in 0..data_size {
        test_data[i] = (i % 256) as u8;
    }
    ring.start_write_batch();
    ring.write(&test_data, 1).unwrap();
    ring.write(&test_data, 2).unwrap();
    ring.finish_write_batch();

    ring.start_read_batch();
    let mut read_buf = vec![0u8; data_size];
    ring.peek_copy(&mut read_buf, 0).unwrap();
    for i in 0..data_size {
        assert_eq!(read_buf[i], test_data[i]);
    }
    ring.pop().unwrap();
    ring.finish_read_batch();

    ring.start_write_batch();
    ring.write(&test_data, 3).unwrap();
    ring.finish_write_batch();

    ring.start_read_batch();
    ring.peek_copy(&mut read_buf, 0).unwrap();
    for i in 0..data_size {
        assert_eq!(read_buf[i], test_data[i]);
    }
    ring.pop().unwrap();
    ring.peek_copy(&mut read_buf, 0).unwrap();
    for i in 0..data_size {
        assert_eq!(read_buf[i], test_data[i]);
    }
    ring.pop().unwrap();
    ring.finish_read_batch();
    assert_eq!(ring.bytes_remaining(), 0);
}

#[test]
fn test_memory_ring_storage() {
    let n_pages = 2;
    let storage = MemoryRingStorage::new(n_pages).unwrap();
    assert_eq!(storage.num_data_pages(), n_pages);
    assert_eq!(storage.page_size(), page_size::get() as u64);
    let expected_size = storage.page_size() * (1 + u64::from(n_pages));
    assert_eq!(storage.data().len() as u64, expected_size);
    assert_eq!(storage.file_descriptor(), -1);
}

#[test]
fn storage_feeds_a_ring() {
    let storage = MemoryRingStorage::with_page_size(4, 4096).unwrap();
    let ring = PerfRing::init_contiguous(storage.data(), storage.num_data_pages(), storage.page_size());
    assert!(ring.is_ok());
    assert!(storage.data().iter().all(|b| *b == 0));
}

#[test]
fn write_errors() {
    let data = storage(2);
    let mut ring = PerfRing::init_contiguous(&data, 2, PAGE).unwrap();
    ring.start_write_batch();
    assert_eq!(ring.write(&[], 1), Err(PerfRingError::EmptyWrite));
    let too_big = vec![1u8; (PAGE * 2) as usize];
    assert_eq!(ring.write(&too_big, 1), Err(PerfRingError::CannotFit));
    let half = vec![2u8; 4000];
    ring.write(&half, 1).unwrap();
    ring.write(&half, 1).unwrap();
    assert_eq!(ring.write(&half, 1), Err(PerfRingError::NoSpace));
}

#[test]
fn read_errors_on_empty_ring() {
    let data = storage(1);
    let mut ring = PerfRing::init_contiguous(&data, 1, PAGE).unwrap();
    ring.start_read_batch();
    assert_eq!(ring.peek_size(), Err(PerfRingError::BufferEmpty));
    let mut buf = vec![0u8; 4];
    assert_eq!(ring.peek_copy(&mut buf, 0), Err(PerfRingError::BufferEmpty));
    assert_eq!(ring.pop(), Err(PerfRingError::BufferEmpty));
}

#[test]
fn peek_copy_larger_than_record_fails() {
    let data = storage(1);
    let mut ring = PerfRing::init_contiguous(&data, 1, PAGE).unwrap();
    ring.start_write_batch();
    ring.write(&[7u8; 8], 5).unwrap();
    ring.finish_write_batch();
    ring.start_read_batch();
    assert_eq!(ring.peek_size(), Ok(8));
    let mut buf = vec![0u8; 9];
    assert_eq!(ring.peek_copy(&mut buf, 0), Err(PerfRingError::SizeExceeded));
}

#[test]
fn sample_round_trip_across_the_end() {
    // A one-page ring; the second sample's payload wraps the end of the region.
    let data = storage(1);
    let mut ring = PerfRing::init_contiguous(&data, 1, PAGE).unwrap();
    let first = vec![9u8; 3000];
    ring.start_write_batch();
    ring.write(&first, PERF_RECORD_SAMPLE).unwrap();
    ring.finish_write_batch();
    ring.start_read_batch();
    ring.pop().unwrap();
    ring.finish_read_batch();

    let payload: Vec<u8> = (0..2000u32).map(|i| (i * 7 % 251) as u8).collect();
    ring.start_write_batch();
    let offset = ring.write(&payload, PERF_RECORD_SAMPLE).unwrap();
    assert_eq!(offset, (3016 + 8 + 4) % 4096);
    ring.finish_write_batch();
    ring.start_read_batch();
    assert_eq!(ring.peek_type(), PERF_RECORD_SAMPLE);
    assert_eq!(ring.peek_size(), Ok(2008));
    let mut buf = vec![0u8; payload.len()];
    ring.peek_copy(&mut buf, 4).unwrap();
    assert_eq!(buf, payload);
    let mut size_field = vec![0u8; 4];
    ring.peek_copy(&mut size_field, 0).unwrap();
    assert_eq!(u32::from_le_bytes([size_field[0], size_field[1], size_field[2], size_field[3]]), 2008);
    ring.pop().unwrap();
    assert_eq!(ring.bytes_remaining(), 0);
    assert_eq!(ring.pop(), Err(PerfRingError::BufferEmpty));
}

#[test]
fn full_ring_reports_its_length() {
    let data = storage(1);
    let mut ring = PerfRing::init_contiguous(&data, 1, PAGE).unwrap();
    ring.start_write_batch();
    for _ in 0..256 {
        ring.write(&[3u8; 8], 1).unwrap();
    }
    assert_eq!(ring.write(&[3u8; 8], 1), Err(PerfRingError::NoSpace));
    ring.finish_write_batch();
    ring.start_read_batch();
    assert_eq!(ring.bytes_remaining(), PAGE as u32);
    ring.pop().unwrap();
    assert_eq!(ring.bytes_remaining(), PAGE as u32 - 16);
}
