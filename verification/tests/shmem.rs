use overlay_engine::shmem::{
    command_region_name, CommandSliceError, RingbufferHeader, SharedMemory,
    RINGBUFFER_HEADER_SIZE,
};

fn create_test_shmem() -> Vec<u8> {
    let mut bytes = vec![0u8; 4096];
    RingbufferHeader::initial(4096).write(&mut bytes);
    bytes
}

#[test]
fn command_slice_accepts_valid_payload_region() {
    let bytes = create_test_shmem();
    let shmem = SharedMemory::new(&bytes);
    let header_size = RINGBUFFER_HEADER_SIZE as u32;
    let slice = shmem.command_slice(header_size, 16, 1024).unwrap();
    assert_eq!(slice.len(), 16);
}

#[test]
fn command_slice_rejects_header_overlap() {
    let bytes = create_test_shmem();
    let shmem = SharedMemory::new(&bytes);
    let err = shmem.command_slice(0, 16, 1024).unwrap_err().message();
    assert!(err.contains("overlaps ringbuffer header"));
}

#[test]
fn command_slice_rejects_length_limit() {
    let bytes = create_test_shmem();
    let shmem = SharedMemory::new(&bytes);
    let header_size = RINGBUFFER_HEADER_SIZE as u32;
    let err = shmem.command_slice(header_size, 2048, 1024).unwrap_err().message();
    assert!(err.contains("exceeds max"));
}

#[test]
fn command_slice_rejects_mapping_overflow() {
    let bytes = create_test_shmem();
    let shmem = SharedMemory::new(&bytes);
    let err = shmem.command_slice(u32::MAX - 1, 16, 1024).unwrap_err().message();
    assert!(err.contains("exceeds mapping size"));
}

#[test]
fn command_slice_rejects_capacity_overflow() {
    let mut bytes = create_test_shmem();
    let mut header = SharedMemory::new(&bytes).header();
    header.capacity = RINGBUFFER_HEADER_SIZE as u32 + 8;
    header.write(&mut bytes);
    let shmem = SharedMemory::new(&bytes);
    let header_size = RINGBUFFER_HEADER_SIZE as u32;
    let err = shmem.command_slice(header_size, 16, 1024).unwrap_err().message();
    assert!(err.contains("exceeds ringbuffer capacity"));
}

#[test]
fn a_capacity_beyond_the_region_is_rejected() {
    let mut bytes = create_test_shmem();
    let mut header = SharedMemory::new(&bytes).header();
    header.capacity = 4097;
    header.write(&mut bytes);
    assert_eq!(
        SharedMemory::new(&bytes).command_slice(24, 16, 1024),
        Err(CommandSliceError::CapacityPastMapping { capacity: 4097, size: 4096 })
    );
}

#[test]
fn errors_say_what_is_wrong() {
    assert_eq!(
        CommandSliceError::OverlapsHeader { offset: 7 }.message(),
        "command offset 7 overlaps ringbuffer header"
    );
    assert_eq!(
        CommandSliceError::TooLong { length: 2048, max_len: 1024 }.message(),
        "command length 2048 exceeds max 1024"
    );
    assert_eq!(CommandSliceError::Overflow.message(), "command offset + length overflow");
    assert_eq!(
        CommandSliceError::PastMapping { end: 5000, size: 4096 }.message(),
        "command slice end 5000 exceeds mapping size 4096"
    );
    assert_eq!(
        CommandSliceError::CapacityPastMapping { capacity: 4097, size: 4096 }.message(),
        "ringbuffer capacity 4097 exceeds mapping size 4096"
    );
    assert_eq!(
        CommandSliceError::PastCapacity { end: 40, capacity: 32 }.message(),
        "command slice end 40 exceeds ringbuffer capacity 32"
    );
}

#[test]
fn slices_hold_the_bytes_of_the_region() {
    let mut bytes = create_test_shmem();
    for (i, b) in bytes.iter_mut().enumerate().skip(24) {
        *b = i as u8;
    }
    let shmem = SharedMemory::new(&bytes);
    assert_eq!(shmem.command_slice(30, 4, 1024).unwrap(), &[30, 31, 32, 33]);
    assert_eq!(shmem.command_slice(24, 0, 1024).unwrap(), &[] as &[u8]);
    assert_eq!(shmem.command_slice(4095, 1, 1024).unwrap().len(), 1);
    assert!(shmem.command_slice(4095, 2, 1024).is_err());
    assert_eq!(shmem.data().len(), 4096);
}

#[test]
fn headers_read_back_and_leave_the_commands_alone() {
    let mut bytes = vec![0xAAu8; 64];
    let header = RingbufferHeader {
        write_offset: 0x0102_0304,
        read_offset: 24,
        capacity: 64,
        frame_counter: 0x1122_3344_5566_7788,
    };
    header.write(&mut bytes);
    assert_eq!(SharedMemory::new(&bytes).header(), header);
    assert_eq!(&bytes[0..4], &[4, 3, 2, 1]);
    assert_eq!(&bytes[12..16], &[0xAA; 4]);
    assert_eq!(&bytes[16..24], &[0x88, 0x77, 0x66, 0x55, 0x44, 0x33, 0x22, 0x11]);
    assert!(bytes[24..].iter().all(|b| *b == 0xAA));
}

#[test]
fn fresh_regions_are_empty() {
    assert_eq!(
        RingbufferHeader::initial(16 * 1024 * 1024),
        RingbufferHeader {
            write_offset: 24,
            read_offset: 24,
            capacity: 16 * 1024 * 1024,
            frame_counter: 0,
        }
    );
    assert_eq!(command_region_name(1234), "overlay-core-cmds-1234");
}
