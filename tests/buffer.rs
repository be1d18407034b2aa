use gpu_allocator::vulkan::Allocation;
use voxentia::buffer::{check_write, Buffer, BufferError};
use voxentia::wire::encode_words;

#[test]
fn write_of_exactly_the_size_succeeds() {
    assert_eq!(check_write(true, 16, 16), Ok(()));
    assert_eq!(check_write(true, 16, 0), Ok(()));
}

#[test]
fn write_one_past_the_size_is_out_of_bounds() {
    assert_eq!(check_write(true, 16, 17), Err(BufferError::OutOfBounds));
    assert_eq!(check_write(true, 0, 1), Err(BufferError::OutOfBounds));
}

#[test]
fn write_without_mapping_is_a_map_error() {
    assert_eq!(check_write(false, 16, 4), Err(BufferError::MapError));
    assert_eq!(check_write(false, 16, 17), Err(BufferError::MapError));
}

#[test]
fn buffer_over_small_allocation_is_refused() {
    let r = Buffer::from_parts(7, Allocation::default(), 1);
    assert!(matches!(r, Err(BufferError::AllocationError)));
}

#[test]
fn unmapped_buffer_refuses_writes() {
    let mut b = Buffer::from_parts(7, Allocation::default(), 0).unwrap();
    assert_eq!(b.buffer, 7);
    assert_eq!(b.update_slice(&[]), Err(BufferError::MapError));
    assert!(b.read_back().is_none());
    let mut none = Buffer { buffer: 1, allocation: None, size: 8 };
    assert_eq!(none.update_slice(&[1, 2, 3]), Err(BufferError::MapError));
    assert!(none.read_back().is_none());
}

#[test]
fn allocation_is_handed_out_once() {
    let mut b = Buffer::from_parts(3, Allocation::default(), 0).unwrap();
    assert!(b.take_allocation().is_some());
    assert!(b.allocation.is_none());
    assert!(b.take_allocation().is_none());
    assert_eq!(b.buffer, 3);
}

#[test]
fn words_encode_little_endian() {
    assert_eq!(
        encode_words(&[0x04030201, 0xFFFF_FFFF, 0]),
        vec![1, 2, 3, 4, 255, 255, 255, 255, 0, 0, 0, 0]
    );
    assert!(encode_words(&[]).is_empty());
    assert_eq!(encode_words(&[2047]), vec![0xFF, 0x07, 0, 0]);
}
