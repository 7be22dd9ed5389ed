use freeze::bump::{reservation_size, DEFAULT_ADDRESS_BITS};
use freeze::model::BOOKKEEPING_BYTES;
use freeze::{BumpAlloc, BumpAllocRef};

#[test]
fn used_bytes_are_the_sum_of_the_frozen_lengths() {
    let mut arena = BumpAlloc::new_with_address_space(12);
    let mut handle = arena.to_ref();
    assert_eq!(handle.data_size(), 0);
    let mut total = 0;
    let mut kept: Vec<&mut [u8]> = Vec::new();
    for len in [3usize, 0, 17, 1, 40] {
        let mut buffer = handle.top();
        for i in 0..len {
            buffer.extend_one(i as u8);
        }
        let frozen = buffer.freeze();
        assert_eq!(frozen.len(), len);
        total += len;
        kept.push(frozen);
        assert_eq!(handle.data_size(), total);
    }
    assert_eq!(handle.data_size(), 61);
    assert_eq!(kept.iter().map(|b| b.len()).sum::<usize>(), 61);
}

#[test]
fn used_bytes_count_the_buffer_in_progress() {
    let mut arena = BumpAlloc::new_with_address_space(12);
    let mut handle = arena.to_ref();
    handle.top().extend_from_slice(&[1, 2, 3]);
    assert_eq!(handle.data_size(), 3);
    handle.top().freeze();
    assert_eq!(handle.data_size(), 3);
    handle.top().extend_from_slice(&[4, 5]);
    assert_eq!(handle.data_size(), 5);
    handle.top().pop();
    assert_eq!(handle.data_size(), 4);
    handle.top().truncate(0);
    assert_eq!(handle.data_size(), 3);
}

#[test]
fn frozen_buffers_are_not_touched_by_later_ones() {
    let mut arena = BumpAlloc::new_with_address_space(12);
    let mut handle = arena.to_ref();
    let first = {
        let mut buffer = handle.top();
        buffer.extend_from_slice(&[1, 2, 3, 4]);
        buffer.freeze()
    };
    let second = {
        let mut buffer = handle.top();
        buffer.extend_from_slice(&[9; 100]);
        buffer.deref_mut().fill(0xFF);
        buffer.extend_from_within(0..100);
        buffer.truncate(1);
        buffer.pop();
        buffer.pop();
        buffer.extend_from_slice(&[7, 7]);
        *buffer.index_mut(0) = 6;
        buffer.freeze()
    };
    let third = {
        let mut buffer = handle.top();
        buffer.extend_one(5);
        buffer.freeze()
    };
    assert_eq!(first, [1, 2, 3, 4]);
    assert_eq!(second, [6, 7]);
    assert_eq!(third, [5]);
    assert_eq!(handle.data_size(), 7);
}

#[test]
fn a_frozen_buffer_belongs_to_its_holder() {
    let mut arena = BumpAlloc::new_with_address_space(12);
    let mut handle = arena.to_ref();
    let first = {
        let mut buffer = handle.top();
        buffer.extend_from_slice(&[1, 2, 3]);
        buffer.freeze()
    };
    first[1] = 20;
    let second = {
        let mut buffer = handle.top();
        buffer.extend_from_slice(&[4, 5]);
        buffer.freeze()
    };
    assert_eq!(first, [1, 20, 3]);
    assert_eq!(second, [4, 5]);
}

#[test]
fn dangerous_when_use_and_overhead_exceed_half() {
    // capacity 128: the flag is set when used + 32 > 64
    let mut region = [0u8; 128];
    let mut handle = BumpAllocRef::over(&mut region);
    assert!(!handle.dangerous());
    handle.top().extend_from_slice(&[0; 32]);
    assert_eq!(handle.data_size(), 32);
    assert!(!handle.dangerous());
    handle.top().extend_one(0);
    assert_eq!(handle.data_size(), 33);
    assert!(handle.dangerous());
    handle.top().pop();
    assert!(!handle.dangerous());
    handle.top().freeze();
    assert!(!handle.dangerous());
    handle.top().extend_one(0);
    assert!(handle.dangerous());
}

#[test]
fn dangerous_halves_an_odd_capacity_downwards() {
    // capacity 67: half is 33, so one byte in use is enough
    let mut region = [0u8; 67];
    let mut handle = BumpAllocRef::over(&mut region);
    assert!(!handle.dangerous());
    handle.top().extend_one(0);
    assert!(!handle.dangerous());
    handle.top().extend_one(0);
    assert!(handle.dangerous());
}

#[test]
fn a_small_arena_is_dangerous_from_the_start() {
    // 2^5 bytes: 0 + 32 > 16
    let mut arena = BumpAlloc::new_with_address_space(5);
    let handle = arena.to_ref();
    assert_eq!(handle.data_size(), 0);
    assert!(handle.dangerous());
    // 2^6 bytes: 0 + 32 > 32 does not hold
    let mut arena = BumpAlloc::new_with_address_space(6);
    let handle = arena.to_ref();
    assert!(!handle.dangerous());
}

#[test]
fn the_overhead_is_four_words() {
    assert_eq!(BOOKKEEPING_BYTES, 32);
}

#[test]
fn reservation_size_is_two_to_the_bits() {
    assert_eq!(reservation_size(0), 1);
    assert_eq!(reservation_size(1), 2);
    assert_eq!(reservation_size(10), 1024);
    assert_eq!(reservation_size(32), 4294967296);
    assert_eq!(reservation_size(62), 4611686018427387904);
    assert_eq!(DEFAULT_ADDRESS_BITS, 32);
    assert_eq!(reservation_size(DEFAULT_ADDRESS_BITS), 1 << 32);
}

#[test]
fn an_arena_holds_as_many_bytes_as_it_reserved() {
    let mut arena = BumpAlloc::new_with_address_space(3);
    let mut handle = arena.to_ref();
    let mut buffer = handle.top();
    buffer.extend_from_slice(&[1, 2, 3, 4, 5, 6, 7, 8]);
    assert_eq!(buffer.freeze(), [1, 2, 3, 4, 5, 6, 7, 8]);
    assert_eq!(handle.data_size(), 8);
}

#[test]
fn a_second_handle_begins_with_an_empty_arena() {
    let mut arena = BumpAlloc::new_with_address_space(8);
    {
        let mut handle = arena.to_ref();
        handle.top().extend_from_slice(&[1, 2, 3]);
        handle.top().freeze();
        assert_eq!(handle.data_size(), 3);
    }
    let mut handle = arena.to_ref();
    assert_eq!(handle.data_size(), 0);
    let mut buffer = handle.top();
    buffer.extend_one(9);
    assert_eq!(buffer.freeze(), [9]);
}
