use hifi_replayer::audio::ring_buffer::{is_valid_capacity, next_power_of_two, RingBuffer, CACHE_LINE_SIZE};

#[test]
fn test_ring_buffer_basic() {
    let mut rb = RingBuffer::<i32>::new(16);

    let data = [1, 2, 3, 4];
    assert_eq!(rb.write(&data), 4);
    assert_eq!(rb.available(), 4);

    let mut output = [0i32; 4];
    assert_eq!(rb.read(&mut output), 4);
    assert_eq!(output, data);
}

#[test]
fn test_ring_buffer_wrap() {
    let mut rb = RingBuffer::<i32>::new(4);

    let data = [1, 2, 3, 4];
    assert_eq!(rb.write(&data), 4);

    let mut output = [0i32; 2];
    assert_eq!(rb.read(&mut output), 2);
    assert_eq!(output, [1, 2]);

    let more = [5, 6];
    assert_eq!(rb.write(&more), 2);

    let mut all = [0i32; 4];
    assert_eq!(rb.read(&mut all), 4);
    assert_eq!(all, [3, 4, 5, 6]);
}

#[test]
fn test_ring_buffer_full() {
    let mut rb = RingBuffer::<i32>::new(4);

    let data = [1, 2, 3, 4];
    assert_eq!(rb.write(&data), 4);
    assert_eq!(rb.free_space(), 0);

    let more = [5, 6];
    assert_eq!(rb.write(&more), 0);
}

#[test]
fn test_ring_buffer_empty() {
    let mut rb = RingBuffer::<i32>::new(4);

    let mut output = [0i32; 4];
    assert_eq!(rb.read(&mut output), 0);
}

#[test]
fn cache_line_size_covers_large_lines() {
    assert_eq!(CACHE_LINE_SIZE, 128);
}

#[test]
fn ring_buffer_partial_write_and_short_read() {
    let mut rb = RingBuffer::<i32>::new(4);
    assert_eq!(rb.capacity(), 4);
    assert_eq!(rb.write(&[1, 2, 3]), 3);
    // only one slot left: the write is cut
    assert_eq!(rb.write(&[4, 5, 6]), 1);
    assert_eq!(rb.available(), 4);
    let mut out = [9i32; 6];
    // fewer queued than asked for: the rest of the output stays
    assert_eq!(rb.read(&mut out), 4);
    assert_eq!(out, [1, 2, 3, 4, 9, 9]);
    assert_eq!(rb.available(), 0);
    assert_eq!(rb.free_space(), 4);
}

#[test]
fn ring_buffer_read_at_most_limits() {
    let mut rb = RingBuffer::<i32>::new(8);
    assert_eq!(rb.write(&[1, 2, 3, 4, 5]), 5);
    let mut out = [0i32; 4];
    assert_eq!(rb.read_at_most(&mut out, 2), 2);
    assert_eq!(out, [1, 2, 0, 0]);
    assert_eq!(rb.read_at_most(&mut out, 100), 3);
    assert_eq!(out, [3, 4, 5, 0]);
}

#[test]
fn ring_buffer_clear_drops_everything() {
    let mut rb = RingBuffer::<i32>::new(8);
    rb.write(&[1, 2, 3]);
    rb.clear();
    assert_eq!(rb.available(), 0);
    assert_eq!(rb.free_space(), 8);
    // the buffer still works, across the wrap
    assert_eq!(rb.write(&[4, 5, 6, 7, 8, 9, 10, 11]), 8);
    let mut out = [0i32; 8];
    assert_eq!(rb.read(&mut out), 8);
    assert_eq!(out, [4, 5, 6, 7, 8, 9, 10, 11]);
}

#[test]
fn ring_buffer_with_min_capacity_rounds_up() {
    assert_eq!(RingBuffer::<i32>::with_min_capacity(0).capacity(), 1);
    assert_eq!(RingBuffer::<i32>::with_min_capacity(1).capacity(), 1);
    assert_eq!(RingBuffer::<i32>::with_min_capacity(5).capacity(), 8);
    assert_eq!(RingBuffer::<i32>::with_min_capacity(4096).capacity(), 4096);
    assert_eq!(RingBuffer::<i32>::with_min_capacity(192000).capacity(), 262144);
    assert_eq!(next_power_of_two(3), 4);
    assert_eq!(next_power_of_two(1025), 2048);
}

#[test]
fn valid_capacities_are_powers_of_two() {
    assert!(!is_valid_capacity(0));
    assert!(is_valid_capacity(1));
    assert!(is_valid_capacity(4));
    assert!(!is_valid_capacity(6));
    assert!(is_valid_capacity(4096));
    assert!(!is_valid_capacity(4097));
}

#[test]
fn ring_buffer_memory_lock_flag() {
    let mut rb = RingBuffer::<i32>::new(4);
    assert!(!rb.is_memory_locked());
    assert_eq!(rb.storage_bytes(4), Some(16));
    assert_eq!(rb.storage_bytes(usize::MAX), None);
    // a refused lock leaves the buffer unlocked and usable
    assert!(!rb.lock_memory(-1));
    assert!(!rb.is_memory_locked());
    assert_eq!(rb.write(&[1]), 1);
    assert!(rb.lock_memory(0));
    assert!(rb.is_memory_locked());
    // once locked, a later failure does not unlock
    assert!(rb.lock_memory(-1));
    assert!(rb.unlock_memory());
    assert!(!rb.is_memory_locked());
    assert!(!rb.unlock_memory());
    assert_eq!(rb.available(), 1);
}

#[test]
fn ring_buffer_fill_ratio_in_whole_numbers() {
    let mut rb = RingBuffer::<i32>::new(8);
    assert!(rb.is_filled_to(0, 1));
    assert!(!rb.is_filled_to(1, 2));
    rb.write(&[0; 3]);
    assert!(!rb.is_filled_to(1, 2));
    rb.write(&[0; 1]);
    assert!(rb.is_filled_to(1, 2));
    assert!(!rb.is_filled_to(1, 1));
    rb.write(&[0; 4]);
    assert!(rb.is_filled_to(1, 1));
}

#[test]
fn ring_buffer_is_fifo_over_many_chunk_sizes() {
    // a fixed pseudo-random walk over chunk sizes, for capacities 4 to 4096
    let mut capacity = 4usize;
    while capacity <= 4096 {
        let mut rb = RingBuffer::<i32>::new(capacity);
        let mut seed: u32 = 0x1234_5678 ^ capacity as u32;
        let mut next_in: i32 = 0;
        let mut next_out: i32 = 0;
        for _ in 0..400 {
            seed ^= seed << 13;
            seed ^= seed >> 17;
            seed ^= seed << 5;
            let n = (seed as usize >> 8) % (capacity + capacity / 2 + 1);
            if seed & 1 == 0 {
                let data: Vec<i32> = (0..n as i32).map(|k| next_in + k).collect();
                let free = rb.free_space();
                let written = rb.write(&data);
                assert_eq!(written, n.min(free));
                next_in += written as i32;
            } else {
                let mut out = vec![-1i32; n];
                let queued = rb.available();
                let got = rb.read(&mut out);
                assert_eq!(got, n.min(queued));
                for k in 0..got {
                    assert_eq!(out[k], next_out + k as i32);
                }
                for k in got..n {
                    assert_eq!(out[k], -1);
                }
                next_out += got as i32;
            }
            assert_eq!(rb.available() as i32, next_in - next_out);
            assert!(rb.available() <= capacity);
        }
        capacity *= 2;
    }
}

#[test]
fn ring_buffer_of_other_element_type() {
    let mut rb = RingBuffer::<u8>::new(2);
    assert_eq!(rb.write(&[7, 8, 9]), 2);
    let mut out = [0u8; 1];
    assert_eq!(rb.read(&mut out), 1);
    assert_eq!(out, [7]);
    assert_eq!(rb.write(&[10]), 1);
    let mut out = [0u8; 2];
    assert_eq!(rb.read(&mut out), 2);
    assert_eq!(out, [8, 10]);
}
