use imxrt_core::ring::RingBuffer;

fn ring_of(capacity: usize) -> RingBuffer {
    let mut ring = RingBuffer::new();
    ring.attach(vec![0u8; capacity]);
    ring
}

/// Pops everything that is queued, one run after the other.
fn drain(ring: &mut RingBuffer) -> Vec<u8> {
    let mut out = Vec::new();
    loop {
        let mut chunk = [0u8; 5];
        let n = ring.pop_into(&mut chunk);
        if n == 0 {
            return out;
        }
        out.extend_from_slice(&chunk[..n]);
    }
}

#[test]
fn new_ring_is_detached() {
    let ring = RingBuffer::new();
    assert!(!ring.is_available());
    assert_eq!(ring.capacity(), 0);
    assert_eq!(ring.available(), 0);
    assert_eq!(ring.readable(), 0);
    assert_eq!(ring.writable(), 0);
    assert!(ring.is_empty());
    assert!(ring.is_full());
}

#[test]
fn detached_ring_takes_and_gives_nothing() {
    let mut ring = RingBuffer::new();
    assert_eq!(ring.push_from(&[1, 2, 3]), 0);
    assert!(!ring.push_one(9));
    assert_eq!(ring.pop_one(), None);
    let mut out = [7u8; 4];
    assert_eq!(ring.pop_into(&mut out), 0);
    assert_eq!(out, [7, 7, 7, 7]);
    assert_eq!(ring.peek_contiguous(), &[] as &[u8]);
}

#[test]
fn attach_makes_available_and_empty() {
    let ring = ring_of(8);
    assert!(ring.is_available());
    assert_eq!(ring.capacity(), 8);
    assert_eq!(ring.available(), 0);
    assert_eq!(ring.writable(), 8);
    assert!(ring.is_empty());
    assert!(!ring.is_full());
}

#[test]
fn attach_of_an_empty_array_leaves_the_ring_unavailable() {
    let ring = ring_of(0);
    assert!(!ring.is_available());
    assert_eq!(ring.capacity(), 0);
}

#[test]
fn attach_again_starts_empty() {
    let mut ring = ring_of(4);
    assert_eq!(ring.push_from(&[1, 2, 3]), 3);
    ring.attach(vec![0u8; 6]);
    assert_eq!(ring.capacity(), 6);
    assert!(ring.is_empty());
    assert_eq!(ring.writable(), 6);
}

#[test]
fn detach_hands_the_array_back_and_is_idempotent() {
    let mut ring = ring_of(8);
    assert_eq!(ring.push_from(&[1, 2, 3]), 3);
    let storage = ring.detach();
    assert_eq!(storage.len(), 8);
    assert_eq!(&storage[..3], &[1, 2, 3]);
    assert!(!ring.is_available());
    assert!(ring.is_empty());
    assert_eq!(ring.capacity(), 0);
    let again = ring.detach();
    assert_eq!(again.len(), 0);
    assert!(!ring.is_available());
}

#[test]
fn push_then_pop_in_order() {
    let mut ring = ring_of(8);
    assert_eq!(ring.push_from(&[1, 2, 3, 4, 5]), 5);
    assert_eq!(ring.available(), 5);
    let mut out = [0u8; 8];
    assert_eq!(ring.pop_into(&mut out), 5);
    assert_eq!(&out[..5], &[1, 2, 3, 4, 5]);
    assert_eq!(&out[5..], &[0, 0, 0]);
    assert!(ring.is_empty());
}

#[test]
fn push_into_full_returns_zero_and_keeps_unread_data() {
    let mut ring = ring_of(4);
    assert_eq!(ring.push_from(&[1, 2, 3, 4]), 4);
    assert!(ring.is_full());
    assert_eq!(ring.writable(), 0);
    assert_eq!(ring.push_from(&[9, 9]), 0);
    assert!(!ring.push_one(9));
    assert_eq!(ring.push(|run| run.len()), 0);
    assert_eq!(ring.available(), 4);
    assert_eq!(drain(&mut ring), vec![1, 2, 3, 4]);
}

#[test]
fn pop_from_empty_returns_zero_and_leaves_destination() {
    let mut ring = ring_of(4);
    let mut out = [5u8; 3];
    assert_eq!(ring.pop_into(&mut out), 0);
    assert_eq!(out, [5, 5, 5]);
    assert_eq!(ring.pop_one(), None);
    assert_eq!(ring.pop(|run| run.len()), 0);
    assert!(ring.is_empty());
    // Still usable afterwards, from the same place.
    assert_eq!(ring.push_from(&[1]), 1);
    assert_eq!(ring.pop_one(), Some(1));
}

#[test]
fn push_stops_at_the_end_of_the_array() {
    let mut ring = ring_of(8);
    assert_eq!(ring.push_from(&[0, 1, 2, 3, 4, 5]), 6);
    let mut out = [0u8; 4];
    assert_eq!(ring.pop_into(&mut out), 4);
    // Two slots are free at the end of the array and four at its start.
    assert_eq!(ring.writable(), 2);
    assert_eq!(ring.push_from(&[6, 7, 8, 9]), 2);
    assert_eq!(ring.writable(), 4);
    assert_eq!(ring.push_from(&[8, 9]), 2);
    assert_eq!(ring.available(), 6);
    assert_eq!(drain(&mut ring), vec![4, 5, 6, 7, 8, 9]);
}

#[test]
fn pop_stops_at_the_end_of_the_array() {
    let mut ring = ring_of(4);
    assert_eq!(ring.push_from(&[1, 2, 3]), 3);
    let mut out = [0u8; 2];
    assert_eq!(ring.pop_into(&mut out), 2);
    assert_eq!(ring.push_from(&[4, 5, 6]), 1);
    assert_eq!(ring.push_from(&[5, 6]), 2);
    assert!(ring.is_full());
    // Queued: 3 4 | 5 6, with the wrap after the 4.
    assert_eq!(ring.readable(), 2);
    assert_eq!(ring.peek_contiguous(), &[3, 4]);
    let mut big = [0u8; 4];
    assert_eq!(ring.pop_into(&mut big), 2);
    assert_eq!(&big[..2], &[3, 4]);
    assert_eq!(ring.pop_into(&mut big), 2);
    assert_eq!(&big[..2], &[5, 6]);
    assert!(ring.is_empty());
}

#[test]
fn data_survives_many_wraps() {
    let mut ring = ring_of(7);
    let mut next_in: u8 = 0;
    let mut expected: Vec<u8> = Vec::new();
    let mut got: Vec<u8> = Vec::new();
    for round in 0..200usize {
        let want = round % 5 + 1;
        let chunk: Vec<u8> = (0..want).map(|i| next_in.wrapping_add(i as u8)).collect();
        let n = ring.push_from(&chunk);
        assert!(n <= want);
        expected.extend_from_slice(&chunk[..n]);
        next_in = next_in.wrapping_add(n as u8);
        let mut out = [0u8; 3];
        let m = ring.pop_into(&mut out[..round % 3 + 1]);
        got.extend_from_slice(&out[..m]);
        assert!(ring.available() <= ring.capacity());
    }
    got.extend(drain(&mut ring));
    assert_eq!(got, expected);
    assert!(expected.len() > 100);
}

#[test]
fn two_pushes_fill_what_one_push_cannot() {
    let mut ring = ring_of(8);
    assert_eq!(ring.push_from(&[0; 6]), 6);
    let mut out = [0u8; 6];
    assert_eq!(ring.pop_into(&mut out), 6);
    assert!(ring.is_empty());
    let src = [1, 2, 3, 4, 5, 6, 7];
    let first = ring.push_from(&src);
    assert_eq!(first, 2);
    let second = ring.push_from(&src[first..]);
    assert_eq!(second, 5);
    assert_eq!(drain(&mut ring), src.to_vec());
}

#[test]
fn full_and_empty_are_told_apart_at_equal_indices() {
    let mut ring = ring_of(3);
    assert_eq!(ring.push_from(&[1, 2, 3]), 3);
    assert!(ring.is_full());
    assert!(!ring.is_empty());
    assert_eq!(ring.available(), 3);
    let mut out = [0u8; 3];
    assert_eq!(ring.pop_into(&mut out), 3);
    assert!(ring.is_empty());
    assert!(!ring.is_full());
    assert_eq!(ring.available(), 0);
    assert_eq!(ring.writable(), 3);
}

#[test]
fn push_one_and_pop_one_are_first_in_first_out() {
    let mut ring = ring_of(2);
    assert!(ring.push_one(10));
    assert!(ring.push_one(20));
    assert!(!ring.push_one(30));
    assert_eq!(ring.pop_one(), Some(10));
    assert!(ring.push_one(30));
    assert_eq!(ring.pop_one(), Some(20));
    assert_eq!(ring.pop_one(), Some(30));
    assert_eq!(ring.pop_one(), None);
}

#[test]
fn peek_does_not_consume_and_commit_does() {
    let mut ring = ring_of(8);
    assert_eq!(ring.push_from(&[1, 2, 3, 4]), 4);
    assert_eq!(ring.peek_contiguous(), &[1, 2, 3, 4]);
    assert_eq!(ring.peek_contiguous(), &[1, 2, 3, 4]);
    assert_eq!(ring.available(), 4);
    ring.commit_consumed(3);
    assert_eq!(ring.peek_contiguous(), &[4]);
    assert_eq!(ring.available(), 1);
    ring.commit_consumed(0);
    assert_eq!(ring.available(), 1);
    ring.commit_consumed(1);
    assert!(ring.is_empty());
}

#[test]
fn push_with_a_writer_queues_what_the_writer_counts() {
    let mut ring = ring_of(4);
    let n = ring.push(|run| {
        assert_eq!(run.len(), 4);
        run[0] = 0xaa;
        run[1] = 0xbb;
        run[2] = 0xcc;
        2
    });
    assert_eq!(n, 2);
    assert_eq!(ring.available(), 2);
    assert_eq!(ring.peek_contiguous(), &[0xaa, 0xbb]);
}

#[test]
fn pop_with_a_reader_releases_what_the_reader_counts() {
    let mut ring = ring_of(4);
    assert_eq!(ring.push_from(&[1, 2, 3]), 3);
    let mut seen = Vec::new();
    let n = ring.pop(|run| {
        seen.extend_from_slice(run);
        1
    });
    assert_eq!(n, 1);
    assert_eq!(seen, vec![1, 2, 3]);
    assert_eq!(ring.peek_contiguous(), &[2, 3]);
}
