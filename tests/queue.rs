use shmoo::error::ENOENT;
use shmoo::segment::unlink_result;
use shmoo::{Header, QueueError, QueueState, SharedQueue};

#[test]
fn zero_capacity_is_refused() {
    assert_eq!(QueueState::new(0).unwrap_err(), QueueError::CapZero);
    assert!(matches!(SharedQueue::new(0), Err(QueueError::CapZero)));
}

#[test]
fn messages_come_out_in_order() {
    let mut q = QueueState::new(3).unwrap();
    let mut slots = [0u32; 3];
    assert!(q.is_empty());
    for v in [1, 2, 3] {
        q.try_send(&mut slots, v).unwrap();
    }
    assert!(q.is_full());
    assert_eq!(q.len(), 3);
    assert_eq!(q.capacity(), 3);
    assert_eq!(q.try_recv(&slots), Ok(1));
    q.try_send(&mut slots, 4).unwrap();
    assert_eq!(q.try_recv(&slots), Ok(2));
    assert_eq!(q.try_recv(&slots), Ok(3));
    assert_eq!(q.try_recv(&slots), Ok(4));
    assert!(q.is_empty());
}

#[test]
fn full_queue_does_not_overwrite() {
    let mut q = QueueState::new(2).unwrap();
    let mut slots = [0u8; 2];
    q.try_send(&mut slots, 10).unwrap();
    q.try_send(&mut slots, 11).unwrap();
    let before = (q, slots);
    assert_eq!(q.try_send(&mut slots, 12), Err(QueueError::QueueFull));
    assert_eq!((q, slots), before);
    assert_eq!(q.try_recv(&slots), Ok(10));
    assert_eq!(q.try_recv(&slots), Ok(11));
}

#[test]
fn empty_queue_returns_nothing_stale() {
    let mut q = QueueState::new(2).unwrap();
    let mut slots = [0u8; 2];
    assert_eq!(q.try_recv(&slots), Err(QueueError::QueueEmpty));
    q.try_send(&mut slots, 5).unwrap();
    assert_eq!(q.try_recv(&slots), Ok(5));
    // The slot still holds 5, but it has been read.
    assert_eq!(q.try_recv(&slots), Err(QueueError::QueueEmpty));
}

#[test]
fn length_counts_accepted_sends_and_receives() {
    let cap = 3usize;
    let mut q = QueueState::new(cap).unwrap();
    let mut slots = [0u32; 3];
    let pattern = "ssrsssrrrrssrsssssrrrsrrrr";
    let (mut sent, mut received) = (0usize, 0usize);
    let mut next = 0u32;
    let mut expected = 0u32;
    for (i, op) in pattern.chars().enumerate() {
        if op == 's' {
            match q.try_send(&mut slots, next) {
                Ok(()) => {
                    sent += 1;
                    next += 1;
                }
                Err(e) => assert_eq!(e, QueueError::QueueFull),
            }
        } else {
            match q.try_recv(&slots) {
                Ok(v) => {
                    assert_eq!(v, expected);
                    expected += 1;
                    received += 1;
                }
                Err(e) => assert_eq!(e, QueueError::QueueEmpty),
            }
        }
        assert_eq!(q.len(), sent - received, "after step {}", i);
        assert!(q.len() <= cap);
    }
}

#[test]
fn retry_only_on_full_or_empty() {
    assert!(QueueError::QueueFull.is_retryable());
    assert!(QueueError::QueueEmpty.is_retryable());
    assert!(!QueueError::CapZero.is_retryable());
    let e = shmoo::Error::new(shmoo::ErrorKind::IoError(1));
    assert!(!QueueError::ShmError(e).is_retryable());
}

#[test]
fn shared_queue_releases_its_locks() {
    let mut q = SharedQueue::new(1).unwrap();
    let mut slots = [[0u8; 4]; 1];
    q.try_send(&mut slots, *b"ping", 100).unwrap();
    let before = q.state;
    assert_eq!(q.try_send(&mut slots, *b"pong", 100), Err(QueueError::QueueFull));
    assert_eq!(q.state, before);
    assert_eq!(slots, [*b"ping"]);
    assert_eq!(q.try_recv(&slots, 200), Ok(*b"ping"));
    let before = q.state;
    assert_eq!(q.try_recv(&slots, 200), Err(QueueError::QueueEmpty));
    assert_eq!(q.state, before);
    // Both locks are free: either side can release nothing and take them again.
    assert!(q.wr_lock.unlock(100).is_err());
    assert!(q.rd_lock.unlock(200).is_err());
}

#[test]
fn ping_pong_over_one_slot_queues() {
    // A creates a segment sized for a queue header and one 4-byte slot; B
    // opens it and finds the same header.
    let size = std::mem::size_of::<SharedQueue>() + 4;
    let mut a_hdr = Header::create(size).unwrap();
    let base = 4096usize;
    let q_at = a_hdr.place_value::<SharedQueue>(base).unwrap();
    let slot_at = a_hdr.place_value::<[u8; 4]>(base).unwrap();
    assert_eq!(slot_at, q_at + std::mem::size_of::<SharedQueue>());
    let mut bytes = vec![0u8; a_hdr.mapped_len()];
    a_hdr.write_to(&mut bytes);
    let b_hdr = Header::read_from(&bytes).unwrap();
    assert_eq!(b_hdr, a_hdr);
    assert!(b_hdr.check_value_at::<SharedQueue>(q_at, base).is_ok());

    let (pid_a, pid_b) = (1000u32, 2000u32);
    let mut ping_q = SharedQueue::new(1).unwrap();
    let mut pong_q = SharedQueue::new(1).unwrap();
    let mut ping_slots = [[0u8; 4]; 1];
    let mut pong_slots = [[0u8; 4]; 1];
    let rounds = 5;
    let mut b_done = false;
    for _ in 0..rounds {
        ping_q.try_send(&mut ping_slots, *b"ping", pid_a).unwrap();
        assert_eq!(ping_q.try_recv(&ping_slots, pid_b), Ok(*b"ping"));
        pong_q.try_send(&mut pong_slots, *b"pong", pid_b).unwrap();
        assert_eq!(pong_q.try_recv(&pong_slots, pid_a), Ok(*b"pong"));
    }
    pong_q.try_send(&mut pong_slots, *b"done", pid_b).unwrap();
    if pong_q.try_recv(&pong_slots, pid_a) == Ok(*b"done") {
        b_done = true;
    }
    assert!(b_done);
    assert!(ping_q.state.len == 0 && pong_q.state.len == 0);
    // Both handles release the segment: the first removes the name, the second
    // finds it gone, and both end well.
    assert!(unlink_result(None).is_ok());
    assert!(unlink_result(Some(ENOENT)).is_ok());
}
