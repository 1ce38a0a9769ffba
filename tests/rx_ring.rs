use e1000::rx::{RxRing, RxStep};

fn ring8() -> RxRing<u32> {
    let addrs: Vec<u64> = (0..8).map(|i| 0x10_0000 + i * 0x4000).collect();
    RxRing::new(0x2000, &addrs, (100..108).collect())
}

#[test]
fn rx_new_offers_every_buffer() {
    let ring = ring8();
    assert_eq!(ring.ring_size(), 8);
    assert_eq!(ring.ring_bytes(), 128);
    assert_eq!(ring.dma_base(), 0x2000);
    for i in 0..8 {
        let d = ring.desc(i);
        assert_eq!(d.buf_addr, 0x10_0000 + i as u64 * 0x4000);
        assert!(!d.is_done());
        assert_eq!(*ring.buffer(i), 100 + i as u32);
    }
    assert_eq!(ring.dropped(), 0);
}

#[test]
fn rx_poll_delivers_frame_and_refills() {
    let mut ring = ring8();
    let i = 3usize;
    ring.set_done_by_device(i, 64);
    let mut p = ring.poll_begin((i - 1) as u32, 64);
    assert_eq!(p.next_index(), i);
    assert_eq!(ring.poll_ready(&p), Some(64));
    match ring.poll_step(&mut p, Some((0xBEEF_0000, 900))) {
        RxStep::Delivered { frame, len, tail } => {
            assert_eq!(frame, 103);
            assert_eq!(len, 64);
            assert_eq!(tail, 3);
        }
        RxStep::Dropped => panic!("frame dropped"),
    }
    let d = ring.desc(i);
    assert_eq!(d.buf_addr, 0xBEEF_0000);
    assert!(!d.is_done());
    assert_eq!(*ring.buffer(i), 900);
    assert_eq!(ring.poll_ready(&p), None);
    assert_eq!(p.frames_received(), 1);
}

#[test]
fn rx_poll_starts_after_tail_and_wraps() {
    let ring = ring8();
    assert_eq!(ring.poll_begin(7, 10).next_index(), 0);
    assert_eq!(ring.poll_begin(0, 10).next_index(), 1);
    assert_eq!(ring.poll_begin(u32::MAX, 10).next_index(), 0);
}

#[test]
fn rx_poll_respects_budget() {
    let mut ring = ring8();
    for i in 0..8 {
        ring.set_done_by_device(i, 100);
    }
    let mut p = ring.poll_begin(7, 2);
    let mut tails = Vec::new();
    while ring.poll_ready(&p).is_some() {
        match ring.poll_step(&mut p, Some((0x1, 0))) {
            RxStep::Delivered { tail, .. } => tails.push(tail),
            RxStep::Dropped => panic!("frame dropped"),
        }
    }
    assert_eq!(tails, vec![0, 1]);
    assert_eq!(p.frames_received(), 2);
    assert!(ring.desc(2).is_done());
}

#[test]
fn rx_poll_without_buffer_drops_and_keeps_descriptor() {
    let mut ring = ring8();
    ring.set_done_by_device(0, 60);
    let mut p = ring.poll_begin(7, 64);
    assert!(matches!(ring.poll_step(&mut p, None), RxStep::Dropped));
    assert_eq!(ring.dropped(), 1);
    assert_eq!(p.frames_received(), 0);
    assert!(ring.desc(0).is_done());
    assert_eq!(ring.desc(0).buf_addr, 0x10_0000);
    assert_eq!(*ring.buffer(0), 100);
    assert_eq!(ring.poll_ready(&p), None);
    // The next pass retries the same descriptor.
    let mut p = ring.poll_begin(7, 64);
    assert_eq!(ring.poll_ready(&p), Some(60));
    assert!(matches!(ring.poll_step(&mut p, Some((0x77, 5))), RxStep::Delivered { frame: 100, len: 60, tail: 0 }));
}

#[test]
fn rx_release_all_returns_buffers() {
    let ring = ring8();
    assert_eq!(ring.release_all(), (100..108).collect::<Vec<u32>>());
}
