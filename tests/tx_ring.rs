use e1000::regs::{BLOCK_SIZE, ETH_ZLEN};
use e1000::tx::{padded_len, TxBusy, TxGrant, TxRing};

/// Submits a packet of `len` bytes carried by `buf`, mapped at `addr`.
fn submit(ring: &mut TxRing<u32>, len: usize, addr: u64, buf: u32) -> Result<u32, TxBusy> {
    let g = ring.check_submit(len)?;
    let c = ring.commit(g, addr, buf);
    assert_eq!(c.displaced, None);
    Ok(c.doorbell)
}

#[test]
fn tx_new_ring_is_empty_and_done() {
    let ring: TxRing<u32> = TxRing::new(8, 0x1000);
    assert_eq!(ring.ring_size(), 8);
    assert_eq!(ring.dma_base(), 0x1000);
    assert_eq!(ring.ring_bytes(), 128);
    for i in 0..8 {
        assert!(ring.desc(i).is_done());
        assert!(!ring.is_held(i));
    }
    assert_eq!(ring.tail(), 0);
    assert_eq!(ring.next_to_clean(), 0);
}

#[test]
fn tx_ring_of_eight_fills_then_reports_busy() {
    let mut ring: TxRing<u32> = TxRing::new(8, 0x1000);
    for k in 0..8u32 {
        let doorbell = submit(&mut ring, 100, 0x10_0000 + k as u64 * 0x800, k).unwrap();
        assert_eq!(doorbell, (k + 1) % 8);
    }
    assert!(ring.is_held(7));
    assert!(!ring.desc(0).is_done());
    assert_eq!(ring.check_submit(100), Err(TxBusy::Full));
    assert_eq!(ring.tail(), 0);
}

#[test]
fn tx_submit_writes_descriptor() {
    let mut ring: TxRing<u32> = TxRing::new(8, 0x1000);
    let g = ring.check_submit(1500).unwrap();
    assert_eq!(g, TxGrant { index: 0, frame_len: 1500 });
    let c = ring.commit(g, 0xABCD_0000, 42);
    assert_eq!(c.doorbell, 1);
    assert_eq!(c.displaced, None);
    let d = ring.desc(0);
    assert_eq!(d.buf_addr, 0xABCD_0000);
    assert_eq!(d.length, 1500);
    assert_eq!(d.cmd, 0x09);
    assert_eq!(d.sta, 0);
    assert!(!d.is_done());
    assert!(ring.is_held(0));
    assert_eq!(ring.tail(), 1);
}

#[test]
fn tx_short_packet_is_padded() {
    let mut ring: TxRing<u32> = TxRing::new(8, 0x1000);
    let g = ring.check_submit(14).unwrap();
    assert_eq!(g.frame_len, ETH_ZLEN);
    ring.commit(g, 0x5000, 1);
    assert_eq!(ring.desc(0).length, 60);
    assert_eq!(padded_len(0), 60);
    assert_eq!(padded_len(60), 60);
    assert_eq!(padded_len(61), 61);
}

#[test]
fn tx_too_long_is_busy() {
    let ring: TxRing<u32> = TxRing::new(8, 0x1000);
    assert_eq!(ring.check_submit(BLOCK_SIZE + 1), Err(TxBusy::TooLong));
    assert_eq!(ring.check_submit(BLOCK_SIZE), Ok(TxGrant { index: 0, frame_len: BLOCK_SIZE }));
}

#[test]
fn tx_round_trip_one_packet() {
    let mut ring: TxRing<u32> = TxRing::new(8, 0x1000);
    let doorbell = submit(&mut ring, ETH_ZLEN, 0x7000, 77).unwrap();
    assert_eq!(doorbell, 1);
    ring.set_done_by_device(0);
    let freed = ring.recycle(1);
    assert_eq!(freed, vec![77]);
    assert!(!ring.is_held(0));
    assert_eq!(ring.next_to_clean(), 1);
    // Nothing more to reclaim.
    assert_eq!(ring.recycle(1), Vec::<u32>::new());
}

#[test]
fn tx_recycle_stops_at_head_snapshot() {
    let mut ring: TxRing<u32> = TxRing::new(8, 0x1000);
    for k in 0..4u32 {
        submit(&mut ring, 200, 0x9000 + k as u64, k).unwrap();
    }
    for i in 0..4 {
        ring.set_done_by_device(i);
    }
    // The device reports its head at 2 although 2 and 3 show Done.
    assert_eq!(ring.recycle(2), vec![0, 1]);
    assert_eq!(ring.next_to_clean(), 2);
    assert!(ring.is_held(2));
    assert!(ring.is_held(3));
    assert_eq!(ring.recycle(4), vec![2, 3]);
    assert_eq!(ring.next_to_clean(), 4);
}

#[test]
fn tx_recycle_stops_at_unfinished_descriptor() {
    let mut ring: TxRing<u32> = TxRing::new(8, 0x1000);
    for k in 0..3u32 {
        submit(&mut ring, 200, 0x9000, k).unwrap();
    }
    ring.set_done_by_device(0);
    ring.set_done_by_device(2);
    assert_eq!(ring.recycle(3), vec![0]);
    assert_eq!(ring.next_to_clean(), 1);
}

#[test]
fn tx_full_ring_reclaims_after_completion() {
    let mut ring: TxRing<u32> = TxRing::new(8, 0x1000);
    for k in 0..8u32 {
        submit(&mut ring, 64, 0x100, k).unwrap();
    }
    ring.set_done_by_device(0);
    assert_eq!(ring.recycle(1), vec![0]);
    assert_eq!(submit(&mut ring, 64, 0x200, 8), Ok(1));
}

#[test]
fn tx_full_ring_accepts_when_tail_done() {
    let mut ring: TxRing<u32> = TxRing::new(8, 0x1000);
    for k in 0..8u32 {
        submit(&mut ring, 64, 0x100, k).unwrap();
    }
    ring.set_done_by_device(0);
    // Done but not reclaimed: the packet is taken and the sent buffer comes back.
    let g = ring.check_submit(64).unwrap();
    assert_eq!(g, TxGrant { index: 0, frame_len: 64 });
    let c = ring.commit(g, 0x200, 8);
    assert_eq!(c.doorbell, 1);
    assert_eq!(c.displaced, Some(0));
    assert_eq!(ring.next_to_clean(), 1);
    assert_eq!(ring.tail(), 1);
    assert!(!ring.desc(0).is_done());
    assert_eq!(ring.check_submit(64), Err(TxBusy::Full));
    ring.set_done_by_device(1);
    assert_eq!(ring.recycle(2), vec![1]);
    assert_eq!(ring.next_to_clean(), 2);
}

#[test]
fn tx_device_writeback_keeps_other_fields() {
    let mut ring: TxRing<u32> = TxRing::new(8, 0x1000);
    submit(&mut ring, 300, 0xAA00, 1).unwrap();
    let before = ring.desc(0);
    ring.set_done_by_device(0);
    let after = ring.desc(0);
    assert_eq!(after.sta, 0x01);
    assert_eq!(after.cmd, before.cmd);
    assert_eq!(after.buf_addr, before.buf_addr);
    assert_eq!(after.length, before.length);
    assert_eq!(after.special, before.special);
}

#[test]
fn tx_wraps_around_the_ring() {
    let mut ring: TxRing<u32> = TxRing::new(8, 0x1000);
    for k in 0..20u32 {
        let i = ring.tail();
        submit(&mut ring, 100, 0x100, k).unwrap();
        ring.set_done_by_device(i);
        assert_eq!(ring.recycle(((i + 1) % 8) as u32), vec![k]);
    }
    assert_eq!(ring.tail(), 4);
    assert_eq!(ring.next_to_clean(), 4);
}

#[test]
fn tx_release_all_returns_held_buffers() {
    let mut ring: TxRing<u32> = TxRing::new(8, 0x1000);
    for k in 0..3u32 {
        submit(&mut ring, 100, 0x100, 10 + k).unwrap();
    }
    assert_eq!(ring.release_all(), vec![10, 11, 12]);
}
