//! Programming the receive and transmit units after a reset: the exact
//! sequence of register writes.
use vstd::prelude::*;
use crate::ops::RegOp;
use crate::regs::{
    DEFAULT_82543_TIPG_IPGR1, DEFAULT_82543_TIPG_IPGR2, DEFAULT_82543_TIPG_IPGT_COPPER, DESC_SIZE,
    E1000_COLD_SHIFT, E1000_CT_SHIFT, E1000_ICR_LSC, E1000_ICR_RXDMT0, E1000_ICR_RXSEQ,
    E1000_ICR_RXT0, E1000_ICR_TXDW, E1000_IMS, E1000_MTA, E1000_RA, E1000_RADV, E1000_RAH_AV,
    E1000_RCTL, E1000_RCTL_BAM, E1000_RCTL_EN, E1000_RCTL_SECRC, E1000_RCTL_SZ_2048, E1000_RDBAH,
    E1000_RDBAL, E1000_RDH, E1000_RDLEN, E1000_RDT, E1000_RDTR, E1000_TCTL, E1000_TCTL_EN,
    E1000_TCTL_PSP, E1000_TDBAH, E1000_TDBAL, E1000_TDH, E1000_TDLEN, E1000_TDT, E1000_TIPG,
    E1000_TIPG_IPGR1_SHIFT, E1000_TIPG_IPGR2_SHIFT, MTA_ENTRIES, TX_COLLISION_DISTANCE,
    TX_COLLISION_THRESHOLD, valid_ring_size,
};
use crate::rx::RxRing;
use crate::tx::TxRing;

verus! {

/// A memory-mapped register write.
pub open spec fn wr(offset: usize, value: u32) -> RegOp {
    RegOp::MmioWrite { offset, value }
}

/// Low word of the receive address register: the first four bytes of the
/// station address, first byte lowest.
pub open spec fn ral_of(mac: Seq<u8>) -> u32 {
    (mac[0] as u32) | ((mac[1] as u32) << 8u32) | ((mac[2] as u32) << 16u32) | ((mac[3] as u32)
        << 24u32)
}

/// High word of the receive address register: the last two bytes of the
/// station address and the address-valid flag.
pub open spec fn rah_of(mac: Seq<u8>) -> u32 {
    (mac[4] as u32) | ((mac[5] as u32) << 8u32) | E1000_RAH_AV
}

/// Receive control: enabled, broadcast accepted, 2048-byte buffers, CRC
/// stripped.
pub open spec fn rctl_value() -> u32 {
    E1000_RCTL_EN | E1000_RCTL_BAM | E1000_RCTL_SZ_2048 | E1000_RCTL_SECRC
}

/// Transmit control: enabled, short packets padded, collision threshold
/// and distance.
pub open spec fn tctl_value() -> u32 {
    E1000_TCTL_EN | E1000_TCTL_PSP | (TX_COLLISION_THRESHOLD << E1000_CT_SHIFT) | (
    TX_COLLISION_DISTANCE << E1000_COLD_SHIFT)
}

/// Inter-packet gap timing for copper links.
pub open spec fn tipg_value() -> u32 {
    DEFAULT_82543_TIPG_IPGT_COPPER | (DEFAULT_82543_TIPG_IPGR1 << E1000_TIPG_IPGR1_SHIFT) | (
    DEFAULT_82543_TIPG_IPGR2 << E1000_TIPG_IPGR2_SHIFT)
}

/// The interrupt causes the driver serves.
pub open spec fn ims_value() -> u32 {
    E1000_ICR_TXDW | E1000_ICR_RXT0 | E1000_ICR_RXDMT0 | E1000_ICR_RXSEQ | E1000_ICR_LSC
}

/// The writes that set up reception on a ring of `n` descriptors at `base`.
/// The tail starts at `n - 1`: every descriptor is handed to the device.
pub open spec fn rx_script(base: u64, n: int, mac: Seq<u8>) -> Seq<RegOp> {
    seq![wr(E1000_RA, ral_of(mac)), wr((E1000_RA + 4) as usize, rah_of(mac))] + Seq::new(
        MTA_ENTRIES as nat,
        |i: int| wr((E1000_MTA + 4 * i) as usize, 0),
    ) + seq![
        wr(E1000_RDH, 0),
        wr(E1000_RDT, (n - 1) as u32),
        wr(E1000_RDLEN, (n * DESC_SIZE) as u32),
        wr(E1000_RDBAL, base as u32),
        wr(E1000_RDBAH, 0),
        wr(E1000_RCTL, rctl_value()),
        wr(E1000_RDTR, 0),
        wr(E1000_RADV, 0),
    ]
}

/// The writes that set up transmission on a ring of `n` descriptors at
/// `base`.
pub open spec fn tx_script(base: u64, n: int) -> Seq<RegOp> {
    seq![
        wr(E1000_TDH, 0),
        wr(E1000_TDT, 0),
        wr(E1000_TDLEN, (n * DESC_SIZE) as u32),
        wr(E1000_TDBAL, base as u32),
        wr(E1000_TDBAH, 0),
        wr(E1000_TCTL, tctl_value()),
        wr(E1000_TIPG, tipg_value()),
    ]
}

/// The whole configuration: reception, transmission, then the interrupt
/// causes.
pub open spec fn configure_script(
    rx_base: u64,
    rx_n: int,
    tx_base: u64,
    tx_n: int,
    mac: Seq<u8>,
) -> Seq<RegOp> {
    rx_script(rx_base, rx_n, mac) + tx_script(tx_base, tx_n) + seq![wr(E1000_IMS, ims_value())]
}

/// The receive-unit writes for a ring of `n` descriptors at `base`, with
/// station address `mac`.
pub fn configure_rx_ops(base: u64, n: usize, mac: [u8; 6]) -> (r: Vec<RegOp>)
    requires
        valid_ring_size(n as int),
        base <= u32::MAX,
    ensures
        r@ == rx_script(base, n as int, mac@),
{
    let mut v: Vec<RegOp> = Vec::new();
    let ral: u32 = (mac[0] as u32) | ((mac[1] as u32) << 8u32) | ((mac[2] as u32) << 16u32) | ((
    mac[3] as u32) << 24u32);
    let rah: u32 = (mac[4] as u32) | ((mac[5] as u32) << 8u32) | E1000_RAH_AV;
    v.push(RegOp::MmioWrite { offset: E1000_RA, value: ral });
    v.push(RegOp::MmioWrite { offset: E1000_RA + 4, value: rah });
    let ghost head = v@;
    let mut i: usize = 0;
    while i < MTA_ENTRIES
        invariant
            i <= MTA_ENTRIES,
            v@ == head + Seq::new(i as nat, |j: int| wr((E1000_MTA + 4 * j) as usize, 0)),
        decreases MTA_ENTRIES - i,
    {
        v.push(RegOp::MmioWrite { offset: E1000_MTA + i * 4, value: 0 });
        i = i + 1;
        assert(v@ =~= head + Seq::new(i as nat, |j: int| wr((E1000_MTA + 4 * j) as usize, 0)));
    }
    v.push(RegOp::MmioWrite { offset: E1000_RDH, value: 0 });
    v.push(RegOp::MmioWrite { offset: E1000_RDT, value: (n - 1) as u32 });
    v.push(RegOp::MmioWrite { offset: E1000_RDLEN, value: (n * DESC_SIZE) as u32 });
    v.push(RegOp::MmioWrite { offset: E1000_RDBAL, value: base as u32 });
    v.push(RegOp::MmioWrite { offset: E1000_RDBAH, value: 0 });
    v.push(
        RegOp::MmioWrite {
            offset: E1000_RCTL,
            value: E1000_RCTL_EN | E1000_RCTL_BAM | E1000_RCTL_SZ_2048 | E1000_RCTL_SECRC,
        },
    );
    v.push(RegOp::MmioWrite { offset: E1000_RDTR, value: 0 });
    v.push(RegOp::MmioWrite { offset: E1000_RADV, value: 0 });
    assert(v@ =~= rx_script(base, n as int, mac@));
    v
}

/// The transmit-unit writes for a ring of `n` descriptors at `base`.
pub fn configure_tx_ops(base: u64, n: usize) -> (r: Vec<RegOp>)
    requires
        valid_ring_size(n as int),
        base <= u32::MAX,
    ensures
        r@ == tx_script(base, n as int),
{
    let mut v: Vec<RegOp> = Vec::new();
    v.push(RegOp::MmioWrite { offset: E1000_TDH, value: 0 });
    v.push(RegOp::MmioWrite { offset: E1000_TDT, value: 0 });
    v.push(RegOp::MmioWrite { offset: E1000_TDLEN, value: (n * DESC_SIZE) as u32 });
    v.push(RegOp::MmioWrite { offset: E1000_TDBAL, value: base as u32 });
    v.push(RegOp::MmioWrite { offset: E1000_TDBAH, value: 0 });
    v.push(
        RegOp::MmioWrite {
            offset: E1000_TCTL,
            value: E1000_TCTL_EN | E1000_TCTL_PSP | (TX_COLLISION_THRESHOLD << E1000_CT_SHIFT) | (
            TX_COLLISION_DISTANCE << E1000_COLD_SHIFT),
        },
    );
    v.push(
        RegOp::MmioWrite {
            offset: E1000_TIPG,
            value: DEFAULT_82543_TIPG_IPGT_COPPER | (DEFAULT_82543_TIPG_IPGR1
                << E1000_TIPG_IPGR1_SHIFT) | (DEFAULT_82543_TIPG_IPGR2 << E1000_TIPG_IPGR2_SHIFT),
        },
    );
    assert(v@ =~= tx_script(base, n as int));
    v
}

/// Every write that configures the device for the two rings, in order:
/// reception, transmission, then the interrupt causes served. The rings'
/// descriptor arrays must lie below 4 GiB: only the low base-address
/// registers are programmed.
pub fn configure_ops<B, C>(rx: &RxRing<B>, tx: &TxRing<C>, mac: [u8; 6]) -> (r: Vec<RegOp>)
    requires
        rx.wf(),
        tx.wf(),
        rx.base() <= u32::MAX,
        tx.base() <= u32::MAX,
    ensures
        r@ == configure_script(rx.base(), rx.size(), tx.base(), tx.size(), mac@),
{
    let mut v = configure_rx_ops(rx.dma_base(), rx.ring_size(), mac);
    let mut t = configure_tx_ops(tx.dma_base(), tx.ring_size());
    v.append(&mut t);
    v.push(
        RegOp::MmioWrite {
            offset: E1000_IMS,
            value: E1000_ICR_TXDW | E1000_ICR_RXT0 | E1000_ICR_RXDMT0 | E1000_ICR_RXSEQ
                | E1000_ICR_LSC,
        },
    );
    assert(v@ =~= configure_script(rx.base(), rx.size(), tx.base(), tx.size(), mac@));
    v
}

} // verus!
