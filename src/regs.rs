//! Register map of the 82540EM controller: byte offsets into the
//! memory-mapped region and the bit fields the driver programs.
use vstd::prelude::*;

verus! {

/// Device Control (read/write).
pub const E1000_CTRL: usize = 0x00000;
/// Device Status (read only); read to flush posted writes.
pub const E1000_STATUS: usize = 0x00008;
/// Interrupt Mask Clear (write only).
pub const E1000_IMC: usize = 0x000D8;
/// Interrupt Mask Set (read/write).
pub const E1000_IMS: usize = 0x000D0;
/// Receive Control.
pub const E1000_RCTL: usize = 0x00100;
/// Transmit Control.
pub const E1000_TCTL: usize = 0x00400;
/// Management Control.
pub const E1000_MANC: usize = 0x05820;
/// Interrupt Cause Read (clears on read).
pub const E1000_ICR: usize = 0x000C0;
/// Receive Address array: low word of entry 0; the high word follows it.
pub const E1000_RA: usize = 0x05400;
/// Multicast Table Array (128 entries of 4 bytes).
pub const E1000_MTA: usize = 0x05200;
/// Number of entries in the multicast table.
pub const MTA_ENTRIES: usize = 128;

/// RX descriptor head.
pub const E1000_RDH: usize = 0x02810;
/// RX descriptor tail.
pub const E1000_RDT: usize = 0x02818;
/// RX descriptor ring length in bytes.
pub const E1000_RDLEN: usize = 0x02808;
/// RX descriptor base address, low 32 bits.
pub const E1000_RDBAL: usize = 0x02800;
/// RX descriptor base address, high 32 bits.
pub const E1000_RDBAH: usize = 0x02804;
/// TX descriptor head.
pub const E1000_TDH: usize = 0x03810;
/// TX descriptor tail (the doorbell).
pub const E1000_TDT: usize = 0x03818;
/// TX descriptor ring length in bytes.
pub const E1000_TDLEN: usize = 0x03808;
/// TX descriptor base address, low 32 bits.
pub const E1000_TDBAL: usize = 0x03800;
/// TX descriptor base address, high 32 bits.
pub const E1000_TDBAH: usize = 0x03804;
/// TX inter-packet gap.
pub const E1000_TIPG: usize = 0x00410;
/// RX delay timer.
pub const E1000_RDTR: usize = 0x02820;
/// RX interrupt absolute delay timer.
pub const E1000_RADV: usize = 0x0282C;

/// I/O-port window: offset of the address (index) register.
pub const IO_ADDR_PORT: usize = 0;
/// I/O-port window: offset of the data register.
pub const IO_DATA_PORT: usize = 4;

/// TCTL: pad short packets.
pub const E1000_TCTL_PSP: u32 = 0x00000008;
/// TCTL: transmit enable.
pub const E1000_TCTL_EN: u32 = 0x00000002;
/// TCTL: shift of the collision threshold field.
pub const E1000_CT_SHIFT: u32 = 4;
/// TCTL: shift of the collision distance field.
pub const E1000_COLD_SHIFT: u32 = 12;
/// Collision threshold programmed into TCTL.
pub const TX_COLLISION_THRESHOLD: u32 = 0x10;
/// Collision distance programmed into TCTL.
pub const TX_COLLISION_DISTANCE: u32 = 0x40;

/// RCTL: receive enable.
pub const E1000_RCTL_EN: u32 = 0x00000002;
/// RCTL: accept broadcast.
pub const E1000_RCTL_BAM: u32 = 0x00008000;
/// RCTL: 2048-byte receive buffers (the all-zero size encoding).
pub const E1000_RCTL_SZ_2048: u32 = 0x00000000;
/// RCTL: strip the Ethernet CRC.
pub const E1000_RCTL_SECRC: u32 = 0x04000000;

/// CTRL: global device reset.
pub const E1000_CTRL_RST: u32 = 0x04000000;
/// MANC: hardware ARP request filtering.
pub const E1000_MANC_ARP_EN: u32 = 0x00002000;
/// RAH: address-valid flag.
pub const E1000_RAH_AV: u32 = 0x80000000;

/// TIPG defaults for copper links (82543-compatible).
pub const DEFAULT_82543_TIPG_IPGT_COPPER: u32 = 8;
pub const DEFAULT_82543_TIPG_IPGR1: u32 = 8;
pub const E1000_TIPG_IPGR1_SHIFT: u32 = 10;
pub const DEFAULT_82543_TIPG_IPGR2: u32 = 6;
pub const E1000_TIPG_IPGR2_SHIFT: u32 = 20;

/// Descriptor status: descriptor done (TX and RX).
pub const STAT_DD: u8 = 0x01;
/// TX descriptor command: report status.
pub const TXD_CMD_RS: u8 = 0x08;
/// TX descriptor command: end of packet.
pub const TXD_CMD_EOP: u8 = 0x01;

/// Interrupt causes.
pub const E1000_ICR_TXDW: u32 = 0x00000001;
pub const E1000_ICR_LSC: u32 = 0x00000004;
pub const E1000_ICR_RXSEQ: u32 = 0x00000008;
pub const E1000_ICR_RXDMT0: u32 = 0x00000010;
pub const E1000_ICR_RXT0: u32 = 0x00000080;

/// Every interrupt cause bit; written to IMC to mask them all.
pub const ALL_INTERRUPTS: u32 = 0xFFFFFFFF;

/// Minimum Ethernet frame length without the CRC.
pub const ETH_ZLEN: usize = 60;
/// Size of one packet buffer block, the largest frame the rings carry.
pub const BLOCK_SIZE: usize = 16384;
/// Size in bytes of one TX or RX descriptor.
pub const DESC_SIZE: usize = 16;

/// PCI identity of the supported controller.
pub const E1000_VENDOR_ID: u32 = 0x8086;
pub const E1000_DEVICE_ID: u32 = 0x100E;

/// Station address used when none is read from the EEPROM.
pub const MAC_ADDR: [u8; 6] = [0x52, 0x54, 0x00, 0x12, 0x34, 0x56];

/// Ring sizes the controller accepts: the ring length register takes a
/// multiple of 128 bytes (8 descriptors), at most 65528 descriptors
/// (the length field is bits 19:7 of the register).
pub open spec fn valid_ring_size(n: int) -> bool {
    8 <= n <= 65528 && n % 8 == 0
}

pub fn is_valid_ring_size(n: usize) -> (r: bool)
    ensures
        r == valid_ring_size(n as int),
{
    8 <= n && n <= 65528 && n % 8 == 0
}

} // verus!
