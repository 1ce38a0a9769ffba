//! Transmit and receive descriptors, in the controller's 16-byte formats.
use vstd::prelude::*;
use crate::regs::{STAT_DD, TXD_CMD_EOP, TXD_CMD_RS};

verus! {

/// Legacy transmit descriptor.
#[derive(Clone, Copy, Debug, PartialEq, Eq, Structural)]
pub struct TxDesc {
    pub buf_addr: u64,
    pub length: u16,
    pub cso: u8,
    pub cmd: u8,
    pub sta: u8,
    pub css: u8,
    pub special: u16,
}

/// Receive descriptor.
#[derive(Clone, Copy, Debug, PartialEq, Eq, Structural)]
pub struct RxDesc {
    pub buf_addr: u64,
    pub length: u16,
    pub checksum: u16,
    pub status: u8,
    pub errors: u8,
    pub special: u16,
}

/// Whether the Done bit is set in a status byte.
pub open spec fn dd_set(status: u8) -> bool {
    status & STAT_DD != 0
}

pub proof fn lemma_dd_or(status: u8)
    ensures
        dd_set(status | STAT_DD),
{
    assert((status | 1u8) & 1u8 != 0) by (bit_vector);
}

pub proof fn lemma_dd_zero()
    ensures
        !dd_set(0),
{
    assert(0u8 & 1u8 == 0) by (bit_vector);
}

/// The command byte of a submitted frame: report status, end of packet.
pub open spec fn submit_cmd() -> u8 {
    TXD_CMD_RS | TXD_CMD_EOP
}

/// The transmit descriptor that hands a frame at `addr` of `len` bytes
/// to the device.
pub open spec fn tx_submitted(addr: u64, len: u16) -> TxDesc {
    TxDesc { buf_addr: addr, length: len, cso: 0, cmd: submit_cmd(), sta: 0, css: 0, special: 0 }
}

/// The idle transmit descriptor: Done, so that its slot may be filled.
pub open spec fn tx_idle() -> TxDesc {
    TxDesc { buf_addr: 0, length: 0, cso: 0, cmd: 0, sta: STAT_DD, css: 0, special: 0 }
}

/// A receive descriptor that offers the buffer at `addr` to the device.
pub open spec fn rx_offered(addr: u64) -> RxDesc {
    RxDesc { buf_addr: addr, length: 0, checksum: 0, status: 0, errors: 0, special: 0 }
}

/// The eight bytes of `x`, least significant first.
pub open spec fn le_u64(x: u64) -> Seq<u8> {
    seq![
        x as u8,
        (x >> 8u64) as u8,
        (x >> 16u64) as u8,
        (x >> 24u64) as u8,
        (x >> 32u64) as u8,
        (x >> 40u64) as u8,
        (x >> 48u64) as u8,
        (x >> 56u64) as u8,
    ]
}

/// The two bytes of `x`, least significant first.
pub open spec fn le_u16(x: u16) -> Seq<u8> {
    seq![x as u8, (x >> 8u16) as u8]
}

/// The value of eight bytes at `b[at..at + 8]`, least significant first.
pub open spec fn u64_at(b: Seq<u8>, at: int) -> u64 {
    (b[at] as u64) | ((b[at + 1] as u64) << 8u64) | ((b[at + 2] as u64) << 16u64) | ((b[at
        + 3] as u64) << 24u64) | ((b[at + 4] as u64) << 32u64) | ((b[at + 5] as u64) << 40u64)
        | ((b[at + 6] as u64) << 48u64) | ((b[at + 7] as u64) << 56u64)
}

/// The value of two bytes at `b[at..at + 2]`, least significant first.
pub open spec fn u16_at(b: Seq<u8>, at: int) -> u16 {
    (b[at] as u16) | ((b[at + 1] as u16) << 8u16)
}

/// A transmit descriptor as the device reads it: address, length,
/// checksum offset, command, status, checksum start, special.
pub open spec fn tx_bytes(d: TxDesc) -> Seq<u8> {
    le_u64(d.buf_addr) + le_u16(d.length) + seq![d.cso, d.cmd, d.sta, d.css] + le_u16(d.special)
}

/// A receive descriptor as the device reads it: address, length,
/// checksum, status, errors, special.
pub open spec fn rx_bytes(d: RxDesc) -> Seq<u8> {
    le_u64(d.buf_addr) + le_u16(d.length) + le_u16(d.checksum) + seq![d.status, d.errors]
        + le_u16(d.special)
}

/// The transmit descriptor held in 16 bytes.
pub open spec fn tx_from_bytes(b: Seq<u8>) -> TxDesc {
    TxDesc {
        buf_addr: u64_at(b, 0),
        length: u16_at(b, 8),
        cso: b[10],
        cmd: b[11],
        sta: b[12],
        css: b[13],
        special: u16_at(b, 14),
    }
}

/// The receive descriptor held in 16 bytes.
pub open spec fn rx_from_bytes(b: Seq<u8>) -> RxDesc {
    RxDesc {
        buf_addr: u64_at(b, 0),
        length: u16_at(b, 8),
        checksum: u16_at(b, 10),
        status: b[12],
        errors: b[13],
        special: u16_at(b, 14),
    }
}

fn push_u64(v: &mut Vec<u8>, x: u64)
    ensures
        final(v)@ == old(v)@ + le_u64(x),
{
    v.push(x as u8);
    v.push((x >> 8u64) as u8);
    v.push((x >> 16u64) as u8);
    v.push((x >> 24u64) as u8);
    v.push((x >> 32u64) as u8);
    v.push((x >> 40u64) as u8);
    v.push((x >> 48u64) as u8);
    v.push((x >> 56u64) as u8);
    assert(v@ =~= old(v)@ + le_u64(x));
}

fn push_u16(v: &mut Vec<u8>, x: u16)
    ensures
        final(v)@ == old(v)@ + le_u16(x),
{
    v.push(x as u8);
    v.push((x >> 8u16) as u8);
    assert(v@ =~= old(v)@ + le_u16(x));
}

fn read_u64(b: &[u8], at: usize) -> (r: u64)
    requires
        at + 8 <= b@.len(),
    ensures
        r == u64_at(b@, at as int),
{
    (b[at] as u64) | ((b[at + 1] as u64) << 8u64) | ((b[at + 2] as u64) << 16u64) | ((b[at
        + 3] as u64) << 24u64) | ((b[at + 4] as u64) << 32u64) | ((b[at + 5] as u64) << 40u64)
        | ((b[at + 6] as u64) << 48u64) | ((b[at + 7] as u64) << 56u64)
}

fn read_u16(b: &[u8], at: usize) -> (r: u16)
    requires
        at + 2 <= b@.len(),
    ensures
        r == u16_at(b@, at as int),
{
    (b[at] as u16) | ((b[at + 1] as u16) << 8u16)
}

/// Reading back the bytes of a value gives the value.
pub proof fn lemma_u64_round_trip(x: u64)
    ensures
        u64_at(le_u64(x), 0) == x,
{
    assert(((x as u8) as u64) | ((((x >> 8u64) as u8) as u64) << 8u64) | ((((x >> 16u64) as u8)
        as u64) << 16u64) | ((((x >> 24u64) as u8) as u64) << 24u64) | ((((x >> 32u64) as u8)
        as u64) << 32u64) | ((((x >> 40u64) as u8) as u64) << 40u64) | ((((x >> 48u64) as u8)
        as u64) << 48u64) | ((((x >> 56u64) as u8) as u64) << 56u64) == x) by (bit_vector);
}

pub proof fn lemma_u16_round_trip(x: u16)
    ensures
        u16_at(le_u16(x), 0) == x,
{
    assert(((x as u8) as u16) | ((((x >> 8u16) as u8) as u16) << 8u16) == x) by (bit_vector);
}

impl TxDesc {
    pub open spec fn done(&self) -> bool {
        dd_set(self.sta)
    }

    /// Whether the device has finished with this descriptor.
    pub fn is_done(&self) -> (r: bool)
        ensures
            r == self.done(),
    {
        self.sta & STAT_DD != 0
    }

    /// The 16 bytes the device reads for this descriptor.
    pub fn to_bytes(&self) -> (r: Vec<u8>)
        ensures
            r@ == tx_bytes(*self),
            r@.len() == 16,
    {
        let mut v: Vec<u8> = Vec::new();
        push_u64(&mut v, self.buf_addr);
        push_u16(&mut v, self.length);
        v.push(self.cso);
        v.push(self.cmd);
        v.push(self.sta);
        v.push(self.css);
        push_u16(&mut v, self.special);
        assert(v@ =~= tx_bytes(*self));
        v
    }

    /// The descriptor held in 16 bytes as the device writes them.
    pub fn from_bytes(b: &[u8]) -> (r: TxDesc)
        requires
            b@.len() == 16,
        ensures
            r == tx_from_bytes(b@),
    {
        TxDesc {
            buf_addr: read_u64(b, 0),
            length: read_u16(b, 8),
            cso: b[10],
            cmd: b[11],
            sta: b[12],
            css: b[13],
            special: read_u16(b, 14),
        }
    }
}

impl RxDesc {
    /// The 16 bytes the device reads for this descriptor.
    pub fn to_bytes(&self) -> (r: Vec<u8>)
        ensures
            r@ == rx_bytes(*self),
            r@.len() == 16,
    {
        let mut v: Vec<u8> = Vec::new();
        push_u64(&mut v, self.buf_addr);
        push_u16(&mut v, self.length);
        push_u16(&mut v, self.checksum);
        v.push(self.status);
        v.push(self.errors);
        push_u16(&mut v, self.special);
        assert(v@ =~= rx_bytes(*self));
        v
    }

    /// The descriptor held in 16 bytes as the device writes them.
    pub fn from_bytes(b: &[u8]) -> (r: RxDesc)
        requires
            b@.len() == 16,
        ensures
            r == rx_from_bytes(b@),
    {
        RxDesc {
            buf_addr: read_u64(b, 0),
            length: read_u16(b, 8),
            checksum: read_u16(b, 10),
            status: b[12],
            errors: b[13],
            special: read_u16(b, 14),
        }
    }
}

/// Decoding the bytes of a transmit descriptor gives it back.
pub proof fn tx_bytes_round_trip(d: TxDesc)
    ensures
        tx_from_bytes(tx_bytes(d)) == d,
{
    let b = tx_bytes(d);
    lemma_u64_round_trip(d.buf_addr);
    lemma_u16_round_trip(d.length);
    lemma_u16_round_trip(d.special);
    assert(u64_at(b, 0) == u64_at(le_u64(d.buf_addr), 0));
    assert(u16_at(b, 8) == u16_at(le_u16(d.length), 0));
    assert(u16_at(b, 14) == u16_at(le_u16(d.special), 0));
}

/// Decoding the bytes of a receive descriptor gives it back.
pub proof fn rx_bytes_round_trip(d: RxDesc)
    ensures
        rx_from_bytes(rx_bytes(d)) == d,
{
    let b = rx_bytes(d);
    lemma_u64_round_trip(d.buf_addr);
    lemma_u16_round_trip(d.length);
    lemma_u16_round_trip(d.checksum);
    lemma_u16_round_trip(d.special);
    assert(u64_at(b, 0) == u64_at(le_u64(d.buf_addr), 0));
    assert(u16_at(b, 8) == u16_at(le_u16(d.length), 0));
    assert(u16_at(b, 10) == u16_at(le_u16(d.checksum), 0));
    assert(u16_at(b, 14) == u16_at(le_u16(d.special), 0));
}

impl RxDesc {
    pub open spec fn done(&self) -> bool {
        dd_set(self.status)
    }

    /// Whether the device has filled this descriptor.
    pub fn is_done(&self) -> (r: bool)
        ensures
            r == self.done(),
    {
        self.status & STAT_DD != 0
    }
}

} // verus!
