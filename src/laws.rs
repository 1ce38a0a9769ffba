//! Properties that hold across the operations of the rings and the poll
//! gate, proved from their contracts.
use vstd::prelude::*;
use crate::configure::{tctl_value, tx_script, wr};
use crate::irq::PollGate;
use crate::regs::{BLOCK_SIZE, E1000_TCTL, E1000_TCTL_EN, E1000_TDH, E1000_TDT, ETH_ZLEN};
use crate::ring::{distance, index_at, next_index};
use crate::tx::{TxBusy, TxGrant, TxRing};

verus! {

/// The frames in flight on a transmit ring never exceed its size: they
/// run from next-to-clean up to the tail, and the tail meets next-to-clean
/// again only when every descriptor is in flight.
pub proof fn tx_in_flight_bounded<B>(r: TxRing<B>)
    requires
        r.wf(),
    ensures
        r.pending() <= r.size(),
        r.pending() < r.size() ==> distance(r.clean_index(), r.tail_index(), r.size()) == r.pending(),
        r.pending() == r.size() ==> r.tail_index() == r.clean_index(),
{
}

/// Transmission starts on an empty ring: configuring the transmit unit
/// sets head and tail to 0 before the write of the transmit control
/// register, which enables the unit.
pub proof fn tx_enabled_on_empty_ring(base: u64, n: int)
    ensures
        tx_script(base, n)[0] == wr(E1000_TDH, 0),
        tx_script(base, n)[1] == wr(E1000_TDT, 0),
        tx_script(base, n)[5] == wr(E1000_TCTL, tctl_value()),
        tctl_value() & E1000_TCTL_EN != 0,
        forall|j: int| 0 <= j < 5 ==> !(#[trigger] tx_script(base, n)[j] is MmioWrite && tx_script(base, n)[j]->MmioWrite_offset == E1000_TCTL),
{
    assert((2u32 | 8u32 | (0x10u32 << 4u32) | (0x40u32 << 12u32)) & 2u32 != 0) by (bit_vector);
}

/// Submission never takes a descriptor the device still owns: a packet is
/// accepted only where the tail's descriptor is Done, and committing it
/// leaves every descriptor whose buffer is held and whose Done bit is
/// clear, and its slot, as they were.
pub proof fn submit_never_overwrites_owned<B>(
    pre: TxRing<B>,
    post: TxRing<B>,
    len: int,
    addr: u64,
    buf: B,
    displaced: Option<B>,
)
    requires
        pre.wf(),
        pre.check_spec(len) is Ok,
        TxRing::commit_post(pre, post, pre.check_spec(len)->Ok_0, addr, buf, displaced),
    ensures
        pre.descs()[pre.tail_index()].done(),
        forall|i: int|
            0 <= i < pre.size() && pre.slots()[i] is Some && !pre.descs()[i].done() ==> {
                &&& #[trigger] post.descs()[i] == pre.descs()[i]
                &&& post.slots()[i] == pre.slots()[i]
            },
{
}

/// Reclaim never runs past the head snapshot it was given: the number of
/// frames reclaimed is at most the distance from next-to-clean to that
/// head, and next-to-clean moves forward by exactly that number.
pub proof fn recycle_stops_at_head<B>(pre: TxRing<B>, post: TxRing<B>, head: int, out: Seq<B>)
    requires
        pre.wf(),
        0 <= head < pre.size(),
        TxRing::recycle_post(pre, post, head, out),
    ensures
        out.len() <= distance(pre.clean_index(), head, pre.size()),
        distance(pre.clean_index(), post.clean_index(), pre.size()) == out.len(),
{
    let n = pre.size();
    let s = pre.clean_index();
    let d = distance(s, head, n);
    let k = out.len() as int;
    if k > d {
        assert(index_at(s, d, n) != head);
        assert(index_at(s, d, n) == head);
    }
}

/// Round trip: on a transmit ring with nothing in flight, a packet of
/// `len` bytes (at least the Ethernet minimum, at most a block) is
/// accepted; once the device marks its descriptor Done and reports its
/// head one past it, one reclaim returns exactly that packet's buffer,
/// one completion, and leaves nothing in flight.
pub proof fn submit_then_recycle<B>(
    r0: TxRing<B>,
    r1: TxRing<B>,
    r2: TxRing<B>,
    r3: TxRing<B>,
    len: int,
    addr: u64,
    buf: B,
    out: Seq<B>,
)
    requires
        r0.wf(),
        r0.pending() == 0,
        ETH_ZLEN <= len <= BLOCK_SIZE,
        TxRing::commit_post(
            r0,
            r1,
            TxGrant { index: r0.tail_index() as usize, frame_len: len as usize },
            addr,
            buf,
            None,
        ),
        TxRing::writeback_post(r1, r2, r0.tail_index()),
        TxRing::recycle_post(r2, r3, r1.tail_index(), out),
    ensures
        r0.check_spec(len) == Ok::<TxGrant, TxBusy>(
            TxGrant { index: r0.tail_index() as usize, frame_len: len as usize },
        ),
        out == seq![buf],
        r3.pending() == 0,
        r3.slots()[r0.tail_index()] is None,
        r3.clean_index() == r1.tail_index(),
{
    let n = r0.size();
    let t = r0.tail_index();
    assert(distance(r0.clean_index(), t, n) == 0);
    assert(r0.slots()[t] is None);
    assert(r0.descs()[t].done());
    let head = r1.tail_index();
    assert(head == next_index(t, n));
    assert(r2.clean_index() == t);
    assert(r2.slots()[t] == Some(buf));
    assert(TxRing::<B>::clean_run(r2.descs(), r2.slots(), head, head, n, (n - 1) as nat) == 0);
    assert(r2.reclaimable(head) == 1);
    assert(out =~= seq![buf]);
}

/// Polls are single-flight: a poll starts only when none is running, and
/// at no point does more than one run.
pub proof fn poll_single_flight(pre: PollGate, post: PollGate, started: bool)
    requires
        PollGate::begin_post(pre, post, started),
    ensures
        started ==> pre.active() == 0 && post.active() == 1,
        !started ==> post.active() == pre.active(),
        post.active() <= 1,
{
}

} // verus!
