//! The transmit ring: descriptors shared with the device, the buffers the
//! driver holds for them, and the cursors of submission and reclaim.
use vstd::prelude::*;
use crate::desc::{TxDesc, dd_set, lemma_dd_or, lemma_dd_zero, tx_idle, tx_submitted};
use crate::regs::{BLOCK_SIZE, DESC_SIZE, ETH_ZLEN, STAT_DD, TXD_CMD_EOP, TXD_CMD_RS, valid_ring_size};
use crate::ring::{advance, distance, held, index_at, next_index};

verus! {

/// Why a frame was not taken.
#[derive(Clone, Copy, Debug, PartialEq, Eq, Structural)]
pub enum TxBusy {
    /// The frame is longer than a buffer block.
    TooLong,
    /// The descriptor at the tail is still owned by the device (its Done
    /// bit is clear).
    Full,
}

/// Leave to fill the descriptor at `index` with a frame of `frame_len`
/// bytes (the packet, padded to the Ethernet minimum).
#[derive(Clone, Copy, Debug, PartialEq, Eq, Structural)]
pub struct TxGrant {
    pub index: usize,
    pub frame_len: usize,
}

/// `len` padded up to the Ethernet minimum frame length.
pub open spec fn padded(len: int) -> int {
    if len < ETH_ZLEN {
        ETH_ZLEN as int
    } else {
        len
    }
}

/// The length a packet of `len` bytes is padded to before it is mapped.
pub fn padded_len(len: usize) -> (r: usize)
    ensures
        r == padded(len as int),
{
    if len < ETH_ZLEN {
        ETH_ZLEN
    } else {
        len
    }
}

/// What `commit` hands back.
pub struct TxCommit<B> {
    /// The new tail, for the TX tail register.
    pub doorbell: u32,
    /// A sent buffer the tail's slot still held, now reclaimed.
    pub displaced: Option<B>,
}

pub struct TxRing<B> {
    descs: Vec<TxDesc>,
    slots: Vec<Option<B>>,
    dma_base: u64,
    tail: usize,
    next_to_clean: usize,
    /// Frames submitted and not yet reclaimed.
    pending: Ghost<nat>,
}

impl<B> TxRing<B> {
    pub closed spec fn descs(&self) -> Seq<TxDesc> {
        self.descs@
    }

    pub closed spec fn slots(&self) -> Seq<Option<B>> {
        self.slots@
    }

    pub closed spec fn size(&self) -> int {
        self.descs@.len() as int
    }

    pub closed spec fn tail_index(&self) -> int {
        self.tail as int
    }

    pub closed spec fn clean_index(&self) -> int {
        self.next_to_clean as int
    }

    pub closed spec fn pending(&self) -> nat {
        self.pending@
    }

    pub closed spec fn base(&self) -> u64 {
        self.dma_base
    }

    /// The ring invariant: the occupied slots are exactly the `pending`
    /// entries from next-to-clean up to the tail, and a descriptor the
    /// device still owns always has its buffer held.
    pub open spec fn wf(&self) -> bool {
        let n = self.size();
        &&& valid_ring_size(n)
        &&& self.descs().len() == n
        &&& self.slots().len() == n
        &&& 0 <= self.tail_index() < n
        &&& 0 <= self.clean_index() < n
        &&& self.pending() <= n
        &&& self.tail_index() == index_at(self.clean_index(), self.pending() as int, n)
        &&& forall|i: int|
            0 <= i < n ==> (#[trigger] self.slots()[i] is Some <==> distance(
                self.clean_index(),
                i,
                n,
            ) < self.pending())
        &&& forall|i: int| 0 <= i < n && !#[trigger] self.descs()[i].done() ==> self.slots()[i] is Some
    }

    /// What `check_submit` decides for a packet of `len` bytes.
    pub open spec fn check_spec(&self, len: int) -> Result<TxGrant, TxBusy> {
        if len > BLOCK_SIZE {
            Err(TxBusy::TooLong)
        } else if !self.descs()[self.tail_index()].done() {
            Err(TxBusy::Full)
        } else {
            Ok(TxGrant { index: self.tail_index() as usize, frame_len: padded(len) as usize })
        }
    }

    /// Whether `g` names the tail's descriptor, which the device is done
    /// with, and a frame length the ring carries.
    pub open spec fn accepts(&self, g: TxGrant) -> bool {
        &&& g.index == self.tail_index()
        &&& self.descs()[g.index as int].done()
        &&& ETH_ZLEN <= g.frame_len <= BLOCK_SIZE
    }

    /// `post` is `pre` after `commit(g, addr, buf)` returned `displaced`,
    /// the sent buffer the slot still held. A displaced buffer counts as
    /// reclaimed: next-to-clean moves past its slot.
    pub open spec fn commit_post(
        pre: Self,
        post: Self,
        g: TxGrant,
        addr: u64,
        buf: B,
        displaced: Option<B>,
    ) -> bool {
        let n = pre.size();
        &&& post.wf()
        &&& displaced == pre.slots()[g.index as int]
        &&& post.descs() == pre.descs().update(
            g.index as int,
            tx_submitted(addr, g.frame_len as u16),
        )
        &&& post.slots() == pre.slots().update(g.index as int, Some(buf))
        &&& post.tail_index() == next_index(pre.tail_index(), n)
        &&& if displaced is Some {
            &&& post.clean_index() == next_index(pre.clean_index(), n)
            &&& post.pending() == pre.pending()
        } else {
            &&& post.clean_index() == pre.clean_index()
            &&& post.pending() == pre.pending() + 1
        }
        &&& post.base() == pre.base()
    }

    /// `post` is `pre` after the device reported descriptor `i` done.
    pub open spec fn writeback_post(pre: Self, post: Self, i: int) -> bool {
        &&& post.wf()
        &&& post.descs().len() == pre.descs().len()
        &&& post.descs()[i] == TxDesc { sta: pre.descs()[i].sta | STAT_DD, ..pre.descs()[i] }
        &&& post.descs()[i].done()
        &&& forall|j: int| 0 <= j < pre.size() && j != i ==> post.descs()[j] == pre.descs()[j]
        &&& post.slots() == pre.slots()
        &&& post.tail_index() == pre.tail_index()
        &&& post.clean_index() == pre.clean_index()
        &&& post.pending() == pre.pending()
        &&& post.base() == pre.base()
    }

    /// How many entries `recycle` reclaims from `idx` on, with at most
    /// `fuel` steps: it stops at the head snapshot, at a descriptor the
    /// device has not finished, or at an empty slot.
    pub open spec fn clean_run(
        descs: Seq<TxDesc>,
        slots: Seq<Option<B>>,
        idx: int,
        head: int,
        n: int,
        fuel: nat,
    ) -> nat
        decreases fuel,
    {
        if fuel == 0 || idx == head || !descs[idx].done() || slots[idx] is None {
            0
        } else {
            1 + Self::clean_run(descs, slots, next_index(idx, n), head, n, (fuel - 1) as nat)
        }
    }

    /// How many entries `recycle(head)` reclaims.
    pub open spec fn reclaimable(&self, head: int) -> nat {
        Self::clean_run(self.descs(), self.slots(), self.clean_index(), head, self.size(), self.size() as nat)
    }

    /// `post` is `pre` after `recycle(head)` returned `out`.
    pub open spec fn recycle_post(pre: Self, post: Self, head: int, out: Seq<B>) -> bool {
        let n = pre.size();
        let k = pre.reclaimable(head);
        &&& post.wf()
        &&& out.len() == k
        &&& forall|j: int| 0 <= j < k ==> pre.slots()[index_at(pre.clean_index(), j, n)] == Some(#[trigger] out[j])
        &&& forall|j: int| 0 <= j < k ==> #[trigger] index_at(pre.clean_index(), j, n) != head
        &&& post.clean_index() == index_at(pre.clean_index(), k as int, n)
        &&& post.slots() == Seq::new(
            n as nat,
            |i: int|
                if distance(pre.clean_index(), i, n) < k {
                    None
                } else {
                    pre.slots()[i]
                },
        )
        &&& post.descs() == pre.descs()
        &&& post.tail_index() == pre.tail_index()
        &&& post.pending() == pre.pending() - k
        &&& post.base() == pre.base()
    }

    /// An empty ring of `n` descriptors whose descriptor array the device
    /// reaches at `dma_base`. Every descriptor starts out Done, so that the
    /// first frame can be submitted.
    pub fn new(n: usize, dma_base: u64) -> (r: TxRing<B>)
        requires
            valid_ring_size(n as int),
        ensures
            r.wf(),
            r.size() == n,
            r.descs() == Seq::new(n as nat, |i: int| tx_idle()),
            r.slots() == Seq::new(n as nat, |i: int| None::<B>),
            r.tail_index() == 0,
            r.clean_index() == 0,
            r.pending() == 0,
            r.base() == dma_base,
    {
        let mut descs: Vec<TxDesc> = Vec::new();
        let mut slots: Vec<Option<B>> = Vec::new();
        let mut i: usize = 0;
        while i < n
            invariant
                i <= n,
                descs@ == Seq::new(i as nat, |j: int| tx_idle()),
                slots@ == Seq::new(i as nat, |j: int| None::<B>),
            decreases n - i,
        {
            descs.push(TxDesc { buf_addr: 0, length: 0, cso: 0, cmd: 0, sta: STAT_DD, css: 0, special: 0 });
            slots.push(None);
            i = i + 1;
            assert(descs@ =~= Seq::new(i as nat, |j: int| tx_idle()));
            assert(slots@ =~= Seq::new(i as nat, |j: int| None::<B>));
        }
        proof {
            assert(dd_set(STAT_DD)) by (bit_vector);
        }
        TxRing { descs, slots, dma_base, tail: 0, next_to_clean: 0, pending: Ghost(0) }
    }

    /// Number of descriptors.
    pub fn ring_size(&self) -> (r: usize)
        requires
            self.wf(),
        ensures
            r == self.size(),
    {
        self.descs.len()
    }

    /// Bus address of the descriptor array.
    pub fn dma_base(&self) -> (r: u64)
        ensures
            r == self.base(),
    {
        self.dma_base
    }

    /// The software tail: the next descriptor to fill.
    pub fn tail(&self) -> (r: usize)
        ensures
            r == self.tail_index(),
    {
        self.tail
    }

    /// The oldest descriptor not yet reclaimed.
    pub fn next_to_clean(&self) -> (r: usize)
        ensures
            r == self.clean_index(),
    {
        self.next_to_clean
    }

    /// The descriptor at `i`.
    pub fn desc(&self, i: usize) -> (r: TxDesc)
        requires
            self.wf(),
            i < self.size(),
        ensures
            r == self.descs()[i as int],
    {
        self.descs[i]
    }

    /// Whether slot `i` holds a buffer.
    pub fn is_held(&self, i: usize) -> (r: bool)
        requires
            self.wf(),
            i < self.size(),
        ensures
            r == self.slots()[i as int] is Some,
    {
        self.slots[i].is_some()
    }

    /// Decides whether a packet of `len` bytes can be submitted now: it must
    /// fit a buffer block and the device must be done with the descriptor
    /// at the tail.
    pub fn check_submit(&self, len: usize) -> (r: Result<TxGrant, TxBusy>)
        requires
            self.wf(),
        ensures
            r == self.check_spec(len as int),
            r is Ok ==> self.accepts(r->Ok_0),
    {
        if len > BLOCK_SIZE {
            return Err(TxBusy::TooLong);
        }
        let t = self.tail;
        if !self.descs[t].is_done() {
            return Err(TxBusy::Full);
        }
        Ok(TxGrant { index: t, frame_len: padded_len(len) })
    }

    /// Fills the granted descriptor with the frame mapped at `addr`, keeps
    /// `buf` (the mapping and its packet) in its slot, and advances the
    /// tail. On a full ring the slot may still hold a sent buffer: it is
    /// handed back in `displaced`, for the caller to release and report as
    /// one completion, and next-to-clean moves past it. `doorbell` is the
    /// new tail, to be written to the TX tail register.
    pub fn commit(&mut self, g: TxGrant, addr: u64, buf: B) -> (r: TxCommit<B>)
        requires
            old(self).wf(),
            old(self).accepts(g),
        ensures
            Self::commit_post(*old(self), *final(self), g, addr, buf, r.displaced),
            r.doorbell == final(self).tail_index(),
    {
        let n = self.descs.len();
        let t = self.tail;
        let ghost pre = *self;
        let displaced = self.slots[t].take();
        self.descs[t] = TxDesc {
            buf_addr: addr,
            length: g.frame_len as u16,
            cso: 0,
            cmd: TXD_CMD_RS | TXD_CMD_EOP,
            sta: 0,
            css: 0,
            special: 0,
        };
        self.slots[t] = Some(buf);
        self.tail = advance(t, n);
        if displaced.is_some() {
            self.next_to_clean = advance(self.next_to_clean, n);
        } else {
            self.pending = Ghost(self.pending@ + 1);
        }
        proof {
            lemma_dd_zero();
            assert(displaced == pre.slots@[t as int]);
            assert(self.slots@ =~= pre.slots@.update(t as int, Some(buf)));
            let ntc = pre.next_to_clean as int;
            let p = pre.pending@;
            if displaced is Some {
                // Only a full ring holds a buffer at its tail, and then the
                // tail is next-to-clean: the window stays the whole ring.
                assert(p == n);
                assert(t == ntc);
                assert forall|i: int| 0 <= i < n implies (#[trigger] self.slots@[i] is Some <==> distance(
                    self.next_to_clean as int,
                    i,
                    n as int,
                ) < self.pending@) by {
                    if i != t {
                        assert(self.slots@[i] == pre.slots@[i]);
                        assert(pre.slots()[i] is Some);
                    }
                }
            } else {
                // The tail was outside the window, so the window grows by one.
                assert(distance(ntc, t as int, n as int) == p);
                assert forall|i: int| 0 <= i < n implies (#[trigger] self.slots@[i] is Some <==> distance(
                    ntc,
                    i,
                    n as int,
                ) < self.pending@) by {
                    if i != t {
                        assert(self.slots@[i] == pre.slots@[i]);
                    }
                }
            }
            assert forall|i: int| 0 <= i < n && !#[trigger] self.descs@[i].done() implies self.slots@[i] is Some by {
                if i != t {
                    assert(self.descs@[i] == pre.descs@[i]);
                }
            }
        }
        TxCommit { doorbell: self.tail as u32, displaced }
    }

    /// Records that the device wrote descriptor `i` back with its Done bit set.
    pub fn set_done_by_device(&mut self, i: usize)
        requires
            old(self).wf(),
            i < old(self).size(),
        ensures
            Self::writeback_post(*old(self), *final(self), i as int),
    {
        let ghost pre = *self;
        let mut d = self.descs[i];
        d.sta = d.sta | STAT_DD;
        self.descs[i] = d;
        proof {
            lemma_dd_or(pre.descs@[i as int].sta);
            assert forall|j: int| 0 <= j < self.descs@.len() && !#[trigger] self.descs@[j].done() implies self.slots@[j] is Some by {
                if j != i {
                    assert(self.descs@[j] == pre.descs@[j]);
                    assert(!pre.descs()[j].done());
                    assert(pre.slots()[j] is Some);
                } else {
                    assert(self.descs@[j].sta == pre.descs@[j].sta | STAT_DD);
                }
            }
        }
    }

    /// Reclaims the frames the device has finished sending, oldest first,
    /// and returns their buffers so that the caller can release each
    /// mapping and report one completion per buffer. `head` is a snapshot
    /// of the hardware TX head register: reclaim stops there even where
    /// later descriptors show Done.
    pub fn recycle(&mut self, head: u32) -> (out: Vec<B>)
        requires
            old(self).wf(),
        ensures
            Self::recycle_post(*old(self), *final(self), head as int, out@),
    {
        let ghost pre = *self;
        let n = self.descs.len();
        let start = self.next_to_clean;
        let mut idx = start;
        let mut out: Vec<B> = Vec::new();
        let ghost mut cnt: nat = 0;
        while idx as u64 != head as u64 && self.descs[idx].is_done() && self.slots[idx].is_some()
            invariant
                pre.wf(),
                n == pre.size(),
                start == pre.clean_index(),
                self.descs@ == pre.descs@,
                self.slots@.len() == n,
                self.tail == pre.tail,
                self.next_to_clean == pre.next_to_clean,
                self.pending == pre.pending,
                self.dma_base == pre.dma_base,
                cnt <= n,
                cnt <= pre.pending@,
                idx == index_at(start as int, cnt as int, n as int),
                idx < n,
                Self::clean_run(pre.descs@, pre.slots@, start as int, head as int, n as int, n as nat)
                    == cnt + Self::clean_run(
                    pre.descs@,
                    pre.slots@,
                    idx as int,
                    head as int,
                    n as int,
                    (n - cnt) as nat,
                ),
                out@.len() == cnt,
                forall|j: int| 0 <= j < cnt ==> pre.slots@[index_at(start as int, j, n as int)] == Some(#[trigger] out@[j]),
                forall|j: int| 0 <= j < cnt ==> #[trigger] index_at(start as int, j, n as int) != head,
                forall|j: int| 0 <= j < cnt ==> pre.descs@[#[trigger] index_at(start as int, j, n as int)].done(),
                forall|i: int|
                    0 <= i < n ==> #[trigger] self.slots@[i] == if distance(start as int, i, n as int) < cnt {
                        None
                    } else {
                        pre.slots@[i]
                    },
            decreases n - cnt,
        {
            proof {
                assert(self.slots@[idx as int] is Some);
                if cnt == n {
                    assert(distance(start as int, idx as int, n as int) == 0);
                }
                assert(cnt < n);
                assert(distance(start as int, idx as int, n as int) == cnt);
                assert(pre.slots@[idx as int] is Some);
            }
            let taken = self.slots[idx].take();
            match taken {
                Some(b) => {
                    out.push(b);
                },
                None => {},
            }
            idx = advance(idx, n);
            proof {
                cnt = cnt + 1;
            }
        }
        self.next_to_clean = idx;
        self.pending = Ghost((self.pending@ - cnt) as nat);
        proof {
            let k = cnt as int;
            let p = pre.pending@ as int;
            assert(Self::clean_run(pre.descs@, pre.slots@, idx as int, head as int, n as int, (n - cnt) as nat) == 0);
            assert(self.slots@ =~= Seq::new(
                n as nat,
                |i: int|
                    if distance(start as int, i, n as int) < k {
                        None
                    } else {
                        pre.slots@[i]
                    },
            ));
            assert forall|i: int| 0 <= i < n implies (#[trigger] self.slots@[i] is Some <==> distance(
                idx as int,
                i,
                n as int,
            ) < self.pending@) by {
                let o = distance(start as int, i, n as int);
                if o >= k {
                    assert(distance(idx as int, i, n as int) == o - k);
                } else {
                    assert(distance(idx as int, i, n as int) == o - k + n);
                }
            }
            assert forall|i: int| 0 <= i < n && !#[trigger] self.descs@[i].done() implies self.slots@[i] is Some by {
                let o = distance(start as int, i, n as int);
                if o >= k {
                    assert(self.slots@[i] == pre.slots@[i]);
                    assert(!pre.descs()[i].done());
                    assert(pre.slots()[i] is Some);
                } else {
                    assert(pre.slots@[index_at(start as int, o, n as int)] is Some);
                    assert(index_at(start as int, o, n as int) == i);
                    assert(pre.descs@[index_at(start as int, o, n as int)].done());
                }
            }
        }
        out
    }

    /// Takes every buffer still held, in slot order, for release when the
    /// device is closed.
    pub fn release_all(self) -> (r: Vec<B>)
        requires
            self.wf(),
        ensures
            r@ == held(self.slots()),
    {
        let TxRing { descs, slots, .. } = self;
        let ghost all = slots@;
        let mut slots = slots;
        let mut out: Vec<B> = Vec::new();
        let mut i: usize = 0;
        let n = slots.len();
        while i < n
            invariant
                n == all.len(),
                i <= n,
                slots@.len() == n,
                forall|j: int| i <= j < n ==> slots@[j] == all[j],
                out@ == held(all.subrange(0, i as int)),
            decreases n - i,
        {
            let taken = slots[i].take();
            proof {
                assert(all.subrange(0, i + 1).drop_last() =~= all.subrange(0, i as int));
            }
            match taken {
                Some(b) => {
                    out.push(b);
                },
                None => {},
            }
            i = i + 1;
        }
        proof {
            assert(all.subrange(0, n as int) =~= all);
        }
        out
    }

    /// Size of the descriptor array in bytes, for the ring length register.
    pub fn ring_bytes(&self) -> (r: u32)
        requires
            self.wf(),
        ensures
            r == self.size() * DESC_SIZE,
    {
        (self.descs.len() * DESC_SIZE) as u32
    }
}

} // verus!
