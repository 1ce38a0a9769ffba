//! The receive ring and the budgeted drain that a poll runs over it, one
//! descriptor at a time.
use vstd::prelude::*;
use crate::desc::{RxDesc, lemma_dd_or, rx_offered};
use crate::regs::{DESC_SIZE, STAT_DD, valid_ring_size};
use crate::ring::{advance, next_index};

verus! {

/// A receive ring: every descriptor always has a buffer behind it, owned by
/// the device until its Done bit is set.
pub struct RxRing<B> {
    descs: Vec<RxDesc>,
    slots: Vec<B>,
    dma_base: u64,
    dropped: u64,
}

/// Progress of one poll pass over the receive ring.
pub struct RxPoll {
    next: usize,
    remaining: u32,
    received: u32,
    stopped: bool,
}

/// What became of the descriptor a poll step looked at.
pub enum RxStep<B> {
    /// `frame` holds `len` received bytes for the network stack; `tail` is
    /// to be written to the RX tail register.
    Delivered { frame: B, len: u16, tail: u32 },
    /// No replacement buffer could be had: the frame stays in its
    /// descriptor, the failed refill is counted, and this pass ends. The
    /// frame is not lost: a later pass delivers it once a buffer comes.
    Dropped,
}

impl RxPoll {
    pub closed spec fn next(&self) -> int {
        self.next as int
    }

    pub closed spec fn remaining(&self) -> nat {
        self.remaining as nat
    }

    pub closed spec fn received(&self) -> nat {
        self.received as nat
    }

    pub closed spec fn stopped(&self) -> bool {
        self.stopped
    }

    /// Frames delivered and frames still allowed fit together in a `u32`
    /// (they never exceed the budget the pass began with).
    pub closed spec fn wf(&self) -> bool {
        self.received + self.remaining <= u32::MAX
    }

    /// The descriptor this pass looks at next.
    pub fn next_index(&self) -> (r: usize)
        ensures
            r == self.next(),
    {
        self.next
    }

    /// Frames delivered so far in this pass.
    pub fn frames_received(&self) -> (r: u32)
        ensures
            r == self.received(),
    {
        self.received
    }
}

impl<B> RxRing<B> {
    pub closed spec fn descs(&self) -> Seq<RxDesc> {
        self.descs@
    }

    pub closed spec fn slots(&self) -> Seq<B> {
        self.slots@
    }

    pub closed spec fn size(&self) -> int {
        self.descs@.len() as int
    }

    pub closed spec fn base(&self) -> u64 {
        self.dma_base
    }

    pub closed spec fn dropped_count(&self) -> u64 {
        self.dropped
    }

    pub open spec fn wf(&self) -> bool {
        &&& valid_ring_size(self.size())
        &&& self.descs().len() == self.size()
        &&& self.slots().len() == self.size()
    }

    /// Whether a pass at `p` may take the descriptor it looks at.
    pub open spec fn ready(&self, p: RxPoll) -> bool {
        &&& !p.stopped()
        &&& p.remaining() > 0
        &&& self.descs()[p.next()].done()
    }

    /// A ring whose descriptor `i` offers `bufs[i]`, mapped at `addrs[i]`,
    /// to the device; the descriptor array is at `dma_base`.
    pub fn new(dma_base: u64, addrs: &Vec<u64>, bufs: Vec<B>) -> (r: RxRing<B>)
        requires
            valid_ring_size(bufs@.len() as int),
            addrs@.len() == bufs@.len(),
        ensures
            r.wf(),
            r.size() == bufs@.len(),
            r.descs() == Seq::new(addrs@.len(), |i: int| rx_offered(addrs@[i])),
            r.slots() == bufs@,
            r.base() == dma_base,
            r.dropped_count() == 0,
    {
        let n = bufs.len();
        let mut descs: Vec<RxDesc> = Vec::new();
        let mut i: usize = 0;
        while i < n
            invariant
                i <= n,
                n == addrs@.len(),
                descs@ == Seq::new(i as nat, |j: int| rx_offered(addrs@[j])),
            decreases n - i,
        {
            descs.push(
                RxDesc { buf_addr: addrs[i], length: 0, checksum: 0, status: 0, errors: 0, special: 0 },
            );
            i = i + 1;
            assert(descs@ =~= Seq::new(i as nat, |j: int| rx_offered(addrs@[j])));
        }
        RxRing { descs, slots: bufs, dma_base, dropped: 0 }
    }

    /// Number of descriptors.
    pub fn ring_size(&self) -> (r: usize)
        requires
            self.wf(),
        ensures
            r == self.size(),
    {
        self.descs.len()
    }

    /// Bus address of the descriptor array.
    pub fn dma_base(&self) -> (r: u64)
        ensures
            r == self.base(),
    {
        self.dma_base
    }

    /// Size of the descriptor array in bytes, for the ring length register.
    pub fn ring_bytes(&self) -> (r: u32)
        requires
            self.wf(),
        ensures
            r == self.size() * DESC_SIZE,
    {
        (self.descs.len() * DESC_SIZE) as u32
    }

    /// Refills that failed because no replacement buffer could be had;
    /// each left a received frame waiting in its descriptor.
    pub fn dropped(&self) -> (r: u64)
        ensures
            r == self.dropped_count(),
    {
        self.dropped
    }

    /// The descriptor at `i`.
    pub fn desc(&self, i: usize) -> (r: RxDesc)
        requires
            self.wf(),
            i < self.size(),
        ensures
            r == self.descs()[i as int],
    {
        self.descs[i]
    }

    /// The buffer behind descriptor `i`.
    pub fn buffer(&self, i: usize) -> (r: &B)
        requires
            self.wf(),
            i < self.size(),
        ensures
            *r == self.slots()[i as int],
    {
        &self.slots[i]
    }

    /// Records that the device filled descriptor `i` with `len` bytes and
    /// set its Done bit.
    pub fn set_done_by_device(&mut self, i: usize, len: u16)
        requires
            old(self).wf(),
            i < old(self).size(),
        ensures
            final(self).wf(),
            final(self).descs() == old(self).descs().update(
                i as int,
                RxDesc { length: len, status: old(self).descs()[i as int].status | STAT_DD, ..old(self).descs()[i as int] },
            ),
            final(self).descs()[i as int].done(),
            final(self).slots() == old(self).slots(),
            final(self).base() == old(self).base(),
            final(self).dropped_count() == old(self).dropped_count(),
    {
        let mut d = self.descs[i];
        d.length = len;
        d.status = d.status | STAT_DD;
        self.descs[i] = d;
        proof {
            lemma_dd_or(old(self).descs@[i as int].status);
        }
    }

    /// Starts a pass of at most `budget` frames. The RX tail register
    /// (`hw_tail`) names the last descriptor handed back to the device, so
    /// the pass begins at the one after it.
    pub fn poll_begin(&self, hw_tail: u32, budget: u32) -> (p: RxPoll)
        requires
            self.wf(),
        ensures
            p.next() == (hw_tail as int + 1) % self.size(),
            p.next() < self.size(),
            p.remaining() == budget,
            p.received() == 0,
            !p.stopped(),
            p.wf(),
    {
        let n = self.descs.len();
        let next = ((hw_tail as u64 + 1) % (n as u64)) as usize;
        RxPoll { next, remaining: budget, received: 0, stopped: false }
    }

    /// The length of the frame the pass may take next, or `None` when the
    /// pass is over: the budget is spent, a refill failed, or the
    /// device has not filled the next descriptor.
    pub fn poll_ready(&self, p: &RxPoll) -> (r: Option<u16>)
        requires
            self.wf(),
            p.next() < self.size(),
        ensures
            self.ready(*p) ==> r == Some(self.descs()[p.next()].length),
            !self.ready(*p) ==> r is None,
    {
        if p.stopped || p.remaining == 0 {
            None
        } else if self.descs[p.next].is_done() {
            Some(self.descs[p.next].length)
        } else {
            None
        }
    }

    /// Takes the filled descriptor the pass is at. With a fresh buffer
    /// (`Some((addr, buf))`, mapped for the device to write at `addr`), the
    /// filled buffer is handed out for the stack, the descriptor is offered
    /// again with the fresh one, and the pass moves on. Without one, the
    /// descriptor and its buffer stay as they are, the failed refill is
    /// counted, and the pass stops; the next pass retries the frame.
    pub fn poll_step(&mut self, p: &mut RxPoll, fresh: Option<(u64, B)>) -> (r: RxStep<B>)
        requires
            old(self).wf(),
            old(p).wf(),
            old(p).next() < old(self).size(),
            old(self).ready(*old(p)),
        ensures
            final(self).wf(),
            final(p).wf(),
            final(self).base() == old(self).base(),
            final(p).next() < final(self).size(),
            fresh is Some ==> {
                let i = old(p).next();
                &&& r matches RxStep::Delivered { frame, len, tail } && frame == old(self).slots()[i]
                    && len == old(self).descs()[i].length && tail == i
                &&& final(self).descs() == old(self).descs().update(i, rx_offered(fresh->Some_0.0))
                &&& final(self).slots() == old(self).slots().update(i, fresh->Some_0.1)
                &&& final(self).dropped_count() == old(self).dropped_count()
                &&& final(p).next() == next_index(i, old(self).size())
                &&& final(p).remaining() == old(p).remaining() - 1
                &&& final(p).received() == old(p).received() + 1
                &&& final(p).stopped() == old(p).stopped()
            },
            fresh is None ==> {
                &&& r is Dropped
                &&& final(self).descs() == old(self).descs()
                &&& final(self).slots() == old(self).slots()
                &&& final(self).dropped_count() == (if old(self).dropped_count() < u64::MAX {
                    old(self).dropped_count() + 1
                } else {
                    old(self).dropped_count() as int
                })
                &&& final(p).next() == old(p).next()
                &&& final(p).received() == old(p).received()
                &&& final(p).remaining() == old(p).remaining()
                &&& final(p).stopped()
            },
    {
        let n = self.descs.len();
        let i = p.next;
        match fresh {
            Some((addr, buf)) => {
                let len = self.descs[i].length;
                let mut frame = buf;
                std::mem::swap(&mut self.slots[i], &mut frame);
                self.descs[i] = RxDesc { buf_addr: addr, length: 0, checksum: 0, status: 0, errors: 0, special: 0 };
                p.next = advance(i, n);
                p.remaining = p.remaining - 1;
                p.received = p.received + 1;
                RxStep::Delivered { frame, len, tail: i as u32 }
            },
            None => {
                if self.dropped < u64::MAX {
                    self.dropped = self.dropped + 1;
                }
                p.stopped = true;
                RxStep::Dropped
            },
        }
    }

    /// Takes every buffer back, in descriptor order, for release when the
    /// device is closed.
    pub fn release_all(self) -> (r: Vec<B>)
        ensures
            r@ == self.slots(),
    {
        self.slots
    }
}

} // verus!
