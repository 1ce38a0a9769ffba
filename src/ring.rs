//! Index arithmetic on a ring of `n` entries.
use vstd::prelude::*;

verus! {

/// `(i + 1) mod n`, for `i < n`.
pub open spec fn next_index(i: int, n: int) -> int {
    if i + 1 >= n {
        0
    } else {
        i + 1
    }
}

/// `(s + j) mod n`, for `s < n` and `j <= n`.
pub open spec fn index_at(s: int, j: int, n: int) -> int {
    if s + j < n {
        s + j
    } else {
        s + j - n
    }
}

/// `(i - s) mod n`: how many steps from `s` forward reach `i`.
pub open spec fn distance(s: int, i: int, n: int) -> int {
    if i >= s {
        i - s
    } else {
        i + n - s
    }
}

/// The index after `i` on a ring of `n` entries.
pub fn advance(i: usize, n: usize) -> (r: usize)
    requires
        i < n,
    ensures
        r == next_index(i as int, n as int),
        r < n,
{
    if i + 1 >= n {
        0
    } else {
        i + 1
    }
}

/// The buffers held in `slots`, in slot order.
pub open spec fn held<B>(slots: Seq<Option<B>>) -> Seq<B>
    decreases slots.len(),
{
    if slots.len() == 0 {
        Seq::empty()
    } else {
        let rest = held(slots.drop_last());
        match slots.last() {
            Some(b) => rest.push(b),
            None => rest,
        }
    }
}

} // verus!
