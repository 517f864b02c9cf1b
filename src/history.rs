//! Bounded rolling window of accepted prices for one asset.
use vstd::prelude::*;

use crate::stats::{prices_in_range, MAX_PRICE};

verus! {

/// Capacity of a history unless configured otherwise.
pub const DEFAULT_HISTORY_CAPACITY: usize = 100;

/// Largest configurable capacity; it keeps the exact history statistics
/// inside 128 bits.
pub const MAX_HISTORY_CAPACITY: usize = 1000;

/// The window after appending `p` to `h`: the oldest entry is dropped once
/// the window would exceed `cap`.
pub open spec fn push_bounded(h: Seq<i64>, p: i64, cap: int) -> Seq<i64> {
    let g = h.push(p);
    if g.len() > cap {
        g.drop_first()
    } else {
        g
    }
}

/// The window after appending each of `ps` in order.
pub open spec fn push_all(h: Seq<i64>, ps: Seq<i64>, cap: int) -> Seq<i64>
    decreases ps.len(),
{
    if ps.len() == 0 {
        h
    } else {
        push_bounded(push_all(h, ps.drop_last(), cap), ps.last(), cap)
    }
}

/// The last `cap` entries of `s` (all of it when it is shorter).
pub open spec fn newest(s: Seq<i64>, cap: int) -> Seq<i64> {
    if s.len() > cap {
        s.subrange(s.len() - cap, s.len() as int)
    } else {
        s
    }
}

/// Appending prices one by one to a window within its capacity keeps
/// exactly the newest `cap` of the old entries followed by the new prices:
/// the window never exceeds its capacity, and after `cap + k` insertions
/// into an empty window the first `k` are gone, oldest first.
pub proof fn lemma_window_keeps_newest(h: Seq<i64>, ps: Seq<i64>, cap: int)
    requires
        cap >= 0,
        h.len() <= cap,
    ensures
        push_all(h, ps, cap) == newest(h + ps, cap),
        push_all(h, ps, cap).len() <= cap,
    decreases ps.len(),
{
    if ps.len() > 0 {
        let init = ps.drop_last();
        lemma_window_keeps_newest(h, init, cap);
        let w = push_all(h, init, cap);
        let all = h + ps;
        assert(all =~= (h + init).push(ps.last()));
        let g = w.push(ps.last());
        if g.len() > cap {
            assert(g.drop_first() =~= newest(all, cap));
        } else {
            assert(g =~= newest(all, cap));
        }
    }
}

/// The accepted prices of one asset, oldest first, at most `capacity` of them.
pub struct AssetHistory {
    asset: String,
    prices: Vec<i64>,
    capacity: usize,
}

impl View for AssetHistory {
    type V = Seq<i64>;

    closed spec fn view(&self) -> Seq<i64> {
        self.prices@
    }
}

impl AssetHistory {
    /// Symbol of the asset.
    pub closed spec fn spec_asset(&self) -> Seq<char> {
        self.asset@
    }

    /// Most entries the window holds.
    pub closed spec fn spec_capacity(&self) -> nat {
        self.capacity as nat
    }

    /// Within its capacity, which is within `MAX_HISTORY_CAPACITY`, and
    /// holding only prices a validator accepts.
    pub closed spec fn wf(&self) -> bool {
        &&& self.prices@.len() <= self.capacity
        &&& self.capacity <= MAX_HISTORY_CAPACITY
        &&& prices_in_range(self.prices@)
    }

    pub proof fn lemma_wf(&self)
        requires
            self.wf(),
        ensures
            self@.len() <= self.spec_capacity() <= MAX_HISTORY_CAPACITY,
            prices_in_range(self@),
    {
    }

    /// An empty window for `asset`.
    pub fn new(asset: String, capacity: usize) -> (r: Self)
        requires
            capacity <= MAX_HISTORY_CAPACITY,
        ensures
            r.wf(),
            r@ == Seq::<i64>::empty(),
            r.spec_asset() == asset@,
            r.spec_capacity() == capacity,
    {
        AssetHistory { asset, prices: Vec::new(), capacity }
    }

    /// Symbol of the asset.
    pub fn asset(&self) -> (r: &String)
        ensures
            r@ == self.spec_asset(),
    {
        &self.asset
    }

    /// The prices, oldest first.
    pub fn prices(&self) -> (r: &[i64])
        ensures
            r@ == self@,
    {
        self.prices.as_slice()
    }

    /// Number of prices held.
    pub fn len(&self) -> (r: usize)
        ensures
            r == self@.len(),
    {
        self.prices.len()
    }

    /// Most entries the window holds.
    pub fn capacity(&self) -> (r: usize)
        ensures
            r == self.spec_capacity(),
    {
        self.capacity
    }

    /// Appends an accepted price, evicting the oldest once over capacity.
    pub fn push(&mut self, price: i64)
        requires
            old(self).wf(),
            0 < price <= MAX_PRICE,
        ensures
            final(self).wf(),
            final(self)@ == push_bounded(old(self)@, price, old(self).spec_capacity() as int),
            final(self).spec_asset() == old(self).spec_asset(),
            final(self).spec_capacity() == old(self).spec_capacity(),
    {
        self.prices.push(price);
        if self.prices.len() > self.capacity {
            self.prices.remove(0);
        }
        assert forall|i: int| 0 <= i < self.prices@.len() implies 0 < #[trigger] self.prices@[i]
            && self.prices@[i] <= MAX_PRICE by {
            let g = old(self).prices@.push(price);
            if g.len() > old(self).capacity {
                assert(self.prices@[i] == g[i + 1]);
            } else {
                assert(self.prices@[i] == g[i]);
            }
        }
        assert(self.prices@ =~= push_bounded(old(self).prices@, price, self.capacity as int));
    }
}

} // verus!
