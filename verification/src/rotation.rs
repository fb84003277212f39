//! What round-robin selection guarantees, proved over the model of the pool.

use vstd::prelude::*;
use crate::model::{PoolView, fresh_pool};

verus! {

impl PoolView {
    /// Every position is reached by some number of advances between one and
    /// the pool length.
    pub proof fn lemma_steps_to(self, i: int) -> (s: int)
        requires
            self.wf(),
            0 <= i < self.len(),
        ensures
            1 <= s <= self.len(),
            self.slot(s) == i,
    {
        let s = if i > self.cursor {
            i - self.cursor
        } else {
            i - self.cursor + self.len()
        };
        self.lemma_slot_wraps(s);
        s
    }

    /// Within one cycle, different numbers of advances reach different
    /// positions.
    pub proof fn lemma_slot_injective(self, s: int, t: int)
        requires
            self.wf(),
            1 <= s <= self.len(),
            1 <= t <= self.len(),
            self.slot(s) == self.slot(t),
        ensures
            s == t,
    {
        self.lemma_slot_wraps(s);
        self.lemma_slot_wraps(t);
    }

    /// A scan that stops at advance `s` selects the position reached then.
    pub proof fn lemma_scan_finds(self, from: int, s: int)
        requires
            self.wf(),
            1 <= from,
            self.stops_between(from, s),
        ensures
            self.scan(from) == Some(self.slot(s)),
        decreases s - from,
    {
        if from < s {
            assert(!self.up(self.slot(from)));
            self.lemma_scan_finds(from + 1, s);
        }
    }

    /// A scan that meets no healthy backend selects nothing.
    pub proof fn lemma_scan_misses(self, from: int)
        requires
            self.wf(),
            1 <= from <= self.len() + 1,
            self.none_from(from),
        ensures
            self.scan(from) is None,
        decreases self.len() - from + 1,
    {
        if from <= self.len() {
            assert(!self.up(self.slot(from)));
            self.lemma_scan_misses(from + 1);
        }
    }

    /// What a scan selects is the first healthy position it reaches; it
    /// selects nothing only when it reaches none.
    pub proof fn lemma_scan_result(self, from: int)
        requires
            self.wf(),
            1 <= from <= self.len() + 1,
        ensures
            match self.scan(from) {
                Some(j) => exists|s: int| #[trigger]
                    self.stops_between(from, s) && self.slot(s) == j,
                None => self.none_from(from),
            },
        decreases self.len() - from + 1,
    {
        if from <= self.len() {
            if self.up(self.slot(from)) {
                assert(self.stops_between(from, from));
            } else {
                self.lemma_scan_result(from + 1);
                match self.scan(from + 1) {
                    Some(j) => {
                        let s = choose|s: int| #[trigger]
                            self.stops_between(from + 1, s) && self.slot(s) == j;
                        assert(self.stops_between(from, s));
                    },
                    None => {
                        assert(self.none_from(from));
                    },
                }
            }
        }
    }

    /// A selection keeps the backends and leaves the cursor inside the pool.
    pub proof fn lemma_advanced_wf(self)
        requires
            self.wf(),
        ensures
            self.advanced().wf(),
            self.advanced().backends == self.backends,
            self.chosen() matches Some(j) ==> 0 <= j < self.len() && self.up(j),
    {
        self.lemma_scan_result(1);
        if let Some(j) = self.chosen() {
            let s = choose|s: int| #[trigger] self.stops_between(1, s) && self.slot(s) == j;
            self.lemma_slot_wraps(s);
        }
    }

    /// Any number of selections keeps the backends and leaves the cursor
    /// inside the pool.
    pub proof fn lemma_after_wf(self, k: nat)
        requires
            self.wf(),
        ensures
            self.after(k).wf(),
            self.after(k).backends == self.backends,
        decreases k,
    {
        if k > 0 {
            self.lemma_after_wf((k - 1) as nat);
            self.after((k - 1) as nat).lemma_advanced_wf();
        }
    }
}

/// A selection returns the first healthy backend after the cursor in cyclic
/// order, and returns nothing exactly when no backend is healthy.
pub proof fn selection_is_first_healthy(v: PoolView)
    requires
        v.wf(),
    ensures
        match v.chosen() {
            Some(j) => exists|s: int| #[trigger] v.stops_after(s) && v.slot(s) == j,
            None => v.all_down(),
        },
        v.chosen() is None <==> v.all_down(),
        forall|s: int| #[trigger] v.stops_after(s) ==> v.chosen() == Some(v.slot(s)),
{
    v.lemma_scan_result(1);
    match v.chosen() {
        Some(j) => {
            let s = choose|s: int| #[trigger] v.stops_between(1, s) && v.slot(s) == j;
            assert(v.stops_after(s));
            v.lemma_slot_wraps(s);
            assert(v.backends[j].healthy);
        },
        None => {
            assert forall|i: int| 0 <= i < v.len() implies !(#[trigger] v.backends[i]).healthy by {
                let s = v.lemma_steps_to(i);
                assert(!v.up(v.slot(s)));
            }
        },
    }
    assert forall|s: int| #[trigger] v.stops_after(s) implies v.chosen() == Some(v.slot(s)) by {
        v.lemma_scan_finds(1, s);
    }
}

/// With every backend healthy, the `k`-th selection in a row returns the
/// backend `k` positions after the cursor, wrapping at the end, and leaves
/// the cursor there.
pub proof fn all_healthy_rotation(v: PoolView, k: nat)
    requires
        v.wf(),
        v.all_up(),
    ensures
        v.after(k) == (PoolView { backends: v.backends, cursor: v.slot(k as int) }),
        k >= 1 ==> v.pick(k) == Some(v.slot(k as int)),
    decreases k,
{
    if k == 0 {
        v.lemma_slot_wraps(0);
    } else {
        let j = (k - 1) as nat;
        all_healthy_rotation(v, j);
        let w = v.after(j);
        v.lemma_after_wf(j);
        w.lemma_slot_wraps(1);
        assert(w.backends[w.slot(1)].healthy);
        assert(w.stops_between(1, 1));
        w.lemma_scan_finds(1, 1);
        v.lemma_slot_adds(j as int, 1);
    }
}

/// With every backend healthy, as many selections in a row as the pool has
/// backends return each backend exactly once.
pub proof fn all_healthy_cycle_visits_each_once(v: PoolView, i: int) -> (k: nat)
    requires
        v.wf(),
        v.all_up(),
        0 <= i < v.len(),
    ensures
        1 <= k <= v.len(),
        v.pick(k) == Some(i),
        forall|m: nat| 1 <= m <= v.len() && #[trigger] v.pick(m) == Some(i) ==> m == k,
{
    let s = v.lemma_steps_to(i);
    let k = s as nat;
    all_healthy_rotation(v, k);
    assert forall|m: nat| 1 <= m <= v.len() && #[trigger] v.pick(m) == Some(i) implies m == k by {
        all_healthy_rotation(v, m);
        v.lemma_slot_injective(m as int, s);
    }
    k
}

/// With every backend healthy, the selections repeat with the period of the
/// pool length.
pub proof fn all_healthy_cycle_repeats(v: PoolView, k: nat)
    requires
        v.wf(),
        v.all_up(),
        k >= 1,
    ensures
        v.pick((k + v.len()) as nat) == v.pick(k),
{
    all_healthy_rotation(v, k);
    all_healthy_rotation(v, (k + v.len()) as nat);
    vstd::arithmetic::div_mod::lemma_mod_add_multiples_vanish(v.cursor + k, v.len());
}

/// From a pool whose cursor rests on the last position, as it does in a new
/// pool, with every backend healthy, the `k`-th selection returns the
/// backends in insertion order: the first, the second, and so on, then the
/// first again.
pub proof fn insertion_order_from_last(v: PoolView, k: nat)
    requires
        v.wf(),
        v.all_up(),
        v.cursor == v.len() - 1,
        k >= 1,
    ensures
        v.pick(k) == Some((k - 1) % v.len()),
{
    all_healthy_rotation(v, k);
    vstd::arithmetic::div_mod::lemma_mod_add_multiples_vanish(k - 1, v.len());
}

/// A new pool hands out its backends in insertion order: the `k`-th
/// selection returns the first, the second, and so on, then the first
/// again.
pub proof fn new_pool_selects_in_insertion_order(addrs: Seq<Seq<char>>, k: nat)
    requires
        addrs.len() > 0,
        k >= 1,
    ensures
        fresh_pool(addrs).pick(k) == Some((k - 1) % (addrs.len() as int)),
        fresh_pool(addrs).backends[(k - 1) % (addrs.len() as int)].address == addrs[(k - 1) % (
            addrs.len() as int)],
{
    insertion_order_from_last(fresh_pool(addrs), k);
    vstd::arithmetic::div_mod::lemma_mod_bound(k - 1, addrs.len() as int);
}

/// With exactly one healthy backend, every selection returns it, wherever
/// the cursor rests.
pub proof fn single_healthy_always_selected(v: PoolView, j: int, k: nat)
    requires
        v.wf(),
        v.up(j),
        forall|i: int| 0 <= i < v.len() && i != j ==> !(#[trigger] v.backends[i]).healthy,
        k >= 1,
    ensures
        v.chosen() == Some(j),
        v.pick(k) == Some(j),
        v.after(k) == (PoolView { backends: v.backends, cursor: j }),
    decreases k,
{
    lemma_single_healthy_chosen(v, j);
    if k == 1 {
        assert(v.after(0) == v);
        assert(v.after(1) == v.after(0).advanced());
    } else {
        let m = (k - 1) as nat;
        single_healthy_always_selected(v, j, m);
        let w = v.after(m);
        lemma_single_healthy_chosen(w, j);
    }
}

/// With exactly one healthy backend, the next selection returns it.
proof fn lemma_single_healthy_chosen(v: PoolView, j: int)
    requires
        v.wf(),
        v.up(j),
        forall|i: int| 0 <= i < v.len() && i != j ==> !(#[trigger] v.backends[i]).healthy,
    ensures
        v.chosen() == Some(j),
{
    let s = v.lemma_steps_to(j);
    assert forall|t: int| 1 <= t < s implies !v.up(#[trigger] v.slot(t)) by {
        v.lemma_slot_wraps(t);
        if v.slot(t) == j {
            v.lemma_slot_injective(t, s);
        }
    }
    assert(v.stops_between(1, s));
    v.lemma_scan_finds(1, s);
}

/// With no healthy backend, every selection returns nothing and leaves the
/// pool as it was.
pub proof fn all_down_selects_nothing(v: PoolView, k: nat)
    requires
        v.wf(),
        v.all_down(),
    ensures
        v.chosen() is None,
        v.advanced() == v,
        v.after(k) == v,
        k >= 1 ==> v.pick(k) is None,
    decreases k,
{
    assert forall|t: int| 1 <= t <= v.len() implies !v.up(#[trigger] v.slot(t)) by {
        v.lemma_slot_wraps(t);
    }
    assert(v.none_from(1));
    v.lemma_scan_misses(1);
    if k > 0 {
        all_down_selects_nothing(v, (k - 1) as nat);
    }
}

/// Once the last healthy backend is marked unhealthy, the very next
/// selection returns nothing.
pub proof fn nothing_selected_after_last_goes_down(v: PoolView, j: int)
    requires
        v.wf(),
        0 <= j < v.len(),
        forall|i: int| 0 <= i < v.len() && i != j ==> !(#[trigger] v.backends[i]).healthy,
    ensures
        v.with_health(j, false).all_down(),
        v.with_health(j, false).chosen() is None,
{
    let w = v.with_health(j, false);
    assert forall|i: int| 0 <= i < w.len() implies !(#[trigger] w.backends[i]).healthy by {
        if i != j {
            assert(w.backends[i] == v.backends[i]);
        }
    }
    all_down_selects_nothing(w, 0);
}

/// Setting a health flag twice to the same value is setting it once: the
/// second call changes nothing and reports no flip, so the two calls
/// together report one flip when the flag differed at first and none when
/// it did not.
pub proof fn set_health_is_idempotent(v: PoolView, i: int, healthy: bool)
    requires
        0 <= i < v.len(),
    ensures
        !v.with_health(i, healthy).flips(i, healthy),
        v.with_health(i, healthy).with_health(i, healthy) == v.with_health(i, healthy),
        !v.flips(i, healthy) ==> v.with_health(i, healthy) == v,
{
    let w = v.with_health(i, healthy);
    assert(w.with_health(i, healthy).backends =~= w.backends);
    if !v.flips(i, healthy) {
        assert(w.backends =~= v.backends);
    }
}

} // verus!
