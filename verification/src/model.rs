//! The mathematical model of the backend pool and of round-robin selection.

use vstd::prelude::*;
use vstd::arithmetic::div_mod::{
    lemma_add_mod_noop, lemma_mod_add_multiples_vanish, lemma_mod_bound, lemma_mod_twice,
    lemma_small_mod,
};

verus! {

/// What a backend is to the contracts: its address and its health flag.
pub struct BackendView {
    pub address: Seq<char>,
    pub healthy: bool,
}

/// What a pool is to the contracts: its backends in insertion order and the
/// position of the round-robin cursor.
pub struct PoolView {
    pub backends: Seq<BackendView>,
    pub cursor: int,
}

impl PoolView {
    /// Number of backends.
    pub open spec fn len(self) -> int {
        self.backends.len() as int
    }

    /// The pool is non-empty and the cursor points into it.
    pub open spec fn wf(self) -> bool {
        0 <= self.cursor < self.len()
    }

    /// Whether position `i` holds a backend that is marked healthy.
    pub open spec fn up(self, i: int) -> bool {
        0 <= i < self.len() && self.backends[i].healthy
    }

    /// No backend is marked healthy.
    pub open spec fn all_down(self) -> bool {
        forall|i: int| 0 <= i < self.len() ==> !(#[trigger] self.backends[i]).healthy
    }

    /// Every backend is marked healthy.
    pub open spec fn all_up(self) -> bool {
        forall|i: int| 0 <= i < self.len() ==> (#[trigger] self.backends[i]).healthy
    }

    /// The position the cursor reaches after `s` advances, wrapping at the end.
    pub open spec fn slot(self, s: int) -> int {
        (self.cursor + s) % self.len()
    }

    /// A scan that has made `from - 1` advances stops at advance `s`: the
    /// backend reached then is healthy and every one passed from advance
    /// `from` on is not.
    pub open spec fn stops_between(self, from: int, s: int) -> bool {
        &&& from <= s <= self.len()
        &&& self.up(self.slot(s))
        &&& forall|t: int| from <= t < s ==> !self.up(#[trigger] self.slot(t))
    }

    /// The scan stops after exactly `s` advances: the backend reached then is
    /// healthy and every one passed on the way is not.
    pub open spec fn stops_after(self, s: int) -> bool {
        self.stops_between(1, s)
    }

    /// No advance from `from` up to a full cycle reaches a healthy backend.
    pub open spec fn none_from(self, from: int) -> bool {
        forall|t: int| from <= t <= self.len() ==> !self.up(#[trigger] self.slot(t))
    }

    /// The position selected by a scan that has already passed `s - 1`
    /// backends, or `None` once the whole pool has been passed.
    pub open spec fn scan(self, s: int) -> Option<int>
        decreases self.len() - s + 1,
    {
        if s < 1 || s > self.len() {
            None
        } else if self.up(self.slot(s)) {
            Some(self.slot(s))
        } else {
            self.scan(s + 1)
        }
    }

    /// The position that the next selection returns: the first healthy
    /// backend after the cursor in cyclic order, if there is one.
    pub open spec fn chosen(self) -> Option<int> {
        self.scan(1)
    }

    /// The pool after one selection: the cursor rests on the selected
    /// backend, or where it was when a full cycle found none.
    pub open spec fn advanced(self) -> PoolView {
        match self.chosen() {
            Some(j) => PoolView { backends: self.backends, cursor: j },
            None => self,
        }
    }

    /// The pool after `k` selections in a row.
    pub open spec fn after(self, k: nat) -> PoolView
        decreases k,
    {
        if k == 0 {
            self
        } else {
            self.after((k - 1) as nat).advanced()
        }
    }

    /// The position returned by the `k`-th selection in a row, counted from 1.
    pub open spec fn pick(self, k: nat) -> Option<int> {
        if k == 0 {
            None
        } else {
            self.after((k - 1) as nat).chosen()
        }
    }

    /// The pool with the health flag of backend `i` set to `healthy`.
    pub open spec fn with_health(self, i: int, healthy: bool) -> PoolView {
        PoolView {
            backends: self.backends.update(
                i,
                BackendView { address: self.backends[i].address, healthy },
            ),
            cursor: self.cursor,
        }
    }

    /// Whether setting backend `i` to `healthy` changes its flag.
    pub open spec fn flips(self, i: int, healthy: bool) -> bool {
        self.backends[i].healthy != healthy
    }

    /// Within one cycle the wrapped position is the cursor plus the number
    /// of advances, less the pool length once it runs past the end.
    pub proof fn lemma_slot_wraps(self, s: int)
        requires
            self.wf(),
            0 <= s <= self.len(),
        ensures
            0 <= self.slot(s) < self.len(),
            self.slot(s) == if self.cursor + s < self.len() {
                self.cursor + s
            } else {
                self.cursor + s - self.len()
            },
    {
        let n = self.len();
        let x = self.cursor + s;
        if x < n {
            lemma_small_mod(x as nat, n as nat);
        } else {
            lemma_small_mod((x - n) as nat, n as nat);
            lemma_mod_add_multiples_vanish(x - n, n);
        }
    }

    /// Advancing `a` times and then `b` times is advancing `a + b` times.
    pub proof fn lemma_slot_adds(self, a: int, b: int)
        requires
            self.wf(),
        ensures
            (PoolView { backends: self.backends, cursor: self.slot(a) }).slot(b) == self.slot(
                a + b,
            ),
            0 <= self.slot(a) < self.len(),
    {
        let n = self.len();
        lemma_mod_bound(self.cursor + a, n);
        lemma_add_mod_noop(self.cursor + a, b, n);
        lemma_add_mod_noop(self.slot(a), b, n);
        lemma_mod_twice(self.cursor + a, n);
    }
}

/// A fresh pool: every address marked healthy, the cursor on the last
/// position so that the first selection lands on the first backend.
pub open spec fn fresh_pool(addrs: Seq<Seq<char>>) -> PoolView {
    PoolView {
        backends: Seq::new(
            addrs.len(),
            |i: int| BackendView { address: addrs[i], healthy: true },
        ),
        cursor: addrs.len() - 1,
    }
}

} // verus!
