//! The backend pool and its round-robin scheduler.
//!
//! The pool is fixed when it is built: only health flags and the cursor
//! change afterwards. Every change goes through `&mut self`, so a pool that
//! is shared between tasks is shared behind one lock, and a selection or a
//! health flip is never interleaved with another.

use vstd::prelude::*;
use vstd::arithmetic::div_mod::{lemma_mod_self_0, lemma_small_mod};
use crate::model::{BackendView, PoolView, fresh_pool};

verus! {

/// A downstream server: a fixed address and a health flag.
pub struct Backend {
    addr: String,
    is_healthy: bool,
}

impl View for Backend {
    type V = BackendView;

    closed spec fn view(&self) -> BackendView {
        BackendView { address: self.addr@, healthy: self.is_healthy }
    }
}

/// Why a pool could not be built.
#[derive(Debug, PartialEq, Eq, Clone, Copy)]
pub enum PoolError {
    /// The list of addresses was empty.
    NoBackends,
}

/// The direction of a health change.
#[derive(Debug, PartialEq, Eq, Clone, Copy)]
pub enum Direction {
    /// The backend became reachable again.
    Up,
    /// The backend stopped being reachable.
    Down,
}

/// The direction in which a flag moves when it is set to `healthy`.
pub open spec fn direction_of(healthy: bool) -> Direction {
    if healthy {
        Direction::Up
    } else {
        Direction::Down
    }
}

/// Computes `direction_of`.
fn direction_of_flag(healthy: bool) -> (d: Direction)
    ensures
        d == direction_of(healthy),
{
    if healthy {
        Direction::Up
    } else {
        Direction::Down
    }
}

/// A health flag that flipped: which backend, its address, and which way.
#[derive(Debug, PartialEq, Eq)]
pub struct Transition {
    pub index: usize,
    pub address: String,
    pub direction: Direction,
}

/// The pool of backends together with the round-robin cursor.
pub struct LoadBalancer {
    backends: Vec<Backend>,
    current_index: usize,
}

impl View for LoadBalancer {
    type V = PoolView;

    closed spec fn view(&self) -> PoolView {
        PoolView {
            backends: Seq::new(self.backends@.len(), |i: int| self.backends@[i]@),
            cursor: self.current_index as int,
        }
    }
}

impl LoadBalancer {
    #[verifier::type_invariant]
    spec fn inv(self) -> bool {
        self.current_index < self.backends@.len()
    }

    /// Number of backends; never zero, and the cursor always points below it.
    pub fn len(&self) -> (n: usize)
        ensures
            n == self@.len(),
            self@.wf(),
    {
        proof {
            use_type_invariant(self);
        }
        self.backends.len()
    }

    /// Position of the round-robin cursor: the backend selected last, or,
    /// in a new pool, the last position.
    pub fn cursor(&self) -> (c: usize)
        ensures
            c == self@.cursor,
            self@.wf(),
    {
        proof {
            use_type_invariant(self);
        }
        self.current_index
    }

    /// Address of backend `index`, or `None` where the pool has no such
    /// position.
    pub fn address(&self, index: usize) -> (r: Option<String>)
        ensures
            index < self@.len() <==> r is Some,
            r matches Some(a) ==> a@ == self@.backends[index as int].address,
    {
        if index < self.backends.len() {
            assert(self@.backends[index as int] == self.backends@[index as int]@);
            Some(self.backends[index].addr.clone())
        } else {
            None
        }
    }

    /// Health flag of backend `index`, or `None` where the pool has no such
    /// position.
    pub fn is_healthy(&self, index: usize) -> (r: Option<bool>)
        ensures
            index < self@.len() <==> r is Some,
            r matches Some(h) ==> h == self@.backends[index as int].healthy,
    {
        if index < self.backends.len() {
            assert(self@.backends[index as int] == self.backends@[index as int]@);
            Some(self.backends[index].is_healthy)
        } else {
            None
        }
    }

    /// Builds a pool from the addresses, in order, every backend healthy.
    /// An empty list is refused.
    pub fn new(addrs: Vec<String>) -> (r: Result<LoadBalancer, PoolError>)
        ensures
            addrs@.len() == 0 <==> r == Err::<LoadBalancer, PoolError>(PoolError::NoBackends),
            addrs@.len() > 0 ==> r is Ok && r->Ok_0@ == fresh_pool(
                Seq::new(addrs@.len(), |i: int| addrs@[i]@),
            ),
    {
        let n = addrs.len();
        if n == 0 {
            return Err(PoolError::NoBackends);
        }
        let ghost src = Seq::new(addrs@.len(), |i: int| addrs@[i]@);
        let mut backends: Vec<Backend> = Vec::new();
        let mut i: usize = 0;
        while i < n
            invariant
                n == addrs@.len(),
                i <= n,
                backends@.len() == i,
                forall|k: int| 0 <= k < i ==> (#[trigger] backends@[k])@ == (BackendView {
                    address: addrs@[k]@,
                    healthy: true,
                }),
            decreases n - i,
        {
            backends.push(Backend { addr: addrs[i].clone(), is_healthy: true });
            i += 1;
        }
        let lb = LoadBalancer { backends, current_index: n - 1 };
        assert(lb@.backends =~= fresh_pool(src).backends);
        Ok(lb)
    }

    /// Selects the next backend in round-robin order: the cursor advances,
    /// wrapping at the end, until it rests on a healthy backend, whose
    /// address is returned. When a full cycle finds none, the cursor is back
    /// where it was and the result is `None`.
    pub fn next_backend(&mut self) -> (r: Option<String>)
        ensures
            final(self)@ == old(self)@.advanced(),
            match old(self)@.chosen() {
                Some(j) => r matches Some(a) && a@ == old(self)@.backends[j].address,
                None => r is None,
            },
    {
        proof {
            use_type_invariant(&*self);
        }
        let ghost pre = self@;
        let n = self.backends.len();
        let mut tried: usize = 0;
        proof {
            pre.lemma_slot_wraps(0);
        }
        while tried < n
            invariant
                pre.wf(),
                pre == old(self)@,
                n == pre.len(),
                n == self.backends@.len(),
                self.backends == old(self).backends,
                tried <= n,
                self.current_index as int == pre.slot(tried as int),
                pre.scan(tried + 1) == pre.chosen(),
            decreases n - tried,
        {
            proof {
                pre.lemma_slot_wraps(tried as int);
                pre.lemma_slot_wraps(tried + 1);
                if self.current_index + 1 < n {
                    lemma_small_mod((self.current_index + 1) as nat, n as nat);
                } else {
                    lemma_mod_self_0(n as int);
                }
            }
            self.current_index = (self.current_index + 1) % n;
            tried += 1;
            assert(pre.backends[self.current_index as int] == self.backends@[self.current_index as int]@);
            if self.backends[self.current_index].is_healthy {
                let a = self.backends[self.current_index].addr.clone();
                assert(self@.backends =~= pre.backends);
                return Some(a);
            }
        }
        proof {
            pre.lemma_slot_wraps(n as int);
        }
        assert(self@.backends =~= pre.backends);
        None
    }

    /// Sets the health flag of backend `index`. When the flag changes, the
    /// change is returned, once; when it already had that value, nothing
    /// happens and nothing is returned.
    pub fn set_health(&mut self, index: usize, healthy: bool) -> (r: Option<Transition>)
        requires
            index < old(self)@.len(),
        ensures
            final(self)@ == old(self)@.with_health(index as int, healthy),
            r is Some <==> old(self)@.flips(index as int, healthy),
            r matches Some(t) ==> t.index == index && t.address@ == old(
                self,
            )@.backends[index as int].address && t.direction == direction_of(healthy),
    {
        proof {
            use_type_invariant(&*self);
        }
        let ghost pre = self@;
        assert(pre.backends[index as int] == self.backends@[index as int]@);
        if self.backends[index].is_healthy != healthy {
            let address = self.backends[index].addr.clone();
            self.backends[index].is_healthy = healthy;
            assert(self@.backends =~= pre.with_health(index as int, healthy).backends);
            Some(Transition { index, address, direction: direction_of_flag(healthy) })
        } else {
            assert(self@.backends =~= pre.with_health(index as int, healthy).backends);
            None
        }
    }
}

} // verus!
