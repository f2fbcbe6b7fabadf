//! The port pool: which ports of a fixed range are free, and which are
//! checked out by a running server.

use vstd::prelude::*;

verus! {

/// First port of the default range.
pub const DEFAULT_FIRST_PORT: u16 = 12300;

/// Last port of the default range.
pub const DEFAULT_LAST_PORT: u16 = 12399;

/// Why the pool refused a request.
#[derive(Clone, Copy, Debug, PartialEq, Eq, Structural)]
pub enum PortError {
    /// Every port of the range is checked out.
    PoolExhausted,
    /// The port is outside the range, or it is already in the pool.
    NotCheckedOut,
}

/// What a pool is, mathematically: a range of ports and the set of those that
/// are free. A port of the range that is not free is checked out.
pub struct PoolState {
    pub first: u16,
    pub last: u16,
    pub free: Set<u16>,
}

impl PoolState {
    /// Whether `port` belongs to the range that the pool manages.
    pub open spec fn in_range(self, port: u16) -> bool {
        self.first <= port <= self.last
    }

    /// Only ports of the range are free.
    pub open spec fn wf(self) -> bool {
        forall|port: u16| #[trigger] self.free.contains(port) ==> self.in_range(port)
    }

    /// A port of the range is checked out exactly when it is not free.
    pub open spec fn checked_out(self, port: u16) -> bool {
        self.in_range(port) && !self.free.contains(port)
    }

    /// Whether `port` is the one that the next acquisition hands out: the
    /// highest free port.
    pub open spec fn is_next(self, port: u16) -> bool {
        self.free.contains(port) && forall|other: u16|
            self.free.contains(other) ==> other <= port
    }

    /// The pool after `port` has been handed out.
    pub open spec fn without(self, port: u16) -> PoolState {
        PoolState { first: self.first, last: self.last, free: self.free.remove(port) }
    }

    /// The pool after `port` has come back.
    pub open spec fn with(self, port: u16) -> PoolState {
        PoolState { first: self.first, last: self.last, free: self.free.insert(port) }
    }
}

/// A port of the range is in the pool or checked out, never both.
pub proof fn lemma_free_or_checked_out(pool: PoolState, port: u16)
    requires
        pool.in_range(port),
    ensures
        pool.free.contains(port) != pool.checked_out(port),
        pool.without(port).checked_out(port),
        pool.with(port).free.contains(port),
{
}

/// Two servers that take their ports from one pool never get the same
/// port, and once both have given their ports back, in either order, the
/// pool is what it was before: the same ports are free, as many as before.
pub proof fn lemma_two_servers_never_share(pool: PoolState, first_port: u16, second_port: u16)
    requires
        pool.wf(),
        pool.free.contains(first_port),
        pool.without(first_port).free.contains(second_port),
    ensures
        first_port != second_port,
        pool.without(first_port).without(second_port).checked_out(first_port),
        pool.without(first_port).without(second_port).checked_out(second_port),
        pool.without(first_port).without(second_port).with(first_port).with(second_port) == pool,
        pool.without(first_port).without(second_port).with(second_port).with(first_port) == pool,
        pool.without(first_port).without(second_port).with(first_port).with(second_port).free.len()
            == pool.free.len(),
{
    let taken = pool.without(first_port).without(second_port);
    assert(taken.with(first_port).with(second_port).free =~= pool.free);
}

/// A pool of ports. The free ports are kept in ascending order, so that no
/// port can be in the pool twice and the highest one is the last.
pub struct PortPool {
    first: u16,
    last: u16,
    free: Vec<u16>,
}

/// Whether `ports` is strictly ascending.
pub open spec fn ascending(ports: Seq<u16>) -> bool {
    forall|i: int, j: int| 0 <= i < j < ports.len() ==> ports[i] < ports[j]
}

impl View for PortPool {
    type V = PoolState;

    closed spec fn view(&self) -> PoolState {
        PoolState { first: self.first, last: self.last, free: self.free@.to_set() }
    }
}

impl PortPool {
    /// The free ports are in ascending order and all lie in the range.
    pub closed spec fn wf(&self) -> bool {
        &&& ascending(self.free@)
        &&& forall|i: int|
            0 <= i < self.free@.len() ==> self.first <= #[trigger] self.free@[i] <= self.last
    }

    /// A well-formed pool has a well-formed state.
    pub proof fn lemma_wf_state(&self)
        requires
            self.wf(),
        ensures
            self@.wf(),
            self@.free.finite(),
    {
    }

    /// Whether the pool is well formed.
    pub fn is_well_formed(&self) -> (ok: bool)
        ensures
            ok == self.wf(),
    {
        let mut i: usize = 0;
        while i < self.free.len()
            invariant
                i <= self.free@.len(),
                forall|k: int|
                    0 <= k < i ==> self.first <= #[trigger] self.free@[k] <= self.last,
                forall|j: int, k: int| 0 <= j < k < i ==> self.free@[j] < self.free@[k],
            decreases self.free@.len() - i,
        {
            let port = self.free[i];
            if port < self.first || port > self.last {
                return false;
            }
            if i > 0 && self.free[i - 1] >= port {
                return false;
            }
            i = i + 1;
        }
        true
    }

    /// A pool over the default range, with every port free.
    pub fn new() -> (pool: PortPool)
        ensures
            pool.wf(),
            pool@.first == DEFAULT_FIRST_PORT,
            pool@.last == DEFAULT_LAST_PORT,
            forall|port: u16| pool@.free.contains(port) <==> pool@.in_range(port),
            pool@.free.finite(),
            pool@.free.len() == 100,
    {
        PortPool::with_range(DEFAULT_FIRST_PORT, DEFAULT_LAST_PORT)
    }

    /// A pool over the ports `first` to `last`, both included, with every
    /// port free. The pool is empty if `first` is above `last`.
    pub fn with_range(first: u16, last: u16) -> (pool: PortPool)
        ensures
            pool.wf(),
            pool@.first == first,
            pool@.last == last,
            forall|port: u16| pool@.free.contains(port) <==> pool@.in_range(port),
            pool@.free.finite(),
            pool@.free.len() == (if first <= last { last - first + 1 } else { 0 }),
    {
        let mut free: Vec<u16> = Vec::new();
        if first <= last {
            let mut port: u16 = first;
            while port < last
                invariant
                    first <= port <= last,
                    free@.len() == port - first,
                    forall|i: int| 0 <= i < free@.len() ==> #[trigger] free@[i] == first + i,
                decreases last - port,
            {
                free.push(port);
                port = port + 1;
            }
            free.push(last);
        }
        let pool = PortPool { first, last, free };
        proof {
            assert forall|port: u16| pool@.in_range(port) implies pool@.free.contains(port) by {
                assert(pool.free@[port - first] == port);
            }
            pool.free@.unique_seq_to_set();
        }
        pool
    }

    /// How many ports are free.
    pub fn available(&self) -> (count: usize)
        requires
            self.wf(),
        ensures
            self@.free.finite(),
            count == self@.free.len(),
    {
        proof {
            self.free@.unique_seq_to_set();
        }
        self.free.len()
    }

    /// Whether `port` is free.
    pub fn is_free(&self, port: u16) -> (free: bool)
        ensures
            free == self@.free.contains(port),
    {
        let mut i: usize = 0;
        while i < self.free.len()
            invariant
                i <= self.free@.len(),
                forall|k: int| 0 <= k < i ==> self.free@[k] != port,
            decreases self.free@.len() - i,
        {
            if self.free[i] == port {
                return true;
            }
            i = i + 1;
        }
        false
    }

    /// Removes the highest free port from the pool and returns it, or
    /// reports that the pool is exhausted.
    pub fn acquire(&mut self) -> (taken: Result<u16, PortError>)
        requires
            old(self).wf(),
        ensures
            final(self).wf(),
            match taken {
                Ok(port) => old(self)@.is_next(port) && final(self)@ == old(self)@.without(port),
                Err(error) => error == PortError::PoolExhausted && old(self)@.free =~= Set::empty()
                    && final(self)@ == old(self)@,
            },
    {
        let ghost before = self.free@;
        match self.free.pop() {
            Some(port) => {
                proof {
                    assert(self.free@.to_set() =~= before.to_set().remove(port)) by {
                        assert forall|other: u16|
                            before.to_set().remove(port).contains(other)
                            implies self.free@.to_set().contains(other) by {
                            let k = choose|k: int| 0 <= k < before.len() && before[k] == other;
                            assert(self.free@[k] == other);
                        }
                    }
                }
                Ok(port)
            },
            None => Err(PortError::PoolExhausted),
        }
    }

    /// Puts a checked-out port back into the pool. A port that is not
    /// checked out is refused and the pool stays as it was.
    pub fn release(&mut self, port: u16) -> (done: Result<(), PortError>)
        requires
            old(self).wf(),
        ensures
            final(self).wf(),
            match done {
                Ok(_) => old(self)@.checked_out(port) && final(self)@ == old(self)@.with(port),
                Err(error) => error == PortError::NotCheckedOut && !old(self)@.checked_out(port)
                    && final(self)@ == old(self)@,
            },
    {
        if port < self.first || port > self.last {
            return Err(PortError::NotCheckedOut);
        }
        let ghost before = self.free@;
        let mut at: usize = 0;
        while at < self.free.len() && self.free[at] < port
            invariant
                self.free@ == before,
                at <= before.len(),
                forall|k: int| 0 <= k < at ==> before[k] < port,
            decreases before.len() - at,
        {
            at = at + 1;
        }
        if at < self.free.len() && self.free[at] == port {
            return Err(PortError::NotCheckedOut);
        }
        self.free.insert(at, port);
        proof {
            let after = self.free@;
            assert(after.to_set() =~= before.to_set().insert(port)) by {
                assert forall|other: u16| before.to_set().insert(port).contains(other)
                    implies after.to_set().contains(other) by {
                    if other == port {
                        assert(after[at as int] == port);
                    } else {
                        let k = choose|k: int| 0 <= k < before.len() && before[k] == other;
                        if k < at {
                            assert(after[k] == other);
                        } else {
                            assert(after[k + 1] == other);
                        }
                    }
                }
            }
        }
        Ok(())
    }
}

/// Takes a port from the pool, so that servers started side by side do not
/// collide: the highest free port, or `PoolExhausted`.
pub fn take_port(pool: &mut PortPool) -> (taken: Result<u16, PortError>)
    requires
        old(pool).wf(),
    ensures
        final(pool).wf(),
        match taken {
            Ok(port) => old(pool)@.is_next(port) && final(pool)@ == old(pool)@.without(port),
            Err(error) => error == PortError::PoolExhausted && old(pool)@.free =~= Set::empty()
                && final(pool)@ == old(pool)@,
        },
{
    pool.acquire()
}

/// Gives a port back after it was taken. A port that is not checked out is
/// refused with `NotCheckedOut` and the pool stays as it was.
pub fn release_port(pool: &mut PortPool, port: u16) -> (done: Result<(), PortError>)
    requires
        old(pool).wf(),
    ensures
        final(pool).wf(),
        match done {
            Ok(_) => old(pool)@.checked_out(port) && final(pool)@ == old(pool)@.with(port),
            Err(error) => error == PortError::NotCheckedOut && !old(pool)@.checked_out(port)
                && final(pool)@ == old(pool)@,
        },
{
    pool.release(port)
}

} // verus!
