//! The connection pool: a bounded set of physical database connections.
//!
//! The pool is created once at startup — construction fails fast when not
//! a single connection could be established — and is never resized. Each
//! worker leases one connection for its entire lifetime, so in this design
//! a lease is never returned during normal operation. The invariant the
//! pool maintains is that the number of concurrently leased connections
//! never exceeds its capacity.

use vstd::prelude::*;

verus! {

/// Startup-time failure: not one connection could be established. Fatal —
/// the process cannot serve requests.
#[derive(Debug)]
pub struct PoolConstructionError {
    pub message: String,
}

/// A bounded set of database connections, tracked by count: the runtime
/// holds the real sockets, the pool accounts for how many exist and how
/// many are leased out.
pub struct ConnectionPool {
    capacity: usize,
    established: usize,
    leased: usize,
}

impl ConnectionPool {
    /// The fixed capacity chosen at startup.
    pub closed spec fn spec_capacity(&self) -> usize {
        self.capacity
    }

    /// How many connections were actually established at startup.
    pub closed spec fn spec_established(&self) -> usize {
        self.established
    }

    /// How many connections are leased out right now.
    pub closed spec fn spec_leased(&self) -> usize {
        self.leased
    }

    /// The pool invariant: leases never exceed the established
    /// connections, which never exceed the capacity.
    pub open spec fn wf(&self) -> bool {
        self.spec_leased() <= self.spec_established() <= self.spec_capacity()
    }

    /// Account for a pool built at startup, where the runtime managed to
    /// establish `established` of the requested `capacity` connections.
    /// Fails fast — with the fatal construction error — exactly when none
    /// could be established.
    pub fn new(capacity: usize, established: usize, message: String) -> (r: Result<
        ConnectionPool,
        PoolConstructionError,
    >)
        requires
            established <= capacity,
        ensures
            established > 0 ==> (r matches Ok(p) && p.wf() && p.spec_capacity() == capacity
                && p.spec_established() == established && p.spec_leased() == 0),
            established == 0 ==> (r matches Err(e) && e.message == message),
    {
        if established == 0 {
            Err(PoolConstructionError { message })
        } else {
            Ok(ConnectionPool { capacity, established, leased: 0 })
        }
    }

    /// Lease one connection with exclusive ownership. Returns whether a
    /// connection was available; the number of concurrently leased
    /// connections never exceeds the capacity.
    pub fn acquire(&mut self) -> (got: bool)
        requires
            old(self).wf(),
        ensures
            final(self).wf(),
            got <==> old(self).spec_leased() < old(self).spec_established(),
            got ==> final(self).spec_leased() == old(self).spec_leased() + 1,
            !got ==> *final(self) == *old(self),
            final(self).spec_capacity() == old(self).spec_capacity(),
            final(self).spec_established() == old(self).spec_established(),
            final(self).spec_leased() <= final(self).spec_capacity(),
    {
        if self.leased < self.established {
            self.leased = self.leased + 1;
            true
        } else {
            false
        }
    }

    /// Return one leased connection. In this design workers keep their
    /// lease for life, so this runs only at teardown.
    pub fn release(&mut self)
        requires
            old(self).wf(),
            old(self).spec_leased() > 0,
        ensures
            final(self).wf(),
            final(self).spec_leased() == old(self).spec_leased() - 1,
            final(self).spec_capacity() == old(self).spec_capacity(),
            final(self).spec_established() == old(self).spec_established(),
    {
        self.leased = self.leased - 1;
    }

    /// How many connections are leased out.
    pub fn leased_count(&self) -> (r: usize)
        ensures
            r == self.spec_leased(),
    {
        self.leased
    }

    /// How many connections the pool established.
    pub fn established_count(&self) -> (r: usize)
        ensures
            r == self.spec_established(),
    {
        self.established
    }
}

} // verus!
