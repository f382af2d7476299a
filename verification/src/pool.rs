use vstd::prelude::*;
use crate::errors::ResolveError;

verus! {

/// The connection pool, modelled by what the resolvers can observe of it:
/// its bound (`size`) and how many connections are currently free.
///
/// `acquire` hands out a free connection or, when none is free and the
/// bounded wait elapses, fails with [`ResolveError::PoolExhausted`];
/// `release` puts a connection back. The pool never creates connections
/// beyond its bound and never loses one: `free <= size` is an invariant,
/// and every caller that acquires must release on every exit path.
pub struct Pool {
    pub size: usize,
    pub free: usize,
}

impl Pool {
    /// The pool invariant: no more free connections than the bound allows.
    pub open spec fn wf(self) -> bool {
        self.free <= self.size
    }

    /// A fresh pool with every connection free.
    pub fn new(size: usize) -> (p: Pool)
        ensures
            p.wf(),
            p.size == size,
            p.free == size,
    {
        Pool { size, free: size }
    }

    /// Checks out a connection. In this model a request that would have to
    /// wait fails at once: with no free connection, no concurrently running
    /// borrower is represented that could return one before the wait
    /// elapses, so the bounded wait ends in `PoolExhausted`.
    pub fn acquire(&mut self) -> (r: Result<(), ResolveError>)
        ensures
            final(self).size == old(self).size,
            old(self).free > 0 ==> r is Ok && final(self).free == old(self).free - 1,
            old(self).free == 0 ==> r == Err::<(), ResolveError>(ResolveError::PoolExhausted)
                && final(self).free == old(self).free,
    {
        if self.free > 0 {
            self.free = self.free - 1;
            Ok(())
        } else {
            Err(ResolveError::PoolExhausted)
        }
    }

    /// Returns a checked-out connection to the free set.
    pub fn release(&mut self)
        requires
            old(self).free < old(self).size,
        ensures
            final(self).size == old(self).size,
            final(self).free == old(self).free + 1,
    {
        self.free = self.free + 1;
    }
}

} // verus!
