use vstd::prelude::*;
use crate::errors::ResolveError;
use crate::user::User;

verus! {

/// Whether some row of `rows` carries the identifier `id`.
pub open spec fn contains_id(rows: Seq<User>, id: i32) -> bool {
    exists|k: int| 0 <= k < rows.len() && rows[k].id == id
}

/// The row of `rows` carrying the identifier `id`. Meaningful only where
/// `contains_id(rows, id)` holds; under [`Store::wf`] the ids are pairwise
/// distinct, so the row is unique.
pub open spec fn user_with(rows: Seq<User>, id: i32) -> User
    recommends
        contains_id(rows, id),
{
    rows[choose|k: int| 0 <= k < rows.len() && rows[k].id == id]
}

/// The invariant of a well-formed table: rows stand in order of creation,
/// with store-assigned ids strictly increasing (hence pairwise distinct),
/// and every assigned id lies below the id the next insert will take.
pub open spec fn rows_wf(rows: Seq<User>, next_id: i32) -> bool {
    &&& 1 <= next_id
    &&& forall|i: int, j: int| 0 <= i < j < rows.len() ==> rows[i].id < rows[j].id
    &&& forall|i: int| 0 <= i < rows.len() ==> rows[i].id < next_id
}

/// The backing relational store, modelled by what the three statements the
/// resolvers issue can observe of it: the user table (`rows`), the id the
/// store will assign to the next inserted row (`next_id`), and whether the
/// transport to the store is up at all (`up`).
pub struct Store {
    pub up: bool,
    pub next_id: i32,
    pub rows: Vec<User>,
}

impl Store {
    /// The store invariant; see [`rows_wf`].
    pub open spec fn wf(self) -> bool {
        rows_wf(self.rows@, self.next_id)
    }

    /// An empty, reachable store whose first assigned id will be 1.
    pub fn new() -> (s: Store)
        ensures
            s.wf(),
            s.up,
            s.rows@.len() == 0,
            s.next_id == 1,
    {
        Store { up: true, next_id: 1, rows: Vec::new() }
    }

    /// `SELECT id, name FROM users`: every row, in table order.
    pub fn select_all(&self) -> (r: Result<Vec<User>, ResolveError>)
        ensures
            !self.up ==> r == Err::<Vec<User>, ResolveError>(ResolveError::StoreUnavailable),
            self.up ==> r is Ok && r->Ok_0@ == self.rows@,
    {
        if !self.up {
            return Err(ResolveError::StoreUnavailable);
        }
        let mut out: Vec<User> = Vec::new();
        let mut i: usize = 0;
        while i < self.rows.len()
            invariant
                i <= self.rows@.len(),
                out@.len() == i,
                forall|k: int| 0 <= k < i ==> out@[k] == self.rows@[k],
            decreases self.rows@.len() - i,
        {
            out.push(self.rows[i].clone());
            i = i + 1;
        }
        proof {
            assert(out@ =~= self.rows@);
        }
        Ok(out)
    }

    /// `SELECT id, name FROM users WHERE id = $1`: the unique matching row,
    /// or `None` when no row carries the id.
    pub fn select_by_id(&self, id: i32) -> (r: Result<Option<User>, ResolveError>)
        requires
            self.wf(),
        ensures
            !self.up ==> r == Err::<Option<User>, ResolveError>(ResolveError::StoreUnavailable),
            self.up ==> r is Ok && match r->Ok_0 {
                Some(u) => contains_id(self.rows@, id) && u == user_with(self.rows@, id),
                None => !contains_id(self.rows@, id),
            },
    {
        if !self.up {
            return Err(ResolveError::StoreUnavailable);
        }
        let mut i: usize = 0;
        while i < self.rows.len()
            invariant
                self.wf(),
                self.up,
                i <= self.rows@.len(),
                forall|k: int| 0 <= k < i ==> self.rows@[k].id != id,
            decreases self.rows@.len() - i,
        {
            if self.rows[i].id == id {
                let found = self.rows[i].clone();
                proof {
                    assert(contains_id(self.rows@, id));
                    let k = choose|k: int| 0 <= k < self.rows@.len() && self.rows@[k].id == id;
                    if k < i as int {
                        assert(self.rows@[k].id != id);
                    }
                    if (i as int) < k {
                        assert(self.rows@[i as int].id < self.rows@[k].id);
                    }
                    assert(k == i as int);
                }
                return Ok(Some(found));
            }
            i = i + 1;
        }
        Ok(None)
    }

    /// `INSERT INTO users (name) VALUES ($1) RETURNING id`: appends a row
    /// under a fresh id and reports that id back.
    ///
    /// The store rejects the statement when the supplied name is empty (the
    /// column carries a non-emptiness constraint) and when the id sequence
    /// is exhausted; in both cases, and when the store is down, the table
    /// is left untouched.
    pub fn insert_user(&mut self, name: String) -> (r: Result<i32, ResolveError>)
        requires
            old(self).wf(),
        ensures
            final(self).wf(),
            final(self).up == old(self).up,
            !old(self).up ==> r == Err::<i32, ResolveError>(ResolveError::StoreUnavailable)
                && *final(self) == *old(self),
            old(self).up && (name@.len() == 0 || old(self).next_id == i32::MAX)
                ==> r == Err::<i32, ResolveError>(ResolveError::QueryRejected)
                    && *final(self) == *old(self),
            old(self).up && name@.len() > 0 && old(self).next_id < i32::MAX ==> {
                &&& r == Ok::<i32, ResolveError>(old(self).next_id)
                &&& final(self).rows@ == old(self).rows@.push(
                    User { id: old(self).next_id, name: name },
                )
                &&& final(self).next_id == old(self).next_id + 1
            },
    {
        if !self.up {
            return Err(ResolveError::StoreUnavailable);
        }
        if name.as_str().is_empty() || self.next_id == i32::MAX {
            return Err(ResolveError::QueryRejected);
        }
        let assigned = self.next_id;
        self.rows.push(User { id: assigned, name });
        self.next_id = assigned + 1;
        Ok(assigned)
    }
}

} // verus!
