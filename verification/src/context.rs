use vstd::prelude::*;
use crate::errors::ResolveError;
use crate::pool::Pool;
use crate::store::{contains_id, user_with, Store};
use crate::user::User;

verus! {

/// The per-request execution context: the pool handle and the store it
/// reaches. Every resolver invocation of one request goes through one
/// context; no state in it outlives the request.
pub struct Context {
    pub pool: Pool,
    pub store: Store,
}

impl Context {
    /// Both halves of the context are well formed.
    pub open spec fn wf(self) -> bool {
        self.pool.wf() && self.store.wf()
    }

    /// A context over a fresh pool of `pool_size` connections and an empty
    /// store.
    pub fn new(pool_size: usize) -> (c: Context)
        ensures
            c.wf(),
            c.pool.size == pool_size,
            c.pool.free == pool_size,
            c.store.up,
            c.store.rows@.len() == 0,
            c.store.next_id == 1,
    {
        Context { pool: Pool::new(pool_size), store: Store::new() }
    }
}

/// Acquires a connection, runs the full-table select, and releases the
/// connection again. The pool leaves exactly as it entered on every path.
pub fn run_select_all(ctx: &mut Context) -> (r: Result<Vec<User>, ResolveError>)
    requires
        old(ctx).wf(),
    ensures
        final(ctx).wf(),
        final(ctx).pool == old(ctx).pool,
        final(ctx).store == old(ctx).store,
        old(ctx).pool.free == 0 ==> r == Err::<Vec<User>, ResolveError>(
            ResolveError::PoolExhausted,
        ),
        old(ctx).pool.free > 0 && !old(ctx).store.up ==> r == Err::<Vec<User>, ResolveError>(
            ResolveError::StoreUnavailable,
        ),
        old(ctx).pool.free > 0 && old(ctx).store.up ==> r is Ok && r->Ok_0@ == old(
            ctx,
        ).store.rows@,
{
    match ctx.pool.acquire() {
        Err(e) => Err(e),
        Ok(()) => {
            let r = ctx.store.select_all();
            ctx.pool.release();
            r
        },
    }
}

/// Acquires a connection, runs the point lookup, and releases the
/// connection again. The pool leaves exactly as it entered on every path.
pub fn run_select_by_id(ctx: &mut Context, id: i32) -> (r: Result<Option<User>, ResolveError>)
    requires
        old(ctx).wf(),
    ensures
        final(ctx).wf(),
        final(ctx).pool == old(ctx).pool,
        final(ctx).store == old(ctx).store,
        old(ctx).pool.free == 0 ==> r == Err::<Option<User>, ResolveError>(
            ResolveError::PoolExhausted,
        ),
        old(ctx).pool.free > 0 && !old(ctx).store.up ==> r == Err::<Option<User>, ResolveError>(
            ResolveError::StoreUnavailable,
        ),
        old(ctx).pool.free > 0 && old(ctx).store.up ==> r is Ok && match r->Ok_0 {
            Some(u) => contains_id(old(ctx).store.rows@, id) && u == user_with(
                old(ctx).store.rows@,
                id,
            ),
            None => !contains_id(old(ctx).store.rows@, id),
        },
{
    match ctx.pool.acquire() {
        Err(e) => Err(e),
        Ok(()) => {
            let r = ctx.store.select_by_id(id);
            ctx.pool.release();
            r
        },
    }
}

/// Acquires a connection, runs the insert, and releases the connection
/// again. The pool leaves exactly as it entered on every path; the store
/// changes exactly when the insert succeeds.
pub fn run_insert(ctx: &mut Context, name: String) -> (r: Result<i32, ResolveError>)
    requires
        old(ctx).wf(),
    ensures
        final(ctx).wf(),
        final(ctx).pool == old(ctx).pool,
        final(ctx).store.up == old(ctx).store.up,
        old(ctx).pool.free == 0 ==> r == Err::<i32, ResolveError>(ResolveError::PoolExhausted)
            && final(ctx).store == old(ctx).store,
        old(ctx).pool.free > 0 && !old(ctx).store.up ==> r == Err::<i32, ResolveError>(
            ResolveError::StoreUnavailable,
        ) && final(ctx).store == old(ctx).store,
        old(ctx).pool.free > 0 && old(ctx).store.up && (name@.len() == 0 || old(
            ctx,
        ).store.next_id == i32::MAX) ==> r == Err::<i32, ResolveError>(ResolveError::QueryRejected)
            && final(ctx).store == old(ctx).store,
        old(ctx).pool.free > 0 && old(ctx).store.up && name@.len() > 0 && old(ctx).store.next_id
            < i32::MAX ==> {
            &&& r == Ok::<i32, ResolveError>(old(ctx).store.next_id)
            &&& final(ctx).store.rows@ == old(ctx).store.rows@.push(
                User { id: old(ctx).store.next_id, name: name },
            )
            &&& final(ctx).store.next_id == old(ctx).store.next_id + 1
        },
{
    match ctx.pool.acquire() {
        Err(e) => Err(e),
        Ok(()) => {
            let r = ctx.store.insert_user(name);
            ctx.pool.release();
            r
        },
    }
}

} // verus!
