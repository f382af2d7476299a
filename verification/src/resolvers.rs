use vstd::prelude::*;
use crate::context::{run_insert, run_select_all, run_select_by_id, Context};
use crate::errors::ResolveError;
use crate::store::{contains_id, user_with};
use crate::user::{User, UserInput};

verus! {

/// The query root: the read-only operations of the schema.
pub struct Query;

impl Query {
    /// Resolver of `users`: every user in the table, in creation order. An
    /// empty table resolves to an empty list, not to an error.
    pub fn users(ctx: &mut Context) -> (r: Result<Vec<User>, ResolveError>)
        requires
            old(ctx).wf(),
        ensures
            final(ctx).wf(),
            final(ctx).pool == old(ctx).pool,
            final(ctx).store == old(ctx).store,
            old(ctx).pool.free == 0 ==> r == Err::<Vec<User>, ResolveError>(
                ResolveError::PoolExhausted,
            ),
            old(ctx).pool.free > 0 && !old(ctx).store.up ==> r == Err::<Vec<User>, ResolveError>(
                ResolveError::StoreUnavailable,
            ),
            old(ctx).pool.free > 0 && old(ctx).store.up ==> r is Ok && r->Ok_0@ == old(
                ctx,
            ).store.rows@,
    {
        run_select_all(ctx)
    }

    /// Resolver of `user(id)`: the unique user carrying `id`, or `NotFound`
    /// when no row matches.
    pub fn user(ctx: &mut Context, id: i32) -> (r: Result<User, ResolveError>)
        requires
            old(ctx).wf(),
        ensures
            final(ctx).wf(),
            final(ctx).pool == old(ctx).pool,
            final(ctx).store == old(ctx).store,
            old(ctx).pool.free == 0 ==> r == Err::<User, ResolveError>(
                ResolveError::PoolExhausted,
            ),
            old(ctx).pool.free > 0 && !old(ctx).store.up ==> r == Err::<User, ResolveError>(
                ResolveError::StoreUnavailable,
            ),
            old(ctx).pool.free > 0 && old(ctx).store.up && !contains_id(old(ctx).store.rows@, id)
                ==> r == Err::<User, ResolveError>(ResolveError::NotFound),
            old(ctx).pool.free > 0 && old(ctx).store.up && contains_id(old(ctx).store.rows@, id)
                ==> r == Ok::<User, ResolveError>(user_with(old(ctx).store.rows@, id)),
    {
        match run_select_by_id(ctx, id)? {
            Some(u) => Ok(u),
            None => Err(ResolveError::NotFound),
        }
    }
}

/// The mutation root: the side-effecting operations of the schema.
pub struct Mutation;

impl Mutation {
    /// Resolver of `createUser(input)`: inserts one row, reads back the
    /// store-assigned id, and returns that id combined with the supplied
    /// name. The one write is the whole effect; nothing else changes.
    pub fn create_user(ctx: &mut Context, input: UserInput) -> (r: Result<User, ResolveError>)
        requires
            old(ctx).wf(),
        ensures
            final(ctx).wf(),
            final(ctx).pool == old(ctx).pool,
            final(ctx).store.up == old(ctx).store.up,
            old(ctx).pool.free == 0 ==> r == Err::<User, ResolveError>(
                ResolveError::PoolExhausted,
            ) && final(ctx).store == old(ctx).store,
            old(ctx).pool.free > 0 && !old(ctx).store.up ==> r == Err::<User, ResolveError>(
                ResolveError::StoreUnavailable,
            ) && final(ctx).store == old(ctx).store,
            old(ctx).pool.free > 0 && old(ctx).store.up && (input.name@.len() == 0 || old(
                ctx,
            ).store.next_id == i32::MAX) ==> r == Err::<User, ResolveError>(
                ResolveError::QueryRejected,
            ) && final(ctx).store == old(ctx).store,
            old(ctx).pool.free > 0 && old(ctx).store.up && input.name@.len() > 0 && old(
                ctx,
            ).store.next_id < i32::MAX ==> {
                &&& r == Ok::<User, ResolveError>(
                    User { id: old(ctx).store.next_id, name: input.name },
                )
                &&& final(ctx).store.rows@ == old(ctx).store.rows@.push(
                    User { id: old(ctx).store.next_id, name: input.name },
                )
                &&& final(ctx).store.next_id == old(ctx).store.next_id + 1
            },
    {
        let UserInput { name } = input;
        let returned = name.clone();
        match run_insert(ctx, name) {
            Err(e) => Err(e),
            Ok(id) => Ok(User { id, name: returned }),
        }
    }
}

} // verus!
