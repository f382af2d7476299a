use vstd::prelude::*;
use crate::context::Context;
use crate::document::{Document, ObjectField, Root, ScalarValue, Value};
use crate::engine::spec_resolve_err;
use crate::errors::{ArgumentId, DocumentError, ResolveError};
use crate::pool::Pool;
use crate::schema::{spec_arg_named, spec_first_bad_sel, spec_obj_field, spec_validate, Operation};
use crate::store::{contains_id, rows_wf, user_with};
use crate::user::User;

verus! {

/// In a well-formed table the assigned ids are pairwise distinct, and the
/// id the next insert will assign is fresh: no prior row carries it, nor
/// any id at or above it.
pub proof fn lemma_assigned_ids_unique(rows: Seq<User>, next_id: i32)
    requires
        rows_wf(rows, next_id),
    ensures
        forall|i: int, j: int|
            0 <= i < rows.len() && 0 <= j < rows.len() && i != j ==> rows[i].id != rows[j].id,
        forall|id: i32| next_id <= id ==> !contains_id(rows, id),
{
    assert forall|i: int, j: int|
        0 <= i < rows.len() && 0 <= j < rows.len() && i != j implies rows[i].id
        != rows[j].id by {
        if i < j {
            assert(rows[i].id < rows[j].id);
        } else {
            assert(rows[j].id < rows[i].id);
        }
    }
}

/// Creation keeps the invariant and is observable at once: pushing the row
/// the store builds from the assigned id leaves a well-formed table in
/// which a lookup of that id finds exactly the created `{id, name}` pair.
/// With [`lemma_assigned_ids_unique`] this is the round-trip law: a
/// `createUser` returning `id` makes an immediate `user(id)` resolve to the
/// identical user.
pub proof fn lemma_create_then_lookup(rows: Seq<User>, next_id: i32, name: String)
    requires
        rows_wf(rows, next_id),
        next_id < i32::MAX,
    ensures
        rows_wf(rows.push((User { id: next_id, name: name })), (next_id + 1) as i32),
        contains_id(rows.push((User { id: next_id, name: name })), next_id),
        user_with(rows.push((User { id: next_id, name: name })), next_id) == (User {
            id: next_id,
            name: name,
        }),
{
    let created = User { id: next_id, name: name };
    let after = rows.push(created);
    assert(after[rows.len() as int] == created);
    assert(contains_id(after, next_id));
    assert forall|i: int, j: int| 0 <= i < j < after.len() implies after[i].id < after[j].id by {
        assert(after[i] == rows[i]);
        if j < rows.len() {
            assert(after[j] == rows[j]);
        }
    }
    let k = choose|k: int| 0 <= k < after.len() && after[k].id == next_id;
    if k < rows.len() {
        assert(after[k] == rows[k]);
        assert(rows[k].id < next_id);
    }
    assert(k == rows.len() as int);
}

/// Creations never collide: the ids two consecutive creations take — in
/// whichever order the store serializes them — differ, and the table stays
/// well formed throughout. Uniqueness therefore holds across any number of
/// interleaved creations, each of which runs as one serialized insert.
pub proof fn lemma_two_creates_distinct_ids(
    rows: Seq<User>,
    next_id: i32,
    first_name: String,
    second_name: String,
)
    requires
        rows_wf(rows, next_id),
        next_id + 1 < i32::MAX,
    ensures
        next_id != (next_id + 1) as i32,
        rows_wf(
            rows.push((User { id: next_id, name: first_name })).push(
                (User { id: (next_id + 1) as i32, name: second_name }),
            ),
            (next_id + 2) as i32,
        ),
{
    lemma_create_then_lookup(rows, next_id, first_name);
    lemma_create_then_lookup(
        rows.push(User { id: next_id, name: first_name }),
        (next_id + 1) as i32,
        second_name,
    );
}

/// `users` against a store holding no rows resolves without any error: the
/// execution contract then promises a present `data` value listing one
/// projected entry per row — that is, none.
pub proof fn lemma_users_on_empty_store(ctx: Context)
    requires
        ctx.wf(),
        ctx.pool.free > 0,
        ctx.store.up,
        ctx.store.rows@.len() == 0,
    ensures
        spec_resolve_err(Operation::UsersOp, ctx) is None,
{
}

/// A lookup of an id the store has never assigned resolves to `NotFound`:
/// ids are assigned from `next_id` upwards and rows are never removed, so
/// an id at or above `next_id` matches no row, and the execution contract
/// then promises a well-formed envelope with null at the `user` field and
/// the error attached to that path.
pub proof fn lemma_unassigned_id_not_found(ctx: Context, id: i32)
    requires
        ctx.wf(),
        ctx.pool.free > 0,
        ctx.store.up,
        ctx.store.next_id <= id,
    ensures
        !contains_id(ctx.store.rows@, id),
        spec_resolve_err(Operation::UserOp { id }, ctx) == Some(ResolveError::NotFound),
{
    lemma_assigned_ids_unique(ctx.store.rows@, ctx.store.next_id);
}

/// `createUser` with an empty or absent `name` fails validation with an
/// error identifying the `name` argument. Validation precedes resolution,
/// so by the execution contract such a document never reaches the store:
/// the response carries no data and the store is left untouched.
pub proof fn lemma_empty_name_never_reaches_store(doc: Document, fields: Vec<ObjectField>)
    requires
        doc.root == Root::MutationRoot,
        doc.field@ == "createUser"@,
        doc.selection@.len() > 0,
        spec_first_bad_sel(doc.selection@) is None,
        spec_arg_named(doc.arguments@, "input"@) matches Some(a) && a.value == Value::ObjectValue(
            fields,
        ),
        match spec_obj_field(fields@, "name"@) {
            None => true,
            Some(f) => f.value matches ScalarValue::TextScalar(name) && name@.len() == 0,
        },
    ensures
        spec_validate(doc) == Err::<Operation, DocumentError>(
            DocumentError::MissingArgument { argument: ArgumentId::NameArgument },
        ),
{
}

/// Pool use is scoped: acquiring a free connection keeps the pool bound,
/// and releasing it restores exactly the prior pool — a request never leaks
/// a connection. With every connection held, `acquire`'s own contract makes
/// the next request fail with `PoolExhausted` while changing nothing, so it
/// can succeed as soon as one borrower releases: exhaustion never deadlocks
/// the pool.
pub proof fn lemma_pool_acquire_release_scoped(p: Pool)
    requires
        p.wf(),
        p.free > 0,
    ensures
        (Pool { size: p.size, free: (p.free - 1) as usize }).wf(),
        (Pool { size: p.size, free: (p.free - 1) as usize }).free < p.size,
        (Pool { size: p.size, free: ((p.free - 1) + 1) as usize }) == p,
{
}

} // verus!
