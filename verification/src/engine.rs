use vstd::prelude::*;
use crate::context::Context;
use crate::document::Document;
use crate::errors::{ErrorEntry, ErrorKind, ResolveError};
use crate::resolvers::{Mutation, Query};
use crate::response::{
    document_error_response, field_error_response, single_user_response, spec_project,
    users_response, Response, ResultValue,
};
use crate::schema::{lemma_all_sel_ok, spec_validate, validate, Operation};
use crate::store::{contains_id, user_with};
use crate::user::{User, UserInput};

verus! {

/// The error, if any, that resolving a validated operation in context `ctx`
/// raises. The checks stand in the order the execution takes them: the pool
/// is asked for a connection first, then the store round trip happens.
pub open spec fn spec_resolve_err(op: Operation, ctx: Context) -> Option<ResolveError> {
    if ctx.pool.free == 0 {
        Some(ResolveError::PoolExhausted)
    } else if !ctx.store.up {
        Some(ResolveError::StoreUnavailable)
    } else {
        match op {
            Operation::UsersOp => None,
            Operation::UserOp { id } => if contains_id(ctx.store.rows@, id) {
                None
            } else {
                Some(ResolveError::NotFound)
            },
            Operation::CreateUserOp { name } => if name@.len() == 0 || ctx.store.next_id
                == i32::MAX {
                Some(ResolveError::QueryRejected)
            } else {
                None
            },
        }
    }
}

/// Turns one incoming query document into one response document.
///
/// The document is validated against the schema registry; a validation
/// failure short-circuits with a document-level error and the store is
/// never reached. Otherwise the bound resolver runs with the request
/// context; its failure becomes a field-level error attached to the
/// operation's path, inside a still well-formed envelope; its success is
/// projected onto exactly the fields the client selected. The pool holds
/// as many free connections afterwards as before on every path.
pub fn execute_document(ctx: &mut Context, doc: &Document) -> (r: Response)
    requires
        old(ctx).wf(),
    ensures
        final(ctx).wf(),
        final(ctx).pool == old(ctx).pool,
        (spec_validate(*doc) matches Err(e) ==> {
            &&& final(ctx).store == old(ctx).store
            &&& r.data is None
            &&& r.errors@ =~= seq![
                ErrorEntry { kind: ErrorKind::DocumentLevel(e), path: None },
            ]
        }),
        (spec_validate(*doc) matches Ok(op) ==> {
            &&& r.data matches Some(d)
            &&& d.field == doc.field
            &&& match spec_resolve_err(op, *old(ctx)) {
                Some(e) => {
                    &&& final(ctx).store == old(ctx).store
                    &&& d.value is None
                    &&& r.errors@ =~= seq![
                        ErrorEntry { kind: ErrorKind::FieldLevel(e), path: Some(doc.field) },
                    ]
                },
                None => {
                    &&& r.errors@.len() == 0
                    &&& match op {
                        Operation::UsersOp => {
                            &&& final(ctx).store == old(ctx).store
                            &&& d.value matches Some(ResultValue::UserList(l))
                            &&& l@.len() == old(ctx).store.rows@.len()
                            &&& forall|i: int|
                                0 <= i < l@.len() ==> #[trigger] (l@[i]@) == spec_project(
                                    old(ctx).store.rows@[i],
                                    doc.selection@,
                                )
                        },
                        Operation::UserOp { id } => {
                            &&& final(ctx).store == old(ctx).store
                            &&& d.value matches Some(ResultValue::SingleUser(f))
                            &&& f@ == spec_project(
                                user_with(old(ctx).store.rows@, id),
                                doc.selection@,
                            )
                        },
                        Operation::CreateUserOp { name } => {
                            &&& final(ctx).store.rows@ == old(ctx).store.rows@.push(
                                User { id: old(ctx).store.next_id, name: name },
                            )
                            &&& final(ctx).store.next_id == old(ctx).store.next_id + 1
                            &&& final(ctx).store.up
                            &&& d.value matches Some(ResultValue::SingleUser(f))
                            &&& f@ == spec_project(
                                User { id: old(ctx).store.next_id, name: name },
                                doc.selection@,
                            )
                        },
                    }
                },
            }
        }),
{
    let op = match validate(doc) {
        Err(e) => {
            return document_error_response(e);
        },
        Ok(op) => op,
    };
    proof {
        lemma_all_sel_ok(doc.selection@);
    }
    match op {
        Operation::UsersOp => match Query::users(ctx) {
            Ok(us) => users_response(&doc.field, &us, &doc.selection),
            Err(e) => field_error_response(&doc.field, e),
        },
        Operation::UserOp { id } => match Query::user(ctx, id) {
            Ok(u) => single_user_response(&doc.field, &u, &doc.selection),
            Err(e) => field_error_response(&doc.field, e),
        },
        Operation::CreateUserOp { name } => match Mutation::create_user(
            ctx,
            UserInput { name },
        ) {
            Ok(u) => single_user_response(&doc.field, &u, &doc.selection),
            Err(e) => field_error_response(&doc.field, e),
        },
    }
}

} // verus!
