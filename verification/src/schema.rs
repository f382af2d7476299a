use vstd::prelude::*;
use crate::document::{text_is, Argument, Document, ObjectField, Root, ScalarValue, Value};
use crate::errors::{ArgumentId, DocumentError};

verus! {

/// The operations the schema registry declares, one per `(root, field)`
/// pair it maps.
#[derive(Clone, Copy, PartialEq, Eq, Structural)]
pub enum OpKind {
    /// `users() -> list<User>` under the query root.
    UsersField,
    /// `user(id: integer) -> User` under the query root.
    UserField,
    /// `createUser(input: {name: text}) -> User` under the mutation root.
    CreateUserField,
}

/// A validated operation: the resolver to invoke together with its coerced
/// arguments.
pub enum Operation {
    UsersOp,
    UserOp { id: i32 },
    CreateUserOp { name: String },
}

/// The schema registry as a mapping: which operation, if any, the pair of a
/// root and a field name is bound to.
pub open spec fn spec_lookup(root: Root, field: Seq<char>) -> Option<OpKind> {
    match root {
        Root::QueryRoot => if field == "users"@ {
            Some(OpKind::UsersField)
        } else if field == "user"@ {
            Some(OpKind::UserField)
        } else {
            None
        },
        Root::MutationRoot => if field == "createUser"@ {
            Some(OpKind::CreateUserField)
        } else {
            None
        },
    }
}

/// Looks a requested operation up in the schema registry.
pub fn lookup(root: Root, field: &String) -> (r: Option<OpKind>)
    ensures
        r == spec_lookup(root, field@),
{
    match root {
        Root::QueryRoot => {
            if text_is(field, "users") {
                Some(OpKind::UsersField)
            } else if text_is(field, "user") {
                Some(OpKind::UserField)
            } else {
                None
            }
        },
        Root::MutationRoot => {
            if text_is(field, "createUser") {
                Some(OpKind::CreateUserField)
            } else {
                None
            }
        },
    }
}

/// The first argument of `args` named `name`, if any.
pub open spec fn spec_arg_named(args: Seq<Argument>, name: Seq<char>) -> Option<Argument>
    decreases args.len(),
{
    if args.len() == 0 {
        None
    } else if args[0].name@ == name {
        Some(args[0])
    } else {
        spec_arg_named(args.drop_first(), name)
    }
}

/// Finds the first argument named `lit` and reports its position.
fn arg_named(args: &Vec<Argument>, lit: &str) -> (r: Option<usize>)
    ensures
        match r {
            Some(i) => i < args@.len() && spec_arg_named(args@, lit@) == Some(args@[i as int]),
            None => spec_arg_named(args@, lit@) is None,
        },
{
    let mut i: usize = 0;
    proof {
        assert(args@.skip(0) =~= args@);
    }
    while i < args.len()
        invariant
            i <= args@.len(),
            spec_arg_named(args@, lit@) == spec_arg_named(args@.skip(i as int), lit@),
        decreases args@.len() - i,
    {
        if text_is(&args[i].name, lit) {
            proof {
                assert(args@.skip(i as int)[0] == args@[i as int]);
            }
            return Some(i);
        }
        proof {
            assert(args@.skip(i as int).drop_first() =~= args@.skip(i as int + 1));
        }
        i = i + 1;
    }
    None
}

/// The first field of an input object named `key`, if any.
pub open spec fn spec_obj_field(fields: Seq<ObjectField>, key: Seq<char>) -> Option<ObjectField>
    decreases fields.len(),
{
    if fields.len() == 0 {
        None
    } else if fields[0].key@ == key {
        Some(fields[0])
    } else {
        spec_obj_field(fields.drop_first(), key)
    }
}

/// Finds the first input-object field named `lit` and reports its position.
fn obj_field(fields: &Vec<ObjectField>, lit: &str) -> (r: Option<usize>)
    ensures
        match r {
            Some(i) => i < fields@.len() && spec_obj_field(fields@, lit@) == Some(
                fields@[i as int],
            ),
            None => spec_obj_field(fields@, lit@) is None,
        },
{
    let mut i: usize = 0;
    proof {
        assert(fields@.skip(0) =~= fields@);
    }
    while i < fields.len()
        invariant
            i <= fields@.len(),
            spec_obj_field(fields@, lit@) == spec_obj_field(fields@.skip(i as int), lit@),
        decreases fields@.len() - i,
    {
        if text_is(&fields[i].key, lit) {
            proof {
                assert(fields@.skip(i as int)[0] == fields@[i as int]);
            }
            return Some(i);
        }
        proof {
            assert(fields@.skip(i as int).drop_first() =~= fields@.skip(i as int + 1));
        }
        i = i + 1;
    }
    None
}

/// Whether a selected entity field exists on `User`.
pub open spec fn sel_field_ok(s: Seq<char>) -> bool {
    s == "id"@ || s == "name"@
}

/// The first selected entity field that the `User` type does not expose,
/// if any.
pub open spec fn spec_first_bad_sel(sel: Seq<String>) -> Option<String>
    decreases sel.len(),
{
    if sel.len() == 0 {
        None
    } else if sel_field_ok(sel[0]@) {
        spec_first_bad_sel(sel.drop_first())
    } else {
        Some(sel[0])
    }
}

/// With no offending selected field, every selected field is exposed.
pub proof fn lemma_all_sel_ok(sel: Seq<String>)
    requires
        spec_first_bad_sel(sel) is None,
    ensures
        forall|i: int| 0 <= i < sel.len() ==> sel_field_ok(#[trigger] sel[i]@),
    decreases sel.len(),
{
    if sel.len() > 0 {
        lemma_all_sel_ok(sel.drop_first());
        assert forall|i: int| 0 <= i < sel.len() implies sel_field_ok(#[trigger] sel[i]@) by {
            if i > 0 {
                assert(sel.drop_first()[i - 1] == sel[i]);
            }
        }
    }
}

/// Finds the first selected field the entity does not expose.
fn first_bad_selection(sel: &Vec<String>) -> (r: Option<String>)
    ensures
        r == spec_first_bad_sel(sel@),
{
    let mut i: usize = 0;
    proof {
        assert(sel@.skip(0) =~= sel@);
    }
    while i < sel.len()
        invariant
            i <= sel@.len(),
            spec_first_bad_sel(sel@) == spec_first_bad_sel(sel@.skip(i as int)),
        decreases sel@.len() - i,
    {
        if !(text_is(&sel[i], "id") || text_is(&sel[i], "name")) {
            proof {
                assert(sel@.skip(i as int)[0] == sel@[i as int]);
            }
            return Some(sel[i].clone());
        }
        proof {
            assert(sel@.skip(i as int).drop_first() =~= sel@.skip(i as int + 1));
        }
        i = i + 1;
    }
    None
}

/// Coercion of the supplied arguments against the declared shape of one
/// operation: which resolver call the arguments amount to, or the error
/// that names the offending argument. Arguments the shape does not declare
/// are ignored.
pub open spec fn spec_coerce(kind: OpKind, args: Seq<Argument>) -> Result<
    Operation,
    DocumentError,
> {
    match kind {
        OpKind::UsersField => Ok(Operation::UsersOp),
        OpKind::UserField => match spec_arg_named(args, "id"@) {
            None => Err(DocumentError::MissingArgument { argument: ArgumentId::IdArgument }),
            Some(a) => match a.value {
                Value::IntValue(id) => Ok(Operation::UserOp { id }),
                _ => Err(
                    DocumentError::ArgumentTypeMismatch { argument: ArgumentId::IdArgument },
                ),
            },
        },
        OpKind::CreateUserField => match spec_arg_named(args, "input"@) {
            None => Err(DocumentError::MissingArgument { argument: ArgumentId::InputArgument }),
            Some(a) => match a.value {
                Value::ObjectValue(fields) => match spec_obj_field(fields@, "name"@) {
                    None => Err(
                        DocumentError::MissingArgument { argument: ArgumentId::NameArgument },
                    ),
                    Some(f) => match f.value {
                        ScalarValue::TextScalar(name) => if name@.len() == 0 {
                            Err(
                                DocumentError::MissingArgument {
                                    argument: ArgumentId::NameArgument,
                                },
                            )
                        } else {
                            Ok(Operation::CreateUserOp { name })
                        },
                        _ => Err(
                            DocumentError::ArgumentTypeMismatch {
                                argument: ArgumentId::NameArgument,
                            },
                        ),
                    },
                },
                _ => Err(
                    DocumentError::ArgumentTypeMismatch { argument: ArgumentId::InputArgument },
                ),
            },
        },
    }
}

/// What validating a document yields: the operation to resolve, or the
/// document-level error that short-circuits the request.
///
/// A document fails when its `(root, field)` pair is not registered, when
/// its selection is empty or selects a field `User` does not expose, or
/// when its arguments do not satisfy the declared shape.
pub open spec fn spec_validate(doc: Document) -> Result<Operation, DocumentError> {
    match spec_lookup(doc.root, doc.field@) {
        None => Err(DocumentError::UnknownOperation { field: doc.field }),
        Some(kind) => if doc.selection@.len() == 0 {
            Err(DocumentError::MalformedDocument)
        } else {
            match spec_first_bad_sel(doc.selection@) {
                Some(f) => Err(DocumentError::UnknownOperation { field: f }),
                None => spec_coerce(kind, doc.arguments@),
            }
        },
    }
}

/// Validates a document against the schema registry and coerces its
/// arguments; see [`spec_validate`].
pub fn validate(doc: &Document) -> (r: Result<Operation, DocumentError>)
    ensures
        r == spec_validate(*doc),
{
    let kind = match lookup(doc.root, &doc.field) {
        None => {
            return Err(DocumentError::UnknownOperation { field: doc.field.clone() });
        },
        Some(k) => k,
    };
    if doc.selection.len() == 0 {
        return Err(DocumentError::MalformedDocument);
    }
    match first_bad_selection(&doc.selection) {
        Some(f) => {
            return Err(DocumentError::UnknownOperation { field: f });
        },
        None => {},
    }
    match kind {
        OpKind::UsersField => Ok(Operation::UsersOp),
        OpKind::UserField => match arg_named(&doc.arguments, "id") {
            None => Err(DocumentError::MissingArgument { argument: ArgumentId::IdArgument }),
            Some(i) => match &doc.arguments[i].value {
                Value::IntValue(id) => Ok(Operation::UserOp { id: *id }),
                _ => Err(
                    DocumentError::ArgumentTypeMismatch { argument: ArgumentId::IdArgument },
                ),
            },
        },
        OpKind::CreateUserField => match arg_named(&doc.arguments, "input") {
            None => Err(DocumentError::MissingArgument { argument: ArgumentId::InputArgument }),
            Some(i) => match &doc.arguments[i].value {
                Value::ObjectValue(fields) => match obj_field(fields, "name") {
                    None => Err(
                        DocumentError::MissingArgument { argument: ArgumentId::NameArgument },
                    ),
                    Some(j) => match &fields[j].value {
                        ScalarValue::TextScalar(name) => if name.as_str().is_empty() {
                            Err(
                                DocumentError::MissingArgument {
                                    argument: ArgumentId::NameArgument,
                                },
                            )
                        } else {
                            Ok(Operation::CreateUserOp { name: name.clone() })
                        },
                        _ => Err(
                            DocumentError::ArgumentTypeMismatch {
                                argument: ArgumentId::NameArgument,
                            },
                        ),
                    },
                },
                _ => Err(
                    DocumentError::ArgumentTypeMismatch { argument: ArgumentId::InputArgument },
                ),
            },
        },
    }
}

} // verus!
