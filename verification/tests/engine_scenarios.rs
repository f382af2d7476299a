use query_gateway::context::Context;
use query_gateway::document::{Argument, Document, ObjectField, Root, ScalarValue, Value};
use query_gateway::engine::execute_document;
use query_gateway::errors::{ArgumentId, DocumentError, ErrorKind, ResolveError};
use query_gateway::pool::Pool;
use query_gateway::response::{FieldValue, OutField, Response, ResultValue};
use query_gateway::store::Store;

fn sel(names: &[&str]) -> Vec<String> {
    names.iter().map(|s| s.to_string()).collect()
}

fn users_doc() -> Document {
    Document {
        root: Root::QueryRoot,
        field: "users".to_string(),
        arguments: vec![],
        selection: sel(&["id", "name"]),
    }
}

fn user_doc(id: i32) -> Document {
    Document {
        root: Root::QueryRoot,
        field: "user".to_string(),
        arguments: vec![Argument { name: "id".to_string(), value: Value::IntValue(id) }],
        selection: sel(&["id", "name"]),
    }
}

fn create_doc(name: &str) -> Document {
    Document {
        root: Root::MutationRoot,
        field: "createUser".to_string(),
        arguments: vec![Argument {
            name: "input".to_string(),
            value: Value::ObjectValue(vec![ObjectField {
                key: "name".to_string(),
                value: ScalarValue::TextScalar(name.to_string()),
            }]),
        }],
        selection: sel(&["id", "name"]),
    }
}

fn single_user(r: &Response) -> &Vec<OutField> {
    match r.data.as_ref().unwrap().value.as_ref().unwrap() {
        ResultValue::SingleUser(fields) => fields,
        _ => panic!("expected a single user"),
    }
}

fn user_list(r: &Response) -> &Vec<Vec<OutField>> {
    match r.data.as_ref().unwrap().value.as_ref().unwrap() {
        ResultValue::UserList(list) => list,
        _ => panic!("expected a user list"),
    }
}

fn id_of(fields: &[OutField]) -> i32 {
    for f in fields {
        if f.name == "id" {
            match f.value {
                FieldValue::IntField(id) => return id,
                _ => panic!("id is not an integer"),
            }
        }
    }
    panic!("no id field")
}

fn name_of(fields: &[OutField]) -> String {
    for f in fields {
        if f.name == "name" {
            match &f.value {
                FieldValue::TextField(n) => return n.clone(),
                _ => panic!("name is not text"),
            }
        }
    }
    panic!("no name field")
}

#[test]
fn users_after_zero_creations_is_empty_list() {
    let mut ctx = Context::new(2);
    let r = execute_document(&mut ctx, &users_doc());
    assert_eq!(r.errors.len(), 0);
    assert_eq!(user_list(&r).len(), 0);
}

#[test]
fn create_then_lookup_round_trip() {
    let mut ctx = Context::new(2);
    let created = execute_document(&mut ctx, &create_doc("Ada"));
    assert_eq!(created.errors.len(), 0);
    let fields = single_user(&created);
    let id = id_of(fields);
    assert_eq!(name_of(fields), "Ada");

    let looked_up = execute_document(&mut ctx, &user_doc(id));
    assert_eq!(looked_up.errors.len(), 0);
    let fields = single_user(&looked_up);
    assert_eq!(id_of(fields), id);
    assert_eq!(name_of(fields), "Ada");
}

#[test]
fn created_ids_are_unique_and_all_listed() {
    let mut ctx = Context::new(2);
    let a = id_of(single_user(&execute_document(&mut ctx, &create_doc("Ada"))));
    let b = id_of(single_user(&execute_document(&mut ctx, &create_doc("Grace"))));
    let c = id_of(single_user(&execute_document(&mut ctx, &create_doc("Edsger"))));
    assert_ne!(a, b);
    assert_ne!(a, c);
    assert_ne!(b, c);

    let all = execute_document(&mut ctx, &users_doc());
    let list = user_list(&all);
    assert_eq!(list.len(), 3);
    assert_eq!(name_of(&list[0]), "Ada");
    assert_eq!(name_of(&list[1]), "Grace");
    assert_eq!(name_of(&list[2]), "Edsger");
}

#[test]
fn unassigned_id_is_not_found_with_null_data_at_field() {
    let mut ctx = Context::new(2);
    let r = execute_document(&mut ctx, &user_doc(42));
    let data = r.data.as_ref().unwrap();
    assert_eq!(data.field, "user");
    assert!(data.value.is_none());
    assert_eq!(r.errors.len(), 1);
    assert!(matches!(r.errors[0].kind, ErrorKind::FieldLevel(ResolveError::NotFound)));
    assert_eq!(r.errors[0].path.as_deref(), Some("user"));
}

#[test]
fn empty_name_never_reaches_the_store() {
    let mut ctx = Context::new(2);
    let r = execute_document(&mut ctx, &create_doc(""));
    assert!(r.data.is_none());
    assert_eq!(r.errors.len(), 1);
    match &r.errors[0].kind {
        ErrorKind::DocumentLevel(DocumentError::MissingArgument { argument }) => {
            assert_eq!(argument.text(), "name");
        }
        _ => panic!("expected a document-level missing-argument error"),
    }
    // Nothing was inserted.
    let all = execute_document(&mut ctx, &users_doc());
    assert_eq!(user_list(&all).len(), 0);
}

#[test]
fn absent_name_field_is_missing_argument() {
    let mut ctx = Context::new(2);
    let mut doc = create_doc("Ada");
    doc.arguments[0].value = Value::ObjectValue(vec![]);
    let r = execute_document(&mut ctx, &doc);
    assert!(r.data.is_none());
    match &r.errors[0].kind {
        ErrorKind::DocumentLevel(DocumentError::MissingArgument { argument }) => {
            assert!(matches!(argument, ArgumentId::NameArgument));
        }
        _ => panic!("expected a missing-argument error"),
    }
}

#[test]
fn absent_input_argument_is_missing_argument() {
    let mut ctx = Context::new(2);
    let mut doc = create_doc("Ada");
    doc.arguments.clear();
    let r = execute_document(&mut ctx, &doc);
    match &r.errors[0].kind {
        ErrorKind::DocumentLevel(DocumentError::MissingArgument { argument }) => {
            assert!(matches!(argument, ArgumentId::InputArgument));
        }
        _ => panic!("expected a missing-argument error"),
    }
}

#[test]
fn non_object_input_is_type_mismatch() {
    let mut ctx = Context::new(2);
    let mut doc = create_doc("Ada");
    doc.arguments[0].value = Value::TextValue("Ada".to_string());
    let r = execute_document(&mut ctx, &doc);
    match &r.errors[0].kind {
        ErrorKind::DocumentLevel(DocumentError::ArgumentTypeMismatch { argument }) => {
            assert!(matches!(argument, ArgumentId::InputArgument));
        }
        _ => panic!("expected a type-mismatch error"),
    }
}

#[test]
fn non_text_name_is_type_mismatch() {
    let mut ctx = Context::new(2);
    let mut doc = create_doc("Ada");
    doc.arguments[0].value = Value::ObjectValue(vec![ObjectField {
        key: "name".to_string(),
        value: ScalarValue::IntScalar(3),
    }]);
    let r = execute_document(&mut ctx, &doc);
    match &r.errors[0].kind {
        ErrorKind::DocumentLevel(DocumentError::ArgumentTypeMismatch { argument }) => {
            assert!(matches!(argument, ArgumentId::NameArgument));
        }
        _ => panic!("expected a type-mismatch error"),
    }
}

#[test]
fn non_integer_id_is_type_mismatch() {
    let mut ctx = Context::new(2);
    let mut doc = user_doc(1);
    doc.arguments[0].value = Value::TextValue("one".to_string());
    let r = execute_document(&mut ctx, &doc);
    assert!(r.data.is_none());
    match &r.errors[0].kind {
        ErrorKind::DocumentLevel(DocumentError::ArgumentTypeMismatch { argument }) => {
            assert!(matches!(argument, ArgumentId::IdArgument));
        }
        _ => panic!("expected a type-mismatch error"),
    }
}

#[test]
fn unknown_operation_is_document_error() {
    let mut ctx = Context::new(2);
    let mut doc = users_doc();
    doc.field = "posts".to_string();
    let r = execute_document(&mut ctx, &doc);
    assert!(r.data.is_none());
    match &r.errors[0].kind {
        ErrorKind::DocumentLevel(DocumentError::UnknownOperation { field }) => {
            assert_eq!(field, "posts");
        }
        _ => panic!("expected an unknown-operation error"),
    }
}

#[test]
fn mutation_field_is_not_a_query() {
    let mut ctx = Context::new(2);
    let mut doc = create_doc("Ada");
    doc.root = Root::QueryRoot;
    let r = execute_document(&mut ctx, &doc);
    assert!(r.data.is_none());
    assert!(matches!(
        r.errors[0].kind,
        ErrorKind::DocumentLevel(DocumentError::UnknownOperation { .. })
    ));
}

#[test]
fn empty_selection_is_malformed() {
    let mut ctx = Context::new(2);
    let mut doc = users_doc();
    doc.selection.clear();
    let r = execute_document(&mut ctx, &doc);
    assert!(r.data.is_none());
    assert!(matches!(
        r.errors[0].kind,
        ErrorKind::DocumentLevel(DocumentError::MalformedDocument)
    ));
}

#[test]
fn unknown_selected_field_is_document_error() {
    let mut ctx = Context::new(2);
    let mut doc = users_doc();
    doc.selection = sel(&["id", "email"]);
    let r = execute_document(&mut ctx, &doc);
    match &r.errors[0].kind {
        ErrorKind::DocumentLevel(DocumentError::UnknownOperation { field }) => {
            assert_eq!(field, "email");
        }
        _ => panic!("expected an unknown-field error"),
    }
}

#[test]
fn projection_emits_only_selected_fields() {
    let mut ctx = Context::new(2);
    execute_document(&mut ctx, &create_doc("Ada"));
    let mut doc = users_doc();
    doc.selection = sel(&["name"]);
    let r = execute_document(&mut ctx, &doc);
    let list = user_list(&r);
    assert_eq!(list.len(), 1);
    assert_eq!(list[0].len(), 1);
    assert_eq!(list[0][0].name, "name");
    assert!(matches!(&list[0][0].value, FieldValue::TextField(n) if n == "Ada"));
}

#[test]
fn exhausted_pool_fails_without_losing_a_connection() {
    let mut ctx = Context { pool: Pool { size: 2, free: 0 }, store: Store::new() };
    let r = execute_document(&mut ctx, &users_doc());
    let data = r.data.as_ref().unwrap();
    assert!(data.value.is_none());
    assert!(matches!(
        r.errors[0].kind,
        ErrorKind::FieldLevel(ResolveError::PoolExhausted)
    ));
    assert_eq!(ctx.pool.free, 0);
    assert_eq!(ctx.pool.size, 2);

    // Once a borrower returns a connection, the same request goes through.
    ctx.pool.release();
    let r = execute_document(&mut ctx, &users_doc());
    assert_eq!(r.errors.len(), 0);
    assert_eq!(ctx.pool.free, 1);
}

#[test]
fn unreachable_store_is_field_error() {
    let mut ctx = Context {
        pool: Pool { size: 2, free: 2 },
        store: Store { up: false, next_id: 1, rows: vec![] },
    };
    let r = execute_document(&mut ctx, &create_doc("Ada"));
    let data = r.data.as_ref().unwrap();
    assert_eq!(data.field, "createUser");
    assert!(data.value.is_none());
    assert!(matches!(
        r.errors[0].kind,
        ErrorKind::FieldLevel(ResolveError::StoreUnavailable)
    ));
    assert_eq!(r.errors[0].path.as_deref(), Some("createUser"));
}

#[test]
fn exhausted_id_sequence_is_query_rejected() {
    let mut ctx = Context {
        pool: Pool { size: 2, free: 2 },
        store: Store { up: true, next_id: i32::MAX, rows: vec![] },
    };
    let r = execute_document(&mut ctx, &create_doc("Ada"));
    assert!(matches!(
        r.errors[0].kind,
        ErrorKind::FieldLevel(ResolveError::QueryRejected)
    ));
}
