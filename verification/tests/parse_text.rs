use query_gateway::context::Context;
use query_gateway::document::{Root, ScalarValue, Value};
use query_gateway::engine::execute_document;
use query_gateway::errors::DocumentError;
use query_gateway::parse::parse_document;
use query_gateway::response::ResultValue;

fn chars(s: &str) -> Vec<char> {
    s.chars().collect()
}

#[test]
fn parses_bare_selection_as_query() {
    let d = parse_document(&chars("{ users { id name } }")).unwrap();
    assert!(matches!(d.root, Root::QueryRoot));
    assert_eq!(d.field, "users");
    assert_eq!(d.arguments.len(), 0);
    assert_eq!(d.selection, vec!["id".to_string(), "name".to_string()]);
}

#[test]
fn parses_query_keyword_and_int_argument() {
    let d = parse_document(&chars("query { user(id: 7) { name } }")).unwrap();
    assert!(matches!(d.root, Root::QueryRoot));
    assert_eq!(d.field, "user");
    assert_eq!(d.arguments.len(), 1);
    assert_eq!(d.arguments[0].name, "id");
    assert!(matches!(d.arguments[0].value, Value::IntValue(7)));
    assert_eq!(d.selection, vec!["name".to_string()]);
}

#[test]
fn parses_mutation_with_input_object() {
    let d = parse_document(&chars(
        "mutation { createUser(input: {name: \"Ada\"}) { id name } }",
    ))
    .unwrap();
    assert!(matches!(d.root, Root::MutationRoot));
    assert_eq!(d.field, "createUser");
    assert_eq!(d.arguments.len(), 1);
    assert_eq!(d.arguments[0].name, "input");
    match &d.arguments[0].value {
        Value::ObjectValue(fields) => {
            assert_eq!(fields.len(), 1);
            assert_eq!(fields[0].key, "name");
            assert!(matches!(&fields[0].value, ScalarValue::TextScalar(n) if n == "Ada"));
        }
        _ => panic!("expected an input object"),
    }
}

#[test]
fn commas_and_line_breaks_are_insignificant() {
    let d = parse_document(&chars("query {\n  users {\n    id,\n    name,\n  }\n}\n")).unwrap();
    assert_eq!(d.field, "users");
    assert_eq!(d.selection.len(), 2);
}

#[test]
fn parses_negative_and_boundary_integers() {
    let d = parse_document(&chars("{ user(id: -3) { name } }")).unwrap();
    assert!(matches!(d.arguments[0].value, Value::IntValue(-3)));
    let d = parse_document(&chars("{ user(id: 2147483647) { name } }")).unwrap();
    assert!(matches!(d.arguments[0].value, Value::IntValue(2147483647)));
    let d = parse_document(&chars("{ user(id: -2147483648) { name } }")).unwrap();
    assert!(matches!(d.arguments[0].value, Value::IntValue(-2147483648)));
}

#[test]
fn integers_beyond_the_type_are_malformed() {
    for text in [
        "{ user(id: 2147483648) { name } }",
        "{ user(id: -2147483649) { name } }",
        "{ user(id: 99999999999999999999) { name } }",
    ] {
        let e = parse_document(&chars(text)).unwrap_err();
        assert!(matches!(e, DocumentError::MalformedDocument));
    }
}

#[test]
fn broken_documents_are_malformed() {
    for text in [
        "",
        "   ",
        "{ users { id name }",
        "users { id }",
        "subscription { users { id } }",
        "{ user(id: ) { name } }",
        "{ user id: 3 { name } }",
        "mutation { createUser(input: {name: \"Ada\" ) { id } }",
        "{ createUser(input: {name: \"unterminated) { id } }",
        "{ createUser(input: {name: \"back\\\\slash\"}) { id } }",
        "{ users { id name } } trailing",
    ] {
        let e = parse_document(&chars(text)).unwrap_err();
        assert!(matches!(e, DocumentError::MalformedDocument), "accepted: {}", text);
    }
}

#[test]
fn empty_selection_set_parses_and_fails_validation_later() {
    let d = parse_document(&chars("{ users { } }")).unwrap();
    assert_eq!(d.selection.len(), 0);
    let mut ctx = Context::new(1);
    let r = execute_document(&mut ctx, &d);
    assert!(r.data.is_none());
}

#[test]
fn parsed_round_trip_through_the_engine() {
    let mut ctx = Context::new(2);
    let create = parse_document(&chars(
        "mutation { createUser(input: {name: \"Ada\"}) { id name } }",
    ))
    .unwrap();
    let created = execute_document(&mut ctx, &create);
    assert_eq!(created.errors.len(), 0);
    let id = match created.data.as_ref().unwrap().value.as_ref().unwrap() {
        ResultValue::SingleUser(fields) => match fields[0].value {
            query_gateway::response::FieldValue::IntField(id) => id,
            _ => panic!("id is not an integer"),
        },
        _ => panic!("expected a single user"),
    };
    let lookup = parse_document(&chars(&format!("query {{ user(id: {}) {{ name }} }}", id)))
        .unwrap();
    let found = execute_document(&mut ctx, &lookup);
    assert_eq!(found.errors.len(), 0);
    match found.data.as_ref().unwrap().value.as_ref().unwrap() {
        ResultValue::SingleUser(fields) => {
            assert_eq!(fields.len(), 1);
            assert_eq!(fields[0].name, "name");
            assert!(matches!(
                &fields[0].value,
                query_gateway::response::FieldValue::TextField(n) if n == "Ada"
            ));
        }
        _ => panic!("expected a single user"),
    }
}
