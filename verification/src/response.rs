use vstd::prelude::*;
use crate::errors::{DocumentError, ErrorEntry, ErrorKind, ResolveError};
use crate::schema::sel_field_ok;
use crate::user::User;

verus! {

/// The value of one projected entity field.
pub enum FieldValue {
    IntField(i32),
    TextField(String),
}

/// One field of the response tree: the name the client selected and the
/// resolved value under it.
pub struct OutField {
    pub name: String,
    pub value: FieldValue,
}

/// The resolved value of the one requested operation: a list of projected
/// users (`users`) or a single projected user (`user`, `createUser`).
pub enum ResultValue {
    UserList(Vec<Vec<OutField>>),
    SingleUser(Vec<OutField>),
}

/// The `data` half of a response: the operation's field name and, under it,
/// the resolved value — `None` where resolution failed, mirroring a null at
/// that field.
pub struct Data {
    pub field: String,
    pub value: Option<ResultValue>,
}

/// The response envelope: `data` (absent entirely on a document-level
/// failure) and the ordered list of errors (empty when nothing failed).
pub struct Response {
    pub data: Option<Data>,
    pub errors: Vec<ErrorEntry>,
}

/// The projection of one user onto a field selection: one output field per
/// selected name, in selection order, carrying the matching attribute.
pub open spec fn spec_project(u: User, sel: Seq<String>) -> Seq<OutField> {
    sel.map_values(
        |s: String|
            OutField {
                name: s,
                value: if s@ == "id"@ {
                    FieldValue::IntField(u.id)
                } else {
                    FieldValue::TextField(u.name)
                },
            },
    )
}

/// Projects one resolved user onto the client's field selection. The
/// output carries exactly the selected fields: an attribute the client did
/// not name is structurally absent, even though the resolver fetched it.
pub fn project_user(u: &User, selection: &Vec<String>) -> (r: Vec<OutField>)
    requires
        forall|i: int| 0 <= i < selection@.len() ==> sel_field_ok(#[trigger] selection@[i]@),
    ensures
        r@ == spec_project(*u, selection@),
{
    let mut out: Vec<OutField> = Vec::new();
    let mut i: usize = 0;
    while i < selection.len()
        invariant
            forall|k: int| 0 <= k < selection@.len() ==> sel_field_ok(#[trigger] selection@[k]@),
            i <= selection@.len(),
            out@.len() == i,
            forall|k: int| 0 <= k < i ==> out@[k] == spec_project(*u, selection@)[k],
        decreases selection@.len() - i,
    {
        let s = &selection[i];
        if crate::document::text_is(s, "id") {
            out.push(OutField { name: s.clone(), value: FieldValue::IntField(u.id) });
        } else {
            out.push(OutField { name: s.clone(), value: FieldValue::TextField(u.name.clone()) });
        }
        i = i + 1;
    }
    proof {
        assert(out@ =~= spec_project(*u, selection@));
    }
    out
}

/// The response of a request that failed before any resolver ran: no data
/// at all, and the one document-level error.
pub fn document_error_response(e: DocumentError) -> (r: Response)
    ensures
        r.data is None,
        r.errors@ =~= seq![ErrorEntry { kind: ErrorKind::DocumentLevel(e), path: None }],
{
    let mut errors: Vec<ErrorEntry> = Vec::new();
    errors.push(ErrorEntry { kind: ErrorKind::DocumentLevel(e), path: None });
    Response { data: None, errors }
}

/// The response of a request whose resolver failed: a well-formed envelope
/// with null at the operation's field, and the error attached to that path.
pub fn field_error_response(field: &String, e: ResolveError) -> (r: Response)
    ensures
        r.data == Some(Data { field: *field, value: None }),
        r.errors@ =~= seq![
            ErrorEntry { kind: ErrorKind::FieldLevel(e), path: Some(*field) },
        ],
{
    let mut errors: Vec<ErrorEntry> = Vec::new();
    errors.push(ErrorEntry { kind: ErrorKind::FieldLevel(e), path: Some(field.clone()) });
    Response { data: Some(Data { field: field.clone(), value: None }), errors }
}

/// The successful response of `users`: every resolved user projected onto
/// the selection, in table order, and an empty error list.
pub fn users_response(field: &String, users: &Vec<User>, selection: &Vec<String>) -> (r: Response)
    requires
        forall|i: int| 0 <= i < selection@.len() ==> sel_field_ok(#[trigger] selection@[i]@),
    ensures
        r.errors@.len() == 0,
        ({
            &&& r.data matches Some(d)
            &&& d.field == *field
            &&& d.value matches Some(ResultValue::UserList(l))
            &&& l@.len() == users@.len()
            &&& forall|i: int|
                0 <= i < users@.len() ==> #[trigger] (l@[i]@) == spec_project(
                    users@[i],
                    selection@,
                )
        }),
{
    let mut list: Vec<Vec<OutField>> = Vec::new();
    let mut i: usize = 0;
    while i < users.len()
        invariant
            forall|k: int| 0 <= k < selection@.len() ==> sel_field_ok(#[trigger] selection@[k]@),
            i <= users@.len(),
            list@.len() == i,
            forall|k: int|
                0 <= k < i ==> #[trigger] (list@[k]@) == spec_project(users@[k], selection@),
        decreases users@.len() - i,
    {
        list.push(project_user(&users[i], selection));
        i = i + 1;
    }
    Response {
        data: Some(Data { field: field.clone(), value: Some(ResultValue::UserList(list)) }),
        errors: Vec::new(),
    }
}

/// The successful response of `user` and `createUser`: the one resolved
/// user projected onto the selection, and an empty error list.
pub fn single_user_response(field: &String, u: &User, selection: &Vec<String>) -> (r: Response)
    requires
        forall|i: int| 0 <= i < selection@.len() ==> sel_field_ok(#[trigger] selection@[i]@),
    ensures
        r.errors@.len() == 0,
        ({
            &&& r.data matches Some(d)
            &&& d.field == *field
            &&& d.value matches Some(ResultValue::SingleUser(f))
            &&& f@ == spec_project(*u, selection@)
        }),
{
    let fields = project_user(u, selection);
    Response {
        data: Some(Data { field: field.clone(), value: Some(ResultValue::SingleUser(fields)) }),
        errors: Vec::new(),
    }
}

} // verus!
