use vstd::prelude::*;

verus! {

/// Which root of the schema a document addresses.
#[derive(Clone, Copy, Debug, PartialEq, Eq, Structural)]
pub enum Root {
    /// The read-only root.
    QueryRoot,
    /// The side-effecting root.
    MutationRoot,
}

/// A scalar inside an input object.
#[derive(Debug)]
pub enum ScalarValue {
    IntScalar(i32),
    TextScalar(String),
}

/// One field of an input object, e.g. `name: "Ada"`.
#[derive(Debug)]
pub struct ObjectField {
    pub key: String,
    pub value: ScalarValue,
}

/// An argument value as a document supplies it.
#[derive(Debug)]
pub enum Value {
    IntValue(i32),
    TextValue(String),
    ObjectValue(Vec<ObjectField>),
}

/// One named argument of the requested operation, e.g. `id: 3`.
#[derive(Debug)]
pub struct Argument {
    pub name: String,
    pub value: Value,
}

/// A parsed query document: exactly one top-level operation selection, as
/// the schema's roots expose them.
///
/// `field` names the requested operation under `root`; `arguments` are the
/// supplied argument values; `selection` lists the entity fields the client
/// wants back, in document order.
#[derive(Debug)]
pub struct Document {
    pub root: Root,
    pub field: String,
    pub arguments: Vec<Argument>,
    pub selection: Vec<String>,
}

/// Compares a document-supplied name against a schema name.
pub fn text_is(s: &String, lit: &str) -> (r: bool)
    ensures
        r == (s@ == lit@),
{
    let t: String = lit.to_owned();
    *s == t
}

} // verus!
