use vstd::prelude::*;

verus! {

/// The arguments the schema declares, named symbolically so that error
/// values can identify the offending argument.
#[derive(Clone, Copy, Debug, PartialEq, Eq, Structural)]
pub enum ArgumentId {
    /// The `id` argument of the `user` query.
    IdArgument,
    /// The `input` argument of the `createUser` mutation.
    InputArgument,
    /// The `name` field inside the `input` object.
    NameArgument,
}

impl ArgumentId {
    /// What this argument is written as in a document.
    pub open spec fn spec_text(self) -> Seq<char> {
        match self {
            ArgumentId::IdArgument => "id"@,
            ArgumentId::InputArgument => "input"@,
            ArgumentId::NameArgument => "name"@,
        }
    }

    /// Renders the argument's name.
    pub fn text(&self) -> (r: String)
        ensures
            r@ == self.spec_text(),
    {
        match self {
            ArgumentId::IdArgument => "id".to_owned(),
            ArgumentId::InputArgument => "input".to_owned(),
            ArgumentId::NameArgument => "name".to_owned(),
        }
    }
}

/// An error detected before any resolver runs. A document error
/// short-circuits the request: the response carries no data at all.
#[derive(Debug)]
pub enum DocumentError {
    /// The requested operation, or a selected entity field, is not part of
    /// the schema. Carries the unknown name as the client wrote it.
    UnknownOperation { field: String },
    /// A required argument (or required input-object field) is absent, or
    /// present but empty where the schema demands a value.
    MissingArgument { argument: ArgumentId },
    /// An argument is present but its value has the wrong shape for the
    /// declared argument type.
    ArgumentTypeMismatch { argument: ArgumentId },
    /// The document is not a well-formed single-operation query at all.
    MalformedDocument,
}

/// An error raised while resolving a validated operation. A resolution
/// error is attached to the failing field; the response envelope is still
/// well formed, with `null` at that field.
#[derive(Clone, Copy, Debug, PartialEq, Eq, Structural)]
pub enum ResolveError {
    /// A point lookup matched no row.
    NotFound,
    /// No pool connection became free within the acquire wait.
    PoolExhausted,
    /// The transport to the backing store is down.
    StoreUnavailable,
    /// The store refused the statement (a constraint or syntax failure).
    QueryRejected,
}

/// One entry of a response's error list: the error itself and, for a
/// resolution error, the path of the field it is attached to.
pub struct ErrorEntry {
    pub kind: ErrorKind,
    pub path: Option<String>,
}

/// Distinguishes the two channels of the error taxonomy: errors that
/// prevented resolution from starting, and errors of one resolver.
pub enum ErrorKind {
    DocumentLevel(DocumentError),
    FieldLevel(ResolveError),
}

impl DocumentError {
    /// The human-readable text of this error.
    pub open spec fn spec_message(self) -> Seq<char> {
        match self {
            DocumentError::UnknownOperation { .. } => "unknown operation or field"@,
            DocumentError::MissingArgument { .. } => "missing required argument"@,
            DocumentError::ArgumentTypeMismatch { .. } => "argument has the wrong type"@,
            DocumentError::MalformedDocument => "malformed query document"@,
        }
    }

    /// Renders the human-readable text of this error.
    pub fn message(&self) -> (r: String)
        ensures
            r@ == self.spec_message(),
    {
        match self {
            DocumentError::UnknownOperation { .. } => "unknown operation or field".to_owned(),
            DocumentError::MissingArgument { .. } => "missing required argument".to_owned(),
            DocumentError::ArgumentTypeMismatch { .. } => "argument has the wrong type".to_owned(),
            DocumentError::MalformedDocument => "malformed query document".to_owned(),
        }
    }
}

impl ResolveError {
    /// The human-readable text of this error.
    pub open spec fn spec_message(self) -> Seq<char> {
        match self {
            ResolveError::NotFound => "no row matches the requested id"@,
            ResolveError::PoolExhausted => "timed out waiting for a pool connection"@,
            ResolveError::StoreUnavailable => "the backing store is unreachable"@,
            ResolveError::QueryRejected => "the store rejected the statement"@,
        }
    }

    /// Renders the human-readable text of this error.
    pub fn message(&self) -> (r: String)
        ensures
            r@ == self.spec_message(),
    {
        match self {
            ResolveError::NotFound => "no row matches the requested id".to_owned(),
            ResolveError::PoolExhausted => "timed out waiting for a pool connection".to_owned(),
            ResolveError::StoreUnavailable => "the backing store is unreachable".to_owned(),
            ResolveError::QueryRejected => "the store rejected the statement".to_owned(),
        }
    }
}

} // verus!
