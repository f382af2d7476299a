use vstd::prelude::*;

verus! {

/// A persisted entity: one row of the user table.
///
/// `id` is assigned by the store at creation, is unique, and is never
/// reused; `name` is the text supplied at creation.
#[derive(Debug)]
pub struct User {
    pub id: i32,
    pub name: String,
}

impl User {
    /// The store-assigned identifier.
    pub fn id(&self) -> (r: i32)
        ensures
            r == self.id,
    {
        self.id
    }

    /// The user's name.
    pub fn name(&self) -> (r: &str)
        ensures
            r@ == self.name@,
    {
        self.name.as_str()
    }
}

impl Clone for User {
    fn clone(&self) -> (r: Self)
        ensures
            r == *self,
    {
        User { id: self.id, name: self.name.clone() }
    }
}

/// The argument shape of `createUser`: the fields a caller supplies for a
/// user that does not exist yet. Never persisted as-is; the store assigns
/// the id and the pair becomes a [`User`].
#[derive(Debug)]
pub struct UserInput {
    pub name: String,
}

} // verus!
