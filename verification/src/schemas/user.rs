//! The entity that the gateway's schema exposes.

use crate::resolver::ResolverError;
use vstd::prelude::*;

verus! {

/// A user record, hydrated from one row of the backing store. It is built
/// anew for every query and never cached.
#[derive(Debug)]
pub struct User {
    pub id: String,
    pub name: String,
    pub email: String,
}

impl User {
    /// Builds the record from a row of three text columns, in the order
    /// identifier, name, address.
    pub fn from_row(row: (String, String, String)) -> (user: User)
        ensures
            user.id == row.0,
            user.name == row.1,
            user.email == row.2,
    {
        let (id, name, email) = row;
        User { id, name, email }
    }

    /// The user that the end of a lookup stands for: the row where the
    /// store found one, and a failure of the field where it found none or
    /// where the lookup itself failed.
    pub fn from_lookup(end: Result<Option<(String, String, String)>, ResolverError>) -> (r: Result<
        User,
        ResolverError,
    >)
        ensures
            r == match end {
                Ok(Some(row)) => Ok(User { id: row.0, name: row.1, email: row.2 }),
                Ok(None) => Err(ResolverError::NotFound),
                Err(error) => Err(error),
            },
    {
        match end {
            Ok(Some(row)) => Ok(User::from_row(row)),
            Ok(None) => Err(ResolverError::NotFound),
            Err(error) => Err(error),
        }
    }

    /// The identifier column.
    pub fn id(&self) -> (r: &str)
        ensures
            r@ == self.id@,
    {
        self.id.as_str()
    }

    /// The name column.
    pub fn name(&self) -> (r: &str)
        ensures
            r@ == self.name@,
    {
        self.name.as_str()
    }

    /// The address column.
    pub fn email(&self) -> (r: &str)
        ensures
            r@ == self.email@,
    {
        self.email.as_str()
    }
}

impl Default for User {
    /// The record of three empty columns.
    fn default() -> (user: User)
        ensures
            user.id@ == Seq::<char>::empty(),
            user.name@ == Seq::<char>::empty(),
            user.email@ == Seq::<char>::empty(),
    {
        User { id: String::new(), name: String::new(), email: String::new() }
    }
}

/// What a client supplies to create a user: everything but the identifier,
/// which the store assigns.
#[derive(Debug)]
pub struct UserInput {
    pub name: String,
    pub email: String,
}

} // verus!
