//! Resource owners, as the authentication that precedes an authorization
//! request sees them.

use vstd::prelude::*;

verus! {

/// A resource owner.
#[derive(Debug)]
pub struct Owner {
    pub email: String,
    pub name: String,
    pub hash: String,
}

/// Read-only lookup of resource owners by name.
pub trait OwnerStore {
    fn read_owner(&self, name: &str) -> Option<Owner>;
}

/// A user who can log in.
pub struct User {
    pub name: String,
    pub hash: String,
}

/// Makes users from their names.
pub trait UserFactory {
    fn from_name(&self, name: &str) -> Option<User>;
}

/// What a resource owner types into the login form.
#[derive(Clone, Debug)]
pub struct Credentials {
    pub username: String,
    pub password: String,
}

} // verus!
