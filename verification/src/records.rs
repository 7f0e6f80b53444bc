use vstd::prelude::*;

verus! {

/// A registered account: a unique identifier, a unique username, and the
/// password it authenticates with.
///
/// Passwords are held verbatim — nothing here hashes them. That is insecure
/// and deliberate: storing anything else would change what `authenticate`
/// compares.
#[derive(Debug, PartialEq, Eq)]
pub struct User {
    pub id: u64,
    pub username: String,
    pub password: String,
}

impl Clone for User {
    fn clone(&self) -> (r: Self)
        ensures
            r == *self,
    {
        User {
            id: self.id,
            username: self.username.clone(),
            password: self.password.clone(),
        }
    }
}

/// One calendar entry: a unique identifier, the identifier of the user who
/// owns it, a title, and a date kept as an opaque string (its format is
/// never inspected).
#[derive(Debug, PartialEq, Eq)]
pub struct Schedule {
    pub id: u64,
    pub user_id: u64,
    pub title: String,
    pub date: String,
}

impl Clone for Schedule {
    fn clone(&self) -> (r: Self)
        ensures
            r == *self,
    {
        Schedule {
            id: self.id,
            user_id: self.user_id,
            title: self.title.clone(),
            date: self.date.clone(),
        }
    }
}

} // verus!
