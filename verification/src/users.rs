use vstd::prelude::*;

use crate::errors::Error;
use crate::records::User;

verus! {

/// Whether one account record matches a presented username/password pair
/// exactly (case-sensitive on both).
pub open spec fn credentials_match(u: User, username: Seq<char>, password: Seq<char>) -> bool {
    u.username@ == username && u.password@ == password
}

/// Whether some account in the collection matches the pair.
pub open spec fn has_credentials(users: Seq<User>, username: Seq<char>, password: Seq<char>) -> bool {
    exists|i: int| 0 <= i < users.len() && credentials_match(#[trigger] users[i], username, password)
}

/// Whether some account in the collection already carries this username.
pub open spec fn has_username(users: Seq<User>, username: Seq<char>) -> bool {
    exists|i: int| 0 <= i < users.len() && (#[trigger] users[i]).username@ == username
}

/// The collection of all account records, scanned linearly by every
/// operation. Identifiers are assigned as the collection's size plus one;
/// no operation removes a record, so identifiers equal insertion positions.
pub struct UserStore {
    pub users: Vec<User>,
}

impl View for UserStore {
    type V = Seq<User>;

    open spec fn view(&self) -> Seq<User> {
        self.users@
    }
}

impl UserStore {
    /// An empty credential store.
    pub fn new() -> (r: UserStore)
        ensures
            r@ == Seq::<User>::empty(),
    {
        UserStore { users: Vec::new() }
    }

    /// A store holding exactly the given records, in the given order — the
    /// way a persisted collection re-enters the process.
    pub fn from_records(users: Vec<User>) -> (r: UserStore)
        ensures
            r@ == users@,
    {
        UserStore { users }
    }

    pub fn len(&self) -> (r: usize)
        ensures
            r == self@.len(),
    {
        self.users.len()
    }

    /// A copy of the whole collection, for hand-off to persistence.
    pub fn records(&self) -> (r: Vec<User>)
        ensures
            r@ == self@,
    {
        let mut r: Vec<User> = Vec::new();
        let mut i: usize = 0;
        while i < self.users.len()
            invariant
                i <= self.users.len(),
                r@ == self@.take(i as int),
            decreases self.users.len() - i,
        {
            r.push(self.users[i].clone());
            proof {
                assert(self@.take(i as int + 1) =~= self@.take(i as int).push(self@[i as int]));
            }
            i = i + 1;
        }
        proof {
            assert(self@.take(self@.len() as int) =~= self@);
        }
        r
    }

    /// Appends a new account unless the username is already taken.
    ///
    /// The new account's identifier is the collection's previous size plus
    /// one. The size bound is a machine limit: the next identifier must fit
    /// in a word.
    pub fn register(&mut self, username: &str, password: &str) -> (r: Result<u64, Error>)
        requires
            old(self)@.len() < u64::MAX,
        ensures
            has_username(old(self)@, username@) ==> r == Err::<u64, Error>(
                Error::DuplicateUsername,
            ) && final(self)@ == old(self)@,
            !has_username(old(self)@, username@) ==> {
                &&& r == Ok::<u64, Error>((old(self)@.len() + 1) as u64)
                &&& final(self)@ == old(self)@.push(final(self)@.last())
                &&& final(self)@.last().id == old(self)@.len() + 1
                &&& final(self)@.last().username@ == username@
                &&& final(self)@.last().password@ == password@
            },
    {
        let uname: String = username.to_owned();
        let mut i: usize = 0;
        while i < self.users.len()
            invariant
                i <= self.users.len(),
                uname@ == username@,
                forall|j: int| 0 <= j < i ==> (#[trigger] self@[j]).username@ != username@,
            decreases self.users.len() - i,
        {
            if self.users[i].username == uname {
                return Err(Error::DuplicateUsername);
            }
            i = i + 1;
        }
        let id = self.users.len() as u64 + 1;
        self.users.push(
            User {
                id,
                username: uname,
                password: password.to_owned(),
            },
        );
        Ok(id)
    }

    /// Scans for an account matching the pair exactly; the first match
    /// wins. No match — unknown username or wrong password alike — yields
    /// `InvalidCredentials`, with no distinction between the two.
    pub fn authenticate(&self, username: &str, password: &str) -> (r: Result<u64, Error>)
        ensures
            r matches Ok(u) ==> exists|i: int|
                {
                    &&& 0 <= i < self@.len()
                    &&& credentials_match(#[trigger] self@[i], username@, password@)
                    &&& u == self@[i].id
                    &&& forall|j: int|
                        0 <= j < i ==> !credentials_match(#[trigger] self@[j], username@, password@)
                },
            r matches Err(e) ==> e == Error::InvalidCredentials,
            r is Ok <==> has_credentials(self@, username@, password@),
    {
        let uname: String = username.to_owned();
        let pword: String = password.to_owned();
        let mut i: usize = 0;
        while i < self.users.len()
            invariant
                i <= self.users.len(),
                uname@ == username@,
                pword@ == password@,
                forall|j: int|
                    0 <= j < i ==> !credentials_match(#[trigger] self@[j], username@, password@),
            decreases self.users.len() - i,
        {
            if self.users[i].username == uname && self.users[i].password == pword {
                proof {
                    assert(credentials_match(self@[i as int], username@, password@));
                }
                return Ok(self.users[i].id);
            }
            i = i + 1;
        }
        Err(Error::InvalidCredentials)
    }
}

/// Whether every record's identifier equals its position plus one — the
/// shape a collection has when it grew by registration alone, since each
/// new record takes the collection's size plus one and none is ever
/// removed.
pub open spec fn ids_sequential(users: Seq<User>) -> bool {
    forall|i: int| 0 <= i < users.len() ==> (#[trigger] users[i]).id == i + 1
}

/// Whether the usernames in the collection are pairwise distinct.
pub open spec fn usernames_unique(users: Seq<User>) -> bool {
    forall|i: int, j: int|
        0 <= i < j < users.len() ==> (#[trigger] users[i]).username@ != (
        #[trigger] users[j]).username@
}

/// After a registration for a username succeeds — appending a record that
/// carries it — that username is taken: a second registration for the same
/// username finds it and is refused.
pub proof fn lemma_registered_username_taken(users: Seq<User>, u: User)
    ensures
        has_username(users.push(u), u.username@),
{
    assert(users.push(u)[users.len() as int] == u);
}

/// Identifier assignment is an invariant of registration: when identifiers
/// equal positions plus one, appending a record whose identifier is the
/// collection's size plus one — the only record `register` ever appends —
/// keeps it so. Identifiers therefore never repeat and never change.
pub proof fn lemma_register_preserves_id_assignment(users: Seq<User>, u: User)
    requires
        ids_sequential(users),
        u.id == users.len() + 1,
    ensures
        ids_sequential(users.push(u)),
{
    assert forall|i: int| 0 <= i < users.push(u).len() implies (#[trigger] users.push(u)[i]).id == i
        + 1 by {
        if i < users.len() {
            assert(users.push(u)[i] == users[i]);
        }
    }
}

/// With usernames pairwise distinct — the shape registration keeps — a
/// login naming an existing username with the wrong password matches no
/// record at all: authentication refuses it with `InvalidCredentials`, and
/// no token is issued. Without distinct usernames this would not hold: a
/// second record under the same username could carry the presented
/// password.
pub proof fn lemma_wrong_password_rejected(
    users: Seq<User>,
    username: Seq<char>,
    password: Seq<char>,
    k: int,
)
    requires
        usernames_unique(users),
        0 <= k < users.len(),
        users[k].username@ == username,
        users[k].password@ != password,
    ensures
        !has_credentials(users, username, password),
{
    assert forall|i: int| 0 <= i < users.len() implies !credentials_match(
        #[trigger] users[i],
        username,
        password,
    ) by {
        if i < k {
            assert(users[i].username@ != users[k].username@);
        } else if k < i {
            assert(users[k].username@ != users[i].username@);
        }
    }
}

/// Username uniqueness is an invariant of registration: appending a record
/// whose username is not yet taken — the only append `register` ever makes —
/// keeps the usernames pairwise distinct. A refused registration changes
/// nothing, so uniqueness holds over the collection at all times.
pub proof fn lemma_register_preserves_uniqueness(users: Seq<User>, u: User)
    requires
        usernames_unique(users),
        !has_username(users, u.username@),
    ensures
        usernames_unique(users.push(u)),
{
    assert forall|i: int, j: int| 0 <= i < j < users.push(u).len() implies (#[trigger] users.push(
        u,
    )[i]).username@ != (#[trigger] users.push(u)[j]).username@ by {
        if j < users.len() {
            assert(users.push(u)[i] == users[i]);
            assert(users.push(u)[j] == users[j]);
        } else {
            assert(users.push(u)[i] == users[i]);
            assert(users.push(u)[j] == u);
        }
    }
}

} // verus!
