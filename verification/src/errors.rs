use vstd::prelude::*;

verus! {

/// The caller-facing failure conditions of the service.
#[derive(Clone, Copy, Debug, PartialEq, Eq, Structural)]
pub enum Error {
    /// A registration named a username that an existing account already has.
    DuplicateUsername,
    /// A login presented a username/password pair that matches no account.
    InvalidCredentials,
    /// A bearer token did not verify, or carried no usable subject.
    InvalidToken,
    /// A schedule deletion named no entry that both exists and belongs to
    /// the requester. Deleting another user's entry is indistinguishable
    /// from deleting one that does not exist.
    NotFound,
    /// Writing a collection to stable storage, or preparing a value for it,
    /// failed.
    PersistenceFailure,
}

} // verus!
