use vstd::prelude::*;

use crate::errors::Error;
use crate::records::Schedule;
use crate::records::User;
use crate::schedules::ScheduleStore;
use crate::schedules::has_deletion_target;
use crate::schedules::deletion_target;
use crate::schedules::owned_by;
use crate::token::TOKEN_EXPIRY;
use crate::token::TokenService;
use crate::token::token_of;
use crate::token::token_subject_is;
use crate::users::UserStore;
use crate::users::credentials_match;
use crate::users::has_credentials;
use crate::users::has_username;

verus! {

/// The whole service: the two record collections and the token service,
/// constructed once at process start and handed to every request. The
/// caller persists each collection after a mutating call; the service only
/// reports which calls mutate.
pub struct SchedulerService {
    pub users: UserStore,
    pub schedules: ScheduleStore,
    pub tokens: TokenService,
}

impl SchedulerService {
    /// A service over the given collections — typically the persisted state
    /// read back at startup, or empty collections on first start — and the
    /// symmetric signing key.
    pub fn new(users: Vec<User>, schedules: Vec<Schedule>, secret: Vec<u8>) -> (r: SchedulerService)
        ensures
            r.users@ == users@,
            r.schedules@ == schedules@,
            r.tokens.secret@ == secret@,
    {
        SchedulerService {
            users: UserStore::from_records(users),
            schedules: ScheduleStore::from_records(schedules),
            tokens: TokenService::new(secret),
        }
    }

    /// Registers a new account; fails with `DuplicateUsername`, leaving the
    /// collection unchanged, exactly when the username is taken.
    pub fn register(&mut self, username: &str, password: &str) -> (r: Result<u64, Error>)
        requires
            old(self).users@.len() < u64::MAX,
        ensures
            final(self).schedules == old(self).schedules,
            final(self).tokens == old(self).tokens,
            has_username(old(self).users@, username@) ==> r == Err::<u64, Error>(
                Error::DuplicateUsername,
            ) && final(self).users@ == old(self).users@,
            !has_username(old(self).users@, username@) ==> {
                &&& r == Ok::<u64, Error>((old(self).users@.len() + 1) as u64)
                &&& final(self).users@ == old(self).users@.push(final(self).users@.last())
                &&& final(self).users@.last().id == old(self).users@.len() + 1
                &&& final(self).users@.last().username@ == username@
                &&& final(self).users@.last().password@ == password@
            },
    {
        self.users.register(username, password)
    }

    /// Authenticates the pair and, on a match, issues a token for the
    /// matched account — the first account matching both fields. A match
    /// always yields a token; no match yields exactly `InvalidCredentials`.
    pub fn login(&self, username: &str, password: &str) -> (r: Result<String, Error>)
        ensures
            r is Ok <==> has_credentials(self.users@, username@, password@),
            r matches Ok(t) ==> exists|i: int|
                {
                    &&& 0 <= i < self.users@.len()
                    &&& credentials_match(#[trigger] self.users@[i], username@, password@)
                    &&& t@ == token_of(self.tokens.secret@, self.users@[i].id, TOKEN_EXPIRY)
                    &&& forall|j: int|
                        0 <= j < i ==> !credentials_match(
                            #[trigger] self.users@[j],
                            username@,
                            password@,
                        )
                },
            r matches Err(e) ==> e == Error::InvalidCredentials && !has_credentials(
                self.users@,
                username@,
                password@,
            ),
    {
        match self.users.authenticate(username, password) {
            Ok(user_id) => Ok(self.tokens.issue(user_id)),
            Err(e) => Err(e),
        }
    }

    /// Verifies a bearer token: a success names the subject the token was
    /// signed for, and every failure is `InvalidToken`.
    pub fn verify_token(&self, token: &str) -> (r: Result<u64, Error>)
        ensures
            r matches Ok(u) ==> token_subject_is(self.tokens.secret@, token@, u),
            r matches Err(e) ==> e == Error::InvalidToken,
    {
        self.tokens.verify(token)
    }

    /// Adds an entry owned by the token's subject — the owner comes from
    /// the verified token, never from the request body. Fails only when the
    /// token does not verify, leaving everything unchanged.
    pub fn add_schedule(&mut self, token: &str, title: &str, date: &str) -> (r: Result<u64, Error>)
        requires
            old(self).schedules@.len() < u64::MAX,
        ensures
            final(self).users == old(self).users,
            final(self).tokens == old(self).tokens,
            r matches Err(e) ==> e == Error::InvalidToken && final(self).schedules@ == old(
                self,
            ).schedules@,
            r matches Ok(id) ==> {
                &&& id == old(self).schedules@.len() + 1
                &&& final(self).schedules@ == old(self).schedules@.push(
                    final(self).schedules@.last(),
                )
                &&& final(self).schedules@.last().id == id
                &&& token_subject_is(
                    old(self).tokens.secret@,
                    token@,
                    final(self).schedules@.last().user_id,
                )
                &&& final(self).schedules@.last().title@ == title@
                &&& final(self).schedules@.last().date@ == date@
            },
    {
        match self.tokens.verify(token) {
            Ok(user_id) => Ok(self.schedules.add(user_id, title, date)),
            Err(e) => Err(e),
        }
    }

    /// Lists the entries owned by the token's subject, in insertion order.
    /// Fails exactly when the token does not verify.
    pub fn get_schedules(&self, token: &str) -> (r: Result<Vec<Schedule>, Error>)
        ensures
            r matches Ok(v) ==> exists|u: u64|
                #[trigger] token_subject_is(self.tokens.secret@, token@, u) && v@ == owned_by(
                    self.schedules@,
                    u,
                ),
            r matches Err(e) ==> e == Error::InvalidToken,
    {
        match self.tokens.verify(token) {
            Ok(user_id) => Ok(self.schedules.list_owned_by(user_id)),
            Err(e) => Err(e),
        }
    }

    /// Deletes the entry matching both the identifier and the token's
    /// subject as owner. `InvalidToken` when the token does not verify;
    /// `NotFound` when no entry matches both — whether the identifier does
    /// not exist or the entry belongs to someone else. Either failure
    /// leaves every collection unchanged.
    pub fn delete_schedule(&mut self, token: &str, schedule_id: u64) -> (r: Result<(), Error>)
        ensures
            final(self).users == old(self).users,
            final(self).tokens == old(self).tokens,
            r matches Err(e) ==> final(self).schedules@ == old(self).schedules@ && (e
                == Error::InvalidToken || e == Error::NotFound),
            r == Err::<(), Error>(Error::NotFound) ==> exists|su: u64|
                #[trigger] token_subject_is(old(self).tokens.secret@, token@, su)
                    && !has_deletion_target(old(self).schedules@, schedule_id, su),
            r matches Ok(u) ==> exists|su: u64|
                {
                    &&& #[trigger] token_subject_is(old(self).tokens.secret@, token@, su)
                    &&& has_deletion_target(old(self).schedules@, schedule_id, su)
                    &&& exists|i: int|
                        {
                            &&& 0 <= i < old(self).schedules@.len()
                            &&& deletion_target(
                                #[trigger] old(self).schedules@[i],
                                schedule_id,
                                su,
                            )
                            &&& final(self).schedules@ == old(self).schedules@.remove(i)
                            &&& forall|j: int|
                                0 <= j < i ==> !deletion_target(
                                    #[trigger] old(self).schedules@[j],
                                    schedule_id,
                                    su,
                                )
                        }
                },
    {
        match self.tokens.verify(token) {
            Ok(user_id) => self.schedules.delete(schedule_id, user_id),
            Err(e) => Err(e),
        }
    }

    /// Lists the entries owned by any named user, in insertion order —
    /// deliberately reachable without a token: this read is open to any
    /// caller, a known asymmetry with the other schedule operations.
    pub fn get_friend_schedules(&self, friend_id: u64) -> (r: Vec<Schedule>)
        ensures
            r@ == owned_by(self.schedules@, friend_id),
    {
        self.schedules.list_owned_by(friend_id)
    }
}

} // verus!
