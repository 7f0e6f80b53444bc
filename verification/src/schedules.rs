use vstd::prelude::*;

use crate::errors::Error;
use crate::records::Schedule;

verus! {

/// The entries of a collection owned by `owner`, kept in the collection's
/// own order — what a listing returns.
pub open spec fn owned_by(schedules: Seq<Schedule>, owner: u64) -> Seq<Schedule> {
    schedules.filter(|s: Schedule| s.user_id == owner)
}

/// Whether an entry is the target of a deletion request: the requester must
/// match the owner as well as the identifier, so a match on the identifier
/// alone is invisible to the caller.
pub open spec fn deletion_target(s: Schedule, schedule_id: u64, requester: u64) -> bool {
    s.id == schedule_id && s.user_id == requester
}

/// Whether the collection holds an entry with this identifier and owner.
pub open spec fn has_deletion_target(
    schedules: Seq<Schedule>,
    schedule_id: u64,
    requester: u64,
) -> bool {
    exists|i: int|
        0 <= i < schedules.len() && deletion_target(#[trigger] schedules[i], schedule_id, requester)
}

/// Whether the entry identifiers in the collection are pairwise distinct.
pub open spec fn schedule_ids_unique(schedules: Seq<Schedule>) -> bool {
    forall|i: int, j: int|
        0 <= i < j < schedules.len() ==> (#[trigger] schedules[i]).id != (
        #[trigger] schedules[j]).id
}

/// With identifiers pairwise distinct, an entry that belongs to someone
/// else cannot be deleted by this requester: no entry carries both that
/// identifier and the requester as owner, so the deletion is refused with
/// `NotFound` — indistinguishable from a missing identifier — and the
/// collection, the other user's entry included, stays exactly as it was.
/// Without distinct identifiers this would not hold: a second entry under
/// the same identifier, owned by the requester, could make the deletion
/// succeed.
pub proof fn lemma_foreign_schedule_not_deletable(
    schedules: Seq<Schedule>,
    schedule_id: u64,
    requester: u64,
    k: int,
)
    requires
        schedule_ids_unique(schedules),
        0 <= k < schedules.len(),
        schedules[k].id == schedule_id,
        schedules[k].user_id != requester,
    ensures
        !has_deletion_target(schedules, schedule_id, requester),
{
    assert forall|i: int| 0 <= i < schedules.len() implies !deletion_target(
        #[trigger] schedules[i],
        schedule_id,
        requester,
    ) by {
        if i < k {
            assert(schedules[i].id != schedules[k].id);
        } else if k < i {
            assert(schedules[k].id != schedules[i].id);
        }
    }
}

/// Filtering a collection distributes over appending one entry: an entry
/// added for `owner` lands at the end of `owner`'s listing, and an entry
/// added for anyone else leaves the listing unchanged.
pub proof fn lemma_owned_by_push(schedules: Seq<Schedule>, s: Schedule, owner: u64)
    ensures
        s.user_id == owner ==> owned_by(schedules.push(s), owner) == owned_by(
            schedules,
            owner,
        ).push(s),
        s.user_id != owner ==> owned_by(schedules.push(s), owner) == owned_by(schedules, owner),
{
    reveal(Seq::filter);
    assert(schedules.push(s).drop_last() =~= schedules);
}

/// The collection of all calendar entries, for every user together, scanned
/// linearly by every operation. Identifiers are assigned as the collection's
/// size plus one; a deletion shifts later entries down, so after a deletion
/// an identifier can be assigned a second time. That reuse comes with the
/// length-based scheme and is deliberate, not an oversight.
pub struct ScheduleStore {
    pub schedules: Vec<Schedule>,
}

impl View for ScheduleStore {
    type V = Seq<Schedule>;

    open spec fn view(&self) -> Seq<Schedule> {
        self.schedules@
    }
}

impl ScheduleStore {
    /// An empty schedule store.
    pub fn new() -> (r: ScheduleStore)
        ensures
            r@ == Seq::<Schedule>::empty(),
    {
        ScheduleStore { schedules: Vec::new() }
    }

    /// A store holding exactly the given records, in the given order — the
    /// way a persisted collection re-enters the process.
    pub fn from_records(schedules: Vec<Schedule>) -> (r: ScheduleStore)
        ensures
            r@ == schedules@,
    {
        ScheduleStore { schedules }
    }

    pub fn len(&self) -> (r: usize)
        ensures
            r == self@.len(),
    {
        self.schedules.len()
    }

    /// A copy of the whole collection, for hand-off to persistence.
    pub fn records(&self) -> (r: Vec<Schedule>)
        ensures
            r@ == self@,
    {
        let mut r: Vec<Schedule> = Vec::new();
        let mut i: usize = 0;
        while i < self.schedules.len()
            invariant
                i <= self.schedules.len(),
                r@ == self@.take(i as int),
            decreases self.schedules.len() - i,
        {
            r.push(self.schedules[i].clone());
            proof {
                assert(self@.take(i as int + 1) =~= self@.take(i as int).push(self@[i as int]));
            }
            i = i + 1;
        }
        proof {
            assert(self@.take(self@.len() as int) =~= self@);
        }
        r
    }

    /// Appends an entry owned by `owner`; always succeeds. The identifier is
    /// the collection's previous size plus one; the size bound is a machine
    /// limit so that the identifier fits in a word.
    pub fn add(&mut self, owner: u64, title: &str, date: &str) -> (r: u64)
        requires
            old(self)@.len() < u64::MAX,
        ensures
            r == old(self)@.len() + 1,
            final(self)@ == old(self)@.push(final(self)@.last()),
            final(self)@.last().id == r,
            final(self)@.last().user_id == owner,
            final(self)@.last().title@ == title@,
            final(self)@.last().date@ == date@,
    {
        let id = self.schedules.len() as u64 + 1;
        self.schedules.push(
            Schedule {
                id,
                user_id: owner,
                title: title.to_owned(),
                date: date.to_owned(),
            },
        );
        id
    }

    /// Every entry owned by `owner`, in insertion order. Reachable both for
    /// the authenticated owner and, by design, for any caller who names a
    /// user identifier: the store itself imposes no access control on reads.
    pub fn list_owned_by(&self, owner: u64) -> (r: Vec<Schedule>)
        ensures
            r@ == owned_by(self@, owner),
    {
        let mut r: Vec<Schedule> = Vec::new();
        let mut i: usize = 0;
        while i < self.schedules.len()
            invariant
                i <= self.schedules.len(),
                r@ == owned_by(self@.take(i as int), owner),
            decreases self.schedules.len() - i,
        {
            proof {
                assert(self@.take(i as int + 1) =~= self@.take(i as int).push(self@[i as int]));
                lemma_owned_by_push(self@.take(i as int), self@[i as int], owner);
            }
            if self.schedules[i].user_id == owner {
                r.push(self.schedules[i].clone());
            }
            i = i + 1;
        }
        proof {
            assert(self@.take(self@.len() as int) =~= self@);
        }
        r
    }

    /// Removes the first entry matching both the identifier and the
    /// requester as owner, shifting later entries down. When no entry
    /// matches both — the identifier does not exist, or the entry belongs
    /// to someone else — nothing changes and the result is `NotFound`.
    pub fn delete(&mut self, schedule_id: u64, requester: u64) -> (r: Result<(), Error>)
        ensures
            r matches Ok(u) ==> exists|i: int|
                {
                    &&& 0 <= i < old(self)@.len()
                    &&& deletion_target(#[trigger] old(self)@[i], schedule_id, requester)
                    &&& final(self)@ == old(self)@.remove(i)
                    &&& forall|j: int|
                        0 <= j < i ==> !deletion_target(
                            #[trigger] old(self)@[j],
                            schedule_id,
                            requester,
                        )
                },
            r matches Err(e) ==> e == Error::NotFound && final(self)@ == old(self)@,
            r is Ok <==> has_deletion_target(old(self)@, schedule_id, requester),
    {
        let mut i: usize = 0;
        while i < self.schedules.len()
            invariant
                i <= self.schedules.len(),
                self@ == old(self)@,
                forall|j: int|
                    0 <= j < i ==> !deletion_target(
                        #[trigger] old(self)@[j],
                        schedule_id,
                        requester,
                    ),
            decreases self.schedules.len() - i,
        {
            if self.schedules[i].id == schedule_id && self.schedules[i].user_id == requester {
                proof {
                    assert(deletion_target(old(self)@[i as int], schedule_id, requester));
                }
                self.schedules.remove(i);
                return Ok(());
            }
            i = i + 1;
        }
        Err(Error::NotFound)
    }
}

} // verus!
