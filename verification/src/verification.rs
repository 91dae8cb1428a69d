//! The verification record and the registry of pending verifications.
//!
//! The registry owns id issuance: ids are handed out by a monotonically
//! increasing counter, never reused, and every pending record is keyed by
//! the id it was created under.  Callers serialize access to the registry;
//! the laws at the end of this module state what that buys them: issued ids
//! are pairwise distinct, a fresh id is never already occupied, and of two
//! removals of the same id exactly the first one succeeds.

use crate::user::User;
use vstd::hash_map::HashMapWithView;
use vstd::prelude::*;

verus! {

/// Where a pending request stands.
#[derive(Clone, Copy, Debug, PartialEq, Eq, Structural)]
pub enum VerificationState {
    /// The requester still has to pick a country.
    AwaitingCountry,
    /// The country is known; an admin decision is awaited.
    AwaitingDecision,
}

/// One in-flight verification request.
#[derive(Clone, Debug)]
pub struct VerificationInfo {
    /// The id the registry issued for this record; never mutated.
    pub id: u64,
    /// The chat-server member who asked for verification; never mutated.
    pub requester_id: u64,
    /// That member's display name, for messages.
    pub requester_name: String,
    /// The resolved game profile.  `country` is the only field mutated after
    /// creation.
    pub user: User,
    /// The requester-facing status message, once posted.
    pub status_message: Option<u64>,
    /// The admin-facing approval message, once posted.
    pub verification_message: Option<u64>,
    /// Where the request stands.
    pub state: VerificationState,
}

impl VerificationInfo {
    /// A record awaiting a decision always carries a country.
    pub open spec fn wf(&self) -> bool {
        self.state is AwaitingDecision ==> self.user.country is Some
    }
}

/// The registry of pending verifications: a monotonically increasing id
/// counter and the records keyed by issued id.
pub struct PendingVerifications {
    current_id: u64,
    verifications: HashMapWithView<u64, VerificationInfo>,
}

impl PendingVerifications {
    /// The next id to be issued.
    pub closed spec fn next_id(&self) -> u64 {
        self.current_id
    }

    /// The pending records, keyed by id.
    pub closed spec fn records(&self) -> Map<u64, VerificationInfo> {
        self.verifications@
    }

    /// Every pending record sits under the id it carries, that id was
    /// issued before, and the record itself is well formed.
    pub open spec fn wf(&self) -> bool {
        forall|id: u64| #[trigger]
            self.records().dom().contains(id) ==> self.records()[id].id == id
                && self.records()[id].wf() && id < self.next_id()
    }

    /// An empty registry whose first issued id will be 0.
    pub fn new() -> (r: PendingVerifications)
        ensures
            r.next_id() == 0,
            r.records() == Map::<u64, VerificationInfo>::empty(),
            r.wf(),
    {
        proof {
            broadcast use vstd::std_specs::hash::group_hash_axioms;

        }
        PendingVerifications { current_id: 0, verifications: HashMapWithView::new() }
    }

    /// Whether another id can still be issued: the counter has not reached
    /// the end of the id space.
    pub fn can_issue(&self) -> (r: bool)
        ensures
            r == (self.next_id() < u64::MAX),
    {
        self.current_id < u64::MAX
    }

    /// Issues a fresh id and reserves it: the counter moves past it and it
    /// is never handed out again.
    pub fn use_current_id(&mut self) -> (id: u64)
        requires
            old(self).next_id() < u64::MAX,
        ensures
            id == old(self).next_id(),
            final(self).next_id() == old(self).next_id() + 1,
            final(self).records() == old(self).records(),
            old(self).wf() ==> final(self).wf(),
    {
        let id = self.current_id;
        self.current_id = self.current_id + 1;
        id
    }

    /// Stores a record under its id, which must have been issued before.
    /// Fails, leaving the registry as it was, if the id already holds a
    /// record; the record is handed back.
    pub fn insert(&mut self, info: VerificationInfo) -> (r: Result<(), VerificationInfo>)
        requires
            old(self).wf(),
            info.wf(),
            info.id < old(self).next_id(),
        ensures
            final(self).next_id() == old(self).next_id(),
            final(self).wf(),
            match r {
                Ok(_) => !old(self).records().dom().contains(info.id) && final(self).records()
                    == old(self).records().insert(info.id, info),
                Err(returned) => old(self).records().dom().contains(info.id) && returned == info
                    && final(self).records() == old(self).records(),
            },
    {
        if self.verifications.contains_key(&info.id) {
            return Err(info);
        }
        self.put(info);
        Ok(())
    }

    /// Stores a record under its issued id unconditionally; a record already
    /// there is replaced.
    pub(crate) fn put(&mut self, info: VerificationInfo)
        requires
            old(self).wf(),
            info.wf(),
            info.id < old(self).next_id(),
        ensures
            final(self).next_id() == old(self).next_id(),
            final(self).records() == old(self).records().insert(info.id, info),
            final(self).wf(),
    {
        let ghost ghost_info = info;
        self.verifications.insert(info.id, info);
        proof {
            assert forall|id: u64| #[trigger] self.records().dom().contains(id) implies self.records()[id].id
                == id && self.records()[id].wf() && id < self.next_id() by {
                if id != ghost_info.id {
                    assert(old(self).records().dom().contains(id));
                }
            }
        }
    }

    /// Looks a record up by id.
    pub fn get(&self, id: u64) -> (r: Option<&VerificationInfo>)
        ensures
            match r {
                Some(info) => self.records().dom().contains(id) && *info == self.records()[id],
                None => !self.records().dom().contains(id),
            },
    {
        self.verifications.get(&id)
    }

    /// Removes the record under an id and hands it back; fails cleanly on an
    /// id that holds no record, leaving the registry as it was.
    pub fn remove(&mut self, id: u64) -> (r: Option<VerificationInfo>)
        ensures
            final(self).next_id() == old(self).next_id(),
            match r {
                Some(info) => old(self).records().dom().contains(id) && info == old(
                    self,
                ).records()[id] && final(self).records() == old(self).records().remove(id),
                None => !old(self).records().dom().contains(id) && final(self).records() == old(
                    self,
                ).records(),
            },
            old(self).wf() ==> final(self).wf(),
    {
        let r = self.verifications.remove(&id);
        proof {
            if old(self).wf() {
                assert forall|k: u64| #[trigger] self.records().dom().contains(k) implies self.records()[k].id
                    == k && self.records()[k].wf() && k < self.next_id() by {
                    assert(old(self).records().dom().contains(k));
                }
            }
        }
        r
    }

    /// The number of pending records.
    pub fn len(&self) -> (n: usize)
        ensures
            n == self.records().len(),
    {
        self.verifications.len()
    }
}

impl Default for PendingVerifications {
    /// The default registry is the empty one.
    fn default() -> (r: PendingVerifications)
        ensures
            r.next_id() == 0,
            r.records() == Map::<u64, VerificationInfo>::empty(),
            r.wf(),
    {
        PendingVerifications::new()
    }
}

// --- laws ---

/// One issuance step: exactly what `use_current_id` does to the registry and
/// returns.
pub open spec fn issue_step(
    pre: PendingVerifications,
    post: PendingVerifications,
    id: u64,
) -> bool {
    &&& id == pre.next_id()
    &&& pre.next_id() < u64::MAX
    &&& post.next_id() == pre.next_id() + 1
    &&& post.records() == pre.records()
}

/// One removal step: exactly what `remove` does to the registry and returns.
pub open spec fn remove_step(
    pre: PendingVerifications,
    post: PendingVerifications,
    id: u64,
    removed: Option<VerificationInfo>,
) -> bool {
    &&& post.next_id() == pre.next_id()
    &&& match removed {
        Some(info) => pre.records().dom().contains(id) && info == pre.records()[id]
            && post.records() == pre.records().remove(id),
        None => !pre.records().dom().contains(id) && post.records() == pre.records(),
    }
}

/// Law: ids are issued pairwise distinct and strictly increasing in
/// issuance order.  Between the two issuances the registry may undergo any
/// operations; none of them ever lowers the id counter, which is the middle
/// premise.
pub proof fn lemma_issued_ids_increase(
    s0: PendingVerifications,
    s1: PendingVerifications,
    s2: PendingVerifications,
    s3: PendingVerifications,
    id1: u64,
    id2: u64,
)
    requires
        issue_step(s0, s1, id1),
        s1.next_id() <= s2.next_id(),
        issue_step(s2, s3, id2),
    ensures
        id1 < id2,
{
}

/// Law: a freshly issued id never already holds a record, so storing a new
/// record under the id just issued for it always succeeds.
pub proof fn lemma_fresh_id_not_pending(
    s0: PendingVerifications,
    s1: PendingVerifications,
    id: u64,
)
    requires
        s0.wf(),
        issue_step(s0, s1, id),
    ensures
        !s1.records().dom().contains(id),
{
}

/// Law: resolution happens exactly once.  Of two removals of the same id in
/// sequence — two concurrent approve or deny actions, as the registry
/// serializes them — the first obtains the record and the second observes
/// it already gone; afterwards the registry holds nothing under that id.
pub proof fn lemma_resolution_once(
    s0: PendingVerifications,
    s1: PendingVerifications,
    s2: PendingVerifications,
    id: u64,
    r1: Option<VerificationInfo>,
    r2: Option<VerificationInfo>,
)
    requires
        s0.records().dom().contains(id),
        remove_step(s0, s1, id, r1),
        remove_step(s1, s2, id, r2),
    ensures
        r1 is Some,
        r2 is None,
        !s2.records().dom().contains(id),
{
}

} // verus!
