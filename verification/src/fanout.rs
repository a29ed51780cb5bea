//! The fan-out step: the order in which a roster's identifiers are
//! dispatched for resolution, and the all-or-nothing collection of the
//! results.

use vstd::prelude::*;
use vstd::seq_lib::lemma_multiset_commutative;
use vstd::seq_lib::group_to_multiset_ensures;
use crate::records::ApiError;
use crate::records::BannerRosterResponse;
use crate::records::id_views;
use crate::records::user_ids;

verus! {

/// The identifiers a roster sends to resolution, in dispatch order: every
/// student's, in student-list order, then every instructor's, in
/// instructor-list order.
pub open spec fn fanout_ids(roster: BannerRosterResponse) -> Seq<Seq<char>> {
    user_ids(roster.students@) + user_ids(roster.instructors@)
}

/// How often an identifier occurs in a list of identifiers.
pub open spec fn occurrences(ids: Seq<Seq<char>>, x: Seq<char>) -> nat {
    ids.to_multiset().count(x)
}

impl BannerRosterResponse {
    /// The flat identifier list the fan-out dispatches: one entry per
    /// enrolled person, students first, then instructors, each sub-list in
    /// its roster order. One resolution call is issued per entry, so with S
    /// students and I instructors exactly S + I calls are issued.
    pub fn banner_ids(&self) -> (r: Vec<String>)
        ensures
            r@.len() == self.students@.len() + self.instructors@.len(),
            id_views(r@) == fanout_ids(*self),
    {
        let mut ids: Vec<String> = Vec::new();
        let mut i: usize = 0;
        while i < self.students.len()
            invariant
                i <= self.students@.len(),
                ids@.len() == i,
                forall|k: int| 0 <= k < i ==> ids@[k]@ == self.students@[k].banner_id@,
            decreases self.students@.len() - i,
        {
            ids.push(self.students[i].banner_id.clone());
            i += 1;
        }
        let mut j: usize = 0;
        while j < self.instructors.len()
            invariant
                j <= self.instructors@.len(),
                ids@.len() == self.students@.len() + j,
                forall|k: int| 0 <= k < self.students@.len() ==> ids@[k]@ == self.students@[k].banner_id@,
                forall|k: int| 0 <= k < j ==> ids@[self.students@.len() + k]@ == self.instructors@[k].banner_id@,
            decreases self.instructors@.len() - j,
        {
            ids.push(self.instructors[j].banner_id.clone());
            j += 1;
        }
        proof {
            assert(id_views(ids@) =~= fanout_ids(*self));
        }
        ids
    }
}

/// No deduplication across the two lists: an identifier stands in the
/// fan-out once per occurrence, its count there being the sum of its counts
/// in the student and instructor lists. In particular, an identifier that
/// the two lists share is dispatched — and so resolved and printed — at
/// least twice, and exactly twice when each list holds it once.
pub proof fn lemma_shared_id_no_dedup(roster: BannerRosterResponse, x: Seq<char>)
    ensures
        occurrences(fanout_ids(roster), x)
            == occurrences(user_ids(roster.students@), x)
                + occurrences(user_ids(roster.instructors@), x),
        user_ids(roster.students@).contains(x) && user_ids(roster.instructors@).contains(x)
            ==> occurrences(fanout_ids(roster), x) >= 2,
{
    broadcast use group_to_multiset_ensures;

    lemma_multiset_commutative(user_ids(roster.students@), user_ids(roster.instructors@));
}

/// Collects the outcomes of the resolution calls, in dispatch order, into
/// either every resolved identifier or the first failure. Succeeds exactly
/// when every call succeeded, and then keeps one output per input — no
/// identifier is dropped and none is added; on failure it returns the error
/// of the earliest failed call, and no partial output.
pub fn collect_resolved(results: Vec<Result<String, ApiError>>) -> (r: Result<Vec<String>, ApiError>)
    ensures
        r is Ok <==> (forall|i: int| 0 <= i < results@.len() ==> results@[i] is Ok),
        r is Ok ==> r->Ok_0@.len() == results@.len(),
        r is Ok ==> forall|i: int| 0 <= i < results@.len() ==> r->Ok_0@[i] == results@[i]->Ok_0,
        r is Err ==> (exists|i: int| 0 <= i < results@.len() && results@[i] is Err
            && r->Err_0 == results@[i]->Err_0
            && (forall|j: int| 0 <= j < i ==> results@[j] is Ok)),
{
    let mut resolved: Vec<String> = Vec::new();
    let mut i: usize = 0;
    while i < results.len()
        invariant
            i <= results@.len(),
            resolved@.len() == i,
            forall|k: int| 0 <= k < i ==> results@[k] is Ok,
            forall|k: int| 0 <= k < i ==> resolved@[k] == results@[k]->Ok_0,
        decreases results@.len() - i,
    {
        match &results[i] {
            Ok(duck_id) => {
                resolved.push(duck_id.clone());
            },
            Err(e) => {
                return Err(*e);
            },
        }
        i += 1;
    }
    Ok(resolved)
}

} // verus!
