use crate::proposal::Proposals;
use crate::types::{DaoGroup, ProposalPlace, ProposalState, ProposalType};
use candid::Principal;
use vstd::prelude::*;

verus! {

/// Configuration and roster of a governance instance.
#[derive(Clone, Debug)]
pub struct DaoDetails {
    pub dao_name: String,
    pub purpose: String,
    pub cool_down_period: u32,
    pub required_votes: u32,
    pub ask_to_join_dao: bool,
    /// The council roster.
    pub members: Vec<Principal>,
    /// Everyone who belongs to the instance, through the council or a group.
    pub all_dao_user: Vec<Principal>,
    /// Identities that asked to join and wait for the vote.
    pub requested_dao_user: Vec<Principal>,
    /// The proposal kinds that council members may submit.
    pub members_permissions: Vec<ProposalType>,
    pub proposal_entry: Vec<ProposalPlace>,
    /// The factory instance that created this one.
    pub daohouse_canister_id: Principal,
    /// The companion value ledger.
    pub token_ledger_id: Principal,
    pub proposal_ids: Vec<String>,
}

/// The whole state of a governance instance.
pub struct State {
    pub dao: DaoDetails,
    pub proposals: Vec<Proposals>,
    pub dao_groups: Vec<DaoGroup>,
}

/// Every name occurs at most once among the places.
pub open spec fn places_distinct(places: Seq<ProposalPlace>) -> bool {
    forall|i: int, j: int|
        0 <= i < places.len() && 0 <= j < places.len() && i != j ==> #[trigger] places[i].place_name@
            != #[trigger] places[j].place_name@
}

/// Every name occurs at most once among the groups.
pub open spec fn groups_distinct(groups: Seq<DaoGroup>) -> bool {
    forall|i: int, j: int|
        0 <= i < groups.len() && 0 <= j < groups.len() && i != j ==> #[trigger] groups[i].group_name@
            != #[trigger] groups[j].group_name@
}

/// Every identifier occurs at most once among the proposals.
pub open spec fn ids_distinct(proposals: Seq<Proposals>) -> bool {
    forall|i: int, j: int|
        0 <= i < proposals.len() && 0 <= j < proposals.len() && i != j
            ==> #[trigger] proposals[i].proposal_id@ != #[trigger] proposals[j].proposal_id@
}

/// The council, the users and every group list each identity at most once.
pub open spec fn rosters_distinct(dao: DaoDetails, groups: Seq<DaoGroup>) -> bool {
    &&& dao.members@.no_duplicates()
    &&& dao.all_dao_user@.no_duplicates()
    &&& forall|g: int| 0 <= g < groups.len() ==> (#[trigger] groups[g]).group_members@.no_duplicates()
}

/// The proposal with identifier `id`, if any.
pub open spec fn has_proposal(proposals: Seq<Proposals>, id: Seq<char>) -> bool {
    exists|i: int| 0 <= i < proposals.len() && #[trigger] proposals[i].proposal_id@ == id
}

/// Whether the group named `name` exists.
pub open spec fn has_group(groups: Seq<DaoGroup>, name: Seq<char>) -> bool {
    exists|i: int| 0 <= i < groups.len() && #[trigger] groups[i].group_name@ == name
}

/// Whether the place named `name` exists.
pub open spec fn has_place(places: Seq<ProposalPlace>, name: Seq<char>) -> bool {
    exists|i: int| 0 <= i < places.len() && #[trigger] places[i].place_name@ == name
}

/// A later state keeps every proposal of an earlier one under the same
/// identifier: a decided proposal stays decided, a terminal status changes
/// only from accepted to succeeded, and applied effects stay applied.
pub open spec fn proposals_evolve(before: Seq<Proposals>, after: Seq<Proposals>) -> bool {
    &&& before.len() <= after.len()
    &&& forall|i: int|
        0 <= i < before.len() ==> {
            &&& (#[trigger] after[i]).proposal_id == before[i].proposal_id
            &&& crate::proposal::status_may_follow(
                before[i].proposal_status,
                after[i].proposal_status,
            )
            &&& before[i].decided ==> after[i].decided
            &&& before[i].effects_applied ==> after[i].effects_applied
            &&& before[i].effects_applied ==> after[i].proposal_status != ProposalState::Open
            &&& same_record(before[i], after[i])
        }
}

/// Two versions of one proposal share everything but their status, flags,
/// votes and poll tallies.
pub open spec fn same_record(a: Proposals, b: Proposals) -> bool {
    &&& a.proposal_id == b.proposal_id
    &&& a.proposal_title == b.proposal_title
    &&& a.proposal_description == b.proposal_description
    &&& a.proposal_submitted_at == b.proposal_submitted_at
    &&& a.proposal_expired_at == b.proposal_expired_at
    &&& a.required_votes == b.required_votes
    &&& a.created_by == b.created_by
    &&& a.proposal_type == b.proposal_type
    &&& a.principal_of_action == b.principal_of_action
    &&& a.minimum_threadsold == b.minimum_threadsold
    &&& a.payload == b.payload
}

/// Evolution of the proposals composes.
pub proof fn lemma_evolve_trans(a: Seq<Proposals>, b: Seq<Proposals>, c: Seq<Proposals>)
    requires
        proposals_evolve(a, b),
        proposals_evolve(b, c),
    ensures
        proposals_evolve(a, c),
{
    assert forall|i: int| 0 <= i < a.len() implies {
        &&& (#[trigger] c[i]).proposal_id == a[i].proposal_id
        &&& crate::proposal::status_may_follow(a[i].proposal_status, c[i].proposal_status)
        &&& a[i].decided ==> c[i].decided
        &&& a[i].effects_applied ==> c[i].effects_applied
        &&& a[i].effects_applied ==> c[i].proposal_status != ProposalState::Open
        &&& same_record(a[i], c[i])
    } by {
        assert(b[i] == b[i]);
    }
}

impl State {
    pub open spec fn wf(&self) -> bool {
        &&& forall|i: int| 0 <= i < self.proposals@.len() ==> (#[trigger] self.proposals@[i]).wf()
        &&& ids_distinct(self.proposals@)
        &&& places_distinct(self.dao.proposal_entry@)
        &&& groups_distinct(self.dao_groups@)
        &&& rosters_distinct(self.dao, self.dao_groups@)
    }

    /// Position of the proposal with identifier `id`.
    pub fn find_proposal(&self, id: &String) -> (r: Option<usize>)
        ensures
            r matches Some(i) ==> i < self.proposals@.len() && self.proposals@[i as int].proposal_id@
                == id@,
            r is None ==> !has_proposal(self.proposals@, id@),
    {
        let mut i: usize = 0;
        while i < self.proposals.len()
            invariant
                i <= self.proposals@.len(),
                forall|j: int| 0 <= j < i ==> #[trigger] self.proposals@[j].proposal_id@ != id@,
            decreases self.proposals@.len() - i,
        {
            if self.proposals[i].proposal_id == *id {
                return Some(i);
            }
            i += 1;
        }
        None
    }

    /// The proposal with identifier `id`, if there is one.
    pub fn get_proposal(&self, id: &String) -> (r: Option<&Proposals>)
        ensures
            r matches Some(p) ==> exists|i: int|
                0 <= i < self.proposals@.len() && self.proposals@[i] == *p && #[trigger] p.proposal_id@
                    == id@,
            r is None ==> !has_proposal(self.proposals@, id@),
    {
        match self.find_proposal(id) {
            Some(i) => Some(&self.proposals[i]),
            None => None,
        }
    }

    /// Position of the group named `name`.
    pub fn find_group(&self, name: &String) -> (r: Option<usize>)
        ensures
            r matches Some(i) ==> i < self.dao_groups@.len() && self.dao_groups@[i as int].group_name@
                == name@,
            r is None ==> !has_group(self.dao_groups@, name@),
    {
        let mut i: usize = 0;
        while i < self.dao_groups.len()
            invariant
                i <= self.dao_groups@.len(),
                forall|j: int| 0 <= j < i ==> #[trigger] self.dao_groups@[j].group_name@ != name@,
            decreases self.dao_groups@.len() - i,
        {
            if self.dao_groups[i].group_name == *name {
                return Some(i);
            }
            i += 1;
        }
        None
    }

    /// Position of the place named `name`.
    pub fn find_place(&self, name: &String) -> (r: Option<usize>)
        ensures
            r matches Some(i) ==> i < self.dao.proposal_entry@.len()
                && self.dao.proposal_entry@[i as int].place_name@ == name@,
            r is None ==> !has_place(self.dao.proposal_entry@, name@),
    {
        let mut i: usize = 0;
        while i < self.dao.proposal_entry.len()
            invariant
                i <= self.dao.proposal_entry@.len(),
                forall|j: int|
                    0 <= j < i ==> #[trigger] self.dao.proposal_entry@[j].place_name@ != name@,
            decreases self.dao.proposal_entry@.len() - i,
        {
            if self.dao.proposal_entry[i].place_name == *name {
                return Some(i);
            }
            i += 1;
        }
        None
    }
}

} // verus!
