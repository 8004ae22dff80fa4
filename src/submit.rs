use crate::error::DaoError;
use crate::identity::contains_principal;
use crate::proposal::{ProposalInput, Proposals};
use crate::state::{has_group, has_place, has_proposal, DaoDetails, State};
use crate::types::{PollOptions, ProposalState, ProposalType};
use candid::Principal;
use vstd::prelude::*;

verus! {

/// Nanoseconds in one day; cool-down periods count days.
pub const NANOS_PER_DAY: u64 = 86_400_000_000_000;

/// Whether `kinds` holds `kind`.
pub fn contains_kind(kinds: &Vec<ProposalType>, kind: ProposalType) -> (r: bool)
    ensures
        r == kinds@.contains(kind),
{
    let mut i: usize = 0;
    while i < kinds.len()
        invariant
            i <= kinds@.len(),
            forall|j: int| 0 <= j < i ==> kinds@[j] != kind,
        decreases kinds@.len() - i,
    {
        if kinds[i] == kind {
            return true;
        }
        i += 1;
    }
    false
}

/// The group named `name` exists and lacks `caller` among its members.
pub open spec fn group_lacks_member(s: State, name: Seq<char>, caller: Principal) -> bool {
    exists|i: int|
        0 <= i < s.dao_groups@.len() && #[trigger] s.dao_groups@[i].group_name@ == name
            && !s.dao_groups@[i].group_members@.contains(caller)
}

/// The group named `name` exists and may not submit proposals of kind `kind`.
pub open spec fn group_lacks_permission(s: State, name: Seq<char>, kind: ProposalType) -> bool {
    exists|i: int|
        0 <= i < s.dao_groups@.len() && #[trigger] s.dao_groups@[i].group_name@ == name
            && !s.dao_groups@[i].group_permissions@.contains(kind)
}

/// The approval threshold of the place named `name` is `t`.
pub open spec fn place_threshold(s: State, name: Seq<char>, t: u64) -> bool {
    exists|i: int|
        0 <= i < s.dao.proposal_entry@.len() && #[trigger] s.dao.proposal_entry@[i].place_name@
            == name && s.dao.proposal_entry@[i].min_required_thredshold == t
}

/// Why `caller` may not submit a proposal of kind `kind` through the place
/// `entry`, if there is a reason. A place named like a group admits that
/// group's members with that group's permissions; any other place admits the
/// council with the council's permissions.
pub open spec fn creation_refusal(s: State, entry: Seq<char>, kind: ProposalType, caller: Principal) -> Option<
    DaoError,
> {
    if !has_place(s.dao.proposal_entry@, entry) {
        Some(DaoError::PlaceNotFound)
    } else if has_group(s.dao_groups@, entry) {
        if group_lacks_member(s, entry, caller) {
            Some(DaoError::NotGroupMember)
        } else if group_lacks_permission(s, entry, kind) {
            Some(DaoError::NoGroupPermission)
        } else {
            None
        }
    } else if !s.dao.members@.contains(caller) {
        Some(DaoError::NotMember)
    } else if !s.dao.members_permissions@.contains(kind) {
        Some(DaoError::NoMemberPermission)
    } else {
        None
    }
}

/// `days` days after `now`, capped at the largest time.
pub open spec fn after_days(now: u64, days: nat) -> u64 {
    if now + days * NANOS_PER_DAY <= u64::MAX {
        (now + days * NANOS_PER_DAY) as u64
    } else {
        u64::MAX
    }
}

/// The time `days` days after `now`, capped at the largest time.
pub fn add_days(now: u64, days: u64) -> (r: u64)
    ensures
        r == after_days(now, days as nat),
{
    proof {
        let d = days as int;
        assert(d * (NANOS_PER_DAY as int) <= u64::MAX * u64::MAX) by (nonlinear_arith)
            requires
                0 <= d <= u64::MAX,
                NANOS_PER_DAY as int <= u64::MAX,
        ;
    }
    let span: u128 = days as u128 * NANOS_PER_DAY as u128;
    let total: u128 = now as u128 + span;
    if total > u64::MAX as u128 {
        u64::MAX
    } else {
        total as u64
    }
}

/// The expiry of a proposal submitted at `now`: the one given, else the end
/// of the cool-down period.
pub open spec fn expiry_for(given: Option<u64>, now: u64, cool_down_days: u32) -> u64 {
    match given {
        Some(t) => t,
        None => after_days(now, cool_down_days as nat),
    }
}

/// Every option of a new poll starts without votes.
pub open spec fn fresh_options(options: Seq<PollOptions>) -> bool {
    forall|k: int|
        0 <= k < options.len() ==> (#[trigger] options[k]).poll_approved_votes == 0
            && options[k].approved_users@.len() == 0
}

/// `p` is the open proposal that `input` describes, submitted by `caller` at
/// `now` under the identifier `id` in an instance configured as `dao`.
pub open spec fn built_from(
    p: Proposals,
    input: ProposalInput,
    id: String,
    caller: Principal,
    now: u64,
    dao: DaoDetails,
) -> bool {
    &&& p.proposal_id == id
    &&& p.proposal_title == input.proposal_title
    &&& p.proposal_description == input.proposal_description
    &&& p.proposal_status == ProposalState::Open
    &&& p.proposal_submitted_at == now
    &&& p.proposal_expired_at == expiry_for(input.proposal_expired_at, now, dao.cool_down_period)
    &&& p.proposal_approved_votes == 0
    &&& p.approved_votes_list@.len() == 0
    &&& p.proposal_rejected_votes == 0
    &&& p.rejected_votes_list@.len() == 0
    &&& p.required_votes == (match input.required_votes {
        Some(v) => v,
        None => dao.required_votes,
    })
    &&& p.created_by == caller
    &&& p.proposal_type == input.proposal_type
    &&& p.principal_of_action == (match input.principal_of_action {
        Some(a) => a,
        None => caller,
    })
    &&& p.minimum_threadsold == input.minimum_threadsold
    &&& p.poll_options == input.poll_options
    &&& p.payload == input.payload
    &&& !p.decided
    &&& !p.effects_applied
}

/// `after` is `before` with the proposal that `input` describes appended and
/// its identifier recorded.
pub open spec fn created(
    before: State,
    after: State,
    input: ProposalInput,
    id: String,
    caller: Principal,
    now: u64,
) -> bool {
    &&& after.proposals@.len() == before.proposals@.len() + 1
    &&& forall|j: int|
        0 <= j < before.proposals@.len() ==> #[trigger] after.proposals@[j] == before.proposals@[j]
    &&& built_from(after.proposals@.last(), input, id, caller, now, before.dao)
    &&& after.dao.proposal_ids@ == before.dao.proposal_ids@.push(id)
    &&& after.dao == DaoDetails { proposal_ids: after.dao.proposal_ids, ..before.dao }
    &&& after.dao_groups == before.dao_groups
}

/// Time from `now` until `expiry`, or zero once it has passed.
pub open spec fn delay_until(expiry: u64, now: u64) -> u64 {
    if expiry >= now {
        (expiry - now) as u64
    } else {
        0
    }
}

/// The outcome of storing the proposal that `input` describes: refused when
/// its identifier is taken, else created, with the time until its expiry.
pub open spec fn submitted(
    before: State,
    after: State,
    r: Result<u64, DaoError>,
    input: ProposalInput,
    id: String,
    caller: Principal,
    now: u64,
) -> bool {
    if has_proposal(before.proposals@, id@) {
        r == Err::<u64, DaoError>(DaoError::DuplicateProposalId) && after == before
    } else {
        &&& created(before, after, input, id, caller, now)
        &&& r == Ok::<u64, DaoError>(
            delay_until(expiry_for(input.proposal_expired_at, now, before.dao.cool_down_period), now),
        )
    }
}

/// The outcome of a submission request: refused for `refusal` if there is
/// one, else the proposal that `shape` describes is submitted.
pub open spec fn request_outcome(
    before: State,
    after: State,
    r: Result<u64, DaoError>,
    refusal: Option<DaoError>,
    shape: spec_fn(ProposalInput) -> bool,
    id: String,
    caller: Principal,
    now: u64,
) -> bool {
    match refusal {
        Some(e) => r == Err::<u64, DaoError>(e) && after == before,
        None => exists|input: ProposalInput|
            shape(input) && #[trigger] submitted(before, after, r, input, id, caller, now),
    }
}

/// Fields common to the proposals that a submission request builds: its kind,
/// title, description and subject, no expiry or vote count of its own, no poll
/// options, and the threshold of the place it is submitted through.
pub open spec fn request_fields(
    input: ProposalInput,
    s: State,
    entry: Seq<char>,
    kind: ProposalType,
    title: Seq<char>,
    description: Seq<char>,
    action: Principal,
) -> bool {
    &&& input.proposal_type == kind
    &&& input.proposal_title@ == title
    &&& input.proposal_description@ == description
    &&& input.principal_of_action == Some(action)
    &&& input.proposal_expired_at is None
    &&& input.required_votes is None
    &&& input.poll_options@.len() == 0
    &&& place_threshold(s, entry, input.minimum_threadsold)
}

impl State {
    /// Checks that `caller` may submit a proposal of kind `kind` through the
    /// place `entry`, and returns the approval threshold of that place.
    pub fn guard_check_proposal_creation(&self, entry: &String, kind: ProposalType, caller: Principal) -> (r:
        Result<u64, DaoError>)
        requires
            self.wf(),
        ensures
            match creation_refusal(*self, entry@, kind, caller) {
                Some(e) => r == Err::<u64, DaoError>(e),
                None => r matches Ok(t) && place_threshold(*self, entry@, t),
            },
    {
        let place = match self.find_place(entry) {
            Some(i) => i,
            None => {
                return Err(DaoError::PlaceNotFound);
            },
        };
        let threshold = self.dao.proposal_entry[place].min_required_thredshold;
        match self.find_group(entry) {
            Some(g) => {
                proof {
                    assert(crate::state::groups_distinct(self.dao_groups@));
                }
                if !contains_principal(&self.dao_groups[g].group_members, &caller) {
                    return Err(DaoError::NotGroupMember);
                }
                if !contains_kind(&self.dao_groups[g].group_permissions, kind) {
                    return Err(DaoError::NoGroupPermission);
                }
            },
            None => {
                if !contains_principal(&self.dao.members, &caller) {
                    return Err(DaoError::NotMember);
                }
                if !contains_kind(&self.dao.members_permissions, kind) {
                    return Err(DaoError::NoMemberPermission);
                }
            },
        }
        Ok(threshold)
    }

    /// Stores the proposal that `input` describes under the identifier
    /// `proposal_id`, submitted by `caller` at `now`, and returns the time
    /// until its expiry, when a timer should re-check it.
    pub fn create_proposal_controller(
        &mut self,
        input: ProposalInput,
        proposal_id: String,
        caller: Principal,
        now: u64,
    ) -> (r: Result<u64, DaoError>)
        requires
            old(self).wf(),
            fresh_options(input.poll_options@),
        ensures
            final(self).wf(),
            crate::state::proposals_evolve(old(self).proposals@, final(self).proposals@),
            submitted(*old(self), *final(self), r, input, proposal_id, caller, now),
    {
        if self.find_proposal(&proposal_id).is_some() {
            return Err(DaoError::DuplicateProposalId);
        }
        let ghost before = *self;
        let expired_at = match input.proposal_expired_at {
            Some(t) => t,
            None => add_days(now, self.dao.cool_down_period as u64),
        };
        let required_votes = match input.required_votes {
            Some(v) => v,
            None => self.dao.required_votes,
        };
        let principal_of_action = match input.principal_of_action {
            Some(a) => a,
            None => caller,
        };
        let id_copy = proposal_id.clone();
        let proposal = Proposals {
            proposal_id,
            proposal_title: input.proposal_title,
            proposal_description: input.proposal_description,
            proposal_status: ProposalState::Open,
            proposal_submitted_at: now,
            proposal_expired_at: expired_at,
            proposal_approved_votes: 0,
            approved_votes_list: Vec::new(),
            proposal_rejected_votes: 0,
            rejected_votes_list: Vec::new(),
            required_votes,
            created_by: caller,
            proposal_type: input.proposal_type,
            principal_of_action,
            minimum_threadsold: input.minimum_threadsold,
            poll_options: input.poll_options,
            payload: input.payload,
            decided: false,
            effects_applied: false,
        };
        self.proposals.push(proposal);
        self.dao.proposal_ids.push(id_copy);
        proof {
            let ps = self.proposals@;
            assert forall|j: int| 0 <= j < before.proposals@.len() implies #[trigger] ps[j]
                == before.proposals@[j] by {}
            assert forall|j: int| 0 <= j < ps.len() implies (#[trigger] ps[j]).wf() by {
                if j < before.proposals@.len() {
                    assert(ps[j] == before.proposals@[j]);
                }
            }
            assert forall|a: int, b: int|
                0 <= a < ps.len() && 0 <= b < ps.len() && a != b implies #[trigger] ps[a].proposal_id@
                    != #[trigger] ps[b].proposal_id@ by {
                if a < before.proposals@.len() && b < before.proposals@.len() {
                } else if a < before.proposals@.len() {
                    assert(ps[a] == before.proposals@[a]);
                } else {
                    assert(ps[b] == before.proposals@[b]);
                }
            }
        }
        Ok(expired_at.saturating_sub(now))
    }
}

} // verus!
