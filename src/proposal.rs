use crate::types::{PollOptions, ProposalState, ProposalType, UpdateGroupPermission};
use candid::Principal;
use vstd::prelude::*;

verus! {

/// The kind-specific fields of a proposal; each kind reads the ones it needs.
#[derive(Clone, Debug)]
pub struct ProposalPayload {
    pub group_to_join: Option<String>,
    pub group_to_remove: Option<String>,
    pub new_dao_name: Option<String>,
    pub new_dao_purpose: Option<String>,
    pub cool_down_period: Option<u32>,
    pub new_required_votes: Option<u32>,
    pub ask_to_join_dao: Option<bool>,
    pub tokens: Option<u64>,
    pub token_from: Option<Principal>,
    pub token_to: Option<Principal>,
    pub bounty_task: Option<String>,
    pub link_of_task: Option<String>,
    pub associated_proposal_id: Option<String>,
    pub poll_query: Option<String>,
    pub updated_group_permissions: Option<UpdateGroupPermission>,
}

pub open spec fn empty_payload() -> ProposalPayload {
    ProposalPayload {
        group_to_join: None,
        group_to_remove: None,
        new_dao_name: None,
        new_dao_purpose: None,
        cool_down_period: None,
        new_required_votes: None,
        ask_to_join_dao: None,
        tokens: None,
        token_from: None,
        token_to: None,
        bounty_task: None,
        link_of_task: None,
        associated_proposal_id: None,
        poll_query: None,
        updated_group_permissions: None,
    }
}

impl ProposalPayload {
    /// A payload with every field absent.
    pub fn empty() -> (r: ProposalPayload)
        ensures
            r == empty_payload(),
    {
        ProposalPayload {
            group_to_join: None,
            group_to_remove: None,
            new_dao_name: None,
            new_dao_purpose: None,
            cool_down_period: None,
            new_required_votes: None,
            ask_to_join_dao: None,
            tokens: None,
            token_from: None,
            token_to: None,
            bounty_task: None,
            link_of_task: None,
            associated_proposal_id: None,
            poll_query: None,
            updated_group_permissions: None,
        }
    }
}

/// What a submitter provides for a new proposal. Absent optional fields take
/// the instance's defaults.
#[derive(Clone, Debug)]
pub struct ProposalInput {
    pub proposal_title: String,
    pub proposal_description: String,
    pub proposal_type: ProposalType,
    pub principal_of_action: Option<Principal>,
    pub proposal_expired_at: Option<u64>,
    pub required_votes: Option<u32>,
    pub minimum_threadsold: u64,
    pub poll_options: Vec<PollOptions>,
    pub payload: ProposalPayload,
}

/// A proposal record.
///
/// `decided` is set once the proposal leaves `Open`; `effects_applied` is set
/// once the effect of an accepted proposal has been carried out, which happens
/// at most once.
#[derive(Clone, Debug)]
pub struct Proposals {
    pub proposal_id: String,
    pub proposal_title: String,
    pub proposal_description: String,
    pub proposal_status: ProposalState,
    pub proposal_submitted_at: u64,
    pub proposal_expired_at: u64,
    pub proposal_approved_votes: u64,
    pub approved_votes_list: Vec<Principal>,
    pub proposal_rejected_votes: u64,
    pub rejected_votes_list: Vec<Principal>,
    pub required_votes: u32,
    pub created_by: Principal,
    pub proposal_type: ProposalType,
    pub principal_of_action: Principal,
    pub minimum_threadsold: u64,
    pub poll_options: Vec<PollOptions>,
    pub payload: ProposalPayload,
    pub decided: bool,
    pub effects_applied: bool,
}

/// Whether a status may follow another one: a status stays as it is, an open
/// proposal may take any status, and an accepted one may succeed.
pub open spec fn status_may_follow(before: ProposalState, after: ProposalState) -> bool {
    ||| before == after
    ||| before == ProposalState::Open
    ||| before == ProposalState::Accepted && after == ProposalState::Succeeded
}

impl Proposals {
    /// No identity has voted both ways.
    pub open spec fn voters_disjoint(&self) -> bool {
        forall|v: Principal|
            #[trigger] self.approved_votes_list@.contains(v) ==> !self.rejected_votes_list@.contains(
                v,
            )
    }

    /// The votes cast so far.
    pub open spec fn total_votes(&self) -> nat {
        (self.proposal_approved_votes + self.proposal_rejected_votes) as nat
    }

    pub open spec fn wf(&self) -> bool {
        &&& self.proposal_approved_votes == self.approved_votes_list@.len()
        &&& self.proposal_rejected_votes == self.rejected_votes_list@.len()
        &&& self.total_votes() <= self.required_votes
        &&& self.voters_disjoint()
        &&& self.decided <==> self.proposal_status != ProposalState::Open
        &&& self.effects_applied ==> (self.proposal_status == ProposalState::Accepted
            || self.proposal_status == ProposalState::Succeeded)
        &&& forall|k: int|
            0 <= k < self.poll_options@.len() ==> #[trigger] self.poll_options@[k].poll_approved_votes
                <= self.proposal_approved_votes
        &&& self.option_voters_recorded()
    }

    /// Everyone who chose a poll option counts among the approving voters.
    pub open spec fn option_voters_recorded(&self) -> bool {
        forall|k: int, v: Principal|
            0 <= k < self.poll_options@.len() && #[trigger] self.poll_options@[k].approved_users@.contains(
                v,
            ) ==> self.approved_votes_list@.contains(v)
    }

    /// The expiry time has been reached at `now`.
    pub open spec fn expired_at(&self, now: u64) -> bool {
        now >= self.proposal_expired_at
    }

    /// Whether an identity may not vote on this proposal because it is the
    /// creator, the subject of the action, or the recipient of its tokens.
    pub open spec fn is_interested(&self, who: Principal) -> bool {
        ||| who == self.created_by
        ||| who == self.principal_of_action
        ||| (self.proposal_type == ProposalType::TokenTransfer || self.proposal_type
            == ProposalType::BountyRaised || self.proposal_type == ProposalType::BountyDone)
            && self.payload.token_to == Some(who)
    }
}

} // verus!
