use crate::effects::{copy_text, group_member_added, Outbound};
use crate::error::DaoError;
use crate::identity::{contains_principal, insert_principal};
use crate::ids::{build_poll_options, option_id_text};
use crate::proposal::{empty_payload, ProposalInput, ProposalPayload, Proposals};
use crate::state::{has_group, has_place, has_proposal, proposals_evolve, DaoDetails, State};
use crate::submit::{
    add_days, after_days, creation_refusal, place_threshold, request_fields, request_outcome,
    submitted,
};
use crate::types::{
    AddMemberArgs, AddMemberToDaoArgs, BountyDone, BountyRaised, ChangeDaoConfigArg,
    ChangeDaoPolicy, CreateGeneralPurpose, CreatePoll, JoinDao, MintTokenArgs, ProposalType,
    RemoveDaoMemberArgs, RemoveMemberArgs, TokenTransferPolicy, UpdatePermissionPayload,
};
use candid::Principal;
use vstd::prelude::*;

verus! {

pub const TITLE_ADD_MEMBER: &'static str = "Add new member";

pub const TITLE_ADD_MEMBER_TO_COUNCIL: &'static str = "Add new member to Council";

pub const TITLE_REMOVE_MEMBER: &'static str = "Remove dao member";

pub const TITLE_REMOVE_MEMBER_FROM_GROUP: &'static str = "Remove member from Group";

pub const TITLE_CHANGE_DAO_CONFIG: &'static str = "Change dao config";

pub const TITLE_CHANGE_DAO_POLICY: &'static str = "Change dao policy";

pub const TITLE_TOKEN_TRANSFER_POLICY: &'static str = "Token transfer policy";

pub const TITLE_BOUNTY_RAISED: &'static str = "Bounty raised";

pub const TITLE_MINT_NEW_TOKENS: &'static str = "Mint new tokens";

pub const TITLE_BOUNTY_DONE: &'static str = "Bounty done";

pub const TITLE_CREATE_POLL: &'static str = "poll";

pub const TITLE_CREATE_GENERAL_PURPOSE: &'static str = "general purpose";

pub const TITLE_CREATE_CHANGE_GROUP_PERMISSION: &'static str = "change group permissions";

pub const REQUEST_JOIN_DAO: &'static str = "Request to join DAO";

/// The group named `name` exists and holds `m`.
pub open spec fn group_holds(s: State, name: Seq<char>, m: Principal) -> bool {
    exists|i: int|
        0 <= i < s.dao_groups@.len() && #[trigger] s.dao_groups@[i].group_name@ == name
            && s.dao_groups@[i].group_members@.contains(m)
}

/// Whether the group named `name` holds `m`; `None` when no group has that
/// name.
fn group_membership(s: &State, name: &String, m: Principal) -> (r: Option<bool>)
    requires
        s.wf(),
    ensures
        r is None <==> !has_group(s.dao_groups@, name@),
        r == Some(true) <==> group_holds(*s, name@, m),
{
    match s.find_group(name) {
        Some(g) => {
            proof {
                assert(crate::state::groups_distinct(s.dao_groups@));
            }
            Some(contains_principal(&s.dao_groups[g].group_members, &m))
        },
        None => None,
    }
}

/// Why a request to add a member to a group is refused, if it is.
pub open spec fn add_member_to_group_refusal(s: State, args: AddMemberArgs, caller: Principal) -> Option<
    DaoError,
> {
    let r = creation_refusal(s, args.proposal_entry@, ProposalType::AddMemberToGroupProposal, caller);
    if r is Some {
        r
    } else if !has_group(s.dao_groups@, args.group_name@) {
        Some(DaoError::GroupNotFound)
    } else if group_holds(s, args.group_name@, args.new_member) {
        Some(DaoError::MemberAlreadyInGroup)
    } else {
        None
    }
}

/// Why a request to add a member to the council is refused, if it is.
pub open spec fn add_member_to_council_refusal(
    s: State,
    args: AddMemberToDaoArgs,
    caller: Principal,
) -> Option<DaoError> {
    let r = creation_refusal(s, args.proposal_entry@, ProposalType::AddMemberToDaoProposal, caller);
    if r is Some {
        r
    } else if s.dao.members@.contains(args.new_member) {
        Some(DaoError::MemberAlreadyInDao)
    } else {
        None
    }
}

/// Why a request to remove a member from a group is refused, if it is.
pub open spec fn remove_member_to_group_refusal(
    s: State,
    args: RemoveMemberArgs,
    caller: Principal,
) -> Option<DaoError> {
    let r = creation_refusal(
        s,
        args.proposal_entry@,
        ProposalType::RemoveMemberToGroupProposal,
        caller,
    );
    if r is Some {
        r
    } else if !has_group(s.dao_groups@, args.group_name@) {
        Some(DaoError::GroupNotFound)
    } else if !group_holds(s, args.group_name@, args.action_member) {
        Some(DaoError::MemberNotInGroup)
    } else {
        None
    }
}

/// Why a request to remove a member from the council is refused, if it is.
pub open spec fn remove_member_to_dao_refusal(
    s: State,
    args: RemoveDaoMemberArgs,
    caller: Principal,
) -> Option<DaoError> {
    let r = creation_refusal(
        s,
        args.proposal_entry@,
        ProposalType::RemoveMemberToDaoProposal,
        caller,
    );
    if r is Some {
        r
    } else if !s.dao.members@.contains(args.action_member) {
        Some(DaoError::MemberNotInDao)
    } else {
        None
    }
}

/// Why a token transfer request is refused, if it is.
pub open spec fn transfer_token_refusal(s: State, args: TokenTransferPolicy, caller: Principal) -> Option<
    DaoError,
> {
    let r = creation_refusal(s, args.proposal_entry@, ProposalType::TokenTransfer, caller);
    if r is Some {
        r
    } else if caller == args.to {
        Some(DaoError::SelfTransfer)
    } else {
        None
    }
}

/// Why a request to raise a bounty is refused, if it is; `balance` is what
/// the instance holds on its ledger.
pub open spec fn bounty_raised_refusal(
    s: State,
    args: BountyRaised,
    caller: Principal,
    balance: u128,
) -> Option<DaoError> {
    let r = creation_refusal(s, args.proposal_entry@, ProposalType::BountyRaised, caller);
    if args.tokens < 1 {
        Some(DaoError::NonPositiveAmount)
    } else if r is Some {
        r
    } else if balance < args.tokens {
        Some(DaoError::InsufficientBalance)
    } else {
        None
    }
}

/// The proposal with identifier `id`, when there is one.
pub open spec fn proposal_by_id(s: State, id: Seq<char>) -> Proposals {
    s.proposals@[choose|i: int| 0 <= i < s.proposals@.len() && #[trigger] s.proposals@[i].proposal_id@ == id]
}

/// Why a request to pay out a bounty is refused, if it is; `balance` is what
/// the instance holds on its ledger. Paying out a bounty takes the
/// permission to raise one.
pub open spec fn bounty_done_refusal(
    s: State,
    args: BountyDone,
    caller: Principal,
    balance: u128,
) -> Option<DaoError> {
    let r = creation_refusal(s, args.proposal_entry@, ProposalType::BountyRaised, caller);
    let b = proposal_by_id(s, args.associated_proposal_id@);
    if r is Some {
        r
    } else if balance < args.tokens {
        Some(DaoError::InsufficientBalance)
    } else if !has_proposal(s.proposals@, args.associated_proposal_id@) {
        Some(DaoError::ProposalNotFound)
    } else if b.proposal_type != ProposalType::BountyRaised {
        Some(DaoError::NotBountyRaised)
    } else if b.proposal_status != crate::types::ProposalState::Accepted {
        Some(DaoError::BountyNotAccepted)
    } else if b.created_by != caller {
        Some(DaoError::NotBountyOwner)
    } else {
        None
    }
}

/// Why a mint request is refused, if it is.
pub open spec fn mint_refusal(s: State, args: MintTokenArgs, caller: Principal) -> Option<DaoError> {
    let r = creation_refusal(s, args.proposal_entry@, ProposalType::MintNewTokens, caller);
    if args.total_amount < 1 {
        Some(DaoError::NonPositiveAmount)
    } else {
        r
    }
}

/// The proposal that a poll request builds: its options come from
/// `args.poll_options`, identified by `base` and their position, and it
/// expires `args.proposal_expired_at` days after `now`.
pub open spec fn poll_input(
    input: ProposalInput,
    s: State,
    args: CreatePoll,
    caller: Principal,
    base: Seq<char>,
    now: u64,
) -> bool {
    &&& input.proposal_type == ProposalType::Polls
    &&& input.proposal_title@ == TITLE_CREATE_POLL@
    &&& input.proposal_description@ == args.description@
    &&& input.principal_of_action == Some(caller)
    &&& input.proposal_expired_at == Some(after_days(now, args.proposal_expired_at as nat))
    &&& input.required_votes is None
    &&& place_threshold(s, args.proposal_entry@, input.minimum_threadsold)
    &&& input.payload == (ProposalPayload { poll_query: Some(args.poll_query), ..empty_payload() })
    &&& input.poll_options@.len() == args.poll_options@.len()
    &&& forall|k: int|
        0 <= k < input.poll_options@.len() ==> {
            &&& (#[trigger] input.poll_options@[k]).option@ == args.poll_options@[k]@
            &&& input.poll_options@[k].id@ == option_id_text(base, k as nat)
            &&& input.poll_options@[k].poll_approved_votes == 0
            &&& input.poll_options@[k].approved_users@.len() == 0
        }
}

/// What a request to join gives when it succeeds: either the caller joined
/// at once, and the factory should be told, or a proposal to admit the
/// caller was submitted, to be re-checked after the given delay.
#[derive(Clone, Copy, Debug)]
pub enum JoinOutcome {
    Joined(Outbound),
    Requested(u64),
}

/// A proposal of kind `kind` about `who` is pending or was made.
pub open spec fn proposal_about_exists(s: State, who: Principal, kind: ProposalType) -> bool {
    exists|i: int|
        0 <= i < s.proposals@.len() && #[trigger] s.proposals@[i].proposal_type == kind
            && s.proposals@[i].principal_of_action == who
}

/// The proposal that a request to join submits.
pub open spec fn join_input(input: ProposalInput, s: State, args: JoinDao, caller: Principal) -> bool {
    &&& request_fields(
        input,
        s,
        args.place_to_join@,
        ProposalType::AddMemberToGroupProposal,
        TITLE_ADD_MEMBER@,
        REQUEST_JOIN_DAO@,
        caller,
    )
    &&& input.payload == (ProposalPayload {
        group_to_join: Some(args.place_to_join),
        ..empty_payload()
    })
}

/// Why a request of `caller` to join is refused, if it is. Where the
/// instance admits anyone, the place must be a group; otherwise it must be a
/// place from which the admission proposal is submitted.
pub open spec fn join_refusal(s: State, args: JoinDao, caller: Principal) -> Option<DaoError> {
    if proposal_about_exists(s, caller, ProposalType::AddMemberToGroupProposal) {
        Some(DaoError::ProposalExists)
    } else if s.dao.all_dao_user@.contains(caller) {
        Some(DaoError::AlreadyInDao)
    } else if !s.dao.ask_to_join_dao {
        if !has_group(s.dao_groups@, args.place_to_join@) {
            Some(DaoError::GroupNotFound)
        } else {
            None
        }
    } else if !has_place(s.dao.proposal_entry@, args.place_to_join@) {
        Some(DaoError::PlaceNotFound)
    } else {
        None
    }
}

impl State {
    /// Submits a proposal to add `args.new_member` to the group
    /// `args.group_name`.
    pub fn proposal_to_add_member_to_group(
        &mut self,
        caller: Principal,
        args: AddMemberArgs,
        proposal_id: String,
        now: u64,
    ) -> (r: Result<u64, DaoError>)
        requires
            old(self).wf(),
        ensures
            final(self).wf(),
            crate::state::proposals_evolve(old(self).proposals@, final(self).proposals@),
            request_outcome(
                *old(self),
                *final(self),
                r,
                add_member_to_group_refusal(*old(self), args, caller),
                |input: ProposalInput|
                    request_fields(
                        input,
                        *old(self),
                        args.proposal_entry@,
                        ProposalType::AddMemberToGroupProposal,
                        TITLE_ADD_MEMBER@,
                        args.description@,
                        args.new_member,
                    ) && input.payload == (ProposalPayload {
                        group_to_join: Some(args.group_name),
                        ..empty_payload()
                    }),
                proposal_id,
                caller,
                now,
            ),
    {
        let threshold = self.guard_check_proposal_creation(
            &args.proposal_entry,
            ProposalType::AddMemberToGroupProposal,
            caller,
        )?;
        match group_membership(self, &args.group_name, args.new_member) {
            None => {
                return Err(DaoError::GroupNotFound);
            },
            Some(true) => {
                return Err(DaoError::MemberAlreadyInGroup);
            },
            Some(false) => {},
        }
        let mut payload = ProposalPayload::empty();
        payload.group_to_join = Some(args.group_name);
        let input = ProposalInput {
            proposal_title: String::from_str(TITLE_ADD_MEMBER),
            proposal_description: args.description,
            proposal_type: ProposalType::AddMemberToGroupProposal,
            principal_of_action: Some(args.new_member),
            proposal_expired_at: None,
            required_votes: None,
            minimum_threadsold: threshold,
            poll_options: Vec::new(),
            payload,
        };
        let ghost shaped = input;
        let ghost before = *self;
        let ghost id = proposal_id;
        let r = self.create_proposal_controller(input, proposal_id, caller, now);
        assert(submitted(before, *self, r, shaped, id, caller, now));
        r
    }

    /// Submits a proposal to add `args.new_member` to the council.
    pub fn proposal_to_add_member_to_council(
        &mut self,
        caller: Principal,
        args: AddMemberToDaoArgs,
        proposal_id: String,
        now: u64,
    ) -> (r: Result<u64, DaoError>)
        requires
            old(self).wf(),
        ensures
            final(self).wf(),
            crate::state::proposals_evolve(old(self).proposals@, final(self).proposals@),
            request_outcome(
                *old(self),
                *final(self),
                r,
                add_member_to_council_refusal(*old(self), args, caller),
                |input: ProposalInput|
                    request_fields(
                        input,
                        *old(self),
                        args.proposal_entry@,
                        ProposalType::AddMemberToDaoProposal,
                        TITLE_ADD_MEMBER_TO_COUNCIL@,
                        args.description@,
                        args.new_member,
                    ) && input.payload == empty_payload(),
                proposal_id,
                caller,
                now,
            ),
    {
        let threshold = self.guard_check_proposal_creation(
            &args.proposal_entry,
            ProposalType::AddMemberToDaoProposal,
            caller,
        )?;
        if contains_principal(&self.dao.members, &args.new_member) {
            return Err(DaoError::MemberAlreadyInDao);
        }
        let input = ProposalInput {
            proposal_title: String::from_str(TITLE_ADD_MEMBER_TO_COUNCIL),
            proposal_description: args.description,
            proposal_type: ProposalType::AddMemberToDaoProposal,
            principal_of_action: Some(args.new_member),
            proposal_expired_at: None,
            required_votes: None,
            minimum_threadsold: threshold,
            poll_options: Vec::new(),
            payload: ProposalPayload::empty(),
        };
        let ghost shaped = input;
        let ghost before = *self;
        let ghost id = proposal_id;
        let r = self.create_proposal_controller(input, proposal_id, caller, now);
        assert(submitted(before, *self, r, shaped, id, caller, now));
        r
    }

    /// Submits a proposal to remove `args.action_member` from the group
    /// `args.group_name`.
    pub fn proposal_to_remove_member_to_group(
        &mut self,
        caller: Principal,
        args: RemoveMemberArgs,
        proposal_id: String,
        now: u64,
    ) -> (r: Result<u64, DaoError>)
        requires
            old(self).wf(),
        ensures
            final(self).wf(),
            proposals_evolve(old(self).proposals@, final(self).proposals@),
            request_outcome(
                *old(self),
                *final(self),
                r,
                remove_member_to_group_refusal(*old(self), args, caller),
                |input: ProposalInput|
                    request_fields(
                        input,
                        *old(self),
                        args.proposal_entry@,
                        ProposalType::RemoveMemberToGroupProposal,
                        TITLE_REMOVE_MEMBER_FROM_GROUP@,
                        args.description@,
                        args.action_member,
                    ) && input.payload == (ProposalPayload {
                        group_to_remove: Some(args.group_name),
                        ..empty_payload()
                    }),
                proposal_id,
                caller,
                now,
            ),
    {
        let threshold = self.guard_check_proposal_creation(
            &args.proposal_entry,
            ProposalType::RemoveMemberToGroupProposal,
            caller,
        )?;
        match group_membership(self, &args.group_name, args.action_member) {
            None => {
                return Err(DaoError::GroupNotFound);
            },
            Some(false) => {
                return Err(DaoError::MemberNotInGroup);
            },
            Some(true) => {},
        }
        let mut payload = ProposalPayload::empty();
        payload.group_to_remove = Some(args.group_name);
        let input = ProposalInput {
            proposal_title: String::from_str(TITLE_REMOVE_MEMBER_FROM_GROUP),
            proposal_description: args.description,
            proposal_type: ProposalType::RemoveMemberToGroupProposal,
            principal_of_action: Some(args.action_member),
            proposal_expired_at: None,
            required_votes: None,
            minimum_threadsold: threshold,
            poll_options: Vec::new(),
            payload,
        };
        let ghost shaped = input;
        let ghost before = *self;
        let ghost id = proposal_id;
        let r = self.create_proposal_controller(input, proposal_id, caller, now);
        assert(submitted(before, *self, r, shaped, id, caller, now));
        r
    }

    /// Submits a proposal to remove `args.action_member` from the council.
    pub fn proposal_to_remove_member_to_dao(
        &mut self,
        caller: Principal,
        args: RemoveDaoMemberArgs,
        proposal_id: String,
        now: u64,
    ) -> (r: Result<u64, DaoError>)
        requires
            old(self).wf(),
        ensures
            final(self).wf(),
            proposals_evolve(old(self).proposals@, final(self).proposals@),
            request_outcome(
                *old(self),
                *final(self),
                r,
                remove_member_to_dao_refusal(*old(self), args, caller),
                |input: ProposalInput|
                    request_fields(
                        input,
                        *old(self),
                        args.proposal_entry@,
                        ProposalType::RemoveMemberToDaoProposal,
                        TITLE_REMOVE_MEMBER@,
                        args.description@,
                        args.action_member,
                    ) && input.payload == (empty_payload()),
                proposal_id,
                caller,
                now,
            ),
    {
        let threshold = self.guard_check_proposal_creation(
            &args.proposal_entry,
            ProposalType::RemoveMemberToDaoProposal,
            caller,
        )?;
        if !contains_principal(&self.dao.members, &args.action_member) {
            return Err(DaoError::MemberNotInDao);
        }
        let payload = ProposalPayload::empty();
        let input = ProposalInput {
            proposal_title: String::from_str(TITLE_REMOVE_MEMBER),
            proposal_description: args.description,
            proposal_type: ProposalType::RemoveMemberToDaoProposal,
            principal_of_action: Some(args.action_member),
            proposal_expired_at: None,
            required_votes: None,
            minimum_threadsold: threshold,
            poll_options: Vec::new(),
            payload,
        };
        let ghost shaped = input;
        let ghost before = *self;
        let ghost id = proposal_id;
        let r = self.create_proposal_controller(input, proposal_id, caller, now);
        assert(submitted(before, *self, r, shaped, id, caller, now));
        r
    }

    /// Submits a proposal to rename the instance and change its purpose.
    pub fn proposal_to_change_dao_config(
        &mut self,
        caller: Principal,
        args: ChangeDaoConfigArg,
        proposal_id: String,
        now: u64,
    ) -> (r: Result<u64, DaoError>)
        requires
            old(self).wf(),
        ensures
            final(self).wf(),
            proposals_evolve(old(self).proposals@, final(self).proposals@),
            request_outcome(
                *old(self),
                *final(self),
                r,
                creation_refusal(*old(self), args.proposal_entry@, ProposalType::ChangeDaoConfig, caller),
                |input: ProposalInput|
                    request_fields(
                        input,
                        *old(self),
                        args.proposal_entry@,
                        ProposalType::ChangeDaoConfig,
                        TITLE_CHANGE_DAO_CONFIG@,
                        args.description@,
                        caller,
                    ) && input.payload == (ProposalPayload {
                        new_dao_name: Some(args.new_dao_name),
                        new_dao_purpose: Some(args.purpose),
                        ..empty_payload()
                    }),
                proposal_id,
                caller,
                now,
            ),
    {
        let threshold = self.guard_check_proposal_creation(
            &args.proposal_entry,
            ProposalType::ChangeDaoConfig,
            caller,
        )?;
        let mut payload = ProposalPayload::empty();
        payload.new_dao_name = Some(args.new_dao_name);
        payload.new_dao_purpose = Some(args.purpose);
        let input = ProposalInput {
            proposal_title: String::from_str(TITLE_CHANGE_DAO_CONFIG),
            proposal_description: args.description,
            proposal_type: ProposalType::ChangeDaoConfig,
            principal_of_action: Some(caller),
            proposal_expired_at: None,
            required_votes: None,
            minimum_threadsold: threshold,
            poll_options: Vec::new(),
            payload,
        };
        let ghost shaped = input;
        let ghost before = *self;
        let ghost id = proposal_id;
        let r = self.create_proposal_controller(input, proposal_id, caller, now);
        assert(submitted(before, *self, r, shaped, id, caller, now));
        r
    }

    /// Submits a proposal to change the cool-down period, the required vote
    /// count and the open-join flag.
    pub fn proposal_to_change_dao_policy(
        &mut self,
        caller: Principal,
        args: ChangeDaoPolicy,
        proposal_id: String,
        now: u64,
    ) -> (r: Result<u64, DaoError>)
        requires
            old(self).wf(),
        ensures
            final(self).wf(),
            proposals_evolve(old(self).proposals@, final(self).proposals@),
            request_outcome(
                *old(self),
                *final(self),
                r,
                creation_refusal(*old(self), args.proposal_entry@, ProposalType::ChangeDaoPolicy, caller),
                |input: ProposalInput|
                    request_fields(
                        input,
                        *old(self),
                        args.proposal_entry@,
                        ProposalType::ChangeDaoPolicy,
                        TITLE_CHANGE_DAO_POLICY@,
                        args.description@,
                        caller,
                    ) && input.payload == (ProposalPayload {
                        cool_down_period: Some(args.cool_down_period),
                        new_required_votes: Some(args.required_votes),
                        ask_to_join_dao: Some(args.ask_to_join_dao),
                        ..empty_payload()
                    }),
                proposal_id,
                caller,
                now,
            ),
    {
        let threshold = self.guard_check_proposal_creation(
            &args.proposal_entry,
            ProposalType::ChangeDaoPolicy,
            caller,
        )?;
        let mut payload = ProposalPayload::empty();
        payload.cool_down_period = Some(args.cool_down_period);
        payload.new_required_votes = Some(args.required_votes);
        payload.ask_to_join_dao = Some(args.ask_to_join_dao);
        let input = ProposalInput {
            proposal_title: String::from_str(TITLE_CHANGE_DAO_POLICY),
            proposal_description: args.description,
            proposal_type: ProposalType::ChangeDaoPolicy,
            principal_of_action: Some(caller),
            proposal_expired_at: None,
            required_votes: None,
            minimum_threadsold: threshold,
            poll_options: Vec::new(),
            payload,
        };
        let ghost shaped = input;
        let ghost before = *self;
        let ghost id = proposal_id;
        let r = self.create_proposal_controller(input, proposal_id, caller, now);
        assert(submitted(before, *self, r, shaped, id, caller, now));
        r
    }

    /// Submits a proposal to transfer `args.tokens` from the instance, whose
    /// identity is `dao_id`, to `args.to`.
    pub fn proposal_to_transfer_token(
        &mut self,
        caller: Principal,
        args: TokenTransferPolicy,
        dao_id: Principal,
        proposal_id: String,
        now: u64,
    ) -> (r: Result<u64, DaoError>)
        requires
            old(self).wf(),
        ensures
            final(self).wf(),
            proposals_evolve(old(self).proposals@, final(self).proposals@),
            request_outcome(
                *old(self),
                *final(self),
                r,
                transfer_token_refusal(*old(self), args, caller),
                |input: ProposalInput|
                    request_fields(
                        input,
                        *old(self),
                        args.proposal_entry@,
                        ProposalType::TokenTransfer,
                        TITLE_TOKEN_TRANSFER_POLICY@,
                        args.description@,
                        caller,
                    ) && input.payload == (ProposalPayload {
                        tokens: Some(args.tokens),
                        token_from: Some(dao_id),
                        token_to: Some(args.to),
                        ..empty_payload()
                    }),
                proposal_id,
                caller,
                now,
            ),
    {
        let threshold = self.guard_check_proposal_creation(
            &args.proposal_entry,
            ProposalType::TokenTransfer,
            caller,
        )?;
        if crate::identity::same_principal(&caller, &args.to) {
            return Err(DaoError::SelfTransfer);
        }
        let mut payload = ProposalPayload::empty();
        payload.tokens = Some(args.tokens);
        payload.token_from = Some(dao_id);
        payload.token_to = Some(args.to);
        let input = ProposalInput {
            proposal_title: String::from_str(TITLE_TOKEN_TRANSFER_POLICY),
            proposal_description: args.description,
            proposal_type: ProposalType::TokenTransfer,
            principal_of_action: Some(caller),
            proposal_expired_at: None,
            required_votes: None,
            minimum_threadsold: threshold,
            poll_options: Vec::new(),
            payload,
        };
        let ghost shaped = input;
        let ghost before = *self;
        let ghost id = proposal_id;
        let r = self.create_proposal_controller(input, proposal_id, caller, now);
        assert(submitted(before, *self, r, shaped, id, caller, now));
        r
    }

    /// Submits a proposal to open a bounty of `args.tokens`, paid by the
    /// instance, whose identity is `dao_id`, to the caller; `dao_balance` is
    /// what the instance holds on its ledger.
    pub fn proposal_to_bounty_raised(
        &mut self,
        caller: Principal,
        args: BountyRaised,
        dao_id: Principal,
        dao_balance: u128,
        proposal_id: String,
        now: u64,
    ) -> (r: Result<u64, DaoError>)
        requires
            old(self).wf(),
        ensures
            final(self).wf(),
            proposals_evolve(old(self).proposals@, final(self).proposals@),
            request_outcome(
                *old(self),
                *final(self),
                r,
                bounty_raised_refusal(*old(self), args, caller, dao_balance),
                |input: ProposalInput|
                    request_fields(
                        input,
                        *old(self),
                        args.proposal_entry@,
                        ProposalType::BountyRaised,
                        TITLE_BOUNTY_RAISED@,
                        args.description@,
                        caller,
                    ) && input.payload == (ProposalPayload {
                        tokens: Some(args.tokens),
                        token_from: Some(dao_id),
                        token_to: Some(caller),
                        bounty_task: Some(args.bounty_task),
                        ..empty_payload()
                    }),
                proposal_id,
                caller,
                now,
            ),
    {
        if args.tokens < 1 {
            return Err(DaoError::NonPositiveAmount);
        }
        let threshold = self.guard_check_proposal_creation(
            &args.proposal_entry,
            ProposalType::BountyRaised,
            caller,
        )?;
        if dao_balance < args.tokens as u128 {
            return Err(DaoError::InsufficientBalance);
        }
        let mut payload = ProposalPayload::empty();
        payload.tokens = Some(args.tokens);
        payload.token_from = Some(dao_id);
        payload.token_to = Some(caller);
        payload.bounty_task = Some(args.bounty_task);
        let input = ProposalInput {
            proposal_title: String::from_str(TITLE_BOUNTY_RAISED),
            proposal_description: args.description,
            proposal_type: ProposalType::BountyRaised,
            principal_of_action: Some(caller),
            proposal_expired_at: None,
            required_votes: None,
            minimum_threadsold: threshold,
            poll_options: Vec::new(),
            payload,
        };
        let ghost shaped = input;
        let ghost before = *self;
        let ghost id = proposal_id;
        let r = self.create_proposal_controller(input, proposal_id, caller, now);
        assert(submitted(before, *self, r, shaped, id, caller, now));
        r
    }

    /// Submits a proposal whose only outcome is its vote.
    pub fn proposal_to_create_general_purpose(
        &mut self,
        caller: Principal,
        args: CreateGeneralPurpose,
        proposal_id: String,
        now: u64,
    ) -> (r: Result<u64, DaoError>)
        requires
            old(self).wf(),
        ensures
            final(self).wf(),
            proposals_evolve(old(self).proposals@, final(self).proposals@),
            request_outcome(
                *old(self),
                *final(self),
                r,
                creation_refusal(*old(self), args.proposal_entry@, ProposalType::GeneralPurpose, caller),
                |input: ProposalInput|
                    request_fields(
                        input,
                        *old(self),
                        args.proposal_entry@,
                        ProposalType::GeneralPurpose,
                        TITLE_CREATE_GENERAL_PURPOSE@,
                        args.description@,
                        caller,
                    ) && input.payload == (empty_payload()),
                proposal_id,
                caller,
                now,
            ),
    {
        let threshold = self.guard_check_proposal_creation(
            &args.proposal_entry,
            ProposalType::GeneralPurpose,
            caller,
        )?;
        let payload = ProposalPayload::empty();
        let input = ProposalInput {
            proposal_title: String::from_str(TITLE_CREATE_GENERAL_PURPOSE),
            proposal_description: args.description,
            proposal_type: ProposalType::GeneralPurpose,
            principal_of_action: Some(caller),
            proposal_expired_at: None,
            required_votes: None,
            minimum_threadsold: threshold,
            poll_options: Vec::new(),
            payload,
        };
        let ghost shaped = input;
        let ghost before = *self;
        let ghost id = proposal_id;
        let r = self.create_proposal_controller(input, proposal_id, caller, now);
        assert(submitted(before, *self, r, shaped, id, caller, now));
        r
    }

    /// Submits a proposal to replace the permission set of a group.
    pub fn api_to_update_permission_groups(
        &mut self,
        caller: Principal,
        args: UpdatePermissionPayload,
        proposal_id: String,
        now: u64,
    ) -> (r: Result<u64, DaoError>)
        requires
            old(self).wf(),
        ensures
            final(self).wf(),
            proposals_evolve(old(self).proposals@, final(self).proposals@),
            request_outcome(
                *old(self),
                *final(self),
                r,
                creation_refusal(*old(self), args.proposal_entry@, ProposalType::ChangeGroupPermissions, caller),
                |input: ProposalInput|
                    request_fields(
                        input,
                        *old(self),
                        args.proposal_entry@,
                        ProposalType::ChangeGroupPermissions,
                        TITLE_CREATE_CHANGE_GROUP_PERMISSION@,
                        args.description@,
                        caller,
                    ) && input.payload == (ProposalPayload {
                        updated_group_permissions: Some(args.updated_permissions),
                        ..empty_payload()
                    }),
                proposal_id,
                caller,
                now,
            ),
    {
        let threshold = self.guard_check_proposal_creation(
            &args.proposal_entry,
            ProposalType::ChangeGroupPermissions,
            caller,
        )?;
        let mut payload = ProposalPayload::empty();
        payload.updated_group_permissions = Some(args.updated_permissions);
        let input = ProposalInput {
            proposal_title: String::from_str(TITLE_CREATE_CHANGE_GROUP_PERMISSION),
            proposal_description: args.description,
            proposal_type: ProposalType::ChangeGroupPermissions,
            principal_of_action: Some(caller),
            proposal_expired_at: None,
            required_votes: None,
            minimum_threadsold: threshold,
            poll_options: Vec::new(),
            payload,
        };
        let ghost shaped = input;
        let ghost before = *self;
        let ghost id = proposal_id;
        let r = self.create_proposal_controller(input, proposal_id, caller, now);
        assert(submitted(before, *self, r, shaped, id, caller, now));
        r
    }

    /// Submits a proposal to mint `args.total_amount` new tokens.
    pub fn proposal_to_mint_new_dao_tokens(
        &mut self,
        caller: Principal,
        args: MintTokenArgs,
        proposal_id: String,
        now: u64,
    ) -> (r: Result<u64, DaoError>)
        requires
            old(self).wf(),
        ensures
            final(self).wf(),
            proposals_evolve(old(self).proposals@, final(self).proposals@),
            request_outcome(
                *old(self),
                *final(self),
                r,
                mint_refusal(*old(self), args, caller),
                |input: ProposalInput|
                    request_fields(
                        input,
                        *old(self),
                        args.proposal_entry@,
                        ProposalType::MintNewTokens,
                        TITLE_MINT_NEW_TOKENS@,
                        args.description@,
                        caller,
                    ) && input.payload == (ProposalPayload { tokens: Some(args.total_amount), ..empty_payload() }),
                proposal_id,
                caller,
                now,
            ),
    {
        if args.total_amount < 1 {
            return Err(DaoError::NonPositiveAmount);
        }
        let threshold = self.guard_check_proposal_creation(
            &args.proposal_entry,
            ProposalType::MintNewTokens,
            caller,
        )?;
        let mut payload = ProposalPayload::empty();
        payload.tokens = Some(args.total_amount);
        let input = ProposalInput {
            proposal_title: String::from_str(TITLE_MINT_NEW_TOKENS),
            proposal_description: args.description,
            proposal_type: ProposalType::MintNewTokens,
            principal_of_action: Some(caller),
            proposal_expired_at: None,
            required_votes: None,
            minimum_threadsold: threshold,
            poll_options: Vec::new(),
            payload,
        };
        let ghost shaped = input;
        let ghost before = *self;
        let ghost id = proposal_id;
        let r = self.create_proposal_controller(input, proposal_id, caller, now);
        assert(submitted(before, *self, r, shaped, id, caller, now));
        r
    }

    /// Submits a proposal to pay `args.tokens` from the instance, whose
    /// identity is `dao_id`, for the accepted bounty
    /// `args.associated_proposal_id` that the caller raised; `dao_balance` is
    /// what the instance holds on its ledger.
    pub fn proposal_to_bounty_done(
        &mut self,
        caller: Principal,
        args: BountyDone,
        dao_id: Principal,
        dao_balance: u128,
        proposal_id: String,
        now: u64,
    ) -> (r: Result<u64, DaoError>)
        requires
            old(self).wf(),
        ensures
            final(self).wf(),
            proposals_evolve(old(self).proposals@, final(self).proposals@),
            request_outcome(
                *old(self),
                *final(self),
                r,
                bounty_done_refusal(*old(self), args, caller, dao_balance),
                |input: ProposalInput|
                    request_fields(
                        input,
                        *old(self),
                        args.proposal_entry@,
                        ProposalType::BountyDone,
                        TITLE_BOUNTY_DONE@,
                        args.description@,
                        caller,
                    ) && input.payload == (ProposalPayload {
                        tokens: Some(args.tokens),
                        token_from: Some(dao_id),
                        token_to: proposal_by_id(
                            *old(self),
                            args.associated_proposal_id@,
                        ).payload.token_to,
                        bounty_task: proposal_by_id(
                            *old(self),
                            args.associated_proposal_id@,
                        ).payload.bounty_task,
                        associated_proposal_id: Some(args.associated_proposal_id),
                        ..empty_payload()
                    }),
                proposal_id,
                caller,
                now,
            ),
    {
        let threshold = self.guard_check_proposal_creation(
            &args.proposal_entry,
            ProposalType::BountyRaised,
            caller,
        )?;
        if dao_balance < args.tokens as u128 {
            return Err(DaoError::InsufficientBalance);
        }
        let b = match self.find_proposal(&args.associated_proposal_id) {
            Some(b) => b,
            None => {
                return Err(DaoError::ProposalNotFound);
            },
        };
        proof {
            let c = choose|i: int|
                0 <= i < self.proposals@.len() && #[trigger] self.proposals@[i].proposal_id@
                    == args.associated_proposal_id@;
            assert(crate::state::ids_distinct(self.proposals@));
            assert(c == b);
        }
        let bounty = &self.proposals[b];
        if bounty.proposal_type != ProposalType::BountyRaised {
            return Err(DaoError::NotBountyRaised);
        }
        if bounty.proposal_status != crate::types::ProposalState::Accepted {
            return Err(DaoError::BountyNotAccepted);
        }
        if !crate::identity::same_principal(&bounty.created_by, &caller) {
            return Err(DaoError::NotBountyOwner);
        }
        let token_to = bounty.payload.token_to;
        let bounty_task = copy_text(&bounty.payload.bounty_task);
        let mut payload = ProposalPayload::empty();
        payload.tokens = Some(args.tokens);
        payload.token_from = Some(dao_id);
        payload.token_to = token_to;
        payload.bounty_task = bounty_task;
        payload.associated_proposal_id = Some(args.associated_proposal_id);
        let input = ProposalInput {
            proposal_title: String::from_str(TITLE_BOUNTY_DONE),
            proposal_description: args.description,
            proposal_type: ProposalType::BountyDone,
            principal_of_action: Some(caller),
            proposal_expired_at: None,
            required_votes: None,
            minimum_threadsold: threshold,
            poll_options: Vec::new(),
            payload,
        };
        let ghost shaped = input;
        let ghost before = *self;
        let ghost id = proposal_id;
        let r = self.create_proposal_controller(input, proposal_id, caller, now);
        assert(submitted(before, *self, r, shaped, id, caller, now));
        r
    }

    /// Submits a poll whose options take their identifiers from `base`, the
    /// text of a fresh random identifier.
    pub fn proposal_to_create_poll(
        &mut self,
        caller: Principal,
        args: CreatePoll,
        base: String,
        proposal_id: String,
        now: u64,
    ) -> (r: Result<u64, DaoError>)
        requires
            old(self).wf(),
        ensures
            final(self).wf(),
            proposals_evolve(old(self).proposals@, final(self).proposals@),
            request_outcome(
                *old(self),
                *final(self),
                r,
                creation_refusal(*old(self), args.proposal_entry@, ProposalType::Polls, caller),
                |input: ProposalInput| poll_input(input, *old(self), args, caller, base@, now),
                proposal_id,
                caller,
                now,
            ),
    {
        let threshold = self.guard_check_proposal_creation(
            &args.proposal_entry,
            ProposalType::Polls,
            caller,
        )?;
        let expires = add_days(now, args.proposal_expired_at);
        let options = build_poll_options(&base, &args.poll_options);
        let mut payload = ProposalPayload::empty();
        payload.poll_query = Some(args.poll_query);
        let input = ProposalInput {
            proposal_title: String::from_str(TITLE_CREATE_POLL),
            proposal_description: args.description,
            proposal_type: ProposalType::Polls,
            principal_of_action: Some(caller),
            proposal_expired_at: Some(expires),
            required_votes: None,
            minimum_threadsold: threshold,
            poll_options: options,
            payload,
        };
        let ghost shaped = input;
        let ghost before = *self;
        let ghost id = proposal_id;
        let r = self.create_proposal_controller(input, proposal_id, caller, now);
        assert(submitted(before, *self, r, shaped, id, caller, now));
        r
    }

    /// Refuses when a proposal of kind `proposal_type` about
    /// `action_principal` exists already.
    pub fn guard_check_if_proposal_exists(
        &self,
        action_principal: Principal,
        proposal_type: ProposalType,
    ) -> (r: Result<(), DaoError>)
        ensures
            proposal_about_exists(*self, action_principal, proposal_type) ==> r == Err::<
                (),
                DaoError,
            >(DaoError::ProposalExists),
            !proposal_about_exists(*self, action_principal, proposal_type) ==> r is Ok,
    {
        let mut i: usize = 0;
        while i < self.proposals.len()
            invariant
                i <= self.proposals@.len(),
                forall|j: int|
                    0 <= j < i ==> !(#[trigger] self.proposals@[j].proposal_type == proposal_type
                        && self.proposals@[j].principal_of_action == action_principal),
            decreases self.proposals@.len() - i,
        {
            if self.proposals[i].proposal_type == proposal_type && crate::identity::same_principal(
                &self.proposals[i].principal_of_action,
                &action_principal,
            ) {
                return Err(DaoError::ProposalExists);
            }
            i += 1;
        }
        Ok(())
    }

    /// Handles the request of `caller` to join through `args.place_to_join`.
    /// Where the instance admits anyone, the caller joins that group at once;
    /// otherwise a proposal to admit the caller is submitted and the caller
    /// waits among the requesters.
    pub fn ask_to_join_dao(
        &mut self,
        caller: Principal,
        args: JoinDao,
        proposal_id: String,
        now: u64,
    ) -> (r: Result<JoinOutcome, DaoError>)
        requires
            old(self).wf(),
        ensures
            final(self).wf(),
            proposals_evolve(old(self).proposals@, final(self).proposals@),
            match join_refusal(*old(self), args, caller) {
                Some(e) => r == Err::<JoinOutcome, DaoError>(e) && *final(self) == *old(self),
                None => if !old(self).dao.ask_to_join_dao {
                    &&& r == Ok::<JoinOutcome, DaoError>(
                        JoinOutcome::Joined(Outbound::MemberJoined { member: caller }),
                    )
                    &&& final(self).proposals == old(self).proposals
                    &&& group_member_added(
                        old(self).dao_groups@,
                        final(self).dao_groups@,
                        args.place_to_join@,
                        caller,
                    )
                    &&& final(self).dao.all_dao_user@ == old(self).dao.all_dao_user@.push(caller)
                    &&& final(self).dao == (DaoDetails {
                        all_dao_user: final(self).dao.all_dao_user,
                        ..old(self).dao
                    })
                } else if has_proposal(old(self).proposals@, proposal_id@) {
                    r == Err::<JoinOutcome, DaoError>(DaoError::DuplicateProposalId) && *final(self)
                        == *old(self)
                } else {
                    exists|input: ProposalInput, mid: State|
                        join_input(input, *old(self), args, caller) && #[trigger] crate::submit::created(
                            *old(self),
                            mid,
                            input,
                            proposal_id,
                            caller,
                            now,
                        ) && final(self).proposals == mid.proposals && final(self).dao_groups
                            == mid.dao_groups && final(self).dao.requested_dao_user@
                            == mid.dao.requested_dao_user@.push(caller) && final(self).dao == (
                        DaoDetails {
                            requested_dao_user: final(self).dao.requested_dao_user,
                            ..mid.dao
                        }) && r == Ok::<JoinOutcome, DaoError>(
                            JoinOutcome::Requested(
                                crate::submit::delay_until(
                                    crate::submit::expiry_for(
                                        None,
                                        now,
                                        old(self).dao.cool_down_period,
                                    ),
                                    now,
                                ),
                            ),
                        )
                },
            },
    {
        self.guard_check_if_proposal_exists(caller, ProposalType::AddMemberToGroupProposal)?;
        if contains_principal(&self.dao.all_dao_user, &caller) {
            return Err(DaoError::AlreadyInDao);
        }
        let ghost before = *self;
        if !self.dao.ask_to_join_dao {
            let g = match self.find_group(&args.place_to_join) {
                Some(g) => g,
                None => {
                    return Err(DaoError::GroupNotFound);
                },
            };
            proof {
                assert(crate::state::groups_distinct(self.dao_groups@));
            }
            self.dao.all_dao_user.push(caller);
            insert_principal(&mut self.dao_groups[g].group_members, caller);
            assert forall|j: int| 0 <= j < before.dao_groups@.len() && j != g implies #[trigger] self.dao_groups@[j]
                == before.dao_groups@[j] by {}
            return Ok(JoinOutcome::Joined(Outbound::MemberJoined { member: caller }));
        }
        let place = match self.find_place(&args.place_to_join) {
            Some(i) => i,
            None => {
                return Err(DaoError::PlaceNotFound);
            },
        };
        let threshold = self.dao.proposal_entry[place].min_required_thredshold;
        let mut payload = ProposalPayload::empty();
        payload.group_to_join = Some(args.place_to_join);
        let input = ProposalInput {
            proposal_title: String::from_str(TITLE_ADD_MEMBER),
            proposal_description: String::from_str(REQUEST_JOIN_DAO),
            proposal_type: ProposalType::AddMemberToGroupProposal,
            principal_of_action: Some(caller),
            proposal_expired_at: None,
            required_votes: None,
            minimum_threadsold: threshold,
            poll_options: Vec::new(),
            payload,
        };
        let ghost shaped = input;
        let ghost id = proposal_id;
        assert(join_input(shaped, before, args, caller));
        match self.create_proposal_controller(input, proposal_id, caller, now) {
            Ok(delay) => {
                let ghost mid = *self;
                self.dao.requested_dao_user.push(caller);
                assert(crate::submit::created(before, mid, shaped, id, caller, now));
                Ok(JoinOutcome::Requested(delay))
            },
            Err(e) => Err(e),
        }
    }
}

} // verus!
