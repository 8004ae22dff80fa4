use candid::Principal;
use vstd::prelude::*;

verus! {

/// Lifecycle of a proposal.
///
/// `Open` is the only non-terminal state. `Succeeded` is reached only from
/// `Accepted`, once the work that the proposal asked for is done.
#[derive(PartialEq, Eq, Structural, Clone, Copy, Debug)]
pub enum ProposalState {
    Open,
    Accepted,
    Rejected,
    Executing,
    Succeeded,
    Expired,
    Unreachable,
}

/// The closed set of proposal kinds; each kind has its own effect once accepted.
#[derive(PartialEq, Eq, Structural, Clone, Copy, Debug)]
pub enum ProposalType {
    AddMemberToDaoProposal,
    AddMemberToGroupProposal,
    RemoveMemberToDaoProposal,
    RemoveMemberToGroupProposal,
    ChangeDaoConfig,
    ChangeDaoPolicy,
    ChangeGroupPermissions,
    TokenTransfer,
    BountyRaised,
    BountyDone,
    MintNewTokens,
    Polls,
    GeneralPurpose,
}

/// A ballot on an ordinary proposal.
#[derive(PartialEq, Eq, Structural, Clone, Copy, Debug)]
pub enum VoteParam {
    Yes,
    No,
}

/// A named place from which proposals may be submitted, with the approval
/// percentage that proposals submitted there must reach.
#[derive(Clone, Debug)]
pub struct ProposalPlace {
    pub place_name: String,
    pub min_required_thredshold: u64,
}

/// A named sub-group of the instance: its members, the proposal kinds they may
/// submit, and a quorum hint.
#[derive(Clone, Debug)]
pub struct DaoGroup {
    pub group_name: String,
    pub group_members: Vec<Principal>,
    pub group_permissions: Vec<ProposalType>,
    pub quorum_atleast: u64,
}

/// A replacement permission set for a named group.
#[derive(Clone, Debug)]
pub struct UpdateGroupPermission {
    pub group_name: String,
    pub updated_permissions: Vec<ProposalType>,
}

/// One option of a poll, with the identities that chose it.
#[derive(Clone, Debug)]
pub struct PollOptions {
    pub option: String,
    pub id: String,
    pub poll_approved_votes: u64,
    pub approved_users: Vec<Principal>,
}

/// Request to add `new_member` to the group `group_name`.
#[derive(Clone, Debug)]
pub struct AddMemberArgs {
    pub group_name: String,
    pub new_member: Principal,
    pub description: String,
    pub proposal_entry: String,
}

/// Request to add `new_member` to the instance's roster.
#[derive(Clone, Debug)]
pub struct AddMemberToDaoArgs {
    pub new_member: Principal,
    pub description: String,
    pub proposal_entry: String,
}

/// Request to remove `action_member` from the group `group_name`.
#[derive(Clone, Debug)]
pub struct RemoveMemberArgs {
    pub group_name: String,
    pub action_member: Principal,
    pub description: String,
    pub proposal_entry: String,
}

/// Request to remove `action_member` from the instance's roster.
#[derive(Clone, Debug)]
pub struct RemoveDaoMemberArgs {
    pub action_member: Principal,
    pub description: String,
    pub proposal_entry: String,
}

/// Request to change the instance's name and purpose.
#[derive(Clone, Debug)]
pub struct ChangeDaoConfigArg {
    pub new_dao_name: String,
    pub purpose: String,
    pub description: String,
    pub proposal_entry: String,
}

/// Request to change the instance's policy.
#[derive(Clone, Debug)]
pub struct ChangeDaoPolicy {
    pub cool_down_period: u32,
    pub required_votes: u32,
    pub ask_to_join_dao: bool,
    pub description: String,
    pub proposal_entry: String,
}

/// Request to transfer `tokens` from the instance to `to`.
#[derive(Clone, Debug)]
pub struct TokenTransferPolicy {
    pub description: String,
    pub tokens: u64,
    pub to: Principal,
    pub proposal_entry: String,
}

/// Request to open a bounty worth `tokens`.
#[derive(Clone, Debug)]
pub struct BountyRaised {
    pub description: String,
    pub bounty_task: String,
    pub proposal_entry: String,
    pub tokens: u64,
}

/// Request to pay out the bounty opened by `associated_proposal_id`.
#[derive(Clone, Debug)]
pub struct BountyDone {
    pub description: String,
    pub tokens: u64,
    pub proposal_entry: String,
    pub associated_proposal_id: String,
}

/// Request to open a poll; `proposal_expired_at` counts days.
#[derive(Clone, Debug)]
pub struct CreatePoll {
    pub description: String,
    pub poll_options: Vec<String>,
    pub proposal_expired_at: u64,
    pub proposal_entry: String,
    pub poll_query: String,
}

/// Request for a proposal with no effect beyond its vote.
#[derive(Clone, Debug)]
pub struct CreateGeneralPurpose {
    pub proposal_title: String,
    pub description: String,
    pub proposal_entry: String,
}

/// Request to replace a group's permission set.
#[derive(Clone, Debug)]
pub struct UpdatePermissionPayload {
    pub updated_permissions: UpdateGroupPermission,
    pub description: String,
    pub proposal_entry: String,
}

/// Request to mint `total_amount` new tokens.
#[derive(Clone, Debug)]
pub struct MintTokenArgs {
    pub total_amount: u64,
    pub description: String,
    pub proposal_entry: String,
}

/// Request of the caller to join through the place `place_to_join`.
#[derive(Clone, Debug)]
pub struct JoinDao {
    pub place_to_join: String,
}

/// Whether an upgrade skips the pre-upgrade hook of the old program.
#[derive(PartialEq, Eq, Structural, Clone, Copy, Debug)]
pub struct SkipPreUpgrade(pub Option<bool>);

/// How a program is put into an instance.
#[derive(PartialEq, Eq, Structural, Clone, Copy, Debug)]
pub enum CanisterInstallMode {
    /// A fresh install into an empty instance.
    Install,
    /// Replace the program and its state.
    Reinstall,
    /// Replace the program and keep its state.
    Upgrade(Option<SkipPreUpgrade>),
}

/// Optional ledger features.
#[derive(PartialEq, Eq, Structural, Clone, Copy, Debug)]
pub struct FeatureFlags {
    /// Transfers on behalf of an owner who approved them.
    pub icrc2: bool,
}

/// A value transfer on the companion ledger.
#[derive(Clone, Copy, Debug)]
pub struct TokenTransferArgs {
    pub tokens: u64,
    pub from: Principal,
    pub to: Principal,
}

} // verus!
