use vstd::prelude::*;

verus! {

/// Why a request was refused. A refused request leaves the state unchanged.
#[derive(PartialEq, Eq, Structural, Clone, Copy, Debug)]
pub enum DaoError {
    /// No place of submission has the given name.
    PlaceNotFound,
    /// No group has the given name.
    GroupNotFound,
    /// The caller is not in the group that the place names.
    NotGroupMember,
    /// The group may not submit proposals of this kind.
    NoGroupPermission,
    /// The caller is not on the council roster.
    NotMember,
    /// Council members may not submit proposals of this kind.
    NoMemberPermission,
    /// The identity is already in the group.
    MemberAlreadyInGroup,
    /// The identity is not in the group.
    MemberNotInGroup,
    /// The identity is already on the council roster.
    MemberAlreadyInDao,
    /// The identity is not on the council roster.
    MemberNotInDao,
    /// A transfer to the caller itself.
    SelfTransfer,
    /// An amount of zero tokens.
    NonPositiveAmount,
    /// The instance holds fewer tokens than asked for.
    InsufficientBalance,
    /// No proposal has the given identifier.
    ProposalNotFound,
    /// The referenced proposal does not raise a bounty.
    NotBountyRaised,
    /// The referenced bounty has not been accepted.
    BountyNotAccepted,
    /// The referenced bounty was raised by someone else.
    NotBountyOwner,
    /// A proposal with the same identifier exists already.
    DuplicateProposalId,
    /// The caller already belongs to the instance.
    AlreadyInDao,
    /// A request of the same kind about the same identity is pending.
    ProposalExists,
    /// Only identities that belong to the instance may vote.
    NotDaoUser,
    /// The voter created the proposal, is its subject, or would receive its tokens.
    SelfVote,
    /// The proposal is no longer open.
    NotOpen,
    /// The proposal has all the votes it requires.
    VoteCapReached,
    /// The voter has voted on this proposal already.
    AlreadyVoted,
    /// The proposal is not of the kind this vote is for.
    WrongProposalType,
    /// The poll has no option with the given identifier.
    OptionNotFound,
    /// Two places or two groups share a name.
    DuplicateName,
    /// The council or a group lists an identity twice.
    DuplicateMember,
    /// Only the factory may do this.
    NotAllowed,
}

} // verus!
