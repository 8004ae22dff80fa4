use crate::identity::{
    contains_principal, insert_principal, remove_principal, with_member, without_member,
};
use crate::proposal::{ProposalPayload, Proposals};
use crate::state::{DaoDetails, State};
use crate::types::{DaoGroup, ProposalState, ProposalType, TokenTransferArgs, UpdateGroupPermission};
use candid::Principal;
use vstd::prelude::*;

verus! {

/// An outbound call that an accepted proposal asks for. The governance state
/// is already updated when it is handed out; the call itself is made by the
/// runtime, and its failure does not undo the decision.
#[derive(Clone, Copy, Debug)]
pub enum Outbound {
    /// Tell the factory that `member` joined this instance.
    MemberJoined { member: Principal },
    /// Tell the factory that `member` left this instance.
    MemberLeft { member: Principal },
    /// Move tokens on the companion ledger.
    Transfer { ledger: Principal, args: TokenTransferArgs },
    /// Ask the factory to mint `amount` new tokens on the companion ledger.
    Mint { ledger: Principal, amount: u64 },
}

/// `after` is `before` with `m` on the council roster and among the users.
pub open spec fn joined_dao(before: DaoDetails, after: DaoDetails, m: Principal) -> bool {
    &&& after.members@ == with_member(before.members@, m)
    &&& after.all_dao_user@ == with_member(before.all_dao_user@, m)
    &&& after == DaoDetails { members: after.members, all_dao_user: after.all_dao_user, ..before }
}

/// `after` is `before` with `m` off the council roster and off the users.
pub open spec fn left_dao(before: DaoDetails, after: DaoDetails, m: Principal) -> bool {
    &&& after.members@ == without_member(before.members@, m)
    &&& after.all_dao_user@ == without_member(before.all_dao_user@, m)
    &&& after == DaoDetails { members: after.members, all_dao_user: after.all_dao_user, ..before }
}

/// The group named `name` exists and `m` is not in it yet.
pub open spec fn may_join_group(groups: Seq<DaoGroup>, name: Seq<char>, m: Principal) -> bool {
    exists|i: int|
        0 <= i < groups.len() && #[trigger] groups[i].group_name@ == name
            && !groups[i].group_members@.contains(m)
}

/// `after` is `before` where the group named `name`, if any, holds `m`,
/// added last if it was not there, and nothing else changed.
pub open spec fn group_member_added(
    before: Seq<DaoGroup>,
    after: Seq<DaoGroup>,
    name: Seq<char>,
    m: Principal,
) -> bool {
    &&& after.len() == before.len()
    &&& forall|i: int|
        0 <= i < before.len() ==> if before[i].group_name@ == name {
            &&& (#[trigger] after[i]).group_members@ == with_member(before[i].group_members@, m)
            &&& after[i] == DaoGroup { group_members: after[i].group_members, ..before[i] }
        } else {
            after[i] == before[i]
        }
}

/// `after` is `before` where the group named `name`, if any, has lost `m`
/// and nothing else changed.
pub open spec fn group_member_removed(
    before: Seq<DaoGroup>,
    after: Seq<DaoGroup>,
    name: Seq<char>,
    m: Principal,
) -> bool {
    &&& after.len() == before.len()
    &&& forall|i: int|
        0 <= i < before.len() ==> if before[i].group_name@ == name {
            &&& (#[trigger] after[i]).group_members@ == without_member(before[i].group_members@, m)
            &&& after[i] == DaoGroup { group_members: after[i].group_members, ..before[i] }
        } else {
            after[i] == before[i]
        }
}

/// `after` is `before` where the group named `name`, if any, has its
/// permissions replaced by `perms`.
pub open spec fn group_permissions_changed(
    before: Seq<DaoGroup>,
    after: Seq<DaoGroup>,
    name: Seq<char>,
    perms: Seq<ProposalType>,
) -> bool {
    &&& after.len() == before.len()
    &&& forall|i: int|
        0 <= i < before.len() ==> if before[i].group_name@ == name {
            &&& (#[trigger] after[i]).group_permissions@ == perms
            &&& after[i] == DaoGroup { group_permissions: after[i].group_permissions, ..before[i] }
        } else {
            after[i] == before[i]
        }
}

/// `after` marks as succeeded the accepted proposal, other than the one at
/// `skip`, whose identifier is `target`; all else is kept.
pub open spec fn bounty_marked(
    before: Seq<Proposals>,
    after: Seq<Proposals>,
    skip: int,
    target: Option<String>,
) -> bool {
    &&& after.len() == before.len()
    &&& forall|j: int|
        0 <= j < before.len() && j != skip ==> if target matches Some(t) && before[j].proposal_id@
            == t@ && before[j].proposal_status == ProposalState::Accepted {
            #[trigger] after[j] == Proposals { proposal_status: ProposalState::Succeeded, ..before[j] }
        } else {
            after[j] == before[j]
        }
}

/// The outbound calls that the accepted proposal `p` asks for.
pub open spec fn effect_calls(dao: DaoDetails, p: Proposals) -> Seq<Outbound> {
    let pay = p.payload;
    match p.proposal_type {
        ProposalType::AddMemberToDaoProposal => seq![
            Outbound::MemberJoined { member: p.principal_of_action },
        ],
        ProposalType::RemoveMemberToDaoProposal => seq![
            Outbound::MemberLeft { member: p.principal_of_action },
        ],
        ProposalType::TokenTransfer | ProposalType::BountyRaised | ProposalType::BountyDone => {
            match transfer_call(dao.token_ledger_id, pay) {
                Some(c) => seq![c],
                None => seq![],
            }
        },
        ProposalType::MintNewTokens => match mint_call(dao.token_ledger_id, pay) {
            Some(c) => seq![c],
            None => seq![],
        },
        _ => seq![],
    }
}

/// `dao` with the policy fields that are given overwritten.
pub open spec fn policy_changed(
    dao: DaoDetails,
    cool_down_period: Option<u32>,
    required_votes: Option<u32>,
    ask_to_join_dao: Option<bool>,
) -> DaoDetails {
    DaoDetails {
        cool_down_period: match cool_down_period {
            Some(c) => c,
            None => dao.cool_down_period,
        },
        required_votes: match required_votes {
            Some(c) => c,
            None => dao.required_votes,
        },
        ask_to_join_dao: match ask_to_join_dao {
            Some(c) => c,
            None => dao.ask_to_join_dao,
        },
        ..dao
    }
}

/// What carrying out the effect of the accepted proposal at `idx` does to the
/// instance, by kind.
pub open spec fn effect_on_state(before: State, after: State, idx: int) -> bool {
    let p = before.proposals@[idx];
    let pay = p.payload;
    let who = p.principal_of_action;
    match p.proposal_type {
        ProposalType::AddMemberToDaoProposal => joined_dao(before.dao, after.dao, who)
            && after.dao_groups@ == before.dao_groups@,
        ProposalType::RemoveMemberToDaoProposal => left_dao(before.dao, after.dao, who)
            && after.dao_groups@ == before.dao_groups@,
        ProposalType::AddMemberToGroupProposal => match pay.group_to_join {
            Some(g) => if may_join_group(before.dao_groups@, g@, who) {
                &&& group_member_added(before.dao_groups@, after.dao_groups@, g@, who)
                &&& after.dao.all_dao_user@ == with_member(before.dao.all_dao_user@, who)
                &&& after.dao.requested_dao_user@ == without_member(
                    before.dao.requested_dao_user@,
                    who,
                )
                &&& after.dao == DaoDetails {
                    all_dao_user: after.dao.all_dao_user,
                    requested_dao_user: after.dao.requested_dao_user,
                    ..before.dao
                }
            } else {
                after.dao == before.dao && after.dao_groups@ == before.dao_groups@
            },
            None => after.dao == before.dao && after.dao_groups@ == before.dao_groups@,
        },
        ProposalType::RemoveMemberToGroupProposal => match pay.group_to_remove {
            Some(g) => if crate::state::has_group(before.dao_groups@, g@) {
                &&& group_member_removed(before.dao_groups@, after.dao_groups@, g@, who)
                &&& after.dao.all_dao_user@ == without_member(before.dao.all_dao_user@, who)
                &&& after.dao == DaoDetails { all_dao_user: after.dao.all_dao_user, ..before.dao }
            } else {
                after.dao == before.dao && after.dao_groups@ == before.dao_groups@
            },
            None => after.dao == before.dao && after.dao_groups@ == before.dao_groups@,
        },
        ProposalType::ChangeGroupPermissions => match pay.updated_group_permissions {
            Some(u) => after.dao == before.dao && group_permissions_changed(
                before.dao_groups@,
                after.dao_groups@,
                u.group_name@,
                u.updated_permissions@,
            ),
            None => after.dao == before.dao && after.dao_groups@ == before.dao_groups@,
        },
        ProposalType::ChangeDaoConfig => {
            &&& after.dao.dao_name@ == (match pay.new_dao_name {
                Some(n) => n@,
                None => before.dao.dao_name@,
            })
            &&& after.dao.purpose@ == (match pay.new_dao_purpose {
                Some(n) => n@,
                None => before.dao.purpose@,
            })
            &&& after.dao == DaoDetails {
                dao_name: after.dao.dao_name,
                purpose: after.dao.purpose,
                ..before.dao
            }
            &&& after.dao_groups@ == before.dao_groups@
        },
        ProposalType::ChangeDaoPolicy => {
            &&& after.dao == policy_changed(
                before.dao,
                pay.cool_down_period,
                pay.new_required_votes,
                pay.ask_to_join_dao,
            )
            &&& after.dao_groups@ == before.dao_groups@
        },
        _ => after.dao == before.dao && after.dao_groups@ == before.dao_groups@,
    }
}

/// The effect of the proposal at `idx` has been carried out on `before`,
/// giving `after` and the outbound calls `out`: the proposal is accepted,
/// decided and marked as applied, a bounty payout marks the bounty it pays as
/// succeeded, and the instance changed as its kind says.
pub open spec fn effects_done(before: State, after: State, idx: int, out: Seq<Outbound>) -> bool {
    let p = before.proposals@[idx];
    &&& after.proposals@.len() == before.proposals@.len()
    &&& after.proposals@[idx] == Proposals {
        proposal_status: ProposalState::Accepted,
        decided: true,
        effects_applied: true,
        ..p
    }
    &&& out == effect_calls(before.dao, p)
    &&& effect_on_state(before, after, idx)
    &&& after.dao.token_ledger_id == before.dao.token_ledger_id
    &&& if p.proposal_type == ProposalType::BountyRaised || p.proposal_type
        == ProposalType::BountyDone {
        bounty_marked(
            before.proposals@,
            after.proposals@,
            idx,
            p.payload.associated_proposal_id,
        )
    } else {
        forall|j: int|
            0 <= j < before.proposals@.len() && j != idx ==> #[trigger] after.proposals@[j]
                == before.proposals@[j]
    }
}

/// A copy of an optional text.
pub(crate) fn copy_text(o: &Option<String>) -> (r: Option<String>)
    ensures
        r == *o,
{
    match o {
        Some(t) => Some(t.clone()),
        None => None,
    }
}

/// A copy of `v`, element by element.
fn copy_kinds(v: &Vec<ProposalType>) -> (r: Vec<ProposalType>)
    ensures
        r@ == v@,
{
    let mut r: Vec<ProposalType> = Vec::new();
    let mut i: usize = 0;
    while i < v.len()
        invariant
            i <= v@.len(),
            r@ == v@.subrange(0, i as int),
        decreases v@.len() - i,
    {
        r.push(v[i]);
        i += 1;
        assert(r@ =~= v@.subrange(0, i as int));
    }
    assert(r@ =~= v@);
    r
}

impl State {
    /// Puts `member` on the council roster and among the users, and asks for
    /// the factory to be told.
    pub fn add_member_to_dao(&mut self, member: Principal) -> (r: Outbound)
        requires
            old(self).wf(),
        ensures
            final(self).wf(),
            joined_dao(old(self).dao, final(self).dao, member),
            final(self).proposals == old(self).proposals,
            final(self).dao_groups == old(self).dao_groups,
            r == (Outbound::MemberJoined { member }),
    {
        insert_principal(&mut self.dao.members, member);
        insert_principal(&mut self.dao.all_dao_user, member);
        Outbound::MemberJoined { member }
    }

    /// Takes `member` off the council roster and off the users, and asks for
    /// the factory to be told.
    pub fn remove_member_from_dao(&mut self, member: Principal) -> (r: Outbound)
        requires
            old(self).wf(),
        ensures
            final(self).wf(),
            left_dao(old(self).dao, final(self).dao, member),
            final(self).proposals == old(self).proposals,
            final(self).dao_groups == old(self).dao_groups,
            r == (Outbound::MemberLeft { member }),
    {
        remove_principal(&mut self.dao.members, member);
        remove_principal(&mut self.dao.all_dao_user, member);
        Outbound::MemberLeft { member }
    }

    /// Adds `member` to the group named `group`, if that group exists and
    /// does not hold it yet; the member then counts among the users and no
    /// longer waits as a requester.
    pub fn add_member_to_group(&mut self, group: &String, member: Principal)
        requires
            old(self).wf(),
        ensures
            final(self).wf(),
            final(self).proposals == old(self).proposals,
            may_join_group(old(self).dao_groups@, group@, member) ==> {
                &&& group_member_added(
                    old(self).dao_groups@,
                    final(self).dao_groups@,
                    group@,
                    member,
                )
                &&& final(self).dao.all_dao_user@ == with_member(
                    old(self).dao.all_dao_user@,
                    member,
                )
                &&& final(self).dao.requested_dao_user@ == without_member(
                    old(self).dao.requested_dao_user@,
                    member,
                )
                &&& final(self).dao == (DaoDetails {
                    all_dao_user: final(self).dao.all_dao_user,
                    requested_dao_user: final(self).dao.requested_dao_user,
                    ..old(self).dao
                })
            },
            !may_join_group(old(self).dao_groups@, group@, member) ==> final(self).dao == old(
                self,
            ).dao && final(self).dao_groups@ == old(self).dao_groups@,
    {
        if let Some(i) = self.find_group(group) {
            if !contains_principal(&self.dao_groups[i].group_members, &member) {
                insert_principal(&mut self.dao.all_dao_user, member);
                remove_principal(&mut self.dao.requested_dao_user, member);
                let ghost before = self.dao_groups@;
                self.dao_groups[i].group_members.push(member);
                assert forall|j: int| 0 <= j < before.len() && j != i implies #[trigger] self.dao_groups@[j] == before[j] by {}
            }
        }
    }

    /// Takes `member` out of the group named `group` and off the users, if
    /// that group exists.
    pub fn remove_member_to_group(&mut self, group: &String, member: Principal)
        requires
            old(self).wf(),
        ensures
            final(self).wf(),
            final(self).proposals == old(self).proposals,
            crate::state::has_group(old(self).dao_groups@, group@) ==> {
                &&& group_member_removed(
                    old(self).dao_groups@,
                    final(self).dao_groups@,
                    group@,
                    member,
                )
                &&& final(self).dao.all_dao_user@ == without_member(
                    old(self).dao.all_dao_user@,
                    member,
                )
                &&& final(self).dao == (DaoDetails {
                    all_dao_user: final(self).dao.all_dao_user,
                    ..old(self).dao
                })
            },
            !crate::state::has_group(old(self).dao_groups@, group@) ==> final(self).dao == old(
                self,
            ).dao && final(self).dao_groups@ == old(self).dao_groups@,
    {
        if let Some(i) = self.find_group(group) {
            let ghost before = self.dao_groups@;
            remove_principal(&mut self.dao_groups[i].group_members, member);
            assert forall|j: int| 0 <= j < before.len() && j != i implies #[trigger] self.dao_groups@[j]
                == before[j] by {}
            remove_principal(&mut self.dao.all_dao_user, member);
        }
    }

    /// Replaces the permission set of the group that `update` names, if it
    /// exists.
    pub fn change_group_permissions(&mut self, update: &UpdateGroupPermission)
        requires
            old(self).wf(),
        ensures
            final(self).wf(),
            final(self).proposals == old(self).proposals,
            final(self).dao == old(self).dao,
            group_permissions_changed(
                old(self).dao_groups@,
                final(self).dao_groups@,
                update.group_name@,
                update.updated_permissions@,
            ),
    {
        if let Some(i) = self.find_group(&update.group_name) {
            let ghost before = self.dao_groups@;
            let perms = copy_kinds(&update.updated_permissions);
            self.dao_groups[i].group_permissions = perms;
            assert forall|j: int| 0 <= j < before.len() && j != i implies #[trigger] self.dao_groups@[j]
                == before[j] by {}
        }
    }

    /// Overwrites the name and the purpose with those given.
    pub fn change_dao_config(&mut self, name: &Option<String>, purpose: &Option<String>)
        requires
            old(self).wf(),
        ensures
            final(self).wf(),
            final(self).dao.dao_name@ == (match name {
                Some(n) => n@,
                None => old(self).dao.dao_name@,
            }),
            final(self).dao.purpose@ == (match purpose {
                Some(n) => n@,
                None => old(self).dao.purpose@,
            }),
            final(self).dao == (DaoDetails {
                dao_name: final(self).dao.dao_name,
                purpose: final(self).dao.purpose,
                ..old(self).dao
            }),
            final(self).proposals == old(self).proposals,
            final(self).dao_groups == old(self).dao_groups,
    {
        if let Some(n) = name {
            self.dao.dao_name = n.clone();
        }
        if let Some(p) = purpose {
            self.dao.purpose = p.clone();
        }
    }

    /// Overwrites the cool-down period, the required vote count and the
    /// open-join flag with those given.
    pub fn change_dao_policy(
        &mut self,
        cool_down_period: Option<u32>,
        required_votes: Option<u32>,
        ask_to_join_dao: Option<bool>,
    )
        requires
            old(self).wf(),
        ensures
            final(self).wf(),
            final(self).dao == policy_changed(
                old(self).dao,
                cool_down_period,
                required_votes,
                ask_to_join_dao,
            ),
            final(self).proposals == old(self).proposals,
            final(self).dao_groups == old(self).dao_groups,
    {
        if let Some(c) = cool_down_period {
            self.dao.cool_down_period = c;
        }
        if let Some(v) = required_votes {
            self.dao.required_votes = v;
        }
        if let Some(a) = ask_to_join_dao {
            self.dao.ask_to_join_dao = a;
        }
    }

    /// Marks as succeeded the accepted proposal whose identifier is `target`,
    /// unless it stands at `skip`.
    pub fn mark_bounty_succeeded(&mut self, skip: usize, target: &Option<String>)
        requires
            old(self).wf(),
        ensures
            final(self).wf(),
            final(self).dao == old(self).dao,
            final(self).dao_groups == old(self).dao_groups,
            bounty_marked(old(self).proposals@, final(self).proposals@, skip as int, *target),
            skip < old(self).proposals@.len() ==> final(self).proposals@[skip as int] == old(
                self,
            ).proposals@[skip as int],
            crate::state::proposals_evolve(old(self).proposals@, final(self).proposals@),
    {
        if let Some(t) = target {
            if let Some(j) = self.find_proposal(t) {
                if j != skip && self.proposals[j].proposal_status == ProposalState::Accepted {
                    let ghost before = self.proposals@;
                    self.proposals[j].proposal_status = ProposalState::Succeeded;
                    assert forall|k: int| 0 <= k < before.len() && k != j implies #[trigger] self.proposals@[k]
                        == before[k] by {}
                    assert(self.proposals@[j as int].wf());
                }
            }
        }
    }
}

impl State {
    /// Carries out, once, the effect of the accepted proposal at `idx` and
    /// marks it as applied; returns the outbound calls it asks for.
    pub fn apply_effects(&mut self, idx: usize) -> (r: Vec<Outbound>)
        requires
            old(self).wf(),
            idx < old(self).proposals@.len(),
            old(self).proposals@[idx as int].proposal_status == ProposalState::Accepted,
            !old(self).proposals@[idx as int].effects_applied,
        ensures
            final(self).wf(),
            effects_done(*old(self), *final(self), idx as int, r@),
            crate::state::proposals_evolve(old(self).proposals@, final(self).proposals@),
    {
        let ghost before = *self;
        let kind = self.proposals[idx].proposal_type;
        let who = self.proposals[idx].principal_of_action;
        let mut out: Vec<Outbound> = Vec::new();
        match kind {
            ProposalType::AddMemberToDaoProposal => {
                let call = self.add_member_to_dao(who);
                out.push(call);
            },
            ProposalType::RemoveMemberToDaoProposal => {
                let call = self.remove_member_from_dao(who);
                out.push(call);
            },
            ProposalType::AddMemberToGroupProposal => {
                if let Some(g) = copy_text(&self.proposals[idx].payload.group_to_join) {
                    self.add_member_to_group(&g, who);
                }
            },
            ProposalType::RemoveMemberToGroupProposal => {
                if let Some(g) = copy_text(&self.proposals[idx].payload.group_to_remove) {
                    self.remove_member_to_group(&g, who);
                }
            },
            ProposalType::ChangeGroupPermissions => {
                let update = match &self.proposals[idx].payload.updated_group_permissions {
                    Some(u) => Some(
                        UpdateGroupPermission {
                            group_name: u.group_name.clone(),
                            updated_permissions: copy_kinds(&u.updated_permissions),
                        },
                    ),
                    None => None,
                };
                if let Some(u) = update {
                    self.change_group_permissions(&u);
                }
            },
            ProposalType::ChangeDaoConfig => {
                let name = copy_text(&self.proposals[idx].payload.new_dao_name);
                let purpose = copy_text(&self.proposals[idx].payload.new_dao_purpose);
                self.change_dao_config(&name, &purpose);
            },
            ProposalType::ChangeDaoPolicy => {
                let cool_down_period = self.proposals[idx].payload.cool_down_period;
                let required_votes = self.proposals[idx].payload.new_required_votes;
                let ask_to_join_dao = self.proposals[idx].payload.ask_to_join_dao;
                self.change_dao_policy(cool_down_period, required_votes, ask_to_join_dao);
            },
            ProposalType::TokenTransfer => {
                if let Some(call) = transfer_tokens_to_user(
                    self.dao.token_ledger_id,
                    &self.proposals[idx].payload,
                ) {
                    out.push(call);
                }
            },
            ProposalType::BountyRaised | ProposalType::BountyDone => {
                if let Some(call) = transfer_tokens_to_user(
                    self.dao.token_ledger_id,
                    &self.proposals[idx].payload,
                ) {
                    out.push(call);
                }
                let target = copy_text(&self.proposals[idx].payload.associated_proposal_id);
                self.mark_bounty_succeeded(idx, &target);
            },
            ProposalType::MintNewTokens => {
                if let Some(call) = mint_new_tokens(
                    self.dao.token_ledger_id,
                    &self.proposals[idx].payload,
                ) {
                    out.push(call);
                }
            },
            _ => {},
        }
        let ghost mid = self.proposals@;
        self.proposals[idx].effects_applied = true;
        assert forall|k: int| 0 <= k < mid.len() && k != idx implies #[trigger] self.proposals@[k]
            == mid[k] by {}
        assert(self.proposals@[idx as int].wf());
        assert(out@ =~= effect_calls(before.dao, before.proposals@[idx as int]));
        out
    }
}

/// The ledger transfer that a transfer or bounty proposal asks for, if its
/// amount, source and recipient are all recorded.
pub open spec fn transfer_call(ledger: Principal, pay: ProposalPayload) -> Option<Outbound> {
    if pay.tokens is Some && pay.token_from is Some && pay.token_to is Some {
        Some(
            Outbound::Transfer {
                ledger,
                args: TokenTransferArgs {
                    tokens: pay.tokens->0,
                    from: pay.token_from->0,
                    to: pay.token_to->0,
                },
            },
        )
    } else {
        None
    }
}

/// The mint request that a mint proposal asks for, if its amount is recorded.
pub open spec fn mint_call(ledger: Principal, pay: ProposalPayload) -> Option<Outbound> {
    if pay.tokens is Some {
        Some(Outbound::Mint { ledger, amount: pay.tokens->0 })
    } else {
        None
    }
}

/// The ledger transfer that a transfer or bounty proposal asks for.
pub fn transfer_tokens_to_user(ledger: Principal, payload: &ProposalPayload) -> (r: Option<Outbound>)
    ensures
        r == transfer_call(ledger, *payload),
{
    match (payload.tokens, payload.token_from, payload.token_to) {
        (Some(tokens), Some(from), Some(to)) => Some(
            Outbound::Transfer { ledger, args: TokenTransferArgs { tokens, from, to } },
        ),
        _ => None,
    }
}

/// The mint request that a mint proposal asks for.
pub fn mint_new_tokens(ledger: Principal, payload: &ProposalPayload) -> (r: Option<Outbound>)
    ensures
        r == mint_call(ledger, *payload),
{
    match payload.tokens {
        Some(amount) => Some(Outbound::Mint { ledger, amount }),
        None => None,
    }
}

/// Whether a source holding `balance` tokens covers the transfer `args`.
pub fn transfer_covered(balance: u128, args: &TokenTransferArgs) -> (r: bool)
    ensures
        r == (balance >= args.tokens),
{
    balance >= args.tokens as u128
}

/// The ledger transfer that pays `tokens` from `user` to the instance
/// `dao_id`; refused for an amount of zero.
pub fn make_payment(tokens: u64, user: Principal, dao_id: Principal) -> (r: Result<
    TokenTransferArgs,
    crate::error::DaoError,
>)
    ensures
        tokens < 1 ==> r == Err::<TokenTransferArgs, crate::error::DaoError>(
            crate::error::DaoError::NonPositiveAmount,
        ),
        tokens >= 1 ==> r == Ok::<TokenTransferArgs, crate::error::DaoError>(
            TokenTransferArgs { tokens, from: user, to: dao_id },
        ),
{
    if tokens < 1 {
        return Err(crate::error::DaoError::NonPositiveAmount);
    }
    Ok(TokenTransferArgs { tokens, from: user, to: dao_id })
}

} // verus!
