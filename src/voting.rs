use crate::effects::Outbound;
use crate::error::DaoError;
use crate::identity::contains_principal;
use crate::proposal::Proposals;
use crate::resolve::resolved;
use crate::state::{has_proposal, lemma_evolve_trans, proposals_evolve, State};
use crate::types::{PollOptions, ProposalState, ProposalType, VoteParam};
use candid::Principal;
use vstd::prelude::*;

verus! {

/// Why `voter` may not cast a ballot on `p`, if there is a reason.
pub open spec fn vote_refusal(p: Proposals, voter: Principal) -> Option<DaoError> {
    if p.proposal_type == ProposalType::Polls {
        Some(DaoError::WrongProposalType)
    } else if p.is_interested(voter) {
        Some(DaoError::SelfVote)
    } else if p.proposal_status != ProposalState::Open {
        Some(DaoError::NotOpen)
    } else if p.total_votes() >= p.required_votes {
        Some(DaoError::VoteCapReached)
    } else if p.approved_votes_list@.contains(voter) || p.rejected_votes_list@.contains(voter) {
        Some(DaoError::AlreadyVoted)
    } else {
        None
    }
}

/// `after` is `before` where the proposal at `i` has recorded the ballot of
/// `voter` and nothing else changed.
pub open spec fn ballot_recorded(
    before: State,
    after: State,
    i: int,
    voter: Principal,
    choice: VoteParam,
) -> bool {
    let p = before.proposals@[i];
    let q = after.proposals@[i];
    &&& after.dao == before.dao
    &&& after.dao_groups == before.dao_groups
    &&& after.proposals@.len() == before.proposals@.len()
    &&& forall|j: int|
        0 <= j < before.proposals@.len() && j != i ==> #[trigger] after.proposals@[j]
            == before.proposals@[j]
    &&& match choice {
        VoteParam::Yes => {
            &&& q.approved_votes_list@ == p.approved_votes_list@.push(voter)
            &&& q.proposal_approved_votes == p.proposal_approved_votes + 1
            &&& q == Proposals {
                approved_votes_list: q.approved_votes_list,
                proposal_approved_votes: q.proposal_approved_votes,
                ..p
            }
        },
        VoteParam::No => {
            &&& q.rejected_votes_list@ == p.rejected_votes_list@.push(voter)
            &&& q.proposal_rejected_votes == p.proposal_rejected_votes + 1
            &&& q == Proposals {
                rejected_votes_list: q.rejected_votes_list,
                proposal_rejected_votes: q.proposal_rejected_votes,
                ..p
            }
        },
    }
}

/// Why `voter` may not choose the option `option_id` of `p`, if there is a
/// reason.
pub open spec fn poll_vote_refusal(p: Proposals, option_id: Seq<char>, voter: Principal) -> Option<
    DaoError,
> {
    if p.proposal_type != ProposalType::Polls {
        Some(DaoError::WrongProposalType)
    } else if p.is_interested(voter) {
        Some(DaoError::SelfVote)
    } else if p.total_votes() >= p.required_votes {
        Some(DaoError::VoteCapReached)
    } else if p.proposal_status != ProposalState::Open {
        Some(DaoError::NotOpen)
    } else if !(exists|k: int|
        0 <= k < p.poll_options@.len() && #[trigger] p.poll_options@[k].id@ == option_id) {
        Some(DaoError::OptionNotFound)
    } else if p.approved_votes_list@.contains(voter) || p.rejected_votes_list@.contains(voter) {
        Some(DaoError::AlreadyVoted)
    } else {
        None
    }
}

/// `after` is `before` where the option at `k` of the poll at `i` has
/// recorded the choice of `voter`, which also counts as an approving vote.
pub open spec fn option_recorded(before: State, after: State, i: int, k: int, voter: Principal) -> bool {
    let p = before.proposals@[i];
    let q = after.proposals@[i];
    let o = p.poll_options@[k];
    let n = q.poll_options@[k];
    &&& after.dao == before.dao
    &&& after.dao_groups == before.dao_groups
    &&& after.proposals@.len() == before.proposals@.len()
    &&& forall|j: int|
        0 <= j < before.proposals@.len() && j != i ==> #[trigger] after.proposals@[j]
            == before.proposals@[j]
    &&& q.approved_votes_list@ == p.approved_votes_list@.push(voter)
    &&& q.proposal_approved_votes == p.proposal_approved_votes + 1
    &&& q.poll_options@.len() == p.poll_options@.len()
    &&& forall|m: int|
        0 <= m < p.poll_options@.len() && m != k ==> #[trigger] q.poll_options@[m]
            == p.poll_options@[m]
    &&& n.approved_users@ == o.approved_users@.push(voter)
    &&& n.poll_approved_votes == o.poll_approved_votes + 1
    &&& n == PollOptions {
        approved_users: n.approved_users,
        poll_approved_votes: n.poll_approved_votes,
        ..o
    }
    &&& q == Proposals {
        approved_votes_list: q.approved_votes_list,
        proposal_approved_votes: q.proposal_approved_votes,
        poll_options: q.poll_options,
        ..p
    }
}

/// After the option at `k` of the poll at `i` gained a vote: the poll is
/// re-checked once that option has as many votes as the poll requires, and
/// nothing else happens before.
pub open spec fn poll_settled(
    mid: State,
    after: State,
    i: int,
    k: int,
    now: u64,
    out: Seq<Outbound>,
) -> bool {
    let p = mid.proposals@[i];
    if p.poll_options@[k].poll_approved_votes == p.required_votes {
        resolved(mid, after, i, now, out)
    } else {
        after == mid && out.len() == 0
    }
}

impl State {
    /// Casts the ballot of `voter` on the proposal `proposal_id` at time
    /// `now`, then re-checks the proposal, which may decide it and carry out
    /// its effect.
    pub fn cast_vote(&mut self, proposal_id: &String, voter: Principal, choice: VoteParam, now: u64) -> (r:
        Result<Vec<Outbound>, DaoError>)
        requires
            old(self).wf(),
        ensures
            final(self).wf(),
            proposals_evolve(old(self).proposals@, final(self).proposals@),
            !old(self).dao.all_dao_user@.contains(voter) ==> r == Err::<Vec<Outbound>, DaoError>(
                DaoError::NotDaoUser,
            ) && *final(self) == *old(self),
            old(self).dao.all_dao_user@.contains(voter) && !has_proposal(
                old(self).proposals@,
                proposal_id@,
            ) ==> r == Err::<Vec<Outbound>, DaoError>(DaoError::ProposalNotFound) && *final(self)
                == *old(self),
            forall|i: int|
                0 <= i < old(self).proposals@.len() && #[trigger] old(self).proposals@[i].proposal_id@
                    == proposal_id@ && old(self).dao.all_dao_user@.contains(voter) ==> match vote_refusal(
                    old(self).proposals@[i],
                    voter,
                ) {
                    Some(e) => r == Err::<Vec<Outbound>, DaoError>(e) && *final(self) == *old(self),
                    None => r is Ok && exists|mid: State|
                        ballot_recorded(*old(self), mid, i, voter, choice) && #[trigger] resolved(
                            mid,
                            *final(self),
                            i,
                            now,
                            r->Ok_0@,
                        ),
                },
    {
        if !contains_principal(&self.dao.all_dao_user, &voter) {
            return Err(DaoError::NotDaoUser);
        }
        let i = match self.find_proposal(proposal_id) {
            Some(i) => i,
            None => {
                return Err(DaoError::ProposalNotFound);
            },
        };
        let ghost before = *self;
        assert forall|j: int|
            0 <= j < before.proposals@.len() && #[trigger] before.proposals@[j].proposal_id@
                == proposal_id@ implies j == i by {
            assert(crate::state::ids_distinct(before.proposals@));
        }
        let p = &self.proposals[i];
        let kind = p.proposal_type;
        if kind == ProposalType::Polls {
            return Err(DaoError::WrongProposalType);
        }
        let pays_voter = match p.payload.token_to {
            Some(to) => crate::identity::same_principal(&to, &voter),
            None => false,
        };
        if crate::identity::same_principal(&p.created_by, &voter)
            || crate::identity::same_principal(&p.principal_of_action, &voter) || ((kind
            == ProposalType::TokenTransfer || kind == ProposalType::BountyRaised || kind
            == ProposalType::BountyDone) && pays_voter) {
            return Err(DaoError::SelfVote);
        }
        if p.proposal_status != ProposalState::Open {
            return Err(DaoError::NotOpen);
        }
        if p.proposal_approved_votes as u128 + p.proposal_rejected_votes as u128
            >= p.required_votes as u128 {
            return Err(DaoError::VoteCapReached);
        }
        if contains_principal(&p.approved_votes_list, &voter) || contains_principal(
            &p.rejected_votes_list,
            &voter,
        ) {
            return Err(DaoError::AlreadyVoted);
        }
        match choice {
            VoteParam::Yes => {
                self.proposals[i].approved_votes_list.push(voter);
                self.proposals[i].proposal_approved_votes = self.proposals[i].proposal_approved_votes
                    + 1;
            },
            VoteParam::No => {
                self.proposals[i].rejected_votes_list.push(voter);
                self.proposals[i].proposal_rejected_votes = self.proposals[i].proposal_rejected_votes
                    + 1;
            },
        }
        let ghost mid = *self;
        assert forall|j: int|
            0 <= j < before.proposals@.len() && j != i implies #[trigger] mid.proposals@[j]
            == before.proposals@[j] by {}
        let ghost q = mid.proposals@[i as int];
        let ghost op = before.proposals@[i as int];
        assert(op.wf());
        assert(!op.approved_votes_list@.contains(voter) && !op.rejected_votes_list@.contains(voter));
        assert forall|v: Principal| #[trigger] q.approved_votes_list@.contains(v) implies !q.rejected_votes_list@.contains(v) by {
            if choice == VoteParam::Yes {
                assert(q.rejected_votes_list@ == op.rejected_votes_list@);
                if v != voter {
                    let k = choose|k: int| 0 <= k < q.approved_votes_list@.len() && q.approved_votes_list@[k] == v;
                    assert(op.approved_votes_list@[k] == v);
                    assert(op.approved_votes_list@.contains(v));
                }
            } else {
                assert(q.approved_votes_list@ == op.approved_votes_list@);
                if q.rejected_votes_list@.contains(v) {
                    let k = choose|k: int| 0 <= k < q.rejected_votes_list@.len() && q.rejected_votes_list@[k] == v;
                    if k < op.rejected_votes_list@.len() {
                        assert(op.rejected_votes_list@[k] == v);
                        assert(op.rejected_votes_list@.contains(v));
                    }
                }
            }
        }
        assert forall|k: int, v: Principal|
            0 <= k < q.poll_options@.len() && #[trigger] q.poll_options@[k].approved_users@.contains(v)
                implies q.approved_votes_list@.contains(v) by {
            assert(q.poll_options == op.poll_options);
            assert(op.approved_votes_list@.contains(v));
            if choice == VoteParam::Yes {
                let m = choose|m: int|
                    0 <= m < op.approved_votes_list@.len() && op.approved_votes_list@[m] == v;
                assert(q.approved_votes_list@[m] == v);
            }
        }
        assert(mid.proposals@[i as int].wf());
        assert forall|j: int| 0 <= j < mid.proposals@.len() implies (#[trigger] mid.proposals@[j]).wf() by {
            if j != i {
                assert(mid.proposals@[j] == before.proposals@[j]);
            }
        }
        assert(q.proposal_id == op.proposal_id);
        assert forall|a: int, b: int|
            0 <= a < mid.proposals@.len() && 0 <= b < mid.proposals@.len() && a != b implies #[trigger] mid.proposals@[a].proposal_id@
                != #[trigger] mid.proposals@[b].proposal_id@ by {
            assert(mid.proposals@[a].proposal_id == before.proposals@[a].proposal_id);
            assert(mid.proposals@[b].proposal_id == before.proposals@[b].proposal_id);
        }
        assert(crate::state::ids_distinct(mid.proposals@));
        assert(mid.wf());
        assert(ballot_recorded(before, mid, i as int, voter, choice));
        let out = self.resolve_proposal(i, now);
        proof {
            lemma_evolve_trans(before.proposals@, mid.proposals@, self.proposals@);
        }
        let r: Result<Vec<Outbound>, DaoError> = Ok(out);
        proof {
            assert forall|i2: int|
                0 <= i2 < before.proposals@.len() && #[trigger] before.proposals@[i2].proposal_id@
                    == proposal_id@ implies (r is Ok && exists|m: State|
                        ballot_recorded(before, m, i2, voter, choice) && #[trigger] resolved(
                            m,
                            *self,
                            i2,
                            now,
                            r->Ok_0@,
                        )) by {
                assert(i2 == i);
                assert(resolved(mid, *self, i2, now, r->Ok_0@));
            }
        }
        r
    }

    /// Position of the option `option_id` in the poll at `i`.
    fn find_option(&self, i: usize, option_id: &String) -> (r: Option<usize>)
        requires
            i < self.proposals@.len(),
        ensures
            r matches Some(k) ==> k < self.proposals@[i as int].poll_options@.len()
                && self.proposals@[i as int].poll_options@[k as int].id@ == option_id@,
            r is None ==> !(exists|k: int|
                0 <= k < self.proposals@[i as int].poll_options@.len()
                    && #[trigger] self.proposals@[i as int].poll_options@[k].id@ == option_id@),
    {
        let options = &self.proposals[i].poll_options;
        let mut k: usize = 0;
        while k < options.len()
            invariant
                i < self.proposals@.len(),
                options@ == self.proposals@[i as int].poll_options@,
                k <= options@.len(),
                forall|m: int| 0 <= m < k ==> #[trigger] options@[m].id@ != option_id@,
            decreases options@.len() - k,
        {
            if options[k].id == *option_id {
                return Some(k);
            }
            k += 1;
        }
        None
    }

    /// Records that `voter` chooses the option `option_id` of the poll
    /// `proposal_id`; the choice also counts as an approving vote. Once that
    /// option has as many votes as the poll requires, the poll is re-checked
    /// at time `now`.
    pub fn vote_on_poll_options(
        &mut self,
        proposal_id: &String,
        option_id: &String,
        voter: Principal,
        now: u64,
    ) -> (r: Result<Vec<Outbound>, DaoError>)
        requires
            old(self).wf(),
        ensures
            final(self).wf(),
            proposals_evolve(old(self).proposals@, final(self).proposals@),
            !old(self).dao.all_dao_user@.contains(voter) ==> r == Err::<Vec<Outbound>, DaoError>(
                DaoError::NotDaoUser,
            ) && *final(self) == *old(self),
            old(self).dao.all_dao_user@.contains(voter) && !has_proposal(
                old(self).proposals@,
                proposal_id@,
            ) ==> r == Err::<Vec<Outbound>, DaoError>(DaoError::ProposalNotFound) && *final(self)
                == *old(self),
            forall|i: int|
                0 <= i < old(self).proposals@.len() && #[trigger] old(self).proposals@[i].proposal_id@
                    == proposal_id@ && old(self).dao.all_dao_user@.contains(voter) ==> match poll_vote_refusal(
                    old(self).proposals@[i],
                    option_id@,
                    voter,
                ) {
                    Some(e) => r == Err::<Vec<Outbound>, DaoError>(e) && *final(self) == *old(self),
                    None => r is Ok && exists|mid: State, k: int|
                        0 <= k < old(self).proposals@[i].poll_options@.len() && old(
                            self,
                        ).proposals@[i].poll_options@[k].id@ == option_id@ && option_recorded(
                            *old(self),
                            mid,
                            i,
                            k,
                            voter,
                        ) && #[trigger] poll_settled(mid, *final(self), i, k, now, r->Ok_0@),
                },
    {
        if !contains_principal(&self.dao.all_dao_user, &voter) {
            return Err(DaoError::NotDaoUser);
        }
        let i = match self.find_proposal(proposal_id) {
            Some(i) => i,
            None => {
                return Err(DaoError::ProposalNotFound);
            },
        };
        let ghost before = *self;
        assert forall|j: int|
            0 <= j < before.proposals@.len() && #[trigger] before.proposals@[j].proposal_id@
                == proposal_id@ implies j == i by {
            assert(crate::state::ids_distinct(before.proposals@));
        }
        let p = &self.proposals[i];
        if p.proposal_type != ProposalType::Polls {
            return Err(DaoError::WrongProposalType);
        }
        if crate::identity::same_principal(&p.created_by, &voter)
            || crate::identity::same_principal(&p.principal_of_action, &voter) {
            return Err(DaoError::SelfVote);
        }
        if p.proposal_approved_votes as u128 + p.proposal_rejected_votes as u128
            >= p.required_votes as u128 {
            return Err(DaoError::VoteCapReached);
        }
        if p.proposal_status != ProposalState::Open {
            return Err(DaoError::NotOpen);
        }
        let k = match self.find_option(i, option_id) {
            Some(k) => k,
            None => {
                return Err(DaoError::OptionNotFound);
            },
        };
        let p = &self.proposals[i];
        if contains_principal(&p.approved_votes_list, &voter) || contains_principal(
            &p.rejected_votes_list,
            &voter,
        ) {
            return Err(DaoError::AlreadyVoted);
        }
        let ghost op = before.proposals@[i as int];
        assert(op.wf());
        assert(op.poll_options@[k as int].poll_approved_votes <= op.proposal_approved_votes);
        self.proposals[i].poll_options[k].poll_approved_votes = self.proposals[i].poll_options[k].poll_approved_votes
            + 1;
        self.proposals[i].poll_options[k].approved_users.push(voter);
        self.proposals[i].approved_votes_list.push(voter);
        self.proposals[i].proposal_approved_votes = self.proposals[i].proposal_approved_votes + 1;
        let ghost mid = *self;
        let ghost q = mid.proposals@[i as int];
        assert forall|j: int|
            0 <= j < before.proposals@.len() && j != i implies #[trigger] mid.proposals@[j]
            == before.proposals@[j] by {}
        assert forall|m: int|
            0 <= m < op.poll_options@.len() && m != k implies #[trigger] q.poll_options@[m]
            == op.poll_options@[m] by {}
        assert forall|v: Principal| #[trigger] q.approved_votes_list@.contains(v) implies !q.rejected_votes_list@.contains(v) by {
            assert(q.rejected_votes_list@ == op.rejected_votes_list@);
            if v != voter {
                let m = choose|m: int| 0 <= m < q.approved_votes_list@.len() && q.approved_votes_list@[m] == v;
                assert(op.approved_votes_list@[m] == v);
                assert(op.approved_votes_list@.contains(v));
            }
        }
        assert forall|m: int| 0 <= m < q.poll_options@.len() implies #[trigger] q.poll_options@[m].poll_approved_votes
            <= q.proposal_approved_votes by {
            if m != k {
                assert(q.poll_options@[m] == op.poll_options@[m]);
            }
        }
        assert forall|m: int, v: Principal|
            0 <= m < q.poll_options@.len() && #[trigger] q.poll_options@[m].approved_users@.contains(v)
                implies q.approved_votes_list@.contains(v) by {
            let n = q.approved_votes_list@.len() - 1;
            assert(q.approved_votes_list@[n] == voter);
            if m != k {
                assert(q.poll_options@[m] == op.poll_options@[m]);
            }
            if v != voter {
                if m == k {
                    let t = choose|t: int|
                        0 <= t < q.poll_options@[m].approved_users@.len()
                            && q.poll_options@[m].approved_users@[t] == v;
                    assert(op.poll_options@[m].approved_users@[t] == v);
                }
                assert(op.poll_options@[m].approved_users@.contains(v));
                assert(op.approved_votes_list@.contains(v));
                let t = choose|t: int|
                    0 <= t < op.approved_votes_list@.len() && op.approved_votes_list@[t] == v;
                assert(q.approved_votes_list@[t] == v);
            }
        }
        assert(q.wf());
        assert forall|j: int| 0 <= j < mid.proposals@.len() implies (#[trigger] mid.proposals@[j]).wf() by {
            if j != i {
                assert(mid.proposals@[j] == before.proposals@[j]);
            }
        }
        assert(q.proposal_id == op.proposal_id);
        assert forall|a: int, b: int|
            0 <= a < mid.proposals@.len() && 0 <= b < mid.proposals@.len() && a != b implies #[trigger] mid.proposals@[a].proposal_id@
                != #[trigger] mid.proposals@[b].proposal_id@ by {
            assert(mid.proposals@[a].proposal_id == before.proposals@[a].proposal_id);
            assert(mid.proposals@[b].proposal_id == before.proposals@[b].proposal_id);
        }
        assert(mid.wf());
        assert(option_recorded(before, mid, i as int, k as int, voter));
        let out = if self.proposals[i].poll_options[k].poll_approved_votes
            == self.proposals[i].required_votes as u64 {
            let out = self.resolve_proposal(i, now);
            proof {
                lemma_evolve_trans(before.proposals@, mid.proposals@, self.proposals@);
            }
            out
        } else {
            Vec::new()
        };
        let r: Result<Vec<Outbound>, DaoError> = Ok(out);
        proof {
            assert forall|i2: int|
                0 <= i2 < before.proposals@.len() && #[trigger] before.proposals@[i2].proposal_id@
                    == proposal_id@ implies (r is Ok && exists|m: State, k2: int|
                        0 <= k2 < before.proposals@[i2].poll_options@.len()
                            && before.proposals@[i2].poll_options@[k2].id@ == option_id@
                            && option_recorded(before, m, i2, k2, voter) && #[trigger] poll_settled(
                            m,
                            *self,
                            i2,
                            k2,
                            now,
                            r->Ok_0@,
                        )) by {
                assert(i2 == i);
                assert(poll_settled(mid, *self, i2, k as int, now, r->Ok_0@));
            }
        }
        r
    }
}

} // verus!
