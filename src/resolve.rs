use crate::effects::{effect_calls, effects_done, Outbound};
use crate::proposal::Proposals;
use crate::state::{has_proposal, lemma_evolve_trans, proposals_evolve, State};
use crate::tally::{decide, decision};
use crate::types::{ProposalState, ProposalType};
use vstd::prelude::*;

verus! {

/// The decision due for `p` at time `now`, if any.
pub open spec fn due_decision(p: Proposals, now: u64) -> Option<ProposalState> {
    decision(
        p.proposal_approved_votes as nat,
        p.proposal_rejected_votes as nat,
        p.required_votes as nat,
        p.minimum_threadsold as nat,
        p.expired_at(now),
    )
}

/// `after` and `out` are what re-checking the proposal at `idx` at time `now`
/// gives from `before`: nothing changes while it is decided or no decision is
/// due; a due decision other than acceptance only sets the status; an
/// acceptance also carries out the proposal's effect.
pub open spec fn resolved(before: State, after: State, idx: int, now: u64, out: Seq<Outbound>) -> bool {
    let p = before.proposals@[idx];
    let d = due_decision(p, now);
    if p.decided || d is None {
        after == before && out.len() == 0
    } else if d == Some(ProposalState::Accepted) {
        effects_done(before, after, idx, out)
    } else {
        &&& after.dao == before.dao
        &&& after.dao_groups == before.dao_groups
        &&& after.proposals@ == before.proposals@.update(
            idx,
            Proposals { proposal_status: d->0, decided: true, ..p },
        )
        &&& out.len() == 0
    }
}

/// Whether a proposal that expires at `expire_date` has expired at `now`.
pub fn check_proposal_state(expire_date: &u64, now: u64) -> (r: bool)
    ensures
        r == (*expire_date <= now),
{
    *expire_date <= now
}

/// The outbound calls of a sweep at time `now` over the first `n` proposals
/// of `s`: those of each undecided, expired proposal that is accepted, in
/// store order.
pub open spec fn sweep_calls(s: State, now: u64, n: nat) -> Seq<Outbound>
    decreases n,
{
    if n == 0 {
        seq![]
    } else {
        let p = s.proposals@[n - 1];
        sweep_calls(s, now, (n - 1) as nat) + if !p.decided && p.expired_at(now) && due_decision(p, now)
            == Some(ProposalState::Accepted) {
            effect_calls(s.dao, p)
        } else {
            seq![]
        }
    }
}

/// Whether the timer sweep at `now` re-checks `p`: it is undecided and its
/// expiry has passed.
pub open spec fn selected(p: Proposals, now: u64) -> bool {
    !p.decided && p.expired_at(now)
}

/// `b` is `a` itself, or `a` accepted and then marked as succeeded by a
/// bounty payout.
pub open spec fn kept_or_marked(a: Proposals, b: Proposals) -> bool {
    b == a || (a.proposal_status == ProposalState::Accepted && b == Proposals {
        proposal_status: ProposalState::Succeeded,
        ..a
    })
}

/// `b` is the selected proposal `a` after the sweep at `now`: decided with
/// the decision due, its effect applied exactly when it is accepted, and an
/// accepted bounty possibly marked as succeeded since.
pub open spec fn swept(a: Proposals, b: Proposals, now: u64) -> bool {
    let d = due_decision(a, now)->0;
    let decided = Proposals {
        proposal_status: d,
        decided: true,
        effects_applied: d == ProposalState::Accepted,
        ..a
    };
    kept_or_marked(decided, b)
}

/// One step of the sweep at `now` over the proposal at `k`: re-checked when
/// selected, else left alone.
pub open spec fn sweep_step(before: State, after: State, k: int, now: u64, out: Seq<Outbound>) -> bool {
    if selected(before.proposals@[k], now) {
        resolved(before, after, k, now, out)
    } else {
        after == before && out.len() == 0
    }
}

/// `states` runs from `start` to `end` through one sweep step per proposal,
/// and `calls` are the outbound calls of the steps, in order.
pub open spec fn sweep_chain(
    states: Seq<State>,
    outs: Seq<Seq<Outbound>>,
    start: State,
    end: State,
    now: u64,
    calls: Seq<Outbound>,
) -> bool {
    &&& outs.len() == start.proposals@.len()
    &&& states.len() == outs.len() + 1
    &&& states[0] == start
    &&& states[states.len() - 1] == end
    &&& forall|k: int| 0 <= k < outs.len() ==> #[trigger] sweep_step(states[k], states[k + 1], k, now, outs[k])
    &&& calls == outs.flatten()
}

/// A re-check of the proposal at `idx` leaves every other proposal as it was,
/// but for an accepted bounty that a payout marks as succeeded.
pub proof fn lemma_resolved_others(before: State, after: State, idx: int, now: u64, out: Seq<Outbound>)
    requires
        0 <= idx < before.proposals@.len(),
        resolved(before, after, idx, now, out),
    ensures
        after.proposals@.len() == before.proposals@.len(),
        forall|j: int|
            0 <= j < before.proposals@.len() && j != idx ==> kept_or_marked(
                before.proposals@[j],
                #[trigger] after.proposals@[j],
            ),
{
    let p = before.proposals@[idx];
    if !p.decided && due_decision(p, now) == Some(ProposalState::Accepted) {
        if p.proposal_type == ProposalType::BountyRaised || p.proposal_type == ProposalType::BountyDone {
            assert forall|j: int| 0 <= j < before.proposals@.len() && j != idx implies kept_or_marked(
                before.proposals@[j],
                #[trigger] after.proposals@[j],
            ) by {
                assert(crate::effects::bounty_marked(
                    before.proposals@,
                    after.proposals@,
                    idx,
                    p.payload.associated_proposal_id,
                ));
            }
        }
    }
}

impl State {
    /// For each proposal in store order, the time from `now` until a timer
    /// should re-check it, or `None` once it is decided; after a restart this
    /// re-arms the timers that were lost.
    pub fn rearm_delays(&self, now: u64) -> (r: Vec<Option<u64>>)
        ensures
            r@.len() == self.proposals@.len(),
            forall|i: int|
                0 <= i < r@.len() ==> #[trigger] r@[i] == if self.proposals@[i].decided {
                    None::<u64>
                } else {
                    Some(crate::submit::delay_until(self.proposals@[i].proposal_expired_at, now))
                },
    {
        let mut r: Vec<Option<u64>> = Vec::new();
        let mut i: usize = 0;
        while i < self.proposals.len()
            invariant
                i <= self.proposals@.len(),
                r@.len() == i,
                forall|j: int|
                    0 <= j < i ==> #[trigger] r@[j] == if self.proposals@[j].decided {
                        None::<u64>
                    } else {
                        Some(crate::submit::delay_until(self.proposals@[j].proposal_expired_at, now))
                    },
            decreases self.proposals@.len() - i,
        {
            let p = &self.proposals[i];
            if p.decided {
                r.push(None);
            } else {
                r.push(Some(p.proposal_expired_at.saturating_sub(now)));
            }
            i += 1;
        }
        r
    }

    /// Re-checks the proposal at `idx` at time `now`: decides it if a
    /// decision is due and, when it is accepted, carries out its effect once.
    pub fn resolve_proposal(&mut self, idx: usize, now: u64) -> (r: Vec<Outbound>)
        requires
            old(self).wf(),
            idx < old(self).proposals@.len(),
        ensures
            final(self).wf(),
            proposals_evolve(old(self).proposals@, final(self).proposals@),
            final(self).proposals@.len() == old(self).proposals@.len(),
            resolved(*old(self), *final(self), idx as int, now, r@),
    {
        let ghost before = *self;
        if self.proposals[idx].decided {
            return Vec::new();
        }
        let expired = now >= self.proposals[idx].proposal_expired_at;
        let verdict = decide(
            self.proposals[idx].proposal_approved_votes,
            self.proposals[idx].proposal_rejected_votes,
            self.proposals[idx].required_votes,
            self.proposals[idx].minimum_threadsold,
            expired,
        );
        match verdict {
            None => Vec::new(),
            Some(status) => {
                self.proposals[idx].proposal_status = status;
                self.proposals[idx].decided = true;
                let ghost mid = *self;
                assert forall|k: int|
                    0 <= k < before.proposals@.len() && k != idx implies #[trigger] mid.proposals@[k]
                    == before.proposals@[k] by {}
                assert(mid.proposals@[idx as int].wf());
                if status == ProposalState::Accepted {
                    let out = self.apply_effects(idx);
                    proof {
                        lemma_evolve_trans(before.proposals@, mid.proposals@, self.proposals@);
                    }
                    out
                } else {
                    assert(mid.proposals@ =~= before.proposals@.update(
                        idx as int,
                        Proposals { proposal_status: status, decided: true, ..before.proposals@[idx as int] },
                    ));
                    Vec::new()
                }
            },
        }
    }

    /// Re-checks the proposal with identifier `proposal_id`, if there is one;
    /// see `resolve_proposal`.
    pub fn execute_proposal_on_required_vote(&mut self, proposal_id: &String, now: u64) -> (r: Vec<
        Outbound,
    >)
        requires
            old(self).wf(),
        ensures
            final(self).wf(),
            proposals_evolve(old(self).proposals@, final(self).proposals@),
            !has_proposal(old(self).proposals@, proposal_id@) ==> *final(self) == *old(self)
                && r@.len() == 0,
            forall|i: int|
                0 <= i < old(self).proposals@.len() && #[trigger] old(self).proposals@[i].proposal_id@
                    == proposal_id@ ==> resolved(*old(self), *final(self), i, now, r@),
    {
        match self.find_proposal(proposal_id) {
            Some(i) => self.resolve_proposal(i, now),
            None => Vec::new(),
        }
    }

    /// Re-checks every undecided proposal whose expiry has passed at `now`,
    /// so that none stays open past its expiry; returns the outbound calls of
    /// the proposals accepted on the way, in store order.
    pub fn check_proposals(&mut self, now: u64) -> (r: Vec<Outbound>)
        requires
            old(self).wf(),
        ensures
            final(self).wf(),
            proposals_evolve(old(self).proposals@, final(self).proposals@),
            final(self).proposals@.len() == old(self).proposals@.len(),
            forall|j: int|
                0 <= j < final(self).proposals@.len() && (#[trigger] final(self).proposals@[j]).expired_at(now)
                    ==> final(self).proposals@[j].decided,
            forall|j: int|
                0 <= j < old(self).proposals@.len() && !(#[trigger] old(self).proposals@[j]).expired_at(now)
                    ==> final(self).proposals@[j].decided == old(self).proposals@[j].decided,
            r@ == sweep_calls(*old(self), now, old(self).proposals@.len()),
            forall|j: int|
                0 <= j < old(self).proposals@.len() && selected(old(self).proposals@[j], now)
                    ==> swept(old(self).proposals@[j], #[trigger] final(self).proposals@[j], now),
            forall|j: int|
                0 <= j < old(self).proposals@.len() && !selected(old(self).proposals@[j], now)
                    ==> kept_or_marked(old(self).proposals@[j], #[trigger] final(self).proposals@[j]),
            exists|states: Seq<State>, outs: Seq<Seq<Outbound>>|
                #[trigger] sweep_chain(states, outs, *old(self), *final(self), now, r@),
    {
        let ghost start = *self;
        let ghost mut states: Seq<State> = seq![*self];
        let ghost mut outs: Seq<Seq<Outbound>> = seq![];
        let mut out: Vec<Outbound> = Vec::new();
        let mut i: usize = 0;
        proof {
            assert(out@ =~= outs.flatten());
        }
        while i < self.proposals.len()
            invariant
                self.wf(),
                proposals_evolve(start.proposals@, self.proposals@),
                self.proposals@.len() == start.proposals@.len(),
                i <= self.proposals@.len(),
                forall|j: int|
                    0 <= j < i && (#[trigger] self.proposals@[j]).expired_at(now) ==> self.proposals@[j].decided,
                forall|j: int|
                    0 <= j < start.proposals@.len() && !(#[trigger] start.proposals@[j]).expired_at(now)
                        ==> self.proposals@[j].decided == start.proposals@[j].decided,
                forall|j: int|
                    i <= j < start.proposals@.len() && !start.proposals@[j].decided
                        ==> #[trigger] self.proposals@[j] == start.proposals@[j],
                self.dao.token_ledger_id == start.dao.token_ledger_id,
                out@ == sweep_calls(start, now, i as nat),
                forall|j: int|
                    0 <= j < i && selected(start.proposals@[j], now) ==> swept(
                        start.proposals@[j],
                        #[trigger] self.proposals@[j],
                        now,
                    ),
                forall|j: int|
                    0 <= j < start.proposals@.len() && !selected(start.proposals@[j], now)
                        ==> kept_or_marked(start.proposals@[j], #[trigger] self.proposals@[j]),
                states.len() == i + 1,
                outs.len() == i,
                states[0] == start,
                states[i as int] == *self,
                forall|k: int|
                    0 <= k < i ==> #[trigger] sweep_step(states[k], states[k + 1], k, now, outs[k]),
                out@ == outs.flatten(),
            decreases self.proposals@.len() - i,
        {
            let ghost before_out = out@;
            if !self.proposals[i].decided && now >= self.proposals[i].proposal_expired_at {
                let ghost prev = *self;
                let mut more = self.resolve_proposal(i, now);
                let ghost added = more@;
                out.append(&mut more);
                proof {
                    lemma_evolve_trans(start.proposals@, prev.proposals@, self.proposals@);
                    assert(prev.proposals@[i as int] == start.proposals@[i as int]);
                    let p = start.proposals@[i as int];
                    if due_decision(p, now) == Some(ProposalState::Accepted) {
                        assert(added == effect_calls(prev.dao, p));
                        assert(effect_calls(prev.dao, p) == effect_calls(start.dao, p));
                    }
                    assert forall|j: int|
                        i < j < start.proposals@.len() && !start.proposals@[j].decided
                            implies #[trigger] self.proposals@[j] == start.proposals@[j] by {
                        assert(prev.proposals@[j] == start.proposals@[j]);
                    }
                    assert(out@ =~= sweep_calls(start, now, i as nat + 1));
                    lemma_resolved_others(prev, *self, i as int, now, added);
                    assert(prev.proposals@[i as int].wf());
                    assert forall|j: int|
                        0 <= j < i + 1 && selected(start.proposals@[j], now) implies swept(
                            start.proposals@[j],
                            #[trigger] self.proposals@[j],
                            now,
                        ) by {
                        if j < i {
                            assert(swept(start.proposals@[j], prev.proposals@[j], now));
                            assert(kept_or_marked(prev.proposals@[j], self.proposals@[j]));
                        }
                    }
                    assert forall|j: int|
                        0 <= j < start.proposals@.len() && !selected(start.proposals@[j], now)
                            implies kept_or_marked(start.proposals@[j], #[trigger] self.proposals@[j]) by {
                        assert(kept_or_marked(start.proposals@[j], prev.proposals@[j]));
                        assert(kept_or_marked(prev.proposals@[j], self.proposals@[j]));
                    }
                    assert(sweep_step(prev, *self, i as int, now, added));
                    let ghost prev_outs = outs;
                    states = states.push(*self);
                    outs = outs.push(added);
                    prev_outs.lemma_flatten_push(added);
                    assert(out@ =~= outs.flatten());
                }
            } else {
                proof {
                    let p = start.proposals@[i as int];
                    if !p.decided {
                        assert(self.proposals@[i as int] == p);
                    }
                    assert(out@ =~= sweep_calls(start, now, i as nat + 1));
                    assert(sweep_step(*self, *self, i as int, now, seq![]));
                    let ghost prev_outs = outs;
                    states = states.push(*self);
                    outs = outs.push(seq![]);
                    prev_outs.lemma_flatten_push(seq![]);
                    assert(out@ =~= outs.flatten());
                }
            }
            i += 1;
        }
        proof {
            assert(sweep_chain(states, outs, start, *self, now, out@));
        }
        out
    }
}

} // verus!
