use crate::effects::{bounty_marked, transfer_call, Outbound};
use crate::error::DaoError;
use crate::proposal::{ProposalInput, Proposals};
use crate::resolve::{due_decision, resolved};
use crate::saga::{
    saga_step, CreationSaga, SagaCommand, SagaError, SagaEvent, SagaStage, CREATE_CYCLES,
    INSTANCE_CYCLES,
};
use crate::state::{has_proposal, State};
use crate::submit::submitted;
use crate::types::{CanisterInstallMode, ProposalState, ProposalType};
use candid::Principal;
use vstd::prelude::*;

verus! {

/// In every well-formed state, and so after every vote, a proposal holds
/// no more votes than it requires.
pub proof fn lemma_votes_within_requirement(s: State, i: int)
    requires
        s.wf(),
        0 <= i < s.proposals@.len(),
    ensures
        s.proposals@[i].proposal_approved_votes + s.proposals@[i].proposal_rejected_votes
            <= s.proposals@[i].required_votes,
{
    assert(s.proposals@[i].wf());
}

/// In every well-formed state no identity is among both the approving and
/// the rejecting voters of a proposal.
pub proof fn lemma_no_voter_on_both_sides(s: State, i: int, v: Principal)
    requires
        s.wf(),
        0 <= i < s.proposals@.len(),
    ensures
        !(s.proposals@[i].approved_votes_list@.contains(v)
            && s.proposals@[i].rejected_votes_list@.contains(v)),
{
    assert(s.proposals@[i].wf());
    assert(s.proposals@[i].voters_disjoint());
}

/// A proposal's effect is carried out at most once: once a re-check decided
/// it, as a vote does when it reaches the required count, a later re-check,
/// as a timer gives, changes nothing and asks for no call. The first re-check
/// of an undecided proposal marked its effect as applied exactly when it
/// accepted it.
pub proof fn lemma_effects_at_most_once(
    s0: State,
    s1: State,
    s2: State,
    i: int,
    t1: u64,
    t2: u64,
    out1: Seq<Outbound>,
    out2: Seq<Outbound>,
)
    requires
        s0.wf(),
        0 <= i < s0.proposals@.len(),
        due_decision(s0.proposals@[i], t1) is Some,
        resolved(s0, s1, i, t1, out1),
        resolved(s1, s2, i, t2, out2),
    ensures
        s2 == s1,
        out2.len() == 0,
        !s0.proposals@[i].decided ==> (s1.proposals@[i].effects_applied <==> due_decision(
            s0.proposals@[i],
            t1,
        ) == Some(ProposalState::Accepted)),
{
    let p = s0.proposals@[i];
    assert(p.wf());
    if p.decided {
        assert(s1 == s0);
    } else if due_decision(p, t1) == Some(ProposalState::Accepted) {
        assert(s1.proposals@[i].decided);
    } else {
        assert(s1.proposals@[i] == (Proposals {
            proposal_status: due_decision(p, t1)->0,
            decided: true,
            ..p
        }));
    }
}

/// A proposal that was just created is found under its identifier, with
/// the title, description, kind, threshold, options and payload it was
/// submitted with.
pub proof fn lemma_created_proposal_round_trip(
    before: State,
    after: State,
    input: ProposalInput,
    id: String,
    caller: Principal,
    now: u64,
    delay: u64,
    fetched: Proposals,
)
    requires
        submitted(before, after, Ok::<u64, DaoError>(delay), input, id, caller, now),
        after.wf(),
        exists|k: int|
            0 <= k < after.proposals@.len() && after.proposals@[k] == fetched
                && #[trigger] fetched.proposal_id@ == id@,
    ensures
        has_proposal(after.proposals@, id@),
        fetched.proposal_title == input.proposal_title,
        fetched.proposal_description == input.proposal_description,
        fetched.proposal_type == input.proposal_type,
        fetched.minimum_threadsold == input.minimum_threadsold,
        fetched.poll_options == input.poll_options,
        fetched.payload == input.payload,
        fetched.proposal_status == ProposalState::Open,
{
    let last = after.proposals@.len() - 1;
    assert(after.proposals@[last].proposal_id@ == id@);
    let k = choose|k: int|
        0 <= k < after.proposals@.len() && after.proposals@[k] == fetched
            && #[trigger] fetched.proposal_id@ == id@;
    assert(crate::state::ids_distinct(after.proposals@));
    assert(k == last);
}

/// When the creation saga fails to provision the ledger after the governance
/// instance `instance` was created, funded and installed, it deletes that
/// instance and then reports the ledger failure, whatever the deletion gives.
pub proof fn lemma_ledger_failure_rolls_back(instance: Principal, msg: String, cleanup: SagaEvent)
    ensures
        ({
            let s0 = CreationSaga {
                stage: SagaStage::CreateInstance,
                instance: None,
                ledger: None,
                failure: None,
            };
            let (s1, c1) = saga_step(s0, SagaEvent::Created(instance));
            let (s2, c2) = saga_step(s1, SagaEvent::Completed);
            let (s3, c3) = saga_step(s2, SagaEvent::Completed);
            let (s4, c4) = saga_step(s3, SagaEvent::Failed(msg));
            let (s5, c5) = saga_step(s4, cleanup);
            &&& c1 == SagaCommand::DepositCycles { canister: instance, cycles: INSTANCE_CYCLES }
            &&& c2 == SagaCommand::InstallCode {
                canister: instance,
                mode: CanisterInstallMode::Install,
                program: crate::saga::Program::Governance,
            }
            &&& c3 == SagaCommand::CreateCanister { cycles: CREATE_CYCLES }
            &&& c4 == SagaCommand::Deprovision { canister: instance }
            &&& c5 == SagaCommand::Abort { error: SagaError::LedgerProvisioning(msg) }
            &&& s5.stage == SagaStage::Finished
            &&& s5.instance is None
            &&& s5.ledger is None
        }),
{
}

/// Once both the governance instance and its ledger exist, a failed step
/// removes the ledger, then the instance, whatever the removals give, and
/// then reports the failure of that step.
pub proof fn lemma_rollback_in_reverse(
    s: CreationSaga,
    msg: String,
    first: SagaEvent,
    second: SagaEvent,
)
    requires
        s.wf(),
        s.stage == SagaStage::FundLedger || s.stage == SagaStage::InstallLedger || s.stage
            == SagaStage::LinkLedger,
    ensures
        ({
            let (s1, c1) = saga_step(s, SagaEvent::Failed(msg));
            let (s2, c2) = saga_step(s1, first);
            let (s3, c3) = saga_step(s2, second);
            &&& c1 == SagaCommand::Deprovision { canister: s.ledger->0 }
            &&& c2 == SagaCommand::Deprovision { canister: s.instance->0 }
            &&& c3 == SagaCommand::Abort { error: crate::saga::failure_of(s.stage, msg) }
            &&& s3.stage == SagaStage::Finished
        }),
{
}

/// A bounty payout accepted on a re-check marks the accepted bounty it
/// refers to as succeeded and asks for exactly the transfer it records.
pub proof fn lemma_bounty_payout_marks_bounty(
    s0: State,
    s1: State,
    idx: int,
    j: int,
    now: u64,
    out: Seq<Outbound>,
)
    requires
        s0.wf(),
        0 <= idx < s0.proposals@.len(),
        0 <= j < s0.proposals@.len(),
        s0.proposals@[idx].proposal_type == ProposalType::BountyDone,
        !s0.proposals@[idx].decided,
        due_decision(s0.proposals@[idx], now) == Some(ProposalState::Accepted),
        s0.proposals@[idx].payload.associated_proposal_id matches Some(rid)
            && s0.proposals@[j].proposal_id@ == rid@,
        s0.proposals@[j].proposal_type == ProposalType::BountyRaised,
        s0.proposals@[j].proposal_status == ProposalState::Accepted,
        resolved(s0, s1, idx, now, out),
    ensures
        s1.proposals@[idx].proposal_status == ProposalState::Accepted,
        s1.proposals@[idx].effects_applied,
        s1.proposals@[j].proposal_status == ProposalState::Succeeded,
        out == match transfer_call(s0.dao.token_ledger_id, s0.proposals@[idx].payload) {
            Some(c) => seq![c],
            None => seq![],
        },
{
    assert(j != idx);
    assert(bounty_marked(
        s0.proposals@,
        s1.proposals@,
        idx,
        s0.proposals@[idx].payload.associated_proposal_id,
    ));
}

} // verus!
