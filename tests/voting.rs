use candid::Principal;
use neuropad::effects::{make_payment, transfer_covered, Outbound};
use neuropad::resolve::check_proposal_state;
use neuropad::types::TokenTransferArgs;
use neuropad::error::DaoError;
use neuropad::init::DaoConfig;
use neuropad::state::State;
use neuropad::tally::{approval_reaches, decide};
use neuropad::types::{
    AddMemberToDaoArgs, CreateGeneralPurpose, DaoGroup, ProposalPlace, ProposalState, ProposalType,
    TokenTransferPolicy, VoteParam,
};

const DAY: u64 = 86_400_000_000_000;

fn who(n: u8) -> Principal {
    Principal::from_slice(&[n])
}

fn all_kinds() -> Vec<ProposalType> {
    vec![
        ProposalType::AddMemberToDaoProposal,
        ProposalType::AddMemberToGroupProposal,
        ProposalType::RemoveMemberToDaoProposal,
        ProposalType::RemoveMemberToGroupProposal,
        ProposalType::ChangeDaoConfig,
        ProposalType::ChangeDaoPolicy,
        ProposalType::ChangeGroupPermissions,
        ProposalType::TokenTransfer,
        ProposalType::BountyRaised,
        ProposalType::BountyDone,
        ProposalType::MintNewTokens,
        ProposalType::Polls,
        ProposalType::GeneralPurpose,
    ]
}

fn dao(required_votes: u32) -> State {
    let config = DaoConfig {
        dao_name: "alpha".to_string(),
        purpose: "testing".to_string(),
        cool_down_period: 1,
        required_votes,
        ask_to_join_dao: true,
        members: vec![who(1), who(2), who(3), who(4), who(5)],
        members_permissions: all_kinds(),
        proposal_entry: vec![ProposalPlace {
            place_name: "council".to_string(),
            min_required_thredshold: 51,
        }],
        dao_groups: vec![DaoGroup {
            group_name: "builders".to_string(),
            group_members: vec![who(6)],
            group_permissions: vec![ProposalType::Polls],
            quorum_atleast: 1,
        }],
        daohouse_canister_id: who(100),
        token_ledger_id: who(101),
    };
    State::new(config).unwrap()
}

fn general(state: &mut State, by: u8, id: &str, now: u64) {
    let args = CreateGeneralPurpose {
        proposal_title: "title".to_string(),
        description: "a general question".to_string(),
        proposal_entry: "council".to_string(),
    };
    state
        .proposal_to_create_general_purpose(who(by), args, id.to_string(), now)
        .unwrap();
}

fn status(state: &State, id: &str) -> ProposalState {
    state.get_proposal(&id.to_string()).unwrap().proposal_status
}

#[test]
fn two_approve_one_reject_is_accepted() {
    let mut state = dao(3);
    general(&mut state, 1, "p1", 10);
    let id = "p1".to_string();
    assert!(state.cast_vote(&id, who(2), VoteParam::Yes, 11).unwrap().is_empty());
    assert!(state.cast_vote(&id, who(3), VoteParam::Yes, 12).unwrap().is_empty());
    assert_eq!(status(&state, "p1"), ProposalState::Open);
    state.cast_vote(&id, who(4), VoteParam::No, 13).unwrap();
    assert_eq!(status(&state, "p1"), ProposalState::Accepted);
    let p = state.get_proposal(&id).unwrap();
    assert!(p.decided);
    assert!(p.effects_applied);
    assert_eq!(decide(2, 1, 3, 51, false), Some(ProposalState::Accepted));
}

#[test]
fn one_approve_two_reject_is_rejected() {
    let mut state = dao(3);
    general(&mut state, 1, "p1", 10);
    let id = "p1".to_string();
    state.cast_vote(&id, who(2), VoteParam::Yes, 11).unwrap();
    state.cast_vote(&id, who(3), VoteParam::No, 12).unwrap();
    state.cast_vote(&id, who(4), VoteParam::No, 13).unwrap();
    assert_eq!(status(&state, "p1"), ProposalState::Rejected);
    assert!(!state.get_proposal(&id).unwrap().effects_applied);
    assert_eq!(decide(1, 2, 3, 51, false), Some(ProposalState::Rejected));
}

#[test]
fn expiry_without_votes_is_unreachable() {
    let mut state = dao(3);
    general(&mut state, 1, "p1", 10);
    assert!(state.check_proposals(10 + DAY - 1).is_empty());
    assert_eq!(status(&state, "p1"), ProposalState::Open);
    assert!(state.check_proposals(10 + DAY).is_empty());
    assert_eq!(status(&state, "p1"), ProposalState::Unreachable);
    assert_eq!(decide(0, 0, 3, 51, true), Some(ProposalState::Unreachable));
}

#[test]
fn expiry_with_enough_votes_decides_by_share() {
    assert_eq!(decide(0, 0, 0, 51, true), Some(ProposalState::Expired));
    assert_eq!(decide(0, 0, 0, 0, true), Some(ProposalState::Accepted));
    assert_eq!(decide(1, 1, 3, 51, false), None);
    assert_eq!(decide(1, 1, 3, 51, true), Some(ProposalState::Unreachable));
}

#[test]
fn threshold_compares_exact_shares() {
    assert!(approval_reaches(1, 1, 50));
    assert!(!approval_reaches(1, 1, 51));
    assert!(!approval_reaches(1, 2, 34));
    assert!(approval_reaches(1, 2, 33));
    assert!(approval_reaches(0, 0, 0));
    assert!(!approval_reaches(0, 0, 1));
    assert!(!approval_reaches(5, 0, 101));
    assert!(approval_reaches(5, 0, 100));
}

#[test]
fn votes_never_exceed_requirement() {
    let mut state = dao(0);
    general(&mut state, 1, "p1", 10);
    let id = "p1".to_string();
    assert_eq!(
        state.cast_vote(&id, who(2), VoteParam::Yes, 11).unwrap_err(),
        DaoError::VoteCapReached
    );
    let p = state.get_proposal(&id).unwrap();
    assert_eq!(p.proposal_approved_votes + p.proposal_rejected_votes, 0);

    let mut state = dao(3);
    general(&mut state, 1, "p2", 10);
    let id = "p2".to_string();
    for n in 2..=4 {
        state.cast_vote(&id, who(n), VoteParam::Yes, 11).unwrap();
    }
    assert_eq!(
        state.cast_vote(&id, who(5), VoteParam::Yes, 12).unwrap_err(),
        DaoError::NotOpen
    );
    let p = state.get_proposal(&id).unwrap();
    assert_eq!(p.proposal_approved_votes + p.proposal_rejected_votes, 3);
}

#[test]
fn no_voter_on_both_sides() {
    let mut state = dao(3);
    general(&mut state, 1, "p1", 10);
    let id = "p1".to_string();
    state.cast_vote(&id, who(2), VoteParam::Yes, 11).unwrap();
    assert_eq!(
        state.cast_vote(&id, who(2), VoteParam::No, 12).unwrap_err(),
        DaoError::AlreadyVoted
    );
    assert_eq!(
        state.cast_vote(&id, who(2), VoteParam::Yes, 12).unwrap_err(),
        DaoError::AlreadyVoted
    );
    let p = state.get_proposal(&id).unwrap();
    assert_eq!(p.approved_votes_list, vec![who(2)]);
    assert!(p.rejected_votes_list.is_empty());
}

#[test]
fn timer_after_deciding_vote_runs_no_second_effect() {
    let mut state = dao(3);
    let args = AddMemberToDaoArgs {
        new_member: who(9),
        description: "welcome".to_string(),
        proposal_entry: "council".to_string(),
    };
    state
        .proposal_to_add_member_to_council(who(1), args, "p1".to_string(), 10)
        .unwrap();
    let id = "p1".to_string();
    state.cast_vote(&id, who(2), VoteParam::Yes, 11).unwrap();
    state.cast_vote(&id, who(3), VoteParam::Yes, 12).unwrap();
    let out = state.cast_vote(&id, who(4), VoteParam::Yes, 13).unwrap();
    assert_eq!(out.len(), 1);
    assert!(matches!(out[0], Outbound::MemberJoined { member } if member == who(9)));
    assert_eq!(state.get_dao_members().len(), 6);
    let later = state.check_proposals(10 + 2 * DAY);
    assert!(later.is_empty());
    let again = state.execute_proposal_on_required_vote(&id, 10 + 3 * DAY);
    assert!(again.is_empty());
    assert_eq!(state.get_dao_members().len(), 6);
    assert_eq!(status(&state, "p1"), ProposalState::Accepted);
}

#[test]
fn vote_refusals() {
    let mut state = dao(3);
    general(&mut state, 1, "p1", 10);
    let id = "p1".to_string();
    assert_eq!(
        state.cast_vote(&id, who(77), VoteParam::Yes, 11).unwrap_err(),
        DaoError::NotDaoUser
    );
    assert_eq!(
        state
            .cast_vote(&"nope".to_string(), who(2), VoteParam::Yes, 11)
            .unwrap_err(),
        DaoError::ProposalNotFound
    );
    assert_eq!(
        state.cast_vote(&id, who(1), VoteParam::Yes, 11).unwrap_err(),
        DaoError::SelfVote
    );
}

#[test]
fn transfer_recipient_may_not_vote() {
    let mut state = dao(3);
    let args = TokenTransferPolicy {
        description: "pay".to_string(),
        tokens: 10,
        to: who(2),
        proposal_entry: "council".to_string(),
    };
    state
        .proposal_to_transfer_token(who(1), args, who(100), "t1".to_string(), 10)
        .unwrap();
    assert_eq!(
        state
            .cast_vote(&"t1".to_string(), who(2), VoteParam::Yes, 11)
            .unwrap_err(),
        DaoError::SelfVote
    );
}

#[test]
fn timer_decides_expired_proposal_by_votes_cast() {
    let mut state = dao(3);
    general(&mut state, 1, "p1", 10);
    let id = "p1".to_string();
    state.cast_vote(&id, who(2), VoteParam::Yes, 11).unwrap();
    state.cast_vote(&id, who(3), VoteParam::Yes, 12).unwrap();
    state.check_proposals(10 + DAY);
    assert_eq!(status(&state, "p1"), ProposalState::Unreachable);
}

#[test]
fn restart_rearms_undecided_proposals() {
    let mut state = dao(3);
    general(&mut state, 1, "p1", 10);
    general(&mut state, 1, "p2", 20);
    state.check_proposals(10 + DAY);
    assert_eq!(state.rearm_delays(15 + DAY), vec![None, Some(5)]);
    assert_eq!(state.rearm_delays(30 + DAY), vec![None, Some(0)]);
    assert!(check_proposal_state(&(10 + DAY), 10 + DAY));
    assert!(!check_proposal_state(&(10 + DAY), 9 + DAY));
}

#[test]
fn payments_and_balances() {
    assert_eq!(make_payment(0, who(1), who(100)).unwrap_err(), DaoError::NonPositiveAmount);
    let args = make_payment(25, who(1), who(100)).unwrap();
    assert_eq!(args.tokens, 25);
    assert_eq!(args.from, who(1));
    assert_eq!(args.to, who(100));
    let t = TokenTransferArgs {
        tokens: 10,
        from: who(1),
        to: who(2),
    };
    assert!(transfer_covered(10, &t));
    assert!(!transfer_covered(9, &t));
}

#[test]
fn pending_request_is_detected() {
    let mut state = dao(3);
    let args = AddMemberToDaoArgs {
        new_member: who(9),
        description: "welcome".to_string(),
        proposal_entry: "council".to_string(),
    };
    state
        .proposal_to_add_member_to_council(who(1), args, "p1".to_string(), 10)
        .unwrap();
    assert_eq!(
        state
            .guard_check_if_proposal_exists(who(9), ProposalType::AddMemberToDaoProposal)
            .unwrap_err(),
        DaoError::ProposalExists
    );
    assert!(state
        .guard_check_if_proposal_exists(who(9), ProposalType::RemoveMemberToDaoProposal)
        .is_ok());
}
