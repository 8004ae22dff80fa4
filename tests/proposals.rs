use candid::Principal;
use neuropad::effects::Outbound;
use neuropad::error::DaoError;
use neuropad::init::DaoConfig;
use neuropad::requests::JoinOutcome;
use neuropad::state::State;
use neuropad::types::{
    AddMemberArgs, AddMemberToDaoArgs, BountyDone, BountyRaised, ChangeDaoConfigArg,
    ChangeDaoPolicy, CreateGeneralPurpose, CreatePoll, DaoGroup, JoinDao, MintTokenArgs,
    ProposalPlace, ProposalState, ProposalType, RemoveDaoMemberArgs, RemoveMemberArgs,
    TokenTransferPolicy, UpdateGroupPermission, UpdatePermissionPayload, VoteParam,
};

const DAY: u64 = 86_400_000_000_000;

fn who(n: u8) -> Principal {
    Principal::from_slice(&[n])
}

fn all_kinds() -> Vec<ProposalType> {
    vec![
        ProposalType::AddMemberToDaoProposal,
        ProposalType::AddMemberToGroupProposal,
        ProposalType::RemoveMemberToDaoProposal,
        ProposalType::RemoveMemberToGroupProposal,
        ProposalType::ChangeDaoConfig,
        ProposalType::ChangeDaoPolicy,
        ProposalType::ChangeGroupPermissions,
        ProposalType::TokenTransfer,
        ProposalType::BountyRaised,
        ProposalType::BountyDone,
        ProposalType::MintNewTokens,
        ProposalType::Polls,
        ProposalType::GeneralPurpose,
    ]
}

fn config(ask_to_join_dao: bool) -> DaoConfig {
    DaoConfig {
        dao_name: "alpha".to_string(),
        purpose: "testing".to_string(),
        cool_down_period: 1,
        required_votes: 3,
        ask_to_join_dao,
        members: vec![who(1), who(2), who(3), who(4), who(5)],
        members_permissions: vec![
            ProposalType::AddMemberToDaoProposal,
            ProposalType::AddMemberToGroupProposal,
            ProposalType::RemoveMemberToDaoProposal,
            ProposalType::RemoveMemberToGroupProposal,
            ProposalType::ChangeDaoConfig,
            ProposalType::ChangeDaoPolicy,
            ProposalType::ChangeGroupPermissions,
            ProposalType::TokenTransfer,
            ProposalType::BountyRaised,
            ProposalType::BountyDone,
            ProposalType::Polls,
            ProposalType::GeneralPurpose,
        ],
        proposal_entry: vec![
            ProposalPlace {
                place_name: "council".to_string(),
                min_required_thredshold: 51,
            },
            ProposalPlace {
                place_name: "builders".to_string(),
                min_required_thredshold: 60,
            },
        ],
        dao_groups: vec![DaoGroup {
            group_name: "builders".to_string(),
            group_members: vec![who(6), who(7)],
            group_permissions: vec![ProposalType::Polls],
            quorum_atleast: 1,
        }],
        daohouse_canister_id: who(100),
        token_ledger_id: who(101),
    }
}

fn dao() -> State {
    State::new(config(true)).unwrap()
}

fn accept(state: &mut State, id: &str, voters: &[u8], now: u64) -> Vec<Outbound> {
    let mut out = Vec::new();
    for v in voters {
        out = state
            .cast_vote(&id.to_string(), who(*v), VoteParam::Yes, now)
            .unwrap();
    }
    out
}

fn status(state: &State, id: &str) -> ProposalState {
    state.get_proposal(&id.to_string()).unwrap().proposal_status
}

#[test]
fn created_proposal_reads_back() {
    let mut state = dao();
    let args = ChangeDaoPolicy {
        cool_down_period: 7,
        required_votes: 2,
        ask_to_join_dao: false,
        description: "new policy".to_string(),
        proposal_entry: "council".to_string(),
    };
    let delay = state
        .proposal_to_change_dao_policy(who(1), args, "p1".to_string(), 500)
        .unwrap();
    assert_eq!(delay, DAY);
    let p = state.get_proposal(&"p1".to_string()).unwrap();
    assert_eq!(p.proposal_id, "p1");
    assert_eq!(p.proposal_title, "Change dao policy");
    assert_eq!(p.proposal_description, "new policy");
    assert_eq!(p.proposal_type, ProposalType::ChangeDaoPolicy);
    assert_eq!(p.proposal_status, ProposalState::Open);
    assert_eq!(p.proposal_submitted_at, 500);
    assert_eq!(p.proposal_expired_at, 500 + DAY);
    assert_eq!(p.required_votes, 3);
    assert_eq!(p.minimum_threadsold, 51);
    assert_eq!(p.created_by, who(1));
    assert_eq!(p.principal_of_action, who(1));
    assert_eq!(p.payload.cool_down_period, Some(7));
    assert_eq!(p.payload.new_required_votes, Some(2));
    assert_eq!(p.payload.ask_to_join_dao, Some(false));
    assert_eq!(p.payload.tokens, None);
    assert_eq!(state.dao.proposal_ids, vec!["p1".to_string()]);
}

#[test]
fn accepted_policy_and_config_change_the_instance() {
    let mut state = dao();
    let policy = ChangeDaoPolicy {
        cool_down_period: 7,
        required_votes: 2,
        ask_to_join_dao: false,
        description: "new policy".to_string(),
        proposal_entry: "council".to_string(),
    };
    state
        .proposal_to_change_dao_policy(who(1), policy, "p1".to_string(), 1)
        .unwrap();
    let config = ChangeDaoConfigArg {
        new_dao_name: "beta".to_string(),
        purpose: "building".to_string(),
        description: "rename".to_string(),
        proposal_entry: "council".to_string(),
    };
    state
        .proposal_to_change_dao_config(who(1), config, "p2".to_string(), 1)
        .unwrap();
    assert!(accept(&mut state, "p1", &[2, 3, 4], 2).is_empty());
    assert!(accept(&mut state, "p2", &[2, 3, 4], 2).is_empty());
    assert_eq!(state.dao.cool_down_period, 7);
    assert_eq!(state.dao.required_votes, 2);
    assert!(!state.dao.ask_to_join_dao);
    assert_eq!(state.dao.dao_name, "beta");
    assert_eq!(state.dao.purpose, "building");
}

#[test]
fn bounty_done_marks_bounty_succeeded() {
    let mut state = dao();
    let raise = BountyRaised {
        description: "fix the docs".to_string(),
        bounty_task: "docs".to_string(),
        proposal_entry: "council".to_string(),
        tokens: 40,
    };
    state
        .proposal_to_bounty_raised(who(1), raise, who(100), 1_000, "b1".to_string(), 1)
        .unwrap();
    let out = accept(&mut state, "b1", &[2, 3, 4], 2);
    assert_eq!(status(&state, "b1"), ProposalState::Accepted);
    assert_eq!(out.len(), 1);
    match out[0] {
        Outbound::Transfer { ledger, args } => {
            assert_eq!(ledger, who(101));
            assert_eq!(args.tokens, 40);
            assert_eq!(args.from, who(100));
            assert_eq!(args.to, who(1));
        }
        _ => panic!("expected a transfer"),
    }
    let done = BountyDone {
        description: "docs fixed".to_string(),
        tokens: 40,
        proposal_entry: "council".to_string(),
        associated_proposal_id: "b1".to_string(),
    };
    state
        .proposal_to_bounty_done(who(1), done, who(100), 1_000, "b2".to_string(), 3)
        .unwrap();
    let p = state.get_proposal(&"b2".to_string()).unwrap();
    assert_eq!(p.payload.bounty_task, Some("docs".to_string()));
    assert_eq!(p.payload.token_to, Some(who(1)));
    let out = accept(&mut state, "b2", &[2, 3, 4], 4);
    assert_eq!(out.len(), 1);
    assert_eq!(status(&state, "b2"), ProposalState::Accepted);
    assert_eq!(status(&state, "b1"), ProposalState::Succeeded);
}

#[test]
fn bounty_done_refusals() {
    let mut state = dao();
    general_purpose(&mut state, "g1");
    let done = |id: &str| BountyDone {
        description: "done".to_string(),
        tokens: 5,
        proposal_entry: "council".to_string(),
        associated_proposal_id: id.to_string(),
    };
    assert_eq!(
        state
            .proposal_to_bounty_done(who(1), done("b1"), who(100), 1, "x".to_string(), 1)
            .unwrap_err(),
        DaoError::InsufficientBalance
    );
    assert_eq!(
        state
            .proposal_to_bounty_done(who(1), done("zz"), who(100), 100, "x".to_string(), 1)
            .unwrap_err(),
        DaoError::ProposalNotFound
    );
    assert_eq!(
        state
            .proposal_to_bounty_done(who(1), done("g1"), who(100), 100, "x".to_string(), 1)
            .unwrap_err(),
        DaoError::NotBountyRaised
    );
    let raise = BountyRaised {
        description: "task".to_string(),
        bounty_task: "task".to_string(),
        proposal_entry: "council".to_string(),
        tokens: 5,
    };
    state
        .proposal_to_bounty_raised(who(1), raise, who(100), 100, "b1".to_string(), 1)
        .unwrap();
    assert_eq!(
        state
            .proposal_to_bounty_done(who(1), done("b1"), who(100), 100, "x".to_string(), 1)
            .unwrap_err(),
        DaoError::BountyNotAccepted
    );
    accept(&mut state, "b1", &[2, 3, 4], 2);
    assert_eq!(
        state
            .proposal_to_bounty_done(who(2), done("b1"), who(100), 100, "x".to_string(), 1)
            .unwrap_err(),
        DaoError::NotBountyOwner
    );
}

fn general_purpose(state: &mut State, id: &str) {
    let args = CreateGeneralPurpose {
        proposal_title: "ignored".to_string(),
        description: "question".to_string(),
        proposal_entry: "council".to_string(),
    };
    state
        .proposal_to_create_general_purpose(who(1), args, id.to_string(), 1)
        .unwrap();
}

#[test]
fn submission_refusals() {
    let mut state = dao();
    let general = |entry: &str| CreateGeneralPurpose {
        proposal_title: "t".to_string(),
        description: "d".to_string(),
        proposal_entry: entry.to_string(),
    };
    assert_eq!(
        state
            .proposal_to_create_general_purpose(who(1), general("nowhere"), "x".to_string(), 1)
            .unwrap_err(),
        DaoError::PlaceNotFound
    );
    assert_eq!(
        state
            .proposal_to_create_general_purpose(who(1), general("builders"), "x".to_string(), 1)
            .unwrap_err(),
        DaoError::NotGroupMember
    );
    assert_eq!(
        state
            .proposal_to_create_general_purpose(who(6), general("builders"), "x".to_string(), 1)
            .unwrap_err(),
        DaoError::NoGroupPermission
    );
    assert_eq!(
        state
            .proposal_to_create_general_purpose(who(6), general("council"), "x".to_string(), 1)
            .unwrap_err(),
        DaoError::NotMember
    );
    let mint = MintTokenArgs {
        total_amount: 10,
        description: "mint".to_string(),
        proposal_entry: "council".to_string(),
    };
    assert_eq!(
        state
            .proposal_to_mint_new_dao_tokens(who(1), mint, "x".to_string(), 1)
            .unwrap_err(),
        DaoError::NoMemberPermission
    );
    let zero = MintTokenArgs {
        total_amount: 0,
        description: "mint".to_string(),
        proposal_entry: "council".to_string(),
    };
    assert_eq!(
        state
            .proposal_to_mint_new_dao_tokens(who(1), zero, "x".to_string(), 1)
            .unwrap_err(),
        DaoError::NonPositiveAmount
    );
    general_purpose(&mut state, "g1");
    assert_eq!(
        state
            .proposal_to_create_general_purpose(who(1), general("council"), "g1".to_string(), 1)
            .unwrap_err(),
        DaoError::DuplicateProposalId
    );
    assert_eq!(state.proposals.len(), 1);
}

#[test]
fn membership_request_refusals() {
    let mut state = dao();
    let to_group = |group: &str, member: u8| AddMemberArgs {
        group_name: group.to_string(),
        new_member: who(member),
        description: "d".to_string(),
        proposal_entry: "council".to_string(),
    };
    assert_eq!(
        state
            .proposal_to_add_member_to_group(who(1), to_group("ghosts", 8), "x".to_string(), 1)
            .unwrap_err(),
        DaoError::GroupNotFound
    );
    assert_eq!(
        state
            .proposal_to_add_member_to_group(who(1), to_group("builders", 6), "x".to_string(), 1)
            .unwrap_err(),
        DaoError::MemberAlreadyInGroup
    );
    let from_group = |member: u8| RemoveMemberArgs {
        group_name: "builders".to_string(),
        action_member: who(member),
        description: "d".to_string(),
        proposal_entry: "council".to_string(),
    };
    assert_eq!(
        state
            .proposal_to_remove_member_to_group(who(1), from_group(8), "x".to_string(), 1)
            .unwrap_err(),
        DaoError::MemberNotInGroup
    );
    let to_council = AddMemberToDaoArgs {
        new_member: who(2),
        description: "d".to_string(),
        proposal_entry: "council".to_string(),
    };
    assert_eq!(
        state
            .proposal_to_add_member_to_council(who(1), to_council, "x".to_string(), 1)
            .unwrap_err(),
        DaoError::MemberAlreadyInDao
    );
    let from_council = RemoveDaoMemberArgs {
        action_member: who(9),
        description: "d".to_string(),
        proposal_entry: "council".to_string(),
    };
    assert_eq!(
        state
            .proposal_to_remove_member_to_dao(who(1), from_council, "x".to_string(), 1)
            .unwrap_err(),
        DaoError::MemberNotInDao
    );
    let to_self = TokenTransferPolicy {
        description: "d".to_string(),
        tokens: 3,
        to: who(1),
        proposal_entry: "council".to_string(),
    };
    assert_eq!(
        state
            .proposal_to_transfer_token(who(1), to_self, who(100), "x".to_string(), 1)
            .unwrap_err(),
        DaoError::SelfTransfer
    );
    let poor = BountyRaised {
        description: "d".to_string(),
        bounty_task: "t".to_string(),
        proposal_entry: "council".to_string(),
        tokens: 50,
    };
    assert_eq!(
        state
            .proposal_to_bounty_raised(who(1), poor, who(100), 49, "x".to_string(), 1)
            .unwrap_err(),
        DaoError::InsufficientBalance
    );
    assert!(state.proposals.is_empty());
}

#[test]
fn group_membership_effects() {
    let mut state = dao();
    let add = AddMemberArgs {
        group_name: "builders".to_string(),
        new_member: who(8),
        description: "d".to_string(),
        proposal_entry: "council".to_string(),
    };
    state
        .proposal_to_add_member_to_group(who(1), add, "a".to_string(), 1)
        .unwrap();
    assert!(accept(&mut state, "a", &[2, 3, 4], 2).is_empty());
    assert_eq!(
        state.get_members_of_group(&"builders".to_string()).unwrap(),
        &vec![who(6), who(7), who(8)]
    );
    assert!(state.dao.all_dao_user.contains(&who(8)));
    let remove = RemoveMemberArgs {
        group_name: "builders".to_string(),
        action_member: who(6),
        description: "d".to_string(),
        proposal_entry: "council".to_string(),
    };
    state
        .proposal_to_remove_member_to_group(who(1), remove, "r".to_string(), 1)
        .unwrap();
    accept(&mut state, "r", &[2, 3, 4], 2);
    assert_eq!(
        state.get_members_of_group(&"builders".to_string()).unwrap(),
        &vec![who(7), who(8)]
    );
    assert!(!state.dao.all_dao_user.contains(&who(6)));
    assert_eq!(
        state.get_members_of_group(&"ghosts".to_string()).unwrap_err(),
        DaoError::GroupNotFound
    );
    let perms = UpdatePermissionPayload {
        updated_permissions: UpdateGroupPermission {
            group_name: "builders".to_string(),
            updated_permissions: vec![ProposalType::GeneralPurpose, ProposalType::Polls],
        },
        description: "d".to_string(),
        proposal_entry: "council".to_string(),
    };
    state
        .api_to_update_permission_groups(who(1), perms, "u".to_string(), 1)
        .unwrap();
    accept(&mut state, "u", &[2, 3, 4], 2);
    assert_eq!(
        state.get_dao_groups()[0].group_permissions,
        vec![ProposalType::GeneralPurpose, ProposalType::Polls]
    );
}

#[test]
fn council_removal_notifies_factory() {
    let mut state = dao();
    let remove = RemoveDaoMemberArgs {
        action_member: who(5),
        description: "d".to_string(),
        proposal_entry: "council".to_string(),
    };
    state
        .proposal_to_remove_member_to_dao(who(1), remove, "r".to_string(), 1)
        .unwrap();
    let out = accept(&mut state, "r", &[2, 3, 4], 2);
    assert_eq!(out.len(), 1);
    assert!(matches!(out[0], Outbound::MemberLeft { member } if member == who(5)));
    assert_eq!(state.get_dao_members(), &vec![who(1), who(2), who(3), who(4)]);
    assert_eq!(state.members_count(), 4);
    assert_eq!(state.proposals_count(), 1);
}

#[test]
fn accepted_mint_asks_factory() {
    let mut cfg = config(true);
    cfg.members_permissions = all_kinds();
    let mut state = State::new(cfg).unwrap();
    let mint = MintTokenArgs {
        total_amount: 77,
        description: "mint".to_string(),
        proposal_entry: "council".to_string(),
    };
    state
        .proposal_to_mint_new_dao_tokens(who(1), mint, "m".to_string(), 1)
        .unwrap();
    let out = accept(&mut state, "m", &[2, 3, 4], 2);
    assert_eq!(out.len(), 1);
    assert!(matches!(out[0], Outbound::Mint { ledger, amount: 77 } if ledger == who(101)));
}

#[test]
fn poll_option_reaching_requirement_decides() {
    let mut state = dao();
    let poll = CreatePoll {
        description: "lunch".to_string(),
        poll_options: vec!["pizza".to_string(), "salad".to_string()],
        proposal_expired_at: 2,
        proposal_entry: "council".to_string(),
        poll_query: "what to eat".to_string(),
    };
    let delay = state
        .proposal_to_create_poll(who(1), poll, "base".to_string(), "q".to_string(), 5)
        .unwrap();
    assert_eq!(delay, 2 * DAY);
    let p = state.get_proposal(&"q".to_string()).unwrap();
    assert_eq!(p.poll_options.len(), 2);
    assert_eq!(p.poll_options[0].id, "base-0");
    assert_eq!(p.poll_options[1].id, "base-1");
    assert_eq!(p.poll_options[1].option, "salad");
    let id = "q".to_string();
    let option = "base-1".to_string();
    assert_eq!(
        state
            .cast_vote(&id, who(2), VoteParam::Yes, 6)
            .unwrap_err(),
        DaoError::WrongProposalType
    );
    assert_eq!(
        state
            .vote_on_poll_options(&id, &"base-9".to_string(), who(2), 6)
            .unwrap_err(),
        DaoError::OptionNotFound
    );
    state.vote_on_poll_options(&id, &option, who(2), 6).unwrap();
    assert_eq!(
        state.vote_on_poll_options(&id, &option, who(2), 6).unwrap_err(),
        DaoError::AlreadyVoted
    );
    state
        .vote_on_poll_options(&id, &"base-0".to_string(), who(3), 6)
        .unwrap();
    state.vote_on_poll_options(&id, &option, who(4), 6).unwrap();
    assert_eq!(status(&state, "q"), ProposalState::Open);
    assert_eq!(
        state.vote_on_poll_options(&id, &option, who(5), 6).unwrap_err(),
        DaoError::VoteCapReached
    );
    let p = state.get_proposal(&id).unwrap();
    assert_eq!(p.poll_options[1].poll_approved_votes, 2);
    assert_eq!(p.proposal_approved_votes, 3);
    let general = "g".to_string();
    general_purpose(&mut state, "g");
    assert_eq!(
        state
            .vote_on_poll_options(&general, &option, who(2), 6)
            .unwrap_err(),
        DaoError::WrongProposalType
    );
}

#[test]
fn poll_option_with_all_votes_is_accepted() {
    let mut state = dao();
    let poll = CreatePoll {
        description: "lunch".to_string(),
        poll_options: vec!["pizza".to_string()],
        proposal_expired_at: 1,
        proposal_entry: "council".to_string(),
        poll_query: "what to eat".to_string(),
    };
    state
        .proposal_to_create_poll(who(1), poll, "b".to_string(), "q".to_string(), 5)
        .unwrap();
    let id = "q".to_string();
    let option = "b-0".to_string();
    for v in 2..=4 {
        state.vote_on_poll_options(&id, &option, who(v), 6).unwrap();
    }
    assert_eq!(status(&state, "q"), ProposalState::Accepted);
    assert_eq!(
        state.vote_on_poll_options(&id, &option, who(5), 6).unwrap_err(),
        DaoError::VoteCapReached
    );
}

#[test]
fn open_instance_admits_at_once() {
    let mut state = State::new(config(false)).unwrap();
    let join = JoinDao {
        place_to_join: "builders".to_string(),
    };
    let r = state
        .ask_to_join_dao(who(20), join, "j".to_string(), 1)
        .unwrap();
    assert!(matches!(r, JoinOutcome::Joined(Outbound::MemberJoined { member }) if member == who(20)));
    assert!(state.dao.all_dao_user.contains(&who(20)));
    assert!(state.proposals.is_empty());
    let again = JoinDao {
        place_to_join: "builders".to_string(),
    };
    assert_eq!(
        state
            .ask_to_join_dao(who(20), again, "j".to_string(), 1)
            .unwrap_err(),
        DaoError::AlreadyInDao
    );
    let nowhere = JoinDao {
        place_to_join: "ghosts".to_string(),
    };
    assert_eq!(
        state
            .ask_to_join_dao(who(21), nowhere, "j".to_string(), 1)
            .unwrap_err(),
        DaoError::GroupNotFound
    );
}

#[test]
fn closed_instance_takes_a_vote() {
    let mut state = dao();
    let join = JoinDao {
        place_to_join: "builders".to_string(),
    };
    let r = state.ask_to_join_dao(who(20), join, "j".to_string(), 1).unwrap();
    assert!(matches!(r, JoinOutcome::Requested(d) if d == DAY));
    assert_eq!(state.dao.requested_dao_user, vec![who(20)]);
    let p = state.get_proposal(&"j".to_string()).unwrap();
    assert_eq!(p.proposal_type, ProposalType::AddMemberToGroupProposal);
    assert_eq!(p.proposal_description, "Request to join DAO");
    assert_eq!(p.minimum_threadsold, 60);
    let twice = JoinDao {
        place_to_join: "builders".to_string(),
    };
    assert_eq!(
        state
            .ask_to_join_dao(who(20), twice, "k".to_string(), 1)
            .unwrap_err(),
        DaoError::ProposalExists
    );
    let nowhere = JoinDao {
        place_to_join: "ghosts".to_string(),
    };
    assert_eq!(
        state
            .ask_to_join_dao(who(21), nowhere, "k".to_string(), 1)
            .unwrap_err(),
        DaoError::PlaceNotFound
    );
    accept(&mut state, "j", &[1, 2, 3], 2);
    assert!(state.dao.requested_dao_user.is_empty());
    assert!(state
        .get_members_of_group(&"builders".to_string())
        .unwrap()
        .contains(&who(20)));
}

#[test]
fn new_instance_checks_names() {
    let mut cfg = config(true);
    cfg.proposal_entry.push(ProposalPlace {
        place_name: "council".to_string(),
        min_required_thredshold: 1,
    });
    assert_eq!(State::new(cfg).err(), Some(DaoError::DuplicateName));
    let state = dao();
    assert_eq!(state.dao.all_dao_user.len(), 7);
    assert!(state.dao.all_dao_user.contains(&who(7)));
}

#[test]
fn only_factory_registers_ledger() {
    let mut state = dao();
    assert_eq!(
        state.add_ledger_canister_id(who(1), who(55)).unwrap_err(),
        DaoError::NotAllowed
    );
    state.add_ledger_canister_id(who(100), who(55)).unwrap();
    assert_eq!(state.dao.token_ledger_id, who(55));
}

#[test]
fn poll_creator_may_not_choose() {
    let mut state = dao();
    let poll = CreatePoll {
        description: "lunch".to_string(),
        poll_options: vec!["pizza".to_string()],
        proposal_expired_at: 1,
        proposal_entry: "council".to_string(),
        poll_query: "what to eat".to_string(),
    };
    state
        .proposal_to_create_poll(who(1), poll, "b".to_string(), "q".to_string(), 5)
        .unwrap();
    assert_eq!(
        state
            .vote_on_poll_options(&"q".to_string(), &"b-0".to_string(), who(1), 6)
            .unwrap_err(),
        DaoError::SelfVote
    );
    let p = state.get_proposal(&"q".to_string()).unwrap();
    assert_eq!(p.proposal_approved_votes, 0);
    assert!(p.poll_options[0].approved_users.is_empty());
}

#[test]
fn new_instance_refuses_repeated_members() {
    let mut cfg = config(true);
    cfg.members.push(who(1));
    assert_eq!(State::new(cfg).err(), Some(DaoError::DuplicateMember));
    let mut cfg = config(true);
    cfg.dao_groups[0].group_members.push(who(6));
    assert_eq!(State::new(cfg).err(), Some(DaoError::DuplicateMember));
}

#[test]
fn well_formedness_is_checked() {
    let mut state = dao();
    general_purpose(&mut state, "g1");
    assert!(state.check_wf());
    state.proposals[0].proposal_approved_votes = 1;
    assert!(!state.check_wf());
    let mut state = dao();
    state.dao.members.push(who(1));
    assert!(!state.check_wf());
}

#[test]
fn sweep_leaves_decided_proposals_alone() {
    let mut state = dao();
    general_purpose(&mut state, "g1");
    general_purpose(&mut state, "g2");
    let id = "g1".to_string();
    for v in 2..=4 {
        state.cast_vote(&id, who(v), VoteParam::No, 2).unwrap();
    }
    assert_eq!(status(&state, "g1"), ProposalState::Rejected);
    state.check_proposals(1 + 2 * DAY);
    assert_eq!(status(&state, "g1"), ProposalState::Rejected);
    assert_eq!(status(&state, "g2"), ProposalState::Unreachable);
    assert_eq!(state.get_proposal(&id).unwrap().proposal_rejected_votes, 3);
}
