use candid::Principal;
use neuropad::ids::{build_poll_options, option_id, proposal_id_from_seed};
use neuropad::saga::{
    create_ledger, CreationSaga, Program, SagaCommand, SagaError, SagaEvent, SagaStage,
    CREATE_CYCLES, INSTANCE_CYCLES, LEDGER_CYCLES,
};
use neuropad::types::CanisterInstallMode;

fn who(n: u8) -> Principal {
    Principal::from_slice(&[n])
}

#[test]
fn ledger_failure_deletes_created_instance() {
    let (mut saga, first) = CreationSaga::new();
    assert!(matches!(first, SagaCommand::CreateCanister { cycles } if cycles == CREATE_CYCLES));
    let c = saga.on_event(SagaEvent::Created(who(1)));
    assert!(matches!(c, SagaCommand::DepositCycles { canister, cycles }
        if canister == who(1) && cycles == INSTANCE_CYCLES));
    let c = saga.on_event(SagaEvent::Completed);
    assert!(matches!(c, SagaCommand::InstallCode { canister, mode: CanisterInstallMode::Install, program: Program::Governance }
        if canister == who(1)));
    let c = saga.on_event(SagaEvent::Completed);
    assert!(matches!(c, SagaCommand::CreateCanister { .. }));
    let c = saga.on_event(SagaEvent::Failed("out of cycles".to_string()));
    assert!(matches!(c, SagaCommand::Deprovision { canister } if canister == who(1)));
    let c = saga.on_event(SagaEvent::Failed("could not stop".to_string()));
    match c {
        SagaCommand::Abort {
            error: SagaError::LedgerProvisioning(msg),
        } => assert_eq!(msg, "out of cycles"),
        other => panic!("unexpected {:?}", other),
    }
    assert_eq!(saga.stage, SagaStage::Finished);
    assert!(saga.instance.is_none());
}

#[test]
fn link_failure_deletes_ledger_then_instance() {
    let (mut saga, _) = CreationSaga::new();
    saga.on_event(SagaEvent::Created(who(1)));
    saga.on_event(SagaEvent::Completed);
    saga.on_event(SagaEvent::Completed);
    let c = saga.on_event(SagaEvent::Created(who(2)));
    assert!(matches!(c, SagaCommand::DepositCycles { canister, cycles }
        if canister == who(2) && cycles == LEDGER_CYCLES));
    saga.on_event(SagaEvent::Completed);
    let c = saga.on_event(SagaEvent::Completed);
    assert!(matches!(c, SagaCommand::LinkLedger { instance, ledger }
        if instance == who(1) && ledger == who(2)));
    let c = saga.on_event(SagaEvent::Failed("rejected".to_string()));
    assert!(matches!(c, SagaCommand::Deprovision { canister } if canister == who(2)));
    let c = saga.on_event(SagaEvent::Completed);
    assert!(matches!(c, SagaCommand::Deprovision { canister } if canister == who(1)));
    let c = saga.on_event(SagaEvent::Completed);
    assert!(matches!(c, SagaCommand::Abort { error: SagaError::Linking(ref m) } if m == "rejected"));
}

#[test]
fn first_step_failure_has_nothing_to_delete() {
    let (mut saga, _) = CreationSaga::new();
    let c = saga.on_event(SagaEvent::Failed("no".to_string()));
    assert!(matches!(c, SagaCommand::Abort { error: SagaError::InstanceProvisioning(ref m) } if m == "no"));
}

#[test]
fn saga_success_reports_both_instances() {
    let (mut saga, _) = CreationSaga::new();
    saga.on_event(SagaEvent::Created(who(1)));
    saga.on_event(SagaEvent::Completed);
    saga.on_event(SagaEvent::Completed);
    saga.on_event(SagaEvent::Created(who(2)));
    let c = saga.on_event(SagaEvent::Completed);
    assert!(matches!(c, SagaCommand::InstallCode { canister, program: Program::Ledger, .. } if canister == who(2)));
    saga.on_event(SagaEvent::Completed);
    let c = saga.on_event(SagaEvent::Completed);
    assert!(matches!(c, SagaCommand::Finish { instance, ledger } if instance == who(1) && ledger == who(2)));
    assert_eq!(saga.stage, SagaStage::Finished);
}

#[test]
fn ledger_setup_credits_instance() {
    let setup = create_ledger(
        1_000,
        "Token".to_string(),
        "TOK".to_string(),
        who(9),
        who(3),
        who(1),
    );
    assert_eq!(setup.initial_balances, vec![(who(1), 1_000)]);
    assert_eq!(setup.minting_account, who(9));
    assert_eq!(setup.archive_controller, who(3));
    assert_eq!(setup.transfer_fee, 0);
    assert_eq!(setup.num_blocks_to_archive, 100);
    assert_eq!(setup.trigger_threshold, 100);
    assert!(setup.feature_flags.icrc2);
    assert_eq!(setup.token_symbol, "TOK");
}

#[test]
fn proposal_id_is_hex_digest() {
    let id = proposal_id_from_seed(&Vec::new());
    assert_eq!(
        id,
        "e3b0c44298fc1c149afbf4c8996fb92427ae41e4649b934ca495991b7852b855"
    );
    let other = proposal_id_from_seed(&vec![1, 2, 3]);
    assert_eq!(other.len(), 64);
    assert_ne!(other, id);
}

#[test]
fn option_ids_count_from_zero() {
    assert_eq!(option_id(&"abc".to_string(), 12), "abc-12");
    assert_eq!(option_id(&"abc".to_string(), 0), "abc-0");
    let options = build_poll_options(&"x".to_string(), &vec!["a".to_string(), "b".to_string()]);
    assert_eq!(options[1].id, "x-1");
    assert_eq!(options[1].option, "b");
    assert_eq!(options[0].poll_approved_votes, 0);
}

