use crate::types::{CanisterInstallMode, FeatureFlags};
use candid::Principal;
use vstd::prelude::*;

verus! {

/// Cycles paid to create an empty compute instance.
pub const CREATE_CYCLES: u128 = 1_000_000_000_000;

/// Cycles deposited into a new governance instance.
pub const INSTANCE_CYCLES: u128 = 300_000_000_000;

/// Cycles deposited into a new ledger instance.
pub const LEDGER_CYCLES: u128 = 150_000_000_000;

/// The program that an install step puts into an instance.
#[derive(PartialEq, Eq, Structural, Clone, Copy, Debug)]
pub enum Program {
    Governance,
    Ledger,
}

/// Where a creation saga stands.
#[derive(PartialEq, Eq, Structural, Clone, Copy, Debug)]
pub enum SagaStage {
    CreateInstance,
    FundInstance,
    InstallProgram,
    CreateLedger,
    FundLedger,
    InstallLedger,
    LinkLedger,
    /// A step failed; what was created is being removed.
    Compensating,
    Finished,
}

/// Why a creation saga failed, with the message of the failed step.
#[derive(Clone, Debug)]
pub enum SagaError {
    /// Creating, funding or installing the governance instance failed.
    InstanceProvisioning(String),
    /// Creating, funding or installing the ledger instance failed.
    LedgerProvisioning(String),
    /// Registering the ledger with the governance instance failed.
    Linking(String),
}

/// What the runtime is asked to do next.
#[derive(Clone, Debug)]
pub enum SagaCommand {
    /// Create an empty instance, paying `cycles`.
    CreateCanister { cycles: u128 },
    /// Deposit `cycles` into `canister`.
    DepositCycles { canister: Principal, cycles: u128 },
    /// Install `program` into `canister`.
    InstallCode { canister: Principal, mode: CanisterInstallMode, program: Program },
    /// Register `ledger` with the governance instance `instance`.
    LinkLedger { instance: Principal, ledger: Principal },
    /// Stop and delete `canister`; how that ends does not matter.
    Deprovision { canister: Principal },
    /// The saga succeeded.
    Finish { instance: Principal, ledger: Principal },
    /// The saga failed with `error`, after removing what it created.
    Abort { error: SagaError },
}

/// How the last command ended.
#[derive(Clone, Debug)]
pub enum SagaEvent {
    /// A create command gave this instance.
    Created(Principal),
    /// Any other command succeeded.
    Completed,
    /// The command failed with this message.
    Failed(String),
}

/// A creation saga: the instances it created and has not removed, the
/// failure it is rolling back from, if any, and where it stands.
#[derive(Clone, Debug)]
pub struct CreationSaga {
    pub stage: SagaStage,
    pub instance: Option<Principal>,
    pub ledger: Option<Principal>,
    pub failure: Option<SagaError>,
}

/// The error reported when the step `stage` fails with `msg`.
pub open spec fn failure_of(stage: SagaStage, msg: String) -> SagaError {
    match stage {
        SagaStage::CreateInstance | SagaStage::FundInstance | SagaStage::InstallProgram => {
            SagaError::InstanceProvisioning(msg)
        },
        SagaStage::CreateLedger | SagaStage::FundLedger | SagaStage::InstallLedger => {
            SagaError::LedgerProvisioning(msg)
        },
        _ => SagaError::Linking(msg),
    }
}

/// The event can answer the command handed out at `stage`: a create step
/// ends with an instance or a failure, the other forward steps do not give
/// an instance.
pub open spec fn fits(stage: SagaStage, ev: SagaEvent) -> bool {
    match stage {
        SagaStage::CreateInstance | SagaStage::CreateLedger => !(ev is Completed),
        SagaStage::Finished => false,
        SagaStage::Compensating => true,
        _ => !(ev is Created),
    }
}

/// The next removal while rolling back from `failure`: the ledger first,
/// then the governance instance, then the report of the failure.
pub open spec fn rollback(
    instance: Option<Principal>,
    ledger: Option<Principal>,
    failure: SagaError,
) -> (CreationSaga, SagaCommand) {
    let s = CreationSaga {
        stage: SagaStage::Compensating,
        instance,
        ledger,
        failure: Some(failure),
    };
    match ledger {
        Some(l) => (s, SagaCommand::Deprovision { canister: l }),
        None => match instance {
            Some(i) => (s, SagaCommand::Deprovision { canister: i }),
            None => (
                CreationSaga { stage: SagaStage::Finished, failure: None, ..s },
                SagaCommand::Abort { error: failure },
            ),
        },
    }
}

/// One step of the saga: the state after the event `ev` answers the last
/// command of `s`, and the command that follows.
pub open spec fn saga_step(s: CreationSaga, ev: SagaEvent) -> (CreationSaga, SagaCommand) {
    let i = s.instance->0;
    let l = s.ledger->0;
    match ev {
        SagaEvent::Failed(msg) if s.stage != SagaStage::Compensating => rollback(
            s.instance,
            s.ledger,
            failure_of(s.stage, msg),
        ),
        _ => match s.stage {
            SagaStage::CreateInstance => {
                let c = ev->Created_0;
                (
                    CreationSaga { stage: SagaStage::FundInstance, instance: Some(c), ..s },
                    SagaCommand::DepositCycles { canister: c, cycles: INSTANCE_CYCLES },
                )
            },
            SagaStage::FundInstance => (
                CreationSaga { stage: SagaStage::InstallProgram, ..s },
                SagaCommand::InstallCode {
                    canister: i,
                    mode: CanisterInstallMode::Install,
                    program: Program::Governance,
                },
            ),
            SagaStage::InstallProgram => (
                CreationSaga { stage: SagaStage::CreateLedger, ..s },
                SagaCommand::CreateCanister { cycles: CREATE_CYCLES },
            ),
            SagaStage::CreateLedger => {
                let c = ev->Created_0;
                (
                    CreationSaga { stage: SagaStage::FundLedger, ledger: Some(c), ..s },
                    SagaCommand::DepositCycles { canister: c, cycles: LEDGER_CYCLES },
                )
            },
            SagaStage::FundLedger => (
                CreationSaga { stage: SagaStage::InstallLedger, ..s },
                SagaCommand::InstallCode {
                    canister: l,
                    mode: CanisterInstallMode::Install,
                    program: Program::Ledger,
                },
            ),
            SagaStage::InstallLedger => (
                CreationSaga { stage: SagaStage::LinkLedger, ..s },
                SagaCommand::LinkLedger { instance: i, ledger: l },
            ),
            SagaStage::LinkLedger => (
                CreationSaga { stage: SagaStage::Finished, ..s },
                SagaCommand::Finish { instance: i, ledger: l },
            ),
            _ => {
                let f = s.failure->0;
                if s.ledger is Some {
                    rollback(s.instance, None, f)
                } else {
                    rollback(None, None, f)
                }
            },
        },
    }
}

/// A well-formed saga holds the instances that its stage has created, and
/// records a failure exactly while rolling back.
pub open spec fn saga_wf(s: CreationSaga) -> bool {
    match s.stage {
        SagaStage::CreateInstance => s.instance is None && s.ledger is None && s.failure is None,
        SagaStage::FundInstance | SagaStage::InstallProgram | SagaStage::CreateLedger => {
            s.instance is Some && s.ledger is None && s.failure is None
        },
        SagaStage::FundLedger | SagaStage::InstallLedger | SagaStage::LinkLedger => {
            s.instance is Some && s.ledger is Some && s.failure is None
        },
        SagaStage::Compensating => s.failure is Some && (s.instance is Some || s.ledger is Some),
        SagaStage::Finished => true,
    }
}

impl CreationSaga {
    pub open spec fn wf(&self) -> bool {
        saga_wf(*self)
    }

    /// A saga that has created nothing yet, and its first command.
    pub fn new() -> (r: (CreationSaga, SagaCommand))
        ensures
            r.0.wf(),
            r.0.stage == SagaStage::CreateInstance,
            r.0.instance is None && r.0.ledger is None && r.0.failure is None,
            r.1 == (SagaCommand::CreateCanister { cycles: CREATE_CYCLES }),
    {
        (
            CreationSaga {
                stage: SagaStage::CreateInstance,
                instance: None,
                ledger: None,
                failure: None,
            },
            SagaCommand::CreateCanister { cycles: CREATE_CYCLES },
        )
    }

    /// Takes the outcome of the last command and returns the next one. A
    /// failed step starts the rollback: every instance created so far is
    /// removed, the ledger first, whatever the removals give, and the saga
    /// then reports the failure of that step.
    pub fn on_event(&mut self, ev: SagaEvent) -> (r: SagaCommand)
        requires
            old(self).wf(),
            fits(old(self).stage, ev),
        ensures
            final(self).wf(),
            (*final(self), r) == saga_step(*old(self), ev),
    {
        let stage = self.stage;
        match ev {
            SagaEvent::Failed(msg) if stage != SagaStage::Compensating => {
                let failure = match stage {
                    SagaStage::CreateInstance | SagaStage::FundInstance
                    | SagaStage::InstallProgram => SagaError::InstanceProvisioning(msg),
                    SagaStage::CreateLedger | SagaStage::FundLedger
                    | SagaStage::InstallLedger => SagaError::LedgerProvisioning(msg),
                    _ => SagaError::Linking(msg),
                };
                self.roll_back(failure)
            },
            ev => match stage {
                SagaStage::CreateInstance => {
                    let c = match ev {
                        SagaEvent::Created(c) => c,
                        _ => {
                            proof {
                                assert(false);
                            }
                            return SagaCommand::CreateCanister { cycles: CREATE_CYCLES };
                        },
                    };
                    self.stage = SagaStage::FundInstance;
                    self.instance = Some(c);
                    SagaCommand::DepositCycles { canister: c, cycles: INSTANCE_CYCLES }
                },
                SagaStage::FundInstance => {
                    self.stage = SagaStage::InstallProgram;
                    SagaCommand::InstallCode {
                        canister: self.instance.unwrap(),
                        mode: CanisterInstallMode::Install,
                        program: Program::Governance,
                    }
                },
                SagaStage::InstallProgram => {
                    self.stage = SagaStage::CreateLedger;
                    SagaCommand::CreateCanister { cycles: CREATE_CYCLES }
                },
                SagaStage::CreateLedger => {
                    let c = match ev {
                        SagaEvent::Created(c) => c,
                        _ => {
                            proof {
                                assert(false);
                            }
                            return SagaCommand::CreateCanister { cycles: CREATE_CYCLES };
                        },
                    };
                    self.stage = SagaStage::FundLedger;
                    self.ledger = Some(c);
                    SagaCommand::DepositCycles { canister: c, cycles: LEDGER_CYCLES }
                },
                SagaStage::FundLedger => {
                    self.stage = SagaStage::InstallLedger;
                    SagaCommand::InstallCode {
                        canister: self.ledger.unwrap(),
                        mode: CanisterInstallMode::Install,
                        program: Program::Ledger,
                    }
                },
                SagaStage::InstallLedger => {
                    self.stage = SagaStage::LinkLedger;
                    SagaCommand::LinkLedger {
                        instance: self.instance.unwrap(),
                        ledger: self.ledger.unwrap(),
                    }
                },
                SagaStage::LinkLedger => {
                    self.stage = SagaStage::Finished;
                    SagaCommand::Finish {
                        instance: self.instance.unwrap(),
                        ledger: self.ledger.unwrap(),
                    }
                },
                _ => {
                    let failure = self.failure.take().unwrap();
                    if self.ledger.is_some() {
                        self.ledger = None;
                    } else {
                        self.instance = None;
                    }
                    self.roll_back(failure)
                },
            },
        }
    }

    /// Records `failure` and asks for the next removal; see `rollback`.
    fn roll_back(&mut self, failure: SagaError) -> (r: SagaCommand)
        ensures
            (*final(self), r) == rollback(old(self).instance, old(self).ledger, failure),
    {
        self.stage = SagaStage::Compensating;
        match self.ledger {
            Some(l) => {
                self.failure = Some(failure);
                SagaCommand::Deprovision { canister: l }
            },
            None => match self.instance {
                Some(i) => {
                    self.failure = Some(failure);
                    SagaCommand::Deprovision { canister: i }
                },
                None => {
                    self.stage = SagaStage::Finished;
                    self.failure = None;
                    SagaCommand::Abort { error: failure }
                },
            },
        }
    }
}

/// The settings of a new companion ledger.
#[derive(Clone, Debug)]
pub struct LedgerSetup {
    pub token_name: String,
    pub token_symbol: String,
    /// The account allowed to mint: the factory.
    pub minting_account: Principal,
    pub transfer_fee: u64,
    /// Balances at creation: the whole supply goes to the governance instance.
    pub initial_balances: Vec<(Principal, u64)>,
    /// Who controls the archive instances of the ledger.
    pub archive_controller: Principal,
    pub num_blocks_to_archive: u64,
    pub trigger_threshold: u64,
    pub feature_flags: FeatureFlags,
}

/// The settings of the ledger of a new governance instance `instance`, made
/// by `factory` on behalf of `caller`: the whole supply of `total_tokens` is
/// credited to the instance, the factory mints, transfers are free, and
/// approvals are enabled.
pub fn create_ledger(
    total_tokens: u64,
    token_name: String,
    token_symbol: String,
    factory: Principal,
    caller: Principal,
    instance: Principal,
) -> (r: LedgerSetup)
    ensures
        r.token_name == token_name,
        r.token_symbol == token_symbol,
        r.minting_account == factory,
        r.transfer_fee == 0,
        r.initial_balances@ == seq![(instance, total_tokens)],
        r.archive_controller == caller,
        r.num_blocks_to_archive == 100,
        r.trigger_threshold == 100,
        r.feature_flags == (FeatureFlags { icrc2: true }),
{
    let mut initial_balances: Vec<(Principal, u64)> = Vec::new();
    initial_balances.push((instance, total_tokens));
    assert(initial_balances@ =~= seq![(instance, total_tokens)]);
    LedgerSetup {
        token_name,
        token_symbol,
        minting_account: factory,
        transfer_fee: 0,
        initial_balances,
        archive_controller: caller,
        num_blocks_to_archive: 100,
        trigger_threshold: 100,
        feature_flags: FeatureFlags { icrc2: true },
    }
}

} // verus!
