use vstd::prelude::*;

use crate::decode::{count_at, index_at, locate, DecodedIdMessage, RunningOnPart, RuntimeOtaInfo};
use crate::model::{OtaCommand, OtaMessage, OtaState, Partition};

verus! {

/// How an invocation of an operation ended.
#[derive(Debug, Clone, Copy, PartialEq, Eq, Structural)]
pub enum ExitDisposition {
    Success,
    Retry,
    Abort,
}

/// What the engine waits for after an operation's body has run.
#[derive(Debug, Clone, Copy, PartialEq, Eq, Structural)]
pub enum WaitStrategy {
    AwaitPowerCycle,
    AwaitIdentityRefresh,
}

/// The two marks that settle a pending firmware image.
#[derive(Debug, Clone, Copy, PartialEq, Eq, Structural)]
pub enum Mark {
    Validate,
    Rollback,
}

/// A command sent to a device.
#[derive(Debug, Clone, PartialEq, Eq)]
pub enum Command {
    /// Published on the OTA command topic.
    Ota(OtaCommand),
    /// Published, with an empty body, on the restart topic.
    Restart,
}

/// Device state that makes an operation unsafe to start.
#[derive(Debug, Clone, Copy, PartialEq, Eq, Structural)]
pub enum PreconditionFailure {
    /// The OTA state of the factory partition cannot be changed.
    FactoryPartition,
    /// The running partition's OTA state does not allow the mark.
    UnacceptableOtaState { state: OtaState },
    /// The device reports that rollback is not possible.
    RollbackNotPossible,
    /// The running slot and OTA state do not allow an update.
    UnacceptableRunningState { part: RunningOnPart, state: OtaState },
}

/// Observed device state that contradicts what the issued command implies.
#[derive(Debug, Clone, Copy, PartialEq, Eq, Structural)]
pub enum ConsistencyFault {
    /// The device runs its factory image from `address` where an OTA slot was
    /// required.
    RunningOnFactory { address: usize },
    /// The device runs from `found` where `expected` was required.
    UnexpectedRunningAddress { expected: usize, found: usize },
    /// The partition at `address` reports an OTA state outside the expected set.
    UnexpectedOtaState { address: usize, state: OtaState },
    /// The device runs from `current` while the partition at `original`
    /// still waits for verification.
    MovedWhilePending { original: usize, current: usize },
    /// The partition at `address` is marked invalid yet still runs.
    StillRunningInvalid { address: usize },
    /// The current table has no single partition at `address`.
    PartitionNotUnique { address: usize },
}

/// What an operation's body does once the initial snapshot is known.
#[derive(Debug, Clone, PartialEq, Eq)]
pub enum BodyPlan {
    /// Nothing is published; the invocation aborts.
    Refuse(PreconditionFailure),
    /// After an operator confirmation, `Restart` is published and the
    /// invocation ends in `Retry`.
    ConfirmThenRestart,
    /// The command is published and the body ends in `Success`.
    Send(Command),
    /// The command is published, then the download progress is followed (see
    /// `progress_step`).
    SendThenFollow(Command),
}

/// What the body does on one event of the download progress.
#[derive(Debug, Clone, Copy, PartialEq, Eq, Structural)]
pub enum ProgressStep {
    /// Keep listening.
    Continue,
    /// Publish `Restart`; the body ends in `Success`.
    RestartThenSucceed,
    /// The body ends in `Abort` without a restart.
    Abort,
}

/// The operations that can be run against a device.
#[derive(Debug, Clone, PartialEq, Eq)]
pub enum Operation {
    Restart,
    FirmwareUpdate { url: String, ca_cert: String },
    Mark(Mark),
}

impl Mark {
    /// The word by which the mark is named to the operator.
    pub fn label(&self) -> (r: &'static str)
        ensures
            *self == Mark::Validate ==> r@ == "validate"@,
            *self == Mark::Rollback ==> r@ == "rollback"@,
    {
        match self {
            Mark::Validate => "validate",
            Mark::Rollback => "rollback",
        }
    }

    pub open spec fn spec_ota_command(self) -> OtaCommand {
        match self {
            Mark::Validate => OtaCommand::Validate,
            Mark::Rollback => OtaCommand::Rollback,
        }
    }

    pub fn get_ota_command(&self) -> (r: OtaCommand)
        ensures
            r == self.spec_ota_command(),
    {
        match self {
            Mark::Validate => OtaCommand::Validate,
            Mark::Rollback => OtaCommand::Rollback,
        }
    }

    /// Validate needs `PendingVerify`; rollback also accepts `Valid`.
    pub open spec fn spec_is_acceptable_initial_ota_state(self, state: OtaState) -> bool {
        state == OtaState::PendingVerify || (self == Mark::Rollback && state == OtaState::Valid)
    }

    pub fn is_acceptable_initial_ota_state(&self, state: OtaState) -> (r: bool)
        ensures
            r == self.spec_is_acceptable_initial_ota_state(state),
    {
        match (self, state) {
            (Mark::Validate, OtaState::PendingVerify) => true,
            (Mark::Rollback, OtaState::PendingVerify) => true,
            (Mark::Rollback, OtaState::Valid) => true,
            _ => false,
        }
    }

    /// Whether a mark has taken effect, judged from the snapshot taken before
    /// the command (`o`) and a later one (`c`, with its partition list `list`).
    pub open spec fn spec_is_command_completed(
        self,
        o: RuntimeOtaInfo,
        c: RuntimeOtaInfo,
        list: Seq<Partition>,
    ) -> Result<bool, ConsistencyFault> {
        match self {
            Mark::Validate => validate_converged(o, c),
            Mark::Rollback => rollback_converged(o, c, list),
        }
    }

    pub fn is_command_completed(
        &self,
        original_id: &DecodedIdMessage,
        current_id: &DecodedIdMessage,
    ) -> (r: Result<bool, ConsistencyFault>)
        ensures
            r == self.spec_is_command_completed(
                original_id.ota_info,
                current_id.ota_info,
                current_id.msg.software.partitions.list@,
            ),
    {
        let o = original_id.ota_info;
        let c = current_id.ota_info;
        match self {
            Mark::Validate => {
                if c.running_addr != o.running_addr {
                    return Err(
                        ConsistencyFault::UnexpectedRunningAddress {
                            expected: o.running_addr,
                            found: c.running_addr,
                        },
                    );
                }
                if let RunningOnPart::Factory = c.running_on_part {
                    return Err(ConsistencyFault::RunningOnFactory { address: c.running_addr });
                }
                match c.running_ota_state {
                    OtaState::PendingVerify => Ok(false),
                    OtaState::Valid => Ok(true),
                    state => Err(
                        ConsistencyFault::UnexpectedOtaState { address: c.running_addr, state },
                    ),
                }
            },
            Mark::Rollback => {
                let list = &current_id.msg.software.partitions.list;
                let (count, index) = locate(list, o.running_addr);
                if count != 1 {
                    return Err(ConsistencyFault::PartitionNotUnique { address: o.running_addr });
                }
                let changed = c.running_addr != o.running_addr;
                match list[index].ota_state {
                    OtaState::PendingVerify => {
                        if changed {
                            Err(
                                ConsistencyFault::MovedWhilePending {
                                    original: o.running_addr,
                                    current: c.running_addr,
                                },
                            )
                        } else {
                            Ok(false)
                        }
                    },
                    OtaState::Invalid => {
                        if changed {
                            Ok(true)
                        } else {
                            Err(ConsistencyFault::StillRunningInvalid { address: o.running_addr })
                        }
                    },
                    state => Err(
                        ConsistencyFault::UnexpectedOtaState { address: o.running_addr, state },
                    ),
                }
            },
        }
    }
}

/// Validation has taken effect once the same OTA slot reports `Valid`.
pub open spec fn validate_converged(o: RuntimeOtaInfo, c: RuntimeOtaInfo) -> Result<
    bool,
    ConsistencyFault,
> {
    if c.running_addr != o.running_addr {
        Err(
            ConsistencyFault::UnexpectedRunningAddress {
                expected: o.running_addr,
                found: c.running_addr,
            },
        )
    } else if c.running_on_part == RunningOnPart::Factory {
        Err(ConsistencyFault::RunningOnFactory { address: c.running_addr })
    } else if c.running_ota_state == OtaState::PendingVerify {
        Ok(false)
    } else if c.running_ota_state == OtaState::Valid {
        Ok(true)
    } else {
        Err(
            ConsistencyFault::UnexpectedOtaState {
                address: c.running_addr,
                state: c.running_ota_state,
            },
        )
    }
}

/// Rollback has taken effect once the partition that ran before reports
/// `Invalid` and the device runs from another one.
pub open spec fn rollback_converged(
    o: RuntimeOtaInfo,
    c: RuntimeOtaInfo,
    list: Seq<Partition>,
) -> Result<bool, ConsistencyFault> {
    let addr = o.running_addr;
    let changed = c.running_addr != addr;
    if count_at(list, addr) != 1 {
        Err(ConsistencyFault::PartitionNotUnique { address: addr })
    } else {
        let state = list[index_at(list, addr)].ota_state;
        if state == OtaState::PendingVerify {
            if changed {
                Err(ConsistencyFault::MovedWhilePending { original: addr, current: c.running_addr })
            } else {
                Ok(false)
            }
        } else if state == OtaState::Invalid {
            if changed {
                Ok(true)
            } else {
                Err(ConsistencyFault::StillRunningInvalid { address: addr })
            }
        } else {
            Err(ConsistencyFault::UnexpectedOtaState { address: addr, state })
        }
    }
}

/// An update has taken effect once the device runs from the slot that was
/// named for the next update.
pub open spec fn update_converged(o: RuntimeOtaInfo, c: RuntimeOtaInfo) -> Result<
    bool,
    ConsistencyFault,
> {
    if c.running_addr == o.running_addr {
        Ok(false)
    } else if c.running_addr == o.next_update_addr {
        Ok(true)
    } else {
        Err(
            ConsistencyFault::UnexpectedRunningAddress {
                expected: o.next_update_addr,
                found: c.running_addr,
            },
        )
    }
}


/// Slot and state combinations from which an update may start.
pub open spec fn update_allowed(part: RunningOnPart, state: OtaState) -> bool {
    (part == RunningOnPart::Factory && state == OtaState::NotPresent) || (part is Ota && (state
        == OtaState::Valid || state == OtaState::Undefined))
}

/// The reaction of an update's body to one progress event.
pub open spec fn spec_progress_step(msg: OtaMessage) -> ProgressStep {
    match msg {
        OtaMessage::Done => ProgressStep::RestartThenSucceed,
        OtaMessage::Fail => ProgressStep::Abort,
        _ => ProgressStep::Continue,
    }
}

pub fn progress_step(msg: OtaMessage) -> (r: ProgressStep)
    ensures
        r == spec_progress_step(msg),
        r == ProgressStep::Continue <==> !msg.spec_is_terminal(),
{
    if !msg.is_terminal() {
        return ProgressStep::Continue;
    }
    match msg {
        OtaMessage::Done => ProgressStep::RestartThenSucceed,
        _ => ProgressStep::Abort,
    }
}

/// A stuck update is cleared once the device no longer reports its running
/// partition as pending verification.
pub open spec fn retry_converged(c: RuntimeOtaInfo) -> bool {
    c.running_ota_state != OtaState::PendingVerify
}

impl Operation {
    pub open spec fn spec_wait_strategy(self) -> WaitStrategy {
        match self {
            Operation::Restart => WaitStrategy::AwaitPowerCycle,
            _ => WaitStrategy::AwaitIdentityRefresh,
        }
    }

    pub fn wait_strategy(&self) -> (r: WaitStrategy)
        ensures
            r == self.spec_wait_strategy(),
    {
        match self {
            Operation::Restart => WaitStrategy::AwaitPowerCycle,
            _ => WaitStrategy::AwaitIdentityRefresh,
        }
    }

    /// Only an update can end its body in `Retry`.
    pub open spec fn can_retry(self) -> bool {
        self is FirmwareUpdate
    }

    /// The body's plan, given the initial snapshot's OTA info and the
    /// device's rollback flag.
    pub open spec fn spec_plan_body(self, info: RuntimeOtaInfo, rollback_possible: bool) -> BodyPlan {
        match self {
            Operation::Restart => BodyPlan::Send(Command::Restart),
            Operation::Mark(mark) => if info.running_on_part == RunningOnPart::Factory {
                BodyPlan::Refuse(PreconditionFailure::FactoryPartition)
            } else if !mark.spec_is_acceptable_initial_ota_state(info.running_ota_state) {
                BodyPlan::Refuse(
                    PreconditionFailure::UnacceptableOtaState { state: info.running_ota_state },
                )
            } else if !rollback_possible {
                BodyPlan::Refuse(PreconditionFailure::RollbackNotPossible)
            } else {
                BodyPlan::Send(Command::Ota(mark.spec_ota_command()))
            },
            Operation::FirmwareUpdate { url, ca_cert } => if info.running_ota_state
                == OtaState::PendingVerify {
                BodyPlan::ConfirmThenRestart
            } else if update_allowed(info.running_on_part, info.running_ota_state) {
                BodyPlan::SendThenFollow(Command::Ota(OtaCommand::Update { url, ca_cert }))
            } else {
                BodyPlan::Refuse(
                    PreconditionFailure::UnacceptableRunningState {
                        part: info.running_on_part,
                        state: info.running_ota_state,
                    },
                )
            },
        }
    }

    pub fn plan_body(&self, id: &DecodedIdMessage) -> (r: BodyPlan)
        ensures
            r == self.spec_plan_body(id.ota_info, id.msg.software.partitions.is_rollback_possible),
    {
        let info = id.ota_info;
        match self {
            Operation::Restart => BodyPlan::Send(Command::Restart),
            Operation::Mark(mark) => {
                if let RunningOnPart::Factory = info.running_on_part {
                    return BodyPlan::Refuse(PreconditionFailure::FactoryPartition);
                }
                if !mark.is_acceptable_initial_ota_state(info.running_ota_state) {
                    return BodyPlan::Refuse(
                        PreconditionFailure::UnacceptableOtaState { state: info.running_ota_state },
                    );
                }
                if !id.msg.software.partitions.is_rollback_possible {
                    return BodyPlan::Refuse(PreconditionFailure::RollbackNotPossible);
                }
                BodyPlan::Send(Command::Ota(mark.get_ota_command()))
            },
            Operation::FirmwareUpdate { url, ca_cert } => {
                match (info.running_on_part, info.running_ota_state) {
                    (_, OtaState::PendingVerify) => BodyPlan::ConfirmThenRestart,
                    (RunningOnPart::Factory, OtaState::NotPresent)
                    | (RunningOnPart::Ota { .. }, OtaState::Valid)
                    | (RunningOnPart::Ota { .. }, OtaState::Undefined) => BodyPlan::SendThenFollow(
                        Command::Ota(OtaCommand::Update { url: url.clone(), ca_cert: ca_cert.clone() }),
                    ),
                    (part, state) => BodyPlan::Refuse(
                        PreconditionFailure::UnacceptableRunningState { part, state },
                    ),
                }
            },
        }
    }

    /// Convergence after a body that ended in `Success`.
    pub open spec fn spec_is_converged_on_ok(
        self,
        o: RuntimeOtaInfo,
        c: RuntimeOtaInfo,
        list: Seq<Partition>,
    ) -> Result<bool, ConsistencyFault> {
        match self {
            Operation::Restart => Ok(true),
            Operation::Mark(mark) => mark.spec_is_command_completed(o, c, list),
            Operation::FirmwareUpdate { .. } => update_converged(o, c),
        }
    }

    pub fn is_converged_on_ok(
        &self,
        original_id: &DecodedIdMessage,
        current_id: &DecodedIdMessage,
    ) -> (r: Result<bool, ConsistencyFault>)
        ensures
            r == self.spec_is_converged_on_ok(
                original_id.ota_info,
                current_id.ota_info,
                current_id.msg.software.partitions.list@,
            ),
    {
        match self {
            Operation::Restart => Ok(true),
            Operation::Mark(mark) => mark.is_command_completed(original_id, current_id),
            Operation::FirmwareUpdate { .. } => {
                let o = original_id.ota_info;
                let c = current_id.ota_info;
                if c.running_addr == o.running_addr {
                    Ok(false)
                } else if c.running_addr == o.next_update_addr {
                    Ok(true)
                } else {
                    Err(
                        ConsistencyFault::UnexpectedRunningAddress {
                            expected: o.next_update_addr,
                            found: c.running_addr,
                        },
                    )
                }
            },
        }
    }

    /// Convergence after a body that ended in `Retry`; only an update has one.
    pub fn is_converged_on_retry(
        &self,
        original_id: &DecodedIdMessage,
        current_id: &DecodedIdMessage,
    ) -> (r: bool)
        requires
            self.can_retry(),
        ensures
            r == retry_converged(current_id.ota_info),
    {
        current_id.ota_info.running_ota_state != OtaState::PendingVerify
    }
}

/// Validation is not done while the same OTA slot still waits for
/// verification, is done once it reports `Valid`; any move of the running
/// address, or running the factory image, is a fault.
pub proof fn lemma_validate_convergence(o: RuntimeOtaInfo, c: RuntimeOtaInfo, list: Seq<Partition>)
    ensures
        c.running_addr == o.running_addr && c.running_on_part is Ota && c.running_ota_state
            == OtaState::PendingVerify ==> Operation::Mark(Mark::Validate).spec_is_converged_on_ok(o, c, list) == Ok::<
            bool,
            ConsistencyFault,
        >(false),
        c.running_addr == o.running_addr && c.running_on_part is Ota && c.running_ota_state
            == OtaState::Valid ==> Operation::Mark(Mark::Validate).spec_is_converged_on_ok(o, c, list) == Ok::<
            bool,
            ConsistencyFault,
        >(true),
        c.running_addr != o.running_addr ==> Operation::Mark(
            Mark::Validate,
        ).spec_is_converged_on_ok(o, c, list) is Err,
        c.running_on_part == RunningOnPart::Factory ==> Operation::Mark(
            Mark::Validate,
        ).spec_is_converged_on_ok(o, c, list) is Err,
{
}

/// Rollback is done exactly when the partition that ran before now reports
/// `Invalid` and the device runs from another address; it is not done while
/// that partition still waits for verification at the same address; and
/// `Invalid` at the same address, or a move while still pending, is a fault.
pub proof fn lemma_rollback_convergence(o: RuntimeOtaInfo, c: RuntimeOtaInfo, list: Seq<Partition>)
    requires
        count_at(list, o.running_addr) == 1,
    ensures
        ({
            let state = list[index_at(list, o.running_addr)].ota_state;
            let changed = c.running_addr != o.running_addr;
            let r = Operation::Mark(Mark::Rollback).spec_is_converged_on_ok(o, c, list);
            &&& (r == Ok::<bool, ConsistencyFault>(true) <==> (state == OtaState::Invalid
                && changed))
            &&& (state == OtaState::PendingVerify && !changed ==> r == Ok::<
                bool,
                ConsistencyFault,
            >(false))
            &&& (state == OtaState::Invalid && !changed ==> r is Err)
            &&& (state == OtaState::PendingVerify && changed ==> r == Err::<bool, ConsistencyFault>(
                ConsistencyFault::MovedWhilePending {
                    original: o.running_addr,
                    current: c.running_addr,
                },
            ))
        }),
{
}

/// An update is not done while the running address is unchanged, is done
/// once it equals the slot named for the next update, and any third address
/// is a fault.
pub proof fn lemma_update_convergence(
    url: String,
    ca_cert: String,
    o: RuntimeOtaInfo,
    c: RuntimeOtaInfo,
    list: Seq<Partition>,
)
    ensures
        ({
            let r = (Operation::FirmwareUpdate { url, ca_cert }).spec_is_converged_on_ok(o, c, list);
            &&& (c.running_addr == o.running_addr ==> r == Ok::<bool, ConsistencyFault>(false))
            &&& (c.running_addr != o.running_addr && c.running_addr == o.next_update_addr ==> r
                == Ok::<bool, ConsistencyFault>(true))
            &&& (c.running_addr != o.running_addr && c.running_addr != o.next_update_addr ==> r is Err)
        }),
{
}

} // verus!
