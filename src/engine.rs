use vstd::prelude::*;

use crate::decode::{decode_id_message, decode_spec, DecodeError, DecodedIdMessage};
use crate::model::{DeviceState, IdMessage, OtaMessage};
use crate::op::{
    retry_converged, spec_progress_step, progress_step, BodyPlan, Command, ConsistencyFault,
    ExitDisposition, Operation, PreconditionFailure, ProgressStep, WaitStrategy,
};

verus! {

/// Something the device (or the operator) told the engine.
#[derive(Debug, Clone, PartialEq, Eq)]
pub enum Event {
    /// A liveness message.
    Status(DeviceState),
    /// An identity payload.
    Identity(IdMessage),
    /// A download progress message.
    Progress(OtaMessage),
    /// The operator confirmed a restart.
    Confirmed,
}

/// A condition that ends the process: the client cannot interpret the
/// device's state safely.
#[derive(Debug, Clone, Copy, PartialEq, Eq, Structural)]
pub enum Fatal {
    Decode(DecodeError),
    Consistency(ConsistencyFault),
}

/// Why an invocation ended in `Abort`.
#[derive(Debug, Clone, Copy, PartialEq, Eq, Structural)]
pub enum AbortReason {
    /// The device reported itself down before an identity was accepted.
    DeviceDown,
    /// The device state does not allow the operation.
    Precondition(PreconditionFailure),
    /// The device reported that the firmware download failed.
    DownloadFailed,
}

/// What the driver of a session does next.
#[derive(Debug, Clone, PartialEq, Eq)]
pub enum Action {
    /// Deliver the next event.
    Wait,
    /// Publish the command, then deliver the next event.
    Publish(Command),
    /// Ask the operator to confirm a restart, then deliver `Confirmed`.
    AskConfirmation,
    /// The invocation is over with `Success` or `Retry`.
    Finish(ExitDisposition),
    /// The invocation is over with `Abort`.
    Abort(AbortReason),
    /// The process must end.
    Fatal(Fatal),
}

/// Where a session stands.
#[derive(Debug, Clone, PartialEq, Eq)]
pub enum Phase {
    /// Waiting for an identity payload seen together with a liveness `Up`.
    AwaitInitial { up_seen: bool, last_id: Option<IdMessage> },
    /// Waiting for the operator to confirm a restart.
    AwaitConfirmation,
    /// Following the download progress of an update.
    FollowProgress,
    /// Waiting for liveness `Down`.
    AwaitDown { disposition: ExitDisposition },
    /// Waiting for liveness `Up` after a `Down`.
    AwaitUp { disposition: ExitDisposition },
    /// Polling identity payloads until the operation has taken effect.
    Converge { disposition: ExitDisposition },
    /// The session has ended.
    Finished,
}

/// One invocation of an operation against one device.
#[derive(Debug, Clone)]
pub struct Session {
    pub op: Operation,
    pub phase: Phase,
    /// The snapshot taken before the body ran.
    pub original: Option<DecodedIdMessage>,
}

/// Where the session goes once the body has ended in `d`.
pub open spec fn phase_after_body(op: Operation, d: ExitDisposition) -> Phase {
    if op.spec_wait_strategy() == WaitStrategy::AwaitPowerCycle {
        Phase::AwaitDown { disposition: d }
    } else {
        Phase::Converge { disposition: d }
    }
}

/// Runs the body's plan on the initial snapshot `d`.
pub open spec fn begin_spec(op: Operation, d: DecodedIdMessage) -> (Phase, Action) {
    match op.spec_plan_body(d.ota_info, d.msg.software.partitions.is_rollback_possible) {
        BodyPlan::Refuse(f) => (Phase::Finished, Action::Abort(AbortReason::Precondition(f))),
        BodyPlan::ConfirmThenRestart => (Phase::AwaitConfirmation, Action::AskConfirmation),
        BodyPlan::Send(c) => (phase_after_body(op, ExitDisposition::Success), Action::Publish(c)),
        BodyPlan::SendThenFollow(c) => (Phase::FollowProgress, Action::Publish(c)),
    }
}

/// Accepts `id` as the initial snapshot.
pub open spec fn accept_spec(s: Session, id: IdMessage) -> (Session, Action) {
    match decode_spec(id.software.partitions) {
        Err(e) => (Session { phase: Phase::Finished, ..s }, Action::Fatal(Fatal::Decode(e))),
        Ok(info) => {
            let d = DecodedIdMessage { msg: id, ota_info: info };
            let (p, a) = begin_spec(s.op, d);
            (Session { phase: p, original: Some(d), ..s }, a)
        },
    }
}

/// Judges a fresh identity payload while converging.
pub open spec fn converge_spec(s: Session, d: ExitDisposition, id: IdMessage) -> (Session, Action) {
    match decode_spec(id.software.partitions) {
        Err(e) => (Session { phase: Phase::Finished, ..s }, Action::Fatal(Fatal::Decode(e))),
        Ok(info) => {
            let verdict = if d == ExitDisposition::Retry {
                Ok(retry_converged(info))
            } else {
                s.op.spec_is_converged_on_ok(
                    s.original->0.ota_info,
                    info,
                    id.software.partitions.list@,
                )
            };
            match verdict {
                Err(f) => (
                    Session { phase: Phase::Finished, ..s },
                    Action::Fatal(Fatal::Consistency(f)),
                ),
                Ok(true) => (Session { phase: Phase::Finished, ..s }, Action::Finish(d)),
                Ok(false) => (s, Action::Wait),
            }
        },
    }
}

/// The transition of a session on one event.
pub open spec fn next_spec(s: Session, e: Event) -> (Session, Action) {
    match s.phase {
        Phase::AwaitInitial { up_seen, last_id } => match e {
            Event::Status(DeviceState::Down) => (
                Session { phase: Phase::Finished, ..s },
                Action::Abort(AbortReason::DeviceDown),
            ),
            Event::Status(DeviceState::Up) => match last_id {
                Some(id) => accept_spec(s, id),
                None => (
                    Session { phase: Phase::AwaitInitial { up_seen: true, last_id }, ..s },
                    Action::Wait,
                ),
            },
            Event::Identity(id) => if up_seen {
                accept_spec(s, id)
            } else {
                (
                    Session { phase: Phase::AwaitInitial { up_seen, last_id: Some(id) }, ..s },
                    Action::Wait,
                )
            },
            _ => (s, Action::Wait),
        },
        Phase::AwaitConfirmation => match e {
            Event::Confirmed => (
                Session { phase: phase_after_body(s.op, ExitDisposition::Retry), ..s },
                Action::Publish(Command::Restart),
            ),
            _ => (s, Action::Wait),
        },
        Phase::FollowProgress => match e {
            Event::Progress(m) => match spec_progress_step(m) {
                ProgressStep::Continue => (s, Action::Wait),
                ProgressStep::RestartThenSucceed => (
                    Session { phase: phase_after_body(s.op, ExitDisposition::Success), ..s },
                    Action::Publish(Command::Restart),
                ),
                ProgressStep::Abort => (
                    Session { phase: Phase::Finished, ..s },
                    Action::Abort(AbortReason::DownloadFailed),
                ),
            },
            _ => (s, Action::Wait),
        },
        Phase::AwaitDown { disposition } => match e {
            Event::Status(DeviceState::Down) => (
                Session { phase: Phase::AwaitUp { disposition }, ..s },
                Action::Wait,
            ),
            _ => (s, Action::Wait),
        },
        Phase::AwaitUp { disposition } => match e {
            Event::Status(DeviceState::Up) => (
                Session { phase: Phase::Converge { disposition }, ..s },
                Action::Wait,
            ),
            _ => (s, Action::Wait),
        },
        Phase::Converge { disposition } => match e {
            Event::Identity(id) => converge_spec(s, disposition, id),
            _ => (s, Action::Wait),
        },
        Phase::Finished => (s, Action::Wait),
    }
}

impl Session {
    /// The snapshot exists once the body has run, and only an operation that
    /// can retry converges on a `Retry`.
    pub open spec fn wf(self) -> bool {
        &&& match self.phase {
            Phase::AwaitInitial { .. } | Phase::Finished => true,
            _ => self.original is Some,
        }
        &&& match self.phase {
            Phase::AwaitDown { disposition }
            | Phase::AwaitUp { disposition }
            | Phase::Converge { disposition } => disposition == ExitDisposition::Success || (
            disposition == ExitDisposition::Retry && self.op.can_retry()),
            Phase::AwaitConfirmation => self.op.can_retry(),
            _ => true,
        }
    }

    pub fn new(op: Operation) -> (r: Session)
        ensures
            r.op == op,
            r.phase == (Phase::AwaitInitial { up_seen: false, last_id: None }),
            r.original is None,
            r.wf(),
    {
        Session { op, phase: Phase::AwaitInitial { up_seen: false, last_id: None }, original: None }
    }

    fn after_body(op: &Operation, d: ExitDisposition) -> (r: Phase)
        ensures
            r == phase_after_body(*op, d),
    {
        match op.wait_strategy() {
            WaitStrategy::AwaitPowerCycle => Phase::AwaitDown { disposition: d },
            _ => Phase::Converge { disposition: d },
        }
    }

    fn accept(self, id: IdMessage) -> (r: (Session, Action))
        requires
            self.wf(),
        ensures
            r == accept_spec(self, id),
            r.0.wf(),
    {
        let d = match decode_id_message(id) {
            Err(e) => {
                return (Session { phase: Phase::Finished, ..self }, Action::Fatal(Fatal::Decode(e)));
            },
            Ok(d) => d,
        };
        let plan = self.op.plan_body(&d);
        let (phase, action) = match plan {
            BodyPlan::Refuse(f) => (Phase::Finished, Action::Abort(AbortReason::Precondition(f))),
            BodyPlan::ConfirmThenRestart => (Phase::AwaitConfirmation, Action::AskConfirmation),
            BodyPlan::Send(c) => (
                Self::after_body(&self.op, ExitDisposition::Success),
                Action::Publish(c),
            ),
            BodyPlan::SendThenFollow(c) => (Phase::FollowProgress, Action::Publish(c)),
        };
        (Session { phase, original: Some(d), ..self }, action)
    }

    fn converge(self, disposition: ExitDisposition, id: IdMessage) -> (r: (Session, Action))
        requires
            self.wf(),
            self.phase == (Phase::Converge { disposition }),
        ensures
            r == converge_spec(self, disposition, id),
            r.0.wf(),
    {
        let current = match decode_id_message(id) {
            Err(e) => {
                return (Session { phase: Phase::Finished, ..self }, Action::Fatal(Fatal::Decode(e)));
            },
            Ok(d) => d,
        };
        let verdict = match &self.original {
            None => Ok(false),
            Some(original) => match disposition {
                ExitDisposition::Retry => Ok(self.op.is_converged_on_retry(original, &current)),
                _ => self.op.is_converged_on_ok(original, &current),
            },
        };
        match verdict {
            Err(f) => (
                Session { phase: Phase::Finished, ..self },
                Action::Fatal(Fatal::Consistency(f)),
            ),
            Ok(true) => (Session { phase: Phase::Finished, ..self }, Action::Finish(disposition)),
            Ok(false) => (self, Action::Wait),
        }
    }

    /// Advances the session on one event and says what to do next.
    pub fn step(self, e: Event) -> (r: (Session, Action))
        requires
            self.wf(),
        ensures
            r == next_spec(self, e),
            r.0.wf(),
            r.0.op == self.op,
            self.phase == Phase::Finished ==> r == (self, Action::Wait),
            r.1 == Action::Finish(ExitDisposition::Retry) ==> self.op.can_retry(),
            r.1 is Finish ==> r.0.phase == Phase::Finished,
    {
        match self.phase {
            Phase::AwaitInitial { up_seen, last_id } => match e {
                Event::Status(DeviceState::Down) => (
                    Session { phase: Phase::Finished, op: self.op, original: self.original },
                    Action::Abort(AbortReason::DeviceDown),
                ),
                Event::Status(DeviceState::Up) => match last_id {
                    Some(id) => {
                        let s = Session {
                            phase: Phase::AwaitInitial { up_seen, last_id: None },
                            op: self.op,
                            original: self.original,
                        };
                        s.accept(id)
                    },
                    None => (
                        Session {
                            phase: Phase::AwaitInitial { up_seen: true, last_id: None },
                            op: self.op,
                            original: self.original,
                        },
                        Action::Wait,
                    ),
                },
                Event::Identity(id) => {
                    if up_seen {
                        let s = Session {
                            phase: Phase::AwaitInitial { up_seen, last_id },
                            op: self.op,
                            original: self.original,
                        };
                        s.accept(id)
                    } else {
                        (
                            Session {
                                phase: Phase::AwaitInitial { up_seen, last_id: Some(id) },
                                op: self.op,
                                original: self.original,
                            },
                            Action::Wait,
                        )
                    }
                },
                _ => (
                    Session {
                        phase: Phase::AwaitInitial { up_seen, last_id },
                        op: self.op,
                        original: self.original,
                    },
                    Action::Wait,
                ),
            },
            Phase::AwaitConfirmation => match e {
                Event::Confirmed => {
                    let phase = Self::after_body(&self.op, ExitDisposition::Retry);
                    (
                        Session { phase, op: self.op, original: self.original },
                        Action::Publish(Command::Restart),
                    )
                },
                _ => (self, Action::Wait),
            },
            Phase::FollowProgress => match e {
                Event::Progress(m) => match progress_step(m) {
                    ProgressStep::Continue => (self, Action::Wait),
                    ProgressStep::RestartThenSucceed => {
                        let phase = Self::after_body(&self.op, ExitDisposition::Success);
                        (
                            Session { phase, op: self.op, original: self.original },
                            Action::Publish(Command::Restart),
                        )
                    },
                    ProgressStep::Abort => (
                        Session { phase: Phase::Finished, op: self.op, original: self.original },
                        Action::Abort(AbortReason::DownloadFailed),
                    ),
                },
                _ => (self, Action::Wait),
            },
            Phase::AwaitDown { disposition } => match e {
                Event::Status(DeviceState::Down) => (
                    Session {
                        phase: Phase::AwaitUp { disposition },
                        op: self.op,
                        original: self.original,
                    },
                    Action::Wait,
                ),
                _ => (self, Action::Wait),
            },
            Phase::AwaitUp { disposition } => match e {
                Event::Status(DeviceState::Up) => (
                    Session {
                        phase: Phase::Converge { disposition },
                        op: self.op,
                        original: self.original,
                    },
                    Action::Wait,
                ),
                _ => (self, Action::Wait),
            },
            Phase::Converge { disposition } => match e {
                Event::Identity(id) => self.converge(disposition, id),
                _ => (self, Action::Wait),
            },
            Phase::Finished => (self, Action::Wait),
        }
    }
}

} // verus!
