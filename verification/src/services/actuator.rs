//! The request adapter for actuator control.

use crate::error::{failure_status, is_failure_of, replied, reply, HalError, Status};
use crate::hal::{
    command_targets, result_targets, ActionResponse, ActionResult, Actuator, ActuatorCommand,
    ActuatorStateResponse, CalibrateActuatorRequest, ConfigureActuatorRequest,
};
use crate::services::operations::{Operation, OperationsServiceImpl};
use crate::telemetry::{TelemetryEvent, TelemetryEventView};
use crate::telemetry_types::{
    published_command, published_commands, published_state, published_states,
};
use vstd::prelude::*;

verus! {

/// Serves actuator requests from one backend.
pub struct ActuatorServiceImpl<A: Actuator> {
    actuator: A,
}

/// Whether `r` is the answer to a batched command, and what is published
/// for it, where the backend's call ended in `outcome`: on success the
/// results as they came and the commands as telemetry; on failure the
/// client-visible status and nothing to publish.
pub open spec fn command_replied(
    commands: Seq<ActuatorCommand>,
    outcome: Result<Vec<ActionResult>, HalError>,
    r: (Result<Vec<ActionResult>, Status>, Option<TelemetryEvent>),
) -> bool {
    match outcome {
        Ok(results) => r.0 == Ok::<Vec<ActionResult>, Status>(results) && r.1 is Some && r.1->0@
            == TelemetryEventView::ActuatorCommand(
            commands.map_values(|c: ActuatorCommand| published_command(c)),
        ),
        Err(e) => r.0 is Err && r.0->Err_0@ == failure_status("Failed to command actuators"@, e@)
            && r.1 is None,
    }
}

/// Whether `r` is the answer to a state request, and what is published for
/// it, where the backend's call ended in `outcome`: on success the states
/// as they came, also as telemetry; on failure the client-visible status
/// and nothing to publish.
pub open spec fn state_replied(
    outcome: Result<Vec<ActuatorStateResponse>, HalError>,
    r: (Result<Vec<ActuatorStateResponse>, Status>, Option<TelemetryEvent>),
) -> bool {
    match outcome {
        Ok(states) => r.0 == Ok::<Vec<ActuatorStateResponse>, Status>(states) && r.1 is Some
            && r.1->0@ == TelemetryEventView::ActuatorState(
            states@.map_values(|s: ActuatorStateResponse| published_state(s)),
        ),
        Err(e) => r.0 is Err && r.0->Err_0@ == failure_status(
            "Failed to get actuators state"@,
            e@,
        ) && r.1 is None,
    }
}

/// The answer to a batched command, and what is published for it: on
/// success the results as they came and the commands as telemetry; on
/// failure the client-visible status and nothing to publish.
pub fn command_reply(
    commands: &Vec<ActuatorCommand>,
    outcome: Result<Vec<ActionResult>, HalError>,
) -> (r: (Result<Vec<ActionResult>, Status>, Option<TelemetryEvent>))
    ensures
        match outcome {
            Ok(results) => r.0 == Ok::<Vec<ActionResult>, Status>(results) && r.1 is Some
                && r.1->0@ == TelemetryEventView::ActuatorCommand(
                commands@.map_values(|c: ActuatorCommand| published_command(c)),
            ),
            Err(e) => r.0 is Err && r.0->Err_0@ == failure_status(
                "Failed to command actuators"@,
                e@,
            ) && r.1 is None,
        },
        command_replied(commands@, outcome, r),
        r.0 is Err ==> is_failure_of(r.0->Err_0@, "Failed to command actuators"@),
{
    match outcome {
        Ok(results) => (
            Ok(results),
            Some(TelemetryEvent::ActuatorCommand(published_commands(commands))),
        ),
        Err(e) => (Err(Status::from_failure("Failed to command actuators", &e)), None),
    }
}

/// The answer to a state request, and what is published for it: on success
/// the states as they came, also as telemetry; on failure the
/// client-visible status and nothing to publish.
pub fn state_reply(outcome: Result<Vec<ActuatorStateResponse>, HalError>) -> (r: (
    Result<Vec<ActuatorStateResponse>, Status>,
    Option<TelemetryEvent>,
))
    ensures
        match outcome {
            Ok(states) => r.0 == Ok::<Vec<ActuatorStateResponse>, Status>(states) && r.1 is Some
                && r.1->0@ == TelemetryEventView::ActuatorState(
                states@.map_values(|s: ActuatorStateResponse| published_state(s)),
            ),
            Err(e) => r.0 is Err && r.0->Err_0@ == failure_status(
                "Failed to get actuators state"@,
                e@,
            ) && r.1 is None,
        },
        state_replied(outcome, r),
        r.0 is Err ==> is_failure_of(r.0->Err_0@, "Failed to get actuators state"@),
{
    match outcome {
        Ok(states) => {
            let event = TelemetryEvent::ActuatorState(published_states(&states));
            (Ok(states), Some(event))
        },
        Err(e) => (Err(Status::from_failure("Failed to get actuators state", &e)), None),
    }
}

impl<A: Actuator> ActuatorServiceImpl<A> {
    /// An adapter in front of `actuator`.
    pub fn new(actuator: A) -> (s: Self)
        ensures
            s.backend() == actuator,
    {
        ActuatorServiceImpl { actuator }
    }

    /// The backend behind this adapter.
    pub closed spec fn backend(&self) -> A {
        self.actuator
    }

    /// The backend behind this adapter.
    pub fn actuator(&mut self) -> (a: &mut A)
        ensures
            *a == old(self).backend(),
            final(self).backend() == *final(a),
    {
        &mut self.actuator
    }

    /// Commands a batch of actuators. Whatever the backend answers, the
    /// commands are published exactly when the call went through.
    pub fn command_actuators(&mut self, commands: Vec<ActuatorCommand>) -> (r: (
        Result<Vec<ActionResult>, Status>,
        Option<TelemetryEvent>,
    ))
        ensures
            exists|outcome: Result<Vec<ActionResult>, HalError>|
                #[trigger] old(self).backend().commands_actuators(
                    &final(self).backend(),
                    commands,
                    outcome,
                ) && command_replied(commands@, outcome, r),
            r.0 is Ok ==> r.1 is Some && r.1->0@ == TelemetryEventView::ActuatorCommand(
                commands@.map_values(|c: ActuatorCommand| published_command(c)),
            ),
            r.0 is Ok ==> result_targets(r.0->Ok_0@) == command_targets(commands@),
            r.0 is Err ==> r.1 is None && is_failure_of(
                r.0->Err_0@,
                "Failed to command actuators"@,
            ),
    {
        let sent = copy_commands(&commands);
        let outcome = self.actuator.command_actuators(commands);
        let ghost asked = outcome;
        let r = command_reply(&sent, outcome);
        assert(old(self).backend().commands_actuators(&self.backend(), commands, asked));
        r
    }

    /// Sets the control parameters of one actuator: the backend is asked
    /// once, with `config` as given, and its answer is the answer of the
    /// request, a failure as its client-visible status.
    pub fn configure_actuator(&mut self, config: ConfigureActuatorRequest) -> (r: Result<
        ActionResponse,
        Status,
    >)
        ensures
            exists|outcome: Result<ActionResponse, HalError>|
                #[trigger] old(self).backend().configures_actuator(
                    &final(self).backend(),
                    config,
                    outcome,
                ) && replied("Failed to configure actuator"@, outcome, r),
            r is Err ==> is_failure_of(r->Err_0@, "Failed to configure actuator"@),
    {
        let outcome = self.actuator.configure_actuator(config);
        let ghost asked = outcome;
        let r = reply("Failed to configure actuator", outcome);
        assert(old(self).backend().configures_actuator(&self.backend(), config, asked));
        r
    }

    /// Starts the calibration of one actuator and returns at once with the
    /// operation that tracks it: the backend is asked once, with `request`
    /// as given and the ledger as it stands; what it does to the ledger is
    /// all that is done to it, and its answer is the answer of the request,
    /// a failure as its client-visible status.
    pub fn calibrate_actuator(
        &mut self,
        operations: &mut OperationsServiceImpl,
        request: CalibrateActuatorRequest,
    ) -> (r: Result<Operation, Status>)
        ensures
            exists|outcome: Result<Operation, HalError>|
                #[trigger] old(self).backend().calibrates_actuator(
                    &final(self).backend(),
                    old(operations)@,
                    final(operations)@,
                    request,
                    outcome,
                ) && replied("Failed to calibrate actuator"@, outcome, r),
            r is Err ==> is_failure_of(r->Err_0@, "Failed to calibrate actuator"@),
    {
        let outcome = self.actuator.calibrate_actuator(operations, request);
        let ghost asked = outcome;
        let r = reply("Failed to calibrate actuator", outcome);
        assert(old(self).backend().calibrates_actuator(
            &self.backend(),
            old(operations)@,
            operations@,
            request,
            asked,
        ));
        r
    }

    /// Reads the state of the given actuators. Whatever the backend answers,
    /// the states are published exactly when the call went through, and
    /// they are the states that are returned.
    pub fn get_actuators_state(&mut self, actuator_ids: Vec<u32>) -> (r: (
        Result<Vec<ActuatorStateResponse>, Status>,
        Option<TelemetryEvent>,
    ))
        ensures
            r.0 is Ok ==> r.1 is Some && r.1->0@ == TelemetryEventView::ActuatorState(
                r.0->Ok_0@.map_values(|s: ActuatorStateResponse| published_state(s)),
            ),
            r.0 is Err ==> r.1 is None && is_failure_of(
                r.0->Err_0@,
                "Failed to get actuators state"@,
            ),
            exists|outcome: Result<Vec<ActuatorStateResponse>, HalError>|
                #[trigger] old(self).backend().gets_actuators_state(
                    &final(self).backend(),
                    actuator_ids,
                    outcome,
                ) && state_replied(outcome, r),
    {
        let outcome = self.actuator.get_actuators_state(actuator_ids);
        let ghost asked = outcome;
        let r = state_reply(outcome);
        assert(old(self).backend().gets_actuators_state(&self.backend(), actuator_ids, asked));
        r
    }
}

fn copy_commands(commands: &Vec<ActuatorCommand>) -> (out: Vec<ActuatorCommand>)
    ensures
        out@ == commands@,
{
    let mut out: Vec<ActuatorCommand> = Vec::new();
    let mut i: usize = 0;
    while i < commands.len()
        invariant
            i <= commands@.len(),
            out@ == commands@.subrange(0, i as int),
        decreases commands@.len() - i,
    {
        out.push(commands[i]);
        i = i + 1;
        assert(out@ =~= commands@.subrange(0, i as int));
    }
    assert(commands@.subrange(0, i as int) =~= commands@);
    out
}

} // verus!
