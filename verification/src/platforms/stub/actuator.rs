//! Actuator control without actuators behind it.
//!
//! Calibration is the one slow action: a request creates an operation and
//! queues the actuator; a worker takes queued actuators one at a time, waits
//! out the calibration, and writes the outcome into the operation.

use crate::error::{ErrorCode, HalError, Status};
use crate::hal::{
    ActionResponse, ActionResponseView, ActionResult, ActionResultView, Actuator, ActuatorCommand,
    ActuatorStateResponse, CalibrateActuatorMetadata, CalibrateActuatorRequest, CalibrationStatus,
    ConfigureActuatorRequest,
};
use crate::scalar::{Double, Single};
use crate::services::operations::{
    after_update, created, update_outcome, LedgerView, Operation, OperationsServiceImpl,
};
use crate::text::{decimal, decimal_digits};
use crate::wire::{calibrate_actuator_bytes, CALIBRATE_ACTUATOR_TYPE_URL};
use vstd::prelude::*;
use vstd::string::*;

verus! {

/// How long the worker waits before it reports a calibration as done, in
/// seconds.
pub const CALIBRATION_SECONDS: u64 = 15;

/// The name of the operation that tracks the calibration of an actuator:
/// `operations/calibrate_actuator/` and the actuator's number in decimal.
pub open spec fn calibration_name(actuator_id: u32) -> Seq<char> {
    "operations/calibrate_actuator/"@ + decimal_digits(actuator_id as nat)
}

/// The name of the operation that tracks the calibration of an actuator.
pub fn operation_name(actuator_id: u32) -> (name: String)
    ensures
        name@ == calibration_name(actuator_id),
{
    let mut name = String::from_str("operations/calibrate_actuator/");
    let digits = decimal(actuator_id as u64);
    name.append(digits.as_str());
    name
}

/// The result that reports success for one command.
pub open spec fn succeeded(command: ActuatorCommand) -> ActionResultView {
    ActionResultView { actuator_id: command.actuator_id, success: true, error: None }
}

/// The state every read returns: actuator one, online, at rest.
pub open spec fn stub_state() -> ActuatorStateResponse {
    ActuatorStateResponse {
        actuator_id: 1,
        online: true,
        position: Some(Double { bits: 0 }),
        velocity: Some(Double { bits: 0 }),
        torque: Some(Double { bits: 0 }),
        temperature: Some(Double { bits: 0 }),
        voltage: Some(Single { bits: 0 }),
        current: Some(Single { bits: 0 }),
    }
}

/// An actuator bank that accepts every command and moves nothing.
pub struct StubActuator {
    calibration_queue: Vec<u32>,
}

impl View for StubActuator {
    /// The actuators whose calibration was requested and not yet taken up,
    /// oldest first.
    type V = Seq<u32>;

    closed spec fn view(&self) -> Seq<u32> {
        self.calibration_queue@
    }
}

impl StubActuator {
    /// An actuator bank with no calibration waiting.
    pub fn new() -> (a: StubActuator)
        ensures
            a@ == Seq::<u32>::empty(),
    {
        StubActuator { calibration_queue: Vec::new() }
    }

    /// Takes the oldest waiting calibration off the queue.
    pub fn take_calibration(&mut self) -> (next: Option<u32>)
        ensures
            old(self)@.len() == 0 ==> next is None && final(self)@ == old(self)@,
            old(self)@.len() > 0 ==> next == Some(old(self)@[0]) && final(self)@ == old(
                self,
            )@.drop_first(),
    {
        if self.calibration_queue.len() == 0 {
            None
        } else {
            let id = self.calibration_queue.remove(0);
            assert(self.calibration_queue@ =~= old(self)@.drop_first());
            Some(id)
        }
    }

    /// Writes the end of a calibration into its operation: the status
    /// becomes `status` and the operation is marked done. This is the one
    /// terminating write of a calibration, whether it succeeded or not.
    pub fn finish_calibration(
        operations: &mut OperationsServiceImpl,
        actuator_id: u32,
        status: CalibrationStatus,
    ) -> (r: Result<(), Status>)
        ensures
            final(operations)@ == after_update(
                old(operations)@,
                calibration_name(actuator_id),
                Ok(calibrate_actuator_bytes(actuator_id, status.label())),
                true,
            ),
            match update_outcome(
                old(operations)@,
                calibration_name(actuator_id),
                Ok(calibrate_actuator_bytes(actuator_id, status.label())),
            ) {
                Ok(_) => r is Ok,
                Err(s) => r is Err && r->Err_0@ == s,
            },
    {
        let name = operation_name(actuator_id);
        let metadata = CalibrateActuatorMetadata { actuator_id, status: status.to_string() };
        operations.update_metadata(name.as_str(), Ok(metadata.encode()), true)
    }
}

impl Actuator for StubActuator {
    /// Every batch is accepted: one success per command, in order, and
    /// nothing changes.
    open spec fn commands_actuators(
        &self,
        after: &Self,
        commands: Vec<ActuatorCommand>,
        outcome: Result<Vec<ActionResult>, HalError>,
    ) -> bool {
        &&& outcome is Ok
        &&& outcome->Ok_0@.map_values(|x: ActionResult| x@) == commands@.map_values(
            |c: ActuatorCommand| succeeded(c),
        )
        &&& after@ == self@
    }

    /// Every read gives the fixed state, whatever actuators are asked for,
    /// and nothing changes.
    open spec fn gets_actuators_state(
        &self,
        after: &Self,
        actuator_ids: Vec<u32>,
        outcome: Result<Vec<ActuatorStateResponse>, HalError>,
    ) -> bool {
        &&& outcome is Ok
        &&& outcome->Ok_0@ == seq![stub_state()]
        &&& after@ == self@
    }

    /// Every configuration is accepted, and nothing changes.
    open spec fn configures_actuator(
        &self,
        after: &Self,
        config: ConfigureActuatorRequest,
        outcome: Result<ActionResponse, HalError>,
    ) -> bool {
        &&& outcome is Ok
        &&& outcome->Ok_0@ == (ActionResponseView { success: true, error: None })
        &&& after@ == self@
    }

    /// A calibration request always ends well: the operation that tracks
    /// it is created under the actuator's name with the status
    /// `calibrating`, and the actuator joins the queue of the worker.
    open spec fn calibrates_actuator(
        &self,
        after: &Self,
        ledger: LedgerView,
        ledger_after: LedgerView,
        request: CalibrateActuatorRequest,
        outcome: Result<Operation, HalError>,
    ) -> bool {
        &&& outcome is Ok
        &&& outcome->Ok_0@ == created(
            calibration_name(request.actuator_id),
            calibrate_actuator_bytes(request.actuator_id, CalibrationStatus::Calibrating.label()),
            CALIBRATE_ACTUATOR_TYPE_URL@,
        )
        &&& ledger_after == ledger.insert(calibration_name(request.actuator_id), outcome->Ok_0@)
        &&& after@ == self@.push(request.actuator_id)
    }

    /// Accepts every command: one success per command, in order.
    fn command_actuators(&mut self, commands: Vec<ActuatorCommand>) -> (r: Result<
        Vec<ActionResult>,
        HalError,
    >)
        ensures
            r is Ok,
            r->Ok_0@.map_values(|x: ActionResult| x@) == commands@.map_values(
                |c: ActuatorCommand| succeeded(c),
            ),
            final(self)@ == old(self)@,
    {
        let mut results: Vec<ActionResult> = Vec::new();
        let mut i: usize = 0;
        while i < commands.len()
            invariant
                i <= commands@.len(),
                results@.len() == i,
                forall|k: int| 0 <= k < i ==> (#[trigger] results@[k])@ == succeeded(commands@[k]),
            decreases commands@.len() - i,
        {
            results.push(
                ActionResult { actuator_id: commands[i].actuator_id, success: true, error: None },
            );
            i = i + 1;
        }
        assert(results@.map_values(|x: ActionResult| x@) =~= commands@.map_values(
            |c: ActuatorCommand| succeeded(c),
        ));
        assert(results@.map_values(|r: ActionResult| r.actuator_id) =~= commands@.map_values(
            |c: ActuatorCommand| c.actuator_id,
        )) by {
            assert forall|k: int| 0 <= k < results@.len() implies results@[k].actuator_id
                == commands@[k].actuator_id by {
                assert(results@[k]@ == succeeded(commands@[k]));
            }
        }
        Ok(results)
    }

    /// Accepts every configuration.
    fn configure_actuator(&mut self, config: ConfigureActuatorRequest) -> (r: Result<
        ActionResponse,
        HalError,
    >)
        ensures
            r is Ok,
            r->Ok_0@ == (ActionResponseView { success: true, error: None }),
            final(self)@ == old(self)@,
    {
        Ok(ActionResponse::ok())
    }

    /// Creates the operation that tracks the calibration, with the status
    /// `calibrating`, and queues the actuator for the worker.
    fn calibrate_actuator(
        &mut self,
        operations: &mut OperationsServiceImpl,
        request: CalibrateActuatorRequest,
    ) -> (r: Result<Operation, HalError>)
        ensures
            r is Ok,
            r->Ok_0@ == created(
                calibration_name(request.actuator_id),
                calibrate_actuator_bytes(
                    request.actuator_id,
                    CalibrationStatus::Calibrating.label(),
                ),
                CALIBRATE_ACTUATOR_TYPE_URL@,
            ),
            final(operations)@ == old(operations)@.insert(
                calibration_name(request.actuator_id),
                r->Ok_0@,
            ),
            final(self)@ == old(self)@.push(request.actuator_id),
    {
        let metadata = CalibrateActuatorMetadata {
            actuator_id: request.actuator_id,
            status: CalibrationStatus::Calibrating.to_string(),
        };
        let name = operation_name(request.actuator_id);
        let created = operations.create(name, Ok(metadata.encode()), CALIBRATE_ACTUATOR_TYPE_URL);
        self.calibration_queue.push(request.actuator_id);
        match created {
            Ok(operation) => Ok(operation),
            Err(status) => Err(HalError::new(ErrorCode::Unknown, status.message)),
        }
    }

    /// The fixed state, whatever actuators are asked for.
    fn get_actuators_state(&mut self, actuator_ids: Vec<u32>) -> (r: Result<
        Vec<ActuatorStateResponse>,
        HalError,
    >)
        ensures
            r is Ok,
            r->Ok_0@ == seq![stub_state()],
            final(self)@ == old(self)@,
    {
        let mut states: Vec<ActuatorStateResponse> = Vec::new();
        states.push(
            ActuatorStateResponse {
                actuator_id: 1,
                online: true,
                position: Some(Double::zero()),
                velocity: Some(Double::zero()),
                torque: Some(Double::zero()),
                temperature: Some(Double::zero()),
                voltage: Some(Single::zero()),
                current: Some(Single::zero()),
            },
        );
        assert(states@ =~= seq![stub_state()]);
        Ok(states)
    }
}

/// The lifecycle of a calibration: the request leaves a record that is not
/// done and shows the status `calibrating`; the terminating write finds
/// that record, and leaves it done, under the same name and type tag, with
/// a payload that shows the final status.
pub proof fn law_calibration_lifecycle(
    ledger: Map<Seq<char>, crate::services::operations::OperationView>,
    actuator_id: u32,
    status: CalibrationStatus,
)
    ensures
        ({
            let name = calibration_name(actuator_id);
            let started = ledger.insert(
                name,
                created(
                    name,
                    calibrate_actuator_bytes(actuator_id, CalibrationStatus::Calibrating.label()),
                    CALIBRATE_ACTUATOR_TYPE_URL@,
                ),
            );
            let payload = calibrate_actuator_bytes(actuator_id, status.label());
            let finished = after_update(started, name, Ok(payload), true);
            &&& !started[name].done
            &&& update_outcome(started, name, Ok(payload)) is Ok
            &&& finished.contains_key(name)
            &&& finished[name].done
            &&& finished[name].name == name
            &&& finished[name].metadata == Some(
                crate::services::operations::AnyView {
                    type_url: CALIBRATE_ACTUATOR_TYPE_URL@,
                    value: payload,
                },
            )
        }),
{
}

} // verus!
