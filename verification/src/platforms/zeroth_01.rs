//! The deployment target with serial bus servos.

pub mod actuator;
pub mod firmware;

use crate::error::{ErrorCode, ErrorView, HalError};
use crate::platform::{Lifecycle, Platform, ServiceEnum};
use crate::platforms::zeroth_01::actuator::ZBotActuator;
use crate::services::operations::{LedgerView, OperationsServiceImpl};
use vstd::prelude::*;
use vstd::string::*;

verus! {

/// The platform with serial bus servos.
pub struct ZBotPlatform {
    stage: Lifecycle,
    bus: Option<Result<(), String>>,
    actuator: Option<ZBotActuator>,
}

/// The failure reported where the servo bus is not open.
pub open spec fn bus_failure(why: Seq<char>) -> ErrorView {
    ErrorView { code: ErrorCode::HardwareFailure, message: "Failed to create actuator: "@ + why }
}

/// The failure for a service set that is asked for before the bus was
/// reported.
pub open spec fn bus_not_reported() -> ErrorView {
    ErrorView { code: ErrorCode::InvalidArgument, message: "Servo bus is not opened"@ }
}

/// The model of the report on the servo bus.
pub open spec fn bus_view(bus: Option<Result<(), String>>) -> Option<Result<(), Seq<char>>> {
    match bus {
        None => None,
        Some(Ok(_)) => Some(Ok(())),
        Some(Err(why)) => Some(Err(why@)),
    }
}

impl ZBotPlatform {
    /// The platform as constructed: not initialized, bus not reported.
    pub fn new() -> (p: ZBotPlatform)
        ensures
            p.lifecycle() == Lifecycle::Created,
            p.bus() is None,
            !p.has_actuator(),
    {
        ZBotPlatform { stage: Lifecycle::Created, bus: None, actuator: None }
    }

    /// Whether the actuator bank stands.
    pub closed spec fn has_actuator(&self) -> bool {
        self.actuator is Some
    }

    /// What was reported of the servo bus.
    pub closed spec fn bus(&self) -> Option<Result<(), Seq<char>>> {
        bus_view(self.bus)
    }

    /// Where the platform stands in its lifecycle.
    pub fn stage(&self) -> (s: Lifecycle)
        ensures
            s == self.lifecycle(),
    {
        self.stage
    }

    /// Reports how opening the servo bus and switching on its read-out
    /// ended.
    pub fn report_bus(&mut self, opened: Result<(), String>)
        ensures
            final(self).lifecycle() == old(self).lifecycle(),
            final(self).bus() == bus_view(Some(opened)),
            final(self).has_actuator() == old(self).has_actuator(),
    {
        self.bus = Some(opened);
    }

    /// The actuator bank, once the services are created.
    pub fn actuator(&self) -> (a: Option<&ZBotActuator>)
        ensures
            (a is Some) == self.has_actuator(),
    {
        self.actuator.as_ref()
    }
}

impl Platform for ZBotPlatform {
    closed spec fn lifecycle(&self) -> Lifecycle {
        self.stage
    }

    /// The actuator service is had exactly where the servo bus was
    /// reported open; the report and the ledger stay as they are.
    open spec fn creates_services(
        &self,
        after: &Self,
        ledger: LedgerView,
        ledger_after: LedgerView,
        outcome: Result<Vec<ServiceEnum>, HalError>,
    ) -> bool {
        &&& match self.bus() {
            Some(Ok(_)) => outcome is Ok && outcome->Ok_0@ == seq![ServiceEnum::Actuator],
            Some(Err(why)) => outcome is Err && outcome->Err_0@ == bus_failure(why),
            None => outcome is Err && outcome->Err_0@ == bus_not_reported(),
        }
        &&& after.bus() == self.bus()
        &&& after.has_actuator() == (self.has_actuator() || outcome is Ok)
        &&& ledger_after == ledger
    }

    /// Setting up always succeeds and changes neither the report of the
    /// bus, nor whether there is an actuator bank, nor the ledger.
    open spec fn initializes(
        &self,
        after: &Self,
        ledger: LedgerView,
        ledger_after: LedgerView,
        outcome: Result<(), HalError>,
    ) -> bool {
        &&& outcome is Ok
        &&& after.bus() == self.bus()
        &&& after.has_actuator() == self.has_actuator()
        &&& ledger_after == ledger
    }

    /// Shutting down always succeeds, releases the actuator bank and keeps
    /// the report of the bus.
    open spec fn shuts_down(&self, after: &Self, outcome: Result<(), HalError>) -> bool {
        &&& outcome is Ok
        &&& !after.has_actuator()
        &&& after.bus() == self.bus()
    }

    open spec fn identity(&self) -> (Seq<char>, Seq<char>) {
        ("ZBot"@, "00000000"@)
    }

    fn name(&self) -> (n: &'static str) {
        "ZBot"
    }

    fn serial(&self) -> (s: String) {
        String::from_str("00000000")
    }

    /// Nothing to set up: always succeeds.
    fn initialize(&mut self, operations: &mut OperationsServiceImpl) -> (r: Result<(), HalError>)
        ensures
            r is Ok,
            final(self).bus() == old(self).bus(),
            final(self).has_actuator() == old(self).has_actuator(),
            final(operations)@ == old(operations)@,
    {
        self.stage = Lifecycle::Initialized;
        Ok(())
    }

    /// Hands out the actuator service where the servo bus is open.
    fn create_services(&mut self, operations: &mut OperationsServiceImpl) -> (r: Result<
        Vec<ServiceEnum>,
        HalError,
    >)
        ensures
            match old(self).bus() {
                Some(Ok(_)) => r is Ok && r->Ok_0@ == seq![ServiceEnum::Actuator],
                Some(Err(why)) => r is Err && r->Err_0@ == bus_failure(why),
                None => r is Err && r->Err_0@ == bus_not_reported(),
            },
            final(self).bus() == old(self).bus(),
            final(self).has_actuator() == (old(self).has_actuator() || r is Ok),
            final(operations)@ == old(operations)@,
    {
        match &self.bus {
            None => Err(
                HalError::new(
                    ErrorCode::InvalidArgument,
                    String::from_str("Servo bus is not opened"),
                ),
            ),
            Some(Err(why)) => {
                let mut message = String::from_str("Failed to create actuator: ");
                message.append(why.as_str());
                Err(HalError::new(ErrorCode::HardwareFailure, message))
            },
            Some(Ok(_)) => {
                self.actuator = Some(ZBotActuator::new());
                self.stage = Lifecycle::Serving;
                let mut kinds: Vec<ServiceEnum> = Vec::new();
                kinds.push(ServiceEnum::Actuator);
                assert(kinds@ =~= seq![ServiceEnum::Actuator]);
                Ok(kinds)
            },
        }
    }

    /// Releases the actuator bank; always succeeds.
    fn shutdown(&mut self) -> (r: Result<(), HalError>)
        ensures
            r is Ok,
            !final(self).has_actuator(),
            final(self).bus() == old(self).bus(),
    {
        self.actuator = None;
        self.stage = Lifecycle::ShutDown;
        Ok(())
    }
}

} // verus!
