//! A deployment target without hardware: every capability answers with
//! fixed values.

pub mod actuator;
pub mod imu;
pub mod policy;
pub mod process_manager;
pub mod speech;

use crate::error::HalError;
use crate::platform::{Lifecycle, Platform, ServiceEnum};
use crate::platforms::stub::actuator::StubActuator;
use crate::platforms::stub::imu::StubIMU;
use crate::platforms::stub::policy::StubPolicy;
use crate::platforms::stub::process_manager::StubProcessManager;
use crate::services::actuator::ActuatorServiceImpl;
use crate::services::imu::IMUServiceImpl;
use crate::services::operations::{LedgerView, OperationsServiceImpl};
use crate::services::policy::PolicyServiceImpl;
use crate::services::process_manager::ProcessManagerServiceImpl;
use vstd::prelude::*;
use vstd::string::*;

verus! {

/// The services of the stub platform, each in front of its backend.
pub struct StubServices {
    pub actuator: ActuatorServiceImpl<StubActuator>,
    pub process_manager: ProcessManagerServiceImpl<StubProcessManager>,
    pub imu: IMUServiceImpl<StubIMU>,
    pub policy: PolicyServiceImpl<StubPolicy>,
}

/// The platform without hardware.
pub struct StubPlatform {
    stage: Lifecycle,
    services: Option<StubServices>,
}

/// The capabilities the stub platform backs, in the order in which its
/// services are handed out.
pub open spec fn stub_service_set() -> Seq<ServiceEnum> {
    seq![ServiceEnum::Actuator, ServiceEnum::ProcessManager, ServiceEnum::Imu, ServiceEnum::Policy]
}

impl StubPlatform {
    /// The platform as constructed: not initialized, no services.
    pub fn new() -> (p: StubPlatform)
        ensures
            p.lifecycle() == Lifecycle::Created,
            !p.has_services(),
    {
        StubPlatform { stage: Lifecycle::Created, services: None }
    }

    /// Whether the service set has been created and not released.
    pub closed spec fn has_services(&self) -> bool {
        self.services is Some
    }

    /// Where the platform stands in its lifecycle.
    pub fn stage(&self) -> (s: Lifecycle)
        ensures
            s == self.lifecycle(),
    {
        self.stage
    }

    /// The services, once they are created.
    pub fn services(&mut self) -> (s: Option<&mut StubServices>)
        ensures
            (s is Some) == old(self).has_services(),
            final(self).lifecycle() == old(self).lifecycle(),
            final(self).has_services() == old(self).has_services(),
    {
        self.services.as_mut()
    }
}

impl Platform for StubPlatform {
    closed spec fn lifecycle(&self) -> Lifecycle {
        self.stage
    }

    /// The service set is always had: the four services are created and
    /// the ledger stays as it is.
    open spec fn creates_services(
        &self,
        after: &Self,
        ledger: LedgerView,
        ledger_after: LedgerView,
        outcome: Result<Vec<ServiceEnum>, HalError>,
    ) -> bool {
        &&& outcome is Ok
        &&& outcome->Ok_0@ == stub_service_set()
        &&& after.has_services()
        &&& ledger_after == ledger
    }

    /// Setting up always succeeds and changes neither the services nor
    /// the ledger.
    open spec fn initializes(
        &self,
        after: &Self,
        ledger: LedgerView,
        ledger_after: LedgerView,
        outcome: Result<(), HalError>,
    ) -> bool {
        &&& outcome is Ok
        &&& after.has_services() == self.has_services()
        &&& ledger_after == ledger
    }

    /// Shutting down always succeeds and leaves no services.
    open spec fn shuts_down(&self, after: &Self, outcome: Result<(), HalError>) -> bool {
        &&& outcome is Ok
        &&& !after.has_services()
    }

    open spec fn identity(&self) -> (Seq<char>, Seq<char>) {
        ("Stub"@, "00000000"@)
    }

    fn name(&self) -> (n: &'static str) {
        "Stub"
    }

    fn serial(&self) -> (s: String) {
        String::from_str("00000000")
    }

    /// Nothing to set up: always succeeds.
    fn initialize(&mut self, operations: &mut OperationsServiceImpl) -> (r: Result<(), HalError>)
        ensures
            r is Ok,
            final(self).has_services() == old(self).has_services(),
            final(operations)@ == old(operations)@,
    {
        self.stage = Lifecycle::Initialized;
        Ok(())
    }

    /// Creates the four services of the platform; cannot fail.
    fn create_services(&mut self, operations: &mut OperationsServiceImpl) -> (r: Result<
        Vec<ServiceEnum>,
        HalError,
    >)
        ensures
            r is Ok,
            r->Ok_0@ == stub_service_set(),
            final(self).has_services(),
            final(operations)@ == old(operations)@,
    {
        self.services = Some(
            StubServices {
                actuator: ActuatorServiceImpl::new(StubActuator::new()),
                process_manager: ProcessManagerServiceImpl::new(StubProcessManager::new()),
                imu: IMUServiceImpl::new(StubIMU::new()),
                policy: PolicyServiceImpl::new(StubPolicy::new()),
            },
        );
        self.stage = Lifecycle::Serving;
        let mut kinds: Vec<ServiceEnum> = Vec::new();
        kinds.push(ServiceEnum::Actuator);
        kinds.push(ServiceEnum::ProcessManager);
        kinds.push(ServiceEnum::Imu);
        kinds.push(ServiceEnum::Policy);
        assert(kinds@ =~= stub_service_set());
        Ok(kinds)
    }

    /// Releases the services; always succeeds.
    fn shutdown(&mut self) -> (r: Result<(), HalError>)
        ensures
            r is Ok,
            !final(self).has_services(),
    {
        self.services = None;
        self.stage = Lifecycle::ShutDown;
        Ok(())
    }
}

} // verus!
