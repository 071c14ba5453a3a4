//! The inertial unit of the simulated target.

use crate::error::{ErrorCode, ErrorView, HalError};
use crate::hal::{
    ActionResponse, Duration, EulerAnglesResponse, ImuAdvancedValuesResponse, ImuValuesResponse,
    QuaternionResponse, IMU,
};
use crate::scalar::Double;
use crate::services::operations::{LedgerView, Operation, OperationsServiceImpl};
use vstd::prelude::*;
use vstd::string::*;

verus! {

/// An inertial unit that is not connected to a simulator yet: every
/// operation reports that it is not implemented.
pub struct SimIMU {}

/// The failure every operation reports.
pub open spec fn not_simulated() -> ErrorView {
    ErrorView { code: ErrorCode::NotImplemented, message: "not yet implemented"@ }
}

fn unavailable() -> (e: HalError)
    ensures
        e@ == not_simulated(),
{
    HalError::new(ErrorCode::NotImplemented, String::from_str("not yet implemented"))
}

impl SimIMU {
    /// An inertial unit.
    pub fn new() -> (imu: SimIMU) {
        SimIMU {  }
    }
}

impl IMU for SimIMU {
    /// A read of a sample is not implemented.
    open spec fn gets_values(
        &self,
        after: &Self,
        outcome: Result<ImuValuesResponse, HalError>,
    ) -> bool {
        outcome is Err && outcome->Err_0@ == not_simulated()
    }

    /// Zeroing is not implemented.
    open spec fn zeroes(
        &self,
        after: &Self,
        duration: Option<Duration>,
        max_retries: Option<u32>,
        max_angular_error: Option<Double>,
        max_vel: Option<Double>,
        max_accel: Option<Double>,
        outcome: Result<ActionResponse, HalError>,
    ) -> bool {
        outcome is Err && outcome->Err_0@ == not_simulated()
    }

    /// A read of the orientation as angles is not implemented.
    open spec fn gets_euler(
        &self,
        after: &Self,
        outcome: Result<EulerAnglesResponse, HalError>,
    ) -> bool {
        outcome is Err && outcome->Err_0@ == not_simulated()
    }

    /// A read of the orientation as a quaternion is not implemented.
    open spec fn gets_quaternion(
        &self,
        after: &Self,
        outcome: Result<QuaternionResponse, HalError>,
    ) -> bool {
        outcome is Err && outcome->Err_0@ == not_simulated()
    }

    /// A read of the derived quantities is not implemented.
    open spec fn gets_advanced_values(
        &self,
        after: &Self,
        outcome: Result<ImuAdvancedValuesResponse, HalError>,
    ) -> bool {
        outcome is Err && outcome->Err_0@ == not_simulated()
    }

    /// Calibration is not implemented; the ledger stays as it is.
    open spec fn calibrates(
        &self,
        after: &Self,
        ledger: LedgerView,
        ledger_after: LedgerView,
        outcome: Result<Operation, HalError>,
    ) -> bool {
        outcome is Err && outcome->Err_0@ == not_simulated() && ledger_after == ledger
    }

    fn get_values(&mut self) -> (r: Result<ImuValuesResponse, HalError>)
        ensures
            r is Err,
            r->Err_0@ == not_simulated(),
    {
        Err(unavailable())
    }

    fn get_advanced_values(&mut self) -> (r: Result<ImuAdvancedValuesResponse, HalError>)
        ensures
            r is Err,
            r->Err_0@ == not_simulated(),
    {
        Err(unavailable())
    }

    fn calibrate(&mut self, operations: &mut OperationsServiceImpl) -> (r: Result<
        Operation,
        HalError,
    >)
        ensures
            r is Err,
            r->Err_0@ == not_simulated(),
            final(operations)@ == old(operations)@,
    {
        Err(unavailable())
    }

    fn zero(
        &mut self,
        duration: Option<Duration>,
        max_retries: Option<u32>,
        max_angular_error: Option<Double>,
        max_vel: Option<Double>,
        max_accel: Option<Double>,
    ) -> (r: Result<ActionResponse, HalError>)
        ensures
            r is Err,
            r->Err_0@ == not_simulated(),
    {
        Err(unavailable())
    }

    fn get_euler(&mut self) -> (r: Result<EulerAnglesResponse, HalError>)
        ensures
            r is Err,
            r->Err_0@ == not_simulated(),
    {
        Err(unavailable())
    }

    fn get_quaternion(&mut self) -> (r: Result<QuaternionResponse, HalError>)
        ensures
            r is Err,
            r->Err_0@ == not_simulated(),
    {
        Err(unavailable())
    }
}

} // verus!
