//! Inertial sensing without a sensor behind it.

use crate::error::{ErrorCode, HalError};
use crate::hal::{
    ActionResponse, ActionResponseView, CalibrateImuMetadata, CalibrationStatus, Duration,
    EulerAnglesResponse, EulerAnglesResponseView, ImuAdvancedValuesResponse,
    ImuAdvancedValuesResponseView, ImuValuesResponse, ImuValuesResponseView, QuaternionResponse,
    QuaternionResponseView, IMU,
};
use crate::ids::{fresh_uuid, UUID_TEXT_LEN};
use crate::scalar::{Double, DOUBLE_ONE, DOUBLE_THIRTY, DOUBLE_THREE, DOUBLE_TWO, DOUBLE_ZERO};
use crate::services::operations::{created, LedgerView, Operation, OperationsServiceImpl};
use crate::wire::{calibrate_imu_bytes, CALIBRATE_IMU_TYPE_URL};
use vstd::prelude::*;
use vstd::string::*;

verus! {

/// An inertial unit that reports a fixed attitude.
pub struct StubIMU {}

/// The sample every read returns: acceleration one, two and three along
/// the axes, no rotation, no magnetic field.
pub open spec fn stub_values() -> ImuValuesResponseView {
    ImuValuesResponseView {
        accel_x: Double { bits: DOUBLE_ONE },
        accel_y: Double { bits: DOUBLE_TWO },
        accel_z: Double { bits: DOUBLE_THREE },
        gyro_x: Double { bits: DOUBLE_ZERO },
        gyro_y: Double { bits: DOUBLE_ZERO },
        gyro_z: Double { bits: DOUBLE_ZERO },
        mag_x: None,
        mag_y: None,
        mag_z: None,
        error: None,
    }
}

/// The orientation every read returns: thirty degrees of pitch, no roll, no
/// yaw.
pub open spec fn stub_euler() -> EulerAnglesResponseView {
    EulerAnglesResponseView {
        roll: Double { bits: DOUBLE_ZERO },
        pitch: Double { bits: DOUBLE_THIRTY },
        yaw: Double { bits: DOUBLE_ZERO },
        error: None,
    }
}

/// The orientation every read returns, as the identity quaternion.
pub open spec fn stub_quaternion() -> QuaternionResponseView {
    QuaternionResponseView {
        x: Double { bits: DOUBLE_ZERO },
        y: Double { bits: DOUBLE_ZERO },
        z: Double { bits: DOUBLE_ZERO },
        w: Double { bits: DOUBLE_ONE },
        error: None,
    }
}

/// The name of the operation that tracks a calibration identified by
/// `uuid`.
pub open spec fn imu_calibration_name(uuid: Seq<char>) -> Seq<char> {
    "operations/imu/calibrate/"@ + uuid
}

impl StubIMU {
    /// An inertial unit.
    pub fn new() -> (imu: StubIMU) {
        StubIMU {  }
    }

    /// Starts tracking a calibration identified by `uuid`: an operation
    /// named after it is created with the status `calibrating`.
    pub fn calibrate_as(&self, operations: &mut OperationsServiceImpl, uuid: &str) -> (r: Result<
        Operation,
        HalError,
    >)
        ensures
            r is Ok,
            r->Ok_0@ == created(
                imu_calibration_name(uuid@),
                calibrate_imu_bytes(CalibrationStatus::Calibrating.label()),
                CALIBRATE_IMU_TYPE_URL@,
            ),
            final(operations)@ == old(operations)@.insert(imu_calibration_name(uuid@), r->Ok_0@),
    {
        let mut name = String::from_str("operations/imu/calibrate/");
        name.append(uuid);
        let metadata = CalibrateImuMetadata { status: CalibrationStatus::Calibrating.to_string() };
        match operations.create(name, Ok(metadata.encode()), CALIBRATE_IMU_TYPE_URL) {
            Ok(operation) => Ok(operation),
            Err(status) => Err(HalError::new(ErrorCode::Unknown, status.message)),
        }
    }
}

impl IMU for StubIMU {
    /// A read of a sample always ends well and gives the fixed sample.
    open spec fn gets_values(
        &self,
        after: &Self,
        outcome: Result<ImuValuesResponse, HalError>,
    ) -> bool {
        outcome is Ok && outcome->Ok_0@ == stub_values()
    }

    /// A request to zero always ends well, whatever its limits.
    open spec fn zeroes(
        &self,
        after: &Self,
        duration: Option<Duration>,
        max_retries: Option<u32>,
        max_angular_error: Option<Double>,
        max_vel: Option<Double>,
        max_accel: Option<Double>,
        outcome: Result<ActionResponse, HalError>,
    ) -> bool {
        outcome is Ok && outcome->Ok_0@ == (ActionResponseView { success: true, error: None })
    }

    /// A read of the orientation always ends well and gives the fixed
    /// angles.
    open spec fn gets_euler(
        &self,
        after: &Self,
        outcome: Result<EulerAnglesResponse, HalError>,
    ) -> bool {
        outcome is Ok && outcome->Ok_0@ == stub_euler()
    }

    /// A read of the orientation always ends well and gives the identity
    /// quaternion.
    open spec fn gets_quaternion(
        &self,
        after: &Self,
        outcome: Result<QuaternionResponse, HalError>,
    ) -> bool {
        outcome is Ok && outcome->Ok_0@ == stub_quaternion()
    }

    /// A read of the derived quantities always ends well and finds none.
    open spec fn gets_advanced_values(
        &self,
        after: &Self,
        outcome: Result<ImuAdvancedValuesResponse, HalError>,
    ) -> bool {
        &&& outcome is Ok
        &&& outcome->Ok_0@ == (ImuAdvancedValuesResponseView {
            lin_acc_x: None,
            lin_acc_y: None,
            lin_acc_z: None,
            grav_x: None,
            grav_y: None,
            grav_z: None,
            temp: None,
            error: None,
        })
    }

    /// A calibration request always ends well: the operation that tracks
    /// it is created under a name made of a fresh identifier, with the
    /// status `calibrating`.
    open spec fn calibrates(
        &self,
        after: &Self,
        ledger: LedgerView,
        ledger_after: LedgerView,
        outcome: Result<Operation, HalError>,
    ) -> bool {
        &&& outcome is Ok
        &&& exists|uuid: Seq<char>|
            uuid.len() == UUID_TEXT_LEN && outcome->Ok_0@.name == #[trigger] imu_calibration_name(
                uuid,
            )
        &&& outcome->Ok_0@ == created(
            outcome->Ok_0@.name,
            calibrate_imu_bytes(CalibrationStatus::Calibrating.label()),
            CALIBRATE_IMU_TYPE_URL@,
        )
        &&& ledger_after == ledger.insert(outcome->Ok_0@.name, outcome->Ok_0@)
    }

    /// The fixed sample.
    fn get_values(&mut self) -> (r: Result<ImuValuesResponse, HalError>)
        ensures
            r is Ok,
            r->Ok_0@ == stub_values(),
    {
        Ok(
            ImuValuesResponse {
                accel_x: Double::from_bits(DOUBLE_ONE),
                accel_y: Double::from_bits(DOUBLE_TWO),
                accel_z: Double::from_bits(DOUBLE_THREE),
                gyro_x: Double::zero(),
                gyro_y: Double::zero(),
                gyro_z: Double::zero(),
                mag_x: None,
                mag_y: None,
                mag_z: None,
                error: None,
            },
        )
    }

    /// No derived quantity is available.
    fn get_advanced_values(&mut self) -> (r: Result<ImuAdvancedValuesResponse, HalError>)
        ensures
            r is Ok,
            r->Ok_0@ == (ImuAdvancedValuesResponseView {
                lin_acc_x: None,
                lin_acc_y: None,
                lin_acc_z: None,
                grav_x: None,
                grav_y: None,
                grav_z: None,
                temp: None,
                error: None,
            }),
    {
        Ok(
            ImuAdvancedValuesResponse {
                lin_acc_x: None,
                lin_acc_y: None,
                lin_acc_z: None,
                grav_x: None,
                grav_y: None,
                grav_z: None,
                temp: None,
                error: None,
            },
        )
    }

    /// Starts tracking a calibration under a fresh identifier.
    fn calibrate(&mut self, operations: &mut OperationsServiceImpl) -> (r: Result<
        Operation,
        HalError,
    >)
        ensures
            r is Ok,
            exists|uuid: Seq<char>|
                uuid.len() == UUID_TEXT_LEN && r->Ok_0@.name == #[trigger] imu_calibration_name(
                    uuid,
                ),
            r->Ok_0@ == created(
                r->Ok_0@.name,
                calibrate_imu_bytes(CalibrationStatus::Calibrating.label()),
                CALIBRATE_IMU_TYPE_URL@,
            ),
            final(operations)@ == old(operations)@.insert(r->Ok_0@.name, r->Ok_0@),
    {
        let uuid = fresh_uuid();
        let r = self.calibrate_as(operations, uuid.as_str());
        assert(r->Ok_0@.name == imu_calibration_name(uuid@));
        r
    }

    /// Nothing to zero: always succeeds.
    fn zero(
        &mut self,
        duration: Option<Duration>,
        max_retries: Option<u32>,
        max_angular_error: Option<Double>,
        max_vel: Option<Double>,
        max_accel: Option<Double>,
    ) -> (r: Result<ActionResponse, HalError>)
        ensures
            r is Ok,
            r->Ok_0@ == (ActionResponseView { success: true, error: None }),
    {
        Ok(ActionResponse::ok())
    }

    /// The fixed orientation.
    fn get_euler(&mut self) -> (r: Result<EulerAnglesResponse, HalError>)
        ensures
            r is Ok,
            r->Ok_0@ == stub_euler(),
    {
        Ok(
            EulerAnglesResponse {
                roll: Double::zero(),
                pitch: Double::from_bits(DOUBLE_THIRTY),
                yaw: Double::zero(),
                error: None,
            },
        )
    }

    /// The fixed orientation as a quaternion.
    fn get_quaternion(&mut self) -> (r: Result<QuaternionResponse, HalError>)
        ensures
            r is Ok,
            r->Ok_0@ == stub_quaternion(),
    {
        Ok(
            QuaternionResponse {
                w: Double::from_bits(DOUBLE_ONE),
                x: Double::zero(),
                y: Double::zero(),
                z: Double::zero(),
                error: None,
            },
        )
    }
}

} // verus!
