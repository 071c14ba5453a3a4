//! Inertial sensing over the motor bus.
//!
//! The sensor is read outside this module; what is decided here is which
//! sensor is addressed and how its readings are reported.

use crate::error::{ErrorCode, ErrorView, HalError};
use crate::hal::{
    ActionResponse, ActionResponseView, EulerAnglesResponse, EulerAnglesResponseView,
    ImuValuesResponse, ImuValuesResponseView,
};
use crate::scalar::Double;
use crate::services::operations::{Operation, OperationView};
use crate::text::{decimal, decimal_digits};
use vstd::prelude::*;
use vstd::string::*;

verus! {

/// The largest sensor address and model number.
pub const MAX_BYTE: u32 = 255;

/// One reading of the sensor: the angular velocity and the attitude about
/// the three axes.
#[derive(Clone, Copy, Debug)]
pub struct ImuData {
    pub x_velocity: Double,
    pub y_velocity: Double,
    pub z_velocity: Double,
    pub x_angle: Double,
    pub y_angle: Double,
    pub z_angle: Double,
}

/// The model of a [`KBotIMU`].
pub struct KBotIMUView {
    pub interface: Seq<char>,
    pub can_id: u8,
    pub model: u8,
}

/// The inertial unit on the motor bus.
pub struct KBotIMU {
    interface: String,
    can_id: u8,
    model: u8,
}

impl View for KBotIMU {
    type V = KBotIMUView;

    closed spec fn view(&self) -> KBotIMUView {
        KBotIMUView { interface: self.interface@, can_id: self.can_id, model: self.model }
    }
}

/// The failure for a sensor address that does not fit in a byte.
pub open spec fn can_id_too_large(can_id: u32) -> ErrorView {
    ErrorView {
        code: ErrorCode::InvalidArgument,
        message: "CAN ID "@ + decimal_digits(can_id as nat) + " too large for u8"@,
    }
}

/// The failure for a model number that does not fit in a byte.
pub open spec fn model_too_large(model: u32) -> ErrorView {
    ErrorView {
        code: ErrorCode::InvalidArgument,
        message: "Model ID "@ + decimal_digits(model as nat) + " too large for u8"@,
    }
}

/// The sample reported for a reading: the velocities as acceleration, no
/// rotation, no magnetic field.
pub open spec fn reported_values(data: ImuData) -> ImuValuesResponseView {
    ImuValuesResponseView {
        accel_x: data.x_velocity,
        accel_y: data.y_velocity,
        accel_z: data.z_velocity,
        gyro_x: Double { bits: 0 },
        gyro_y: Double { bits: 0 },
        gyro_z: Double { bits: 0 },
        mag_x: None,
        mag_y: None,
        mag_z: None,
        error: None,
    }
}

/// The orientation reported for a reading: the angles about the three axes
/// as roll, pitch and yaw.
pub open spec fn reported_euler(data: ImuData) -> EulerAnglesResponseView {
    EulerAnglesResponseView {
        roll: data.x_angle,
        pitch: data.y_angle,
        yaw: data.z_angle,
        error: None,
    }
}

fn too_large(what: &str, value: u32) -> (e: HalError)
    ensures
        e@ == (ErrorView {
            code: ErrorCode::InvalidArgument,
            message: what@ + decimal_digits(value as nat) + " too large for u8"@,
        }),
{
    let mut message = String::from_str(what);
    let digits = decimal(value as u64);
    message.append(digits.as_str());
    message.append(" too large for u8");
    HalError::new(ErrorCode::InvalidArgument, message)
}

impl KBotIMU {
    /// The inertial unit at address `can_id` of `interface`. An address or
    /// a model number that does not fit in a byte is refused, the address
    /// first.
    pub fn new(interface: &str, can_id: u32, model: u32) -> (r: Result<KBotIMU, HalError>)
        ensures
            can_id > MAX_BYTE ==> r is Err && r->Err_0@ == can_id_too_large(can_id),
            can_id <= MAX_BYTE && model > MAX_BYTE ==> r is Err && r->Err_0@ == model_too_large(
                model,
            ),
            can_id <= MAX_BYTE && model <= MAX_BYTE ==> r is Ok && r->Ok_0@ == (KBotIMUView {
                interface: interface@,
                can_id: can_id as u8,
                model: model as u8,
            }),
    {
        if can_id > MAX_BYTE {
            return Err(too_large("CAN ID ", can_id));
        }
        if model > MAX_BYTE {
            return Err(too_large("Model ID ", model));
        }
        Ok(
            KBotIMU {
                interface: String::from_str(interface),
                can_id: can_id as u8,
                model: model as u8,
            },
        )
    }

    /// The bus interface of the sensor.
    pub fn interface(&self) -> (i: &str)
        ensures
            i@ == self@.interface,
    {
        self.interface.as_str()
    }

    /// The address of the sensor.
    pub fn can_id(&self) -> (id: u8)
        ensures
            id == self@.can_id,
    {
        self.can_id
    }

    /// The model number of the sensor.
    pub fn model(&self) -> (m: u8)
        ensures
            m == self@.model,
    {
        self.model
    }

    /// The sample reported for a reading.
    pub fn get_values(&self, data: ImuData) -> (r: ImuValuesResponse)
        ensures
            r@ == reported_values(data),
    {
        ImuValuesResponse {
            accel_x: data.x_velocity,
            accel_y: data.y_velocity,
            accel_z: data.z_velocity,
            gyro_x: Double::zero(),
            gyro_y: Double::zero(),
            gyro_z: Double::zero(),
            mag_x: None,
            mag_y: None,
            mag_z: None,
            error: None,
        }
    }

    /// The orientation reported for a reading.
    pub fn get_euler(&self, data: ImuData) -> (r: EulerAnglesResponse)
        ensures
            r@ == reported_euler(data),
    {
        EulerAnglesResponse {
            roll: data.x_angle,
            pitch: data.y_angle,
            yaw: data.z_angle,
            error: None,
        }
    }

    /// The sensor needs no calibration: the operation that stands for one
    /// is done from the start. It is not kept in any ledger.
    pub fn calibrate(&self) -> (op: Operation)
        ensures
            op@ == (OperationView {
                name: "operations/calibrate_imu/0"@,
                metadata: None,
                done: true,
                result: None,
            }),
    {
        Operation {
            name: String::from_str("operations/calibrate_imu/0"),
            metadata: None,
            done: true,
            result: None,
        }
    }

    /// Nothing to zero: always succeeds.
    pub fn zero(&self) -> (r: ActionResponse)
        ensures
            r@ == (ActionResponseView { success: true, error: None }),
    {
        ActionResponse::ok()
    }

    /// The sensor reports no quaternion.
    pub fn get_quaternion(&self) -> (e: HalError)
        ensures
            e@ == (ErrorView { code: ErrorCode::NotImplemented, message: "Not implemented"@ }),
    {
        HalError::new(ErrorCode::NotImplemented, String::from_str("Not implemented"))
    }
}

} // verus!
