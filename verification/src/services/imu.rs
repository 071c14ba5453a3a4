//! The request adapter for inertial sensing.

use crate::error::{
    failure_status, is_failure_of, replied, reply, HalError, Status, StatusCode, StatusView,
};
use crate::hal::{
    ActionResponse, Duration, EulerAnglesResponse, ImuAdvancedValuesResponse, ImuValuesResponse,
    QuaternionResponse, IMU,
};
use crate::scalar::Double;
use crate::services::operations::{Operation, OperationsServiceImpl};
use crate::telemetry::{TelemetryEvent, TelemetryEventView};
use crate::telemetry_types::{published_imu_values, EulerAngles, ImuValues, Quaternion};
use vstd::prelude::*;

verus! {

/// Number of nanoseconds in one second.
pub const NANOS_PER_SECOND: i32 = 1_000_000_000;

/// A span of time as it arrives in a request.
#[derive(Clone, Copy, Debug)]
pub struct RequestedDuration {
    pub seconds: i64,
    pub nanos: i32,
}

/// A request to take the current orientation as the new origin.
#[derive(Clone, Copy, Debug)]
pub struct ZeroImuRequest {
    pub duration: Option<RequestedDuration>,
    pub max_retries: Option<u32>,
    pub max_angular_error: Option<Double>,
    pub max_velocity: Option<Double>,
    pub max_acceleration: Option<Double>,
}

/// Whether a requested span is well formed: neither part negative, and the
/// rest less than one second.
pub open spec fn duration_ok(d: RequestedDuration) -> bool {
    0 <= d.seconds && 0 <= d.nanos < NANOS_PER_SECOND
}

/// The status for a span that is not well formed.
pub open spec fn bad_duration() -> StatusView {
    StatusView { code: StatusCode::InvalidArgument, message: "Invalid duration"@ }
}

/// Checks the span of a request and converts it.
pub fn checked_duration(requested: Option<RequestedDuration>) -> (r: Result<
    Option<Duration>,
    Status,
>)
    ensures
        match requested {
            None => r == Ok::<Option<Duration>, Status>(None),
            Some(d) => if duration_ok(d) {
                r == Ok::<Option<Duration>, Status>(
                    Some(Duration { secs: d.seconds as u64, nanos: d.nanos as u32 }),
                )
            } else {
                r is Err && r->Err_0@ == bad_duration()
            },
        },
{
    match requested {
        None => Ok(None),
        Some(d) => {
            if d.seconds >= 0 && d.nanos >= 0 && d.nanos < NANOS_PER_SECOND {
                Ok(Some(Duration { secs: d.seconds as u64, nanos: d.nanos as u32 }))
            } else {
                Err(Status::invalid_argument("Invalid duration"))
            }
        },
    }
}

/// Whether `r` is the answer to a sample request, and what is published
/// for it, where the backend's call ended in `outcome`: on success the
/// sample as it came, also as telemetry; on failure the client-visible
/// status and nothing to publish.
pub open spec fn values_replied(
    outcome: Result<ImuValuesResponse, HalError>,
    r: (Result<ImuValuesResponse, Status>, Option<TelemetryEvent>),
) -> bool {
    match outcome {
        Ok(values) => r.0 == Ok::<ImuValuesResponse, Status>(values) && r.1 is Some && r.1->0@
            == TelemetryEventView::ImuValues(published_imu_values(values@)),
        Err(e) => r.0 is Err && r.0->Err_0@ == failure_status("Failed to get IMU values"@, e@)
            && r.1 is None,
    }
}

/// Whether `r` is the answer to an orientation request, and what is
/// published for it, where the backend's call ended in `outcome`.
pub open spec fn euler_replied(
    outcome: Result<EulerAnglesResponse, HalError>,
    r: (Result<EulerAnglesResponse, Status>, Option<TelemetryEvent>),
) -> bool {
    match outcome {
        Ok(euler) => r.0 == Ok::<EulerAnglesResponse, Status>(euler) && r.1 is Some && r.1->0@
            == TelemetryEventView::ImuEuler(
            EulerAngles { roll: euler.roll, pitch: euler.pitch, yaw: euler.yaw },
        ),
        Err(e) => r.0 is Err && r.0->Err_0@ == failure_status("Failed to get euler"@, e@)
            && r.1 is None,
    }
}

/// Whether `r` is the answer to a quaternion request, and what is
/// published for it, where the backend's call ended in `outcome`.
pub open spec fn quaternion_replied(
    outcome: Result<QuaternionResponse, HalError>,
    r: (Result<QuaternionResponse, Status>, Option<TelemetryEvent>),
) -> bool {
    match outcome {
        Ok(q) => r.0 == Ok::<QuaternionResponse, Status>(q) && r.1 is Some && r.1->0@
            == TelemetryEventView::ImuQuaternion(Quaternion { x: q.x, y: q.y, z: q.z, w: q.w }),
        Err(e) => r.0 is Err && r.0->Err_0@ == failure_status("Failed to get quaternion"@, e@)
            && r.1 is None,
    }
}

/// The span handed to the backend for the span of a request.
pub open spec fn converted(requested: Option<RequestedDuration>) -> Option<Duration> {
    match requested {
        None => None,
        Some(d) => Some(Duration { secs: d.seconds as u64, nanos: d.nanos as u32 }),
    }
}

/// The answer to a sample request, and what is published for it.
pub fn values_reply(outcome: Result<ImuValuesResponse, HalError>) -> (r: (
    Result<ImuValuesResponse, Status>,
    Option<TelemetryEvent>,
))
    ensures
        match outcome {
            Ok(values) => r.0 == Ok::<ImuValuesResponse, Status>(values) && r.1 is Some && r.1->0@
                == TelemetryEventView::ImuValues(published_imu_values(values@)),
            Err(e) => r.0 is Err && r.0->Err_0@ == failure_status("Failed to get IMU values"@, e@)
                && r.1 is None,
        },
        values_replied(outcome, r),
        r.0 is Err ==> is_failure_of(r.0->Err_0@, "Failed to get IMU values"@),
{
    match outcome {
        Ok(values) => {
            let event = TelemetryEvent::ImuValues(ImuValues::from(&values));
            (Ok(values), Some(event))
        },
        Err(e) => (Err(Status::from_failure("Failed to get IMU values", &e)), None),
    }
}

/// The answer to an orientation request, and what is published for it.
pub fn euler_reply(outcome: Result<EulerAnglesResponse, HalError>) -> (r: (
    Result<EulerAnglesResponse, Status>,
    Option<TelemetryEvent>,
))
    ensures
        match outcome {
            Ok(euler) => r.0 == Ok::<EulerAnglesResponse, Status>(euler) && r.1 is Some && r.1->0@
                == TelemetryEventView::ImuEuler(
                EulerAngles { roll: euler.roll, pitch: euler.pitch, yaw: euler.yaw },
            ),
            Err(e) => r.0 is Err && r.0->Err_0@ == failure_status("Failed to get euler"@, e@)
                && r.1 is None,
        },
        euler_replied(outcome, r),
        r.0 is Err ==> is_failure_of(r.0->Err_0@, "Failed to get euler"@),
{
    match outcome {
        Ok(euler) => {
            let event = TelemetryEvent::ImuEuler(EulerAngles::from(&euler));
            (Ok(euler), Some(event))
        },
        Err(e) => (Err(Status::from_failure("Failed to get euler", &e)), None),
    }
}

/// The answer to a quaternion request, and what is published for it.
pub fn quaternion_reply(outcome: Result<QuaternionResponse, HalError>) -> (r: (
    Result<QuaternionResponse, Status>,
    Option<TelemetryEvent>,
))
    ensures
        match outcome {
            Ok(q) => r.0 == Ok::<QuaternionResponse, Status>(q) && r.1 is Some && r.1->0@
                == TelemetryEventView::ImuQuaternion(Quaternion { x: q.x, y: q.y, z: q.z, w: q.w }),
            Err(e) => r.0 is Err && r.0->Err_0@ == failure_status("Failed to get quaternion"@, e@)
                && r.1 is None,
        },
        quaternion_replied(outcome, r),
        r.0 is Err ==> is_failure_of(r.0->Err_0@, "Failed to get quaternion"@),
{
    match outcome {
        Ok(q) => {
            let event = TelemetryEvent::ImuQuaternion(Quaternion::from(&q));
            (Ok(q), Some(event))
        },
        Err(e) => (Err(Status::from_failure("Failed to get quaternion", &e)), None),
    }
}

/// Serves inertial requests from one backend.
pub struct IMUServiceImpl<I: IMU> {
    imu: I,
}

impl<I: IMU> IMUServiceImpl<I> {
    /// An adapter in front of `imu`.
    pub fn new(imu: I) -> (s: Self)
        ensures
            s.backend() == imu,
    {
        IMUServiceImpl { imu }
    }

    /// The backend behind this adapter.
    pub closed spec fn backend(&self) -> I {
        self.imu
    }

    /// Reads one inertial sample. The sample is published exactly when the
    /// read went through, and it is the sample that is returned.
    pub fn get_values(&mut self) -> (r: (
        Result<ImuValuesResponse, Status>,
        Option<TelemetryEvent>,
    ))
        ensures
            r.0 is Ok ==> r.1 is Some && r.1->0@ == TelemetryEventView::ImuValues(
                published_imu_values(r.0->Ok_0@),
            ),
            r.0 is Err ==> r.1 is None && is_failure_of(r.0->Err_0@, "Failed to get IMU values"@),
            exists|outcome: Result<ImuValuesResponse, HalError>|
                #[trigger] old(self).backend().gets_values(&final(self).backend(), outcome)
                    && values_replied(outcome, r),
    {
        let outcome = self.imu.get_values();
        let ghost asked = outcome;
        let r = values_reply(outcome);
        assert(old(self).backend().gets_values(&self.backend(), asked));
        r
    }

    /// Reads the derived inertial quantities: the backend is asked once,
    /// and its answer is the answer of the request, a failure as its
    /// client-visible status.
    pub fn get_advanced_values(&mut self) -> (r: Result<ImuAdvancedValuesResponse, Status>)
        ensures
            exists|outcome: Result<ImuAdvancedValuesResponse, HalError>|
                #[trigger] old(self).backend().gets_advanced_values(
                    &final(self).backend(),
                    outcome,
                ) && replied("Failed to get IMU advanced values"@, outcome, r),
            r is Err ==> is_failure_of(r->Err_0@, "Failed to get IMU advanced values"@),
    {
        let outcome = self.imu.get_advanced_values();
        let ghost asked = outcome;
        let r = reply("Failed to get IMU advanced values", outcome);
        assert(old(self).backend().gets_advanced_values(&self.backend(), asked));
        r
    }

    /// Starts a calibration and returns at once with the operation that
    /// tracks it: the backend is asked once, with the ledger as it stands;
    /// what it does to the ledger is all that is done to it, and its answer
    /// is the answer of the request, a failure as its client-visible status.
    pub fn calibrate(&mut self, operations: &mut OperationsServiceImpl) -> (r: Result<
        Operation,
        Status,
    >)
        ensures
            exists|outcome: Result<Operation, HalError>|
                #[trigger] old(self).backend().calibrates(
                    &final(self).backend(),
                    old(operations)@,
                    final(operations)@,
                    outcome,
                ) && replied("Failed to calibrate IMU"@, outcome, r),
            r is Err ==> is_failure_of(r->Err_0@, "Failed to calibrate IMU"@),
    {
        let outcome = self.imu.calibrate(operations);
        let ghost asked = outcome;
        let r = reply("Failed to calibrate IMU", outcome);
        assert(old(self).backend().calibrates(
            &self.backend(),
            old(operations)@,
            operations@,
            asked,
        ));
        r
    }

    /// Takes the current orientation as the new origin. A request with a
    /// malformed span is refused before the backend is asked.
    pub fn zero(&mut self, request: ZeroImuRequest) -> (r: Result<ActionResponse, Status>)
        ensures
            request.duration is Some && !duration_ok(request.duration->0) ==> r is Err
                && r->Err_0@ == bad_duration() && final(self).backend() == old(self).backend(),
            (request.duration is None || duration_ok(request.duration->0)) && r is Err
                ==> is_failure_of(r->Err_0@, "Failed to zero IMU"@),
            request.duration is None || duration_ok(request.duration->0) ==> exists|
                outcome: Result<ActionResponse, HalError>,
            |
                #[trigger] old(self).backend().zeroes(
                    &final(self).backend(),
                    converted(request.duration),
                    request.max_retries,
                    request.max_angular_error,
                    request.max_velocity,
                    request.max_acceleration,
                    outcome,
                ) && replied("Failed to zero IMU"@, outcome, r),
    {
        let duration = match checked_duration(request.duration) {
            Ok(d) => d,
            Err(status) => {
                return Err(status);
            },
        };
        let outcome = self.imu.zero(
            duration,
            request.max_retries,
            request.max_angular_error,
            request.max_velocity,
            request.max_acceleration,
        );
        let ghost asked = outcome;
        let r = reply("Failed to zero IMU", outcome);
        assert(old(self).backend().zeroes(
            &self.backend(),
            converted(request.duration),
            request.max_retries,
            request.max_angular_error,
            request.max_velocity,
            request.max_acceleration,
            asked,
        ));
        r
    }

    /// Reads the orientation as roll, pitch and yaw. The orientation is
    /// published exactly when the read went through, and it is the
    /// orientation that is returned.
    pub fn get_euler(&mut self) -> (r: (
        Result<EulerAnglesResponse, Status>,
        Option<TelemetryEvent>,
    ))
        ensures
            r.0 is Ok ==> r.1 is Some && r.1->0@ == TelemetryEventView::ImuEuler(
                EulerAngles {
                    roll: r.0->Ok_0.roll,
                    pitch: r.0->Ok_0.pitch,
                    yaw: r.0->Ok_0.yaw,
                },
            ),
            r.0 is Err ==> r.1 is None && is_failure_of(r.0->Err_0@, "Failed to get euler"@),
            exists|outcome: Result<EulerAnglesResponse, HalError>|
                #[trigger] old(self).backend().gets_euler(&final(self).backend(), outcome)
                    && euler_replied(outcome, r),
    {
        let outcome = self.imu.get_euler();
        let ghost asked = outcome;
        let r = euler_reply(outcome);
        assert(old(self).backend().gets_euler(&self.backend(), asked));
        r
    }

    /// Reads the orientation as a quaternion. The orientation is published
    /// exactly when the read went through, and it is the orientation that is
    /// returned.
    pub fn get_quaternion(&mut self) -> (r: (
        Result<QuaternionResponse, Status>,
        Option<TelemetryEvent>,
    ))
        ensures
            r.0 is Ok ==> r.1 is Some && r.1->0@ == TelemetryEventView::ImuQuaternion(
                Quaternion { x: r.0->Ok_0.x, y: r.0->Ok_0.y, z: r.0->Ok_0.z, w: r.0->Ok_0.w },
            ),
            r.0 is Err ==> r.1 is None && is_failure_of(r.0->Err_0@, "Failed to get quaternion"@),
            exists|outcome: Result<QuaternionResponse, HalError>|
                #[trigger] old(self).backend().gets_quaternion(&final(self).backend(), outcome)
                    && quaternion_replied(outcome, r),
    {
        let outcome = self.imu.get_quaternion();
        let ghost asked = outcome;
        let r = quaternion_reply(outcome);
        assert(old(self).backend().gets_quaternion(&self.backend(), asked));
        r
    }
}

} // verus!
