//! The deployment target with bus-driven motors.

pub mod actuator;
pub mod hexmove;
pub mod process_manager;

use crate::error::{ErrorCode, ErrorView, HalError};
use crate::platform::{
    assemble, construction_failure, first_failure, kinds_of, outcome_views, BackendOutcome,
    BackendOutcomeView, Lifecycle, Platform, ServiceEnum,
};
use crate::services::operations::{LedgerView, OperationsServiceImpl};
use vstd::prelude::*;
use vstd::string::*;

verus! {

/// The model of a motor.
#[derive(Clone, Copy, Debug, PartialEq, Eq, Structural)]
pub enum ActuatorType {
    RobStride00,
    RobStride01,
    RobStride02,
    RobStride03,
    RobStride04,
}

/// The limits one motor is driven within.
#[derive(Clone, Copy, Debug, PartialEq, Eq, Structural)]
pub struct ActuatorConfiguration {
    pub actuator_type: ActuatorType,
    /// Largest change of angle per update, in degrees.
    pub max_angle_change_degrees: u32,
    /// Largest velocity, in degrees per second.
    pub max_velocity_degrees: u32,
}

/// How the actuator backend is to be constructed.
#[derive(Debug)]
pub struct ActuatorPlan {
    /// The bus ports to open.
    pub ports: Vec<String>,
    /// How long a motor may stay silent, in milliseconds.
    pub actuators_timeout_ms: u64,
    /// Time between two polls of the motors, in nanoseconds.
    pub polling_interval_ns: u64,
    /// The motors and their limits.
    pub actuators: Vec<(u8, ActuatorConfiguration)>,
}

/// The motors of the robot: six per arm, five per leg; the tens digit
/// names the limb, the units digit the joint.
pub open spec fn robot_motor_ids() -> Seq<u8> {
    seq![
        11u8, 12u8, 13u8, 14u8, 15u8, 16u8,
        21u8, 22u8, 23u8, 24u8, 25u8, 26u8,
        31u8, 32u8, 33u8, 34u8, 35u8,
        41u8, 42u8, 43u8, 44u8, 45u8,
    ]
}

/// The model of the motor at a joint. In an arm the two shoulder joints
/// carry the strongest motor, the next three a medium one and the wrist the
/// smallest; in a leg the hip and the knee carry the largest motor, the two
/// joints between them the next smaller, and the ankle a medium one.
pub open spec fn spec_motor_type(id: u8) -> ActuatorType {
    let limb = id / 10;
    let joint = id % 10;
    if limb <= 2 {
        if joint <= 2 {
            ActuatorType::RobStride03
        } else if joint <= 5 {
            ActuatorType::RobStride02
        } else {
            ActuatorType::RobStride00
        }
    } else {
        if joint == 1 || joint == 4 {
            ActuatorType::RobStride04
        } else if joint <= 3 {
            ActuatorType::RobStride03
        } else {
            ActuatorType::RobStride02
        }
    }
}

/// The model of the motor at a joint.
#[verifier::when_used_as_spec(spec_motor_type)]
pub fn motor_type(id: u8) -> (t: ActuatorType)
    ensures
        t == spec_motor_type(id),
{
    let limb: u8 = id / 10;
    let joint: u8 = id % 10;
    if limb <= 2 {
        if joint <= 2 {
            ActuatorType::RobStride03
        } else if joint <= 5 {
            ActuatorType::RobStride02
        } else {
            ActuatorType::RobStride00
        }
    } else {
        if joint == 1 || joint == 4 {
            ActuatorType::RobStride04
        } else if joint <= 3 {
            ActuatorType::RobStride03
        } else {
            ActuatorType::RobStride02
        }
    }
}

/// The limits of a motor of the robot: four degrees per update, ten degrees
/// per second.
pub open spec fn robot_motor(id: u8) -> (u8, ActuatorConfiguration) {
    (
        id,
        ActuatorConfiguration {
            actuator_type: spec_motor_type(id),
            max_angle_change_degrees: 4,
            max_velocity_degrees: 10,
        },
    )
}

/// The single motor of a bench set-up: motor one, of the largest model, two
/// degrees per update, ten degrees per second.
pub open spec fn bench_motor() -> (u8, ActuatorConfiguration) {
    (
        1u8,
        ActuatorConfiguration {
            actuator_type: ActuatorType::RobStride04,
            max_angle_change_degrees: 2,
            max_velocity_degrees: 10,
        },
    )
}

/// The ports of the robot.
pub open spec fn robot_ports() -> Seq<Seq<char>> {
    seq!["can1"@, "can2"@]
}

/// The port of a bench set-up.
pub open spec fn bench_ports() -> Seq<Seq<char>> {
    seq!["can0"@]
}

/// The capabilities the platform backs, in the order in which its services
/// are handed out: on the robot actuators and recording, on a bench
/// actuators only.
pub open spec fn kbot_service_set(robot: bool) -> Seq<ServiceEnum> {
    if robot {
        seq![ServiceEnum::Actuator, ServiceEnum::ProcessManager]
    } else {
        seq![ServiceEnum::Actuator]
    }
}

/// The capabilities whose backends are to be constructed, in the order of
/// construction: on the robot recording first, then actuators.
pub open spec fn kbot_construction_order(robot: bool) -> Seq<ServiceEnum> {
    if robot {
        seq![ServiceEnum::ProcessManager, ServiceEnum::Actuator]
    } else {
        seq![ServiceEnum::Actuator]
    }
}

/// What is said of a backend that could not be constructed.
pub open spec fn construction_context(kind: ServiceEnum) -> Seq<char> {
    match kind {
        ServiceEnum::ProcessManager => "Failed to initialize GStreamer process manager"@,
        ServiceEnum::Actuator => "Failed to create actuator"@,
        _ => "Failed to create service"@,
    }
}

/// The failure for a service set that is asked for before every backend
/// has been reported.
pub open spec fn not_constructed() -> ErrorView {
    ErrorView { code: ErrorCode::InvalidArgument, message: "Backends are not constructed"@ }
}

/// The platform with bus-driven motors.
pub struct KbotPlatform {
    stage: Lifecycle,
    robot: bool,
    constructed: Vec<BackendOutcome>,
}

impl KbotPlatform {
    /// The platform on the robot itself.
    pub fn new() -> (p: KbotPlatform)
        ensures
            p.lifecycle() == Lifecycle::Created,
            p.on_robot(),
            p.reports() == Seq::<BackendOutcomeView>::empty(),
    {
        let p = KbotPlatform { stage: Lifecycle::Created, robot: true, constructed: Vec::new() };
        assert(outcome_views(p.constructed@) =~= Seq::empty());
        p
    }

    /// The platform on a host that is not the robot: a bench set-up with a
    /// single motor and no recording.
    pub fn on_bench() -> (p: KbotPlatform)
        ensures
            p.lifecycle() == Lifecycle::Created,
            !p.on_robot(),
            p.reports() == Seq::<BackendOutcomeView>::empty(),
    {
        let p = KbotPlatform { stage: Lifecycle::Created, robot: false, constructed: Vec::new() };
        assert(outcome_views(p.constructed@) =~= Seq::empty());
        p
    }

    /// Whether the platform runs on the robot itself.
    pub closed spec fn on_robot(&self) -> bool {
        self.robot
    }

    /// The construction outcomes reported so far, in order.
    pub closed spec fn reports(&self) -> Seq<BackendOutcomeView> {
        outcome_views(self.constructed@)
    }

    /// Where the platform stands in its lifecycle.
    pub fn stage(&self) -> (s: Lifecycle)
        ensures
            s == self.lifecycle(),
    {
        self.stage
    }

    /// How the actuator backend is to be constructed.
    pub fn actuator_plan(&self) -> (plan: ActuatorPlan)
        ensures
            plan.actuators_timeout_ms == 1000,
            self.on_robot() ==> plan.ports@.map_values(|p: String| p@) == robot_ports()
                && plan.polling_interval_ns == 7_000_000 && plan.actuators@
                == robot_motor_ids().map_values(|id: u8| robot_motor(id)),
            !self.on_robot() ==> plan.ports@.map_values(|p: String| p@) == bench_ports()
                && plan.polling_interval_ns == 3_333_333 && plan.actuators@ == seq![bench_motor()],
    {
        let mut ports: Vec<String> = Vec::new();
        let mut actuators: Vec<(u8, ActuatorConfiguration)> = Vec::new();
        if self.robot {
            ports.push(String::from_str("can1"));
            ports.push(String::from_str("can2"));
            assert(ports@.map_values(|p: String| p@) =~= robot_ports());
            let ids: [u8; 22] = [
                11, 12, 13, 14, 15, 16,
                21, 22, 23, 24, 25, 26,
                31, 32, 33, 34, 35,
                41, 42, 43, 44, 45,
            ];
            assert(ids@ =~= robot_motor_ids());
            let mut i: usize = 0;
            while i < 22
                invariant
                    i <= 22,
                    ids@ == robot_motor_ids(),
                    actuators@ == robot_motor_ids().subrange(0, i as int).map_values(
                        |id: u8| robot_motor(id),
                    ),
                decreases 22 - i,
            {
                let id = ids[i];
                actuators.push(
                    (
                        id,
                        ActuatorConfiguration {
                            actuator_type: motor_type(id),
                            max_angle_change_degrees: 4,
                            max_velocity_degrees: 10,
                        },
                    ),
                );
                i = i + 1;
                assert(actuators@ =~= robot_motor_ids().subrange(0, i as int).map_values(
                    |id: u8| robot_motor(id),
                ));
            }
            assert(robot_motor_ids().subrange(0, 22) =~= robot_motor_ids());
            ActuatorPlan {
                ports,
                actuators_timeout_ms: 1000,
                polling_interval_ns: 7_000_000,
                actuators,
            }
        } else {
            ports.push(String::from_str("can0"));
            assert(ports@.map_values(|p: String| p@) =~= bench_ports());
            actuators.push(
                (
                    1,
                    ActuatorConfiguration {
                        actuator_type: ActuatorType::RobStride04,
                        max_angle_change_degrees: 2,
                        max_velocity_degrees: 10,
                    },
                ),
            );
            assert(actuators@ =~= seq![bench_motor()]);
            ActuatorPlan {
                ports,
                actuators_timeout_ms: 1000,
                polling_interval_ns: 3_333_333,
                actuators,
            }
        }
    }

    /// The capabilities whose backends are to be constructed, in the order
    /// of construction.
    pub fn construction_order(&self) -> (order: Vec<ServiceEnum>)
        ensures
            order@ == kbot_construction_order(self.on_robot()),
    {
        let mut order: Vec<ServiceEnum> = Vec::new();
        if self.robot {
            order.push(ServiceEnum::ProcessManager);
        }
        order.push(ServiceEnum::Actuator);
        assert(order@ =~= kbot_construction_order(self.on_robot()));
        order
    }

    /// Reports how the construction of the backend for `kind` ended.
    pub fn report(&mut self, kind: ServiceEnum, outcome: Result<(), String>)
        ensures
            final(self).lifecycle() == old(self).lifecycle(),
            final(self).on_robot() == old(self).on_robot(),
            final(self).reports() == old(self).reports().push(
                BackendOutcomeView {
                    kind,
                    context: construction_context(kind),
                    outcome: match outcome {
                        Ok(_) => Ok(()),
                        Err(why) => Err(why@),
                    },
                },
            ),
    {
        let context = match kind {
            ServiceEnum::ProcessManager => String::from_str(
                "Failed to initialize GStreamer process manager",
            ),
            ServiceEnum::Actuator => String::from_str("Failed to create actuator"),
            _ => String::from_str("Failed to create service"),
        };
        let ghost before = outcome_views(self.constructed@);
        self.constructed.push(BackendOutcome { kind, context, outcome });
        assert(outcome_views(self.constructed@) =~= before.push(
            BackendOutcomeView {
                kind,
                context: construction_context(kind),
                outcome: match outcome {
                    Ok(_) => Ok(()),
                    Err(why) => Err(why@),
                },
            },
        ));
    }
}

/// What asking for the service set answers: the first failed construction
/// fails the whole set; a set whose backends were not all reported, in the
/// order of construction, is refused; otherwise every service is handed
/// out.
pub open spec fn kbot_services(robot: bool, reports: Seq<BackendOutcomeView>) -> Result<
    Seq<ServiceEnum>,
    ErrorView,
> {
    match first_failure(reports) {
        Some(i) => Err(construction_failure(reports[i])),
        None => if kinds_of(reports) == kbot_construction_order(robot) {
            Ok(kbot_service_set(robot))
        } else {
            Err(not_constructed())
        },
    }
}

fn same_kinds(a: &Vec<ServiceEnum>, b: &Vec<ServiceEnum>) -> (r: bool)
    ensures
        r == (a@ == b@),
{
    if a.len() != b.len() {
        return false;
    }
    let mut i: usize = 0;
    while i < a.len()
        invariant
            i <= a@.len(),
            a@.len() == b@.len(),
            forall|k: int| 0 <= k < i ==> a@[k] == b@[k],
        decreases a@.len() - i,
    {
        if a[i] != b[i] {
            return false;
        }
        i = i + 1;
    }
    assert(a@ =~= b@);
    true
}

impl Platform for KbotPlatform {
    closed spec fn lifecycle(&self) -> Lifecycle {
        self.stage
    }

    /// The service set is had from the constructions reported so far, all
    /// or nothing; the reports and the ledger stay as they are.
    open spec fn creates_services(
        &self,
        after: &Self,
        ledger: LedgerView,
        ledger_after: LedgerView,
        outcome: Result<Vec<ServiceEnum>, HalError>,
    ) -> bool {
        &&& match kbot_services(self.on_robot(), self.reports()) {
            Ok(kinds) => outcome is Ok && outcome->Ok_0@ == kinds,
            Err(e) => outcome is Err && outcome->Err_0@ == e,
        }
        &&& after.on_robot() == self.on_robot()
        &&& after.reports() == self.reports()
        &&& ledger_after == ledger
    }

    /// Setting up always succeeds and changes neither what was reported
    /// nor the ledger.
    open spec fn initializes(
        &self,
        after: &Self,
        ledger: LedgerView,
        ledger_after: LedgerView,
        outcome: Result<(), HalError>,
    ) -> bool {
        &&& outcome is Ok
        &&& after.on_robot() == self.on_robot()
        &&& after.reports() == self.reports()
        &&& ledger_after == ledger
    }

    /// Shutting down always succeeds and keeps what was reported.
    open spec fn shuts_down(&self, after: &Self, outcome: Result<(), HalError>) -> bool {
        &&& outcome is Ok
        &&& after.on_robot() == self.on_robot()
        &&& after.reports() == self.reports()
    }

    open spec fn identity(&self) -> (Seq<char>, Seq<char>) {
        ("KBot"@, "00000000"@)
    }

    fn name(&self) -> (n: &'static str) {
        "KBot"
    }

    fn serial(&self) -> (s: String) {
        String::from_str("00000000")
    }

    /// Nothing to set up: always succeeds.
    fn initialize(&mut self, operations: &mut OperationsServiceImpl) -> (r: Result<(), HalError>)
        ensures
            r is Ok,
            final(self).on_robot() == old(self).on_robot(),
            final(self).reports() == old(self).reports(),
            final(operations)@ == old(operations)@,
    {
        self.stage = Lifecycle::Initialized;
        Ok(())
    }

    /// Hands out the service set, all or nothing, from the constructions
    /// reported so far.
    fn create_services(&mut self, operations: &mut OperationsServiceImpl) -> (r: Result<
        Vec<ServiceEnum>,
        HalError,
    >)
        ensures
            match kbot_services(old(self).on_robot(), old(self).reports()) {
                Ok(kinds) => r is Ok && r->Ok_0@ == kinds,
                Err(e) => r is Err && r->Err_0@ == e,
            },
            final(self).on_robot() == old(self).on_robot(),
            final(self).reports() == old(self).reports(),
            final(operations)@ == old(operations)@,
    {
        match assemble(&self.constructed) {
            Err(e) => Err(e),
            Ok(kinds) => {
                let order = self.construction_order();
                if same_kinds(&kinds, &order) {
                    self.stage = Lifecycle::Serving;
                    let mut services: Vec<ServiceEnum> = Vec::new();
                    services.push(ServiceEnum::Actuator);
                    if self.robot {
                        services.push(ServiceEnum::ProcessManager);
                    }
                    assert(services@ =~= kbot_service_set(self.robot));
                    Ok(services)
                } else {
                    Err(
                        HalError::new(
                            ErrorCode::InvalidArgument,
                            String::from_str("Backends are not constructed"),
                        ),
                    )
                }
            },
        }
    }

    /// Nothing to release; always succeeds.
    fn shutdown(&mut self) -> (r: Result<(), HalError>)
        ensures
            r is Ok,
            final(self).on_robot() == old(self).on_robot(),
            final(self).reports() == old(self).reports(),
    {
        self.stage = Lifecycle::ShutDown;
        Ok(())
    }
}

} // verus!
