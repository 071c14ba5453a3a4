//! The wiring of the robot: which motors sit on which limb.

use crate::scalar::Single;
use vstd::prelude::*;
use vstd::string::*;

verus! {

/// A limb of the robot.
#[derive(Clone, Copy, Debug, PartialEq, Eq, Hash, Structural)]
pub enum Limb {
    LeftArm,
    RightArm,
    LeftLeg,
    RightLeg,
}

/// The model of a motor.
#[derive(Clone, Copy, Debug, PartialEq, Eq, Structural)]
pub enum MotorType {
    Type01,
    Type02,
    Type03,
    Type04,
}

/// The control gains of one motor.
#[derive(Clone, Copy, Debug)]
pub struct MotorConfig {
    pub motor_type: MotorType,
    pub kp: Single,
    pub kd: Single,
}

/// The motors of one limb and the port they are reached through.
#[derive(Debug)]
pub struct LimbConfig {
    /// Each motor under its number on the port.
    pub motor_configs: Vec<(u8, MotorConfig)>,
    pub port_name: String,
}

/// The wiring of the whole robot.
#[derive(Debug)]
pub struct Config {
    pub limbs: Vec<(Limb, LimbConfig)>,
}

/// Number of limbs.
pub const LIMBS: u8 = 4;

impl Limb {
    /// The position of the limb among the limbs: arms before legs, left
    /// before right.
    pub open spec fn spec_index(self) -> u8 {
        match self {
            Limb::LeftArm => 0,
            Limb::RightArm => 1,
            Limb::LeftLeg => 2,
            Limb::RightLeg => 3,
        }
    }

    /// The position of the limb among the limbs.
    #[verifier::when_used_as_spec(spec_index)]
    pub fn index(self) -> (i: u8)
        ensures
            i == self.spec_index(),
            i < LIMBS,
    {
        match self {
            Limb::LeftArm => 0,
            Limb::RightArm => 1,
            Limb::LeftLeg => 2,
            Limb::RightLeg => 3,
        }
    }

    /// The limb at a position, if the position names one.
    pub fn from_index(i: u8) -> (limb: Option<Limb>)
        ensures
            i < LIMBS ==> limb is Some && limb->0.spec_index() == i,
            i >= LIMBS ==> limb is None,
    {
        if i == 0 {
            Some(Limb::LeftArm)
        } else if i == 1 {
            Some(Limb::RightArm)
        } else if i == 2 {
            Some(Limb::LeftLeg)
        } else if i == 3 {
            Some(Limb::RightLeg)
        } else {
            None
        }
    }

    /// Whether the limb is an arm.
    pub open spec fn spec_is_arm(self) -> bool {
        self == Limb::LeftArm || self == Limb::RightArm
    }

    /// Whether the limb is an arm.
    #[verifier::when_used_as_spec(spec_is_arm)]
    pub fn is_arm(self) -> (r: bool)
        ensures
            r == self.spec_is_arm(),
    {
        match self {
            Limb::LeftArm => true,
            Limb::RightArm => true,
            _ => false,
        }
    }

    /// The serial port of the limb: one adapter per limb, numbered as the
    /// limbs are.
    pub open spec fn spec_port_name(self) -> Seq<char> {
        "/dev/ttyCH341USB"@ + crate::text::decimal_digits(self.spec_index() as nat)
    }

    /// The serial port of the limb.
    pub fn port_name(self) -> (name: String)
        ensures
            name@ == self.spec_port_name(),
    {
        let mut name = String::from_str("/dev/ttyCH341USB");
        let digits = crate::text::decimal(self.index() as u64);
        name.append(digits.as_str());
        name
    }

    /// The models of the five motors of the limb, from the body outwards:
    /// an arm carries two large, two medium and one small motor; a leg
    /// carries the largest at the hip, three large and one small.
    pub open spec fn spec_motor_types(self) -> Seq<(u8, MotorType)> {
        if self.spec_is_arm() {
            seq![
                (1u8, MotorType::Type03),
                (2u8, MotorType::Type03),
                (3u8, MotorType::Type02),
                (4u8, MotorType::Type02),
                (5u8, MotorType::Type01),
            ]
        } else {
            seq![
                (1u8, MotorType::Type04),
                (2u8, MotorType::Type03),
                (3u8, MotorType::Type03),
                (4u8, MotorType::Type03),
                (5u8, MotorType::Type01),
            ]
        }
    }

    /// The models of the five motors of the limb, from the body outwards.
    pub fn motor_types(self) -> (motors: Vec<(u8, MotorType)>)
        ensures
            motors@ == self.spec_motor_types(),
    {
        let mut motors: Vec<(u8, MotorType)> = Vec::new();
        if self.is_arm() {
            motors.push((1, MotorType::Type03));
            motors.push((2, MotorType::Type03));
            motors.push((3, MotorType::Type02));
            motors.push((4, MotorType::Type02));
            motors.push((5, MotorType::Type01));
        } else {
            motors.push((1, MotorType::Type04));
            motors.push((2, MotorType::Type03));
            motors.push((3, MotorType::Type03));
            motors.push((4, MotorType::Type03));
            motors.push((5, MotorType::Type01));
        }
        assert(motors@ =~= self.spec_motor_types());
        motors
    }
}

impl Config {
    /// The configuration of a limb: the first entry for it.
    pub fn limb(&self, limb: Limb) -> (found: Option<&LimbConfig>)
        ensures
            match found {
                Some(config) => exists|i: int|
                    0 <= i < self.limbs@.len() && (#[trigger] self.limbs@[i]).0 == limb
                        && self.limbs@[i].1 == *config && forall|k: int|
                        0 <= k < i ==> (#[trigger] self.limbs@[k]).0 != limb,
                None => forall|i: int|
                    0 <= i < self.limbs@.len() ==> (#[trigger] self.limbs@[i]).0 != limb,
            },
    {
        let mut i: usize = 0;
        while i < self.limbs.len()
            invariant
                i <= self.limbs@.len(),
                forall|k: int| 0 <= k < i ==> (#[trigger] self.limbs@[k]).0 != limb,
            decreases self.limbs@.len() - i,
        {
            if self.limbs[i].0 == limb {
                return Some(&self.limbs[i].1);
            }
            i = i + 1;
        }
        None
    }
}

} // verus!
