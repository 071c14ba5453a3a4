//! Wire encoding of the progress records kept in the operation ledger.
//!
//! A record is a sequence of fields, each a key followed by its value. A
//! field whose value is the default of its type (zero, the empty text) is
//! left out.

use crate::hal::{CalibrateActuatorMetadata, CalibrateImuMetadata};
use vstd::prelude::*;
use vstd::string::*;
use vstd::utf8::encode_utf8;

verus! {

/// Smallest field number.
pub const MIN_TAG: u32 = 1;

/// Largest field number.
pub const MAX_TAG: u32 = 0x1FFF_FFFF;

/// Type tag of an actuator calibration record.
pub const CALIBRATE_ACTUATOR_TYPE_URL: &'static str =
    "type.googleapis.com/kos.actuator.CalibrateActuatorMetadata";

/// Type tag of an inertial-unit calibration record.
pub const CALIBRATE_IMU_TYPE_URL: &'static str =
    "type.googleapis.com/kos.imu.CalibrateIMUMetadata";

/// The variable-length form of a number: seven bits per byte, least
/// significant group first, the high bit set on every byte but the last.
pub open spec fn varint(v: nat) -> Seq<u8>
    decreases v,
{
    if v < 128 {
        seq![v as u8]
    } else {
        seq![((v % 128) + 128) as u8] + varint(v / 128)
    }
}

/// A numeric field: the key with wire type zero, then the value, both in
/// variable-length form.
pub open spec fn uint32_field(tag: u32, value: u32) -> Seq<u8> {
    varint((tag * 8) as nat) + varint(value as nat)
}

/// A text field: the key with wire type two, the number of bytes of the
/// text in its UTF-8 form, then those bytes.
pub open spec fn string_field(tag: u32, value: Seq<char>) -> Seq<u8> {
    varint((tag * 8 + 2) as nat) + varint(encode_utf8(value).len()) + encode_utf8(value)
}

/// Appends a numeric field with `prost::encoding::uint32::encode`, which
/// writes the key and then the value, each as a variable-length number.
#[verifier::external_body]
pub(crate) fn put_uint32(buf: &mut Vec<u8>, tag: u32, value: u32)
    requires
        MIN_TAG <= tag <= MAX_TAG,
    ensures
        final(buf)@ == old(buf)@ + uint32_field(tag, value),
{
    prost::encoding::uint32::encode(tag, &value, buf)
}

/// Appends a text field with `prost::encoding::string::encode`, which
/// writes the key, the byte length of the text, and the text's bytes.
#[verifier::external_body]
pub(crate) fn put_string(buf: &mut Vec<u8>, tag: u32, value: &String)
    requires
        MIN_TAG <= tag <= MAX_TAG,
    ensures
        final(buf)@ == old(buf)@ + string_field(tag, value@),
{
    prost::encoding::string::encode(tag, value, buf)
}

/// The field for a number, or nothing where the number is zero.
pub open spec fn optional_uint32(tag: u32, value: u32) -> Seq<u8> {
    if value == 0 {
        Seq::empty()
    } else {
        uint32_field(tag, value)
    }
}

/// The field for a text, or nothing where the text is empty.
pub open spec fn optional_string(tag: u32, value: Seq<char>) -> Seq<u8> {
    if value.len() == 0 {
        Seq::empty()
    } else {
        string_field(tag, value)
    }
}

/// The encoding of an actuator calibration record: the actuator as field
/// one, the status as field two.
pub open spec fn calibrate_actuator_bytes(actuator_id: u32, status: Seq<char>) -> Seq<u8> {
    optional_uint32(1, actuator_id) + optional_string(2, status)
}

/// The encoding of an inertial-unit calibration record: the status as field
/// one.
pub open spec fn calibrate_imu_bytes(status: Seq<char>) -> Seq<u8> {
    optional_string(1, status)
}

impl CalibrateActuatorMetadata {
    /// Encodes the record.
    pub fn encode(&self) -> (bytes: Vec<u8>)
        ensures
            bytes@ == calibrate_actuator_bytes(self.actuator_id, self.status@),
    {
        let mut buf: Vec<u8> = Vec::new();
        if self.actuator_id != 0 {
            put_uint32(&mut buf, 1, self.actuator_id);
        }
        if !self.status.as_str().is_empty() {
            put_string(&mut buf, 2, &self.status);
        }
        assert(buf@ =~= calibrate_actuator_bytes(self.actuator_id, self.status@));
        buf
    }
}

impl CalibrateImuMetadata {
    /// Encodes the record.
    pub fn encode(&self) -> (bytes: Vec<u8>)
        ensures
            bytes@ == calibrate_imu_bytes(self.status@),
    {
        let mut buf: Vec<u8> = Vec::new();
        if !self.status.as_str().is_empty() {
            put_string(&mut buf, 1, &self.status);
        }
        assert(buf@ =~= calibrate_imu_bytes(self.status@));
        buf
    }
}

} // verus!
