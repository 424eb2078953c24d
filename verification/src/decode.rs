//! The advertisement decoder: a pure function from a 27-byte manufacturer-data
//! buffer to an optional status record, together with the small bit-extraction
//! helpers it is built from and the spec-level model of the whole decode.

use vstd::prelude::*;
use vstd::string::StringExecFns;

use crate::status::{AirPodsStatus, InEarStatus, MaxStatus, SpecStatus};

verus! {

/// The 16-bit company identifier under which the vendor keys its
/// manufacturer data.
pub const APPLE_COMPANY_ID: u16 = 0x004c;

/// The exact length of a candidate manufacturer-data buffer.
pub const ADVERTISEMENT_LENGTH: usize = 27;

/// Byte offset of the high byte of the model identifier.
pub const BYTE_MODEL_HIGH: usize = 3;

/// Byte offset of the low byte of the model identifier.
pub const BYTE_MODEL_LOW: usize = 4;

/// Byte offset of the orientation ("flip") byte.
pub const BYTE_FLIP: usize = 5;

/// Byte offset of the pod battery pair (one nibble per pod).
pub const BYTE_BATTERY_PODS: usize = 6;

/// Byte offset of the case battery (low nibble) and charging flags
/// (high nibble).
pub const BYTE_BATTERY_CASE_AND_CHARGING: usize = 7;

/// Bit of the flip byte that signals pod orientation (clear means flipped).
pub const MASK_FLIP_BIT: u8 = 0x02;

/// Charging-flag bit attributed to one physical side.
pub const MASK_CHARGING_LEFT: u8 = 0x01;

/// Charging-flag bit attributed to the other physical side.
pub const MASK_CHARGING_RIGHT: u8 = 0x02;

/// Charging-flag bit of the case; never affected by flip.
pub const MASK_CHARGING_CASE: u8 = 0x04;

/// The low nibble of a byte: bits 0 to 3.
pub open spec fn spec_low_nibble(byte: u8) -> u8 {
    byte & 0x0f
}

/// The high nibble of a byte: bits 4 to 7.
pub open spec fn spec_high_nibble(byte: u8) -> u8 {
    (byte >> 4) & 0x0f
}

/// Extract the low nibble (4 bits) from a byte.
pub fn low_nibble(byte: u8) -> (r: u8)
    ensures
        r == spec_low_nibble(byte),
{
    byte & 0x0f
}

/// Extract the high nibble (4 bits) from a byte.
pub fn high_nibble(byte: u8) -> (r: u8)
    ensures
        r == spec_high_nibble(byte),
{
    (byte >> 4) & 0x0f
}

/// The battery mapping on a raw nibble: 0 to 9 scale linearly to 5% to 95%,
/// 10 is full, and 11 to 15 (the disconnected sentinel and the undefined
/// codes) are absent.
pub open spec fn spec_battery_level(raw: u8) -> Option<u8> {
    if raw == 10 {
        Some(100u8)
    } else if raw <= 9 {
        Some((raw * 10 + 5) as u8)
    } else {
        None
    }
}

/// Convert a raw battery nibble to a percentage; `None` means the channel is
/// disconnected (sentinel 15) or carries an undefined code (11 to 14). Total
/// over the whole byte range.
pub fn battery_level(raw: u8) -> (r: Option<u8>)
    ensures
        r == spec_battery_level(raw),
        raw <= 9 ==> r == Some((raw * 10 + 5) as u8),
        raw == 10 ==> r == Some(100u8),
        raw >= 11 ==> r is None,
{
    if raw == 10 {
        Some(100)
    } else if raw <= 9 {
        Some(raw * 10 + 5)
    } else {
        None
    }
}

/// Whether the advertisement reports the pods in flipped orientation: bit
/// `MASK_FLIP_BIT` of the flip byte is clear.
pub open spec fn spec_flip(flip_byte: u8) -> bool {
    flip_byte & MASK_FLIP_BIT == 0
}

/// Resolve the orientation flag from the flip byte. Never fails.
pub fn is_flipped(flip_byte: u8) -> (r: bool)
    ensures
        r == spec_flip(flip_byte),
{
    (flip_byte & MASK_FLIP_BIT) == 0
}

/// The device topology, read from the low nibble of the high model byte
/// alone: nibble 0x0a means a single-unit (over-ear) accessory, anything
/// else a dual-unit pair.
pub open spec fn spec_is_single_unit(model_high: u8) -> bool {
    spec_low_nibble(model_high) == 0x0a
}

/// Classify the device topology from the high model byte.
pub fn is_single_unit(model_high: u8) -> (r: bool)
    ensures
        r == spec_is_single_unit(model_high),
{
    low_nibble(model_high) == 0x0a
}

/// The 16-bit model identifier: high byte then low byte, big-endian.
pub open spec fn spec_model_id(high: u8, low: u8) -> u16 {
    (high * 256 + low) as u16
}

/// Compose the model identifier from the two model bytes.
pub fn model_id(high: u8, low: u8) -> (r: u16)
    ensures
        r == spec_model_id(high, low),
{
    (high as u16) * 256 + (low as u16)
}

/// The display name of a model identifier. Unknown identifiers degrade to the
/// generic name; they are never a decode failure.
pub open spec fn spec_model_name(id: u16) -> Seq<char> {
    if id == 0x0220 {
        "AirPods 1"@
    } else if id == 0x0F20 {
        "AirPods 2"@
    } else if id == 0x1320 {
        "AirPods 3"@
    } else if id == 0x1920 {
        "AirPods 4"@
    } else if id == 0x0E20 {
        "AirPods Pro"@
    } else if id == 0x1420 || id == 0x2420 {
        "AirPods Pro 2"@
    } else if id == 0x2720 {
        "AirPods Pro 3"@
    } else if id == 0x0A20 || id == 0x1F20 {
        "AirPods Max"@
    } else {
        "AirPods"@
    }
}

/// Look up the display name of a model identifier by exact match.
pub fn model_name(id: u16) -> (r: &'static str)
    ensures
        r@ == spec_model_name(id),
{
    if id == 0x0220 {
        "AirPods 1"
    } else if id == 0x0F20 {
        "AirPods 2"
    } else if id == 0x1320 {
        "AirPods 3"
    } else if id == 0x1920 {
        "AirPods 4"
    } else if id == 0x0E20 {
        "AirPods Pro"
    } else if id == 0x1420 || id == 0x2420 {
        "AirPods Pro 2"
    } else if id == 0x2720 {
        "AirPods Pro 3"
    } else if id == 0x0A20 || id == 0x1F20 {
        "AirPods Max"
    } else {
        "AirPods"
    }
}

/// The raw nibble attributed to the left pod, after orientation resolution.
pub open spec fn spec_left_raw(pods_byte: u8, flip: bool) -> u8 {
    if flip {
        spec_low_nibble(pods_byte)
    } else {
        spec_high_nibble(pods_byte)
    }
}

/// The raw nibble attributed to the right pod, after orientation resolution.
pub open spec fn spec_right_raw(pods_byte: u8, flip: bool) -> u8 {
    if flip {
        spec_high_nibble(pods_byte)
    } else {
        spec_low_nibble(pods_byte)
    }
}

/// Whether the left pod is charging: the flip flag swaps which charging bit
/// belongs to which side, symmetric to the battery-nibble swap.
pub open spec fn spec_charging_left(charge_nibble: u8, flip: bool) -> bool {
    if flip {
        charge_nibble & MASK_CHARGING_RIGHT != 0
    } else {
        charge_nibble & MASK_CHARGING_LEFT != 0
    }
}

/// Whether the right pod is charging; the mirror image of
/// [`spec_charging_left`].
pub open spec fn spec_charging_right(charge_nibble: u8, flip: bool) -> bool {
    if flip {
        charge_nibble & MASK_CHARGING_LEFT != 0
    } else {
        charge_nibble & MASK_CHARGING_RIGHT != 0
    }
}

/// Whether the case is charging; independent of orientation.
pub open spec fn spec_charging_case(charge_nibble: u8) -> bool {
    charge_nibble & MASK_CHARGING_CASE != 0
}

/// The dual-unit field extraction on the pod byte and the case/charging
/// byte, after orientation resolution: left, right and case battery, and the
/// three charging flags. Total; individual battery fields may be absent.
pub open spec fn spec_extract_in_ear(pods_byte: u8, case_charge_byte: u8, flip: bool) -> InEarStatus {
    let charge_nibble = spec_high_nibble(case_charge_byte);
    InEarStatus {
        left: spec_battery_level(spec_left_raw(pods_byte, flip)),
        right: spec_battery_level(spec_right_raw(pods_byte, flip)),
        case: spec_battery_level(spec_low_nibble(case_charge_byte)),
        charging_left: spec_charging_left(charge_nibble, flip),
        charging_right: spec_charging_right(charge_nibble, flip),
        charging_case: spec_charging_case(charge_nibble),
    }
}

/// Extract the battery and charging fields of a dual-unit accessory. Never
/// fails as a whole; any battery channel may come out absent.
pub fn extract_in_ear(pods_byte: u8, case_charge_byte: u8, flip: bool) -> (r: InEarStatus)
    ensures
        r == spec_extract_in_ear(pods_byte, case_charge_byte, flip),
{
    let charge_nibble = high_nibble(case_charge_byte);
    let left_raw = if flip {
        low_nibble(pods_byte)
    } else {
        high_nibble(pods_byte)
    };
    let right_raw = if flip {
        high_nibble(pods_byte)
    } else {
        low_nibble(pods_byte)
    };
    let charging_left = if flip {
        charge_nibble & MASK_CHARGING_RIGHT != 0
    } else {
        charge_nibble & MASK_CHARGING_LEFT != 0
    };
    let charging_right = if flip {
        charge_nibble & MASK_CHARGING_LEFT != 0
    } else {
        charge_nibble & MASK_CHARGING_RIGHT != 0
    };
    InEarStatus {
        left: battery_level(left_raw),
        right: battery_level(right_raw),
        case: battery_level(low_nibble(case_charge_byte)),
        charging_left,
        charging_right,
        charging_case: charge_nibble & MASK_CHARGING_CASE != 0,
    }
}

/// The single-unit field extraction: one battery channel from the low nibble
/// of the pod byte, one charging flag. An absent battery makes the whole
/// extraction fail rather than yield a partial record.
pub open spec fn spec_extract_single_unit(pods_byte: u8, case_charge_byte: u8) -> Option<MaxStatus> {
    match spec_battery_level(spec_low_nibble(pods_byte)) {
        Some(battery) => Some(
            MaxStatus {
                battery,
                charging: spec_high_nibble(case_charge_byte) & MASK_CHARGING_LEFT != 0,
            },
        ),
        None => None,
    }
}

/// Extract the battery and charging fields of a single-unit accessory;
/// `None` exactly when its one battery channel is disconnected or undefined.
pub fn extract_single_unit(pods_byte: u8, case_charge_byte: u8) -> (r: Option<MaxStatus>)
    ensures
        r == spec_extract_single_unit(pods_byte, case_charge_byte),
        r is None <==> spec_battery_level(spec_low_nibble(pods_byte)) is None,
{
    match battery_level(low_nibble(pods_byte)) {
        Some(battery) => Some(
            MaxStatus {
                battery,
                charging: high_nibble(case_charge_byte) & MASK_CHARGING_LEFT != 0,
            },
        ),
        None => None,
    }
}

/// Whether a buffer is a candidate for decoding at all: keyed under the fixed
/// vendor id and exactly the expected length.
pub open spec fn spec_is_candidate(company_id: u16, len: nat) -> bool {
    company_id == APPLE_COMPANY_ID && len == ADVERTISEMENT_LENGTH
}

/// The whole decode as a mathematical function on the byte sequence. A buffer
/// of the wrong length yields nothing; a single-unit accessory whose one
/// battery channel is absent yields nothing; everything else yields exactly
/// one status whose variant is fixed by the topology nibble.
pub open spec fn spec_decode(data: Seq<u8>) -> Option<SpecStatus> {
    if data.len() != ADVERTISEMENT_LENGTH {
        None
    } else {
        let flip = spec_flip(data[BYTE_FLIP as int]);
        let id = spec_model_id(data[BYTE_MODEL_HIGH as int], data[BYTE_MODEL_LOW as int]);
        let model = spec_model_name(id);
        let pods_byte = data[BYTE_BATTERY_PODS as int];
        let case_charge_byte = data[BYTE_BATTERY_CASE_AND_CHARGING as int];
        if spec_is_single_unit(data[BYTE_MODEL_HIGH as int]) {
            match spec_extract_single_unit(pods_byte, case_charge_byte) {
                Some(status) => Some(SpecStatus::Max { model, status }),
                None => None,
            }
        } else {
            Some(
                SpecStatus::InEar {
                    model,
                    status: spec_extract_in_ear(pods_byte, case_charge_byte, flip),
                },
            )
        }
    }
}

/// Parse one manufacturer-data buffer into a status record.
///
/// Total and pure: a buffer of the wrong length, and a single-unit buffer
/// whose battery channel is disconnected, yield `None`; every other buffer
/// yields the status that [`spec_decode`] assigns to it.
pub fn parse_airpods_data(data: &[u8]) -> (r: Option<AirPodsStatus>)
    ensures
        match r {
            Some(s) => spec_decode(data@) == Some(s@),
            None => spec_decode(data@) is None,
        },
{
    if data.len() != ADVERTISEMENT_LENGTH {
        return None;
    }
    let flip = is_flipped(data[BYTE_FLIP]);
    let id = model_id(data[BYTE_MODEL_HIGH], data[BYTE_MODEL_LOW]);
    let model = String::from_str(model_name(id));
    let pods_byte = data[BYTE_BATTERY_PODS];
    let case_charge_byte = data[BYTE_BATTERY_CASE_AND_CHARGING];

    if is_single_unit(data[BYTE_MODEL_HIGH]) {
        match extract_single_unit(pods_byte, case_charge_byte) {
            Some(status) => Some(AirPodsStatus::Max { model, status }),
            None => None,
        }
    } else {
        Some(
            AirPodsStatus::InEar {
                model,
                status: extract_in_ear(pods_byte, case_charge_byte, flip),
            },
        )
    }
}

/// The admission filter: pass a buffer on if and only if it is keyed under
/// the fixed vendor id and has exactly the expected length. Stateless; a
/// rejection is not an error, merely "not a candidate".
pub fn is_candidate(company_id: u16, data: &[u8]) -> (r: bool)
    ensures
        r == spec_is_candidate(company_id, data@.len()),
{
    company_id == APPLE_COMPANY_ID && data.len() == ADVERTISEMENT_LENGTH
}

/// Decode one observed manufacturer-data entry: admission filter first, then
/// the parse. A buffer under a foreign company id, or of the wrong length,
/// yields nothing.
pub fn decode_advertisement(company_id: u16, data: &[u8]) -> (r: Option<AirPodsStatus>)
    ensures
        !spec_is_candidate(company_id, data@.len()) ==> r is None,
        company_id == APPLE_COMPANY_ID ==> match r {
            Some(s) => spec_decode(data@) == Some(s@),
            None => spec_decode(data@) is None,
        },
{
    if !is_candidate(company_id, data) {
        return None;
    }
    parse_airpods_data(data)
}

} // verus!
