//! Laws of the decoder that relate whole decodes to one another, stated and
//! proved over the spec-level model.

use vstd::prelude::*;

use crate::decode::{
    spec_battery_level, spec_decode, spec_flip, spec_is_single_unit, spec_low_nibble,
    ADVERTISEMENT_LENGTH, BYTE_BATTERY_PODS, BYTE_FLIP, BYTE_MODEL_HIGH,
};
use crate::status::SpecStatus;

verus! {

/// A buffer of any length other than the expected one decodes to nothing,
/// whatever it holds; in particular the decoder never reads past its end.
pub proof fn lemma_wrong_length_yields_nothing(data: Seq<u8>)
    requires
        data.len() != ADVERTISEMENT_LENGTH,
    ensures
        spec_decode(data) is None,
{
}

/// Flip invariance: two buffers that agree everywhere outside the flip byte,
/// one reporting flipped orientation and the other not, decode to statuses
/// with the left and right assignments exchanged — batteries and charging
/// flags alike — while model, case battery and case charging agree.
pub proof fn lemma_flip_swaps_sides(d1: Seq<u8>, d2: Seq<u8>)
    requires
        d1.len() == ADVERTISEMENT_LENGTH,
        d2.len() == ADVERTISEMENT_LENGTH,
        forall|i: int| 0 <= i < ADVERTISEMENT_LENGTH && i != BYTE_FLIP ==> d1[i] == d2[i],
        spec_flip(d1[BYTE_FLIP as int]),
        !spec_flip(d2[BYTE_FLIP as int]),
        !spec_is_single_unit(d1[BYTE_MODEL_HIGH as int]),
    ensures
        match (spec_decode(d1), spec_decode(d2)) {
            (Some(SpecStatus::InEar { model: m1, status: s1 }),
             Some(SpecStatus::InEar { model: m2, status: s2 })) => {
                &&& s1.left == s2.right
                &&& s1.right == s2.left
                &&& s1.charging_left == s2.charging_right
                &&& s1.charging_right == s2.charging_left
                &&& s1.case == s2.case
                &&& s1.charging_case == s2.charging_case
                &&& m1 == m2
            },
            _ => false,
        },
{
}

/// Topology determinism: a buffer whose topology nibble says "single unit"
/// never decodes to a dual-unit status, whatever the model table says of its
/// identifier — it yields a single-unit status or nothing at all.
pub proof fn lemma_single_unit_topology(data: Seq<u8>)
    requires
        data.len() == ADVERTISEMENT_LENGTH,
        spec_is_single_unit(data[BYTE_MODEL_HIGH as int]),
    ensures
        spec_decode(data) matches Some(s) ==> s is Max,
{
}

/// A single-unit accessory whose one battery channel reports the
/// disconnected sentinel (or an undefined code) makes the whole decode fail:
/// no partial single-unit status is ever produced.
pub proof fn lemma_single_unit_disconnected_fails(data: Seq<u8>)
    requires
        data.len() == ADVERTISEMENT_LENGTH,
        spec_is_single_unit(data[BYTE_MODEL_HIGH as int]),
        spec_battery_level(spec_low_nibble(data[BYTE_BATTERY_PODS as int])) is None,
    ensures
        spec_decode(data) is None,
{
}

} // verus!
