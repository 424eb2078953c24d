//! The decode result: a closed sum over the two device topologies, together
//! with its mathematical view.

use vstd::prelude::*;

verus! {

/// Battery status of a dual-unit (in-ear) accessory: two pods and a case.
///
/// A battery field is `None` when the corresponding channel reported the
/// disconnected sentinel (or one of the undefined raw codes).
#[derive(Clone, Copy, Debug, PartialEq, Eq, Structural)]
pub struct InEarStatus {
    pub left: Option<u8>,
    pub right: Option<u8>,
    pub case: Option<u8>,
    pub charging_left: bool,
    pub charging_right: bool,
    pub charging_case: bool,
}

/// Battery status of a single-unit (over-ear) accessory: one combined channel.
#[derive(Clone, Copy, Debug, PartialEq, Eq, Structural)]
pub struct MaxStatus {
    pub battery: u8,
    pub charging: bool,
}

/// A successfully decoded advertisement. The variant is chosen by the device
/// topology alone, never by which battery fields happen to be present.
#[derive(Clone, Debug)]
pub enum AirPodsStatus {
    InEar { model: String, status: InEarStatus },
    Max { model: String, status: MaxStatus },
}

/// The mathematical shape of a decoded status: the model name is a character
/// sequence, everything else is already a plain value.
pub enum SpecStatus {
    InEar { model: Seq<char>, status: InEarStatus },
    Max { model: Seq<char>, status: MaxStatus },
}

impl View for AirPodsStatus {
    type V = SpecStatus;

    open spec fn view(&self) -> SpecStatus {
        match self {
            AirPodsStatus::InEar { model, status } => SpecStatus::InEar {
                model: model@,
                status: *status,
            },
            AirPodsStatus::Max { model, status } => SpecStatus::Max {
                model: model@,
                status: *status,
            },
        }
    }
}

impl AirPodsStatus {
    /// The display name of the device model.
    pub fn model(&self) -> (r: &str)
        ensures
            r@ == self.spec_model(),
    {
        match self {
            AirPodsStatus::InEar { model, .. } => model.as_str(),
            AirPodsStatus::Max { model, .. } => model.as_str(),
        }
    }

    /// The model name, independent of the variant.
    pub open spec fn spec_model(&self) -> Seq<char> {
        match self@ {
            SpecStatus::InEar { model, .. } => model,
            SpecStatus::Max { model, .. } => model,
        }
    }
}

} // verus!
