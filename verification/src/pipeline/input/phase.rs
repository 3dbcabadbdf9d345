use crate::pipeline::{RadiusPipelinePhaseCode, format_other_phase_name, other_phase_name};
use vstd::prelude::*;

verus! {

/// The phases of the pipeline that reads a received packet.
#[derive(Debug, Copy, Clone, PartialEq, Eq, Structural, PartialOrd, Ord)]
pub enum RadiusInputPhaseCode {
    RadiusLayer,
    EapLayer,
    Other(usize),
}

impl RadiusInputPhaseCode {
    /// The place of the phase: the named phases first, in their order, then the others by
    /// their number read as a signed integer.
    pub open spec fn spec_position(self) -> isize {
        match self {
            RadiusInputPhaseCode::RadiusLayer => (isize::MIN + 0) as isize,
            RadiusInputPhaseCode::EapLayer => (isize::MIN + 1) as isize,
            RadiusInputPhaseCode::Other(code) => code as isize,
        }
    }

    pub fn position(&self) -> (position: isize)
        ensures
            position == self.spec_position(),
    {
        match self {
            RadiusInputPhaseCode::RadiusLayer => (isize::MIN + 0) as isize,
            RadiusInputPhaseCode::EapLayer => (isize::MIN + 1) as isize,
            RadiusInputPhaseCode::Other(code) => *code as isize,
        }
    }

}

impl RadiusPipelinePhaseCode for RadiusInputPhaseCode {
    open spec fn spec_order_key(&self) -> int {
        match *self {
            RadiusInputPhaseCode::RadiusLayer => 0,
            RadiusInputPhaseCode::EapLayer => 1,
            RadiusInputPhaseCode::Other(code) => 2 + code,
        }
    }

    fn order_key(&self) -> (key: u128) {
        match self {
            RadiusInputPhaseCode::RadiusLayer => 0,
            RadiusInputPhaseCode::EapLayer => 1,
            RadiusInputPhaseCode::Other(code) => 2 + *code as u128,
        }
    }

    fn name(&self) -> (name: String)
        ensures
            match *self {
            RadiusInputPhaseCode::RadiusLayer => name@ == "RADIUS_LAYER"@,
            RadiusInputPhaseCode::EapLayer => name@ == "EAP_LAYER"@,
                RadiusInputPhaseCode::Other(code) => name@ == other_phase_name(code),
            },
    {
        match self {
            RadiusInputPhaseCode::RadiusLayer => "RADIUS_LAYER".to_owned(),
            RadiusInputPhaseCode::EapLayer => "EAP_LAYER".to_owned(),
            RadiusInputPhaseCode::Other(code) => format_other_phase_name(*code),
        }
    }
}

} // verus!
