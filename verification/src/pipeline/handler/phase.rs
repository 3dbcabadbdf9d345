use crate::pipeline::{RadiusPipelinePhaseCode, format_other_phase_name, other_phase_name};
use vstd::prelude::*;

verus! {

/// The phases of the pipeline that decides how to answer a packet.
#[derive(Debug, Copy, Clone, PartialEq, Eq, Structural, PartialOrd, Ord)]
pub enum RadiusHandlerPhaseCode {
    Validation,
    Eap,
    Other(usize),
}

impl RadiusHandlerPhaseCode {
    /// The place of the phase: the named phases first, in their order, then the others by
    /// their number read as a signed integer.
    pub open spec fn spec_position(self) -> isize {
        match self {
            RadiusHandlerPhaseCode::Validation => (isize::MIN + 0) as isize,
            RadiusHandlerPhaseCode::Eap => (isize::MIN + 1) as isize,
            RadiusHandlerPhaseCode::Other(code) => code as isize,
        }
    }

    pub fn position(&self) -> (position: isize)
        ensures
            position == self.spec_position(),
    {
        match self {
            RadiusHandlerPhaseCode::Validation => (isize::MIN + 0) as isize,
            RadiusHandlerPhaseCode::Eap => (isize::MIN + 1) as isize,
            RadiusHandlerPhaseCode::Other(code) => *code as isize,
        }
    }

}

impl RadiusPipelinePhaseCode for RadiusHandlerPhaseCode {
    open spec fn spec_order_key(&self) -> int {
        match *self {
            RadiusHandlerPhaseCode::Validation => 0,
            RadiusHandlerPhaseCode::Eap => 1,
            RadiusHandlerPhaseCode::Other(code) => 2 + code,
        }
    }

    fn order_key(&self) -> (key: u128) {
        match self {
            RadiusHandlerPhaseCode::Validation => 0,
            RadiusHandlerPhaseCode::Eap => 1,
            RadiusHandlerPhaseCode::Other(code) => 2 + *code as u128,
        }
    }

    fn name(&self) -> (name: String)
        ensures
            match *self {
            RadiusHandlerPhaseCode::Validation => name@ == "VALIDATION"@,
            RadiusHandlerPhaseCode::Eap => name@ == "EAP"@,
                RadiusHandlerPhaseCode::Other(code) => name@ == other_phase_name(code),
            },
    {
        match self {
            RadiusHandlerPhaseCode::Validation => "VALIDATION".to_owned(),
            RadiusHandlerPhaseCode::Eap => "EAP".to_owned(),
            RadiusHandlerPhaseCode::Other(code) => format_other_phase_name(*code),
        }
    }
}

} // verus!
