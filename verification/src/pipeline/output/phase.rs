use crate::pipeline::{RadiusPipelinePhaseCode, format_other_phase_name, other_phase_name};
use vstd::prelude::*;

verus! {

/// The phases of the pipeline that completes a packet to be sent.
#[derive(Debug, Copy, Clone, PartialEq, Eq, Structural, PartialOrd, Ord)]
pub enum RadiusOutputPhaseCode {
    EapLayer,
    RadiusLayer,
    MessageAuthenticator,
    ResponseAuthenticator,
    Other(usize),
}

impl RadiusOutputPhaseCode {
    /// The place of the phase: the named phases first, in their order, then the others by
    /// their number read as a signed integer.
    pub open spec fn spec_position(self) -> isize {
        match self {
            RadiusOutputPhaseCode::EapLayer => (isize::MIN + 0) as isize,
            RadiusOutputPhaseCode::RadiusLayer => (isize::MIN + 1) as isize,
            RadiusOutputPhaseCode::MessageAuthenticator => (isize::MIN + 2) as isize,
            RadiusOutputPhaseCode::ResponseAuthenticator => (isize::MIN + 3) as isize,
            RadiusOutputPhaseCode::Other(code) => code as isize,
        }
    }

    pub fn position(&self) -> (position: isize)
        ensures
            position == self.spec_position(),
    {
        match self {
            RadiusOutputPhaseCode::EapLayer => (isize::MIN + 0) as isize,
            RadiusOutputPhaseCode::RadiusLayer => (isize::MIN + 1) as isize,
            RadiusOutputPhaseCode::MessageAuthenticator => (isize::MIN + 2) as isize,
            RadiusOutputPhaseCode::ResponseAuthenticator => (isize::MIN + 3) as isize,
            RadiusOutputPhaseCode::Other(code) => *code as isize,
        }
    }

}

impl RadiusPipelinePhaseCode for RadiusOutputPhaseCode {
    open spec fn spec_order_key(&self) -> int {
        match *self {
            RadiusOutputPhaseCode::EapLayer => 0,
            RadiusOutputPhaseCode::RadiusLayer => 1,
            RadiusOutputPhaseCode::MessageAuthenticator => 2,
            RadiusOutputPhaseCode::ResponseAuthenticator => 3,
            RadiusOutputPhaseCode::Other(code) => 4 + code,
        }
    }

    fn order_key(&self) -> (key: u128) {
        match self {
            RadiusOutputPhaseCode::EapLayer => 0,
            RadiusOutputPhaseCode::RadiusLayer => 1,
            RadiusOutputPhaseCode::MessageAuthenticator => 2,
            RadiusOutputPhaseCode::ResponseAuthenticator => 3,
            RadiusOutputPhaseCode::Other(code) => 4 + *code as u128,
        }
    }

    fn name(&self) -> (name: String)
        ensures
            match *self {
            RadiusOutputPhaseCode::EapLayer => name@ == "EAP_LAYER"@,
            RadiusOutputPhaseCode::RadiusLayer => name@ == "RADIUS_LAYER"@,
            RadiusOutputPhaseCode::MessageAuthenticator => name@ == "MESSAGE_AUTHENTICATOR"@,
            RadiusOutputPhaseCode::ResponseAuthenticator => name@ == "RESPONSE_AUTHENTICATOR"@,
                RadiusOutputPhaseCode::Other(code) => name@ == other_phase_name(code),
            },
    {
        match self {
            RadiusOutputPhaseCode::EapLayer => "EAP_LAYER".to_owned(),
            RadiusOutputPhaseCode::RadiusLayer => "RADIUS_LAYER".to_owned(),
            RadiusOutputPhaseCode::MessageAuthenticator => "MESSAGE_AUTHENTICATOR".to_owned(),
            RadiusOutputPhaseCode::ResponseAuthenticator => "RESPONSE_AUTHENTICATOR".to_owned(),
            RadiusOutputPhaseCode::Other(code) => format_other_phase_name(*code),
        }
    }
}

} // verus!
