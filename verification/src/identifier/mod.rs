pub mod pool;
pub mod store;
use vstd::prelude::*;

verus! {

/// An identifier of either protocol layer.
#[derive(Debug, Copy, Clone, PartialEq, Eq, Structural, PartialOrd, Ord, Hash)]
pub enum Identifier {
    Radius(RadiusIdentifier),
    Eap(EapIdentifier),
}

/// The identifier byte of a RADIUS packet.
#[derive(Debug, Copy, Clone, PartialEq, Eq, Structural, PartialOrd, Ord, Hash)]
pub struct RadiusIdentifier(pub u8);

/// The identifier byte of an EAP packet.
#[derive(Debug, Copy, Clone, PartialEq, Eq, Structural, PartialOrd, Ord, Hash)]
pub struct EapIdentifier(pub u8);

impl From<u8> for RadiusIdentifier {
    fn from(identifier: u8) -> (radius_identifier: Self) {
        Self(identifier)
    }
}

impl vstd::std_specs::convert::FromSpecImpl<u8> for RadiusIdentifier {
    open spec fn obeys_from_spec() -> bool {
        true
    }

    open spec fn from_spec(identifier: u8) -> Self {
        RadiusIdentifier(identifier)
    }
}

impl From<RadiusIdentifier> for u8 {
    fn from(identifier: RadiusIdentifier) -> (byte: u8) {
        identifier.0
    }
}

impl vstd::std_specs::convert::FromSpecImpl<RadiusIdentifier> for u8 {
    open spec fn obeys_from_spec() -> bool {
        true
    }

    open spec fn from_spec(identifier: RadiusIdentifier) -> u8 {
        identifier.0
    }
}

impl From<u8> for EapIdentifier {
    fn from(identifier: u8) -> (eap_identifier: Self) {
        Self(identifier)
    }
}

impl vstd::std_specs::convert::FromSpecImpl<u8> for EapIdentifier {
    open spec fn obeys_from_spec() -> bool {
        true
    }

    open spec fn from_spec(identifier: u8) -> Self {
        EapIdentifier(identifier)
    }
}

impl From<EapIdentifier> for u8 {
    fn from(identifier: EapIdentifier) -> (byte: u8) {
        identifier.0
    }
}

impl vstd::std_specs::convert::FromSpecImpl<EapIdentifier> for u8 {
    open spec fn obeys_from_spec() -> bool {
        true
    }

    open spec fn from_spec(identifier: EapIdentifier) -> u8 {
        identifier.0
    }
}

} // verus!
