use crate::tag_length_value::TagLengthValueTag;
use vstd::prelude::*;

verus! {

/// The type byte of a RADIUS attribute.
#[derive(Debug, Copy, Clone, PartialEq, Eq, Structural)]
pub enum RadiusPacketAttributeType {
    UserName,
    UserPassword,
    CHAPPassword,
    NASIPAddress,
    NASPort,
    ServiceType,
    FramedProtocol,
    FramedIPAddress,
    FramedIPNetmask,
    FramedRouting,
    FilterId,
    FramedMTU,
    FramedCompression,
    LoginIPHost,
    LoginService,
    LoginTCPPort,
    ReplyMessage,
    CallbackNumber,
    CallbackId,
    FramedRoute,
    FramedIPXNetwork,
    State,
    Class,
    VendorSpecific,
    SessionTimeout,
    IdleTimeout,
    TerminationAction,
    CalledStatiodId,
    CallingStationId,
    NASIdentifier,
    ProxyState,
    LoginLATService,
    LoginLATNode,
    LoginLATGroup,
    FramedAppleTalkLink,
    FramedAppleTalkNetwork,
    FramedAppleTalkZone,
    CHAPChallenge,
    NASPortType,
    PortLimit,
    LoginLATPort,
    EAPMessage,
    MessageAuthenticator,
    Other(u8),
}

impl TagLengthValueTag for RadiusPacketAttributeType {
    open spec fn spec_from_byte(byte: u8) -> Self {
        match byte {
            1 => RadiusPacketAttributeType::UserName,
            2 => RadiusPacketAttributeType::UserPassword,
            3 => RadiusPacketAttributeType::CHAPPassword,
            4 => RadiusPacketAttributeType::NASIPAddress,
            5 => RadiusPacketAttributeType::NASPort,
            6 => RadiusPacketAttributeType::ServiceType,
            7 => RadiusPacketAttributeType::FramedProtocol,
            8 => RadiusPacketAttributeType::FramedIPAddress,
            9 => RadiusPacketAttributeType::FramedIPNetmask,
            10 => RadiusPacketAttributeType::FramedRouting,
            11 => RadiusPacketAttributeType::FilterId,
            12 => RadiusPacketAttributeType::FramedMTU,
            13 => RadiusPacketAttributeType::FramedCompression,
            14 => RadiusPacketAttributeType::LoginIPHost,
            15 => RadiusPacketAttributeType::LoginService,
            16 => RadiusPacketAttributeType::LoginTCPPort,
            18 => RadiusPacketAttributeType::ReplyMessage,
            19 => RadiusPacketAttributeType::CallbackNumber,
            20 => RadiusPacketAttributeType::CallbackId,
            22 => RadiusPacketAttributeType::FramedRoute,
            23 => RadiusPacketAttributeType::FramedIPXNetwork,
            24 => RadiusPacketAttributeType::State,
            25 => RadiusPacketAttributeType::Class,
            26 => RadiusPacketAttributeType::VendorSpecific,
            27 => RadiusPacketAttributeType::SessionTimeout,
            28 => RadiusPacketAttributeType::IdleTimeout,
            29 => RadiusPacketAttributeType::TerminationAction,
            30 => RadiusPacketAttributeType::CalledStatiodId,
            31 => RadiusPacketAttributeType::CallingStationId,
            32 => RadiusPacketAttributeType::NASIdentifier,
            33 => RadiusPacketAttributeType::ProxyState,
            34 => RadiusPacketAttributeType::LoginLATService,
            35 => RadiusPacketAttributeType::LoginLATNode,
            36 => RadiusPacketAttributeType::LoginLATGroup,
            37 => RadiusPacketAttributeType::FramedAppleTalkLink,
            38 => RadiusPacketAttributeType::FramedAppleTalkNetwork,
            39 => RadiusPacketAttributeType::FramedAppleTalkZone,
            60 => RadiusPacketAttributeType::CHAPChallenge,
            61 => RadiusPacketAttributeType::NASPortType,
            62 => RadiusPacketAttributeType::PortLimit,
            63 => RadiusPacketAttributeType::LoginLATPort,
            79 => RadiusPacketAttributeType::EAPMessage,
            80 => RadiusPacketAttributeType::MessageAuthenticator,
            other => RadiusPacketAttributeType::Other(other),
        }
    }

    open spec fn spec_to_byte(self) -> u8 {
        match self {
            RadiusPacketAttributeType::UserName => 1,
            RadiusPacketAttributeType::UserPassword => 2,
            RadiusPacketAttributeType::CHAPPassword => 3,
            RadiusPacketAttributeType::NASIPAddress => 4,
            RadiusPacketAttributeType::NASPort => 5,
            RadiusPacketAttributeType::ServiceType => 6,
            RadiusPacketAttributeType::FramedProtocol => 7,
            RadiusPacketAttributeType::FramedIPAddress => 8,
            RadiusPacketAttributeType::FramedIPNetmask => 9,
            RadiusPacketAttributeType::FramedRouting => 10,
            RadiusPacketAttributeType::FilterId => 11,
            RadiusPacketAttributeType::FramedMTU => 12,
            RadiusPacketAttributeType::FramedCompression => 13,
            RadiusPacketAttributeType::LoginIPHost => 14,
            RadiusPacketAttributeType::LoginService => 15,
            RadiusPacketAttributeType::LoginTCPPort => 16,
            RadiusPacketAttributeType::ReplyMessage => 18,
            RadiusPacketAttributeType::CallbackNumber => 19,
            RadiusPacketAttributeType::CallbackId => 20,
            RadiusPacketAttributeType::FramedRoute => 22,
            RadiusPacketAttributeType::FramedIPXNetwork => 23,
            RadiusPacketAttributeType::State => 24,
            RadiusPacketAttributeType::Class => 25,
            RadiusPacketAttributeType::VendorSpecific => 26,
            RadiusPacketAttributeType::SessionTimeout => 27,
            RadiusPacketAttributeType::IdleTimeout => 28,
            RadiusPacketAttributeType::TerminationAction => 29,
            RadiusPacketAttributeType::CalledStatiodId => 30,
            RadiusPacketAttributeType::CallingStationId => 31,
            RadiusPacketAttributeType::NASIdentifier => 32,
            RadiusPacketAttributeType::ProxyState => 33,
            RadiusPacketAttributeType::LoginLATService => 34,
            RadiusPacketAttributeType::LoginLATNode => 35,
            RadiusPacketAttributeType::LoginLATGroup => 36,
            RadiusPacketAttributeType::FramedAppleTalkLink => 37,
            RadiusPacketAttributeType::FramedAppleTalkNetwork => 38,
            RadiusPacketAttributeType::FramedAppleTalkZone => 39,
            RadiusPacketAttributeType::CHAPChallenge => 60,
            RadiusPacketAttributeType::NASPortType => 61,
            RadiusPacketAttributeType::PortLimit => 62,
            RadiusPacketAttributeType::LoginLATPort => 63,
            RadiusPacketAttributeType::EAPMessage => 79,
            RadiusPacketAttributeType::MessageAuthenticator => 80,
            RadiusPacketAttributeType::Other(other) => other,
        }
    }

    fn from_byte(byte: u8) -> (tag: Self) {
        match byte {
            1 => RadiusPacketAttributeType::UserName,
            2 => RadiusPacketAttributeType::UserPassword,
            3 => RadiusPacketAttributeType::CHAPPassword,
            4 => RadiusPacketAttributeType::NASIPAddress,
            5 => RadiusPacketAttributeType::NASPort,
            6 => RadiusPacketAttributeType::ServiceType,
            7 => RadiusPacketAttributeType::FramedProtocol,
            8 => RadiusPacketAttributeType::FramedIPAddress,
            9 => RadiusPacketAttributeType::FramedIPNetmask,
            10 => RadiusPacketAttributeType::FramedRouting,
            11 => RadiusPacketAttributeType::FilterId,
            12 => RadiusPacketAttributeType::FramedMTU,
            13 => RadiusPacketAttributeType::FramedCompression,
            14 => RadiusPacketAttributeType::LoginIPHost,
            15 => RadiusPacketAttributeType::LoginService,
            16 => RadiusPacketAttributeType::LoginTCPPort,
            18 => RadiusPacketAttributeType::ReplyMessage,
            19 => RadiusPacketAttributeType::CallbackNumber,
            20 => RadiusPacketAttributeType::CallbackId,
            22 => RadiusPacketAttributeType::FramedRoute,
            23 => RadiusPacketAttributeType::FramedIPXNetwork,
            24 => RadiusPacketAttributeType::State,
            25 => RadiusPacketAttributeType::Class,
            26 => RadiusPacketAttributeType::VendorSpecific,
            27 => RadiusPacketAttributeType::SessionTimeout,
            28 => RadiusPacketAttributeType::IdleTimeout,
            29 => RadiusPacketAttributeType::TerminationAction,
            30 => RadiusPacketAttributeType::CalledStatiodId,
            31 => RadiusPacketAttributeType::CallingStationId,
            32 => RadiusPacketAttributeType::NASIdentifier,
            33 => RadiusPacketAttributeType::ProxyState,
            34 => RadiusPacketAttributeType::LoginLATService,
            35 => RadiusPacketAttributeType::LoginLATNode,
            36 => RadiusPacketAttributeType::LoginLATGroup,
            37 => RadiusPacketAttributeType::FramedAppleTalkLink,
            38 => RadiusPacketAttributeType::FramedAppleTalkNetwork,
            39 => RadiusPacketAttributeType::FramedAppleTalkZone,
            60 => RadiusPacketAttributeType::CHAPChallenge,
            61 => RadiusPacketAttributeType::NASPortType,
            62 => RadiusPacketAttributeType::PortLimit,
            63 => RadiusPacketAttributeType::LoginLATPort,
            79 => RadiusPacketAttributeType::EAPMessage,
            80 => RadiusPacketAttributeType::MessageAuthenticator,
            other => RadiusPacketAttributeType::Other(other),
        }
    }

    fn to_byte(self) -> (byte: u8) {
        match self {
            RadiusPacketAttributeType::UserName => 1,
            RadiusPacketAttributeType::UserPassword => 2,
            RadiusPacketAttributeType::CHAPPassword => 3,
            RadiusPacketAttributeType::NASIPAddress => 4,
            RadiusPacketAttributeType::NASPort => 5,
            RadiusPacketAttributeType::ServiceType => 6,
            RadiusPacketAttributeType::FramedProtocol => 7,
            RadiusPacketAttributeType::FramedIPAddress => 8,
            RadiusPacketAttributeType::FramedIPNetmask => 9,
            RadiusPacketAttributeType::FramedRouting => 10,
            RadiusPacketAttributeType::FilterId => 11,
            RadiusPacketAttributeType::FramedMTU => 12,
            RadiusPacketAttributeType::FramedCompression => 13,
            RadiusPacketAttributeType::LoginIPHost => 14,
            RadiusPacketAttributeType::LoginService => 15,
            RadiusPacketAttributeType::LoginTCPPort => 16,
            RadiusPacketAttributeType::ReplyMessage => 18,
            RadiusPacketAttributeType::CallbackNumber => 19,
            RadiusPacketAttributeType::CallbackId => 20,
            RadiusPacketAttributeType::FramedRoute => 22,
            RadiusPacketAttributeType::FramedIPXNetwork => 23,
            RadiusPacketAttributeType::State => 24,
            RadiusPacketAttributeType::Class => 25,
            RadiusPacketAttributeType::VendorSpecific => 26,
            RadiusPacketAttributeType::SessionTimeout => 27,
            RadiusPacketAttributeType::IdleTimeout => 28,
            RadiusPacketAttributeType::TerminationAction => 29,
            RadiusPacketAttributeType::CalledStatiodId => 30,
            RadiusPacketAttributeType::CallingStationId => 31,
            RadiusPacketAttributeType::NASIdentifier => 32,
            RadiusPacketAttributeType::ProxyState => 33,
            RadiusPacketAttributeType::LoginLATService => 34,
            RadiusPacketAttributeType::LoginLATNode => 35,
            RadiusPacketAttributeType::LoginLATGroup => 36,
            RadiusPacketAttributeType::FramedAppleTalkLink => 37,
            RadiusPacketAttributeType::FramedAppleTalkNetwork => 38,
            RadiusPacketAttributeType::FramedAppleTalkZone => 39,
            RadiusPacketAttributeType::CHAPChallenge => 60,
            RadiusPacketAttributeType::NASPortType => 61,
            RadiusPacketAttributeType::PortLimit => 62,
            RadiusPacketAttributeType::LoginLATPort => 63,
            RadiusPacketAttributeType::EAPMessage => 79,
            RadiusPacketAttributeType::MessageAuthenticator => 80,
            RadiusPacketAttributeType::Other(other) => other,
        }
    }

    proof fn lemma_from_byte_to_byte(byte: u8) {
    }
}

impl From<u8> for RadiusPacketAttributeType {
    fn from(byte: u8) -> (tag: Self) {
        Self::from_byte(byte)
    }
}

impl vstd::std_specs::convert::FromSpecImpl<u8> for RadiusPacketAttributeType {
    open spec fn obeys_from_spec() -> bool {
        true
    }

    open spec fn from_spec(byte: u8) -> Self {
        Self::spec_from_byte(byte)
    }
}

impl From<RadiusPacketAttributeType> for u8 {
    fn from(tag: RadiusPacketAttributeType) -> (byte: u8) {
        tag.to_byte()
    }
}

impl vstd::std_specs::convert::FromSpecImpl<RadiusPacketAttributeType> for u8 {
    open spec fn obeys_from_spec() -> bool {
        true
    }

    open spec fn from_spec(tag: RadiusPacketAttributeType) -> u8 {
        tag.spec_to_byte()
    }
}


/// The wire number of every attribute type, as RFC 2865 and RFC 3579 assign them; every other byte reads as
/// an unknown value that keeps the byte.
pub proof fn lemma_attribute_type_wire_values()
    ensures
        RadiusPacketAttributeType::spec_from_byte(1) == RadiusPacketAttributeType::UserName,
        RadiusPacketAttributeType::UserName.spec_to_byte() == 1,
        RadiusPacketAttributeType::spec_from_byte(2) == RadiusPacketAttributeType::UserPassword,
        RadiusPacketAttributeType::UserPassword.spec_to_byte() == 2,
        RadiusPacketAttributeType::spec_from_byte(3) == RadiusPacketAttributeType::CHAPPassword,
        RadiusPacketAttributeType::CHAPPassword.spec_to_byte() == 3,
        RadiusPacketAttributeType::spec_from_byte(4) == RadiusPacketAttributeType::NASIPAddress,
        RadiusPacketAttributeType::NASIPAddress.spec_to_byte() == 4,
        RadiusPacketAttributeType::spec_from_byte(5) == RadiusPacketAttributeType::NASPort,
        RadiusPacketAttributeType::NASPort.spec_to_byte() == 5,
        RadiusPacketAttributeType::spec_from_byte(6) == RadiusPacketAttributeType::ServiceType,
        RadiusPacketAttributeType::ServiceType.spec_to_byte() == 6,
        RadiusPacketAttributeType::spec_from_byte(7) == RadiusPacketAttributeType::FramedProtocol,
        RadiusPacketAttributeType::FramedProtocol.spec_to_byte() == 7,
        RadiusPacketAttributeType::spec_from_byte(8) == RadiusPacketAttributeType::FramedIPAddress,
        RadiusPacketAttributeType::FramedIPAddress.spec_to_byte() == 8,
        RadiusPacketAttributeType::spec_from_byte(9) == RadiusPacketAttributeType::FramedIPNetmask,
        RadiusPacketAttributeType::FramedIPNetmask.spec_to_byte() == 9,
        RadiusPacketAttributeType::spec_from_byte(10) == RadiusPacketAttributeType::FramedRouting,
        RadiusPacketAttributeType::FramedRouting.spec_to_byte() == 10,
        RadiusPacketAttributeType::spec_from_byte(11) == RadiusPacketAttributeType::FilterId,
        RadiusPacketAttributeType::FilterId.spec_to_byte() == 11,
        RadiusPacketAttributeType::spec_from_byte(12) == RadiusPacketAttributeType::FramedMTU,
        RadiusPacketAttributeType::FramedMTU.spec_to_byte() == 12,
        RadiusPacketAttributeType::spec_from_byte(13) == RadiusPacketAttributeType::FramedCompression,
        RadiusPacketAttributeType::FramedCompression.spec_to_byte() == 13,
        RadiusPacketAttributeType::spec_from_byte(14) == RadiusPacketAttributeType::LoginIPHost,
        RadiusPacketAttributeType::LoginIPHost.spec_to_byte() == 14,
        RadiusPacketAttributeType::spec_from_byte(15) == RadiusPacketAttributeType::LoginService,
        RadiusPacketAttributeType::LoginService.spec_to_byte() == 15,
        RadiusPacketAttributeType::spec_from_byte(16) == RadiusPacketAttributeType::LoginTCPPort,
        RadiusPacketAttributeType::LoginTCPPort.spec_to_byte() == 16,
        RadiusPacketAttributeType::spec_from_byte(18) == RadiusPacketAttributeType::ReplyMessage,
        RadiusPacketAttributeType::ReplyMessage.spec_to_byte() == 18,
        RadiusPacketAttributeType::spec_from_byte(19) == RadiusPacketAttributeType::CallbackNumber,
        RadiusPacketAttributeType::CallbackNumber.spec_to_byte() == 19,
        RadiusPacketAttributeType::spec_from_byte(20) == RadiusPacketAttributeType::CallbackId,
        RadiusPacketAttributeType::CallbackId.spec_to_byte() == 20,
        RadiusPacketAttributeType::spec_from_byte(22) == RadiusPacketAttributeType::FramedRoute,
        RadiusPacketAttributeType::FramedRoute.spec_to_byte() == 22,
        RadiusPacketAttributeType::spec_from_byte(23) == RadiusPacketAttributeType::FramedIPXNetwork,
        RadiusPacketAttributeType::FramedIPXNetwork.spec_to_byte() == 23,
        RadiusPacketAttributeType::spec_from_byte(24) == RadiusPacketAttributeType::State,
        RadiusPacketAttributeType::State.spec_to_byte() == 24,
        RadiusPacketAttributeType::spec_from_byte(25) == RadiusPacketAttributeType::Class,
        RadiusPacketAttributeType::Class.spec_to_byte() == 25,
        RadiusPacketAttributeType::spec_from_byte(26) == RadiusPacketAttributeType::VendorSpecific,
        RadiusPacketAttributeType::VendorSpecific.spec_to_byte() == 26,
        RadiusPacketAttributeType::spec_from_byte(27) == RadiusPacketAttributeType::SessionTimeout,
        RadiusPacketAttributeType::SessionTimeout.spec_to_byte() == 27,
        RadiusPacketAttributeType::spec_from_byte(28) == RadiusPacketAttributeType::IdleTimeout,
        RadiusPacketAttributeType::IdleTimeout.spec_to_byte() == 28,
        RadiusPacketAttributeType::spec_from_byte(29) == RadiusPacketAttributeType::TerminationAction,
        RadiusPacketAttributeType::TerminationAction.spec_to_byte() == 29,
        RadiusPacketAttributeType::spec_from_byte(30) == RadiusPacketAttributeType::CalledStatiodId,
        RadiusPacketAttributeType::CalledStatiodId.spec_to_byte() == 30,
        RadiusPacketAttributeType::spec_from_byte(31) == RadiusPacketAttributeType::CallingStationId,
        RadiusPacketAttributeType::CallingStationId.spec_to_byte() == 31,
        RadiusPacketAttributeType::spec_from_byte(32) == RadiusPacketAttributeType::NASIdentifier,
        RadiusPacketAttributeType::NASIdentifier.spec_to_byte() == 32,
        RadiusPacketAttributeType::spec_from_byte(33) == RadiusPacketAttributeType::ProxyState,
        RadiusPacketAttributeType::ProxyState.spec_to_byte() == 33,
        RadiusPacketAttributeType::spec_from_byte(34) == RadiusPacketAttributeType::LoginLATService,
        RadiusPacketAttributeType::LoginLATService.spec_to_byte() == 34,
        RadiusPacketAttributeType::spec_from_byte(35) == RadiusPacketAttributeType::LoginLATNode,
        RadiusPacketAttributeType::LoginLATNode.spec_to_byte() == 35,
        RadiusPacketAttributeType::spec_from_byte(36) == RadiusPacketAttributeType::LoginLATGroup,
        RadiusPacketAttributeType::LoginLATGroup.spec_to_byte() == 36,
        RadiusPacketAttributeType::spec_from_byte(37) == RadiusPacketAttributeType::FramedAppleTalkLink,
        RadiusPacketAttributeType::FramedAppleTalkLink.spec_to_byte() == 37,
        RadiusPacketAttributeType::spec_from_byte(38) == RadiusPacketAttributeType::FramedAppleTalkNetwork,
        RadiusPacketAttributeType::FramedAppleTalkNetwork.spec_to_byte() == 38,
        RadiusPacketAttributeType::spec_from_byte(39) == RadiusPacketAttributeType::FramedAppleTalkZone,
        RadiusPacketAttributeType::FramedAppleTalkZone.spec_to_byte() == 39,
        RadiusPacketAttributeType::spec_from_byte(60) == RadiusPacketAttributeType::CHAPChallenge,
        RadiusPacketAttributeType::CHAPChallenge.spec_to_byte() == 60,
        RadiusPacketAttributeType::spec_from_byte(61) == RadiusPacketAttributeType::NASPortType,
        RadiusPacketAttributeType::NASPortType.spec_to_byte() == 61,
        RadiusPacketAttributeType::spec_from_byte(62) == RadiusPacketAttributeType::PortLimit,
        RadiusPacketAttributeType::PortLimit.spec_to_byte() == 62,
        RadiusPacketAttributeType::spec_from_byte(63) == RadiusPacketAttributeType::LoginLATPort,
        RadiusPacketAttributeType::LoginLATPort.spec_to_byte() == 63,
        RadiusPacketAttributeType::spec_from_byte(79) == RadiusPacketAttributeType::EAPMessage,
        RadiusPacketAttributeType::EAPMessage.spec_to_byte() == 79,
        RadiusPacketAttributeType::spec_from_byte(80) == RadiusPacketAttributeType::MessageAuthenticator,
        RadiusPacketAttributeType::MessageAuthenticator.spec_to_byte() == 80,
        forall|byte: u8| byte != 1 && byte != 2 && byte != 3 && byte != 4 && byte != 5 && byte != 6 && byte != 7 && byte != 8 && byte != 9 && byte != 10 && byte != 11 && byte != 12 && byte != 13 && byte != 14 && byte != 15 && byte != 16 && byte != 18 && byte != 19 && byte != 20 && byte != 22 && byte != 23 && byte != 24 && byte != 25 && byte != 26 && byte != 27 && byte != 28 && byte != 29 && byte != 30 && byte != 31 && byte != 32 && byte != 33 && byte != 34 && byte != 35 && byte != 36 && byte != 37 && byte != 38 && byte != 39 && byte != 60 && byte != 61 && byte != 62 && byte != 63 && byte != 79 && byte != 80 ==> #[trigger] RadiusPacketAttributeType::spec_from_byte(byte) == RadiusPacketAttributeType::Other(byte),
        forall|byte: u8| byte != 1 && byte != 2 && byte != 3 && byte != 4 && byte != 5 && byte != 6 && byte != 7 && byte != 8 && byte != 9 && byte != 10 && byte != 11 && byte != 12 && byte != 13 && byte != 14 && byte != 15 && byte != 16 && byte != 18 && byte != 19 && byte != 20 && byte != 22 && byte != 23 && byte != 24 && byte != 25 && byte != 26 && byte != 27 && byte != 28 && byte != 29 && byte != 30 && byte != 31 && byte != 32 && byte != 33 && byte != 34 && byte != 35 && byte != 36 && byte != 37 && byte != 38 && byte != 39 && byte != 60 && byte != 61 && byte != 62 && byte != 63 && byte != 79 && byte != 80 ==> #[trigger] RadiusPacketAttributeType::Other(byte).spec_to_byte() == byte,
{
}

} // verus!
