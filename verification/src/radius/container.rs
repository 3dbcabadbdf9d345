use crate::peer::{RadiusPeer, RemoteAddress};
use crate::radius::metadata::{
    RadiusPacketMetadata, RadiusPacketMetadataMap, RadiusPacketMetadataView, option_view,
};
use crate::radius::{RadiusPacket, RadiusPacketView};
use vstd::prelude::*;

verus! {

/// A packet together with where it came from and what the pipeline steps learned about it.
#[derive(Debug)]
pub struct RadiusPacketContainer {
    packet: RadiusPacket,
    peer: RadiusPeer,
    metadata: RadiusPacketMetadataMap,
}

/// A container as a mathematical value.
pub struct RadiusPacketContainerView {
    pub packet: RadiusPacketView,
    pub peer: RadiusPeer,
    pub metadata: RadiusPacketMetadataView,
}

impl View for RadiusPacketContainer {
    type V = RadiusPacketContainerView;

    closed spec fn view(&self) -> RadiusPacketContainerView {
        RadiusPacketContainerView {
            packet: self.packet@,
            peer: self.peer,
            metadata: self.metadata@,
        }
    }
}

impl RadiusPacketContainer {
    pub fn new(packet: RadiusPacket, peer: RadiusPeer) -> (container: Self)
        ensures
            container@ == (RadiusPacketContainerView {
                packet: packet@,
                peer,
                metadata: RadiusPacketMetadataView::empty(),
            }),
    {
        Self { packet, peer, metadata: RadiusPacketMetadataMap::empty() }
    }

    pub fn packet(&self) -> (packet: &RadiusPacket)
        ensures
            packet@ == self@.packet,
    {
        &self.packet
    }

    pub fn peer(&self) -> (peer: RadiusPeer)
        ensures
            peer == self@.peer,
    {
        self.peer
    }

    pub fn remote_address(&self) -> (remote_address: RemoteAddress)
        ensures
            match self@.peer {
                RadiusPeer::Udp { remote_address: address } => remote_address == address,
            },
    {
        self.peer.remote_address()
    }

    pub fn metadata(&self) -> (metadata: &RadiusPacketMetadataMap)
        ensures
            metadata@ == self@.metadata,
    {
        &self.metadata
    }

    pub fn has_metadata<T: RadiusPacketMetadata>(&self) -> (found: bool)
        ensures
            found == T::spec_stored(self@.metadata) is Some,
    {
        T::stored(&self.metadata).is_some()
    }

    pub fn get_metadata<T: RadiusPacketMetadata>(&self) -> (value: Option<&T>)
        ensures
            match value {
                Some(v) => T::spec_stored(self@.metadata) == Some(v@),
                None => T::spec_stored(self@.metadata) is None,
            },
    {
        T::stored(&self.metadata)
    }

    pub fn set_metadata<T: RadiusPacketMetadata>(&mut self, value: T) -> (previous: Option<T>)
        ensures
            option_view(previous) == T::spec_stored(old(self)@.metadata),
            final(self)@ == (RadiusPacketContainerView {
                metadata: T::spec_with(old(self)@.metadata, Some(value@)),
                ..old(self)@
            }),
    {
        T::replace(&mut self.metadata, Some(value))
    }

    pub fn take_metadata<T: RadiusPacketMetadata>(&mut self) -> (previous: Option<T>)
        ensures
            option_view(previous) == T::spec_stored(old(self)@.metadata),
            final(self)@ == (RadiusPacketContainerView {
                metadata: T::spec_with(old(self)@.metadata, None),
                ..old(self)@
            }),
    {
        T::replace(&mut self.metadata, None)
    }

    pub fn packet_mut(&mut self) -> (packet: &mut RadiusPacket)
        ensures
            packet@ == old(self)@.packet,
            final(self)@ == (RadiusPacketContainerView { packet: final(packet)@, ..old(self)@ }),
    {
        &mut self.packet
    }

    pub fn into_packet(self) -> (packet: RadiusPacket)
        ensures
            packet@ == self@.packet,
    {
        self.packet
    }
}

/// A container for a packet that was received.
#[derive(Debug)]
pub struct RadiusPacketInputContainer(RadiusPacketContainer);

/// A container for a packet that is being built to be sent.
#[derive(Debug)]
pub struct RadiusPacketOutputContainer(RadiusPacketContainer);

impl View for RadiusPacketInputContainer {
    type V = RadiusPacketContainerView;

    closed spec fn view(&self) -> RadiusPacketContainerView {
        self.0@
    }
}

impl View for RadiusPacketOutputContainer {
    type V = RadiusPacketContainerView;

    closed spec fn view(&self) -> RadiusPacketContainerView {
        self.0@
    }
}

impl RadiusPacketInputContainer {
    pub fn new(packet: RadiusPacket, peer: RadiusPeer) -> (container: Self)
        ensures
            container@ == (RadiusPacketContainerView {
                packet: packet@,
                peer,
                metadata: RadiusPacketMetadataView::empty(),
            }),
    {
        Self(RadiusPacketContainer::new(packet, peer))
    }

    pub fn packet(&self) -> (packet: &RadiusPacket)
        ensures
            packet@ == self@.packet,
    {
        self.0.packet()
    }

    pub fn peer(&self) -> (peer: RadiusPeer)
        ensures
            peer == self@.peer,
    {
        self.0.peer()
    }

    pub fn remote_address(&self) -> (remote_address: RemoteAddress)
        ensures
            match self@.peer {
                RadiusPeer::Udp { remote_address: address } => remote_address == address,
            },
    {
        self.0.remote_address()
    }

    pub fn metadata(&self) -> (metadata: &RadiusPacketMetadataMap)
        ensures
            metadata@ == self@.metadata,
    {
        self.0.metadata()
    }

    pub fn has_metadata<T: RadiusPacketMetadata>(&self) -> (found: bool)
        ensures
            found == T::spec_stored(self@.metadata) is Some,
    {
        self.0.has_metadata::<T>()
    }

    pub fn get_metadata<T: RadiusPacketMetadata>(&self) -> (value: Option<&T>)
        ensures
            match value {
                Some(v) => T::spec_stored(self@.metadata) == Some(v@),
                None => T::spec_stored(self@.metadata) is None,
            },
    {
        self.0.get_metadata::<T>()
    }

    pub fn set_metadata<T: RadiusPacketMetadata>(&mut self, value: T) -> (previous: Option<T>)
        ensures
            option_view(previous) == T::spec_stored(old(self)@.metadata),
            final(self)@ == (RadiusPacketContainerView {
                metadata: T::spec_with(old(self)@.metadata, Some(value@)),
                ..old(self)@
            }),
    {
        self.0.set_metadata(value)
    }

    pub fn take_metadata<T: RadiusPacketMetadata>(&mut self) -> (previous: Option<T>)
        ensures
            option_view(previous) == T::spec_stored(old(self)@.metadata),
            final(self)@ == (RadiusPacketContainerView {
                metadata: T::spec_with(old(self)@.metadata, None),
                ..old(self)@
            }),
    {
        self.0.take_metadata::<T>()
    }

}

impl RadiusPacketOutputContainer {
    pub fn new(packet: RadiusPacket, peer: RadiusPeer) -> (container: Self)
        ensures
            container@ == (RadiusPacketContainerView {
                packet: packet@,
                peer,
                metadata: RadiusPacketMetadataView::empty(),
            }),
    {
        Self(RadiusPacketContainer::new(packet, peer))
    }

    pub fn packet(&self) -> (packet: &RadiusPacket)
        ensures
            packet@ == self@.packet,
    {
        self.0.packet()
    }

    pub fn peer(&self) -> (peer: RadiusPeer)
        ensures
            peer == self@.peer,
    {
        self.0.peer()
    }

    pub fn remote_address(&self) -> (remote_address: RemoteAddress)
        ensures
            match self@.peer {
                RadiusPeer::Udp { remote_address: address } => remote_address == address,
            },
    {
        self.0.remote_address()
    }

    pub fn metadata(&self) -> (metadata: &RadiusPacketMetadataMap)
        ensures
            metadata@ == self@.metadata,
    {
        self.0.metadata()
    }

    pub fn has_metadata<T: RadiusPacketMetadata>(&self) -> (found: bool)
        ensures
            found == T::spec_stored(self@.metadata) is Some,
    {
        self.0.has_metadata::<T>()
    }

    pub fn get_metadata<T: RadiusPacketMetadata>(&self) -> (value: Option<&T>)
        ensures
            match value {
                Some(v) => T::spec_stored(self@.metadata) == Some(v@),
                None => T::spec_stored(self@.metadata) is None,
            },
    {
        self.0.get_metadata::<T>()
    }

    pub fn set_metadata<T: RadiusPacketMetadata>(&mut self, value: T) -> (previous: Option<T>)
        ensures
            option_view(previous) == T::spec_stored(old(self)@.metadata),
            final(self)@ == (RadiusPacketContainerView {
                metadata: T::spec_with(old(self)@.metadata, Some(value@)),
                ..old(self)@
            }),
    {
        self.0.set_metadata(value)
    }

    pub fn take_metadata<T: RadiusPacketMetadata>(&mut self) -> (previous: Option<T>)
        ensures
            option_view(previous) == T::spec_stored(old(self)@.metadata),
            final(self)@ == (RadiusPacketContainerView {
                metadata: T::spec_with(old(self)@.metadata, None),
                ..old(self)@
            }),
    {
        self.0.take_metadata::<T>()
    }

    pub fn packet_mut(&mut self) -> (packet: &mut RadiusPacket)
        ensures
            packet@ == old(self)@.packet,
            final(self)@ == (RadiusPacketContainerView { packet: final(packet)@, ..old(self)@ }),
    {
        self.0.packet_mut()
    }

    pub fn into_packet(self) -> (packet: RadiusPacket)
        ensures
            packet@ == self@.packet,
    {
        self.0.into_packet()
    }
}

impl core::ops::Deref for RadiusPacketInputContainer {
    type Target = RadiusPacketContainer;

    fn deref(&self) -> (container: &RadiusPacketContainer)
        ensures
            container@ == self@,
    {
        &self.0
    }
}

impl core::ops::Deref for RadiusPacketOutputContainer {
    type Target = RadiusPacketContainer;

    fn deref(&self) -> (container: &RadiusPacketContainer)
        ensures
            container@ == self@,
    {
        &self.0
    }
}

} // verus!
