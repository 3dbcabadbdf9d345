use vstd::prelude::*;

verus! {

/// Where and how the UDP connector listens: its receive buffer size, its address and port.
pub struct UdpRadiusConnectorConfig {
    buffer_size: usize,
    address: String,
    port: u16,
}

/// The settings as mathematical values.
pub struct UdpRadiusConnectorConfigView {
    pub buffer_size: usize,
    pub address: Seq<char>,
    pub port: u16,
}

impl View for UdpRadiusConnectorConfig {
    type V = UdpRadiusConnectorConfigView;

    closed spec fn view(&self) -> UdpRadiusConnectorConfigView {
        UdpRadiusConnectorConfigView {
            buffer_size: self.buffer_size,
            address: self.address@,
            port: self.port,
        }
    }
}

impl UdpRadiusConnectorConfig {
    pub fn buffer_size(&self) -> (buffer_size: usize)
        ensures
            buffer_size == self@.buffer_size,
    {
        self.buffer_size
    }

    pub fn address(&self) -> (address: &str)
        ensures
            address@ == self@.address,
    {
        self.address.as_str()
    }

    pub fn port(&self) -> (port: u16)
        ensures
            port == self@.port,
    {
        self.port
    }

    pub fn with_buffer_size(&mut self, buffer_size: usize) -> (config: &mut Self)
        ensures
            config@ == (UdpRadiusConnectorConfigView { buffer_size, ..old(self)@ }),
            final(self)@ == final(config)@,
    {
        self.buffer_size = buffer_size;
        self
    }

    pub fn with_address(&mut self, address: String) -> (config: &mut Self)
        ensures
            config@ == (UdpRadiusConnectorConfigView { address: address@, ..old(self)@ }),
            final(self)@ == final(config)@,
    {
        self.address = address;
        self
    }

    pub fn with_port(&mut self, port: u16) -> (config: &mut Self)
        ensures
            config@ == (UdpRadiusConnectorConfigView { port, ..old(self)@ }),
            final(self)@ == final(config)@,
    {
        self.port = port;
        self
    }
}

impl Default for UdpRadiusConnectorConfig {
    /// A buffer of 4096 bytes on 127.0.0.1, port 1812.
    fn default() -> (config: Self)
        ensures
            config@ == (UdpRadiusConnectorConfigView {
                buffer_size: 4096,
                address: "127.0.0.1"@,
                port: 1812,
            }),
    {
        Self { buffer_size: 4096, address: "127.0.0.1".to_owned(), port: 1812 }
    }
}

} // verus!
