//! What is known of the server at the other end of a connection.

use vstd::prelude::*;

verus! {

/// The wire version from which the server counts through an aggregation.
pub const SERVER_4_9_0_WIRE_VERSION: i32 = 12;

/// The wire version of server release 4.2.
pub const SERVER_4_2_0_WIRE_VERSION: i32 = 8;

/// The host and port of a server.
#[derive(Debug)]
pub struct ServerAddress {
    pub host: String,
    pub port: Option<u16>,
}

impl Clone for ServerAddress {
    fn clone(&self) -> (r: Self)
        ensures
            r == *self,
    {
        ServerAddress { host: self.host.clone(), port: self.port }
    }
}

impl Default for ServerAddress {
    /// The local host, on the default port.
    fn default() -> (r: ServerAddress)
        ensures
            r.host@ == "localhost"@,
            r.port is None,
    {
        ServerAddress { host: "localhost".to_string(), port: None }
    }
}

impl ServerAddress {
    /// Whether two addresses name the same host and port.
    pub fn same_as(&self, other: &ServerAddress) -> (r: bool)
        ensures
            r == (self.host@ == other.host@ && self.port == other.port),
    {
        let ports = match (self.port, other.port) {
            (Some(a), Some(b)) => a == b,
            (None, None) => true,
            _ => false,
        };
        self.host == other.host && ports
    }
}

/// What the handshake told about the server of a connection.
#[derive(Debug)]
pub struct StreamDescription {
    /// The server's address.
    pub server_address: ServerAddress,
    /// The highest wire version that the server speaks, where it told.
    pub max_wire_version: Option<i32>,
    /// The lowest wire version that the server speaks, where it told.
    pub min_wire_version: Option<i32>,
}

impl StreamDescription {
    /// The description of a default-addressed server that speaks the wire
    /// version of release 4.2, for trials.
    pub fn new_testing() -> (r: StreamDescription)
        ensures
            r.server_address.host@ == "localhost"@,
            r.server_address.port is None,
            r.max_wire_version == Some(SERVER_4_2_0_WIRE_VERSION),
            r.min_wire_version == Some(SERVER_4_2_0_WIRE_VERSION),
    {
        StreamDescription {
            server_address: ServerAddress::default(),
            max_wire_version: Some(SERVER_4_2_0_WIRE_VERSION),
            min_wire_version: Some(SERVER_4_2_0_WIRE_VERSION),
        }
    }

    /// Whether the server counts through an aggregation.
    pub open spec fn counts_by_aggregation(&self) -> bool {
        self.max_wire_version matches Some(v) && v >= SERVER_4_9_0_WIRE_VERSION
    }
}

} // verus!
