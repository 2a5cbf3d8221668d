//! The metadata that identifies the backend behind a connection.

use crate::address::NetworkView;
use crate::address::ServerAddress;
use vstd::prelude::*;

verus! {

/// What a [`ConnectionMetadata`] stands for.
pub struct MetadataView {
    pub database_name: Seq<char>,
    pub server_address: NetworkView,
    pub server_port: int,
    pub backend_version: Seq<char>,
}

/// What the backend reported of itself when the connection was brought up:
/// the database in use, the address and port the server listens on, and the
/// server's version text. A record is made once and offers no way to change
/// it.
#[derive(Clone, Debug, PartialEq, Eq)]
pub struct ConnectionMetadata {
    database_name: String,
    server_address: ServerAddress,
    server_port: i32,
    backend_version: String,
}

impl View for ConnectionMetadata {
    type V = MetadataView;

    closed spec fn view(&self) -> MetadataView {
        MetadataView {
            database_name: self.database_name@,
            server_address: self.server_address@,
            server_port: self.server_port as int,
            backend_version: self.backend_version@,
        }
    }
}

impl ConnectionMetadata {
    /// The record of one answer to the metadata query.
    pub fn new(
        database_name: String,
        server_address: ServerAddress,
        server_port: i32,
        backend_version: String,
    ) -> (metadata: ConnectionMetadata)
        ensures
            metadata@.database_name == database_name@,
            metadata@.server_address == server_address@,
            metadata@.server_port == server_port,
            metadata@.backend_version == backend_version@,
    {
        ConnectionMetadata { database_name, server_address, server_port, backend_version }
    }

    pub fn database_name(&self) -> (name: &str)
        ensures
            name@ == self@.database_name,
    {
        self.database_name.as_str()
    }

    pub fn server_address(&self) -> (address: ServerAddress)
        ensures
            address@ == self@.server_address,
    {
        self.server_address
    }

    pub fn server_port(&self) -> (port: i32)
        ensures
            port == self@.server_port,
    {
        self.server_port
    }

    pub fn backend_version(&self) -> (version: &str)
        ensures
            version@ == self@.backend_version,
    {
        self.backend_version.as_str()
    }
}

} // verus!
