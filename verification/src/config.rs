//! Service configuration: the few parameters both services take,
//! gathered in one struct with documented defaults per variant.
//!
//! A receive hands over at most `buffer_size` bytes: a longer message
//! is observed as several receives' worth of bytes (stream) or
//! truncated (datagram). That boundary is a documented property of the
//! services, not hidden.
use vstd::prelude::*;

verus! {

use vstd::string::StringExecFns;

/// The parameters of one service instance.
pub struct ServiceConfig {
    /// Bytes one receive call can deliver; must be positive.
    pub buffer_size: usize,
    /// The blocking-receive timeout, in seconds; zero means no
    /// timeout is set.
    pub timeout_seconds: u64,
    /// Pending connections a stream listener queues; must be positive
    /// for the stream variant.
    pub backlog: u32,
    /// The filesystem path naming the local socket endpoint.
    pub address_path: String,
    /// Serve exactly one connection and exit, instead of accepting
    /// forever (stream variant).
    pub single_connection: bool,
    /// Close an idle connection when the receive timeout expires,
    /// instead of treating the timeout as "no data yet".
    pub close_on_idle: bool,
}

impl ServiceConfig {
    /// The configuration is usable: receives can make progress and a
    /// listener can queue at least one connection.
    pub open spec fn wf(&self) -> bool {
        self.buffer_size >= 1 && self.backlog >= 1
    }

    /// The defaults of the stream echo service: 128-byte receive
    /// buffer, 2-second receive timeout, backlog of 128, the
    /// well-known stream address, serving connections forever, and
    /// timeouts treated as "no data yet".
    pub fn stream_default() -> (c: ServiceConfig)
        ensures
            c.wf(),
            c.buffer_size == 128,
            c.timeout_seconds == 2,
            c.backlog == 128,
            c.address_path@ == "/tmp/socket_file"@,
            !c.single_connection,
            !c.close_on_idle,
    {
        ServiceConfig {
            buffer_size: 128,
            timeout_seconds: 2,
            backlog: 128,
            address_path: String::from_str("/tmp/socket_file"),
            single_connection: false,
            close_on_idle: false,
        }
    }

    /// The defaults of the datagram echo service: 4096-byte receive
    /// buffer, no timeout, and the well-known datagram address. The
    /// backlog is not used by a datagram socket.
    pub fn datagram_default() -> (c: ServiceConfig)
        ensures
            c.wf(),
            c.buffer_size == 4096,
            c.timeout_seconds == 0,
            c.address_path@ == "/tmp/udp_server"@,
            !c.single_connection,
            !c.close_on_idle,
    {
        ServiceConfig {
            buffer_size: 4096,
            timeout_seconds: 0,
            backlog: 1,
            address_path: String::from_str("/tmp/udp_server"),
            single_connection: false,
            close_on_idle: false,
        }
    }
}

} // verus!
