//! The settings both roles share, passed in explicitly so that a test can run
//! on another address or payload size.

use vstd::prelude::*;
use vstd::string::StringExecFns;

verus! {

/// The default payload length in bytes.
pub const DEFAULT_TOTAL_BYTES: usize = 1000000;

/// The default `host:port` both roles use.
pub open spec fn default_address() -> Seq<char> {
    "localhost:3333"@
}

/// The connection settings: the address the server binds and the client
/// dials, and the length of the payload one connection carries.
pub struct Config {
    /// `host:port` of the server.
    pub address: String,
    /// Bytes the server produces and the client reads, per connection.
    pub total_bytes: usize,
}

impl Default for Config {
    /// The compiled-in defaults: `localhost:3333`, a one-million-byte payload.
    fn default() -> (c: Config)
        ensures
            c.address@ == default_address(),
            c.total_bytes == DEFAULT_TOTAL_BYTES,
    {
        Config { address: String::from_str("localhost:3333"), total_bytes: DEFAULT_TOTAL_BYTES }
    }
}

} // verus!
