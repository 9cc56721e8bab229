//! Where the service listens and how much it logs.

use vstd::prelude::*;
use vstd::string::StringExecFns;
use crate::text::decimal;
use crate::text::push_decimal;

verus! {

/// The port the service listens on unless told otherwise.
pub const DEFAULT_PORT: u16 = 3000;

/// Where the service listens.
#[derive(Debug)]
pub struct ServerConfig {
    pub host: String,
    pub port: u16,
}

impl Default for ServerConfig {
    /// The loopback address, port 3000.
    fn default() -> (r: Self)
        ensures
            r.host@ == "127.0.0.1"@,
            r.port == DEFAULT_PORT,
    {
        ServerConfig { host: String::from_str("127.0.0.1"), port: DEFAULT_PORT }
    }
}

/// The configuration of the service.
#[derive(Debug)]
pub struct AppConfig {
    pub server: ServerConfig,
    pub log_level: String,
}

impl Default for AppConfig {
    /// The default server, logging at `info`.
    fn default() -> (r: Self)
        ensures
            r.server.host@ == "127.0.0.1"@,
            r.server.port == DEFAULT_PORT,
            r.log_level@ == "info"@,
    {
        AppConfig { server: ServerConfig::default(), log_level: String::from_str("info") }
    }
}

/// An address as `host:port`, the port in decimal.
pub open spec fn spec_addr(host: Seq<char>, port: u16) -> Seq<char> {
    host + ":"@ + decimal(port as nat)
}

impl AppConfig {
    /// The default configuration.
    pub fn new() -> (r: Self)
        ensures
            r.server.host@ == "127.0.0.1"@,
            r.server.port == DEFAULT_PORT,
            r.log_level@ == "info"@,
    {
        AppConfig::default()
    }

    /// The address to listen on, as `host:port`.
    pub fn addr(&self) -> (r: String)
        ensures
            r@ == spec_addr(self.server.host@, self.server.port),
    {
        let mut out = String::from_str(self.server.host.as_str());
        out.append(":");
        push_decimal(&mut out, self.server.port as u64);
        out
    }
}

/// The default configuration listens on `127.0.0.1:3000`.
pub proof fn lemma_default_addr()
    ensures
        spec_addr("127.0.0.1"@, DEFAULT_PORT) == "127.0.0.1:3000"@,
{
    reveal_strlit("127.0.0.1");
    reveal_strlit(":");
    reveal_strlit("127.0.0.1:3000");
    reveal_with_fuel(decimal, 4);
    assert(decimal(3000) =~= seq!['3', '0', '0', '0']);
    assert(spec_addr("127.0.0.1"@, DEFAULT_PORT) =~= "127.0.0.1:3000"@);
}

} // verus!
