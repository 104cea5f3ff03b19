//! Run configuration: the mode, address, port, iteration bound and loop
//! variant a run is started with, and the startup errors for fatal
//! misconfiguration. One structure serves every entry point; the state
//! machines are dispatched on it instead of being duplicated per mode.
//!
//! Misconfiguration is detected before any loop starts and surfaced
//! immediately; the process does not proceed with it.

use crate::packet::STAMP_WIDTH;
use vstd::prelude::*;

verus! {

/// Fatal misconfiguration, reported to the caller as a startup error.
#[derive(Clone, Copy, Debug, PartialEq, Eq, Structural)]
pub enum ConfigurationError {
    /// The run mode word is neither of the two known ones.
    UnknownMode,
    /// The address is missing or not an IPv4 address.
    InvalidAddress,
    /// The port is missing, zero, or out of range.
    InvalidPort,
}

/// Which role this process runs.
#[derive(Clone, Copy, Debug, PartialEq, Eq, Structural)]
pub enum Mode {
    Server,
    Client,
}

/// Which behaviour a client run uses.
#[derive(Clone, Copy, Debug, PartialEq, Eq, Structural)]
pub enum LoopVariant {
    /// One request, then its reply, then the next request.
    Closed,
    /// Pipelined requests, decoupled from reply arrival.
    Open,
}

/// An IPv4 address, as the four octets of its dotted-quad form.
#[derive(Clone, Copy, Debug, PartialEq, Eq, Structural)]
pub struct Ipv4Address {
    pub o0: u8,
    pub o1: u8,
    pub o2: u8,
    pub o3: u8,
}

/// A bind or connect target: an IPv4 host and a port. Port zero is not a
/// valid port.
#[derive(Clone, Copy, Debug, PartialEq, Eq, Structural)]
pub struct Endpoint {
    pub host: Ipv4Address,
    pub port: u16,
}

impl Endpoint {
    pub open spec fn wf(&self) -> bool {
        self.port != 0
    }
}

/// The bytes of the word selecting server mode: "server" in ASCII.
pub open spec fn server_word() -> Seq<u8> {
    seq![115u8, 101u8, 114u8, 118u8, 101u8, 114u8]
}

/// The bytes of the word selecting client mode: "client" in ASCII.
pub open spec fn client_word() -> Seq<u8> {
    seq![99u8, 108u8, 105u8, 101u8, 110u8, 116u8]
}

/// Reads the run mode from its selector word; every other word is an
/// unknown mode.
pub fn parse_mode(word: &[u8]) -> (r: Result<Mode, ConfigurationError>)
    ensures
        r == Ok::<Mode, ConfigurationError>(Mode::Server) <==> word@ == server_word(),
        r == Ok::<Mode, ConfigurationError>(Mode::Client) <==> word@ == client_word(),
        r matches Err(e) ==> e == ConfigurationError::UnknownMode && word@ != server_word()
            && word@ != client_word(),
{
    if word.len() == 6 {
        if word[0] == 115u8 && word[1] == 101u8 && word[2] == 114u8 && word[3] == 118u8 && word[4]
            == 101u8 && word[5] == 114u8 {
            proof {
                assert(word@ =~= server_word());
            }
            return Ok(Mode::Server);
        }
        if word[0] == 99u8 && word[1] == 108u8 && word[2] == 105u8 && word[3] == 101u8 && word[4]
            == 110u8 && word[5] == 116u8 {
            proof {
                assert(word@ =~= client_word());
            }
            return Ok(Mode::Client);
        }
    }
    Err(ConfigurationError::UnknownMode)
}

/// Assembles an endpoint from what a configuration source offered: a
/// missing or unparsable host is an invalid address, a missing or
/// out-of-range port an invalid port.
pub fn endpoint_from_parts(host: Option<Ipv4Address>, port: Option<i64>) -> (r: Result<
    Endpoint,
    ConfigurationError,
>)
    ensures
        match (host, port) {
            (Option::None, _) => r == Err::<Endpoint, ConfigurationError>(
                ConfigurationError::InvalidAddress,
            ),
            (Option::Some(_), Option::None) => r == Err::<Endpoint, ConfigurationError>(
                ConfigurationError::InvalidPort,
            ),
            (Option::Some(h), Option::Some(p)) => if 1 <= p <= 65535 {
                r == Ok::<Endpoint, ConfigurationError>(Endpoint { host: h, port: p as u16 })
            } else {
                r == Err::<Endpoint, ConfigurationError>(ConfigurationError::InvalidPort)
            },
        },
        r matches Ok(e) ==> e.wf(),
{
    let h = match host {
        Some(h) => h,
        None => { return Err(ConfigurationError::InvalidAddress); },
    };
    let p = match port {
        Some(p) => p,
        None => { return Err(ConfigurationError::InvalidPort); },
    };
    if 1 <= p && p <= 65535 {
        Ok(Endpoint { host: h, port: p as u16 })
    } else {
        Err(ConfigurationError::InvalidPort)
    }
}

/// The endpoint a run uses when a configuration source offers a preferred
/// entry and a fallback: the preferred one whenever it is there.
pub fn choose_addr(preferred: Option<Endpoint>, fallback: Option<Endpoint>) -> (r: Option<Endpoint>)
    ensures
        r == if preferred is Some {
            preferred
        } else {
            fallback
        },
{
    match preferred {
        Some(e) => Some(e),
        None => fallback,
    }
}

/// Everything one run is configured with. One structure serves the server
/// and both client variants.
#[derive(Clone, Copy, Debug, PartialEq, Eq, Structural)]
pub struct Config {
    pub mode: Mode,
    /// The server binds this endpoint; a client connects to it.
    pub endpoint: Endpoint,
    /// Size in bytes of every benchmark payload.
    pub payload_size: usize,
    /// Round trips of a bounded run; `None` runs until externally
    /// interrupted.
    pub iterations: Option<u64>,
    /// Which client behaviour a client run uses; a server run ignores it.
    pub variant: LoopVariant,
}

impl Config {
    /// The endpoint is usable and the payloads are wide enough for the
    /// sequence stamp.
    pub open spec fn wf(&self) -> bool {
        &&& self.endpoint.wf()
        &&& self.payload_size >= STAMP_WIDTH
    }

    /// Whether this configuration can start a run.
    pub fn validate(&self) -> (ok: bool)
        ensures
            ok == self.wf(),
    {
        self.endpoint.port != 0 && self.payload_size >= STAMP_WIDTH
    }
}

} // verus!
