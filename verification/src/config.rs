//! Configuration data: the server and its shared devices.
//!
//! The configuration is read from disk and parsed by the caller; the types
//! here carry what the serving logic reads as plain values.  A listening
//! address is represented by its port, the only part of it the logic
//! consults.

use vstd::prelude::*;
use vstd::string::StringExecFns;

verus! {

/// One value or several: a configuration field that accepts both.
pub enum OneOrMany<T> {
    One(T),
    Many(Vec<T>),
}

impl<T> OneOrMany<T> {
    /// Flatten to a vector: one value becomes a singleton.
    pub fn into_vec(self) -> (r: Vec<T>)
        ensures
            self matches OneOrMany::One(x) ==> r@ =~= seq![x],
            self matches OneOrMany::Many(v) ==> r == v,
    {
        match self {
            OneOrMany::One(x) => {
                let mut v: Vec<T> = Vec::new();
                v.push(x);
                v
            },
            OneOrMany::Many(v) => v,
        }
    }
}

/// The port the service answers on: the single address's port, the first
/// of several, or the printing protocol's registered port when none is
/// configured.
pub fn effective_port(addr: &OneOrMany<u16>) -> (r: u16)
    ensures
        addr matches OneOrMany::One(p) ==> r == p,
        addr matches OneOrMany::Many(ps) ==> r == (if ps@.len() > 0 {
            ps@[0]
        } else {
            631u16
        }),
{
    match addr {
        OneOrMany::One(p) => *p,
        OneOrMany::Many(ps) => {
            if ps.len() > 0 {
                ps[0]
            } else {
                631
            }
        },
    }
}

/// The server's listening configuration.
pub struct ServerConfig {
    /// The ports listened on; the full socket addresses stay with the
    /// transport layer.
    pub addr: OneOrMany<u16>,
    pub host: Option<String>,
    pub tls: Option<TlsConfig>,
}

/// Paths of the certificate and key files enabling TLS.
pub struct TlsConfig {
    pub cert: String,
    pub key: String,
}

/// One shared device: its advertised identity and the native device it
/// forwards to.
pub struct DeviceConfig {
    pub name: String,
    pub info: String,
    pub target: String,
    pub uuid: String,
    pub basepath: String,
    pub dnssd: bool,
    pub make_and_model: String,
}

/// The whole configuration: the server and its devices.
pub struct ConfigRoot {
    pub server: ServerConfig,
    pub devices: Vec<DeviceConfig>,
}

/// The make-and-model string advertised when the configuration names none.
pub fn default_make_and_model() -> (r: String)
    ensures
        r@ == "IppSharing via ippper"@,
{
    String::from_str("IppSharing via ippper")
}

} // verus!
