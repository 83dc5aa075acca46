//! The service's settings and the defaults that stand in for missing ones.

use vstd::prelude::*;

verus! {

pub open spec fn default_host() -> Seq<char> {
    "0.0.0.0"@
}

pub open spec fn default_port() -> Seq<char> {
    "8080"@
}

pub open spec fn default_cors_origins() -> Seq<char> {
    "*"@
}

/// What the service is started with.
#[derive(Debug, Clone, PartialEq, Eq)]
pub struct Config {
    pub database_url: String,
    pub host: String,
    pub port: String,
    pub cors_allowed_origins: String,
}

/// The text of a setting: its value where it is set, else `fallback`.
pub open spec fn setting_or(value: Option<String>, fallback: Seq<char>) -> Seq<char> {
    match value {
        Some(text) => text@,
        None => fallback,
    }
}

fn value_or(value: Option<String>, fallback: &str) -> (text: String)
    ensures
        text@ == setting_or(value, fallback@),
{
    match value {
        Some(text) => text,
        None => fallback.to_owned(),
    }
}

impl Config {
    /// The settings from the values found in the environment. The database
    /// URL has no default; the host, the port and the allowed origins have.
    pub fn from_values(
        database_url: String,
        host: Option<String>,
        port: Option<String>,
        cors_allowed_origins: Option<String>,
    ) -> (config: Config)
        ensures
            config.database_url == database_url,
            config.host@ == setting_or(host, default_host()),
            config.port@ == setting_or(port, default_port()),
            config.cors_allowed_origins@ == setting_or(
                cors_allowed_origins,
                default_cors_origins(),
            ),
    {
        Config {
            database_url,
            host: value_or(host, "0.0.0.0"),
            port: value_or(port, "8080"),
            cors_allowed_origins: value_or(cors_allowed_origins, "*"),
        }
    }

    /// The address to listen on: the host, a colon, the port.
    pub fn bind_address(&self) -> (address: String)
        ensures
            address@ == self.host@ + ":"@ + self.port@,
    {
        let mut address = self.host.clone();
        address.append(":");
        address.append(self.port.as_str());
        address
    }
}

/// The admission gate's capacity for a machine with `cpus` execution units: one
/// slot for each, and one at least.
pub open spec fn capacity_for(cpus: usize) -> usize {
    if cpus == 0 {
        1
    } else {
        cpus
    }
}

pub fn gate_capacity(cpus: usize) -> (capacity: usize)
    ensures
        capacity == capacity_for(cpus),
{
    if cpus == 0 {
        1
    } else {
        cpus
    }
}

/// Calls `num_cpus::get`. The count depends on the machine and on the
/// process's limits, so nothing is claimed of it.
#[verifier::external_body]
fn available_cpus() -> usize {
    num_cpus::get()
}

/// The admission gate's capacity on this machine.
pub fn default_gate_capacity() -> (capacity: usize)
    ensures
        capacity >= 1,
{
    gate_capacity(available_cpus())
}

} // verus!
