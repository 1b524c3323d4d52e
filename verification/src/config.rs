//! Resolution of the connection configuration: compiled-in defaults,
//! overridden by environment variables, overridden in turn by command-line
//! flags, with SSH-derived substitution for the `"auto"` host sentinel.

use crate::port::{dec_value, parse_port, port_in_range, valid_port_str};
use vstd::prelude::*;

verus! {

/// The value a setting resolves to: the flag when supplied, else the
/// environment variable when set, else the compiled-in default.
pub open spec fn spec_layered(
    default_value: Seq<char>,
    env: &Option<String>,
    flag: &Option<String>,
) -> Seq<char> {
    match flag {
        Some(f) => f@,
        None => match env {
            Some(e) => e@,
            None => default_value,
        },
    }
}

/// Resolve one setting through the three layers.
pub fn layered_value(default_value: &str, env: &Option<String>, flag: &Option<String>) -> (r:
    String)
    ensures
        r@ == spec_layered(default_value@, env, flag),
{
    match flag {
        Some(f) => f.clone(),
        None => match env {
            Some(e) => e.clone(),
            None => default_value.to_owned(),
        },
    }
}

/// Command-line flags and positional arguments, as parsed by the CLI surface.
/// An `Option` field is `Some` exactly when the flag was supplied.
pub struct CliFlags {
    pub host: Option<String>,
    pub port: Option<String>,
    pub wait: bool,
    pub line: Option<String>,
    pub name: Option<String>,
    pub file_type: Option<String>,
    pub force: bool,
    pub verbose: bool,
    pub help: bool,
    pub version: bool,
    /// Positional arguments; only the first is used as the target.
    pub free: Vec<String>,
}

/// The immutable connection configuration the transport stage consumes.
#[derive(Debug)]
pub struct ConnectionConfig {
    /// Concrete endpoint host; never the `"auto"` sentinel unresolved.
    pub host: String,
    /// Validated TCP port.
    pub port: u16,
    /// Block until the remote side signals the file was closed.
    pub wait: bool,
    /// Request opening a non-writable file anyway.
    pub force: bool,
    /// Diagnostic logging for the whole bootstrap.
    pub verbose: bool,
    /// Caret position hint, passed through verbatim.
    pub line: Option<String>,
    /// Explicit file-type override, passed through verbatim.
    pub display_type: Option<String>,
    /// Explicit name override; when absent, the target's display name is used.
    pub display_name: Option<String>,
}

impl ConnectionConfig {
    /// A resolved configuration always carries a port in the valid range.
    pub open spec fn well_formed(&self) -> bool {
        port_in_range(self.port as int)
    }
}

/// Why configuration resolution failed; no connection is attempted after
/// either failure.
#[derive(Debug)]
pub enum ConfigError {
    /// The resolved port string does not name a port in `[1, 65535]`;
    /// carries the offending string for the diagnostic.
    InvalidPort(String),
    /// The host resolved to the `"auto"` sentinel but no SSH-derived client
    /// address was available.
    AutoDetectFailed,
}

pub open spec fn spec_default_host() -> Seq<char> {
    "localhost"@
}

pub open spec fn spec_default_port_str() -> Seq<char> {
    "52698"@
}

/// The host value that requests SSH-derived detection.
pub open spec fn auto_sentinel() -> Seq<char> {
    "auto"@
}

/// The host after layering, before `"auto"` substitution.
pub open spec fn spec_resolved_host(env: &Option<String>, flag: &Option<String>) -> Seq<char> {
    spec_layered(spec_default_host(), env, flag)
}

/// The port string after layering, before numeric validation.
pub open spec fn spec_resolved_port_str(env: &Option<String>, flag: &Option<String>) -> Seq<char> {
    spec_layered(spec_default_port_str(), env, flag)
}

/// The host the transport will dial: the layered host, with the `"auto"`
/// sentinel replaced by the SSH-derived client address when one is known.
pub open spec fn spec_final_host(
    env: &Option<String>,
    flag: &Option<String>,
    ssh_client: &Option<String>,
) -> Seq<char> {
    let h = spec_resolved_host(env, flag);
    if h == auto_sentinel() {
        match ssh_client {
            Some(a) => a@,
            None => h,
        }
    } else {
        h
    }
}

fn clone_opt(o: &Option<String>) -> (r: Option<String>)
    ensures
        r == *o,
{
    match o {
        Some(v) => Some(v.clone()),
        None => None,
    }
}

/// Merge defaults, environment variables, flags, and the SSH-derived client
/// address (for the `"auto"` sentinel) into one connection configuration.
///
/// An unusable port string fails with `InvalidPort`; an `"auto"` host with no
/// derived address fails with `AutoDetectFailed` — it never falls back to a
/// different host.
pub fn resolve_config(
    env_host: &Option<String>,
    env_port: &Option<String>,
    flags: &CliFlags,
    ssh_client: &Option<String>,
) -> (r: Result<ConnectionConfig, ConfigError>)
    ensures
        ({
            let hs = spec_resolved_host(env_host, &flags.host);
            let ps = spec_resolved_port_str(env_port, &flags.port);
            &&& (r is Ok <==> valid_port_str(ps) && (hs == auto_sentinel()
                ==> ssh_client is Some))
            &&& (r matches Ok(c) ==> {
                &&& c.host@ == spec_final_host(env_host, &flags.host, ssh_client)
                &&& c.port as int == dec_value(ps)
                &&& c.wait == flags.wait
                &&& c.force == flags.force
                &&& c.verbose == flags.verbose
                &&& c.line == flags.line
                &&& c.display_type == flags.file_type
                &&& c.display_name == flags.name
                &&& c.well_formed()
            })
            &&& (!valid_port_str(ps) ==> (r matches Err(e) && e matches ConfigError::InvalidPort(p)
                && p@ == ps))
            &&& (valid_port_str(ps) && hs == auto_sentinel() && ssh_client is None ==> (r matches
                Err(e) && e is AutoDetectFailed))
        }),
{
    let port_s = layered_value("52698", env_port, &flags.port);
    let port = match parse_port(port_s.as_str()) {
        Some(v) => v,
        None => {
            return Err(ConfigError::InvalidPort(port_s));
        },
    };
    let mut host = layered_value("localhost", env_host, &flags.host);
    let auto = "auto".to_owned();
    if host == auto {
        match ssh_client {
            Some(a) => {
                host = a.clone();
            },
            None => {
                return Err(ConfigError::AutoDetectFailed);
            },
        }
    }
    Ok(
        ConnectionConfig {
            host,
            port,
            wait: flags.wait,
            force: flags.force,
            verbose: flags.verbose,
            line: clone_opt(&flags.line),
            display_type: clone_opt(&flags.file_type),
            display_name: clone_opt(&flags.name),
        },
    )
}

/// Precedence law for the host setting: a supplied flag wins; otherwise the
/// environment variable; otherwise the compiled-in default `"localhost"`.
pub proof fn lemma_host_precedence(env: &Option<String>, flag: &Option<String>)
    ensures
        flag matches Some(f) ==> spec_resolved_host(env, flag) == f@,
        flag is None ==> (env matches Some(e) ==> spec_resolved_host(env, flag) == e@),
        flag is None && env is None ==> spec_resolved_host(env, flag) == "localhost"@,
{
}

} // verus!
