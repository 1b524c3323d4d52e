//! The bootstrap plan: everything a full invocation decides — usage or
//! version short-circuits, configuration failures, or a transport dial —
//! computed from parsed flags, environment values, and locally resolved
//! facts, without performing any I/O itself.

use crate::config::{
    auto_sentinel, resolve_config, spec_final_host, spec_resolved_host, spec_resolved_port_str,
    CliFlags, ConfigError, ConnectionConfig,
};
use crate::port::{dec_value, valid_port_str};
use crate::target::{
    resolve_target, spec_display_name, stdin_sentinel, untitled_label, Mode, TargetSelection,
};
use vstd::prelude::*;

verus! {

/// What the invocation does after planning.
#[derive(Debug)]
pub enum Action {
    /// Print usage and exit nonzero: no positional argument was given, the
    /// flags were malformed, or help was requested.
    ShowUsage,
    /// Print the version banner and exit nonzero.
    ShowVersion,
    /// Report the configuration error and exit nonzero; no connection is
    /// opened.
    Fail(ConfigError),
    /// Open a TCP connection to the configured endpoint and hand it, together
    /// with the target, to the protocol engine.
    Dial(ConnectionConfig, TargetSelection),
}

/// The shape of an action, for stating laws about whole plans.
#[derive(PartialEq, Eq, Structural, Clone, Copy, Debug)]
pub enum PlanKind {
    Usage,
    Version,
    Failure,
    Dial,
}

pub open spec fn kind_of(a: &Action) -> PlanKind {
    match a {
        Action::ShowUsage => PlanKind::Usage,
        Action::ShowVersion => PlanKind::Version,
        Action::Fail(_) => PlanKind::Failure,
        Action::Dial(_, _) => PlanKind::Dial,
    }
}

/// Everything the planned invocation will do.
#[derive(Debug)]
pub struct BootstrapPlan {
    pub action: Action,
    /// More than one positional argument was supplied and verbose logging is
    /// on: the caller should name the ignored arguments in a diagnostic.
    pub warn_extra_args: bool,
}

/// The kind of plan an invocation yields: usage when no positional argument
/// or help; version next; failure on an unusable port string or an `"auto"`
/// host with no SSH-derived address; otherwise a dial.
pub open spec fn spec_plan_kind(
    flags: &CliFlags,
    env_host: &Option<String>,
    env_port: &Option<String>,
    ssh_client: &Option<String>,
) -> PlanKind {
    if flags.free@.len() == 0 || flags.help {
        PlanKind::Usage
    } else if flags.version {
        PlanKind::Version
    } else if !valid_port_str(spec_resolved_port_str(env_port, &flags.port)) {
        PlanKind::Failure
    } else if spec_resolved_host(env_host, &flags.host) == auto_sentinel() && ssh_client is None {
        PlanKind::Failure
    } else {
        PlanKind::Dial
    }
}

/// Plan a whole invocation. Only the first positional argument selects the
/// target; `canonical` is the canonical form the local filesystem reported
/// for that argument, `hostname` the local machine's name (possibly empty).
pub fn plan_bootstrap(
    env_host: &Option<String>,
    env_port: &Option<String>,
    flags: &CliFlags,
    ssh_client: &Option<String>,
    hostname: &String,
    canonical: Option<String>,
) -> (r: BootstrapPlan)
    ensures
        kind_of(&r.action) == spec_plan_kind(flags, env_host, env_port, ssh_client),
        r.warn_extra_args == (flags.verbose && flags.free@.len() > 1),
        r.action matches Action::Fail(e) ==> ({
            let ps = spec_resolved_port_str(env_port, &flags.port);
            &&& (!valid_port_str(ps) ==> (e matches ConfigError::InvalidPort(p) && p@ == ps))
            &&& (valid_port_str(ps) ==> e is AutoDetectFailed)
        }),
        r.action matches Action::Dial(c, t) ==> ({
            let fp = flags.free@[0];
            &&& c.host@ == spec_final_host(env_host, &flags.host, ssh_client)
            &&& c.port as int == dec_value(spec_resolved_port_str(env_port, &flags.port))
            &&& c.wait == flags.wait
            &&& c.force == flags.force
            &&& c.verbose == flags.verbose
            &&& c.line == flags.line
            &&& c.display_type == flags.file_type
            &&& (flags.name is Some ==> c.display_name == flags.name)
            &&& (flags.name is None ==> (c.display_name matches Some(dn) && dn@
                == t.display_name@))
            &&& c.well_formed()
            &&& (fp@ == stdin_sentinel() ==> t.mode == Mode::Stdin && t.resolved_path is None
                && t.display_name@ == spec_display_name(hostname@, untitled_label()))
            &&& (fp@ != stdin_sentinel() ==> t.mode == Mode::File && t.resolved_path == canonical
                && t.display_name@ == spec_display_name(hostname@, fp@))
        }),
{
    let warn = flags.verbose && flags.free.len() > 1;
    if flags.free.len() == 0 || flags.help {
        return BootstrapPlan { action: Action::ShowUsage, warn_extra_args: warn };
    }
    if flags.version {
        return BootstrapPlan { action: Action::ShowVersion, warn_extra_args: warn };
    }
    match resolve_config(env_host, env_port, flags, ssh_client) {
        Err(e) => BootstrapPlan { action: Action::Fail(e), warn_extra_args: warn },
        Ok(mut c) => {
            let t = resolve_target(&flags.free[0], hostname, canonical);
            if c.display_name.is_none() {
                c.display_name = Some(t.display_name.clone());
            }
            BootstrapPlan { action: Action::Dial(c, t), warn_extra_args: warn }
        },
    }
}

/// With help or version requested, the plan never dials, whatever the rest
/// of the configuration holds: no TCP connection is attempted.
pub proof fn lemma_help_or_version_never_dials(
    flags: &CliFlags,
    env_host: &Option<String>,
    env_port: &Option<String>,
    ssh_client: &Option<String>,
)
    requires
        flags.help || flags.version,
    ensures
        spec_plan_kind(flags, env_host, env_port, ssh_client) != PlanKind::Dial,
{
}

/// With a port string that does not name a port in `[1, 65535]`, the plan
/// never dials: resolution fails (or short-circuits to usage or version)
/// before any connection is attempted.
pub proof fn lemma_invalid_port_never_dials(
    flags: &CliFlags,
    env_host: &Option<String>,
    env_port: &Option<String>,
    ssh_client: &Option<String>,
)
    requires
        !valid_port_str(spec_resolved_port_str(env_port, &flags.port)),
    ensures
        spec_plan_kind(flags, env_host, env_port, ssh_client) != PlanKind::Dial,
{
}

/// With the host resolved to the `"auto"` sentinel and no SSH-derived client
/// address, the plan never dials; and any dialing plan built under the
/// sentinel carries the derived address verbatim — in particular it is never
/// a silent `"localhost"` fallback.
pub proof fn lemma_auto_host_resolution(
    flags: &CliFlags,
    env_host: &Option<String>,
    env_port: &Option<String>,
    ssh_client: &Option<String>,
)
    requires
        spec_resolved_host(env_host, &flags.host) == auto_sentinel(),
    ensures
        ssh_client is None ==> spec_plan_kind(flags, env_host, env_port, ssh_client)
            != PlanKind::Dial,
        ssh_client matches Some(a) ==> spec_final_host(env_host, &flags.host, ssh_client) == a@,
{
}

} // verus!
