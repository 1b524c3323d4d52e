use rmate::bootstrap::{plan_bootstrap, Action};
use rmate::config::{resolve_config, CliFlags, ConfigError};
use rmate::port::parse_port;
use rmate::target::{realpath, resolve_target, Mode};

fn no_flags() -> CliFlags {
    CliFlags {
        host: None,
        port: None,
        wait: false,
        line: None,
        name: None,
        file_type: None,
        force: false,
        verbose: false,
        help: false,
        version: false,
        free: vec!["/tmp/x.txt".to_string()],
    }
}

#[test]
fn host_defaults_to_localhost() {
    let c = resolve_config(&None, &None, &no_flags(), &None).unwrap();
    assert_eq!(c.host, "localhost");
    assert_eq!(c.port, 52698);
}

#[test]
fn env_host_overrides_default() {
    let c = resolve_config(&Some("foo".to_string()), &None, &no_flags(), &None).unwrap();
    assert_eq!(c.host, "foo");
}

#[test]
fn flag_host_overrides_env() {
    let mut flags = no_flags();
    flags.host = Some("bar".to_string());
    let c = resolve_config(&Some("foo".to_string()), &None, &flags, &None).unwrap();
    assert_eq!(c.host, "bar");
}

#[test]
fn env_port_overrides_default_and_flag_wins() {
    let c = resolve_config(&None, &Some("1234".to_string()), &no_flags(), &None).unwrap();
    assert_eq!(c.port, 1234);
    let mut flags = no_flags();
    flags.port = Some("4321".to_string());
    let c = resolve_config(&None, &Some("1234".to_string()), &flags, &None).unwrap();
    assert_eq!(c.port, 4321);
}

#[test]
fn parse_port_exact_values() {
    assert_eq!(parse_port("52698"), Some(52698));
    assert_eq!(parse_port("1"), Some(1));
    assert_eq!(parse_port("65535"), Some(65535));
    assert_eq!(parse_port("007"), Some(7));
}

#[test]
fn parse_port_rejects_bad_strings() {
    assert_eq!(parse_port(""), None);
    assert_eq!(parse_port("0"), None);
    assert_eq!(parse_port("65536"), None);
    assert_eq!(parse_port("99999999999999999999"), None);
    assert_eq!(parse_port("12a"), None);
    assert_eq!(parse_port("-1"), None);
    assert_eq!(parse_port(" 1"), None);
    assert_eq!(parse_port("1.5"), None);
}

#[test]
fn invalid_port_fails_resolution() {
    let mut flags = no_flags();
    flags.port = Some("not-a-port".to_string());
    let r = resolve_config(&None, &None, &flags, &None);
    match r {
        Err(ConfigError::InvalidPort(p)) => assert_eq!(p, "not-a-port"),
        _ => panic!("expected an invalid-port failure"),
    }
}

#[test]
fn invalid_port_never_dials() {
    let mut flags = no_flags();
    flags.port = Some("65536".to_string());
    let host = "h".to_string();
    let plan = plan_bootstrap(&None, &None, &flags, &None, &host, None);
    assert!(matches!(plan.action, Action::Fail(ConfigError::InvalidPort(_))));
}

#[test]
fn stdin_sentinel_selects_stdin_mode() {
    let t = resolve_target(&"-".to_string(), &"myhost".to_string(), None);
    assert_eq!(t.mode, Mode::Stdin);
    assert!(t.resolved_path.is_none());
    assert_eq!(t.display_name, "myhost:untitled");
}

#[test]
fn existing_file_keeps_original_name_and_canonical_path() {
    let t = resolve_target(
        &"/tmp/x.txt".to_string(),
        &"myhost".to_string(),
        Some("/private/tmp/x.txt".to_string()),
    );
    assert_eq!(t.mode, Mode::File);
    assert_eq!(t.resolved_path, Some("/private/tmp/x.txt".to_string()));
    assert_eq!(t.display_name, "myhost:/tmp/x.txt");
}

#[test]
fn missing_file_resolves_with_absent_path() {
    let t = resolve_target(&"/tmp/does-not-exist".to_string(), &"h".to_string(), None);
    assert_eq!(t.mode, Mode::File);
    assert!(t.resolved_path.is_none());
    assert_eq!(t.display_name, "h:/tmp/does-not-exist");
}

#[test]
fn realpath_passes_canonical_form_through() {
    let r = realpath(&"/tmp/x.txt".to_string(), Some("/private/tmp/x.txt".to_string()));
    assert_eq!(r, Some("/private/tmp/x.txt".to_string()));
    assert_eq!(realpath(&"-".to_string(), Some("/ignored".to_string())), None);
    assert_eq!(realpath(&"/tmp/gone".to_string(), None), None);
}

#[test]
fn auto_host_takes_ssh_address() {
    let mut flags = no_flags();
    flags.host = Some("auto".to_string());
    let c = resolve_config(&None, &None, &flags, &Some("192.0.2.7".to_string())).unwrap();
    assert_eq!(c.host, "192.0.2.7");
}

#[test]
fn auto_host_without_ssh_address_fails() {
    let mut flags = no_flags();
    flags.host = Some("auto".to_string());
    let r = resolve_config(&None, &None, &flags, &None);
    assert!(matches!(r, Err(ConfigError::AutoDetectFailed)));
    // it must not fall back to localhost via the environment either
    let r = resolve_config(&Some("auto".to_string()), &None, &no_flags(), &None);
    assert!(matches!(r, Err(ConfigError::AutoDetectFailed)));
}

#[test]
fn extra_arguments_use_first_and_warn_only_when_verbose() {
    let host = "h".to_string();
    let mut flags = no_flags();
    flags.free = vec!["first.txt".to_string(), "second.txt".to_string()];
    let plan = plan_bootstrap(&None, &None, &flags, &None, &host, None);
    assert!(!plan.warn_extra_args);
    match plan.action {
        Action::Dial(_, t) => assert_eq!(t.display_name, "h:first.txt"),
        _ => panic!("expected a dialing plan"),
    }
    flags.verbose = true;
    let plan = plan_bootstrap(&None, &None, &flags, &None, &host, None);
    assert!(plan.warn_extra_args);
}

#[test]
fn help_never_dials() {
    let host = "h".to_string();
    let mut flags = no_flags();
    flags.help = true;
    let plan = plan_bootstrap(&None, &None, &flags, &None, &host, None);
    assert!(matches!(plan.action, Action::ShowUsage));
}

#[test]
fn version_never_dials() {
    let host = "h".to_string();
    let mut flags = no_flags();
    flags.version = true;
    let plan = plan_bootstrap(&None, &None, &flags, &None, &host, None);
    assert!(matches!(plan.action, Action::ShowVersion));
}

#[test]
fn no_positional_argument_shows_usage() {
    let host = "h".to_string();
    let mut flags = no_flags();
    flags.free = vec![];
    let plan = plan_bootstrap(&None, &None, &flags, &None, &host, None);
    assert!(matches!(plan.action, Action::ShowUsage));
}

#[test]
fn dial_plan_carries_settings_through() {
    let host = "box".to_string();
    let mut flags = no_flags();
    flags.wait = true;
    flags.force = true;
    flags.line = Some("12".to_string());
    flags.file_type = Some("rust".to_string());
    flags.free = vec!["-".to_string()];
    let plan = plan_bootstrap(&None, &None, &flags, &None, &host, None);
    match plan.action {
        Action::Dial(c, t) => {
            assert_eq!(c.host, "localhost");
            assert_eq!(c.port, 52698);
            assert!(c.wait);
            assert!(c.force);
            assert!(!c.verbose);
            assert_eq!(c.line, Some("12".to_string()));
            assert_eq!(c.display_type, Some("rust".to_string()));
            // no explicit name: the target's display name is adopted
            assert_eq!(c.display_name, Some("box:untitled".to_string()));
            assert_eq!(t.mode, Mode::Stdin);
        },
        _ => panic!("expected a dialing plan"),
    }
}

#[test]
fn explicit_name_overrides_display_name() {
    let host = "box".to_string();
    let mut flags = no_flags();
    flags.name = Some("notes".to_string());
    let plan = plan_bootstrap(&None, &None, &flags, &None, &host, None);
    match plan.action {
        Action::Dial(c, _) => assert_eq!(c.display_name, Some("notes".to_string())),
        _ => panic!("expected a dialing plan"),
    }
}
