use peakmem::config::{parse_args, ConfigError};

fn argv(parts: &[&str]) -> Vec<Vec<u8>> {
    parts.iter().map(|p| p.as_bytes().to_vec()).collect()
}

#[test]
fn defaults_apply_when_only_a_command_is_given() {
    let cfg = parse_args(&argv(&["ls"])).unwrap();
    assert_eq!(cfg.sample_rate_ms, 100);
    assert_eq!(cfg.timeout_ms, 0);
    assert_eq!(cfg.command, argv(&["ls"]));
}

#[test]
fn flags_before_the_command_configure_the_tool() {
    let cfg = parse_args(&argv(&["--sample-rate", "5", "-t", "10", "prog", "x"])).unwrap();
    assert_eq!(cfg.sample_rate_ms, 5);
    assert_eq!(cfg.timeout_ms, 10);
    assert_eq!(cfg.command, argv(&["prog", "x"]));
}

#[test]
fn later_flags_overwrite_earlier_ones() {
    let cfg = parse_args(&argv(&["-s", "5", "-s", "7", "prog"])).unwrap();
    assert_eq!(cfg.sample_rate_ms, 7);
}

#[test]
fn command_flags_that_are_not_the_tools_pass_through() {
    let cfg = parse_args(&argv(&["prog", "--verbose", "-x"])).unwrap();
    assert_eq!(cfg.command, argv(&["prog", "--verbose", "-x"]));
}

#[test]
fn no_command_is_rejected() {
    assert_eq!(parse_args(&argv(&[])), Err(ConfigError::NoCommand));
    assert_eq!(parse_args(&argv(&["-s", "5"])), Err(ConfigError::NoCommand));
}

#[test]
fn flag_without_value_is_rejected() {
    assert_eq!(parse_args(&argv(&["--timeout"])), Err(ConfigError::MissingValue));
}

#[test]
fn flag_with_bad_number_is_rejected() {
    assert_eq!(parse_args(&argv(&["--sample-rate", "abc", "ls"])), Err(ConfigError::BadNumber));
    assert_eq!(parse_args(&argv(&["-t", "-5", "ls"])), Err(ConfigError::BadNumber));
}

#[test]
fn unknown_flag_is_rejected() {
    assert_eq!(parse_args(&argv(&["-x", "ls"])), Err(ConfigError::UnknownFlag));
}

#[test]
fn interval_flag_after_the_command_is_rejected() {
    assert_eq!(
        parse_args(&argv(&["prog", "--sample-rate", "5"])),
        Err(ConfigError::FlagAfterCommand)
    );
    assert_eq!(
        parse_args(&argv(&["-s", "5", "prog", "-t", "1"])),
        Err(ConfigError::FlagAfterCommand)
    );
}
