use nh::elevation::{get_elevation_program, ProgramLookup};

fn empty_lookup() -> ProgramLookup {
    ProgramLookup {
        doas: None,
        sudo: None,
        run0: None,
        pkexec: None,
        sudo_preserve_env: false,
    }
}

#[test]
fn sudo_wins_over_pkexec() {
    // Order-respecting: sudo is earlier than pkexec in the fixed list.
    let lookup = ProgramLookup {
        sudo: Some("/usr/bin/sudo".to_string()),
        pkexec: Some("/usr/bin/pkexec".to_string()),
        ..empty_lookup()
    };
    let s = get_elevation_program(None, lookup).unwrap();
    assert_eq!(s.program, "/usr/bin/sudo");
    assert_eq!(s.prefix_args, vec!["-H".to_string()]);
}

#[test]
fn doas_wins_over_everything() {
    let lookup = ProgramLookup {
        doas: Some("/usr/bin/doas".to_string()),
        sudo: Some("/usr/bin/sudo".to_string()),
        run0: Some("/usr/bin/run0".to_string()),
        pkexec: Some("/usr/bin/pkexec".to_string()),
        sudo_preserve_env: true,
    };
    let s = get_elevation_program(None, lookup).unwrap();
    assert_eq!(s.program, "/usr/bin/doas");
    assert!(s.prefix_args.is_empty());
}

#[test]
fn sudo_preserve_env_prefix() {
    let lookup = ProgramLookup {
        sudo: Some("/run/wrappers/bin/sudo".to_string()),
        sudo_preserve_env: true,
        ..empty_lookup()
    };
    let s = get_elevation_program(None, lookup).unwrap();
    assert_eq!(
        s.prefix_args,
        vec![
            "-H".to_string(),
            "--preserve-env=PATH".to_string(),
            "env".to_string()
        ]
    );
}

#[test]
fn run0_then_pkexec_as_fallbacks() {
    let lookup = ProgramLookup {
        run0: Some("/usr/bin/run0".to_string()),
        pkexec: Some("/usr/bin/pkexec".to_string()),
        ..empty_lookup()
    };
    let s = get_elevation_program(None, lookup).unwrap();
    assert_eq!(s.program, "/usr/bin/run0");
    assert!(s.prefix_args.is_empty());

    let lookup = ProgramLookup {
        pkexec: Some("/usr/bin/pkexec".to_string()),
        ..empty_lookup()
    };
    let s = get_elevation_program(None, lookup).unwrap();
    assert_eq!(s.program, "/usr/bin/pkexec");
}

#[test]
fn explicit_override_found() {
    // An explicit override takes no extra arguments, whatever else exists.
    let lookup = ProgramLookup {
        doas: Some("/usr/bin/doas".to_string()),
        sudo_preserve_env: true,
        ..empty_lookup()
    };
    let s = get_elevation_program(Some(Some("/opt/bin/please".to_string())), lookup).unwrap();
    assert_eq!(s.program, "/opt/bin/please");
    assert!(s.prefix_args.is_empty());
}

#[test]
fn explicit_override_missing_fails() {
    let lookup = ProgramLookup {
        doas: Some("/usr/bin/doas".to_string()),
        ..empty_lookup()
    };
    assert!(get_elevation_program(Some(None), lookup).is_err());
}

#[test]
fn nothing_found_fails() {
    assert!(get_elevation_program(None, empty_lookup()).is_err());
}
