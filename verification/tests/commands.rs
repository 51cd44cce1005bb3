use nh::commands::{BuildCommandBuilder, CommandBuilder};
use nh::elevation::ElevationStrategy;

#[test]
fn builder_without_args_fails_validation() {
    assert!(CommandBuilder::new().build().is_err());
    assert!(CommandBuilder::new().root(true).build().is_err());
}

#[test]
fn builder_collects_fields() {
    let cmd = CommandBuilder::new()
        .root(true)
        .args(vec!["git".to_string(), "pull".to_string()])
        .message("Pulling flake".to_string())
        .build()
        .unwrap();
    assert!(cmd.root);
    assert_eq!(cmd.args, vec!["git".to_string(), "pull".to_string()]);
    assert_eq!(cmd.message, Some("Pulling flake".to_string()));
}

#[test]
fn builder_appends_args_in_order() {
    let cmd = CommandBuilder::new()
        .args(vec!["nvd".to_string(), "diff".to_string()])
        .args(vec!["/a".to_string(), "/b".to_string()])
        .build()
        .unwrap();
    assert_eq!(
        cmd.args,
        vec![
            "nvd".to_string(),
            "diff".to_string(),
            "/a".to_string(),
            "/b".to_string()
        ]
    );
}

#[test]
fn expansion_prefixes_elevation_strategy() {
    let strategy = ElevationStrategy {
        program: "/usr/bin/sudo".to_string(),
        prefix_args: vec!["-H".to_string()],
    };
    let cmd = CommandBuilder::new()
        .root(true)
        .args(vec!["nix-env".to_string(), "--set".to_string()])
        .build()
        .unwrap();
    let argv = cmd.expanded_argv(&strategy);
    assert_eq!(
        argv,
        vec![
            "/usr/bin/sudo".to_string(),
            "-H".to_string(),
            "nix-env".to_string(),
            "--set".to_string()
        ]
    );
}

#[test]
fn build_builder_requires_flakeref() {
    assert!(BuildCommandBuilder::new().build().is_err());
}

#[test]
fn build_builder_assembles_invocation() {
    let cmd = BuildCommandBuilder::new()
        .flakeref("/etc/nixos#attr".to_string())
        .message("Building".to_string())
        .extra_args(vec!["--out-link".to_string(), "/tmp/result".to_string()])
        .extra_args(vec!["--show-trace".to_string()])
        .nom(true)
        .build()
        .unwrap();
    assert_eq!(
        cmd.args,
        vec![
            "nix".to_string(),
            "build".to_string(),
            "/etc/nixos#attr".to_string(),
            "--out-link".to_string(),
            "/tmp/result".to_string(),
            "--show-trace".to_string()
        ]
    );
    assert!(cmd.nom);
    assert_eq!(cmd.message, Some("Building".to_string()));
}
