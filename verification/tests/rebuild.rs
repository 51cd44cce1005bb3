use nh::elevation::ElevationStrategy;
use nh::outpath::OutPath;
use nh::platform::Platform;
use nh::rebuild::{
    Event, Orchestrator, RebuildAction, RebuildError, RebuildRequest, Stage, Step, SystemState,
};

fn request(action: RebuildAction) -> RebuildRequest {
    RebuildRequest {
        action,
        hostname: Some("host".to_string()),
        flakeref: "/home/u/flake".to_string(),
        specialisation: None,
        no_specialisation: false,
        out_link: Some("/tmp/result".to_string()),
        bypass_root_check: false,
        pull: false,
        update: false,
        dry: false,
        ask: false,
        no_nom: true,
        extra_args: Vec::new(),
        diff_provider: "nvd diff".to_string(),
    }
}

fn unprivileged_state() -> SystemState {
    SystemState {
        already_root: false,
        flake_owned_by_root: Some(false),
        system_hostname: None,
    }
}

fn sudo_strategy() -> Option<ElevationStrategy> {
    Some(ElevationStrategy {
        program: "/usr/bin/sudo".to_string(),
        prefix_args: vec!["-H".to_string()],
    })
}

fn out_link() -> OutPath {
    OutPath::Link("/tmp/result".to_string())
}

fn strs(v: &[&str]) -> Vec<String> {
    v.iter().map(|s| s.to_string()).collect()
}

#[test]
fn refuses_already_root_without_bypass() {
    // Whatever else the request says, an elevated caller is refused.
    let mut req = request(RebuildAction::Switch);
    req.dry = true;
    req.ask = true;
    let state = SystemState {
        already_root: true,
        flake_owned_by_root: Some(true),
        system_hostname: None,
    };
    let r = Orchestrator::start(req, Platform::Linux, state, sudo_strategy(), out_link());
    assert_eq!(r.err().unwrap(), RebuildError::AlreadyRoot);
}

#[test]
fn bypass_inverts_root_check() {
    let mut req = request(RebuildAction::Switch);
    req.bypass_root_check = true;
    req.dry = true;
    let state = SystemState {
        already_root: true,
        flake_owned_by_root: Some(true),
        system_hostname: None,
    };
    // Already root with the bypass: no elevation anywhere, strategy not needed.
    let o = Orchestrator::start(req, Platform::Linux, state, None, out_link()).unwrap();
    assert!(!o.use_sudo);
}

#[test]
fn missing_hostname_and_unreadable_flake_are_refused() {
    let mut req = request(RebuildAction::Switch);
    req.hostname = None;
    let r = Orchestrator::start(
        req,
        Platform::Linux,
        unprivileged_state(),
        sudo_strategy(),
        out_link(),
    );
    assert_eq!(r.err().unwrap(), RebuildError::HostnameUnavailable);

    let state = SystemState {
        already_root: false,
        flake_owned_by_root: None,
        system_hostname: None,
    };
    let r = Orchestrator::start(
        request(RebuildAction::Switch),
        Platform::Linux,
        state,
        sudo_strategy(),
        out_link(),
    );
    assert_eq!(r.err().unwrap(), RebuildError::FlakeMetadataUnreadable);
}

#[test]
fn dry_switch_runs_nothing_elevated_and_finishes() {
    // Request {action: Switch, dry: true}: the machine stops successfully at
    // the dry-run gate and no elevated command was ever emitted.
    let mut req = request(RebuildAction::Switch);
    req.dry = true;
    let mut o = Orchestrator::start(
        req,
        Platform::Linux,
        unprivileged_state(),
        sudo_strategy(),
        out_link(),
    )
    .unwrap();

    let mut elevated: Vec<Vec<String>> = Vec::new();

    let s1 = o.advance(Event::Begin).unwrap();
    match &s1 {
        Step::RunBuild(b) => {
            assert_eq!(
                b.args,
                strs(&[
                    "nix",
                    "build",
                    "/home/u/flake#nixosConfigurations.\"host\".config.system.build.toplevel",
                    "--out-link",
                    "/tmp/result",
                ])
            );
            assert!(!b.nom);
            assert_eq!(b.message, Some("Building NixOS configuration".to_string()));
        },
        s => panic!("expected the build step, got {:?}", s),
    }

    let s2 = o.advance(Event::CommandDone(true)).unwrap();
    match &s2 {
        Step::ReadSpecialisationMarker(p) => assert_eq!(p, "/etc/specialisation"),
        s => panic!("expected the marker read, got {:?}", s),
    }

    let s3 = o.advance(Event::SpecialisationMarker(None)).unwrap();
    match &s3 {
        Step::CheckPath(p) => assert_eq!(p, "/tmp/result"),
        s => panic!("expected the profile check, got {:?}", s),
    }

    let s4 = o.advance(Event::PathExists(true)).unwrap();
    match &s4 {
        Step::Run(c) => {
            assert_eq!(
                c.argv,
                strs(&["nvd", "diff", "/run/current-system", "/tmp/result"])
            );
            if c.argv[0] == "/usr/bin/sudo" {
                elevated.push(c.argv.clone());
            }
        },
        s => panic!("expected the diff, got {:?}", s),
    }

    let s5 = o.advance(Event::CommandDone(true)).unwrap();
    assert!(matches!(s5, Step::Finished));
    assert_eq!(o.stage, Stage::Done);
    assert!(elevated.is_empty());
}

#[test]
fn declined_confirmation_halts_before_commit() {
    // Request {action: Boot, confirm: true}, user declines: the machine
    // halts in its failure state at the confirmation gate and no commit
    // command was ever emitted.
    let mut req = request(RebuildAction::Boot);
    req.ask = true;
    let mut o = Orchestrator::start(
        req,
        Platform::Linux,
        unprivileged_state(),
        sudo_strategy(),
        out_link(),
    )
    .unwrap();

    assert!(matches!(o.advance(Event::Begin).unwrap(), Step::RunBuild(_)));
    assert!(matches!(
        o.advance(Event::CommandDone(true)).unwrap(),
        Step::ReadSpecialisationMarker(_)
    ));
    assert!(matches!(
        o.advance(Event::SpecialisationMarker(None)).unwrap(),
        Step::CheckPath(_)
    ));
    assert!(matches!(o.advance(Event::PathExists(true)).unwrap(), Step::Run(_)));
    let gate = o.advance(Event::CommandDone(true)).unwrap();
    assert!(matches!(gate, Step::AskConfirmation));

    let r = o.advance(Event::Confirmed(false));
    assert_eq!(r.err().unwrap(), RebuildError::UserDeclined);
    assert_eq!(o.stage, Stage::Failed);
}

#[test]
fn missing_target_profile_halts_before_activation() {
    let mut o = Orchestrator::start(
        request(RebuildAction::Switch),
        Platform::Linux,
        unprivileged_state(),
        sudo_strategy(),
        out_link(),
    )
    .unwrap();
    assert!(matches!(o.advance(Event::Begin).unwrap(), Step::RunBuild(_)));
    assert!(matches!(
        o.advance(Event::CommandDone(true)).unwrap(),
        Step::ReadSpecialisationMarker(_)
    ));
    let step = o
        .advance(Event::SpecialisationMarker(Some("gaming".to_string())))
        .unwrap();
    match &step {
        Step::CheckPath(p) => assert_eq!(p, "/tmp/result/specialisation/gaming"),
        s => panic!("expected the profile check, got {:?}", s),
    }
    let r = o.advance(Event::PathExists(false));
    assert_eq!(r.err().unwrap(), RebuildError::TargetProfileMissing);
    assert_eq!(o.stage, Stage::Failed);
}

#[test]
fn update_flag_depends_on_installed_version() {
    // Installed 2.20.0, breakpoint 2.19.0: the explicit flake flag is passed.
    let mut req = request(RebuildAction::Build);
    req.update = true;
    let mut o = Orchestrator::start(
        req,
        Platform::Linux,
        unprivileged_state(),
        sudo_strategy(),
        out_link(),
    )
    .unwrap();
    assert!(matches!(o.advance(Event::Begin).unwrap(), Step::QueryNixVersion));
    let step = o
        .advance(Event::NixVersionOutput(Some("nix (Nix) 2.20.0".to_string())))
        .unwrap();
    match &step {
        Step::Run(c) => assert_eq!(
            c.argv,
            strs(&["nix", "flake", "update", "--flake", "/home/u/flake"])
        ),
        s => panic!("expected the update, got {:?}", s),
    }

    // Installed 2.18.0: the flag is absent.
    let mut req = request(RebuildAction::Build);
    req.update = true;
    let mut o = Orchestrator::start(
        req,
        Platform::Linux,
        unprivileged_state(),
        sudo_strategy(),
        out_link(),
    )
    .unwrap();
    assert!(matches!(o.advance(Event::Begin).unwrap(), Step::QueryNixVersion));
    let step = o
        .advance(Event::NixVersionOutput(Some("nix (Nix) 2.18.0".to_string())))
        .unwrap();
    match &step {
        Step::Run(c) => assert_eq!(c.argv, strs(&["nix", "flake", "update", "/home/u/flake"])),
        s => panic!("expected the update, got {:?}", s),
    }

    // The breakpoint itself is not strictly greater: no flag.
    let mut req = request(RebuildAction::Build);
    req.update = true;
    let mut o = Orchestrator::start(
        req,
        Platform::Linux,
        unprivileged_state(),
        sudo_strategy(),
        out_link(),
    )
    .unwrap();
    assert!(matches!(o.advance(Event::Begin).unwrap(), Step::QueryNixVersion));
    let step = o
        .advance(Event::NixVersionOutput(Some("nix (Nix) 2.19.0".to_string())))
        .unwrap();
    match &step {
        Step::Run(c) => assert_eq!(c.argv, strs(&["nix", "flake", "update", "/home/u/flake"])),
        s => panic!("expected the update, got {:?}", s),
    }
}

#[test]
fn undetermined_version_is_fatal_to_the_update() {
    let mut req = request(RebuildAction::Build);
    req.update = true;
    let mut o = Orchestrator::start(
        req,
        Platform::Linux,
        unprivileged_state(),
        sudo_strategy(),
        out_link(),
    )
    .unwrap();
    assert!(matches!(o.advance(Event::Begin).unwrap(), Step::QueryNixVersion));
    let r = o.advance(Event::NixVersionOutput(None));
    assert_eq!(r.err().unwrap(), RebuildError::NixVersionUnavailable);
    assert_eq!(o.stage, Stage::Failed);
}

#[test]
fn full_switch_run_elevates_each_privileged_step() {
    let mut req = request(RebuildAction::Switch);
    req.pull = true;
    let state = SystemState {
        already_root: false,
        flake_owned_by_root: Some(true),
        system_hostname: None,
    };
    let mut o =
        Orchestrator::start(req, Platform::Linux, state, sudo_strategy(), out_link()).unwrap();

    // Root-owned flake: the pull elevates.
    let s = o.advance(Event::Begin).unwrap();
    match &s {
        Step::Run(c) => {
            assert_eq!(
                c.argv,
                strs(&[
                    "/usr/bin/sudo",
                    "-H",
                    "git",
                    "-C",
                    "/home/u/flake",
                    "pull",
                ])
            );
            assert_eq!(c.message, Some("Pulling flake".to_string()));
        },
        s => panic!("expected the pull, got {:?}", s),
    }

    // The build itself never elevates.
    let s = o.advance(Event::CommandDone(true)).unwrap();
    match &s {
        Step::RunBuild(b) => assert_eq!(b.args[0], "nix"),
        s => panic!("expected the build, got {:?}", s),
    }

    assert!(matches!(
        o.advance(Event::CommandDone(true)).unwrap(),
        Step::ReadSpecialisationMarker(_)
    ));
    let s = o
        .advance(Event::SpecialisationMarker(Some("work".to_string())))
        .unwrap();
    match &s {
        Step::CheckPath(p) => assert_eq!(p, "/tmp/result/specialisation/work"),
        s => panic!("expected the profile check, got {:?}", s),
    }

    // The diff never elevates.
    let s = o.advance(Event::PathExists(true)).unwrap();
    match &s {
        Step::Run(c) => assert_eq!(
            c.argv,
            strs(&[
                "nvd",
                "diff",
                "/run/current-system",
                "/tmp/result/specialisation/work",
            ])
        ),
        s => panic!("expected the diff, got {:?}", s),
    }

    // Test activation uses the specialisation-namespaced profile, elevated.
    let s = o.advance(Event::CommandDone(true)).unwrap();
    match &s {
        Step::Run(c) => assert_eq!(
            c.argv,
            strs(&[
                "/usr/bin/sudo",
                "-H",
                "/tmp/result/specialisation/work/bin/switch-to-configuration",
                "test",
            ])
        ),
        s => panic!("expected the test activation, got {:?}", s),
    }

    // The commit installs the base profile, elevated.
    let s = o.advance(Event::CommandDone(true)).unwrap();
    match &s {
        Step::Run(c) => {
            assert_eq!(
                c.argv,
                strs(&[
                    "/usr/bin/sudo",
                    "-H",
                    "nix-env",
                    "--profile",
                    "/nix/var/nix/profiles/system",
                    "--set",
                    "/tmp/result",
                ])
            );
            assert_eq!(c.message, None);
        },
        s => panic!("expected the profile installation, got {:?}", s),
    }

    // Bootloader registration uses the base profile, elevated.
    let s = o.advance(Event::CommandDone(true)).unwrap();
    match &s {
        Step::Run(c) => assert_eq!(
            c.argv,
            strs(&[
                "/usr/bin/sudo",
                "-H",
                "/tmp/result/bin/switch-to-configuration",
                "boot",
            ])
        ),
        s => panic!("expected the bootloader step, got {:?}", s),
    }

    let s = o.advance(Event::CommandDone(true)).unwrap();
    assert!(matches!(s, Step::Finished));
    assert_eq!(o.stage, Stage::Done);
}

#[test]
fn failed_command_halts_with_its_argv() {
    let mut o = Orchestrator::start(
        request(RebuildAction::Switch),
        Platform::Linux,
        unprivileged_state(),
        sudo_strategy(),
        out_link(),
    )
    .unwrap();
    assert!(matches!(o.advance(Event::Begin).unwrap(), Step::RunBuild(_)));
    let r = o.advance(Event::CommandDone(false));
    match r.err().unwrap() {
        RebuildError::CommandFailed(argv) => assert_eq!(argv[0], "nix"),
        e => panic!("expected a command failure, got {:?}", e),
    }
    assert_eq!(o.stage, Stage::Failed);
}

#[test]
fn darwin_commit_runs_both_activation_scripts() {
    let mut o = Orchestrator::start(
        request(RebuildAction::Switch),
        Platform::Darwin,
        unprivileged_state(),
        sudo_strategy(),
        out_link(),
    )
    .unwrap();
    let s = o.advance(Event::Begin).unwrap();
    match &s {
        Step::RunBuild(b) => {
            assert_eq!(
                b.args[2],
                "/home/u/flake#darwinConfigurations.\"host\".config.system.build.toplevel"
            );
            assert_eq!(b.message, Some("Building Darwin configuration".to_string()));
        },
        s => panic!("expected the build, got {:?}", s),
    }
    assert!(matches!(
        o.advance(Event::CommandDone(true)).unwrap(),
        Step::ReadSpecialisationMarker(_)
    ));
    assert!(matches!(
        o.advance(Event::SpecialisationMarker(None)).unwrap(),
        Step::CheckPath(_)
    ));
    assert!(matches!(o.advance(Event::PathExists(true)).unwrap(), Step::Run(_)));

    // No in-place test activation on Darwin: straight to the commit.
    let s = o.advance(Event::CommandDone(true)).unwrap();
    match &s {
        Step::Run(c) => assert_eq!(c.argv[2], "nix-env"),
        s => panic!("expected the profile installation, got {:?}", s),
    }

    // The user activation script runs unelevated.
    let s = o.advance(Event::CommandDone(true)).unwrap();
    match &s {
        Step::Run(c) => assert_eq!(c.argv, strs(&["/tmp/result/activate-user"])),
        s => panic!("expected the user activation, got {:?}", s),
    }

    // The system activation script runs elevated.
    let s = o.advance(Event::CommandDone(true)).unwrap();
    match &s {
        Step::Run(c) => assert_eq!(
            c.argv,
            strs(&["/usr/bin/sudo", "-H", "/tmp/result/activate"])
        ),
        s => panic!("expected the system activation, got {:?}", s),
    }
    assert!(matches!(o.advance(Event::CommandDone(true)).unwrap(), Step::Finished));
}

#[test]
fn darwin_test_action_activates_nothing() {
    let mut o = Orchestrator::start(
        request(RebuildAction::Test),
        Platform::Darwin,
        unprivileged_state(),
        sudo_strategy(),
        out_link(),
    )
    .unwrap();
    assert!(matches!(o.advance(Event::Begin).unwrap(), Step::RunBuild(_)));
    assert!(matches!(
        o.advance(Event::CommandDone(true)).unwrap(),
        Step::ReadSpecialisationMarker(_)
    ));
    assert!(matches!(
        o.advance(Event::SpecialisationMarker(None)).unwrap(),
        Step::CheckPath(_)
    ));
    assert!(matches!(o.advance(Event::PathExists(true)).unwrap(), Step::Run(_)));
    assert!(matches!(o.advance(Event::CommandDone(true)).unwrap(), Step::Finished));
}

#[test]
fn extra_args_are_passed_verbatim() {
    let mut req = request(RebuildAction::Build);
    req.extra_args = strs(&["--show-trace", "--impure"]);
    req.no_nom = false;
    let mut o = Orchestrator::start(
        req,
        Platform::Linux,
        unprivileged_state(),
        sudo_strategy(),
        out_link(),
    )
    .unwrap();
    let s = o.advance(Event::Begin).unwrap();
    match &s {
        Step::RunBuild(b) => {
            assert_eq!(
                b.args,
                strs(&[
                    "nix",
                    "build",
                    "/home/u/flake#nixosConfigurations.\"host\".config.system.build.toplevel",
                    "--out-link",
                    "/tmp/result",
                    "--show-trace",
                    "--impure",
                ])
            );
            assert!(b.nom);
        },
        s => panic!("expected the build, got {:?}", s),
    }
}
