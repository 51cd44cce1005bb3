//! The rebuild orchestration state machine.
//!
//! One run walks a fixed sequence of stages — elevation check, optional
//! flake pull, optional flake update, build, profile diff, dry-run gate,
//! confirmation gate, test activation, commit — with no branching back and
//! no retries: a failed step halts the machine.  The machine itself decides;
//! the caller performs: each [`advance`](Orchestrator::advance) hands back
//! the next [`Step`] (an external command to run, a file to read, a question
//! to ask), and the caller reports the outcome as the next [`Event`].

use core::cmp::Ordering;
use vstd::prelude::*;

use crate::commands::{build_argv, BuildCommand, BuildCommandBuilder, CommandBuilder};
use crate::elevation::ElevationStrategy;
use crate::outpath::{MaybeTempPath, OutPath};
use crate::platform::Platform;
use crate::specialisation::{resolve_specialisation, resolve_specialisation_spec};
use crate::text::{
    clone_strings, lemma_str_views_add, lemma_str_views_push, split_ascii_words, str_views,
    words_from,
};
use crate::version::{nix_version_from_output, nix_version_spec, version_cmp, version_cmp_spec, Version};

verus! {

/// What a run does after building: keep the result, make it the booted
/// system, test it in place, or both of the latter.
#[derive(Clone, Copy, PartialEq, Eq, Structural, Debug)]
pub enum RebuildAction {
    /// Build only; no activation.
    Build,
    /// Test activation now and persistent activation for the next boot.
    Switch,
    /// Persistent activation for the next boot only.
    Boot,
    /// In-place, non-persistent activation only.
    Test,
}

/// The user-supplied parameters of one rebuild run.
#[derive(Debug)]
pub struct RebuildRequest {
    pub action: RebuildAction,
    /// Target hostname; when absent the system's own is used.
    pub hostname: Option<String>,
    /// The flake reference to build from.
    pub flakeref: String,
    /// Requested specialisation, overridden by the one already active.
    pub specialisation: Option<String>,
    /// Activate the base configuration, ignoring any specialisation.
    pub no_specialisation: bool,
    /// Persistent output link; when absent a temporary location is used.
    pub out_link: Option<String>,
    /// Run even when already elevated, inverting the check instead.
    pub bypass_root_check: bool,
    /// Pull the flake repository first.
    pub pull: bool,
    /// Update the flake lock first.
    pub update: bool,
    /// Stop after the diff; activate nothing.
    pub dry: bool,
    /// Ask for confirmation before activating.
    pub ask: bool,
    /// Do not pipe build output through the nicer renderer.
    pub no_nom: bool,
    /// Extra arguments handed to the build tool verbatim.
    pub extra_args: Vec<String>,
    /// Diff tool invocation: one string, program and arguments separated by
    /// whitespace.
    pub diff_provider: String,
}

/// What the caller observed about the world when the run began.
#[derive(Debug)]
pub struct SystemState {
    /// The process is already running with the privileged identity.
    pub already_root: bool,
    /// Whether the flake's on-disk owner is the privileged identity;
    /// `None` when the flake's metadata could not be read.
    pub flake_owned_by_root: Option<bool>,
    /// The system's own hostname, if it could be read.
    pub system_hostname: Option<String>,
}

/// Why a run refused to go on.
#[derive(PartialEq, Eq, Debug)]
pub enum RebuildError {
    /// Started with the privileged identity and no bypass flag: the tool
    /// escalates internally per step and must not begin elevated.
    AlreadyRoot,
    /// No hostname was given and none could be read from the system.
    HostnameUnavailable,
    /// The flake's metadata, hence its owner, could not be read.
    FlakeMetadataUnreadable,
    /// An update was requested but the build tool's version could not be
    /// determined: refuse rather than guess.
    NixVersionUnavailable,
    /// The resolved target profile does not exist on the filesystem.
    TargetProfileMissing,
    /// The user declined the confirmation prompt.
    UserDeclined,
    /// An external command failed; carries the argument vector that failed.
    CommandFailed(Vec<String>),
}

/// Where the machine stands: which outcome it is waiting for.
#[derive(Clone, Copy, PartialEq, Eq, Structural, Debug)]
pub enum Stage {
    /// Created; waiting for [`Event::Begin`].
    Starting,
    /// The pull command was issued.
    Pulling,
    /// The build tool's version was asked for.
    QueryingVersion,
    /// The flake-update command was issued.
    Updating,
    /// The build command was issued.
    Building,
    /// The specialisation marker file was asked for.
    ReadingSpecialisation,
    /// The target profile's existence was asked for.
    CheckingProfile,
    /// The diff command was issued.
    Diffing,
    /// The user was asked to confirm.
    Confirming,
    /// The in-place test activation command was issued.
    TestActivating,
    /// The persistent-profile installation command was issued.
    SettingProfile,
    /// The bootloader-registration command was issued.
    BootActivating,
    /// The user activation script was issued.
    UserActivating,
    /// The system activation script was issued.
    Activating,
    /// The run completed; terminal.
    Done,
    /// The run halted on an error; terminal.
    Failed,
}

/// What the caller reports back to the machine.
#[derive(Debug)]
pub enum Event {
    /// Start the run.
    Begin,
    /// The issued command finished; `true` means success.
    CommandDone(bool),
    /// The build tool's raw version-report output, `None` if it failed.
    NixVersionOutput(Option<String>),
    /// Contents of the specialisation marker file, `None` if absent.
    SpecialisationMarker(Option<String>),
    /// Whether the checked path exists.
    PathExists(bool),
    /// The user's answer to the confirmation prompt.
    Confirmed(bool),
}

/// An external command ready to run: the fully expanded argument vector and
/// an optional user-visible status line to print first.
#[derive(Debug)]
pub struct RunCommand {
    pub argv: Vec<String>,
    pub message: Option<String>,
}

/// What the caller must do next.
#[derive(Debug)]
pub enum Step {
    /// Run the command; report [`Event::CommandDone`].
    Run(RunCommand),
    /// Run the build tool, piping through the nicer renderer when asked;
    /// report [`Event::CommandDone`].
    RunBuild(BuildCommand),
    /// Ask the build tool for its version; report
    /// [`Event::NixVersionOutput`].
    QueryNixVersion,
    /// Read the file at the given path; report
    /// [`Event::SpecialisationMarker`].
    ReadSpecialisationMarker(String),
    /// Check whether the path exists; report [`Event::PathExists`].
    CheckPath(String),
    /// Ask the user whether to apply the configuration; report
    /// [`Event::Confirmed`].
    AskConfirmation,
    /// The run is complete.
    Finished,
}

/// The rebuild state machine.  It owns the build-output path (and the
/// temporary directory backing it, if any) for the whole run, so no path
/// handed out in a step can outlive its resource.
pub struct Orchestrator {
    pub request: RebuildRequest,
    pub platform: Platform,
    /// The hostname the run builds for.
    pub hostname: String,
    /// Whether privileged steps elevate at all (off only under the bypass
    /// flag when already elevated).
    pub use_sudo: bool,
    /// Whether pull and update elevate: only when elevation is in effect and
    /// the flake is owned by the privileged identity.
    pub elevation_required: bool,
    /// The elevation strategy fixed for the run.
    pub strategy: Option<ElevationStrategy>,
    /// Where the build writes its result.
    pub out: OutPath,
    /// The resolved configuration path to activate; meaningful from the
    /// profile check on.
    pub target_profile: String,
    /// Argument vector of the last issued command, for failure reports.
    pub last_argv: Vec<String>,
    pub stage: Stage,
}

/// The view of an optional status line.
pub open spec fn omsg(m: Option<String>) -> Option<Seq<char>> {
    match m {
        Some(s) => Some(s@),
        None => None,
    }
}

/// Whether privileged steps elevate: always, unless the bypass flag inverts
/// the already-elevated condition.
pub open spec fn use_sudo_spec(request: RebuildRequest, already_root: bool) -> bool {
    if request.bypass_root_check {
        !already_root
    } else {
        true
    }
}

/// The hostname a run uses: the requested one, else the system's own.
pub open spec fn hostname_choice(request: RebuildRequest, state: SystemState) -> Option<String> {
    if request.hostname is Some {
        request.hostname
    } else {
        state.system_hostname
    }
}

/// Why starting a run is refused, if it is: an already-elevated identity
/// without the bypass flag, then a missing hostname, then unreadable flake
/// metadata.
pub open spec fn start_refusal(request: RebuildRequest, state: SystemState) -> Option<
    RebuildError,
> {
    if state.already_root && !request.bypass_root_check {
        Some(RebuildError::AlreadyRoot)
    } else if hostname_choice(request, state) is None {
        Some(RebuildError::HostnameUnavailable)
    } else if state.flake_owned_by_root is None {
        Some(RebuildError::FlakeMetadataUnreadable)
    } else {
        None
    }
}

/// An already-elevated caller that did not ask for the bypass is always
/// refused, whatever else the request says.
pub proof fn lemma_already_root_refused(request: RebuildRequest, state: SystemState)
    requires
        state.already_root,
        !request.bypass_root_check,
    ensures
        start_refusal(request, state) == Some(RebuildError::AlreadyRoot),
{
}

/// An argument vector as it runs: the elevation program and its prefix
/// arguments first when the step is elevated.
pub open spec fn expanded(root: bool, strategy: Option<ElevationStrategy>, base: Seq<Seq<char>>) -> Seq<
    Seq<char>,
> {
    if root {
        match strategy {
            Some(st) => seq![st.program@] + str_views(st.prefix_args@) + base,
            None => base,
        }
    } else {
        base
    }
}

pub open spec fn pull_base_argv(flakeref: Seq<char>) -> Seq<Seq<char>> {
    seq!["git"@, "-C"@, flakeref, "pull"@]
}

/// The flake-update argument vector; from the version at which the external
/// tool changed its default behaviour, the flake must be named explicitly.
pub open spec fn update_base_argv(flakeref: Seq<char>, explicit_flake_flag: bool) -> Seq<
    Seq<char>,
> {
    if explicit_flake_flag {
        seq!["nix"@, "flake"@, "update"@, "--flake"@, flakeref]
    } else {
        seq!["nix"@, "flake"@, "update"@, flakeref]
    }
}

/// The configuration module of each platform family.
pub open spec fn configuration_module(p: Platform) -> Seq<char> {
    match p {
        Platform::Linux => "nixosConfigurations"@,
        Platform::Darwin => "darwinConfigurations"@,
    }
}

pub open spec fn build_message(p: Platform) -> Seq<char> {
    match p {
        Platform::Linux => "Building NixOS configuration"@,
        Platform::Darwin => "Building Darwin configuration"@,
    }
}

/// The fully qualified build-tool attribute for the target configuration.
pub open spec fn build_attr(pre: Orchestrator) -> Seq<char> {
    pre.request.flakeref@ + "#"@ + configuration_module(pre.platform) + ".\""@ + pre.hostname@
        + "\".config.system.build.toplevel"@
}

/// The whole build argument vector: attribute, result link, then the
/// caller's extra arguments verbatim.
pub open spec fn build_args_spec(pre: Orchestrator) -> Seq<Seq<char>> {
    build_argv(
        build_attr(pre),
        seq!["--out-link"@, pre.out.path_spec()] + str_views(pre.request.extra_args@),
    )
}

/// The profile-diff argument vector: the configured diff tool's words, the
/// running system's profile, the target profile.
pub open spec fn diff_base_argv(pre: Orchestrator) -> Seq<Seq<char>> {
    words_from(pre.request.diff_provider@, 0) + seq![
        "/run/current-system"@,
        pre.target_profile@,
    ]
}

pub open spec fn stc_test_argv(target: Seq<char>) -> Seq<Seq<char>> {
    seq![target + "/bin/switch-to-configuration"@, "test"@]
}

pub open spec fn stc_boot_argv(out: Seq<char>) -> Seq<Seq<char>> {
    seq![out + "/bin/switch-to-configuration"@, "boot"@]
}

pub open spec fn set_profile_argv(out: Seq<char>) -> Seq<Seq<char>> {
    seq!["nix-env"@, "--profile"@, "/nix/var/nix/profiles/system"@, "--set"@, out]
}

pub open spec fn activate_user_argv(out: Seq<char>) -> Seq<Seq<char>> {
    seq![out + "/activate-user"@]
}

pub open spec fn activate_argv(out: Seq<char>) -> Seq<Seq<char>> {
    seq![out + "/activate"@]
}

/// The target profile a marker outcome resolves to: the build output itself,
/// or its specialisation subdirectory.
pub open spec fn chosen_target_profile(pre: Orchestrator, marker: Option<String>) -> Seq<char> {
    match resolve_specialisation_spec(
        pre.request.no_specialisation,
        pre.request.specialisation,
        marker,
    ) {
        None => pre.out.path_spec(),
        Some(sp) => pre.out.path_spec() + "/specialisation/"@ + sp@,
    }
}

/// The run stops at the dry-run gate: a dry run, or a build-only action.
pub open spec fn dry_gate(pre: Orchestrator) -> bool {
    pre.request.dry || pre.request.action == RebuildAction::Build
}

/// Whether an in-place test activation runs: only on Linux, for the test
/// and switch actions.
pub open spec fn test_activates(pre: Orchestrator) -> bool {
    pre.platform == Platform::Linux && (pre.request.action == RebuildAction::Test
        || pre.request.action == RebuildAction::Switch)
}

/// Whether the run commits the new profile persistently: for the boot and
/// switch actions.
pub open spec fn commits(pre: Orchestrator) -> bool {
    pre.request.action == RebuildAction::Boot || pre.request.action == RebuildAction::Switch
}

/// The fields fixed at start never change across a transition.
pub open spec fn same_core(pre: Orchestrator, post: Orchestrator) -> bool {
    &&& post.request == pre.request
    &&& post.platform == pre.platform
    &&& post.hostname == pre.hostname
    &&& post.use_sudo == pre.use_sudo
    &&& post.elevation_required == pre.elevation_required
    &&& post.strategy == pre.strategy
    &&& post.out == pre.out
}

/// A command step was emitted: the step carries the expanded argument
/// vector and the given message, the vector is recorded for failure
/// reports, and the machine moves to `next`.
pub open spec fn run_emitted(
    pre: Orchestrator,
    post: Orchestrator,
    r: Result<Step, RebuildError>,
    root: bool,
    base: Seq<Seq<char>>,
    message: Option<Seq<char>>,
    next: Stage,
) -> bool {
    let argv = expanded(root, pre.strategy, base);
    &&& match r {
        Ok(Step::Run(c)) => str_views(c.argv@) == argv && omsg(c.message) == message,
        _ => false,
    }
    &&& str_views(post.last_argv@) == argv
    &&& post.stage == next
    &&& post.target_profile == pre.target_profile
}

/// The issued command failed: the machine halts, reporting the argument
/// vector that failed.
pub open spec fn failed_command(
    pre: Orchestrator,
    post: Orchestrator,
    r: Result<Step, RebuildError>,
) -> bool {
    &&& match r {
        Err(RebuildError::CommandFailed(v)) => v@ == pre.last_argv@,
        _ => false,
    }
    &&& post.stage == Stage::Failed
    &&& post.target_profile == pre.target_profile
}

/// The run completed.
pub open spec fn finished(pre: Orchestrator, post: Orchestrator, r: Result<Step, RebuildError>) -> bool {
    &&& r == Ok::<Step, RebuildError>(Step::Finished)
    &&& post.stage == Stage::Done
    &&& post.last_argv == pre.last_argv
    &&& post.target_profile == pre.target_profile
}

/// The pull stage: the pull command when a pull was requested, else straight
/// on to the update stage.  Pull and update elevate only when the flake is
/// owned by the privileged identity and elevation is in effect.
pub open spec fn emits_pull(pre: Orchestrator, post: Orchestrator, r: Result<Step, RebuildError>) -> bool {
    if pre.request.pull {
        run_emitted(
            pre,
            post,
            r,
            pre.elevation_required,
            pull_base_argv(pre.request.flakeref@),
            Some("Pulling flake"@),
            Stage::Pulling,
        )
    } else {
        emits_update_query(pre, post, r)
    }
}

/// The update stage: first the version query when an update was requested,
/// else straight on to the build.
pub open spec fn emits_update_query(
    pre: Orchestrator,
    post: Orchestrator,
    r: Result<Step, RebuildError>,
) -> bool {
    if pre.request.update {
        &&& r == Ok::<Step, RebuildError>(Step::QueryNixVersion)
        &&& post.stage == Stage::QueryingVersion
        &&& post.last_argv == pre.last_argv
        &&& post.target_profile == pre.target_profile
    } else {
        emits_build(pre, post, r)
    }
}

/// The version-query outcome: no determinable version is fatal to the
/// update step; otherwise the update command runs, naming the flake
/// explicitly exactly when the installed version is strictly greater than
/// the breakpoint.
pub open spec fn version_handled(
    pre: Orchestrator,
    out: Option<String>,
    post: Orchestrator,
    r: Result<Step, RebuildError>,
) -> bool {
    let ver = match out {
        Some(o) => nix_version_spec(o@),
        None => None,
    };
    match ver {
        None => {
            &&& r == Err::<Step, RebuildError>(RebuildError::NixVersionUnavailable)
            &&& post.stage == Stage::Failed
            &&& post.target_profile == pre.target_profile
        },
        Some(v) => run_emitted(
            pre,
            post,
            r,
            pre.elevation_required,
            update_base_argv(
                pre.request.flakeref@,
                version_cmp_spec(v, Version { major: 2, minor: 19, patch: 0 })
                    == Ordering::Greater,
            ),
            Some("Updating flake"@),
            Stage::Updating,
        ),
    }
}

/// The build stage: the build invocation, never elevated.
pub open spec fn emits_build(pre: Orchestrator, post: Orchestrator, r: Result<Step, RebuildError>) -> bool {
    &&& match r {
        Ok(Step::RunBuild(b)) => {
            &&& str_views(b.args@) == build_args_spec(pre)
            &&& b.nom == !pre.request.no_nom
            &&& omsg(b.message) == Some(build_message(pre.platform))
        },
        _ => false,
    }
    &&& str_views(post.last_argv@) == build_args_spec(pre)
    &&& post.stage == Stage::Building
    &&& post.target_profile == pre.target_profile
}

/// After the build: read the specialisation marker.
pub open spec fn emits_marker_read(
    pre: Orchestrator,
    post: Orchestrator,
    r: Result<Step, RebuildError>,
) -> bool {
    &&& match r {
        Ok(Step::ReadSpecialisationMarker(p)) => p@ == "/etc/specialisation"@,
        _ => false,
    }
    &&& post.stage == Stage::ReadingSpecialisation
    &&& post.last_argv == pre.last_argv
    &&& post.target_profile == pre.target_profile
}

/// The marker outcome fixes the target profile, whose existence is checked
/// next — strictly after the build, strictly before any activation.
pub open spec fn marker_handled(
    pre: Orchestrator,
    marker: Option<String>,
    post: Orchestrator,
    r: Result<Step, RebuildError>,
) -> bool {
    let tgt = chosen_target_profile(pre, marker);
    &&& match r {
        Ok(Step::CheckPath(p)) => p@ == tgt,
        _ => false,
    }
    &&& post.target_profile@ == tgt
    &&& post.stage == Stage::CheckingProfile
    &&& post.last_argv == pre.last_argv
}

/// After the diff: stop successfully at the dry-run gate, else ask for
/// confirmation if requested, else go to activation.
pub open spec fn after_diff_gates(
    pre: Orchestrator,
    post: Orchestrator,
    r: Result<Step, RebuildError>,
) -> bool {
    if dry_gate(pre) {
        finished(pre, post, r)
    } else if pre.request.ask {
        &&& r == Ok::<Step, RebuildError>(Step::AskConfirmation)
        &&& post.stage == Stage::Confirming
        &&& post.last_argv == pre.last_argv
        &&& post.target_profile == pre.target_profile
    } else {
        emits_activation(pre, post, r)
    }
}

/// The activation stage: the in-place test activation of the target profile
/// where it applies, else straight on to the commit.
pub open spec fn emits_activation(
    pre: Orchestrator,
    post: Orchestrator,
    r: Result<Step, RebuildError>,
) -> bool {
    if test_activates(pre) {
        run_emitted(
            pre,
            post,
            r,
            pre.use_sudo,
            stc_test_argv(pre.target_profile@),
            Some("Activating configuration"@),
            Stage::TestActivating,
        )
    } else {
        emits_commit(pre, post, r)
    }
}

/// The commit stage: install the build output as the persistent system
/// profile where it applies, else the run is complete.
pub open spec fn emits_commit(pre: Orchestrator, post: Orchestrator, r: Result<Step, RebuildError>) -> bool {
    if commits(pre) {
        run_emitted(
            pre,
            post,
            r,
            pre.use_sudo,
            set_profile_argv(pre.out.path_spec()),
            None,
            Stage::SettingProfile,
        )
    } else {
        finished(pre, post, r)
    }
}

/// After the profile is installed: bootloader registration on Linux, the
/// user activation script (not elevated) on Darwin.
pub open spec fn emits_boot_or_user(
    pre: Orchestrator,
    post: Orchestrator,
    r: Result<Step, RebuildError>,
) -> bool {
    match pre.platform {
        Platform::Linux => run_emitted(
            pre,
            post,
            r,
            pre.use_sudo,
            stc_boot_argv(pre.out.path_spec()),
            Some("Adding configuration to bootloader"@),
            Stage::BootActivating,
        ),
        Platform::Darwin => run_emitted(
            pre,
            post,
            r,
            false,
            activate_user_argv(pre.out.path_spec()),
            Some("Activating configuration for user"@),
            Stage::UserActivating,
        ),
    }
}

/// The Darwin system activation script, elevated.
pub open spec fn emits_darwin_activate(
    pre: Orchestrator,
    post: Orchestrator,
    r: Result<Step, RebuildError>,
) -> bool {
    run_emitted(
        pre,
        post,
        r,
        pre.use_sudo,
        activate_argv(pre.out.path_spec()),
        Some("Activating configuration"@),
        Stage::Activating,
    )
}

/// Which event each stage waits for.  The two terminal stages accept none.
pub open spec fn expects(stage: Stage, event: Event) -> bool {
    match stage {
        Stage::Starting => event == Event::Begin,
        Stage::Pulling | Stage::Updating | Stage::Building | Stage::Diffing
            | Stage::TestActivating | Stage::SettingProfile | Stage::BootActivating
            | Stage::UserActivating | Stage::Activating => event is CommandDone,
        Stage::QueryingVersion => event is NixVersionOutput,
        Stage::ReadingSpecialisation => event is SpecialisationMarker,
        Stage::CheckingProfile => event is PathExists,
        Stage::Confirming => event is Confirmed,
        Stage::Done | Stage::Failed => false,
    }
}

/// The transition relation of the machine: what each stage does with the
/// event it waits for.
pub open spec fn advance_post(
    pre: Orchestrator,
    event: Event,
    post: Orchestrator,
    r: Result<Step, RebuildError>,
) -> bool {
    match pre.stage {
        Stage::Starting => emits_pull(pre, post, r),
        Stage::Pulling => match event {
            Event::CommandDone(ok) => if ok {
                emits_update_query(pre, post, r)
            } else {
                failed_command(pre, post, r)
            },
            _ => true,
        },
        Stage::QueryingVersion => match event {
            Event::NixVersionOutput(out) => version_handled(pre, out, post, r),
            _ => true,
        },
        Stage::Updating => match event {
            Event::CommandDone(ok) => if ok {
                emits_build(pre, post, r)
            } else {
                failed_command(pre, post, r)
            },
            _ => true,
        },
        Stage::Building => match event {
            Event::CommandDone(ok) => if ok {
                emits_marker_read(pre, post, r)
            } else {
                failed_command(pre, post, r)
            },
            _ => true,
        },
        Stage::ReadingSpecialisation => match event {
            Event::SpecialisationMarker(m) => marker_handled(pre, m, post, r),
            _ => true,
        },
        Stage::CheckingProfile => match event {
            Event::PathExists(b) => if b {
                run_emitted(
                    pre,
                    post,
                    r,
                    false,
                    diff_base_argv(pre),
                    Some("Comparing changes"@),
                    Stage::Diffing,
                )
            } else {
                &&& r == Err::<Step, RebuildError>(RebuildError::TargetProfileMissing)
                &&& post.stage == Stage::Failed
                &&& post.target_profile == pre.target_profile
            },
            _ => true,
        },
        Stage::Diffing => match event {
            Event::CommandDone(ok) => if ok {
                after_diff_gates(pre, post, r)
            } else {
                failed_command(pre, post, r)
            },
            _ => true,
        },
        Stage::Confirming => match event {
            Event::Confirmed(yes) => if yes {
                emits_activation(pre, post, r)
            } else {
                &&& r == Err::<Step, RebuildError>(RebuildError::UserDeclined)
                &&& post.stage == Stage::Failed
                &&& post.target_profile == pre.target_profile
            },
            _ => true,
        },
        Stage::TestActivating => match event {
            Event::CommandDone(ok) => if ok {
                emits_commit(pre, post, r)
            } else {
                failed_command(pre, post, r)
            },
            _ => true,
        },
        Stage::SettingProfile => match event {
            Event::CommandDone(ok) => if ok {
                emits_boot_or_user(pre, post, r)
            } else {
                failed_command(pre, post, r)
            },
            _ => true,
        },
        Stage::BootActivating => match event {
            Event::CommandDone(ok) => if ok {
                finished(pre, post, r)
            } else {
                failed_command(pre, post, r)
            },
            _ => true,
        },
        Stage::UserActivating => match event {
            Event::CommandDone(ok) => if ok {
                emits_darwin_activate(pre, post, r)
            } else {
                failed_command(pre, post, r)
            },
            _ => true,
        },
        Stage::Activating => match event {
            Event::CommandDone(ok) => if ok {
                finished(pre, post, r)
            } else {
                failed_command(pre, post, r)
            },
            _ => true,
        },
        Stage::Done | Stage::Failed => false,
    }
}

/// A missing target profile halts the machine before any activation step:
/// the check fails, the machine enters its terminal failure state, and a
/// terminal machine accepts no further event, so no activation command can
/// be constructed afterwards.
pub proof fn lemma_missing_profile_halts(
    pre: Orchestrator,
    post: Orchestrator,
    r: Result<Step, RebuildError>,
    later: Event,
)
    requires
        pre.stage == Stage::CheckingProfile,
        advance_post(pre, Event::PathExists(false), post, r),
    ensures
        r == Err::<Step, RebuildError>(RebuildError::TargetProfileMissing),
        post.stage == Stage::Failed,
        !expects(post.stage, later),
{
}

impl Orchestrator {
    /// The machine's standing invariant: elevated steps can only be asked
    /// for when a strategy was fixed at start.
    pub open spec fn wf(self) -> bool {
        &&& self.use_sudo ==> self.strategy is Some
        &&& self.elevation_required ==> self.use_sudo
    }

    /// Starts a run: the elevation check.
    ///
    /// Refuses an already-elevated identity unless the bypass flag is set
    /// (the tool escalates internally per step); then resolves the hostname
    /// and the flake's owner.  A strategy must be supplied whenever the run
    /// may elevate.
    pub fn start(
        request: RebuildRequest,
        platform: Platform,
        state: SystemState,
        strategy: Option<ElevationStrategy>,
        out: OutPath,
    ) -> (r: Result<Orchestrator, RebuildError>)
        requires
            start_refusal(request, state) is None && use_sudo_spec(request, state.already_root)
                ==> strategy is Some,
        ensures
            match r {
                Ok(o) => {
                    &&& start_refusal(request, state) is None
                    &&& o.request == request
                    &&& o.platform == platform
                    &&& o.use_sudo == use_sudo_spec(request, state.already_root)
                    &&& o.elevation_required == (o.use_sudo && state.flake_owned_by_root
                        == Some(true))
                    &&& o.strategy == strategy
                    &&& o.out == out
                    &&& match hostname_choice(request, state) {
                        Some(h) => o.hostname@ == h@,
                        None => false,
                    }
                    &&& o.stage == Stage::Starting
                    &&& o.wf()
                },
                Err(e) => Some(e) == start_refusal(request, state),
            },
    {
        if state.already_root && !request.bypass_root_check {
            return Err(RebuildError::AlreadyRoot);
        }
        let use_sudo = if request.bypass_root_check {
            !state.already_root
        } else {
            true
        };
        let hostname = match &request.hostname {
            Some(h) => h.clone(),
            None => match state.system_hostname {
                Some(h) => h,
                None => {
                    return Err(RebuildError::HostnameUnavailable);
                },
            },
        };
        let flake_owned_by_root = match state.flake_owned_by_root {
            Some(b) => b,
            None => {
                return Err(RebuildError::FlakeMetadataUnreadable);
            },
        };
        Ok(
            Orchestrator {
                request,
                platform,
                hostname,
                use_sudo,
                elevation_required: use_sudo && flake_owned_by_root,
                strategy,
                out,
                target_profile: String::new(),
                last_argv: Vec::new(),
                stage: Stage::Starting,
            },
        )
    }

    /// One transition of the machine: consumes the outcome of the previous
    /// step and hands back the next one.  An error is terminal, as is
    /// [`Step::Finished`].
    pub fn advance(&mut self, event: Event) -> (r: Result<Step, RebuildError>)
        requires
            old(self).wf(),
            expects(old(self).stage, event),
        ensures
            final(self).wf(),
            same_core(*old(self), *final(self)),
            advance_post(*old(self), event, *final(self), r),
    {
        let stage = self.stage;
        match stage {
            Stage::Starting => self.step_pull(),
            Stage::Pulling => match event {
                Event::CommandDone(ok) => if ok {
                    self.step_update_query()
                } else {
                    self.fail_command()
                },
                _ => unreached(),
            },
            Stage::QueryingVersion => match event {
                Event::NixVersionOutput(out) => self.step_update(out),
                _ => unreached(),
            },
            Stage::Updating => match event {
                Event::CommandDone(ok) => if ok {
                    self.step_build()
                } else {
                    self.fail_command()
                },
                _ => unreached(),
            },
            Stage::Building => match event {
                Event::CommandDone(ok) => if ok {
                    self.step_read_marker()
                } else {
                    self.fail_command()
                },
                _ => unreached(),
            },
            Stage::ReadingSpecialisation => match event {
                Event::SpecialisationMarker(m) => self.step_check_profile(m),
                _ => unreached(),
            },
            Stage::CheckingProfile => match event {
                Event::PathExists(b) => if b {
                    self.step_diff()
                } else {
                    self.fail(RebuildError::TargetProfileMissing)
                },
                _ => unreached(),
            },
            Stage::Diffing => match event {
                Event::CommandDone(ok) => if ok {
                    self.step_gates()
                } else {
                    self.fail_command()
                },
                _ => unreached(),
            },
            Stage::Confirming => match event {
                Event::Confirmed(yes) => if yes {
                    self.step_activation()
                } else {
                    self.fail(RebuildError::UserDeclined)
                },
                _ => unreached(),
            },
            Stage::TestActivating => match event {
                Event::CommandDone(ok) => if ok {
                    self.step_commit()
                } else {
                    self.fail_command()
                },
                _ => unreached(),
            },
            Stage::SettingProfile => match event {
                Event::CommandDone(ok) => if ok {
                    self.step_boot_or_user()
                } else {
                    self.fail_command()
                },
                _ => unreached(),
            },
            Stage::BootActivating => match event {
                Event::CommandDone(ok) => if ok {
                    self.step_finish()
                } else {
                    self.fail_command()
                },
                _ => unreached(),
            },
            Stage::UserActivating => match event {
                Event::CommandDone(ok) => if ok {
                    self.step_darwin_activate()
                } else {
                    self.fail_command()
                },
                _ => unreached(),
            },
            Stage::Activating => match event {
                Event::CommandDone(ok) => if ok {
                    self.step_finish()
                } else {
                    self.fail_command()
                },
                _ => unreached(),
            },
            Stage::Done | Stage::Failed => unreached(),
        }
    }

    /// Emits one external command: builds it, expands elevation, records
    /// the argument vector, and moves to `next`.
    fn emit_run(&mut self, root: bool, base: Vec<String>, message: Option<String>, next: Stage) -> (r:
        Result<Step, RebuildError>)
        requires
            old(self).wf(),
            base@.len() > 0,
            root ==> old(self).use_sudo,
        ensures
            final(self).wf(),
            same_core(*old(self), *final(self)),
            run_emitted(*old(self), *final(self), r, root, str_views(base@), omsg(message), next),
    {
        let ghost message0 = message;
        let builder = CommandBuilder::new().root(root).args(base);
        let builder = match message {
            Some(m) => builder.message(m),
            None => builder,
        };
        let cmd = match builder.build() {
            Ok(c) => c,
            Err(_) => unreached(),
        };
        let argv: Vec<String> = if cmd.root {
            match &self.strategy {
                Some(st) => cmd.expanded_argv(st),
                None => unreached(),
            }
        } else {
            proof {
                lemma_str_views_add(seq![], cmd.args@);
                assert(str_views(Seq::<String>::empty()) =~= Seq::<Seq<char>>::empty());
                assert(Seq::<Seq<char>>::empty() + str_views(cmd.args@) =~= str_views(cmd.args@));
            }
            clone_strings(&cmd.args)
        };
        self.last_argv = clone_strings(&argv);
        self.stage = next;
        Ok(Step::Run(RunCommand { argv, message: cmd.message }))
    }

    /// Halts with the given error.
    fn fail(&mut self, e: RebuildError) -> (r: Result<Step, RebuildError>)
        ensures
            final(self).wf() == old(self).wf(),
            same_core(*old(self), *final(self)),
            r == Err::<Step, RebuildError>(e),
            final(self).stage == Stage::Failed,
            final(self).last_argv == old(self).last_argv,
            final(self).target_profile == old(self).target_profile,
    {
        self.stage = Stage::Failed;
        Err(e)
    }

    /// Halts reporting the argument vector of the command that failed.
    fn fail_command(&mut self) -> (r: Result<Step, RebuildError>)
        ensures
            final(self).wf() == old(self).wf(),
            same_core(*old(self), *final(self)),
            failed_command(*old(self), *final(self), r),
    {
        let v = clone_strings(&self.last_argv);
        self.stage = Stage::Failed;
        Err(RebuildError::CommandFailed(v))
    }

    /// The run is complete.
    fn step_finish(&mut self) -> (r: Result<Step, RebuildError>)
        ensures
            final(self).wf() == old(self).wf(),
            same_core(*old(self), *final(self)),
            finished(*old(self), *final(self), r),
    {
        self.stage = Stage::Done;
        Ok(Step::Finished)
    }

    fn step_pull(&mut self) -> (r: Result<Step, RebuildError>)
        requires
            old(self).wf(),
        ensures
            final(self).wf(),
            same_core(*old(self), *final(self)),
            emits_pull(*old(self), *final(self), r),
    {
        if self.request.pull {
            let base: Vec<String> = vec![
                "git".to_owned(),
                "-C".to_owned(),
                self.request.flakeref.clone(),
                "pull".to_owned(),
            ];
            proof {
                assert(str_views(base@) =~= pull_base_argv(self.request.flakeref@));
            }
            self.emit_run(
                self.elevation_required,
                base,
                Some("Pulling flake".to_owned()),
                Stage::Pulling,
            )
        } else {
            self.step_update_query()
        }
    }

    fn step_update_query(&mut self) -> (r: Result<Step, RebuildError>)
        requires
            old(self).wf(),
        ensures
            final(self).wf(),
            same_core(*old(self), *final(self)),
            emits_update_query(*old(self), *final(self), r),
    {
        if self.request.update {
            self.stage = Stage::QueryingVersion;
            Ok(Step::QueryNixVersion)
        } else {
            self.step_build()
        }
    }

    fn step_update(&mut self, out: Option<String>) -> (r: Result<Step, RebuildError>)
        requires
            old(self).wf(),
        ensures
            final(self).wf(),
            same_core(*old(self), *final(self)),
            version_handled(*old(self), out, *final(self), r),
    {
        let ver = match &out {
            Some(o) => nix_version_from_output(o.as_str()),
            None => None,
        };
        match ver {
            None => self.fail(RebuildError::NixVersionUnavailable),
            Some(v) => {
                let breakpoint = Version { major: 2, minor: 19, patch: 0 };
                let explicit_flake_flag = match version_cmp(&v, &breakpoint) {
                    Ordering::Greater => true,
                    _ => false,
                };
                let base: Vec<String> = if explicit_flake_flag {
                    vec![
                        "nix".to_owned(),
                        "flake".to_owned(),
                        "update".to_owned(),
                        "--flake".to_owned(),
                        self.request.flakeref.clone(),
                    ]
                } else {
                    vec![
                        "nix".to_owned(),
                        "flake".to_owned(),
                        "update".to_owned(),
                        self.request.flakeref.clone(),
                    ]
                };
                proof {
                    assert(str_views(base@) =~= update_base_argv(
                        self.request.flakeref@,
                        explicit_flake_flag,
                    ));
                }
                self.emit_run(
                    self.elevation_required,
                    base,
                    Some("Updating flake".to_owned()),
                    Stage::Updating,
                )
            },
        }
    }

    fn step_build(&mut self) -> (r: Result<Step, RebuildError>)
        requires
            old(self).wf(),
        ensures
            final(self).wf(),
            same_core(*old(self), *final(self)),
            emits_build(*old(self), *final(self), r),
    {
        let module: &str = match self.platform {
            Platform::Linux => "nixosConfigurations",
            Platform::Darwin => "darwinConfigurations",
        };
        let mut attr = self.request.flakeref.clone();
        attr.append("#");
        attr.append(module);
        attr.append(".\"");
        attr.append(self.hostname.as_str());
        attr.append("\".config.system.build.toplevel");
        let message: &str = match self.platform {
            Platform::Linux => "Building NixOS configuration",
            Platform::Darwin => "Building Darwin configuration",
        };
        let mut extra: Vec<String> = Vec::new();
        extra.push("--out-link".to_owned());
        extra.push(self.out.get_path());
        let extra_own = clone_strings(&self.request.extra_args);
        let ghost extra_view = extra@;
        proof {
            assert(str_views(extra_view) =~= seq!["--out-link"@, self.out.path_spec()]);
            lemma_str_views_add(extra_view, extra_own@);
        }
        let builder = BuildCommandBuilder::new()
            .flakeref(attr)
            .message(message.to_owned())
            .extra_args(extra)
            .extra_args(extra_own)
            .nom(!self.request.no_nom);
        proof {
            assert(Seq::<String>::empty() + extra_view + self.request.extra_args@ =~= extra_view
                + self.request.extra_args@);
        }
        let cmd = match builder.build() {
            Ok(c) => c,
            Err(_) => unreached(),
        };
        self.last_argv = clone_strings(&cmd.args);
        self.stage = Stage::Building;
        Ok(Step::RunBuild(cmd))
    }

    fn step_read_marker(&mut self) -> (r: Result<Step, RebuildError>)
        ensures
            final(self).wf() == old(self).wf(),
            same_core(*old(self), *final(self)),
            emits_marker_read(*old(self), *final(self), r),
    {
        self.stage = Stage::ReadingSpecialisation;
        Ok(Step::ReadSpecialisationMarker("/etc/specialisation".to_owned()))
    }

    fn step_check_profile(&mut self, marker: Option<String>) -> (r: Result<Step, RebuildError>)
        ensures
            final(self).wf() == old(self).wf(),
            same_core(*old(self), *final(self)),
            marker_handled(*old(self), marker, *final(self), r),
    {
        let requested = match &self.request.specialisation {
            Some(s) => Some(s.clone()),
            None => None,
        };
        proof {
            assert(requested == self.request.specialisation);
        }
        let choice = resolve_specialisation(self.request.no_specialisation, requested, marker);
        let target = match choice {
            None => self.out.get_path(),
            Some(sp) => {
                let mut t = self.out.get_path();
                t.append("/specialisation/");
                t.append(sp.as_str());
                t
            },
        };
        let p = target.clone();
        self.target_profile = target;
        self.stage = Stage::CheckingProfile;
        Ok(Step::CheckPath(p))
    }

    fn step_diff(&mut self) -> (r: Result<Step, RebuildError>)
        requires
            old(self).wf(),
        ensures
            final(self).wf(),
            same_core(*old(self), *final(self)),
            run_emitted(
                *old(self),
                *final(self),
                r,
                false,
                diff_base_argv(*old(self)),
                Some("Comparing changes"@),
                Stage::Diffing,
            ),
    {
        let mut base = split_ascii_words(self.request.diff_provider.as_str());
        let ghost words = base@;
        base.push("/run/current-system".to_owned());
        base.push(self.target_profile.clone());
        proof {
            lemma_str_views_push(words, base@[words.len() as int]);
            lemma_str_views_push(
                words.push(base@[words.len() as int]),
                base@[words.len() as int + 1],
            );
            assert(base@ =~= words.push(base@[words.len() as int]).push(
                base@[words.len() as int + 1],
            ));
            assert(str_views(base@) =~= diff_base_argv(*old(self)));
        }
        self.emit_run(false, base, Some("Comparing changes".to_owned()), Stage::Diffing)
    }

    fn step_gates(&mut self) -> (r: Result<Step, RebuildError>)
        requires
            old(self).wf(),
        ensures
            final(self).wf(),
            same_core(*old(self), *final(self)),
            after_diff_gates(*old(self), *final(self), r),
    {
        let build_only = match self.request.action {
            RebuildAction::Build => true,
            _ => false,
        };
        if self.request.dry || build_only {
            self.step_finish()
        } else if self.request.ask {
            self.stage = Stage::Confirming;
            Ok(Step::AskConfirmation)
        } else {
            self.step_activation()
        }
    }

    fn step_activation(&mut self) -> (r: Result<Step, RebuildError>)
        requires
            old(self).wf(),
        ensures
            final(self).wf(),
            same_core(*old(self), *final(self)),
            emits_activation(*old(self), *final(self), r),
    {
        let is_linux = match self.platform {
            Platform::Linux => true,
            Platform::Darwin => false,
        };
        let test_or_switch = match self.request.action {
            RebuildAction::Test | RebuildAction::Switch => true,
            _ => false,
        };
        if is_linux && test_or_switch {
            let mut program = self.target_profile.clone();
            program.append("/bin/switch-to-configuration");
            let base: Vec<String> = vec![program, "test".to_owned()];
            proof {
                assert(str_views(base@) =~= stc_test_argv(self.target_profile@));
            }
            self.emit_run(
                self.use_sudo,
                base,
                Some("Activating configuration".to_owned()),
                Stage::TestActivating,
            )
        } else {
            self.step_commit()
        }
    }

    fn step_commit(&mut self) -> (r: Result<Step, RebuildError>)
        requires
            old(self).wf(),
        ensures
            final(self).wf(),
            same_core(*old(self), *final(self)),
            emits_commit(*old(self), *final(self), r),
    {
        let boot_or_switch = match self.request.action {
            RebuildAction::Boot | RebuildAction::Switch => true,
            _ => false,
        };
        if boot_or_switch {
            let base: Vec<String> = vec![
                "nix-env".to_owned(),
                "--profile".to_owned(),
                "/nix/var/nix/profiles/system".to_owned(),
                "--set".to_owned(),
                self.out.get_path(),
            ];
            proof {
                assert(str_views(base@) =~= set_profile_argv(self.out.path_spec()));
            }
            self.emit_run(self.use_sudo, base, None, Stage::SettingProfile)
        } else {
            self.step_finish()
        }
    }

    fn step_boot_or_user(&mut self) -> (r: Result<Step, RebuildError>)
        requires
            old(self).wf(),
        ensures
            final(self).wf(),
            same_core(*old(self), *final(self)),
            emits_boot_or_user(*old(self), *final(self), r),
    {
        match self.platform {
            Platform::Linux => {
                let mut program = self.out.get_path();
                program.append("/bin/switch-to-configuration");
                let base: Vec<String> = vec![program, "boot".to_owned()];
                proof {
                    assert(str_views(base@) =~= stc_boot_argv(self.out.path_spec()));
                }
                self.emit_run(
                    self.use_sudo,
                    base,
                    Some("Adding configuration to bootloader".to_owned()),
                    Stage::BootActivating,
                )
            },
            Platform::Darwin => {
                let mut program = self.out.get_path();
                program.append("/activate-user");
                let base: Vec<String> = vec![program];
                proof {
                    assert(str_views(base@) =~= activate_user_argv(self.out.path_spec()));
                }
                self.emit_run(
                    false,
                    base,
                    Some("Activating configuration for user".to_owned()),
                    Stage::UserActivating,
                )
            },
        }
    }

    fn step_darwin_activate(&mut self) -> (r: Result<Step, RebuildError>)
        requires
            old(self).wf(),
        ensures
            final(self).wf(),
            same_core(*old(self), *final(self)),
            emits_darwin_activate(*old(self), *final(self), r),
    {
        let mut program = self.out.get_path();
        program.append("/activate");
        let base: Vec<String> = vec![program];
        proof {
            assert(str_views(base@) =~= activate_argv(self.out.path_spec()));
        }
        self.emit_run(
            self.use_sudo,
            base,
            Some("Activating configuration".to_owned()),
            Stage::Activating,
        )
    }
}

} // verus!
