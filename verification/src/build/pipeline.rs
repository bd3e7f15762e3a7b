//! One pipeline: the build/package/publish definition for one
//! (branch, build-flavor) pair, and the state machine of one of its runs.
//!
//! A pipeline is constructed once at process start from static configuration
//! and is immutable thereafter. A run walks a fixed course: synchronize the
//! checkout (retrying destructively once), prepare the build directory, run
//! the planned commands in order, then reconcile the remote release's asset —
//! delete the old asset of this name if one exists, and only then upload the
//! new artifact. The boundary performs each prescribed action and reports
//! what it observed; every decision between two actions is taken here.

use vstd::prelude::*;
use vstd::string::StringExecFns;

use crate::build::CommandModel;
use crate::build::CommandSpec;
use crate::build::exit_outcome;
use crate::build::resolve_exit_status;
use crate::build::shell_command;
use crate::build::shell_command_with_envs;
use crate::build::shell_model;
use crate::build::shell_model_with_envs;
use crate::config::BranchAndRelease;
use crate::config::Build;
use crate::config::DefaultBuild;
use crate::config::EnvironmentVariable;
use crate::config::extend_envs;
use crate::github::model::GetReleaseRoot;
use crate::github::model::UploadReleaseAssetRoot;
use crate::github::find_macos_asset;
use crate::github::spec_find_asset;
use crate::text::extend_strings;

verus! {

/// One build pipeline. The working and build directories are exclusively
/// this pipeline's for the lifetime of a build; the artifact path is fixed
/// at construction time and never discovered at runtime.
#[derive(Debug)]
pub struct Pipeline {
    /// Directory holding this pipeline's synchronized checkout.
    pub repo_dir: String,
    /// The build directory, recreated for every run; lives inside `repo_dir`.
    pub build_dir: String,
    /// Where the packaged artifact is written, inside `build_dir`.
    pub artifact_path: String,
    /// The asset's name on the remote release.
    pub asset_name: String,
    /// Where the repository is cloned from.
    pub repo_url: String,
    pub repo_owner: String,
    pub repo_name: String,
    /// The release this pipeline publishes to.
    pub release_id: u64,
    pub pre_cmake_commands: Vec<String>,
    /// The configure command, assembled once from the shared default
    /// arguments and this flavor's own.
    pub cmake_command: CommandSpec,
    pub pre_package_commands: Vec<String>,
    /// The environment overlay for packaging and archiving; its last entry
    /// always carries the computed artifact output path.
    pub package_envs: Vec<EnvironmentVariable>,
    pub pre_dmg_commands: Vec<String>,
}

/// The configured lines, or none at all.
pub open spec fn lines_or_empty(lines: Option<Seq<Seq<char>>>) -> Seq<Seq<char>> {
    match lines {
        Some(v) => v,
        None => Seq::empty(),
    }
}

/// What [`Pipeline::new`] owes for these inputs, field by field: the
/// directories joined with `/` (the build directory inside the checkout, the
/// artifact inside the build directory), the clone URL assembled from the
/// repository coordinates, the configure command as `cmake` with the shared
/// default arguments, then the flavor's own, then `..`, and the packaging
/// overlay as the shared default overrides, then the flavor's own, then
/// `OUTPUT_DMG_PATH` set to the configured artifact output path.
pub open spec fn spec_pipeline_matches(
    p: Pipeline,
    repo_dir: Seq<char>,
    dmg_output_path: Seq<char>,
    repo_owner: Seq<char>,
    repo_name: Seq<char>,
    branch: BranchAndRelease,
    default_cfg: DefaultBuild,
    cfg: Build,
) -> bool {
    &&& p.repo_dir@ == repo_dir
    &&& p.build_dir@ == repo_dir + "/"@ + cfg.build_dir@
    &&& p.artifact_path@ == repo_dir + "/"@ + cfg.build_dir@ + "/"@ + dmg_output_path
    &&& p.asset_name@ == cfg.asset_name@
    &&& p.repo_url@ == "https://github.com/"@ + repo_owner + "/"@ + repo_name
    &&& p.repo_owner@ == repo_owner
    &&& p.repo_name@ == repo_name
    &&& p.release_id == branch.release_id
    &&& p.pre_cmake_commands.deep_view() == lines_or_empty(cfg.pre_cmake_commands.deep_view())
    &&& p.cmake_command@.program == "cmake"@
    &&& p.cmake_command@.args == default_cfg.cmake_args.deep_view() + cfg.cmake_args.deep_view()
        + seq![".."@]
    &&& p.cmake_command@.envs == Seq::<(Seq<char>, Seq<char>)>::empty()
    &&& p.pre_package_commands.deep_view() == lines_or_empty(cfg.pre_package_commands.deep_view())
    &&& p.package_envs.deep_view() == default_cfg.package_envs.deep_view()
        + cfg.package_envs.deep_view() + seq![("OUTPUT_DMG_PATH"@, dmg_output_path)]
    &&& p.pre_dmg_commands.deep_view() == lines_or_empty(cfg.pre_dmg_commands.deep_view())
}

impl Pipeline {
    /// Builds the pipeline for one branch and one build flavor, exactly as
    /// [`spec_pipeline_matches`] states it.
    pub fn new(
        repo_dir: &str,
        dmg_output_path: &str,
        repo_owner: String,
        repo_name: String,
        branch: &BranchAndRelease,
        default_cfg: &DefaultBuild,
        cfg: Build,
    ) -> (p: Pipeline)
        ensures
            spec_pipeline_matches(
                p,
                repo_dir@,
                dmg_output_path@,
                repo_owner@,
                repo_name@,
                *branch,
                *default_cfg,
                cfg,
            ),
    {
        let Build {
            pre_cmake_commands,
            cmake_args,
            pre_package_commands,
            package_envs,
            pre_dmg_commands,
            build_dir,
            asset_name,
        } = cfg;

        let mut all_cmake_args: Vec<String> = Vec::new();
        extend_strings(&mut all_cmake_args, &default_cfg.cmake_args);
        extend_strings(&mut all_cmake_args, &cmake_args);
        all_cmake_args.push(String::from_str(".."));
        let cmake_command = CommandSpec {
            program: String::from_str("cmake"),
            args: all_cmake_args,
            envs: Vec::new(),
        };
        proof {
            assert(cmake_command@.args =~= default_cfg.cmake_args.deep_view()
                + cmake_args.deep_view() + seq![".."@]);
            assert(cmake_command@.envs =~= Seq::<(Seq<char>, Seq<char>)>::empty());
        }

        let mut all_package_envs: Vec<EnvironmentVariable> = Vec::new();
        extend_envs(&mut all_package_envs, &default_cfg.package_envs);
        extend_envs(&mut all_package_envs, &package_envs);
        all_package_envs.push(
            EnvironmentVariable {
                key: String::from_str("OUTPUT_DMG_PATH"),
                value: String::from_str(dmg_output_path),
            },
        );
        proof {
            assert(all_package_envs.deep_view() =~= default_cfg.package_envs.deep_view()
                + package_envs.deep_view() + seq![("OUTPUT_DMG_PATH"@, dmg_output_path@)]);
        }

        let repo_url = String::from_str("https://github.com/").concat(repo_owner.as_str()).concat(
            "/",
        ).concat(repo_name.as_str());

        let full_build_dir = String::from_str(repo_dir).concat("/").concat(build_dir.as_str());
        let artifact_path = full_build_dir.clone().concat("/").concat(dmg_output_path);

        let pre_cmake: Vec<String> = match pre_cmake_commands {
            Some(v) => v,
            None => Vec::new(),
        };
        let pre_package: Vec<String> = match pre_package_commands {
            Some(v) => v,
            None => Vec::new(),
        };
        let pre_dmg: Vec<String> = match pre_dmg_commands {
            Some(v) => v,
            None => Vec::new(),
        };
        proof {
            assert(pre_cmake.deep_view() =~= lines_or_empty(cfg.pre_cmake_commands.deep_view()));
            assert(pre_package.deep_view() =~= lines_or_empty(
                cfg.pre_package_commands.deep_view(),
            ));
            assert(pre_dmg.deep_view() =~= lines_or_empty(cfg.pre_dmg_commands.deep_view()));
        }

        Pipeline {
            repo_dir: String::from_str(repo_dir),
            build_dir: full_build_dir,
            artifact_path,
            asset_name,
            repo_url,
            repo_owner,
            repo_name,
            release_id: branch.release_id,
            pre_cmake_commands: pre_cmake,
            cmake_command,
            pre_package_commands: pre_package,
            package_envs: all_package_envs,
            pre_dmg_commands: pre_dmg,
        }
    }
}

/// The phase a run step belongs to; a failure is attributed to its phase.
#[derive(Clone, Copy, Debug, PartialEq, Eq, Structural)]
pub enum Phase {
    /// Synchronizing the checkout.
    Sync,
    /// Removing and recreating the build directory.
    Prepare,
    /// One of the configured pre-configure shell lines.
    PreConfigure,
    /// The assembled configure command.
    Configure,
    /// The fixed build command.
    Compile,
    /// One of the configured pre-package shell lines.
    PrePackage,
    /// The fixed packaging command, under the environment overlay.
    Package,
    /// One of the configured pre-archive shell lines.
    PreArchive,
    /// The fixed archival command, under the environment overlay.
    Archive,
    /// Reconciling the remote release's asset.
    Publish,
}

/// What one planned command is, mathematically.
#[verifier::ext_equal]
pub struct PhasedCommandModel {
    pub phase: Phase,
    pub command: CommandModel,
}

/// One command of the run plan, with the phase its failure is charged to.
#[derive(Debug)]
pub struct PhasedCommand {
    pub phase: Phase,
    pub command: CommandSpec,
}

impl DeepView for PhasedCommand {
    type V = PhasedCommandModel;

    open spec fn deep_view(&self) -> PhasedCommandModel {
        PhasedCommandModel { phase: self.phase, command: self.command@ }
    }
}

/// The plan segment for a list of configured shell lines, all of one phase.
pub open spec fn phased_shell_seq(phase: Phase, lines: Seq<Seq<char>>) -> Seq<PhasedCommandModel> {
    lines.map_values(|l: Seq<char>| PhasedCommandModel { phase, command: shell_model(l) })
}

/// The full ordered command plan of one run: the pre-configure lines, the
/// configure command, the fixed build command, the pre-package lines, the
/// fixed packaging command under the overlay, the pre-archive lines, and
/// the fixed archival command under the overlay.
pub open spec fn spec_plan(p: Pipeline) -> Seq<PhasedCommandModel> {
    phased_shell_seq(Phase::PreConfigure, p.pre_cmake_commands.deep_view()) + seq![
        PhasedCommandModel { phase: Phase::Configure, command: p.cmake_command@ },
        PhasedCommandModel { phase: Phase::Compile, command: shell_model("make -j8"@) },
    ] + phased_shell_seq(Phase::PrePackage, p.pre_package_commands.deep_view()) + seq![
        PhasedCommandModel {
            phase: Phase::Package,
            command: shell_model_with_envs("../.CI/MacDeploy.sh"@, p.package_envs.deep_view()),
        },
    ] + phased_shell_seq(Phase::PreArchive, p.pre_dmg_commands.deep_view()) + seq![
        PhasedCommandModel {
            phase: Phase::Archive,
            command: shell_model_with_envs("../.CI/CreateDMG.sh"@, p.package_envs.deep_view()),
        },
    ]
}

/// Appends one shell-line command per configured line, all of one phase.
fn push_phased_shell(dst: &mut Vec<PhasedCommand>, phase: Phase, lines: &Vec<String>)
    ensures
        final(dst).deep_view() == old(dst).deep_view() + phased_shell_seq(
            phase,
            lines.deep_view(),
        ),
{
    let n = lines.len();
    let ghost orig = dst.deep_view();
    let ghost target = phased_shell_seq(phase, lines.deep_view());
    let mut i: usize = 0;
    while i < n
        invariant
            i <= n,
            n == lines@.len(),
            target == phased_shell_seq(phase, lines.deep_view()),
            target.len() == n,
            dst.deep_view() =~= orig + target.take(i as int),
        decreases n - i,
    {
        let c = PhasedCommand { phase, command: shell_command(lines[i].as_str()) };
        let ghost pre = dst@;
        let ghost pre_dv = dst.deep_view();
        dst.push(c);
        proof {
            assert(forall|j: int| 0 <= j < pre.len() ==> dst@[j] == pre[j]);
            assert(target[i as int] == PhasedCommandModel {
                phase,
                command: shell_model(lines@[i as int]@),
            });
            assert(dst.deep_view() =~= pre_dv.push(target[i as int]));
            assert(target.take(i as int + 1) =~= target.take(i as int).push(target[i as int]));
            assert(dst.deep_view() =~= orig + target.take(i as int + 1));
        }
        i += 1;
    }
    proof {
        assert(orig + target.take(n as int) =~= orig + target);
    }
}

/// Clones a command descriptor, field for field.
fn clone_command(c: &CommandSpec) -> (r: CommandSpec)
    ensures
        r@ == c@,
{
    let mut args: Vec<String> = Vec::new();
    extend_strings(&mut args, &c.args);
    let mut envs: Vec<EnvironmentVariable> = Vec::new();
    extend_envs(&mut envs, &c.envs);
    let r = CommandSpec { program: c.program.clone(), args, envs };
    proof {
        assert(r@ =~~= c@);
    }
    r
}

impl Pipeline {
    /// The ordered command plan of one run, exactly as [`spec_plan`] states
    /// it.
    pub fn command_plan(&self) -> (v: Vec<PhasedCommand>)
        ensures
            v.deep_view() == spec_plan(*self),
    {
        let mut v: Vec<PhasedCommand> = Vec::new();
        push_phased_shell(&mut v, Phase::PreConfigure, &self.pre_cmake_commands);
        let ghost after_pre_configure = v.deep_view();
        let ghost pre1 = v@;
        v.push(PhasedCommand { phase: Phase::Configure, command: clone_command(&self.cmake_command) });
        proof {
            assert(forall|j: int| 0 <= j < pre1.len() ==> v@[j] == pre1[j]);
            assert(v.deep_view() =~= after_pre_configure.push(
                PhasedCommandModel { phase: Phase::Configure, command: self.cmake_command@ },
            ));
        }
        let ghost after_configure = v.deep_view();
        let ghost pre2 = v@;
        v.push(PhasedCommand { phase: Phase::Compile, command: shell_command("make -j8") });
        proof {
            assert(forall|j: int| 0 <= j < pre2.len() ==> v@[j] == pre2[j]);
            assert(v.deep_view() =~= after_configure.push(
                PhasedCommandModel { phase: Phase::Compile, command: shell_model("make -j8"@) },
            ));
        }
        push_phased_shell(&mut v, Phase::PrePackage, &self.pre_package_commands);
        let ghost after_pre_package = v.deep_view();
        let ghost pre3 = v@;
        v.push(
            PhasedCommand {
                phase: Phase::Package,
                command: shell_command_with_envs("../.CI/MacDeploy.sh", &self.package_envs),
            },
        );
        proof {
            assert(forall|j: int| 0 <= j < pre3.len() ==> v@[j] == pre3[j]);
            assert(v.deep_view() =~= after_pre_package.push(
                PhasedCommandModel {
                    phase: Phase::Package,
                    command: shell_model_with_envs(
                        "../.CI/MacDeploy.sh"@,
                        self.package_envs.deep_view(),
                    ),
                },
            ));
        }
        push_phased_shell(&mut v, Phase::PreArchive, &self.pre_dmg_commands);
        let ghost after_pre_archive = v.deep_view();
        let ghost pre4 = v@;
        v.push(
            PhasedCommand {
                phase: Phase::Archive,
                command: shell_command_with_envs("../.CI/CreateDMG.sh", &self.package_envs),
            },
        );
        proof {
            assert(forall|j: int| 0 <= j < pre4.len() ==> v@[j] == pre4[j]);
            assert(v.deep_view() =~= after_pre_archive.push(
                PhasedCommandModel {
                    phase: Phase::Archive,
                    command: shell_model_with_envs(
                        "../.CI/CreateDMG.sh"@,
                        self.package_envs.deep_view(),
                    ),
                },
            ));
            assert(v.deep_view() =~= spec_plan(*self));
        }
        v
    }
}

/// Where one run of a pipeline stands.
#[derive(Clone, Copy, Debug, PartialEq, Eq, Structural)]
pub enum RunState {
    /// Synchronizing the checkout; on the retry the directory is removed
    /// first and the clone starts fresh.
    Syncing { retry: bool },
    /// Removing and recreating the build directory.
    Preparing,
    /// Running the plan's command at this index.
    Running { step: usize },
    /// Fetching the release's current asset list.
    FetchingAssets,
    /// Deleting the old asset of this pipeline's name.
    DeletingAsset { asset_id: u64 },
    /// Uploading the new artifact.
    Uploading,
    /// The run completed wholly.
    Done,
    /// The run failed, at this phase; no later phase was entered.
    Failed { phase: Phase },
    /// The run observed its cancellation and performed nothing further.
    Cancelled,
}

/// What the boundary observed while performing the prescribed action.
#[derive(Debug)]
pub enum RunEvent {
    /// The synchronization attempt finished, successfully or not.
    SyncFinished { ok: bool },
    /// The build directory preparation finished, successfully or not.
    PrepareFinished { ok: bool },
    /// The planned command finished with this exit status; a command that
    /// never started is reported without one.
    CommandExited { code: Option<i32> },
    /// The release record arrived, with its asset list.
    AssetsFetched { release: GetReleaseRoot },
    /// A release call failed (a non-success status, or no response at all).
    RequestFailed,
    /// The delete succeeded.
    AssetDeleted,
    /// The upload succeeded; the record carries the published asset's
    /// download location.
    AssetUploaded { asset: UploadReleaseAssetRoot },
    /// Cancellation by a newer job was observed at this suspension point.
    Cancelled,
}

/// What a run asks of the boundary next.
#[derive(Clone, Copy, Debug, PartialEq, Eq, Structural)]
pub enum RunAction {
    /// Synchronize the checkout; when forced, remove the directory first.
    SyncRepo { force_reclone: bool },
    /// Remove and recreate the build directory, and make it current.
    PrepareBuildDir,
    /// Run the plan's command at this index.
    Execute { step: usize },
    /// Fetch the release's asset list.
    FetchAssets,
    /// Delete this asset from the release.
    DeleteAsset { asset_id: u64 },
    /// Upload the artifact as the new asset.
    UploadAsset,
}

/// Whether a run is over: completed, failed, or cancelled.
pub open spec fn run_finished(st: RunState) -> bool {
    st is Done || st is Failed || st is Cancelled
}

/// Which events can be delivered in which states: exactly the result of the
/// state's own action, or the observation of cancellation while the run is
/// still live.
pub open spec fn event_fits(st: RunState, ev: RunEvent) -> bool {
    if ev is Cancelled {
        !run_finished(st)
    } else {
        match st {
            RunState::Syncing { .. } => ev is SyncFinished,
            RunState::Preparing => ev is PrepareFinished,
            RunState::Running { .. } => ev is CommandExited,
            RunState::FetchingAssets => ev is AssetsFetched || ev is RequestFailed,
            RunState::DeletingAsset { .. } => ev is AssetDeleted || ev is RequestFailed,
            RunState::Uploading => ev is AssetUploaded || ev is RequestFailed,
            RunState::Done => false,
            RunState::Failed { .. } => false,
            RunState::Cancelled => false,
        }
    }
}

/// The state one observed event moves a run to.
///
/// Cancellation ends the run wherever it stands. A failed first
/// synchronization is retried destructively, a failed second one is fatal to
/// the run. A failed command fails the run at that command's phase. A fetched
/// asset list containing this pipeline's asset name leads to the delete of
/// exactly that asset, and only then to the upload; a list without it leads
/// directly to the upload. Any failed release call fails the run at the
/// publish phase.
pub open spec fn spec_step(
    plan: Seq<PhasedCommandModel>,
    asset_name: Seq<char>,
    st: RunState,
    ev: RunEvent,
) -> RunState
    recommends
        event_fits(st, ev),
        st matches RunState::Running { step } ==> step < plan.len(),
{
    if ev is Cancelled {
        RunState::Cancelled
    } else {
        match st {
            RunState::Syncing { retry } => if ev->SyncFinished_ok {
                RunState::Preparing
            } else if !retry {
                RunState::Syncing { retry: true }
            } else {
                RunState::Failed { phase: Phase::Sync }
            },
            RunState::Preparing => if ev->PrepareFinished_ok {
                if plan.len() == 0 {
                    RunState::FetchingAssets
                } else {
                    RunState::Running { step: 0 }
                }
            } else {
                RunState::Failed { phase: Phase::Prepare }
            },
            RunState::Running { step } => match exit_outcome(ev->CommandExited_code) {
                Ok(_) => if step + 1 < plan.len() {
                    RunState::Running { step: (step + 1) as usize }
                } else {
                    RunState::FetchingAssets
                },
                Err(_) => RunState::Failed { phase: plan[step as int].phase },
            },
            RunState::FetchingAssets => match ev {
                RunEvent::AssetsFetched { release } => match spec_find_asset(
                    release.assets@,
                    asset_name,
                ) {
                    Some(id) => RunState::DeletingAsset { asset_id: id },
                    None => RunState::Uploading,
                },
                _ => RunState::Failed { phase: Phase::Publish },
            },
            RunState::DeletingAsset { .. } => if ev is AssetDeleted {
                RunState::Uploading
            } else {
                RunState::Failed { phase: Phase::Publish }
            },
            RunState::Uploading => if ev is AssetUploaded {
                RunState::Done
            } else {
                RunState::Failed { phase: Phase::Publish }
            },
            _ => st,
        }
    }
}

/// The action each state asks of the boundary; `None` once the run is over.
pub open spec fn spec_action(st: RunState) -> Option<RunAction> {
    match st {
        RunState::Syncing { retry } => Some(RunAction::SyncRepo { force_reclone: retry }),
        RunState::Preparing => Some(RunAction::PrepareBuildDir),
        RunState::Running { step } => Some(RunAction::Execute { step }),
        RunState::FetchingAssets => Some(RunAction::FetchAssets),
        RunState::DeletingAsset { asset_id } => Some(RunAction::DeleteAsset { asset_id }),
        RunState::Uploading => Some(RunAction::UploadAsset),
        RunState::Done => None,
        RunState::Failed { .. } => None,
        RunState::Cancelled => None,
    }
}

/// Every run starts with a non-destructive synchronization attempt.
pub fn initial_run_state() -> (r: RunState)
    ensures
        r == (RunState::Syncing { retry: false }),
{
    RunState::Syncing { retry: false }
}

/// The next action a run in this state asks of the boundary; `None` when the
/// run is over.
pub fn next_action(st: RunState) -> (r: Option<RunAction>)
    ensures
        r == spec_action(st),
{
    match st {
        RunState::Syncing { retry } => Some(RunAction::SyncRepo { force_reclone: retry }),
        RunState::Preparing => Some(RunAction::PrepareBuildDir),
        RunState::Running { step } => Some(RunAction::Execute { step }),
        RunState::FetchingAssets => Some(RunAction::FetchAssets),
        RunState::DeletingAsset { asset_id } => Some(RunAction::DeleteAsset { asset_id }),
        RunState::Uploading => Some(RunAction::UploadAsset),
        RunState::Done => None,
        RunState::Failed { .. } => None,
        RunState::Cancelled => None,
    }
}

impl Pipeline {
    /// Advances one run by one observed event, exactly as [`spec_step`]
    /// states it.
    pub fn step(&self, plan: &Vec<PhasedCommand>, st: RunState, ev: RunEvent) -> (r: RunState)
        requires
            event_fits(st, ev),
            st matches RunState::Running { step } ==> step < plan@.len(),
        ensures
            r == spec_step(plan.deep_view(), self.asset_name@, st, ev),
    {
        match ev {
            RunEvent::Cancelled => RunState::Cancelled,
            RunEvent::SyncFinished { ok } => match st {
                RunState::Syncing { retry } => {
                    if ok {
                        RunState::Preparing
                    } else if !retry {
                        RunState::Syncing { retry: true }
                    } else {
                        RunState::Failed { phase: Phase::Sync }
                    }
                },
                _ => st,
            },
            RunEvent::PrepareFinished { ok } => match st {
                RunState::Preparing => {
                    if ok {
                        if plan.len() == 0 {
                            RunState::FetchingAssets
                        } else {
                            RunState::Running { step: 0 }
                        }
                    } else {
                        RunState::Failed { phase: Phase::Prepare }
                    }
                },
                _ => st,
            },
            RunEvent::CommandExited { code } => match st {
                RunState::Running { step } => match resolve_exit_status(code) {
                    Ok(_) => {
                        let n = plan.len();
                        if step + 1 < n {
                            RunState::Running { step: step + 1 }
                        } else {
                            RunState::FetchingAssets
                        }
                    },
                    Err(_) => RunState::Failed { phase: plan[step].phase },
                },
                _ => st,
            },
            RunEvent::AssetsFetched { release } => match st {
                RunState::FetchingAssets => match find_macos_asset(
                    &release,
                    self.asset_name.as_str(),
                ) {
                    Some(id) => RunState::DeletingAsset { asset_id: id },
                    None => RunState::Uploading,
                },
                _ => st,
            },
            RunEvent::RequestFailed => match st {
                RunState::FetchingAssets => RunState::Failed { phase: Phase::Publish },
                RunState::DeletingAsset { .. } => RunState::Failed { phase: Phase::Publish },
                RunState::Uploading => RunState::Failed { phase: Phase::Publish },
                _ => st,
            },
            RunEvent::AssetDeleted => match st {
                RunState::DeletingAsset { .. } => RunState::Uploading,
                _ => st,
            },
            RunEvent::AssetUploaded { .. } => match st {
                RunState::Uploading => RunState::Done,
                _ => st,
            },
        }
    }
}

/// Delete-before-upload ordering. A lookup that finds an asset of this name
/// moves the run to deleting exactly that asset, whose action is the delete
/// addressed to its identifier; and the uploading state is reached only from
/// a completed delete or from a lookup that found no asset of the name — so
/// whenever the old asset exists, its delete is issued strictly before the
/// upload.
pub proof fn lemma_delete_before_upload(
    plan: Seq<PhasedCommandModel>,
    asset_name: Seq<char>,
    st: RunState,
    ev: RunEvent,
)
    requires
        event_fits(st, ev),
    ensures
        (spec_step(plan, asset_name, st, ev) is Uploading ==> ({
            ||| st is DeletingAsset
            ||| {
                &&& st is FetchingAssets
                &&& ev matches RunEvent::AssetsFetched { release }
                &&& spec_find_asset(release.assets@, asset_name) is None
            }
        })),
        (st is FetchingAssets ==> (ev matches RunEvent::AssetsFetched { release } ==> (
        spec_find_asset(release.assets@, asset_name) matches Some(id) ==> spec_step(
            plan,
            asset_name,
            st,
            ev,
        ) == (RunState::DeletingAsset { asset_id: id }) && spec_action(
            spec_step(plan, asset_name, st, ev),
        ) == Some(RunAction::DeleteAsset { asset_id: id })))),
{
}

} // verus!
