//! Running external build commands: the structured command descriptor, and
//! the interpretation of a finished child process's exit status.
//!
//! The process that actually spawns the child, drains its two output streams
//! concurrently and waits for it belongs to the boundary; it hands the
//! observed exit status back to [`resolve_exit_status`], which alone decides
//! success or failure.

use vstd::prelude::*;
use vstd::string::StringExecFns;

use crate::config::Config;
use crate::config::EnvironmentVariable;
use crate::config::extend_envs;
use crate::text::str_eq;

pub mod pipeline;

use pipeline::Pipeline;
use pipeline::spec_pipeline_matches;

verus! {

/// Why a command invocation failed.
#[derive(Clone, Copy, Debug, PartialEq, Eq, Structural)]
pub enum CommandError {
    /// The child exited with this nonzero status code.
    NonZeroExit(i32),
    /// The child terminated without an exit status (for example, killed by a
    /// signal).
    NoExitStatus,
}

/// The outcome owed for each possible exit status: success exactly for exit
/// code 0, `NonZeroExit(c)` for any other code `c`, and `NoExitStatus` when
/// the child terminated without a code.
pub open spec fn exit_outcome(code: Option<i32>) -> Result<(), CommandError> {
    match code {
        Some(c) => if c == 0 {
            Ok(())
        } else {
            Err(CommandError::NonZeroExit(c))
        },
        None => Err(CommandError::NoExitStatus),
    }
}

/// Resolves a finished child's exit status: exit code 0 succeeds; any other
/// code fails carrying that exact code; a missing code fails with
/// [`CommandError::NoExitStatus`].
pub fn resolve_exit_status(code: Option<i32>) -> (r: Result<(), CommandError>)
    ensures
        r == exit_outcome(code),
{
    match code {
        Some(c) => {
            if c == 0 {
                Ok(())
            } else {
                Err(CommandError::NonZeroExit(c))
            }
        },
        None => Err(CommandError::NoExitStatus),
    }
}

/// What a command is, mathematically: the program, its arguments, and the
/// environment overlay laid over the parent's environment.
#[verifier::ext_equal]
pub struct CommandModel {
    pub program: Seq<char>,
    pub args: Seq<Seq<char>>,
    pub envs: Seq<(Seq<char>, Seq<char>)>,
}

/// One external command, built at configuration time: a program, its
/// argument list, and the environment overlay laid over the parent's
/// environment (empty for most commands). Run in the current working
/// directory.
#[derive(Debug)]
pub struct CommandSpec {
    pub program: String,
    pub args: Vec<String>,
    pub envs: Vec<EnvironmentVariable>,
}

impl View for CommandSpec {
    type V = CommandModel;

    open spec fn view(&self) -> CommandModel {
        CommandModel {
            program: self.program@,
            args: self.args.deep_view(),
            envs: self.envs.deep_view(),
        }
    }
}

impl DeepView for CommandSpec {
    type V = CommandModel;

    open spec fn deep_view(&self) -> CommandModel {
        self@
    }
}

/// The model of a configured shell line: run as `sh -c <line>`, with no
/// environment overlay.
pub open spec fn shell_model(line: Seq<char>) -> CommandModel {
    CommandModel { program: "sh"@, args: seq!["-c"@, line], envs: Seq::empty() }
}

/// The model of a shell line run under an environment overlay.
pub open spec fn shell_model_with_envs(
    line: Seq<char>,
    envs: Seq<(Seq<char>, Seq<char>)>,
) -> CommandModel {
    CommandModel { program: "sh"@, args: seq!["-c"@, line], envs }
}

/// The command that runs one configured shell line with no overlay.
pub fn shell_command(line: &str) -> (c: CommandSpec)
    ensures
        c@ == shell_model(line@),
{
    let mut args: Vec<String> = Vec::new();
    args.push(String::from_str("-c"));
    args.push(String::from_str(line));
    let c = CommandSpec { program: String::from_str("sh"), args, envs: Vec::new() };
    proof {
        assert(c@ =~~= shell_model(line@));
    }
    c
}

/// The command that runs one configured shell line under an environment
/// overlay.
pub fn shell_command_with_envs(line: &str, envs: &Vec<EnvironmentVariable>) -> (c: CommandSpec)
    ensures
        c@ == shell_model_with_envs(line@, envs.deep_view()),
{
    let mut args: Vec<String> = Vec::new();
    args.push(String::from_str("-c"));
    args.push(String::from_str(line));
    let mut overlay: Vec<EnvironmentVariable> = Vec::new();
    extend_envs(&mut overlay, envs);
    let c = CommandSpec { program: String::from_str("sh"), args, envs: overlay };
    proof {
        assert(c@ =~~= shell_model_with_envs(line@, envs.deep_view()));
    }
    c
}

/// One entry of the static branch-to-pipelines map.
#[derive(Debug)]
pub struct BranchPipelines {
    /// The branch that triggers these builds.
    pub branch: String,
    /// The pipelines run, in order, when the branch is pushed to.
    pub pipelines: Vec<Pipeline>,
}

/// The static branch-to-pipelines map, read-only after startup.
#[derive(Debug)]
pub struct PipelineMap {
    pub entries: Vec<BranchPipelines>,
}

/// The index of the first entry carrying this branch name, if any.
pub open spec fn spec_lookup_index(entries: Seq<BranchPipelines>, branch: Seq<char>) -> Option<int>
    decreases entries.len(),
{
    if entries.len() == 0 {
        None
    } else if entries[0].branch@ == branch {
        Some(0)
    } else {
        match spec_lookup_index(entries.drop_first(), branch) {
            Some(i) => Some(i + 1),
            None => None,
        }
    }
}

/// An index lookup result, moved outward past a prefix of skipped entries.
pub open spec fn shift_index(found: Option<int>, by: int) -> Option<int> {
    match found {
        Some(i) => Some(i + by),
        None => None,
    }
}

impl PipelineMap {
    /// Looks a branch up: the index of its entry, or `None` when the branch
    /// is not configured.
    pub fn lookup(&self, branch: &str) -> (r: Option<usize>)
        ensures
            (r matches Some(i) ==> spec_lookup_index(self.entries@, branch@) == Some(i as int)
                && i < self.entries@.len()),
            (r is None ==> spec_lookup_index(self.entries@, branch@) is None),
    {
        let n = self.entries.len();
        proof {
            assert(self.entries@.skip(0) =~= self.entries@);
        }
        let mut i: usize = 0;
        while i < n
            invariant
                i <= n,
                n == self.entries@.len(),
                spec_lookup_index(self.entries@, branch@) == shift_index(
                    spec_lookup_index(self.entries@.skip(i as int), branch@),
                    i as int,
                ),
            decreases n - i,
        {
            proof {
                assert(self.entries@.skip(i as int)[0] == self.entries@[i as int]);
            }
            if str_eq(self.entries[i].branch.as_str(), branch) {
                return Some(i);
            }
            proof {
                assert(self.entries@.skip(i as int).drop_first() =~= self.entries@.skip(
                    i as int + 1,
                ));
            }
            i += 1;
        }
        proof {
            assert(self.entries@.skip(n as int) =~= Seq::<BranchPipelines>::empty());
        }
        None
    }
}

/// Builds the branch-to-pipelines map the process serves: one entry per
/// configured branch, in order, each holding one pipeline per configured
/// build flavor, in order, constructed as `Pipeline::new` states.
pub fn build_pipelines(cfg: &Config) -> (map: PipelineMap)
    ensures
        map.entries@.len() == cfg.github.branches@.len(),
        forall|i: int|
            #![trigger map.entries@[i]]
            0 <= i < map.entries@.len() ==> {
                &&& map.entries@[i].branch@ == cfg.github.branches@[i].name@
                &&& map.entries@[i].pipelines@.len() == cfg.build.configs@.len()
                &&& forall|j: int|
                    #![trigger map.entries@[i].pipelines@[j]]
                    0 <= j < cfg.build.configs@.len() ==> spec_pipeline_matches(
                        map.entries@[i].pipelines@[j],
                        cfg.build.repo_dir@,
                        cfg.build.dmg_output_path@,
                        cfg.github.repo_owner@,
                        cfg.github.repo_name@,
                        cfg.github.branches@[i],
                        cfg.build.default_config,
                        cfg.build.configs@[j],
                    )
            },
{
    let branch_count = cfg.github.branches.len();
    let config_count = cfg.build.configs.len();
    let mut entries: Vec<BranchPipelines> = Vec::new();
    let mut i: usize = 0;
    while i < branch_count
        invariant
            i <= branch_count,
            branch_count == cfg.github.branches@.len(),
            config_count == cfg.build.configs@.len(),
            entries@.len() == i,
            forall|a: int|
                #![trigger entries@[a]]
                0 <= a < i ==> {
                    &&& entries@[a].branch@ == cfg.github.branches@[a].name@
                    &&& entries@[a].pipelines@.len() == cfg.build.configs@.len()
                    &&& forall|j: int|
                        #![trigger entries@[a].pipelines@[j]]
                        0 <= j < cfg.build.configs@.len() ==> spec_pipeline_matches(
                            entries@[a].pipelines@[j],
                            cfg.build.repo_dir@,
                            cfg.build.dmg_output_path@,
                            cfg.github.repo_owner@,
                            cfg.github.repo_name@,
                            cfg.github.branches@[a],
                            cfg.build.default_config,
                            cfg.build.configs@[j],
                        )
                },
        decreases branch_count - i,
    {
        let mut pipes: Vec<Pipeline> = Vec::new();
        let mut j: usize = 0;
        while j < config_count
            invariant
                j <= config_count,
                i < branch_count,
                branch_count == cfg.github.branches@.len(),
                config_count == cfg.build.configs@.len(),
                pipes@.len() == j,
                forall|k: int|
                    #![trigger pipes@[k]]
                    0 <= k < j ==> spec_pipeline_matches(
                        pipes@[k],
                        cfg.build.repo_dir@,
                        cfg.build.dmg_output_path@,
                        cfg.github.repo_owner@,
                        cfg.github.repo_name@,
                        cfg.github.branches@[i as int],
                        cfg.build.default_config,
                        cfg.build.configs@[k],
                    ),
            decreases config_count - j,
        {
            let p = Pipeline::new(
                cfg.build.repo_dir.as_str(),
                cfg.build.dmg_output_path.as_str(),
                cfg.github.repo_owner.clone(),
                cfg.github.repo_name.clone(),
                &cfg.github.branches[i],
                &cfg.build.default_config,
                cfg.build.configs[j].duplicate(),
            );
            proof {
                assert(spec_pipeline_matches(
                    p,
                    cfg.build.repo_dir@,
                    cfg.build.dmg_output_path@,
                    cfg.github.repo_owner@,
                    cfg.github.repo_name@,
                    cfg.github.branches@[i as int],
                    cfg.build.default_config,
                    cfg.build.configs@[j as int],
                ));
            }
            pipes.push(p);
            j += 1;
        }
        entries.push(
            BranchPipelines { branch: cfg.github.branches[i].name.clone(), pipelines: pipes },
        );
        i += 1;
    }
    PipelineMap { entries }
}

} // verus!
