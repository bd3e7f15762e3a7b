//! Static configuration read once at process start: which repository to
//! watch, which branches trigger builds, and how each build flavor is
//! configured. Parsing the configuration file is the boundary's job; the
//! validation that makes a parsed configuration usable lives here.

use vstd::prelude::*;

verus! {

/// A branch that triggers builds, and the release its artifacts go to.
#[derive(Clone, Debug)]
pub struct BranchAndRelease {
    pub name: String,
    pub release_id: u64,
}

/// One environment-variable override handed to packaging commands.
#[derive(Clone, Debug)]
pub struct EnvironmentVariable {
    pub key: String,
    pub value: String,
}

impl DeepView for EnvironmentVariable {
    type V = (Seq<char>, Seq<char>);

    open spec fn deep_view(&self) -> (Seq<char>, Seq<char>) {
        (self.key@, self.value@)
    }
}

/// Appends a copy of every override in `src` to `dst`, in order.
pub fn extend_envs(dst: &mut Vec<EnvironmentVariable>, src: &Vec<EnvironmentVariable>)
    ensures
        final(dst).deep_view() == old(dst).deep_view() + src.deep_view(),
{
    let n = src.len();
    let ghost orig = dst.deep_view();
    let mut i: usize = 0;
    while i < n
        invariant
            i <= n,
            n == src@.len(),
            dst.deep_view() =~= orig + src.deep_view().take(i as int),
        decreases n - i,
    {
        let e = EnvironmentVariable { key: src[i].key.clone(), value: src[i].value.clone() };
        let ghost pre = dst@;
        let ghost pre_dv = dst.deep_view();
        dst.push(e);
        proof {
            assert(forall|j: int| 0 <= j < pre.len() ==> dst@[j] == pre[j]);
            assert(dst.deep_view() =~= pre_dv.push(src@[i as int].deep_view()));
            assert(src.deep_view().take(i as int + 1) =~= src.deep_view().take(i as int).push(
                src@[i as int].deep_view(),
            ));
            assert(dst.deep_view() =~= orig + src.deep_view().take(i as int + 1));
        }
        i += 1;
    }
    proof {
        assert(orig + src.deep_view().take(n as int) =~= orig + src.deep_view());
    }
}

/// Configure arguments and environment overrides shared by every build flavor.
#[derive(Clone, Debug)]
pub struct DefaultBuild {
    pub cmake_args: Vec<String>,
    pub package_envs: Vec<EnvironmentVariable>,
}

/// One build flavor: its extra commands, arguments, environment overrides,
/// build directory and asset name.
#[derive(Clone, Debug)]
pub struct Build {
    pub pre_cmake_commands: Option<Vec<String>>,
    pub cmake_args: Vec<String>,
    pub pre_package_commands: Option<Vec<String>>,
    pub package_envs: Vec<EnvironmentVariable>,
    pub pre_dmg_commands: Option<Vec<String>>,
    pub build_dir: String,
    pub asset_name: String,
}

/// Coordinates and credentials for the remote platform.
#[derive(Clone, Debug)]
pub struct GithubConfig {
    pub token: String,
    pub verify_signature: bool,
    pub secret: String,
    pub repo_owner: String,
    pub repo_name: String,
    pub branches: Vec<BranchAndRelease>,
}

/// Where the HTTP boundary listens.
#[derive(Clone, Debug)]
pub struct WebConfig {
    pub base_url: String,
    pub bind: Vec<String>,
}

/// Everything the build side needs: directories and the per-flavor configs.
#[derive(Clone, Debug)]
pub struct BuildConfig {
    pub repo_dir: String,
    pub dmg_output_path: String,
    pub default_config: DefaultBuild,
    pub configs: Vec<Build>,
}

/// The whole parsed configuration.
#[derive(Clone, Debug)]
pub struct Config {
    pub web: WebConfig,
    pub github: GithubConfig,
    pub build: BuildConfig,
}

/// Copies a list of configured lines, preserving its characters.
fn duplicate_lines(lines: &Option<Vec<String>>) -> (r: Option<Vec<String>>)
    ensures
        r.deep_view() == lines.deep_view(),
{
    match lines {
        Some(v) => {
            let mut copy: Vec<String> = Vec::new();
            crate::text::extend_strings(&mut copy, v);
            proof {
                assert(copy.deep_view() =~= v.deep_view());
            }
            Some(copy)
        },
        None => None,
    }
}

impl Build {
    /// A copy of this build flavor, preserved character for character; one
    /// pipeline per (branch, flavor) pair needs its own copy.
    pub fn duplicate(&self) -> (r: Build)
        ensures
            r.pre_cmake_commands.deep_view() == self.pre_cmake_commands.deep_view(),
            r.cmake_args.deep_view() == self.cmake_args.deep_view(),
            r.pre_package_commands.deep_view() == self.pre_package_commands.deep_view(),
            r.package_envs.deep_view() == self.package_envs.deep_view(),
            r.pre_dmg_commands.deep_view() == self.pre_dmg_commands.deep_view(),
            r.build_dir@ == self.build_dir@,
            r.asset_name@ == self.asset_name@,
    {
        let mut cmake_args: Vec<String> = Vec::new();
        crate::text::extend_strings(&mut cmake_args, &self.cmake_args);
        let mut package_envs: Vec<EnvironmentVariable> = Vec::new();
        extend_envs(&mut package_envs, &self.package_envs);
        proof {
            assert(cmake_args.deep_view() =~= self.cmake_args.deep_view());
            assert(package_envs.deep_view() =~= self.package_envs.deep_view());
        }
        Build {
            pre_cmake_commands: duplicate_lines(&self.pre_cmake_commands),
            cmake_args,
            pre_package_commands: duplicate_lines(&self.pre_package_commands),
            package_envs,
            pre_dmg_commands: duplicate_lines(&self.pre_dmg_commands),
            build_dir: self.build_dir.clone(),
            asset_name: self.asset_name.clone(),
        }
    }
}

/// Why a parsed configuration is unusable.
#[derive(Clone, Copy, Debug, PartialEq, Eq, Structural)]
pub enum ConfigError {
    /// The bind list is empty: the server would listen nowhere.
    NoBindInterface,
    /// The build config list is empty: no pipeline could ever be built.
    NoBuildConfigs,
}

/// A configuration is usable when it names at least one bind interface and
/// at least one build flavor.
pub open spec fn spec_valid(cfg: Config) -> bool {
    cfg.web.bind@.len() > 0 && cfg.build.configs@.len() > 0
}

/// Accepts a configuration if and only if it is usable; the error names the
/// first check that failed, bind interfaces before build configs.
pub fn validate(cfg: &Config) -> (r: Result<(), ConfigError>)
    ensures
        r is Ok <==> spec_valid(*cfg),
        cfg.web.bind@.len() == 0 ==> r == Result::<(), ConfigError>::Err(ConfigError::NoBindInterface),
        cfg.web.bind@.len() > 0 && cfg.build.configs@.len() == 0 ==> r == Result::<(), ConfigError>::Err(ConfigError::NoBuildConfigs),
{
    if cfg.web.bind.len() == 0 {
        Err(ConfigError::NoBindInterface)
    } else if cfg.build.configs.len() == 0 {
        Err(ConfigError::NoBuildConfigs)
    } else {
        Ok(())
    }
}

} // verus!
