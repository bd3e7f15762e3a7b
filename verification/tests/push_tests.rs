use artifact_builder::build::build_pipelines;
use artifact_builder::build::pipeline::initial_run_state;
use artifact_builder::build::pipeline::next_action;
use artifact_builder::build::pipeline::Phase;
use artifact_builder::build::pipeline::RunEvent;
use artifact_builder::build::pipeline::RunState;
use artifact_builder::build::PipelineMap;
use artifact_builder::config::BranchAndRelease;
use artifact_builder::config::Build;
use artifact_builder::config::BuildConfig;
use artifact_builder::config::Config;
use artifact_builder::config::DefaultBuild;
use artifact_builder::config::GithubConfig;
use artifact_builder::config::WebConfig;
use artifact_builder::github::model::GetReleaseRoot;
use artifact_builder::github::model::Owner;
use artifact_builder::github::model::Repository;
use artifact_builder::github::model::Root;
use artifact_builder::github::model::Sender;
use artifact_builder::push::route_push;
use artifact_builder::push::strip_refs_heads;
use artifact_builder::push::PushDecision;
use artifact_builder::supervisor::SubmitOutcome;
use artifact_builder::supervisor::Supervisor;

fn flavor(build_dir: &str, asset_name: &str) -> Build {
    Build {
        pre_cmake_commands: None,
        cmake_args: vec![],
        pre_package_commands: None,
        package_envs: vec![],
        pre_dmg_commands: None,
        build_dir: build_dir.to_string(),
        asset_name: asset_name.to_string(),
    }
}

fn sample_config() -> Config {
    Config {
        web: WebConfig { base_url: "/".to_string(), bind: vec!["127.0.0.1:8080".to_string()] },
        github: GithubConfig {
            token: "t".to_string(),
            verify_signature: false,
            secret: "s".to_string(),
            repo_owner: "owner".to_string(),
            repo_name: "repo".to_string(),
            branches: vec![BranchAndRelease { name: "master".to_string(), release_id: 42 }],
        },
        build: BuildConfig {
            repo_dir: "/var/lib/builder/repo".to_string(),
            dmg_output_path: "chatterino-osx.dmg".to_string(),
            default_config: DefaultBuild { cmake_args: vec![], package_envs: vec![] },
            configs: vec![flavor("build-a", "Chatterino-a.dmg"), flavor("build-b", "Chatterino-b.dmg")],
        },
    }
}

fn payload(full_name: &str, push_ref: &str) -> Root {
    Root {
        push_ref: push_ref.to_string(),
        before: "0000".to_string(),
        after: "ffff".to_string(),
        repository: Repository {
            id: 1,
            name: "repo".to_string(),
            full_name: full_name.to_string(),
            owner: Owner {
                id: 2,
                name: "owner".to_string(),
                email: None,
                login: "owner".to_string(),
            },
            description: None,
            fork: false,
            created_at: 0,
            updated_at: String::new(),
            pushed_at: 0,
            default_branch: "master".to_string(),
            master_branch: "master".to_string(),
        },
        sender: Sender { id: 3, login: "owner".to_string(), url: String::new() },
    }
}

fn empty_release() -> GetReleaseRoot {
    GetReleaseRoot {
        id: 42,
        url: String::new(),
        tag_name: "nightly".to_string(),
        name: "Nightly".to_string(),
        body: String::new(),
        draft: false,
        prerelease: true,
        assets: vec![],
    }
}

#[test]
fn strip_keeps_only_branch_refs() {
    assert_eq!(strip_refs_heads("refs/heads/master"), Some("master".to_string()));
    assert_eq!(strip_refs_heads("refs/heads/feat/x"), Some("feat/x".to_string()));
    assert_eq!(strip_refs_heads("refs/heads/"), Some(String::new()));
    assert_eq!(strip_refs_heads("refs/tags/v1.0"), None);
    assert_eq!(strip_refs_heads("master"), None);
}

#[test]
fn push_for_another_repository_is_rejected() {
    let cfg = sample_config();
    let map = build_pipelines(&cfg);
    let p = payload("someone/else", "refs/heads/master");
    assert_eq!(route_push(&p, "owner", "repo", &map), PushDecision::WrongRepository);
}

#[test]
fn non_branch_push_is_ignored() {
    let cfg = sample_config();
    let map = build_pipelines(&cfg);
    let p = payload("owner/repo", "refs/tags/v2.5.2");
    assert_eq!(route_push(&p, "owner", "repo", &map), PushDecision::NonBranchRef);
}

#[test]
fn map_mirrors_the_configuration() {
    let cfg = sample_config();
    let map = build_pipelines(&cfg);
    assert_eq!(map.entries.len(), 1);
    assert_eq!(map.entries[0].branch, "master");
    assert_eq!(map.entries[0].pipelines.len(), 2);
    assert_eq!(map.entries[0].pipelines[0].asset_name, "Chatterino-a.dmg");
    assert_eq!(map.entries[0].pipelines[0].release_id, 42);
    assert_eq!(map.entries[0].pipelines[1].build_dir, "/var/lib/builder/repo/build-b");
}

#[test]
fn push_to_unconfigured_branch_spawns_no_job() {
    let cfg = sample_config();
    let map = build_pipelines(&cfg);
    let p = payload("owner/repo", "refs/heads/feature");
    let decision = route_push(&p, "owner", "repo", &map);
    assert_eq!(decision, PushDecision::BranchNotConfigured);
    // The boundary submits nothing for such a decision; an empty submission
    // is the same informational no-op.
    let mut supervisor = Supervisor::new();
    assert_eq!(supervisor.submit(0), SubmitOutcome::NotConfigured);
    assert_eq!(supervisor.current, None);
}

#[test]
fn branch_with_empty_pipeline_list_is_not_configured() {
    let mut cfg = sample_config();
    cfg.build.configs = vec![];
    let map = build_pipelines(&cfg);
    let p = payload("owner/repo", "refs/heads/master");
    assert_eq!(route_push(&p, "owner", "repo", &map), PushDecision::BranchNotConfigured);
}

#[test]
fn failing_pipeline_does_not_stop_its_sibling() {
    let cfg = sample_config();
    let map = build_pipelines(&cfg);
    let p = payload("owner/repo", "refs/heads/master");
    let decision = route_push(&p, "owner", "repo", &map);
    assert_eq!(decision, PushDecision::RunPipelines { entry: 0 });
    let pipelines = &map.entries[0].pipelines;
    let mut supervisor = Supervisor::new();
    assert_eq!(
        supervisor.submit(pipelines.len()),
        SubmitOutcome::Spawned { job: 0, cancel: None }
    );

    // First pipeline: its compile step exits with code 2.
    let first = &pipelines[0];
    let plan = first.command_plan();
    let compile = plan.iter().position(|pc| pc.phase == Phase::Compile).unwrap();
    let mut st = initial_run_state();
    st = first.step(&plan, st, RunEvent::SyncFinished { ok: true });
    st = first.step(&plan, st, RunEvent::PrepareFinished { ok: true });
    while let RunState::Running { step } = st {
        let code = if step == compile { Some(2) } else { Some(0) };
        st = first.step(&plan, st, RunEvent::CommandExited { code });
        if matches!(st, RunState::Failed { .. }) {
            break;
        }
    }
    assert_eq!(st, RunState::Failed { phase: Phase::Compile });

    // The failure is logged, not propagated: the second pipeline still runs
    // to completion.
    let second = &pipelines[1];
    let plan2 = second.command_plan();
    let mut st2 = initial_run_state();
    st2 = second.step(&plan2, st2, RunEvent::SyncFinished { ok: true });
    st2 = second.step(&plan2, st2, RunEvent::PrepareFinished { ok: true });
    while matches!(st2, RunState::Running { .. }) {
        st2 = second.step(&plan2, st2, RunEvent::CommandExited { code: Some(0) });
    }
    assert_eq!(st2, RunState::FetchingAssets);
    st2 = second.step(&plan2, st2, RunEvent::AssetsFetched { release: empty_release() });
    assert_eq!(st2, RunState::Uploading);
}

#[test]
fn newer_push_cancels_the_job_mid_compile() {
    let cfg = sample_config();
    let map = build_pipelines(&cfg);
    let p = payload("owner/repo", "refs/heads/master");
    assert_eq!(route_push(&p, "owner", "repo", &map), PushDecision::RunPipelines { entry: 0 });
    let pipelines = &map.entries[0].pipelines;
    let mut supervisor = Supervisor::new();
    let first_submit = supervisor.submit(pipelines.len());
    assert_eq!(first_submit, SubmitOutcome::Spawned { job: 0, cancel: None });

    // Job 0 reaches its compile step.
    let pipeline = &pipelines[0];
    let plan = pipeline.command_plan();
    let compile = plan.iter().position(|pc| pc.phase == Phase::Compile).unwrap();
    let mut st = initial_run_state();
    st = pipeline.step(&plan, st, RunEvent::SyncFinished { ok: true });
    st = pipeline.step(&plan, st, RunEvent::PrepareFinished { ok: true });
    while let RunState::Running { step } = st {
        if step == compile {
            break;
        }
        st = pipeline.step(&plan, st, RunEvent::CommandExited { code: Some(0) });
    }
    assert_eq!(st, RunState::Running { step: compile });

    // A second push to master arrives: the new job takes the slot and the
    // old one's cancellation is ordered.
    let second_submit = supervisor.submit(pipelines.len());
    assert_eq!(second_submit, SubmitOutcome::Spawned { job: 1, cancel: Some(0) });
    assert_eq!(supervisor.current, Some(1));

    // Job 0 observes the cancellation at its next suspension point and
    // performs no further phase.
    st = pipeline.step(&plan, st, RunEvent::Cancelled);
    assert_eq!(st, RunState::Cancelled);
    assert_eq!(next_action(st), None);
}

#[test]
fn lookup_finds_only_configured_branches() {
    let cfg = sample_config();
    let map: PipelineMap = build_pipelines(&cfg);
    assert_eq!(map.lookup("master"), Some(0));
    assert_eq!(map.lookup("develop"), None);
}
