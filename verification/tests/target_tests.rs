use agentbox::error::AgentboxError;
use agentbox::metadata::{AgentboxContainerKind, LABEL_GIT_ROOT, LABEL_GIT_ROOT_HASH};
use agentbox::session::record::{SessionMetadata, SessionRecord};
use agentbox::session::status::SessionStatus;
use agentbox::session::target::{
    require_force_for_duplicate_matches, resolved_session_target, select_agentbox_stable_id_target, HealthSessionTargetPlan,
    ResolvedSessionTarget, RestartSessionTargetPlan, StableIdTargetAction, StopExactGitRootTarget,
    StopExactGitRootTargetMode, StopSessionTargetPlan,
};
use agentbox::string_map::StringMap;

fn session(canonical_git_root: Option<&str>, stable_id: &str, name: &str, status: SessionStatus) -> SessionRecord {
    let mut labels = StringMap::new();
    labels.insert(LABEL_GIT_ROOT_HASH.to_string(), stable_id.to_string());
    if let Some(root) = canonical_git_root {
        labels.insert(LABEL_GIT_ROOT.to_string(), root.to_string());
    }
    SessionRecord::new(
        format!("{name}-id"),
        name.to_string(),
        AgentboxContainerKind::Managed,
        SessionMetadata::from_labels(&labels),
        None,
        status == SessionStatus::Running,
        status,
    )
}

fn rooted(root: Option<&str>, stable_id: &str) -> SessionRecord {
    session(root, stable_id, &format!("agentbox-{stable_id}"), SessionStatus::Running)
}

// ---------------------------------------------------------------------------
// Health
// ---------------------------------------------------------------------------

#[test]
fn running_sessions_plan_filters_out_non_running_sessions() {
    let sessions = vec![
        session(None, "abcdef123456", "running", SessionStatus::Running),
        session(None, "fedcba654321", "stopped", SessionStatus::failed_unknown()),
        session(None, "aaaaaa111111", "failed", SessionStatus::failed_unknown()),
    ];

    let selected = HealthSessionTargetPlan::RunningSessions
        .select_sessions(&sessions)
        .unwrap()
        .into_iter()
        .map(|session| session.container_name())
        .collect::<Vec<_>>();

    assert_eq!(selected, ["running"]);
}

#[test]
fn stable_id_prefix_plan_selects_one_running_session() {
    let sessions = vec![
        session(None, "abcdef123456", "selected", SessionStatus::Running),
        session(None, "fedcba654321", "other", SessionStatus::Running),
    ];

    let plan = HealthSessionTargetPlan::from_target(Some("abc"), None).unwrap();
    let selected = plan.select_sessions(&sessions).unwrap();

    assert_eq!(selected.len(), 1);
    assert_eq!(selected[0].container_name(), "selected");
}

#[test]
fn stable_id_prefix_plan_rejects_duplicate_sessions_for_one_id() {
    let sessions = vec![
        session(None, "abcdef123456", "first", SessionStatus::Running),
        session(None, "abcdef123456", "second", SessionStatus::Running),
    ];

    let error = HealthSessionTargetPlan::from_target(Some("abc"), None).unwrap().select_sessions(&sessions).unwrap_err();

    assert!(error.message().contains("health requires a single running session"));
}

#[test]
fn stable_id_prefix_plan_rejects_non_running_session() {
    let sessions = vec![session(None, "abcdef123456", "stopped", SessionStatus::failed_unknown())];

    let error = HealthSessionTargetPlan::from_target(Some("abc"), None).unwrap().select_sessions(&sessions).unwrap_err();

    assert!(error.message().contains("health only probes running sessions"));
    assert_eq!(error.message(), "managed session `abcdef123456` is `failed`; health only probes running sessions");
}

#[test]
fn workspace_plan_needs_exactly_one_running_session() {
    let plan = HealthSessionTargetPlan::from_target(Some("/workspace/project"), Some(Ok("/workspace/project".to_string()))).unwrap();
    assert_eq!(plan, HealthSessionTargetPlan::Workspace("/workspace/project".to_string()));

    let none = plan.select_sessions(&[]).unwrap_err();
    assert_eq!(none.message(), "no running managed session matches target `/workspace/project`");

    let one = vec![session(Some("/workspace/project"), "abcdef123456", "one", SessionStatus::Running)];
    assert_eq!(plan.select_sessions(&one).unwrap().len(), 1);

    let two = vec![
        session(Some("/workspace/project"), "abcdef123456", "one", SessionStatus::Running),
        session(Some("/workspace/project"), "abcdef123456", "two", SessionStatus::Running),
    ];
    assert_eq!(
        plan.select_sessions(&two).unwrap_err().message(),
        "workspace target `/workspace/project` matches multiple managed sessions; health requires a single running session"
    );
}

#[test]
fn health_plan_without_target_probes_running_sessions() {
    assert_eq!(HealthSessionTargetPlan::from_target(None, None).unwrap(), HealthSessionTargetPlan::RunningSessions);
    let error = AgentboxError::EscapedGitTarget { target: "/x".to_string(), git_root: "/y".to_string() };
    assert_eq!(HealthSessionTargetPlan::from_target(Some("/x"), Some(Err(error.clone()))), Err(error));
}

// ---------------------------------------------------------------------------
// Stable id targets
// ---------------------------------------------------------------------------

#[test]
fn stable_id_target_returns_the_single_recoverable_git_root() {
    let sessions = vec![rooted(Some("/workspace/project"), "abcdef123456")];
    let selection = select_agentbox_stable_id_target(&sessions, "abcdef").unwrap();

    assert_eq!(selection.single_recoverable_git_root(StableIdTargetAction::Restart).unwrap(), "/workspace/project");
}

#[test]
fn stable_id_target_rejects_single_root_when_only_unrooted_matches_exist() {
    let sessions = vec![rooted(None, "abcdef123456")];
    let selection = select_agentbox_stable_id_target(&sessions, "abcdef").unwrap();

    let error = selection.single_recoverable_git_root(StableIdTargetAction::Restart).unwrap_err();

    assert!(error.message().contains("no matched container has a recoverable git-root label"));
}

#[test]
fn stable_id_target_rejects_single_root_when_multiple_roots_match() {
    let sessions = vec![rooted(Some("/workspace/first"), "abcdef123456"), rooted(Some("/workspace/second"), "abcdef123456")];
    let selection = select_agentbox_stable_id_target(&sessions, "abcdef").unwrap();

    let error = selection.single_recoverable_git_root(StableIdTargetAction::Restart).unwrap_err();

    assert!(error.message().contains("matches containers with multiple git roots"));
}

#[test]
fn stable_id_target_requires_all_sessions_to_be_rooted_for_group_cleanup() {
    let sessions = vec![rooted(Some("/workspace/project"), "abcdef123456"), rooted(None, "abcdef123456")];
    let selection = select_agentbox_stable_id_target(&sessions, "abcdef").unwrap();

    let error = selection.into_all_rooted_sessions(StableIdTargetAction::Stop).unwrap_err();

    assert!(error.message().contains("includes matched containers without a recoverable git-root label"));
}

#[test]
fn stable_id_target_keeps_all_rooted_matches_for_group_cleanup() {
    let sessions = vec![rooted(Some("/workspace/project"), "abcdef123456"), rooted(Some("/workspace/project"), "abcdef123456")];
    let selection = select_agentbox_stable_id_target(&sessions, "abcdef").unwrap();

    let all = selection.into_all_rooted_sessions(StableIdTargetAction::Stop).unwrap();

    assert_eq!(all.len(), 2);
}

// ---------------------------------------------------------------------------
// Restart targets
// ---------------------------------------------------------------------------

#[test]
fn restart_target_plan_uses_the_single_recoverable_stable_id_git_root() {
    let target = ResolvedSessionTarget::StableId("abcdef".to_string());
    let sessions = vec![rooted(Some("/workspace/project"), "abcdef123456")];

    let plan = RestartSessionTargetPlan::resolve("abcdef".to_string(), &target, &sessions).unwrap();

    assert_eq!(plan.lock_git_root(), "/workspace/project");
}

#[test]
fn restart_target_plan_rejects_unrooted_stable_id_matches() {
    let target = ResolvedSessionTarget::StableId("abcdef".to_string());
    let sessions = vec![rooted(None, "abcdef123456")];

    let error = RestartSessionTargetPlan::resolve("abcdef".to_string(), &target, &sessions).unwrap_err();

    assert!(error.message().contains("no matched container has a recoverable git-root label"));
}

#[test]
fn restart_target_plan_rejects_stable_id_matches_across_multiple_git_roots() {
    let target = ResolvedSessionTarget::StableId("abcdef".to_string());
    let sessions = vec![rooted(Some("/workspace/first"), "abcdef123456"), rooted(Some("/workspace/second"), "abcdef123456")];

    let error = RestartSessionTargetPlan::resolve("abcdef".to_string(), &target, &sessions).unwrap_err();

    assert!(error.message().contains("matches containers with multiple git roots"));
}

#[test]
fn restart_target_plan_revalidates_stable_id_under_locked_root() {
    let target = ResolvedSessionTarget::StableId("abcdef".to_string());
    let sessions = || vec![rooted(Some("/workspace/project"), "abcdef123456")];
    let plan = RestartSessionTargetPlan::resolve("abcdef".to_string(), &target, &sessions()).unwrap();
    assert!(!RestartSessionTargetPlan::discovers_locked_root_sessions(&target));

    let selected = plan.select_session_candidate(&target, "/workspace/project", sessions()).unwrap();
    assert_eq!(selected.container_name, "agentbox-abcdef123456");

    let error = plan.select_session_candidate(&target, "/workspace/other", sessions()).unwrap_err();

    assert!(error.message().contains("changed away"));
}

#[test]
fn restart_target_plan_refuses_a_target_that_moved_while_waiting() {
    let target = ResolvedSessionTarget::ResolvedGitRoot("/workspace/project".to_string());
    let plan = RestartSessionTargetPlan::resolve("/workspace/project".to_string(), &target, &[]).unwrap();
    assert_eq!(plan.lock_git_root(), "/workspace/project");
    assert!(RestartSessionTargetPlan::discovers_locked_root_sessions(&target));

    let moved = ResolvedSessionTarget::ResolvedGitRoot("/workspace/other".to_string());
    assert_eq!(
        plan.select_session_candidate(&moved, "/workspace/project", vec![]).unwrap_err().message(),
        "restart target changed from `/workspace/project` to `/workspace/other` while waiting for the workspace lock; retry the command"
    );
    assert_eq!(
        plan.select_session_candidate(&target, "/workspace/project", vec![]).unwrap_err().message(),
        "no running managed session matches restart target `/workspace/project`"
    );
    let duplicates = vec![rooted(Some("/workspace/project"), "abcdef123456"), rooted(Some("/workspace/project"), "abcdef123456")];
    assert_eq!(
        plan.select_session_candidate(&target, "/workspace/project", duplicates).unwrap_err(),
        AgentboxError::RestartAmbiguous { target: "/workspace/project".to_string(), count: 2 }
    );
}

// ---------------------------------------------------------------------------
// Stop targets
// ---------------------------------------------------------------------------

#[test]
fn existing_cli_target_becomes_scoped_exact_git_root_plan() {
    let target = ResolvedSessionTarget::ResolvedGitRoot("/tmp/sandbox".to_string());

    let StopSessionTargetPlan::ExactGitRoot(plan) = StopSessionTargetPlan::resolve(&target, &[]).unwrap() else {
        panic!("expected exact git-root stop plan");
    };

    assert!(plan.uses_locked_root_scope());
    assert_eq!(plan.git_root(), "/tmp/sandbox");
}

#[test]
fn missing_absolute_cli_target_becomes_exact_stored_path_plan() {
    let target = ResolvedSessionTarget::ExactStoredGitRootPath("/missing/workspace".to_string());

    let StopSessionTargetPlan::ExactGitRoot(plan) = StopSessionTargetPlan::resolve(&target, &[]).unwrap() else {
        panic!("expected exact git-root stop plan");
    };

    assert!(!plan.uses_locked_root_scope());
    assert_eq!(plan.git_root(), "/missing/workspace");
    assert_eq!(
        plan.require_non_empty_matches(&[]).unwrap_err().message(),
        "no agentbox container exists for exact stored git-root path `/missing/workspace`"
    );
}

#[test]
fn stable_id_plan_keeps_all_rooted_matching_sessions() {
    let target = ResolvedSessionTarget::StableId("abcdef".to_string());
    let sessions = vec![
        session(Some("/workspace/project"), "abcdef123456", "first", SessionStatus::Running),
        session(Some("/workspace/project"), "abcdef123456", "second", SessionStatus::Running),
    ];

    let StopSessionTargetPlan::StableId(plan) = StopSessionTargetPlan::resolve(&target, &sessions).unwrap() else {
        panic!("expected stable-id stop plan");
    };

    assert_eq!(plan.id(), "abcdef123456");
    assert!(plan.require_force(false, "abcdef").is_err());
    assert!(plan.require_force(true, "abcdef").is_ok());
    assert_eq!(plan.into_sessions().len(), 2);
}

#[test]
fn stable_id_plan_rejects_unrooted_matches() {
    let target = ResolvedSessionTarget::StableId("abcdef".to_string());
    let sessions = vec![session(None, "abcdef123456", "unrooted", SessionStatus::Running)];

    let error = StopSessionTargetPlan::resolve(&target, &sessions).unwrap_err();

    assert!(error.message().contains("no matched container has a recoverable git-root label"));
}

#[test]
fn duplicate_stop_matches_need_force() {
    let target = StopExactGitRootTarget { git_root: "/workspace/project".to_string(), mode: StopExactGitRootTargetMode::Scoped };
    assert_eq!(
        target.require_force_for_matches(2, false, "/workspace/project").unwrap_err().message(),
        "duplicate agentbox containers exist for `/workspace/project`; rerun `agentbox stop --force /workspace/project` to remove all exact matches"
    );
    assert!(target.require_force_for_matches(2, true, "/workspace/project").is_ok());
    assert!(target.require_force_for_matches(1, false, "/workspace/project").is_ok());
    assert!(require_force_for_duplicate_matches(false, false, "x", "y").is_ok());
}

#[test]
fn session_targets_resolve_by_existence_then_absoluteness() {
    assert_eq!(
        resolved_session_target("./here", Some("/workspace/project".to_string())),
        ResolvedSessionTarget::ResolvedGitRoot("/workspace/project".to_string())
    );
    assert_eq!(
        resolved_session_target("/missing/workspace", None),
        ResolvedSessionTarget::ExactStoredGitRootPath("/missing/workspace".to_string())
    );
    assert_eq!(resolved_session_target("abcdef", None), ResolvedSessionTarget::StableId("abcdef".to_string()));
}
