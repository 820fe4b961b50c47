use agentbox::metadata::{
    managed_session_labels, AgentboxContainerKind, SessionLabelInput, LABEL_ATTACH_SCHEME, LABEL_CONTAINER_LISTEN_IP,
    LABEL_CONTAINER_PORT, LABEL_GIT_ROOT, LABEL_GIT_ROOT_HASH, LABEL_LAUNCH_DIRECTORY, LABEL_RUNTIME,
};
use agentbox::runtime::kind::RuntimeKind;
use agentbox::runtime::spec::AttachEndpoint;
use agentbox::session::collection::{exact_git_root_matches, partition_sessions_by_git_root, sorted_session_refs_by_identity};
use agentbox::session::git_root::{GitRootAnswer, GitRootCheckStep, GitRootOrphanCheck, GitRootQuery};
use agentbox::session::labels::{AttachLabels, SessionLabelReport};
use agentbox::session::readiness::prepare_restart_session;
use agentbox::session::record::{SessionMetadata, SessionRecord};
use agentbox::session::status::{SessionFailure, SessionStatus};
use agentbox::session::target_candidate::SessionTargetKind;
use agentbox::string_map::StringMap;
use agentbox::workspace::git_root_hash12;

fn labels_of(pairs: &[(&str, &str)]) -> StringMap {
    let mut labels = StringMap::new();
    for (key, value) in pairs {
        labels.insert(key.to_string(), value.to_string());
    }
    labels
}

// ---------------------------------------------------------------------------
// Collections
// ---------------------------------------------------------------------------

fn rooted_session(root: Option<&str>, container_name: &str) -> SessionRecord {
    let labels = match root {
        Some(root) => labels_of(&[(LABEL_GIT_ROOT, root)]),
        None => StringMap::new(),
    };
    SessionRecord::new(
        format!("{container_name}-id"),
        container_name.to_string(),
        AgentboxContainerKind::Managed,
        SessionMetadata::from_labels(&labels),
        None,
        false,
        SessionStatus::failed_unknown(),
    )
}

#[test]
fn sorted_session_refs_by_identity_orders_by_root_then_container() {
    let sessions = vec![
        rooted_session(Some("/workspace/b"), "beta"),
        rooted_session(Some("/workspace/a"), "second"),
        rooted_session(None, "unknown"),
        rooted_session(Some("/workspace/a"), "first"),
    ];

    let sorted = sorted_session_refs_by_identity(&sessions)
        .into_iter()
        .map(|session| session.container_name())
        .collect::<Vec<_>>();

    assert_eq!(sorted, ["unknown", "first", "second", "beta"]);
}

#[test]
fn exact_git_root_matches_requires_the_full_canonical_root() {
    let sessions = vec![
        rooted_session(Some("/workspace/a"), "match"),
        rooted_session(Some("/workspace/ab"), "prefix-only"),
        rooted_session(None, "unknown"),
    ];

    let matches = exact_git_root_matches(sessions, "/workspace/a")
        .into_iter()
        .map(|session| session.container_name().to_string())
        .collect::<Vec<_>>();

    assert_eq!(matches, ["match"]);
}

#[test]
fn partition_sessions_by_git_root_keeps_unrooted_sessions_separate() {
    let partition = partition_sessions_by_git_root(vec![
        rooted_session(Some("/workspace/b"), "beta"),
        rooted_session(None, "unknown"),
        rooted_session(Some("/workspace/a"), "alpha"),
    ]);

    let roots = partition.rooted.iter().map(|group| group.canonical_git_root.as_str()).collect::<Vec<_>>();
    let unrooted = partition.unrooted.iter().map(|session| session.container_name()).collect::<Vec<_>>();

    assert_eq!(roots, ["/workspace/a", "/workspace/b"]);
    assert_eq!(unrooted, ["unknown"]);
}

#[test]
fn partition_orders_roots_by_path_components() {
    let partition = partition_sessions_by_git_root(vec![
        rooted_session(Some("/a-b"), "dash"),
        rooted_session(Some("/a/b"), "nested"),
    ]);

    let roots = partition.rooted.iter().map(|group| group.canonical_git_root.as_str()).collect::<Vec<_>>();

    assert_eq!(roots, ["/a/b", "/a-b"]);
}

#[test]
fn partition_groups_roots_that_are_the_same_path() {
    let partition = partition_sessions_by_git_root(vec![
        rooted_session(Some("/w/a/"), "first"),
        rooted_session(Some("/w/b"), "other"),
        rooted_session(Some("/w//a"), "second"),
    ]);

    let groups = partition
        .rooted
        .iter()
        .map(|group| {
            (
                group.canonical_git_root.as_str(),
                group.sessions.iter().map(|session| session.container_name()).collect::<Vec<_>>(),
            )
        })
        .collect::<Vec<_>>();

    assert_eq!(groups, [("/w/a/", vec!["first", "second"]), ("/w/b", vec!["other"])]);
}

#[test]
fn exact_git_root_matches_compares_path_components() {
    let sessions = vec![
        rooted_session(Some("/w/a/"), "trailing-slash"),
        rooted_session(Some("/w/./a"), "dot"),
        rooted_session(Some("/w/a-b"), "other"),
    ];

    let matches = exact_git_root_matches(sessions, "/w/a")
        .into_iter()
        .map(|session| session.container_name().to_string())
        .collect::<Vec<_>>();

    assert_eq!(matches, ["trailing-slash", "dot"]);
}

// ---------------------------------------------------------------------------
// Labels
// ---------------------------------------------------------------------------

const GIT_ROOT: &str = "/workspace/project";
const CONTAINER_NAME: &str = "agentbox-project";

fn valid_labels() -> StringMap {
    let git_root_hash = git_root_hash12(GIT_ROOT);
    managed_session_labels(&SessionLabelInput {
        canonical_git_root: GIT_ROOT,
        git_root_hash: git_root_hash.as_str(),
        runtime: RuntimeKind::Opencode,
        image: "localhost/agentbox-opencode:ctx-0123456789abcdef",
        launch_directory: GIT_ROOT,
        logical_name: CONTAINER_NAME,
    })
}

#[test]
fn report_propagates_identity_failure_to_required_labels() {
    let mut labels = valid_labels();
    labels.insert(LABEL_GIT_ROOT_HASH.to_string(), "not-the-current-hash".to_string());
    let metadata = SessionMetadata::from_labels(&labels);
    let report = SessionLabelReport::from_metadata(&metadata);

    assert_eq!(report.identity_failure(), Some(SessionFailure::DriftedGitRootHash));
    assert_eq!(report.required_failure(), Some(SessionFailure::DriftedGitRootHash));
}

#[test]
fn report_keeps_required_metadata_failures_separate_from_identity() {
    let mut labels = valid_labels();
    labels.insert(LABEL_LAUNCH_DIRECTORY.to_string(), "/outside".to_string());
    let metadata = SessionMetadata::from_labels(&labels);
    let report = SessionLabelReport::from_metadata(&metadata);

    assert!(report.identity_failure().is_none());
    assert_eq!(report.required_failure(), Some(SessionFailure::MalformedLaunchDirectory));
}

#[test]
fn report_of_valid_labels_has_no_failure() {
    let metadata = SessionMetadata::from_labels(&valid_labels());
    let report = SessionLabelReport::from_metadata(&metadata);

    assert!(report.identity_failure().is_none());
    assert!(report.required_failure().is_none());
    assert!(report.attach_failure().is_none());
}

#[test]
fn runtime_kind_only_depends_on_the_runtime_label() {
    let metadata = SessionMetadata::from_labels(&labels_of(&[
        (LABEL_RUNTIME, RuntimeKind::Opencode.as_str()),
        (LABEL_ATTACH_SCHEME, "ftp"),
        (LABEL_CONTAINER_PORT, "not-a-port"),
        (LABEL_CONTAINER_LISTEN_IP, "127.0.0.1"),
    ]));
    let session = SessionRecord {
        container_id: "container-id".to_string(),
        container_name: "agentbox-example".to_string(),
        container_kind: AgentboxContainerKind::Managed,
        metadata,
        attach_endpoint: None,
        container_running: false,
        status: SessionStatus::failed_unknown(),
    };

    assert_eq!(session.runtime_kind(), Some(RuntimeKind::Opencode));
    assert!(AttachLabels::from_session_labels(&session.metadata).is_err());
}

// ---------------------------------------------------------------------------
// Restarting
// ---------------------------------------------------------------------------

fn restart_session(container_kind: AgentboxContainerKind, status: SessionStatus, labels: &[(&str, &str)]) -> SessionRecord {
    SessionRecord {
        container_id: "container-id".to_string(),
        container_name: "agentbox-example".to_string(),
        container_kind,
        metadata: SessionMetadata::from_labels(&labels_of(labels)),
        attach_endpoint: None,
        container_running: status == SessionStatus::Running,
        status,
    }
}

#[test]
fn running_managed_session_returns_restart_metadata() {
    let session = restart_session(
        AgentboxContainerKind::Managed,
        SessionStatus::Running,
        &[
            (LABEL_GIT_ROOT, "/workspace/project"),
            (LABEL_GIT_ROOT_HASH, "abcdef123456"),
            (LABEL_RUNTIME, "opencode"),
            (LABEL_LAUNCH_DIRECTORY, "/workspace/project/nested"),
        ],
    );

    let restartable = prepare_restart_session("/workspace/project", &session).unwrap();

    assert_eq!(restartable.session.container_name, "agentbox-example");
    assert_eq!(restartable.runtime, RuntimeKind::Opencode);
    assert_eq!(restartable.launch_directory, "/workspace/project/nested");
}

#[test]
fn transient_run_container_is_not_restartable() {
    let session = restart_session(AgentboxContainerKind::Run, SessionStatus::Running, &[(LABEL_GIT_ROOT_HASH, "abcdef123456")]);

    let error = prepare_restart_session("abcdef", &session).unwrap_err();

    assert!(error.message().contains("transient run container"));
    assert!(error.message().contains("cannot be restarted"));
}

#[test]
fn running_session_requires_runtime_label() {
    let session = restart_session(
        AgentboxContainerKind::Managed,
        SessionStatus::Running,
        &[
            (LABEL_GIT_ROOT, "/workspace/project"),
            (LABEL_GIT_ROOT_HASH, "abcdef123456"),
            (LABEL_LAUNCH_DIRECTORY, "/workspace/project"),
        ],
    );

    let error = prepare_restart_session("/workspace/project", &session).unwrap_err();

    assert!(error.message().contains("unsupported or malformed `io.agentbox.runtime` label"));
}

#[test]
fn failed_session_without_git_root_reports_unrecoverable_root() {
    let session =
        restart_session(AgentboxContainerKind::Managed, SessionStatus::failed_unknown(), &[(LABEL_GIT_ROOT_HASH, "abcdef123456")]);

    let error = prepare_restart_session("abcdef", &session).unwrap_err();

    assert!(error.message().contains("no recoverable git-root label"));
}

// ---------------------------------------------------------------------------
// Orphaned Git roots, checked against a host described by tables
// ---------------------------------------------------------------------------

#[derive(Default)]
struct FakeHost {
    canonical_paths: Vec<(String, String)>,
    directories: Vec<String>,
    git_markers: Vec<String>,
    rev_parse_roots: Vec<(String, String)>,
}

impl FakeHost {
    fn with_canonical(mut self, input: &str, output: &str) -> Self {
        self.canonical_paths.push((input.to_string(), output.to_string()));
        self
    }

    fn with_directory(mut self, path: &str) -> Self {
        self.directories.push(path.to_string());
        self
    }

    fn with_git_marker(mut self, path: &str) -> Self {
        self.git_markers.push(path.to_string());
        self
    }

    fn with_rev_parse(mut self, path: &str, root: &str) -> Self {
        self.rev_parse_roots.push((path.to_string(), root.to_string()));
        self
    }

    fn lookup(table: &[(String, String)], key: &str) -> Option<String> {
        table.iter().find(|(k, _)| k == key).map(|(_, v)| v.clone())
    }

    /// Runs the check to its end; gives its conclusion and how often Git was asked for
    /// the top level.
    fn check(&self, git_root: &str) -> (bool, usize) {
        let (mut check, mut step) = GitRootOrphanCheck::new(git_root);
        let mut rev_parse_calls = 0;
        loop {
            let answer = match step {
                GitRootCheckStep::Orphaned(orphaned) => return (orphaned, rev_parse_calls),
                GitRootCheckStep::Ask(GitRootQuery::Canonicalize(p)) => GitRootAnswer::Path(Self::lookup(&self.canonical_paths, &p)),
                GitRootCheckStep::Ask(GitRootQuery::IsDirectory(p)) => GitRootAnswer::Flag(self.directories.contains(&p)),
                GitRootCheckStep::Ask(GitRootQuery::HasGitMarker(p)) => GitRootAnswer::Flag(self.git_markers.contains(&p)),
                GitRootCheckStep::Ask(GitRootQuery::RevParseShowToplevel(p)) => {
                    rev_parse_calls += 1;
                    GitRootAnswer::Path(Self::lookup(&self.rev_parse_roots, &p))
                },
            };
            step = check.advance(answer);
        }
    }
}

#[test]
fn git_root_with_git_marker_is_not_orphaned_without_rev_parse() {
    let host = FakeHost::default().with_canonical("/repo", "/repo").with_directory("/repo").with_git_marker("/repo");

    assert_eq!(host.check("/repo"), (false, 0));
}

#[test]
fn git_root_without_marker_is_not_orphaned_when_rev_parse_matches() {
    let host = FakeHost::default().with_canonical("/repo", "/repo").with_directory("/repo").with_rev_parse("/repo", "/repo");

    assert_eq!(host.check("/repo"), (false, 1));
}

#[test]
fn git_root_is_orphaned_when_canonical_root_changes() {
    let host = FakeHost::default().with_canonical("/workspace/link", "/workspace/real");

    assert!(host.check("/workspace/link").0);
}

#[test]
fn git_root_is_orphaned_when_rev_parse_resolves_elsewhere() {
    let host = FakeHost::default()
        .with_canonical("/repo", "/repo")
        .with_canonical("/other", "/other")
        .with_directory("/repo")
        .with_rev_parse("/repo", "/other");

    assert!(host.check("/repo").0);
}

#[test]
fn git_root_that_is_not_a_directory_is_orphaned() {
    let host = FakeHost::default().with_canonical("/repo", "/repo");

    assert_eq!(host.check("/repo"), (true, 0));
}

// ---------------------------------------------------------------------------
// Target candidates
// ---------------------------------------------------------------------------

struct SessionRecordFixture {
    container_id: String,
    container_name: String,
    container_kind: AgentboxContainerKind,
    labels: StringMap,
    attach_endpoint: Option<AttachEndpoint>,
    container_running: bool,
    status: SessionStatus,
}

impl SessionRecordFixture {
    fn managed(stable_id: &str) -> Self {
        Self::new(AgentboxContainerKind::Managed, stable_id)
    }

    fn transient_run(stable_id: &str) -> Self {
        Self::new(AgentboxContainerKind::Run, stable_id)
    }

    fn new(container_kind: AgentboxContainerKind, stable_id: &str) -> Self {
        let root = format!("/workspace/{stable_id}");
        Self {
            container_id: format!("{stable_id}-id"),
            container_name: format!("agentbox-{stable_id}"),
            container_kind,
            labels: labels_of(&[
                (LABEL_GIT_ROOT, &root),
                (LABEL_GIT_ROOT_HASH, stable_id),
                (LABEL_RUNTIME, RuntimeKind::Opencode.as_str()),
                (LABEL_LAUNCH_DIRECTORY, &root),
                (LABEL_ATTACH_SCHEME, "http"),
            ]),
            attach_endpoint: Some(AttachEndpoint { scheme: "http".to_string(), host_ip: "127.0.0.1".to_string(), host_port: 4096 }),
            container_running: true,
            status: SessionStatus::Running,
        }
    }

    fn without_label(mut self, label: &str) -> Self {
        self.labels.remove(label);
        self
    }

    fn without_attach_endpoint(mut self) -> Self {
        self.attach_endpoint = None;
        self
    }

    fn status(mut self, status: SessionStatus) -> Self {
        self.container_running = status == SessionStatus::Running;
        self.status = status;
        self
    }

    fn build(self) -> SessionRecord {
        SessionRecord::new(
            self.container_id,
            self.container_name,
            self.container_kind,
            SessionMetadata::from_labels(&self.labels),
            self.attach_endpoint,
            self.container_running,
            self.status,
        )
    }
}

fn candidate_values(kind: SessionTargetKind, sessions: &[SessionRecord]) -> Vec<String> {
    kind.candidates(sessions).iter().map(|candidate| candidate.value().to_string()).collect()
}

#[test]
fn connect_root_candidates_require_connectable_managed_sessions() {
    let sessions = vec![
        SessionRecordFixture::managed("abcdef123456").build(),
        SessionRecordFixture::transient_run("fedcba654321").build(),
        SessionRecordFixture::managed("aaaaaa111111").status(SessionStatus::failed_unknown()).build(),
        SessionRecordFixture::managed("bbbbbb222222").without_attach_endpoint().build(),
    ];

    assert_eq!(candidate_values(SessionTargetKind::ConnectRoot, &sessions), vec!["/workspace/abcdef123456"]);
}

#[test]
fn restart_stable_id_candidates_require_restartable_managed_sessions() {
    let sessions = vec![
        SessionRecordFixture::managed("abcdef123456").build(),
        SessionRecordFixture::transient_run("fedcba654321").build(),
        SessionRecordFixture::managed("aaaaaa111111").status(SessionStatus::failed_unknown()).build(),
        SessionRecordFixture::managed("bbbbbb222222").without_label(LABEL_RUNTIME).build(),
        SessionRecordFixture::managed("cccccc333333").without_label(LABEL_LAUNCH_DIRECTORY).build(),
    ];

    assert_eq!(candidate_values(SessionTargetKind::RestartStableId, &sessions), vec!["abcdef123456"]);
}

#[test]
fn stable_id_candidates_include_any_agentbox_record_with_a_stable_id() {
    let sessions = vec![
        SessionRecordFixture::managed("abcdef123456").build(),
        SessionRecordFixture::transient_run("fedcba654321").build(),
        SessionRecordFixture::managed("aaaaaa111111").status(SessionStatus::failed_unknown()).build(),
        SessionRecordFixture::managed("dddddd444444").without_label(LABEL_GIT_ROOT_HASH).build(),
    ];

    assert_eq!(
        candidate_values(SessionTargetKind::StableId, &sessions),
        vec!["abcdef123456", "fedcba654321", "aaaaaa111111"]
    );
}

#[test]
fn malformed_container_port_reports_the_parse_error() {
    let metadata = SessionMetadata::from_labels(&labels_of(&[
        (LABEL_RUNTIME, "opencode"),
        (LABEL_ATTACH_SCHEME, "http"),
        (LABEL_CONTAINER_PORT, "not-a-port"),
        (LABEL_CONTAINER_LISTEN_IP, "0.0.0.0"),
    ]));

    assert_eq!(
        AttachLabels::from_session_labels(&metadata).unwrap_err(),
        agentbox::session::labels::AttachLabelError::MalformedContainerPort("invalid digit found in string".to_string())
    );
}

#[test]
fn git_root_whose_canonical_form_is_the_same_path_is_checked_by_that_form() {
    let host = FakeHost::default()
        .with_canonical("/repo/", "/repo")
        .with_directory("/repo")
        .with_rev_parse("/repo", "/repo/.")
        .with_canonical("/repo/.", "/repo");

    assert_eq!(host.check("/repo/"), (false, 1));
}
