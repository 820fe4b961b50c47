use agentbox::order::LexOrder;
use agentbox::path_order::{path_order, paths_equal};
use agentbox::paths::is_or_descendant;
use agentbox::error::AgentboxError;
use agentbox::runtime::kind::RuntimeKind;
use agentbox::state::AgentboxStateRoot;
use agentbox::workspace::{
    container_name_from_canonical_root, escape_root, git_root_digest64, git_root_hash12, hash12, hex_digest,
    is_agentbox_workspace_resource_name, sha256_bytes, workspace_identity_from_paths,
};

#[test]
fn agentbox_workspace_resource_name_filter_matches_generated_name_shape() {
    assert!(is_agentbox_workspace_resource_name("agentbox-project-abcdef123456"));
    assert!(is_agentbox_workspace_resource_name("agentbox-project-ABCDEF123456"));

    for name in [
        "agentbox-data",
        "agentbox-short-abc123",
        "other-agentbox-abcdef123456",
        "agentbox-used-xyzxyzxyzxyz",
        "agentbox--abcdef123456",
    ] {
        assert!(!is_agentbox_workspace_resource_name(name), "`{name}` should not be treated as an agentbox workspace resource");
    }
}

#[test]
fn sha256_of_known_inputs() {
    assert_eq!(hex_digest(&sha256_bytes(b"")), "e3b0c44298fc1c149afbf4c8996fb92427ae41e4649b934ca495991b7852b855");
    assert_eq!(hash12(b""), "e3b0c44298fc");
}

#[test]
fn git_root_hashes_are_the_digest_of_the_root() {
    assert_eq!(
        git_root_digest64("/workspace/project"),
        "e3af8a7251583e76fee1fc45993af40a380512ed7b704d61e7869aa9b57391ad"
    );
    assert_eq!(git_root_hash12("/workspace/project"), "e3af8a725158");
}

#[test]
fn escape_root_keeps_safe_characters() {
    assert_eq!(escape_root("/home/alice/my project@v1"), "_home_alice_my-project-v1");
}

#[test]
fn container_names_are_generated_resource_names() {
    let name = container_name_from_canonical_root("/workspace/project");
    assert_eq!(name, "agentbox-_workspace_project-e3af8a725158");
    assert!(is_agentbox_workspace_resource_name(&name));

    let long_root = format!("/{}", "x".repeat(200));
    let long_name = container_name_from_canonical_root(&long_root);
    assert_eq!(long_name.len(), 63);
    assert!(long_name.starts_with("agentbox-"));
    assert!(is_agentbox_workspace_resource_name(&long_name));
}

#[test]
fn workspace_identity_of_a_nested_target() {
    let identity = workspace_identity_from_paths("/workspace/project/sub", "/workspace/project/sub", "/workspace/project").unwrap();
    assert_eq!(identity.canonical_git_root, "/workspace/project");
    assert_eq!(identity.hash12, "e3af8a725158");
    assert_eq!(identity.digest64.len(), 64);
    assert_eq!(identity.container_name, "agentbox-_workspace_project-e3af8a725158");
}

#[test]
fn workspace_target_outside_its_root_is_refused() {
    let error = workspace_identity_from_paths("/workspace/other", "/workspace/projectile", "/workspace/project").unwrap_err();
    assert_eq!(
        error,
        AgentboxError::EscapedGitTarget { target: "/workspace/other".to_string(), git_root: "/workspace/project".to_string() }
    );
    assert_eq!(error.message(), "`/workspace/other` resolves outside its Git root `/workspace/project`");
}

#[test]
fn state_root_lies_under_the_state_directory() {
    let root = AgentboxStateRoot::from_state_home("/home/alice/.local/state");
    assert_eq!(root.join("sessions"), "/home/alice/.local/state/agentbox/sessions");
    assert_eq!(AgentboxStateRoot::from_state_dir(None), Err(AgentboxError::StateDirUnavailable));
    assert_eq!(
        AgentboxError::StateDirUnavailable.message(),
        "failed to resolve XDG state directory"
    );
}

#[test]
fn runtime_names_round_trip() {
    for kind in RuntimeKind::variants() {
        assert_eq!(agentbox::runtime::kind::runtime_kind_from_name(kind.as_str()), Some(kind));
    }
    assert_eq!(agentbox::runtime::kind::runtime_kind_from_name("vim"), None);
    assert_eq!(agentbox::runtime::kind::supported_runtime_names(), "`opencode` and `codex`");
}

#[test]
fn paths_compare_by_components() {
    assert_eq!(path_order("/a/b", "/a-b"), LexOrder::Before);
    assert_eq!(path_order("/a-b", "/a/b"), LexOrder::After);
    assert_eq!(path_order("/w/a/", "/w/a"), LexOrder::Same);
    assert_eq!(path_order("/w/a", "/w/ab"), LexOrder::Before);
    assert_eq!(path_order("./a", "a"), LexOrder::Before);
    assert_eq!(path_order("../a", "a"), LexOrder::Before);
    assert_eq!(path_order("/", "a"), LexOrder::Before);
    assert!(paths_equal("/w//./a/", "/w/a"));
    assert!(!paths_equal("/w/a", "w/a"));
    assert!(!paths_equal("/w/../a", "/a"));
}

#[test]
fn descendants_follow_whole_components() {
    assert!(is_or_descendant("/w/a", "/w/a"));
    assert!(is_or_descendant("/w/a/b", "/w/a/"));
    assert!(is_or_descendant("/w/a/./b", "/w/a"));
    assert!(!is_or_descendant("/w/ab", "/w/a"));
    assert!(!is_or_descendant("/w", "/w/a"));
}
