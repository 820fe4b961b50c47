use agentbox::container_paths::{CONTAINER_KNOWN_HOSTS, CONTAINER_SSH_AUTH_SOCK, CONTAINER_WAYLAND_DISPLAY};
use agentbox::environment::{EnvValue, Environment};
use agentbox::runtime::spec::{RuntimeCreateSpec, RuntimeMount, RuntimeRunSpec};
use agentbox::ssh_signing::commit_signing::{
    agent_unusable_warning, commit_signing_detection, git_identity_entries, git_identity_keys_for,
    host_agent_socket_candidate, signing_home, GitIdentityPassthrough, HostSocketCandidate, SshCommitSigningDetection,
    SshCommitSigningPassthrough, HOST_SSH_AUTH_SOCK_ENV,
};
use agentbox::ssh_signing::config::{config_path, ConfigLoad, ConfigLoadStep, ConfigRead};
use agentbox::ssh_signing::git_config::{
    append_git_config_env, git_signing_keys, signing_key_to_normalize, read_git_signing_values,
    read_ssh_signing_config_entries, GIT_CONFIG_COUNT_ENV,
};
use agentbox::ssh_signing::git_excludes::{
    git_excludes_passthrough, readable_regular_file, source_path, FileProbe, GitExcludesFilePassthrough,
};
use agentbox::ssh_signing::known_hosts::{
    backup_path, backup_timestamp, combined_known_hosts_lines, known_hosts_file_contents, known_hosts_mount_and_env,
    parse_ssh_keygen_lines, remote_hosts_of, validate_known_hosts_config, AgentboxConfig, GIT_SSH_COMMAND,
    GIT_SSH_COMMAND_ENV,
};
use agentbox::ssh_signing::lookup::{
    keygen_lookup_result, known_hosts_files, output_detail, parse_ssh_config_output, retain_present, run_known_hosts_collection,
    HostKnownHostsLines, KnownHostsLookupError, KnownHostsStep, SshConfigLookupError, SshHostConfig,
};
use agentbox::ssh_signing::passthrough::{ssh_passthrough, SshKnownHostsPassthrough};
use agentbox::ssh_signing::remote::{remote_urls_from_listing, ssh_remote_host_names, SshRemoteHost};
use agentbox::ssh_signing::signing_key::{is_ssh_public_key_literal, signing_key_path, SigningKeyLookup, SigningKeyStep};
use agentbox::string_map::StringMap;
use agentbox::wayland::{wayland_socket_candidate, wayland_unusable_warning, WaylandPassthrough, HOST_WAYLAND_DISPLAY_ENV, HOST_XDG_RUNTIME_DIR_ENV};

fn env_of(values: &[(&str, &str)]) -> Environment {
    let mut env = Environment::empty();
    for (name, value) in values {
        env = env.with_text(name, value);
    }
    env
}

fn empty_run_spec() -> RuntimeRunSpec {
    RuntimeRunSpec::new(RuntimeCreateSpec::builder("image".to_string()).build(), "/repo".to_string())
}

// ---------------------------------------------------------------------------
// Remote hosts and ssh-keygen output
// ---------------------------------------------------------------------------

fn remote_urls() -> Vec<String> {
    vec![
        "git@github.com:owner/repo.git".to_string(),
        "ssh://git@gitlab.com/group/repo.git".to_string(),
        "ssh://git@example.com:2222/repo.git".to_string(),
        "git+ssh://git@example.net/repo.git".to_string(),
        "https://github.com/owner/repo.git".to_string(),
        "/home/alice/repo".to_string(),
        "../repo".to_string(),
    ]
}

fn parses_ssh_remote_hosts() {
    assert_eq!(
        ssh_remote_host_names(&remote_urls()),
        ["github.com", "gitlab.com", "[example.com]:2222", "example.net"]
    );
}

#[test]
fn known_hosts_parses_ssh_remote_hosts() {
    parses_ssh_remote_hosts();
}

#[test]
fn remote_parses_ssh_remote_hosts() {
    parses_ssh_remote_hosts();
}

#[test]
fn remote_hosts_are_listed_once_in_order() {
    let urls = vec![
        "git@github.com:a.git".to_string(),
        "ssh://git@github.com/b.git".to_string(),
        "ssh://git@github.com:22/c.git".to_string(),
    ];
    assert_eq!(ssh_remote_host_names(&urls), ["github.com"]);
}

fn parses_ssh_keygen_output_lines_without_comments() {
    assert_eq!(
        parse_ssh_keygen_lines(
            "# Host github.com found: line 1\ngithub.com ssh-ed25519 AAAA\n\n# another\n|1|hash ssh-rsa BBBB\n"
        ),
        ["github.com ssh-ed25519 AAAA", "|1|hash ssh-rsa BBBB"]
    );
}

#[test]
fn known_hosts_parses_ssh_keygen_output_lines_without_comments() {
    parses_ssh_keygen_output_lines_without_comments();
}

#[test]
fn keygen_parses_ssh_keygen_output_lines_without_comments() {
    parses_ssh_keygen_output_lines_without_comments();
}

#[test]
fn keygen_exit_codes_decide_the_lookup() {
    assert_eq!(
        keygen_lookup_result(Some(0), "exit status: 0", "# Host a found\na ssh-ed25519 AAAA\n", ""),
        Ok(vec!["a ssh-ed25519 AAAA".to_string()])
    );
    assert_eq!(keygen_lookup_result(Some(1), "exit status: 1", "", ""), Ok(vec![]));
    assert_eq!(
        keygen_lookup_result(Some(255), "exit status: 255", "", "  bad file  "),
        Err(KnownHostsLookupError::Failed("exit status: 255: bad file".to_string()))
    );
    assert_eq!(
        keygen_lookup_result(None, "signal: 9", "", ""),
        Err(KnownHostsLookupError::Failed("signal: 9: no output".to_string()))
    );
}

#[test]
fn output_detail_prefers_standard_error() {
    assert_eq!(output_detail(" out ", " err "), "err");
    assert_eq!(output_detail(" out ", "  "), "out");
    assert_eq!(output_detail("", ""), "no output");
}

#[test]
fn combined_known_hosts_lines_keep_the_first_of_each() {
    assert_eq!(
        combined_known_hosts_lines(
            vec!["a".to_string(), "b".to_string(), "a".to_string()],
            vec!["b".to_string(), "c".to_string()],
        ),
        ["a", "b", "c"]
    );
}

// ---------------------------------------------------------------------------
// `ssh -G` output
// ---------------------------------------------------------------------------

#[test]
fn parses_ssh_config_lookup_hosts_and_files() {
    let remote_host = SshRemoteHost { config_host: "github-work".to_string(), port: None };
    let output = "host github-work\nhostname ssh.github.com\nport 443\nhostkeyalias github.com\nuserknownhostsfile /tmp/sandbox/known_hosts.custom missing\nuserknownhostsfile none\nglobalknownhostsfile /tmp/sandbox/ssh_known_hosts\n";

    let config = parse_ssh_config_output(output, &remote_host);

    assert_eq!(config.lookup_hosts, ["github.com", "[ssh.github.com]:443", "github-work"]);
    assert_eq!(config.known_hosts_files, ["/tmp/sandbox/known_hosts.custom", "missing", "/tmp/sandbox/ssh_known_hosts"]);
    let present = config.known_hosts_files.iter().map(|file| file != "missing").collect::<Vec<_>>();
    assert_eq!(
        retain_present(&config.known_hosts_files, &present),
        ["/tmp/sandbox/known_hosts.custom", "/tmp/sandbox/ssh_known_hosts"]
    );
}

#[test]
fn ssh_config_lookup_uses_injected_process_runner() {
    let remote_host = SshRemoteHost { config_host: "github-work".to_string(), port: Some(443) };
    let config = parse_ssh_config_output(
        "hostname ssh.github.com\nport 443\nhostkeyalias github.com\nuserknownhostsfile /tmp/known_hosts.custom\n",
        &remote_host,
    );

    assert_eq!(config.lookup_hosts, ["github.com", "[ssh.github.com]:443", "[github-work]:443"]);
    assert_eq!(config.known_hosts_files, ["/tmp/known_hosts.custom"]);
}

#[test]
fn ssh_keygen_lookup_uses_injected_process_runner() {
    let lines = keygen_lookup_result(Some(0), "exit status: 0", "# Host github.com found: line 1\ngithub.com ssh-ed25519 AAAA\n", "")
        .unwrap();

    assert_eq!(lines, ["github.com ssh-ed25519 AAAA"]);
}

#[test]
fn default_known_hosts_files_lie_under_home() {
    let home = EnvValue::Text("/home/alice".to_string());
    assert_eq!(known_hosts_files(Some(&home)), ["/home/alice/.ssh/known_hosts", "/home/alice/.ssh/known_hosts2"]);
    let empty = EnvValue::Text(String::new());
    assert!(known_hosts_files(Some(&empty)).is_empty());
    assert!(known_hosts_files(None).is_empty());
}

// ---------------------------------------------------------------------------
// The agentbox configuration, loaded against an in-memory file system
// ---------------------------------------------------------------------------

#[derive(Default)]
struct FakeFiles {
    files: Vec<(String, String)>,
}

impl FakeFiles {
    fn write(&mut self, path: &str, contents: &str) {
        self.files.retain(|(p, _)| p != path);
        self.files.push((path.to_string(), contents.to_string()));
    }

    fn read(&self, path: &str) -> Option<String> {
        self.files.iter().find(|(p, _)| p == path).map(|(_, c)| c.clone())
    }

    fn has_file(&self, path: &str) -> bool {
        self.read(path).is_some()
    }

    fn rename(&mut self, from: &str, to: &str) {
        let contents = self.read(from).unwrap();
        self.files.retain(|(p, _)| p != from);
        self.write(to, &contents);
    }
}

/// What the program makes of a configuration file: JSON holding exactly a `knownHosts`
/// array of strings.
fn parse_json_config(contents: &str) -> ConfigRead {
    let value: serde_json::Value = match serde_json::from_str(contents) {
        Ok(value) => value,
        Err(error) => return ConfigRead::Malformed(error.to_string()),
    };
    let Some(object) = value.as_object() else {
        return ConfigRead::Malformed("expected an object".to_string());
    };
    if let Some(key) = object.keys().find(|key| key.as_str() != "knownHosts") {
        return ConfigRead::Malformed(format!("unknown field `{key}`"));
    }
    let Some(entries) = object.get("knownHosts").and_then(serde_json::Value::as_array) else {
        return ConfigRead::Malformed("missing field `knownHosts`".to_string());
    };
    let mut known_hosts = Vec::new();
    for entry in entries {
        match entry.as_str() {
            Some(text) => known_hosts.push(text.to_string()),
            None => return ConfigRead::Malformed("expected a string".to_string()),
        }
    }
    ConfigRead::Parsed(known_hosts)
}

// 2026-05-17T11:23:45Z
const SAMPLE_TIME: i64 = 1_779_017_025;

fn load_config(env: &Environment, files: &mut FakeFiles, warnings: &mut Vec<String>) -> AgentboxConfig {
    let (mut load, first) = ConfigLoad::start(config_path(env), backup_timestamp(SAMPLE_TIME));
    warnings.extend(first);
    loop {
        match load.next_step() {
            ConfigLoadStep::Done(config) => return config,
            ConfigLoadStep::Read(path) => {
                let read = match files.read(&path) {
                    None => ConfigRead::Missing,
                    Some(contents) => parse_json_config(&contents),
                };
                warnings.extend(load.read_finished(read));
            },
            ConfigLoadStep::CheckExists(path) => load.exists_checked(files.has_file(&path)),
            ConfigLoadStep::Rename { from, to } => {
                files.rename(&from, &to);
                warnings.extend(load.rename_finished(Ok(())));
            },
        }
    }
}

fn missing_config_returns_empty_config() {
    let mut warnings = Vec::new();
    let config = load_config(&env_of(&[("XDG_CONFIG_HOME", "/sandbox")]), &mut FakeFiles::default(), &mut warnings);

    assert_eq!(config, AgentboxConfig::default());
    assert!(warnings.is_empty());
}

#[test]
fn known_hosts_missing_config_returns_empty_config() {
    missing_config_returns_empty_config();
}

#[test]
fn config_missing_config_returns_empty_config() {
    missing_config_returns_empty_config();
}

fn valid_known_hosts_config_loads() {
    let mut files = FakeFiles::default();
    files.write(
        "/sandbox/agentbox/config.json",
        r#"{"knownHosts":["github.com ssh-ed25519 AAAA","[git.example.com]:2222 ssh-ed25519 BBBB"]}"#,
    );
    let mut warnings = Vec::new();
    let config = load_config(&env_of(&[("XDG_CONFIG_HOME", "/sandbox")]), &mut files, &mut warnings);

    assert_eq!(config.known_hosts, ["github.com ssh-ed25519 AAAA", "[git.example.com]:2222 ssh-ed25519 BBBB"]);
    assert!(warnings.is_empty());
}

#[test]
fn known_hosts_valid_known_hosts_config_loads() {
    valid_known_hosts_config_loads();
}

#[test]
fn config_valid_known_hosts_config_loads() {
    valid_known_hosts_config_loads();
}

fn invalid_config_is_backed_up_and_ignored() {
    let mut files = FakeFiles::default();
    files.write("/sandbox/agentbox/config.json", "{not json");
    let mut warnings = Vec::new();
    let config = load_config(&env_of(&[("XDG_CONFIG_HOME", "/sandbox")]), &mut files, &mut warnings);

    assert_eq!(config, AgentboxConfig::default());
    assert!(!files.has_file("/sandbox/agentbox/config.json"));
    assert_eq!(files.read("/sandbox/agentbox/config.json.bak.20260517T112345Z").unwrap(), "{not json");
    assert_eq!(warnings.len(), 1);
    assert!(warnings[0].contains("incompatible"));
}

#[test]
fn known_hosts_invalid_config_is_backed_up_and_ignored() {
    invalid_config_is_backed_up_and_ignored();
}

#[test]
fn config_invalid_config_is_backed_up_and_ignored() {
    invalid_config_is_backed_up_and_ignored();
}

fn invalid_config_backup_collision_appends_numeric_suffix() {
    let mut files = FakeFiles::default();
    files.write("/sandbox/agentbox/config.json", r#"{"knownHosts":[""]}"#);
    files.write("/sandbox/agentbox/config.json.bak.20260517T112345Z", "previous");
    let mut warnings = Vec::new();
    let config = load_config(&env_of(&[("XDG_CONFIG_HOME", "/sandbox")]), &mut files, &mut warnings);

    assert_eq!(config, AgentboxConfig::default());
    assert_eq!(files.read("/sandbox/agentbox/config.json.bak.20260517T112345Z").unwrap(), "previous");
    assert_eq!(files.read("/sandbox/agentbox/config.json.bak.20260517T112345Z.1").unwrap(), r#"{"knownHosts":[""]}"#);
}

#[test]
fn known_hosts_invalid_config_backup_collision_appends_numeric_suffix() {
    invalid_config_backup_collision_appends_numeric_suffix();
}

#[test]
fn config_invalid_config_backup_collision_appends_numeric_suffix() {
    invalid_config_backup_collision_appends_numeric_suffix();
}

fn config_rejects_unknown_fields_and_multiline_entries() {
    assert!(matches!(parse_json_config(r#"{"knownHosts":[],"extra":true}"#), ConfigRead::Malformed(_)));
    match parse_json_config("{\"knownHosts\":[\"github.com ssh-ed25519 AAAA\\nnext\"]}") {
        ConfigRead::Parsed(entries) => assert!(validate_known_hosts_config(entries).is_err()),
        _ => panic!("expected parsed entries"),
    }
}

#[test]
fn known_hosts_config_rejects_unknown_fields_and_multiline_entries() {
    config_rejects_unknown_fields_and_multiline_entries();
}

#[test]
fn config_config_rejects_unknown_fields_and_multiline_entries() {
    config_rejects_unknown_fields_and_multiline_entries();
}

#[test]
fn configured_entries_must_not_be_blank() {
    assert_eq!(
        validate_known_hosts_config(vec!["  ".to_string()]),
        Err("knownHosts entries must not be blank".to_string())
    );
    assert_eq!(
        validate_known_hosts_config(vec!["a\rb".to_string()]),
        Err("knownHosts entries must be single-line strings".to_string())
    );
}

#[test]
fn config_path_prefers_xdg_config_home_then_home() {
    assert_eq!(config_path(&env_of(&[("XDG_CONFIG_HOME", "/x"), ("HOME", "/h")])), Some("/x/agentbox/config.json".to_string()));
    assert_eq!(config_path(&env_of(&[("XDG_CONFIG_HOME", ""), ("HOME", "/h")])), Some("/h/.config/agentbox/config.json".to_string()));
    assert_eq!(config_path(&env_of(&[])), None);
}

#[test]
fn unknown_config_location_warns_and_loads_nothing() {
    let mut warnings = Vec::new();
    let config = load_config(&env_of(&[]), &mut FakeFiles::default(), &mut warnings);
    assert_eq!(config, AgentboxConfig::default());
    assert_eq!(warnings.len(), 1);
    assert!(warnings[0].contains("neither XDG_CONFIG_HOME nor HOME is set"));
}

#[test]
fn backup_timestamp_is_the_utc_time() {
    assert_eq!(backup_timestamp(SAMPLE_TIME), "20260517T112345Z");
    assert_eq!(backup_timestamp(0), "19700101T000000Z");
}

#[test]
fn backup_path_appends_timestamp_and_suffix() {
    assert_eq!(backup_path("/a/config.json", "T", None), "/a/config.json.bak.T");
    assert_eq!(backup_path("/a/config.json", "T", Some(2)), "/a/config.json.bak.T.2");
}

// ---------------------------------------------------------------------------
// Preparing known_hosts, with lookups answered by tables
// ---------------------------------------------------------------------------

struct Prepared {
    mount: RuntimeMount,
    env: StringMap,
    contents: String,
}

fn prepare(
    env: &Environment,
    files: &mut FakeFiles,
    urls: Vec<String>,
    ssh_config: &dyn Fn(&SshRemoteHost) -> Result<SshHostConfig, SshConfigLookupError>,
    lookup: &dyn Fn(&str, &str) -> Result<Vec<String>, KnownHostsLookupError>,
    warnings: &mut Vec<String>,
) -> Option<Prepared> {
    let config = load_config(env, files, warnings);
    let (hosts, remote_warnings) = remote_hosts_of(Ok(urls));
    warnings.extend(remote_warnings);
    let candidates = known_hosts_files(env.get("HOME"));
    let present = candidates.iter().map(|path| files.has_file(path)).collect::<Vec<_>>();
    let fallback = retain_present(&candidates, &present);
    let mut collection = HostKnownHostsLines::new(hosts, fallback);
    let host_lines = loop {
        match collection.next_step() {
            KnownHostsStep::Finished(lines) => break lines,
            KnownHostsStep::LookupConfig(host) => {
                let result = ssh_config(&host);
                warnings.extend(collection.config_found(result));
            },
            KnownHostsStep::LookupEntries { host, file } => {
                let result = lookup(&host, &file);
                warnings.extend(collection.entries_found(result));
            },
        }
    };
    let lines = combined_known_hosts_lines(host_lines, config.known_hosts);
    let contents = known_hosts_file_contents(&lines)?;
    let (mount, env) = known_hosts_mount_and_env("/tmp/agentbox-known-hosts".to_string());
    Some(Prepared { mount, env, contents })
}

fn unavailable_ssh_keygen_uses_config_entries_only() {
    let mut files = FakeFiles::default();
    files.write("/sandbox/agentbox/config.json", r#"{"knownHosts":["extra.example ssh-ed25519 CCCC"]}"#);
    files.write("/home/alice/.ssh/known_hosts", "placeholder");
    let env = env_of(&[("XDG_CONFIG_HOME", "/sandbox"), ("HOME", "/home/alice")]);
    let mut warnings = Vec::new();

    let prepared = prepare(
        &env,
        &mut files,
        vec!["git@github.com:owner/repo.git".to_string()],
        &|host| Ok(SshHostConfig { lookup_hosts: vec![host.known_hosts_name()], known_hosts_files: vec!["/home/alice/.ssh/known_hosts".to_string()] }),
        &|_host, _file| Err(KnownHostsLookupError::Unavailable("missing".to_string())),
        &mut warnings,
    )
    .unwrap();

    assert_eq!(prepared.contents, "extra.example ssh-ed25519 CCCC\n");
    assert_eq!(warnings.len(), 1);
    assert!(warnings[0].contains("ssh-keygen is unavailable"));
}

#[test]
fn known_hosts_unavailable_ssh_keygen_uses_config_entries_only() {
    unavailable_ssh_keygen_uses_config_entries_only();
}

#[test]
fn mod_unavailable_ssh_keygen_uses_config_entries_only() {
    unavailable_ssh_keygen_uses_config_entries_only();
}

fn prepare_combines_host_and_config_known_hosts_lines() {
    let mut files = FakeFiles::default();
    files.write(
        "/sandbox/agentbox/config.json",
        r#"{"knownHosts":["github.com ssh-ed25519 AAAA","extra.example ssh-ed25519 CCCC"]}"#,
    );
    files.write("/home/alice/.ssh/known_hosts", "placeholder");
    let env = env_of(&[("XDG_CONFIG_HOME", "/sandbox"), ("HOME", "/home/alice")]);
    let mut warnings = Vec::new();

    let prepared = prepare(
        &env,
        &mut files,
        vec!["git@github.com:owner/repo.git".to_string()],
        &|host| Ok(SshHostConfig { lookup_hosts: vec![host.known_hosts_name()], known_hosts_files: vec!["/home/alice/.ssh/known_hosts".to_string()] }),
        &|host, file| {
            assert_eq!(host, "github.com");
            assert_eq!(file, "/home/alice/.ssh/known_hosts");
            Ok(vec!["github.com ssh-ed25519 AAAA".to_string(), "|1|hashed ssh-ed25519 BBBB".to_string()])
        },
        &mut warnings,
    )
    .unwrap();

    assert_eq!(
        prepared.contents,
        "github.com ssh-ed25519 AAAA\n|1|hashed ssh-ed25519 BBBB\nextra.example ssh-ed25519 CCCC\n"
    );
    assert!(prepared.mount.is_read_only());
    assert_eq!(prepared.mount.destination(), CONTAINER_KNOWN_HOSTS);
    assert_eq!(prepared.env.get(GIT_SSH_COMMAND_ENV).as_deref(), Some(GIT_SSH_COMMAND));
    assert!(warnings.is_empty());
}

#[test]
fn known_hosts_prepare_combines_host_and_config_known_hosts_lines() {
    prepare_combines_host_and_config_known_hosts_lines();
}

#[test]
fn mod_prepare_combines_host_and_config_known_hosts_lines() {
    prepare_combines_host_and_config_known_hosts_lines();
}

#[test]
fn unavailable_ssh_config_falls_back_to_home_known_hosts_files() {
    let mut files = FakeFiles::default();
    files.write("/home/alice/.ssh/known_hosts2", "placeholder");
    let env = env_of(&[("XDG_CONFIG_HOME", "/sandbox"), ("HOME", "/home/alice")]);
    let mut warnings = Vec::new();

    let prepared = prepare(
        &env,
        &mut files,
        vec!["ssh://git@example.com:2222/repo.git".to_string()],
        &|_host| Err(SshConfigLookupError::Unavailable("missing".to_string())),
        &|host, file| {
            assert_eq!(host, "[example.com]:2222");
            assert_eq!(file, "/home/alice/.ssh/known_hosts2");
            Ok(vec!["[example.com]:2222 ssh-ed25519 AAAA".to_string()])
        },
        &mut warnings,
    )
    .unwrap();

    assert_eq!(prepared.contents, "[example.com]:2222 ssh-ed25519 AAAA\n");
    assert_eq!(warnings.len(), 1);
    assert!(warnings[0].contains("ssh is unavailable for SSH config lookup for remote host `[example.com]:2222`"));
}

#[test]
fn host_without_entries_is_warned_about() {
    let mut files = FakeFiles::default();
    files.write("/home/alice/.ssh/known_hosts", "placeholder");
    let env = env_of(&[("XDG_CONFIG_HOME", "/sandbox"), ("HOME", "/home/alice")]);
    let mut warnings = Vec::new();

    let prepared = prepare(
        &env,
        &mut files,
        vec!["git@github.com:owner/repo.git".to_string()],
        &|_host| Err(SshConfigLookupError::Failed("exit status: 255".to_string())),
        &|_host, _file| Ok(vec![]),
        &mut warnings,
    );

    assert!(prepared.is_none());
    assert_eq!(warnings.len(), 2);
    assert!(warnings[0].contains("ssh -G lookup failed"));
    assert!(warnings[1].contains("no known_hosts entry found for SSH remote host `github.com`"));
}

#[test]
fn failed_remote_listing_is_warned_about() {
    let (hosts, warnings) = remote_hosts_of(Err("not a git repository".to_string()));
    assert!(hosts.is_empty());
    assert_eq!(
        warnings,
        ["failed to inspect Git remotes for SSH known_hosts passthrough: not a git repository; continuing without host known_hosts entries"]
    );
}

// ---------------------------------------------------------------------------
// SSH commit signing, with the agent socket check and Git answered by the test
// ---------------------------------------------------------------------------

fn detect(
    identity: GitIdentityPassthrough,
    env: &Environment,
    socket_usable: bool,
    git_config: &mut dyn FnMut(&str) -> Result<Option<String>, String>,
    warnings: &mut Vec<String>,
) -> SshCommitSigningDetection {
    let answers = git_identity_keys_for(identity).iter().map(|key| git_config(key)).collect::<Vec<_>>();
    let (git_entries, identity_warnings) = git_identity_entries(identity, answers);
    warnings.extend(identity_warnings);
    let socket = match host_agent_socket_candidate(env) {
        HostSocketCandidate::Unset => None,
        HostSocketCandidate::Rejected(warning) => {
            warnings.push(warning);
            None
        },
        HostSocketCandidate::Path(path) => {
            if socket_usable {
                Some(path)
            } else {
                warnings.push(agent_unusable_warning("No such file or directory (os error 2)"));
                None
            }
        },
    };
    let signing_entries = match &socket {
        None => vec![],
        Some(_) => {
            let answers = git_signing_keys().iter().map(|key| git_config(key)).collect::<Vec<_>>();
            let (values, signing_warnings) = read_git_signing_values(answers);
            warnings.extend(signing_warnings);
            let key = match signing_key_to_normalize(&values) {
                Some(value) => {
                    let home = signing_home(env);
                    let (lookup, key_warnings) = SigningKeyLookup::start(&value, "/repo", home.as_deref());
                    warnings.extend(key_warnings);
                    match lookup.next_step() {
                        SigningKeyStep::Done(key) => key,
                        _ => panic!("no file access expected"),
                    }
                },
                None => None,
            };
            read_ssh_signing_config_entries(&values, key)
        },
    };
    commit_signing_detection(&git_entries, socket, &signing_entries)
}

fn assert_git_config_env(env: &StringMap, index: usize, key: &str, value: &str) {
    assert_eq!(env.get(&format!("GIT_CONFIG_KEY_{index}")).as_deref(), Some(key));
    assert_eq!(env.get(&format!("GIT_CONFIG_VALUE_{index}")).as_deref(), Some(value));
}

#[test]
fn unset_ssh_auth_sock_still_adds_host_git_identity() {
    let mut requested_keys = Vec::new();
    let mut warnings = Vec::new();

    let detection = detect(
        GitIdentityPassthrough::Host,
        &env_of(&[]),
        true,
        &mut |key| {
            requested_keys.push(key.to_string());
            Ok(match key {
                "user.name" => Some("Alice Agent".to_string()),
                "user.email" => Some("alice@example.test".to_string()),
                _ => Some("must-not-be-read".to_string()),
            })
        },
        &mut warnings,
    );

    assert_eq!(requested_keys, ["user.name", "user.email"]);
    assert!(!detection.host_agent_available);
    assert!(detection.passthrough.agent_socket_mount.is_none());
    assert_eq!(detection.passthrough.env.get(GIT_CONFIG_COUNT_ENV).as_deref(), Some("2"));
    assert_git_config_env(&detection.passthrough.env, 0, "user.name", "Alice Agent");
    assert_git_config_env(&detection.passthrough.env, 1, "user.email", "alice@example.test");
    assert!(warnings.is_empty());
}

#[test]
fn codex_exec_identity_does_not_read_host_git_identity() {
    let mut warnings = Vec::new();
    let detection = detect(
        GitIdentityPassthrough::CodexExec,
        &env_of(&[]),
        true,
        &mut |_key| panic!("git config must not be read for Codex exec identity"),
        &mut warnings,
    );

    assert!(!detection.host_agent_available);
    assert!(detection.passthrough.agent_socket_mount.is_none());
    assert_eq!(detection.passthrough.env.get(GIT_CONFIG_COUNT_ENV).as_deref(), Some("2"));
    assert_git_config_env(&detection.passthrough.env, 0, "user.name", "Codex");
    assert_git_config_env(&detection.passthrough.env, 1, "user.email", "noreply@openai.com");
    assert!(warnings.is_empty());
}

#[test]
fn valid_ssh_auth_sock_adds_socket_mount_and_container_env() {
    let mut warnings = Vec::new();
    let detection = detect(
        GitIdentityPassthrough::Host,
        &env_of(&[(HOST_SSH_AUTH_SOCK_ENV, "/tmp/sandbox/agent.sock")]),
        true,
        &mut |_key| Ok(None),
        &mut warnings,
    );

    assert!(detection.host_agent_available);
    assert_eq!(
        detection.passthrough.agent_socket_mount,
        Some(RuntimeMount::bind("/tmp/sandbox/agent.sock".to_string(), CONTAINER_SSH_AUTH_SOCK.to_string()))
    );
    assert_eq!(detection.passthrough.env.get(HOST_SSH_AUTH_SOCK_ENV).as_deref(), Some(CONTAINER_SSH_AUTH_SOCK));
    assert!(!detection.passthrough.env.contains_key(GIT_CONFIG_COUNT_ENV));
    assert!(warnings.is_empty());
}

#[test]
fn invalid_ssh_auth_sock_warns_and_disables_passthrough() {
    let mut warnings = Vec::new();
    let detection = detect(
        GitIdentityPassthrough::Host,
        &env_of(&[(HOST_SSH_AUTH_SOCK_ENV, "/tmp/sandbox/missing.sock")]),
        false,
        &mut |_key| Ok(None),
        &mut warnings,
    );

    assert!(!detection.host_agent_available);
    assert!(detection.passthrough.agent_socket_mount.is_none());
    assert!(detection.passthrough.env.is_empty());
    assert_eq!(warnings.len(), 1);
    assert!(warnings[0].contains("SSH_AUTH_SOCK does not reference a usable Unix socket"));
}

#[test]
fn git_config_env_contains_only_minimal_signing_keys() {
    let mut requested_keys = Vec::new();
    let mut warnings = Vec::new();
    let detection = detect(
        GitIdentityPassthrough::Host,
        &env_of(&[(HOST_SSH_AUTH_SOCK_ENV, "/tmp/sandbox/agent.sock"), ("HOME", "/home/alice")]),
        true,
        &mut |key| {
            requested_keys.push(key.to_string());
            Ok(match key {
                "user.name" => Some("Alice Agent".to_string()),
                "user.email" => Some("alice@example.test".to_string()),
                "gpg.format" => Some("ssh".to_string()),
                "user.signingkey" => Some("ssh-ed25519 AAAATEST alice".to_string()),
                "commit.gpgsign" => Some("true".to_string()),
                _ => Some("must-not-be-read".to_string()),
            })
        },
        &mut warnings,
    );

    assert_eq!(requested_keys, ["user.name", "user.email", "gpg.format", "user.signingkey", "commit.gpgsign"]);
    assert_eq!(detection.passthrough.env.get(GIT_CONFIG_COUNT_ENV).as_deref(), Some("5"));
    assert_git_config_env(&detection.passthrough.env, 0, "user.name", "Alice Agent");
    assert_git_config_env(&detection.passthrough.env, 1, "user.email", "alice@example.test");
    assert_git_config_env(&detection.passthrough.env, 2, "gpg.format", "ssh");
    assert_git_config_env(&detection.passthrough.env, 3, "user.signingkey", "ssh-ed25519 AAAATEST alice");
    assert_git_config_env(&detection.passthrough.env, 4, "commit.gpgsign", "true");
    assert!(!detection.passthrough.env.entries().iter().any(|(_, value)| value == "must-not-be-read"));
    assert!(warnings.is_empty());
}

#[test]
fn non_ssh_signing_config_is_not_injected_or_warned_about() {
    let mut warnings = Vec::new();
    let detection = detect(
        GitIdentityPassthrough::Host,
        &env_of(&[(HOST_SSH_AUTH_SOCK_ENV, "/tmp/sandbox/agent.sock")]),
        true,
        &mut |key| {
            Ok(match key {
                "user.name" => Some("Alice Agent".to_string()),
                "user.email" => Some("alice@example.test".to_string()),
                "gpg.format" => Some("openpgp".to_string()),
                "user.signingkey" => Some("ABCDEF123456".to_string()),
                "commit.gpgsign" => Some("true".to_string()),
                _ => None,
            })
        },
        &mut warnings,
    );

    assert_eq!(detection.passthrough.env.get(GIT_CONFIG_COUNT_ENV).as_deref(), Some("2"));
    assert_git_config_env(&detection.passthrough.env, 0, "user.name", "Alice Agent");
    assert_git_config_env(&detection.passthrough.env, 1, "user.email", "alice@example.test");
    assert!(!detection.passthrough.env.entries().iter().any(|(_, value)| value == "openpgp"));
    assert!(!detection.passthrough.env.entries().iter().any(|(_, value)| value == "ABCDEF123456"));
    assert!(warnings.is_empty());
}

#[test]
fn failed_git_config_read_is_warned_about() {
    let mut warnings = Vec::new();
    let detection = detect(GitIdentityPassthrough::Host, &env_of(&[]), true, &mut |_key| Err("boom".to_string()), &mut warnings);

    assert!(detection.passthrough.env.is_empty());
    assert_eq!(
        warnings,
        [
            "failed to read host Git config `user.name` for host Git identity passthrough: boom",
            "failed to read host Git config `user.email` for host Git identity passthrough: boom",
        ]
    );
}

#[test]
fn passthrough_applies_mount_and_env_to_run_spec() {
    let mut spec = RuntimeRunSpec::new(
        RuntimeCreateSpec::builder("image".to_string()).command(vec!["runtime".to_string()]).build(),
        "/repo".to_string(),
    );
    let mut env = StringMap::new();
    env.insert(HOST_SSH_AUTH_SOCK_ENV.to_string(), CONTAINER_SSH_AUTH_SOCK.to_string());
    let passthrough = SshCommitSigningPassthrough {
        agent_socket_mount: Some(RuntimeMount::bind("/tmp/agent.sock".to_string(), CONTAINER_SSH_AUTH_SOCK.to_string())),
        env,
    };

    passthrough.apply_to(&mut spec);

    assert_eq!(
        spec.create().mounts(),
        &vec![RuntimeMount::bind("/tmp/agent.sock".to_string(), CONTAINER_SSH_AUTH_SOCK.to_string())]
    );
    assert_eq!(spec.create().default_env().get(HOST_SSH_AUTH_SOCK_ENV).as_deref(), Some(CONTAINER_SSH_AUTH_SOCK));
}

#[test]
fn known_hosts_passthrough_needs_the_host_agent() {
    let (mount, env) = known_hosts_mount_and_env("/tmp/kh".to_string());
    let detection = commit_signing_detection(&vec![], None, &vec![]);
    let passthrough = ssh_passthrough(detection, Some((mount, env)));
    assert!(passthrough.known_hosts.prepared.is_none());

    let (mount, env) = known_hosts_mount_and_env("/tmp/kh".to_string());
    let detection = commit_signing_detection(&vec![], Some("/tmp/agent.sock".to_string()), &vec![]);
    let passthrough = ssh_passthrough(detection, Some((mount, env)));
    let mut spec = empty_run_spec();
    passthrough.apply_to(&mut spec);
    assert_eq!(spec.create().mounts().len(), 2);
    assert_eq!(spec.create().default_env().get(GIT_SSH_COMMAND_ENV).as_deref(), Some(GIT_SSH_COMMAND));

    let mut spec = empty_run_spec();
    SshKnownHostsPassthrough { prepared: None }.apply_to(&mut spec);
    assert!(spec.create().mounts().is_empty());
}

#[test]
fn git_config_env_numbers_each_entry() {
    let mut env = StringMap::new();
    append_git_config_env(&mut env, &vec![("a.b".to_string(), "1".to_string())]);
    assert_eq!(env.get(GIT_CONFIG_COUNT_ENV).as_deref(), Some("1"));
    assert_git_config_env(&env, 0, "a.b", "1");

    let mut empty = StringMap::new();
    append_git_config_env(&mut empty, &vec![]);
    assert!(empty.is_empty());
}

// ---------------------------------------------------------------------------
// Signing keys, read from an in-memory file system
// ---------------------------------------------------------------------------

fn normalize_signing_key_value(value: &str, git_root: &str, home: Option<&str>, files: &FakeFiles, warnings: &mut Vec<String>) -> Option<String> {
    let (mut lookup, first) = SigningKeyLookup::start(value, git_root, home);
    warnings.extend(first);
    loop {
        match lookup.next_step() {
            SigningKeyStep::Done(key) => return key,
            SigningKeyStep::CheckFile(path) => warnings.extend(lookup.check_finished(files.has_file(&path))),
            SigningKeyStep::ReadFile(path) => {
                let contents = files.read(&path).ok_or_else(|| "No such file or directory (os error 2)".to_string());
                warnings.extend(lookup.read_finished(contents));
            },
        }
    }
}

#[test]
fn signing_key_literal_is_preserved() {
    let mut warnings = Vec::new();
    let value = normalize_signing_key_value("ssh-ed25519 AAAATEST alice", "/repo", None, &FakeFiles::default(), &mut warnings);

    assert_eq!(value.as_deref(), Some("ssh-ed25519 AAAATEST alice"));
    assert!(warnings.is_empty());
}

#[test]
fn signing_key_public_file_path_is_converted_to_literal() {
    let mut files = FakeFiles::default();
    files.write("/sandbox/signing.pub", "ssh-ed25519 AAAAPUBLIC alice\n");
    let mut warnings = Vec::new();

    let value = normalize_signing_key_value("/sandbox/signing.pub", "/sandbox", None, &files, &mut warnings);

    assert_eq!(value.as_deref(), Some("ssh-ed25519 AAAAPUBLIC alice"));
    assert!(warnings.is_empty());
}

#[test]
fn signing_key_private_file_path_uses_sibling_public_key() {
    let mut files = FakeFiles::default();
    files.write("/sandbox/id_ed25519", "PRIVATE KEY CONTENT\n");
    files.write("/sandbox/id_ed25519.pub", "ssh-ed25519 AAAAPUBLIC alice\n");
    let mut warnings = Vec::new();

    let value = normalize_signing_key_value("/sandbox/id_ed25519", "/sandbox", None, &files, &mut warnings);

    assert_eq!(value.as_deref(), Some("ssh-ed25519 AAAAPUBLIC alice"));
    assert!(warnings.is_empty());
}

#[test]
fn signing_key_private_file_path_without_public_key_is_skipped() {
    let mut files = FakeFiles::default();
    files.write("/sandbox/id_ed25519", "PRIVATE KEY CONTENT\n");
    let mut warnings = Vec::new();

    let value = normalize_signing_key_value("/sandbox/id_ed25519", "/sandbox", None, &files, &mut warnings);

    assert!(value.is_none());
    assert_eq!(warnings.len(), 1);
    assert!(warnings[0].contains("not reading possible private key"));
}

#[test]
fn signing_key_paths_expand_home_and_the_git_root() {
    assert_eq!(signing_key_path("~", "/repo", Some("/home/alice")), Some("/home/alice".to_string()));
    assert_eq!(signing_key_path("~/.ssh/id.pub", "/repo", Some("/home/alice")), Some("/home/alice/.ssh/id.pub".to_string()));
    assert_eq!(signing_key_path("~/.ssh/id.pub", "/repo", None), None);
    assert_eq!(signing_key_path("~bob/id", "/repo", Some("/home/alice")), None);
    assert_eq!(signing_key_path("keys/id.pub", "/repo", None), Some("/repo/keys/id.pub".to_string()));
}

#[test]
fn signing_key_literals_are_recognised_by_their_type() {
    assert!(is_ssh_public_key_literal("key::ssh-rsa AAAA"));
    assert!(is_ssh_public_key_literal("ecdsa-sha2-nistp256 AAAA"));
    assert!(is_ssh_public_key_literal("sk-ssh-ed25519@openssh.com AAAA"));
    assert!(!is_ssh_public_key_literal("ABCDEF123456"));
    assert!(!is_ssh_public_key_literal("   "));
}

#[test]
fn public_key_file_without_a_literal_is_warned_about() {
    let mut files = FakeFiles::default();
    files.write("/sandbox/other.pub", "\n  not a key\n");
    let mut warnings = Vec::new();

    let value = normalize_signing_key_value("/sandbox/other.pub", "/sandbox", None, &files, &mut warnings);

    assert!(value.is_none());
    assert_eq!(warnings, ["public SSH signing key file `/sandbox/other.pub` does not contain an SSH public key literal"]);
}

// ---------------------------------------------------------------------------
// Git excludes file
// ---------------------------------------------------------------------------

fn excludes(git_root: &str, configured: Result<Option<String>, String>, env: &Environment, probe: impl Fn(&str) -> FileProbe, warnings: &mut Vec<String>) -> GitExcludesFilePassthrough {
    let (source, source_warnings) = source_path(git_root, configured, env);
    warnings.extend(source_warnings);
    let readable = match &source {
        Some(path) => {
            let (readable, file_warnings) = readable_regular_file(path, probe(path));
            warnings.extend(file_warnings);
            readable
        },
        None => false,
    };
    git_excludes_passthrough(source, readable)
}

fn empty_excludes() -> GitExcludesFilePassthrough {
    GitExcludesFilePassthrough { mount: None, git_config_entries: vec![] }
}

#[test]
fn configured_absolute_excludes_file_adds_read_only_mount_and_git_config() {
    let mut warnings = Vec::new();
    let passthrough = excludes("/repo", Ok(Some("/sandbox/ignore".to_string())), &env_of(&[]), |_| FileProbe::Readable, &mut warnings);

    assert_eq!(
        passthrough.mount,
        Some(RuntimeMount::read_only_bind("/sandbox/ignore".to_string(), "/run/agentbox/git-ignore".to_string()))
    );
    assert_eq!(passthrough.git_config_entries, [("core.excludesFile".to_string(), "/run/agentbox/git-ignore".to_string())]);
    assert!(warnings.is_empty());
}

#[test]
fn configured_relative_excludes_file_is_resolved_from_git_root() {
    let mut warnings = Vec::new();
    let passthrough = excludes("/repo", Ok(Some("config/ignore".to_string())), &env_of(&[]), |_| FileProbe::Readable, &mut warnings);

    assert_eq!(
        passthrough.mount,
        Some(RuntimeMount::read_only_bind("/repo/config/ignore".to_string(), "/run/agentbox/git-ignore".to_string()))
    );
}

#[test]
fn default_excludes_file_prefers_xdg_config_home() {
    let mut warnings = Vec::new();
    let passthrough = excludes(
        "/repo",
        Ok(None),
        &env_of(&[("XDG_CONFIG_HOME", "/xdg"), ("HOME", "/home/alice")]),
        |_| FileProbe::Readable,
        &mut warnings,
    );

    assert_eq!(
        passthrough.mount,
        Some(RuntimeMount::read_only_bind("/xdg/git/ignore".to_string(), "/run/agentbox/git-ignore".to_string()))
    );
    let home_only = excludes("/repo", Ok(None), &env_of(&[("HOME", "/home/alice")]), |_| FileProbe::Readable, &mut warnings);
    assert_eq!(
        home_only.mount,
        Some(RuntimeMount::read_only_bind("/home/alice/.config/git/ignore".to_string(), "/run/agentbox/git-ignore".to_string()))
    );
}

#[test]
fn missing_excludes_file_is_skipped_without_warning() {
    let mut warnings = Vec::new();
    let passthrough = excludes("/repo", Ok(None), &env_of(&[("HOME", "/home/alice")]), |_| FileProbe::Missing, &mut warnings);

    assert_eq!(passthrough, empty_excludes());
    assert!(warnings.is_empty());
}

#[test]
fn empty_configured_excludes_file_is_skipped_without_default_fallback() {
    let mut warnings = Vec::new();
    let passthrough = excludes(
        "/repo",
        Ok(Some(String::new())),
        &env_of(&[("HOME", "/home/alice")]),
        |_| panic!("no file may be inspected"),
        &mut warnings,
    );

    assert_eq!(passthrough, empty_excludes());
    assert!(warnings.is_empty());
}

#[test]
fn directory_excludes_file_warns_and_is_skipped() {
    let mut warnings = Vec::new();
    let passthrough = excludes("/repo", Ok(Some("/sandbox".to_string())), &env_of(&[]), |_| FileProbe::NotRegular, &mut warnings);

    assert_eq!(passthrough, empty_excludes());
    assert_eq!(warnings.len(), 1);
    assert!(warnings[0].contains("not a regular file"));
}

#[test]
fn git_config_failure_warns_and_is_skipped() {
    let mut warnings = Vec::new();
    let passthrough = excludes("/repo", Err("boom".to_string()), &env_of(&[("HOME", "/home/alice")]), |_| FileProbe::Readable, &mut warnings);

    assert_eq!(passthrough, empty_excludes());
    assert_eq!(warnings.len(), 1);
    assert!(warnings[0].contains("failed to read host Git config `core.excludesFile`"));
}

#[test]
fn non_unicode_home_is_warned_about_for_excludes() {
    let env = Environment::empty().with_value("HOME".to_string(), EnvValue::NotUnicode("/home/\u{FFFD}".to_string()));
    let mut warnings = Vec::new();
    let passthrough = excludes("/repo", Ok(None), &env, |_| FileProbe::Readable, &mut warnings);

    assert_eq!(passthrough, empty_excludes());
    assert_eq!(warnings, ["`HOME` must be a UTF-8 path for Git excludes file passthrough: /home/\u{FFFD}"]);
}

// ---------------------------------------------------------------------------
// Wayland
// ---------------------------------------------------------------------------

fn detect_wayland(env: &Environment, socket_usable: bool, warnings: &mut Vec<String>) -> Option<WaylandPassthrough> {
    match wayland_socket_candidate(env) {
        HostSocketCandidate::Unset => None,
        HostSocketCandidate::Rejected(warning) => {
            warnings.push(warning);
            None
        },
        HostSocketCandidate::Path(host_socket) => {
            if socket_usable {
                Some(WaylandPassthrough { host_socket })
            } else {
                warnings.push(wayland_unusable_warning("No such file or directory (os error 2)"));
                None
            }
        },
    }
}

#[test]
fn unset_or_empty_display_does_not_enable_passthrough() {
    let mut warnings = Vec::new();

    let unset = detect_wayland(&env_of(&[]), true, &mut warnings);
    let empty = detect_wayland(&env_of(&[(HOST_WAYLAND_DISPLAY_ENV, "")]), true, &mut warnings);

    assert_eq!(unset, None);
    assert_eq!(empty, None);
    assert!(warnings.is_empty());
}

#[test]
fn relative_display_resolves_to_runtime_socket_and_applies_minimal_contract() {
    let mut warnings = Vec::new();
    let passthrough = detect_wayland(
        &env_of(&[(HOST_WAYLAND_DISPLAY_ENV, "wayland-7"), (HOST_XDG_RUNTIME_DIR_ENV, "/run/user/1000")]),
        true,
        &mut warnings,
    )
    .unwrap();
    let mut spec = empty_run_spec();

    passthrough.apply_to(&mut spec);

    assert_eq!(
        spec.create().mounts(),
        &vec![RuntimeMount::bind("/run/user/1000/wayland-7".to_string(), CONTAINER_WAYLAND_DISPLAY.to_string())]
    );
    assert_eq!(spec.create().default_env().get(HOST_WAYLAND_DISPLAY_ENV).as_deref(), Some(CONTAINER_WAYLAND_DISPLAY));
    assert!(!spec.create().default_env().contains_key(HOST_XDG_RUNTIME_DIR_ENV));
    assert!(warnings.is_empty());
}

#[test]
fn absolute_display_does_not_require_runtime_directory() {
    let mut warnings = Vec::new();
    let passthrough = detect_wayland(&env_of(&[(HOST_WAYLAND_DISPLAY_ENV, "/tmp/sandbox/wayland-7")]), true, &mut warnings).unwrap();

    assert_eq!(passthrough.host_socket, "/tmp/sandbox/wayland-7");
    assert!(warnings.is_empty());
}

#[test]
fn unresolved_relative_display_warns_and_disables_passthrough() {
    let mut warnings = Vec::new();
    let passthrough = detect_wayland(&env_of(&[(HOST_WAYLAND_DISPLAY_ENV, "wayland-0")]), true, &mut warnings);

    assert_eq!(passthrough, None);
    assert_eq!(warnings.len(), 1);
}

#[test]
fn unusable_socket_warns_and_disables_passthrough() {
    let mut warnings = Vec::new();
    let passthrough = detect_wayland(
        &env_of(&[(HOST_WAYLAND_DISPLAY_ENV, "missing.sock"), (HOST_XDG_RUNTIME_DIR_ENV, "/tmp/sandbox")]),
        false,
        &mut warnings,
    );

    assert_eq!(passthrough, None);
    assert_eq!(warnings.len(), 1);
}

#[test]
fn relative_runtime_directory_is_refused() {
    let mut warnings = Vec::new();
    let passthrough = detect_wayland(&env_of(&[(HOST_WAYLAND_DISPLAY_ENV, "wayland-0"), (HOST_XDG_RUNTIME_DIR_ENV, "run")]), true, &mut warnings);

    assert_eq!(passthrough, None);
    assert_eq!(warnings, ["XDG_RUNTIME_DIR is not absolute; Wayland passthrough disabled"]);
}

#[test]
fn remote_listing_gives_the_url_of_each_line() {
    let listing = "origin\tgit@github.com:org/repo.git (fetch)\norigin\tgit@github.com:org/repo.git (push)\n\nlonely\n";
    assert_eq!(
        remote_urls_from_listing(listing),
        vec!["git@github.com:org/repo.git".to_string(), "git@github.com:org/repo.git".to_string()]
    );
}

#[test]
fn no_known_hosts_lines_prepare_no_file() {
    assert_eq!(known_hosts_file_contents(&Vec::new()), None);
    assert_eq!(
        known_hosts_file_contents(&vec!["a ssh-ed25519 AAAA".to_string(), "b ssh-rsa BBBB".to_string()]),
        Some("a ssh-ed25519 AAAA\nb ssh-rsa BBBB\n".to_string())
    );
}

#[test]
fn known_hosts_collection_keeps_every_found_entry_in_asking_order() {
    let hosts = vec![
        SshRemoteHost { config_host: "github.com".to_string(), port: None },
        SshRemoteHost { config_host: "gitlab.com".to_string(), port: Some(2222) },
    ];
    let configs = vec![
        Ok(SshHostConfig {
            lookup_hosts: vec!["github.com".to_string()],
            known_hosts_files: vec!["/home/alice/.ssh/known_hosts".to_string(), "/etc/ssh/ssh_known_hosts".to_string()],
        }),
        Err(SshConfigLookupError::Unavailable("not found".to_string())),
    ];
    let entries = vec![
        Ok(vec!["github.com ssh-ed25519 AAAA".to_string()]),
        Ok(vec![]),
        Ok(vec!["[gitlab.com]:2222 ssh-ed25519 BBBB".to_string()]),
    ];
    let run = run_known_hosts_collection(hosts, vec!["/home/alice/.ssh/known_hosts".to_string()], configs, entries);
    assert!(run.complete);
    assert_eq!(run.lines, vec!["github.com ssh-ed25519 AAAA".to_string(), "[gitlab.com]:2222 ssh-ed25519 BBBB".to_string()]);
    assert_eq!(run.configs_used, 2);
    assert_eq!(run.entries_used, 3);
    assert_eq!(run.warnings.len(), 1);
    assert!(run.warnings[0].contains("ssh is unavailable for SSH config lookup for remote host `[gitlab.com]:2222`"));
}

#[test]
fn known_hosts_collection_gives_nothing_after_a_failed_search() {
    let hosts = vec![SshRemoteHost { config_host: "github.com".to_string(), port: None }];
    let configs = vec![Ok(SshHostConfig {
        lookup_hosts: vec!["github.com".to_string(), "140.82.112.3".to_string()],
        known_hosts_files: vec!["/home/alice/.ssh/known_hosts".to_string()],
    })];
    let entries = vec![
        Ok(vec!["github.com ssh-ed25519 AAAA".to_string()]),
        Err(KnownHostsLookupError::Failed("exit status 2".to_string())),
    ];
    let run = run_known_hosts_collection(hosts, Vec::new(), configs, entries);
    assert!(run.complete);
    assert!(run.lines.is_empty());
    assert_eq!(run.entries_used, 2);
    assert_eq!(run.warnings.len(), 1);
}

#[test]
fn ssh_config_known_hosts_files_are_kept_once_per_path() {
    let remote_host = SshRemoteHost { config_host: "github.com".to_string(), port: None };
    let config = parse_ssh_config_output(
        "userknownhostsfile /home/alice/.ssh/known_hosts /home/alice//.ssh/./known_hosts\nglobalknownhostsfile /etc/ssh/ssh_known_hosts\n",
        &remote_host,
    );

    assert_eq!(config.known_hosts_files, ["/home/alice/.ssh/known_hosts", "/etc/ssh/ssh_known_hosts"]);
}

#[test]
fn known_hosts_collection_stops_incomplete_when_answers_run_out() {
    let hosts = vec![
        SshRemoteHost { config_host: "github.com".to_string(), port: None },
        SshRemoteHost { config_host: "gitlab.com".to_string(), port: None },
    ];
    let configs = vec![Ok(SshHostConfig {
        lookup_hosts: vec!["github.com".to_string()],
        known_hosts_files: vec!["/home/alice/.ssh/known_hosts".to_string()],
    })];
    let entries = vec![Ok(vec![])];
    let run = run_known_hosts_collection(hosts, Vec::new(), configs, entries);
    assert!(!run.complete);
    assert!(run.lines.is_empty());
    assert_eq!(run.configs_used, 1);
    assert_eq!(run.entries_used, 1);
    assert_eq!(
        run.warnings,
        vec!["no known_hosts entry found for SSH remote host `github.com`; Git SSH host verification may fail".to_string()]
    );
}
