//! Fixed paths inside runtime containers.

use vstd::prelude::*;

verus! {

/// Where the OpenCode configuration of the host is mounted.
pub const OPENCODE_CONFIG_DESTINATION: &'static str = "/home/agentbox/.config/opencode";

/// Where the OpenCode data of the host is mounted.
pub const OPENCODE_DATA_DESTINATION: &'static str = "/home/agentbox/.local/share/opencode";

/// Where the Codex configuration of the host is mounted by default.
pub const CODEX_CONFIG_DESTINATION: &'static str = "/home/agentbox/.codex";

/// Where the per-workspace Nix cache volume is mounted.
pub const NIX_CACHE_DESTINATION: &'static str = "/home/agentbox/.cache/nix";

/// Where the host's Nix store is mounted.
pub const NIX_STORE_DESTINATION: &'static str = "/nix/store";

/// Where the host's Nix daemon client state is mounted.
pub const NIX_CLIENT_DESTINATION: &'static str = "/nix/var/nix";

/// Where the host's Nix configuration is mounted.
pub const ETC_NIX_DESTINATION: &'static str = "/etc/nix";

/// Where the host's static Nix configuration is mounted.
pub const ETC_STATIC_NIX_DESTINATION: &'static str = "/etc/static/nix";

/// Where the host's SSH agent socket is mounted.
pub const CONTAINER_SSH_AUTH_SOCK: &'static str = "/run/agentbox/ssh-agent.sock";

/// Where the known_hosts file prepared for Git over SSH is mounted.
pub const CONTAINER_KNOWN_HOSTS: &'static str = "/run/agentbox/known_hosts";

/// Where the host's Git excludes file is mounted.
pub const CONTAINER_GIT_EXCLUDES_FILE: &'static str = "/run/agentbox/git-ignore";

/// Where the host's Wayland socket is mounted.
pub const CONTAINER_WAYLAND_DISPLAY: &'static str = "/run/agentbox/wayland.sock";

} // verus!
