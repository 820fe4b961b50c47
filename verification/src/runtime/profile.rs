//! The host state each runtime profile mounts, by run mode.

use vstd::prelude::*;

use crate::container_paths::{
    CODEX_CONFIG_DESTINATION, OPENCODE_CONFIG_DESTINATION, OPENCODE_DATA_DESTINATION,
};

use super::host_state::{
    components_view, snapshot_key_spec, RuntimeHostStateContainerEnvironment,
    RuntimeHostStateDestination, RuntimeHostStateMount, RuntimeHostStateSource, SourceView,
};
use super::kind::RuntimeKind;
use super::spec::RuntimeRunMode;

verus! {

/// The variable that relocates the Codex home directory.
pub const CODEX_HOME_ENV: &'static str = "CODEX_HOME";

/// The mathematical form of a host-state mount.
pub struct HostStateMountView {
    pub source: SourceView,
    pub product_name: Seq<char>,
    pub description: Seq<char>,
    pub destination: RuntimeHostStateDestination,
    pub container_environment: Option<RuntimeHostStateContainerEnvironment>,
}

impl View for RuntimeHostStateMount {
    type V = HostStateMountView;

    open spec fn view(&self) -> HostStateMountView {
        HostStateMountView {
            source: self.source@,
            product_name: self.product_name@,
            description: self.description@,
            destination: self.destination,
            container_environment: self.container_environment,
        }
    }
}

/// The mounts of `v`, by their mathematical form.
pub open spec fn host_state_views(v: Seq<RuntimeHostStateMount>) -> Seq<HostStateMountView> {
    v.map_values(|m: RuntimeHostStateMount| m@)
}

/// OpenCode's configuration: `$XDG_CONFIG_HOME/opencode`, or `$HOME/.config/opencode`.
pub open spec fn opencode_config_mount() -> HostStateMountView {
    HostStateMountView {
        source: SourceView::XdgOrHome {
            xdg_variable: "XDG_CONFIG_HOME"@,
            xdg: seq!["opencode"@],
            home: seq![".config"@, "opencode"@],
        },
        product_name: "OpenCode"@,
        description: "configuration"@,
        destination: RuntimeHostStateDestination::Fixed(OPENCODE_CONFIG_DESTINATION),
        container_environment: None,
    }
}

/// OpenCode's data: `$XDG_DATA_HOME/opencode`, or `$HOME/.local/share/opencode`.
pub open spec fn opencode_data_mount() -> HostStateMountView {
    HostStateMountView {
        source: SourceView::XdgOrHome {
            xdg_variable: "XDG_DATA_HOME"@,
            xdg: seq!["opencode"@],
            home: seq![".local"@, "share"@, "opencode"@],
        },
        product_name: "OpenCode"@,
        description: "data"@,
        destination: RuntimeHostStateDestination::Fixed(OPENCODE_DATA_DESTINATION),
        container_environment: None,
    }
}

/// Codex's configuration for a server: `$CODEX_HOME`, or `$HOME/.codex`; mounted at its own
/// path and named by `CODEX_HOME` in the container when it came from `CODEX_HOME`.
pub open spec fn codex_server_mount() -> HostStateMountView {
    HostStateMountView {
        source: SourceView::EnvironmentOrHome {
            environment_variable: CODEX_HOME_ENV@,
            home: seq![".codex"@],
        },
        product_name: "Codex"@,
        description: "configuration"@,
        destination: RuntimeHostStateDestination::SourcePathWhenEnvironment {
            environment_variable: CODEX_HOME_ENV,
            fallback_destination: CODEX_CONFIG_DESTINATION,
        },
        container_environment: Some(
            RuntimeHostStateContainerEnvironment {
                name: CODEX_HOME_ENV,
                source_environment_variable: CODEX_HOME_ENV,
            },
        ),
    }
}

/// Codex's configuration in the foreground: `$HOME/.codex`.
pub open spec fn codex_foreground_mount() -> HostStateMountView {
    HostStateMountView {
        source: SourceView::HomeOnly { home: seq![".codex"@] },
        product_name: "Codex"@,
        description: "configuration"@,
        destination: RuntimeHostStateDestination::Fixed(CODEX_CONFIG_DESTINATION),
        container_environment: None,
    }
}

/// The host state a runtime mounts in a run mode.
pub open spec fn host_state_table(kind: RuntimeKind, mode: RuntimeRunMode) -> Seq<HostStateMountView> {
    match kind {
        RuntimeKind::Opencode => seq![opencode_config_mount(), opencode_data_mount()],
        RuntimeKind::Codex => match mode {
            RuntimeRunMode::Foreground => seq![codex_foreground_mount()],
            _ => seq![codex_server_mount()],
        },
    }
}

/// The host state of all runtimes in a run mode, OpenCode's first.
pub open spec fn all_host_state_table(mode: RuntimeRunMode) -> Seq<HostStateMountView> {
    host_state_table(RuntimeKind::Opencode, mode) + host_state_table(RuntimeKind::Codex, mode)
}

fn components1(a: &'static str) -> (r: Vec<&'static str>)
    ensures
        r@ == seq![a],
{
    let mut r: Vec<&'static str> = Vec::new();
    r.push(a);
    assert(r@ =~= seq![a]);
    r
}

fn components2(a: &'static str, b: &'static str) -> (r: Vec<&'static str>)
    ensures
        r@ == seq![a, b],
{
    let mut r: Vec<&'static str> = Vec::new();
    r.push(a);
    r.push(b);
    assert(r@ =~= seq![a, b]);
    r
}

fn components3(a: &'static str, b: &'static str, c: &'static str) -> (r: Vec<&'static str>)
    ensures
        r@ == seq![a, b, c],
{
    let mut r: Vec<&'static str> = Vec::new();
    r.push(a);
    r.push(b);
    r.push(c);
    assert(r@ =~= seq![a, b, c]);
    r
}

fn opencode_mounts() -> (r: Vec<RuntimeHostStateMount>)
    ensures
        host_state_views(r@) == seq![opencode_config_mount(), opencode_data_mount()],
{
    let mut r: Vec<RuntimeHostStateMount> = Vec::new();
    r.push(
        RuntimeHostStateMount {
            source: RuntimeHostStateSource::XdgOrHome {
                xdg_variable: "XDG_CONFIG_HOME",
                xdg_relative_components: components1("opencode"),
                home_relative_components: components2(".config", "opencode"),
            },
            product_name: "OpenCode",
            description: "configuration",
            destination: RuntimeHostStateDestination::Fixed(OPENCODE_CONFIG_DESTINATION),
            container_environment: None,
        },
    );
    r.push(
        RuntimeHostStateMount {
            source: RuntimeHostStateSource::XdgOrHome {
                xdg_variable: "XDG_DATA_HOME",
                xdg_relative_components: components1("opencode"),
                home_relative_components: components3(".local", "share", "opencode"),
            },
            product_name: "OpenCode",
            description: "data",
            destination: RuntimeHostStateDestination::Fixed(OPENCODE_DATA_DESTINATION),
            container_environment: None,
        },
    );
    proof {
        assert(components_view(seq!["opencode"]) =~= seq!["opencode"@]);
        assert(components_view(seq![".config", "opencode"]) =~= seq![".config"@, "opencode"@]);
        assert(components_view(seq![".local", "share", "opencode"]) =~= seq![".local"@, "share"@, "opencode"@]);
    }
    assert(host_state_views(r@) =~= seq![opencode_config_mount(), opencode_data_mount()]);
    r
}

fn codex_mounts(mode: RuntimeRunMode) -> (r: Vec<RuntimeHostStateMount>)
    ensures
        host_state_views(r@) == host_state_table(RuntimeKind::Codex, mode),
{
    let mut r: Vec<RuntimeHostStateMount> = Vec::new();
    match mode {
        RuntimeRunMode::Foreground => {
            r.push(
                RuntimeHostStateMount {
                    source: RuntimeHostStateSource::HomeOnly {
                        home_relative_components: components1(".codex"),
                    },
                    product_name: "Codex",
                    description: "configuration",
                    destination: RuntimeHostStateDestination::Fixed(CODEX_CONFIG_DESTINATION),
                    container_environment: None,
                },
            );
        },
        RuntimeRunMode::ManagedSession | RuntimeRunMode::TransientServer => {
            r.push(
                RuntimeHostStateMount {
                    source: RuntimeHostStateSource::EnvironmentOrHome {
                        environment_variable: CODEX_HOME_ENV,
                        home_relative_components: components1(".codex"),
                    },
                    product_name: "Codex",
                    description: "configuration",
                    destination: RuntimeHostStateDestination::SourcePathWhenEnvironment {
                        environment_variable: CODEX_HOME_ENV,
                        fallback_destination: CODEX_CONFIG_DESTINATION,
                    },
                    container_environment: Some(
                        RuntimeHostStateContainerEnvironment {
                            name: CODEX_HOME_ENV,
                            source_environment_variable: CODEX_HOME_ENV,
                        },
                    ),
                },
            );
        },
    }
    proof {
        assert(components_view(seq![".codex"]) =~= seq![".codex"@]);
    }
    assert(host_state_views(r@) =~= host_state_table(RuntimeKind::Codex, mode));
    r
}

impl RuntimeKind {
    /// The host state the runtime mounts in `mode`.
    pub fn host_state_mounts(self, mode: RuntimeRunMode) -> (r: Vec<RuntimeHostStateMount>)
        ensures
            host_state_views(r@) == host_state_table(self, mode),
    {
        match self {
            RuntimeKind::Opencode => opencode_mounts(),
            RuntimeKind::Codex => codex_mounts(mode),
        }
    }
}

/// The host state of all runtimes in `mode`, OpenCode's first.
pub fn all_host_state_mounts(mode: RuntimeRunMode) -> (r: Vec<RuntimeHostStateMount>)
    ensures
        host_state_views(r@) == all_host_state_table(mode),
{
    let mut r = RuntimeKind::Opencode.host_state_mounts(mode);
    let mut c = RuntimeKind::Codex.host_state_mounts(mode);
    let ghost a = r@;
    let ghost b = c@;
    r.append(&mut c);
    assert(host_state_views(r@) =~= host_state_views(a) + host_state_views(b));
    r
}

/// In every run mode, no two runtime host-state mounts share a destination.
pub proof fn lemma_host_state_destinations_unique(mode: RuntimeRunMode)
    ensures
        forall|i: int, j: int|
            0 <= i < j < all_host_state_table(mode).len() ==> snapshot_key_spec(
                #[trigger] all_host_state_table(mode)[i].destination,
            ) != snapshot_key_spec(#[trigger] all_host_state_table(mode)[j].destination),
{
    reveal_strlit("/home/agentbox/.config/opencode");
    reveal_strlit("/home/agentbox/.local/share/opencode");
    reveal_strlit("/home/agentbox/.codex");
    let t = all_host_state_table(mode);
    assert(t.len() == 3);
    assert(snapshot_key_spec(t[0].destination).len() == 31);
    assert(snapshot_key_spec(t[1].destination).len() == 36);
    assert(snapshot_key_spec(t[2].destination).len() == 21);
}

} // verus!
