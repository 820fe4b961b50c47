//! How a runtime container is specified for a workspace.

use vstd::prelude::*;

use crate::container_paths::NIX_CACHE_DESTINATION;
use crate::metadata::{
    managed_labels_spec, managed_session_labels, transient_labels_spec, transient_run_labels,
    SessionLabelInput,
};
use crate::order::strings_view;
use crate::string_map::StringMap;
use crate::text::owned;
use crate::workspace::WorkspaceIdentity;

use super::default_image::{context_hash_spec, default_context_files, default_image_spec};
use super::kind::{attach_of, default_env_of, RuntimeKind};
use super::spec::{
    copy_mounts, mounts_view, CreateSpecView, MountView, ResourceLimits, RuntimeCreateSpec,
    RuntimeInvocation, RuntimeMount, RuntimeMountKind, RuntimeRunMode, RuntimeRunSpec,
    DEFAULT_HOST_ATTACH_IP,
};

verus! {

/// The mounts of a workspace container: the Git root at its own path, the workspace's Nix
/// cache volume, the host's Nix mounts, then the runtime's own mounts.
pub open spec fn workspace_mounts_spec(
    workspace: &WorkspaceIdentity,
    host_nix_mounts: Seq<MountView>,
    runtime_mounts: Seq<MountView>,
) -> Seq<MountView> {
    seq![
        MountView {
            kind: RuntimeMountKind::Bind,
            source: workspace.canonical_git_root@,
            destination: workspace.canonical_git_root@,
            read_only: false,
        },
        MountView {
            kind: RuntimeMountKind::Volume,
            source: workspace.container_name@,
            destination: NIX_CACHE_DESTINATION@,
            read_only: false,
        },
    ] + host_nix_mounts + runtime_mounts
}

/// A workspace container mounts its Git root first, writable, at its own path; then the
/// workspace's Nix cache volume; then the host's Nix mounts and the runtime's mounts, each in
/// order and nothing else.
pub proof fn lemma_workspace_root_mount_is_writable(
    workspace: &WorkspaceIdentity,
    host_nix_mounts: Seq<MountView>,
    runtime_mounts: Seq<MountView>,
)
    ensures
        ({
            let m = workspace_mounts_spec(workspace, host_nix_mounts, runtime_mounts);
            &&& m.len() == 2 + host_nix_mounts.len() + runtime_mounts.len()
            &&& m[0].kind == RuntimeMountKind::Bind
            &&& m[0].source == workspace.canonical_git_root@
            &&& m[0].destination == workspace.canonical_git_root@
            &&& !m[0].read_only
            &&& m[1].kind == RuntimeMountKind::Volume
            &&& m[1].source == workspace.container_name@
            &&& m[1].destination == NIX_CACHE_DESTINATION@
            &&& !m[1].read_only
            &&& forall|k: int| 0 <= k < host_nix_mounts.len() ==> m[2 + k] == #[trigger] host_nix_mounts[k]
            &&& forall|k: int| 0 <= k < runtime_mounts.len() ==> m[2 + host_nix_mounts.len() + k] == #[trigger] runtime_mounts[k]
        }),
{
}

/// The mounts of a workspace container.
pub fn runtime_mounts_for_workspace(
    workspace: &WorkspaceIdentity,
    host_nix_mounts: &[RuntimeMount],
    runtime_mounts: &[RuntimeMount],
) -> (r: Vec<RuntimeMount>)
    ensures
        mounts_view(r@) == workspace_mounts_spec(workspace, mounts_view(host_nix_mounts@), mounts_view(runtime_mounts@)),
        r@.len() >= 2,
        r@[0]@.kind == RuntimeMountKind::Bind,
        r@[0]@.source == workspace.canonical_git_root@,
        r@[0]@.destination == workspace.canonical_git_root@,
        !r@[0]@.read_only,
{
    let mut mounts: Vec<RuntimeMount> = Vec::new();
    mounts.push(RuntimeMount::bind(workspace.canonical_git_root.clone(), workspace.canonical_git_root.clone()));
    mounts.push(RuntimeMount::volume(workspace.container_name.clone(), owned(NIX_CACHE_DESTINATION)));
    let ghost first = mounts@;
    let mut a = copy_mounts(host_nix_mounts);
    let mut b = copy_mounts(runtime_mounts);
    let ghost av = a@;
    let ghost bv = b@;
    mounts.append(&mut a);
    let ghost second = mounts@;
    mounts.append(&mut b);
    assert(mounts_view(second) =~= mounts_view(first) + mounts_view(av));
    assert(mounts_view(mounts@) =~= mounts_view(second) + mounts_view(bv));
    assert(mounts_view(mounts@) =~= workspace_mounts_spec(workspace, mounts_view(host_nix_mounts@), mounts_view(runtime_mounts@)));
    proof {
        lemma_workspace_root_mount_is_writable(workspace, mounts_view(host_nix_mounts@), mounts_view(runtime_mounts@));
        assert(mounts_view(mounts@)[0] == mounts@[0]@);
    }
    mounts
}

/// The labels of a container run in `mode`: managed-session labels, transient-run labels,
/// or none in the foreground.
pub open spec fn mode_labels_spec(mode: RuntimeRunMode, input: SessionLabelInput) -> Map<Seq<char>, Seq<char>> {
    match mode {
        RuntimeRunMode::ManagedSession => managed_labels_spec(input),
        RuntimeRunMode::TransientServer => transient_labels_spec(input),
        RuntimeRunMode::Foreground => Map::empty(),
    }
}

/// The port publications of a container run in `mode`: the server's port on the local
/// host address when the mode publishes it, none otherwise.
pub open spec fn published_ports_spec(runtime: RuntimeKind, mode: RuntimeRunMode) -> Seq<Seq<char>> {
    if mode != RuntimeRunMode::Foreground {
        seq![DEFAULT_HOST_ATTACH_IP@ + "::"@ + crate::text::decimal(attach_of(runtime).container_port as nat)]
    } else {
        Seq::empty()
    }
}

/// Whether `labels` are the labels of a container of `runtime` run in `mode` for
/// `workspace` from `image`.
pub open spec fn labels_for(
    labels: Map<Seq<char>, Seq<char>>,
    runtime: RuntimeKind,
    mode: RuntimeRunMode,
    workspace: &WorkspaceIdentity,
    image: Seq<char>,
) -> bool {
    exists|input: SessionLabelInput| {
        &&& input.canonical_git_root@ == workspace.canonical_git_root@
        &&& input.git_root_hash@ == workspace.hash12@
        &&& input.runtime == runtime
        &&& input.image@ == image
        &&& input.launch_directory@ == workspace.canonical_target@
        &&& input.logical_name@ == workspace.container_name@
        &&& labels == mode_labels_spec(mode, input)
    }
}

impl RuntimeKind {
    /// The container a runtime runs in for `workspace` in `mode`: the runtime's default
    /// image, the labels of the mode, the workspace mounts, `command`, the runtime's default
    /// environment, the server's port publication when the mode publishes it, and
    /// `resource_limits`.
    pub fn create_spec(
        self,
        mode: RuntimeRunMode,
        workspace: &WorkspaceIdentity,
        host_nix_mounts: &[RuntimeMount],
        runtime_mounts: &[RuntimeMount],
        command: Vec<String>,
        resource_limits: ResourceLimits,
    ) -> (r: RuntimeCreateSpec)
        ensures
            r@.image == default_image_spec(self, context_hash_spec(default_context_files())),
            labels_for(r@.labels, self, mode, workspace, r@.image),
            r@.mounts == workspace_mounts_spec(workspace, mounts_view(host_nix_mounts@), mounts_view(runtime_mounts@)),
            r@.command == strings_view(command@),
            r@.default_env == default_env_of(self),
            r@.network_enabled,
            r@.published_ports == published_ports_spec(self, mode),
            r.limits() == resource_limits,
    {
        let image = self.default_image();
        let input = SessionLabelInput {
            canonical_git_root: workspace.canonical_git_root.as_str(),
            git_root_hash: workspace.hash12.as_str(),
            runtime: self,
            image: image.as_str(),
            launch_directory: workspace.canonical_target.as_str(),
            logical_name: workspace.container_name.as_str(),
        };
        let labels = match mode {
            RuntimeRunMode::ManagedSession => managed_session_labels(&input),
            RuntimeRunMode::TransientServer => transient_run_labels(&input),
            RuntimeRunMode::Foreground => StringMap::new(),
        };
        assert(labels@ == mode_labels_spec(mode, input));
        let mut published_ports: Vec<String> = Vec::new();
        if mode.publishes_attach_endpoint() {
            published_ports.push(self.attach_spec().published_port(DEFAULT_HOST_ATTACH_IP));
        }
        assert(strings_view(published_ports@) =~= published_ports_spec(self, mode));
        let mounts = runtime_mounts_for_workspace(workspace, host_nix_mounts, runtime_mounts);
        let image_copy = image.clone();
        RuntimeCreateSpec::builder(image_copy)
            .labels(labels)
            .mounts(mounts)
            .command(command)
            .default_env(self.default_env())
            .published_ports(published_ports)
            .resource_limits(resource_limits)
            .build()
    }

    /// The container a runtime runs in for `workspace` in `mode`, and the directory
    /// `invocation` runs in.
    pub fn run_spec(
        self,
        mode: RuntimeRunMode,
        workspace: &WorkspaceIdentity,
        host_nix_mounts: &[RuntimeMount],
        runtime_mounts: &[RuntimeMount],
        invocation: RuntimeInvocation,
        resource_limits: ResourceLimits,
    ) -> (r: RuntimeRunSpec)
        ensures
            r.create_view().image == default_image_spec(self, context_hash_spec(default_context_files())),
            labels_for(r.create_view().labels, self, mode, workspace, r.create_view().image),
            r.create_view().mounts == workspace_mounts_spec(workspace, mounts_view(host_nix_mounts@), mounts_view(runtime_mounts@)),
            r.create_view().command == invocation.argv_view(),
            r.create_view().default_env == default_env_of(self),
            r.create_view().network_enabled,
            r.create_view().published_ports == published_ports_spec(self, mode),
            r.workdir_view() == invocation.workdir_view(),
    {
        let (command, workdir) = invocation.into_parts();
        let create = self.create_spec(mode, workspace, host_nix_mounts, runtime_mounts, command, resource_limits);
        RuntimeRunSpec::new(create, workdir)
    }
}

} // verus!
