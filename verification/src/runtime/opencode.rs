//! The OpenCode runtime on its own: its container for a workspace, its command line, and
//! what its image and the host must provide.

use vstd::prelude::*;

use crate::container_paths::{
    ETC_NIX_DESTINATION, ETC_STATIC_NIX_DESTINATION, NIX_CLIENT_DESTINATION, NIX_STORE_DESTINATION,
};
use crate::metadata::{
    LABEL_GIT_ROOT, LABEL_GIT_ROOT_HASH, LABEL_IMAGE, LABEL_LOGICAL_NAME, LABEL_MANAGED,
    LABEL_MANAGED_VALUE, LABEL_RUNTIME, LABEL_SCHEMA, LABEL_SCHEMA_VALUE,
};
use crate::order::strings_view;
use crate::string_map::StringMap;
use crate::text::owned;
use crate::workspace::WorkspaceIdentity;

use super::run::{runtime_mounts_for_workspace, workspace_mounts_spec};
use super::spec::{mounts_view, RuntimeCreateSpec, RuntimeMount};

verus! {

/// The runtime's name.
pub const RUNTIME_NAME: &'static str = "opencode";

/// The image used when none is given.
pub const DEFAULT_IMAGE: &'static str = "localhost/agentbox-opencode:local";

/// The OpenCode runtime.
#[derive(Debug, Clone, Default)]
pub struct OpencodeRuntime;

/// A command line and whether it runs detached.
#[derive(Debug, PartialEq, Eq)]
pub struct RuntimeExecSpec {
    pub argv: Vec<String>,
    pub detached: bool,
}

/// The labels of an OpenCode session container for `workspace` from `image`.
pub open spec fn opencode_labels_spec(workspace: &WorkspaceIdentity, image: Seq<char>) -> Map<Seq<char>, Seq<char>> {
    Map::<Seq<char>, Seq<char>>::empty()
        .insert(LABEL_MANAGED@, LABEL_MANAGED_VALUE@)
        .insert(LABEL_SCHEMA@, LABEL_SCHEMA_VALUE@)
        .insert(LABEL_GIT_ROOT@, workspace.canonical_git_root@)
        .insert(LABEL_GIT_ROOT_HASH@, workspace.hash12@)
        .insert(LABEL_RUNTIME@, RUNTIME_NAME@)
        .insert(LABEL_IMAGE@, image)
        .insert(LABEL_LOGICAL_NAME@, workspace.container_name@)
}

impl OpencodeRuntime {
    /// The runtime.
    pub fn new() -> (r: Self) {
        OpencodeRuntime
    }

    /// The container of an OpenCode session for `workspace`: `image` (the default image
    /// when none is given), the session labels, the workspace mounts followed by the host's
    /// Nix mounts, and the foreground command, with networking and without resource limits.
    pub fn create_spec(
        &self,
        workspace: &WorkspaceIdentity,
        image: Option<&str>,
        host_nix_mounts: &[RuntimeMount],
    ) -> (r: RuntimeCreateSpec)
        ensures
            r@.image == match image {
                Some(i) => i@,
                None => DEFAULT_IMAGE@,
            },
            r@.labels == opencode_labels_spec(workspace, r@.image),
            r@.mounts == workspace_mounts_spec(workspace, mounts_view(host_nix_mounts@), Seq::empty()),
            r@.command == seq![RUNTIME_NAME@],
            r@.default_env == Map::<Seq<char>, Seq<char>>::empty(),
            r@.network_enabled,
            r@.published_ports == Seq::<Seq<char>>::empty(),
            r.limits().memory is None,
            r.limits().cpus is None,
    {
        let image = match image {
            Some(i) => owned(i),
            None => owned(DEFAULT_IMAGE),
        };
        let mut labels = StringMap::new();
        labels.insert(owned(LABEL_MANAGED), owned(LABEL_MANAGED_VALUE));
        labels.insert(owned(LABEL_SCHEMA), owned(LABEL_SCHEMA_VALUE));
        labels.insert(owned(LABEL_GIT_ROOT), workspace.canonical_git_root.clone());
        labels.insert(owned(LABEL_GIT_ROOT_HASH), workspace.hash12.clone());
        labels.insert(owned(LABEL_RUNTIME), owned(RUNTIME_NAME));
        labels.insert(owned(LABEL_IMAGE), image.clone());
        labels.insert(owned(LABEL_LOGICAL_NAME), workspace.container_name.clone());
        let no_mounts: Vec<RuntimeMount> = Vec::new();
        let mounts = runtime_mounts_for_workspace(workspace, host_nix_mounts, no_mounts.as_slice());
        assert(mounts_view(no_mounts@) =~= Seq::empty());
        let command = self.foreground_command().argv;
        RuntimeCreateSpec::builder(image)
            .labels(labels)
            .mounts(mounts)
            .command(command)
            .build()
    }

    /// The command line of OpenCode in the foreground, attached.
    pub fn foreground_command(&self) -> (r: RuntimeExecSpec)
        ensures
            strings_view(r.argv@) == seq![RUNTIME_NAME@],
            !r.detached,
    {
        let mut argv: Vec<String> = Vec::new();
        argv.push(owned(RUNTIME_NAME));
        assert(strings_view(argv@) =~= seq![RUNTIME_NAME@]);
        RuntimeExecSpec { argv, detached: false }
    }
}

/// The container paths the host must provide for Nix.
pub fn required_host_mount_destinations() -> (r: [&'static str; 4])
    ensures
        r@ == seq![NIX_STORE_DESTINATION, NIX_CLIENT_DESTINATION, ETC_NIX_DESTINATION, ETC_STATIC_NIX_DESTINATION],
{
    [NIX_STORE_DESTINATION, NIX_CLIENT_DESTINATION, ETC_NIX_DESTINATION, ETC_STATIC_NIX_DESTINATION]
}

/// The paths of the OpenCode image build context, relative to its root.
pub fn embedded_default_image_paths() -> (r: Vec<&'static str>)
    ensures
        r@ == seq!["Containerfile", "bootstrap", "entrypoint", "lib/runtime-contract.sh", "runtime-packages.nix"],
{
    let mut r: Vec<&'static str> = Vec::new();
    r.push("Containerfile");
    r.push("bootstrap");
    r.push("entrypoint");
    r.push("lib/runtime-contract.sh");
    r.push("runtime-packages.nix");
    assert(r@ =~= seq!["Containerfile", "bootstrap", "entrypoint", "lib/runtime-contract.sh", "runtime-packages.nix"]);
    r
}

} // verus!
