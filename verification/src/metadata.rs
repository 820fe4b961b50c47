//! The labels agentbox puts on its containers, and what they say about a container.

use vstd::prelude::*;

use crate::runtime::kind::{kind_name, RuntimeKind};
use crate::runtime::spec::RuntimeAttachSpec;
use crate::string_map::StringMap;
use crate::text::{decimal, decimal_string, owned, str_eq};

verus! {

/// Marks a managed session container.
pub const LABEL_MANAGED: &'static str = "io.agentbox.managed";
/// The value of [`LABEL_MANAGED`].
pub const LABEL_MANAGED_VALUE: &'static str = "true";
/// The version of the label schema.
pub const LABEL_SCHEMA: &'static str = "io.agentbox.schema";
/// The value of [`LABEL_SCHEMA`].
pub const LABEL_SCHEMA_VALUE: &'static str = "1";
/// What kind of agentbox container a container is, when it is not a managed session.
pub const LABEL_CONTAINER_KIND: &'static str = "io.agentbox.container_kind";
/// The value of [`LABEL_CONTAINER_KIND`] for a transient run container.
pub const LABEL_CONTAINER_KIND_TRANSIENT_RUN_VALUE: &'static str = "run";
/// The canonical Git root of the workspace.
pub const LABEL_GIT_ROOT: &'static str = "io.agentbox.git_root";
/// The stable id of the workspace: twelve digits of the Git root's digest.
pub const LABEL_GIT_ROOT_HASH: &'static str = "io.agentbox.git_root_hash";
/// The runtime's name.
pub const LABEL_RUNTIME: &'static str = "io.agentbox.runtime";
/// The image the container was created from.
pub const LABEL_IMAGE: &'static str = "io.agentbox.image";
/// The directory the session was started from.
pub const LABEL_LAUNCH_DIRECTORY: &'static str = "io.agentbox.launch_directory";
/// The name agentbox chose for the container.
pub const LABEL_LOGICAL_NAME: &'static str = "io.agentbox.logical_name";
/// The scheme of the runtime's server.
pub const LABEL_ATTACH_SCHEME: &'static str = "io.agentbox.attach_scheme";
/// The port of the runtime's server inside the container.
pub const LABEL_CONTAINER_PORT: &'static str = "io.agentbox.container_port";
/// The address the runtime's server listens on inside the container.
pub const LABEL_CONTAINER_LISTEN_IP: &'static str = "io.agentbox.container_listen_ip";

/// The kinds of container agentbox owns.
#[derive(Debug, Clone, Copy, PartialEq, Eq, Structural)]
pub enum AgentboxContainerKind {
    /// A long-lived session that clients attach to.
    Managed,
    /// A container of one `agentbox run`.
    Run,
}

/// The value of a label, when it is set and not empty.
pub open spec fn label_value(labels: Map<Seq<char>, Seq<char>>, name: Seq<char>) -> Option<Seq<char>> {
    if labels.contains_key(name) && labels[name].len() > 0 {
        Some(labels[name])
    } else {
        None
    }
}

/// The value of a label, when it is set and not empty.
pub fn required_label_value(labels: &StringMap, name: &str) -> (r: Option<String>)
    ensures
        match (r, label_value(labels@, name@)) {
            (Some(a), Some(b)) => a@ == b,
            (None, None) => true,
            _ => false,
        },
{
    match labels.get(name) {
        Some(v) => {
            if crate::text::chars_of(v.as_str()).len() > 0 {
                Some(v)
            } else {
                None
            }
        },
        None => None,
    }
}

/// What kind of agentbox container the labels mark: a transient run by its kind label, a
/// managed session by its managed label, or none.
pub open spec fn container_kind_spec(labels: Map<Seq<char>, Seq<char>>) -> Option<AgentboxContainerKind> {
    if label_value(labels, LABEL_CONTAINER_KIND@) == Some(LABEL_CONTAINER_KIND_TRANSIENT_RUN_VALUE@) {
        Some(AgentboxContainerKind::Run)
    } else if label_value(labels, LABEL_MANAGED@) == Some(LABEL_MANAGED_VALUE@) {
        Some(AgentboxContainerKind::Managed)
    } else {
        None
    }
}

/// Whether an optional label value equals `expected`.
pub fn value_is(value: &Option<String>, expected: &str) -> (r: bool)
    ensures
        r == match value {
            Some(v) => v@ == expected@,
            None => false,
        },
{
    match value {
        Some(v) => str_eq(v.as_str(), expected),
        None => false,
    }
}

/// What kind of agentbox container the labels mark.
pub fn agentbox_container_kind_from_labels(labels: &StringMap) -> (r: Option<AgentboxContainerKind>)
    ensures
        r == container_kind_spec(labels@),
{
    let kind = required_label_value(labels, LABEL_CONTAINER_KIND);
    if value_is(&kind, LABEL_CONTAINER_KIND_TRANSIENT_RUN_VALUE) {
        return Some(AgentboxContainerKind::Run);
    }
    let managed = required_label_value(labels, LABEL_MANAGED);
    if value_is(&managed, LABEL_MANAGED_VALUE) {
        Some(AgentboxContainerKind::Managed)
    } else {
        None
    }
}

/// What the labels of a session record.
pub struct SessionLabelInput<'a> {
    pub canonical_git_root: &'a str,
    pub git_root_hash: &'a str,
    pub runtime: RuntimeKind,
    pub image: &'a str,
    pub launch_directory: &'a str,
    pub logical_name: &'a str,
}

/// The labels every agentbox session container carries: its workspace, runtime, image,
/// launch directory, name and where its server listens.
pub open spec fn session_labels_spec(input: SessionLabelInput, attach: RuntimeAttachSpec) -> Map<Seq<char>, Seq<char>> {
    Map::<Seq<char>, Seq<char>>::empty()
        .insert(LABEL_GIT_ROOT@, input.canonical_git_root@)
        .insert(LABEL_GIT_ROOT_HASH@, input.git_root_hash@)
        .insert(LABEL_RUNTIME@, kind_name(input.runtime))
        .insert(LABEL_IMAGE@, input.image@)
        .insert(LABEL_LAUNCH_DIRECTORY@, input.launch_directory@)
        .insert(LABEL_LOGICAL_NAME@, input.logical_name@)
        .insert(LABEL_ATTACH_SCHEME@, attach.scheme@)
        .insert(LABEL_CONTAINER_PORT@, decimal(attach.container_port as nat))
        .insert(LABEL_CONTAINER_LISTEN_IP@, attach.container_listen_ip@)
}

/// The labels of a managed session: the session labels, the managed marker and the schema.
pub open spec fn managed_labels_spec(input: SessionLabelInput) -> Map<Seq<char>, Seq<char>> {
    session_labels_spec(input, crate::runtime::kind::attach_of(input.runtime))
        .insert(LABEL_MANAGED@, LABEL_MANAGED_VALUE@)
        .insert(LABEL_SCHEMA@, LABEL_SCHEMA_VALUE@)
}

/// The labels of a transient run: the session labels and the run kind.
pub open spec fn transient_labels_spec(input: SessionLabelInput) -> Map<Seq<char>, Seq<char>> {
    session_labels_spec(input, crate::runtime::kind::attach_of(input.runtime))
        .insert(LABEL_CONTAINER_KIND@, LABEL_CONTAINER_KIND_TRANSIENT_RUN_VALUE@)
}

fn session_labels(input: &SessionLabelInput) -> (r: StringMap)
    ensures
        r@ == session_labels_spec(*input, crate::runtime::kind::attach_of(input.runtime)),
{
    let attach = input.runtime.attach_spec();
    let mut m = StringMap::new();
    m.insert(owned(LABEL_GIT_ROOT), owned(input.canonical_git_root));
    m.insert(owned(LABEL_GIT_ROOT_HASH), owned(input.git_root_hash));
    m.insert(owned(LABEL_RUNTIME), owned(input.runtime.as_str()));
    m.insert(owned(LABEL_IMAGE), owned(input.image));
    m.insert(owned(LABEL_LAUNCH_DIRECTORY), owned(input.launch_directory));
    m.insert(owned(LABEL_LOGICAL_NAME), owned(input.logical_name));
    m.insert(owned(LABEL_ATTACH_SCHEME), owned(attach.scheme));
    m.insert(owned(LABEL_CONTAINER_PORT), decimal_string(attach.container_port as u64));
    m.insert(owned(LABEL_CONTAINER_LISTEN_IP), owned(attach.container_listen_ip));
    m
}

/// The labels of a managed session container.
pub fn managed_session_labels(input: &SessionLabelInput) -> (r: StringMap)
    ensures
        r@ == managed_labels_spec(*input),
{
    let mut m = session_labels(input);
    m.insert(owned(LABEL_MANAGED), owned(LABEL_MANAGED_VALUE));
    m.insert(owned(LABEL_SCHEMA), owned(LABEL_SCHEMA_VALUE));
    m
}

/// The labels of a transient run container.
pub fn transient_run_labels(input: &SessionLabelInput) -> (r: StringMap)
    ensures
        r@ == transient_labels_spec(*input),
{
    let mut m = session_labels(input);
    m.insert(owned(LABEL_CONTAINER_KIND), owned(LABEL_CONTAINER_KIND_TRANSIENT_RUN_VALUE));
    m
}

} // verus!
