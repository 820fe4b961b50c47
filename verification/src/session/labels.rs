//! Checking a session's labels: the workspace identity they record, the metadata a session
//! needs, and the endpoint labels of its runtime.

use vstd::prelude::*;

use crate::error::AgentboxError;
use crate::metadata::{
    container_kind_spec, label_value, AgentboxContainerKind, LABEL_ATTACH_SCHEME,
    LABEL_CONTAINER_KIND, LABEL_CONTAINER_KIND_TRANSIENT_RUN_VALUE, LABEL_CONTAINER_LISTEN_IP,
    LABEL_CONTAINER_PORT, LABEL_GIT_ROOT, LABEL_GIT_ROOT_HASH, LABEL_IMAGE, LABEL_LAUNCH_DIRECTORY,
    LABEL_LOGICAL_NAME, LABEL_MANAGED, LABEL_MANAGED_VALUE, LABEL_RUNTIME, LABEL_SCHEMA,
    LABEL_SCHEMA_VALUE,
};
use crate::paths::{is_absolute, is_absolute_spec, is_or_descendant, is_or_descendant_spec};
use crate::runtime::kind::{attach_of, kind_from_name, RuntimeKind};
use crate::runtime::spec::RuntimeAttachSpec;
use crate::text::{chars_of, owned, parse_u16, parse_unsigned, str_eq, trim};
use crate::workspace::{git_root_hash12, root_hash12};

use super::record::{opt_str_is, SessionMetadata};
use super::status::SessionFailure;

verus! {

// ---------------------------------------------------------------------------
// Workspace identity and required metadata
// ---------------------------------------------------------------------------

/// The workspace a session's labels record.
#[derive(Debug, Clone, PartialEq, Eq)]
pub struct SessionIdentityLabels {
    pub canonical_git_root: String,
    pub git_root_hash: String,
}

/// The identity and launch directory of a session whose labels are complete.
#[derive(Debug, Clone, PartialEq, Eq)]
pub struct RequiredSessionLabels {
    pub identity: SessionIdentityLabels,
    pub launch_directory: String,
}

/// Whether a label is set to exactly `expected`.
pub open spec fn label_is(labels: Map<Seq<char>, Seq<char>>, name: Seq<char>, expected: Seq<char>) -> bool {
    label_value(labels, name) == Some(expected)
}

/// The labels mark an agentbox container: a managed session with the managed marker and
/// the current schema, or a transient run with its kind.
pub open spec fn has_container_marker(labels: Map<Seq<char>, Seq<char>>) -> bool {
    match container_kind_spec(labels) {
        Some(AgentboxContainerKind::Managed) => label_is(labels, LABEL_MANAGED@, LABEL_MANAGED_VALUE@)
            && label_is(labels, LABEL_SCHEMA@, LABEL_SCHEMA_VALUE@),
        Some(AgentboxContainerKind::Run) => label_is(labels, LABEL_CONTAINER_KIND@, LABEL_CONTAINER_KIND_TRANSIENT_RUN_VALUE@),
        None => false,
    }
}

/// What checking the identity labels gives: the recorded root and stable id when the
/// container is marked and both are set and agree, the failure otherwise.
pub open spec fn identity_spec(labels: Map<Seq<char>, Seq<char>>) -> Result<(Seq<char>, Seq<char>), SessionFailure> {
    if !has_container_marker(labels) || label_value(labels, LABEL_GIT_ROOT@) is None || label_value(labels, LABEL_GIT_ROOT_HASH@) is None {
        Err(SessionFailure::MissingRequiredLabels)
    } else {
        let root = label_value(labels, LABEL_GIT_ROOT@).unwrap();
        let hash = label_value(labels, LABEL_GIT_ROOT_HASH@).unwrap();
        if hash != root_hash12(root) {
            Err(SessionFailure::DriftedGitRootHash)
        } else {
            Ok((root, hash))
        }
    }
}

/// The metadata labels every complete session carries.
pub open spec fn has_required_metadata(labels: Map<Seq<char>, Seq<char>>) -> bool {
    label_value(labels, LABEL_RUNTIME@) is Some && label_value(labels, LABEL_IMAGE@) is Some
        && label_value(labels, LABEL_LAUNCH_DIRECTORY@) is Some && label_value(labels, LABEL_LOGICAL_NAME@) is Some
}

/// What checking the required labels gives: the identity failure if there is one; a
/// missing-labels failure when metadata is missing; a malformed launch directory when it is
/// not an absolute path inside the root; the root and launch directory otherwise.
pub open spec fn required_spec(labels: Map<Seq<char>, Seq<char>>) -> Result<(Seq<char>, Seq<char>), SessionFailure> {
    match identity_spec(labels) {
        Err(f) => Err(f),
        Ok((root, _)) => if !has_required_metadata(labels) {
            Err(SessionFailure::MissingRequiredLabels)
        } else {
            let launch = label_value(labels, LABEL_LAUNCH_DIRECTORY@).unwrap();
            if is_absolute_spec(launch) && is_or_descendant_spec(launch, root) {
                Ok((root, launch))
            } else {
                Err(SessionFailure::MalformedLaunchDirectory)
            }
        },
    }
}

fn require_label(metadata: &SessionMetadata, name: &str) -> (r: Result<String, SessionFailure>)
    ensures
        match label_value(metadata.labels@, name@) {
            Some(v) => r matches Ok(x) && x@ == v,
            None => r == Err::<String, SessionFailure>(SessionFailure::MissingRequiredLabels),
        },
{
    match metadata.label(name) {
        Some(v) => Ok(v),
        None => Err(SessionFailure::MissingRequiredLabels),
    }
}

fn require_label_value(metadata: &SessionMetadata, name: &str, expected: &str) -> (r: Result<(), SessionFailure>)
    ensures
        label_is(metadata.labels@, name@, expected@) ==> r is Ok,
        !label_is(metadata.labels@, name@, expected@) ==> r == Err::<(), SessionFailure>(SessionFailure::MissingRequiredLabels),
{
    match metadata.label(name) {
        Some(actual) => {
            if str_eq(actual.as_str(), expected) {
                Ok(())
            } else {
                Err(SessionFailure::MissingRequiredLabels)
            }
        },
        None => Err(SessionFailure::MissingRequiredLabels),
    }
}

fn require_agentbox_container_marker(metadata: &SessionMetadata) -> (r: Result<(), SessionFailure>)
    ensures
        has_container_marker(metadata.labels@) ==> r is Ok,
        !has_container_marker(metadata.labels@) ==> r == Err::<(), SessionFailure>(SessionFailure::MissingRequiredLabels),
{
    match metadata.container_kind() {
        Some(AgentboxContainerKind::Managed) => {
            require_label_value(metadata, LABEL_MANAGED, LABEL_MANAGED_VALUE)?;
            require_label_value(metadata, LABEL_SCHEMA, LABEL_SCHEMA_VALUE)
        },
        Some(AgentboxContainerKind::Run) => require_label_value(
            metadata,
            LABEL_CONTAINER_KIND,
            LABEL_CONTAINER_KIND_TRANSIENT_RUN_VALUE,
        ),
        None => Err(SessionFailure::MissingRequiredLabels),
    }
}

impl SessionIdentityLabels {
    /// The identity the labels record, checked: the container is marked, the root and
    /// stable id are set, and the stable id is that of the root.
    pub fn validated(metadata: &SessionMetadata) -> (r: Result<SessionIdentityLabels, SessionFailure>)
        ensures
            match identity_spec(metadata.labels@) {
                Ok((root, hash)) => r matches Ok(i) && i.canonical_git_root@ == root && i.git_root_hash@ == hash,
                Err(f) => r == Err::<SessionIdentityLabels, SessionFailure>(f),
            },
    {
        require_agentbox_container_marker(metadata)?;
        let canonical_git_root = require_label(metadata, LABEL_GIT_ROOT)?;
        let git_root_hash = require_label(metadata, LABEL_GIT_ROOT_HASH)?;
        let identity = SessionIdentityLabels { canonical_git_root, git_root_hash };
        if !identity.hash_matches_root() {
            return Err(SessionFailure::DriftedGitRootHash);
        }
        Ok(identity)
    }

    fn hash_matches_root(&self) -> (r: bool)
        ensures
            r == (self.git_root_hash@ == root_hash12(self.canonical_git_root@)),
    {
        let expected = git_root_hash12(self.canonical_git_root.as_str());
        str_eq(self.git_root_hash.as_str(), expected.as_str())
    }
}

impl RequiredSessionLabels {
    /// The required labels, checked on top of an identity check's result.
    pub fn from_validated_identity(
        metadata: &SessionMetadata,
        identity: Result<SessionIdentityLabels, SessionFailure>,
    ) -> (r: Result<RequiredSessionLabels, SessionFailure>)
        requires
            match identity_spec(metadata.labels@) {
                Ok((root, hash)) => identity matches Ok(i) && i.canonical_git_root@ == root && i.git_root_hash@ == hash,
                Err(f) => identity == Err::<SessionIdentityLabels, SessionFailure>(f),
            },
        ensures
            match required_spec(metadata.labels@) {
                Ok((root, launch)) => r matches Ok(q) && q.identity.canonical_git_root@ == root && q.launch_directory@ == launch,
                Err(f) => r == Err::<RequiredSessionLabels, SessionFailure>(f),
            },
    {
        let identity = identity?;
        require_label(metadata, LABEL_RUNTIME)?;
        require_label(metadata, LABEL_IMAGE)?;
        require_label(metadata, LABEL_LAUNCH_DIRECTORY)?;
        require_label(metadata, LABEL_LOGICAL_NAME)?;
        let launch_directory = require_label(metadata, LABEL_LAUNCH_DIRECTORY)?;
        let required = RequiredSessionLabels { identity, launch_directory };
        if !required.launch_directory_is_valid() {
            return Err(SessionFailure::MalformedLaunchDirectory);
        }
        Ok(required)
    }

    /// The recorded Git root.
    pub fn canonical_git_root(&self) -> (r: &str)
        ensures
            r@ == self.identity.canonical_git_root@,
    {
        self.identity.canonical_git_root.as_str()
    }

    fn launch_directory_is_valid(&self) -> (r: bool)
        ensures
            r == (is_absolute_spec(self.launch_directory@) && is_or_descendant_spec(self.launch_directory@, self.identity.canonical_git_root@)),
    {
        is_absolute(self.launch_directory.as_str())
            && is_or_descendant(self.launch_directory.as_str(), self.identity.canonical_git_root.as_str())
    }
}

// ---------------------------------------------------------------------------
// Endpoint labels
// ---------------------------------------------------------------------------

/// Why a session's endpoint labels do not match its runtime.
#[derive(Debug, Clone, PartialEq, Eq)]
#[allow(inconsistent_fields)]
pub enum AttachLabelError {
    MissingLabel(&'static str),
    Runtime(AgentboxError),
    MalformedContainerPort(String),
    AttachSchemeMismatch { runtime: RuntimeKind, actual: String, expected: &'static str },
    ContainerPortMismatch { runtime: RuntimeKind, actual: u16, expected: u16 },
    ContainerListenIpMismatch { runtime: RuntimeKind, actual: String, expected: &'static str },
}

/// The text `str::parse::<u16>` reports for a value that is not a `u16`.
pub uninterp spec fn u16_parse_error_text(value: Seq<char>) -> Seq<char>;

/// `str::parse::<u16>`: the text of the error it reports for `value`, when `value` is not a
/// `u16`. Its wording is not stated; only that it is the same for the same value.
#[verifier::external_body]
fn u16_parse_error(value: &str) -> (r: String)
    ensures
        r@ == u16_parse_error_text(value@),
{
    match value.parse::<u16>() {
        Ok(_) => String::new(),
        Err(error) => error.to_string(),
    }
}

/// Whether `r` is the error reported for the endpoint-label error `e`.
pub open spec fn error_reports(r: AgentboxError, e: AttachLabelError) -> bool {
    match e {
        AttachLabelError::MissingLabel(l) => r matches AgentboxError::MissingLabel { label } && label@ == l@,
        AttachLabelError::Runtime(x) => r == x,
        AttachLabelError::MalformedContainerPort(d) => r matches AgentboxError::MalformedContainerPort { detail } && detail@ == d@,
        AttachLabelError::AttachSchemeMismatch { runtime, actual, expected } => r matches AgentboxError::AttachSchemeMismatch { runtime: k, actual: a, expected: x }
            && k == runtime && a@ == actual@ && x@ == expected@,
        AttachLabelError::ContainerPortMismatch { runtime, actual, expected } => r == AgentboxError::ContainerPortMismatch { runtime, actual, expected },
        AttachLabelError::ContainerListenIpMismatch { runtime, actual, expected } => r matches AgentboxError::ContainerListenIpMismatch { runtime: k, actual: a, expected: x }
            && k == runtime && a@ == actual@ && x@ == expected@,
    }
}

/// The session failure an endpoint-label error amounts to.
pub open spec fn label_error_failure(e: AttachLabelError) -> SessionFailure {
    match e {
        AttachLabelError::MissingLabel(_) => SessionFailure::MissingRequiredLabels,
        AttachLabelError::Runtime(_) => SessionFailure::UnsupportedRuntimeLabel,
        _ => SessionFailure::MalformedEndpointLabels,
    }
}

impl AttachLabelError {
    /// The session failure the error amounts to.
    pub fn session_failure(&self) -> (r: SessionFailure)
        ensures
            r == match self {
                AttachLabelError::MissingLabel(_) => SessionFailure::MissingRequiredLabels,
                AttachLabelError::Runtime(_) => SessionFailure::UnsupportedRuntimeLabel,
                _ => SessionFailure::MalformedEndpointLabels,
            },
    {
        match self {
            AttachLabelError::MissingLabel(_) => SessionFailure::MissingRequiredLabels,
            AttachLabelError::Runtime(_) => SessionFailure::UnsupportedRuntimeLabel,
            _ => SessionFailure::MalformedEndpointLabels,
        }
    }

    /// The error reported for it.
    pub fn into_error(self) -> (r: AgentboxError)
        ensures
            error_reports(r, self),
    {
        match self {
            AttachLabelError::MissingLabel(label) => AgentboxError::MissingLabel { label: owned(label) },
            AttachLabelError::Runtime(error) => error,
            AttachLabelError::MalformedContainerPort(detail) => AgentboxError::MalformedContainerPort { detail },
            AttachLabelError::AttachSchemeMismatch { runtime, actual, expected } => AgentboxError::AttachSchemeMismatch {
                runtime,
                actual,
                expected: owned(expected),
            },
            AttachLabelError::ContainerPortMismatch { runtime, actual, expected } => AgentboxError::ContainerPortMismatch {
                runtime,
                actual,
                expected,
            },
            AttachLabelError::ContainerListenIpMismatch { runtime, actual, expected } => AgentboxError::ContainerListenIpMismatch {
                runtime,
                actual,
                expected: owned(expected),
            },
        }
    }
}

/// A session's runtime and where its server listens, as its labels record them.
#[derive(Debug, Clone, Copy, PartialEq, Eq)]
pub struct AttachLabels {
    pub runtime: RuntimeKind,
    pub attach: RuntimeAttachSpec,
}

/// Which check of the endpoint labels fails first, if any: the runtime label must be set
/// and name a runtime; the scheme, port and listen address labels must be set and equal
/// the runtime's, the port a `u16`.
pub open spec fn attach_labels_spec(labels: Map<Seq<char>, Seq<char>>) -> Result<RuntimeKind, AttachFault> {
    match label_value(labels, LABEL_RUNTIME@) {
        None => Err(AttachFault::Missing(LABEL_RUNTIME@)),
        Some(v) => if trim(v).len() == 0 {
            Err(AttachFault::EmptyRuntime)
        } else {
            match kind_from_name(v) {
                None => Err(AttachFault::UnsupportedRuntime(v)),
                Some(k) => {
                    let attach = attach_of(k);
                    match label_value(labels, LABEL_ATTACH_SCHEME@) {
                        None => Err(AttachFault::Missing(LABEL_ATTACH_SCHEME@)),
                        Some(s) => if s != attach.scheme@ {
                            Err(AttachFault::SchemeMismatch(k, s))
                        } else {
                            match label_value(labels, LABEL_CONTAINER_PORT@) {
                                None => Err(AttachFault::Missing(LABEL_CONTAINER_PORT@)),
                                Some(p) => match parse_unsigned(p, 65535) {
                                    None => Err(AttachFault::MalformedPort(p)),
                                    Some(port) => if port != attach.container_port {
                                        Err(AttachFault::PortMismatch(k, port as u16))
                                    } else {
                                        match label_value(labels, LABEL_CONTAINER_LISTEN_IP@) {
                                            None => Err(AttachFault::Missing(LABEL_CONTAINER_LISTEN_IP@)),
                                            Some(ip) => if ip != attach.container_listen_ip@ {
                                                Err(AttachFault::ListenIpMismatch(k, ip))
                                            } else {
                                                Ok(k)
                                            },
                                        }
                                    },
                                },
                            }
                        },
                    }
                },
            }
        },
    }
}

/// The first endpoint-label check that fails.
pub enum AttachFault {
    Missing(Seq<char>),
    EmptyRuntime,
    UnsupportedRuntime(Seq<char>),
    SchemeMismatch(RuntimeKind, Seq<char>),
    MalformedPort(Seq<char>),
    PortMismatch(RuntimeKind, u16),
    ListenIpMismatch(RuntimeKind, Seq<char>),
}

/// Whether `e` reports the fault `f`.
pub open spec fn reports_fault(e: AttachLabelError, f: AttachFault) -> bool {
    match f {
        AttachFault::Missing(l) => e matches AttachLabelError::MissingLabel(x) && x@ == l,
        AttachFault::EmptyRuntime => e matches AttachLabelError::Runtime(AgentboxError::EmptyRuntimeLabel),
        AttachFault::UnsupportedRuntime(v) => e matches AttachLabelError::Runtime(AgentboxError::UnsupportedRuntime { value }) && value@ == v,
        AttachFault::SchemeMismatch(k, s) => e matches AttachLabelError::AttachSchemeMismatch { runtime, actual, expected }
            && runtime == k && actual@ == s && expected == attach_of(k).scheme,
        AttachFault::MalformedPort(p) => e matches AttachLabelError::MalformedContainerPort(d) && d@ == u16_parse_error_text(p),
        AttachFault::PortMismatch(k, port) => e == AttachLabelError::ContainerPortMismatch {
            runtime: k,
            actual: port,
            expected: attach_of(k).container_port,
        },
        AttachFault::ListenIpMismatch(k, ip) => e matches AttachLabelError::ContainerListenIpMismatch { runtime, actual, expected }
            && runtime == k && actual@ == ip && expected == attach_of(k).container_listen_ip,
    }
}

/// Whether `r` is what checking endpoint labels `labels` gives.
pub open spec fn attach_result_matches(labels: Map<Seq<char>, Seq<char>>, r: Result<AttachLabels, AttachLabelError>) -> bool {
    match attach_labels_spec(labels) {
        Ok(k) => r == Ok::<AttachLabels, AttachLabelError>(AttachLabels { runtime: k, attach: attach_of(k) }),
        Err(f) => r matches Err(e) && reports_fault(e, f),
    }
}

fn require_attach_label(metadata: &SessionMetadata, name: &'static str) -> (r: Result<String, AttachLabelError>)
    ensures
        match label_value(metadata.labels@, name@) {
            Some(v) => r matches Ok(x) && x@ == v,
            None => r == Err::<String, AttachLabelError>(AttachLabelError::MissingLabel(name)),
        },
{
    match metadata.label(name) {
        Some(v) => Ok(v),
        None => Err(AttachLabelError::MissingLabel(name)),
    }
}

impl AttachLabels {
    /// The runtime and endpoint the labels record, checked against the runtime's profile.
    pub fn from_session_labels(metadata: &SessionMetadata) -> (r: Result<AttachLabels, AttachLabelError>)
        ensures
            attach_result_matches(metadata.labels@, r),
    {
        let runtime_label = require_attach_label(metadata, LABEL_RUNTIME)?;
        let runtime = match RuntimeKind::parse_label(runtime_label.as_str()) {
            Ok(k) => k,
            Err(e) => {
                return Err(AttachLabelError::Runtime(e));
            },
        };
        let attach = runtime.attach_spec();
        let scheme = require_attach_label(metadata, LABEL_ATTACH_SCHEME)?;
        if !str_eq(scheme.as_str(), attach.scheme) {
            return Err(AttachLabelError::AttachSchemeMismatch { runtime, actual: scheme, expected: attach.scheme });
        }
        let port_text = require_attach_label(metadata, LABEL_CONTAINER_PORT)?;
        let port_chars = chars_of(port_text.as_str());
        let port = match parse_u16(&port_chars) {
            Some(p) => p,
            None => {
                return Err(AttachLabelError::MalformedContainerPort(u16_parse_error(port_text.as_str())));
            },
        };
        if port != attach.container_port {
            return Err(AttachLabelError::ContainerPortMismatch { runtime, actual: port, expected: attach.container_port });
        }
        let ip = require_attach_label(metadata, LABEL_CONTAINER_LISTEN_IP)?;
        if !str_eq(ip.as_str(), attach.container_listen_ip) {
            return Err(AttachLabelError::ContainerListenIpMismatch { runtime, actual: ip, expected: attach.container_listen_ip });
        }
        Ok(AttachLabels { runtime, attach })
    }

    /// Where the runtime's server listens.
    pub fn attach_spec(self) -> (r: RuntimeAttachSpec)
        ensures
            r == self.attach,
    {
        self.attach
    }

    /// The port of the runtime's server inside the container.
    pub fn container_port(self) -> (r: u16)
        ensures
            r == self.attach.container_port,
    {
        self.attach.container_port
    }

    /// The scheme of the runtime's server.
    pub fn scheme(self) -> (r: &'static str)
        ensures
            r == self.attach.scheme,
    {
        self.attach.scheme
    }
}

// ---------------------------------------------------------------------------
// The report
// ---------------------------------------------------------------------------

/// Every label check of a session, done once.
#[derive(Debug)]
pub struct SessionLabelReport {
    pub identity: Result<SessionIdentityLabels, SessionFailure>,
    pub required: Result<RequiredSessionLabels, SessionFailure>,
    pub attach: Result<AttachLabels, AttachLabelError>,
}

/// Whether `report` holds the results of the label checks of `labels`.
pub open spec fn report_of(report: SessionLabelReport, labels: Map<Seq<char>, Seq<char>>) -> bool {
    &&& match identity_spec(labels) {
        Ok((root, hash)) => report.identity matches Ok(i) && i.canonical_git_root@ == root && i.git_root_hash@ == hash,
        Err(f) => report.identity == Err::<SessionIdentityLabels, SessionFailure>(f),
    }
    &&& match required_spec(labels) {
        Ok((root, launch)) => report.required matches Ok(q) && q.identity.canonical_git_root@ == root && q.launch_directory@ == launch,
        Err(f) => report.required == Err::<RequiredSessionLabels, SessionFailure>(f),
    }
    &&& attach_result_matches(labels, report.attach)
}

/// The session failure an endpoint-label check amounts to.
pub open spec fn attach_failure_spec(labels: Map<Seq<char>, Seq<char>>) -> Option<SessionFailure> {
    match attach_labels_spec(labels) {
        Ok(_) => None,
        Err(AttachFault::Missing(_)) => Some(SessionFailure::MissingRequiredLabels),
        Err(AttachFault::EmptyRuntime) => Some(SessionFailure::UnsupportedRuntimeLabel),
        Err(AttachFault::UnsupportedRuntime(_)) => Some(SessionFailure::UnsupportedRuntimeLabel),
        Err(_) => Some(SessionFailure::MalformedEndpointLabels),
    }
}

impl SessionLabelReport {
    /// The endpoint labels, or the session failure their check amounts to.
    pub open spec fn attach_labels_spec(&self) -> Result<AttachLabels, SessionFailure> {
        match self.attach {
            Ok(a) => Ok(a),
            Err(e) => Err(label_error_failure(e)),
        }
    }

    /// Checks every label of a session.
    pub fn from_metadata(metadata: &SessionMetadata) -> (r: Self)
        ensures
            report_of(r, metadata.labels@),
    {
        let identity = SessionIdentityLabels::validated(metadata);
        let identity_copy = match &identity {
            Ok(i) => Ok(SessionIdentityLabels {
                canonical_git_root: i.canonical_git_root.clone(),
                git_root_hash: i.git_root_hash.clone(),
            }),
            Err(f) => Err(*f),
        };
        let required = RequiredSessionLabels::from_validated_identity(metadata, identity_copy);
        SessionLabelReport { identity, required, attach: AttachLabels::from_session_labels(metadata) }
    }

    /// The identity check's failure, if it failed.
    pub fn identity_failure(&self) -> (r: Option<SessionFailure>)
        ensures
            r == match self.identity {
                Ok(_) => None,
                Err(f) => Some(f),
            },
    {
        match &self.identity {
            Ok(_) => None,
            Err(f) => Some(*f),
        }
    }

    /// The required-labels check's failure, if it failed.
    pub fn required_failure(&self) -> (r: Option<SessionFailure>)
        ensures
            r == match self.required {
                Ok(_) => None,
                Err(f) => Some(f),
            },
    {
        match &self.required {
            Ok(_) => None,
            Err(f) => Some(*f),
        }
    }

    /// The endpoint-label check's failure, as a session failure, if it failed.
    pub fn attach_failure(&self) -> (r: Option<SessionFailure>)
        ensures
            r == match self.attach {
                Ok(_) => None,
                Err(e) => Some(match e {
                    AttachLabelError::MissingLabel(_) => SessionFailure::MissingRequiredLabels,
                    AttachLabelError::Runtime(_) => SessionFailure::UnsupportedRuntimeLabel,
                    _ => SessionFailure::MalformedEndpointLabels,
                }),
            },
    {
        match &self.attach {
            Ok(_) => None,
            Err(e) => Some(e.session_failure()),
        }
    }

    /// The endpoint labels, or the session failure their check amounts to.
    pub fn attach_labels(&self) -> (r: Result<AttachLabels, SessionFailure>)
        ensures
            r == self.attach_labels_spec(),
    {
        match &self.attach {
            Ok(a) => Ok(*a),
            Err(e) => Err(e.session_failure()),
        }
    }
}

} // verus!
