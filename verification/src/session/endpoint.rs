//! Where a session's runtime server is published on the host.

use vstd::prelude::*;

use crate::container::{publication_spec, tcp_key, ContainerInspection};
use crate::error::AgentboxError;
use crate::runtime::spec::AttachEndpoint;
use crate::text::{decimal_chars, owned, push_str, string_of};

use super::labels::{attach_result_matches, AttachLabels, SessionLabelReport};
use super::record::SessionMetadata;
use super::status::SessionFailure;

verus! {

/// Whether `r` is the endpoint that `attach` and the published ports give.
pub open spec fn endpoint_outcome(attach: AttachLabels, ports: Seq<(String, Vec<crate::container::PortBinding>)>, r: Result<AttachEndpoint, AgentboxError>) -> bool {
    match publication_spec(ports, attach.attach.container_port) {
        Ok(Some((ip, port))) => r matches Ok(e) && e.scheme@ == attach.attach.scheme@ && e.host_ip@ == ip && e.host_port == port,
        Ok(None) => r matches Err(AgentboxError::NoPublishedAttachPort { port_key }) && port_key@ == tcp_key(attach.attach.container_port),
        Err(h) => r matches Err(AgentboxError::MalformedPublishedPort { port_key, host_port }) && port_key@ == tcp_key(attach.attach.container_port) && host_port@ == h,
    }
}

/// The endpoint of a session whose endpoint labels are `attach_labels`: the scheme of its
/// runtime and where the engine publishes its server's port.
pub fn derive_attach_endpoint(attach_labels: AttachLabels, inspect: &ContainerInspection) -> (r: Result<AttachEndpoint, AgentboxError>)
    ensures
        endpoint_outcome(attach_labels, inspect.ports@, r),
{
    let container_port = attach_labels.container_port();
    let published = inspect.published_tcp_host_port(container_port)?;
    match published {
        Some(p) => Ok(AttachEndpoint { scheme: owned(attach_labels.scheme()), host_ip: p.host_ip, host_port: p.host_port }),
        None => {
            let mut key = decimal_chars(container_port as u64);
            push_str(&mut key, "/tcp");
            Err(AgentboxError::NoPublishedAttachPort { port_key: string_of(&key) })
        },
    }
}

/// The endpoint of an inspected container, from its labels and published ports; an error
/// when its endpoint labels do not match its runtime or its server's port is not published.
pub fn discover_attach_endpoint_from_inspect(inspect: &ContainerInspection) -> (r: Result<AttachEndpoint, AgentboxError>)
    ensures
        exists|a: Result<AttachLabels, super::labels::AttachLabelError>| #[trigger] attach_result_matches(inspect.labels@, a) && match a {
            Ok(labels) => endpoint_outcome(labels, inspect.ports@, r),
            Err(e) => r matches Err(x) && super::labels::error_reports(x, e),
        },
{
    let metadata = SessionMetadata::from_labels(&inspect.labels);
    let attach = AttachLabels::from_session_labels(&metadata);
    match attach {
        Ok(labels) => derive_attach_endpoint(labels, inspect),
        Err(e) => Err(e.into_error()),
    }
}

/// A session's endpoint, or the failure that leaves it without one.
#[derive(Debug, PartialEq, Eq)]
pub struct AttachEndpointReport {
    pub endpoint: Result<AttachEndpoint, SessionFailure>,
}

/// Whether `r` is the endpoint report that a label report and the published ports give.
pub open spec fn endpoint_report_of(r: AttachEndpointReport, label_report: SessionLabelReport, ports: Seq<(String, Vec<crate::container::PortBinding>)>) -> bool {
    match label_report.attach_labels_spec() {
        Err(f) => r.endpoint == Err::<AttachEndpoint, SessionFailure>(f),
        Ok(a) => match publication_spec(ports, a.attach.container_port) {
            Ok(Some((ip, port))) => r.endpoint matches Ok(e) && e.scheme@ == a.attach.scheme@ && e.host_ip@ == ip && e.host_port == port,
            _ => r.endpoint == Err::<AttachEndpoint, SessionFailure>(SessionFailure::MissingPublishedAttachPort),
        },
    }
}

impl AttachEndpointReport {
    /// The endpoint from a label report and an inspection: the label failure when the
    /// endpoint labels fail their check, a missing published port when the engine does not
    /// publish the server's port usably.
    pub fn from_label_report_and_inspect(label_report: &SessionLabelReport, inspect: &ContainerInspection) -> (r: Self)
        ensures
            endpoint_report_of(r, *label_report, inspect.ports@),
    {
        let endpoint = match label_report.attach_labels() {
            Err(f) => Err(f),
            Ok(attach_labels) => match derive_attach_endpoint(attach_labels, inspect) {
                Ok(e) => Ok(e),
                Err(_) => Err(SessionFailure::MissingPublishedAttachPort),
            },
        };
        AttachEndpointReport { endpoint }
    }

    /// Why the session has no endpoint, if it has none.
    pub fn failure(&self) -> (r: Option<SessionFailure>)
        ensures
            r == match self.endpoint {
                Ok(_) => None,
                Err(f) => Some(f),
            },
    {
        match &self.endpoint {
            Ok(_) => None,
            Err(f) => Some(*f),
        }
    }

    /// The endpoint, if there is one.
    pub fn into_endpoint(self) -> (r: Option<AttachEndpoint>)
        ensures
            r == match self.endpoint {
                Ok(e) => Some(e),
                Err(_) => None,
            },
    {
        match self.endpoint {
            Ok(e) => Some(e),
            Err(_) => None,
        }
    }
}

} // verus!
