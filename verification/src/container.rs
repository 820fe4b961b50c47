//! What the container engine reports about containers, as the library reads it.

use vstd::prelude::*;

use crate::error::AgentboxError;
use crate::runtime::spec::RuntimeMountKind;
use crate::string_map::StringMap;
use crate::text::{decimal, decimal_chars, parse_u16, push_str, str_eq, string_of, chars_of, parse_unsigned};

verus! {

/// A container as a container listing shows it.
#[derive(Debug, PartialEq, Eq)]
pub struct ContainerSummary {
    pub id: String,
    pub names: Option<Vec<String>>,
    pub labels: StringMap,
}

/// A mount of an inspected container.
#[derive(Debug, Clone, PartialEq, Eq)]
pub struct ContainerMountInfo {
    pub kind: RuntimeMountKind,
    pub destination: String,
}

/// A host address and port a container port is published on, as the engine reports them.
#[derive(Debug, Clone, PartialEq, Eq)]
pub struct PortBinding {
    pub host_ip: String,
    pub host_port: String,
}

/// A container port published on the host.
#[derive(Debug, Clone, PartialEq, Eq)]
pub struct PublishedPort {
    pub host_ip: String,
    pub host_port: u16,
}

/// A container as inspecting it shows it.
#[derive(Debug, PartialEq, Eq)]
pub struct ContainerInspection {
    pub labels: StringMap,
    pub running: bool,
    pub mounts: Vec<ContainerMountInfo>,
    /// Each published container port (such as `4096/tcp`) with its host bindings.
    pub ports: Vec<(String, Vec<PortBinding>)>,
}

/// Whether some mount is a volume at `destination`.
pub open spec fn has_volume_at(mounts: Seq<ContainerMountInfo>, destination: Seq<char>) -> bool {
    exists|i: int| 0 <= i < mounts.len() && mounts[i].kind == RuntimeMountKind::Volume && #[trigger] mounts[i].destination@ == destination
}

/// Whether some mount is at `destination`.
pub open spec fn has_mount_at(mounts: Seq<ContainerMountInfo>, destination: Seq<char>) -> bool {
    exists|i: int| 0 <= i < mounts.len() && #[trigger] mounts[i].destination@ == destination
}

/// Whether some mount is a volume at `destination`.
pub fn has_volume_mount_destination(mounts: &Vec<ContainerMountInfo>, destination: &str) -> (r: bool)
    ensures
        r == has_volume_at(mounts@, destination@),
{
    let mut i: usize = 0;
    while i < mounts.len()
        invariant
            i <= mounts@.len(),
            forall|k: int| 0 <= k < i ==> !(mounts@[k].kind == RuntimeMountKind::Volume && #[trigger] mounts@[k].destination@ == destination@),
        decreases mounts.len() - i,
    {
        if mounts[i].kind.is_volume() && str_eq(mounts[i].destination.as_str(), destination) {
            return true;
        }
        i = i + 1;
    }
    false
}

/// Whether some mount is at `destination`.
pub fn has_mount_destination(mounts: &Vec<ContainerMountInfo>, destination: &str) -> (r: bool)
    ensures
        r == has_mount_at(mounts@, destination@),
{
    let mut i: usize = 0;
    while i < mounts.len()
        invariant
            i <= mounts@.len(),
            forall|k: int| 0 <= k < i ==> !(#[trigger] mounts@[k].destination@ == destination@),
        decreases mounts.len() - i,
    {
        if str_eq(mounts[i].destination.as_str(), destination) {
            return true;
        }
        i = i + 1;
    }
    false
}

/// The engine's key for a TCP container port, `port/tcp`.
pub open spec fn tcp_key(port: u16) -> Seq<char> {
    decimal(port as nat) + "/tcp"@
}

/// The host bindings of the first published port entry with the key `key`.
pub open spec fn bindings_of(ports: Seq<(String, Vec<PortBinding>)>, key: Seq<char>) -> Option<Seq<PortBinding>>
    decreases ports.len(),
{
    if ports.len() == 0 {
        None
    } else if ports[0].0@ == key {
        Some(ports[0].1@)
    } else {
        bindings_of(ports.drop_first(), key)
    }
}

/// Where TCP port `port` is published: the host address and port of the first binding of
/// its first entry; none when it has no entry or binding; the reported host port when that
/// is not a port number.
pub open spec fn publication_spec(ports: Seq<(String, Vec<PortBinding>)>, port: u16) -> Result<Option<(Seq<char>, u16)>, Seq<char>> {
    match bindings_of(ports, tcp_key(port)) {
        None => Ok(None),
        Some(b) => if b.len() == 0 {
            Ok(None)
        } else {
            match parse_unsigned(b[0].host_port@, 65535) {
                Some(p) => Ok(Some((b[0].host_ip@, p as u16))),
                None => Err(b[0].host_port@),
            }
        },
    }
}

impl ContainerInspection {
    /// Where TCP port `container_port` is published on the host: the first binding of its
    /// first entry. A binding whose host port is not a port number is an error.
    pub fn published_tcp_host_port(&self, container_port: u16) -> (r: Result<Option<PublishedPort>, AgentboxError>)
        ensures
            match publication_spec(self.ports@, container_port) {
                Ok(None) => r matches Ok(None),
                Ok(Some((ip, p))) => r matches Ok(Some(pp)) && pp.host_ip@ == ip && pp.host_port == p,
                Err(h) => r matches Err(AgentboxError::MalformedPublishedPort { port_key, host_port }) && port_key@ == tcp_key(container_port) && host_port@ == h,
            },
    {
        let mut key = decimal_chars(container_port as u64);
        push_str(&mut key, "/tcp");
        let key_string = string_of(&key);
        let mut i: usize = 0;
        assert(self.ports@.skip(0) =~= self.ports@);
        while i < self.ports.len()
            invariant
                i <= self.ports@.len(),
                key_string@ == tcp_key(container_port),
                bindings_of(self.ports@, tcp_key(container_port)) == bindings_of(self.ports@.skip(i as int), tcp_key(container_port)),
            decreases self.ports.len() - i,
        {
            assert(self.ports@.skip(i as int).drop_first() =~= self.ports@.skip(i + 1));
            if str_eq(self.ports[i].0.as_str(), key_string.as_str()) {
                let bindings = &self.ports[i].1;
                if bindings.len() == 0 {
                    return Ok(None);
                }
                let port_chars = chars_of(bindings[0].host_port.as_str());
                return match parse_u16(&port_chars) {
                    Some(p) => Ok(Some(PublishedPort { host_ip: bindings[0].host_ip.clone(), host_port: p })),
                    None => Err(AgentboxError::MalformedPublishedPort {
                        port_key: key_string,
                        host_port: bindings[0].host_port.clone(),
                    }),
                };
            }
            i = i + 1;
        }
        Ok(None)
    }
}

} // verus!
