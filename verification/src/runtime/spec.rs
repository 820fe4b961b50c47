//! What a runtime container is created with, and where its server can be reached.

use vstd::prelude::*;

use crate::order::strings_view;
use crate::string_map::StringMap;
use crate::text::{chars_of, copy_strings, decimal, decimal_chars, push_chars, push_str, string_of};

verus! {

/// The host address on which runtime servers are published.
pub const DEFAULT_HOST_ATTACH_IP: &'static str = "127.0.0.1";

/// Whether a mount binds a host path or names a volume.
#[derive(Debug, Clone, Copy, PartialEq, Eq, Structural)]
pub enum RuntimeMountKind {
    Bind,
    Volume,
}

impl RuntimeMountKind {
    /// Whether this is a volume mount.
    pub fn is_volume(self) -> (r: bool)
        ensures
            r == (self == RuntimeMountKind::Volume),
    {
        match self {
            RuntimeMountKind::Volume => true,
            RuntimeMountKind::Bind => false,
        }
    }
}

/// The mathematical form of a mount.
pub struct MountView {
    pub kind: RuntimeMountKind,
    pub source: Seq<char>,
    pub destination: Seq<char>,
    pub read_only: bool,
}

/// A mount of a host path or volume into the container.
#[derive(Debug, PartialEq, Eq)]
pub struct RuntimeMount {
    kind: RuntimeMountKind,
    source: String,
    destination: String,
    read_only: bool,
}

impl View for RuntimeMount {
    type V = MountView;

    closed spec fn view(&self) -> MountView {
        MountView {
            kind: self.kind,
            source: self.source@,
            destination: self.destination@,
            read_only: self.read_only,
        }
    }
}

impl Clone for RuntimeMount {
    /// The same mount.
    fn clone(&self) -> (r: Self)
        ensures
            r@ == self@,
    {
        RuntimeMount {
            kind: self.kind,
            source: self.source.clone(),
            destination: self.destination.clone(),
            read_only: self.read_only,
        }
    }
}

impl RuntimeMount {
    /// A writable bind mount of `source` at `destination`.
    pub fn bind(source: String, destination: String) -> (m: Self)
        ensures
            m@ == (MountView {
                kind: RuntimeMountKind::Bind,
                source: source@,
                destination: destination@,
                read_only: false,
            }),
    {
        Self::new(RuntimeMountKind::Bind, source, destination, false)
    }

    /// A read-only bind mount of `source` at `destination`.
    pub fn read_only_bind(source: String, destination: String) -> (m: Self)
        ensures
            m@ == (MountView {
                kind: RuntimeMountKind::Bind,
                source: source@,
                destination: destination@,
                read_only: true,
            }),
    {
        Self::new(RuntimeMountKind::Bind, source, destination, true)
    }

    /// The volume `source` mounted at `destination`.
    pub fn volume(source: String, destination: String) -> (m: Self)
        ensures
            m@ == (MountView {
                kind: RuntimeMountKind::Volume,
                source: source@,
                destination: destination@,
                read_only: false,
            }),
    {
        Self::new(RuntimeMountKind::Volume, source, destination, false)
    }

    fn new(kind: RuntimeMountKind, source: String, destination: String, read_only: bool) -> (m:
        Self)
        ensures
            m@ == (MountView { kind, source: source@, destination: destination@, read_only }),
    {
        RuntimeMount { kind, source, destination, read_only }
    }

    /// The kind of mount.
    pub fn kind(&self) -> (r: RuntimeMountKind)
        ensures
            r == self@.kind,
    {
        self.kind
    }

    /// The host path or volume name.
    pub fn source(&self) -> (r: &str)
        ensures
            r@ == self@.source,
    {
        self.source.as_str()
    }

    /// Where the mount appears in the container.
    pub fn destination(&self) -> (r: &str)
        ensures
            r@ == self@.destination,
    {
        self.destination.as_str()
    }

    /// Whether the container may not write to the mount.
    pub fn is_read_only(&self) -> (r: bool)
        ensures
            r == self@.read_only,
    {
        self.read_only
    }

    /// Whether the mount is a volume.
    pub fn is_volume(&self) -> (r: bool)
        ensures
            r == (self@.kind == RuntimeMountKind::Volume),
    {
        self.kind.is_volume()
    }
}

/// The mounts of `v`, by their mathematical form.
pub open spec fn mounts_view(v: Seq<RuntimeMount>) -> Seq<MountView> {
    v.map_values(|m: RuntimeMount| m@)
}

/// Copies of each mount, in order.
pub fn copy_mounts(v: &[RuntimeMount]) -> (r: Vec<RuntimeMount>)
    ensures
        mounts_view(r@) == mounts_view(v@),
{
    let mut r: Vec<RuntimeMount> = Vec::new();
    let mut i: usize = 0;
    while i < v.len()
        invariant
            i <= v@.len(),
            mounts_view(r@) == mounts_view(v@.take(i as int)),
        decreases v.len() - i,
    {
        r.push(v[i].clone());
        assert(mounts_view(v@.take(i + 1)) =~= mounts_view(v@.take(i as int)).push(v@[i as int]@));
        assert(mounts_view(r@) =~= mounts_view(v@.take(i + 1)));
        i = i + 1;
    }
    assert(v@.take(v@.len() as int) =~= v@);
    r
}

/// A command line: the program and its arguments.
#[derive(Debug, PartialEq, Eq)]
pub struct RuntimeCommand {
    pub argv: Vec<String>,
}

impl View for RuntimeCommand {
    type V = Seq<Seq<char>>;

    open spec fn view(&self) -> Seq<Seq<char>> {
        strings_view(self.argv@)
    }
}

/// A command and the directory it runs in.
#[derive(Debug, PartialEq, Eq)]
pub struct RuntimeInvocation {
    argv: Vec<String>,
    workdir: String,
}

impl RuntimeInvocation {
    /// The command line of the invocation.
    pub closed spec fn argv_view(&self) -> Seq<Seq<char>> {
        strings_view(self.argv@)
    }

    /// The working directory of the invocation.
    pub closed spec fn workdir_view(&self) -> Seq<char> {
        self.workdir@
    }

    /// `argv` run in `workdir`.
    pub fn new(argv: Vec<String>, workdir: String) -> (r: Self)
        ensures
            r.argv_view() == strings_view(argv@),
            r.workdir_view() == workdir@,
    {
        RuntimeInvocation { argv, workdir }
    }

    /// The command line.
    pub fn argv(&self) -> (r: &Vec<String>)
        ensures
            strings_view(r@) == self.argv_view(),
    {
        &self.argv
    }

    /// The working directory.
    pub fn workdir(&self) -> (r: &str)
        ensures
            r@ == self.workdir_view(),
    {
        self.workdir.as_str()
    }

    /// The command line and the working directory.
    pub fn into_parts(self) -> (r: (Vec<String>, String))
        ensures
            strings_view(r.0@) == self.argv_view(),
            r.1@ == self.workdir_view(),
    {
        (self.argv, self.workdir)
    }
}

/// Limits on what a container may use.
#[derive(Debug, Clone, PartialEq, Eq, Default)]
pub struct ResourceLimits {
    /// A memory limit in the container engine's notation, such as `4g`.
    pub memory: Option<String>,
    /// A CPU limit in the container engine's notation, such as `2`.
    pub cpus: Option<String>,
}

impl ResourceLimits {
    /// No limits.
    pub fn unlimited() -> (r: Self)
        ensures
            r.memory is None,
            r.cpus is None,
    {
        ResourceLimits { memory: None, cpus: None }
    }

    /// The same limits.
    pub fn copy(&self) -> (r: Self)
        ensures
            match (r.memory, self.memory) {
                (Some(a), Some(b)) => a@ == b@,
                (None, None) => true,
                _ => false,
            },
            match (r.cpus, self.cpus) {
                (Some(a), Some(b)) => a@ == b@,
                (None, None) => true,
                _ => false,
            },
    {
        let memory = match &self.memory {
            Some(m) => Some(m.clone()),
            None => None,
        };
        let cpus = match &self.cpus {
            Some(c) => Some(c.clone()),
            None => None,
        };
        ResourceLimits { memory, cpus }
    }
}

/// The mathematical form of a create specification.
pub struct CreateSpecView {
    pub image: Seq<char>,
    pub labels: Map<Seq<char>, Seq<char>>,
    pub mounts: Seq<MountView>,
    pub command: Seq<Seq<char>>,
    pub default_env: Map<Seq<char>, Seq<char>>,
    pub network_enabled: bool,
    pub published_ports: Seq<Seq<char>>,
}

/// Everything a container is created with.
#[derive(Debug, PartialEq, Eq)]
pub struct RuntimeCreateSpec {
    image: String,
    labels: StringMap,
    mounts: Vec<RuntimeMount>,
    command: Vec<String>,
    default_env: StringMap,
    network_enabled: bool,
    published_ports: Vec<String>,
    resource_limits: ResourceLimits,
}

impl View for RuntimeCreateSpec {
    type V = CreateSpecView;

    closed spec fn view(&self) -> CreateSpecView {
        CreateSpecView {
            image: self.image@,
            labels: self.labels@,
            mounts: mounts_view(self.mounts@),
            command: strings_view(self.command@),
            default_env: self.default_env@,
            network_enabled: self.network_enabled,
            published_ports: strings_view(self.published_ports@),
        }
    }
}

impl RuntimeCreateSpec {
    /// The resource limits the container is created with.
    pub closed spec fn limits(&self) -> ResourceLimits {
        self.resource_limits
    }

    /// A builder for a container of `image` with no labels, mounts, command, environment or
    /// published ports, with networking and without resource limits.
    pub fn builder(image: String) -> (b: RuntimeCreateSpecBuilder)
        ensures
            b@ == (CreateSpecView {
                image: image@,
                labels: Map::empty(),
                mounts: Seq::empty(),
                command: Seq::empty(),
                default_env: Map::empty(),
                network_enabled: true,
                published_ports: Seq::empty(),
            }),
            b.limits().memory is None,
            b.limits().cpus is None,
    {
        RuntimeCreateSpecBuilder::new(image)
    }

    /// The image.
    pub fn image(&self) -> (r: &str)
        ensures
            r@ == self@.image,
    {
        self.image.as_str()
    }

    /// The labels.
    pub fn labels(&self) -> (r: &StringMap)
        ensures
            r@ == self@.labels,
    {
        &self.labels
    }

    /// The mounts, in order.
    pub fn mounts(&self) -> (r: &Vec<RuntimeMount>)
        ensures
            mounts_view(r@) == self@.mounts,
    {
        &self.mounts
    }

    /// The command line.
    pub fn command(&self) -> (r: &Vec<String>)
        ensures
            strings_view(r@) == self@.command,
    {
        &self.command
    }

    /// The environment the container starts with.
    pub fn default_env(&self) -> (r: &StringMap)
        ensures
            r@ == self@.default_env,
    {
        &self.default_env
    }

    /// Whether the container has networking.
    pub fn network_enabled(&self) -> (r: bool)
        ensures
            r == self@.network_enabled,
    {
        self.network_enabled
    }

    /// The port publications, in the container engine's `ip::port` notation.
    pub fn published_ports(&self) -> (r: &Vec<String>)
        ensures
            strings_view(r@) == self@.published_ports,
    {
        &self.published_ports
    }

    /// The resource limits.
    pub fn resource_limits(&self) -> (r: &ResourceLimits)
        ensures
            *r == self.limits(),
    {
        &self.resource_limits
    }

    /// Sets the label `name` to `value`.
    pub fn insert_label(&mut self, name: String, value: String)
        ensures
            final(self)@ == (CreateSpecView { labels: old(self)@.labels.insert(name@, value@), ..old(self)@ }),
            final(self).limits() == old(self).limits(),
    {
        self.labels.insert(name, value);
    }

    /// Adds a mount after the others.
    pub fn add_mount(&mut self, mount: RuntimeMount)
        ensures
            final(self)@ == (CreateSpecView { mounts: old(self)@.mounts.push(mount@), ..old(self)@ }),
            final(self).limits() == old(self).limits(),
    {
        self.mounts.push(mount);
        assert(mounts_view(self.mounts@) =~= mounts_view(old(self).mounts@).push(mount@));
    }

    /// Adds environment variables, replacing those of the same names.
    pub fn extend_default_env(&mut self, env: &StringMap)
        ensures
            final(self)@ == (CreateSpecView { default_env: old(self)@.default_env.union_prefer_right(env@), ..old(self)@ }),
            final(self).limits() == old(self).limits(),
    {
        self.default_env.extend(env);
    }
}

/// Collects what a container will be created with.
#[derive(Debug, PartialEq, Eq)]
pub struct RuntimeCreateSpecBuilder {
    image: String,
    labels: StringMap,
    mounts: Vec<RuntimeMount>,
    command: Vec<String>,
    default_env: StringMap,
    network_enabled: bool,
    published_ports: Vec<String>,
    resource_limits: ResourceLimits,
}

impl View for RuntimeCreateSpecBuilder {
    type V = CreateSpecView;

    closed spec fn view(&self) -> CreateSpecView {
        CreateSpecView {
            image: self.image@,
            labels: self.labels@,
            mounts: mounts_view(self.mounts@),
            command: strings_view(self.command@),
            default_env: self.default_env@,
            network_enabled: self.network_enabled,
            published_ports: strings_view(self.published_ports@),
        }
    }
}

impl RuntimeCreateSpecBuilder {
    /// The resource limits collected so far.
    pub closed spec fn limits(&self) -> ResourceLimits {
        self.resource_limits
    }

    fn new(image: String) -> (b: Self)
        ensures
            b@ == (CreateSpecView {
                image: image@,
                labels: Map::empty(),
                mounts: Seq::empty(),
                command: Seq::empty(),
                default_env: Map::empty(),
                network_enabled: true,
                published_ports: Seq::empty(),
            }),
            b.limits().memory is None,
            b.limits().cpus is None,
    {
        let b = RuntimeCreateSpecBuilder {
            image,
            labels: StringMap::new(),
            mounts: Vec::new(),
            command: Vec::new(),
            default_env: StringMap::new(),
            network_enabled: true,
            published_ports: Vec::new(),
            resource_limits: ResourceLimits::unlimited(),
        };
        assert(mounts_view(b.mounts@) =~= Seq::empty());
        assert(strings_view(b.command@) =~= Seq::empty());
        assert(strings_view(b.published_ports@) =~= Seq::empty());
        b
    }

    /// Replaces the labels.
    pub fn labels(self, labels: StringMap) -> (b: Self)
        ensures
            b@ == (CreateSpecView { labels: labels@, ..self@ }),
            b.limits() == self.limits(),
    {
        RuntimeCreateSpecBuilder { labels, ..self }
    }

    /// Replaces the mounts.
    pub fn mounts(self, mounts: Vec<RuntimeMount>) -> (b: Self)
        ensures
            b@ == (CreateSpecView { mounts: mounts_view(mounts@), ..self@ }),
            b.limits() == self.limits(),
    {
        RuntimeCreateSpecBuilder { mounts, ..self }
    }

    /// Replaces the command line.
    pub fn command(self, command: Vec<String>) -> (b: Self)
        ensures
            b@ == (CreateSpecView { command: strings_view(command@), ..self@ }),
            b.limits() == self.limits(),
    {
        RuntimeCreateSpecBuilder { command, ..self }
    }

    /// Replaces the environment.
    pub fn default_env(self, default_env: StringMap) -> (b: Self)
        ensures
            b@ == (CreateSpecView { default_env: default_env@, ..self@ }),
            b.limits() == self.limits(),
    {
        RuntimeCreateSpecBuilder { default_env, ..self }
    }

    /// Turns networking on or off.
    pub fn network_enabled(self, network_enabled: bool) -> (b: Self)
        ensures
            b@ == (CreateSpecView { network_enabled, ..self@ }),
            b.limits() == self.limits(),
    {
        RuntimeCreateSpecBuilder { network_enabled, ..self }
    }

    /// Replaces the port publications.
    pub fn published_ports(self, published_ports: Vec<String>) -> (b: Self)
        ensures
            b@ == (CreateSpecView { published_ports: strings_view(published_ports@), ..self@ }),
            b.limits() == self.limits(),
    {
        RuntimeCreateSpecBuilder { published_ports, ..self }
    }

    /// Replaces the resource limits.
    pub fn resource_limits(self, resource_limits: ResourceLimits) -> (b: Self)
        ensures
            b@ == self@,
            b.limits() == resource_limits,
    {
        RuntimeCreateSpecBuilder { resource_limits, ..self }
    }

    /// The create specification collected.
    pub fn build(self) -> (s: RuntimeCreateSpec)
        ensures
            s@ == self@,
            s.limits() == self.limits(),
    {
        RuntimeCreateSpec {
            image: self.image,
            labels: self.labels,
            mounts: self.mounts,
            command: self.command,
            default_env: self.default_env,
            network_enabled: self.network_enabled,
            published_ports: self.published_ports,
            resource_limits: self.resource_limits,
        }
    }
}

/// A container to create and the directory its command runs in.
#[derive(Debug, PartialEq, Eq)]
pub struct RuntimeRunSpec {
    create: RuntimeCreateSpec,
    workdir: String,
}

impl RuntimeRunSpec {
    /// The create specification.
    pub closed spec fn create_view(&self) -> CreateSpecView {
        self.create@
    }

    /// The working directory.
    pub closed spec fn workdir_view(&self) -> Seq<char> {
        self.workdir@
    }

    /// `create` run in `workdir`.
    pub fn new(create: RuntimeCreateSpec, workdir: String) -> (r: Self)
        ensures
            r.create_view() == create@,
            r.workdir_view() == workdir@,
    {
        RuntimeRunSpec { create, workdir }
    }

    /// The create specification.
    pub fn create(&self) -> (r: &RuntimeCreateSpec)
        ensures
            r@ == self.create_view(),
    {
        &self.create
    }

    /// The working directory.
    pub fn workdir(&self) -> (r: &str)
        ensures
            r@ == self.workdir_view(),
    {
        self.workdir.as_str()
    }

    /// Sets a label of the container to create.
    pub fn insert_create_label(&mut self, name: String, value: String)
        ensures
            final(self).create_view() == (CreateSpecView { labels: old(self).create_view().labels.insert(name@, value@), ..old(self).create_view() }),
            final(self).workdir_view() == old(self).workdir_view(),
    {
        self.create.insert_label(name, value);
    }

    /// Adds a mount to the container to create.
    pub fn add_create_mount(&mut self, mount: RuntimeMount)
        ensures
            final(self).create_view() == (CreateSpecView { mounts: old(self).create_view().mounts.push(mount@), ..old(self).create_view() }),
            final(self).workdir_view() == old(self).workdir_view(),
    {
        self.create.add_mount(mount);
    }

    /// Adds environment variables to the container to create.
    pub fn extend_create_default_env(&mut self, env: &StringMap)
        ensures
            final(self).create_view() == (CreateSpecView { default_env: old(self).create_view().default_env.union_prefer_right(env@), ..old(self).create_view() }),
            final(self).workdir_view() == old(self).workdir_view(),
    {
        self.create.extend_default_env(env);
    }
}

/// How a runtime container is run.
#[derive(Debug, Clone, Copy, PartialEq, Eq, Structural)]
pub enum RuntimeRunMode {
    ManagedSession,
    TransientServer,
    Foreground,
}

impl RuntimeRunMode {
    /// Whether the runtime's server is published to the host in this mode.
    pub fn publishes_attach_endpoint(self) -> (r: bool)
        ensures
            r == (self != RuntimeRunMode::Foreground),
    {
        match self {
            RuntimeRunMode::ManagedSession | RuntimeRunMode::TransientServer => true,
            RuntimeRunMode::Foreground => false,
        }
    }
}

/// A published runtime server endpoint on the host.
#[derive(Debug, PartialEq, Eq)]
pub struct AttachEndpoint {
    pub scheme: String,
    pub host_ip: String,
    pub host_port: u16,
}

impl Clone for AttachEndpoint {
    /// The same endpoint.
    fn clone(&self) -> (r: Self)
        ensures
            r.scheme@ == self.scheme@,
            r.host_ip@ == self.host_ip@,
            r.host_port == self.host_port,
    {
        AttachEndpoint {
            scheme: self.scheme.clone(),
            host_ip: self.host_ip.clone(),
            host_port: self.host_port,
        }
    }
}

/// `scheme://host:port`.
pub open spec fn url_text(scheme: Seq<char>, host: Seq<char>, port: u16) -> Seq<char> {
    scheme + "://"@ + host + ":"@ + decimal(port as nat)
}

impl AttachEndpoint {
    /// The endpoint as a URL, `scheme://host_ip:host_port`.
    pub fn to_display_string(&self) -> (r: String)
        ensures
            r@ == url_text(self.scheme@, self.host_ip@, self.host_port),
    {
        url_string(self.scheme.as_str(), self.host_ip.as_str(), self.host_port)
    }
}

fn url_string(scheme: &str, host: &str, port: u16) -> (r: String)
    ensures
        r@ == url_text(scheme@, host@, port),
{
    let mut out: Vec<char> = Vec::new();
    push_str(&mut out, scheme);
    push_str(&mut out, "://");
    push_str(&mut out, host);
    push_str(&mut out, ":");
    let d = decimal_chars(port as u64);
    push_chars(&mut out, &d);
    string_of(&out)
}

/// Where a runtime's server listens inside its container.
#[derive(Debug, Clone, Copy, PartialEq, Eq)]
pub struct RuntimeAttachSpec {
    pub scheme: &'static str,
    pub container_listen_ip: &'static str,
    pub container_port: u16,
}

/// What a health probe of a runtime's server asks for and accepts.
#[derive(Debug, Clone, Copy, PartialEq, Eq)]
pub struct RuntimeHealthCheck {
    pub path: &'static str,
    pub response_policy: RuntimeHealthResponsePolicy,
}

/// What a healthy response looks like.
#[derive(Debug, Clone, Copy, PartialEq, Eq, Structural)]
pub enum RuntimeHealthResponsePolicy {
    /// Status 200 is enough.
    HttpOk,
    /// Status 200 and a JSON body whose `healthy` field is true.
    JsonHealthyFlag,
}

impl RuntimeAttachSpec {
    /// `scheme://listen_ip:port` inside the container.
    pub fn container_listen_endpoint(self) -> (r: String)
        ensures
            r@ == url_text(self.scheme@, self.container_listen_ip@, self.container_port),
    {
        url_string(self.scheme, self.container_listen_ip, self.container_port)
    }

    /// The container engine's key for the server's port, `port/tcp`.
    pub fn tcp_port_key(self) -> (r: String)
        ensures
            r@ == decimal(self.container_port as nat) + "/tcp"@,
    {
        let mut out = decimal_chars(self.container_port as u64);
        push_str(&mut out, "/tcp");
        string_of(&out)
    }

    /// The publication of the server's port on `host_ip`, `host_ip::port`.
    pub fn published_port(self, host_ip: &str) -> (r: String)
        ensures
            r@ == host_ip@ + "::"@ + decimal(self.container_port as nat),
    {
        let mut out = chars_of(host_ip);
        push_str(&mut out, "::");
        let d = decimal_chars(self.container_port as u64);
        push_chars(&mut out, &d);
        string_of(&out)
    }
}

/// Copies of each string of `v`.
pub fn copy_argv(v: &Vec<String>) -> (r: Vec<String>)
    ensures
        strings_view(r@) == strings_view(v@),
{
    let r = copy_strings(v);
    assert(strings_view(r@) =~= strings_view(v@));
    r
}

} // verus!
