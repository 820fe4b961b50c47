//! The supported runtimes and their profiles: names, packages, server endpoints, health
//! checks, environment and command lines.

use vstd::prelude::*;

use crate::error::AgentboxError;
use crate::order::strings_view;
use crate::string_map::StringMap;
use crate::text::{chars_of, owned, push_str, str_eq, string_of, trim, trim_chars};

use super::command::{
    direct_arg_text, host_client_arg_text, render_direct_command, render_host_client_command,
    render_server_command, server_arg_text, DirectCommandArg, HostClientCommandArg,
    ServerCommandArg,
};
use super::spec::{AttachEndpoint, RuntimeAttachSpec, RuntimeCommand, RuntimeHealthCheck,
    RuntimeHealthResponsePolicy};

verus! {

/// The environment variable through which a Codex host client passes its remote token.
pub const CODEX_REMOTE_TOKEN_ENV: &'static str = "AGENTBOX_CODEX_REMOTE_TOKEN";

/// The address runtime servers listen on inside their containers.
pub const CONTAINER_LISTEN_IP: &'static str = "0.0.0.0";

/// The flag with which Codex runs without approvals or sandbox, both as server and as
/// attaching client.
pub const CODEX_YOLO_FLAG: &'static str = "--dangerously-bypass-approvals-and-sandbox";

/// An agent runtime.
#[derive(Debug, Clone, Copy, PartialEq, Eq, Hash, Structural)]
pub enum RuntimeKind {
    Opencode,
    Codex,
}

/// The name of a runtime.
pub open spec fn kind_name(k: RuntimeKind) -> Seq<char> {
    match k {
        RuntimeKind::Opencode => "opencode"@,
        RuntimeKind::Codex => "codex"@,
    }
}

/// The runtime with the name `s`, if any.
pub open spec fn kind_from_name(s: Seq<char>) -> Option<RuntimeKind> {
    if s == kind_name(RuntimeKind::Opencode) {
        Some(RuntimeKind::Opencode)
    } else if s == kind_name(RuntimeKind::Codex) {
        Some(RuntimeKind::Codex)
    } else {
        None
    }
}

/// The runtime names quoted in backticks and joined with ` and `.
pub open spec fn supported_names_text() -> Seq<char> {
    "`"@ + kind_name(RuntimeKind::Opencode) + "` and `"@ + kind_name(RuntimeKind::Codex) + "`"@
}

/// The runtime names between angle brackets, separated by `|`.
pub open spec fn placeholder_text() -> Seq<char> {
    "<"@ + kind_name(RuntimeKind::Opencode) + "|"@ + kind_name(RuntimeKind::Codex) + ">"@
}

/// The two runtimes have different names, and each name leads back to its runtime.
pub proof fn lemma_kind_names_roundtrip(k: RuntimeKind)
    ensures
        kind_from_name(kind_name(k)) == Some(k),
        kind_name(RuntimeKind::Opencode) != kind_name(RuntimeKind::Codex),
        trim(kind_name(k)).len() > 0,
{
    reveal_strlit("opencode");
    reveal_strlit("codex");
    assert(kind_name(RuntimeKind::Opencode).len() != kind_name(RuntimeKind::Codex).len());
    crate::text::lemma_trim_of_nonblank(kind_name(k));
}

/// A runtime's npm package and the image build argument that pins its version.
#[derive(Debug, Clone, Copy, PartialEq, Eq)]
pub struct RuntimePackageSpec {
    pub name: &'static str,
    pub install_source: &'static str,
    pub build_arg: &'static str,
}

impl RuntimeKind {
    /// Both runtimes, OpenCode first.
    pub fn variants() -> (r: Vec<RuntimeKind>)
        ensures
            r@ == seq![RuntimeKind::Opencode, RuntimeKind::Codex],
    {
        let mut r: Vec<RuntimeKind> = Vec::new();
        r.push(RuntimeKind::Opencode);
        r.push(RuntimeKind::Codex);
        r
    }

    /// The runtime's name.
    pub fn as_str(self) -> (r: &'static str)
        ensures
            r@ == kind_name(self),
    {
        match self {
            RuntimeKind::Opencode => "opencode",
            RuntimeKind::Codex => "codex",
        }
    }

    /// The runtime names between angle brackets, separated by `|`: `<opencode|codex>`.
    pub fn supported_values_placeholder() -> (r: String)
        ensures
            r@ == placeholder_text(),
    {
        let mut out: Vec<char> = Vec::new();
        push_str(&mut out, "<");
        push_str(&mut out, RuntimeKind::Opencode.as_str());
        push_str(&mut out, "|");
        push_str(&mut out, RuntimeKind::Codex.as_str());
        push_str(&mut out, ">");
        string_of(&out)
    }

    /// The runtime names, OpenCode first.
    pub fn supported_values() -> (r: Vec<&'static str>)
        ensures
            r@.len() == 2,
            r@[0]@ == kind_name(RuntimeKind::Opencode),
            r@[1]@ == kind_name(RuntimeKind::Codex),
    {
        let mut r: Vec<&'static str> = Vec::new();
        r.push(RuntimeKind::Opencode.as_str());
        r.push(RuntimeKind::Codex.as_str());
        r
    }

    /// Reads a runtime label: the runtime it names, or why it names none.
    pub fn parse_label(value: &str) -> (r: Result<RuntimeKind, AgentboxError>)
        ensures
            trim(value@).len() == 0 ==> r matches Err(AgentboxError::EmptyRuntimeLabel),
            trim(value@).len() > 0 ==> match kind_from_name(value@) {
                Some(k) => r == Ok::<RuntimeKind, AgentboxError>(k),
                None => r matches Err(AgentboxError::UnsupportedRuntime { value: x }) && x@ == value@,
            },
    {
        let cs = chars_of(value);
        let t = trim_chars(&cs);
        if t.len() == 0 {
            return Err(AgentboxError::EmptyRuntimeLabel);
        }
        match runtime_kind_from_name(value) {
            Some(k) => Ok(k),
            None => Err(AgentboxError::UnsupportedRuntime { value: owned(value) }),
        }
    }

    /// Where the runtime's server listens inside its container.
    pub fn attach_spec(self) -> (r: RuntimeAttachSpec)
        ensures
            r == attach_of(self),
    {
        match self {
            RuntimeKind::Opencode => RuntimeAttachSpec {
                scheme: "http",
                container_listen_ip: CONTAINER_LISTEN_IP,
                container_port: 4096,
            },
            RuntimeKind::Codex => RuntimeAttachSpec {
                scheme: "ws",
                container_listen_ip: CONTAINER_LISTEN_IP,
                container_port: 1455,
            },
        }
    }

    /// What a health probe of the runtime's server asks for and accepts.
    pub fn health_check(self) -> (r: RuntimeHealthCheck)
        ensures
            r == health_check_of(self),
    {
        match self {
            RuntimeKind::Opencode => RuntimeHealthCheck {
                path: "/global/health",
                response_policy: RuntimeHealthResponsePolicy::JsonHealthyFlag,
            },
            RuntimeKind::Codex => RuntimeHealthCheck {
                path: "/readyz",
                response_policy: RuntimeHealthResponsePolicy::HttpOk,
            },
        }
    }

    /// The runtime's npm package.
    pub fn package_spec(self) -> (r: RuntimePackageSpec)
        ensures
            r == package_of(self),
    {
        match self {
            RuntimeKind::Opencode => RuntimePackageSpec {
                name: "opencode-ai",
                install_source: "npm",
                build_arg: "OPENCODE_NPM_VERSION",
            },
            RuntimeKind::Codex => RuntimePackageSpec {
                name: "@openai/codex",
                install_source: "npm",
                build_arg: "CODEX_NPM_VERSION",
            },
        }
    }

    /// The command line template of the runtime's server.
    pub fn server_command_template(self) -> (r: Vec<ServerCommandArg>)
        ensures
            r@ == server_template(self),
    {
        let mut r: Vec<ServerCommandArg> = Vec::new();
        match self {
            RuntimeKind::Opencode => {
                r.push(ServerCommandArg::Literal("opencode"));
                r.push(ServerCommandArg::Literal("serve"));
                r.push(ServerCommandArg::Literal("--hostname"));
                r.push(ServerCommandArg::ContainerListenIp);
                r.push(ServerCommandArg::Literal("--port"));
                r.push(ServerCommandArg::ContainerPort);
            },
            RuntimeKind::Codex => {
                r.push(ServerCommandArg::Literal("codex"));
                r.push(ServerCommandArg::Literal(CODEX_YOLO_FLAG));
                r.push(ServerCommandArg::Literal("app-server"));
                r.push(ServerCommandArg::Literal("--listen"));
                r.push(ServerCommandArg::ContainerListenEndpoint);
            },
        }
        assert(r@ =~= server_template(self));
        r
    }

    /// The command line template of the client that attaches to the runtime's server.
    pub fn host_client_command_template(self) -> (r: Vec<HostClientCommandArg>)
        ensures
            r@ == host_client_template(self),
    {
        let mut r: Vec<HostClientCommandArg> = Vec::new();
        match self {
            RuntimeKind::Opencode => {
                r.push(HostClientCommandArg::Literal("opencode"));
                r.push(HostClientCommandArg::Literal("attach"));
                r.push(HostClientCommandArg::AttachEndpoint);
            },
            RuntimeKind::Codex => {
                r.push(HostClientCommandArg::Literal("codex"));
                r.push(HostClientCommandArg::Literal(CODEX_YOLO_FLAG));
                r.push(HostClientCommandArg::Literal("--remote"));
                r.push(HostClientCommandArg::AttachEndpoint);
                r.push(HostClientCommandArg::Literal("--remote-auth-token-env"));
                r.push(HostClientCommandArg::Literal(CODEX_REMOTE_TOKEN_ENV));
            },
        }
        assert(r@ =~= host_client_template(self));
        r
    }

    /// The command line template of the runtime run in the foreground.
    pub fn foreground_command_template(self) -> (r: Vec<DirectCommandArg>)
        ensures
            r@ == foreground_template(self),
    {
        let mut r: Vec<DirectCommandArg> = Vec::new();
        match self {
            RuntimeKind::Opencode => {
                r.push(DirectCommandArg::Literal("opencode"));
            },
            RuntimeKind::Codex => {
                r.push(DirectCommandArg::Literal("codex"));
                r.push(DirectCommandArg::Literal(CODEX_YOLO_FLAG));
            },
        }
        assert(r@ =~= foreground_template(self));
        r
    }

    /// The command line of the runtime's server.
    pub fn server_command(self) -> (r: RuntimeCommand)
        ensures
            r@ == server_template(self).map_values(|a: ServerCommandArg| server_arg_text(a, attach_of(self))),
    {
        let t = self.server_command_template();
        render_server_command(&t, self.attach_spec())
    }

    /// The command line that attaches a host client to the runtime's server at `endpoint`.
    pub fn host_client_command(self, endpoint: &AttachEndpoint) -> (r: RuntimeCommand)
        ensures
            r@ == host_client_template(self).map_values(
                |a: HostClientCommandArg|
                    host_client_arg_text(a, endpoint.scheme@, endpoint.host_ip@, endpoint.host_port),
            ),
    {
        let t = self.host_client_command_template();
        render_host_client_command(&t, endpoint)
    }

    /// The command line of the runtime run in the foreground.
    pub fn foreground_command(self) -> (r: RuntimeCommand)
        ensures
            r@ == foreground_template(self).map_values(|a: DirectCommandArg| direct_arg_text(a)),
    {
        let t = self.foreground_command_template();
        render_direct_command(&t)
    }

    /// The environment the runtime's container starts with.
    pub fn default_env(self) -> (r: StringMap)
        ensures
            r@ == default_env_of(self),
    {
        let mut m = StringMap::new();
        match self {
            RuntimeKind::Opencode => {
                m.insert(owned("OPENCODE_CONFIG_CONTENT"), owned("{\"autoupdate\":false}"));
                m.insert(owned("OPENCODE_PERMISSION"), owned("{\"*\":\"allow\"}"));
            },
            RuntimeKind::Codex => {},
        }
        m
    }
}

/// Where a runtime's server listens.
pub open spec fn attach_of(k: RuntimeKind) -> RuntimeAttachSpec {
    match k {
        RuntimeKind::Opencode => RuntimeAttachSpec {
            scheme: "http",
            container_listen_ip: CONTAINER_LISTEN_IP,
            container_port: 4096,
        },
        RuntimeKind::Codex => RuntimeAttachSpec {
            scheme: "ws",
            container_listen_ip: CONTAINER_LISTEN_IP,
            container_port: 1455,
        },
    }
}

/// A runtime's health check.
pub open spec fn health_check_of(k: RuntimeKind) -> RuntimeHealthCheck {
    match k {
        RuntimeKind::Opencode => RuntimeHealthCheck {
            path: "/global/health",
            response_policy: RuntimeHealthResponsePolicy::JsonHealthyFlag,
        },
        RuntimeKind::Codex => RuntimeHealthCheck {
            path: "/readyz",
            response_policy: RuntimeHealthResponsePolicy::HttpOk,
        },
    }
}

/// A runtime's npm package.
pub open spec fn package_of(k: RuntimeKind) -> RuntimePackageSpec {
    match k {
        RuntimeKind::Opencode => RuntimePackageSpec {
            name: "opencode-ai",
            install_source: "npm",
            build_arg: "OPENCODE_NPM_VERSION",
        },
        RuntimeKind::Codex => RuntimePackageSpec {
            name: "@openai/codex",
            install_source: "npm",
            build_arg: "CODEX_NPM_VERSION",
        },
    }
}

/// A runtime's server command template.
pub open spec fn server_template(k: RuntimeKind) -> Seq<ServerCommandArg> {
    match k {
        RuntimeKind::Opencode => seq![
            ServerCommandArg::Literal("opencode"),
            ServerCommandArg::Literal("serve"),
            ServerCommandArg::Literal("--hostname"),
            ServerCommandArg::ContainerListenIp,
            ServerCommandArg::Literal("--port"),
            ServerCommandArg::ContainerPort,
        ],
        RuntimeKind::Codex => seq![
            ServerCommandArg::Literal("codex"),
            ServerCommandArg::Literal(CODEX_YOLO_FLAG),
            ServerCommandArg::Literal("app-server"),
            ServerCommandArg::Literal("--listen"),
            ServerCommandArg::ContainerListenEndpoint,
        ],
    }
}

/// A runtime's host client command template.
pub open spec fn host_client_template(k: RuntimeKind) -> Seq<HostClientCommandArg> {
    match k {
        RuntimeKind::Opencode => seq![
            HostClientCommandArg::Literal("opencode"),
            HostClientCommandArg::Literal("attach"),
            HostClientCommandArg::AttachEndpoint,
        ],
        RuntimeKind::Codex => seq![
            HostClientCommandArg::Literal("codex"),
            HostClientCommandArg::Literal(CODEX_YOLO_FLAG),
            HostClientCommandArg::Literal("--remote"),
            HostClientCommandArg::AttachEndpoint,
            HostClientCommandArg::Literal("--remote-auth-token-env"),
            HostClientCommandArg::Literal(CODEX_REMOTE_TOKEN_ENV),
        ],
    }
}

/// A runtime's foreground command template.
pub open spec fn foreground_template(k: RuntimeKind) -> Seq<DirectCommandArg> {
    match k {
        RuntimeKind::Opencode => seq![DirectCommandArg::Literal("opencode")],
        RuntimeKind::Codex => seq![
            DirectCommandArg::Literal("codex"),
            DirectCommandArg::Literal(CODEX_YOLO_FLAG),
        ],
    }
}

/// A runtime's default environment.
pub open spec fn default_env_of(k: RuntimeKind) -> Map<Seq<char>, Seq<char>> {
    match k {
        RuntimeKind::Opencode => Map::<Seq<char>, Seq<char>>::empty().insert(
            "OPENCODE_CONFIG_CONTENT"@,
            "{\"autoupdate\":false}"@,
        ).insert("OPENCODE_PERMISSION"@, "{\"*\":\"allow\"}"@),
        RuntimeKind::Codex => Map::empty(),
    }
}

/// The runtime named `value`, if any.
pub fn runtime_kind_from_name(value: &str) -> (r: Option<RuntimeKind>)
    ensures
        r == kind_from_name(value@),
{
    if str_eq(value, RuntimeKind::Opencode.as_str()) {
        Some(RuntimeKind::Opencode)
    } else if str_eq(value, RuntimeKind::Codex.as_str()) {
        Some(RuntimeKind::Codex)
    } else {
        None
    }
}

/// The runtime names in backticks joined with ` and `: ``"`opencode` and `codex`"``.
pub fn supported_runtime_names() -> (r: String)
    ensures
        r@ == supported_names_text(),
{
    let mut out: Vec<char> = Vec::new();
    push_str(&mut out, "`");
    push_str(&mut out, RuntimeKind::Opencode.as_str());
    push_str(&mut out, "` and `");
    push_str(&mut out, RuntimeKind::Codex.as_str());
    push_str(&mut out, "`");
    string_of(&out)
}

impl std::str::FromStr for RuntimeKind {
    type Err = AgentboxError;

    fn from_str(value: &str) -> Result<RuntimeKind, AgentboxError> {
        RuntimeKind::parse_label(value)
    }
}

} // verus!
