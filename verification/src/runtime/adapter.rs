//! A runtime seen through its profile.

use vstd::prelude::*;

use super::command::{host_client_arg_text, server_arg_text, HostClientCommandArg, ServerCommandArg};
use super::default_image::{context_hash_spec, default_context_files, default_image_spec};
use super::kind::{attach_of, host_client_template, kind_name, server_template, RuntimeKind};
use super::spec::{AttachEndpoint, RuntimeAttachSpec, RuntimeCommand};

verus! {

/// A runtime, for the operations that depend only on its profile.
#[derive(Debug, Clone, Copy, PartialEq, Eq)]
pub struct RuntimeAdapter {
    pub kind: RuntimeKind,
}

impl RuntimeAdapter {
    /// The adapter of `kind`.
    pub fn new(kind: RuntimeKind) -> (r: Self)
        ensures
            r.kind == kind,
    {
        RuntimeAdapter { kind }
    }

    /// The runtime's name.
    pub fn name(self) -> (r: &'static str)
        ensures
            r@ == kind_name(self.kind),
    {
        self.kind.as_str()
    }

    /// The reference of the runtime's default image.
    pub fn default_image(self) -> (r: String)
        ensures
            r@ == default_image_spec(self.kind, context_hash_spec(default_context_files())),
    {
        self.kind.default_image()
    }

    /// Where the runtime's server listens inside its container.
    pub fn attach_spec(self) -> (r: RuntimeAttachSpec)
        ensures
            r == attach_of(self.kind),
    {
        self.kind.attach_spec()
    }

    /// The command line of the runtime's server.
    pub fn server_command(self) -> (r: RuntimeCommand)
        ensures
            r@ == server_template(self.kind).map_values(|a: ServerCommandArg| server_arg_text(a, attach_of(self.kind))),
    {
        self.kind.server_command()
    }

    /// The command line that attaches a host client to the runtime's server at `endpoint`.
    pub fn host_client_command(self, endpoint: &AttachEndpoint) -> (r: RuntimeCommand)
        ensures
            r@ == host_client_template(self.kind).map_values(
                |a: HostClientCommandArg|
                    host_client_arg_text(a, endpoint.scheme@, endpoint.host_ip@, endpoint.host_port),
            ),
    {
        self.kind.host_client_command(endpoint)
    }
}

} // verus!
