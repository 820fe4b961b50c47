//! Command-line templates of the runtimes and how they are filled in.

use vstd::prelude::*;

use crate::order::strings_view;
use crate::text::{decimal, decimal_string, owned};

use super::spec::{url_text, AttachEndpoint, RuntimeAttachSpec, RuntimeCommand};

verus! {

/// An argument of a server command line.
#[derive(Debug, Clone, Copy)]
pub enum ServerCommandArg {
    Literal(&'static str),
    ContainerListenIp,
    ContainerPort,
    ContainerListenEndpoint,
}

/// The text of a server argument for a runtime that listens as `attach` says.
pub open spec fn server_arg_text(arg: ServerCommandArg, attach: RuntimeAttachSpec) -> Seq<char> {
    match arg {
        ServerCommandArg::Literal(v) => v@,
        ServerCommandArg::ContainerListenIp => attach.container_listen_ip@,
        ServerCommandArg::ContainerPort => decimal(attach.container_port as nat),
        ServerCommandArg::ContainerListenEndpoint => url_text(
            attach.scheme@,
            attach.container_listen_ip@,
            attach.container_port,
        ),
    }
}

/// An argument of the command line that attaches a host client to a server.
#[derive(Debug, Clone, Copy)]
pub enum HostClientCommandArg {
    Literal(&'static str),
    AttachEndpoint,
}

/// The text of a host client argument for a server published at `endpoint`.
pub open spec fn host_client_arg_text(
    arg: HostClientCommandArg,
    scheme: Seq<char>,
    host_ip: Seq<char>,
    host_port: u16,
) -> Seq<char> {
    match arg {
        HostClientCommandArg::Literal(v) => v@,
        HostClientCommandArg::AttachEndpoint => url_text(scheme, host_ip, host_port),
    }
}

/// A host client's endpoint argument is the endpoint's full URL, naming its scheme, host
/// address and published host port: `scheme://host_ip:host_port`; a literal argument is
/// itself.
pub proof fn lemma_host_client_endpoint_is_full_url(arg: HostClientCommandArg, scheme: Seq<char>, host_ip: Seq<char>, host_port: u16)
    ensures
        arg is AttachEndpoint ==> host_client_arg_text(arg, scheme, host_ip, host_port)
            == scheme + "://"@ + host_ip + ":"@ + decimal(host_port as nat),
        arg matches HostClientCommandArg::Literal(v) ==> host_client_arg_text(arg, scheme, host_ip, host_port) == v@,
{
}

/// An argument of a command line that needs nothing filled in.
#[derive(Debug, Clone, Copy)]
pub enum DirectCommandArg {
    Literal(&'static str),
}

/// The text of a direct argument.
pub open spec fn direct_arg_text(arg: DirectCommandArg) -> Seq<char> {
    match arg {
        DirectCommandArg::Literal(v) => v@,
    }
}

fn render_server_arg(arg: ServerCommandArg, attach: RuntimeAttachSpec) -> (r: String)
    ensures
        r@ == server_arg_text(arg, attach),
{
    match arg {
        ServerCommandArg::Literal(v) => owned(v),
        ServerCommandArg::ContainerListenIp => owned(attach.container_listen_ip),
        ServerCommandArg::ContainerPort => decimal_string(attach.container_port as u64),
        ServerCommandArg::ContainerListenEndpoint => attach.container_listen_endpoint(),
    }
}

/// A server command line filled in for a runtime that listens as `attach` says.
pub fn render_server_command(args: &Vec<ServerCommandArg>, attach: RuntimeAttachSpec) -> (r:
    RuntimeCommand)
    ensures
        r@ == args@.map_values(|a: ServerCommandArg| server_arg_text(a, attach)),
{
    let ghost want = args@.map_values(|a: ServerCommandArg| server_arg_text(a, attach));
    let mut argv: Vec<String> = Vec::new();
    let mut i: usize = 0;
    while i < args.len()
        invariant
            i <= args@.len(),
            want == args@.map_values(|a: ServerCommandArg| server_arg_text(a, attach)),
            strings_view(argv@) == want.take(i as int),
        decreases args.len() - i,
    {
        let ghost prev = argv@;
        let text = render_server_arg(args[i], attach);
        argv.push(text);
        assert(strings_view(argv@) =~= strings_view(prev).push(text@));
        assert(want[i as int] == server_arg_text(args@[i as int], attach));
        assert(want.take(i + 1) =~= want.take(i as int).push(want[i as int]));
        i = i + 1;
    }
    assert(want.take(args@.len() as int) =~= want);
    RuntimeCommand { argv }
}

/// A host client command line filled in for a server published at `endpoint`.
pub fn render_host_client_command(args: &Vec<HostClientCommandArg>, endpoint: &AttachEndpoint) -> (r:
    RuntimeCommand)
    ensures
        r@ == args@.map_values(
            |a: HostClientCommandArg|
                host_client_arg_text(a, endpoint.scheme@, endpoint.host_ip@, endpoint.host_port),
        ),
        r@.len() == args@.len(),
        forall|i: int| 0 <= i < args@.len() && (#[trigger] args@[i]) is AttachEndpoint
            ==> r@[i] == endpoint.scheme@ + "://"@ + endpoint.host_ip@ + ":"@ + decimal(endpoint.host_port as nat),
        forall|i: int| 0 <= i < args@.len() ==> (#[trigger] args@[i] matches HostClientCommandArg::Literal(v) ==> r@[i] == v@),
{
    let ghost want = args@.map_values(
        |a: HostClientCommandArg|
            host_client_arg_text(a, endpoint.scheme@, endpoint.host_ip@, endpoint.host_port),
    );
    let mut argv: Vec<String> = Vec::new();
    let mut i: usize = 0;
    while i < args.len()
        invariant
            i <= args@.len(),
            want == args@.map_values(
                |a: HostClientCommandArg|
                    host_client_arg_text(a, endpoint.scheme@, endpoint.host_ip@, endpoint.host_port),
            ),
            strings_view(argv@) == want.take(i as int),
        decreases args.len() - i,
    {
        let text = match args[i] {
            HostClientCommandArg::Literal(v) => owned(v),
            HostClientCommandArg::AttachEndpoint => endpoint.to_display_string(),
        };
        let ghost prev = argv@;
        argv.push(text);
        assert(strings_view(argv@) =~= strings_view(prev).push(text@));
        assert(want[i as int] == host_client_arg_text(args@[i as int], endpoint.scheme@, endpoint.host_ip@, endpoint.host_port));
        assert(want.take(i + 1) =~= want.take(i as int).push(want[i as int]));
        i = i + 1;
    }
    assert(want.take(args@.len() as int) =~= want);
    proof {
        assert forall|i: int| 0 <= i < args@.len() implies ((#[trigger] args@[i]) is AttachEndpoint
            ==> want[i] == endpoint.scheme@ + "://"@ + endpoint.host_ip@ + ":"@ + decimal(endpoint.host_port as nat)) by {
            lemma_host_client_endpoint_is_full_url(args@[i], endpoint.scheme@, endpoint.host_ip@, endpoint.host_port);
        }
        assert forall|i: int| 0 <= i < args@.len() implies (#[trigger] args@[i] matches HostClientCommandArg::Literal(v) ==> want[i] == v@) by {
            lemma_host_client_endpoint_is_full_url(args@[i], endpoint.scheme@, endpoint.host_ip@, endpoint.host_port);
        }
    }
    RuntimeCommand { argv }
}

/// A direct command line.
pub fn render_direct_command(args: &Vec<DirectCommandArg>) -> (r: RuntimeCommand)
    ensures
        r@ == args@.map_values(|a: DirectCommandArg| direct_arg_text(a)),
{
    let ghost want = args@.map_values(|a: DirectCommandArg| direct_arg_text(a));
    let mut argv: Vec<String> = Vec::new();
    let mut i: usize = 0;
    while i < args.len()
        invariant
            i <= args@.len(),
            want == args@.map_values(|a: DirectCommandArg| direct_arg_text(a)),
            strings_view(argv@) == want.take(i as int),
        decreases args.len() - i,
    {
        let text = match args[i] {
            DirectCommandArg::Literal(v) => owned(v),
        };
        let ghost prev = argv@;
        argv.push(text);
        assert(strings_view(argv@) =~= strings_view(prev).push(text@));
        assert(want[i as int] == direct_arg_text(args@[i as int]));
        assert(want.take(i + 1) =~= want.take(i as int).push(want[i as int]));
        i = i + 1;
    }
    assert(want.take(args@.len() as int) =~= want);
    RuntimeCommand { argv }
}

} // verus!
