//! Wayland passthrough: the host's Wayland socket, mounted into runtime containers with
//! `WAYLAND_DISPLAY` pointing at it.

use vstd::prelude::*;

use crate::container_paths::CONTAINER_WAYLAND_DISPLAY;
use crate::environment::{EnvValue, Environment};
use crate::paths::{is_absolute_spec, join, join_spec};
use crate::runtime::spec::{CreateSpecView, MountView, RuntimeMount, RuntimeMountKind, RuntimeRunSpec};
use crate::ssh_signing::commit_signing::HostSocketCandidate;
use crate::string_map::StringMap;
use crate::text::{chars_of, concat3, owned};

verus! {

/// The host variable that names the Wayland display.
pub const HOST_WAYLAND_DISPLAY_ENV: &'static str = "WAYLAND_DISPLAY";

/// The host variable that names the runtime directory a relative display lies in.
pub const HOST_XDG_RUNTIME_DIR_ENV: &'static str = "XDG_RUNTIME_DIR";

/// The warning when `WAYLAND_DISPLAY` is not Unicode.
pub open spec fn display_not_utf8_warning() -> Seq<char> {
    "WAYLAND_DISPLAY is not UTF-8; Wayland passthrough disabled"@
}

/// The warning when a relative display has no runtime directory to lie in.
pub open spec fn relative_display_warning() -> Seq<char> {
    "WAYLAND_DISPLAY is relative but XDG_RUNTIME_DIR is unset or empty; Wayland passthrough disabled"@
}

/// The warning when `XDG_RUNTIME_DIR` is not Unicode.
pub open spec fn runtime_dir_not_utf8_warning() -> Seq<char> {
    "XDG_RUNTIME_DIR is not UTF-8; Wayland passthrough disabled"@
}

/// The warning when `XDG_RUNTIME_DIR` is relative.
pub open spec fn runtime_dir_relative_warning() -> Seq<char> {
    "XDG_RUNTIME_DIR is not absolute; Wayland passthrough disabled"@
}

/// The host's Wayland socket: none when `WAYLAND_DISPLAY` is unset or empty; the display
/// itself when absolute; otherwise the display below an absolute `XDG_RUNTIME_DIR`. A
/// variable that is not Unicode, a missing runtime directory or a relative one gives a
/// warning instead.
pub open spec fn wayland_candidate_spec(env: &Environment) -> Result<Option<Seq<char>>, Seq<char>> {
    match env.get_spec(HOST_WAYLAND_DISPLAY_ENV@) {
        None => Ok(None),
        Some(EnvValue::NotUnicode(_)) => Err(display_not_utf8_warning()),
        Some(EnvValue::Text(d)) => if d@.len() == 0 {
            Ok(None)
        } else if is_absolute_spec(d@) {
            Ok(Some(d@))
        } else {
            match env.get_spec(HOST_XDG_RUNTIME_DIR_ENV@) {
                None => Err(relative_display_warning()),
                Some(EnvValue::NotUnicode(_)) => Err(runtime_dir_not_utf8_warning()),
                Some(EnvValue::Text(r)) => if r@.len() == 0 {
                    Err(relative_display_warning())
                } else if !is_absolute_spec(r@) {
                    Err(runtime_dir_relative_warning())
                } else {
                    Ok(Some(join_spec(r@, d@)))
                },
            }
        },
    }
}

/// Wayland passthrough only ever names an absolute socket path.
pub proof fn lemma_wayland_socket_is_absolute(env: &Environment)
    ensures
        wayland_candidate_spec(env) matches Ok(Some(p)) ==> is_absolute_spec(p),
{
    match env.get_spec(HOST_WAYLAND_DISPLAY_ENV@) {
        Some(EnvValue::Text(d)) => {
            if d@.len() > 0 && !is_absolute_spec(d@) {
                match env.get_spec(HOST_XDG_RUNTIME_DIR_ENV@) {
                    Some(EnvValue::Text(r)) => {
                        if r@.len() > 0 && is_absolute_spec(r@) {
                            let j = join_spec(r@, d@);
                            if r@.last() == '/' {
                                assert(j == r@ + d@);
                                assert(j[0] == r@[0]);
                            } else {
                                assert(j == r@ + seq!['/'] + d@);
                                assert(j[0] == r@[0]);
                            }
                        }
                    },
                    _ => {},
                }
            }
        },
        _ => {},
    }
}

/// The host's Wayland socket, still to be checked for a connectable Unix socket.
pub fn wayland_socket_candidate(env: &Environment) -> (r: HostSocketCandidate)
    ensures
        match wayland_candidate_spec(env) {
            Ok(None) => r == HostSocketCandidate::Unset,
            Ok(Some(p)) => r matches HostSocketCandidate::Path(q) && q@ == p,
            Err(w) => r matches HostSocketCandidate::Rejected(m) && m@ == w,
        },
{
    let d = match env.get(HOST_WAYLAND_DISPLAY_ENV) {
        None => return HostSocketCandidate::Unset,
        Some(EnvValue::NotUnicode(_)) => return HostSocketCandidate::Rejected(
            owned("WAYLAND_DISPLAY is not UTF-8; Wayland passthrough disabled"),
        ),
        Some(EnvValue::Text(d)) => d,
    };
    let dc = chars_of(d.as_str());
    if dc.len() == 0 {
        return HostSocketCandidate::Unset;
    }
    if dc[0] == '/' {
        return HostSocketCandidate::Path(d.clone());
    }
    match env.get(HOST_XDG_RUNTIME_DIR_ENV) {
        None => HostSocketCandidate::Rejected(
            owned("WAYLAND_DISPLAY is relative but XDG_RUNTIME_DIR is unset or empty; Wayland passthrough disabled"),
        ),
        Some(EnvValue::NotUnicode(_)) => HostSocketCandidate::Rejected(
            owned("XDG_RUNTIME_DIR is not UTF-8; Wayland passthrough disabled"),
        ),
        Some(EnvValue::Text(r)) => {
            let rc = chars_of(r.as_str());
            if rc.len() == 0 {
                HostSocketCandidate::Rejected(
                    owned("WAYLAND_DISPLAY is relative but XDG_RUNTIME_DIR is unset or empty; Wayland passthrough disabled"),
                )
            } else if rc[0] != '/' {
                HostSocketCandidate::Rejected(owned("XDG_RUNTIME_DIR is not absolute; Wayland passthrough disabled"))
            } else {
                HostSocketCandidate::Path(join(r.as_str(), d.as_str()))
            }
        },
    }
}

/// The warning when the Wayland display names no connectable Unix socket.
pub open spec fn wayland_unusable_warning_spec(reason: Seq<char>) -> Seq<char> {
    "WAYLAND_DISPLAY does not reference a usable Unix socket ("@ + reason + "); Wayland passthrough disabled"@
}

/// The warning when the Wayland display names no connectable Unix socket.
pub fn wayland_unusable_warning(reason: &str) -> (r: String)
    ensures
        r@ == wayland_unusable_warning_spec(reason@),
{
    concat3("WAYLAND_DISPLAY does not reference a usable Unix socket (", reason, "); Wayland passthrough disabled")
}

/// Wayland passthrough of a host socket checked to be usable.
#[derive(Debug, Clone, PartialEq, Eq)]
pub struct WaylandPassthrough {
    pub host_socket: String,
}

impl WaylandPassthrough {
    /// Mounts the host socket at the container's Wayland socket and points
    /// `WAYLAND_DISPLAY` at it.
    pub fn apply_to(self, run_spec: &mut RuntimeRunSpec)
        ensures
            final(run_spec).create_view() == (CreateSpecView {
                mounts: old(run_spec).create_view().mounts.push(MountView {
                    kind: RuntimeMountKind::Bind,
                    source: self.host_socket@,
                    destination: CONTAINER_WAYLAND_DISPLAY@,
                    read_only: false,
                }),
                default_env: old(run_spec).create_view().default_env.insert(
                    HOST_WAYLAND_DISPLAY_ENV@,
                    CONTAINER_WAYLAND_DISPLAY@,
                ),
                ..old(run_spec).create_view()
            }),
            final(run_spec).workdir_view() == old(run_spec).workdir_view(),
    {
        run_spec.add_create_mount(RuntimeMount::bind(self.host_socket, owned(CONTAINER_WAYLAND_DISPLAY)));
        let mut env = StringMap::new();
        env.insert(owned(HOST_WAYLAND_DISPLAY_ENV), owned(CONTAINER_WAYLAND_DISPLAY));
        let ghost before = run_spec.create_view().default_env;
        run_spec.extend_create_default_env(&env);
        assert(before.union_prefer_right(env@) =~= before.insert(HOST_WAYLAND_DISPLAY_ENV@, CONTAINER_WAYLAND_DISPLAY@));
    }
}

} // verus!
