//! The host's Git excludes file, passed read-only into runtime containers: the file that
//! `core.excludesFile` names, or Git's default under the XDG configuration directory.

use vstd::prelude::*;

use crate::container_paths::CONTAINER_GIT_EXCLUDES_FILE;
use crate::environment::{EnvValue, Environment};
use crate::paths::{is_absolute_spec, join, join_spec};
use crate::runtime::spec::{MountView, RuntimeMount, RuntimeMountKind};
use crate::ssh_signing::git_config::entries_view;
use crate::order::strings_view;
use crate::text::{chars_of, concat3, concat5, owned};

verus! {

/// The Git configuration key of the excludes file.
pub const GIT_EXCLUDES_FILE_KEY: &'static str = "core.excludesFile";

/// The excludes file mount and the Git configuration that points at it, if any.
#[derive(Debug, PartialEq, Eq)]
pub struct GitExcludesFilePassthrough {
    pub mount: Option<RuntimeMount>,
    pub git_config_entries: Vec<(String, String)>,
}

/// A configured excludes file: as it is when absolute, below the Git root otherwise.
pub open spec fn resolve_configured_path_spec(git_root: Seq<char>, value: Seq<char>) -> Seq<char> {
    if is_absolute_spec(value) {
        value
    } else {
        join_spec(git_root, value)
    }
}

/// A configured excludes file, resolved against the Git root.
pub fn resolve_configured_path(git_root: &str, value: String) -> (r: String)
    ensures
        r@ == resolve_configured_path_spec(git_root@, value@),
{
    let cs = chars_of(value.as_str());
    if cs.len() > 0 && cs[0] == '/' {
        value
    } else {
        join(git_root, value.as_str())
    }
}

/// The warning when a variable that places the default excludes file is not Unicode.
pub open spec fn not_utf8_path_warning(name: Seq<char>, lossy: Seq<char>) -> Seq<char> {
    "`"@ + name + "` must be a UTF-8 path for Git excludes file passthrough: "@ + lossy
}

fn not_utf8_message(name: &str, lossy: &str) -> (r: String)
    ensures
        r@ == not_utf8_path_warning(name@, lossy@),
{
    let mut out: Vec<char> = Vec::new();
    crate::text::push_str(&mut out, "`");
    crate::text::push_str(&mut out, name);
    crate::text::push_str(&mut out, "` must be a UTF-8 path for Git excludes file passthrough: ");
    crate::text::push_str(&mut out, lossy);
    assert(out@ =~= not_utf8_path_warning(name@, lossy@));
    crate::text::string_of(&out)
}

/// Git's default excludes file: `git/ignore` under a non-empty `XDG_CONFIG_HOME`, else
/// `.config/git/ignore` under a non-empty `HOME`; a variable that is not Unicode gives
/// none, with a warning.
pub open spec fn default_excludes_file_spec(env: &Environment) -> (Option<Seq<char>>, Seq<Seq<char>>) {
    match env.get_spec("XDG_CONFIG_HOME"@) {
        Some(EnvValue::Text(x)) if x@.len() > 0 => (Some(join_spec(join_spec(x@, "git"@), "ignore"@)), Seq::empty()),
        Some(EnvValue::NotUnicode(l)) => (None, seq![not_utf8_path_warning("XDG_CONFIG_HOME"@, l@)]),
        _ => match env.get_spec("HOME"@) {
            Some(EnvValue::Text(h)) => if h@.len() > 0 {
                (Some(join_spec(join_spec(join_spec(h@, ".config"@), "git"@), "ignore"@)), Seq::empty())
            } else {
                (None, Seq::empty())
            },
            Some(EnvValue::NotUnicode(l)) => (None, seq![not_utf8_path_warning("HOME"@, l@)]),
            None => (None, Seq::empty()),
        },
    }
}

/// Git's default excludes file, and the warnings on the way.
pub fn default_excludes_file(env: &Environment) -> (r: (Option<String>, Vec<String>))
    ensures
        (match r.0 {
            Some(p) => Some(p@),
            None => None,
        }, strings_view(r.1@)) == default_excludes_file_spec(env),
{
    let mut w: Vec<String> = Vec::new();
    match env.get("XDG_CONFIG_HOME") {
        Some(EnvValue::Text(x)) => if chars_of(x.as_str()).len() > 0 {
            let p = join(join(x.as_str(), "git").as_str(), "ignore");
            assert(strings_view(w@) =~= Seq::<Seq<char>>::empty());
            return (Some(p), w);
        },
        Some(EnvValue::NotUnicode(l)) => {
            w.push(not_utf8_message("XDG_CONFIG_HOME", l.as_str()));
            assert(strings_view(w@) =~= seq![not_utf8_path_warning("XDG_CONFIG_HOME"@, l@)]);
            return (None, w);
        },
        None => {},
    }
    match env.get("HOME") {
        Some(EnvValue::Text(h)) => {
            assert(strings_view(w@) =~= Seq::<Seq<char>>::empty());
            if chars_of(h.as_str()).len() > 0 {
                let p = join(join(join(h.as_str(), ".config").as_str(), "git").as_str(), "ignore");
                (Some(p), w)
            } else {
                (None, w)
            }
        },
        Some(EnvValue::NotUnicode(l)) => {
            w.push(not_utf8_message("HOME", l.as_str()));
            assert(strings_view(w@) =~= seq![not_utf8_path_warning("HOME"@, l@)]);
            (None, w)
        },
        None => {
            assert(strings_view(w@) =~= Seq::<Seq<char>>::empty());
            (None, w)
        },
    }
}

/// The warning when `git config` fails for `core.excludesFile`.
pub open spec fn excludes_config_warning(error: Seq<char>) -> Seq<char> {
    "failed to read host Git config `core.excludesFile` for Git excludes file passthrough: "@ + error
}

/// The excludes file to pass, from what `git config --path core.excludesFile` answered:
/// none when it is set empty; the configured file, resolved, when set; Git's default when
/// unset; none, with a warning, when `git config` failed.
pub fn source_path(git_root: &str, configured: Result<Option<String>, String>, env: &Environment) -> (r: (Option<String>, Vec<String>))
    ensures
        ({
            let rv = (match r.0 {
                Some(p) => Some(p@),
                None => None,
            }, strings_view(r.1@));
            match configured {
                Ok(Some(v)) => if v@.len() == 0 {
                    rv == (None::<Seq<char>>, Seq::<Seq<char>>::empty())
                } else {
                    rv == (Some(resolve_configured_path_spec(git_root@, v@)), Seq::<Seq<char>>::empty())
                },
                Ok(None) => rv == default_excludes_file_spec(env),
                Err(e) => rv == (None::<Seq<char>>, seq![excludes_config_warning(e@)]),
            }
        }),
{
    match configured {
        Ok(Some(v)) => {
            let w: Vec<String> = Vec::new();
            assert(strings_view(w@) =~= Seq::<Seq<char>>::empty());
            if chars_of(v.as_str()).len() == 0 {
                (None, w)
            } else {
                (Some(resolve_configured_path(git_root, v)), w)
            }
        },
        Ok(None) => default_excludes_file(env),
        Err(e) => {
            let mut w: Vec<String> = Vec::new();
            w.push(concat3(
                "failed to read host Git config `core.excludesFile` for Git excludes file passthrough: ",
                e.as_str(),
                "",
            ));
            proof {
                reveal_strlit("");
            }
            assert(strings_view(w@) =~= seq![excludes_config_warning(e@)]);
            (None, w)
        },
    }
}

/// What inspecting the excludes file found.
#[derive(Debug, PartialEq, Eq)]
pub enum FileProbe {
    /// There is no such file.
    Missing,
    /// It could not be inspected, for this reason.
    InspectFailed(String),
    /// It is not a regular file.
    NotRegular,
    /// It could not be opened, for this reason.
    OpenFailed(String),
    /// It is a regular file that opens.
    Readable,
}

/// Whether the excludes file at `path` is passed on, from what inspecting it found, with a
/// warning for anything but a missing or readable regular file.
pub fn readable_regular_file(path: &str, probe: FileProbe) -> (r: (bool, Vec<String>))
    ensures
        match probe {
            FileProbe::Missing => !r.0 && r.1@.len() == 0,
            FileProbe::InspectFailed(e) => !r.0 && strings_view(r.1@) == seq![
                "failed to inspect host Git excludes file `"@ + path@ + "`: "@ + e@ + "; Git excludes file passthrough disabled"@,
            ],
            FileProbe::NotRegular => !r.0 && strings_view(r.1@) == seq![
                "host Git excludes file is not a regular file: "@ + path@ + "; Git excludes file passthrough disabled"@,
            ],
            FileProbe::OpenFailed(e) => !r.0 && strings_view(r.1@) == seq![
                "host Git excludes file is not readable: "@ + path@ + ": "@ + e@ + "; Git excludes file passthrough disabled"@,
            ],
            FileProbe::Readable => r.0 && r.1@.len() == 0,
        },
{
    let mut w: Vec<String> = Vec::new();
    match probe {
        FileProbe::Missing => (false, w),
        FileProbe::InspectFailed(e) => {
            w.push(concat5("failed to inspect host Git excludes file `", path, "`: ", e.as_str(), "; Git excludes file passthrough disabled"));
            assert(strings_view(w@) =~= seq![
                "failed to inspect host Git excludes file `"@ + path@ + "`: "@ + e@ + "; Git excludes file passthrough disabled"@,
            ]);
            (false, w)
        },
        FileProbe::NotRegular => {
            w.push(concat3("host Git excludes file is not a regular file: ", path, "; Git excludes file passthrough disabled"));
            assert(strings_view(w@) =~= seq![
                "host Git excludes file is not a regular file: "@ + path@ + "; Git excludes file passthrough disabled"@,
            ]);
            (false, w)
        },
        FileProbe::OpenFailed(e) => {
            w.push(concat5("host Git excludes file is not readable: ", path, ": ", e.as_str(), "; Git excludes file passthrough disabled"));
            assert(strings_view(w@) =~= seq![
                "host Git excludes file is not readable: "@ + path@ + ": "@ + e@ + "; Git excludes file passthrough disabled"@,
            ]);
            (false, w)
        },
        FileProbe::Readable => (true, w),
    }
}

/// The passthrough of the excludes file `source` when it is readable: a read-only mount at
/// the container's excludes path and `core.excludesFile` pointing at it; nothing otherwise.
pub fn git_excludes_passthrough(source: Option<String>, readable: bool) -> (r: GitExcludesFilePassthrough)
    ensures
        match source {
            Some(s) if readable => {
                &&& r.mount matches Some(m) && m@ == (MountView {
                    kind: RuntimeMountKind::Bind,
                    source: s@,
                    destination: CONTAINER_GIT_EXCLUDES_FILE@,
                    read_only: true,
                })
                &&& entries_view(r.git_config_entries@) == seq![(GIT_EXCLUDES_FILE_KEY@, CONTAINER_GIT_EXCLUDES_FILE@)]
            },
            _ => r.mount is None && r.git_config_entries@.len() == 0,
        },
{
    match source {
        Some(s) => if readable {
            let entries = vec![(owned(GIT_EXCLUDES_FILE_KEY), owned(CONTAINER_GIT_EXCLUDES_FILE))];
            assert(entries_view(entries@) =~= seq![(GIT_EXCLUDES_FILE_KEY@, CONTAINER_GIT_EXCLUDES_FILE@)]);
            GitExcludesFilePassthrough {
                mount: Some(RuntimeMount::read_only_bind(s, owned(CONTAINER_GIT_EXCLUDES_FILE))),
                git_config_entries: entries,
            }
        } else {
            GitExcludesFilePassthrough { mount: None, git_config_entries: Vec::new() }
        },
        None => GitExcludesFilePassthrough { mount: None, git_config_entries: Vec::new() },
    }
}

} // verus!
