//! Host state (configuration and data directories) that runtimes see inside their
//! containers: where it comes from on the host, how that is described to the user, and
//! where it is mounted.

use vstd::prelude::*;

use crate::container_paths::{
    CODEX_CONFIG_DESTINATION, OPENCODE_CONFIG_DESTINATION, OPENCODE_DATA_DESTINATION,
};
use crate::environment::{EnvValue, Environment};
use crate::error::AgentboxError;
use crate::paths::{is_absolute, is_absolute_spec, join_all, join_all_spec};
use crate::text::{join_spec, owned, push_str, str_eq, string_of};

use super::kind::RuntimeKind;
use super::spec::RuntimeRunMode;

verus! {

/// The components of a relative path, by their characters.
pub open spec fn components_view(v: Seq<&'static str>) -> Seq<Seq<char>> {
    v.map_values(|c: &'static str| c@)
}

/// Where a runtime's host state is found.
#[derive(Debug, Clone, PartialEq, Eq)]
pub enum RuntimeHostStateSource {
    /// The path an environment variable holds, or a path under `$HOME`.
    EnvironmentOrHome {
        environment_variable: &'static str,
        home_relative_components: Vec<&'static str>,
    },
    /// A path under `$HOME`.
    HomeOnly { home_relative_components: Vec<&'static str> },
    /// A path under an XDG base directory, or one under `$HOME`.
    XdgOrHome {
        xdg_variable: &'static str,
        xdg_relative_components: Vec<&'static str>,
        home_relative_components: Vec<&'static str>,
    },
}

/// The mathematical form of a host-state source.
pub enum SourceView {
    EnvironmentOrHome { environment_variable: Seq<char>, home: Seq<Seq<char>> },
    HomeOnly { home: Seq<Seq<char>> },
    XdgOrHome { xdg_variable: Seq<char>, xdg: Seq<Seq<char>>, home: Seq<Seq<char>> },
}

impl View for RuntimeHostStateSource {
    type V = SourceView;

    open spec fn view(&self) -> SourceView {
        match self {
            RuntimeHostStateSource::EnvironmentOrHome {
                environment_variable,
                home_relative_components,
            } => SourceView::EnvironmentOrHome {
                environment_variable: environment_variable@,
                home: components_view(home_relative_components@),
            },
            RuntimeHostStateSource::HomeOnly { home_relative_components } => SourceView::HomeOnly {
                home: components_view(home_relative_components@),
            },
            RuntimeHostStateSource::XdgOrHome {
                xdg_variable,
                xdg_relative_components,
                home_relative_components,
            } => SourceView::XdgOrHome {
                xdg_variable: xdg_variable@,
                xdg: components_view(xdg_relative_components@),
                home: components_view(home_relative_components@),
            },
        }
    }
}

/// Where host state is mounted in the container.
#[derive(Debug, Clone, Copy, PartialEq, Eq)]
pub enum RuntimeHostStateDestination {
    /// Always at this path.
    Fixed(&'static str),
    /// At the source's own path when the source came from the environment variable, at
    /// the fallback otherwise.
    SourcePathWhenEnvironment {
        environment_variable: &'static str,
        fallback_destination: &'static str,
    },
}

/// An environment variable the container gets when the source came from the environment.
#[derive(Debug, Clone, Copy, PartialEq, Eq)]
pub struct RuntimeHostStateContainerEnvironment {
    pub name: &'static str,
    pub source_environment_variable: &'static str,
}

/// One piece of host state a runtime sees.
#[derive(Debug, Clone, PartialEq, Eq)]
pub struct RuntimeHostStateMount {
    pub source: RuntimeHostStateSource,
    pub product_name: &'static str,
    pub description: &'static str,
    pub destination: RuntimeHostStateDestination,
    pub container_environment: Option<RuntimeHostStateContainerEnvironment>,
}

/// Where a host-state source was found.
#[derive(Debug, Clone, PartialEq, Eq)]
pub struct RuntimeHostStateSourceResolution {
    pub source: Option<String>,
    pub source_environment_variable: Option<&'static str>,
}

// ---------------------------------------------------------------------------
// Descriptions
// ---------------------------------------------------------------------------

/// `base/c1/c2/...`.
pub open spec fn shell_path_spec(base: Seq<char>, components: Seq<Seq<char>>) -> Seq<char> {
    join_spec(seq![base] + components, "/"@)
}

/// A shell path in backticks.
pub open spec fn shell_expression_spec(base: Seq<char>, components: Seq<Seq<char>>) -> Seq<char> {
    "`"@ + shell_path_spec(base, components) + "`"@
}

/// The components of `home` before a final run equal to `xdg`, if `home` ends with `xdg`.
pub open spec fn strip_suffix_spec(home: Seq<Seq<char>>, xdg: Seq<Seq<char>>) -> Option<Seq<Seq<char>>> {
    if xdg.len() <= home.len() && home.skip(home.len() - xdg.len()) == xdg {
        Some(home.take(home.len() - xdg.len()))
    } else {
        None
    }
}

/// How an XDG-or-home source is described: as one shell expression with a default when
/// the home path ends with the XDG components, as two alternatives otherwise.
pub open spec fn xdg_or_home_text(variable: Seq<char>, xdg: Seq<Seq<char>>, home: Seq<Seq<char>>) -> Seq<char> {
    match strip_suffix_spec(home, xdg) {
        Some(base) => shell_expression_spec(
            "${"@ + variable + ":-"@ + shell_path_spec("$HOME"@, base) + "}"@,
            xdg,
        ),
        None => shell_expression_spec("$"@ + variable, xdg) + " or "@ + shell_expression_spec(
            "$HOME"@,
            home,
        ),
    }
}

/// How a host-state source is described to the user.
pub open spec fn expression_spec(s: SourceView) -> Seq<char> {
    match s {
        SourceView::EnvironmentOrHome { environment_variable, home } => "`"@ + environment_variable
            + "` or "@ + shell_expression_spec("$HOME"@, home),
        SourceView::HomeOnly { home } => shell_expression_spec("${HOME}"@, home),
        SourceView::XdgOrHome { xdg_variable, xdg, home } => xdg_or_home_text(xdg_variable, xdg, home),
    }
}

fn push_shell_path(out: &mut Vec<char>, base: &str, components: &Vec<&'static str>)
    ensures
        final(out)@ == old(out)@ + shell_path_spec(base@, components_view(components@)),
{
    let ghost parts = seq![base@] + components_view(components@);
    let ghost start = out@;
    push_str(out, base);
    let mut i: usize = 0;
    assert(parts.take(1) =~= seq![base@]);
    while i < components.len()
        invariant
            i <= components@.len(),
            parts == seq![base@] + components_view(components@),
            out@ == start + join_spec(parts.take(i + 1), "/"@),
        decreases components.len() - i,
    {
        push_str(out, "/");
        push_str(out, components[i]);
        assert(parts.take(i + 2).drop_last() =~= parts.take(i + 1));
        assert(parts[i + 1] == components@[i as int]@);
        i = i + 1;
    }
    assert(parts.take(components@.len() as int + 1) =~= parts);
}

fn strip_suffix_components(home: &Vec<&'static str>, xdg: &Vec<&'static str>) -> (r: Option<usize>)
    ensures
        match strip_suffix_spec(components_view(home@), components_view(xdg@)) {
            Some(base) => r == Some((home@.len() - xdg@.len()) as usize) && base == components_view(home@.take(r.unwrap() as int)),
            None => r is None,
        },
{
    let ghost hv = components_view(home@);
    let ghost xv = components_view(xdg@);
    if xdg.len() > home.len() {
        return None;
    }
    let hl: usize = home.len();
    let offset: usize = hl - xdg.len();
    let mut i: usize = 0;
    while i < xdg.len()
        invariant
            hl == home@.len(),
            offset + xdg@.len() == home@.len(),
            i <= xdg@.len(),
            hv == components_view(home@),
            xv == components_view(xdg@),
            forall|k: int| 0 <= k < i ==> #[trigger] xv[k] == hv[offset + k],
        decreases xdg.len() - i,
    {
        assert(offset + i < hl);
        let at: usize = offset + i;
        if !str_eq(home[at], xdg[i]) {
            proof {
                assert(hv.skip(offset as int)[i as int] != xv[i as int]);
            }
            return None;
        }
        i = i + 1;
    }
    assert(hv.skip(offset as int) =~= xv);
    assert(hv.take(offset as int) =~= components_view(home@.take(offset as int)));
    Some(offset)
}

fn copy_components(v: &Vec<&'static str>, n: usize) -> (r: Vec<&'static str>)
    requires
        n <= v@.len(),
    ensures
        r@ == v@.take(n as int),
{
    let mut r: Vec<&'static str> = Vec::new();
    let mut i: usize = 0;
    while i < n
        invariant
            i <= n <= v@.len(),
            r@ == v@.take(i as int),
        decreases n - i,
    {
        r.push(v[i]);
        assert(v@.take(i as int).push(v@[i as int]) =~= v@.take(i + 1));
        i = i + 1;
    }
    r
}

impl RuntimeHostStateSource {
    /// How the source is described to the user, for example
    /// ``"`${XDG_CONFIG_HOME:-$HOME/.config}/opencode`"``.
    pub fn expression(&self) -> (r: String)
        ensures
            r@ == expression_spec(self@),
    {
        let mut out: Vec<char> = Vec::new();
        match self {
            RuntimeHostStateSource::EnvironmentOrHome {
                environment_variable,
                home_relative_components,
            } => {
                push_str(&mut out, "`");
                push_str(&mut out, environment_variable);
                push_str(&mut out, "` or ");
                push_str(&mut out, "`");
                push_shell_path(&mut out, "$HOME", home_relative_components);
                push_str(&mut out, "`");
            },
            RuntimeHostStateSource::HomeOnly { home_relative_components } => {
                push_str(&mut out, "`");
                push_shell_path(&mut out, "${HOME}", home_relative_components);
                push_str(&mut out, "`");
            },
            RuntimeHostStateSource::XdgOrHome {
                xdg_variable,
                xdg_relative_components,
                home_relative_components,
            } => {
                match strip_suffix_components(home_relative_components, xdg_relative_components) {
                    Some(n) => {
                        let base = copy_components(home_relative_components, n);
                        let mut b: Vec<char> = Vec::new();
                        push_str(&mut b, "${");
                        push_str(&mut b, xdg_variable);
                        push_str(&mut b, ":-");
                        push_shell_path(&mut b, "$HOME", &base);
                        push_str(&mut b, "}");
                        let bs = string_of(&b);
                        push_str(&mut out, "`");
                        push_shell_path(&mut out, bs.as_str(), xdg_relative_components);
                        push_str(&mut out, "`");
                    },
                    None => {
                        let mut b: Vec<char> = Vec::new();
                        push_str(&mut b, "$");
                        push_str(&mut b, xdg_variable);
                        let bs = string_of(&b);
                        push_str(&mut out, "`");
                        push_shell_path(&mut out, bs.as_str(), xdg_relative_components);
                        push_str(&mut out, "`");
                        push_str(&mut out, " or ");
                        push_str(&mut out, "`");
                        push_shell_path(&mut out, "$HOME", home_relative_components);
                        push_str(&mut out, "`");
                    },
                }
            },
        }
        assert(out@ =~= expression_spec(self@));
        string_of(&out)
    }
}

// ---------------------------------------------------------------------------
// Resolution on the host
// ---------------------------------------------------------------------------

/// A base path joined with components, when the base is Unicode.
pub open spec fn utf8_join_spec(base: Option<EnvValue>, components: Seq<Seq<char>>) -> Option<Seq<char>> {
    match base {
        Some(EnvValue::Text(b)) => Some(join_all_spec(b@, components)),
        _ => None,
    }
}

/// Where a source is found under `$HOME`, if `HOME` is set and Unicode.
pub open spec fn home_source_spec(env: &Environment, home: Seq<Seq<char>>) -> Option<Seq<char>> {
    utf8_join_spec(env.get_spec("HOME"@), home)
}

/// What a resolution says: the source path, and the variable it came from.
pub open spec fn resolution_matches(
    r: RuntimeHostStateSourceResolution,
    source: Option<Seq<char>>,
    variable: Option<Seq<char>>,
) -> bool {
    &&& match (r.source, source) {
        (Some(a), Some(b)) => a@ == b,
        (None, None) => true,
        _ => false,
    }
    &&& match (r.source_environment_variable, variable) {
        (Some(a), Some(b)) => a@ == b,
        (None, None) => true,
        _ => false,
    }
}

fn utf8_join(base: Option<&EnvValue>, components: &Vec<&'static str>) -> (r: Option<String>)
    ensures
        match (r, utf8_join_spec(match base { Some(v) => Some(*v), None => None }, components_view(components@))) {
            (Some(a), Some(b)) => a@ == b,
            (None, None) => true,
            _ => false,
        },
{
    match base {
        Some(EnvValue::Text(b)) => Some(join_all(b.as_str(), components)),
        _ => None,
    }
}

fn resolve_home_source(env: &Environment, components: &Vec<&'static str>) -> (r: Option<String>)
    ensures
        match (r, home_source_spec(env, components_view(components@))) {
            (Some(a), Some(b)) => a@ == b,
            (None, None) => true,
            _ => false,
        },
{
    utf8_join(env.get("HOME"), components)
}

impl RuntimeHostStateSource {
    /// Finds the source on the host. An environment-or-home source takes the variable's
    /// value when it is set and not empty, and fails when that value is not Unicode; an
    /// XDG-or-home source takes the XDG base directory when it is set and Unicode; every
    /// other case falls back to `$HOME`.
    pub fn resolve(&self, env: &Environment) -> (r: Result<RuntimeHostStateSourceResolution, AgentboxError>)
        ensures
            match self@ {
                SourceView::EnvironmentOrHome { environment_variable, home } => match env.get_spec(environment_variable) {
                    Some(EnvValue::NotUnicode(d)) => r matches Err(AgentboxError::HostStateNotUtf8 { variable, display }) && variable@ == environment_variable && display@ == d@,
                    Some(EnvValue::Text(v)) if v@.len() > 0 => r matches Ok(res) && resolution_matches(res, Some(v@), Some(environment_variable)),
                    _ => r matches Ok(res) && resolution_matches(res, home_source_spec(env, home), None),
                },
                SourceView::HomeOnly { home } => r matches Ok(res) && resolution_matches(res, home_source_spec(env, home), None),
                SourceView::XdgOrHome { xdg_variable, xdg, home } => r matches Ok(res) && resolution_matches(
                    res,
                    match utf8_join_spec(env.get_spec(xdg_variable), xdg) {
                        Some(p) => Some(p),
                        None => home_source_spec(env, home),
                    },
                    None,
                ),
            },
    {
        match self {
            RuntimeHostStateSource::EnvironmentOrHome {
                environment_variable,
                home_relative_components,
            } => {
                match env.get(environment_variable) {
                    Some(EnvValue::NotUnicode(d)) => {
                        return Err(AgentboxError::HostStateNotUtf8 {
                            variable: owned(environment_variable),
                            display: d.clone(),
                        });
                    },
                    Some(v) => {
                        if !v.is_empty() {
                            if let EnvValue::Text(t) = v {
                                return Ok(RuntimeHostStateSourceResolution {
                                    source: Some(t.clone()),
                                    source_environment_variable: Some(environment_variable),
                                });
                            }
                        }
                    },
                    None => {},
                }
                Ok(RuntimeHostStateSourceResolution {
                    source: resolve_home_source(env, home_relative_components),
                    source_environment_variable: None,
                })
            },
            RuntimeHostStateSource::HomeOnly { home_relative_components } => {
                Ok(RuntimeHostStateSourceResolution {
                    source: resolve_home_source(env, home_relative_components),
                    source_environment_variable: None,
                })
            },
            RuntimeHostStateSource::XdgOrHome {
                xdg_variable,
                xdg_relative_components,
                home_relative_components,
            } => {
                let source = match utf8_join(env.get(xdg_variable), xdg_relative_components) {
                    Some(p) => Some(p),
                    None => resolve_home_source(env, home_relative_components),
                };
                Ok(RuntimeHostStateSourceResolution { source, source_environment_variable: None })
            },
        }
    }
}

// ---------------------------------------------------------------------------
// Destinations
// ---------------------------------------------------------------------------

/// The destination a mount is known by: the fixed path, or the fallback.
pub open spec fn snapshot_key_spec(d: RuntimeHostStateDestination) -> Seq<char> {
    match d {
        RuntimeHostStateDestination::Fixed(p) => p@,
        RuntimeHostStateDestination::SourcePathWhenEnvironment { fallback_destination, .. } => fallback_destination@,
    }
}

/// Whether the optional variable a source came from is `name`.
pub open spec fn came_from(variable: Option<&str>, name: Seq<char>) -> bool {
    match variable {
        Some(v) => v@ == name,
        None => false,
    }
}

fn came_from_exec(variable: Option<&str>, name: &str) -> (r: bool)
    ensures
        r == came_from(variable, name@),
{
    match variable {
        Some(v) => str_eq(v, name),
        None => false,
    }
}

/// What resolving a destination for a source found at `source` gives.
pub open spec fn destination_outcome(
    d: RuntimeHostStateDestination,
    source: Seq<char>,
    source_environment_variable: Option<&str>,
    r: Result<String, AgentboxError>,
) -> bool {
    match d {
        RuntimeHostStateDestination::Fixed(p) => r matches Ok(x) && x@ == p@,
        RuntimeHostStateDestination::SourcePathWhenEnvironment { environment_variable, fallback_destination } =>
            if came_from(source_environment_variable, environment_variable@) {
                if is_absolute_spec(source) {
                    r matches Ok(x) && x@ == source
                } else {
                    r matches Err(AgentboxError::HostStateNotAbsolute { variable, source: s }) && variable@ == environment_variable@ && s@ == source
                }
            } else {
                r matches Ok(x) && x@ == fallback_destination@
            },
    }
}

impl RuntimeHostStateDestination {
    /// The destination the mount is known by.
    pub fn snapshot_key(self) -> (r: &'static str)
        ensures
            r@ == snapshot_key_spec(self),
    {
        match self {
            RuntimeHostStateDestination::Fixed(d) => d,
            RuntimeHostStateDestination::SourcePathWhenEnvironment { fallback_destination, .. } => fallback_destination,
        }
    }

    /// Where a source found at `source` is mounted. A source that came from the variable
    /// the destination follows is mounted at its own path, which must be absolute.
    pub fn resolve(self, source: &str, source_environment_variable: Option<&str>) -> (r: Result<String, AgentboxError>)
        ensures
            destination_outcome(self, source@, source_environment_variable, r),
    {
        match self {
            RuntimeHostStateDestination::Fixed(d) => Ok(owned(d)),
            RuntimeHostStateDestination::SourcePathWhenEnvironment { environment_variable, fallback_destination } => {
                if came_from_exec(source_environment_variable, environment_variable) {
                    if !is_absolute(source) {
                        return Err(AgentboxError::HostStateNotAbsolute {
                            variable: owned(environment_variable),
                            source: owned(source),
                        });
                    }
                    Ok(owned(source))
                } else {
                    Ok(owned(fallback_destination))
                }
            },
        }
    }
}

impl RuntimeHostStateContainerEnvironment {
    /// The variable the container gets for a source found at `source`: set only when the
    /// source came from the variable it follows.
    pub fn entry_for(self, source: &str, source_environment_variable: Option<&str>) -> (r: Option<(String, String)>)
        ensures
            came_from(source_environment_variable, self.source_environment_variable@) ==> (r matches Some((n, v)) && n@ == self.name@ && v@ == source@),
            !came_from(source_environment_variable, self.source_environment_variable@) ==> r is None,
    {
        if came_from_exec(source_environment_variable, self.source_environment_variable) {
            Some((owned(self.name), owned(source)))
        } else {
            None
        }
    }
}

impl RuntimeHostStateMount {
    /// How the mount's source is described to the user.
    pub fn source_expression(&self) -> (r: String)
        ensures
            r@ == expression_spec(self.source@),
    {
        self.source.expression()
    }

    /// The destination the mount is known by.
    pub fn snapshot_key(&self) -> (r: &'static str)
        ensures
            r@ == snapshot_key_spec(self.destination),
    {
        self.destination.snapshot_key()
    }

    /// Where a source found at `source` is mounted.
    pub fn destination_for(&self, source: &str, source_environment_variable: Option<&str>) -> (r: Result<String, AgentboxError>)
        ensures
            destination_outcome(self.destination, source@, source_environment_variable, r),
    {
        self.destination.resolve(source, source_environment_variable)
    }

    /// The variable the container gets for a source found at `source`, if the mount has
    /// one and the source came from the variable it follows.
    pub fn container_environment_for(&self, source: &str, source_environment_variable: Option<&str>) -> (r: Option<(String, String)>)
        ensures
            match self.container_environment {
                Some(e) => if came_from(source_environment_variable, e.source_environment_variable@) {
                    r matches Some((n, v)) && n@ == e.name@ && v@ == source@
                } else {
                    r is None
                },
                None => r is None,
            },
    {
        match self.container_environment {
            Some(e) => e.entry_for(source, source_environment_variable),
            None => None,
        }
    }
}

} // verus!
