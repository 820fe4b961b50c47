//! The known_hosts entries passed into runtime containers: what `ssh-keygen -F` prints,
//! the entries of agentbox's configuration, and the file and command that use them.

use vstd::prelude::*;

use crate::container_paths::CONTAINER_KNOWN_HOSTS;
use crate::environment::{EnvValue, Environment};
use crate::order::strings_view;
use crate::runtime::spec::{MountView, RuntimeMount, RuntimeMountKind};
use crate::string_map::StringMap;
use crate::text::{
    after_last, chars_of, contains_char, decimal, decimal_chars, has_prefix, lines, lines_chars, owned, push_chars,
    push_str, str_eq, string_of, trim, trim_chars,
};

verus! {

/// The variable through which Git finds its SSH command.
pub const GIT_SSH_COMMAND_ENV: &'static str = "GIT_SSH_COMMAND";

/// The SSH command Git runs in the container: host keys are checked strictly against the
/// known_hosts file agentbox prepared.
pub const GIT_SSH_COMMAND: &'static str = "ssh -o UserKnownHostsFile=/run/agentbox/known_hosts -o StrictHostKeyChecking=yes";

// ---------------------------------------------------------------------------
// ssh-keygen output
// ---------------------------------------------------------------------------

/// A line of `ssh-keygen -F` output that is an entry: not blank and not a `#` comment.
pub open spec fn is_entry_line(line: Seq<char>) -> bool {
    trim(line).len() > 0 && trim(line)[0] != '#'
}

/// The entry lines of some lines, in order.
pub open spec fn entry_lines(ls: Seq<Seq<char>>) -> Seq<Seq<char>>
    decreases ls.len(),
{
    if ls.len() == 0 {
        Seq::empty()
    } else if is_entry_line(ls.last()) {
        entry_lines(ls.drop_last()).push(ls.last())
    } else {
        entry_lines(ls.drop_last())
    }
}

/// The known_hosts entries in `ssh-keygen -F` output: its lines without blank lines and
/// `#` comments.
pub fn parse_ssh_keygen_lines(output: &str) -> (r: Vec<String>)
    ensures
        strings_view(r@) == entry_lines(lines(output@)),
{
    let cs = chars_of(output);
    let ls = lines_chars(&cs);
    let ghost lv = lines(output@);
    let mut r: Vec<String> = Vec::new();
    let mut i: usize = 0;
    while i < ls.len()
        invariant
            i <= ls@.len(),
            ls@.len() == lv.len(),
            forall|k: int| 0 <= k < ls@.len() ==> #[trigger] ls@[k]@ == lv[k],
            strings_view(r@) == entry_lines(lv.take(i as int)),
        decreases ls.len() - i,
    {
        proof {
            assert(lv.take(i + 1).drop_last() =~= lv.take(i as int));
        }
        let t = trim_chars(&ls[i]);
        if t.len() > 0 && t[0] != '#' {
            let ghost before = r@;
            r.push(string_of(&ls[i]));
            assert(strings_view(r@) =~= strings_view(before).push(lv[i as int]));
        }
        i = i + 1;
    }
    assert(lv.take(ls@.len() as int) =~= lv);
    r
}

// ---------------------------------------------------------------------------
// Combining entries
// ---------------------------------------------------------------------------

/// The lines in order, each kept only at its first occurrence.
pub open spec fn dedup_first(s: Seq<Seq<char>>) -> Seq<Seq<char>>
    decreases s.len(),
{
    if s.len() == 0 {
        Seq::empty()
    } else {
        let before = dedup_first(s.drop_last());
        if before.contains(s.last()) {
            before
        } else {
            before.push(s.last())
        }
    }
}

/// The host's entries followed by the configured entries, each line kept only at its
/// first occurrence.
pub fn combined_known_hosts_lines(host_lines: Vec<String>, config_lines: Vec<String>) -> (r: Vec<String>)
    ensures
        strings_view(r@) == dedup_first(strings_view(host_lines@) + strings_view(config_lines@)),
{
    let mut all = host_lines;
    let mut more = config_lines;
    let ghost a = strings_view(all@);
    let ghost b = strings_view(more@);
    all.append(&mut more);
    let ghost s = strings_view(all@);
    assert(s =~= a + b);
    let mut lines: Vec<String> = Vec::new();
    let mut i: usize = 0;
    while i < all.len()
        invariant
            i <= all@.len(),
            s == strings_view(all@),
            strings_view(lines@) == dedup_first(s.take(i as int)),
        decreases all.len() - i,
    {
        proof {
            assert(s.take(i + 1).drop_last() =~= s.take(i as int));
        }
        let ghost lv = strings_view(lines@);
        let mut seen = false;
        let mut k: usize = 0;
        while k < lines.len()
            invariant
                k <= lines@.len(),
                lv == strings_view(lines@),
                i < all@.len(),
                seen == exists|j: int| 0 <= j < k && lv[j] == all@[i as int]@,
            decreases lines.len() - k,
        {
            if !seen && str_eq(lines[k].as_str(), all[i].as_str()) {
                seen = true;
            }
            proof {
                if !seen {
                    assert(!(lv[k as int] == all@[i as int]@));
                }
                if seen && !(exists|j: int| 0 <= j < k && lv[j] == all@[i as int]@) {
                    assert(lv[k as int] == all@[i as int]@);
                }
            }
            k = k + 1;
        }
        proof {
            if seen {
                let j = choose|j: int| 0 <= j < lines@.len() && lv[j] == all@[i as int]@;
                assert(lv.contains(s[i as int]));
            } else {
                assert(!lv.contains(s[i as int]));
            }
        }
        if !seen {
            lines.push(all[i].clone());
            assert(strings_view(lines@) =~= lv.push(s[i as int]));
        }
        i = i + 1;
    }
    assert(s.take(all@.len() as int) =~= s);
    lines
}

/// Combined entries hold no line twice, and hold exactly the lines of their inputs.
pub proof fn lemma_dedup_first(s: Seq<Seq<char>>)
    ensures
        dedup_first(s).no_duplicates(),
        forall|x: Seq<char>| dedup_first(s).contains(x) <==> s.contains(x),
    decreases s.len(),
{
    if s.len() > 0 {
        lemma_dedup_first(s.drop_last());
        let before = dedup_first(s.drop_last());
        crate::order::lemma_push_contains(before, s.last());
        crate::order::lemma_push_contains(s.drop_last(), s.last());
        assert(s =~= s.drop_last().push(s.last()));
        if !before.contains(s.last()) {
            assert forall|i: int, j: int| 0 <= i < j < before.push(s.last()).len() implies before.push(s.last())[i] != before.push(s.last())[j] by {
                if j == before.len() {
                    assert(before[i] != s.last());
                }
            }
        }
    }
}

// ---------------------------------------------------------------------------
// The agentbox configuration
// ---------------------------------------------------------------------------

/// Agentbox's configuration: extra known_hosts entries.
#[derive(Debug, Clone, Default, PartialEq, Eq)]
pub struct AgentboxConfig {
    pub known_hosts: Vec<String>,
}

/// Why configured known_hosts entries are refused: the first entry that is blank, or that
/// holds a line break.
pub open spec fn known_hosts_fault(entries: Seq<Seq<char>>) -> Option<Seq<char>>
    decreases entries.len(),
{
    if entries.len() == 0 {
        None
    } else {
        match known_hosts_fault(entries.drop_last()) {
            Some(f) => Some(f),
            None => {
                let e = entries.last();
                if trim(e).len() == 0 {
                    Some("knownHosts entries must not be blank"@)
                } else if e.contains('\n') || e.contains('\r') {
                    Some("knownHosts entries must be single-line strings"@)
                } else {
                    None
                }
            },
        }
    }
}

/// Checks configured known_hosts entries: each must be a non-blank single line.
pub fn validate_known_hosts_config(known_hosts: Vec<String>) -> (r: Result<AgentboxConfig, String>)
    ensures
        match known_hosts_fault(strings_view(known_hosts@)) {
            Some(f) => r matches Err(m) && m@ == f,
            None => r matches Ok(c) && c.known_hosts@ == known_hosts@,
        },
{
    let ghost s = strings_view(known_hosts@);
    let mut i: usize = 0;
    while i < known_hosts.len()
        invariant
            i <= known_hosts@.len(),
            s == strings_view(known_hosts@),
            known_hosts_fault(s.take(i as int)) is None,
        decreases known_hosts.len() - i,
    {
        proof {
            assert(s.take(i + 1).drop_last() =~= s.take(i as int));
            assert(s.take(i + 1).last() == s[i as int]);
        }
        let cs = chars_of(known_hosts[i].as_str());
        let t = trim_chars(&cs);
        if t.len() == 0 {
            proof {
                lemma_fault_persists(s, i as int + 1);
            }
            return Err(owned("knownHosts entries must not be blank"));
        }
        if contains_char(&cs, '\n') || contains_char(&cs, '\r') {
            proof {
                lemma_fault_persists(s, i as int + 1);
            }
            return Err(owned("knownHosts entries must be single-line strings"));
        }
        i = i + 1;
    }
    assert(s.take(known_hosts@.len() as int) =~= s);
    Ok(AgentboxConfig { known_hosts })
}

proof fn lemma_fault_persists(s: Seq<Seq<char>>, k: int)
    requires
        0 <= k <= s.len(),
    ensures
        known_hosts_fault(s.take(k)) is Some ==> known_hosts_fault(s) == known_hosts_fault(s.take(k)),
    decreases s.len() - k,
{
    if k < s.len() {
        lemma_fault_persists(s, k + 1);
        assert(s.take(k + 1).drop_last() =~= s.take(k));
    } else {
        assert(s.take(k) =~= s);
    }
}

/// Where agentbox's configuration file lies: under `XDG_CONFIG_HOME` when it is set and
/// not empty, otherwise under `HOME/.config` when `HOME` is set and not empty. Given as
/// the variable and the path below its value.
pub open spec fn config_location_spec(env: &Environment) -> Option<(Seq<char>, Seq<char>)> {
    match env.get_spec("XDG_CONFIG_HOME"@) {
        Some(v) if !v.is_empty_spec() => Some(("XDG_CONFIG_HOME"@, "agentbox/config.json"@)),
        _ => match env.get_spec("HOME"@) {
            Some(v) if !v.is_empty_spec() => Some(("HOME"@, ".config/agentbox/config.json"@)),
            _ => None,
        },
    }
}

/// Where agentbox's configuration file lies, as an environment variable and the path below
/// its value.
pub fn config_location(env: &Environment) -> (r: Option<(&'static str, &'static str)>)
    ensures
        match config_location_spec(env) {
            Some((var, rel)) => r matches Some((v, p)) && v@ == var && p@ == rel,
            None => r is None,
        },
{
    match env.get("XDG_CONFIG_HOME") {
        Some(v) => if !v.is_empty() {
            return Some(("XDG_CONFIG_HOME", "agentbox/config.json"));
        },
        None => {},
    }
    match env.get("HOME") {
        Some(v) => if !v.is_empty() {
            return Some(("HOME", ".config/agentbox/config.json"));
        },
        None => {},
    }
    None
}

/// The warning when the configuration file cannot be located.
pub const CONFIG_PATH_UNKNOWN_WARNING: &'static str = "cannot determine agentbox config path because neither XDG_CONFIG_HOME nor HOME is set; continuing with empty config";

/// The path an incompatible configuration file is moved to: the same directory, its name
/// followed by `.bak.`, the timestamp and, when given, `.` and a number.
pub open spec fn backup_path_spec(path: Seq<char>, timestamp: Seq<char>, suffix: Option<usize>) -> Seq<char> {
    let slash = crate::text::last_index(path, '/');
    let dir = path.take(slash + 1);
    let name = path.skip(slash + 1);
    let name = if name.len() == 0 { "config.json"@ } else { name };
    dir + name + ".bak."@ + timestamp + match suffix {
        Some(n) => "."@ + decimal(n as nat),
        None => Seq::empty(),
    }
}

/// The path an incompatible configuration file is moved to.
pub fn backup_path(path: &str, timestamp: &str, suffix: Option<usize>) -> (r: String)
    ensures
        r@ == backup_path_spec(path@, timestamp@, suffix),
{
    let cs = chars_of(path);
    proof {
        crate::text::lemma_last_index(cs@, '/');
    }
    let start: usize = match crate::text::rfind_char(&cs, '/') {
        Some(i) => {
            assert(i < cs.len());
            i + 1
        },
        None => 0,
    };
    let dir = crate::text::slice_chars(&cs, 0, start);
    let name = crate::text::slice_chars(&cs, start, cs.len());
    let mut out: Vec<char> = Vec::new();
    push_chars(&mut out, &dir);
    if name.len() == 0 {
        push_str(&mut out, "config.json");
    } else {
        push_chars(&mut out, &name);
    }
    push_str(&mut out, ".bak.");
    push_str(&mut out, timestamp);
    match suffix {
        Some(n) => {
            push_str(&mut out, ".");
            let d = decimal_chars(n as u64);
            push_chars(&mut out, &d);
        },
        None => {},
    }
    assert(out@ =~= backup_path_spec(path@, timestamp@, suffix));
    string_of(&out)
}

/// The text of a time given as seconds since the Unix epoch, in UTC, formatted by a `time`
/// format description; none when the time or the description is out of the crate's range.
pub uninterp spec fn utc_formatted(unix_seconds: i64, description: Seq<char>) -> Option<Seq<char>>;

/// `time::OffsetDateTime::from_unix_timestamp` followed by `format` with a description
/// parsed by `time::format_description::parse`: the UTC time `unix_seconds` written as the
/// description says. The result is named, not described.
#[verifier::external_body]
fn format_utc(unix_seconds: i64, description: &str) -> (r: Option<String>)
    ensures
        match (r, utc_formatted(unix_seconds, description@)) {
            (Some(a), Some(b)) => a@ == b,
            (None, None) => true,
            _ => false,
        },
{
    let now = time::OffsetDateTime::from_unix_timestamp(unix_seconds).ok()?;
    let items = time::format_description::parse(description).ok()?;
    now.format(&items).ok()
}

/// The format of backup timestamps.
pub const BACKUP_TIMESTAMP_FORMAT: &'static str = "[year][month][day]T[hour][minute][second]Z";

/// The timestamp of a backup taken at `unix_seconds`: the UTC date and time as
/// `YYYYMMDDTHHMMSSZ`, or `00000000T000000Z` when it cannot be formatted.
pub fn backup_timestamp(unix_seconds: i64) -> (r: String)
    ensures
        r@ == match utc_formatted(unix_seconds, BACKUP_TIMESTAMP_FORMAT@) {
            Some(t) => t,
            None => "00000000T000000Z"@,
        },
{
    match format_utc(unix_seconds, BACKUP_TIMESTAMP_FORMAT) {
        Some(t) => t,
        None => owned("00000000T000000Z"),
    }
}

// ---------------------------------------------------------------------------
// The prepared file
// ---------------------------------------------------------------------------

/// The mount and environment that make Git in the container check host keys against a
/// known_hosts file prepared on the host at `source`.
pub fn known_hosts_mount_and_env(source: String) -> (r: (RuntimeMount, StringMap))
    ensures
        r.0@ == (MountView { kind: RuntimeMountKind::Bind, source: source@, destination: CONTAINER_KNOWN_HOSTS@, read_only: true }),
        r.1@ == Map::<Seq<char>, Seq<char>>::empty().insert(GIT_SSH_COMMAND_ENV@, GIT_SSH_COMMAND@),
{
    let mount = RuntimeMount::read_only_bind(source, owned(CONTAINER_KNOWN_HOSTS));
    let mut env = StringMap::new();
    env.insert(owned(GIT_SSH_COMMAND_ENV), owned(GIT_SSH_COMMAND));
    (mount, env)
}

/// The contents of the prepared known_hosts file: each line followed by a line break.
pub open spec fn known_hosts_file_text(ls: Seq<Seq<char>>) -> Seq<char>
    decreases ls.len(),
{
    if ls.len() == 0 {
        Seq::empty()
    } else {
        known_hosts_file_text(ls.drop_last()) + ls.last() + seq!['\n']
    }
}

/// The contents of the prepared known_hosts file: one line per entry, each ended by a
/// newline; none when there is no entry, as then no file is prepared.
pub fn known_hosts_file_contents(lines: &Vec<String>) -> (r: Option<String>)
    ensures
        lines@.len() == 0 ==> r is None,
        lines@.len() > 0 ==> (r matches Some(text) && text@ == known_hosts_file_text(strings_view(lines@))),
{
    if lines.len() == 0 {
        return None;
    }
    let ghost s = strings_view(lines@);
    let mut out: Vec<char> = Vec::new();
    let mut i: usize = 0;
    while i < lines.len()
        invariant
            i <= lines@.len(),
            s == strings_view(lines@),
            out@ == known_hosts_file_text(s.take(i as int)),
        decreases lines.len() - i,
    {
        push_str(&mut out, lines[i].as_str());
        out.push('\n');
        proof {
            assert(s.take(i + 1).drop_last() =~= s.take(i as int));
        }
        i = i + 1;
    }
    assert(s.take(lines@.len() as int) =~= s);
    Some(string_of(&out))
}

// ---------------------------------------------------------------------------
// Preparing the file
// ---------------------------------------------------------------------------

/// The warning when a repository's Git remotes cannot be listed.
pub open spec fn remotes_failed_warning(error: Seq<char>) -> Seq<char> {
    "failed to inspect Git remotes for SSH known_hosts passthrough: "@ + error
        + "; continuing without host known_hosts entries"@
}

/// The SSH hosts of a repository's remotes, from the listing of its remote URLs: none, with
/// a warning, when the listing failed.
pub fn remote_hosts_of(urls: Result<Vec<String>, String>) -> (r: (Vec<crate::ssh_signing::remote::SshRemoteHost>, Vec<String>))
    ensures
        match urls {
            Ok(u) => r.0@.map_values(|h: crate::ssh_signing::remote::SshRemoteHost| crate::ssh_signing::remote::host_view(h))
                == crate::ssh_signing::remote::remote_hosts_spec(u@.map_values(|s: String| s@)) && r.1@.len() == 0,
            Err(e) => r.0@.len() == 0 && strings_view(r.1@) == seq![remotes_failed_warning(e@)],
        },
{
    match urls {
        Ok(u) => (crate::ssh_signing::remote::ssh_remote_hosts(&u), Vec::new()),
        Err(e) => {
            let mut w: Vec<String> = Vec::new();
            w.push(crate::text::concat3(
                "failed to inspect Git remotes for SSH known_hosts passthrough: ",
                e.as_str(),
                "; continuing without host known_hosts entries",
            ));
            assert(strings_view(w@) =~= seq![remotes_failed_warning(e@)]);
            (Vec::new(), w)
        },
    }
}

/// The warning when the temporary known_hosts file cannot be written.
pub open spec fn temporary_file_warning_spec(error: Seq<char>) -> Seq<char> {
    "failed to prepare temporary SSH known_hosts file: "@ + error
        + "; Git SSH host verification passthrough disabled"@
}

/// The warning when the temporary known_hosts file cannot be written.
pub fn temporary_file_warning(error: &str) -> (r: String)
    ensures
        r@ == temporary_file_warning_spec(error@),
{
    crate::text::concat3(
        "failed to prepare temporary SSH known_hosts file: ",
        error,
        "; Git SSH host verification passthrough disabled",
    )
}

} // verus!
