//! Where the known_hosts entries of a remote host are looked up: the host names and files
//! that `ssh -G` reports for it, or the user's default files when `ssh` cannot say.

use vstd::prelude::*;

use crate::environment::EnvValue;
use crate::order::strings_view;
use crate::path_order::{paths_equal, same_path};
use crate::paths::{join, join_spec};
use crate::ssh_signing::remote::{format_known_host, known_host_text, port_spec, SshRemoteHost};
use crate::text::{
    chars_of, chars_eq, is_whitespace, lines, lines_chars, lower, lower_chars, owned, slice_chars,
    string_of, trim, trim_chars, word_end, words, words_chars,
};

verus! {

/// The host names under which a remote host's entries are looked up, and the known_hosts
/// files they are looked up in.
#[derive(Debug, PartialEq, Eq)]
pub struct SshHostConfig {
    pub lookup_hosts: Vec<String>,
    pub known_hosts_files: Vec<String>,
}

/// A host configuration as its host names and files.
pub open spec fn config_view(c: SshHostConfig) -> (Seq<Seq<char>>, Seq<Seq<char>>) {
    (strings_view(c.lookup_hosts@), strings_view(c.known_hosts_files@))
}

impl Clone for SshHostConfig {
    /// The same configuration.
    fn clone(&self) -> (r: Self)
        ensures
            config_view(r) == config_view(*self),
    {
        let r = SshHostConfig {
            lookup_hosts: crate::text::copy_strings(&self.lookup_hosts),
            known_hosts_files: crate::text::copy_strings(&self.known_hosts_files),
        };
        assert(strings_view(r.lookup_hosts@) =~= strings_view(self.lookup_hosts@));
        assert(strings_view(r.known_hosts_files@) =~= strings_view(self.known_hosts_files@));
        r
    }
}

// ---------------------------------------------------------------------------
// `ssh -G` output
// ---------------------------------------------------------------------------

/// A line of `ssh -G` output as its key and its values: the trimmed line split at its
/// first whitespace, the values trimmed. None for a line without whitespace.
pub open spec fn config_entry(line: Seq<char>) -> Option<(Seq<char>, Seq<char>)> {
    let t = trim(line);
    let k = word_end(t, 0);
    if k >= t.len() {
        None
    } else {
        Some((t.take(k), trim(t.skip(k + 1))))
    }
}

/// The value of an option: its first word that is not `none`.
pub open spec fn first_config_value(ws: Seq<Seq<char>>) -> Option<Seq<char>>
    decreases ws.len(),
{
    if ws.len() == 0 {
        None
    } else if ws[0].len() > 0 && ws[0] != "none"@ {
        Some(ws[0])
    } else {
        first_config_value(ws.skip(1))
    }
}

/// Some of `files` is the same path as `file`.
pub open spec fn has_same_path(files: Seq<Seq<char>>, file: Seq<char>) -> bool {
    exists|i: int| 0 <= i < files.len() && same_path(#[trigger] files[i], file)
}

/// `files` with `file` added at the end, unless it is `none` or the same path as one there.
pub open spec fn add_file(files: Seq<Seq<char>>, file: Seq<char>) -> Seq<Seq<char>> {
    if file == "none"@ || has_same_path(files, file) {
        files
    } else {
        files.push(file)
    }
}

/// `files` with each of `ws` added in turn.
pub open spec fn add_files(files: Seq<Seq<char>>, ws: Seq<Seq<char>>) -> Seq<Seq<char>>
    decreases ws.len(),
{
    if ws.len() == 0 {
        files
    } else {
        add_file(add_files(files, ws.drop_last()), ws.last())
    }
}

/// What the lines of `ssh -G` output set: the host name, the port, the host key alias and
/// the known_hosts files, each later line overriding the earlier for the first three.
pub open spec fn config_fields(ls: Seq<Seq<char>>, port: Option<u16>) -> (Option<Seq<char>>, Option<u16>, Option<Seq<char>>, Seq<Seq<char>>)
    decreases ls.len(),
{
    if ls.len() == 0 {
        (None, port, None, Seq::empty())
    } else {
        apply_config_line(config_fields(ls.drop_last(), port), ls.last())
    }
}

/// The fields after one line of `ssh -G` output.
pub open spec fn apply_config_line(
    acc: (Option<Seq<char>>, Option<u16>, Option<Seq<char>>, Seq<Seq<char>>),
    line: Seq<char>,
) -> (Option<Seq<char>>, Option<u16>, Option<Seq<char>>, Seq<Seq<char>>) {
    match config_entry(line) {
        None => acc,
        Some((key, values)) => {
            let k = lower(key);
            let v = first_config_value(words(values));
            if k == "hostname"@ {
                (v, acc.1, acc.2, acc.3)
            } else if k == "port"@ {
                (acc.0, match v {
                    Some(p) => port_spec(p),
                    None => None,
                }, acc.2, acc.3)
            } else if k == "hostkeyalias"@ {
                (acc.0, acc.1, v, acc.3)
            } else if k == "userknownhostsfile"@ || k == "globalknownhostsfile"@ {
                (acc.0, acc.1, acc.2, add_files(acc.3, words(values)))
            } else {
                acc
            }
        },
    }
}

/// `hosts` with `host` added at the end, unless it is absent, empty or already there.
pub open spec fn push_unique_spec(hosts: Seq<Seq<char>>, host: Option<Seq<char>>) -> Seq<Seq<char>> {
    match host {
        Some(h) => if h.len() > 0 && !hosts.contains(h) {
            hosts.push(h)
        } else {
            hosts
        },
        None => hosts,
    }
}

/// The host names a remote host's entries are looked up under: the host key alias, the
/// resolved host name with the port, and the host as the remote names it.
pub open spec fn lookup_hosts_spec(
    config_host: Seq<char>,
    remote_port: Option<u16>,
    hostname: Option<Seq<char>>,
    port: Option<u16>,
    alias: Option<Seq<char>>,
) -> Seq<Seq<char>> {
    let resolved = match hostname {
        Some(h) => h,
        None => config_host,
    };
    push_unique_spec(
        push_unique_spec(push_unique_spec(Seq::empty(), alias), Some(known_host_text(resolved, port))),
        Some(known_host_text(config_host, remote_port)),
    )
}

/// The configuration `ssh -G` reports for a remote host: the host names to look up and
/// the known_hosts files named, before the files are checked to exist.
pub open spec fn ssh_config_spec(output: Seq<char>, config_host: Seq<char>, port: Option<u16>) -> (Seq<Seq<char>>, Seq<Seq<char>>) {
    let f = config_fields(lines(output), port);
    (lookup_hosts_spec(config_host, port, f.0, f.1, f.2), f.3)
}

/// Optional characters as a sequence.
pub open spec fn chars_opt(o: Option<Vec<char>>) -> Option<Seq<char>> {
    match o {
        Some(v) => Some(v@),
        None => None,
    }
}

fn first_whitespace(t: &[char]) -> (k: usize)
    ensures
        k as int == word_end(t@, 0),
{
    let mut i: usize = 0;
    while i < t.len() && !is_whitespace(t[i])
        invariant
            i <= t@.len(),
            word_end(t@, 0) == word_end(t@, i as int),
        decreases t.len() - i,
    {
        i = i + 1;
    }
    i
}

fn config_entry_exec(line: &[char]) -> (r: Option<(Vec<char>, Vec<char>)>)
    ensures
        match (r, config_entry(line@)) {
            (Some((k, v)), Some((ks, vs))) => k@ == ks && v@ == vs,
            (None, None) => true,
            _ => false,
        },
{
    let t = trim_chars(line);
    let k = first_whitespace(&t);
    if k >= t.len() {
        return None;
    }
    let key = slice_chars(&t, 0, k);
    let rest = slice_chars(&t, k + 1, t.len());
    let values = trim_chars(&rest);
    assert(key@ =~= t@.take(k as int));
    assert(rest@ =~= t@.skip(k + 1));
    Some((key, values))
}

fn first_ssh_config_value(ws: &Vec<Vec<char>>) -> (r: Option<Vec<char>>)
    ensures
        match (r, first_config_value(ws@.map_values(|w: Vec<char>| w@))) {
            (Some(a), Some(b)) => a@ == b,
            (None, None) => true,
            _ => false,
        },
{
    let ghost s = ws@.map_values(|w: Vec<char>| w@);
    let none = chars_of("none");
    assert(s.skip(0) =~= s);
    let mut i: usize = 0;
    while i < ws.len()
        invariant
            i <= ws@.len(),
            s == ws@.map_values(|w: Vec<char>| w@),
            none@ == "none"@,
            first_config_value(s) == first_config_value(s.skip(i as int)),
        decreases ws.len() - i,
    {
        assert(s.skip(i as int)[0] == s[i as int]);
        assert(s.skip(i as int).skip(1) =~= s.skip(i + 1));
        if ws[i].len() > 0 && !chars_eq(&ws[i], &none) {
            return Some(slice_chars(&ws[i], 0, ws[i].len()));
        }
        i = i + 1;
    }
    assert(s.skip(i as int).len() == 0);
    None
}

fn contains_string(v: &Vec<String>, s: &[char]) -> (r: bool)
    ensures
        r == strings_view(v@).contains(s@),
{
    let mut i: usize = 0;
    while i < v.len()
        invariant
            i <= v@.len(),
            forall|k: int| 0 <= k < i ==> strings_view(v@)[k] != s@,
        decreases v.len() - i,
    {
        let c = chars_of(v[i].as_str());
        if chars_eq(&c, s) {
            assert(strings_view(v@)[i as int] == s@);
            return true;
        }
        i = i + 1;
    }
    false
}

fn contains_same_path(v: &Vec<String>, s: &str) -> (r: bool)
    ensures
        r == has_same_path(strings_view(v@), s@),
{
    let mut i: usize = 0;
    while i < v.len()
        invariant
            i <= v@.len(),
            forall|k: int| 0 <= k < i ==> !same_path(#[trigger] strings_view(v@)[k], s@),
        decreases v.len() - i,
    {
        if paths_equal(v[i].as_str(), s) {
            assert(same_path(strings_view(v@)[i as int], s@));
            return true;
        }
        i = i + 1;
    }
    false
}

fn push_known_hosts_files(files: &mut Vec<String>, ws: &Vec<Vec<char>>)
    ensures
        strings_view(final(files)@) == add_files(strings_view(old(files)@), ws@.map_values(|w: Vec<char>| w@)),
{
    let ghost start = strings_view(files@);
    let ghost s = ws@.map_values(|w: Vec<char>| w@);
    let none = chars_of("none");
    let mut i: usize = 0;
    while i < ws.len()
        invariant
            i <= ws@.len(),
            s == ws@.map_values(|w: Vec<char>| w@),
            none@ == "none"@,
            strings_view(files@) == add_files(start, s.take(i as int)),
        decreases ws.len() - i,
    {
        assert(s.take(i + 1).drop_last() =~= s.take(i as int));
        let w = &ws[i];
        if !chars_eq(w, &none) && !contains_same_path(files, string_of(w).as_str()) {
            files.push(string_of(w));
            assert(strings_view(files@) =~= add_files(start, s.take(i as int)).push(w@));
        }
        i = i + 1;
    }
    assert(s.take(ws@.len() as int) =~= s);
}

fn push_unique_host(hosts: &mut Vec<String>, host: Option<String>)
    ensures
        strings_view(final(hosts)@) == push_unique_spec(strings_view(old(hosts)@), match host {
            Some(h) => Some(h@),
            None => None,
        }),
{
    match host {
        Some(h) => {
            let cs = chars_of(h.as_str());
            if cs.len() > 0 && !contains_string(hosts, &cs) {
                hosts.push(h);
                assert(strings_view(hosts@) =~= strings_view(old(hosts)@).push(h@));
            }
        },
        None => {},
    }
}

/// The host names a remote host's entries are looked up under.
pub fn ssh_config_lookup_hosts(
    host: &SshRemoteHost,
    hostname: Option<&str>,
    port: Option<u16>,
    host_key_alias: Option<&str>,
) -> (r: Vec<String>)
    ensures
        strings_view(r@) == lookup_hosts_spec(
            host.config_host@,
            host.port,
            match hostname {
                Some(h) => Some(h@),
                None => None,
            },
            port,
            match host_key_alias {
                Some(a) => Some(a@),
                None => None,
            },
        ),
{
    let mut hosts: Vec<String> = Vec::new();
    assert(strings_view(hosts@) =~= Seq::<Seq<char>>::empty());
    push_unique_host(&mut hosts, match host_key_alias {
        Some(a) => Some(owned(a)),
        None => None,
    });
    let resolved: &str = match hostname {
        Some(h) => h,
        None => host.config_host.as_str(),
    };
    push_unique_host(&mut hosts, Some(format_known_host(resolved, port)));
    push_unique_host(&mut hosts, Some(host.known_hosts_name()));
    hosts
}

/// The configuration `ssh -G` reports for a remote host: the host names to look up, and
/// the known_hosts files its `UserKnownHostsFile` and `GlobalKnownHostsFile` options name,
/// each once and without `none`. Whether the files exist is for the caller to check.
pub fn parse_ssh_config_output(output: &str, host: &SshRemoteHost) -> (r: SshHostConfig)
    ensures
        config_view(r) == ssh_config_spec(output@, host.config_host@, host.port),
{
    let cs = chars_of(output);
    let ls = lines_chars(&cs);
    let ghost lv = lines(output@);
    let mut hostname: Option<Vec<char>> = None;
    let mut port: Option<u16> = host.port;
    let mut alias: Option<Vec<char>> = None;
    let mut files: Vec<String> = Vec::new();
    let mut i: usize = 0;
    while i < ls.len()
        invariant
            i <= ls@.len(),
            ls@.len() == lv.len(),
            forall|k: int| 0 <= k < ls@.len() ==> #[trigger] ls@[k]@ == lv[k],
            config_fields(lv.take(i as int), host.port) == (chars_opt(hostname), port, chars_opt(alias), strings_view(files@)),
        decreases ls.len() - i,
    {
        assert(lv.take(i + 1).drop_last() =~= lv.take(i as int));
        assert(lv.take(i + 1).last() == ls@[i as int]@);
        match config_entry_exec(&ls[i]) {
            None => {},
            Some((key, values)) => {
                let k = lower_chars(&key);
                let ws = words_chars(&values);
                assert(ws@.map_values(|w: Vec<char>| w@) =~= words(values@));
                if chars_eq(&k, &chars_of("hostname")) {
                    hostname = first_ssh_config_value(&ws);
                } else if chars_eq(&k, &chars_of("port")) {
                    port = match first_ssh_config_value(&ws) {
                        Some(p) => crate::text::parse_u16(&p),
                        None => None,
                    };
                } else if chars_eq(&k, &chars_of("hostkeyalias")) {
                    alias = first_ssh_config_value(&ws);
                } else if chars_eq(&k, &chars_of("userknownhostsfile")) || chars_eq(&k, &chars_of("globalknownhostsfile")) {
                    push_known_hosts_files(&mut files, &ws);
                }
            },
        }
        i = i + 1;
    }
    assert(lv.take(ls@.len() as int) =~= lv);
    let hn: Option<String> = match hostname {
        Some(h) => Some(string_of(&h)),
        None => None,
    };
    let al: Option<String> = match alias {
        Some(a) => Some(string_of(&a)),
        None => None,
    };
    let lookup_hosts = ssh_config_lookup_hosts(
        host,
        match &hn {
            Some(h) => Some(h.as_str()),
            None => None,
        },
        port,
        match &al {
            Some(a) => Some(a.as_str()),
            None => None,
        },
    );
    SshHostConfig { lookup_hosts, known_hosts_files: files }
}

// ---------------------------------------------------------------------------
// Lookup outcomes
// ---------------------------------------------------------------------------

/// Why `ssh -G` gave no configuration: the command is missing, or it failed.
#[derive(Debug, PartialEq, Eq)]
pub enum SshConfigLookupError {
    Unavailable(String),
    Failed(String),
}

/// Why `ssh-keygen -F` gave no entries: the command is missing, or it failed.
#[derive(Debug, PartialEq, Eq)]
pub enum KnownHostsLookupError {
    Unavailable(String),
    Failed(String),
}

/// What a command's output says, for messages: its trimmed standard error, else its
/// trimmed standard output, else `no output`.
pub open spec fn output_detail_spec(stdout: Seq<char>, stderr: Seq<char>) -> Seq<char> {
    if trim(stderr).len() > 0 {
        trim(stderr)
    } else if trim(stdout).len() > 0 {
        trim(stdout)
    } else {
        "no output"@
    }
}

/// What a command's output says, for messages.
pub fn output_detail(stdout: &str, stderr: &str) -> (r: String)
    ensures
        r@ == output_detail_spec(stdout@, stderr@),
{
    let e = trim_chars(&chars_of(stderr));
    if e.len() > 0 {
        return string_of(&e);
    }
    let o = trim_chars(&chars_of(stdout));
    if o.len() > 0 {
        return string_of(&o);
    }
    owned("no output")
}

/// The message of a command that exited unsuccessfully: its status, then what its output
/// says.
pub open spec fn status_detail_spec(status: Seq<char>, stdout: Seq<char>, stderr: Seq<char>) -> Seq<char> {
    status + ": "@ + output_detail_spec(stdout, stderr)
}

fn status_detail(status: &str, stdout: &str, stderr: &str) -> (r: String)
    ensures
        r@ == status_detail_spec(status@, stdout@, stderr@),
{
    let d = output_detail(stdout, stderr);
    crate::text::concat3(status, ": ", d.as_str())
}

/// The outcome of `ssh -G` for a remote host that ran and exited: its configuration when
/// it succeeded, otherwise a failure with its status and output.
pub fn ssh_config_lookup_result(success: bool, status: &str, stdout: &str, stderr: &str, host: &SshRemoteHost) -> (r: Result<SshHostConfig, SshConfigLookupError>)
    ensures
        success ==> (r matches Ok(c) && config_view(c) == ssh_config_spec(stdout@, host.config_host@, host.port)),
        !success ==> (r matches Err(SshConfigLookupError::Failed(m)) && m@ == status_detail_spec(status@, stdout@, stderr@)),
{
    if success {
        Ok(parse_ssh_config_output(stdout, host))
    } else {
        Err(SshConfigLookupError::Failed(status_detail(status, stdout, stderr)))
    }
}

/// The outcome of `ssh-keygen -F` that ran and exited with `code`: the entries it printed
/// on 0, none on 1, otherwise a failure with its status and output.
pub fn keygen_lookup_result(code: Option<i32>, status: &str, stdout: &str, stderr: &str) -> (r: Result<Vec<String>, KnownHostsLookupError>)
    ensures
        code == Some(0i32) ==> (r matches Ok(v) && strings_view(v@) == crate::ssh_signing::known_hosts::entry_lines(lines(stdout@))),
        code == Some(1i32) ==> (r matches Ok(v) && v@.len() == 0),
        code != Some(0i32) && code != Some(1i32) ==> (r matches Err(KnownHostsLookupError::Failed(m)) && m@ == status_detail_spec(status@, stdout@, stderr@)),
{
    match code {
        Some(0) => Ok(crate::ssh_signing::known_hosts::parse_ssh_keygen_lines(stdout)),
        Some(1) => Ok(Vec::new()),
        _ => Err(KnownHostsLookupError::Failed(status_detail(status, stdout, stderr))),
    }
}

/// A command that could not be run: unavailable when it was not found, failed otherwise.
pub fn command_lookup_error(not_found: bool, message: String) -> (r: KnownHostsLookupError)
    ensures
        not_found ==> (r matches KnownHostsLookupError::Unavailable(m) && m@ == message@),
        !not_found ==> (r matches KnownHostsLookupError::Failed(m) && m@ == message@),
{
    if not_found {
        KnownHostsLookupError::Unavailable(message)
    } else {
        KnownHostsLookupError::Failed(message)
    }
}

/// `ssh -G` that could not be run: unavailable when it was not found, failed otherwise.
pub fn config_command_error(not_found: bool, message: String) -> (r: SshConfigLookupError)
    ensures
        not_found ==> (r matches SshConfigLookupError::Unavailable(m) && m@ == message@),
        !not_found ==> (r matches SshConfigLookupError::Failed(m) && m@ == message@),
{
    if not_found {
        SshConfigLookupError::Unavailable(message)
    } else {
        SshConfigLookupError::Failed(message)
    }
}

// ---------------------------------------------------------------------------
// The user's default known_hosts files
// ---------------------------------------------------------------------------

/// The user's default known_hosts files under a non-empty home directory:
/// `.ssh/known_hosts` and `.ssh/known_hosts2`; none without one.
pub open spec fn known_hosts_candidates_spec(home: Option<Seq<char>>) -> Seq<Seq<char>> {
    match home {
        Some(h) => if h.len() > 0 {
            seq![
                join_spec(join_spec(h, ".ssh"@), "known_hosts"@),
                join_spec(join_spec(h, ".ssh"@), "known_hosts2"@),
            ]
        } else {
            Seq::empty()
        },
        None => Seq::empty(),
    }
}

/// A home directory as text, the lossy rendering of one that is not Unicode.
pub open spec fn home_text(home: Option<&EnvValue>) -> Option<Seq<char>> {
    match home {
        Some(EnvValue::Text(s)) => Some(s@),
        Some(EnvValue::NotUnicode(s)) => Some(s@),
        None => None,
    }
}

/// The user's default known_hosts files, before they are checked to exist.
pub fn known_hosts_files(home: Option<&EnvValue>) -> (r: Vec<String>)
    ensures
        strings_view(r@) == known_hosts_candidates_spec(home_text(home)),
{
    let h: &String = match home {
        Some(EnvValue::Text(s)) => s,
        Some(EnvValue::NotUnicode(s)) => s,
        None => {
            let r: Vec<String> = Vec::new();
            assert(strings_view(r@) =~= Seq::<Seq<char>>::empty());
            return r;
        },
    };
    if chars_of(h.as_str()).len() == 0 {
        let r: Vec<String> = Vec::new();
        assert(strings_view(r@) =~= Seq::<Seq<char>>::empty());
        return r;
    }
    let ssh = join(h.as_str(), ".ssh");
    let mut r: Vec<String> = Vec::new();
    r.push(join(ssh.as_str(), "known_hosts"));
    r.push(join(ssh.as_str(), "known_hosts2"));
    assert(strings_view(r@) =~= known_hosts_candidates_spec(home_text(home)));
    r
}

/// The elements of `s` whose flag in `keep` is set, in order.
pub open spec fn retained(s: Seq<Seq<char>>, keep: Seq<bool>) -> Seq<Seq<char>>
    decreases s.len(),
{
    if s.len() == 0 {
        Seq::empty()
    } else if keep[s.len() - 1] {
        retained(s.drop_last(), keep).push(s.last())
    } else {
        retained(s.drop_last(), keep)
    }
}

/// The files whose flag in `present` is set, in order: those found to exist.
pub fn retain_present(files: &Vec<String>, present: &Vec<bool>) -> (r: Vec<String>)
    requires
        present@.len() == files@.len(),
    ensures
        strings_view(r@) == retained(strings_view(files@), present@),
{
    let ghost s = strings_view(files@);
    let mut r: Vec<String> = Vec::new();
    let mut i: usize = 0;
    while i < files.len()
        invariant
            i <= files@.len(),
            present@.len() == files@.len(),
            s == strings_view(files@),
            strings_view(r@) == retained(s.take(i as int), present@),
        decreases files.len() - i,
    {
        assert(s.take(i + 1).drop_last() =~= s.take(i as int));
        if present[i] {
            r.push(files[i].clone());
            assert(strings_view(r@) =~= retained(s.take(i as int), present@).push(s[i as int]));
        }
        i = i + 1;
    }
    assert(s.take(files@.len() as int) =~= s);
    r
}

/// The configuration used for a remote host when `ssh -G` cannot give one: its own
/// known_hosts name, looked up in the user's default files.
pub fn fallback_ssh_host_config(host: &SshRemoteHost, files: &Vec<String>) -> (r: SshHostConfig)
    ensures
        config_view(r) == (seq![known_host_text(host.config_host@, host.port)], strings_view(files@)),
{
    let mut lookup_hosts: Vec<String> = Vec::new();
    lookup_hosts.push(host.known_hosts_name());
    let known_hosts_files = crate::text::copy_strings(files);
    let r = SshHostConfig { lookup_hosts, known_hosts_files };
    assert(strings_view(r.lookup_hosts@) =~= seq![known_host_text(host.config_host@, host.port)]);
    assert(strings_view(r.known_hosts_files@) =~= strings_view(files@));
    r
}

// ---------------------------------------------------------------------------
// Collecting the entries of the remote hosts
// ---------------------------------------------------------------------------

/// The warning when `ssh` is missing for a remote host's configuration.
pub open spec fn config_unavailable_warning(name: Seq<char>, reason: Seq<char>) -> Seq<char> {
    "ssh is unavailable for SSH config lookup for remote host `"@ + name + "` ("@ + reason
        + "); falling back to $HOME/.ssh/known_hosts and $HOME/.ssh/known_hosts2"@
}

/// The warning when `ssh -G` fails for a remote host.
pub open spec fn config_failed_warning(name: Seq<char>, reason: Seq<char>) -> Seq<char> {
    "ssh -G lookup failed for SSH remote host `"@ + name + "` ("@ + reason
        + "); falling back to $HOME/.ssh/known_hosts and $HOME/.ssh/known_hosts2"@
}

/// The warning when `ssh-keygen` is missing.
pub open spec fn keygen_unavailable_warning(reason: Seq<char>) -> Seq<char> {
    "ssh-keygen is unavailable for SSH known_hosts lookup ("@ + reason
        + "); continuing with config-provided knownHosts only"@
}

/// The warning when `ssh-keygen -F` fails for a remote host.
pub open spec fn keygen_failed_warning(name: Seq<char>, reason: Seq<char>) -> Seq<char> {
    "ssh-keygen lookup failed for SSH remote host `"@ + name + "` ("@ + reason
        + "); continuing with config-provided knownHosts only"@
}

/// The warning when no entry is found for a remote host.
pub open spec fn no_entry_warning(name: Seq<char>) -> Seq<char> {
    "no known_hosts entry found for SSH remote host `"@ + name + "`; Git SSH host verification may fail"@
}

/// The configuration used for a remote host named `name` after `ssh -G` answered `result`.
pub open spec fn config_after(result: Result<SshHostConfig, SshConfigLookupError>, name: Seq<char>, fallback: Seq<Seq<char>>) -> (Seq<Seq<char>>, Seq<Seq<char>>) {
    match result {
        Ok(c) => config_view(c),
        Err(_) => (seq![name], fallback),
    }
}

/// The warnings `ssh -G` answering `result` gives for a remote host named `name`.
pub open spec fn config_warnings(result: Result<SshHostConfig, SshConfigLookupError>, name: Seq<char>) -> Seq<Seq<char>> {
    match result {
        Ok(_) => Seq::empty(),
        Err(SshConfigLookupError::Unavailable(r)) => seq![config_unavailable_warning(name, r@)],
        Err(SshConfigLookupError::Failed(r)) => seq![config_failed_warning(name, r@)],
    }
}

/// Appends copies of `src` to `dst`.
fn append_strings(dst: &mut Vec<String>, src: &Vec<String>)
    ensures
        strings_view(final(dst)@) == strings_view(old(dst)@) + strings_view(src@),
{
    let ghost start = strings_view(dst@);
    let ghost sv = strings_view(src@);
    let mut i: usize = 0;
    while i < src.len()
        invariant
            i <= src@.len(),
            sv == strings_view(src@),
            strings_view(dst@) == start + sv.take(i as int),
        decreases src.len() - i,
    {
        let ghost prev = dst@;
        let c = src[i].clone();
        assert(c@ == sv[i as int]);
        dst.push(c);
        assert(dst@ == prev.push(c));
        assert(strings_view(dst@) =~= strings_view(prev).push(c@));
        assert(sv.take(i + 1) =~= sv.take(i as int).push(sv[i as int]));
        assert(strings_view(dst@) =~= start + sv.take(i + 1));
        i = i + 1;
    }
    assert(sv.take(sv.len() as int) =~= sv);
}

fn text5(a: &str, b: &str, c: &str, d: &str, e: &str) -> (r: String)
    ensures
        r@ == a@ + b@ + c@ + d@ + e@,
{
    let mut out: Vec<char> = Vec::new();
    crate::text::push_str(&mut out, a);
    crate::text::push_str(&mut out, b);
    crate::text::push_str(&mut out, c);
    crate::text::push_str(&mut out, d);
    crate::text::push_str(&mut out, e);
    assert(out@ =~= a@ + b@ + c@ + d@ + e@);
    string_of(&out)
}

fn no_entry_message(name: &str) -> (r: String)
    ensures
        r@ == no_entry_warning(name@),
{
    crate::text::concat3("no known_hosts entry found for SSH remote host `", name, "`; Git SSH host verification may fail")
}

/// What the collection of known_hosts entries does next.
#[derive(Debug)]
pub enum KnownHostsStep {
    /// Ask `ssh -G` for the configuration of this remote host.
    LookupConfig(SshRemoteHost),
    /// Ask `ssh-keygen -F host -f file` for entries.
    LookupEntries { host: String, file: String },
    /// Every lookup is done: the entries found, in order.
    Finished(Vec<String>),
}

/// The collection of the known_hosts entries of a repository's remote hosts, one lookup
/// at a time. For each host in turn its configuration is asked for, then each file it
/// names is searched for each of its host names. The first failed search ends the
/// collection with no entries.
#[derive(Debug)]
pub struct HostKnownHostsLines {
    pub hosts: Vec<SshRemoteHost>,
    pub fallback_files: Vec<String>,
    pub host_index: usize,
    pub config: Option<SshHostConfig>,
    pub file_index: usize,
    pub name_index: usize,
    pub host_lines: Vec<String>,
    pub lines: Vec<String>,
    pub finished: bool,
}

impl HostKnownHostsLines {
    /// The collection stands on a remote host unless it is finished, and on a pair of a
    /// file and a host name once that host's configuration is known.
    pub open spec fn wf(&self) -> bool {
        &&& self.host_index <= self.hosts.len()
        &&& !self.finished ==> self.host_index < self.hosts.len()
        &&& match self.config {
            Some(c) => self.file_index < c.known_hosts_files.len() && self.name_index < c.lookup_hosts.len(),
            None => true,
        }
    }

    /// The known_hosts name of the remote host the collection stands on.
    pub open spec fn current_name(&self) -> Seq<char> {
        known_host_text(self.hosts@[self.host_index as int].config_host@, self.hosts@[self.host_index as int].port)
    }

    /// A collection for `hosts`, with `fallback_files` as the user's default known_hosts
    /// files. With no host it is finished at once, with no entries.
    pub fn new(hosts: Vec<SshRemoteHost>, fallback_files: Vec<String>) -> (r: Self)
        ensures
            r.wf(),
            r.hosts@ == hosts@,
            r.fallback_files@ == fallback_files@,
            r.host_index == 0,
            r.config is None,
            r.lines@.len() == 0,
            r.host_lines@.len() == 0,
            r.finished == (hosts@.len() == 0),
            r.state() == initial_collection_state(hosts@.len()),
    {
        let finished = hosts.len() == 0;
        HostKnownHostsLines {
            hosts,
            fallback_files,
            host_index: 0,
            config: None,
            file_index: 0,
            name_index: 0,
            host_lines: Vec::new(),
            lines: Vec::new(),
            finished,
        }
    }

    /// The next lookup, or the entries found once the collection is finished.
    pub fn next_step(&self) -> (r: KnownHostsStep)
        requires
            self.wf(),
        ensures
            self.finished ==> (r matches KnownHostsStep::Finished(v) && strings_view(v@) == strings_view(self.lines@)),
            !self.finished && self.config is None ==> (r matches KnownHostsStep::LookupConfig(h)
                && h.config_host@ == self.hosts@[self.host_index as int].config_host@
                && h.port == self.hosts@[self.host_index as int].port),
            !self.finished && self.config is Some ==> (r matches KnownHostsStep::LookupEntries { host, file }
                && host@ == self.config->0.lookup_hosts@[self.name_index as int]@
                && file@ == self.config->0.known_hosts_files@[self.file_index as int]@),
    {
        if self.finished {
            let v = crate::text::copy_strings(&self.lines);
            assert(strings_view(v@) =~= strings_view(self.lines@));
            return KnownHostsStep::Finished(v);
        }
        match &self.config {
            None => KnownHostsStep::LookupConfig(self.hosts[self.host_index].clone()),
            Some(c) => KnownHostsStep::LookupEntries {
                host: c.lookup_hosts[self.name_index].clone(),
                file: c.known_hosts_files[self.file_index].clone(),
            },
        }
    }

    /// Moves past the remote host the collection stands on: its entries join the others,
    /// with a warning when it has none.
    fn finish_host(&mut self) -> (warnings: Vec<String>)
        requires
            old(self).wf(),
            !old(self).finished,
        ensures
            final(self).wf(),
            final(self).hosts@ == old(self).hosts@,
            final(self).fallback_files@ == old(self).fallback_files@,
            final(self).host_index == old(self).host_index + 1,
            final(self).config is None,
            final(self).host_lines@.len() == 0,
            strings_view(final(self).lines@) == strings_view(old(self).lines@) + strings_view(old(self).host_lines@),
            final(self).finished == (old(self).host_index + 1 == old(self).hosts@.len()),
            final(self).file_index == old(self).file_index,
            final(self).name_index == old(self).name_index,
            strings_view(warnings@) == (if old(self).host_lines@.len() == 0 {
                seq![no_entry_warning(old(self).current_name())]
            } else {
                Seq::empty()
            }),
    {
        let mut warnings: Vec<String> = Vec::new();
        if self.host_lines.len() == 0 {
            let name = self.hosts[self.host_index].known_hosts_name();
            warnings.push(no_entry_message(name.as_str()));
        }
        append_strings(&mut self.lines, &self.host_lines);
        self.host_lines = Vec::new();
        self.config = None;
        self.host_index = self.host_index + 1;
        self.finished = self.host_index == self.hosts.len();
        assert(strings_view(warnings@) =~= (if old(self).host_lines@.len() == 0 {
            seq![no_entry_warning(old(self).current_name())]
        } else {
            Seq::empty()
        }));
        warnings
    }

    /// Takes `ssh -G`'s answer for the remote host the collection stands on. On a failure
    /// the host's own name is looked up in the user's default files, with a warning. A
    /// configuration with no file or no host name finishes the host at once.
    pub fn config_found(&mut self, result: Result<SshHostConfig, SshConfigLookupError>) -> (warnings: Vec<String>)
        requires
            old(self).wf(),
            !old(self).finished,
            old(self).config is None,
        ensures
            final(self).wf(),
            final(self).state() == config_step(host_names(old(self).hosts@), strings_view(old(self).fallback_files@), old(self).state(), result).0,
            strings_view(warnings@) == config_step(host_names(old(self).hosts@), strings_view(old(self).fallback_files@), old(self).state(), result).1,
            final(self).hosts@ == old(self).hosts@,
            final(self).fallback_files@ == old(self).fallback_files@,
            ({
                let name = old(self).current_name();
                let cfg = config_after(result, name, strings_view(old(self).fallback_files@));
                let w = config_warnings(result, name);
                if cfg.0.len() > 0 && cfg.1.len() > 0 {
                    &&& strings_view(warnings@) == w
                    &&& final(self).config matches Some(c) && config_view(c) == cfg
                    &&& final(self).file_index == 0 && final(self).name_index == 0
                    &&& final(self).host_lines@.len() == 0
                    &&& strings_view(final(self).lines@) == strings_view(old(self).lines@)
                    &&& final(self).host_index == old(self).host_index
                    &&& !final(self).finished
                } else {
                    &&& strings_view(warnings@) == w.push(no_entry_warning(name))
                    &&& final(self).config is None
                    &&& final(self).host_lines@.len() == 0
                    &&& strings_view(final(self).lines@) == strings_view(old(self).lines@)
                    &&& final(self).host_index == old(self).host_index + 1
                    &&& final(self).finished == (old(self).host_index + 1 == old(self).hosts@.len())
                }
            }),
    {
        let name = self.hosts[self.host_index].known_hosts_name();
        let mut warnings: Vec<String> = Vec::new();
        let config = match result {
            Ok(c) => c,
            Err(SshConfigLookupError::Unavailable(reason)) => {
                warnings.push(text5(
                    "ssh is unavailable for SSH config lookup for remote host `",
                    name.as_str(),
                    "` (",
                    reason.as_str(),
                    "); falling back to $HOME/.ssh/known_hosts and $HOME/.ssh/known_hosts2",
                ));
                fallback_ssh_host_config(&self.hosts[self.host_index], &self.fallback_files)
            },
            Err(SshConfigLookupError::Failed(reason)) => {
                warnings.push(text5(
                    "ssh -G lookup failed for SSH remote host `",
                    name.as_str(),
                    "` (",
                    reason.as_str(),
                    "); falling back to $HOME/.ssh/known_hosts and $HOME/.ssh/known_hosts2",
                ));
                fallback_ssh_host_config(&self.hosts[self.host_index], &self.fallback_files)
            },
        };
        assert(strings_view(warnings@) =~= config_warnings(result, name@));
        self.host_lines = Vec::new();
        if config.known_hosts_files.len() > 0 && config.lookup_hosts.len() > 0 {
            self.config = Some(config);
            self.file_index = 0;
            self.name_index = 0;
            warnings
        } else {
            let more = self.finish_host();
            append_strings(&mut warnings, &more);
            warnings
        }
    }

    /// Takes `ssh-keygen -F`'s answer for the pair the collection stands on. Entries found
    /// are kept for the host; after its last pair the host is finished. A failure ends the
    /// collection with no entries and a warning.
    pub fn entries_found(&mut self, result: Result<Vec<String>, KnownHostsLookupError>) -> (warnings: Vec<String>)
        requires
            old(self).wf(),
            !old(self).finished,
            old(self).config is Some,
        ensures
            final(self).wf(),
            final(self).state() == entries_step(host_names(old(self).hosts@), old(self).state(), result).0,
            strings_view(warnings@) == entries_step(host_names(old(self).hosts@), old(self).state(), result).1,
            final(self).hosts@ == old(self).hosts@,
            final(self).fallback_files@ == old(self).fallback_files@,
            ({
                let name = old(self).current_name();
                let c = old(self).config->0;
                match result {
                    Err(KnownHostsLookupError::Unavailable(r)) => {
                        &&& strings_view(warnings@) == seq![keygen_unavailable_warning(r@)]
                        &&& final(self).finished
                        &&& final(self).lines@.len() == 0
                        &&& final(self).config is None
                    },
                    Err(KnownHostsLookupError::Failed(r)) => {
                        &&& strings_view(warnings@) == seq![keygen_failed_warning(name, r@)]
                        &&& final(self).finished
                        &&& final(self).lines@.len() == 0
                        &&& final(self).config is None
                    },
                    Ok(m) => {
                        let found = strings_view(old(self).host_lines@) + strings_view(m@);
                        let last_name = old(self).name_index + 1 == c.lookup_hosts@.len();
                        let last_pair = last_name && old(self).file_index + 1 == c.known_hosts_files@.len();
                        if !last_pair {
                            &&& warnings@.len() == 0
                            &&& strings_view(final(self).host_lines@) == found
                            &&& strings_view(final(self).lines@) == strings_view(old(self).lines@)
                            &&& final(self).config == old(self).config
                            &&& final(self).host_index == old(self).host_index
                            &&& final(self).name_index == (if last_name { 0 } else { old(self).name_index + 1 })
                            &&& final(self).file_index == (if last_name { old(self).file_index + 1 } else { old(self).file_index as int })
                            &&& !final(self).finished
                        } else {
                            &&& strings_view(warnings@) == (if found.len() == 0 {
                                seq![no_entry_warning(name)]
                            } else {
                                Seq::empty()
                            })
                            &&& strings_view(final(self).lines@) == strings_view(old(self).lines@) + found
                            &&& final(self).config is None
                            &&& final(self).host_lines@.len() == 0
                            &&& final(self).host_index == old(self).host_index + 1
                            &&& final(self).finished == (old(self).host_index + 1 == old(self).hosts@.len())
                        }
                    },
                }
            }),
    {
        let name = self.hosts[self.host_index].known_hosts_name();
        match result {
            Err(KnownHostsLookupError::Unavailable(reason)) => {
                let mut warnings: Vec<String> = Vec::new();
                warnings.push(crate::text::concat3(
                    "ssh-keygen is unavailable for SSH known_hosts lookup (",
                    reason.as_str(),
                    "); continuing with config-provided knownHosts only",
                ));
                self.lines = Vec::new();
                self.config = None;
                self.finished = true;
                assert(strings_view(warnings@) =~= seq![keygen_unavailable_warning(reason@)]);
                warnings
            },
            Err(KnownHostsLookupError::Failed(reason)) => {
                let mut warnings: Vec<String> = Vec::new();
                warnings.push(text5(
                    "ssh-keygen lookup failed for SSH remote host `",
                    name.as_str(),
                    "` (",
                    reason.as_str(),
                    "); continuing with config-provided knownHosts only",
                ));
                self.lines = Vec::new();
                self.config = None;
                self.finished = true;
                assert(strings_view(warnings@) =~= seq![keygen_failed_warning(name@, reason@)]);
                warnings
            },
            Ok(matches) => {
                append_strings(&mut self.host_lines, &matches);
                let (files_len, names_len) = match &self.config {
                    Some(c) => (c.known_hosts_files.len(), c.lookup_hosts.len()),
                    None => (0, 0),
                };
                if self.name_index + 1 < names_len {
                    self.name_index = self.name_index + 1;
                    Vec::new()
                } else if self.file_index + 1 < files_len {
                    self.name_index = 0;
                    self.file_index = self.file_index + 1;
                    Vec::new()
                } else {
                    self.finish_host()
                }
            },
        }
    }
}

// ---------------------------------------------------------------------------
// The collection as a whole
// ---------------------------------------------------------------------------

/// Where a collection stands, by its mathematical form: the remote host it stands on, the
/// configuration of that host once known (its host names and files) and the pair of a file
/// and a host name it searches, the entries found for the host so far, the entries of the
/// finished hosts, and whether it is finished.
#[verifier::ext_equal]
pub struct CollectionState {
    pub host_index: int,
    pub config: Option<(Seq<Seq<char>>, Seq<Seq<char>>)>,
    pub file_index: int,
    pub name_index: int,
    pub host_lines: Seq<Seq<char>>,
    pub lines: Seq<Seq<char>>,
    pub finished: bool,
}

/// The known_hosts names of remote hosts.
pub open spec fn host_names(hosts: Seq<SshRemoteHost>) -> Seq<Seq<char>> {
    hosts.map_values(|h: SshRemoteHost| known_host_text(h.config_host@, h.port))
}

/// A new collection for `n` remote hosts.
pub open spec fn initial_collection_state(n: nat) -> CollectionState {
    CollectionState {
        host_index: 0,
        config: None,
        file_index: 0,
        name_index: 0,
        host_lines: Seq::empty(),
        lines: Seq::empty(),
        finished: n == 0,
    }
}

/// The collection after the remote host it stands on is finished: its entries join the
/// others and the next host is taken, if any.
pub open spec fn finish_host_state(names: Seq<Seq<char>>, s: CollectionState) -> CollectionState {
    CollectionState {
        host_index: s.host_index + 1,
        config: None,
        host_lines: Seq::empty(),
        lines: s.lines + s.host_lines,
        finished: s.host_index + 1 == names.len(),
        ..s
    }
}

/// The collection after `ssh -G` answered `answer` for the remote host it stands on, and
/// the warnings that gives.
pub open spec fn config_step(
    names: Seq<Seq<char>>,
    fallback: Seq<Seq<char>>,
    s: CollectionState,
    answer: Result<SshHostConfig, SshConfigLookupError>,
) -> (CollectionState, Seq<Seq<char>>) {
    let name = names[s.host_index];
    let cfg = config_after(answer, name, fallback);
    let w = config_warnings(answer, name);
    if cfg.0.len() > 0 && cfg.1.len() > 0 {
        (CollectionState { config: Some(cfg), file_index: 0, name_index: 0, host_lines: Seq::empty(), ..s }, w)
    } else {
        (finish_host_state(names, CollectionState { host_lines: Seq::empty(), ..s }), w.push(no_entry_warning(name)))
    }
}

/// The collection after `ssh-keygen -F` answered `answer` for the pair it stands on, and
/// the warnings that gives.
pub open spec fn entries_step(
    names: Seq<Seq<char>>,
    s: CollectionState,
    answer: Result<Vec<String>, KnownHostsLookupError>,
) -> (CollectionState, Seq<Seq<char>>) {
    match answer {
        Err(KnownHostsLookupError::Unavailable(r)) => (
            CollectionState { lines: Seq::empty(), config: None, finished: true, ..s },
            seq![keygen_unavailable_warning(r@)],
        ),
        Err(KnownHostsLookupError::Failed(r)) => (
            CollectionState { lines: Seq::empty(), config: None, finished: true, ..s },
            seq![keygen_failed_warning(names[s.host_index], r@)],
        ),
        Ok(m) => {
            let found = s.host_lines + strings_view(m@);
            let names_len = match s.config { Some(c) => c.0.len() as int, None => 0 };
            let files_len = match s.config { Some(c) => c.1.len() as int, None => 0 };
            if s.name_index + 1 < names_len {
                (CollectionState { host_lines: found, name_index: s.name_index + 1, ..s }, Seq::empty())
            } else if s.file_index + 1 < files_len {
                (CollectionState { host_lines: found, name_index: 0, file_index: s.file_index + 1, ..s }, Seq::empty())
            } else {
                (
                    finish_host_state(names, CollectionState { host_lines: found, ..s }),
                    if found.len() == 0 { seq![no_entry_warning(names[s.host_index])] } else { Seq::empty() },
                )
            }
        },
    }
}

/// The outcome of running a collection from `s` on answers given beforehand, `ssh -G`'s
/// in `configs` and `ssh-keygen -F`'s in `entries`, each taken in the order asked: the
/// entries collected, the warnings, whether the collection finished before the answers
/// ran out, and how many answers of each kind it took.
pub open spec fn run_from(
    names: Seq<Seq<char>>,
    fallback: Seq<Seq<char>>,
    s: CollectionState,
    configs: Seq<Result<SshHostConfig, SshConfigLookupError>>,
    entries: Seq<Result<Vec<String>, KnownHostsLookupError>>,
) -> (Seq<Seq<char>>, Seq<Seq<char>>, bool, int, int)
    decreases configs.len() + entries.len(),
{
    if s.finished {
        (s.lines, Seq::empty(), true, 0, 0)
    } else if s.config is None {
        if configs.len() == 0 {
            (s.lines, Seq::empty(), false, 0, 0)
        } else {
            let (next, w) = config_step(names, fallback, s, configs[0]);
            let r = run_from(names, fallback, next, configs.drop_first(), entries);
            (r.0, w + r.1, r.2, r.3 + 1, r.4)
        }
    } else {
        if entries.len() == 0 {
            (s.lines, Seq::empty(), false, 0, 0)
        } else {
            let (next, w) = entries_step(names, s, entries[0]);
            let r = run_from(names, fallback, next, configs, entries.drop_first());
            (r.0, w + r.1, r.2, r.3, r.4 + 1)
        }
    }
}

impl HostKnownHostsLines {
    /// The mathematical form of where the collection stands.
    pub open spec fn state(&self) -> CollectionState {
        CollectionState {
            host_index: self.host_index as int,
            config: match self.config {
                Some(c) => Some(config_view(c)),
                None => None,
            },
            file_index: self.file_index as int,
            name_index: self.name_index as int,
            host_lines: strings_view(self.host_lines@),
            lines: strings_view(self.lines@),
            finished: self.finished,
        }
    }
}

/// The entries that `ssh-keygen -F` answers found, in the order they were asked.
pub open spec fn found_lines(answers: Seq<Result<Vec<String>, KnownHostsLookupError>>) -> Seq<Seq<char>>
    decreases answers.len(),
{
    if answers.len() == 0 {
        Seq::empty()
    } else {
        found_lines(answers.drop_last()) + match answers.last() {
            Ok(m) => strings_view(m@),
            Err(_) => Seq::empty(),
        }
    }
}

/// Some `ssh-keygen -F` answer is a failure.
pub open spec fn some_lookup_failed(answers: Seq<Result<Vec<String>, KnownHostsLookupError>>) -> bool {
    exists|i: int| 0 <= i < answers.len() && (#[trigger] answers[i]) is Err
}

/// A run of the collection on answers given beforehand: the entries, the warnings, whether
/// it finished before the answers ran out, and how many answers of each kind it took.
#[derive(Debug)]
pub struct KnownHostsRun {
    pub lines: Vec<String>,
    pub warnings: Vec<String>,
    pub complete: bool,
    pub configs_used: usize,
    pub entries_used: usize,
}

/// Runs the collection for `hosts` on answers given beforehand: `configs` are `ssh -G`'s
/// answers and `entries` `ssh-keygen -F`'s, each taken in the order the collection asks.
/// The run stops when the collection finishes, or, not complete, when the next answer it
/// needs is not there. Entries, warnings and the answers taken are those of `run_from`. A
/// complete run in which no search failed asked for each host's configuration once and
/// collected all the entries its searches found, in the order they were asked; after a
/// failed search there are none.
pub fn run_known_hosts_collection(
    hosts: Vec<SshRemoteHost>,
    fallback_files: Vec<String>,
    configs: Vec<Result<SshHostConfig, SshConfigLookupError>>,
    entries: Vec<Result<Vec<String>, KnownHostsLookupError>>,
) -> (run: KnownHostsRun)
    ensures
        ({
            let expected = run_from(
                host_names(hosts@),
                strings_view(fallback_files@),
                initial_collection_state(hosts@.len()),
                configs@,
                entries@,
            );
            &&& strings_view(run.lines@) == expected.0
            &&& strings_view(run.warnings@) == expected.1
            &&& run.complete == expected.2
            &&& run.configs_used == expected.3
            &&& run.entries_used == expected.4
        }),
        run.configs_used <= configs@.len(),
        run.entries_used <= entries@.len(),
        run.complete && !some_lookup_failed(entries@.take(run.entries_used as int)) ==> strings_view(run.lines@) == found_lines(entries@.take(run.entries_used as int)),
        run.complete && !some_lookup_failed(entries@.take(run.entries_used as int)) ==> run.configs_used == hosts@.len(),
        some_lookup_failed(entries@.take(run.entries_used as int)) ==> run.lines@.len() == 0,
{
    let ghost all_entries = entries@;
    let ghost all_configs = configs@;
    let ghost names = host_names(hosts@);
    let ghost fallback = strings_view(fallback_files@);
    let ghost expected = run_from(names, fallback, initial_collection_state(hosts@.len()), all_configs, all_entries);
    let mut config_answers = configs;
    let mut entry_answers = entries;
    let configs_total = config_answers.len();
    let entries_total = entry_answers.len();
    let mut c = HostKnownHostsLines::new(hosts, fallback_files);
    let mut warnings: Vec<String> = Vec::new();
    let mut configs_used: usize = 0;
    let mut entries_used: usize = 0;
    let ghost mut failed = false;
    assert(all_entries.take(0) =~= Seq::<Result<Vec<String>, KnownHostsLookupError>>::empty());
    assert(all_configs.skip(0) =~= all_configs);
    assert(all_entries.skip(0) =~= all_entries);
    proof {
        let r = run_from(names, fallback, c.state(), config_answers@, entry_answers@);
        assert(Seq::<Seq<char>>::empty() + r.1 =~= r.1);
    }
    while !c.finished
        invariant
            c.wf(),
            names == host_names(c.hosts@),
            fallback == strings_view(c.fallback_files@),
            all_configs == configs@,
            all_entries == entries@,
            expected == run_from(host_names(hosts@), strings_view(fallback_files@), initial_collection_state(hosts@.len()), configs@, entries@),
            all_configs.len() == configs_total,
            all_entries.len() == entries_total,
            configs_used <= all_configs.len(),
            entries_used <= all_entries.len(),
            config_answers@ == all_configs.skip(configs_used as int),
            entry_answers@ == all_entries.skip(entries_used as int),
            config_answers@.len() == all_configs.len() - configs_used,
            entry_answers@.len() == all_entries.len() - entries_used,
            ({
                let r = run_from(names, fallback, c.state(), config_answers@, entry_answers@);
                expected == (r.0, strings_view(warnings@) + r.1, r.2, r.3 + configs_used, r.4 + entries_used)
            }),
            !c.finished && c.config is None ==> c.host_lines@.len() == 0,
            c.finished && !failed ==> c.host_lines@.len() == 0,
            c.hosts@.len() == names.len(),
            !failed ==> configs_used == c.host_index + (if c.config is Some { 1int } else { 0int }),
            c.finished && !failed ==> c.host_index == names.len(),
            c.finished ==> c.config is None,
            failed == some_lookup_failed(all_entries.take(entries_used as int)),
            !failed ==> strings_view(c.lines@) + strings_view(c.host_lines@) == found_lines(all_entries.take(entries_used as int)),
            failed ==> c.finished && c.lines@.len() == 0,
        decreases config_answers@.len() + entry_answers@.len(),
    {
        if c.config.is_none() {
            if config_answers.len() == 0 {
                proof {
                    let r = run_from(names, fallback, c.state(), config_answers@, entry_answers@);
                    assert(strings_view(warnings@) + r.1 =~= strings_view(warnings@));
                    assert(configs_used <= all_configs.len());
                }
                return KnownHostsRun { lines: c.lines, warnings, complete: false, configs_used, entries_used };
            }
            let answer = config_answers.remove(0);
            let ghost s0 = c.state();
            let ghost w0 = strings_view(warnings@);
            proof {
                assert(all_configs.skip(configs_used + 1) =~= all_configs.skip(configs_used as int).drop_first());
            }
            configs_used = configs_used + 1;
            let mut more = c.config_found(answer);
            let ghost wm = strings_view(more@);
            warnings.append(&mut more);
            proof {
                assert(strings_view(warnings@) =~= w0 + wm);
                let r = run_from(names, fallback, c.state(), config_answers@, entry_answers@);
                assert(w0 + wm + r.1 =~= w0 + (wm + r.1));
            }
        } else {
            if entry_answers.len() == 0 {
                proof {
                    let r = run_from(names, fallback, c.state(), config_answers@, entry_answers@);
                    assert(strings_view(warnings@) + r.1 =~= strings_view(warnings@));
                    assert(configs_used <= all_configs.len());
                }
                return KnownHostsRun { lines: c.lines, warnings, complete: false, configs_used, entries_used };
            }
            let answer = entry_answers.remove(0);
            let ghost a = answer;
            let ghost before_lines = strings_view(c.lines@);
            let ghost before_host = strings_view(c.host_lines@);
            let ghost w0 = strings_view(warnings@);
            proof {
                assert(all_entries.skip(entries_used + 1) =~= all_entries.skip(entries_used as int).drop_first());
                assert(all_entries.take(entries_used + 1).drop_last() =~= all_entries.take(entries_used as int));
                assert(all_entries.take(entries_used + 1).last() == a);
                if some_lookup_failed(all_entries.take(entries_used + 1)) {
                    let i = choose|i: int| 0 <= i < all_entries.take(entries_used + 1).len() && (#[trigger] all_entries.take(entries_used + 1)[i]) is Err;
                    if i < entries_used {
                        assert(all_entries.take(entries_used as int)[i] is Err);
                    }
                }
                if some_lookup_failed(all_entries.take(entries_used as int)) {
                    let i = choose|i: int| 0 <= i < all_entries.take(entries_used as int).len() && (#[trigger] all_entries.take(entries_used as int)[i]) is Err;
                    assert(all_entries.take(entries_used + 1)[i] is Err);
                }
                if a is Err {
                    assert(all_entries.take(entries_used + 1)[entries_used as int] is Err);
                }
            }
            entries_used = entries_used + 1;
            let mut more = c.entries_found(answer);
            let ghost wm = strings_view(more@);
            proof {
                failed = some_lookup_failed(all_entries.take(entries_used as int));
                match a {
                    Ok(m) => {
                        assert(strings_view(c.lines@) + strings_view(c.host_lines@) =~= before_lines + before_host + strings_view(m@));
                    },
                    Err(_) => {},
                }
            }
            warnings.append(&mut more);
            proof {
                assert(strings_view(warnings@) =~= w0 + wm);
                let r = run_from(names, fallback, c.state(), config_answers@, entry_answers@);
                assert(w0 + wm + r.1 =~= w0 + (wm + r.1));
            }
        }
    }
    proof {
        let r = run_from(names, fallback, c.state(), config_answers@, entry_answers@);
        assert(strings_view(warnings@) + r.1 =~= strings_view(warnings@));
        if !failed {
            assert(strings_view(c.lines@) + strings_view(c.host_lines@) =~= strings_view(c.lines@));
        }
    }
    KnownHostsRun { lines: c.lines, warnings, complete: true, configs_used, entries_used }
}

} // verus!
