//! The SSH hosts that a repository's Git remotes point at.

use vstd::prelude::*;

use crate::text::{
    lines, lines_chars, words, words_chars,
    after_last, after_last_char, before_first, before_first_char, chars_of, contains_char, decimal,
    decimal_chars, has_prefix, parse_u16, parse_unsigned, push_chars, push_str, rsplit_once,
    rsplit_once_char, slice_chars, split_once, split_once_char, starts_with, string_of,
};

verus! {

/// A remote's SSH host, as SSH configuration knows it, and its port when the URL gives one.
#[derive(Debug, PartialEq, Eq, Hash)]
pub struct SshRemoteHost {
    pub config_host: String,
    pub port: Option<u16>,
}

impl Clone for SshRemoteHost {
    /// The same host.
    fn clone(&self) -> (r: Self)
        ensures
            r.config_host@ == self.config_host@,
            r.port == self.port,
    {
        SshRemoteHost { config_host: self.config_host.clone(), port: self.port }
    }
}

/// A remote host as its host name and port.
pub open spec fn host_view(h: SshRemoteHost) -> (Seq<char>, Option<u16>) {
    (h.config_host@, h.port)
}

/// The name of a host in a known_hosts file: the host itself on the default port,
/// `[host]:port` otherwise.
pub open spec fn known_host_text(host: Seq<char>, port: Option<u16>) -> Seq<char> {
    match port {
        None => host,
        Some(p) => if p == 22 {
            host
        } else {
            "["@ + host + "]:"@ + decimal(p as nat)
        },
    }
}

/// A port number: what `str::parse::<u16>` accepts.
pub open spec fn port_spec(s: Seq<char>) -> Option<u16> {
    match parse_unsigned(s, 65535) {
        Some(v) => Some(v as u16),
        None => None,
    }
}

/// Whether `s` holds `://`.
pub open spec fn has_scheme_separator(s: Seq<char>) -> bool {
    exists|i: int| 0 <= i && i + 3 <= s.len() && #[trigger] s[i] == ':' && s[i + 1] == '/' && s[i + 2] == '/'
}

/// The host of the rest of an `ssh://` URL: its authority (up to the first `/`), without a
/// user (up to the last `@`), either `[host]` with an optional `:port`, or `host` with an
/// optional `:port` when the host holds no other `:`.
pub open spec fn url_host_spec(rest: Seq<char>) -> Option<(Seq<char>, Option<u16>)> {
    let authority = before_first(rest, '/');
    if authority.len() == 0 {
        None
    } else {
        let authority = after_last(authority, '@');
        if authority.len() == 0 {
            None
        } else if authority[0] == '[' {
            match split_once(authority.drop_first(), ']') {
                None => None,
                Some((host, remainder)) => if host.len() == 0 {
                    None
                } else {
                    Some((host, if remainder.len() > 0 && remainder[0] == ':' { port_spec(remainder.drop_first()) } else { None }))
                },
            }
        } else {
            let (host, port) = match rsplit_once(authority, ':') {
                Some((h, p)) => if !h.contains(':') {
                    (h, port_spec(p))
                } else {
                    (authority, None)
                },
                None => (authority, None),
            };
            if host.len() == 0 {
                None
            } else {
                Some((host, port))
            }
        }
    }
}

/// The host of an scp-like remote `[user@]host:path`.
pub open spec fn scp_host_spec(url: Seq<char>) -> Option<(Seq<char>, Option<u16>)> {
    if has_scheme_separator(url) {
        None
    } else {
        match split_once(url, ':') {
            None => None,
            Some((host, _)) => if host.len() == 0 || host.contains('/') {
                None
            } else {
                let host = after_last(host, '@');
                if host.len() == 0 {
                    None
                } else {
                    Some((host, None))
                }
            },
        }
    }
}

/// The SSH host of a remote URL: an `ssh://` or `git+ssh://` URL, or an scp-like remote.
pub open spec fn remote_host_spec(url: Seq<char>) -> Option<(Seq<char>, Option<u16>)> {
    if has_prefix(url, "ssh://"@) {
        url_host_spec(url.skip(6))
    } else if has_prefix(url, "git+ssh://"@) {
        url_host_spec(url.skip(10))
    } else {
        scp_host_spec(url)
    }
}

/// The SSH hosts of remote URLs, in order, each once.
pub open spec fn remote_hosts_spec(urls: Seq<Seq<char>>) -> Seq<(Seq<char>, Option<u16>)>
    decreases urls.len(),
{
    if urls.len() == 0 {
        Seq::empty()
    } else {
        let before = remote_hosts_spec(urls.drop_last());
        match remote_host_spec(urls.last()) {
            Some(h) => if before.contains(h) {
                before
            } else {
                before.push(h)
            },
            None => before,
        }
    }
}

/// A port number.
pub fn parse_port(port: &str) -> (r: Option<u16>)
    ensures
        r == port_spec(port@),
{
    let cs = chars_of(port);
    parse_u16(&cs)
}

fn parse_port_chars(port: &[char]) -> (r: Option<u16>)
    ensures
        r == port_spec(port@),
{
    parse_u16(port)
}

/// The name of a host in a known_hosts file.
pub fn format_known_host(host: &str, port: Option<u16>) -> (r: String)
    ensures
        r@ == known_host_text(host@, port),
{
    match port {
        None => crate::text::owned(host),
        Some(p) => if p == 22 {
            crate::text::owned(host)
        } else {
            let mut out: Vec<char> = Vec::new();
            push_str(&mut out, "[");
            push_str(&mut out, host);
            push_str(&mut out, "]:");
            let d = decimal_chars(p as u64);
            push_chars(&mut out, &d);
            string_of(&out)
        },
    }
}

impl SshRemoteHost {
    /// The host's name in a known_hosts file.
    pub fn known_hosts_name(&self) -> (r: String)
        ensures
            r@ == known_host_text(self.config_host@, self.port),
    {
        format_known_host(self.config_host.as_str(), self.port)
    }
}

fn has_scheme_separator_exec(s: &[char]) -> (r: bool)
    ensures
        r == has_scheme_separator(s@),
{
    if s.len() < 3 {
        return false;
    }
    let mut i: usize = 0;
    while i <= s.len() - 3
        invariant
            s@.len() >= 3,
            forall|k: int| 0 <= k < i && k + 3 <= s@.len() ==> !(#[trigger] s@[k] == ':' && s@[k + 1] == '/' && s@[k + 2] == '/'),
        decreases s.len() - i,
    {
        if s[i] == ':' && s[i + 1] == '/' && s[i + 2] == '/' {
            return true;
        }
        i = i + 1;
    }
    false
}

fn ssh_url_host(rest: &[char]) -> (r: Option<SshRemoteHost>)
    ensures
        match url_host_spec(rest@) {
            Some(h) => r matches Some(x) && host_view(x) == h,
            None => r is None,
        },
{
    let authority = before_first_char(rest, '/');
    if authority.len() == 0 {
        return None;
    }
    let authority = after_last_char(&authority, '@');
    if authority.len() == 0 {
        return None;
    }
    if authority[0] == '[' {
        let after = slice_chars(&authority, 1, authority.len());
        assert(after@ =~= authority@.drop_first());
        return match split_once_char(&after, ']') {
            None => None,
            Some((host, remainder)) => {
                if host.len() == 0 {
                    None
                } else {
                    let port = if remainder.len() > 0 && remainder[0] == ':' {
                        let p = slice_chars(&remainder, 1, remainder.len());
                        assert(p@ =~= remainder@.drop_first());
                        parse_port_chars(&p)
                    } else {
                        None
                    };
                    Some(SshRemoteHost { config_host: string_of(&host), port })
                }
            },
        };
    }
    let (host, port) = match rsplit_once_char(&authority, ':') {
        Some((h, p)) => if !contains_char(&h, ':') {
            let port = parse_port_chars(&p);
            (h, port)
        } else {
            (authority, None)
        },
        None => (authority, None),
    };
    if host.len() == 0 {
        None
    } else {
        Some(SshRemoteHost { config_host: string_of(&host), port })
    }
}

fn scp_like_host(url: &[char]) -> (r: Option<SshRemoteHost>)
    ensures
        match scp_host_spec(url@) {
            Some(h) => r matches Some(x) && host_view(x) == h,
            None => r is None,
        },
{
    if has_scheme_separator_exec(url) {
        return None;
    }
    match split_once_char(url, ':') {
        None => None,
        Some((host, _path)) => {
            if host.len() == 0 || contains_char(&host, '/') {
                return None;
            }
            let host = after_last_char(&host, '@');
            if host.len() == 0 {
                None
            } else {
                Some(SshRemoteHost { config_host: string_of(&host), port: None })
            }
        },
    }
}

/// The SSH host of a remote URL, if it has one.
pub fn ssh_remote_host(url: &str) -> (r: Option<SshRemoteHost>)
    ensures
        match remote_host_spec(url@) {
            Some(h) => r matches Some(x) && host_view(x) == h,
            None => r is None,
        },
{
    let cs = chars_of(url);
    let ssh: Vec<char> = chars_of("ssh://");
    let git_ssh: Vec<char> = chars_of("git+ssh://");
    proof {
        reveal_strlit("ssh://");
        reveal_strlit("git+ssh://");
    }
    if starts_with(&cs, &ssh) {
        let rest = slice_chars(&cs, 6, cs.len());
        assert(rest@ =~= cs@.skip(6));
        return ssh_url_host(&rest);
    }
    if starts_with(&cs, &git_ssh) {
        let rest = slice_chars(&cs, 10, cs.len());
        assert(rest@ =~= cs@.skip(10));
        return ssh_url_host(&rest);
    }
    scp_like_host(&cs)
}

/// The SSH hosts of remote URLs, in the order of the URLs, each once.
pub fn ssh_remote_hosts(urls: &Vec<String>) -> (r: Vec<SshRemoteHost>)
    ensures
        r@.map_values(|h: SshRemoteHost| host_view(h)) == remote_hosts_spec(urls@.map_values(|u: String| u@)),
        forall|i: int| 0 <= i < urls@.len() ==> match remote_host_spec(#[trigger] urls@[i]@) {
            Some(h) => r@.map_values(|x: SshRemoteHost| host_view(x)).contains(h),
            None => true,
        },
        r@.map_values(|x: SshRemoteHost| host_view(x)).no_duplicates(),
{
    let ghost uv = urls@.map_values(|u: String| u@);
    let mut hosts: Vec<SshRemoteHost> = Vec::new();
    let mut i: usize = 0;
    while i < urls.len()
        invariant
            i <= urls@.len(),
            uv == urls@.map_values(|u: String| u@),
            hosts@.map_values(|h: SshRemoteHost| host_view(h)) == remote_hosts_spec(uv.take(i as int)),
        decreases urls.len() - i,
    {
        proof {
            assert(uv.take(i + 1).drop_last() =~= uv.take(i as int));
        }
        let ghost hv = hosts@.map_values(|h: SshRemoteHost| host_view(h));
        match ssh_remote_host(urls[i].as_str()) {
            Some(host) => {
                let mut seen = false;
                let mut k: usize = 0;
                while k < hosts.len()
                    invariant
                        k <= hosts@.len(),
                        hv == hosts@.map_values(|h: SshRemoteHost| host_view(h)),
                        seen == exists|j: int| 0 <= j < k && hv[j] == host_view(host),
                    decreases hosts.len() - k,
                {
                    if !seen && hosts[k].port == host.port && crate::text::str_eq(hosts[k].config_host.as_str(), host.config_host.as_str()) {
                        seen = true;
                    }
                    proof {
                        if !seen {
                            assert(!(hv[k as int] == host_view(host)));
                        }
                        if seen && !(exists|j: int| 0 <= j < k && hv[j] == host_view(host)) {
                            assert(hv[k as int] == host_view(host));
                        }
                    }
                    k = k + 1;
                }
                proof {
                    if seen {
                        let j = choose|j: int| 0 <= j < hosts@.len() && hv[j] == host_view(host);
                        assert(hv.contains(host_view(host)));
                    } else {
                        assert(!hv.contains(host_view(host)));
                    }
                }
                if !seen {
                    hosts.push(host);
                    assert(hosts@.map_values(|h: SshRemoteHost| host_view(h)) =~= hv.push(host_view(host)));
                }
            },
            None => {},
        }
        i = i + 1;
    }
    assert(uv.take(urls@.len() as int) =~= uv);
    proof {
        lemma_remote_hosts_cover_every_remote(uv);
        lemma_remote_hosts_unique(uv);
        assert forall|i: int| 0 <= i < urls@.len() implies match remote_host_spec(#[trigger] urls@[i]@) {
            Some(h) => hosts@.map_values(|x: SshRemoteHost| host_view(x)).contains(h),
            None => true,
        } by {
            assert(uv[i] == urls@[i]@);
        }
    }
    hosts
}

/// The known_hosts names of remote URLs' SSH hosts, in the order of the URLs, each once.
pub open spec fn remote_host_names_spec(urls: Seq<Seq<char>>) -> Seq<Seq<char>>
    decreases urls.len(),
{
    if urls.len() == 0 {
        Seq::empty()
    } else {
        let before = remote_host_names_spec(urls.drop_last());
        match remote_host_spec(urls.last()) {
            Some((h, p)) => if before.contains(known_host_text(h, p)) {
                before
            } else {
                before.push(known_host_text(h, p))
            },
            None => before,
        }
    }
}

/// The known_hosts names of remote URLs' SSH hosts, in the order of the URLs, each once.
pub fn ssh_remote_host_names(urls: &Vec<String>) -> (r: Vec<String>)
    ensures
        crate::order::strings_view(r@) == remote_host_names_spec(urls@.map_values(|u: String| u@)),
{
    let ghost uv = urls@.map_values(|u: String| u@);
    let mut names: Vec<String> = Vec::new();
    let mut i: usize = 0;
    while i < urls.len()
        invariant
            i <= urls@.len(),
            uv == urls@.map_values(|u: String| u@),
            crate::order::strings_view(names@) == remote_host_names_spec(uv.take(i as int)),
        decreases urls.len() - i,
    {
        proof {
            assert(uv.take(i + 1).drop_last() =~= uv.take(i as int));
        }
        match ssh_remote_host(urls[i].as_str()) {
            Some(host) => {
                let name = host.known_hosts_name();
                let ghost nv = crate::order::strings_view(names@);
                let mut seen = false;
                let mut k: usize = 0;
                while k < names.len()
                    invariant
                        k <= names@.len(),
                        nv == crate::order::strings_view(names@),
                        seen == exists|j: int| 0 <= j < k && nv[j] == name@,
                    decreases names.len() - k,
                {
                    if !seen && crate::text::str_eq(names[k].as_str(), name.as_str()) {
                        seen = true;
                    }
                    proof {
                        if !seen {
                            assert(!(nv[k as int] == name@));
                        }
                        if seen && !(exists|j: int| 0 <= j < k && nv[j] == name@) {
                            assert(nv[k as int] == name@);
                        }
                    }
                    k = k + 1;
                }
                proof {
                    if seen {
                        let j = choose|j: int| 0 <= j < names@.len() && nv[j] == name@;
                        assert(nv.contains(name@));
                    }
                }
                if !seen {
                    names.push(name);
                    assert(crate::order::strings_view(names@) =~= nv.push(name@));
                }
            },
            None => {},
        }
        i = i + 1;
    }
    assert(uv.take(urls@.len() as int) =~= uv);
    names
}

/// No host occurs twice among the hosts of remote URLs.
pub proof fn lemma_remote_hosts_unique(urls: Seq<Seq<char>>)
    ensures
        remote_hosts_spec(urls).no_duplicates(),
    decreases urls.len(),
{
    if urls.len() > 0 {
        lemma_remote_hosts_unique(urls.drop_last());
        let before = remote_hosts_spec(urls.drop_last());
        match remote_host_spec(urls.last()) {
            Some(h) => if !before.contains(h) {
                assert forall|i: int, j: int| 0 <= i < j < before.push(h).len() implies before.push(h)[i] != before.push(h)[j] by {
                    if j == before.len() {
                        assert(before[i] != h);
                    }
                }
            },
            None => {},
        }
    }
}

/// Every SSH host a remote URL names is among the remote hosts, and every remote host is
/// named by some URL.
pub proof fn lemma_remote_hosts_cover_every_remote(urls: Seq<Seq<char>>)
    ensures
        forall|i: int| #![trigger urls[i]] 0 <= i < urls.len() ==> match remote_host_spec(urls[i]) {
            Some(h) => remote_hosts_spec(urls).contains(h),
            None => true,
        },
        forall|k: int| #![trigger remote_hosts_spec(urls)[k]] 0 <= k < remote_hosts_spec(urls).len()
            ==> exists|i: int| 0 <= i < urls.len() && remote_host_spec(urls[i]) == Some(remote_hosts_spec(urls)[k]),
    decreases urls.len(),
{
    if urls.len() > 0 {
        let rest = urls.drop_last();
        lemma_remote_hosts_cover_every_remote(rest);
        let before = remote_hosts_spec(rest);
        let res = remote_hosts_spec(urls);
        assert forall|i: int| #![trigger urls[i]] 0 <= i < urls.len() implies match remote_host_spec(urls[i]) {
            Some(h) => res.contains(h),
            None => true,
        } by {
            if i < urls.len() - 1 {
                assert(rest[i] == urls[i]);
                match remote_host_spec(urls[i]) {
                    Some(h) => {
                        assert(before.contains(h));
                        let k = choose|k: int| 0 <= k < before.len() && before[k] == h;
                        match remote_host_spec(urls.last()) {
                            Some(g) => if !before.contains(g) {
                                assert(res[k] == h);
                            },
                            None => {},
                        }
                    },
                    None => {},
                }
            } else {
                match remote_host_spec(urls.last()) {
                    Some(g) => if !before.contains(g) {
                        assert(res[before.len() as int] == g);
                    },
                    None => {},
                }
            }
        }
        assert forall|k: int| #![trigger res[k]] 0 <= k < res.len()
            implies exists|i: int| 0 <= i < urls.len() && remote_host_spec(urls[i]) == Some(res[k]) by {
            if k < before.len() {
                assert(res[k] == before[k]);
                let i = choose|i: int| 0 <= i < rest.len() && remote_host_spec(rest[i]) == Some(before[k]);
                assert(urls[i] == rest[i]);
            } else {
                assert(remote_host_spec(urls[urls.len() - 1]) == Some(res[k]));
            }
        }
    }
}

/// The remote hosts come in the order the URLs first name them: of two hosts, the earlier
/// is named by some URL before any URL names the later.
pub proof fn lemma_remote_hosts_in_first_appearance_order(urls: Seq<Seq<char>>)
    ensures
        forall|a: int, b: int| #![trigger remote_hosts_spec(urls)[a], remote_hosts_spec(urls)[b]]
            0 <= a < b < remote_hosts_spec(urls).len() ==> exists|i: int| 0 <= i < urls.len()
                && remote_host_spec(urls[i]) == Some(remote_hosts_spec(urls)[a])
                && forall|j: int| 0 <= j <= i ==> remote_host_spec(#[trigger] urls[j]) != Some(remote_hosts_spec(urls)[b]),
    decreases urls.len(),
{
    if urls.len() > 0 {
        let rest = urls.drop_last();
        lemma_remote_hosts_in_first_appearance_order(rest);
        lemma_remote_hosts_cover_every_remote(rest);
        let before = remote_hosts_spec(rest);
        let res = remote_hosts_spec(urls);
        assert forall|a: int, b: int| #![trigger res[a], res[b]] 0 <= a < b < res.len() implies exists|i: int| 0 <= i < urls.len()
            && remote_host_spec(urls[i]) == Some(res[a])
            && forall|j: int| 0 <= j <= i ==> remote_host_spec(#[trigger] urls[j]) != Some(res[b]) by {
            assert(res[a] == before[a]);
            if b < before.len() {
                assert(res[b] == before[b]);
                let i = choose|i: int| 0 <= i < rest.len() && remote_host_spec(rest[i]) == Some(before[a])
                    && forall|j: int| 0 <= j <= i ==> remote_host_spec(#[trigger] rest[j]) != Some(before[b]);
                assert forall|j: int| 0 <= j <= i implies remote_host_spec(#[trigger] urls[j]) != Some(res[b]) by {
                    assert(urls[j] == rest[j]);
                }
                assert(urls[i] == rest[i]);
            } else {
                let h = res[b];
                assert(!before.contains(h));
                let i = choose|i: int| 0 <= i < rest.len() && remote_host_spec(rest[i]) == Some(before[a]);
                assert(urls[i] == rest[i]);
                assert forall|j: int| 0 <= j <= i implies remote_host_spec(#[trigger] urls[j]) != Some(res[b]) by {
                    assert(urls[j] == rest[j]);
                    if remote_host_spec(rest[j]) == Some(h) {
                        assert(before.contains(h));
                    }
                }
            }
        }
    }
}

// ---------------------------------------------------------------------------
// Remote listings
// ---------------------------------------------------------------------------

/// The URLs of lines of a `git remote -v` listing: the second word of each line that has
/// one, in order.
pub open spec fn urls_of_lines(ls: Seq<Seq<char>>) -> Seq<Seq<char>>
    decreases ls.len(),
{
    if ls.len() == 0 {
        Seq::empty()
    } else {
        let w = words(ls.last());
        urls_of_lines(ls.drop_last()) + if w.len() >= 2 { seq![w[1]] } else { Seq::empty() }
    }
}

/// The remote URLs a `git remote -v` listing names (`name<TAB>url (fetch)` per line).
pub fn remote_urls_from_listing(listing: &str) -> (r: Vec<String>)
    ensures
        r@.map_values(|s: String| s@) == urls_of_lines(lines(listing@)),
{
    let cs = chars_of(listing);
    let ls = lines_chars(cs.as_slice());
    let ghost lv = lines(listing@);
    let mut r: Vec<String> = Vec::new();
    let mut i: usize = 0;
    while i < ls.len()
        invariant
            i <= ls@.len(),
            ls@.len() == lv.len(),
            forall|k: int| 0 <= k < ls@.len() ==> #[trigger] ls@[k]@ == lv[k],
            r@.map_values(|s: String| s@) == urls_of_lines(lv.take(i as int)),
        decreases ls.len() - i,
    {
        let w = words_chars(ls[i].as_slice());
        let ghost before = r@.map_values(|s: String| s@);
        proof {
            assert(lv.take(i + 1).drop_last() =~= lv.take(i as int));
            assert(lv.take(i + 1).last() == ls@[i as int]@);
        }
        if w.len() >= 2 {
            r.push(string_of(w[1].as_slice()));
            assert(r@.map_values(|s: String| s@) =~= before + seq![w@[1]@]);
        } else {
            assert(r@.map_values(|s: String| s@) =~= before + Seq::<Seq<char>>::empty());
        }
        i = i + 1;
    }
    assert(lv.take(ls@.len() as int) =~= lv);
    r
}

} // verus!
