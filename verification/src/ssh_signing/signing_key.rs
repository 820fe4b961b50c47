//! The public key that Git's `user.signingkey` names, found one file operation at a time:
//! a key literal is kept as it is; a path to a `.pub` file is read; for any other path
//! the sibling `.pub` file is read if there is one, and a possible private key never is.

use vstd::prelude::*;

use crate::paths::{is_absolute_spec, join, join_spec};
use crate::text::{
    after_last, chars_eq, chars_of, concat2, concat3, has_prefix, has_suffix, lines, lines_chars, owned,
    slice_chars, starts_with, string_of, trim, trim_chars, words, words_chars,
};

verus! {

/// A value without its `key::` prefix, if it has one.
pub open spec fn without_key_prefix(v: Seq<char>) -> Seq<char> {
    if has_prefix(v, "key::"@) {
        v.skip(5)
    } else {
        v
    }
}

/// Whether a value is an SSH public key literal: its first word, after an optional
/// `key::` prefix, is `ssh-rsa`, `ssh-ed25519`, or starts with `ecdsa-sha2-` or `sk-`.
pub open spec fn is_ssh_public_key_literal_spec(value: Seq<char>) -> bool {
    let ws = words(without_key_prefix(value));
    ws.len() > 0 && (ws[0] == "ssh-rsa"@ || ws[0] == "ssh-ed25519"@ || has_prefix(ws[0], "ecdsa-sha2-"@)
        || has_prefix(ws[0], "sk-"@))
}

/// Whether a value is an SSH public key literal.
pub fn is_ssh_public_key_literal(value: &str) -> (r: bool)
    ensures
        r == is_ssh_public_key_literal_spec(value@),
{
    let cs = chars_of(value);
    let prefix = chars_of("key::");
    proof {
        reveal_strlit("key::");
    }
    let stripped = if starts_with(&cs, &prefix) {
        slice_chars(&cs, 5, cs.len())
    } else {
        slice_chars(&cs, 0, cs.len())
    };
    assert(stripped@ =~= without_key_prefix(value@));
    let ws = words_chars(&stripped);
    if ws.len() == 0 {
        return false;
    }
    let w = &ws[0];
    chars_eq(w, &chars_of("ssh-rsa")) || chars_eq(w, &chars_of("ssh-ed25519")) || starts_with(
        w,
        &chars_of("ecdsa-sha2-"),
    ) || starts_with(w, &chars_of("sk-"))
}

/// The path a `user.signingkey` value names: `~` is the home directory and `~/` starts
/// below it (none without a home, or for any other `~` form); a relative path lies below
/// the Git root.
pub open spec fn signing_key_path_spec(value: Seq<char>, git_root: Seq<char>, home: Option<Seq<char>>) -> Option<Seq<char>> {
    let path = if value == "~"@ {
        home
    } else if has_prefix(value, "~/"@) {
        match home {
            Some(h) => Some(join_spec(h, value.skip(2))),
            None => None,
        }
    } else if value.len() > 0 && value[0] == '~' {
        None
    } else {
        Some(value)
    };
    match path {
        Some(p) => Some(if is_absolute_spec(p) {
            p
        } else {
            join_spec(git_root, p)
        }),
        None => None,
    }
}

/// The path a `user.signingkey` value names, if it names one.
pub fn signing_key_path(value: &str, git_root: &str, home: Option<&str>) -> (r: Option<String>)
    ensures
        match (r, signing_key_path_spec(value@, git_root@, match home {
            Some(h) => Some(h@),
            None => None,
        })) {
            (Some(a), Some(b)) => a@ == b,
            (None, None) => true,
            _ => false,
        },
{
    let cs = chars_of(value);
    let path: String = if chars_eq(&cs, &chars_of("~")) {
        match home {
            Some(h) => owned(h),
            None => return None,
        }
    } else if starts_with(&cs, &chars_of("~/")) {
        proof {
            reveal_strlit("~/");
        }
        match home {
            Some(h) => {
                let rest = slice_chars(&cs, 2, cs.len());
                assert(rest@ =~= value@.skip(2));
                join(h, string_of(&rest).as_str())
            },
            None => return None,
        }
    } else if cs.len() > 0 && cs[0] == '~' {
        return None;
    } else {
        owned(value)
    };
    let pc = chars_of(path.as_str());
    if pc.len() > 0 && pc[0] == '/' {
        Some(path)
    } else {
        Some(join(git_root, path.as_str()))
    }
}

/// A path without its trailing slashes.
pub open spec fn without_trailing_slashes(p: Seq<char>) -> Seq<char>
    decreases p.len(),
{
    if p.len() > 0 && p.last() == '/' {
        without_trailing_slashes(p.drop_last())
    } else {
        p
    }
}

/// Whether a path's file name has the extension `pub`: it ends in `.pub` after a
/// non-empty stem.
pub open spec fn has_pub_extension(p: Seq<char>) -> bool {
    let name = after_last(without_trailing_slashes(p), '/');
    name.len() > 4 && has_suffix(name, ".pub"@)
}

fn has_pub_extension_exec(p: &str) -> (r: bool)
    ensures
        r == has_pub_extension(p@),
{
    let cs = chars_of(p);
    let mut end: usize = cs.len();
    assert(cs@.take(end as int) =~= cs@);
    while end > 0 && cs[end - 1] == '/'
        invariant
            end <= cs@.len(),
            without_trailing_slashes(cs@) == without_trailing_slashes(cs@.take(end as int)),
        decreases end,
    {
        assert(cs@.take(end as int).drop_last() =~= cs@.take(end - 1));
        end = end - 1;
    }
    assert(without_trailing_slashes(cs@.take(end as int)) == cs@.take(end as int));
    let trimmed = slice_chars(&cs, 0, end);
    assert(trimmed@ =~= cs@.take(end as int));
    let name = crate::text::after_last_char(&trimmed, '/');
    name.len() > 4 && crate::text::ends_with(&name, &chars_of(".pub"))
}

/// Whether a path names a `.pub` file: its file name ends in `.pub`.
pub open spec fn names_public_key_file(path: Seq<char>) -> bool {
    has_suffix(after_last(without_trailing_slashes(path), '/'), ".pub"@)
}

/// A path with `.pub` appended names a `.pub` file.
pub proof fn lemma_sibling_names_public_key_file(p: Seq<char>)
    ensures
        names_public_key_file(p + ".pub"@),
{
    reveal_strlit(".pub");
    let s = p + ".pub"@;
    assert(s.last() == 'b');
    assert(without_trailing_slashes(s) == s);
    crate::text::lemma_last_index(s, '/');
    let i = crate::text::last_index(s, '/');
    assert(s[s.len() - 1] == 'b' && s[s.len() - 2] == 'u' && s[s.len() - 3] == 'p' && s[s.len() - 4] == '.');
    assert(i < s.len() - 4);
    let name = after_last(s, '/');
    assert(name.skip(name.len() - 4) =~= ".pub"@);
}

/// The first line of a text that is not blank, trimmed.
pub open spec fn first_key_line(ls: Seq<Seq<char>>) -> Option<Seq<char>>
    decreases ls.len(),
{
    if ls.len() == 0 {
        None
    } else if trim(ls[0]).len() > 0 {
        Some(trim(ls[0]))
    } else {
        first_key_line(ls.skip(1))
    }
}

fn first_key_line_exec(c: &str) -> (r: Option<String>)
    ensures
        match (r, first_key_line(lines(c@))) {
            (Some(a), Some(b)) => a@ == b,
            (None, None) => true,
            _ => false,
        },
{
    let cs = chars_of(c);
    let ls = lines_chars(&cs);
    let ghost lv = lines(c@);
    let mut i: usize = 0;
    assert(lv.skip(0) =~= lv);
    while i < ls.len()
        invariant
            i <= ls@.len(),
            lv == lines(c@),
            ls@.len() == lv.len(),
            forall|k: int| 0 <= k < ls@.len() ==> #[trigger] ls@[k]@ == lv[k],
            first_key_line(lv) == first_key_line(lv.skip(i as int)),
        decreases ls.len() - i,
    {
        assert(lv.skip(i as int)[0] == lv[i as int]);
        assert(lv.skip(i as int).skip(1) =~= lv.skip(i + 1));
        assert(ls@[i as int]@ == lv[i as int]);
        let t = trim_chars(&ls[i]);
        assert(t@ == trim(lv.skip(i as int)[0]));
        if t.len() > 0 {
            assert(lv.skip(i as int).len() > 0);
            assert(first_key_line(lv.skip(i as int)) == Some(t@));
            let r = string_of(&t);
            return Some(r);
        }
        i = i + 1;
    }
    assert(lv.skip(i as int).len() == 0);
    None
}

/// The warning when a `user.signingkey` path cannot be resolved.
pub open spec fn unresolvable_key_warning(value: Seq<char>) -> Seq<char> {
    "could not resolve host Git config `user.signingkey` path `"@ + value
        + "`; skipping it for SSH commit signing passthrough"@
}

/// The warning when a `user.signingkey` path has no public key beside it.
pub open spec fn no_public_key_warning(path: Seq<char>, public_path: Seq<char>) -> Seq<char> {
    "host Git config `user.signingkey` points to `"@ + path
        + "`; not reading possible private key and no readable `"@ + public_path + "` was found"@
}

/// The warning when a public key file cannot be read.
pub open spec fn key_read_failed_warning(path: Seq<char>, error: Seq<char>) -> Seq<char> {
    "failed to read public SSH signing key `"@ + path + "` from host Git config: "@ + error
}

/// The warning when a public key file holds no key literal.
pub open spec fn not_a_key_warning(path: Seq<char>) -> Seq<char> {
    "public SSH signing key file `"@ + path + "` does not contain an SSH public key literal"@
}

/// What finding the public key does next.
#[derive(Debug)]
pub enum SigningKeyStep {
    /// Check whether this path is a file.
    CheckFile(String),
    /// Read the file at this path.
    ReadFile(String),
    /// The public key, if one was found.
    Done(Option<String>),
}

/// Where finding the public key stands.
#[derive(Debug, Clone, Copy, PartialEq, Eq, Structural)]
pub enum SigningKeyStage {
    CheckSibling,
    Reading,
    Done,
}

/// The finding of the public key a `user.signingkey` value names.
#[derive(Debug)]
pub struct SigningKeyLookup {
    pub path: String,
    pub read_path: String,
    pub stage: SigningKeyStage,
    pub key: Option<String>,
}

/// The public key found, as characters.
pub open spec fn found_view(k: Option<String>) -> Option<Seq<char>> {
    match k {
        Some(s) => Some(s@),
        None => None,
    }
}

impl SigningKeyLookup {
    /// Until finding is done, the file to check or read is a `.pub` file: a possible
    /// private key is never read.
    pub open spec fn wf(&self) -> bool {
        self.stage != SigningKeyStage::Done ==> names_public_key_file(self.read_path@)
    }

    fn done(key: Option<String>) -> (l: Self)
        ensures
            l.stage == SigningKeyStage::Done && l.key == key,
    {
        SigningKeyLookup { path: String::new(), read_path: String::new(), stage: SigningKeyStage::Done, key }
    }

    /// Starts from a `user.signingkey` value, trimmed: a blank value gives no key, a key
    /// literal is the key, a value naming no path gives none with a warning; a `.pub`
    /// path is read, and for any other path its sibling `.pub` file is looked for.
    pub fn start(value: &str, git_root: &str, home: Option<&str>) -> (r: (Self, Vec<String>))
        ensures
            r.0.wf(),
            ({
                let t = trim(value@);
                let h = match home {
                    Some(x) => Some(x@),
                    None => None,
                };
                if t.len() == 0 {
                    r.0.stage == SigningKeyStage::Done && r.0.key is None && r.1@.len() == 0
                } else if is_ssh_public_key_literal_spec(t) {
                    r.0.stage == SigningKeyStage::Done && found_view(r.0.key) == Some(t) && r.1@.len() == 0
                } else {
                    match signing_key_path_spec(t, git_root@, h) {
                        None => r.0.stage == SigningKeyStage::Done && r.0.key is None
                            && r.1@.len() == 1 && r.1@[0]@ == unresolvable_key_warning(t),
                        Some(p) => r.0.path@ == p && r.1@.len() == 0 && if has_pub_extension(p) {
                            r.0.stage == SigningKeyStage::Reading && r.0.read_path@ == p
                        } else {
                            r.0.stage == SigningKeyStage::CheckSibling && r.0.read_path@ == p + ".pub"@
                        },
                    }
                }
            }),
    {
        let t = string_of(&trim_chars(&chars_of(value)));
        if chars_of(t.as_str()).len() == 0 {
            return (Self::done(None), Vec::new());
        }
        if is_ssh_public_key_literal(t.as_str()) {
            return (Self::done(Some(t)), Vec::new());
        }
        match signing_key_path(t.as_str(), git_root, home) {
            None => {
                let mut w: Vec<String> = Vec::new();
                w.push(concat3(
                    "could not resolve host Git config `user.signingkey` path `",
                    t.as_str(),
                    "`; skipping it for SSH commit signing passthrough",
                ));
                (Self::done(None), w)
            },
            Some(p) => {
                if has_pub_extension_exec(p.as_str()) {
                    let read_path = p.clone();
                    assert(names_public_key_file(read_path@));
                    (SigningKeyLookup { path: p, read_path, stage: SigningKeyStage::Reading, key: None }, Vec::new())
                } else {
                    let read_path = concat2(p.as_str(), ".pub");
                    proof {
                        lemma_sibling_names_public_key_file(p@);
                    }
                    (SigningKeyLookup { path: p, read_path, stage: SigningKeyStage::CheckSibling, key: None }, Vec::new())
                }
            },
        }
    }

    /// The next file operation, or the key once finding is done.
    pub fn next_step(&self) -> (r: SigningKeyStep)
        requires
            self.wf(),
        ensures
            r matches SigningKeyStep::ReadFile(p) ==> names_public_key_file(p@),
            self.stage == SigningKeyStage::CheckSibling ==> (r matches SigningKeyStep::CheckFile(p) && p@ == self.read_path@),
            self.stage == SigningKeyStage::Reading ==> (r matches SigningKeyStep::ReadFile(p) && p@ == self.read_path@),
            self.stage == SigningKeyStage::Done ==> (r matches SigningKeyStep::Done(k) && found_view(k) == found_view(self.key)),
    {
        match self.stage {
            SigningKeyStage::CheckSibling => SigningKeyStep::CheckFile(self.read_path.clone()),
            SigningKeyStage::Reading => SigningKeyStep::ReadFile(self.read_path.clone()),
            SigningKeyStage::Done => SigningKeyStep::Done(match &self.key {
                Some(k) => Some(k.clone()),
                None => None,
            }),
        }
    }

    /// Takes whether the sibling `.pub` file exists: it is read if it does; otherwise no
    /// key is found, with a warning.
    pub fn check_finished(&mut self, is_file: bool) -> (warnings: Vec<String>)
        requires
            old(self).stage == SigningKeyStage::CheckSibling,
            old(self).wf(),
        ensures
            final(self).wf(),
            final(self).path@ == old(self).path@,
            final(self).read_path@ == old(self).read_path@,
            is_file ==> final(self).stage == SigningKeyStage::Reading && warnings@.len() == 0,
            !is_file ==> final(self).stage == SigningKeyStage::Done && final(self).key is None
                && warnings@.len() == 1 && warnings@[0]@ == no_public_key_warning(old(self).path@, old(self).read_path@),
    {
        let mut w: Vec<String> = Vec::new();
        if is_file {
            self.stage = SigningKeyStage::Reading;
        } else {
            let mut out: Vec<char> = Vec::new();
            crate::text::push_str(&mut out, "host Git config `user.signingkey` points to `");
            crate::text::push_str(&mut out, self.path.as_str());
            crate::text::push_str(&mut out, "`; not reading possible private key and no readable `");
            crate::text::push_str(&mut out, self.read_path.as_str());
            crate::text::push_str(&mut out, "` was found");
            assert(out@ =~= no_public_key_warning(self.path@, self.read_path@));
            w.push(string_of(&out));
            self.key = None;
            self.stage = SigningKeyStage::Done;
        }
        w
    }

    /// Takes what reading the public key file gave: its first non-blank line, trimmed, is
    /// the key if it is a key literal. An unreadable file or one without a literal gives a
    /// warning.
    pub fn read_finished(&mut self, contents: Result<String, String>) -> (warnings: Vec<String>)
        requires
            old(self).stage == SigningKeyStage::Reading,
        ensures
            final(self).wf(),
            final(self).stage == SigningKeyStage::Done,
            match contents {
                Err(e) => final(self).key is None && warnings@.len() == 1
                    && warnings@[0]@ == key_read_failed_warning(old(self).read_path@, e@),
                Ok(c) => match first_key_line(lines(c@)) {
                    None => final(self).key is None && warnings@.len() == 0,
                    Some(k) => if is_ssh_public_key_literal_spec(k) {
                        found_view(final(self).key) == Some(k) && warnings@.len() == 0
                    } else {
                        final(self).key is None && warnings@.len() == 1
                            && warnings@[0]@ == not_a_key_warning(old(self).read_path@)
                    },
                },
            },
    {
        let mut w: Vec<String> = Vec::new();
        self.stage = SigningKeyStage::Done;
        self.key = None;
        match contents {
            Err(e) => {
                let mut out: Vec<char> = Vec::new();
                crate::text::push_str(&mut out, "failed to read public SSH signing key `");
                crate::text::push_str(&mut out, self.read_path.as_str());
                crate::text::push_str(&mut out, "` from host Git config: ");
                crate::text::push_str(&mut out, e.as_str());
                assert(out@ =~= key_read_failed_warning(self.read_path@, e@));
                w.push(string_of(&out));
            },
            Ok(c) => match first_key_line_exec(c.as_str()) {
                None => {},
                Some(key) => {
                    if is_ssh_public_key_literal(key.as_str()) {
                        self.key = Some(key);
                    } else {
                        w.push(concat3(
                            "public SSH signing key file `",
                            self.read_path.as_str(),
                            "` does not contain an SSH public key literal",
                        ));
                    }
                },
            },
        }
        w
    }
}

} // verus!
