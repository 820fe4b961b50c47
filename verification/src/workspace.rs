//! Workspace identity: the digests of a canonical Git root and the container names derived
//! from them.

use sha2::{Digest, Sha256};
use vstd::prelude::*;
use vstd::utf8::encode_utf8;

use crate::error::AgentboxError;
use crate::paths::{is_or_descendant, is_or_descendant_spec};
use crate::text::{
    char_from_ascii, chars_of, has_prefix, is_hex_digit, lemma_last_index, rsplit_once,
    rsplit_once_char, starts_with, string_of,
};

verus! {

/// The prefix of every container and volume name that agentbox derives from a Git root.
pub const CONTAINER_PREFIX: &'static str = "agentbox-";

/// How many hexadecimal digits of the root digest a stable id keeps.
pub const GIT_ROOT_HASH_LEN: usize = 12;

/// The longest container name that agentbox generates.
pub const MAX_CONTAINER_NAME_LEN: usize = 63;

/// The characters of [`CONTAINER_PREFIX`].
pub open spec fn container_prefix() -> Seq<char> {
    seq!['a', 'g', 'e', 'n', 't', 'b', 'o', 'x', '-']
}

/// The SHA-256 digest of `bytes`.
pub uninterp spec fn sha256_digest(bytes: Seq<u8>) -> [u8; 32];

/// `sha2::Sha256::digest`: the SHA-256 digest of `bytes`, 32 bytes long. The digest itself is
/// named, not described: Verus knows only that the same bytes give the same digest.
pub fn sha256_bytes(bytes: &[u8]) -> (r: [u8; 32])
    ensures
        r == sha256_digest(bytes@),
{
    sha256_wrapper(bytes)
}

#[verifier::external_body]
fn sha256_wrapper(bytes: &[u8]) -> (r: [u8; 32])
    ensures
        r == sha256_digest(bytes@),
{
    Sha256::digest(bytes).into()
}

// ---------------------------------------------------------------------------
// Hexadecimal digests
// ---------------------------------------------------------------------------

/// The lower-case hexadecimal digit for `n < 16`.
pub open spec fn hex_digit(n: int) -> char {
    if n < 10 {
        (48 + n) as char
    } else {
        (87 + n) as char
    }
}

/// `bytes` written as two lower-case hexadecimal digits each, high nibble first
/// (`format!("{byte:02x}")` for every byte).
pub open spec fn hex_of(bytes: Seq<u8>) -> Seq<char> {
    Seq::new(
        2 * bytes.len(),
        |i: int|
            if i % 2 == 0 {
                hex_digit(bytes[i / 2] as int / 16)
            } else {
                hex_digit(bytes[i / 2] as int % 16)
            },
    )
}

/// A lower-case ASCII hexadecimal digit.
pub open spec fn is_lower_hex(c: char) -> bool {
    ('0' <= c && c <= '9') || ('a' <= c && c <= 'f')
}

/// The hexadecimal form of a digest has two characters per byte, each a lower-case
/// hexadecimal digit.
pub proof fn lemma_hex_of_shape(bytes: Seq<u8>)
    ensures
        hex_of(bytes).len() == 2 * bytes.len(),
        forall|i: int| 0 <= i < hex_of(bytes).len() ==> is_lower_hex(#[trigger] hex_of(bytes)[i]),
{
    assert forall|i: int| 0 <= i < hex_of(bytes).len() implies is_lower_hex(
        #[trigger] hex_of(bytes)[i],
    ) by {
        let b = bytes[i / 2] as int;
        assert(0 <= b / 16 < 16);
        assert(0 <= b % 16 < 16);
    }
}

fn hex_digit_char(n: u8) -> (c: char)
    requires
        n < 16,
    ensures
        c == hex_digit(n as int),
{
    if n < 10 {
        char_from_ascii(48 + n as u32)
    } else {
        char_from_ascii(87 + n as u32)
    }
}

fn push_hex(out: &mut Vec<char>, bytes: &[u8])
    ensures
        final(out)@ == old(out)@ + hex_of(bytes@),
{
    let ghost start = out@;
    let mut i: usize = 0;
    while i < bytes.len()
        invariant
            i <= bytes.len(),
            out@ == start + hex_of(bytes@.take(i as int)),
        decreases bytes.len() - i,
    {
        let b = bytes[i];
        out.push(hex_digit_char(b / 16));
        out.push(hex_digit_char(b % 16));
        proof {
            let t = bytes@.take(i as int);
            let t1 = bytes@.take(i + 1);
            assert(hex_of(t).push(hex_digit(b as int / 16)).push(hex_digit(b as int % 16))
                =~= hex_of(t1)) by {
                assert forall|k: int| 0 <= k < hex_of(t1).len() implies #[trigger] hex_of(t1)[k]
                    == hex_of(t).push(hex_digit(b as int / 16)).push(hex_digit(b as int % 16))[k] by {
                    if k < 2 * i {
                        assert(t1[k / 2] == t[k / 2]);
                    }
                }
            }
        }
        i = i + 1;
    }
    assert(bytes@.take(bytes.len() as int) =~= bytes@);
}

/// The 64 lower-case hexadecimal digits of a SHA-256 digest.
pub fn hex_digest(bytes: &[u8; 32]) -> (r: String)
    ensures
        r@ == hex_of(bytes@),
        r@.len() == 64,
{
    let mut out: Vec<char> = Vec::new();
    push_hex(&mut out, bytes.as_slice());
    string_of(&out)
}

/// The first twelve hexadecimal digits of the SHA-256 digest of `bytes`.
pub open spec fn hash12_of(bytes: Seq<u8>) -> Seq<char> {
    hex_of(sha256_digest(bytes)@).take(12)
}

/// The full hexadecimal digest of a canonical Git root's UTF-8 bytes.
pub open spec fn root_digest64(root: Seq<char>) -> Seq<char> {
    hex_of(sha256_digest(encode_utf8(root))@)
}

/// The stable id of a canonical Git root: the first twelve digits of its digest.
pub open spec fn root_hash12(root: Seq<char>) -> Seq<char> {
    root_digest64(root).take(12)
}

fn digest64_chars(bytes: &[u8]) -> (r: Vec<char>)
    ensures
        r@ == hex_of(sha256_digest(bytes@)@),
        r@.len() == 64,
{
    let d = sha256_bytes(bytes);
    let mut out: Vec<char> = Vec::new();
    push_hex(&mut out, d.as_slice());
    out
}

fn take_chars(s: &Vec<char>, n: usize) -> (r: Vec<char>)
    requires
        n <= s@.len(),
    ensures
        r@ == s@.take(n as int),
{
    let mut r: Vec<char> = Vec::new();
    let mut i: usize = 0;
    while i < n
        invariant
            i <= n <= s@.len(),
            r@ == s@.take(i as int),
        decreases n - i,
    {
        r.push(s[i]);
        assert(s@.take(i as int).push(s@[i as int]) =~= s@.take(i + 1));
        i = i + 1;
    }
    r
}

/// The first twelve hexadecimal digits of the SHA-256 digest of `bytes`.
pub fn hash12(bytes: &[u8]) -> (r: String)
    ensures
        r@ == hash12_of(bytes@),
        r@.len() == 12,
{
    let d = digest64_chars(bytes);
    let h = take_chars(&d, GIT_ROOT_HASH_LEN);
    string_of(&h)
}

/// The 64-digit digest of a canonical Git root.
pub fn git_root_digest64(canonical_git_root: &str) -> (r: String)
    ensures
        r@ == root_digest64(canonical_git_root@),
        r@.len() == 64,
{
    let d = digest64_chars(canonical_git_root.as_bytes());
    string_of(&d)
}

/// The twelve-digit stable id of a canonical Git root.
pub fn git_root_hash12(canonical_git_root: &str) -> (r: String)
    ensures
        r@ == root_hash12(canonical_git_root@),
        r@.len() == 12,
{
    let d = digest64_chars(canonical_git_root.as_bytes());
    let h = take_chars(&d, GIT_ROOT_HASH_LEN);
    string_of(&h)
}

/// The stable id taken from a 64-digit digest.
pub fn hash12_from_digest64(digest64: &str) -> (r: String)
    ensures
        r@ == digest64@.take(if digest64@.len() < 12 { digest64@.len() as int } else { 12 }),
{
    let d = chars_of(digest64);
    let n: usize = if d.len() < GIT_ROOT_HASH_LEN {
        d.len()
    } else {
        GIT_ROOT_HASH_LEN
    };
    let h = take_chars(&d, n);
    string_of(&h)
}

// ---------------------------------------------------------------------------
// Container names
// ---------------------------------------------------------------------------

/// An ASCII letter or digit.
pub open spec fn is_ascii_alnum(c: char) -> bool {
    ('0' <= c && c <= '9') || ('a' <= c && c <= 'z') || ('A' <= c && c <= 'Z')
}

/// How a root's character appears in a container name: `/` becomes `_`, ASCII letters,
/// digits, `.`, `_` and `-` stay, anything else becomes `-`.
pub open spec fn escape_char(c: char) -> char {
    if c == '/' {
        '_'
    } else if is_ascii_alnum(c) || c == '.' || c == '_' || c == '-' {
        c
    } else {
        '-'
    }
}

/// A root with every character escaped.
pub open spec fn escape_root_spec(root: Seq<char>) -> Seq<char> {
    Seq::new(root.len(), |i: int| escape_char(root[i]))
}

/// The longest escaped-root part a container name keeps: the name limit less the prefix,
/// the separator and the stable id.
pub open spec fn max_suffix_len() -> int {
    63 - 9 - 13
}

/// The tail of the escaped root that a container name keeps.
pub open spec fn name_suffix(root: Seq<char>) -> Seq<char> {
    let e = escape_root_spec(root);
    if e.len() <= max_suffix_len() {
        e
    } else {
        e.skip(e.len() - max_suffix_len())
    }
}

/// The container name for a canonical Git root: `agentbox-`, the tail of the escaped root,
/// `-` and the root's stable id.
pub open spec fn container_name_spec(root: Seq<char>) -> Seq<char> {
    container_prefix() + name_suffix(root) + seq!['-'] + root_hash12(root)
}

fn escape_one(c: char) -> (r: char)
    ensures
        r == escape_char(c),
{
    if c == '/' {
        '_'
    } else if ('0' <= c && c <= '9') || ('a' <= c && c <= 'z') || ('A' <= c && c <= 'Z') || c
        == '.' || c == '_' || c == '-' {
        c
    } else {
        '-'
    }
}

/// Every character of `path` escaped for a container name.
pub fn escape_root(path: &str) -> (r: String)
    ensures
        r@ == escape_root_spec(path@),
{
    let cs = chars_of(path);
    let mut out: Vec<char> = Vec::new();
    let mut i: usize = 0;
    while i < cs.len()
        invariant
            i <= cs@.len(),
            cs@ == path@,
            out@ =~= escape_root_spec(cs@.take(i as int)),
        decreases cs.len() - i,
    {
        out.push(escape_one(cs[i]));
        i = i + 1;
    }
    assert(cs@.take(cs@.len() as int) =~= cs@);
    string_of(&out)
}

/// The container name for a canonical Git root. The name is never longer than 63
/// characters.
pub fn container_name_from_canonical_root(root: &str) -> (r: String)
    ensures
        r@ == container_name_spec(root@),
        r@.len() <= MAX_CONTAINER_NAME_LEN,
{
    let escaped = chars_of(&escape_root(root));
    let hash = chars_of(&git_root_hash12(root));
    let max_suffix: usize = MAX_CONTAINER_NAME_LEN - 9 - (1 + hash.len());
    let mut name = chars_of(CONTAINER_PREFIX);
    proof {
        reveal_strlit("agentbox-");
        assert(name@ =~= container_prefix());
    }
    let start: usize = if escaped.len() <= max_suffix {
        0
    } else {
        escaped.len() - max_suffix
    };
    let ghost before = name@;
    let mut i: usize = start;
    while i < escaped.len()
        invariant
            start <= i <= escaped@.len(),
            name@ == before + escaped@.subrange(start as int, i as int),
        decreases escaped.len() - i,
    {
        name.push(escaped[i]);
        assert(escaped@.subrange(start as int, i as int).push(escaped@[i as int])
            =~= escaped@.subrange(start as int, i + 1));
        i = i + 1;
    }
    name.push('-');
    let ghost mid = name@;
    let mut j: usize = 0;
    while j < hash.len()
        invariant
            j <= hash@.len(),
            name@ == mid + hash@.take(j as int),
        decreases hash.len() - j,
    {
        name.push(hash[j]);
        assert(hash@.take(j as int).push(hash@[j as int]) =~= hash@.take(j + 1));
        j = j + 1;
    }
    assert(hash@.take(hash@.len() as int) =~= hash@);
    assert(escaped@.subrange(start as int, escaped@.len() as int) =~= name_suffix(root@));
    assert(name@ =~= container_name_spec(root@));
    string_of(&name)
}

/// A name in the shape of a generated workspace resource: `agentbox-`, at least one more
/// character, `-`, and twelve hexadecimal digits after the last `-`.
pub open spec fn is_resource_name_spec(name: Seq<char>) -> bool {
    match rsplit_once(name, '-') {
        None => false,
        Some((prefix, suffix)) => has_prefix(prefix, container_prefix()) && prefix.len()
            > container_prefix().len() && suffix.len() == 12 && forall|i: int|
            0 <= i < suffix.len() ==> is_hex_digit(#[trigger] suffix[i]),
    }
}

fn all_hex(s: &Vec<char>) -> (r: bool)
    ensures
        r == forall|i: int| 0 <= i < s@.len() ==> is_hex_digit(#[trigger] s@[i]),
{
    let mut i: usize = 0;
    while i < s.len()
        invariant
            i <= s@.len(),
            forall|k: int| 0 <= k < i ==> is_hex_digit(#[trigger] s@[k]),
        decreases s.len() - i,
    {
        let c = s[i];
        if !(('0' <= c && c <= '9') || ('a' <= c && c <= 'f') || ('A' <= c && c <= 'F')) {
            return false;
        }
        i = i + 1;
    }
    true
}

/// Whether `name` has the shape of a workspace container or volume name that agentbox
/// generated.
pub fn is_agentbox_workspace_resource_name(name: &str) -> (r: bool)
    ensures
        r == is_resource_name_spec(name@),
{
    let cs = chars_of(name);
    let prefix_chars = chars_of(CONTAINER_PREFIX);
    proof {
        reveal_strlit("agentbox-");
        assert(prefix_chars@ =~= container_prefix());
    }
    match rsplit_once_char(&cs, '-') {
        None => false,
        Some((prefix, suffix)) => {
            starts_with(&prefix, &prefix_chars) && prefix.len() > prefix_chars.len()
                && suffix.len() == GIT_ROOT_HASH_LEN && all_hex(&suffix)
        },
    }
}

/// Every container name generated for a non-empty root has the shape of a workspace
/// resource name.
pub proof fn lemma_generated_names_are_resource_names(root: Seq<char>)
    requires
        root.len() > 0,
    ensures
        is_resource_name_spec(container_name_spec(root)),
{
    let name = container_name_spec(root);
    let suffix = name_suffix(root);
    let hash = root_hash12(root);
    lemma_hex_of_shape(sha256_digest(encode_utf8(root))@);
    assert(hash.len() == 12);
    assert(suffix.len() > 0);
    let k: int = 9 + suffix.len() as int;
    assert(name[k] == '-');
    assert forall|j: int| k < j < name.len() implies name[j] != '-' by {
        assert(name[j] == hash[j - k - 1]);
        assert(is_lower_hex(hex_of(sha256_digest(encode_utf8(root))@)[j - k - 1]));
    }
    lemma_last_index(name, '-');
    let li = crate::text::last_index(name, '-');
    assert(li == k) by {
        if li < k {
            assert(name[k] != '-');
        }
        if li > k {
            assert(name[li] != '-');
        }
    }
    assert(name.take(k) =~= container_prefix() + suffix);
    assert(name.skip(k + 1) =~= hash);
    assert(name.take(k).take(9) =~= container_prefix());
    assert forall|i: int| 0 <= i < hash.len() implies is_hex_digit(#[trigger] hash[i]) by {
        assert(is_lower_hex(hex_of(sha256_digest(encode_utf8(root))@)[i]));
    }
}

// ---------------------------------------------------------------------------
// Workspace identity
// ---------------------------------------------------------------------------

/// A workspace: the directory a command was given, where it resolves, its Git root, and
/// the names derived from that root.
#[derive(Debug, Clone, PartialEq, Eq)]
pub struct WorkspaceIdentity {
    pub requested_target: String,
    pub absolute_target: String,
    pub canonical_target: String,
    pub canonical_git_root: String,
    pub digest64: String,
    pub hash12: String,
    pub container_name: String,
}

/// The identity of the workspace whose requested directory is `requested_target` (made
/// absolute), which resolves to `canonical_target` inside the canonical Git root
/// `canonical_git_root`. A target that resolves outside its root is refused.
pub fn workspace_identity_from_paths(
    requested_target: &str,
    canonical_target: &str,
    canonical_git_root: &str,
) -> (r: Result<WorkspaceIdentity, AgentboxError>)
    ensures
        !is_or_descendant_spec(canonical_target@, canonical_git_root@) ==> (r matches Err(
            AgentboxError::EscapedGitTarget { target, git_root },
        ) && target@ == requested_target@ && git_root@ == canonical_git_root@),
        is_or_descendant_spec(canonical_target@, canonical_git_root@) ==> (r matches Ok(w) && {
            &&& w.requested_target@ == requested_target@
            &&& w.absolute_target@ == requested_target@
            &&& w.canonical_target@ == canonical_target@
            &&& w.canonical_git_root@ == canonical_git_root@
            &&& w.digest64@ == root_digest64(canonical_git_root@)
            &&& w.hash12@ == root_hash12(canonical_git_root@)
            &&& w.container_name@ == container_name_spec(canonical_git_root@)
        }),
{
    if !is_or_descendant(canonical_target, canonical_git_root) {
        return Err(AgentboxError::EscapedGitTarget {
            target: crate::text::owned(requested_target),
            git_root: crate::text::owned(canonical_git_root),
        });
    }
    let digest64 = git_root_digest64(canonical_git_root);
    let hash12 = hash12_from_digest64(digest64.as_str());
    proof {
        lemma_hex_of_shape(sha256_digest(encode_utf8(canonical_git_root@))@);
    }
    Ok(WorkspaceIdentity {
        requested_target: crate::text::owned(requested_target),
        absolute_target: crate::text::owned(requested_target),
        canonical_target: crate::text::owned(canonical_target),
        canonical_git_root: crate::text::owned(canonical_git_root),
        digest64,
        hash12,
        container_name: container_name_from_canonical_root(canonical_git_root),
    })
}

} // verus!
