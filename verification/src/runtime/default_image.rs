//! The default runtime images: the files of their build context, the content hash that tags
//! them, and how an image reference is recognised as one of them.

use vstd::prelude::*;
use vstd::utf8::encode_utf8;

use crate::text::{chars_of, decimal, decimal_chars, has_prefix, is_hex_digit, push_str, starts_with, string_of};
use crate::workspace::{hex_of, is_lower_hex, lemma_hex_of_shape, sha256_bytes, sha256_digest};

use super::kind::{kind_name, RuntimeKind};

verus! {

/// How many hexadecimal digits of the context digest an image tag carries.
pub const IMAGE_CONTEXT_HASH_LEN: usize = 16;

/// A file of the default image build context.
#[derive(Debug)]
pub struct EmbeddedDefaultImageFile {
    pub relative_path: &'static str,
    pub contents: Vec<u8>,
}

/// The bytes of a decimal number's digits.
pub open spec fn decimal_bytes(n: nat) -> Seq<u8> {
    decimal(n).map_values(|c: char| c as u8)
}

/// What one file contributes to the context digest: its path, its length in decimal and
/// its contents, each followed by a zero byte.
pub open spec fn file_record(path: Seq<char>, contents: Seq<u8>) -> Seq<u8> {
    encode_utf8(path) + seq![0u8] + decimal_bytes(contents.len()) + seq![0u8] + contents + seq![0u8]
}

/// Each file as its path and its contents.
pub open spec fn file_views(files: Seq<EmbeddedDefaultImageFile>) -> Seq<(Seq<char>, Seq<u8>)> {
    files.map_values(|f: EmbeddedDefaultImageFile| (f.relative_path@, f.contents@))
}

/// The bytes the context digest is taken over: every file's record, in order.
pub open spec fn context_bytes(files: Seq<(Seq<char>, Seq<u8>)>) -> Seq<u8>
    decreases files.len(),
{
    if files.len() == 0 {
        Seq::empty()
    } else {
        context_bytes(files.drop_last()) + file_record(files.last().0, files.last().1)
    }
}

/// The content hash of a build context: the first sixteen hexadecimal digits of the
/// SHA-256 digest of its files' records.
pub open spec fn context_hash_spec(files: Seq<(Seq<char>, Seq<u8>)>) -> Seq<char> {
    hex_of(sha256_digest(context_bytes(files))@).take(16)
}

/// The files of the default image build context. The library carries their paths only: the
/// image's asset files are not part of it, so each file is embedded with empty contents, and
/// the context hash and the default image tag are those of empty files, not of the assets.
pub open spec fn default_context_files() -> Seq<(Seq<char>, Seq<u8>)> {
    default_image_path_views().map_values(|p: Seq<char>| (p, Seq::<u8>::empty()))
}

/// The reference of a runtime's default image, tagged with a context hash.
pub open spec fn default_image_spec(kind: RuntimeKind, hash: Seq<char>) -> Seq<char> {
    "localhost/agentbox-"@ + kind_name(kind) + ":ctx-"@ + hash
}

/// A content hash: sixteen hexadecimal digits.
pub open spec fn is_context_hash_spec(value: Seq<char>) -> bool {
    value.len() == 16 && forall|i: int| 0 <= i < value.len() ==> is_hex_digit(#[trigger] value[i])
}

/// An image reference that names a runtime's default image by a content hash.
pub open spec fn is_content_hash_ref_spec(kind: RuntimeKind, image: Seq<char>) -> bool {
    let prefix = "localhost/agentbox-"@ + kind_name(kind) + ":ctx-"@;
    has_prefix(image, prefix) && is_context_hash_spec(image.skip(prefix.len() as int))
}

fn push_bytes(out: &mut Vec<u8>, bytes: &[u8])
    ensures
        final(out)@ == old(out)@ + bytes@,
{
    let ghost start = out@;
    let mut i: usize = 0;
    while i < bytes.len()
        invariant
            i <= bytes@.len(),
            out@ == start + bytes@.take(i as int),
        decreases bytes.len() - i,
    {
        out.push(bytes[i]);
        assert(bytes@.take(i as int).push(bytes@[i as int]) =~= bytes@.take(i + 1));
        i = i + 1;
    }
    assert(bytes@.take(bytes@.len() as int) =~= bytes@);
}

fn push_decimal_bytes(out: &mut Vec<u8>, n: usize)
    ensures
        final(out)@ == old(out)@ + decimal_bytes(n as nat),
{
    let digits = decimal_chars(n as u64);
    let ghost start = out@;
    let mut i: usize = 0;
    while i < digits.len()
        invariant
            i <= digits@.len(),
            digits@ == decimal(n as nat),
            out@ == start + decimal_bytes(n as nat).take(i as int),
        decreases digits.len() - i,
    {
        let c = digits[i];
        out.push(c as u8);
        assert(decimal_bytes(n as nat).take(i + 1) =~= decimal_bytes(n as nat).take(i as int).push(c as u8));
        i = i + 1;
    }
    assert(decimal_bytes(n as nat).take(digits@.len() as int) =~= decimal_bytes(n as nat));
}

/// The bytes the context digest of `files` is taken over.
pub fn image_context_bytes(files: &[EmbeddedDefaultImageFile]) -> (r: Vec<u8>)
    ensures
        r@ == context_bytes(file_views(files@)),
{
    let mut out: Vec<u8> = Vec::new();
    let mut i: usize = 0;
    while i < files.len()
        invariant
            i <= files@.len(),
            out@ == context_bytes(file_views(files@.take(i as int))),
        decreases files.len() - i,
    {
        let file = &files[i];
        let ghost before = out@;
        push_bytes(&mut out, file.relative_path.as_bytes());
        out.push(0u8);
        push_decimal_bytes(&mut out, file.contents.len());
        out.push(0u8);
        push_bytes(&mut out, file.contents.as_slice());
        out.push(0u8);
        proof {
            assert(file_views(files@.take(i + 1)).drop_last() =~= file_views(files@.take(i as int)));
            assert(out@ =~= before + file_record(file.relative_path@, file.contents@));
        }
        i = i + 1;
    }
    assert(files@.take(files@.len() as int) =~= files@);
    out
}

fn hex_prefix16(digest: &[u8; 32]) -> (r: String)
    ensures
        r@ == hex_of(digest@).take(16),
{
    let full = crate::workspace::hex_digest(digest);
    let cs = chars_of(full.as_str());
    let mut out: Vec<char> = Vec::new();
    let mut i: usize = 0;
    while i < IMAGE_CONTEXT_HASH_LEN
        invariant
            i <= 16,
            cs@ == hex_of(digest@),
            cs@.len() == 64,
            out@ == cs@.take(i as int),
        decreases 16 - i,
    {
        out.push(cs[i]);
        assert(cs@.take(i as int).push(cs@[i as int]) =~= cs@.take(i + 1));
        i = i + 1;
    }
    string_of(&out)
}

/// The content hash of a build context.
pub fn image_context_hash(files: &[EmbeddedDefaultImageFile]) -> (r: String)
    ensures
        r@ == context_hash_spec(file_views(files@)),
{
    let bytes = image_context_bytes(files);
    let digest = sha256_bytes(bytes.as_slice());
    hex_prefix16(&digest)
}

/// The files of the default image build context, in the order they are hashed, each with
/// empty contents (the asset bytes are not part of this library).
pub fn embedded_default_image_files() -> (r: Vec<EmbeddedDefaultImageFile>)
    ensures
        file_views(r@) == default_context_files(),
{
    let mut r: Vec<EmbeddedDefaultImageFile> = Vec::new();
    let paths = embedded_default_image_paths();
    let mut i: usize = 0;
    while i < paths.len()
        invariant
            i <= paths@.len(),
            paths@.map_values(|p: &'static str| p@) == default_image_path_views(),
            file_views(r@) == default_context_files().take(i as int),
        decreases paths.len() - i,
    {
        let f = EmbeddedDefaultImageFile { relative_path: paths[i], contents: Vec::new() };
        assert(f.contents@ =~= Seq::<u8>::empty());
        let ghost before = r@;
        r.push(f);
        proof {
            assert(file_views(r@) =~= file_views(before).push((paths@[i as int]@, Seq::<u8>::empty())));
            assert(default_context_files()[i as int] == (default_image_path_views()[i as int], Seq::<u8>::empty()));
            assert(paths@.map_values(|p: &'static str| p@)[i as int] == default_image_path_views()[i as int]);
            assert(file_views(r@) =~= default_context_files().take(i + 1));
        }
        i = i + 1;
    }
    assert(default_context_files().take(6) =~= default_context_files());
    r
}

/// The paths of the default image build context.
pub open spec fn default_image_path_views() -> Seq<Seq<char>> {
    seq![
        "Containerfile"@,
        "bootstrap"@,
        "entrypoint"@,
        "lib/runtime-contract.sh"@,
        "profile.d/agentbox-runtime.sh"@,
        "runtime-packages.nix"@,
    ]
}

/// The paths of the default image build context, relative to its root.
pub fn embedded_default_image_paths() -> (r: Vec<&'static str>)
    ensures
        r@.map_values(|p: &'static str| p@) == default_image_path_views(),
{
    let mut r: Vec<&'static str> = Vec::new();
    r.push("Containerfile");
    r.push("bootstrap");
    r.push("entrypoint");
    r.push("lib/runtime-contract.sh");
    r.push("profile.d/agentbox-runtime.sh");
    r.push("runtime-packages.nix");
    assert(r@.map_values(|p: &'static str| p@) =~= default_image_path_views());
    r
}

/// The content hash of the default image build context.
pub fn default_image_context_hash() -> (r: String)
    ensures
        r@ == context_hash_spec(default_context_files()),
        is_context_hash_spec(r@),
{
    let files = embedded_default_image_files();
    let h = image_context_hash(files.as_slice());
    proof {
        lemma_context_hash_shape(default_context_files());
    }
    h
}

/// The reference of a runtime's default image:
/// `localhost/agentbox-<runtime>:ctx-<context hash>`.
pub fn default_image(runtime: RuntimeKind) -> (r: String)
    ensures
        r@ == default_image_spec(runtime, context_hash_spec(default_context_files())),
{
    let hash = default_image_context_hash();
    let mut out: Vec<char> = Vec::new();
    push_str(&mut out, "localhost/agentbox-");
    push_str(&mut out, runtime.as_str());
    push_str(&mut out, ":ctx-");
    push_str(&mut out, hash.as_str());
    assert(out@ =~= default_image_spec(runtime, hash@));
    string_of(&out)
}

/// A content hash has sixteen hexadecimal digits.
pub proof fn lemma_context_hash_shape(files: Seq<(Seq<char>, Seq<u8>)>)
    ensures
        is_context_hash_spec(context_hash_spec(files)),
{
    let d = sha256_digest(context_bytes(files))@;
    lemma_hex_of_shape(d);
    assert forall|i: int| 0 <= i < 16 implies is_hex_digit(#[trigger] context_hash_spec(files)[i]) by {
        assert(is_lower_hex(hex_of(d)[i]));
    }
}

/// Whether `value` has the shape of a content hash: sixteen ASCII hexadecimal digits.
pub fn is_default_image_context_hash(value: &str) -> (r: bool)
    ensures
        r == is_context_hash_spec(value@),
{
    let cs = chars_of(value);
    if cs.len() != IMAGE_CONTEXT_HASH_LEN {
        return false;
    }
    let mut i: usize = 0;
    while i < cs.len()
        invariant
            i <= cs@.len(),
            cs@ == value@,
            forall|k: int| 0 <= k < i ==> is_hex_digit(#[trigger] cs@[k]),
        decreases cs.len() - i,
    {
        let c = cs[i];
        if !(('0' <= c && c <= '9') || ('a' <= c && c <= 'f') || ('A' <= c && c <= 'F')) {
            return false;
        }
        i = i + 1;
    }
    true
}

/// Whether `image` names the default image of `runtime` by a content hash.
pub fn is_content_hash_default_image_ref(runtime: RuntimeKind, image: &str) -> (r: bool)
    ensures
        r == is_content_hash_ref_spec(runtime, image@),
{
    let mut prefix: Vec<char> = Vec::new();
    push_str(&mut prefix, "localhost/agentbox-");
    push_str(&mut prefix, runtime.as_str());
    push_str(&mut prefix, ":ctx-");
    let cs = chars_of(image);
    if !starts_with(&cs, &prefix) {
        return false;
    }
    let rest = crate::text::slice_chars(&cs, prefix.len(), cs.len());
    let rs = string_of(&rest);
    is_default_image_context_hash(rs.as_str())
}

/// The default image of a runtime is recognised as a content-hash reference of that
/// runtime.
pub proof fn lemma_default_image_is_content_hash_ref(runtime: RuntimeKind, hash: Seq<char>)
    requires
        is_context_hash_spec(hash),
    ensures
        is_content_hash_ref_spec(runtime, default_image_spec(runtime, hash)),
{
    let prefix = "localhost/agentbox-"@ + kind_name(runtime) + ":ctx-"@;
    let image = default_image_spec(runtime, hash);
    assert(image =~= prefix + hash);
    assert(image.take(prefix.len() as int) =~= prefix);
    assert(image.skip(prefix.len() as int) =~= hash);
}

impl RuntimeKind {
    /// The reference of the runtime's default image.
    pub fn default_image(self) -> (r: String)
        ensures
            r@ == default_image_spec(self, context_hash_spec(default_context_files())),
    {
        default_image(self)
    }
}

} // verus!
