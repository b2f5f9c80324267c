//! Fingerprints: a content hash plus selected file metadata.
//!
//! A fingerprint captures what a file looked like at a point in
//! time: the SHA3-256 digest of its full content, whether the entry
//! is a symbolic link, best-effort creation and modification times,
//! optional unix permission bits, and a read-only flag. Two
//! fingerprints are equal only if every field matches.
//!
//! The caller reads file content and metadata from the filesystem and
//! hands them in as plain values; everything here is pure.

use vstd::prelude::*;
use vstd::slice::slice_subrange;
use vstd::assert_seqs_equal;

verus! {

/// A point in time: whole seconds and subsecond nanoseconds since the
/// unix epoch. Timestamps are informational metadata; no logic orders
/// or compares them beyond whole-value equality.
#[derive(Clone, Copy, PartialEq, Eq, Structural, Debug)]
pub struct Timestamp {
    pub secs: u64,
    pub nanos: u32,
}

/// File metadata observed by the caller, as plain values. Metadata of
/// a symbolic link describes the link itself, not its target.
#[derive(Clone, Copy)]
pub struct FileMeta {
    /// True if the entry is a symbolic link.
    pub symlink: bool,
    /// Creation time, absent if the platform cannot supply it.
    pub created: Option<Timestamp>,
    /// Modification time, absent if the platform cannot supply it.
    pub modified: Option<Timestamp>,
    /// Unix permission bits, absent on platforms without them.
    pub unix_mode: Option<u32>,
    /// True if the entry is read-only.
    pub read_only: bool,
}

/// Fingerprint of file data and attributes at a point in time.
pub struct Fingerprint {
    /// SHA3-256 hash of the file contents (32 bytes).
    pub content_hash: Vec<u8>,
    /// True if the file is a symlink to elsewhere.
    pub symlink: bool,
    /// File creation time, if known.
    pub created: Option<Timestamp>,
    /// File modification time, if known.
    pub modified: Option<Timestamp>,
    /// Unix file mode, if applicable.
    pub unix_mode: Option<u32>,
    /// Read-only flag.
    pub read_only: bool,
}

/// Mathematical model of a [`Fingerprint`].
#[verifier::ext_equal]
pub struct FingerprintV {
    pub content_hash: Seq<u8>,
    pub symlink: bool,
    pub created: Option<Timestamp>,
    pub modified: Option<Timestamp>,
    pub unix_mode: Option<u32>,
    pub read_only: bool,
}

impl FingerprintV {
    /// A fingerprint is well formed when its hash has the fixed
    /// digest width.
    pub open spec fn wf(self) -> bool {
        self.content_hash.len() == 32
    }
}

impl Fingerprint {
    pub open spec fn view(&self) -> FingerprintV {
        FingerprintV {
            content_hash: self.content_hash@,
            symlink: self.symlink,
            created: self.created,
            modified: self.modified,
            unix_mode: self.unix_mode,
            read_only: self.read_only,
        }
    }

    pub open spec fn wf(&self) -> bool {
        self@.wf()
    }

    /// Build the fingerprint of a file from its full content and its
    /// observed metadata.
    pub fn from_file(content: &[u8], meta: &FileMeta) -> (r: Fingerprint)
        ensures
            r@ == (FingerprintV {
                content_hash: sha3_of(content@),
                symlink: meta.symlink,
                created: meta.created,
                modified: meta.modified,
                unix_mode: meta.unix_mode,
                read_only: meta.read_only,
            }),
            r.wf(),
    {
        fingerprint_file(content, meta)
    }

    /// Field-for-field comparison of two fingerprints.
    pub fn same_as(&self, other: &Fingerprint) -> (r: bool)
        ensures
            r == (self@ == other@),
    {
        let hash_eq = eq_bytes(&self.content_hash, &other.content_hash);
        let created_eq = eq_opt_timestamp(self.created, other.created);
        let modified_eq = eq_opt_timestamp(self.modified, other.modified);
        let mode_eq = eq_opt_u32(self.unix_mode, other.unix_mode);
        let r = hash_eq && self.symlink == other.symlink && created_eq && modified_eq
            && mode_eq && self.read_only == other.read_only;
        if r {
            assert(self@ =~= other@);
        }
        r
    }
}

/// Generate a file fingerprint for comparison or storage, from the
/// file's full content and its observed metadata.
pub fn fingerprint_file(content: &[u8], meta: &FileMeta) -> (r: Fingerprint)
    ensures
        r@ == (FingerprintV {
            content_hash: sha3_of(content@),
            symlink: meta.symlink,
            created: meta.created,
            modified: meta.modified,
            unix_mode: meta.unix_mode,
            read_only: meta.read_only,
        }),
        r.wf(),
{
    let content_hash = hash_contents(content);
    Fingerprint {
        content_hash,
        symlink: meta.symlink,
        created: meta.created,
        modified: meta.modified,
        unix_mode: meta.unix_mode,
        read_only: meta.read_only,
    }
}

/// Equality of two optional timestamps.
fn eq_opt_timestamp(a: Option<Timestamp>, b: Option<Timestamp>) -> (r: bool)
    ensures
        r == (a == b),
{
    match (a, b) {
        (None, None) => true,
        (Some(x), Some(y)) => x == y,
        _ => false,
    }
}

/// Equality of two optional mode words.
fn eq_opt_u32(a: Option<u32>, b: Option<u32>) -> (r: bool)
    ensures
        r == (a == b),
{
    match (a, b) {
        (None, None) => true,
        (Some(x), Some(y)) => x == y,
        _ => false,
    }
}

/// Byte-for-byte equality of two byte vectors.
pub fn eq_bytes(a: &Vec<u8>, b: &Vec<u8>) -> (r: bool)
    ensures
        r == (a@ == b@),
{
    if a.len() != b.len() {
        return false;
    }
    let mut i: usize = 0;
    while i < a.len()
        invariant
            i <= a.len(),
            a@.len() == b@.len(),
            forall|j: int| 0 <= j < i ==> a@[j] == b@[j],
        decreases a.len() - i,
    {
        if a[i] != b[i] {
            return false;
        }
        i = i + 1;
    }
    assert(a@ =~= b@);
    true
}

/// The SHA3-256 digest of a byte sequence: 32 bytes, a function of
/// the bytes alone.
pub uninterp spec fn sha3_of(data: Seq<u8>) -> Seq<u8>;

/// The bytes a SHA3-256 hasher holds (has absorbed) so far.
pub uninterp spec fn sha3_absorbed(h: sha3::Sha3_256) -> Seq<u8>;

/// Declares `sha3::Sha3_256`, the incremental hasher, as an opaque
/// type; `sha3_absorbed` names the bytes it holds.
#[verifier::external_type_specification]
#[verifier::external_body]
pub struct ExSha3(sha3::Sha3_256);

/// Relies on `Digest::new` for `sha3::Sha3_256`: a fresh hasher has
/// absorbed nothing.
#[verifier::external_body]
fn sha3_new() -> (r: sha3::Sha3_256)
    ensures
        sha3_absorbed(r) == Seq::<u8>::empty(),
{
    <sha3::Sha3_256 as sha3::Digest>::new()
}

/// Relies on `Digest::update` for `sha3::Sha3_256`: absorbs the given
/// bytes after those already absorbed.
#[verifier::external_body]
fn sha3_update(h: &mut sha3::Sha3_256, data: &[u8])
    ensures
        sha3_absorbed(*final(h)) == sha3_absorbed(*old(h)) + data@,
{
    sha3::Digest::update(h, data)
}

/// Relies on `Digest::finalize` for `sha3::Sha3_256`: returns the
/// 32-byte SHA3-256 digest of all absorbed bytes.
#[verifier::external_body]
fn sha3_finalize(h: sha3::Sha3_256) -> (r: Vec<u8>)
    ensures
        r@ == sha3_of(sha3_absorbed(h)),
        r@.len() == 32,
{
    sha3::Digest::finalize(h).as_slice().to_vec()
}

/// Calculate the SHA3-256 hash of a file's contents, feeding the
/// hasher one bounded-size chunk at a time.
pub fn hash_contents(content: &[u8]) -> (r: Vec<u8>)
    ensures
        r@ == sha3_of(content@),
        r@.len() == 32,
{
    let mut hasher = sha3_new();
    let mut i: usize = 0;
    while i < content.len()
        invariant
            i <= content.len(),
            sha3_absorbed(hasher) == content@.subrange(0, i as int),
        decreases content.len() - i,
    {
        let end = if content.len() - i < 4096 {
            content.len()
        } else {
            i + 4096
        };
        let chunk = slice_subrange(content, i, end);
        sha3_update(&mut hasher, chunk);
        proof {
            assert_seqs_equal!(
                content@.subrange(0, i as int) + content@.subrange(i as int, end as int)
                    == content@.subrange(0, end as int)
            );
        }
        i = end;
    }
    proof {
        assert_seqs_equal!(content@.subrange(0, content@.len() as int) == content@);
    }
    sha3_finalize(hasher)
}

} // verus!
