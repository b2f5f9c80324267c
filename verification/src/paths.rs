//! File paths as tracking-store keys.
//!
//! The store is keyed by the canonical absolute path of a file,
//! encoded as UTF-8 bytes. A path whose operating-system form cannot
//! be encoded that way is unsupported: it never reaches the store and
//! every operation reports it as such. The caller resolves and
//! canonicalizes paths and decides encodability; here a path is
//! either its key bytes or an unsupported raw form.

use vstd::prelude::*;

verus! {

/// A candidate file path, as handed to the tracking store.
pub enum FilePath {
    /// A path encodable as a store key (UTF-8 bytes of the path).
    Encodable { key: Vec<u8> },
    /// A path that cannot be encoded as a key; carries the raw
    /// operating-system bytes for reporting only.
    Unsupported { raw: Vec<u8> },
}

/// Mathematical model of a [`FilePath`].
pub enum FilePathV {
    Encodable { key: Seq<u8> },
    Unsupported { raw: Seq<u8> },
}

impl FilePath {
    pub open spec fn view(&self) -> FilePathV {
        match self {
            FilePath::Encodable { key } => FilePathV::Encodable { key: key@ },
            FilePath::Unsupported { raw } => FilePathV::Unsupported { raw: raw@ },
        }
    }

    /// An identical copy of this path.
    pub fn duplicate(&self) -> (r: FilePath)
        ensures
            r@ == self@,
    {
        match self {
            FilePath::Encodable { key } => FilePath::Encodable { key: clone_bytes(key) },
            FilePath::Unsupported { raw } => FilePath::Unsupported { raw: clone_bytes(raw) },
        }
    }
}

impl FilePathV {
    /// The store key of a path, if it has one.
    pub open spec fn key_of(self) -> Option<Seq<u8>> {
        match self {
            FilePathV::Encodable { key } => Some(key),
            FilePathV::Unsupported { raw: _ } => None,
        }
    }
}

/// Convert a path to its store key, if it has one.
pub fn path_as_key(path: &FilePath) -> (r: Option<&Vec<u8>>)
    ensures
        match r {
            Some(k) => path@.key_of() == Some(k@),
            None => path@.key_of() is None,
        },
{
    match path {
        FilePath::Encodable { key } => Some(key),
        FilePath::Unsupported { raw: _ } => None,
    }
}

/// Convert store-key bytes back to a path value. Keys are written
/// only for encodable paths, so the result is always encodable.
pub fn path_from_key(key_bytes: Vec<u8>) -> (r: FilePath)
    ensures
        r@ == (FilePathV::Encodable { key: key_bytes@ }),
{
    FilePath::Encodable { key: key_bytes }
}

/// A byte-for-byte copy of a byte vector.
pub fn clone_bytes(v: &Vec<u8>) -> (r: Vec<u8>)
    ensures
        r@ == v@,
{
    let mut out: Vec<u8> = Vec::new();
    let mut i: usize = 0;
    while i < v.len()
        invariant
            i <= v.len(),
            out@ == v@.subrange(0, i as int),
        decreases v.len() - i,
    {
        out.push(v[i]);
        i = i + 1;
    }
    assert(out@ == v@);
    out
}

} // verus!
