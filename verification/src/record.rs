//! Fingerprint records and their binary encoding.
//!
//! The store holds facts about fingerprints: either that a
//! fingerprint was valid from a given time (`Assert`) or that no
//! fingerprint is tracked from a given time (`Retract`). A record is
//! serialized as a tagged binary value: a tag byte distinguishes the
//! two variants, followed by the record timestamp and, for `Assert`,
//! the fixed-width hash, the two optional timestamps, the optional
//! mode word and the two flags. Absent optional fields are encoded as
//! a zero flag byte followed by zero padding, so each variant has a
//! fixed length. The decoder accepts exactly the byte strings the
//! encoder can produce, padding bytes aside, and the round trip is
//! proved below.

use vstd::prelude::*;
use vstd::bytes::*;
use vstd::assert_seqs_equal;

use crate::error::FimblError;
use crate::fingerprint::{Fingerprint, FingerprintV, Timestamp};

verus! {

/// A stored fact about one path.
pub enum FingerprintRecord {
    /// The fingerprint was valid at the specified time.
    Assert(Timestamp, Fingerprint),
    /// No fingerprint was valid (or tracked) from the specified time.
    Retract(Timestamp),
}

/// Mathematical model of a [`FingerprintRecord`].
#[verifier::ext_equal]
pub enum RecordV {
    Assert(Timestamp, FingerprintV),
    Retract(Timestamp),
}

impl RecordV {
    pub open spec fn wf(self) -> bool {
        match self {
            RecordV::Assert(_, fp) => fp.wf(),
            RecordV::Retract(_) => true,
        }
    }

    /// The fingerprint this record asserts, if any.
    pub open spec fn fingerprint_of(self) -> Option<FingerprintV> {
        match self {
            RecordV::Assert(_, fp) => Some(fp),
            RecordV::Retract(_) => None,
        }
    }
}

// ---------------------------------------------------------------------------
// The encoding, as a mathematical function.
// ---------------------------------------------------------------------------

/// Encoding of a timestamp: seconds then nanoseconds, little endian.
pub open spec fn enc_ts(t: Timestamp) -> Seq<u8> {
    spec_u64_to_le_bytes(t.secs) + spec_u32_to_le_bytes(t.nanos)
}

/// Encoding of an optional timestamp: a presence byte, then the
/// timestamp, with zero padding when absent.
pub open spec fn enc_opt_ts(o: Option<Timestamp>) -> Seq<u8> {
    match o {
        None => seq![0u8] + enc_ts(Timestamp { secs: 0, nanos: 0 }),
        Some(t) => seq![1u8] + enc_ts(t),
    }
}

/// Encoding of an optional mode word: a presence byte, then the word,
/// with zero padding when absent.
pub open spec fn enc_opt_u32(o: Option<u32>) -> Seq<u8> {
    match o {
        None => seq![0u8] + spec_u32_to_le_bytes(0),
        Some(m) => seq![1u8] + spec_u32_to_le_bytes(m),
    }
}

/// Encoding of a flag.
pub open spec fn enc_bool(b: bool) -> Seq<u8> {
    if b {
        seq![1u8]
    } else {
        seq![0u8]
    }
}

/// Encoding of a record. `Assert` records are 78 bytes under tag 0,
/// `Retract` records 13 bytes under tag 1.
pub open spec fn spec_encode(r: RecordV) -> Seq<u8> {
    match r {
        RecordV::Assert(t, fp) => seq![0u8] + enc_ts(t) + fp.content_hash + enc_opt_ts(
            fp.created,
        ) + enc_opt_ts(fp.modified) + enc_opt_u32(fp.unix_mode) + enc_bool(fp.symlink) + enc_bool(
            fp.read_only,
        ),
        RecordV::Retract(t) => seq![1u8] + enc_ts(t),
    }
}

// ---------------------------------------------------------------------------
// The decoding, as a mathematical function.
// ---------------------------------------------------------------------------

/// The timestamp encoded at offset `i`.
pub open spec fn dec_ts(s: Seq<u8>, i: int) -> Timestamp {
    Timestamp {
        secs: spec_u64_from_le_bytes(s.subrange(i, i + 8)),
        nanos: spec_u32_from_le_bytes(s.subrange(i + 8, i + 12)),
    }
}

/// The optional timestamp whose presence byte is at offset `i`;
/// `None` if the presence byte is invalid.
pub open spec fn dec_opt_ts(s: Seq<u8>, i: int) -> Option<Option<Timestamp>> {
    if s[i] == 0u8 {
        Some(None)
    } else if s[i] == 1u8 {
        Some(Some(dec_ts(s, i + 1)))
    } else {
        None
    }
}

/// The optional mode word whose presence byte is at offset `i`;
/// `None` if the presence byte is invalid.
pub open spec fn dec_opt_u32(s: Seq<u8>, i: int) -> Option<Option<u32>> {
    if s[i] == 0u8 {
        Some(None)
    } else if s[i] == 1u8 {
        Some(Some(spec_u32_from_le_bytes(s.subrange(i + 1, i + 5))))
    } else {
        None
    }
}

/// The flag at offset `i`; `None` if the byte is not a flag.
pub open spec fn dec_bool(s: Seq<u8>, i: int) -> Option<bool> {
    if s[i] == 0u8 {
        Some(false)
    } else if s[i] == 1u8 {
        Some(true)
    } else {
        None
    }
}

/// The record a byte string encodes, if it encodes one.
pub open spec fn spec_decode(s: Seq<u8>) -> Option<RecordV> {
    if s.len() == 13 && s[0] == 1u8 {
        Some(RecordV::Retract(dec_ts(s, 1)))
    } else if s.len() == 78 && s[0] == 0u8 {
        match (dec_opt_ts(s, 45), dec_opt_ts(s, 58), dec_opt_u32(s, 71), dec_bool(s, 76), dec_bool(
            s,
            77,
        )) {
            (Some(created), Some(modified), Some(unix_mode), Some(symlink), Some(read_only)) => Some(
                RecordV::Assert(
                    dec_ts(s, 1),
                    FingerprintV {
                        content_hash: s.subrange(13, 45),
                        symlink,
                        created,
                        modified,
                        unix_mode,
                        read_only,
                    },
                ),
            ),
            _ => None,
        }
    } else {
        None
    }
}

// ---------------------------------------------------------------------------
// Round trip: decoding an encoded record gives the record back.
// ---------------------------------------------------------------------------

/// Lengths of the pieces of an encoding.
proof fn lemma_piece_lengths(t: Timestamp, o: Option<Timestamp>, m: Option<u32>)
    ensures
        enc_ts(t).len() == 12,
        enc_opt_ts(o).len() == 13,
        enc_opt_u32(m).len() == 5,
{
    lemma_auto_spec_u64_to_from_le_bytes();
    lemma_auto_spec_u32_to_from_le_bytes();
}

/// A timestamp decodes from wherever its encoding was placed.
proof fn lemma_dec_ts_at(s: Seq<u8>, i: int, t: Timestamp)
    requires
        0 <= i,
        i + 12 <= s.len(),
        s.subrange(i, i + 12) == enc_ts(t),
    ensures
        dec_ts(s, i) == t,
{
    lemma_auto_spec_u64_to_from_le_bytes();
    lemma_auto_spec_u32_to_from_le_bytes();
    assert_seqs_equal!(s.subrange(i, i + 8) == spec_u64_to_le_bytes(t.secs), j => {
        assert(s.subrange(i, i + 8)[j] == s.subrange(i, i + 12)[j]);
        assert(enc_ts(t)[j] == spec_u64_to_le_bytes(t.secs)[j]);
    });
    assert_seqs_equal!(s.subrange(i + 8, i + 12) == spec_u32_to_le_bytes(t.nanos), j => {
        assert(s.subrange(i + 8, i + 12)[j] == s.subrange(i, i + 12)[j + 8]);
        assert(enc_ts(t)[j + 8] == spec_u32_to_le_bytes(t.nanos)[j]);
    });
}

/// An optional timestamp decodes from wherever its encoding was placed.
proof fn lemma_dec_opt_ts_at(s: Seq<u8>, i: int, o: Option<Timestamp>)
    requires
        0 <= i,
        i + 13 <= s.len(),
        s.subrange(i, i + 13) == enc_opt_ts(o),
    ensures
        dec_opt_ts(s, i) == Some(o),
{
    lemma_auto_spec_u64_to_from_le_bytes();
    lemma_auto_spec_u32_to_from_le_bytes();
    assert(s[i] == s.subrange(i, i + 13)[0]);
    match o {
        None => {
            assert(s[i] == 0u8);
        },
        Some(t) => {
            assert(s[i] == 1u8);
            assert(enc_ts(t).len() == 12);
            assert_seqs_equal!(s.subrange(i + 1, i + 13) == enc_ts(t), j => {
                assert(s.subrange(i + 1, i + 13)[j] == s.subrange(i, i + 13)[j + 1]);
                assert((seq![1u8] + enc_ts(t))[j + 1] == enc_ts(t)[j]);
            });
            lemma_dec_ts_at(s, i + 1, t);
        },
    }
}

/// An optional mode word decodes from wherever its encoding was placed.
proof fn lemma_dec_opt_u32_at(s: Seq<u8>, i: int, o: Option<u32>)
    requires
        0 <= i,
        i + 5 <= s.len(),
        s.subrange(i, i + 5) == enc_opt_u32(o),
    ensures
        dec_opt_u32(s, i) == Some(o),
{
    lemma_auto_spec_u32_to_from_le_bytes();
    assert(s[i] == s.subrange(i, i + 5)[0]);
    match o {
        None => {
            assert(s[i] == 0u8);
        },
        Some(m) => {
            assert(s[i] == 1u8);
            assert_seqs_equal!(s.subrange(i + 1, i + 5) == spec_u32_to_le_bytes(m), j => {
                assert(s.subrange(i + 1, i + 5)[j] == s.subrange(i, i + 5)[j + 1]);
                assert(enc_opt_u32(o)[j + 1] == spec_u32_to_le_bytes(m)[j]);
            });
        },
    }
}

/// Decoding an encoded record gives the record back.
pub proof fn lemma_decode_encode(r: RecordV)
    requires
        r.wf(),
    ensures
        spec_decode(spec_encode(r)) == Some(r),
{
    lemma_auto_spec_u64_to_from_le_bytes();
    lemma_auto_spec_u32_to_from_le_bytes();
    let e = spec_encode(r);
    match r {
        RecordV::Retract(t) => {
            assert(e.len() == 13);
            assert(e[0] == 1u8);
            assert_seqs_equal!(e.subrange(1, 13) == enc_ts(t));
            lemma_dec_ts_at(e, 1, t);
        },
        RecordV::Assert(t, fp) => {
            lemma_piece_lengths(t, fp.created, fp.unix_mode);
            lemma_piece_lengths(t, fp.modified, fp.unix_mode);
            assert(e.len() == 78);
            assert(e[0] == 0u8);
            assert_seqs_equal!(e.subrange(1, 13) == enc_ts(t));
            lemma_dec_ts_at(e, 1, t);
            assert_seqs_equal!(e.subrange(13, 45) == fp.content_hash);
            assert_seqs_equal!(e.subrange(45, 58) == enc_opt_ts(fp.created));
            lemma_dec_opt_ts_at(e, 45, fp.created);
            assert_seqs_equal!(e.subrange(58, 71) == enc_opt_ts(fp.modified));
            lemma_dec_opt_ts_at(e, 58, fp.modified);
            assert_seqs_equal!(e.subrange(71, 76) == enc_opt_u32(fp.unix_mode));
            lemma_dec_opt_u32_at(e, 71, fp.unix_mode);
            assert(e[76] == enc_bool(fp.symlink)[0]);
            assert(e[77] == enc_bool(fp.read_only)[0]);
            assert(dec_bool(e, 76) == Some(fp.symlink));
            assert(dec_bool(e, 77) == Some(fp.read_only));
            let decoded = spec_decode(e);
            assert(decoded matches Some(d) && d matches RecordV::Assert(t2, fp2) && t2 == t
                && fp2 =~= fp);
        },
    }
}

// ---------------------------------------------------------------------------
// Executable encoder and decoder.
// ---------------------------------------------------------------------------

/// Append the encoding of a timestamp.
fn write_ts(out: &mut Vec<u8>, t: Timestamp)
    ensures
        final(out)@ == old(out)@ + enc_ts(t),
{
    let ghost start = out@;
    let mut secs = u64_to_le_bytes(t.secs);
    let mut nanos = u32_to_le_bytes(t.nanos);
    out.append(&mut secs);
    out.append(&mut nanos);
    proof {
        assert_seqs_equal!(out@ == start + enc_ts(t));
    }
}

/// Append the encoding of an optional timestamp.
fn write_opt_ts(out: &mut Vec<u8>, o: Option<Timestamp>)
    ensures
        final(out)@ == old(out)@ + enc_opt_ts(o),
{
    let ghost start = out@;
    match o {
        None => {
            out.push(0u8);
            write_ts(out, Timestamp { secs: 0, nanos: 0 });
        },
        Some(t) => {
            out.push(1u8);
            write_ts(out, t);
        },
    }
    proof {
        assert_seqs_equal!(out@ == start + enc_opt_ts(o));
    }
}

/// Append the encoding of an optional mode word.
fn write_opt_u32(out: &mut Vec<u8>, o: Option<u32>)
    ensures
        final(out)@ == old(out)@ + enc_opt_u32(o),
{
    let ghost start = out@;
    match o {
        None => {
            out.push(0u8);
            let mut word = u32_to_le_bytes(0);
            out.append(&mut word);
        },
        Some(m) => {
            out.push(1u8);
            let mut word = u32_to_le_bytes(m);
            out.append(&mut word);
        },
    }
    proof {
        assert_seqs_equal!(out@ == start + enc_opt_u32(o));
    }
}

/// Append a flag.
fn write_bool(out: &mut Vec<u8>, b: bool)
    ensures
        final(out)@ == old(out)@ + enc_bool(b),
{
    let ghost start = out@;
    if b {
        out.push(1u8);
    } else {
        out.push(0u8);
    }
    proof {
        assert_seqs_equal!(out@ == start + enc_bool(b));
    }
}

/// Serialize an asserting record built from a borrowed fingerprint.
pub fn encode_assert(now: Timestamp, fingerprint: &Fingerprint) -> (r: Vec<u8>)
    ensures
        r@ == spec_encode(RecordV::Assert(now, fingerprint@)),
{
    let mut out: Vec<u8> = Vec::new();
    out.push(0u8);
    write_ts(&mut out, now);
    let mut hash = crate::paths::clone_bytes(&fingerprint.content_hash);
    out.append(&mut hash);
    write_opt_ts(&mut out, fingerprint.created);
    write_opt_ts(&mut out, fingerprint.modified);
    write_opt_u32(&mut out, fingerprint.unix_mode);
    write_bool(&mut out, fingerprint.symlink);
    write_bool(&mut out, fingerprint.read_only);
    proof {
        assert_seqs_equal!(out@ == spec_encode(RecordV::Assert(now, fingerprint@)));
    }
    out
}

/// Serialize a retracting record.
pub fn encode_retract(now: Timestamp) -> (r: Vec<u8>)
    ensures
        r@ == spec_encode(RecordV::Retract(now)),
{
    let mut out: Vec<u8> = Vec::new();
    out.push(1u8);
    write_ts(&mut out, now);
    proof {
        assert_seqs_equal!(out@ == spec_encode(RecordV::Retract(now)));
    }
    out
}

/// Read the timestamp encoded at offset `i`.
fn read_ts(s: &[u8], i: usize) -> (r: Timestamp)
    requires
        i + 12 <= s@.len(),
    ensures
        r == dec_ts(s@, i as int),
{
    let n = s.len();
    assert(i + 12 <= n);
    let secs = u64_from_le_bytes(vstd::slice::slice_subrange(s, i, i + 8));
    let nanos = u32_from_le_bytes(vstd::slice::slice_subrange(s, i + 8, i + 12));
    Timestamp { secs, nanos }
}

/// Read the optional timestamp whose presence byte is at offset `i`.
fn read_opt_ts(s: &[u8], i: usize) -> (r: Option<Option<Timestamp>>)
    requires
        i + 13 <= s@.len(),
    ensures
        r == dec_opt_ts(s@, i as int),
{
    let n = s.len();
    assert(i + 13 <= n);
    let flag = s[i];
    if flag == 0u8 {
        Some(None)
    } else if flag == 1u8 {
        Some(Some(read_ts(s, i + 1)))
    } else {
        None
    }
}

/// Read the optional mode word whose presence byte is at offset `i`.
fn read_opt_u32(s: &[u8], i: usize) -> (r: Option<Option<u32>>)
    requires
        i + 5 <= s@.len(),
    ensures
        r == dec_opt_u32(s@, i as int),
{
    let n = s.len();
    assert(i + 5 <= n);
    let flag = s[i];
    if flag == 0u8 {
        Some(None)
    } else if flag == 1u8 {
        Some(Some(u32_from_le_bytes(vstd::slice::slice_subrange(s, i + 1, i + 5))))
    } else {
        None
    }
}

/// Read the flag at offset `i`.
fn read_bool(s: &[u8], i: usize) -> (r: Option<bool>)
    requires
        i < s@.len(),
    ensures
        r == dec_bool(s@, i as int),
{
    let flag = s[i];
    if flag == 0u8 {
        Some(false)
    } else if flag == 1u8 {
        Some(true)
    } else {
        None
    }
}

impl FingerprintRecord {
    pub open spec fn view(&self) -> RecordV {
        match self {
            FingerprintRecord::Assert(t, fp) => RecordV::Assert(*t, fp@),
            FingerprintRecord::Retract(t) => RecordV::Retract(*t),
        }
    }

    pub open spec fn wf(&self) -> bool {
        self@.wf()
    }

    /// A record asserting the fingerprint as of the given time.
    pub fn assert_at(now: Timestamp, fingerprint: Fingerprint) -> (r: Self)
        ensures
            r@ == RecordV::Assert(now, fingerprint@),
    {
        FingerprintRecord::Assert(now, fingerprint)
    }

    /// A record retracting tracking as of the given time.
    pub fn retract(now: Timestamp) -> (r: Self)
        ensures
            r@ == RecordV::Retract(now),
    {
        FingerprintRecord::Retract(now)
    }

    /// The fingerprint this record asserts, if any.
    pub fn fingerprint(&self) -> (r: Option<&Fingerprint>)
        ensures
            match r {
                Some(fp) => self@.fingerprint_of() == Some(fp@),
                None => self@.fingerprint_of() is None,
            },
    {
        match self {
            FingerprintRecord::Assert(_, fp) => Some(fp),
            FingerprintRecord::Retract(_) => None,
        }
    }

    /// Serialize to bytes.
    pub fn to_vec(&self) -> (r: Vec<u8>)
        ensures
            r@ == spec_encode(self@),
    {
        match self {
            FingerprintRecord::Assert(t, fp) => encode_assert(*t, fp),
            FingerprintRecord::Retract(t) => encode_retract(*t),
        }
    }

    /// Deserialize from bytes. Succeeds exactly on the byte strings
    /// that encode a record.
    pub fn from_slice(input: &[u8]) -> (r: Result<Self, FimblError>)
        ensures
            match r {
                Ok(rec) => spec_decode(input@) == Some(rec@) && rec.wf(),
                Err(e) => spec_decode(input@) is None && e matches
                    FimblError::FingerprintDeserializationError,
            },
    {
        if input.len() == 13 && input[0] == 1u8 {
            Ok(FingerprintRecord::Retract(read_ts(input, 1)))
        } else if input.len() == 78 && input[0] == 0u8 {
            let created = match read_opt_ts(input, 45) {
                Some(v) => v,
                None => {
                    return Err(FimblError::FingerprintDeserializationError);
                },
            };
            let modified = match read_opt_ts(input, 58) {
                Some(v) => v,
                None => {
                    return Err(FimblError::FingerprintDeserializationError);
                },
            };
            let unix_mode = match read_opt_u32(input, 71) {
                Some(v) => v,
                None => {
                    return Err(FimblError::FingerprintDeserializationError);
                },
            };
            let symlink = match read_bool(input, 76) {
                Some(v) => v,
                None => {
                    return Err(FimblError::FingerprintDeserializationError);
                },
            };
            let read_only = match read_bool(input, 77) {
                Some(v) => v,
                None => {
                    return Err(FimblError::FingerprintDeserializationError);
                },
            };
            let t = read_ts(input, 1);
            let content_hash = vstd::slice::slice_to_vec(vstd::slice::slice_subrange(input, 13, 45));
            let fp = Fingerprint {
                content_hash,
                symlink,
                created,
                modified,
                unix_mode,
                read_only,
            };
            Ok(FingerprintRecord::Assert(t, fp))
        } else {
            Err(FimblError::FingerprintDeserializationError)
        }
    }
}

} // verus!
