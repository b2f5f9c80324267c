//! The record log model: pure decision logic for the tracking store.
//!
//! Given the record currently stored for a path (if any), a newly
//! computed fingerprint and a tolerance flag, each decision function
//! says what record to write (if any) and which discrepancies to
//! report. The store-level functions lift the decisions to the byte
//! map the persistent substrate holds, through the record encoding.
//! The laws at the end relate the operations to one another.

use vstd::prelude::*;

use crate::fingerprint::{FingerprintV, Timestamp};
use crate::paths::FilePathV;
use crate::record::{spec_decode, spec_encode, RecordV};
use crate::report::{tagged, ReportItemV, ReportKind};

verus! {

/// The byte map held by the persistent substrate: store key to
/// serialized record.
pub type StoreV = Map<Seq<u8>, Seq<u8>>;

// ---------------------------------------------------------------------------
// Decisions over one existing record.
// ---------------------------------------------------------------------------

/// Add semantics: a fresh path (no record, or a retracted one) gets a
/// new assertion. An existing assertion is compared under the
/// tolerant flag and reported on mismatch, or reported as already
/// tracked under the strict flag; either way nothing is written.
pub open spec fn add_decision(
    existing: Option<RecordV>,
    fp: FingerprintV,
    now: Timestamp,
    tolerate_existing: bool,
) -> (Option<RecordV>, Seq<ReportKind>) {
    match existing {
        None => (Some(RecordV::Assert(now, fp)), Seq::<ReportKind>::empty()),
        Some(RecordV::Retract(_)) => (Some(RecordV::Assert(now, fp)), Seq::<ReportKind>::empty()),
        Some(RecordV::Assert(_, stored)) => if tolerate_existing {
            if stored == fp {
                (None, Seq::<ReportKind>::empty())
            } else {
                (None, seq![ReportKind::ContentChanged])
            }
        } else {
            (None, seq![ReportKind::AlreadyTracked])
        },
    }
}

/// Update semantics: overwrite unconditionally when the path has a
/// record or untracked paths are tolerated; otherwise report.
pub open spec fn update_decision(
    is_tracked: bool,
    fp: FingerprintV,
    now: Timestamp,
    tolerate_untracked: bool,
) -> (Option<RecordV>, Seq<ReportKind>) {
    if is_tracked || tolerate_untracked {
        (Some(RecordV::Assert(now, fp)), Seq::<ReportKind>::empty())
    } else {
        (None, seq![ReportKind::NotTracked])
    }
}

/// Remove semantics: write a retraction when the path has a record or
/// untracked paths are tolerated; otherwise report.
pub open spec fn remove_decision(is_tracked: bool, now: Timestamp, tolerate_untracked: bool) -> (
    Option<RecordV>,
    Seq<ReportKind>,
) {
    if is_tracked || tolerate_untracked {
        (Some(RecordV::Retract(now)), Seq::<ReportKind>::empty())
    } else {
        (None, seq![ReportKind::NotTracked])
    }
}

/// Verify semantics: an absent or retracted path is not tracked; an
/// asserted fingerprint is compared field for field, and any mismatch
/// is a content change. Nothing is ever written.
pub open spec fn verify_decision(existing: Option<RecordV>, fp: FingerprintV) -> Seq<ReportKind> {
    match existing {
        None => seq![ReportKind::NotTracked],
        Some(RecordV::Retract(_)) => seq![ReportKind::NotTracked],
        Some(RecordV::Assert(_, stored)) => if stored == fp {
            Seq::<ReportKind>::empty()
        } else {
            seq![ReportKind::ContentChanged]
        },
    }
}

// ---------------------------------------------------------------------------
// The store-level operations.
// ---------------------------------------------------------------------------

/// The record currently stored under a key: `None` when the stored
/// bytes do not parse, `Some(None)` when the key is absent.
pub open spec fn current(m: StoreV, k: Seq<u8>) -> Option<Option<RecordV>> {
    if m.contains_key(k) {
        match spec_decode(m[k]) {
            Some(r) => Some(Some(r)),
            None => None,
        }
    } else {
        Some(None)
    }
}

/// Apply a decided write to the store.
pub open spec fn apply_write(m: StoreV, k: Seq<u8>, w: Option<RecordV>) -> StoreV {
    match w {
        Some(r) => m.insert(k, spec_encode(r)),
        None => m,
    }
}

/// What storing a new file does: the store afterwards and the
/// reports, or `None` when the stored record does not parse.
pub open spec fn spec_store_new(
    m: StoreV,
    path: FilePathV,
    fp: FingerprintV,
    now: Timestamp,
    tolerate_existing: bool,
) -> Option<(StoreV, Seq<ReportItemV>)> {
    match path.key_of() {
        None => Some((m, tagged(seq![ReportKind::NameNotSupported], path))),
        Some(k) => match current(m, k) {
            None => None,
            Some(existing) => {
                let (w, kinds) = add_decision(existing, fp, now, tolerate_existing);
                Some((apply_write(m, k, w), tagged(kinds, path)))
            },
        },
    }
}

/// What updating an existing file does. No stored record is read, so
/// this is total.
pub open spec fn spec_update_existing(
    m: StoreV,
    path: FilePathV,
    fp: FingerprintV,
    now: Timestamp,
    tolerate_untracked: bool,
) -> (StoreV, Seq<ReportItemV>) {
    match path.key_of() {
        None => (m, tagged(seq![ReportKind::NameNotSupported], path)),
        Some(k) => {
            let (w, kinds) = update_decision(m.contains_key(k), fp, now, tolerate_untracked);
            (apply_write(m, k, w), tagged(kinds, path))
        },
    }
}

/// What removing a file does. No stored record is read, so this is
/// total.
pub open spec fn spec_remove(
    m: StoreV,
    path: FilePathV,
    now: Timestamp,
    tolerate_untracked: bool,
) -> (StoreV, Seq<ReportItemV>) {
    match path.key_of() {
        None => (m, tagged(seq![ReportKind::NameNotSupported], path)),
        Some(k) => {
            let (w, kinds) = remove_decision(m.contains_key(k), now, tolerate_untracked);
            (apply_write(m, k, w), tagged(kinds, path))
        },
    }
}

/// What verifying a file does: the store is never changed, so only
/// the reports come back, or `None` when the stored record does not
/// parse.
pub open spec fn spec_verify(m: StoreV, path: FilePathV, fp: FingerprintV) -> Option<
    Seq<ReportItemV>,
> {
    match path.key_of() {
        None => Some(tagged(seq![ReportKind::NameNotSupported], path)),
        Some(k) => match current(m, k) {
            None => None,
            Some(existing) => Some(tagged(verify_decision(existing, fp), path)),
        },
    }
}

/// The keys a listing shows: those whose current record asserts a
/// fingerprint. Retracted keys are excluded.
pub open spec fn assert_keys(m: StoreV) -> Set<Seq<u8>> {
    m.dom().filter(|k: Seq<u8>| spec_decode(m[k]) matches Some(RecordV::Assert(_, _)))
}

/// One listed entry: an encodable path whose key currently asserts
/// exactly this fingerprint.
pub open spec fn listed_entry(m: StoreV, p: FilePathV, fp: FingerprintV) -> bool {
    match p {
        FilePathV::Encodable { key } => m.contains_key(key) && (spec_decode(m[key]) matches Some(
            RecordV::Assert(_, f),
        ) && f == fp),
        FilePathV::Unsupported { raw: _ } => false,
    }
}

} // verus!
