//! Laws of the tracking store: how the operations relate to one
//! another, proved over the record log model
//! (see [`crate::model`]). Each store operation's contract says its
//! result is the model's; these lemmas therefore carry over to any
//! successful sequence of operations.

use vstd::prelude::*;

use crate::fingerprint::{FingerprintV, Timestamp};
use crate::model::{
    add_decision, current, spec_remove, spec_store_new, spec_update_existing, spec_verify,
    assert_keys, StoreV,
};
use crate::paths::FilePathV;
use crate::record::{lemma_decode_encode, spec_decode, spec_encode, RecordV};
use crate::report::{tagged, ReportItemV, ReportKind};

verus! {

/// Tagging a single kind gives the single report item.
proof fn lemma_tagged_singleton(kind: ReportKind, path: FilePathV)
    ensures
        tagged(seq![kind], path) == seq![ReportItemV { kind, path }],
{
    assert(tagged(seq![kind], path) =~= seq![ReportItemV { kind, path }]);
}

/// Tagging no kinds gives no report items.
proof fn lemma_tagged_empty(path: FilePathV)
    ensures
        tagged(Seq::<ReportKind>::empty(), path) == Seq::<ReportItemV>::empty(),
{
    assert(tagged(Seq::<ReportKind>::empty(), path) =~= Seq::<ReportItemV>::empty());
}

/// Law (idempotent verify): verifying a path whose stored record
/// asserts exactly the supplied fingerprint produces no report
/// events. Since verifying never changes the store, a second verify
/// right after sees the same store and produces none either.
pub proof fn lemma_verify_unchanged_idempotent(
    m: StoreV,
    path: FilePathV,
    k: Seq<u8>,
    t: Timestamp,
    fp: FingerprintV,
)
    requires
        path.key_of() == Some(k),
        m.contains_key(k),
        spec_decode(m[k]) == Some(RecordV::Assert(t, fp)),
    ensures
        spec_verify(m, path, fp) == Some(Seq::<ReportItemV>::empty()),
{
    lemma_tagged_empty(path);
}

/// After an add that reported nothing, the stored record under the
/// path's key asserts the added fingerprint.
proof fn lemma_silent_add_asserts(
    m: StoreV,
    path: FilePathV,
    k: Seq<u8>,
    fp: FingerprintV,
    now: Timestamp,
    tolerate_existing: bool,
    m2: StoreV,
    rs: Seq<ReportItemV>,
)
    requires
        fp.wf(),
        path.key_of() == Some(k),
        spec_store_new(m, path, fp, now, tolerate_existing) == Some((m2, rs)),
        rs.len() == 0,
    ensures
        m2.contains_key(k),
        exists|t: Timestamp| spec_decode(m2[k]) == Some(RecordV::Assert(t, fp)),
{
    match current(m, k) {
        None => {
            assert(false);
        },
        Some(existing) => {
            let (w, kinds) = add_decision(existing, fp, now, tolerate_existing);
            assert(tagged(kinds, path).len() == kinds.len());
            match existing {
                None => {
                    lemma_decode_encode(RecordV::Assert(now, fp));
                    assert(spec_decode(m2[k]) == Some(RecordV::Assert(now, fp)));
                },
                Some(RecordV::Retract(_)) => {
                    lemma_decode_encode(RecordV::Assert(now, fp));
                    assert(spec_decode(m2[k]) == Some(RecordV::Assert(now, fp)));
                },
                Some(RecordV::Assert(t, stored)) => {
                    // a report-free add over an existing assertion means
                    // the tolerant comparison matched; nothing was written
                    assert(tolerate_existing && stored == fp);
                    assert(m2 == m);
                    assert(spec_decode(m2[k]) == Some(RecordV::Assert(t, fp)));
                },
            }
        },
    }
}

/// Law (round trip): adding a fingerprint without any report event
/// and then verifying the same fingerprint on the resulting store
/// yields no report events.
pub proof fn lemma_add_then_verify(
    m: StoreV,
    path: FilePathV,
    fp: FingerprintV,
    now: Timestamp,
    tolerate_existing: bool,
    m2: StoreV,
    rs: Seq<ReportItemV>,
)
    requires
        fp.wf(),
        spec_store_new(m, path, fp, now, tolerate_existing) == Some((m2, rs)),
        rs.len() == 0,
    ensures
        spec_verify(m2, path, fp) == Some(Seq::<ReportItemV>::empty()),
{
    match path.key_of() {
        None => {
            assert(rs.len() == 1);
        },
        Some(k) => {
            lemma_silent_add_asserts(m, path, k, fp, now, tolerate_existing, m2, rs);
            let t = choose|t: Timestamp| spec_decode(m2[k]) == Some(RecordV::Assert(t, fp));
            lemma_verify_unchanged_idempotent(m2, path, k, t, fp);
        },
    }
}

/// Law (drift detection): adding a fingerprint without any report
/// event and then verifying a different fingerprint yields exactly
/// one "content changed" event for that path.
pub proof fn lemma_drift_detected(
    m: StoreV,
    path: FilePathV,
    fp: FingerprintV,
    now: Timestamp,
    tolerate_existing: bool,
    m2: StoreV,
    rs: Seq<ReportItemV>,
    fp2: FingerprintV,
)
    requires
        fp.wf(),
        spec_store_new(m, path, fp, now, tolerate_existing) == Some((m2, rs)),
        rs.len() == 0,
        fp2 != fp,
    ensures
        spec_verify(m2, path, fp2) == Some(
            seq![ReportItemV { kind: ReportKind::ContentChanged, path }],
        ),
{
    match path.key_of() {
        None => {
            assert(rs.len() == 1);
        },
        Some(k) => {
            lemma_silent_add_asserts(m, path, k, fp, now, tolerate_existing, m2, rs);
            lemma_tagged_singleton(ReportKind::ContentChanged, path);
        },
    }
}

/// Law (tolerant re-add): after an add that reported nothing, adding
/// again with the tolerant flag writes nothing; it is silent when the
/// fingerprint is unchanged and reports "content changed" otherwise.
pub proof fn lemma_tolerant_readd(
    m: StoreV,
    path: FilePathV,
    fp: FingerprintV,
    now: Timestamp,
    tolerate_existing: bool,
    m2: StoreV,
    rs: Seq<ReportItemV>,
    fp2: FingerprintV,
    now2: Timestamp,
)
    requires
        fp.wf(),
        spec_store_new(m, path, fp, now, tolerate_existing) == Some((m2, rs)),
        rs.len() == 0,
    ensures
        spec_store_new(m2, path, fp2, now2, true) == Some(
            (
                m2,
                if fp2 == fp {
                    Seq::<ReportItemV>::empty()
                } else {
                    seq![ReportItemV { kind: ReportKind::ContentChanged, path }]
                },
            ),
        ),
{
    match path.key_of() {
        None => {
            assert(rs.len() == 1);
        },
        Some(k) => {
            lemma_silent_add_asserts(m, path, k, fp, now, tolerate_existing, m2, rs);
            if fp2 == fp {
                lemma_tagged_empty(path);
            } else {
                lemma_tagged_singleton(ReportKind::ContentChanged, path);
            }
        },
    }
}

/// Law (strict re-add): after an add that reported nothing, adding
/// again without the tolerant flag reports "already tracked" and
/// writes nothing, whatever the new fingerprint.
pub proof fn lemma_strict_readd(
    m: StoreV,
    path: FilePathV,
    fp: FingerprintV,
    now: Timestamp,
    tolerate_existing: bool,
    m2: StoreV,
    rs: Seq<ReportItemV>,
    fp2: FingerprintV,
    now2: Timestamp,
)
    requires
        fp.wf(),
        spec_store_new(m, path, fp, now, tolerate_existing) == Some((m2, rs)),
        rs.len() == 0,
    ensures
        spec_store_new(m2, path, fp2, now2, false) == Some(
            (m2, seq![ReportItemV { kind: ReportKind::AlreadyTracked, path }]),
        ),
{
    match path.key_of() {
        None => {
            assert(rs.len() == 1);
        },
        Some(k) => {
            lemma_silent_add_asserts(m, path, k, fp, now, tolerate_existing, m2, rs);
            lemma_tagged_singleton(ReportKind::AlreadyTracked, path);
        },
    }
}

/// Law (remove then verify): after removing a path — whether or not
/// it was tracked — verifying it against any fingerprint reports
/// "not tracked": a retraction makes the path logically absent.
pub proof fn lemma_remove_then_verify(
    m: StoreV,
    path: FilePathV,
    k: Seq<u8>,
    now: Timestamp,
    tolerate_untracked: bool,
    fp2: FingerprintV,
)
    requires
        path.key_of() == Some(k),
    ensures
        ({
            let (m2, rs) = spec_remove(m, path, now, tolerate_untracked);
            spec_verify(m2, path, fp2) == Some(
                seq![ReportItemV { kind: ReportKind::NotTracked, path }],
            )
        }),
{
    let (m2, rs) = spec_remove(m, path, now, tolerate_untracked);
    if m.contains_key(k) || tolerate_untracked {
        lemma_decode_encode(RecordV::Retract(now));
        assert(spec_decode(m2[k]) == Some(RecordV::Retract(now)));
    } else {
        assert(!m2.contains_key(k));
    }
    lemma_tagged_singleton(ReportKind::NotTracked, path);
}

/// Law (listing excludes retracted paths): after a remove that wrote
/// a retraction, the removed key is no longer listed, and every other
/// key is listed exactly as before.
pub proof fn lemma_listing_excludes_retracted(
    m: StoreV,
    path: FilePathV,
    k: Seq<u8>,
    now: Timestamp,
    tolerate_untracked: bool,
    m2: StoreV,
    rs: Seq<ReportItemV>,
)
    requires
        path.key_of() == Some(k),
        spec_remove(m, path, now, tolerate_untracked) == (m2, rs),
        m.contains_key(k) || tolerate_untracked,
    ensures
        !assert_keys(m2).contains(k),
        forall|k2: Seq<u8>|
            k2 != k ==> (#[trigger] assert_keys(m2).contains(k2) <==> assert_keys(m).contains(k2)),
{
    lemma_decode_encode(RecordV::Retract(now));
    assert(m2 == m.insert(k, spec_encode(RecordV::Retract(now))));
    assert(spec_decode(m2[k]) == Some(RecordV::Retract(now)));
    assert forall|k2: Seq<u8>|
        k2 != k implies (#[trigger] assert_keys(m2).contains(k2) <==> assert_keys(m).contains(
        k2,
    )) by {
        assert(m2.contains_key(k2) <==> m.contains_key(k2));
        if m.contains_key(k2) {
            assert(m2[k2] == m[k2]);
        }
    }
}

/// Law (unsupported names): a path that cannot be encoded as a store
/// key yields exactly one "filename unsupported" report and leaves
/// the store untouched, for every operation.
pub proof fn lemma_unsupported_name_no_store_access(
    m: StoreV,
    path: FilePathV,
    fp: FingerprintV,
    now: Timestamp,
    tolerant: bool,
)
    requires
        path.key_of() is None,
    ensures
        spec_store_new(m, path, fp, now, tolerant) == Some(
            (m, seq![ReportItemV { kind: ReportKind::NameNotSupported, path }]),
        ),
        spec_update_existing(m, path, fp, now, tolerant) == (
            m,
            seq![ReportItemV { kind: ReportKind::NameNotSupported, path }],
        ),
        spec_remove(m, path, now, tolerant) == (
            m,
            seq![ReportItemV { kind: ReportKind::NameNotSupported, path }],
        ),
        spec_verify(m, path, fp) == Some(
            seq![ReportItemV { kind: ReportKind::NameNotSupported, path }],
        ),
{
    lemma_tagged_singleton(ReportKind::NameNotSupported, path);
}

} // verus!
