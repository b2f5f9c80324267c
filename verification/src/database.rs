//! The tracking store: a persistent map from canonical file path to
//! its current fingerprint record.
//!
//! The persistent substrate is a sled database; the `fingerprints`
//! tree inside it holds one serialized record per tracked path. Each
//! operation is a single read-modify-write against that tree and
//! returns the report events the record log model decides
//! (see [`crate::model`]).

use vstd::prelude::*;

use crate::error::FimblError;
use crate::fingerprint::{Fingerprint, Timestamp};
use crate::model::{
    spec_remove, spec_store_new, spec_update_existing, spec_verify, assert_keys, listed_entry,
    StoreV,
};
use crate::paths::{path_as_key, path_from_key, FilePath, FilePathV};
use crate::record::{encode_assert, encode_retract, spec_decode, FingerprintRecord, RecordV};
use crate::report::{ReportItem, ReportItemV, ReportKind};

verus! {

/// Declares `sled::Db`, the open database handle, as an opaque type.
#[verifier::external_type_specification]
#[verifier::external_body]
pub struct ExSledDb(sled::Db);

/// Declares `sled::Tree`, one key-value tree of a database, as an
/// opaque type; `tree_view` names what it holds.
#[verifier::external_type_specification]
#[verifier::external_body]
pub struct ExSledTree(sled::Tree);

/// The key-value pairs a sled tree holds.
pub uninterp spec fn tree_view(t: sled::Tree) -> Map<Seq<u8>, Seq<u8>>;

/// Relies on `sled::open`: opens the database at the given directory,
/// creating it if required.
#[verifier::external_body]
fn sled_open(path: &str) -> (r: Result<sled::Db, sled::Error>) {
    sled::open(std::path::Path::new(path))
}

/// Relies on `sled::Db::open_tree`: opens the tree of that name
/// within the database, creating it if required. Its contents are
/// whatever the database holds on disk.
#[verifier::external_body]
fn sled_open_tree(db: &sled::Db, name: &str) -> (r: Result<sled::Tree, sled::Error>) {
    db.open_tree(name)
}

/// Relies on `sled::Tree::get`: returns the value stored under the
/// key, if any.
#[verifier::external_body]
fn tree_get(t: &sled::Tree, key: &[u8]) -> (r: Result<Option<Vec<u8>>, sled::Error>)
    ensures
        match r {
            Ok(Some(v)) => tree_view(*t).contains_key(key@) && v@ == tree_view(*t)[key@],
            Ok(None) => !tree_view(*t).contains_key(key@),
            Err(_) => true,
        },
{
    match t.get(key) {
        Ok(Some(v)) => Ok(Some(v.to_vec())),
        Ok(None) => Ok(None),
        Err(e) => Err(e),
    }
}

/// Relies on `sled::Tree::contains_key`: says whether the tree holds
/// a value for the key.
#[verifier::external_body]
fn tree_contains(t: &sled::Tree, key: &[u8]) -> (r: Result<bool, sled::Error>)
    ensures
        r matches Ok(b) ==> b == tree_view(*t).contains_key(key@),
{
    t.contains_key(key)
}

/// Relies on `sled::Tree::insert`: sets the key to the value. On
/// failure nothing is assumed about the tree.
#[verifier::external_body]
fn tree_insert(t: &mut sled::Tree, key: &[u8], value: &[u8]) -> (r: Result<(), sled::Error>)
    ensures
        r matches Ok(u) ==> tree_view(*final(t)) == tree_view(*old(t)).insert(key@, value@),
{
    match (*t).insert(key, value) {
        Ok(_) => Ok(()),
        Err(e) => Err(e),
    }
}

/// Relies on `sled::Tree::iter`: yields every key-value pair of the
/// tree, each key exactly once.
#[verifier::external_body]
fn tree_entries(t: &sled::Tree) -> (r: Result<Vec<(Vec<u8>, Vec<u8>)>, sled::Error>)
    ensures
        r matches Ok(es) ==> {
            &&& forall|i: int|
                0 <= i < es@.len() ==> tree_view(*t).contains_key((#[trigger] es@[i]).0@)
                    && tree_view(*t)[es@[i].0@] == es@[i].1@
            &&& forall|k: Seq<u8>|
                #[trigger] tree_view(*t).contains_key(k) ==> exists|i: int|
                    0 <= i < es@.len() && (#[trigger] es@[i]).0@ == k
            &&& forall|i: int, j: int|
                0 <= i < j < es@.len() ==> (#[trigger] es@[i]).0@ != (#[trigger] es@[j]).0@
        },
{
    let mut out = Vec::new();
    for item in t.iter() {
        match item {
            Ok((k, v)) => out.push((k.to_vec(), v.to_vec())),
            Err(e) => return Err(e),
        }
    }
    Ok(out)
}

/// The tracking store: file fingerprint records, persisted in a sled
/// database.
pub struct SystemDatabase {
    /// Location of the data directory.
    path: String,
    /// The (open) sled database.
    db: sled::Db,
    /// The tree holding one serialized record per tracked path.
    tree: sled::Tree,
}

impl SystemDatabase {
    /// The byte map this store holds: store key to serialized record.
    pub closed spec fn view(&self) -> StoreV {
        tree_view(self.tree)
    }

    pub closed spec fn spec_path(&self) -> Seq<char> {
        self.path@
    }

    /// Path of the database directory.
    pub fn path(&self) -> (r: &String)
        ensures
            r@ == self.spec_path(),
    {
        &self.path
    }

    /// Open the database at the specified path, creating if required.
    /// The resulting view is whatever the directory holds on disk.
    pub fn open(db_dir: String) -> (r: Result<SystemDatabase, FimblError>)
        ensures
            (match r {
                Ok(d) => d.spec_path() == db_dir@,
                Err(e) => e matches FimblError::DatabaseError(_),
            }),
    {
        let db = match sled_open(db_dir.as_str()) {
            Ok(db) => db,
            Err(e) => {
                return Err(FimblError::DatabaseError(e));
            },
        };
        let tree = match sled_open_tree(&db, "fingerprints") {
            Ok(t) => t,
            Err(e) => {
                return Err(FimblError::DatabaseError(e));
            },
        };
        Ok(SystemDatabase { path: db_dir, db, tree })
    }

    /// Store the fingerprint for a new file in the database.
    ///
    /// A pre-existing assertion is a report: "already tracked" under
    /// the strict flag; under the tolerant flag the fingerprints are
    /// compared instead and only a mismatch is reported. Neither case
    /// updates the stored fingerprint (for that, use
    /// [`Self::update_existing_file`]). A retracted path is treated
    /// as absent and asserted afresh.
    pub fn store_new_file(
        &mut self,
        path: &FilePath,
        fingerprint: &Fingerprint,
        tolerate_existing: bool,
        now: Timestamp,
    ) -> (r: Result<Vec<ReportItem>, FimblError>)
        requires
            fingerprint.wf(),
        ensures
            (match r {
                Ok(reports) => spec_store_new(
                    old(self)@,
                    path@,
                    fingerprint@,
                    now,
                    tolerate_existing,
                ) matches Some((m2, rs)) && final(self)@ == m2 && reports@.map_values(
                    |it: ReportItem| it@,
                ) == rs,
                Err(e) => match e {
                    FimblError::DatabaseError(_) => true,
                    FimblError::FingerprintDeserializationError => spec_store_new(
                        old(self)@,
                        path@,
                        fingerprint@,
                        now,
                        tolerate_existing,
                    ) is None && final(self)@ == old(self)@,
                    FimblError::FileAccessError(_) => false,
                },
            }),
            // an unsupported name is decided without any store access,
            // so success is owed there
            path@.key_of() is None ==> r is Ok && final(self)@ == old(self)@,
            final(self).spec_path() == old(self).spec_path(),
    {
        let key = match path_as_key(path) {
            Some(k) => k,
            None => {
                return Ok(Self::unsupported_report(path));
            },
        };
        let got = match tree_get(&self.tree, key.as_slice()) {
            Ok(g) => g,
            Err(e) => {
                return Err(FimblError::DatabaseError(e));
            },
        };
        match got {
            None => self.insert_assertion(key, fingerprint, now),
            Some(record_bytes) => {
                let record = match FingerprintRecord::from_slice(record_bytes.as_slice()) {
                    Ok(rec) => rec,
                    Err(_) => {
                        return Err(FimblError::FingerprintDeserializationError);
                    },
                };
                match record.fingerprint() {
                    Some(stored_fingerprint) => {
                        let mut reports: Vec<ReportItem> = Vec::new();
                        if tolerate_existing {
                            if !stored_fingerprint.same_as(fingerprint) {
                                reports.push(
                                    ReportItem::FileContentChanged { path: path.duplicate() },
                                );
                            }
                        } else {
                            reports.push(ReportItem::FileAlreadyTracked { path: path.duplicate() });
                        }
                        proof {
                            Self::lemma_reports_tagged(reports@, path@);
                        }
                        Ok(reports)
                    },
                    None => self.insert_assertion(key, fingerprint, now),
                }
            },
        }
    }

    /// Write a fresh assertion under the key.
    fn insert_assertion(&mut self, key: &Vec<u8>, fingerprint: &Fingerprint, now: Timestamp) -> (r:
        Result<Vec<ReportItem>, FimblError>)
        ensures
            (match r {
                Ok(reports) => final(self)@ == old(self)@.insert(
                    key@,
                    crate::record::spec_encode(RecordV::Assert(now, fingerprint@)),
                ) && reports@.len() == 0,
                Err(e) => e matches FimblError::DatabaseError(_),
            }),
            final(self).spec_path() == old(self).spec_path(),
    {
        let bytes = encode_assert(now, fingerprint);
        match tree_insert(&mut self.tree, key.as_slice(), bytes.as_slice()) {
            Ok(_) => Ok(Vec::new()),
            Err(e) => Err(FimblError::DatabaseError(e)),
        }
    }

    /// Write a retraction under the key.
    fn insert_retraction(&mut self, key: &Vec<u8>, now: Timestamp) -> (r: Result<
        Vec<ReportItem>,
        FimblError,
    >)
        ensures
            (match r {
                Ok(reports) => final(self)@ == old(self)@.insert(
                    key@,
                    crate::record::spec_encode(RecordV::Retract(now)),
                ) && reports@.len() == 0,
                Err(e) => e matches FimblError::DatabaseError(_),
            }),
            final(self).spec_path() == old(self).spec_path(),
    {
        let bytes = encode_retract(now);
        match tree_insert(&mut self.tree, key.as_slice(), bytes.as_slice()) {
            Ok(_) => Ok(Vec::new()),
            Err(e) => Err(FimblError::DatabaseError(e)),
        }
    }

    /// The single "filename unsupported" report.
    fn unsupported_report(path: &FilePath) -> (r: Vec<ReportItem>)
        ensures
            r@.map_values(|it: ReportItem| it@) == crate::report::tagged(
                seq![ReportKind::NameNotSupported],
                path@,
            ),
    {
        let mut reports: Vec<ReportItem> = Vec::new();
        reports.push(ReportItem::FileNameNotSupported { path: path.duplicate() });
        proof {
            Self::lemma_reports_tagged(reports@, path@);
        }
        reports
    }

    /// A report vector whose items all carry one path maps to the
    /// tagging of its kinds.
    proof fn lemma_reports_tagged(reports: Seq<ReportItem>, path: FilePathV)
        requires
            forall|i: int| 0 <= i < reports.len() ==> (#[trigger] reports[i])@.path == path,
        ensures
            reports.map_values(|it: ReportItem| it@) == crate::report::tagged(
                reports.map_values(|it: ReportItem| it@.kind),
                path,
            ),
    {
        let lhs = reports.map_values(|it: ReportItem| it@);
        let rhs = crate::report::tagged(reports.map_values(|it: ReportItem| it@.kind), path);
        assert(lhs =~= rhs);
    }

    /// Store an updated fingerprint for an existing file in the
    /// database. An untracked path is a report, unless the tolerant
    /// flag is set, in which case the file is added.
    pub fn update_existing_file(
        &mut self,
        path: &FilePath,
        fingerprint: &Fingerprint,
        tolerate_untracked: bool,
        now: Timestamp,
    ) -> (r: Result<Vec<ReportItem>, FimblError>)
        requires
            fingerprint.wf(),
        ensures
            (match r {
                Ok(reports) => {
                    let (m2, rs) = spec_update_existing(
                        old(self)@,
                        path@,
                        fingerprint@,
                        now,
                        tolerate_untracked,
                    );
                    final(self)@ == m2 && reports@.map_values(|it: ReportItem| it@) == rs
                },
                Err(e) => e matches FimblError::DatabaseError(_),
            }),
            // an unsupported name is decided without any store access,
            // so success is owed there
            path@.key_of() is None ==> r is Ok && final(self)@ == old(self)@,
            final(self).spec_path() == old(self).spec_path(),
    {
        let key = match path_as_key(path) {
            Some(k) => k,
            None => {
                return Ok(Self::unsupported_report(path));
            },
        };
        let is_tracked = match tree_contains(&self.tree, key.as_slice()) {
            Ok(b) => b,
            Err(e) => {
                return Err(FimblError::DatabaseError(e));
            },
        };
        if is_tracked || tolerate_untracked {
            let res = self.insert_assertion(key, fingerprint, now);
            proof {
                let rs = spec_update_existing(
                    old(self)@,
                    path@,
                    fingerprint@,
                    now,
                    tolerate_untracked,
                ).1;
                assert(rs =~= Seq::<ReportItemV>::empty());
                match &res {
                    Ok(reports) => {
                        assert(reports@.map_values(|it: ReportItem| it@) =~= Seq::<
                            ReportItemV,
                        >::empty());
                    },
                    Err(_) => {},
                }
            }
            res
        } else {
            let mut reports: Vec<ReportItem> = Vec::new();
            reports.push(ReportItem::FileNotTracked { path: path.duplicate() });
            proof {
                Self::lemma_reports_tagged(reports@, path@);
                let rs = spec_update_existing(
                    old(self)@,
                    path@,
                    fingerprint@,
                    now,
                    tolerate_untracked,
                ).1;
                assert(reports@.map_values(|it: ReportItem| it@) =~= rs);
            }
            Ok(reports)
        }
    }

    /// Remove the fingerprint for the specified file, by writing a
    /// retraction. An untracked path is a report, unless the tolerant
    /// flag is set.
    pub fn remove_existing_file(
        &mut self,
        path: &FilePath,
        tolerate_untracked: bool,
        now: Timestamp,
    ) -> (r: Result<Vec<ReportItem>, FimblError>)
        ensures
            (match r {
                Ok(reports) => {
                    let (m2, rs) = spec_remove(old(self)@, path@, now, tolerate_untracked);
                    final(self)@ == m2 && reports@.map_values(|it: ReportItem| it@) == rs
                },
                Err(e) => e matches FimblError::DatabaseError(_),
            }),
            // an unsupported name is decided without any store access,
            // so success is owed there
            path@.key_of() is None ==> r is Ok && final(self)@ == old(self)@,
            final(self).spec_path() == old(self).spec_path(),
    {
        let key = match path_as_key(path) {
            Some(k) => k,
            None => {
                return Ok(Self::unsupported_report(path));
            },
        };
        let is_tracked = match tree_contains(&self.tree, key.as_slice()) {
            Ok(b) => b,
            Err(e) => {
                return Err(FimblError::DatabaseError(e));
            },
        };
        if is_tracked || tolerate_untracked {
            let res = self.insert_retraction(key, now);
            proof {
                let rs = spec_remove(old(self)@, path@, now, tolerate_untracked).1;
                assert(rs =~= Seq::<ReportItemV>::empty());
                match &res {
                    Ok(reports) => {
                        assert(reports@.map_values(|it: ReportItem| it@) =~= Seq::<
                            ReportItemV,
                        >::empty());
                    },
                    Err(_) => {},
                }
            }
            res
        } else {
            let mut reports: Vec<ReportItem> = Vec::new();
            reports.push(ReportItem::FileNotTracked { path: path.duplicate() });
            proof {
                Self::lemma_reports_tagged(reports@, path@);
                let rs = spec_remove(old(self)@, path@, now, tolerate_untracked).1;
                assert(reports@.map_values(|it: ReportItem| it@) =~= rs);
            }
            Ok(reports)
        }
    }

    /// Validate that the supplied fingerprint matches the one
    /// recorded for the path. Never writes.
    pub fn verify(&mut self, path: &FilePath, fingerprint: &Fingerprint) -> (r: Result<
        Vec<ReportItem>,
        FimblError,
    >)
        ensures
            final(self)@ == old(self)@,
            final(self).spec_path() == old(self).spec_path(),
            (match r {
                Ok(reports) => spec_verify(old(self)@, path@, fingerprint@) matches Some(rs)
                    && reports@.map_values(|it: ReportItem| it@) == rs,
                Err(e) => match e {
                    FimblError::DatabaseError(_) => true,
                    FimblError::FingerprintDeserializationError => spec_verify(
                        old(self)@,
                        path@,
                        fingerprint@,
                    ) is None,
                    FimblError::FileAccessError(_) => false,
                },
            }),
            // an unsupported name is decided without any store access,
            // so success is owed there
            path@.key_of() is None ==> r is Ok,
    {
        let key = match path_as_key(path) {
            Some(k) => k,
            None => {
                return Ok(Self::unsupported_report(path));
            },
        };
        let got = match tree_get(&self.tree, key.as_slice()) {
            Ok(g) => g,
            Err(e) => {
                return Err(FimblError::DatabaseError(e));
            },
        };
        let mut reports: Vec<ReportItem> = Vec::new();
        match got {
            None => {
                reports.push(ReportItem::FileNotTracked { path: path.duplicate() });
            },
            Some(record_bytes) => {
                let record = match FingerprintRecord::from_slice(record_bytes.as_slice()) {
                    Ok(rec) => rec,
                    Err(_) => {
                        return Err(FimblError::FingerprintDeserializationError);
                    },
                };
                match record.fingerprint() {
                    Some(stored_fingerprint) => {
                        if !stored_fingerprint.same_as(fingerprint) {
                            reports.push(ReportItem::FileContentChanged { path: path.duplicate() });
                        }
                    },
                    None => {
                        // fingerprint retracted
                        reports.push(ReportItem::FileNotTracked { path: path.duplicate() });
                    },
                }
            },
        }
        proof {
            Self::lemma_reports_tagged(reports@, path@);
        }
        Ok(reports)
    }

    /// List the currently tracked files and their fingerprints:
    /// exactly the entries whose current record is an assertion, each
    /// path once.
    #[verifier::rlimit(100)]
    pub fn list_fingerprint_assertions(&self) -> (r: Result<
        Vec<(FilePath, Fingerprint)>,
        FimblError,
    >)
        ensures
            (match r {
                Ok(list) => {
                    &&& forall|i: int|
                        0 <= i < list@.len() ==> listed_entry(
                            self@,
                            (#[trigger] list@[i]).0@,
                            list@[i].1@,
                        )
                    &&& forall|k: Seq<u8>|
                        #[trigger] assert_keys(self@).contains(k) ==> exists|i: int|
                            0 <= i < list@.len() && (#[trigger] list@[i]).0@ == (
                            FilePathV::Encodable { key: k })
                    &&& forall|i: int, j: int|
                        0 <= i < j < list@.len() ==> (#[trigger] list@[i]).0@ != (
                        #[trigger] list@[j]).0@
                    // a corrupt stored record is fatal to the whole
                    // listing, never skipped: success means every
                    // stored value decodes
                    &&& forall|k: Seq<u8>|
                        #[trigger] self@.contains_key(k) ==> spec_decode(self@[k]) is Some
                },
                Err(e) => match e {
                    FimblError::DatabaseError(_) => true,
                    FimblError::FingerprintDeserializationError => exists|k: Seq<u8>|
                        #[trigger] self@.contains_key(k) && spec_decode(self@[k]) is None,
                    FimblError::FileAccessError(_) => false,
                },
            }),
    {
        let entries = match tree_entries(&self.tree) {
            Ok(es) => es,
            Err(e) => {
                return Err(FimblError::DatabaseError(e));
            },
        };
        let mut out: Vec<(FilePath, Fingerprint)> = Vec::new();
        let mut i: usize = 0;
        while i < entries.len()
            invariant
                i <= entries@.len(),
                forall|a: int|
                    0 <= a < entries@.len() ==> self@.contains_key((#[trigger] entries@[a]).0@)
                        && self@[entries@[a].0@] == entries@[a].1@,
                forall|a: int, b: int|
                    0 <= a < b < entries@.len() ==> (#[trigger] entries@[a]).0@ != (
                    #[trigger] entries@[b]).0@,
                forall|a: int|
                    0 <= a < out@.len() ==> listed_entry(self@, (#[trigger] out@[a]).0@, out@[a].1@),
                forall|a: int|
                    0 <= a < out@.len() ==> exists|j: int|
                        0 <= j < i && ((#[trigger] out@[a]).0@ == (FilePathV::Encodable {
                            key: entries@[j].0@,
                        })),
                forall|j: int|
                    0 <= j < i && (spec_decode(self@[(#[trigger] entries@[j]).0@]) matches Some(
                        RecordV::Assert(_, _),
                    )) ==> exists|a: int|
                        0 <= a < out@.len() && ((#[trigger] out@[a]).0@ == (FilePathV::Encodable {
                            key: entries@[j].0@,
                        })),
                forall|j: int|
                    0 <= j < i ==> spec_decode(self@[(#[trigger] entries@[j]).0@]) is Some,
                forall|a: int, b: int|
                    0 <= a < b < out@.len() ==> (#[trigger] out@[a]).0@ != (#[trigger] out@[b]).0@,
            decreases entries@.len() - i,
        {
            let ghost iq = i as int;
            let ghost pre = out@;
            let (key_bytes, value_bytes) = &entries[i];
            proof {
                assert(key_bytes@ == entries@[iq].0@);
                assert(value_bytes@ == entries@[iq].1@);
                assert(self@[entries@[iq].0@] == value_bytes@);
            }
            let record = match FingerprintRecord::from_slice(value_bytes.as_slice()) {
                Ok(rec) => rec,
                Err(_) => {
                    return Err(FimblError::FingerprintDeserializationError);
                },
            };
            match record {
                FingerprintRecord::Assert(_t, fingerprint) => {
                    let path = path_from_key(crate::paths::clone_bytes(key_bytes));
                    out.push((path, fingerprint));
                    proof {
                        assert(out@[out@.len() - 1].0@ == (FilePathV::Encodable {
                            key: entries@[iq].0@,
                        }));
                        assert(listed_entry(
                            self@,
                            out@[out@.len() - 1].0@,
                            out@[out@.len() - 1].1@,
                        ));
                        assert(forall|a: int| 0 <= a < pre.len() ==> out@[a] == pre[a]);
                        assert forall|a: int| 0 <= a < out@.len() implies exists|j: int|
                            0 <= j < iq + 1 && ((#[trigger] out@[a]).0@ == (FilePathV::Encodable {
                                key: entries@[j].0@,
                            })) by {
                            if a < pre.len() {
                                let j = choose|j: int|
                                    0 <= j < iq && ((#[trigger] pre[a]).0@ == (
                                    FilePathV::Encodable { key: entries@[j].0@ }));
                                assert(0 <= j < iq + 1 && (out@[a].0@ == (FilePathV::Encodable {
                                    key: entries@[j].0@,
                                })));
                            } else {
                                assert(0 <= iq < iq + 1 && (out@[a].0@ == (FilePathV::Encodable {
                                    key: entries@[iq].0@,
                                })));
                            }
                        }
                        assert forall|j: int|
                            0 <= j < iq + 1 && (spec_decode(
                                self@[(#[trigger] entries@[j]).0@],
                            ) matches Some(RecordV::Assert(_, _))) implies exists|a: int|
                            0 <= a < out@.len() && ((#[trigger] out@[a]).0@ == (
                            FilePathV::Encodable { key: entries@[j].0@ })) by {
                            if j < iq {
                                let a = choose|a: int|
                                    0 <= a < pre.len() && ((#[trigger] pre[a]).0@ == (
                                    FilePathV::Encodable { key: entries@[j].0@ }));
                                assert(0 <= a < out@.len() && (out@[a].0@ == (FilePathV::Encodable {
                                    key: entries@[j].0@,
                                })));
                            } else {
                                let a = out@.len() - 1;
                                assert(0 <= a < out@.len() && (out@[a].0@ == (FilePathV::Encodable {
                                    key: entries@[j].0@,
                                })));
                            }
                        }
                        assert forall|a: int, b: int|
                            0 <= a < b < out@.len() implies (#[trigger] out@[a]).0@ != (
                        #[trigger] out@[b]).0@ by {
                            if b < pre.len() {
                                assert(pre[a].0@ != pre[b].0@);
                            } else if a < pre.len() {
                                let j = choose|j: int|
                                    0 <= j < iq && ((#[trigger] pre[a]).0@ == (
                                    FilePathV::Encodable { key: entries@[j].0@ }));
                                assert(entries@[j].0@ != entries@[iq].0@);
                            }
                        }
                    }
                },
                FingerprintRecord::Retract(_t) => {
                    proof {
                        assert(!(spec_decode(self@[entries@[iq].0@]) matches Some(
                            RecordV::Assert(_, _),
                        )));
                    }
                },
            }
            i = i + 1;
        }
        proof {
            assert forall|k: Seq<u8>| #[trigger] assert_keys(self@).contains(k) implies exists|
                a: int,
            |
                0 <= a < out@.len() && ((#[trigger] out@[a]).0@ == (FilePathV::Encodable {
                    key: k,
                })) by {
                assert(self@.contains_key(k));
                let j = choose|j: int|
                    0 <= j < entries@.len() && ((#[trigger] entries@[j]).0@ == k);
                assert(spec_decode(self@[entries@[j].0@]) matches Some(RecordV::Assert(_, _)));
            }
            assert forall|k: Seq<u8>| #[trigger] self@.contains_key(k) implies spec_decode(
                self@[k],
            ) is Some by {
                let j = choose|j: int|
                    0 <= j < entries@.len() && ((#[trigger] entries@[j]).0@ == k);
                assert(spec_decode(self@[entries@[j].0@]) is Some);
            }
        }
        Ok(out)
    }
}

} // verus!
