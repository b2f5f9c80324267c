use fimbl::database::SystemDatabase;
use fimbl::fingerprint::{fingerprint_file, FileMeta, Fingerprint, Timestamp};
use fimbl::paths::FilePath;
use fimbl::report::{ReportItem, ReportKind};

fn meta() -> FileMeta {
    FileMeta {
        symlink: false,
        created: Some(Timestamp { secs: 1_700_000_000, nanos: 0 }),
        modified: Some(Timestamp { secs: 1_700_000_100, nanos: 0 }),
        unix_mode: Some(0o644),
        read_only: false,
    }
}

fn fp_of(content: &[u8]) -> Fingerprint {
    fingerprint_file(content, &meta())
}

fn path_of(name: &str) -> FilePath {
    FilePath::Encodable { key: name.as_bytes().to_vec() }
}

fn bad_path() -> FilePath {
    FilePath::Unsupported { raw: vec![0xFF, 0xFE, 0x80] }
}

fn now(secs: u64) -> Timestamp {
    Timestamp { secs, nanos: 0 }
}

fn open_db(dir: &str) -> SystemDatabase {
    SystemDatabase::open(String::from(dir)).unwrap()
}

/// Make the path logically absent whatever earlier runs left behind.
fn reset(db: &mut SystemDatabase, path: &FilePath) {
    let reports = db.remove_existing_file(path, true, now(1)).unwrap();
    assert!(reports.is_empty());
}

fn kinds(reports: &[ReportItem]) -> Vec<ReportKind> {
    reports.iter().map(|r| r.kind()).collect()
}

#[test]
fn add_then_verify_is_silent() {
    let mut db = open_db("/tmp/fimbl_test_add_verify");
    let path = path_of("/a/file");
    reset(&mut db, &path);
    let fp = fp_of(b"contents");
    assert!(db.store_new_file(&path, &fp, false, now(2)).unwrap().is_empty());
    // round trip: verifying the untouched fingerprint reports nothing
    assert!(db.verify(&path, &fp).unwrap().is_empty());
    // idempotence: verifying again reports nothing again
    assert!(db.verify(&path, &fp).unwrap().is_empty());
}

#[test]
fn drift_is_detected_exactly_once() {
    let mut db = open_db("/tmp/fimbl_test_drift");
    let path = path_of("/a/file");
    reset(&mut db, &path);
    let fp = fp_of(b"original");
    assert!(db.store_new_file(&path, &fp, false, now(2)).unwrap().is_empty());
    let changed = fp_of(b"mutated");
    let reports = db.verify(&path, &changed).unwrap();
    assert_eq!(kinds(&reports), vec![ReportKind::ContentChanged]);
    match &reports[0] {
        ReportItem::FileContentChanged { path: p } => match p {
            FilePath::Encodable { key } => assert_eq!(key, b"/a/file"),
            FilePath::Unsupported { .. } => panic!("wrong path kind"),
        },
        _ => panic!("wrong report variant"),
    }
}

#[test]
fn tolerant_add_twice() {
    let mut db = open_db("/tmp/fimbl_test_tolerant_add");
    let path = path_of("/a/file");
    reset(&mut db, &path);
    let fp = fp_of(b"same");
    assert!(db.store_new_file(&path, &fp, true, now(2)).unwrap().is_empty());
    // unchanged: the second tolerant add is silent
    assert!(db.store_new_file(&path, &fp, true, now(3)).unwrap().is_empty());
    // changed: the second tolerant add reports the changed content
    let changed = fp_of(b"different");
    let reports = db.store_new_file(&path, &changed, true, now(4)).unwrap();
    assert_eq!(kinds(&reports), vec![ReportKind::ContentChanged]);
    // and it did not overwrite: the original fingerprint still verifies
    assert!(db.verify(&path, &fp).unwrap().is_empty());
}

#[test]
fn strict_add_twice() {
    let mut db = open_db("/tmp/fimbl_test_strict_add");
    let path = path_of("/a/file");
    reset(&mut db, &path);
    let fp = fp_of(b"same");
    assert!(db.store_new_file(&path, &fp, false, now(2)).unwrap().is_empty());
    // already tracked, whatever the content
    let reports = db.store_new_file(&path, &fp, false, now(3)).unwrap();
    assert_eq!(kinds(&reports), vec![ReportKind::AlreadyTracked]);
    let changed = fp_of(b"different");
    let reports = db.store_new_file(&path, &changed, false, now(4)).unwrap();
    assert_eq!(kinds(&reports), vec![ReportKind::AlreadyTracked]);
}

#[test]
fn remove_then_verify_reports_untracked() {
    let mut db = open_db("/tmp/fimbl_test_remove_verify");
    let path = path_of("/a/file");
    reset(&mut db, &path);
    let fp = fp_of(b"bytes");
    assert!(db.store_new_file(&path, &fp, false, now(2)).unwrap().is_empty());
    assert!(db.remove_existing_file(&path, false, now(3)).unwrap().is_empty());
    let reports = db.verify(&path, &fp).unwrap();
    assert_eq!(kinds(&reports), vec![ReportKind::NotTracked]);
}

#[test]
fn readd_after_remove_is_allowed_even_strictly() {
    let mut db = open_db("/tmp/fimbl_test_readd");
    let path = path_of("/a/file");
    reset(&mut db, &path);
    let fp = fp_of(b"bytes");
    assert!(db.store_new_file(&path, &fp, false, now(2)).unwrap().is_empty());
    assert!(db.remove_existing_file(&path, false, now(3)).unwrap().is_empty());
    // a retracted path is treated as absent, even in strict mode
    assert!(db.store_new_file(&path, &fp, false, now(4)).unwrap().is_empty());
    assert!(db.verify(&path, &fp).unwrap().is_empty());
}

#[test]
fn listing_excludes_retracted_paths() {
    let mut db = open_db("/tmp/fimbl_test_listing");
    let a = path_of("/a");
    let b = path_of("/b");
    reset(&mut db, &a);
    reset(&mut db, &b);
    let fp_a = fp_of(b"a contents");
    let fp_b = fp_of(b"b contents");
    assert!(db.store_new_file(&a, &fp_a, false, now(2)).unwrap().is_empty());
    assert!(db.store_new_file(&b, &fp_b, false, now(3)).unwrap().is_empty());
    assert!(db.remove_existing_file(&a, false, now(4)).unwrap().is_empty());
    let listed = db.list_fingerprint_assertions().unwrap();
    let keys: Vec<Vec<u8>> = listed
        .iter()
        .map(|(p, _)| match p {
            FilePath::Encodable { key } => key.clone(),
            FilePath::Unsupported { .. } => panic!("listed an unsupported path"),
        })
        .collect();
    assert!(keys.contains(&b"/b".to_vec()));
    assert!(!keys.contains(&b"/a".to_vec()));
    for (p, fp) in &listed {
        if let FilePath::Encodable { key } = p {
            if key == b"/b" {
                assert!(fp.same_as(&fp_b));
            }
        }
    }
}

#[test]
fn untracked_paths_reported_by_update_and_remove() {
    let mut db = open_db("/tmp/fimbl_test_untracked");
    let path = path_of("/a/file");
    // make the path logically absent, then ask strictly
    reset(&mut db, &path);
    let fp = fp_of(b"bytes");
    // a retraction still counts as a record: update and remove accept it
    assert!(db.update_existing_file(&path, &fp, false, now(2)).unwrap().is_empty());
    assert!(db.remove_existing_file(&path, false, now(3)).unwrap().is_empty());
    // a never-tracked path is a report under the strict flag
    let fresh = path_of("/never/tracked/strictly");
    let reports = db.verify(&fresh, &fp).unwrap();
    assert_eq!(kinds(&reports), vec![ReportKind::NotTracked]);
}

#[test]
fn update_overwrites_without_comparing() {
    let mut db = open_db("/tmp/fimbl_test_update");
    let path = path_of("/a/file");
    reset(&mut db, &path);
    let fp = fp_of(b"old");
    assert!(db.store_new_file(&path, &fp, false, now(2)).unwrap().is_empty());
    let newer = fp_of(b"new");
    // accept the modification: no comparison, no report
    assert!(db.update_existing_file(&path, &newer, false, now(3)).unwrap().is_empty());
    assert!(db.verify(&path, &newer).unwrap().is_empty());
    let reports = db.verify(&path, &fp).unwrap();
    assert_eq!(kinds(&reports), vec![ReportKind::ContentChanged]);
}

#[test]
fn unsupported_name_touches_nothing() {
    let mut db = open_db("/tmp/fimbl_test_unsupported");
    let marker = path_of("/marker");
    reset(&mut db, &marker);
    let fp = fp_of(b"marker contents");
    assert!(db.store_new_file(&marker, &fp, false, now(2)).unwrap().is_empty());
    let before = db.list_fingerprint_assertions().unwrap().len();

    let bad = bad_path();
    let reports = db.store_new_file(&bad, &fp, false, now(3)).unwrap();
    assert_eq!(kinds(&reports), vec![ReportKind::NameNotSupported]);
    let reports = db.store_new_file(&bad, &fp, true, now(3)).unwrap();
    assert_eq!(kinds(&reports), vec![ReportKind::NameNotSupported]);
    let reports = db.update_existing_file(&bad, &fp, true, now(3)).unwrap();
    assert_eq!(kinds(&reports), vec![ReportKind::NameNotSupported]);
    let reports = db.remove_existing_file(&bad, true, now(3)).unwrap();
    assert_eq!(kinds(&reports), vec![ReportKind::NameNotSupported]);
    let reports = db.verify(&bad, &fp).unwrap();
    assert_eq!(kinds(&reports), vec![ReportKind::NameNotSupported]);

    // no store mutation happened on any of them
    assert_eq!(db.list_fingerprint_assertions().unwrap().len(), before);
    assert!(db.verify(&marker, &fp).unwrap().is_empty());
}

#[test]
fn database_path_is_kept() {
    let db = open_db("/tmp/fimbl_test_path");
    assert_eq!(db.path(), "/tmp/fimbl_test_path");
}
