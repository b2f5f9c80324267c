use fimbl::paths::{clone_bytes, path_as_key, path_from_key, FilePath};
use fimbl::preprocess::{preprocess_file_list, reject_directories, PathChain};
use fimbl::report::{ReportItem, ReportKind};

fn enc(name: &str) -> FilePath {
    FilePath::Encodable { key: name.as_bytes().to_vec() }
}

fn key_of(p: &FilePath) -> Option<Vec<u8>> {
    path_as_key(p).cloned()
}

#[test]
fn keys_round_trip_through_paths() {
    let p = enc("/etc/hosts");
    assert_eq!(key_of(&p), Some(b"/etc/hosts".to_vec()));
    let back = path_from_key(b"/etc/hosts".to_vec());
    assert_eq!(key_of(&back), Some(b"/etc/hosts".to_vec()));
    let bad = FilePath::Unsupported { raw: vec![0xFF] };
    assert_eq!(key_of(&bad), None);
}

#[test]
fn clone_bytes_copies_exactly() {
    let v = vec![1u8, 2, 3, 250];
    assert_eq!(clone_bytes(&v), v);
    let empty: Vec<u8> = Vec::new();
    assert_eq!(clone_bytes(&empty), empty);
}

#[test]
fn duplicate_preserves_the_path() {
    let p = enc("/a");
    let q = p.duplicate();
    assert_eq!(key_of(&p), key_of(&q));
    let u = FilePath::Unsupported { raw: vec![7, 8] };
    match u.duplicate() {
        FilePath::Unsupported { raw } => assert_eq!(raw, vec![7, 8]),
        FilePath::Encodable { .. } => panic!("wrong path kind"),
    }
}

#[test]
fn preprocess_partitions_chains() {
    let chains = vec![
        PathChain { links: vec![enc("/link"), enc("/file")], target_is_dir: false },
        PathChain { links: vec![enc("/dirlink"), enc("/dir")], target_is_dir: true },
        PathChain { links: vec![enc("/plain")], target_is_dir: false },
    ];
    let (files, dirs) = preprocess_file_list(&chains);
    let file_keys: Vec<Option<Vec<u8>>> = files.iter().map(key_of).collect();
    let dir_keys: Vec<Option<Vec<u8>>> = dirs.iter().map(key_of).collect();
    assert_eq!(
        file_keys,
        vec![
            Some(b"/link".to_vec()),
            Some(b"/file".to_vec()),
            Some(b"/plain".to_vec()),
        ]
    );
    assert_eq!(dir_keys, vec![Some(b"/dirlink".to_vec()), Some(b"/dir".to_vec())]);
}

#[test]
fn preprocess_of_nothing_is_nothing() {
    let chains: Vec<PathChain> = Vec::new();
    let (files, dirs) = preprocess_file_list(&chains);
    assert!(files.is_empty());
    assert!(dirs.is_empty());
}

#[test]
fn directories_are_reported() {
    let dirs = vec![enc("/d1"), enc("/d2")];
    let reports = reject_directories(&dirs);
    assert_eq!(reports.len(), 2);
    for (i, r) in reports.iter().enumerate() {
        assert_eq!(r.kind(), ReportKind::IsDirectory);
        let expected = if i == 0 { b"/d1".to_vec() } else { b"/d2".to_vec() };
        assert_eq!(key_of(r.reported_path()), Some(expected));
    }
    let none = reject_directories(&Vec::new());
    assert!(none.is_empty());
}

#[test]
fn report_items_carry_kind_and_path() {
    let item = ReportItem::of_kind(ReportKind::NotTracked, enc("/x"));
    assert_eq!(item.kind(), ReportKind::NotTracked);
    assert_eq!(key_of(item.reported_path()), Some(b"/x".to_vec()));
}
