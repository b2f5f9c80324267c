use fimbl::fingerprint::{fingerprint_file, hash_contents, FileMeta, Fingerprint, Timestamp};
use sha3::{Digest, Sha3_256};

#[test]
fn hash_of_empty_input() {
    let expected = vec![
        0xa7, 0xff, 0xc6, 0xf8, 0xbf, 0x1e, 0xd7, 0x66, 0x51, 0xc1, 0x47, 0x56, 0xa0, 0x61, 0xd6,
        0x62, 0xf5, 0x80, 0xff, 0x4d, 0xe4, 0x3b, 0x49, 0xfa, 0x82, 0xd8, 0x0a, 0x4b, 0x80, 0xf8,
        0x43, 0x4a,
    ];
    assert_eq!(hash_contents(&[]), expected);
}

#[test]
fn hash_of_known_input() {
    let expected = vec![
        0x3a, 0x98, 0x5d, 0xa7, 0x4f, 0xe2, 0x25, 0xb2, 0x04, 0x5c, 0x17, 0x2d, 0x6b, 0xd3, 0x90,
        0xbd, 0x85, 0x5f, 0x08, 0x6e, 0x3e, 0x9d, 0x52, 0x5b, 0x46, 0xbf, 0xe2, 0x45, 0x11, 0x43,
        0x15, 0x32,
    ];
    assert_eq!(hash_contents(b"abc"), expected);
}

#[test]
fn chunked_hash_matches_one_shot_digest() {
    // long enough to exercise more than one 4096-byte chunk
    let mut content = Vec::new();
    for i in 0..10_000usize {
        content.push((i % 251) as u8);
    }
    let direct = Sha3_256::digest(&content);
    assert_eq!(hash_contents(&content), direct.as_slice().to_vec());
}

#[test]
fn fingerprint_carries_metadata_and_hash() {
    let meta = FileMeta {
        symlink: true,
        created: Some(Timestamp { secs: 10, nanos: 20 }),
        modified: None,
        unix_mode: Some(0o755),
        read_only: true,
    };
    let fp = fingerprint_file(b"hello", &meta);
    assert_eq!(fp.content_hash, hash_contents(b"hello"));
    assert!(fp.symlink);
    assert_eq!(fp.created, Some(Timestamp { secs: 10, nanos: 20 }));
    assert_eq!(fp.modified, None);
    assert_eq!(fp.unix_mode, Some(0o755));
    assert!(fp.read_only);
}

#[test]
fn from_file_equals_fingerprint_file() {
    let meta = FileMeta {
        symlink: false,
        created: None,
        modified: Some(Timestamp { secs: 3, nanos: 4 }),
        unix_mode: None,
        read_only: false,
    };
    let a = Fingerprint::from_file(b"content", &meta);
    let b = fingerprint_file(b"content", &meta);
    assert!(a.same_as(&b));
    // a different content gives a different hash
    let c = Fingerprint::from_file(b"content!", &meta);
    assert!(!a.same_as(&c));
}
