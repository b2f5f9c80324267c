use fimbl::fingerprint::{Fingerprint, Timestamp};
use fimbl::record::FingerprintRecord;

fn sample_hash(seed: u8) -> Vec<u8> {
    let mut h = Vec::new();
    let mut i: u8 = 0;
    while i < 32 {
        h.push(seed.wrapping_add(i));
        i += 1;
    }
    h
}

fn full_fingerprint() -> Fingerprint {
    Fingerprint {
        content_hash: sample_hash(7),
        symlink: true,
        created: Some(Timestamp { secs: 1_700_000_000, nanos: 123_456_789 }),
        modified: Some(Timestamp { secs: 1_700_000_001, nanos: 987_654_321 }),
        unix_mode: Some(0o100644),
        read_only: false,
    }
}

fn bare_fingerprint() -> Fingerprint {
    Fingerprint {
        content_hash: sample_hash(42),
        symlink: false,
        created: None,
        modified: None,
        unix_mode: None,
        read_only: true,
    }
}

#[test]
fn roundtrip_assert_full() {
    let rec = FingerprintRecord::assert_at(Timestamp { secs: 99, nanos: 5 }, full_fingerprint());
    let bytes = rec.to_vec();
    assert_eq!(bytes.len(), 78);
    assert_eq!(bytes[0], 0);
    let back = FingerprintRecord::from_slice(&bytes).unwrap();
    match back {
        FingerprintRecord::Assert(t, fp) => {
            assert_eq!(t, Timestamp { secs: 99, nanos: 5 });
            assert!(fp.same_as(&full_fingerprint()));
        }
        FingerprintRecord::Retract(_) => panic!("decoded the wrong variant"),
    }
}

#[test]
fn roundtrip_assert_bare() {
    let rec = FingerprintRecord::assert_at(Timestamp { secs: 0, nanos: 0 }, bare_fingerprint());
    let bytes = rec.to_vec();
    assert_eq!(bytes.len(), 78);
    let back = FingerprintRecord::from_slice(&bytes).unwrap();
    match back {
        FingerprintRecord::Assert(_, fp) => {
            assert!(fp.same_as(&bare_fingerprint()));
            assert!(fp.created.is_none());
            assert!(fp.modified.is_none());
            assert!(fp.unix_mode.is_none());
            assert!(fp.read_only);
            assert!(!fp.symlink);
        }
        FingerprintRecord::Retract(_) => panic!("decoded the wrong variant"),
    }
}

#[test]
fn roundtrip_retract() {
    let rec = FingerprintRecord::retract(Timestamp { secs: 1, nanos: 2 });
    let bytes = rec.to_vec();
    assert_eq!(bytes, vec![1u8, 1, 0, 0, 0, 0, 0, 0, 0, 2, 0, 0, 0]);
    let back = FingerprintRecord::from_slice(&bytes).unwrap();
    match back {
        FingerprintRecord::Retract(t) => assert_eq!(t, Timestamp { secs: 1, nanos: 2 }),
        FingerprintRecord::Assert(_, _) => panic!("decoded the wrong variant"),
    }
}

#[test]
fn retract_encoding_is_little_endian() {
    let rec = FingerprintRecord::retract(Timestamp { secs: 0x0102030405060708, nanos: 0x0A0B0C0D });
    let bytes = rec.to_vec();
    assert_eq!(
        bytes,
        vec![1u8, 8, 7, 6, 5, 4, 3, 2, 1, 0x0D, 0x0C, 0x0B, 0x0A]
    );
}

#[test]
fn decode_rejects_garbage() {
    assert!(FingerprintRecord::from_slice(&[]).is_err());
    assert!(FingerprintRecord::from_slice(&[2u8; 13]).is_err());
    assert!(FingerprintRecord::from_slice(&[0u8; 13]).is_err());
    assert!(FingerprintRecord::from_slice(&[1u8; 78]).is_err());
    assert!(FingerprintRecord::from_slice(&[0u8; 77]).is_err());
    // an assert-length record with an invalid presence byte
    let mut bytes = FingerprintRecord::assert_at(
        Timestamp { secs: 3, nanos: 4 },
        full_fingerprint(),
    )
    .to_vec();
    bytes[45] = 9;
    assert!(FingerprintRecord::from_slice(&bytes).is_err());
    // an assert-length record with an invalid flag byte
    let mut bytes2 = FingerprintRecord::assert_at(
        Timestamp { secs: 3, nanos: 4 },
        full_fingerprint(),
    )
    .to_vec();
    bytes2[76] = 2;
    assert!(FingerprintRecord::from_slice(&bytes2).is_err());
}

#[test]
fn fingerprint_accessor() {
    let rec = FingerprintRecord::assert_at(Timestamp { secs: 9, nanos: 9 }, full_fingerprint());
    assert!(rec.fingerprint().is_some());
    assert!(rec.fingerprint().unwrap().same_as(&full_fingerprint()));
    let retract = FingerprintRecord::retract(Timestamp { secs: 9, nanos: 9 });
    assert!(retract.fingerprint().is_none());
}

#[test]
fn same_as_distinguishes_every_field() {
    let base = full_fingerprint();
    assert!(base.same_as(&full_fingerprint()));
    let mut changed = full_fingerprint();
    changed.content_hash[0] ^= 1;
    assert!(!base.same_as(&changed));
    let mut changed = full_fingerprint();
    changed.symlink = false;
    assert!(!base.same_as(&changed));
    let mut changed = full_fingerprint();
    changed.created = None;
    assert!(!base.same_as(&changed));
    let mut changed = full_fingerprint();
    changed.modified = Some(Timestamp { secs: 0, nanos: 0 });
    assert!(!base.same_as(&changed));
    let mut changed = full_fingerprint();
    changed.unix_mode = None;
    assert!(!base.same_as(&changed));
    let mut changed = full_fingerprint();
    changed.read_only = true;
    assert!(!base.same_as(&changed));
}
