use khronos_runtime::datamgmt::{aes256decrypt, aes256encrypt, base64decode, base64encode, CryptError, TarArchive, TarError};

#[test]
fn test_tar_archive() {
    let mut archive = TarArchive::new();
    archive.add_entry(b"foo/test.txt".to_vec(), b"Hello, world!".to_vec());
    let blob = archive.to_blob().unwrap();
    let mut tar_archive = TarArchive::from_array(blob).expect("Failed to read tar archive");
    assert_eq!(tar_archive.take_entry("foo/test.txt").unwrap(), b"Hello, world!".to_vec());
}

#[test]
fn archive_entries() {
    let mut a = TarArchive::new();
    a.add_entry(b"a".to_vec(), b"1".to_vec());
    a.add_entry(b"b".to_vec(), b"2".to_vec());
    a.add_entry(b"a".to_vec(), b"3".to_vec());
    assert_eq!(a.len(), 2);
    assert_eq!(a.entry_names(), vec![b"a".to_vec(), b"b".to_vec()]);
    let blob = a.to_blob().unwrap();
    let mut back = TarArchive::from(blob).unwrap();
    assert_eq!(back.len(), 2);
    assert_eq!(back.take_entry("a"), Some(b"3".to_vec()));
    assert_eq!(back.take_entry("a"), None);
    assert_eq!(back.len(), 1);
}

#[test]
fn damaged_archive_is_refused() {
    let garbage = vec![7u8; 700];
    assert!(matches!(TarArchive::from_array(garbage), Err(TarError::Io(_))));
    assert_eq!(TarError::EntryExceedsArchive.message(), "Entry size exceeds total archive size.");
    assert_eq!(TarError::EntryTooLarge(b"big.bin".to_vec()).message(), "Archive entry 'big.bin' exceeds maximum allowed size.");
    assert_eq!(TarError::EntryTooLarge(vec![b'a', 0xff]).message(), "Archive entry 'a\u{fffd}' exceeds maximum allowed size.");
}

#[test]
fn base64_roundtrip() {
    assert_eq!(base64encode(b"hello"), "aGVsbG8=");
    assert_eq!(base64decode(b"aGVsbG8=").unwrap(), b"hello".to_vec());
    let e = base64decode(b"!!").unwrap_err();
    assert!(e.message().starts_with("Failed to decode base64: "));
}

#[test]
fn encryption_roundtrip_and_framing() {
    let data = b"secret data".to_vec();
    let sealed = aes256encrypt(&data, "password").unwrap();
    assert_eq!(sealed.len(), 8 + 12 + data.len() + 16);
    assert_eq!(aes256decrypt(&sealed, "password").unwrap(), data);
    let wrong = aes256decrypt(&sealed, "other").unwrap_err();
    assert!(matches!(wrong, CryptError::Decrypt(_)));
    assert!(wrong.message().starts_with("Failed to decrypt: "));
    assert!(matches!(aes256decrypt(&[0u8; 19], "password"), Err(CryptError::TooShort)));
    assert_eq!(CryptError::TooShort.message(), "Blob data is too short to decrypt");
}
