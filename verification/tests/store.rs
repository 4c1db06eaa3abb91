use timezoner::catalog::resolve;
use timezoner::store::{
    open, seal, user_nonce, ConfigError, EncryptedStore, EncryptionKey, StoreError, UserRecords,
    KEY_BYTES, NONCE_BYTES, TAG_BYTES,
};

fn key() -> EncryptionKey {
    EncryptionKey::from_hex("000102030405060708090a0b0c0d0e0f").unwrap()
}

fn other_key() -> EncryptionKey {
    EncryptionKey::from_bytes(vec![7u8; 16]).unwrap()
}

#[test]
fn the_sizes_are_those_of_the_cipher() {
    assert_eq!(KEY_BYTES, 16);
    assert_eq!(NONCE_BYTES, 12);
    assert_eq!(TAG_BYTES, 16);
}

#[test]
fn a_key_is_read_from_hex_of_either_case() {
    let lower = EncryptionKey::from_hex("000102030405060708090a0b0c0d0e0f").unwrap();
    let upper = EncryptionKey::from_hex("000102030405060708090A0B0C0D0E0F").unwrap();
    let mixed = EncryptionKey::from_hex("000102030405060708090a0B0c0D0e0F").unwrap();
    let bytes: Vec<u8> = (0u8..16).collect();
    assert_eq!(lower.as_bytes(), bytes.as_slice());
    assert_eq!(upper.as_bytes(), bytes.as_slice());
    assert_eq!(mixed.as_bytes(), bytes.as_slice());
    let high = EncryptionKey::from_hex("ffeeddccbbaa99887766554433221100").unwrap();
    assert_eq!(
        high.as_bytes(),
        &[0xff, 0xee, 0xdd, 0xcc, 0xbb, 0xaa, 0x99, 0x88, 0x77, 0x66, 0x55, 0x44, 0x33, 0x22, 0x11, 0x00]
    );
}

#[test]
fn a_key_that_is_not_hex_is_refused() {
    assert_eq!(EncryptionKey::from_hex("000102030405060708090a0b0c0d0e0").err(), Some(ConfigError::KeyNotHex));
    assert_eq!(EncryptionKey::from_hex("000102030405060708090a0b0c0d0e0g").err(), Some(ConfigError::KeyNotHex));
    assert_eq!(EncryptionKey::from_hex("not a key").err(), Some(ConfigError::KeyNotHex));
    assert_eq!(EncryptionKey::from_hex("0x0102030405060708090a0b0c0d0e0f").err(), Some(ConfigError::KeyNotHex));
}

#[test]
fn a_key_of_another_length_is_refused() {
    assert_eq!(EncryptionKey::from_hex("").err(), Some(ConfigError::KeyLength));
    assert_eq!(EncryptionKey::from_hex("00010203").err(), Some(ConfigError::KeyLength));
    assert_eq!(
        EncryptionKey::from_hex("000102030405060708090a0b0c0d0e0f10").err(),
        Some(ConfigError::KeyLength)
    );
    assert_eq!(EncryptionKey::from_bytes(vec![0u8; 15]).err(), Some(ConfigError::KeyLength));
    assert_eq!(EncryptionKey::from_bytes(vec![0u8; 32]).err(), Some(ConfigError::KeyLength));
    assert!(EncryptionKey::from_bytes(vec![0u8; 16]).is_ok());
}

#[test]
fn the_nonce_is_the_user_id_low_byte_first() {
    assert_eq!(user_nonce(0), vec![0u8; 12]);
    assert_eq!(user_nonce(3), vec![3, 0, 0, 0, 0, 0, 0, 0, 0, 0, 0, 0]);
    assert_eq!(
        user_nonce(0x0102030405060708),
        vec![8, 7, 6, 5, 4, 3, 2, 1, 0, 0, 0, 0]
    );
    assert_eq!(user_nonce(u64::MAX), vec![255, 255, 255, 255, 255, 255, 255, 255, 0, 0, 0, 0]);
}

#[test]
fn a_sealed_record_opens_to_the_timezone() {
    let tokyo = resolve("Asia/Tokyo").unwrap();
    let sealed = seal(&key(), 42, &tokyo).unwrap();
    assert_eq!(open(&key(), 42, &sealed).unwrap().as_str(), "Asia/Tokyo");
}

#[test]
fn a_sealed_record_hides_the_timezone() {
    let tokyo = resolve("Asia/Tokyo").unwrap();
    let sealed = seal(&key(), 42, &tokyo).unwrap();
    assert_eq!(sealed.len(), "Asia/Tokyo".len() + 16);
    assert_ne!(&sealed[..10], "Asia/Tokyo".as_bytes());
    assert!(!sealed.windows(4).any(|w| w == b"Asia" || w == b"okyo"));
}

#[test]
fn sealing_is_a_function_of_key_user_and_timezone() {
    let tokyo = resolve("Asia/Tokyo").unwrap();
    let berlin = resolve("Europe/Berlin").unwrap();
    assert_eq!(seal(&key(), 42, &tokyo), seal(&key(), 42, &tokyo.duplicate()));
    assert_ne!(seal(&key(), 42, &tokyo), seal(&key(), 43, &tokyo));
    assert_ne!(seal(&key(), 42, &tokyo), seal(&other_key(), 42, &tokyo));
    assert_ne!(seal(&key(), 42, &tokyo), seal(&key(), 42, &berlin));
}

#[test]
fn a_record_does_not_open_for_another_user_or_key() {
    let tokyo = resolve("Asia/Tokyo").unwrap();
    let sealed = seal(&key(), 42, &tokyo).unwrap();
    assert_eq!(open(&key(), 43, &sealed).err(), Some(StoreError::Tampered));
    assert_eq!(open(&other_key(), 42, &sealed).err(), Some(StoreError::Tampered));
}

#[test]
fn a_changed_record_does_not_open() {
    let tokyo = resolve("Asia/Tokyo").unwrap();
    let sealed = seal(&key(), 42, &tokyo).unwrap();
    for at in 0..sealed.len() {
        let mut changed = sealed.clone();
        changed[at] ^= 1;
        assert_eq!(open(&key(), 42, &changed).err(), Some(StoreError::Tampered));
    }
    assert_eq!(open(&key(), 42, &sealed[..sealed.len() - 1]).err(), Some(StoreError::Tampered));
    assert_eq!(open(&key(), 42, &[]).err(), Some(StoreError::Tampered));
    assert_eq!(open(&key(), 42, &[0u8; 15]).err(), Some(StoreError::Tampered));
}

#[test]
fn the_table_keeps_one_record_for_a_user() {
    let mut table = UserRecords::new();
    assert_eq!(table.len(), 0);
    assert_eq!(table.get(1), None);
    table.upsert(1, vec![10]);
    table.upsert(2, vec![20]);
    assert_eq!(table.len(), 2);
    table.upsert(1, vec![11, 12]);
    assert_eq!(table.len(), 2);
    assert_eq!(table.get(1), Some(&vec![11, 12]));
    assert_eq!(table.get(2), Some(&vec![20]));
    assert_eq!(table.get(3), None);
}

#[test]
fn upsert_twice_with_the_same_timezone_leaves_one_record() {
    let tokyo = resolve("Asia/Tokyo").unwrap();
    let mut store = EncryptedStore::new(key());
    assert_eq!(store.upsert(42, &tokyo), Ok(()));
    assert_eq!(store.len(), 1);
    assert_eq!(store.upsert(42, &tokyo), Ok(()));
    assert_eq!(store.len(), 1);
    assert_eq!(store.timezone_of(42).unwrap().unwrap().as_str(), "Asia/Tokyo");
}

#[test]
fn upsert_overwrites_the_timezone_of_a_user() {
    let tokyo = resolve("Asia/Tokyo").unwrap();
    let berlin = resolve("Europe/Berlin").unwrap();
    let mut store = EncryptedStore::new(key());
    store.upsert(7, &tokyo).unwrap();
    store.upsert(42, &tokyo).unwrap();
    store.upsert(42, &berlin).unwrap();
    assert_eq!(store.len(), 2);
    assert_eq!(store.timezone_of(42).unwrap().unwrap().as_str(), "Europe/Berlin");
    assert_eq!(store.timezone_of(7).unwrap().unwrap().as_str(), "Asia/Tokyo");
}

#[test]
fn racing_upserts_leave_the_one_applied_last() {
    let tokyo = resolve("Asia/Tokyo").unwrap();
    let berlin = resolve("Europe/Berlin").unwrap();
    let mut one_order = EncryptedStore::new(key());
    one_order.upsert(42, &tokyo).unwrap();
    one_order.upsert(42, &berlin).unwrap();
    let mut other_order = EncryptedStore::new(key());
    other_order.upsert(42, &berlin).unwrap();
    other_order.upsert(42, &tokyo).unwrap();
    assert_eq!(one_order.len(), 1);
    assert_eq!(other_order.len(), 1);
    assert_eq!(one_order.timezone_of(42).unwrap().unwrap().as_str(), "Europe/Berlin");
    assert_eq!(other_order.timezone_of(42).unwrap().unwrap().as_str(), "Asia/Tokyo");
}

#[test]
fn a_user_without_a_record_has_no_timezone() {
    let store = EncryptedStore::new(key());
    assert!(store.timezone_of(42).unwrap().is_none());
}
