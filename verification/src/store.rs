//! Sealed per-user timezone records.
//!
//! A record is the user's timezone identifier under AES-128-GCM-SIV with the
//! process-wide key; the nonce is the user's id. `seal` and `open` make and read
//! records, and they are what a program that keeps the records in a database
//! calls.
//!
//! `UserRecords` and `EncryptedStore` are the table as a database is meant to
//! keep it, held in memory: at most one record for a user, and a write for a user
//! who has one replaces it. What is proved of upserts is proved of this table.
//! A database that holds the records is held to it by its own statement of an
//! upsert, which nothing here checks.

use vstd::prelude::*;
use vstd::string::StringSliceAdditionalSpecFns;
use aes_gcm_siv::aead::{Aead, NewAead};
use crate::catalog::{is_catalog_name, resolve_confirmed, TimezoneIdentifier};

verus! {

/// The length of the key in bytes.
pub const KEY_BYTES: usize = 16;

/// The length of a nonce in bytes.
pub const NONCE_BYTES: usize = 12;

/// The length of the authentication tag that ends a sealed value.
pub const TAG_BYTES: usize = 16;

/// The longest plaintext that the cipher takes, in bytes.
pub const MAX_PLAINTEXT_BYTES: u64 = 0x10_0000_0000;

/// The `Error` of the aead crate, which says that sealing or opening failed and,
/// on purpose, nothing more.
#[verifier::external_type_specification]
#[verifier::external_body]
pub struct ExAeadError(aes_gcm_siv::aead::Error);

/// The `FromHexError` of the hex crate: why a text is no hexadecimal string. It
/// is carried, not read.
#[verifier::external_type_specification]
#[verifier::external_body]
pub struct ExFromHexError(hex::FromHexError);

/// What AES-128-GCM-SIV makes of a plaintext under a key and a nonce: the
/// ciphertext, followed by the authentication tag.
pub uninterp spec fn sealed_bytes(key: Seq<u8>, nonce: Seq<u8>, plaintext: Seq<u8>) -> Seq<u8>;

/// What AES-128-GCM-SIV recovers from a sealed value under a key and a nonce:
/// the plaintext, or nothing where the value does not authenticate.
pub uninterp spec fn opened_bytes(key: Seq<u8>, nonce: Seq<u8>, sealed: Seq<u8>) -> Option<Seq<u8>>;

/// The value of one hexadecimal digit, of either case.
pub open spec fn hex_digit(c: u8) -> Option<u8> {
    if 0x30 <= c <= 0x39 {
        Some((c - 0x30) as u8)
    } else if 0x41 <= c <= 0x46 {
        Some((c - 0x41 + 10) as u8)
    } else if 0x61 <= c <= 0x66 {
        Some((c - 0x61 + 10) as u8)
    } else {
        None
    }
}

/// The bytes that a string of hexadecimal digits stands for, two digits to a
/// byte and the high one first; nothing for an odd number of digits or for a
/// character that is no digit.
pub open spec fn hex_decoded(digits: Seq<u8>) -> Option<Seq<u8>> {
    if digits.len() % 2 == 0 && (forall|i: int| 0 <= i < digits.len() ==> hex_digit(#[trigger] digits[i]).is_some()) {
        Some(
            Seq::new(
                digits.len() / 2,
                |i: int| (hex_digit(digits[2 * i]).unwrap() * 16 + hex_digit(digits[2 * i + 1]).unwrap()) as u8,
            ),
        )
    } else {
        None
    }
}

/// `hex::decode`: the bytes for an even number of hexadecimal digits, an error
/// for anything else.
#[verifier::external_body]
fn hex_decode(digits: &[u8]) -> (r: Result<Vec<u8>, hex::FromHexError>)
    ensures
        match r {
            Ok(bytes) => hex_decoded(digits@) == Some(bytes@),
            Err(_) => hex_decoded(digits@).is_none(),
        },
{
    hex::decode(digits)
}

/// `Aead::encrypt` of `Aes128GcmSiv`, made with `NewAead::new_from_slice`, without
/// associated data.
///
/// `new_from_slice` takes a key of 16 bytes and no other, and a nonce is an array
/// of 12 bytes, made from a slice of another length by a panic. Encryption fails
/// for a plaintext of more than 2^36 bytes and for nothing else. Its result is
/// the plaintext's length and a tag longer, and decryption under the same key
/// and nonce gives the plaintext back.
#[verifier::external_body]
fn aead_encrypt(key: &[u8], nonce: &[u8], plaintext: &[u8]) -> (r: Result<Vec<u8>, aes_gcm_siv::aead::Error>)
    requires
        key@.len() == KEY_BYTES,
        nonce@.len() == NONCE_BYTES,
    ensures
        r is Ok <==> plaintext@.len() <= MAX_PLAINTEXT_BYTES,
        r matches Ok(sealed) ==> {
            &&& sealed@ == sealed_bytes(key@, nonce@, plaintext@)
            &&& sealed@.len() == plaintext@.len() + TAG_BYTES
            &&& opened_bytes(key@, nonce@, sealed@) == Some(plaintext@)
        },
{
    let cipher = aes_gcm_siv::Aes128GcmSiv::new_from_slice(key)?;
    cipher.encrypt(aes_gcm_siv::Nonce::from_slice(nonce), plaintext)
}

/// `Aead::decrypt` of `Aes128GcmSiv`, made with `NewAead::new_from_slice`, without
/// associated data: the plaintext, or an error where the tag does not match.
#[verifier::external_body]
fn aead_decrypt(key: &[u8], nonce: &[u8], sealed: &[u8]) -> (r: Result<Vec<u8>, aes_gcm_siv::aead::Error>)
    requires
        key@.len() == KEY_BYTES,
        nonce@.len() == NONCE_BYTES,
    ensures
        match r {
            Ok(plaintext) => opened_bytes(key@, nonce@, sealed@) == Some(plaintext@),
            Err(_) => opened_bytes(key@, nonce@, sealed@).is_none(),
        },
{
    let cipher = aes_gcm_siv::Aes128GcmSiv::new_from_slice(key)?;
    cipher.decrypt(aes_gcm_siv::Nonce::from_slice(nonce), sealed)
}

/// `String::from_utf8`: the string whose encoding the bytes are, if they are
/// the encoding of one.
#[verifier::external_body]
fn text_of(bytes: Vec<u8>) -> (r: Option<String>)
    ensures
        match r {
            Some(text) => text@ == utf8_text(bytes@).unwrap() && utf8_text(bytes@).is_some(),
            None => utf8_text(bytes@).is_none(),
        },
{
    match String::from_utf8(bytes) {
        Ok(text) => Some(text),
        Err(_) => None,
    }
}

/// The text that a sequence of bytes encodes in UTF-8, if it encodes any.
pub open spec fn utf8_text(bytes: Seq<u8>) -> Option<Seq<char>> {
    if vstd::utf8::valid_utf8(bytes) {
        Some(vstd::utf8::decode_utf8(bytes))
    } else {
        None
    }
}

/// Why the process-wide key could not be loaded.
#[derive(Clone, Copy, Debug, PartialEq, Eq, Structural)]
pub enum ConfigError {
    /// The configured key is not written in hexadecimal digits.
    KeyNotHex,
    /// The configured key is not `KEY_BYTES` bytes long.
    KeyLength,
}

/// Why a record could not be sealed or opened.
#[derive(Clone, Copy, Debug, PartialEq, Eq, Structural)]
pub enum StoreError {
    /// The value is longer than the cipher takes.
    TooLong,
    /// The record does not authenticate under this key for this user: it was
    /// tampered with, or written under another key or for another user.
    Tampered,
    /// The record authenticates, but what it holds is no timezone of the catalog.
    NotATimezone,
}

/// The process-wide encryption key: `KEY_BYTES` bytes.
pub struct EncryptionKey {
    bytes: Vec<u8>,
}

impl View for EncryptionKey {
    type V = Seq<u8>;

    closed spec fn view(&self) -> Seq<u8> {
        self.bytes@
    }
}

impl EncryptionKey {
    #[verifier::type_invariant]
    spec fn has_key_length(&self) -> bool {
        self.bytes@.len() == KEY_BYTES
    }

    /// A key from its bytes; there must be `KEY_BYTES` of them.
    pub fn from_bytes(bytes: Vec<u8>) -> (r: Result<EncryptionKey, ConfigError>)
        ensures
            match r {
                Ok(key) => bytes@.len() == KEY_BYTES && key@ == bytes@,
                Err(e) => bytes@.len() != KEY_BYTES && e == ConfigError::KeyLength,
            },
    {
        if bytes.len() == KEY_BYTES {
            Ok(EncryptionKey { bytes })
        } else {
            Err(ConfigError::KeyLength)
        }
    }

    /// A key from the hexadecimal text that the configuration holds.
    pub fn from_hex(text: &str) -> (r: Result<EncryptionKey, ConfigError>)
        ensures
            match r {
                Ok(key) => hex_decoded(text.spec_bytes()) == Some(key@) && key@.len() == KEY_BYTES,
                Err(ConfigError::KeyNotHex) => hex_decoded(text.spec_bytes()).is_none(),
                Err(ConfigError::KeyLength) => hex_decoded(text.spec_bytes()) matches Some(bytes)
                    && bytes.len() != KEY_BYTES,
            },
    {
        match hex_decode(text.as_bytes()) {
            Err(_) => Err(ConfigError::KeyNotHex),
            Ok(bytes) => EncryptionKey::from_bytes(bytes),
        }
    }

    /// The bytes of the key.
    pub fn as_bytes(&self) -> (bytes: &[u8])
        ensures
            bytes@ == self@,
            bytes@.len() == KEY_BYTES,
    {
        proof {
            use_type_invariant(self);
        }
        self.bytes.as_slice()
    }
}

/// The nonce under which a user's record is sealed: the user's id in eight
/// bytes, low byte first, and four zero bytes.
pub open spec fn nonce_of(user_id: u64) -> Seq<u8> {
    vstd::bytes::spec_u64_to_le_bytes(user_id) + seq![0u8, 0u8, 0u8, 0u8]
}

/// The nonce of a user, `NONCE_BYTES` long.
pub fn user_nonce(user_id: u64) -> (nonce: Vec<u8>)
    ensures
        nonce@ == nonce_of(user_id),
        nonce@.len() == NONCE_BYTES,
{
    let mut nonce = vstd::bytes::u64_to_le_bytes(user_id);
    let ghost head = nonce@;
    nonce.push(0);
    nonce.push(0);
    nonce.push(0);
    nonce.push(0);
    assert(nonce@ == head + seq![0u8, 0u8, 0u8, 0u8]);
    nonce
}

/// The sealed record of a timezone for a user under a key.
pub open spec fn sealed_record(key: Seq<u8>, user_id: u64, timezone: Seq<char>) -> Seq<u8> {
    sealed_bytes(key, nonce_of(user_id), vstd::utf8::encode_utf8(timezone))
}

/// The timezone that a sealed record holds for a user under a key: nothing
/// where the record does not authenticate, is no text, or names no timezone of
/// the catalog.
pub open spec fn record_value(key: Seq<u8>, user_id: u64, sealed: Seq<u8>) -> Option<Seq<char>> {
    match opened_bytes(key, nonce_of(user_id), sealed) {
        None => None,
        Some(bytes) => match utf8_text(bytes) {
            None => None,
            Some(text) => if is_catalog_name(text) {
                Some(text)
            } else {
                None
            },
        },
    }
}

/// Seals a user's timezone for storage. The same key, user and timezone give
/// the same record, and `open` recovers the timezone from it.
pub fn seal(key: &EncryptionKey, user_id: u64, timezone: &TimezoneIdentifier) -> (r: Result<Vec<u8>, StoreError>)
    ensures
        match r {
            Ok(sealed) => {
                &&& vstd::utf8::encode_utf8(timezone@).len() <= MAX_PLAINTEXT_BYTES
                &&& sealed@ == sealed_record(key@, user_id, timezone@)
                &&& record_value(key@, user_id, sealed@) == Some(timezone@)
            },
            Err(e) => e == StoreError::TooLong && vstd::utf8::encode_utf8(timezone@).len()
                > MAX_PLAINTEXT_BYTES,
        },
{
    let nonce = user_nonce(user_id);
    let name = timezone.as_str();
    proof {
        vstd::utf8::encode_utf8_valid_utf8(name@);
        vstd::utf8::encode_utf8_decode_utf8(name@);
    }
    match aead_encrypt(key.as_bytes(), nonce.as_slice(), name.as_bytes()) {
        Ok(sealed) => Ok(sealed),
        Err(_) => Err(StoreError::TooLong),
    }
}

/// Opens a stored record of a user: the timezone it holds, checked against the
/// tag and against the catalog.
pub fn open(key: &EncryptionKey, user_id: u64, sealed: &[u8]) -> (r: Result<TimezoneIdentifier, StoreError>)
    ensures
        match r {
            Ok(timezone) => record_value(key@, user_id, sealed@) == Some(timezone@),
            Err(StoreError::Tampered) => opened_bytes(key@, nonce_of(user_id), sealed@).is_none(),
            Err(StoreError::NotATimezone) => opened_bytes(key@, nonce_of(user_id), sealed@).is_some()
                && record_value(key@, user_id, sealed@).is_none(),
            Err(StoreError::TooLong) => false,
        },
{
    let nonce = user_nonce(user_id);
    let bytes = match aead_decrypt(key.as_bytes(), nonce.as_slice(), sealed) {
        Ok(bytes) => bytes,
        Err(_) => {
            return Err(StoreError::Tampered);
        },
    };
    let text = match text_of(bytes) {
        Some(text) => text,
        None => {
            return Err(StoreError::NotATimezone);
        },
    };
    match resolve_confirmed(text.as_str()) {
        Ok(timezone) => Ok(timezone),
        Err(_) => Err(StoreError::NotATimezone),
    }
}

/// One stored record: a user and the sealed timezone.
pub struct Record {
    /// The user that the record belongs to.
    pub user_id: u64,
    /// The sealed timezone.
    pub sealed: Vec<u8>,
}

/// The table that a list of records stands for: each user with the sealed value
/// of the last record written for them.
pub open spec fn table_of(records: Seq<Record>) -> Map<u64, Seq<u8>>
    decreases records.len(),
{
    if records.len() == 0 {
        Map::empty()
    } else {
        table_of(records.drop_last()).insert(records.last().user_id, records.last().sealed@)
    }
}

/// True when no two records of the list belong to one user.
pub open spec fn one_per_user(records: Seq<Record>) -> bool {
    forall|i: int, j: int|
        0 <= i < j < records.len() ==> (#[trigger] records[i]).user_id != (#[trigger] records[j]).user_id
}

/// The users of a table are the users of its records.
pub proof fn lemma_table_users(records: Seq<Record>, user_id: u64)
    ensures
        table_of(records).dom().contains(user_id) <==> exists|i: int|
            0 <= i < records.len() && (#[trigger] records[i]).user_id == user_id,
    decreases records.len(),
{
    if records.len() > 0 {
        let before = records.drop_last();
        lemma_table_users(before, user_id);
        if table_of(records).dom().contains(user_id) {
            if records.last().user_id == user_id {
                assert(records[records.len() - 1].user_id == user_id);
            } else {
                let i = choose|i: int| 0 <= i < before.len() && (#[trigger] before[i]).user_id == user_id;
                assert(records[i].user_id == user_id);
            }
        }
        if exists|i: int| 0 <= i < records.len() && (#[trigger] records[i]).user_id == user_id {
            let i = choose|i: int| 0 <= i < records.len() && (#[trigger] records[i]).user_id == user_id;
            if i < before.len() {
                assert(before[i].user_id == user_id);
            }
        }
    }
}

/// Where users are distinct, the table gives each record's user that record's
/// value, and replacing a user's record replaces the user's value.
pub proof fn lemma_table_replace(records: Seq<Record>, i: int, record: Record)
    requires
        one_per_user(records),
        0 <= i < records.len(),
        record.user_id == records[i].user_id,
    ensures
        one_per_user(records.update(i, record)),
        table_of(records.update(i, record)) == table_of(records).insert(record.user_id, record.sealed@),
    decreases records.len(),
{
    let after = records.update(i, record);
    assert(one_per_user(after)) by {
        assert forall|a: int, b: int| 0 <= a < b < after.len() implies (#[trigger] after[a]).user_id != (
        #[trigger] after[b]).user_id by {
            assert(records[a].user_id != records[b].user_id);
        }
    }
    let before = records.drop_last();
    if i == records.len() - 1 {
        assert(after.drop_last() == before);
        assert(table_of(after) == table_of(records).insert(record.user_id, record.sealed@));
    } else {
        assert(one_per_user(before)) by {
            assert forall|a: int, b: int| 0 <= a < b < before.len() implies (#[trigger] before[a]).user_id != (
            #[trigger] before[b]).user_id by {
                assert(records[a].user_id != records[b].user_id);
            }
        }
        lemma_table_replace(before, i, record);
        assert(after.drop_last() == before.update(i, record));
        assert(after.last() == records.last());
        assert(records[i].user_id != records[records.len() - 1].user_id);
        assert(table_of(after) == table_of(records).insert(record.user_id, record.sealed@));
    }
}

/// Where users are distinct, the table has as many users as the list has
/// records.
pub proof fn lemma_table_len(records: Seq<Record>)
    requires
        one_per_user(records),
    ensures
        table_of(records).dom().finite(),
        table_of(records).dom().len() == records.len(),
    decreases records.len(),
{
    if records.len() > 0 {
        let before = records.drop_last();
        assert(one_per_user(before)) by {
            assert forall|a: int, b: int| 0 <= a < b < before.len() implies (#[trigger] before[a]).user_id != (
            #[trigger] before[b]).user_id by {
                assert(records[a].user_id != records[b].user_id);
            }
        }
        lemma_table_len(before);
        lemma_table_users(before, records.last().user_id);
        if table_of(before).dom().contains(records.last().user_id) {
            let i = choose|i: int| 0 <= i < before.len() && (#[trigger] before[i]).user_id == records.last().user_id;
            assert(records[i].user_id != records[records.len() - 1].user_id);
        }
    }
}

/// The table of stored records, at most one for a user, in memory.
pub struct UserRecords {
    records: Vec<Record>,
}

impl View for UserRecords {
    type V = Map<u64, Seq<u8>>;

    closed spec fn view(&self) -> Map<u64, Seq<u8>> {
        table_of(self.records@)
    }
}

impl UserRecords {
    /// True of a table in which no user has two records. Every table that this
    /// module hands out is well formed, and every method keeps it so.
    pub closed spec fn wf(&self) -> bool {
        one_per_user(self.records@)
    }

    /// The empty table.
    pub fn new() -> (table: UserRecords)
        ensures
            table.wf(),
            table@ == Map::<u64, Seq<u8>>::empty(),
    {
        UserRecords { records: Vec::new() }
    }

    /// The number of records, which is the number of users that have one.
    pub fn len(&self) -> (n: usize)
        requires
            self.wf(),
        ensures
            self@.dom().finite(),
            n == self@.dom().len(),
    {
        proof {
            lemma_table_len(self.records@);
        }
        self.records.len()
    }

    /// The position of a user's record in the list.
    fn position(&self, user_id: u64) -> (r: Option<usize>)
        ensures
            match r {
                Some(i) => i < self.records@.len() && self.records@[i as int].user_id == user_id,
                None => forall|i: int| 0 <= i < self.records@.len() ==> (#[trigger] self.records@[i]).user_id != user_id,
            },
    {
        let mut i: usize = 0;
        while i < self.records.len()
            invariant
                i <= self.records@.len(),
                forall|j: int| 0 <= j < i ==> (#[trigger] self.records@[j]).user_id != user_id,
            decreases self.records@.len() - i,
        {
            if self.records[i].user_id == user_id {
                return Some(i);
            }
            i += 1;
        }
        None
    }

    /// The sealed value stored for a user, if there is a record.
    pub fn get(&self, user_id: u64) -> (r: Option<&Vec<u8>>)
        requires
            self.wf(),
        ensures
            match r {
                Some(sealed) => self@.dom().contains(user_id) && sealed@ == self@[user_id],
                None => !self@.dom().contains(user_id),
            },
    {
        proof {
            lemma_table_users(self.records@, user_id);
        }
        match self.position(user_id) {
            Some(i) => {
                proof {
                    lemma_table_replace(self.records@, i as int, self.records@[i as int]);
                    assert(self.records@.update(i as int, self.records@[i as int]) == self.records@);
                }
                Some(&self.records[i].sealed)
            },
            None => None,
        }
    }

    /// Writes a user's record: in place of the one that the user has, or as a
    /// new one. Every other user's record stays as it is.
    pub fn upsert(&mut self, user_id: u64, sealed: Vec<u8>)
        requires
            old(self).wf(),
        ensures
            final(self).wf(),
            final(self)@ == old(self)@.insert(user_id, sealed@),
    {
        let record = Record { user_id, sealed };
        match self.position(user_id) {
            Some(i) => {
                proof {
                    lemma_table_replace(self.records@, i as int, record);
                }
                self.records.set(i, record);
            },
            None => {
                let ghost before = self.records@;
                assert(one_per_user(before.push(record)));
                assert(before.push(record).drop_last() == before);
                self.records.push(record);
            },
        }
    }
}

/// The timezone that a table holds for a user under a key, if it holds one
/// that opens.
pub open spec fn stored_timezone(key: Seq<u8>, table: Map<u64, Seq<u8>>, user_id: u64) -> Option<Seq<char>> {
    if table.dom().contains(user_id) {
        record_value(key, user_id, table[user_id])
    } else {
        None
    }
}

/// What one successful `upsert` of a timezone for a user does to the table.
pub open spec fn upserted(
    key: Seq<u8>,
    before: Map<u64, Seq<u8>>,
    user_id: u64,
    timezone: Seq<char>,
    after: Map<u64, Seq<u8>>,
) -> bool {
    &&& after == before.insert(user_id, sealed_record(key, user_id, timezone))
    &&& stored_timezone(key, after, user_id) == Some(timezone)
}

/// The store of user timezones, in memory: the key and the table of sealed
/// records.
pub struct EncryptedStore {
    key: EncryptionKey,
    records: UserRecords,
}

impl View for EncryptedStore {
    type V = Map<u64, Seq<u8>>;

    closed spec fn view(&self) -> Map<u64, Seq<u8>> {
        self.records@
    }
}

impl EncryptedStore {
    /// True of a store whose table is well formed.
    pub closed spec fn wf(&self) -> bool {
        self.records.wf()
    }

    /// The key that the records are sealed under.
    pub closed spec fn key(&self) -> Seq<u8> {
        self.key@
    }

    /// An empty store under a key.
    pub fn new(key: EncryptionKey) -> (store: EncryptedStore)
        ensures
            store.wf(),
            store.key() == key@,
            store@ == Map::<u64, Seq<u8>>::empty(),
    {
        EncryptedStore { key, records: UserRecords::new() }
    }

    /// The number of users that have a record.
    pub fn len(&self) -> (n: usize)
        requires
            self.wf(),
        ensures
            self@.dom().finite(),
            n == self@.dom().len(),
    {
        self.records.len()
    }

    /// Stores a user's timezone, sealed, in place of any that the user had.
    /// Where the value cannot be sealed, nothing is written.
    pub fn upsert(&mut self, user_id: u64, timezone: &TimezoneIdentifier) -> (r: Result<(), StoreError>)
        requires
            old(self).wf(),
        ensures
            final(self).wf(),
            final(self).key() == old(self).key(),
            match r {
                Ok(_) => upserted(old(self).key(), old(self)@, user_id, timezone@, final(self)@),
                Err(e) => e == StoreError::TooLong && final(self)@ == old(self)@
                    && vstd::utf8::encode_utf8(timezone@).len() > MAX_PLAINTEXT_BYTES,
            },
    {
        match seal(&self.key, user_id, timezone) {
            Ok(sealed) => {
                self.records.upsert(user_id, sealed);
                Ok(())
            },
            Err(e) => Err(e),
        }
    }

    /// The timezone stored for a user: `None` where the user has no record, an
    /// error where the record does not open.
    pub fn timezone_of(&self, user_id: u64) -> (r: Result<Option<TimezoneIdentifier>, StoreError>)
        requires
            self.wf(),
        ensures
            match r {
                Ok(Some(timezone)) => stored_timezone(self.key(), self@, user_id) == Some(timezone@),
                Ok(None) => !self@.dom().contains(user_id),
                Err(e) => self@.dom().contains(user_id) && stored_timezone(self.key(), self@, user_id).is_none()
                    && e != StoreError::TooLong,
            },
    {
        match self.records.get(user_id) {
            None => Ok(None),
            Some(sealed) => match open(&self.key, user_id, sealed.as_slice()) {
                Ok(timezone) => Ok(Some(timezone)),
                Err(e) => Err(e),
            },
        }
    }
}

/// Writing the same timezone for a user twice leaves the table as the first
/// write left it: one record for the user, holding that timezone.
pub proof fn lemma_upsert_idempotent(
    key: Seq<u8>,
    start: Map<u64, Seq<u8>>,
    user_id: u64,
    timezone: Seq<char>,
    once: Map<u64, Seq<u8>>,
    twice: Map<u64, Seq<u8>>,
)
    requires
        upserted(key, start, user_id, timezone, once),
        upserted(key, once, user_id, timezone, twice),
    ensures
        twice == once,
        twice.dom() == start.dom().insert(user_id),
        stored_timezone(key, twice, user_id) == Some(timezone),
{
    assert(twice =~= once);
    assert(twice.dom() =~= start.dom().insert(user_id));
}

/// Writing a second timezone for a user overwrites the first: the user has one
/// record, it holds the second timezone, and no other user's record changed.
pub proof fn lemma_upsert_overwrites(
    key: Seq<u8>,
    start: Map<u64, Seq<u8>>,
    user_id: u64,
    first: Seq<char>,
    second: Seq<char>,
    once: Map<u64, Seq<u8>>,
    twice: Map<u64, Seq<u8>>,
)
    requires
        upserted(key, start, user_id, first, once),
        upserted(key, once, user_id, second, twice),
    ensures
        twice == start.insert(user_id, sealed_record(key, user_id, second)),
        twice.dom() == start.dom().insert(user_id),
        stored_timezone(key, twice, user_id) == Some(second),
        forall|other: u64| other != user_id ==> stored_timezone(key, twice, other) == stored_timezone(key, start, other),
{
    assert(twice =~= start.insert(user_id, sealed_record(key, user_id, second)));
    assert(twice.dom() =~= start.dom().insert(user_id));
}

} // verus!
