//! A typed key-value settings store over a range of NOR flash.
//!
//! Records live in a log-structured map kept by `sequential_storage`, keyed by
//! a 32-bit hash of the setting's name. The reserved key 0 holds a format
//! marker: a store is usable only once the marker was found (`init`) or
//! freshly written (`reset`).
use core::ops::Range;
use embedded_storage_async::nor_flash::{NorFlash, NorFlashError, NorFlashErrorKind as Kind};
use sequential_storage::cache::NoCache;
use sequential_storage::Error as MapError;
use vstd::prelude::*;
use vstd::string::StringSliceAdditionalSpecFns;

verus! {

pub type SettingKey = u32;

/// Key of the format marker record.
pub const FORMAT_KEY: u32 = 0;

/// Format marker written by `reset` and required by `init`.
pub const DATA_FORMAT_STRING: &'static str = "settings-0.0";

pub open spec fn format_marker() -> Seq<u8> {
    DATA_FORMAT_STRING.spec_bytes()
}

#[verifier::external_type_specification]
#[verifier::external_body]
pub struct ExUtf8Error(core::str::Utf8Error);

#[verifier::external_type_specification]
#[verifier::external_body]
pub struct ExCborDecodeError(minicbor::decode::Error);

#[verifier::external_type_specification]
#[verifier::external_body]
pub struct ExSerdeDecodeError(minicbor_serde::error::DecodeError);

#[verifier::external_type_specification]
#[verifier::external_body]
#[verifier::reject_recursive_types(E)]
pub struct ExSerdeEncodeError<E>(minicbor_serde::error::EncodeError<E>);

#[verifier::external_type_specification]
#[verifier::external_body]
#[verifier::reject_recursive_types(E)]
pub struct ExMapError<E>(MapError<E>);

#[verifier::external_type_specification]
#[verifier::external_body]
pub struct ExEndOfSlice(minicbor::encode::write::EndOfSlice);

/// What the flash device reported when one of its operations failed.
#[derive(Debug, Clone, Copy, PartialEq, Eq, Structural)]
pub enum FlashErrorKind {
    NotAligned,
    OutOfBounds,
    Other,
}

/// Failures of the underlying log-structured map.
#[derive(Debug, Clone, Copy, PartialEq, Eq, Structural)]
pub enum StoreError {
    /// The flash device failed.
    Storage(FlashErrorKind),
    /// No room is left for the record.
    FullStorage,
    /// The flash content is not a valid log.
    Corrupted,
    /// The data buffer is larger than the map can address.
    BufferTooBig,
    /// The data buffer is too small; the size needed.
    BufferTooSmall(usize),
    /// A key or value could not be (de)serialized.
    Serialization,
    /// The record would not fit even in empty flash.
    ItemTooBig,
}

/// Failures of the settings store.
#[derive(Debug)]
pub enum SettingsError {
    /// Attempted to use settings before initialization
    NotReady,
    /// No persisted configuration was found
    NotFound,
    /// The found data was corrupt or invalid
    CorruptOrInvalid,
    /// The flash range is not aligned to the device's erase blocks or is
    /// shorter than two of them
    InvalidRange,
    /// The setting data could not be converted to a string
    StrConversionError(core::str::Utf8Error),
    /// The setting data is not a CBOR encoding of the requested type
    DecodeError(minicbor::decode::Error),
    /// The setting data does not deserialize into the requested type
    DeserializeError(minicbor_serde::error::DecodeError),
    /// The underlying map or flash failed
    InnerError(StoreError),
    /// The value's encoding does not fit the buffer given for it
    SerializeError(minicbor_serde::error::EncodeError<minicbor::encode::write::EndOfSlice>),
}

impl From<StoreError> for SettingsError {
    fn from(value: StoreError) -> (r: SettingsError) {
        SettingsError::InnerError(value)
    }
}

impl vstd::std_specs::convert::FromSpecImpl<StoreError> for SettingsError {
    open spec fn obeys_from_spec() -> bool {
        true
    }

    open spec fn from_spec(v: StoreError) -> SettingsError {
        SettingsError::InnerError(v)
    }
}

/// Word and block sizes of a flash device, in bytes.
#[derive(Debug, Clone, Copy, PartialEq, Eq, Structural)]
pub struct FlashGeometry {
    pub erase_size: usize,
    pub write_size: usize,
    pub read_size: usize,
}

/// The largest flash word the map supports.
pub const MAX_WORD_SIZE: usize = 32;

pub open spec fn word_size(g: FlashGeometry) -> int {
    if g.write_size > g.read_size {
        g.write_size as int
    } else {
        g.read_size as int
    }
}

/// The map's demands on its flash range: both ends on erase-block
/// boundaries, at least two blocks, and blocks of at least three words.
pub open spec fn range_fits(start: u32, end: u32, g: FlashGeometry) -> bool {
    &&& 0 < g.erase_size
    &&& 2 * g.erase_size <= u32::MAX
    &&& (start as int) % (g.erase_size as int) == 0
    &&& (end as int) % (g.erase_size as int) == 0
    &&& start <= end
    &&& end - start >= 2 * g.erase_size
    &&& g.erase_size >= 3 * word_size(g)
    &&& word_size(g) <= MAX_WORD_SIZE
}

pub fn range_fits_flash(start: u32, end: u32, g: FlashGeometry) -> (r: bool)
    ensures
        r == range_fits(start, end, g),
{
    if g.erase_size == 0 || g.erase_size > 0x7fff_ffff {
        return false;
    }
    let erase = g.erase_size as u32;
    let word = if g.write_size > g.read_size {
        g.write_size
    } else {
        g.read_size
    };
    if word > MAX_WORD_SIZE {
        return false;
    }
    start % erase == 0 && end % erase == 0 && start <= end && end - start >= 2 * erase
        && g.erase_size >= 3 * word
}

/// The 64-bit FNV-1a hash: from the offset basis, for each byte xor it in,
/// then multiply by the FNV prime, wrapping.
pub open spec fn fnv1a_64(bytes: Seq<u8>) -> u64
    decreases bytes.len(),
{
    if bytes.len() == 0 {
        0xcbf2_9ce4_8422_2325u64
    } else {
        (((fnv1a_64(bytes.drop_last()) ^ (bytes.last() as u64)) as int * 0x100_0000_01b3int)
            % 0x1_0000_0000_0000_0000int) as u64
    }
}

/// Relies on `fnv::FnvHasher` (64-bit FNV-1a from the standard offset
/// basis): the hash of the bytes written depends on those bytes alone.
#[verifier::external_body]
fn fnv_hash(bytes: &[u8]) -> (r: u64)
    ensures
        r == fnv1a_64(bytes@),
{
    let mut hasher = fnv::FnvHasher::default();
    core::hash::Hasher::write(&mut hasher, bytes);
    core::hash::Hasher::finish(&hasher)
}

/// The record key of a hash: its upper four bytes in reverse order, which
/// is `u64::from_be(hash) as u32` on the little-endian devices that write
/// these partitions.
pub open spec fn key_of_hash(h: u64) -> u32 {
    (((h >> 56u64) & 0xffu64) | (((h >> 48u64) & 0xffu64) << 8u64) | (((h >> 40u64) & 0xffu64)
        << 16u64) | (((h >> 32u64) & 0xffu64) << 24u64)) as u32
}

pub open spec fn record_key(key: &str) -> u32 {
    key_of_hash(fnv1a_64(key.spec_bytes()))
}

/// The record key under which the setting `key` is stored.
pub fn hash_key(key: &str) -> (r: SettingKey)
    ensures
        r == record_key(key),
{
    let h = fnv_hash(key.as_bytes());
    (((h >> 56u64) & 0xffu64) | (((h >> 48u64) & 0xffu64) << 8u64) | (((h >> 40u64) & 0xffu64)
        << 16u64) | (((h >> 32u64) & 0xffu64) << 24u64)) as u32
}

/// Relies on `String::from_utf8`: it fails exactly on bytes that are not
/// valid UTF-8, and otherwise keeps the bytes as the string's encoding, so
/// the string's characters are what the bytes decode to.
#[verifier::external_body]
pub(crate) fn string_from_utf8(bytes: Vec<u8>) -> (r: Result<String, core::str::Utf8Error>)
    ensures
        r is Ok <==> vstd::utf8::valid_utf8(bytes@),
        r is Ok ==> r->Ok_0@ == vstd::utf8::decode_utf8(bytes@),
{
    String::from_utf8(bytes).map_err(|e| e.utf8_error())
}

/// The verdict on what was found under the format key.
pub open spec fn marker_verdict(fetched: Result<Option<Seq<u8>>, StoreError>) -> Result<(), SettingsError> {
    match fetched {
        Ok(Some(v)) => if v == format_marker() {
            Ok(())
        } else {
            Err(SettingsError::CorruptOrInvalid)
        },
        Ok(None) => Err(SettingsError::NotFound),
        Err(StoreError::Corrupted) => Err(SettingsError::CorruptOrInvalid),
        Err(e) => Err(SettingsError::InnerError(e)),
    }
}

pub open spec fn fetched_view(fetched: Result<Option<Vec<u8>>, StoreError>) -> Result<Option<Seq<u8>>, StoreError> {
    match fetched {
        Ok(Some(v)) => Ok(Some(v@)),
        Ok(None) => Ok(None),
        Err(e) => Err(e),
    }
}

/// Judges what a lookup of the format key returned: the marker itself is
/// accepted, any other value or a corrupted log is `CorruptOrInvalid`, an
/// absent record is `NotFound`, and other storage failures pass through.
pub fn check_format_marker(fetched: Result<Option<Vec<u8>>, StoreError>) -> (r: Result<(), SettingsError>)
    ensures
        r == marker_verdict(fetched_view(fetched)),
{
    match fetched {
        Ok(Some(v)) => {
            let marker = DATA_FORMAT_STRING.as_bytes();
            if bytes_equal(v.as_slice(), marker) {
                Ok(())
            } else {
                Err(SettingsError::CorruptOrInvalid)
            }
        },
        Ok(None) => Err(SettingsError::NotFound),
        Err(StoreError::Corrupted) => Err(SettingsError::CorruptOrInvalid),
        Err(e) => Err(SettingsError::InnerError(e)),
    }
}

pub fn bytes_equal(a: &[u8], b: &[u8]) -> (r: bool)
    ensures
        r == (a@ == b@),
{
    if a.len() != b.len() {
        return false;
    }
    let mut i: usize = 0;
    while i < a.len()
        invariant
            a@.len() == b@.len(),
            i <= a@.len(),
            forall|j: int| 0 <= j < i ==> a@[j] == b@[j],
        decreases a@.len() - i,
    {
        if a[i] != b[i] {
            return false;
        }
        i = i + 1;
    }
    assert(a@ =~= b@);
    true
}

/// Turns what `get` returned into text: valid UTF-8 becomes a string,
/// other bytes a `StrConversionError`; absence and errors pass through.
pub fn decode_str(fetched: Result<Option<Vec<u8>>, SettingsError>) -> (r: Result<Option<String>, SettingsError>)
    ensures
        match fetched {
            Ok(Some(v)) => if vstd::utf8::valid_utf8(v@) {
                r is Ok && r->Ok_0 is Some && r->Ok_0->Some_0@ == vstd::utf8::decode_utf8(v@)
            } else {
                r is Err && r->Err_0 is StrConversionError
            },
            Ok(None) => r is Ok && r->Ok_0 is None,
            Err(e) => r == Err::<Option<String>, SettingsError>(e),
        },
{
    match fetched {
        Ok(Some(bytes)) => match string_from_utf8(bytes) {
            Ok(s) => Ok(Some(s)),
            Err(e) => Err(SettingsError::StrConversionError(e)),
        },
        Ok(None) => Ok(None),
        Err(e) => Err(e),
    }
}

/// Relies on the `NorFlash` constants of the flash driver type. `Settings`
/// admits only ranges that `range_fits` these sizes, which is what
/// `sequential_storage` asserts before it touches the flash.
#[verifier::external_body]
fn flash_geometry<S: NorFlash>() -> (r: FlashGeometry) {
    FlashGeometry { erase_size: S::ERASE_SIZE, write_size: S::WRITE_SIZE, read_size: S::READ_SIZE }
}

/// Relies on the variants of `sequential_storage::Error`, one for one, and
/// on `NorFlashError::kind` of the flash driver's error.
#[verifier::external_body]
fn store_error<E: NorFlashError>(e: MapError<E>) -> (r: StoreError) {
    match e {
        MapError::Storage { value, .. } => StoreError::Storage(match value.kind() {
            Kind::NotAligned => FlashErrorKind::NotAligned,
            Kind::OutOfBounds => FlashErrorKind::OutOfBounds,
            _ => FlashErrorKind::Other,
        }),
        MapError::FullStorage => StoreError::FullStorage,
        MapError::Corrupted { .. } => StoreError::Corrupted,
        MapError::BufferTooBig => StoreError::BufferTooBig,
        MapError::BufferTooSmall(n) => StoreError::BufferTooSmall(n),
        MapError::ItemTooBig => StoreError::ItemTooBig,
        _ => StoreError::Serialization,
    }
}

/// What the store knows of the records in its flash range: a key in the
/// domain maps to its value, or to `None` when no record has that key; a
/// key outside the domain is unknown (the flash was handed in with content
/// this process has not looked at, or an operation failed part way).
pub type Records = Map<u32, Option<Seq<u8>>>;

/// The records of a range that was just erased: every key is absent.
pub open spec fn erased_records() -> Records {
    Map::new(|k: u32| true, |k: u32| None::<Seq<u8>>)
}

/// The records right after `reset`: only the format marker.
pub open spec fn fresh_records() -> Records {
    erased_records().insert(FORMAT_KEY, Some(format_marker()))
}

/// A lookup of `key` that found `found` agrees with what was known.
pub open spec fn agrees(known: Records, key: u32, found: Option<Seq<u8>>) -> bool {
    known.contains_key(key) ==> known[key] == found
}

pub open spec fn found_view(found: Option<Vec<u8>>) -> Option<Seq<u8>> {
    match found {
        Some(v) => Some(v@),
        None => None,
    }
}

/// What is known after a lookup of `key` ended with `fetched`.
pub open spec fn after_lookup(known: Records, key: u32, fetched: Result<Option<Seq<u8>>, StoreError>) -> Records {
    match fetched {
        Ok(found) => known.insert(key, found),
        Err(_) => Map::empty(),
    }
}

/// A lookup of `key` over `known` may have ended with `fetched`.
pub open spec fn lookup_possible(known: Records, key: u32, fetched: Result<Option<Seq<u8>>, StoreError>) -> bool {
    match fetched {
        Ok(found) => agrees(known, key, found),
        Err(_) => true,
    }
}

/// A ready store: the flash range fits the device, and the format marker was
/// found or written.
pub struct Settings<S> {
    storage: S,
    storage_range: Range<u32>,
    geometry: FlashGeometry,
    data_buffer: Vec<u8>,
    records: Ghost<Records>,
}

/// A store that has not yet checked or written its format marker.
pub struct UninitializedSettings<S> {
    storage: S,
    storage_range: Range<u32>,
    geometry: FlashGeometry,
    data_buffer: Vec<u8>,
    records: Ghost<Records>,
}

impl<S> Settings<S> {
    #[verifier::type_invariant]
    closed spec fn range_ok(self) -> bool {
        range_fits(self.storage_range.start, self.storage_range.end, self.geometry)
    }

    pub closed spec fn spec_start(&self) -> u32 {
        self.storage_range.start
    }

    pub closed spec fn spec_end(&self) -> u32 {
        self.storage_range.end
    }

    pub closed spec fn spec_buffer_len(&self) -> nat {
        self.data_buffer@.len()
    }

    /// What is known of the records in the flash range.
    pub closed spec fn spec_records(&self) -> Records {
        self.records@
    }

    /// Hands the flash back to the caller.
    pub fn into_storage(self) -> S {
        self.storage
    }

    /// Closes the store, keeping its flash: `init` on the result reopens it.
    pub fn close(self) -> (r: UninitializedSettings<S>)
        ensures
            r.spec_start() == self.spec_start(),
            r.spec_end() == self.spec_end(),
            r.spec_buffer_len() == self.spec_buffer_len(),
            r.spec_records() == self.spec_records(),
            r.spec_fits(),
    {
        proof {
            use_type_invariant(&self);
        }
        UninitializedSettings {
            storage: self.storage,
            storage_range: self.storage_range,
            geometry: self.geometry,
            data_buffer: self.data_buffer,
            records: self.records,
        }
    }
}

impl<S> UninitializedSettings<S> {
    pub closed spec fn spec_start(&self) -> u32 {
        self.storage_range.start
    }

    pub closed spec fn spec_end(&self) -> u32 {
        self.storage_range.end
    }

    pub closed spec fn spec_geometry(&self) -> FlashGeometry {
        self.geometry
    }

    pub closed spec fn spec_buffer_len(&self) -> nat {
        self.data_buffer@.len()
    }

    /// What is known of the records in the flash range.
    pub closed spec fn spec_records(&self) -> Records {
        self.records@
    }

    /// Whether the range suits the flash device's block and word sizes.
    pub open spec fn spec_fits(&self) -> bool {
        range_fits(self.spec_start(), self.spec_end(), self.spec_geometry())
    }
}

/// Relies on `sequential_storage::map::fetch_item` (`u32` keys, byte-slice
/// values) run to completion by `embassy_futures::block_on`: it returns the
/// last value stored under the key, or `None` when there is none, as a slice
/// of the data buffer. The call asserts what `range_fits` states.
#[verifier::external_body]
fn fetch_record<S: NorFlash>(s: &mut Settings<S>, key: u32) -> (r: Result<Option<Vec<u8>>, StoreError>)
    ensures
        final(s).spec_start() == old(s).spec_start(),
        final(s).spec_end() == old(s).spec_end(),
        final(s).spec_buffer_len() == old(s).spec_buffer_len(),
        r matches Ok(Some(v)) ==> v@.len() <= old(s).spec_buffer_len(),
        r matches Ok(found) ==> agrees(old(s).spec_records(), key, found_view(found)),
        r matches Ok(found) ==> final(s).spec_records() == old(s).spec_records().insert(key, found_view(found)),
        r is Err ==> final(s).spec_records() == Records::empty(),
{
    let r = embassy_futures::block_on(sequential_storage::map::fetch_item::<u32, &[u8], S>(
        &mut s.storage, s.storage_range.clone(), &mut NoCache::new(), s.data_buffer.as_mut_slice(), &key));
    r.map(|v| v.map(|b| b.to_vec())).map_err(store_error)
}

/// Relies on `sequential_storage::map::store_item` (`u32` keys, byte-slice
/// values) run to completion by `embassy_futures::block_on`: it overwrites
/// the last value with the same key, and succeeds only after the 4-byte key
/// and the value were serialized into the data buffer. The call asserts
/// what `range_fits` states.
#[verifier::external_body]
fn store_record<S: NorFlash>(s: &mut Settings<S>, key: u32, value: &[u8]) -> (r: Result<(), StoreError>)
    ensures
        final(s).spec_start() == old(s).spec_start(),
        final(s).spec_end() == old(s).spec_end(),
        final(s).spec_buffer_len() == old(s).spec_buffer_len(),
        r is Ok ==> value@.len() + 4 <= old(s).spec_buffer_len(),
        r is Ok ==> final(s).spec_records() == old(s).spec_records().insert(key, Some(value@)),
        r is Err ==> final(s).spec_records() == Records::empty(),
{
    embassy_futures::block_on(sequential_storage::map::store_item::<u32, &[u8], S>(
        &mut s.storage, s.storage_range.clone(), &mut NoCache::new(), s.data_buffer.as_mut_slice(), &key, &value))
        .map_err(store_error)
}

/// Relies on `sequential_storage::erase_all`, which erases the whole range
/// through `NorFlash::erase`, run to completion by `embassy_futures::block_on`;
/// an erased range holds no records.
#[verifier::external_body]
fn erase_records<S: NorFlash>(s: &mut Settings<S>) -> (r: Result<(), StoreError>)
    ensures
        final(s).spec_start() == old(s).spec_start(),
        final(s).spec_end() == old(s).spec_end(),
        final(s).spec_buffer_len() == old(s).spec_buffer_len(),
        r is Ok ==> final(s).spec_records() == erased_records(),
        r is Err ==> final(s).spec_records() == Records::empty(),
        r matches Err(e) ==> e is Storage,
{
    embassy_futures::block_on(sequential_storage::erase_all(&mut s.storage, s.storage_range.clone()))
        .map_err(store_error)
}

impl<S: NorFlash> Settings<S> {
    /// Create a new settings object over `storage_range` of `storage`, with
    /// `data_buffer` as room for one record. This does not yet touch the
    /// flash, and knows nothing of its records: `init` or `reset` makes it
    /// usable.
    pub fn uninit(storage: S, storage_range: Range<u32>, data_buffer: Vec<u8>) -> (r: UninitializedSettings<S>)
        ensures
            r.spec_start() == storage_range.start,
            r.spec_end() == storage_range.end,
            r.spec_buffer_len() == data_buffer@.len(),
            r.spec_records() == Records::empty(),
    {
        UninitializedSettings {
            storage,
            storage_range,
            geometry: flash_geometry::<S>(),
            data_buffer,
            records: Ghost(Map::empty()),
        }
    }

    /// Looks up the format marker and judges it with `marker_verdict`.
    fn verify_load(&mut self) -> (r: Result<(), SettingsError>)
        ensures
            final(self).spec_start() == old(self).spec_start(),
            final(self).spec_end() == old(self).spec_end(),
            final(self).spec_buffer_len() == old(self).spec_buffer_len(),
            exists|f: Result<Option<Seq<u8>>, StoreError>|
                lookup_possible(old(self).spec_records(), FORMAT_KEY, f) && r == marker_verdict(f)
                    && final(self).spec_records() == after_lookup(old(self).spec_records(), FORMAT_KEY, f),
    {
        let fetched = fetch_record(self, FORMAT_KEY);
        let ghost f = fetched_view(fetched);
        let r = check_format_marker(fetched);
        assert(lookup_possible(old(self).spec_records(), FORMAT_KEY, f) && r == marker_verdict(f)
            && self.spec_records() == after_lookup(old(self).spec_records(), FORMAT_KEY, f));
        r
    }

    /// Get the bytes stored for a setting, or `None` when it has none. A
    /// lookup agrees with what is known of the record under
    /// `record_key(setting_key)`, and makes it known.
    pub fn get(&mut self, setting_key: &str) -> (r: Result<Option<Vec<u8>>, SettingsError>)
        ensures
            final(self).spec_start() == old(self).spec_start(),
            final(self).spec_end() == old(self).spec_end(),
            final(self).spec_buffer_len() == old(self).spec_buffer_len(),
            r matches Ok(Some(v)) ==> v@.len() <= old(self).spec_buffer_len(),
            r matches Ok(found) ==> agrees(old(self).spec_records(), record_key(setting_key), found_view(found)),
            r matches Ok(found) ==> final(self).spec_records() == old(self).spec_records().insert(
                record_key(setting_key),
                found_view(found),
            ),
            r matches Err(e) ==> e is InnerError,
            r is Err ==> final(self).spec_records() == Records::empty(),
    {
        let key = hash_key(setting_key);
        match fetch_record(self, key) {
            Ok(v) => Ok(v),
            Err(e) => Err(SettingsError::from(e)),
        }
    }

    /// Get a setting as text; bytes that are not UTF-8 give a
    /// `StrConversionError`.
    pub fn get_str(&mut self, setting_key: &str) -> (r: Result<Option<String>, SettingsError>)
        ensures
            final(self).spec_start() == old(self).spec_start(),
            final(self).spec_end() == old(self).spec_end(),
            final(self).spec_buffer_len() == old(self).spec_buffer_len(),
            ({
                let k = record_key(setting_key);
                let known = old(self).spec_records();
                known.contains_key(k) ==> match r {
                    Ok(Some(t)) => known[k] matches Some(b) && vstd::utf8::valid_utf8(b) && t@
                        == vstd::utf8::decode_utf8(b),
                    Ok(None) => known[k] is None,
                    Err(SettingsError::StrConversionError(_)) => known[k] matches Some(b)
                        && !vstd::utf8::valid_utf8(b),
                    Err(e) => e is InnerError,
                }
            }),
            r matches Err(e) ==> (e is InnerError || e is StrConversionError),
    {
        let fetched = self.get(setting_key);
        decode_str(fetched)
    }

    /// Overwrite the value of a setting. On success the record under
    /// `record_key(setting_key)` holds `value` and all others are as they
    /// were. A value that does not fit the data buffer beside its 4-byte
    /// key is refused before the flash is touched, as the map itself would
    /// refuse it when serializing the record.
    pub fn set(&mut self, setting_key: &str, value: &[u8]) -> (r: Result<(), SettingsError>)
        ensures
            final(self).spec_start() == old(self).spec_start(),
            final(self).spec_end() == old(self).spec_end(),
            final(self).spec_buffer_len() == old(self).spec_buffer_len(),
            r is Ok ==> final(self).spec_records() == old(self).spec_records().insert(
                record_key(setting_key),
                Some(value@),
            ),
            value@.len() + 4 > old(self).spec_buffer_len() ==> r == Err::<(), SettingsError>(
                SettingsError::InnerError(StoreError::Serialization),
            ) && final(self).spec_records() == old(self).spec_records(),
            r matches Err(e) ==> e is InnerError,
            r is Err && value@.len() + 4 <= old(self).spec_buffer_len() ==> final(self).spec_records()
                == Records::empty(),
    {
        let room = self.data_buffer.len();
        if room < 4 || value.len() > room - 4 {
            return Err(SettingsError::InnerError(StoreError::Serialization));
        }
        let key = hash_key(setting_key);
        match store_record(self, key, value) {
            Ok(()) => Ok(()),
            Err(e) => Err(SettingsError::from(e)),
        }
    }

    /// Same as `get`; provided for callers that name the blocking form.
    pub fn get_blocking(&mut self, setting_key: &str) -> (r: Result<Option<Vec<u8>>, SettingsError>)
        ensures
            final(self).spec_start() == old(self).spec_start(),
            final(self).spec_end() == old(self).spec_end(),
            final(self).spec_buffer_len() == old(self).spec_buffer_len(),
            r matches Ok(Some(v)) ==> v@.len() <= old(self).spec_buffer_len(),
            r matches Ok(found) ==> agrees(old(self).spec_records(), record_key(setting_key), found_view(found)),
            r matches Ok(found) ==> final(self).spec_records() == old(self).spec_records().insert(
                record_key(setting_key),
                found_view(found),
            ),
            r matches Err(e) ==> e is InnerError,
            r is Err ==> final(self).spec_records() == Records::empty(),
    {
        self.get(setting_key)
    }

    /// Same as `get_str`; provided for callers that name the blocking form.
    pub fn get_str_blocking(&mut self, setting_key: &str) -> (r: Result<Option<String>, SettingsError>)
        ensures
            final(self).spec_start() == old(self).spec_start(),
            final(self).spec_end() == old(self).spec_end(),
            final(self).spec_buffer_len() == old(self).spec_buffer_len(),
            ({
                let k = record_key(setting_key);
                let known = old(self).spec_records();
                known.contains_key(k) ==> match r {
                    Ok(Some(t)) => known[k] matches Some(b) && vstd::utf8::valid_utf8(b) && t@
                        == vstd::utf8::decode_utf8(b),
                    Ok(None) => known[k] is None,
                    Err(SettingsError::StrConversionError(_)) => known[k] matches Some(b)
                        && !vstd::utf8::valid_utf8(b),
                    Err(e) => e is InnerError,
                }
            }),
            r matches Err(e) ==> (e is InnerError || e is StrConversionError),
    {
        self.get_str(setting_key)
    }

    /// Same as `set`; provided for callers that name the blocking form.
    pub fn set_blocking(&mut self, setting_key: &str, value: &[u8]) -> (r: Result<(), SettingsError>)
        ensures
            final(self).spec_start() == old(self).spec_start(),
            final(self).spec_end() == old(self).spec_end(),
            final(self).spec_buffer_len() == old(self).spec_buffer_len(),
            r is Ok ==> final(self).spec_records() == old(self).spec_records().insert(
                record_key(setting_key),
                Some(value@),
            ),
            value@.len() + 4 > old(self).spec_buffer_len() ==> r == Err::<(), SettingsError>(
                SettingsError::InnerError(StoreError::Serialization),
            ) && final(self).spec_records() == old(self).spec_records(),
            r matches Err(e) ==> e is InnerError,
            r is Err && value@.len() + 4 <= old(self).spec_buffer_len() ==> final(self).spec_records()
                == Records::empty(),
    {
        self.set(setting_key, value)
    }
}

/// How `init` ended, given what its lookup of the format key returned: the
/// verdict of `marker_verdict`, with the opened store on success.
pub open spec fn init_outcome<S>(
    u: UninitializedSettings<S>,
    fetched: Result<Option<Seq<u8>>, StoreError>,
    r: Result<Settings<S>, SettingsError>,
) -> bool {
    &&& lookup_possible(u.spec_records(), FORMAT_KEY, fetched)
    &&& match r {
        Ok(s) => marker_verdict(fetched) is Ok && s.spec_start() == u.spec_start() && s.spec_end()
            == u.spec_end() && s.spec_buffer_len() == u.spec_buffer_len() && s.spec_records()
            == after_lookup(u.spec_records(), FORMAT_KEY, fetched),
        Err(e) => marker_verdict(fetched) == Err::<(), SettingsError>(e),
    }
}

impl<S: NorFlash> UninitializedSettings<S> {
    fn into_ready(self) -> (r: Settings<S>)
        requires
            self.spec_fits(),
        ensures
            r.spec_start() == self.spec_start(),
            r.spec_end() == self.spec_end(),
            r.spec_buffer_len() == self.spec_buffer_len(),
            r.spec_records() == self.spec_records(),
    {
        Settings {
            storage: self.storage,
            storage_range: self.storage_range,
            geometry: self.geometry,
            data_buffer: self.data_buffer,
            records: self.records,
        }
    }

    fn check_range(&self) -> (r: bool)
        ensures
            r == self.spec_fits(),
    {
        range_fits_flash(self.storage_range.start, self.storage_range.end, self.geometry)
    }

    /// Open the store: looks up the format key and succeeds only when it
    /// holds the marker. Fails with `InvalidRange` exactly when the range
    /// does not fit the flash; otherwise as `marker_verdict` judges the
    /// lookup: `NotFound` when no marker was ever written,
    /// `CorruptOrInvalid` when the marker differs or the log is corrupted,
    /// and the storage error when the lookup failed.
    pub fn init(self) -> (r: Result<Settings<S>, SettingsError>)
        ensures
            r matches Err(SettingsError::InvalidRange) <==> !self.spec_fits(),
            self.spec_fits() ==> exists|f: Result<Option<Seq<u8>>, StoreError>| init_outcome(self, f, r),
    {
        if !self.check_range() {
            return Err(SettingsError::InvalidRange);
        }
        let ghost u = self;
        let mut settings = self.into_ready();
        let verdict = settings.verify_load();
        let ghost f = choose|f: Result<Option<Seq<u8>>, StoreError>|
            lookup_possible(u.spec_records(), FORMAT_KEY, f) && verdict == marker_verdict(f)
                && settings.spec_records() == after_lookup(u.spec_records(), FORMAT_KEY, f);
        let r = match verdict {
            Ok(()) => Ok(settings),
            Err(e) => Err(e),
        };
        assert(init_outcome(u, f, r));
        r
    }

    /// Same as `init`; provided for callers that name the blocking form.
    pub fn init_blocking(self) -> (r: Result<Settings<S>, SettingsError>)
        ensures
            r matches Err(SettingsError::InvalidRange) <==> !self.spec_fits(),
            self.spec_fits() ==> exists|f: Result<Option<Seq<u8>>, StoreError>| init_outcome(self, f, r),
    {
        self.init()
    }

    /// Erase the whole range and write the format marker as its first
    /// record, leaving the marker as the only record. Fails with
    /// `InvalidRange` exactly when the range does not fit the flash, and
    /// otherwise only with a storage error.
    pub fn reset(self) -> (r: Result<Settings<S>, SettingsError>)
        ensures
            r matches Err(SettingsError::InvalidRange) <==> !self.spec_fits(),
            r matches Ok(s) ==> s.spec_start() == self.spec_start() && s.spec_end() == self.spec_end()
                && s.spec_buffer_len() == self.spec_buffer_len() && s.spec_records() == fresh_records(),
            r matches Err(e) ==> (e is InvalidRange || e is InnerError),
    {
        if !self.check_range() {
            return Err(SettingsError::InvalidRange);
        }
        let mut settings = self.into_ready();
        if let Err(e) = erase_records(&mut settings) {
            return Err(SettingsError::InnerError(e));
        }
        match store_record(&mut settings, FORMAT_KEY, DATA_FORMAT_STRING.as_bytes()) {
            Ok(()) => Ok(settings),
            Err(e) => Err(SettingsError::InnerError(e)),
        }
    }
}

/// Round trip: once a set of `key` succeeded, a lookup of that key that
/// succeeds returns exactly the value set, whatever other keys were set
/// after it and whether or not the store was closed and reopened (`close`
/// and `init` keep or extend what is known).
pub proof fn law_set_then_get(known: Records, key: u32, value: Seq<u8>, found: Option<Seq<u8>>)
    requires
        agrees(known.insert(key, Some(value)), key, found),
    ensures
        found == Some(value),
{
}

/// Durability: a value set before the store was closed is what a lookup
/// finds after it was reopened by a successful `init` (whose lookup of the
/// format key succeeded).
pub proof fn law_round_trip_after_reopen(
    known: Records,
    key: u32,
    value: Seq<u8>,
    marker_found: Option<Seq<u8>>,
    found: Option<Seq<u8>>,
)
    requires
        key != FORMAT_KEY,
        lookup_possible(known.insert(key, Some(value)), FORMAT_KEY, Ok(marker_found)),
        agrees(after_lookup(known.insert(key, Some(value)), FORMAT_KEY, Ok(marker_found)), key, found),
    ensures
        found == Some(value),
{
}

/// A set leaves every other record, the format marker included, as it was.
pub proof fn law_set_keeps_others(known: Records, key: u32, value: Seq<u8>, other: u32)
    requires
        other != key,
    ensures
        known.insert(key, Some(value)).contains_key(other) == known.contains_key(other),
        known.contains_key(other) ==> known.insert(key, Some(value))[other] == known[other],
{
}

/// A successful lookup keeps every record that was known, so a value known
/// before a reopening `init` is still known after it.
pub proof fn law_lookup_keeps_known(known: Records, key: u32, found: Option<Seq<u8>>, other: u32)
    requires
        agrees(known, key, found),
        known.contains_key(other),
    ensures
        after_lookup(known, key, Ok(found)).contains_key(other),
        after_lookup(known, key, Ok(found))[other] == known[other],
{
}

/// After `reset` every key but the format key is absent, so a lookup that
/// succeeds finds nothing.
pub proof fn law_reset_leaves_only_marker(key: u32, found: Option<Seq<u8>>)
    requires
        key != FORMAT_KEY,
        agrees(fresh_records(), key, found),
    ensures
        found is None,
{
}

/// `init` on a store whose format record holds the marker (as `reset`
/// leaves it) succeeds unless the lookup itself fails: it never gives
/// `NotFound`, nor `CorruptOrInvalid` unless the map reports its log
/// corrupted.
pub proof fn law_init_after_reset(known: Records, fetched: Result<Option<Seq<u8>>, StoreError>)
    requires
        known.contains_key(FORMAT_KEY),
        known[FORMAT_KEY] == Some(format_marker()),
        lookup_possible(known, FORMAT_KEY, fetched),
    ensures
        DATA_FORMAT_STRING.spec_bytes() == format_marker(),
        fetched is Ok ==> marker_verdict(fetched) == Ok::<(), SettingsError>(()),
        marker_verdict(fetched) != Err::<(), SettingsError>(SettingsError::NotFound),
        marker_verdict(fetched) == Err::<(), SettingsError>(SettingsError::CorruptOrInvalid) ==> fetched
            == Err::<Option<Seq<u8>>, StoreError>(StoreError::Corrupted),
{
}

/// `init` on a store whose format record holds another marker gives
/// `CorruptOrInvalid` unless the lookup itself fails; one whose format
/// record is absent gives `NotFound` under the same proviso.
pub proof fn law_foreign_marker_rejected(known: Records, marker: Seq<u8>, fetched: Result<Option<Seq<u8>>, StoreError>)
    requires
        known.contains_key(FORMAT_KEY),
        known[FORMAT_KEY] == Some(marker) || known[FORMAT_KEY] == None::<Seq<u8>>,
        marker != format_marker(),
        lookup_possible(known, FORMAT_KEY, fetched),
        fetched is Ok,
    ensures
        known[FORMAT_KEY] is Some ==> marker_verdict(fetched) == Err::<(), SettingsError>(
            SettingsError::CorruptOrInvalid,
        ),
        known[FORMAT_KEY] is None ==> marker_verdict(fetched) == Err::<(), SettingsError>(
            SettingsError::NotFound,
        ),
{
}

/// Text round trip: the bytes that `set` stores for a text are valid UTF-8
/// and decode to that text, so `get_str` gives the text back.
pub proof fn law_text_round_trip(known: Records, key: u32, text: &str)
    ensures
        known.insert(key, Some(text.spec_bytes()))[key] == Some(text.spec_bytes()),
        vstd::utf8::valid_utf8(text.spec_bytes()),
        vstd::utf8::decode_utf8(text.spec_bytes()) == text@,
{
    vstd::utf8::encode_utf8_valid_utf8(text@);
    vstd::utf8::encode_utf8_decode_utf8(text@);
}

/// `init` on a partition whose format record holds another marker fails:
/// with `CorruptOrInvalid` whenever its lookup succeeded, and otherwise
/// with the lookup's own error.
pub proof fn law_init_rejects_foreign_marker<S>(
    u: UninitializedSettings<S>,
    marker: Seq<u8>,
    fetched: Result<Option<Seq<u8>>, StoreError>,
    r: Result<Settings<S>, SettingsError>,
)
    requires
        u.spec_records().contains_key(FORMAT_KEY),
        u.spec_records()[FORMAT_KEY] == Some(marker),
        marker != format_marker(),
        init_outcome(u, fetched, r),
    ensures
        r is Err,
        fetched is Ok ==> r matches Err(SettingsError::CorruptOrInvalid),
{
}

/// Two spellings of the same key text address the same record, so a `get`
/// looks up the record that a `set` of the same key wrote.
pub proof fn law_same_key_same_record(a: &str, b: &str)
    requires
        a@ == b@,
    ensures
        record_key(a) == record_key(b),
{
}

} // verus!
