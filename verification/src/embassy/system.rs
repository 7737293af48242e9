//! System services: settings persistence, the settings blob's framing in a
//! flash region, and device reset.

use vstd::prelude::*;

use crate::embassy::state::StatusCache;
use crate::model::{RuntimeModel, RuntimeState};
use crate::settings::{
    default_stored, lemma_default_settings_load, runtime_of_stored, SettingsErrorModel, StoredSettings,
    StoredSettingsModel,
};
use crate::text::{owned, utf8_text};
use crate::time::{epoch_with_offset, local_epoch};

verus! {

/// Size of the settings blob's header: four magic bytes, then the payload
/// length as a little-endian `u32`.
pub const SETTINGS_HEADER_SIZE: usize = 8;

/// Magic bytes that mark a valid settings blob.
pub open spec fn settings_magic() -> Seq<u8> {
    seq![0x57u8, 0x44u8, 0x52u8, 0x53u8]
}

/// Errors returned by settings persistence implementations.
#[derive(Debug, Clone, Copy, PartialEq, Eq, Structural)]
pub enum SettingsStoreError {
    /// A storage backend reported an IO failure.
    StorageFailure,
    /// Serialization failed, or the blob does not fit the region.
    SerializationFailure,
}

/// Storage interface for persisted settings.
pub trait SettingsStore {
    /// Load settings from storage, returning defaults if none are found.
    fn load(&mut self) -> Result<StoredSettings, SettingsStoreError>;

    /// Save settings to storage.
    fn save(&mut self, settings: &StoredSettings) -> Result<(), SettingsStoreError>;
}

/// Abstraction for device reset logic.
pub trait ResetControl {
    /// Trigger a device reset.
    fn reset(&mut self);
}

/// The runtime state a load gives: the loaded settings (factory settings
/// when loading failed) when they are valid, else the factory settings'.
pub open spec fn runtime_of_load(
    loaded: Result<StoredSettingsModel, SettingsStoreError>,
    screen_equipped: bool,
) -> RuntimeModel {
    let stored = match loaded {
        Ok(s) => s,
        Err(_) => default_stored(),
    };
    match runtime_of_stored(stored, screen_equipped) {
        Ok(r) => r,
        Err(_) => runtime_of_stored(default_stored(), screen_equipped)->Ok_0,
    }
}

/// The view of a load's outcome.
pub open spec fn load_view(r: Result<StoredSettings, SettingsStoreError>) -> Result<
    StoredSettingsModel,
    SettingsStoreError,
> {
    match r {
        Ok(s) => Ok(s@),
        Err(e) => Err(e),
    }
}

/// Turn the outcome of a settings load into the runtime state, falling back
/// to the factory settings when loading failed or the settings are invalid.
pub fn runtime_from_load(loaded: Result<StoredSettings, SettingsStoreError>, screen_equipped: bool) -> (r:
    RuntimeState)
    ensures
        r@ == runtime_of_load(load_view(loaded), screen_equipped),
{
    let stored = match loaded {
        Ok(s) => s,
        Err(_) => StoredSettings::default(),
    };
    match stored.to_runtime(screen_equipped) {
        Ok(r) => r,
        Err(_) => {
            proof {
                lemma_default_settings_load(screen_equipped);
            }
            StoredSettings::default().to_runtime(screen_equipped).unwrap()
        },
    }
}

/// Load runtime state from a settings store, falling back to defaults on
/// error; what the store returns is up to it, and whatever it returns is
/// turned into the state as [`runtime_from_load`] says.
pub fn load_runtime_state<S: SettingsStore>(store: &mut S, screen_equipped: bool) -> (r: RuntimeState)
    ensures
        exists|loaded: Result<StoredSettingsModel, SettingsStoreError>|
            r@ == #[trigger] runtime_of_load(loaded, screen_equipped),
{
    let loaded = store.load();
    let ghost l = load_view(loaded);
    let r = runtime_from_load(loaded, screen_equipped);
    assert(r@ == runtime_of_load(l, screen_equipped));
    r
}

/// A simple in-memory settings store for tests and host simulations.
#[derive(Debug)]
pub struct InMemorySettingsStore {
    settings: Option<StoredSettings>,
}

/// The view of optional stored settings.
pub open spec fn opt_stored_view(s: Option<StoredSettings>) -> Option<StoredSettingsModel> {
    match s {
        Some(v) => Some(v@),
        None => None,
    }
}

impl InMemorySettingsStore {
    /// The saved settings, if any.
    pub closed spec fn saved(&self) -> Option<StoredSettingsModel> {
        opt_stored_view(self.settings)
    }

    /// Create an empty store.
    pub fn new() -> (s: Self)
        ensures
            s.saved() is None,
    {
        InMemorySettingsStore { settings: None }
    }
}

impl Default for InMemorySettingsStore {
    fn default() -> (s: Self)
        ensures
            s.saved() is None,
    {
        InMemorySettingsStore { settings: None }
    }
}

impl SettingsStore for InMemorySettingsStore {
    fn load(&mut self) -> (r: Result<StoredSettings, SettingsStoreError>)
        ensures
            load_view(r) == Ok::<StoredSettingsModel, SettingsStoreError>(match old(self).saved() {
                Some(s) => s,
                None => default_stored(),
            }),
            final(self).saved() == old(self).saved(),
    {
        match &self.settings {
            Some(s) => Ok(s.clone()),
            None => Ok(StoredSettings::default()),
        }
    }

    fn save(&mut self, settings: &StoredSettings) -> (r: Result<(), SettingsStoreError>)
        ensures
            r is Ok,
            final(self).saved() == Some(settings@),
    {
        self.settings = Some(settings.clone());
        Ok(())
    }
}

/// The local epoch the system task stores in the clock after a time sync:
/// the UTC epoch shifted by the cached offset and DST flag.
pub fn compute_local_epoch(cache: &StatusCache, utc_epoch: u64) -> (e: u64)
    ensures
        e == local_epoch(utc_epoch, cache@.gmt_offset_secs, cache@.dst),
{
    let snapshot = cache.snapshot();
    epoch_with_offset(utc_epoch, snapshot.gmt_offset_secs, snapshot.dst)
}

/// `len` rounded up to a multiple of `align`.
pub open spec fn align_up(len: nat, align: nat) -> nat
    recommends
        align > 0,
{
    ((len + align - 1) as nat / align) * align
}

/// `len` rounded up to a multiple of `align` (a flash read or write size);
/// `None` when the rounding overflows `usize`.
pub fn aligned_len(len: usize, align: usize) -> (r: Option<usize>)
    requires
        align > 0,
    ensures
        r is None <==> len + align - 1 > usize::MAX,
        r matches Some(a) ==> a == align_up(len as nat, align as nat) && len <= a,
{
    match len.checked_add(align - 1) {
        Some(v) => {
            let q = v / align;
            proof {
                assert(q * align <= v) by (nonlinear_arith)
                    requires
                        q == v / align,
                        align > 0,
                ;
                assert(len <= q * align) by (nonlinear_arith)
                    requires
                        q == v / align,
                        align > 0,
                        v == len + align - 1,
                ;
            }
            Some(q * align)
        },
        None => None,
    }
}

/// The little-endian value of four bytes.
pub open spec fn le_u32_value(b: Seq<u8>) -> int {
    b[0] + b[1] * 0x100 + b[2] * 0x1_0000 + b[3] * 0x100_0000
}

/// A blob header: the magic bytes, then the payload length as a
/// little-endian `u32` (the length's low 32 bits).
pub open spec fn is_settings_header(h: Seq<u8>, payload_len: usize) -> bool {
    &&& h.len() == SETTINGS_HEADER_SIZE
    &&& h.take(4) == settings_magic()
    &&& le_u32_value(h.skip(4)) == payload_len as u32
}

/// The header of a blob carrying `payload_len` bytes.
pub fn settings_header(payload_len: usize) -> (h: [u8; 8])
    ensures
        is_settings_header(h@, payload_len),
{
    let n = payload_len as u32;
    let b0 = (n & 0xFF) as u8;
    let b1 = ((n >> 8u32) & 0xFF) as u8;
    let b2 = ((n >> 16u32) & 0xFF) as u8;
    let b3 = ((n >> 24u32) & 0xFF) as u8;
    proof {
        assert(b0 + b1 * 0x100 + b2 * 0x1_0000 + b3 * 0x100_0000 == n) by (bit_vector)
            requires
                b0 == (n & 0xFF) as u8,
                b1 == ((n >> 8u32) & 0xFF) as u8,
                b2 == ((n >> 16u32) & 0xFF) as u8,
                b3 == ((n >> 24u32) & 0xFF) as u8,
        ;
    }
    let h: [u8; 8] = [0x57u8, 0x44u8, 0x52u8, 0x53u8, b0, b1, b2, b3];
    assert(h@.take(4) =~= settings_magic());
    assert(h@.skip(4)[0] == b0 && h@.skip(4)[1] == b1 && h@.skip(4)[2] == b2 && h@.skip(4)[3] == b3);
    h
}

/// The framing of a settings payload in a flash region of `region_len`
/// bytes: the payload is padded with zeros to a multiple of the write size,
/// and the padded payload plus the header must fit the region.
pub open spec fn blob_frame(payload: Seq<u8>, write_align: nat, region_len: nat) -> Result<
    (Seq<u8>, nat),
    SettingsStoreError,
> {
    if payload.len() + write_align - 1 > usize::MAX {
        Err(SettingsStoreError::SerializationFailure)
    } else if align_up(payload.len(), write_align) + SETTINGS_HEADER_SIZE > region_len {
        Err(SettingsStoreError::SerializationFailure)
    } else {
        Ok((payload, align_up(payload.len(), write_align)))
    }
}

/// The payload padded with zeros to `len` bytes.
pub open spec fn padded(payload: Seq<u8>, len: nat) -> Seq<u8> {
    payload + Seq::new((len - payload.len()) as nat, |i: int| 0u8)
}

/// Frame a settings payload for a flash region: the header and the padded
/// payload to write after it, or `SerializationFailure` when the blob does
/// not fit.
pub fn frame_settings_blob(payload: &[u8], write_align: usize, region_len: usize) -> (r: Result<
    ([u8; 8], Vec<u8>),
    SettingsStoreError,
>)
    requires
        write_align > 0,
    ensures
        match blob_frame(payload@, write_align as nat, region_len as nat) {
            Ok((p, len)) => r matches Ok((h, body)) && is_settings_header(h@, payload.len()) && body@ == padded(p, len),
            Err(e) => r == Err::<([u8; 8], Vec<u8>), SettingsStoreError>(e),
        },
{
    let aligned = match aligned_len(payload.len(), write_align) {
        Some(a) => a,
        None => return Err(SettingsStoreError::SerializationFailure),
    };
    if aligned > region_len || region_len - aligned < SETTINGS_HEADER_SIZE {
        return Err(SettingsStoreError::SerializationFailure);
    }
    let header = settings_header(payload.len());
    let mut body: Vec<u8> = Vec::new();
    let mut i: usize = 0;
    while i < aligned
        invariant
            i <= aligned,
            payload.len() <= aligned,
            body@ == padded(payload@, aligned as nat).take(i as int),
        decreases aligned - i,
    {
        let b = if i < payload.len() { payload[i] } else { 0u8 };
        body.push(b);
        assert(body@ =~= padded(payload@, aligned as nat).take(i + 1));
        i += 1;
    }
    assert(body@ =~= padded(payload@, aligned as nat));
    Ok((header, body))
}

/// The payload length a stored header announces: `None` (no saved
/// settings) when the magic is missing, the length is zero, or the blob
/// would not fit the region.
pub open spec fn stored_len_of(h: Seq<u8>, region_len: nat) -> Option<nat> {
    if h.take(4) != settings_magic() {
        None
    } else if le_u32_value(h.skip(4)) == 0 || le_u32_value(h.skip(4)) + SETTINGS_HEADER_SIZE > region_len {
        None
    } else {
        Some(le_u32_value(h.skip(4)) as nat)
    }
}

/// Read a blob header: the stored payload's length, if the region holds
/// saved settings.
pub fn stored_payload_len(header: &[u8; 8], region_len: usize) -> (r: Option<usize>)
    ensures
        match stored_len_of(header@, region_len as nat) {
            Some(n) => r == Some(n as usize),
            None => r is None,
        },
{
    if !(header[0] == 0x57u8 && header[1] == 0x44u8 && header[2] == 0x52u8 && header[3] == 0x53u8) {
        proof {
            let h = header@;
            if h.take(4) == settings_magic() {
                assert(h.take(4)[0] == h[0] && h.take(4)[1] == h[1] && h.take(4)[2] == h[2] && h.take(4)[3] == h[3]);
            }
        }
        return None;
    }
    assert(header@.take(4) =~= settings_magic());
    let len: u64 = (header[4] as u64) + (header[5] as u64) * 0x100 + (header[6] as u64) * 0x1_0000
        + (header[7] as u64) * 0x100_0000;
    assert(header@.skip(4)[0] == header[4] && header@.skip(4)[1] == header[5] && header@.skip(4)[2] == header[6]
        && header@.skip(4)[3] == header[7]);
    if len == 0 || len + 8 > region_len as u64 {
        return None;
    }
    Some(len as usize)
}

/// What is written is read back: the header framed for a non-empty payload
/// that fits the region announces exactly that payload's length.
pub proof fn lemma_header_round_trip(h: Seq<u8>, payload_len: usize, region_len: nat)
    requires
        is_settings_header(h, payload_len),
        0 < payload_len,
        payload_len + SETTINGS_HEADER_SIZE <= region_len,
        payload_len <= u32::MAX,
    ensures
        stored_len_of(h, region_len) == Some(payload_len as nat),
{
}

/// The settings text in the first `len` bytes of a read payload: the UTF-8
/// text, or empty when the bytes are not UTF-8.
pub fn payload_text(payload: &[u8], len: usize) -> (s: String)
    requires
        len <= payload.len(),
    ensures
        s@ == (if vstd::utf8::valid_utf8(payload@.take(len as int)) {
            vstd::utf8::decode_utf8(payload@.take(len as int))
        } else {
            Seq::<char>::empty()
        }),
{
    let bytes = slice_prefix(payload, len);
    match utf8_text(bytes) {
        Some(text) => owned(text),
        None => {
            proof {
                reveal_strlit("");
            }
            owned("")
        },
    }
}

fn slice_prefix(v: &[u8], len: usize) -> (r: &[u8])
    requires
        len <= v.len(),
    ensures
        r@ == v@.take(len as int),
{
    let r = &v[0..len];
    assert(r@ =~= v@.take(len as int));
    r
}

} // verus!
