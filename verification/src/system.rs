//! The clock and the operating system's random source, neither of which can
//! fail the caller: a clock reading outside the `i64` nanosecond range gives
//! `None`, and so does a random source that cannot be read.

use vstd::prelude::*;
use vstd::string::*;

use crate::encoding::{hex_lower, lemma_hex_lower_ascii};

use rand_core::RngCore;

verus! {

/// One reading of the system clock: how far the time was from the Unix
/// epoch, in whole seconds and nanoseconds; `Ok` at or after the epoch, `Err`
/// with the distance back to it before. Only `clock_since_epoch` makes one.
pub struct ClockReading {
    since_epoch: Result<(u64, u32), (u64, u32)>,
}

impl ClockReading {
    /// The distance from the Unix epoch this reading gives.
    pub closed spec fn since_epoch(&self) -> Result<(u64, u32), (u64, u32)> {
        self.since_epoch
    }

    /// The reading in nanoseconds from the Unix epoch, when they fit in an `i64`.
    pub fn nanos(&self) -> (res: Option<i64>)
        ensures
            res == reading_nanos(self.since_epoch()),
    {
        epoch_nanos(self.since_epoch)
    }
}

/// `std::time::SystemTime::now().duration_since(UNIX_EPOCH)`: how far the
/// current time is from the Unix epoch, in whole seconds and nanoseconds;
/// `Ok` at or after the epoch, `Err` with the distance back to it before.
/// Of the value, only that the nanoseconds are those within one second
/// (`Duration::subsec_nanos`) is stated.
#[verifier::external_body]
pub(crate) fn clock_since_epoch() -> (res: ClockReading)
    ensures
        match res.since_epoch() {
            Ok((_, nanos)) => nanos < 1_000_000_000,
            Err((_, nanos)) => nanos < 1_000_000_000,
        },
{
    let since_epoch = match std::time::SystemTime::now().duration_since(std::time::UNIX_EPOCH) {
        Ok(after) => Ok((after.as_secs(), after.subsec_nanos())),
        Err(before) => Err((before.duration().as_secs(), before.duration().subsec_nanos())),
    };
    ClockReading { since_epoch }
}

/// `rand_core::OsRng::try_fill_bytes`: fills the buffer from the operating
/// system's random source; false when the source cannot be read. Nothing is
/// stated of the bytes.
#[verifier::external_body]
pub(crate) fn fill_random(buf: &mut [u8]) -> (ok: bool)
    ensures
        final(buf)@.len() == old(buf)@.len(),
{
    rand_core::OsRng.try_fill_bytes(buf).is_ok()
}

/// The bytes of a version 4 UUID built from 16 random bytes: the version
/// nibble of byte 6 set to 4 and the variant bits of byte 8 set to `10`.
pub open spec fn uuid_v4_bytes(random: Seq<u8>) -> Seq<u8> {
    random.update(6, (random[6] & 0x0f) | 0x40).update(8, (random[8] & 0x3f) | 0x80)
}

/// `uuid::Builder::from_random_bytes(..).into_uuid().simple()`: the UUID's
/// 16 bytes (version and variant bits set) as 32 lowercase hex digits.
#[verifier::external_body]
fn uuid_v4_simple(random: &[u8; 16]) -> (res: String)
    ensures
        res@ == hex_lower(uuid_v4_bytes(random@)),
{
    uuid::Builder::from_random_bytes(*random).into_uuid().simple().to_string()
}

/// The simple (32 hex digit) form of the version 4 UUID built from some
/// 16 random bytes.
pub open spec fn uuid_v4_text(text: Seq<char>) -> bool {
    exists|random: Seq<u8>| random.len() == 16 && text == #[trigger] hex_lower(uuid_v4_bytes(random))
}

/// Lowercase hex digits only.
pub open spec fn is_lower_hex(text: Seq<char>) -> bool {
    forall|i: int|
        0 <= i < text.len() ==> ('0' <= #[trigger] text[i] <= '9' || 'a' <= text[i] <= 'f')
}

/// A lowercase hex encoding consists of lowercase hex digits.
pub proof fn lemma_hex_lower_is_lower_hex(bytes: Seq<u8>)
    ensures
        is_lower_hex(hex_lower(bytes)),
        hex_lower(bytes).len() == 2 * bytes.len(),
{
    lemma_hex_lower_ascii(bytes);
}

/// A fresh random version 4 UUID as 32 lowercase hex digits, or `None` when
/// the random source cannot be read.
pub fn random_uuid_simple() -> (res: Option<String>)
    ensures
        res matches Some(id) ==> id@.len() == 32 && is_lower_hex(id@) && uuid_v4_text(id@),
{
    let mut random = [0u8; 16];
    if !fill_random(&mut random) {
        return None;
    }
    let id = uuid_v4_simple(&random);
    proof {
        lemma_hex_lower_is_lower_hex(uuid_v4_bytes(random@));
        assert(random@.len() == 16 && id@ == hex_lower(uuid_v4_bytes(random@)));
    }
    Some(id)
}

/// Nanoseconds from the Unix epoch for a clock reading (see
/// `clock_since_epoch`), when they fit in an `i64`.
pub open spec fn reading_nanos(reading: Result<(u64, u32), (u64, u32)>) -> Option<i64> {
    match reading {
        Ok((secs, nanos)) => {
            let total = secs * 1_000_000_000 + nanos;
            if total <= i64::MAX {
                Some(total as i64)
            } else {
                None
            }
        },
        Err((secs, nanos)) => {
            let total = secs * 1_000_000_000 + nanos;
            if total <= i64::MAX + 1 {
                Some((-total) as i64)
            } else {
                None
            }
        },
    }
}

/// Nanoseconds from the Unix epoch for a clock reading, when they fit in an `i64`.
pub fn epoch_nanos(reading: Result<(u64, u32), (u64, u32)>) -> (res: Option<i64>)
    ensures
        res == reading_nanos(reading),
{
    match reading {
        Ok((secs, nanos)) => {
            let total: u128 = secs as u128 * 1_000_000_000u128 + nanos as u128;
            if total <= i64::MAX as u128 {
                Some(total as i64)
            } else {
                None
            }
        },
        Err((secs, nanos)) => {
            let total: u128 = secs as u128 * 1_000_000_000u128 + nanos as u128;
            if total < i64::MAX as u128 + 1 {
                Some(-(total as i64))
            } else if total == i64::MAX as u128 + 1 {
                Some(i64::MIN)
            } else {
                None
            }
        },
    }
}

/// The current time in nanoseconds from the Unix epoch, or `None` when it is
/// outside the range of `i64`.
pub fn now_nanos() -> (res: Option<i64>) {
    clock_since_epoch().nanos()
}

} // verus!
