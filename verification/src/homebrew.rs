//! Keeping the local copy of the homebrew store database current: when to
//! ask for the store's hash, and whether the copy differs from the store's.

use vstd::prelude::*;
use crate::codec::{hex_lower, md5, md5_digest, hex_encode};
use crate::json::{JsonValue, get_key, as_text, str_member};

verus! {

/// Whether the store's hash is to be asked for: in the first four and the last
/// two minutes of each hour (outside minutes 4 to 57), or whenever there is
/// no local copy.
pub open spec fn check_due(minute: u32, db_exists: bool) -> bool {
    !(4 <= minute && minute <= 57) || !db_exists
}

/// Whether the store's hash is to be asked for at `minute`.
pub fn hash_check_due(minute: u32, db_exists: bool) -> (r: bool)
    ensures
        r == check_due(minute, db_exists),
        r <==> (minute < 4 || minute > 57 || !db_exists),
{
    !(4 <= minute && minute <= 57) || !db_exists
}

/// Trusted: the time since the Unix epoch, `SystemTime::now()` measured with
/// `duration_since(UNIX_EPOCH)`, as whole seconds and the nanoseconds of the
/// second begun (`Duration::subsec_nanos`, documented as below one billion).
/// Nothing where the clock reads before the epoch. Which time it is depends
/// on the clock.
#[verifier::external_body]
pub(crate) fn time_since_epoch() -> (r: Option<(u64, u32)>)
    ensures
        r matches Some((_, nanos)) ==> nanos < 1_000_000_000,
{
    match std::time::SystemTime::now().duration_since(std::time::UNIX_EPOCH) {
        Ok(d) => Some((d.as_secs(), d.subsec_nanos())),
        Err(_) => None,
    }
}

/// The minute of the hour of a Unix time, in UTC.
pub open spec fn minute_of(secs: int) -> int {
    (secs % 86400) / 60 % 60
}

/// Trusted: `chrono::DateTime::<Utc>::from_timestamp(secs, nanos)` and its
/// `Timelike::minute`. The source splits `secs` into days and seconds of the
/// day (Euclidean division by 86400) and builds the time of day from the
/// latter, so a minute it gives is that of `minute_of`. It gives a time for
/// every second from the epoch to 8 * 10^12 (about the year 255,000, inside
/// its last year 262,142) with fewer than 10^9 nanoseconds; beyond that its
/// range is not stated.
#[verifier::external_body]
pub(crate) fn utc_minute(secs: i64, nanos: u32) -> (r: Option<u32>)
    ensures
        r matches Some(m) ==> m as int == minute_of(secs as int) && m < 60,
        0 <= secs <= 8_000_000_000_000 && nanos < 1_000_000_000 ==> r is Some,
{
    match chrono::DateTime::<chrono::Utc>::from_timestamp(secs, nanos) {
        Some(t) => Some(chrono::Timelike::minute(&t)),
        None => None,
    }
}

/// For a time after the epoch, the minute of the day's clock is the number of
/// whole minutes since the epoch, modulo 60.
pub proof fn lemma_minute_of_elapsed(secs: int)
    requires
        secs >= 0,
    ensures
        minute_of(secs) == (secs / 60) % 60,
{
    let q = secs / 86400;
    let r = secs % 86400;
    assert(secs == 86400 * q + r);
    assert(secs / 60 == 1440 * q + r / 60) by (nonlinear_arith)
        requires
            secs == 86400 * q + r,
            0 <= r < 86400,
            q >= 0,
    ;
    assert((1440 * q + r / 60) % 60 == (r / 60) % 60) by (nonlinear_arith)
        requires
            q >= 0,
            r >= 0,
    ;
}

/// The minute of the hour, in UTC, of a clock reading of `secs` seconds and
/// `nanos` nanoseconds after the epoch: whole minutes since the epoch modulo 60.
/// Given for every reading up to 8 * 10^12 seconds with fewer than 10^9
/// nanoseconds; beyond that the calendar may give none.
pub fn minute_of_reading(secs: u64, nanos: u32) -> (r: Option<u32>)
    ensures
        r matches Some(m) ==> m as int == (secs as int / 60) % 60,
        r matches Some(m) ==> m < 60,
        secs <= 8_000_000_000_000 && nanos < 1_000_000_000 ==> r == Some(((secs / 60) % 60) as u32),
{
    if secs <= 9223372036854775807 {
        proof { lemma_minute_of_elapsed(secs as int); }
        utc_minute(secs as i64, nanos)
    } else {
        None
    }
}

/// The minute of the current UTC time; nothing where the clock cannot be read
/// as a time after the epoch that the calendar holds. The clock gives a
/// different reading at each call, so the minute is tied to it only through
/// `minute_of_reading`, which this reads it with.
pub fn current_minute() -> (r: Option<u32>)
    ensures
        r matches Some(m) ==> m < 60,
{
    match time_since_epoch() {
        Some((secs, nanos)) => minute_of_reading(secs, nanos),
        None => None,
    }
}

/// Whether the store's hash is to be asked for at a clock reading: at minutes
/// 0 to 3 and 58 to 59 of each hour, or whenever there is no local copy.
pub fn hash_check_due_at(secs: u64, nanos: u32, db_exists: bool) -> (r: Option<bool>)
    ensures
        r matches Some(due) ==> (due <==> ((secs as int / 60) % 60 < 4 || (secs as int / 60) % 60 > 57
            || !db_exists)),
        secs <= 8_000_000_000_000 && nanos < 1_000_000_000 ==> r is Some,
{
    match minute_of_reading(secs, nanos) {
        Some(m) => Some(hash_check_due(m, db_exists)),
        None => None,
    }
}

/// Whether the store's hash is to be asked for now; always where there is no
/// local copy. Nothing where the current minute cannot be read.
pub fn hash_check_due_now(db_exists: bool) -> (r: Option<bool>)
    ensures
        r matches Some(due) ==> exists|m: u32| m < 60 && due == check_due(m, db_exists),
        r matches Some(due) ==> (!db_exists ==> due),
{
    match time_since_epoch() {
        Some((secs, nanos)) => match hash_check_due_at(secs, nanos, db_exists) {
            Some(due) => {
                proof {
                    let m = ((secs as int / 60) % 60) as u32;
                    assert(due == check_due(m, db_exists));
                }
                Some(due)
            },
            None => None,
        },
        None => None,
    }
}

/// Why the store's answer could not be used.
#[derive(PartialEq, Eq, Structural, Clone, Copy, Debug)]
pub enum HomebrewError {
    /// The answer holds no `hash` text.
    NoHash,
}

/// The store's hash from its answer: the `hash` text.
pub fn remote_hash(answer: &JsonValue) -> (r: Result<String, HomebrewError>)
    ensures
        r is Err <==> as_text(get_key(*answer, "hash"@)) is None,
        r matches Ok(h) ==> as_text(get_key(*answer, "hash"@)) == Some(h@),
{
    match str_member(answer, "hash") {
        Some(h) => Ok(h.clone()),
        None => Err(HomebrewError::NoHash),
    }
}

/// The hash of the local copy: its MD5 digest in lower-case hexadecimal, or
/// `0` where there is no copy to read.
pub open spec fn local_hash_of(file: Option<Seq<u8>>) -> Seq<char> {
    match file {
        Some(bytes) => hex_lower(md5(bytes)),
        None => "0"@,
    }
}

/// The hash of the local copy, given its bytes where it could be read.
pub fn local_hash(file: Option<&[u8]>) -> (r: String)
    ensures
        r@ == local_hash_of(match file {
            Some(b) => Some(b@),
            None => None,
        }),
        file is None ==> r@ == "0"@,
        file matches Some(b) ==> r@ == hex_lower(md5(b@)),
{
    match file {
        Some(bytes) => {
            let digest = md5_digest(bytes);
            hex_encode(digest.as_slice())
        },
        None => String::from_str("0"),
    }
}

/// Whether the store's database is to be downloaded: its hash differs from the local one.
pub fn needs_download(remote: &String, local: &String) -> (r: bool)
    ensures
        r == (remote@ != local@),
{
    !(*remote == *local)
}

} // verus!
