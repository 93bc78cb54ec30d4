use crate::amount::Amount;
use crate::error::CoreError;
use vstd::prelude::*;

verus! {

/// The seconds between two blocks that the rotation estimate assumes.
pub const BLOCK_TIME_SECONDS: u32 = 6;

/// The pattern in which rotation times are written, in UTC.
pub const DATE_FORMAT: &'static str = "[year]-[month]-[day] [hour]:[minute]:[second]";

/// A block header as the node reports it.
#[derive(Clone, Debug)]
pub struct BlockHeader {
    pub parent_hash: [u8; 32],
    pub number: u64,
    pub state_root: [u8; 32],
    pub extrinsics_root: [u8; 32],
}

/// The validator auction's parameters as the node reports them.
#[derive(Clone, Debug)]
pub struct AuctionState {
    pub blocks_per_epoch: u32,
    pub current_epoch_started_at: u32,
    pub redemption_period_as_percentage: u8,
    pub min_funding: Amount,
    pub auction_size_range: Vec<u16>,
    pub min_active_bid: Amount,
}

/// The node's health report.
#[derive(Clone, Copy, Debug)]
pub struct SystemHealth {
    pub peers: u32,
    pub is_syncing: bool,
    pub should_have_peers: bool,
}

impl SystemHealth {
    /// The node has caught up with the chain.
    pub fn is_synced(&self) -> (r: bool)
        ensures
            r == !self.is_syncing,
    {
        !self.is_syncing
    }
}

/// Seconds until the next rotation, under linear block production: the blocks
/// left in the epoch times the block time. `None` where the current block lies
/// before the epoch start or past its end, which only a stale or inconsistent
/// read can give.
pub open spec fn rotation_seconds(
    blocks_per_epoch: int,
    epoch_start: int,
    current_block: int,
    block_time: int,
) -> Option<int> {
    if current_block < epoch_start || current_block - epoch_start > blocks_per_epoch {
        None
    } else {
        Some((blocks_per_epoch - (current_block - epoch_start)) * block_time)
    }
}

/// Estimates the seconds until the next authority rotation from the auction
/// state, the current block height and the time per block.
pub fn estimate_rotation(state: &AuctionState, current_block: u64, block_time_seconds: u32) -> (r:
    Result<u64, CoreError>)
    ensures
        match rotation_seconds(
            state.blocks_per_epoch as int,
            state.current_epoch_started_at as int,
            current_block as int,
            block_time_seconds as int,
        ) {
            Some(s) => r == Ok::<u64, CoreError>(s as u64) && s == r.unwrap() as int,
            None => r == Err::<u64, CoreError>(CoreError::InconsistentEpochState),
        },
{
    let start = state.current_epoch_started_at as u64;
    let per_epoch = state.blocks_per_epoch as u64;
    if current_block < start {
        return Err(CoreError::InconsistentEpochState);
    }
    let elapsed = current_block - start;
    if elapsed > per_epoch {
        return Err(CoreError::InconsistentEpochState);
    }
    let remaining = per_epoch - elapsed;
    assert(remaining * (block_time_seconds as u64) <= 0xFFFF_FFFFu64 * 0xFFFF_FFFFu64) by (nonlinear_arith)
        requires
            remaining <= 0xFFFF_FFFF,
            block_time_seconds <= 0xFFFF_FFFF,
    ;
    Ok(remaining * (block_time_seconds as u64))
}

/// The earliest instant the time crate writes: -9999-01-01 00:00:00 UTC.
pub const MIN_UTC_SECONDS: i64 = -377705116800;

/// The latest instant the time crate writes: 9999-12-31 23:59:59 UTC.
pub const MAX_UTC_SECONDS: i64 = 253402300799;

/// The text of the UTC instant `unix_seconds` written in `pattern`.
pub uninterp spec fn utc_text(unix_seconds: int, pattern: Seq<char>) -> Seq<char>;

/// Relies on the time crate: `OffsetDateTime::from_unix_timestamp` gives the
/// UTC instant, and fails exactly outside the years -9999 to 9999;
/// `format_description::parse` reads the pattern, which for [`DATE_FORMAT`]
/// succeeds; and `OffsetDateTime::format` writes the instant in it, which for
/// the components of that pattern cannot fail.
#[verifier::external_body]
fn format_utc(unix_seconds: i64, pattern: &str) -> (r: Option<String>)
    ensures
        r matches Some(t) ==> t@ == utc_text(unix_seconds as int, pattern@),
        !(MIN_UTC_SECONDS <= unix_seconds <= MAX_UTC_SECONDS) ==> r is None,
        pattern@ == DATE_FORMAT@ && MIN_UTC_SECONDS <= unix_seconds <= MAX_UTC_SECONDS ==> r is Some,
{
    let at = time::OffsetDateTime::from_unix_timestamp(unix_seconds).ok()?;
    let items = time::format_description::parse(pattern).ok()?;
    at.format(&items).ok()
}

/// The default text of the UTC instant `unix_seconds`: date, time and offset.
pub uninterp spec fn utc_default_text(unix_seconds: int) -> Seq<char>;

/// Relies on the time crate: `OffsetDateTime::from_unix_timestamp` gives the
/// UTC instant, and fails exactly outside the years -9999 to 9999; the
/// `Display` of `OffsetDateTime` writes it and does not fail.
#[verifier::external_body]
fn format_utc_default(unix_seconds: i64) -> (r: Option<String>)
    ensures
        r matches Some(t) ==> t@ == utc_default_text(unix_seconds as int),
        (r is Some) == (MIN_UTC_SECONDS <= unix_seconds <= MAX_UTC_SECONDS),
{
    match time::OffsetDateTime::from_unix_timestamp(unix_seconds) {
        Ok(at) => Some(at.to_string()),
        Err(_) => None,
    }
}

/// The instant `seconds_to_rotation` after `now_unix`, where the time crate
/// can write it.
pub open spec fn writable_instant(now_unix: i64, seconds_to_rotation: u64) -> bool {
    MIN_UTC_SECONDS <= now_unix + seconds_to_rotation <= MAX_UTC_SECONDS
}

/// The instant `seconds_to_rotation` after `now_unix`, where it is writable.
fn rotation_instant(now_unix: i64, seconds_to_rotation: u64) -> (r: Option<i64>)
    ensures
        r matches Some(t) ==> t == now_unix + seconds_to_rotation,
        (r is Some) == writable_instant(now_unix, seconds_to_rotation),
{
    let at: i128 = now_unix as i128 + seconds_to_rotation as i128;
    if MIN_UTC_SECONDS as i128 <= at && at <= MAX_UTC_SECONDS as i128 {
        Some(at as i64)
    } else {
        None
    }
}

/// The wall-clock time of the next rotation, `seconds_to_rotation` after the
/// instant `now_unix`, written in [`DATE_FORMAT`]. `None` exactly where that
/// instant lies outside the years -9999 to 9999.
pub fn rotation_time_text(now_unix: i64, seconds_to_rotation: u64) -> (r: Option<String>)
    ensures
        (r is Some) == writable_instant(now_unix, seconds_to_rotation),
        r matches Some(t) ==> t@ == utc_text(now_unix + seconds_to_rotation, DATE_FORMAT@),
{
    match rotation_instant(now_unix, seconds_to_rotation) {
        Some(at) => format_utc(at, DATE_FORMAT),
        None => None,
    }
}

/// The wall-clock time of the next rotation, written in the time crate's
/// default form. `None` exactly where that instant lies outside the years
/// -9999 to 9999.
pub fn rotation_time_default_text(now_unix: i64, seconds_to_rotation: u64) -> (r: Option<String>)
    ensures
        (r is Some) == writable_instant(now_unix, seconds_to_rotation),
        r matches Some(t) ==> t@ == utc_default_text(now_unix + seconds_to_rotation),
{
    match rotation_instant(now_unix, seconds_to_rotation) {
        Some(at) => format_utc_default(at),
        None => None,
    }
}

} // verus!
