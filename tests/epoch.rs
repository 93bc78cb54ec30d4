use jitcord::amount::Amount;
use jitcord::epoch::{
    estimate_rotation, rotation_time_default_text, rotation_time_text, AuctionState, SystemHealth,
    BLOCK_TIME_SECONDS, MAX_UTC_SECONDS, MIN_UTC_SECONDS,
};
use jitcord::error::CoreError;

fn state(blocks_per_epoch: u32, started_at: u32) -> AuctionState {
    AuctionState {
        blocks_per_epoch,
        current_epoch_started_at: started_at,
        redemption_period_as_percentage: 50,
        min_funding: Amount::from_u128(0),
        auction_size_range: vec![3, 150],
        min_active_bid: Amount::from_u128(0),
    }
}

#[test]
fn rotation_halfway_through_epoch() {
    assert_eq!(estimate_rotation(&state(100, 1000), 1050, 6), Ok(300));
    assert_eq!(estimate_rotation(&state(100, 1000), 1050, BLOCK_TIME_SECONDS), Ok(300));
}

#[test]
fn rotation_at_epoch_edges() {
    assert_eq!(estimate_rotation(&state(100, 1000), 1000, 6), Ok(600));
    assert_eq!(estimate_rotation(&state(100, 1000), 1100, 6), Ok(0));
}

#[test]
fn rotation_from_stale_reads_fails() {
    assert_eq!(
        estimate_rotation(&state(100, 1000), 999, 6),
        Err(CoreError::InconsistentEpochState)
    );
    assert_eq!(
        estimate_rotation(&state(100, 1000), 1101, 6),
        Err(CoreError::InconsistentEpochState)
    );
}

#[test]
fn rotation_at_the_largest_values() {
    assert_eq!(
        estimate_rotation(&state(u32::MAX, 0), 0, u32::MAX),
        Ok(u32::MAX as u64 * u32::MAX as u64)
    );
    assert_eq!(
        estimate_rotation(&state(u32::MAX, 0), u64::MAX, 6),
        Err(CoreError::InconsistentEpochState)
    );
}

#[test]
fn rotation_time_is_written_in_utc() {
    assert_eq!(rotation_time_text(0, 300).unwrap(), "1970-01-01 00:05:00");
    assert_eq!(rotation_time_text(1_546_300_800, 3600).unwrap(), "2019-01-01 01:00:00");
}

#[test]
fn rotation_time_out_of_range_is_none() {
    assert_eq!(rotation_time_text(i64::MAX, 1), None);
    assert_eq!(rotation_time_text(0, u64::MAX), None);
    assert_eq!(rotation_time_text(i64::MAX - 10, 0), None);
    assert_eq!(rotation_time_text(MAX_UTC_SECONDS, 1), None);
    assert_eq!(rotation_time_text(MIN_UTC_SECONDS - 1, 0), None);
}

#[test]
fn rotation_time_at_range_edges() {
    assert_eq!(rotation_time_text(MAX_UTC_SECONDS, 0).unwrap(), "9999-12-31 23:59:59");
    assert_eq!(rotation_time_text(MIN_UTC_SECONDS, 0).unwrap(), "-9999-01-01 00:00:00");
    assert_eq!(rotation_time_text(-1000, 1300).unwrap(), "1970-01-01 00:05:00");
    assert_eq!(rotation_time_text(i64::MIN, u64::MAX), None);
}

#[test]
fn rotation_time_in_default_form() {
    let t = rotation_time_default_text(0, 300).unwrap();
    assert!(t.starts_with("1970-01-01 0:05:00"));
    assert!(t.ends_with("+00:00:00"));
    assert_eq!(rotation_time_default_text(MAX_UTC_SECONDS, 1), None);
}

#[test]
fn health_synced_flag() {
    let h = SystemHealth { peers: 3, is_syncing: false, should_have_peers: true };
    assert!(h.is_synced());
    let h = SystemHealth { peers: 0, is_syncing: true, should_have_peers: true };
    assert!(!h.is_synced());
}
