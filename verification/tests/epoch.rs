use dutch_auction_vault::epoch::Epoch;
use dutch_auction_vault::error::ContractError;

#[test]
fn test_epoch_new() {
    let epoch = Epoch::new(100u64, 50u64);
    epoch.validate().unwrap();
    assert_eq!(epoch.duration, 100u64);
    assert_eq!(epoch.start_time, 50u64);
    assert_eq!(epoch.offset, 50u64);
}

#[test]
fn test_current_epoch_before_start_time() {
    let epoch = Epoch::new(100u64, 50u64);
    epoch.validate().unwrap();
    let current = epoch.current_epoch(30u64);
    assert_eq!(current, 0u64);
}

#[test]
fn test_current_epoch_at_start_time() {
    let epoch = Epoch::new(100u64, 50u64);
    epoch.validate().unwrap();
    let current = epoch.current_epoch(50u64);
    assert_eq!(current, 0u64);
}

#[test]
fn test_current_epoch_in_first_epoch() {
    let epoch = Epoch::new(100u64, 50u64);
    epoch.validate().unwrap();
    let current = epoch.current_epoch(80u64);
    assert_eq!(current, 0u64);
}

#[test]
fn test_current_epoch_at_second_epoch_start() {
    let epoch = Epoch::new(100u64, 50u64);
    epoch.validate().unwrap();
    let current = epoch.current_epoch(150u64);
    assert_eq!(current, 1u64);
}

#[test]
fn test_current_epoch_in_second_epoch() {
    let epoch = Epoch::new(100u64, 50u64);
    epoch.validate().unwrap();
    let current = epoch.current_epoch(170u64);
    assert_eq!(current, 1u64);
}

#[test]
fn test_current_epoch_in_larger_epoch() {
    let epoch = Epoch::new(100u64, 50u64);
    epoch.validate().unwrap();
    let current = epoch.current_epoch(1050u64);
    assert_eq!(current, 10u64);
}

#[test]
#[should_panic]
fn test_current_epoch_with_zero_duration() {
    let epoch = Epoch { duration: 0u64, start_time: 50u64, offset: 50u64 };
    epoch.current_epoch(170u64);
}

#[test]
#[should_panic]
fn test_new_with_zero_duration() {
    Epoch::new(0u64, 50u64);
}

#[test]
fn test_validate_with_zero_duration() {
    let epoch = Epoch { duration: 0u64, start_time: 50u64, offset: 50u64 };
    assert_eq!(epoch.validate().unwrap_err(), ContractError::EpochDurationCannotBeZero {});
}

#[test]
fn epoch_offset_is_start_modulo_duration() {
    let epoch = Epoch::new(60u64, 125u64);
    assert_eq!(epoch.offset, 5u64);
    // 125 lies 5 seconds into a period, so the next boundary is at 180.
    assert_eq!(epoch.current_epoch(179u64), 0u64);
    assert_eq!(epoch.current_epoch(180u64), 1u64);
    assert_eq!(epoch.current_epoch(u64::MAX), (u64::MAX - 125 + 5) / 60);
}

#[test]
fn before_the_start_no_duration_is_needed() {
    let epoch = Epoch { duration: 0u64, start_time: 50u64, offset: 50u64 };
    assert_eq!(epoch.current_epoch(49u64), 0u64);
}
