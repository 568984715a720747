use tree_cleanup::dispatch::{DispatchError, Origin};
use tree_cleanup::tree::{Config, Event, GenesisConfig, Pallet};

fn ledger(max_watering: u64, water_height: u32, height: u32, last: u64) -> Pallet {
    GenesisConfig {
        last_watering_block: last,
        height,
    }
    .build(Config {
        max_watering,
        water_height,
    })
}

#[test]
fn watering_grows_and_records_the_tick() {
    let mut tree = ledger(10, 5, 7, 0);
    let ev = tree.water(Origin::Root, 4);
    assert_eq!(ev, Ok(Event::HeightIncreased(12)));
    assert_eq!(tree.height(), 12);
    assert_eq!(tree.last_watering_time(), 4);
}

#[test]
fn watering_saturates_at_the_ceiling() {
    let mut tree = ledger(10, 5, u32::MAX - 2, 0);
    let ev = tree.water(Origin::Root, 1);
    assert_eq!(ev, Ok(Event::HeightIncreased(u32::MAX)));
    assert_eq!(tree.height(), u32::MAX);
}

#[test]
fn growth_decay_round_trip() {
    let mut tree = ledger(10, 5, 7, 0);
    let mut marker: Option<u32> = None;
    tree.water(Origin::Root, 0).unwrap();
    assert_eq!(tree.height(), 12);
    let ev = tree.cleanup(Origin::Root, 11, &mut marker);
    assert_eq!(ev, Ok(Some(Event::HeightDecreased(7))));
    assert_eq!(tree.height(), 7);
}

#[test]
fn cleanup_policy_boundary() {
    let tree = ledger(10, 5, 5, 3);
    assert!(!tree.cleanable(13));
    assert!(tree.cleanable(14));
}

#[test]
fn cleanup_before_threshold_is_a_no_op() {
    let mut tree = ledger(10, 5, 9, 3);
    let mut marker: Option<u32> = None;
    let ev = tree.cleanup(Origin::Root, 13, &mut marker);
    assert_eq!(ev, Ok(None));
    assert_eq!(tree.height(), 9);
    assert_eq!(marker, None);
}

#[test]
fn decay_saturates_at_zero_and_queues_the_pre_decay_height() {
    let mut tree = ledger(10, 5, 3, 0);
    let mut marker: Option<u32> = None;
    let ev = tree.cleanup(Origin::Root, 11, &mut marker);
    assert_eq!(ev, Ok(Some(Event::HeightDecreased(0))));
    assert_eq!(tree.height(), 0);
    assert_eq!(marker, Some(3));
}

#[test]
fn decay_overwrites_an_undelivered_marker() {
    let mut tree = ledger(10, 5, 8, 0);
    let mut marker: Option<u32> = Some(42);
    tree.cleanup(Origin::Root, 11, &mut marker).unwrap();
    assert_eq!(marker, Some(8));
}

#[test]
fn ledger_calls_reject_unprivileged_origins() {
    let mut tree = ledger(10, 5, 9, 3);
    let mut marker: Option<u32> = None;
    assert_eq!(tree.water(Origin::Signed, 5), Err(DispatchError::BadOrigin));
    assert_eq!(
        tree.cleanup(Origin::Unsigned, 99, &mut marker),
        Err(DispatchError::BadOrigin)
    );
    assert_eq!(tree.height(), 9);
    assert_eq!(tree.last_watering_time(), 3);
    assert_eq!(marker, None);
}

#[test]
fn default_genesis_starts_one_watering_high() {
    let config = Config {
        max_watering: 10,
        water_height: 5,
    };
    let genesis = GenesisConfig::default_for(&config);
    let tree = genesis.build(config);
    assert_eq!(tree.height(), 5);
    assert_eq!(tree.last_watering_time(), 0);
}

#[test]
fn concrete_cleanup_scenario() {
    // Initial height one watering high, increment 5, threshold 10 ticks.
    let config = Config {
        max_watering: 10,
        water_height: 5,
    };
    let mut tree = GenesisConfig::default_for(&config).build(config);
    let mut marker: Option<u32> = None;
    assert_eq!(tree.height(), 5);

    let grown = tree.water(Origin::Root, 0);
    assert_eq!(grown, Ok(Event::HeightIncreased(10)));

    // Ticks 1 through 10: the threshold has not yet elapsed.
    for now in 1..=10u64 {
        assert_eq!(tree.cleanup(Origin::Root, now, &mut marker), Ok(None));
        assert_eq!(marker, None);
    }

    // Tick 11: the cleanup fires exactly once, and one notification of the
    // pre-decay height is queued.
    let fired = tree.cleanup(Origin::Root, 11, &mut marker);
    assert_eq!(fired, Ok(Some(Event::HeightDecreased(5))));
    assert_eq!(tree.height(), 5);
    assert_eq!(marker, Some(10));
}
