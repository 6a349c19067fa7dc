use trending_tui::trade::{EventTrades, Trade, TradeMessage, MAX_TRADES};
use trending_tui::units::{round_to_hundredths, trade_value};

fn message(timestamp: i64, price: u64, size: u64) -> TradeMessage {
    TradeMessage {
        timestamp,
        side: "BUY".to_string(),
        outcome: "Yes".to_string(),
        price,
        size,
        title: "Will it rain?".to_string(),
        asset: "asset-1".to_string(),
        name: "alice".to_string(),
        pseudonym: "Quiet-Heron".to_string(),
    }
}

#[test]
fn new_log_is_empty_and_not_watching() {
    let log = EventTrades::new();
    assert!(log.trades.is_empty());
    assert!(!log.is_watching);
}

#[test]
fn a_message_is_recorded_field_by_field() {
    let mut log = EventTrades::new();
    log.add_trade(&message(1_700_000_000, 450_000, 12_345_678));
    assert_eq!(log.trades.len(), 1);
    let t = &log.trades[0];
    assert_eq!(t.timestamp, 1_700_000_000);
    assert_eq!(t.side, "BUY");
    assert_eq!(t.outcome, "Yes");
    assert_eq!(t.price, 450_000);
    assert_eq!(t.shares, 1_235);
    assert_eq!(t.total_value, 450_000u128 * 1_235u128);
    assert_eq!(t.title, "Will it rain?");
    assert_eq!(t.asset_id, "asset-1");
    assert_eq!(t.user, "alice");
    assert_eq!(t.pseudonym, "Quiet-Heron");
}

#[test]
fn adding_a_trade_leaves_the_flag_alone() {
    let mut log = EventTrades::new();
    log.is_watching = true;
    log.add_trade(&message(1, 500_000, 1_000_000));
    assert!(log.is_watching);
}

#[test]
fn sizes_round_to_the_nearest_hundredth() {
    assert_eq!(round_to_hundredths(0), 0);
    assert_eq!(round_to_hundredths(4_999), 0);
    assert_eq!(round_to_hundredths(5_000), 1);
    assert_eq!(round_to_hundredths(14_999), 1);
    assert_eq!(round_to_hundredths(15_000), 2);
    assert_eq!(round_to_hundredths(12_345_678), 1_235);
    assert_eq!(round_to_hundredths(u64::MAX), u64::MAX / 10_000);
    assert_eq!(round_to_hundredths(18_446_744_073_709_545_000), 1_844_674_407_370_955);
}

#[test]
fn value_is_price_times_shares() {
    assert_eq!(trade_value(0, 100), 0);
    assert_eq!(trade_value(980_000, 250), 245_000_000);
    assert_eq!(trade_value(u64::MAX, u64::MAX), (u64::MAX as u128) * (u64::MAX as u128));
}

#[test]
fn history_is_bounded_to_the_most_recent_arrivals() {
    let mut log = EventTrades::new();
    let n: i64 = 620;
    for k in 0..n {
        log.add_trade(&message(k, 500_000, 1_000_000));
    }
    assert_eq!(log.trades.len(), MAX_TRADES);
    assert_eq!(log.trades.len(), 500);
    for (i, t) in log.trades.iter().enumerate() {
        assert_eq!(t.timestamp, n - 1 - i as i64);
    }
}

#[test]
fn the_bound_is_reached_at_exactly_five_hundred() {
    let mut log = EventTrades::new();
    for k in 0..500 {
        log.add_trade(&message(k, 500_000, 1_000_000));
    }
    assert_eq!(log.trades.len(), 500);
    assert_eq!(log.trades[499].timestamp, 0);
    log.add_trade(&message(500, 500_000, 1_000_000));
    assert_eq!(log.trades.len(), 500);
    assert_eq!(log.trades[0].timestamp, 500);
    assert_eq!(log.trades[499].timestamp, 1);
}

#[test]
fn arrival_order_wins_over_time_stamps() {
    let mut log = EventTrades::new();
    for ts in [300, 100, 200] {
        log.add_trade(&message(ts, 500_000, 1_000_000));
    }
    let stamps: Vec<i64> = log.trades.iter().map(|t| t.timestamp).collect();
    assert_eq!(stamps, vec![200, 100, 300]);
}

#[test]
fn a_message_that_arrives_twice_is_recorded_twice() {
    let mut log = EventTrades::new();
    let m = message(7, 400_000, 2_000_000);
    log.add_trade(&m);
    log.add_trade(&m);
    assert_eq!(log.trades.len(), 2);
    assert_eq!(log.trades[0].timestamp, 7);
    assert_eq!(log.trades[1].timestamp, 7);
}

#[test]
fn trader_name_falls_back_to_pseudonym_and_dash() {
    let mut m = message(1, 500_000, 1_000_000);
    assert_eq!(Trade::from_message(&m).trader_name(), "alice");
    m.name = String::new();
    assert_eq!(Trade::from_message(&m).trader_name(), "Quiet-Heron");
    m.pseudonym = String::new();
    assert_eq!(Trade::from_message(&m).trader_name(), "-");
}
