use std::time::{Duration, Instant};
use trending_tui::orderbook::{
    is_stale, OrderbookData, OrderbookLevel, OrderbookOutcome, OrderbookState, MIN_PANEL_HEIGHT,
    REFRESH_SECS,
};

fn snapshot() -> OrderbookData {
    OrderbookData {
        asks: vec![
            OrderbookLevel { price: 520_000, size: 10_000_000, total: 5_200_000 },
            OrderbookLevel { price: 530_000, size: 20_000_000, total: 15_800_000 },
        ],
        bids: vec![OrderbookLevel { price: 500_000, size: 5_000_000, total: 2_500_000 }],
        spread: Some(20_000),
        last_price: Some(510_000),
    }
}

fn populated() -> OrderbookState {
    let mut state = OrderbookState::new();
    state.complete_fetch(snapshot(), "T1".to_string());
    state
}

#[test]
fn outcome_toggles_and_labels() {
    assert_eq!(OrderbookOutcome::Yes.toggle(), OrderbookOutcome::No);
    assert_eq!(OrderbookOutcome::No.toggle(), OrderbookOutcome::Yes);
    assert_eq!(OrderbookOutcome::Yes.label(), "Yes");
    assert_eq!(OrderbookOutcome::No.label(), "No");
    assert_eq!(OrderbookOutcome::default(), OrderbookOutcome::Yes);
}

#[test]
fn new_state_is_empty() {
    let state = OrderbookState::new();
    assert_eq!(state.selected_market_index, 0);
    assert_eq!(state.selected_outcome, OrderbookOutcome::Yes);
    assert!(state.orderbook.is_none());
    assert!(!state.is_loading);
    assert!(state.last_fetch.is_none());
    assert!(state.token_id.is_none());
    assert_eq!(state.last_height, MIN_PANEL_HEIGHT);
    assert_eq!(state.last_height, 5);
    let d = OrderbookState::default();
    assert!(d.orderbook.is_none());
    assert_eq!(d.last_height, 5);
}

#[test]
fn default_snapshot_is_empty() {
    let d = OrderbookData::default();
    assert!(d.asks.is_empty());
    assert!(d.bids.is_empty());
    assert!(d.spread.is_none());
    assert!(d.last_price.is_none());
}

#[test]
fn a_fetch_replaces_the_snapshot_whole() {
    let mut state = populated();
    assert_eq!(state.token_id.as_deref(), Some("T1"));
    assert_eq!(state.orderbook.as_ref().unwrap().asks.len(), 2);
    let next = OrderbookData {
        asks: vec![],
        bids: vec![OrderbookLevel { price: 400_000, size: 1_000_000, total: 400_000 }],
        spread: None,
        last_price: None,
    };
    state.begin_fetch();
    assert!(state.is_loading);
    state.complete_fetch(next, "T1".to_string());
    assert!(!state.is_loading);
    let book = state.orderbook.as_ref().unwrap();
    assert!(book.asks.is_empty());
    assert_eq!(book.bids.len(), 1);
    assert_eq!(book.bids[0].price, 400_000);
    assert!(book.spread.is_none());
}

#[test]
fn switching_the_outcome_clears_the_snapshot() {
    let mut state = populated();
    assert_eq!(state.selected_market_index, 0);
    assert_eq!(state.selected_outcome, OrderbookOutcome::Yes);
    state.toggle_outcome();
    assert_eq!(state.selected_outcome, OrderbookOutcome::No);
    assert!(state.orderbook.is_none());
    assert!(state.token_id.is_none());
    assert_eq!(state.selected_market_index, 0);
}

#[test]
fn switching_the_market_clears_the_snapshot() {
    let mut state = populated();
    state.select_market(3);
    assert_eq!(state.selected_market_index, 3);
    assert!(state.orderbook.is_none());
    assert!(state.token_id.is_none());
    assert_eq!(state.selected_outcome, OrderbookOutcome::Yes);
}

#[test]
fn reset_selects_the_first_market_and_clears() {
    let mut state = populated();
    state.select_market(2);
    state.complete_fetch(snapshot(), "T2".to_string());
    state.toggle_outcome();
    state.complete_fetch(snapshot(), "T3".to_string());
    state.begin_fetch();
    state.reset();
    assert_eq!(state.selected_market_index, 0);
    assert!(state.orderbook.is_none());
    assert!(state.token_id.is_none());
    assert!(!state.is_loading);
    assert_eq!(state.selected_outcome, OrderbookOutcome::No);
    assert!(state.last_fetch.is_some());
}

#[test]
fn staleness_follows_the_clock() {
    let mut state = OrderbookState::new();
    assert!(state.needs_refresh());
    state.complete_fetch(snapshot(), "T1".to_string());
    assert!(!state.needs_refresh());
    state.last_fetch = Instant::now().checked_sub(Duration::from_secs(5));
    assert!(state.last_fetch.is_some());
    assert!(state.needs_refresh());
    state.last_fetch = Instant::now().checked_sub(Duration::from_secs(2));
    assert!(!state.needs_refresh());
    state.last_fetch = Instant::now().checked_sub(Duration::from_secs(3600));
    assert!(state.needs_refresh());
}

#[test]
fn staleness_by_whole_seconds() {
    assert_eq!(REFRESH_SECS, 5);
    assert!(is_stale(None));
    assert!(!is_stale(Some(0)));
    assert!(!is_stale(Some(4)));
    assert!(is_stale(Some(5)));
    assert!(is_stale(Some(6)));
    assert!(is_stale(Some(u64::MAX)));
}
