use std::sync::atomic::{AtomicBool, Ordering};
use std::sync::Arc;
use trending_tui::trade::TradeMessage;
use trending_tui::trades_ws::TradesState;

struct DropFlag(Arc<AtomicBool>);

impl Drop for DropFlag {
    fn drop(&mut self) {
        self.0.store(true, Ordering::SeqCst);
    }
}

fn runtime() -> tokio::runtime::Runtime {
    tokio::runtime::Builder::new_current_thread().build().unwrap()
}

fn idle_task(rt: &tokio::runtime::Runtime) -> tokio::task::JoinHandle<()> {
    rt.spawn(std::future::pending::<()>())
}

fn flagged_task(rt: &tokio::runtime::Runtime, flag: Arc<AtomicBool>) -> tokio::task::JoinHandle<()> {
    let guard = DropFlag(flag);
    rt.spawn(async move {
        let _guard = guard;
        std::future::pending::<()>().await
    })
}

fn settle(rt: &tokio::runtime::Runtime) {
    rt.block_on(async {
        for _ in 0..4 {
            tokio::task::yield_now().await;
        }
    });
}

fn message(price: u64) -> TradeMessage {
    TradeMessage {
        timestamp: 1_700_000_000,
        side: "BUY".to_string(),
        outcome: "Yes".to_string(),
        price,
        size: 1_000_000,
        title: "Will it rain?".to_string(),
        asset: "asset-1".to_string(),
        name: "alice".to_string(),
        pseudonym: String::new(),
    }
}

#[test]
fn new_registry_watches_nothing() {
    let reg = TradesState::new();
    assert!(!reg.is_watching("E1"));
    assert!(reg.get_trades("E1").is_empty());
}

#[test]
fn watch_append_stop_keeps_history() {
    let rt = runtime();
    let mut reg = TradesState::new();
    reg.start_watching("E1".to_string(), idle_task(&rt));
    assert!(reg.is_watching("E1"));
    for price in [400_000u64, 450_000, 500_000] {
        assert!(reg.add_trade("E1", &message(price)));
    }
    let prices: Vec<u64> = reg.get_trades("E1").iter().map(|t| t.price).collect();
    assert_eq!(prices, vec![500_000, 450_000, 400_000]);
    reg.stop_watching("E1");
    assert!(!reg.is_watching("E1"));
    let prices: Vec<u64> = reg.get_trades("E1").iter().map(|t| t.price).collect();
    assert_eq!(prices, vec![500_000, 450_000, 400_000]);
}

#[test]
fn stop_without_watch_is_a_no_op() {
    let rt = runtime();
    let mut reg = TradesState::new();
    reg.stop_watching("nothing");
    assert!(!reg.is_watching("nothing"));
    assert!(reg.get_trades("nothing").is_empty());
    reg.start_watching("E1".to_string(), idle_task(&rt));
    reg.add_trade("E1", &message(400_000));
    reg.stop_watching("E2");
    assert!(reg.is_watching("E1"));
    assert_eq!(reg.get_trades("E1").len(), 1);
    reg.stop_watching("E1");
    reg.stop_watching("E1");
    assert!(!reg.is_watching("E1"));
    assert_eq!(reg.get_trades("E1").len(), 1);
}

#[test]
fn stop_cancels_the_task() {
    let rt = runtime();
    let flag = Arc::new(AtomicBool::new(false));
    let mut reg = TradesState::new();
    reg.start_watching("E1".to_string(), flagged_task(&rt, flag.clone()));
    settle(&rt);
    assert!(!flag.load(Ordering::SeqCst));
    reg.stop_watching("E1");
    settle(&rt);
    assert!(flag.load(Ordering::SeqCst));
}

#[test]
fn resume_keeps_the_history() {
    let rt = runtime();
    let mut reg = TradesState::new();
    reg.start_watching("E1".to_string(), idle_task(&rt));
    reg.add_trade("E1", &message(400_000));
    reg.stop_watching("E1");
    reg.start_watching("E1".to_string(), idle_task(&rt));
    assert!(reg.is_watching("E1"));
    assert_eq!(reg.get_trades("E1").len(), 1);
    reg.add_trade("E1", &message(410_000));
    assert_eq!(reg.get_trades("E1")[0].price, 410_000);
}

#[test]
fn a_message_for_an_unknown_event_is_dropped() {
    let mut reg = TradesState::new();
    assert!(!reg.add_trade("E9", &message(400_000)));
    assert!(reg.get_trades("E9").is_empty());
}

#[test]
fn events_are_kept_apart() {
    let rt = runtime();
    let mut reg = TradesState::new();
    reg.start_watching("E1".to_string(), idle_task(&rt));
    reg.start_watching("E2".to_string(), idle_task(&rt));
    reg.add_trade("E1", &message(100_000));
    reg.add_trade("E2", &message(200_000));
    reg.add_trade("E2", &message(300_000));
    assert_eq!(reg.get_trades("E1").len(), 1);
    assert_eq!(reg.get_trades("E2").len(), 2);
    reg.stop_watching("E1");
    assert!(!reg.is_watching("E1"));
    assert!(reg.is_watching("E2"));
}

#[test]
fn cleanup_cancels_every_task_and_keeps_the_trades() {
    let rt = runtime();
    let first = Arc::new(AtomicBool::new(false));
    let second = Arc::new(AtomicBool::new(false));
    let mut reg = TradesState::new();
    reg.start_watching("E1".to_string(), flagged_task(&rt, first.clone()));
    reg.start_watching("E2".to_string(), flagged_task(&rt, second.clone()));
    reg.add_trade("E1", &message(100_000));
    settle(&rt);
    reg.cleanup();
    settle(&rt);
    assert!(first.load(Ordering::SeqCst));
    assert!(second.load(Ordering::SeqCst));
    assert!(!reg.is_watching("E1"));
    assert!(!reg.is_watching("E2"));
    assert_eq!(reg.get_trades("E1").len(), 1);
}
