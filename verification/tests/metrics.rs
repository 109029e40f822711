//! Metrics: which updates an event causes.

use orderbook_rs::metrics::{
    record_depth, record_reject, record_reject_label, record_reserve_hidden_discarded,
    record_trades, MetricUpdate, DEPTH_LEVELS_ASK, DEPTH_LEVELS_BID, REJECTS_TOTAL,
    RESERVE_DISCARDS_TOTAL, RESERVE_HIDDEN_DISCARDED_TOTAL, TRADES_TOTAL,
};
use orderbook_rs::reject_reason::RejectReason;
use std::collections::HashMap;

/// A recorder that keeps what it is handed.
#[derive(Default)]
struct Captured {
    counters: HashMap<String, u64>,
    gauges: HashMap<String, u64>,
}

impl Captured {
    fn apply(&mut self, update: MetricUpdate) {
        match update {
            MetricUpdate::Increment { name, amount } => {
                *self.counters.entry(name.to_string()).or_insert(0) += amount;
            }
            MetricUpdate::IncrementLabelled {
                name,
                label,
                value,
                amount,
            } => {
                let key = format!("{}{{{}={}}}", name, label, value);
                *self.counters.entry(key).or_insert(0) += amount;
            }
            MetricUpdate::SetGauge { name, value } => {
                self.gauges.insert(name.to_string(), value);
            }
        }
    }

    fn apply_all(&mut self, updates: impl IntoIterator<Item = MetricUpdate>) {
        for update in updates {
            self.apply(update);
        }
    }

    fn counter(&self, key: &str) -> u64 {
        self.counters.get(key).copied().unwrap_or(0)
    }
}

#[test]
fn helpers_are_callable_unconditionally() {
    record_reject(RejectReason::KillSwitchActive);
    record_reject(RejectReason::Other(7777));
    record_depth(0, 0);
    record_depth(3, 5);
    record_trades(0);
    record_trades(4);
    record_reserve_hidden_discarded(0);
    record_reserve_hidden_discarded(20);
}

#[test]
fn metric_names_are_stable() {
    assert_eq!(REJECTS_TOTAL, "orderbook_rejects_total");
    assert_eq!(DEPTH_LEVELS_BID, "orderbook_depth_levels_bid");
    assert_eq!(DEPTH_LEVELS_ASK, "orderbook_depth_levels_ask");
    assert_eq!(TRADES_TOTAL, "orderbook_trades_total");
    assert_eq!(RESERVE_DISCARDS_TOTAL, "orderbook_reserve_discards_total");
    assert_eq!(
        RESERVE_HIDDEN_DISCARDED_TOTAL,
        "orderbook_reserve_hidden_discarded_total"
    );
}

#[test]
fn rejections_count_once_under_their_reason() {
    let mut captured = Captured::default();
    captured.apply(record_reject(RejectReason::KillSwitchActive));
    captured.apply(record_reject(RejectReason::KillSwitchActive));
    captured.apply(record_reject(RejectReason::Other(7777)));
    assert_eq!(
        captured.counter("orderbook_rejects_total{reason=kill switch active}"),
        2
    );
    assert_eq!(
        captured.counter("orderbook_rejects_total{reason=other (7777)}"),
        1
    );
    assert_eq!(captured.counters.len(), 2);
    assert!(captured.gauges.is_empty());
}

#[test]
fn rejections_count_under_any_label() {
    let mut captured = Captured::default();
    captured.apply(record_reject_label("kill switch active".to_string()));
    captured.apply(record_reject(RejectReason::KillSwitchActive));
    captured.apply(record_reject_label("price band".to_string()));
    captured.apply(record_reject_label(String::new()));
    assert_eq!(
        captured.counter("orderbook_rejects_total{reason=kill switch active}"),
        2
    );
    assert_eq!(
        captured.counter("orderbook_rejects_total{reason=price band}"),
        1
    );
    assert_eq!(captured.counter("orderbook_rejects_total{reason=}"), 1);
    assert_eq!(captured.counters.len(), 3);
}

#[test]
fn reject_reasons_are_worded() {
    assert_eq!(RejectReason::KillSwitchActive.to_string(), "kill switch active");
    assert_eq!(RejectReason::DuplicateOrderId.to_string(), "duplicate order id");
    assert_eq!(RejectReason::InvalidPrice.to_string(), "invalid price");
    assert_eq!(RejectReason::InvalidQuantity.to_string(), "invalid quantity");
    assert_eq!(
        RejectReason::InsufficientLiquidity.to_string(),
        "insufficient liquidity"
    );
    assert_eq!(
        RejectReason::ReserveResidualWouldBeDiscarded.to_string(),
        "reserve residual would be discarded"
    );
    assert_eq!(RejectReason::Other(0).to_string(), "other (0)");
}

#[test]
fn depth_sets_both_gauges_and_the_last_one_wins() {
    let mut captured = Captured::default();
    captured.apply_all(record_depth(2, 1));
    assert_eq!(captured.gauges.get(DEPTH_LEVELS_BID), Some(&2));
    assert_eq!(captured.gauges.get(DEPTH_LEVELS_ASK), Some(&1));
    captured.apply_all(record_depth(2, 0));
    assert_eq!(captured.gauges.get(DEPTH_LEVELS_BID), Some(&2));
    assert_eq!(captured.gauges.get(DEPTH_LEVELS_ASK), Some(&0));
    assert!(captured.counters.is_empty());
}

#[test]
fn trades_count_each_trade() {
    let mut captured = Captured::default();
    captured.apply_all(record_trades(4));
    captured.apply_all(record_trades(0));
    captured.apply_all(record_trades(3));
    assert_eq!(captured.counter(TRADES_TOTAL), 7);
    assert_eq!(captured.counters.len(), 1);
    assert!(record_trades(0).is_none());
}

#[test]
fn reserve_discards_count_orders_and_units() {
    let mut captured = Captured::default();
    captured.apply_all(record_reserve_hidden_discarded(20).into_iter().flatten());
    captured.apply_all(record_reserve_hidden_discarded(0).into_iter().flatten());
    captured.apply_all(record_reserve_hidden_discarded(5).into_iter().flatten());
    assert_eq!(captured.counter(RESERVE_DISCARDS_TOTAL), 2);
    assert_eq!(captured.counter(RESERVE_HIDDEN_DISCARDED_TOTAL), 25);
    assert!(record_reserve_hidden_discarded(0).is_none());
}
