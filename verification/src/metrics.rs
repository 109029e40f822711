//! Operational metrics of the order book.
//!
//! Each `record_` function says which counters and gauges one event updates,
//! and by how much. Handing the updates to a recorder is left to the caller,
//! who may also drop them: no result of the book depends on them.
//!
//! - [`REJECTS_TOTAL`], labelled with the reject reason, counts rejections.
//! - [`DEPTH_LEVELS_BID`] and [`DEPTH_LEVELS_ASK`] hold the number of distinct
//!   price levels on each side.
//! - [`TRADES_TOTAL`] counts trades.
//! - [`RESERVE_DISCARDS_TOTAL`] counts the reserve orders that lost their
//!   hidden quantity for lack of automatic replenishment, and
//!   [`RESERVE_HIDDEN_DISCARDED_TOTAL`] the quantity that was lost.

use crate::reject_reason::RejectReason;
use vstd::prelude::*;

verus! {

/// Counter: order rejections, labelled by reject reason.
pub const REJECTS_TOTAL: &'static str = "orderbook_rejects_total";

/// Gauge: number of distinct bid price levels.
pub const DEPTH_LEVELS_BID: &'static str = "orderbook_depth_levels_bid";

/// Gauge: number of distinct ask price levels.
pub const DEPTH_LEVELS_ASK: &'static str = "orderbook_depth_levels_ask";

/// Counter: trades.
pub const TRADES_TOTAL: &'static str = "orderbook_trades_total";

/// Counter: reserve orders that lost their hidden quantity for lack of
/// automatic replenishment.
pub const RESERVE_DISCARDS_TOTAL: &'static str = "orderbook_reserve_discards_total";

/// Counter: hidden quantity that those orders lost.
pub const RESERVE_HIDDEN_DISCARDED_TOTAL: &'static str = "orderbook_reserve_hidden_discarded_total";

/// The label under which [`REJECTS_TOTAL`] carries the reject reason.
pub const REASON_LABEL: &'static str = "reason";

/// An update of one metric.
#[derive(Debug)]
pub enum MetricUpdate {
    /// Add to a counter without labels.
    Increment {
        /// The counter.
        name: &'static str,
        /// How much to add.
        amount: u64,
    },
    /// Add to a counter with one label.
    IncrementLabelled {
        /// The counter.
        name: &'static str,
        /// The label.
        label: &'static str,
        /// The value of the label.
        value: String,
        /// How much to add.
        amount: u64,
    },
    /// Set a gauge.
    SetGauge {
        /// The gauge.
        name: &'static str,
        /// The value to set it to.
        value: u64,
    },
}

/// What tells one counter from another: its name, and its label with the
/// label's value where it has one.
pub struct CounterKey {
    pub name: Seq<char>,
    pub label: Option<(Seq<char>, Seq<char>)>,
}

/// The meaning of a [`MetricUpdate`].
pub enum MetricUpdateView {
    Increment { key: CounterKey, amount: nat },
    SetGauge { name: Seq<char>, value: nat },
}

impl View for MetricUpdate {
    type V = MetricUpdateView;

    open spec fn view(&self) -> MetricUpdateView {
        match self {
            MetricUpdate::Increment { name, amount } => MetricUpdateView::Increment {
                key: plain_counter(name@),
                amount: *amount as nat,
            },
            MetricUpdate::IncrementLabelled {
                name,
                label,
                value,
                amount,
            } => MetricUpdateView::Increment {
                key: CounterKey { name: name@, label: Some((label@, value@)) },
                amount: *amount as nat,
            },
            MetricUpdate::SetGauge { name, value } => MetricUpdateView::SetGauge {
                name: name@,
                value: *value as nat,
            },
        }
    }
}

/// The counter `name` without labels.
pub open spec fn plain_counter(name: Seq<char>) -> CounterKey {
    CounterKey { name, label: None }
}

/// The counter of rejections whose reason reads `label`.
pub open spec fn reject_label_counter(label: Seq<char>) -> CounterKey {
    CounterKey { name: REJECTS_TOTAL@, label: Some((REASON_LABEL@, label)) }
}

/// The counter of rejections for `reason`.
pub open spec fn reject_counter(reason: RejectReason) -> CounterKey {
    reject_label_counter(reason.text())
}

/// An update that adds `amount` to a counter.
pub open spec fn increment(key: CounterKey, amount: nat) -> MetricUpdateView {
    MetricUpdateView::Increment { key, amount }
}

/// An update that sets a gauge.
pub open spec fn set_gauge(name: Seq<char>, value: u64) -> MetricUpdateView {
    MetricUpdateView::SetGauge { name, value: value as nat }
}

/// The updates for a rejection whose reason reads `label`: 1 for the counter
/// of that label.
pub open spec fn reject_label_updates(label: Seq<char>) -> Seq<MetricUpdateView> {
    seq![increment(reject_label_counter(label), 1)]
}

/// The updates for a rejection: 1 for the counter of its reason.
pub open spec fn reject_updates(reason: RejectReason) -> Seq<MetricUpdateView> {
    reject_label_updates(reason.text())
}

/// The updates for a change of depth: both gauges are set.
pub open spec fn depth_updates(bid_levels: u64, ask_levels: u64) -> Seq<MetricUpdateView> {
    seq![set_gauge(DEPTH_LEVELS_BID@, bid_levels), set_gauge(DEPTH_LEVELS_ASK@, ask_levels)]
}

/// The updates for `n` trades: `n` for the counter of trades, and none where
/// there was no trade.
pub open spec fn trades_updates(n: u64) -> Seq<MetricUpdateView> {
    if n == 0 {
        seq![]
    } else {
        seq![increment(plain_counter(TRADES_TOTAL@), n as nat)]
    }
}

/// The updates for a reserve order that lost `quantity` hidden units: 1 for
/// the counter of orders and `quantity` for the counter of units, and none
/// where nothing was lost.
pub open spec fn reserve_discard_updates(quantity: u64) -> Seq<MetricUpdateView> {
    if quantity == 0 {
        seq![]
    } else {
        seq![
            increment(plain_counter(RESERVE_DISCARDS_TOTAL@), 1),
            increment(plain_counter(RESERVE_HIDDEN_DISCARDED_TOTAL@), quantity as nat),
        ]
    }
}

/// Records an order rejection whose reason reads `label`: adds 1 to
/// [`REJECTS_TOTAL`] with `label` as the value of the label `reason`.
pub fn record_reject_label(label: String) -> (update: MetricUpdate)
    ensures
        update@ == increment(
            (CounterKey { name: REJECTS_TOTAL@, label: Some((REASON_LABEL@, label@)) }),
            1,
        ),
        reject_label_updates(label@) == seq![update@],
        update matches MetricUpdate::IncrementLabelled { name, label: key, value, amount } && name@
            == REJECTS_TOTAL@ && key@ == REASON_LABEL@ && value@ == label@ && amount == 1,
{
    MetricUpdate::IncrementLabelled {
        name: REJECTS_TOTAL,
        label: REASON_LABEL,
        value: label,
        amount: 1,
    }
}

/// Records an order rejection: adds 1 to [`REJECTS_TOTAL`] under the label
/// `reason` with the reason in words.
pub fn record_reject(reason: RejectReason) -> (update: MetricUpdate)
    ensures
        update@ == increment(reject_counter(reason), 1),
        reject_updates(reason) == seq![update@],
        update matches MetricUpdate::IncrementLabelled { name, label, value, amount } && name@
            == REJECTS_TOTAL@ && label@ == REASON_LABEL@ && value@ == reason.text() && amount == 1,
{
    record_reject_label(reason.to_string())
}

/// Records the number of price levels on each side: sets [`DEPTH_LEVELS_BID`]
/// and [`DEPTH_LEVELS_ASK`].
pub fn record_depth(bid_levels: u64, ask_levels: u64) -> (updates: [MetricUpdate; 2])
    ensures
        updates@[0]@ == set_gauge(DEPTH_LEVELS_BID@, bid_levels),
        updates@[1]@ == set_gauge(DEPTH_LEVELS_ASK@, ask_levels),
        depth_updates(bid_levels, ask_levels) == seq![updates@[0]@, updates@[1]@],
        updates@[0] matches MetricUpdate::SetGauge { name, value } && name@ == DEPTH_LEVELS_BID@
            && value == bid_levels,
        updates@[1] matches MetricUpdate::SetGauge { name, value } && name@ == DEPTH_LEVELS_ASK@
            && value == ask_levels,
{
    [
        MetricUpdate::SetGauge { name: DEPTH_LEVELS_BID, value: bid_levels },
        MetricUpdate::SetGauge { name: DEPTH_LEVELS_ASK, value: ask_levels },
    ]
}

/// Records `n` new trades: adds `n` to [`TRADES_TOTAL`], where there are any.
pub fn record_trades(n: u64) -> (update: Option<MetricUpdate>)
    ensures
        match update {
            Some(trades) => n > 0 && trades@ == increment(
                plain_counter(TRADES_TOTAL@),
                n as nat,
            ) && trades_updates(n) == seq![trades@],
            None => n == 0 && trades_updates(n) == Seq::<MetricUpdateView>::empty(),
        },
        update is None <==> n == 0,
        update matches Some(trades) ==> (trades matches MetricUpdate::Increment { name, amount }
            && name@ == TRADES_TOTAL@ && amount == n),
{
    if n == 0 {
        return None;
    }
    Some(MetricUpdate::Increment { name: TRADES_TOTAL, amount: n })
}

/// Records one reserve order that lost `quantity` hidden units: adds 1 to
/// [`RESERVE_DISCARDS_TOTAL`] and `quantity` to
/// [`RESERVE_HIDDEN_DISCARDED_TOTAL`]. A zero `quantity` is not a loss.
pub fn record_reserve_hidden_discarded(quantity: u64) -> (updates: Option<[MetricUpdate; 2]>)
    ensures
        match updates {
            Some(increments) => quantity > 0 && increments@[0]@ == increment(
                plain_counter(RESERVE_DISCARDS_TOTAL@),
                1,
            ) && increments@[1]@ == increment(
                plain_counter(RESERVE_HIDDEN_DISCARDED_TOTAL@),
                quantity as nat,
            ) && reserve_discard_updates(quantity) == seq![increments@[0]@, increments@[1]@],
            None => quantity == 0 && reserve_discard_updates(quantity) == Seq::<
                MetricUpdateView,
            >::empty(),
        },
        updates is None <==> quantity == 0,
        updates matches Some(increments) ==> {
            &&& increments@[0] matches MetricUpdate::Increment { name, amount }
            &&& name@ == RESERVE_DISCARDS_TOTAL@
            &&& amount == 1
        },
        updates matches Some(increments) ==> {
            &&& increments@[1] matches MetricUpdate::Increment { name, amount }
            &&& name@ == RESERVE_HIDDEN_DISCARDED_TOTAL@
            &&& amount == quantity
        },
{
    if quantity == 0 {
        return None;
    }
    Some(
        [
            MetricUpdate::Increment { name: RESERVE_DISCARDS_TOTAL, amount: 1 },
            MetricUpdate::Increment { name: RESERVE_HIDDEN_DISCARDED_TOTAL, amount: quantity },
        ],
    )
}

/// The values that a recorder holds: counters start at zero, gauges are unset
/// until they are first set.
#[verifier::ext_equal]
pub struct Metrics {
    pub counters: Map<CounterKey, nat>,
    pub gauges: Map<Seq<char>, nat>,
}

impl Metrics {
    /// The value of a counter.
    pub open spec fn counter(self, key: CounterKey) -> nat {
        if self.counters.contains_key(key) {
            self.counters[key]
        } else {
            0
        }
    }

    /// The values after one update.
    pub open spec fn apply(self, update: MetricUpdateView) -> Metrics {
        match update {
            MetricUpdateView::Increment { key, amount } => Metrics {
                counters: self.counters.insert(key, self.counter(key) + amount),
                ..self
            },
            MetricUpdateView::SetGauge { name, value } => Metrics {
                gauges: self.gauges.insert(name, value),
                ..self
            },
        }
    }

    /// The values after a sequence of updates.
    pub open spec fn apply_all(self, updates: Seq<MetricUpdateView>) -> Metrics
        decreases updates.len(),
    {
        if updates.len() == 0 {
            self
        } else {
            self.apply_all(updates.drop_last()).apply(updates.last())
        }
    }

    /// The values after batches of trades were recorded, one call per batch.
    pub open spec fn after_trades(self, batches: Seq<u64>) -> Metrics
        decreases batches.len(),
    {
        if batches.len() == 0 {
            self
        } else {
            self.after_trades(batches.drop_last()).apply_all(trades_updates(batches.last()))
        }
    }

    /// The values after losses of hidden quantity were recorded, one call per
    /// reserve order.
    pub open spec fn after_discards(self, quantities: Seq<u64>) -> Metrics
        decreases quantities.len(),
    {
        if quantities.len() == 0 {
            self
        } else {
            self.after_discards(quantities.drop_last()).apply_all(
                reserve_discard_updates(quantities.last()),
            )
        }
    }
}

/// The sum of the amounts.
pub open spec fn total(amounts: Seq<u64>) -> nat
    decreases amounts.len(),
{
    if amounts.len() == 0 {
        0
    } else {
        total(amounts.drop_last()) + amounts.last() as nat
    }
}

/// How many of the amounts are not zero.
pub open spec fn nonzero_count(amounts: Seq<u64>) -> nat {
    amounts.filter(|amount: u64| amount > 0).len()
}

/// The metrics have different names.
proof fn lemma_names_differ()
    ensures
        DEPTH_LEVELS_BID@ != DEPTH_LEVELS_ASK@,
        RESERVE_DISCARDS_TOTAL@ != RESERVE_HIDDEN_DISCARDED_TOTAL@,
{
    reveal_strlit("orderbook_depth_levels_bid");
    reveal_strlit("orderbook_depth_levels_ask");
    reveal_strlit("orderbook_reserve_discards_total");
    reveal_strlit("orderbook_reserve_hidden_discarded_total");
    assert(DEPTH_LEVELS_BID@[23] != DEPTH_LEVELS_ASK@[23]);
    assert(RESERVE_DISCARDS_TOTAL@.len() != RESERVE_HIDDEN_DISCARDED_TOTAL@.len());
}

/// Two updates are applied one after the other.
proof fn lemma_apply_two(before: Metrics, first: MetricUpdateView, second: MetricUpdateView)
    ensures
        before.apply_all(seq![first, second]) == before.apply(first).apply(second),
{
    reveal_with_fuel(Metrics::apply_all, 3);
    assert(seq![first, second].drop_last() =~= seq![first]);
    assert(seq![first].drop_last() =~= seq![]);
}

/// One update is applied.
proof fn lemma_apply_one(before: Metrics, update: MetricUpdateView)
    ensures
        before.apply_all(seq![update]) == before.apply(update),
{
    reveal_with_fuel(Metrics::apply_all, 2);
    assert(seq![update].drop_last() =~= seq![]);
}

/// An update means the amount and the value it holds, for the counter or gauge
/// of the name it holds: applied, the counter is higher by the amount, under its
/// label where it has one, or the gauge reads the value.
pub proof fn lemma_updates_mean_what_they_hold(before: Metrics, update: MetricUpdate)
    ensures
        ({
            let after = before.apply(update@);
            match update {
                MetricUpdate::Increment { name, amount } => {
                    let key = CounterKey { name: name@, label: None };
                    &&& after.counter(key) == before.counter(key) + amount
                    &&& after.counters.remove(key) =~= before.counters.remove(key)
                    &&& after.gauges == before.gauges
                },
                MetricUpdate::IncrementLabelled { name, label, value, amount } => {
                    let key = CounterKey { name: name@, label: Some((label@, value@)) };
                    &&& after.counter(key) == before.counter(key) + amount
                    &&& after.counters.remove(key) =~= before.counters.remove(key)
                    &&& after.gauges == before.gauges
                },
                MetricUpdate::SetGauge { name, value } => {
                    &&& after.gauges.contains_key(name@)
                    &&& after.gauges[name@] == value
                    &&& after.gauges.remove(name@) =~= before.gauges.remove(name@)
                    &&& after.counters == before.counters
                },
            }
        }),
{
}

/// No sequence of updates makes a counter fall.
pub proof fn lemma_counters_never_fall(
    before: Metrics,
    updates: Seq<MetricUpdateView>,
    key: CounterKey,
)
    ensures
        before.counter(key) <= before.apply_all(updates).counter(key),
    decreases updates.len(),
{
    if updates.len() > 0 {
        lemma_counters_never_fall(before, updates.drop_last(), key);
    }
}

/// A rejection adds exactly 1 to the counter of the label that its reason
/// reads, and changes nothing else.
pub proof fn lemma_reject_label_counts_once(before: Metrics, label: Seq<char>)
    ensures
        ({
            let after = before.apply_all(reject_label_updates(label));
            let rejects = reject_label_counter(label);
            &&& after.counter(rejects) == before.counter(rejects) + 1
            &&& forall|key: CounterKey| key != rejects ==> after.counter(key) == before.counter(key)
            &&& after.gauges == before.gauges
        }),
{
    lemma_apply_one(before, increment(reject_label_counter(label), 1));
}

/// A rejection adds exactly 1 to the counter of its reason and changes nothing
/// else.
pub proof fn lemma_reject_counts_once(before: Metrics, reason: RejectReason)
    ensures
        ({
            let after = before.apply_all(reject_updates(reason));
            &&& after.counter(reject_counter(reason)) == before.counter(reject_counter(reason)) + 1
            &&& forall|key: CounterKey|
                key != reject_counter(reason) ==> after.counter(key) == before.counter(key)
            &&& after.gauges == before.gauges
        }),
{
    lemma_reject_label_counts_once(before, reason.text());
}

/// A change of depth sets both gauges to the numbers of levels and changes
/// nothing else.
pub proof fn lemma_depth_sets_both_gauges(before: Metrics, bid_levels: u64, ask_levels: u64)
    ensures
        before.apply_all(depth_updates(bid_levels, ask_levels)) == (Metrics {
            gauges: before.gauges.insert(DEPTH_LEVELS_BID@, bid_levels as nat).insert(
                DEPTH_LEVELS_ASK@,
                ask_levels as nat,
            ),
            ..before
        }),
        before.apply_all(depth_updates(bid_levels, ask_levels)).gauges[DEPTH_LEVELS_BID@]
            == bid_levels,
        before.apply_all(depth_updates(bid_levels, ask_levels)).gauges[DEPTH_LEVELS_ASK@]
            == ask_levels,
{
    lemma_names_differ();
    lemma_apply_two(
        before,
        set_gauge(DEPTH_LEVELS_BID@, bid_levels),
        set_gauge(DEPTH_LEVELS_ASK@, ask_levels),
    );
}

/// The gauges show the last depth that was recorded, whatever came before.
pub proof fn lemma_last_depth_wins(
    before: Metrics,
    old_bids: u64,
    old_asks: u64,
    new_bids: u64,
    new_asks: u64,
)
    ensures
        before.apply_all(depth_updates(old_bids, old_asks)).apply_all(
            depth_updates(new_bids, new_asks),
        ) == before.apply_all(depth_updates(new_bids, new_asks)),
{
    let middle = before.apply_all(depth_updates(old_bids, old_asks));
    lemma_names_differ();
    lemma_depth_sets_both_gauges(before, old_bids, old_asks);
    lemma_depth_sets_both_gauges(before, new_bids, new_asks);
    lemma_depth_sets_both_gauges(middle, new_bids, new_asks);
    assert(middle.apply_all(depth_updates(new_bids, new_asks)).gauges =~= before.apply_all(
        depth_updates(new_bids, new_asks),
    ).gauges);
}

/// `n` trades add exactly `n` to the counter of trades and change nothing
/// else.
pub proof fn lemma_trades_count_each(before: Metrics, n: u64)
    ensures
        ({
            let after = before.apply_all(trades_updates(n));
            let trades = plain_counter(TRADES_TOTAL@);
            &&& after.counter(trades) == before.counter(trades) + n
            &&& forall|key: CounterKey| key != trades ==> after.counter(key) == before.counter(key)
            &&& after.gauges == before.gauges
        }),
{
    if n > 0 {
        lemma_apply_one(before, increment(plain_counter(TRADES_TOTAL@), n as nat));
    }
}

/// A reserve order that lost `quantity` hidden units adds 1 to the counter of
/// orders, unless nothing was lost, and `quantity` to the counter of units, and
/// changes nothing else.
pub proof fn lemma_reserve_discard_counts(before: Metrics, quantity: u64)
    ensures
        ({
            let after = before.apply_all(reserve_discard_updates(quantity));
            let orders = plain_counter(RESERVE_DISCARDS_TOTAL@);
            let units = plain_counter(RESERVE_HIDDEN_DISCARDED_TOTAL@);
            &&& after.counter(orders) == before.counter(orders) + if quantity == 0 {
                0nat
            } else {
                1nat
            }
            &&& after.counter(units) == before.counter(units) + quantity
            &&& forall|key: CounterKey|
                key != orders && key != units ==> after.counter(key) == before.counter(key)
            &&& after.gauges == before.gauges
        }),
{
    lemma_names_differ();
    if quantity > 0 {
        lemma_apply_two(
            before,
            increment(plain_counter(RESERVE_DISCARDS_TOTAL@), 1),
            increment(plain_counter(RESERVE_HIDDEN_DISCARDED_TOTAL@), quantity as nat),
        );
    }
}

/// However trades are batched, the counter of trades rises by their number in
/// all, and nothing else changes.
pub proof fn lemma_trades_add_up(before: Metrics, batches: Seq<u64>)
    ensures
        ({
            let after = before.after_trades(batches);
            let trades = plain_counter(TRADES_TOTAL@);
            &&& after.counter(trades) == before.counter(trades) + total(batches)
            &&& forall|key: CounterKey| key != trades ==> after.counter(key) == before.counter(key)
            &&& after.gauges == before.gauges
        }),
    decreases batches.len(),
{
    if batches.len() > 0 {
        lemma_trades_add_up(before, batches.drop_last());
        lemma_trades_count_each(before.after_trades(batches.drop_last()), batches.last());
    }
}

/// Over any number of reserve orders, the counter of orders rises by the
/// number of those that lost something and the counter of units by all that
/// was lost, and nothing else changes.
pub proof fn lemma_reserve_discards_add_up(before: Metrics, quantities: Seq<u64>)
    ensures
        ({
            let after = before.after_discards(quantities);
            let orders = plain_counter(RESERVE_DISCARDS_TOTAL@);
            let units = plain_counter(RESERVE_HIDDEN_DISCARDED_TOTAL@);
            &&& after.counter(orders) == before.counter(orders) + nonzero_count(quantities)
            &&& after.counter(units) == before.counter(units) + total(quantities)
            &&& forall|key: CounterKey|
                key != orders && key != units ==> after.counter(key) == before.counter(key)
            &&& after.gauges == before.gauges
        }),
    decreases quantities.len(),
{
    reveal(Seq::filter);
    if quantities.len() > 0 {
        let earlier = quantities.drop_last();
        lemma_reserve_discards_add_up(before, earlier);
        lemma_reserve_discard_counts(before.after_discards(earlier), quantities.last());
    }
}

} // verus!
