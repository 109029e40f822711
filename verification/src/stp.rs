//! Self-trade prevention (STP).
//!
//! Self-trade prevention keeps orders of one user from matching against each
//! other. Before a taker matches at a price level, the level's queue is
//! scanned for resting orders (makers) of the same user, and the scan decides
//! how the match goes on.
//!
//! Anonymous takers, whose owner is all zero, bypass the scan in every mode.

use crate::debug::{write_text, written};
use crate::level::{id_of_order, resting_order, resting_queue, user_of_order};
use crate::order::{lemma_zero_is_unique, Hash32, Id, RestingOrder};
use pricelevel::OrderType;
use std::sync::Arc;
use vstd::prelude::*;
use vstd::string::*;

verus! {

/// What happens when an incoming order would match a resting order of the
/// same user. The default is [`STPMode::Off`].
#[derive(Clone, Copy, PartialEq, Eq, Hash, Structural)]
pub enum STPMode {
    /// No self-trade prevention: orders of one user match freely.
    Off,
    /// Cancel the incoming (taker) order on a self-trade. Resting orders
    /// stay, and fills against other users that come first are kept.
    CancelTaker,
    /// Cancel the resting (maker) orders of the same user and go on matching
    /// the taker against the rest.
    CancelMaker,
    /// Cancel both the taker and the maker. Fills against other users that
    /// come first are kept.
    CancelBoth,
}

impl Default for STPMode {
    fn default() -> (mode: STPMode)
        ensures
            mode == STPMode::Off,
    {
        STPMode::Off
    }
}

impl core::fmt::Debug for STPMode {
    /// Writes the name of the mode.
    fn fmt(&self, formatter: &mut core::fmt::Formatter<'_>) -> (outcome: Result<
        (),
        core::fmt::Error,
    >)
        ensures
            outcome is Ok ==> written(*final(formatter)) == written(*old(formatter)) + self.text(),
    {
        write_text(formatter, self.to_string().as_str())
    }
}

impl STPMode {
    /// The name of the mode. `Off` is written `None`.
    pub open spec fn text(self) -> Seq<char> {
        match self {
            STPMode::Off => "None"@,
            STPMode::CancelTaker => "CancelTaker"@,
            STPMode::CancelMaker => "CancelMaker"@,
            STPMode::CancelBoth => "CancelBoth"@,
        }
    }

    /// Writes the name of the mode.
    pub fn to_string(&self) -> (text: String)
        ensures
            text@ == self.text(),
    {
        let name = match self {
            STPMode::Off => "None",
            STPMode::CancelTaker => "CancelTaker",
            STPMode::CancelMaker => "CancelMaker",
            STPMode::CancelBoth => "CancelBoth",
        };
        String::from_str(name)
    }

    /// Whether self-trade prevention is on: any mode but `Off`.
    #[must_use]
    pub fn is_enabled(self) -> (enabled: bool)
        ensures
            enabled == (self != STPMode::Off),
    {
        self != STPMode::Off
    }
}

/// How a match at one price level goes on after the scan for resting orders
/// of the taker's user.
#[derive(Debug)]
pub enum STPAction {
    /// No self-trade at this level: match normally.
    NoConflict,
    /// Match up to `safe_quantity`, then cancel the taker.
    CancelTaker {
        /// The quantity shown by the orders ahead of the first one of the
        /// taker's user.
        safe_quantity: u64,
    },
    /// The level holds at least one order of the taker's user; each of them
    /// is cancelled before the match goes on.
    CancelMaker,
    /// Match up to `safe_quantity`, then cancel the maker and the taker.
    CancelBoth {
        /// The quantity shown by the orders ahead of the first one of the
        /// taker's user.
        safe_quantity: u64,
        /// The first order of the taker's user.
        maker_order_id: Id,
    },
}

impl Clone for STPAction {
    fn clone(&self) -> (cloned: STPAction)
        ensures
            cloned == *self,
    {
        match self {
            STPAction::NoConflict => STPAction::NoConflict,
            STPAction::CancelTaker { safe_quantity } => STPAction::CancelTaker {
                safe_quantity: *safe_quantity,
            },
            STPAction::CancelMaker => STPAction::CancelMaker,
            STPAction::CancelBoth { safe_quantity, maker_order_id } => STPAction::CancelBoth {
                safe_quantity: *safe_quantity,
                maker_order_id: *maker_order_id,
            },
        }
    }
}

/// Whether `index` is the first place in the queue with an order of `user`.
pub open spec fn is_first_own(orders: Seq<RestingOrder>, user: Hash32, index: int) -> bool {
    &&& 0 <= index < orders.len()
    &&& orders[index].user_id == user
    &&& forall|ahead: int| 0 <= ahead < index ==> orders[ahead].user_id != user
}

/// Whether the queue holds an order of `user`.
pub open spec fn has_own(orders: Seq<RestingOrder>, user: Hash32) -> bool {
    exists|index: int| 0 <= index < orders.len() && orders[index].user_id == user
}

/// The quantity that the orders of the queue show together.
pub open spec fn visible_total(orders: Seq<RestingOrder>) -> nat
    decreases orders.len(),
{
    if orders.len() == 0 {
        0
    } else {
        visible_total(orders.drop_last()) + orders.last().visible_quantity as nat
    }
}

/// The quantity shown ahead of place `index`, or `u64::MAX` where it is more.
pub open spec fn safe_quantity(orders: Seq<RestingOrder>, index: int) -> u64 {
    let ahead = visible_total(orders.take(index));
    if ahead <= u64::MAX {
        ahead as u64
    } else {
        u64::MAX
    }
}

/// Whether the scan applies: a mode is set and the taker is not anonymous.
pub open spec fn stp_applies(taker: Hash32, mode: STPMode) -> bool {
    mode != STPMode::Off && !taker.is_zero()
}

/// The action where the first order of the taker's user stands at `first`.
pub open spec fn action_at(orders: Seq<RestingOrder>, mode: STPMode, first: int) -> STPAction {
    match mode {
        STPMode::Off => STPAction::NoConflict,
        STPMode::CancelTaker => STPAction::CancelTaker {
            safe_quantity: safe_quantity(orders, first),
        },
        STPMode::CancelMaker => STPAction::CancelMaker,
        STPMode::CancelBoth => STPAction::CancelBoth {
            safe_quantity: safe_quantity(orders, first),
            maker_order_id: orders[first].id,
        },
    }
}

/// The action for a taker of user `taker` at a level with queue `orders`,
/// first in time first in the sequence.
pub open spec fn stp_action(orders: Seq<RestingOrder>, taker: Hash32, mode: STPMode) -> STPAction {
    if stp_applies(taker, mode) && has_own(orders, taker) {
        action_at(orders, mode, choose|index: int| is_first_own(orders, taker, index))
    } else {
        STPAction::NoConflict
    }
}

/// The first order of the taker's user in a queue.
#[derive(Clone, Copy)]
struct OwnOrder {
    /// Its identifier.
    id: Id,
    /// The quantity shown ahead of it.
    safe_quantity: u64,
}

/// Whether `found` is the first order of `user` in the queue.
spec fn finds_first_own(
    orders: Seq<RestingOrder>,
    user: Hash32,
    found: Option<OwnOrder>,
) -> bool {
    match found {
        Some(own) => exists|first: int| #[trigger]
            is_first_own(orders, user, first) && own.id == orders[first].id && own.safe_quantity
                == safe_quantity(orders, first),
        None => !has_own(orders, user),
    }
}

/// Whether a scan has passed the first `count` orders: none of them is of
/// `user`, and `ahead` is the quantity they show.
spec fn has_passed(
    orders: Seq<RestingOrder>,
    user: Hash32,
    count: int,
    ahead: u64,
) -> bool {
    &&& 0 <= count <= orders.len()
    &&& forall|passed: int| 0 <= passed < count ==> orders[passed].user_id != user
    &&& ahead == safe_quantity(orders, count)
}

/// What a scan learns from one order.
enum ScanStep {
    /// The order is of the user.
    Own(OwnOrder),
    /// It is not: the quantity shown up to and with it.
    Passed(u64),
}

/// Looks at the next order of a scan that has passed the ones before it.
fn scan_order(
    order: RestingOrder,
    user: Hash32,
    ahead: u64,
    Ghost(orders): Ghost<Seq<RestingOrder>>,
    Ghost(index): Ghost<int>,
) -> (step: ScanStep)
    requires
        index < orders.len(),
        order == orders[index],
        has_passed(orders, user, index, ahead),
    ensures
        match step {
            ScanStep::Own(own) => finds_first_own(orders, user, Some(own)),
            ScanStep::Passed(shown) => has_passed(orders, user, index + 1, shown),
        },
{
    if order.user_id == user {
        assert(is_first_own(orders, user, index));
        ScanStep::Own(OwnOrder { id: order.id, safe_quantity: ahead })
    } else {
        assert(orders.take(index + 1).drop_last() =~= orders.take(index));
        ScanStep::Passed(ahead.saturating_add(order.visible_quantity))
    }
}

/// Finds the first order of a user in a queue.
fn first_own_in_queue(orders: &[RestingOrder], user: Hash32) -> (found: Option<OwnOrder>)
    ensures
        finds_first_own(orders@, user, found),
{
    let mut ahead: u64 = 0;
    let mut i: usize = 0;
    while i < orders.len()
        invariant
            has_passed(orders@, user, i as int, ahead),
        decreases orders@.len() - i,
    {
        match scan_order(orders[i], user, ahead, Ghost(orders@), Ghost(i as int)) {
            ScanStep::Own(own) => return Some(own),
            ScanStep::Passed(shown) => ahead = shown,
        }
        i += 1;
    }
    None
}

/// Finds the first order of a user in a queue of the matching engine.
fn first_own_at_level(
    orders: &[Arc<OrderType<()>>],
    user: Hash32,
) -> (found: Option<OwnOrder>)
    ensures
        finds_first_own(resting_queue(orders@), user, found),
{
    let ghost queue = resting_queue(orders@);
    let mut ahead: u64 = 0;
    let mut i: usize = 0;
    while i < orders.len()
        invariant
            queue == resting_queue(orders@),
            has_passed(queue, user, i as int, ahead),
        decreases orders@.len() - i,
    {
        let order = resting_order(&orders[i]);
        match scan_order(order, user, ahead, Ghost(queue), Ghost(i as int)) {
            ScanStep::Own(own) => return Some(own),
            ScanStep::Passed(shown) => ahead = shown,
        }
        i += 1;
    }
    None
}

/// Whether the scan applies to a taker in a mode.
fn scan_applies(taker: Hash32, mode: STPMode) -> (applies: bool)
    ensures
        applies == stp_applies(taker, mode),
{
    let zero = Hash32::zero();
    proof {
        if taker.is_zero() {
            lemma_zero_is_unique(taker, zero);
        }
    }
    mode.is_enabled() && taker != zero
}

/// The action where the scan applies and has come to its end.
fn action_for(
    found: Option<OwnOrder>,
    mode: STPMode,
    Ghost(orders): Ghost<Seq<RestingOrder>>,
    Ghost(taker): Ghost<Hash32>,
) -> (action: STPAction)
    requires
        stp_applies(taker, mode),
        finds_first_own(orders, taker, found),
    ensures
        action == stp_action(orders, taker, mode),
{
    proof {
        if let Some(own) = found {
            let first = choose|first: int| #[trigger]
                is_first_own(orders, taker, first) && own.id == orders[first].id
                    && own.safe_quantity == safe_quantity(orders, first);
            lemma_first_own(orders, taker, first);
        }
    }
    match found {
        None => STPAction::NoConflict,
        Some(own) => match mode {
            STPMode::Off => STPAction::NoConflict,
            STPMode::CancelTaker => STPAction::CancelTaker { safe_quantity: own.safe_quantity },
            STPMode::CancelMaker => STPAction::CancelMaker,
            STPMode::CancelBoth => STPAction::CancelBoth {
                safe_quantity: own.safe_quantity,
                maker_order_id: own.id,
            },
        },
    }
}

/// Scans a queue, first in time first, and determines the action for a taker
/// of user `taker_user_id`.
pub fn check_stp_on_queue(
    orders: &[RestingOrder],
    taker_user_id: Hash32,
    mode: STPMode,
) -> (action: STPAction)
    ensures
        action == stp_action(orders@, taker_user_id, mode),
        !stp_applies(taker_user_id, mode) ==> action == STPAction::NoConflict,
        !has_own(orders@, taker_user_id) ==> action == STPAction::NoConflict,
        forall|first: int| #[trigger]
            is_first_own(orders@, taker_user_id, first) && stp_applies(taker_user_id, mode)
                ==> action == action_at(orders@, mode, first),
        action is NoConflict <==> {
            ||| mode == STPMode::Off
            ||| forall|i: int| 0 <= i < 32 ==> taker_user_id.0@[i] == 0
            ||| forall|i: int| 0 <= i < orders@.len() ==> orders@[i].user_id != taker_user_id
        },
        action is CancelTaker ==> mode == STPMode::CancelTaker,
        action is CancelMaker ==> mode == STPMode::CancelMaker,
        action is CancelBoth ==> mode == STPMode::CancelBoth,
        action matches STPAction::CancelBoth { maker_order_id, .. } ==> exists|own: int|
            {
                &&& 0 <= own < orders@.len()
                &&& (#[trigger] orders@[own]).user_id == taker_user_id
                &&& orders@[own].id == maker_order_id
                &&& forall|i: int| 0 <= i < own ==> orders@[i].user_id != taker_user_id
            },
{
    proof {
        lemma_action_at_first(orders@, taker_user_id, mode);
        lemma_action_of_queue(orders@, taker_user_id, mode);
    }
    if !scan_applies(taker_user_id, mode) {
        return STPAction::NoConflict;
    }
    let found = first_own_in_queue(orders, taker_user_id);
    action_for(found, mode, Ghost(orders@), Ghost(taker_user_id))
}

/// Scans the queue of a price level, first in time first, and determines the
/// action for a taker of user `taker_user_id`.
pub fn check_stp_at_level(
    orders: &[Arc<OrderType<()>>],
    taker_user_id: Hash32,
    mode: STPMode,
) -> (action: STPAction)
    ensures
        action == stp_action(resting_queue(orders@), taker_user_id, mode),
        !stp_applies(taker_user_id, mode) ==> action == STPAction::NoConflict,
        !has_own(resting_queue(orders@), taker_user_id) ==> action == STPAction::NoConflict,
        forall|first: int| #[trigger]
            is_first_own(resting_queue(orders@), taker_user_id, first) && stp_applies(
                taker_user_id,
                mode,
            ) ==> action == action_at(resting_queue(orders@), mode, first),
        action is NoConflict <==> {
            ||| mode == STPMode::Off
            ||| forall|i: int| 0 <= i < 32 ==> taker_user_id.0@[i] == 0
            ||| forall|i: int|
                0 <= i < orders@.len() ==> user_of_order(*#[trigger] orders@[i]) != taker_user_id
        },
        action is CancelTaker ==> mode == STPMode::CancelTaker,
        action is CancelMaker ==> mode == STPMode::CancelMaker,
        action is CancelBoth ==> mode == STPMode::CancelBoth,
        action matches STPAction::CancelBoth { maker_order_id, .. } ==> exists|own: int|
            {
                &&& 0 <= own < orders@.len()
                &&& user_of_order(*#[trigger] orders@[own]) == taker_user_id
                &&& id_of_order(*orders@[own]) == maker_order_id
                &&& forall|i: int|
                    0 <= i < own ==> user_of_order(*#[trigger] orders@[i]) != taker_user_id
            },
{
    let ghost queue = resting_queue(orders@);
    proof {
        lemma_action_at_first(queue, taker_user_id, mode);
        lemma_action_at_level(orders@, taker_user_id, mode);
    }
    if !scan_applies(taker_user_id, mode) {
        return STPAction::NoConflict;
    }
    let found = first_own_at_level(orders, taker_user_id);
    action_for(found, mode, Ghost(queue), Ghost(taker_user_id))
}

/// Whether a taker that fills `quantity` in queue order comes to the order at
/// `index`: the orders ahead of it show less.
pub open spec fn reaches(orders: Seq<RestingOrder>, index: int, quantity: u64) -> bool {
    visible_total(orders.take(index)) < quantity
}

/// Whether a taker of user `taker` that fills `quantity` in queue order comes
/// to an order of its own user.
pub open spec fn reaches_own(orders: Seq<RestingOrder>, taker: Hash32, quantity: u64) -> bool {
    exists|index: int|
        0 <= index < orders.len() && orders[index].user_id == taker && #[trigger] reaches(
            orders,
            index,
            quantity,
        )
}

/// The queue after every order of `user` was cancelled.
pub open spec fn without_own(orders: Seq<RestingOrder>, user: Hash32) -> Seq<RestingOrder> {
    orders.filter(|order: RestingOrder| order.user_id != user)
}

/// An anonymous taker meets no conflict, whatever the mode and the queue.
pub proof fn lemma_anonymous_taker_bypasses(
    orders: Seq<RestingOrder>,
    taker: Hash32,
    mode: STPMode,
)
    requires
        taker.is_zero(),
    ensures
        stp_action(orders, taker, mode) == STPAction::NoConflict,
{
}

/// With self-trade prevention off no taker meets a conflict.
pub proof fn lemma_off_never_conflicts(orders: Seq<RestingOrder>, taker: Hash32)
    ensures
        stp_action(orders, taker, STPMode::Off) == STPAction::NoConflict,
{
}

/// Where self-trade prevention applies, a level is in conflict exactly if it
/// holds an order of the taker's user.
pub proof fn lemma_conflict_iff_own_order(
    orders: Seq<RestingOrder>,
    taker: Hash32,
    mode: STPMode,
)
    requires
        stp_applies(taker, mode),
    ensures
        stp_action(orders, taker, mode) == STPAction::NoConflict <==> !has_own(orders, taker),
{
}

/// `CancelTaker` and `CancelBoth` allow the same quantity before they cancel.
pub proof fn lemma_cancelling_modes_agree(orders: Seq<RestingOrder>, taker: Hash32)
    requires
        stp_applies(taker, STPMode::CancelTaker),
        has_own(orders, taker),
    ensures
        stp_action(orders, taker, STPMode::CancelTaker)->CancelTaker_safe_quantity == stp_action(
            orders,
            taker,
            STPMode::CancelBoth,
        )->CancelBoth_safe_quantity,
{
}

/// The safe quantity is the largest one that cannot self-trade: a taker that
/// fills `quantity` in queue order stays clear of its own user's orders
/// exactly if `quantity` is no more than the safe quantity.
pub proof fn lemma_safe_quantity_is_largest(
    orders: Seq<RestingOrder>,
    taker: Hash32,
    quantity: u64,
)
    requires
        stp_applies(taker, STPMode::CancelTaker),
        has_own(orders, taker),
    ensures
        quantity <= stp_action(orders, taker, STPMode::CancelTaker)->CancelTaker_safe_quantity
            <==> !reaches_own(orders, taker, quantity),
{
    let first = lemma_own_order_has_first(orders, taker);
    lemma_first_own(orders, taker, first);
    if quantity <= safe_quantity(orders, first) {
        assert forall|index: int|
            0 <= index < orders.len() && orders[index].user_id == taker implies !#[trigger] reaches(
            orders,
            index,
            quantity,
        ) by {
            lemma_visible_total_grows(orders, first, index);
        }
    } else {
        assert(reaches(orders, first, quantity));
    }
}

/// The safe quantity is zero exactly if no order ahead of the first one of
/// the taker's user shows any quantity.
pub proof fn lemma_safe_quantity_zero(orders: Seq<RestingOrder>, taker: Hash32, first: int)
    requires
        stp_applies(taker, STPMode::CancelTaker),
        is_first_own(orders, taker, first),
    ensures
        stp_action(orders, taker, STPMode::CancelTaker)->CancelTaker_safe_quantity == 0
            <==> forall|ahead: int|
            0 <= ahead < first ==> orders[ahead].visible_quantity == 0,
{
    lemma_first_own(orders, taker, first);
    let front = orders.take(first);
    lemma_visible_total_zero(front);
    if forall|ahead: int| 0 <= ahead < first ==> orders[ahead].visible_quantity == 0 {
        assert(forall|i: int| 0 <= i < front.len() ==> front[i].visible_quantity == 0);
    } else {
        let shown = choose|ahead: int|
            0 <= ahead < first && orders[ahead].visible_quantity != 0;
        assert(front[shown].visible_quantity != 0);
    }
}

/// A safe quantity of zero means that the first order of the queue is of the
/// taker's user, unless orders of others stand ahead and all show nothing.
pub proof fn lemma_safe_quantity_zero_means_front(
    orders: Seq<RestingOrder>,
    taker: Hash32,
    first: int,
)
    requires
        stp_applies(taker, STPMode::CancelTaker),
        is_first_own(orders, taker, first),
        first == 0 || exists|ahead: int|
            0 <= ahead < first && orders[ahead].visible_quantity != 0,
    ensures
        stp_action(orders, taker, STPMode::CancelTaker)->CancelTaker_safe_quantity == 0
            <==> orders[0].user_id == taker,
{
    lemma_safe_quantity_zero(orders, taker, first);
}

/// Orders behind the first one of the taker's user do not change the action.
pub proof fn lemma_later_orders_are_ignored(
    orders: Seq<RestingOrder>,
    later: Seq<RestingOrder>,
    taker: Hash32,
    mode: STPMode,
)
    requires
        has_own(orders, taker),
    ensures
        stp_action(orders + later, taker, mode) == stp_action(orders, taker, mode),
{
    let first = lemma_own_order_has_first(orders, taker);
    let longer = orders + later;
    lemma_first_own(orders, taker, first);
    assert(is_first_own(longer, taker, first));
    lemma_first_own(longer, taker, first);
    assert(longer.take(first) =~= orders.take(first));
}

/// Once every order of the taker's user is cancelled, the level is free of
/// conflict, and the orders of other users still stand.
pub proof fn lemma_cancelled_makers_leave_no_conflict(
    orders: Seq<RestingOrder>,
    taker: Hash32,
    mode: STPMode,
)
    ensures
        stp_action(without_own(orders, taker), taker, mode) == STPAction::NoConflict,
        forall|order: RestingOrder|
            without_own(orders, taker).contains(order) <==> orders.contains(order) && order.user_id
                != taker,
{
    let other = |order: RestingOrder| order.user_id != taker;
    let rest = without_own(orders, taker);
    broadcast use vstd::seq_lib::group_filter_ensures;

    assert forall|order: RestingOrder| rest.contains(order) <==> orders.contains(order)
        && order.user_id != taker by {
        if rest.contains(order) {
            orders.lemma_filter_contains_rev(other, order);
        }
        if orders.contains(order) && order.user_id != taker {
            let i = choose|i: int| 0 <= i < orders.len() && orders[i] == order;
            assert(other(orders[i]));
        }
    }
    assert forall|i: int| 0 <= i < rest.len() implies rest[i].user_id != taker by {
        assert(other(rest[i]));
    }
}

/// The total of two queues, one behind the other, is the sum of their totals.
pub proof fn lemma_visible_total_adds(front: Seq<RestingOrder>, back: Seq<RestingOrder>)
    ensures
        visible_total(front + back) == visible_total(front) + visible_total(back),
    decreases back.len(),
{
    if back.len() == 0 {
        assert(front + back =~= front);
    } else {
        lemma_visible_total_adds(front, back.drop_last());
        assert((front + back).drop_last() =~= front + back.drop_last());
    }
}

/// The total of one order is the quantity it shows.
pub proof fn lemma_visible_total_of_one(order: RestingOrder)
    ensures
        visible_total(seq![order]) == order.visible_quantity,
{
    reveal_with_fuel(visible_total, 2);
    assert(seq![order].drop_last() =~= seq![]);
}

/// An empty level is free of conflict.
pub proof fn lemma_empty_level(taker: Hash32, mode: STPMode)
    ensures
        stp_action(Seq::empty(), taker, mode) is NoConflict,
{
}

/// With self-trade prevention off, for a taker whose bytes are all zero, and
/// where no order is of the taker's user, there is no conflict.
pub proof fn lemma_no_conflict(orders: Seq<RestingOrder>, taker: Hash32, mode: STPMode)
    requires
        ({
            ||| mode == STPMode::Off
            ||| forall|i: int| 0 <= i < 32 ==> taker.0@[i] == 0
            ||| forall|i: int| 0 <= i < orders.len() ==> orders[i].user_id != taker
        }),
    ensures
        stp_action(orders, taker, mode) is NoConflict,
{
}

/// A taker with a byte that is not zero, whose user has an order in the
/// queue, is in conflict in every mode but `Off`, and the action is the one
/// of the mode's own name.
pub proof fn lemma_each_mode_acts_by_its_name(
    orders: Seq<RestingOrder>,
    taker: Hash32,
    mode: STPMode,
    byte: int,
    own: int,
)
    requires
        mode != STPMode::Off,
        0 <= byte < 32,
        taker.0@[byte] != 0,
        0 <= own < orders.len(),
        orders[own].user_id == taker,
    ensures
        !(stp_action(orders, taker, mode) is NoConflict),
        mode == STPMode::CancelTaker <==> stp_action(orders, taker, mode) is CancelTaker,
        mode == STPMode::CancelMaker <==> stp_action(orders, taker, mode) is CancelMaker,
        mode == STPMode::CancelBoth <==> stp_action(orders, taker, mode) is CancelBoth,
{
}

/// The maker that `CancelBoth` cancels is the order of the taker's user that
/// stands first: for a taker with a byte that is not zero it is the order at
/// `own`, where that is of the taker's user and none ahead of it is.
pub proof fn lemma_cancelled_maker_is_first_own(
    orders: Seq<RestingOrder>,
    taker: Hash32,
    byte: int,
    own: int,
)
    requires
        0 <= byte < 32,
        taker.0@[byte] != 0,
        0 <= own < orders.len(),
        orders[own].user_id == taker,
        forall|i: int| 0 <= i < own ==> orders[i].user_id != taker,
    ensures
        stp_action(orders, taker, STPMode::CancelBoth) matches STPAction::CancelBoth {
            maker_order_id,
            ..
        } && maker_order_id == orders[own].id,
{
    assert(is_first_own(orders, taker, own));
    lemma_first_own(orders, taker, own);
}

/// How the order at the front of a queue enters into the action, for a taker
/// with a byte that is not zero. An order of the taker's user decides it: no
/// quantity is safe, and it is the maker to cancel. An order of another user
/// leaves the action of the rest as it is, but for the safe quantity, to which
/// it adds what it shows, up to `u64::MAX`.
pub proof fn lemma_front_order(
    front: RestingOrder,
    rest: Seq<RestingOrder>,
    taker: Hash32,
    mode: STPMode,
    byte: int,
)
    requires
        mode != STPMode::Off,
        0 <= byte < 32,
        taker.0@[byte] != 0,
    ensures
        ({
            let action = stp_action(seq![front] + rest, taker, mode);
            if front.user_id == taker {
                match mode {
                    STPMode::Off => false,
                    STPMode::CancelTaker => action == (STPAction::CancelTaker { safe_quantity: 0 }),
                    STPMode::CancelMaker => action is CancelMaker,
                    STPMode::CancelBoth => action == (STPAction::CancelBoth {
                        safe_quantity: 0,
                        maker_order_id: front.id,
                    }),
                }
            } else {
                match stp_action(rest, taker, mode) {
                    STPAction::NoConflict => action is NoConflict,
                    STPAction::CancelMaker => action is CancelMaker,
                    STPAction::CancelTaker { safe_quantity: behind } => {
                        &&& action is CancelTaker
                        &&& action->CancelTaker_safe_quantity == vstd::math::min(
                            front.visible_quantity + behind,
                            u64::MAX as int,
                        )
                    },
                    STPAction::CancelBoth { safe_quantity: behind, maker_order_id } => {
                        &&& action is CancelBoth
                        &&& action->CancelBoth_safe_quantity == vstd::math::min(
                            front.visible_quantity + behind,
                            u64::MAX as int,
                        )
                        &&& action->maker_order_id == maker_order_id
                    },
                }
            }
        }),
{
    let queue = seq![front] + rest;
    assert(forall|i: int| 0 <= i < rest.len() ==> queue[i + 1] == #[trigger] rest[i]);
    if front.user_id == taker {
        assert(is_first_own(queue, taker, 0));
        lemma_first_own(queue, taker, 0);
        assert(queue.take(0) =~= seq![]);
    } else if has_own(rest, taker) {
        let first = lemma_own_order_has_first(rest, taker);
        lemma_first_own(rest, taker, first);
        assert(is_first_own(queue, taker, first + 1)) by {
            assert forall|i: int| 0 <= i < first + 1 implies queue[i].user_id != taker by {
                if i > 0 {
                    assert(queue[i] == rest[i - 1]);
                }
            }
        }
        lemma_first_own(queue, taker, first + 1);
        assert(queue.take(first + 1) =~= seq![front] + rest.take(first));
        lemma_visible_total_adds(seq![front], rest.take(first));
        lemma_visible_total_of_one(front);
    } else {
        assert forall|i: int| 0 <= i < queue.len() implies queue[i].user_id != taker by {
            if i > 0 {
                assert(queue[i] == rest[i - 1]);
            }
        }
    }
}

/// What the action for a queue says of its mode, its taker and its orders.
proof fn lemma_action_of_queue(orders: Seq<RestingOrder>, taker: Hash32, mode: STPMode)
    ensures
        ({
            let action = stp_action(orders, taker, mode);
            &&& action is NoConflict <==> {
                ||| mode == STPMode::Off
                ||| forall|i: int| 0 <= i < 32 ==> taker.0@[i] == 0
                ||| forall|i: int| 0 <= i < orders.len() ==> orders[i].user_id != taker
            }
            &&& action is CancelTaker ==> mode == STPMode::CancelTaker
            &&& action is CancelMaker ==> mode == STPMode::CancelMaker
            &&& action is CancelBoth ==> mode == STPMode::CancelBoth
            &&& action matches STPAction::CancelBoth { maker_order_id, .. } ==> exists|own: int|
                {
                    &&& 0 <= own < orders.len()
                    &&& (#[trigger] orders[own]).user_id == taker
                    &&& orders[own].id == maker_order_id
                    &&& forall|i: int| 0 <= i < own ==> orders[i].user_id != taker
                }
        }),
{
    if stp_applies(taker, mode) && has_own(orders, taker) {
        let first = lemma_own_order_has_first(orders, taker);
        lemma_first_own(orders, taker, first);
    }
}

/// The same of a queue of the matching engine.
proof fn lemma_action_at_level(
    orders: Seq<Arc<OrderType<()>>>,
    taker: Hash32,
    mode: STPMode,
)
    ensures
        ({
            let action = stp_action(resting_queue(orders), taker, mode);
            &&& action is NoConflict <==> {
                ||| mode == STPMode::Off
                ||| forall|i: int| 0 <= i < 32 ==> taker.0@[i] == 0
                ||| forall|i: int|
                    0 <= i < orders.len() ==> user_of_order(*#[trigger] orders[i]) != taker
            }
            &&& action is CancelTaker ==> mode == STPMode::CancelTaker
            &&& action is CancelMaker ==> mode == STPMode::CancelMaker
            &&& action is CancelBoth ==> mode == STPMode::CancelBoth
            &&& action matches STPAction::CancelBoth { maker_order_id, .. } ==> exists|own: int|
                {
                    &&& 0 <= own < orders.len()
                    &&& user_of_order(*#[trigger] orders[own]) == taker
                    &&& id_of_order(*orders[own]) == maker_order_id
                    &&& forall|i: int|
                        0 <= i < own ==> user_of_order(*#[trigger] orders[i]) != taker
                }
        }),
{
    let queue = resting_queue(orders);
    lemma_action_of_queue(queue, taker, mode);
    assert(forall|i: int|
        0 <= i < orders.len() ==> queue[i].user_id == user_of_order(*#[trigger] orders[i])
            && queue[i].id == id_of_order(*orders[i]));
    if stp_applies(taker, mode) && has_own(queue, taker) {
        let first = lemma_own_order_has_first(queue, taker);
        lemma_first_own(queue, taker, first);
        assert(user_of_order(*orders[first]) == taker);
        assert(forall|i: int|
            0 <= i < first ==> queue[i].user_id != taker && user_of_order(*#[trigger] orders[i])
                != taker);
    } else if stp_applies(taker, mode) {
        assert(forall|i: int|
            0 <= i < orders.len() ==> user_of_order(*#[trigger] orders[i]) != taker);
    }
}

/// The first place with an order of `user` is one place.
proof fn lemma_first_own(orders: Seq<RestingOrder>, user: Hash32, index: int)
    requires
        is_first_own(orders, user, index),
    ensures
        has_own(orders, user),
        index == choose|i: int| is_first_own(orders, user, i),
{
    let chosen = choose|i: int| is_first_own(orders, user, i);
    assert(is_first_own(orders, user, chosen));
    assert(chosen == index) by {
        if chosen < index {
            assert(orders[chosen].user_id != user);
        } else if index < chosen {
            assert(orders[index].user_id != user);
        }
    }
}

/// Where the scan applies, the action is the one for the first order of the
/// taker's user.
proof fn lemma_action_at_first(orders: Seq<RestingOrder>, taker: Hash32, mode: STPMode)
    ensures
        forall|first: int| #[trigger]
            is_first_own(orders, taker, first) && stp_applies(taker, mode) ==> stp_action(
                orders,
                taker,
                mode,
            ) == action_at(orders, mode, first),
{
    assert forall|first: int| #[trigger]
        is_first_own(orders, taker, first) && stp_applies(taker, mode) implies stp_action(
        orders,
        taker,
        mode,
    ) == action_at(orders, mode, first) by {
        lemma_first_own(orders, taker, first);
    }
}

/// A queue with an order of `user` has a first one.
proof fn lemma_own_order_has_first(orders: Seq<RestingOrder>, user: Hash32) -> (first: int)
    requires
        has_own(orders, user),
    ensures
        is_first_own(orders, user, first),
    decreases orders.len(),
{
    let own = choose|index: int| 0 <= index < orders.len() && orders[index].user_id == user;
    let ahead = orders.take(own);
    if has_own(ahead, user) {
        let first = lemma_own_order_has_first(ahead, user);
        assert(is_first_own(orders, user, first)) by {
            assert forall|i: int| 0 <= i < first implies orders[i].user_id != user by {
                assert(ahead[i].user_id != user);
            }
            assert(ahead[first] == orders[first]);
        }
        first
    } else {
        assert forall|i: int| 0 <= i < own implies orders[i].user_id != user by {
            assert(ahead[i] == orders[i]);
        }
        own
    }
}

/// The quantity shown ahead of a place does not fall further down the queue.
proof fn lemma_visible_total_grows(orders: Seq<RestingOrder>, low: int, high: int)
    requires
        0 <= low <= high <= orders.len(),
    ensures
        visible_total(orders.take(low)) <= visible_total(orders.take(high)),
    decreases high - low,
{
    if low < high {
        lemma_visible_total_grows(orders, low, high - 1);
        assert(orders.take(high).drop_last() =~= orders.take(high - 1));
    }
}

/// Orders show nothing together exactly if each shows nothing.
proof fn lemma_visible_total_zero(orders: Seq<RestingOrder>)
    ensures
        visible_total(orders) == 0 <==> forall|i: int|
            0 <= i < orders.len() ==> orders[i].visible_quantity == 0,
    decreases orders.len(),
{
    if orders.len() > 0 {
        let front = orders.drop_last();
        lemma_visible_total_zero(front);
        if visible_total(orders) == 0 {
            assert forall|i: int| 0 <= i < orders.len() implies orders[i].visible_quantity == 0 by {
                if i < front.len() {
                    assert(front[i].visible_quantity == 0);
                }
            }
        } else if visible_total(front) != 0 {
            let shown = choose|i: int| 0 <= i < front.len() && front[i].visible_quantity != 0;
            assert(orders[shown].visible_quantity != 0);
        }
    }
}

} // verus!
