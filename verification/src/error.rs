//! Errors of the order book and of the book manager.

use crate::order::{Hash32, Id, Side};
use crate::price_level::PriceLevelError;
use crate::stp::{stp_applies, STPMode};
use crate::text::{
    decimal, lemma_woven_five, lemma_woven_four, lemma_woven_one, lemma_woven_three,
    lemma_woven_two, option_text, push_decimal, push_option, same_but_for_parts, woven,
};
use vstd::prelude::*;
use vstd::string::*;

verus! {

/// A reason for which the order book refuses or fails an operation.
#[derive(Debug)]
#[non_exhaustive]
pub enum OrderBookError {
    /// A price level operation failed.
    PriceLevelError(PriceLevelError),
    /// The order with this id is not in the book.
    OrderNotFound(String),
    /// There is no valid level at this price.
    InvalidPriceLevel(u128),
    /// The order would cross the book: the bid is at or above the ask.
    PriceCrossing {
        /// The price that would cross.
        price: u128,
        /// The side of the order.
        side: Side,
        /// The best price of the opposite side.
        opposite_price: u128,
    },
    /// The book cannot fill a market order.
    InsufficientLiquidity {
        /// The side of the market order.
        side: Side,
        /// The quantity requested.
        requested: u64,
        /// The quantity available.
        available: u64,
    },
    /// The book cannot fund a single whole lot of a market order that is given
    /// as a quote-asset amount. Distinct from `InsufficientLiquidity`, so that
    /// callers can tell quote amounts from base quantities.
    InsufficientLiquidityNotional {
        /// The side of the market order.
        side: Side,
        /// The amount requested.
        requested: u128,
        /// The amount spent before the walk gave up. Always 0: a walk that spent
        /// anything reports its partial fill instead.
        spent: u128,
    },
    /// The operation is not permitted for this order type.
    InvalidOperation {
        /// What is wrong.
        message: String,
    },
    /// The kill switch is engaged: new orders and modifications are refused,
    /// while cancels still work.
    KillSwitchActive,
    /// Serializing a snapshot failed.
    SerializationError {
        /// The message of the underlying failure.
        message: String,
    },
    /// Deserializing a snapshot failed.
    DeserializationError {
        /// The message of the underlying failure.
        message: String,
    },
    /// A snapshot's checksum does not match its data.
    ChecksumMismatch {
        /// The checksum that came with the snapshot.
        expected: String,
        /// The checksum of its data.
        actual: String,
    },
    /// The order's price is not a multiple of the tick size.
    InvalidTickSize {
        /// The price of the order.
        price: u128,
        /// The configured tick size.
        tick_size: u128,
    },
    /// A quantity of the order is not a multiple of the lot size.
    InvalidLotSize {
        /// The quantity that failed: the order's quantity, one tranche of an
        /// iceberg or reserve order, or the quantity that a replenishment of a
        /// reserve order would transfer into its visible tranche.
        quantity: u64,
        /// The configured lot size.
        lot_size: u64,
    },
    /// The order's quantity is outside the allowed range.
    OrderSizeOutOfRange {
        /// The quantity of the order.
        quantity: u64,
        /// The smallest quantity allowed, if there is one.
        min: Option<u64>,
        /// The largest quantity allowed, if there is one.
        max: Option<u64>,
    },
    /// An order with this id already rests on the book. Admitting the new one
    /// would orphan the order that rests.
    DuplicateOrderId {
        /// The id that is taken.
        order_id: Id,
    },
    /// The order's total, visible and hidden quantity together, does not fit in
    /// `u64`.
    QuantityOverflow {
        /// The visible quantity of the order.
        visible: u64,
        /// The hidden quantity of the order.
        hidden: u64,
    },
    /// The order is anonymous while self-trade prevention is on, which requires
    /// every order to name its user.
    MissingUserId {
        /// The id of the order.
        order_id: Id,
    },
    /// The order would have matched a resting order of the same user.
    SelfTradePrevented {
        /// The mode that was active.
        mode: STPMode,
        /// The id of the incoming order.
        taker_order_id: Id,
        /// The user of both orders.
        user_id: Hash32,
    },
    /// The account already has as many open orders as it may. `current >= limit`
    /// holds.
    RiskMaxOpenOrders {
        /// The account.
        account: Hash32,
        /// How many orders it has open.
        current: u64,
        /// How many it may have.
        limit: u64,
    },
    /// The order would take the account over its notional limit.
    /// `current + attempted > limit` holds.
    RiskMaxNotional {
        /// The account.
        account: Hash32,
        /// The notional of its open orders.
        current: u128,
        /// The notional of the order.
        attempted: u128,
        /// The configured maximum.
        limit: u128,
    },
    /// A reserve order without automatic replenishment shows nothing but hides a
    /// quantity. Such an order can never execute.
    ZeroVisibleTranche {
        /// The id of the order.
        order_id: Id,
        /// The quantity it hides.
        hidden_quantity: u64,
    },
    /// A modification would cancel a reserve order without automatic
    /// replenishment and add it again where it exhausts its visible tranche but
    /// not its total, so that the rest of its hidden quantity would be lost.
    /// `crossable_quantity` is at least `visible_quantity` and less than
    /// `visible_quantity + hidden_quantity`.
    ReserveResidualWouldBeDiscarded {
        /// The id of the order.
        order_id: Id,
        /// The visible quantity of the order as it would be added.
        visible_quantity: u64,
        /// The opposite quantity that it would cross into.
        crossable_quantity: u64,
        /// The hidden quantity of the order as it would be added.
        hidden_quantity: u64,
        /// The quantity that would be lost:
        /// `visible_quantity + hidden_quantity - crossable_quantity`.
        discarded_quantity: u64,
    },
    /// The price is too far from the reference price. `deviation_bps >
    /// limit_bps` holds.
    RiskPriceBand {
        /// The price of the order.
        submitted: u128,
        /// The reference price.
        reference: u128,
        /// The deviation in basis points, at most `u32::MAX`.
        deviation_bps: u32,
        /// The largest deviation allowed, in basis points.
        limit_bps: u32,
    },
    /// Publishing a trade event to NATS failed.
    NatsPublishError {
        /// What failed.
        message: String,
    },
    /// Serializing a trade event for NATS failed.
    NatsSerializationError {
        /// What failed.
        message: String,
    },
}

impl OrderBookError {
    /// The message of the error.
    pub open spec fn text(self) -> Seq<char> {
        match self {
            OrderBookError::PriceLevelError(error) => "Price level error: "@ + error.text(),
            OrderBookError::OrderNotFound(id) => "Order not found: "@ + id@,
            OrderBookError::InvalidPriceLevel(price) => "Invalid price level: "@
                + decimal(price as nat),
            OrderBookError::PriceCrossing { price, side, opposite_price } => "Price crossing: "@
                + side.text() + " "@ + decimal(price as nat) + " would cross opposite at "@
                + decimal(opposite_price as nat),
            OrderBookError::InsufficientLiquidity { side, requested, available } => {
                "Insufficient liquidity for "@ + side.text() + " order: requested "@
                    + decimal(requested as nat) + ", available "@ + decimal(available as nat)
            },
            OrderBookError::InsufficientLiquidityNotional { side, requested, spent } => {
                "Insufficient liquidity by notional for "@ + side.text() + " order: requested "@
                    + decimal(requested as nat) + ", spent "@ + decimal(spent as nat)
            },
            OrderBookError::InvalidOperation { message } => "Invalid operation: "@ + message@,
            OrderBookError::KillSwitchActive => {
                "kill switch active: new order entry and modifications are halted"@
            },
            OrderBookError::SerializationError { message } => "Serialization error: "@ + message@,
            OrderBookError::DeserializationError { message } => "Deserialization error: "@
                + message@,
            OrderBookError::ChecksumMismatch { expected, actual } => "Checksum mismatch: expected "@
                + expected@ + ", but computed "@ + actual@,
            OrderBookError::InvalidTickSize { price, tick_size } => "invalid tick size: price "@
                + decimal(price as nat) + " is not a multiple of tick size "@
                + decimal(tick_size as nat),
            OrderBookError::InvalidLotSize { quantity, lot_size } => "invalid lot size: quantity "@
                + decimal(quantity as nat) + " is not a multiple of lot size "@
                + decimal(lot_size as nat),
            OrderBookError::OrderSizeOutOfRange { quantity, min, max } => {
                "order size out of range: quantity "@ + decimal(quantity as nat) + ", min "@
                    + option_text(min) + ", max "@ + option_text(max)
            },
            OrderBookError::DuplicateOrderId { order_id } => "duplicate order id: order "@
                + order_id.text() + " is already resting on the book"@,
            OrderBookError::QuantityOverflow { visible, hidden } => "quantity overflow: visible "@
                + decimal(visible as nat) + " + hidden "@ + decimal(hidden as nat)
                + " exceeds u64"@,
            OrderBookError::MissingUserId { order_id } => "missing user_id: order "@
                + order_id.text() + " rejected because STP is enabled and user_id is zero"@,
            OrderBookError::SelfTradePrevented { mode, taker_order_id, user_id } => {
                "self-trade prevented ("@ + mode.text() + "): taker "@ + taker_order_id.text()
                    + ", user "@ + user_id.text()
            },
            OrderBookError::RiskMaxOpenOrders { account, current, limit } => "risk: account "@
                + account.text() + " has "@ + decimal(current as nat) + " open orders (limit "@
                + decimal(limit as nat) + ")"@,
            OrderBookError::RiskMaxNotional { account, current, attempted, limit } => {
                "risk: account "@ + account.text() + " notional "@ + decimal(current as nat)
                    + " + attempted "@ + decimal(attempted as nat) + " would exceed limit "@
                    + decimal(limit as nat)
            },
            OrderBookError::ZeroVisibleTranche { order_id, hidden_quantity } => {
                "zero visible tranche: order "@ + order_id.text() + " carries "@
                    + decimal(hidden_quantity as nat)
                    + " hidden units behind an empty visible tranche; a two-tranche order must display a positive visible quantity"@
            },
            OrderBookError::ReserveResidualWouldBeDiscarded {
                order_id,
                visible_quantity,
                crossable_quantity,
                hidden_quantity,
                discarded_quantity,
            } => "reserve residual would be discarded: re-adding order "@ + order_id.text()
                + " would cross "@ + decimal(crossable_quantity as nat)
                + " units, exhausting its visible tranche of "@ + decimal(visible_quantity as nat)
                + " and discarding "@ + decimal(discarded_quantity as nat) + " of its "@
                + decimal(hidden_quantity as nat)
                + " hidden units because automatic replenishment is off; cancel and resubmit deliberately instead"@,
            OrderBookError::RiskPriceBand { submitted, reference, deviation_bps, limit_bps } => {
                "risk: submitted price "@ + decimal(submitted as nat) + " deviates "@
                    + decimal(deviation_bps as nat) + " bps from reference "@
                    + decimal(reference as nat) + " (limit "@ + decimal(limit_bps as nat)
                    + " bps)"@
            },
            OrderBookError::NatsPublishError { message } => "nats publish error: "@ + message@,
            OrderBookError::NatsSerializationError { message } => "nats serialization error: "@
                + message@,
        }
    }

    /// What holds between the fields of an error that the book reports.
    pub open spec fn well_formed(self) -> bool {
        match self {
            OrderBookError::PriceCrossing { price, side, opposite_price } => match side {
                Side::Buy => price >= opposite_price,
                Side::Sell => price <= opposite_price,
            },
            OrderBookError::InsufficientLiquidityNotional { side, requested, spent } => spent == 0,
            OrderBookError::InvalidTickSize { price, tick_size } => {
                tick_size > 0 ==> price % tick_size != 0
            },
            OrderBookError::InvalidLotSize { quantity, lot_size } => {
                lot_size > 0 ==> quantity % lot_size != 0
            },
            OrderBookError::OrderSizeOutOfRange { quantity, min, max } => {
                ||| min matches Some(least) && quantity < least
                ||| max matches Some(most) && quantity > most
            },
            OrderBookError::QuantityOverflow { visible, hidden } => visible + hidden > u64::MAX,
            OrderBookError::SelfTradePrevented { mode, taker_order_id, user_id } => {
                stp_applies(user_id, mode)
            },
            OrderBookError::RiskMaxOpenOrders { account, current, limit } => current >= limit,
            OrderBookError::RiskMaxNotional { account, current, attempted, limit } => current
                + attempted > limit,
            OrderBookError::RiskPriceBand {
                submitted,
                reference,
                deviation_bps,
                limit_bps,
            } => deviation_bps > limit_bps,
            OrderBookError::ZeroVisibleTranche { order_id, hidden_quantity } => hidden_quantity > 0,
            OrderBookError::ReserveResidualWouldBeDiscarded {
                order_id,
                visible_quantity,
                crossable_quantity,
                hidden_quantity,
                discarded_quantity,
            } => visible_quantity <= crossable_quantity < visible_quantity + hidden_quantity
                && discarded_quantity == visible_quantity + hidden_quantity - crossable_quantity,
            _ => true,
        }
    }

    /// Writes the message of the error.
    pub fn to_string(&self) -> (text: String)
        ensures
            text@ == self.text(),
    {
        let mut out = String::new();
        match self {
            OrderBookError::PriceLevelError(error) => {
                out.append("Price level error: ");
                out.append(error.to_string().as_str());
            },
            OrderBookError::OrderNotFound(id) => {
                out.append("Order not found: ");
                out.append(id.as_str());
            },
            OrderBookError::InvalidPriceLevel(price) => {
                out.append("Invalid price level: ");
                push_decimal(&mut out, *price);
            },
            OrderBookError::PriceCrossing { price, side, opposite_price } => {
                out.append("Price crossing: ");
                out.append(side.to_string().as_str());
                out.append(" ");
                push_decimal(&mut out, *price);
                out.append(" would cross opposite at ");
                push_decimal(&mut out, *opposite_price);
            },
            OrderBookError::InsufficientLiquidity { side, requested, available } => {
                out.append("Insufficient liquidity for ");
                out.append(side.to_string().as_str());
                out.append(" order: requested ");
                push_decimal(&mut out, *requested as u128);
                out.append(", available ");
                push_decimal(&mut out, *available as u128);
            },
            OrderBookError::InsufficientLiquidityNotional { side, requested, spent } => {
                out.append("Insufficient liquidity by notional for ");
                out.append(side.to_string().as_str());
                out.append(" order: requested ");
                push_decimal(&mut out, *requested);
                out.append(", spent ");
                push_decimal(&mut out, *spent);
            },
            OrderBookError::InvalidOperation { message } => {
                out.append("Invalid operation: ");
                out.append(message.as_str());
            },
            OrderBookError::KillSwitchActive => {
                out.append("kill switch active: new order entry and modifications are halted");
            },
            OrderBookError::SerializationError { message } => {
                out.append("Serialization error: ");
                out.append(message.as_str());
            },
            OrderBookError::DeserializationError { message } => {
                out.append("Deserialization error: ");
                out.append(message.as_str());
            },
            OrderBookError::ChecksumMismatch { expected, actual } => {
                out.append("Checksum mismatch: expected ");
                out.append(expected.as_str());
                out.append(", but computed ");
                out.append(actual.as_str());
            },
            OrderBookError::InvalidTickSize { price, tick_size } => {
                out.append("invalid tick size: price ");
                push_decimal(&mut out, *price);
                out.append(" is not a multiple of tick size ");
                push_decimal(&mut out, *tick_size);
            },
            OrderBookError::InvalidLotSize { quantity, lot_size } => {
                out.append("invalid lot size: quantity ");
                push_decimal(&mut out, *quantity as u128);
                out.append(" is not a multiple of lot size ");
                push_decimal(&mut out, *lot_size as u128);
            },
            OrderBookError::OrderSizeOutOfRange { quantity, min, max } => {
                out.append("order size out of range: quantity ");
                push_decimal(&mut out, *quantity as u128);
                out.append(", min ");
                push_option(&mut out, *min);
                out.append(", max ");
                push_option(&mut out, *max);
            },
            OrderBookError::DuplicateOrderId { order_id } => {
                out.append("duplicate order id: order ");
                out.append(order_id.to_string().as_str());
                out.append(" is already resting on the book");
            },
            OrderBookError::QuantityOverflow { visible, hidden } => {
                out.append("quantity overflow: visible ");
                push_decimal(&mut out, *visible as u128);
                out.append(" + hidden ");
                push_decimal(&mut out, *hidden as u128);
                out.append(" exceeds u64");
            },
            OrderBookError::MissingUserId { order_id } => {
                out.append("missing user_id: order ");
                out.append(order_id.to_string().as_str());
                out.append(" rejected because STP is enabled and user_id is zero");
            },
            OrderBookError::SelfTradePrevented { mode, taker_order_id, user_id } => {
                out.append("self-trade prevented (");
                out.append(mode.to_string().as_str());
                out.append("): taker ");
                out.append(taker_order_id.to_string().as_str());
                out.append(", user ");
                out.append(user_id.to_string().as_str());
            },
            OrderBookError::RiskMaxOpenOrders { account, current, limit } => {
                out.append("risk: account ");
                out.append(account.to_string().as_str());
                out.append(" has ");
                push_decimal(&mut out, *current as u128);
                out.append(" open orders (limit ");
                push_decimal(&mut out, *limit as u128);
                out.append(")");
            },
            OrderBookError::RiskMaxNotional { account, current, attempted, limit } => {
                out.append("risk: account ");
                out.append(account.to_string().as_str());
                out.append(" notional ");
                push_decimal(&mut out, *current);
                out.append(" + attempted ");
                push_decimal(&mut out, *attempted);
                out.append(" would exceed limit ");
                push_decimal(&mut out, *limit);
            },
            OrderBookError::ZeroVisibleTranche { order_id, hidden_quantity } => {
                out.append("zero visible tranche: order ");
                out.append(order_id.to_string().as_str());
                out.append(" carries ");
                push_decimal(&mut out, *hidden_quantity as u128);
                out.append(" hidden units behind an empty visible tranche; a two-tranche order must display a positive visible quantity");
            },
            OrderBookError::ReserveResidualWouldBeDiscarded {
                order_id,
                visible_quantity,
                crossable_quantity,
                hidden_quantity,
                discarded_quantity,
            } => {
                out.append("reserve residual would be discarded: re-adding order ");
                out.append(order_id.to_string().as_str());
                out.append(" would cross ");
                push_decimal(&mut out, *crossable_quantity as u128);
                out.append(" units, exhausting its visible tranche of ");
                push_decimal(&mut out, *visible_quantity as u128);
                out.append(" and discarding ");
                push_decimal(&mut out, *discarded_quantity as u128);
                out.append(" of its ");
                push_decimal(&mut out, *hidden_quantity as u128);
                out.append(" hidden units because automatic replenishment is off; cancel and resubmit deliberately instead");
            },
            OrderBookError::RiskPriceBand { submitted, reference, deviation_bps, limit_bps } => {
                out.append("risk: submitted price ");
                push_decimal(&mut out, *submitted);
                out.append(" deviates ");
                push_decimal(&mut out, *deviation_bps as u128);
                out.append(" bps from reference ");
                push_decimal(&mut out, *reference);
                out.append(" (limit ");
                push_decimal(&mut out, *limit_bps as u128);
                out.append(" bps)");
            },
            OrderBookError::NatsPublishError { message } => {
                out.append("nats publish error: ");
                out.append(message.as_str());
            },
            OrderBookError::NatsSerializationError { message } => {
                out.append("nats serialization error: ");
                out.append(message.as_str());
            },
        }
        out
    }
}

impl Clone for OrderBookError {
    fn clone(&self) -> (cloned: OrderBookError)
        ensures
            cloned == *self,
            cloned.text() == self.text(),
            cloned.well_formed() == self.well_formed(),
    {
        match self {
            OrderBookError::PriceLevelError(error) => {
                OrderBookError::PriceLevelError(error.clone())
            },
            OrderBookError::OrderNotFound(id) => OrderBookError::OrderNotFound(id.clone()),
            OrderBookError::InvalidPriceLevel(price) => OrderBookError::InvalidPriceLevel(*price),
            OrderBookError::PriceCrossing { price, side, opposite_price } => {
                OrderBookError::PriceCrossing {
                    price: *price,
                    side: *side,
                    opposite_price: *opposite_price,
                }
            },
            OrderBookError::InsufficientLiquidity { side, requested, available } => {
                OrderBookError::InsufficientLiquidity {
                    side: *side,
                    requested: *requested,
                    available: *available,
                }
            },
            OrderBookError::InsufficientLiquidityNotional { side, requested, spent } => {
                OrderBookError::InsufficientLiquidityNotional {
                    side: *side,
                    requested: *requested,
                    spent: *spent,
                }
            },
            OrderBookError::InvalidOperation { message } => OrderBookError::InvalidOperation {
                message: message.clone(),
            },
            OrderBookError::KillSwitchActive => OrderBookError::KillSwitchActive,
            OrderBookError::SerializationError { message } => OrderBookError::SerializationError {
                message: message.clone(),
            },
            OrderBookError::DeserializationError { message } => {
                OrderBookError::DeserializationError {
                    message: message.clone(),
                }
            },
            OrderBookError::ChecksumMismatch { expected, actual } => {
                OrderBookError::ChecksumMismatch {
                    expected: expected.clone(),
                    actual: actual.clone(),
                }
            },
            OrderBookError::InvalidTickSize { price, tick_size } => {
                OrderBookError::InvalidTickSize {
                    price: *price,
                    tick_size: *tick_size,
                }
            },
            OrderBookError::InvalidLotSize { quantity, lot_size } => {
                OrderBookError::InvalidLotSize {
                    quantity: *quantity,
                    lot_size: *lot_size,
                }
            },
            OrderBookError::OrderSizeOutOfRange { quantity, min, max } => {
                OrderBookError::OrderSizeOutOfRange {
                    quantity: *quantity,
                    min: *min,
                    max: *max,
                }
            },
            OrderBookError::DuplicateOrderId { order_id } => OrderBookError::DuplicateOrderId {
                order_id: *order_id,
            },
            OrderBookError::QuantityOverflow { visible, hidden } => {
                OrderBookError::QuantityOverflow {
                    visible: *visible,
                    hidden: *hidden,
                }
            },
            OrderBookError::MissingUserId { order_id } => OrderBookError::MissingUserId {
                order_id: *order_id,
            },
            OrderBookError::SelfTradePrevented { mode, taker_order_id, user_id } => {
                OrderBookError::SelfTradePrevented {
                    mode: *mode,
                    taker_order_id: *taker_order_id,
                    user_id: *user_id,
                }
            },
            OrderBookError::RiskMaxOpenOrders { account, current, limit } => {
                OrderBookError::RiskMaxOpenOrders {
                    account: *account,
                    current: *current,
                    limit: *limit,
                }
            },
            OrderBookError::RiskMaxNotional { account, current, attempted, limit } => {
                OrderBookError::RiskMaxNotional {
                    account: *account,
                    current: *current,
                    attempted: *attempted,
                    limit: *limit,
                }
            },
            OrderBookError::ZeroVisibleTranche { order_id, hidden_quantity } => {
                OrderBookError::ZeroVisibleTranche {
                    order_id: *order_id,
                    hidden_quantity: *hidden_quantity,
                }
            },
            OrderBookError::ReserveResidualWouldBeDiscarded {
                order_id,
                visible_quantity,
                crossable_quantity,
                hidden_quantity,
                discarded_quantity,
            } => OrderBookError::ReserveResidualWouldBeDiscarded {
                order_id: *order_id,
                visible_quantity: *visible_quantity,
                crossable_quantity: *crossable_quantity,
                hidden_quantity: *hidden_quantity,
                discarded_quantity: *discarded_quantity,
            },
            OrderBookError::RiskPriceBand { submitted, reference, deviation_bps, limit_bps } => {
                OrderBookError::RiskPriceBand {
                    submitted: *submitted,
                    reference: *reference,
                    deviation_bps: *deviation_bps,
                    limit_bps: *limit_bps,
                }
            },
            OrderBookError::NatsPublishError { message } => OrderBookError::NatsPublishError {
                message: message.clone(),
            },
            OrderBookError::NatsSerializationError { message } => {
                OrderBookError::NatsSerializationError {
                    message: message.clone(),
                }
            },
        }
    }
}

impl From<PriceLevelError> for OrderBookError {
    fn from(error: PriceLevelError) -> (converted: OrderBookError)
        ensures
            converted matches OrderBookError::PriceLevelError(kept) && kept == error,
    {
        OrderBookError::PriceLevelError(error)
    }
}

impl vstd::std_specs::convert::FromSpecImpl<PriceLevelError> for OrderBookError {
    open spec fn obeys_from_spec() -> bool {
        true
    }

    open spec fn from_spec(error: PriceLevelError) -> OrderBookError {
        OrderBookError::PriceLevelError(error)
    }
}

/// A failure of an event serializer, as the message it gives.
#[derive(Debug)]
pub struct SerializationError {
    /// The message of the underlying serializer.
    pub message: String,
}

impl From<SerializationError> for OrderBookError {
    fn from(error: SerializationError) -> (converted: OrderBookError)
        ensures
            converted matches OrderBookError::SerializationError { message } && message
                == error.message,
    {
        OrderBookError::SerializationError { message: error.message }
    }
}

impl vstd::std_specs::convert::FromSpecImpl<SerializationError> for OrderBookError {
    open spec fn obeys_from_spec() -> bool {
        true
    }

    open spec fn from_spec(error: SerializationError) -> OrderBookError {
        OrderBookError::SerializationError { message: error.message }
    }
}

/// Every failure of a price level becomes the error for such failures, and
/// that error holds the failure as it was.
pub proof fn lemma_price_level_failure_is_kept(failure: PriceLevelError)
    ensures
        <OrderBookError as vstd::std_specs::convert::FromSpec<PriceLevelError>>::from_spec(
            failure,
        ) matches OrderBookError::PriceLevelError(kept) && kept == failure,
{
}

/// Every failure of a serializer becomes the error for such failures, with the
/// message of the failure.
pub proof fn lemma_serializer_message_is_kept(failure: SerializationError)
    ensures
        <OrderBookError as vstd::std_specs::convert::FromSpec<SerializationError>>::from_spec(
            failure,
        ) matches OrderBookError::SerializationError { message } && message == failure.message,
{
}

/// What a modification of a reserve order would lose is something, and no
/// more than the order hides.
pub proof fn lemma_discarded_within_hidden(error: OrderBookError)
    requires
        error is ReserveResidualWouldBeDiscarded,
        error.well_formed(),
    ensures
        0 < error->discarded_quantity <= error->ReserveResidualWouldBeDiscarded_hidden_quantity,
{
}

/// The messages of two errors of one kind are the same but for their fields:
/// each field has a place of its own, the same in every message of the kind,
/// and nothing else of the message depends on the fields.
pub proof fn lemma_messages_differ_in_their_fields(left: OrderBookError, right: OrderBookError)
    ensures
        match (left, right) {
            (
                OrderBookError::PriceLevelError(error_1),
                OrderBookError::PriceLevelError(error_2),
            ) => same_but_for_parts(
                left.text(),
                seq![error_1.text()],
                right.text(),
                seq![error_2.text()],
            ),
            (
                OrderBookError::OrderNotFound(id_1),
                OrderBookError::OrderNotFound(id_2),
            ) => same_but_for_parts(
                left.text(),
                seq![id_1@],
                right.text(),
                seq![id_2@],
            ),
            (
                OrderBookError::InvalidPriceLevel(price_1),
                OrderBookError::InvalidPriceLevel(price_2),
            ) => same_but_for_parts(
                left.text(),
                seq![decimal(price_1 as nat)],
                right.text(),
                seq![decimal(price_2 as nat)],
            ),
            (
                OrderBookError::PriceCrossing {
                    price: price_1,
                    side: side_1,
                    opposite_price: opposite_price_1,
                },
                OrderBookError::PriceCrossing {
                    price: price_2,
                    side: side_2,
                    opposite_price: opposite_price_2,
                },
            ) => same_but_for_parts(
                left.text(),
                seq![side_1.text(), decimal(price_1 as nat), decimal(opposite_price_1 as nat)],
                right.text(),
                seq![side_2.text(), decimal(price_2 as nat), decimal(opposite_price_2 as nat)],
            ),
            (
                OrderBookError::InsufficientLiquidity {
                    side: side_1,
                    requested: requested_1,
                    available: available_1,
                },
                OrderBookError::InsufficientLiquidity {
                    side: side_2,
                    requested: requested_2,
                    available: available_2,
                },
            ) => same_but_for_parts(
                left.text(),
                seq![side_1.text(), decimal(requested_1 as nat), decimal(available_1 as nat)],
                right.text(),
                seq![side_2.text(), decimal(requested_2 as nat), decimal(available_2 as nat)],
            ),
            (
                OrderBookError::InsufficientLiquidityNotional {
                    side: side_1,
                    requested: requested_1,
                    spent: spent_1,
                },
                OrderBookError::InsufficientLiquidityNotional {
                    side: side_2,
                    requested: requested_2,
                    spent: spent_2,
                },
            ) => same_but_for_parts(
                left.text(),
                seq![side_1.text(), decimal(requested_1 as nat), decimal(spent_1 as nat)],
                right.text(),
                seq![side_2.text(), decimal(requested_2 as nat), decimal(spent_2 as nat)],
            ),
            (
                OrderBookError::InvalidOperation { message: message_1 },
                OrderBookError::InvalidOperation { message: message_2 },
            ) => same_but_for_parts(
                left.text(),
                seq![message_1@],
                right.text(),
                seq![message_2@],
            ),
            (
                OrderBookError::SerializationError { message: message_1 },
                OrderBookError::SerializationError { message: message_2 },
            ) => same_but_for_parts(
                left.text(),
                seq![message_1@],
                right.text(),
                seq![message_2@],
            ),
            (
                OrderBookError::DeserializationError { message: message_1 },
                OrderBookError::DeserializationError { message: message_2 },
            ) => same_but_for_parts(
                left.text(),
                seq![message_1@],
                right.text(),
                seq![message_2@],
            ),
            (
                OrderBookError::ChecksumMismatch { expected: expected_1, actual: actual_1 },
                OrderBookError::ChecksumMismatch { expected: expected_2, actual: actual_2 },
            ) => same_but_for_parts(
                left.text(),
                seq![expected_1@, actual_1@],
                right.text(),
                seq![expected_2@, actual_2@],
            ),
            (
                OrderBookError::InvalidTickSize { price: price_1, tick_size: tick_size_1 },
                OrderBookError::InvalidTickSize { price: price_2, tick_size: tick_size_2 },
            ) => same_but_for_parts(
                left.text(),
                seq![decimal(price_1 as nat), decimal(tick_size_1 as nat)],
                right.text(),
                seq![decimal(price_2 as nat), decimal(tick_size_2 as nat)],
            ),
            (
                OrderBookError::InvalidLotSize { quantity: quantity_1, lot_size: lot_size_1 },
                OrderBookError::InvalidLotSize { quantity: quantity_2, lot_size: lot_size_2 },
            ) => same_but_for_parts(
                left.text(),
                seq![decimal(quantity_1 as nat), decimal(lot_size_1 as nat)],
                right.text(),
                seq![decimal(quantity_2 as nat), decimal(lot_size_2 as nat)],
            ),
            (
                OrderBookError::OrderSizeOutOfRange {
                    quantity: quantity_1,
                    min: min_1,
                    max: max_1,
                },
                OrderBookError::OrderSizeOutOfRange {
                    quantity: quantity_2,
                    min: min_2,
                    max: max_2,
                },
            ) => same_but_for_parts(
                left.text(),
                seq![decimal(quantity_1 as nat), option_text(min_1), option_text(max_1)],
                right.text(),
                seq![decimal(quantity_2 as nat), option_text(min_2), option_text(max_2)],
            ),
            (
                OrderBookError::DuplicateOrderId { order_id: order_id_1 },
                OrderBookError::DuplicateOrderId { order_id: order_id_2 },
            ) => same_but_for_parts(
                left.text(),
                seq![order_id_1.text()],
                right.text(),
                seq![order_id_2.text()],
            ),
            (
                OrderBookError::QuantityOverflow { visible: visible_1, hidden: hidden_1 },
                OrderBookError::QuantityOverflow { visible: visible_2, hidden: hidden_2 },
            ) => same_but_for_parts(
                left.text(),
                seq![decimal(visible_1 as nat), decimal(hidden_1 as nat)],
                right.text(),
                seq![decimal(visible_2 as nat), decimal(hidden_2 as nat)],
            ),
            (
                OrderBookError::MissingUserId { order_id: order_id_1 },
                OrderBookError::MissingUserId { order_id: order_id_2 },
            ) => same_but_for_parts(
                left.text(),
                seq![order_id_1.text()],
                right.text(),
                seq![order_id_2.text()],
            ),
            (
                OrderBookError::SelfTradePrevented {
                    mode: mode_1,
                    taker_order_id: taker_order_id_1,
                    user_id: user_id_1,
                },
                OrderBookError::SelfTradePrevented {
                    mode: mode_2,
                    taker_order_id: taker_order_id_2,
                    user_id: user_id_2,
                },
            ) => same_but_for_parts(
                left.text(),
                seq![mode_1.text(), taker_order_id_1.text(), user_id_1.text()],
                right.text(),
                seq![mode_2.text(), taker_order_id_2.text(), user_id_2.text()],
            ),
            (
                OrderBookError::RiskMaxOpenOrders {
                    account: account_1,
                    current: current_1,
                    limit: limit_1,
                },
                OrderBookError::RiskMaxOpenOrders {
                    account: account_2,
                    current: current_2,
                    limit: limit_2,
                },
            ) => same_but_for_parts(
                left.text(),
                seq![account_1.text(), decimal(current_1 as nat), decimal(limit_1 as nat)],
                right.text(),
                seq![account_2.text(), decimal(current_2 as nat), decimal(limit_2 as nat)],
            ),
            (
                OrderBookError::RiskMaxNotional {
                    account: account_1,
                    current: current_1,
                    attempted: attempted_1,
                    limit: limit_1,
                },
                OrderBookError::RiskMaxNotional {
                    account: account_2,
                    current: current_2,
                    attempted: attempted_2,
                    limit: limit_2,
                },
            ) => same_but_for_parts(
                left.text(),
                seq![
                    account_1.text(),
                    decimal(current_1 as nat),
                    decimal(attempted_1 as nat),
                    decimal(limit_1 as nat),
                ],
                right.text(),
                seq![
                    account_2.text(),
                    decimal(current_2 as nat),
                    decimal(attempted_2 as nat),
                    decimal(limit_2 as nat),
                ],
            ),
            (
                OrderBookError::ZeroVisibleTranche {
                    order_id: order_id_1,
                    hidden_quantity: hidden_quantity_1,
                },
                OrderBookError::ZeroVisibleTranche {
                    order_id: order_id_2,
                    hidden_quantity: hidden_quantity_2,
                },
            ) => same_but_for_parts(
                left.text(),
                seq![order_id_1.text(), decimal(hidden_quantity_1 as nat)],
                right.text(),
                seq![order_id_2.text(), decimal(hidden_quantity_2 as nat)],
            ),
            (
                OrderBookError::ReserveResidualWouldBeDiscarded {
                    order_id: order_id_1,
                    visible_quantity: visible_quantity_1,
                    crossable_quantity: crossable_quantity_1,
                    hidden_quantity: hidden_quantity_1,
                    discarded_quantity: discarded_quantity_1,
                },
                OrderBookError::ReserveResidualWouldBeDiscarded {
                    order_id: order_id_2,
                    visible_quantity: visible_quantity_2,
                    crossable_quantity: crossable_quantity_2,
                    hidden_quantity: hidden_quantity_2,
                    discarded_quantity: discarded_quantity_2,
                },
            ) => same_but_for_parts(
                left.text(),
                seq![
                    order_id_1.text(),
                    decimal(crossable_quantity_1 as nat),
                    decimal(visible_quantity_1 as nat),
                    decimal(discarded_quantity_1 as nat),
                    decimal(hidden_quantity_1 as nat),
                ],
                right.text(),
                seq![
                    order_id_2.text(),
                    decimal(crossable_quantity_2 as nat),
                    decimal(visible_quantity_2 as nat),
                    decimal(discarded_quantity_2 as nat),
                    decimal(hidden_quantity_2 as nat),
                ],
            ),
            (
                OrderBookError::RiskPriceBand {
                    submitted: submitted_1,
                    reference: reference_1,
                    deviation_bps: deviation_bps_1,
                    limit_bps: limit_bps_1,
                },
                OrderBookError::RiskPriceBand {
                    submitted: submitted_2,
                    reference: reference_2,
                    deviation_bps: deviation_bps_2,
                    limit_bps: limit_bps_2,
                },
            ) => same_but_for_parts(
                left.text(),
                seq![
                    decimal(submitted_1 as nat),
                    decimal(deviation_bps_1 as nat),
                    decimal(reference_1 as nat),
                    decimal(limit_bps_1 as nat),
                ],
                right.text(),
                seq![
                    decimal(submitted_2 as nat),
                    decimal(deviation_bps_2 as nat),
                    decimal(reference_2 as nat),
                    decimal(limit_bps_2 as nat),
                ],
            ),
            (
                OrderBookError::NatsPublishError { message: message_1 },
                OrderBookError::NatsPublishError { message: message_2 },
            ) => same_but_for_parts(
                left.text(),
                seq![message_1@],
                right.text(),
                seq![message_2@],
            ),
            (
                OrderBookError::NatsSerializationError { message: message_1 },
                OrderBookError::NatsSerializationError { message: message_2 },
            ) => same_but_for_parts(
                left.text(),
                seq![message_1@],
                right.text(),
                seq![message_2@],
            ),
            _ => true,
        },
{
    match (left, right) {
        (
            OrderBookError::PriceLevelError(error_1),
            OrderBookError::PriceLevelError(error_2),
        ) => {
            lemma_woven_one("Price level error: "@, error_1.text(), Seq::empty());
            assert(
                left.text() =~= woven(seq!["Price level error: "@, Seq::empty()], seq![error_1.text()])
            );
            lemma_woven_one("Price level error: "@, error_2.text(), Seq::empty());
            assert(
                right.text() =~= woven(seq!["Price level error: "@, Seq::empty()], seq![error_2.text()])
            );
        },
        (
            OrderBookError::OrderNotFound(id_1),
            OrderBookError::OrderNotFound(id_2),
        ) => {
            lemma_woven_one("Order not found: "@, id_1@, Seq::empty());
            assert(left.text() =~= woven(seq!["Order not found: "@, Seq::empty()], seq![id_1@]));
            lemma_woven_one("Order not found: "@, id_2@, Seq::empty());
            assert(right.text() =~= woven(seq!["Order not found: "@, Seq::empty()], seq![id_2@]));
        },
        (
            OrderBookError::InvalidPriceLevel(price_1),
            OrderBookError::InvalidPriceLevel(price_2),
        ) => {
            lemma_woven_one("Invalid price level: "@, decimal(price_1 as nat), Seq::empty());
            assert(
                left.text() =~= woven(seq!["Invalid price level: "@, Seq::empty()], seq![decimal(price_1 as nat)])
            );
            lemma_woven_one("Invalid price level: "@, decimal(price_2 as nat), Seq::empty());
            assert(
                right.text() =~= woven(seq!["Invalid price level: "@, Seq::empty()], seq![decimal(price_2 as nat)])
            );
        },
        (
            OrderBookError::PriceCrossing {
                price: price_1,
                side: side_1,
                opposite_price: opposite_price_1,
            },
            OrderBookError::PriceCrossing {
                price: price_2,
                side: side_2,
                opposite_price: opposite_price_2,
            },
        ) => {
            lemma_woven_three(
                "Price crossing: "@,
                side_1.text(),
                " "@,
                decimal(price_1 as nat),
                " would cross opposite at "@,
                decimal(opposite_price_1 as nat),
                Seq::empty(),
            );
            assert(
                left.text() =~= woven(seq!["Price crossing: "@, " "@, " would cross opposite at "@, Seq::empty()], seq![side_1.text(), decimal(price_1 as nat), decimal(opposite_price_1 as nat)])
            );
            lemma_woven_three(
                "Price crossing: "@,
                side_2.text(),
                " "@,
                decimal(price_2 as nat),
                " would cross opposite at "@,
                decimal(opposite_price_2 as nat),
                Seq::empty(),
            );
            assert(
                right.text() =~= woven(seq!["Price crossing: "@, " "@, " would cross opposite at "@, Seq::empty()], seq![side_2.text(), decimal(price_2 as nat), decimal(opposite_price_2 as nat)])
            );
        },
        (
            OrderBookError::InsufficientLiquidity {
                side: side_1,
                requested: requested_1,
                available: available_1,
            },
            OrderBookError::InsufficientLiquidity {
                side: side_2,
                requested: requested_2,
                available: available_2,
            },
        ) => {
            lemma_woven_three(
                "Insufficient liquidity for "@,
                side_1.text(),
                " order: requested "@,
                decimal(requested_1 as nat),
                ", available "@,
                decimal(available_1 as nat),
                Seq::empty(),
            );
            assert(
                left.text() =~= woven(seq!["Insufficient liquidity for "@, " order: requested "@, ", available "@, Seq::empty()], seq![side_1.text(), decimal(requested_1 as nat), decimal(available_1 as nat)])
            );
            lemma_woven_three(
                "Insufficient liquidity for "@,
                side_2.text(),
                " order: requested "@,
                decimal(requested_2 as nat),
                ", available "@,
                decimal(available_2 as nat),
                Seq::empty(),
            );
            assert(
                right.text() =~= woven(seq!["Insufficient liquidity for "@, " order: requested "@, ", available "@, Seq::empty()], seq![side_2.text(), decimal(requested_2 as nat), decimal(available_2 as nat)])
            );
        },
        (
            OrderBookError::InsufficientLiquidityNotional {
                side: side_1,
                requested: requested_1,
                spent: spent_1,
            },
            OrderBookError::InsufficientLiquidityNotional {
                side: side_2,
                requested: requested_2,
                spent: spent_2,
            },
        ) => {
            lemma_woven_three(
                "Insufficient liquidity by notional for "@,
                side_1.text(),
                " order: requested "@,
                decimal(requested_1 as nat),
                ", spent "@,
                decimal(spent_1 as nat),
                Seq::empty(),
            );
            assert(
                left.text() =~= woven(seq!["Insufficient liquidity by notional for "@, " order: requested "@, ", spent "@, Seq::empty()], seq![side_1.text(), decimal(requested_1 as nat), decimal(spent_1 as nat)])
            );
            lemma_woven_three(
                "Insufficient liquidity by notional for "@,
                side_2.text(),
                " order: requested "@,
                decimal(requested_2 as nat),
                ", spent "@,
                decimal(spent_2 as nat),
                Seq::empty(),
            );
            assert(
                right.text() =~= woven(seq!["Insufficient liquidity by notional for "@, " order: requested "@, ", spent "@, Seq::empty()], seq![side_2.text(), decimal(requested_2 as nat), decimal(spent_2 as nat)])
            );
        },
        (
            OrderBookError::InvalidOperation { message: message_1 },
            OrderBookError::InvalidOperation { message: message_2 },
        ) => {
            lemma_woven_one("Invalid operation: "@, message_1@, Seq::empty());
            assert(
                left.text() =~= woven(seq!["Invalid operation: "@, Seq::empty()], seq![message_1@])
            );
            lemma_woven_one("Invalid operation: "@, message_2@, Seq::empty());
            assert(
                right.text() =~= woven(seq!["Invalid operation: "@, Seq::empty()], seq![message_2@])
            );
        },
        (
            OrderBookError::SerializationError { message: message_1 },
            OrderBookError::SerializationError { message: message_2 },
        ) => {
            lemma_woven_one("Serialization error: "@, message_1@, Seq::empty());
            assert(
                left.text() =~= woven(seq!["Serialization error: "@, Seq::empty()], seq![message_1@])
            );
            lemma_woven_one("Serialization error: "@, message_2@, Seq::empty());
            assert(
                right.text() =~= woven(seq!["Serialization error: "@, Seq::empty()], seq![message_2@])
            );
        },
        (
            OrderBookError::DeserializationError { message: message_1 },
            OrderBookError::DeserializationError { message: message_2 },
        ) => {
            lemma_woven_one("Deserialization error: "@, message_1@, Seq::empty());
            assert(
                left.text() =~= woven(seq!["Deserialization error: "@, Seq::empty()], seq![message_1@])
            );
            lemma_woven_one("Deserialization error: "@, message_2@, Seq::empty());
            assert(
                right.text() =~= woven(seq!["Deserialization error: "@, Seq::empty()], seq![message_2@])
            );
        },
        (
            OrderBookError::ChecksumMismatch { expected: expected_1, actual: actual_1 },
            OrderBookError::ChecksumMismatch { expected: expected_2, actual: actual_2 },
        ) => {
            lemma_woven_two(
                "Checksum mismatch: expected "@,
                expected_1@,
                ", but computed "@,
                actual_1@,
                Seq::empty(),
            );
            assert(
                left.text() =~= woven(seq!["Checksum mismatch: expected "@, ", but computed "@, Seq::empty()], seq![expected_1@, actual_1@])
            );
            lemma_woven_two(
                "Checksum mismatch: expected "@,
                expected_2@,
                ", but computed "@,
                actual_2@,
                Seq::empty(),
            );
            assert(
                right.text() =~= woven(seq!["Checksum mismatch: expected "@, ", but computed "@, Seq::empty()], seq![expected_2@, actual_2@])
            );
        },
        (
            OrderBookError::InvalidTickSize { price: price_1, tick_size: tick_size_1 },
            OrderBookError::InvalidTickSize { price: price_2, tick_size: tick_size_2 },
        ) => {
            lemma_woven_two(
                "invalid tick size: price "@,
                decimal(price_1 as nat),
                " is not a multiple of tick size "@,
                decimal(tick_size_1 as nat),
                Seq::empty(),
            );
            assert(
                left.text() =~= woven(seq!["invalid tick size: price "@, " is not a multiple of tick size "@, Seq::empty()], seq![decimal(price_1 as nat), decimal(tick_size_1 as nat)])
            );
            lemma_woven_two(
                "invalid tick size: price "@,
                decimal(price_2 as nat),
                " is not a multiple of tick size "@,
                decimal(tick_size_2 as nat),
                Seq::empty(),
            );
            assert(
                right.text() =~= woven(seq!["invalid tick size: price "@, " is not a multiple of tick size "@, Seq::empty()], seq![decimal(price_2 as nat), decimal(tick_size_2 as nat)])
            );
        },
        (
            OrderBookError::InvalidLotSize { quantity: quantity_1, lot_size: lot_size_1 },
            OrderBookError::InvalidLotSize { quantity: quantity_2, lot_size: lot_size_2 },
        ) => {
            lemma_woven_two(
                "invalid lot size: quantity "@,
                decimal(quantity_1 as nat),
                " is not a multiple of lot size "@,
                decimal(lot_size_1 as nat),
                Seq::empty(),
            );
            assert(
                left.text() =~= woven(seq!["invalid lot size: quantity "@, " is not a multiple of lot size "@, Seq::empty()], seq![decimal(quantity_1 as nat), decimal(lot_size_1 as nat)])
            );
            lemma_woven_two(
                "invalid lot size: quantity "@,
                decimal(quantity_2 as nat),
                " is not a multiple of lot size "@,
                decimal(lot_size_2 as nat),
                Seq::empty(),
            );
            assert(
                right.text() =~= woven(seq!["invalid lot size: quantity "@, " is not a multiple of lot size "@, Seq::empty()], seq![decimal(quantity_2 as nat), decimal(lot_size_2 as nat)])
            );
        },
        (
            OrderBookError::OrderSizeOutOfRange { quantity: quantity_1, min: min_1, max: max_1 },
            OrderBookError::OrderSizeOutOfRange { quantity: quantity_2, min: min_2, max: max_2 },
        ) => {
            lemma_woven_three(
                "order size out of range: quantity "@,
                decimal(quantity_1 as nat),
                ", min "@,
                option_text(min_1),
                ", max "@,
                option_text(max_1),
                Seq::empty(),
            );
            assert(
                left.text() =~= woven(seq!["order size out of range: quantity "@, ", min "@, ", max "@, Seq::empty()], seq![decimal(quantity_1 as nat), option_text(min_1), option_text(max_1)])
            );
            lemma_woven_three(
                "order size out of range: quantity "@,
                decimal(quantity_2 as nat),
                ", min "@,
                option_text(min_2),
                ", max "@,
                option_text(max_2),
                Seq::empty(),
            );
            assert(
                right.text() =~= woven(seq!["order size out of range: quantity "@, ", min "@, ", max "@, Seq::empty()], seq![decimal(quantity_2 as nat), option_text(min_2), option_text(max_2)])
            );
        },
        (
            OrderBookError::DuplicateOrderId { order_id: order_id_1 },
            OrderBookError::DuplicateOrderId { order_id: order_id_2 },
        ) => {
            lemma_woven_one(
                "duplicate order id: order "@,
                order_id_1.text(),
                " is already resting on the book"@,
            );
            assert(
                left.text() =~= woven(seq!["duplicate order id: order "@, " is already resting on the book"@], seq![order_id_1.text()])
            );
            lemma_woven_one(
                "duplicate order id: order "@,
                order_id_2.text(),
                " is already resting on the book"@,
            );
            assert(
                right.text() =~= woven(seq!["duplicate order id: order "@, " is already resting on the book"@], seq![order_id_2.text()])
            );
        },
        (
            OrderBookError::QuantityOverflow { visible: visible_1, hidden: hidden_1 },
            OrderBookError::QuantityOverflow { visible: visible_2, hidden: hidden_2 },
        ) => {
            lemma_woven_two(
                "quantity overflow: visible "@,
                decimal(visible_1 as nat),
                " + hidden "@,
                decimal(hidden_1 as nat),
                " exceeds u64"@,
            );
            assert(
                left.text() =~= woven(seq!["quantity overflow: visible "@, " + hidden "@, " exceeds u64"@], seq![decimal(visible_1 as nat), decimal(hidden_1 as nat)])
            );
            lemma_woven_two(
                "quantity overflow: visible "@,
                decimal(visible_2 as nat),
                " + hidden "@,
                decimal(hidden_2 as nat),
                " exceeds u64"@,
            );
            assert(
                right.text() =~= woven(seq!["quantity overflow: visible "@, " + hidden "@, " exceeds u64"@], seq![decimal(visible_2 as nat), decimal(hidden_2 as nat)])
            );
        },
        (
            OrderBookError::MissingUserId { order_id: order_id_1 },
            OrderBookError::MissingUserId { order_id: order_id_2 },
        ) => {
            lemma_woven_one(
                "missing user_id: order "@,
                order_id_1.text(),
                " rejected because STP is enabled and user_id is zero"@,
            );
            assert(
                left.text() =~= woven(seq!["missing user_id: order "@, " rejected because STP is enabled and user_id is zero"@], seq![order_id_1.text()])
            );
            lemma_woven_one(
                "missing user_id: order "@,
                order_id_2.text(),
                " rejected because STP is enabled and user_id is zero"@,
            );
            assert(
                right.text() =~= woven(seq!["missing user_id: order "@, " rejected because STP is enabled and user_id is zero"@], seq![order_id_2.text()])
            );
        },
        (
            OrderBookError::SelfTradePrevented {
                mode: mode_1,
                taker_order_id: taker_order_id_1,
                user_id: user_id_1,
            },
            OrderBookError::SelfTradePrevented {
                mode: mode_2,
                taker_order_id: taker_order_id_2,
                user_id: user_id_2,
            },
        ) => {
            lemma_woven_three(
                "self-trade prevented ("@,
                mode_1.text(),
                "): taker "@,
                taker_order_id_1.text(),
                ", user "@,
                user_id_1.text(),
                Seq::empty(),
            );
            assert(
                left.text() =~= woven(seq!["self-trade prevented ("@, "): taker "@, ", user "@, Seq::empty()], seq![mode_1.text(), taker_order_id_1.text(), user_id_1.text()])
            );
            lemma_woven_three(
                "self-trade prevented ("@,
                mode_2.text(),
                "): taker "@,
                taker_order_id_2.text(),
                ", user "@,
                user_id_2.text(),
                Seq::empty(),
            );
            assert(
                right.text() =~= woven(seq!["self-trade prevented ("@, "): taker "@, ", user "@, Seq::empty()], seq![mode_2.text(), taker_order_id_2.text(), user_id_2.text()])
            );
        },
        (
            OrderBookError::RiskMaxOpenOrders {
                account: account_1,
                current: current_1,
                limit: limit_1,
            },
            OrderBookError::RiskMaxOpenOrders {
                account: account_2,
                current: current_2,
                limit: limit_2,
            },
        ) => {
            lemma_woven_three(
                "risk: account "@,
                account_1.text(),
                " has "@,
                decimal(current_1 as nat),
                " open orders (limit "@,
                decimal(limit_1 as nat),
                ")"@,
            );
            assert(
                left.text() =~= woven(seq!["risk: account "@, " has "@, " open orders (limit "@, ")"@], seq![account_1.text(), decimal(current_1 as nat), decimal(limit_1 as nat)])
            );
            lemma_woven_three(
                "risk: account "@,
                account_2.text(),
                " has "@,
                decimal(current_2 as nat),
                " open orders (limit "@,
                decimal(limit_2 as nat),
                ")"@,
            );
            assert(
                right.text() =~= woven(seq!["risk: account "@, " has "@, " open orders (limit "@, ")"@], seq![account_2.text(), decimal(current_2 as nat), decimal(limit_2 as nat)])
            );
        },
        (
            OrderBookError::RiskMaxNotional {
                account: account_1,
                current: current_1,
                attempted: attempted_1,
                limit: limit_1,
            },
            OrderBookError::RiskMaxNotional {
                account: account_2,
                current: current_2,
                attempted: attempted_2,
                limit: limit_2,
            },
        ) => {
            lemma_woven_four(
                "risk: account "@,
                account_1.text(),
                " notional "@,
                decimal(current_1 as nat),
                " + attempted "@,
                decimal(attempted_1 as nat),
                " would exceed limit "@,
                decimal(limit_1 as nat),
                Seq::empty(),
            );
            assert(
                left.text() =~= woven(seq!["risk: account "@, " notional "@, " + attempted "@, " would exceed limit "@, Seq::empty()], seq![account_1.text(), decimal(current_1 as nat), decimal(attempted_1 as nat), decimal(limit_1 as nat)])
            );
            lemma_woven_four(
                "risk: account "@,
                account_2.text(),
                " notional "@,
                decimal(current_2 as nat),
                " + attempted "@,
                decimal(attempted_2 as nat),
                " would exceed limit "@,
                decimal(limit_2 as nat),
                Seq::empty(),
            );
            assert(
                right.text() =~= woven(seq!["risk: account "@, " notional "@, " + attempted "@, " would exceed limit "@, Seq::empty()], seq![account_2.text(), decimal(current_2 as nat), decimal(attempted_2 as nat), decimal(limit_2 as nat)])
            );
        },
        (
            OrderBookError::ZeroVisibleTranche {
                order_id: order_id_1,
                hidden_quantity: hidden_quantity_1,
            },
            OrderBookError::ZeroVisibleTranche {
                order_id: order_id_2,
                hidden_quantity: hidden_quantity_2,
            },
        ) => {
            lemma_woven_two(
                "zero visible tranche: order "@,
                order_id_1.text(),
                " carries "@,
                decimal(hidden_quantity_1 as nat),
                " hidden units behind an empty visible tranche; a two-tranche order must display a positive visible quantity"@,
            );
            assert(
                left.text() =~= woven(seq!["zero visible tranche: order "@, " carries "@, " hidden units behind an empty visible tranche; a two-tranche order must display a positive visible quantity"@], seq![order_id_1.text(), decimal(hidden_quantity_1 as nat)])
            );
            lemma_woven_two(
                "zero visible tranche: order "@,
                order_id_2.text(),
                " carries "@,
                decimal(hidden_quantity_2 as nat),
                " hidden units behind an empty visible tranche; a two-tranche order must display a positive visible quantity"@,
            );
            assert(
                right.text() =~= woven(seq!["zero visible tranche: order "@, " carries "@, " hidden units behind an empty visible tranche; a two-tranche order must display a positive visible quantity"@], seq![order_id_2.text(), decimal(hidden_quantity_2 as nat)])
            );
        },
        (
            OrderBookError::ReserveResidualWouldBeDiscarded {
                order_id: order_id_1,
                visible_quantity: visible_quantity_1,
                crossable_quantity: crossable_quantity_1,
                hidden_quantity: hidden_quantity_1,
                discarded_quantity: discarded_quantity_1,
            },
            OrderBookError::ReserveResidualWouldBeDiscarded {
                order_id: order_id_2,
                visible_quantity: visible_quantity_2,
                crossable_quantity: crossable_quantity_2,
                hidden_quantity: hidden_quantity_2,
                discarded_quantity: discarded_quantity_2,
            },
        ) => {
            lemma_woven_five(
                "reserve residual would be discarded: re-adding order "@,
                order_id_1.text(),
                " would cross "@,
                decimal(crossable_quantity_1 as nat),
                " units, exhausting its visible tranche of "@,
                decimal(visible_quantity_1 as nat),
                " and discarding "@,
                decimal(discarded_quantity_1 as nat),
                " of its "@,
                decimal(hidden_quantity_1 as nat),
                " hidden units because automatic replenishment is off; cancel and resubmit deliberately instead"@,
            );
            assert(
                left.text() =~= woven(seq!["reserve residual would be discarded: re-adding order "@, " would cross "@, " units, exhausting its visible tranche of "@, " and discarding "@, " of its "@, " hidden units because automatic replenishment is off; cancel and resubmit deliberately instead"@], seq![order_id_1.text(), decimal(crossable_quantity_1 as nat), decimal(visible_quantity_1 as nat), decimal(discarded_quantity_1 as nat), decimal(hidden_quantity_1 as nat)])
            );
            lemma_woven_five(
                "reserve residual would be discarded: re-adding order "@,
                order_id_2.text(),
                " would cross "@,
                decimal(crossable_quantity_2 as nat),
                " units, exhausting its visible tranche of "@,
                decimal(visible_quantity_2 as nat),
                " and discarding "@,
                decimal(discarded_quantity_2 as nat),
                " of its "@,
                decimal(hidden_quantity_2 as nat),
                " hidden units because automatic replenishment is off; cancel and resubmit deliberately instead"@,
            );
            assert(
                right.text() =~= woven(seq!["reserve residual would be discarded: re-adding order "@, " would cross "@, " units, exhausting its visible tranche of "@, " and discarding "@, " of its "@, " hidden units because automatic replenishment is off; cancel and resubmit deliberately instead"@], seq![order_id_2.text(), decimal(crossable_quantity_2 as nat), decimal(visible_quantity_2 as nat), decimal(discarded_quantity_2 as nat), decimal(hidden_quantity_2 as nat)])
            );
        },
        (
            OrderBookError::RiskPriceBand {
                submitted: submitted_1,
                reference: reference_1,
                deviation_bps: deviation_bps_1,
                limit_bps: limit_bps_1,
            },
            OrderBookError::RiskPriceBand {
                submitted: submitted_2,
                reference: reference_2,
                deviation_bps: deviation_bps_2,
                limit_bps: limit_bps_2,
            },
        ) => {
            lemma_woven_four(
                "risk: submitted price "@,
                decimal(submitted_1 as nat),
                " deviates "@,
                decimal(deviation_bps_1 as nat),
                " bps from reference "@,
                decimal(reference_1 as nat),
                " (limit "@,
                decimal(limit_bps_1 as nat),
                " bps)"@,
            );
            assert(
                left.text() =~= woven(seq!["risk: submitted price "@, " deviates "@, " bps from reference "@, " (limit "@, " bps)"@], seq![decimal(submitted_1 as nat), decimal(deviation_bps_1 as nat), decimal(reference_1 as nat), decimal(limit_bps_1 as nat)])
            );
            lemma_woven_four(
                "risk: submitted price "@,
                decimal(submitted_2 as nat),
                " deviates "@,
                decimal(deviation_bps_2 as nat),
                " bps from reference "@,
                decimal(reference_2 as nat),
                " (limit "@,
                decimal(limit_bps_2 as nat),
                " bps)"@,
            );
            assert(
                right.text() =~= woven(seq!["risk: submitted price "@, " deviates "@, " bps from reference "@, " (limit "@, " bps)"@], seq![decimal(submitted_2 as nat), decimal(deviation_bps_2 as nat), decimal(reference_2 as nat), decimal(limit_bps_2 as nat)])
            );
        },
        (
            OrderBookError::NatsPublishError { message: message_1 },
            OrderBookError::NatsPublishError { message: message_2 },
        ) => {
            lemma_woven_one("nats publish error: "@, message_1@, Seq::empty());
            assert(
                left.text() =~= woven(seq!["nats publish error: "@, Seq::empty()], seq![message_1@])
            );
            lemma_woven_one("nats publish error: "@, message_2@, Seq::empty());
            assert(
                right.text() =~= woven(seq!["nats publish error: "@, Seq::empty()], seq![message_2@])
            );
        },
        (
            OrderBookError::NatsSerializationError { message: message_1 },
            OrderBookError::NatsSerializationError { message: message_2 },
        ) => {
            lemma_woven_one("nats serialization error: "@, message_1@, Seq::empty());
            assert(
                left.text() =~= woven(seq!["nats serialization error: "@, Seq::empty()], seq![message_1@])
            );
            lemma_woven_one("nats serialization error: "@, message_2@, Seq::empty());
            assert(
                right.text() =~= woven(seq!["nats serialization error: "@, Seq::empty()], seq![message_2@])
            );
        },
        _ => {},
    }
}

/// A reason for which the book manager refuses an operation.
#[derive(Debug)]
#[non_exhaustive]
pub enum ManagerError {
    /// The trade processor has already been started.
    ProcessorAlreadyStarted,
    /// There already is a book for the symbol. Adding another would drop the
    /// resting orders of the first.
    BookAlreadyExists {
        /// The symbol.
        symbol: String,
    },
}

impl ManagerError {
    /// The message of the error.
    pub open spec fn text(self) -> Seq<char> {
        match self {
            ManagerError::ProcessorAlreadyStarted => "trade processor already started"@,
            ManagerError::BookAlreadyExists { symbol } => "order book already exists for symbol: "@
                + symbol@,
        }
    }

    /// Writes the message of the error.
    pub fn to_string(&self) -> (text: String)
        ensures
            text@ == self.text(),
    {
        let mut out = String::new();
        match self {
            ManagerError::ProcessorAlreadyStarted => {
                out.append("trade processor already started");
            },
            ManagerError::BookAlreadyExists { symbol } => {
                out.append("order book already exists for symbol: ");
                out.append(symbol.as_str());
            },
        }
        out
    }
}

impl Clone for ManagerError {
    fn clone(&self) -> (cloned: ManagerError)
        ensures
            cloned == *self,
            cloned.text() == self.text(),
    {
        match self {
            ManagerError::ProcessorAlreadyStarted => ManagerError::ProcessorAlreadyStarted,
            ManagerError::BookAlreadyExists { symbol } => ManagerError::BookAlreadyExists {
                symbol: symbol.clone(),
            },
        }
    }
}

/// The messages of two refusals for a symbol are the same but for the symbol.
pub proof fn lemma_manager_messages_differ_in_the_symbol(left: ManagerError, right: ManagerError)
    ensures
        match (left, right) {
            (
                ManagerError::BookAlreadyExists { symbol: symbol_1 },
                ManagerError::BookAlreadyExists { symbol: symbol_2 },
            ) => same_but_for_parts(
                left.text(),
                seq![symbol_1@],
                right.text(),
                seq![symbol_2@],
            ),
            _ => true,
        },
{
    match (left, right) {
        (
            ManagerError::BookAlreadyExists { symbol: symbol_1 },
            ManagerError::BookAlreadyExists { symbol: symbol_2 },
        ) => {
            lemma_woven_one("order book already exists for symbol: "@, symbol_1@, Seq::empty());
            assert(
                left.text() =~= woven(seq!["order book already exists for symbol: "@, Seq::empty()], seq![symbol_1@])
            );
            lemma_woven_one("order book already exists for symbol: "@, symbol_2@, Seq::empty());
            assert(
                right.text() =~= woven(seq!["order book already exists for symbol: "@, Seq::empty()], seq![symbol_2@])
            );
        },
        _ => {},
    }
}

} // verus!
