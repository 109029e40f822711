//! Orders of the matching engine, read as the book's rules see them.
//!
//! An order of `pricelevel` is opaque here. Three of its accessors are called,
//! and each has a name for what it gives: the identifier, the owner and the
//! visible quantity are functions of the order alone.

use crate::order::{Hash32, Id, RestingOrder};
use pricelevel::OrderType;
use std::sync::Arc;
use vstd::prelude::*;

verus! {

/// An order of `pricelevel`, read through the functions below.
#[verifier::external_type_specification]
#[verifier::external_body]
#[verifier::reject_recursive_types(T)]
pub struct ExOrderType<T>(OrderType<T>);

/// The identifier that `pricelevel::OrderType::id` gives for an order.
pub uninterp spec fn id_of_order(order: OrderType<()>) -> Id;

/// The owner that `pricelevel::OrderType::user_id` gives for an order.
pub uninterp spec fn user_of_order(order: OrderType<()>) -> Hash32;

/// The quantity that `pricelevel::OrderType::visible_quantity` gives for an
/// order.
pub uninterp spec fn visible_quantity_of_order(order: OrderType<()>) -> u64;

/// The identifier of an order, by `pricelevel::OrderType::id`, as the
/// library's own identifier: the same kind with the same bits. The claim is
/// that it depends on the order alone.
#[verifier::external_body]
fn order_id(order: &OrderType<()>) -> (id: Id)
    ensures
        id == id_of_order(*order),
{
    match order.id() {
        pricelevel::Id::Uuid(uuid) => Id::Uuid(uuid.as_u128()),
        pricelevel::Id::Ulid(ulid) => Id::Ulid(ulid.0),
        pricelevel::Id::Sequential(number) => Id::Sequential(number),
    }
}

/// The owner of an order, by `pricelevel::OrderType::user_id`, byte for byte.
/// The claim is that it depends on the order alone.
#[verifier::external_body]
fn order_user_id(order: &OrderType<()>) -> (user_id: Hash32)
    ensures
        user_id == user_of_order(*order),
{
    Hash32(order.user_id().0)
}

/// The quantity an order shows, by `pricelevel::OrderType::visible_quantity`,
/// as a number. The claim is that it depends on the order alone.
#[verifier::external_body]
fn order_visible_quantity(order: &OrderType<()>) -> (quantity: u64)
    ensures
        quantity == visible_quantity_of_order(*order),
{
    order.visible_quantity().as_u64()
}

/// What self-trade prevention reads of an order.
pub open spec fn resting(order: OrderType<()>) -> RestingOrder {
    RestingOrder {
        id: id_of_order(order),
        user_id: user_of_order(order),
        visible_quantity: visible_quantity_of_order(order),
    }
}

/// Reads an order.
pub fn resting_order(order: &OrderType<()>) -> (read: RestingOrder)
    ensures
        read == resting(*order),
        read.id == id_of_order(*order),
        read.user_id == user_of_order(*order),
        read.visible_quantity == visible_quantity_of_order(*order),
{
    RestingOrder {
        id: order_id(order),
        user_id: order_user_id(order),
        visible_quantity: order_visible_quantity(order),
    }
}

/// What self-trade prevention reads of a queue.
pub open spec fn resting_queue(orders: Seq<Arc<OrderType<()>>>) -> Seq<RestingOrder> {
    Seq::new(orders.len(), |i: int| resting(*orders[i]))
}

/// Reading a queue keeps every order in its place, with its identifier, its
/// owner and the quantity it shows.
pub proof fn lemma_queue_is_read_in_order(orders: Seq<Arc<OrderType<()>>>)
    ensures
        resting_queue(orders).len() == orders.len(),
        forall|i: int|
            0 <= i < orders.len() ==> {
                let read = #[trigger] resting_queue(orders)[i];
                &&& read.id == id_of_order(*orders[i])
                &&& read.user_id == user_of_order(*orders[i])
                &&& read.visible_quantity == visible_quantity_of_order(*orders[i])
            },
{
}

} // verus!
