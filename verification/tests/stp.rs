//! Self-trade prevention: modes and the scan of a price level.

use orderbook_rs::level::resting_order;
use orderbook_rs::order::{Hash32, Id, RestingOrder};
use orderbook_rs::stp::{check_stp_at_level, check_stp_on_queue, STPAction, STPMode};
use pricelevel::OrderType;
use std::num::NonZeroU64;
use std::sync::Arc;

/// An owner as the matching engine holds it.
fn raw_user(user_id: Hash32) -> pricelevel::Hash32 {
    pricelevel::Hash32::new(user_id.0)
}

/// A standard sell order at 100.
fn standard(quantity: u64, user_id: Hash32, timestamp: u64) -> Arc<OrderType<()>> {
    Arc::new(OrderType::Standard {
        id: pricelevel::Id::new(),
        price: pricelevel::Price::new(100),
        quantity: pricelevel::Quantity::new(quantity),
        side: pricelevel::Side::Sell,
        user_id: raw_user(user_id),
        timestamp: pricelevel::TimestampMs::new(timestamp),
        time_in_force: pricelevel::TimeInForce::Gtc,
        extra_fields: (),
    })
}

/// A reserve sell order at 100.
fn reserve(visible: u64, hidden: u64, user_id: Hash32) -> Arc<OrderType<()>> {
    Arc::new(OrderType::ReserveOrder {
        id: pricelevel::Id::from_u64(9),
        price: pricelevel::Price::new(100),
        visible_quantity: pricelevel::Quantity::new(visible),
        hidden_quantity: pricelevel::Quantity::new(hidden),
        side: pricelevel::Side::Sell,
        user_id: raw_user(user_id),
        timestamp: pricelevel::TimestampMs::new(0),
        time_in_force: pricelevel::TimeInForce::Gtc,
        replenish_threshold: pricelevel::Quantity::new(1),
        replenish_amount: NonZeroU64::new(5),
        auto_replenish: true,
        extra_fields: (),
    })
}

/// An iceberg sell order at 100.
fn iceberg(visible: u64, hidden: u64, user_id: Hash32) -> Arc<OrderType<()>> {
    Arc::new(OrderType::IcebergOrder {
        id: pricelevel::Id::Sequential(12),
        price: pricelevel::Price::new(100),
        visible_quantity: pricelevel::Quantity::new(visible),
        hidden_quantity: pricelevel::Quantity::new(hidden),
        side: pricelevel::Side::Sell,
        user_id: raw_user(user_id),
        timestamp: pricelevel::TimestampMs::new(0),
        time_in_force: pricelevel::TimeInForce::Gtc,
        extra_fields: (),
    })
}

/// A queue entry given by what the scan reads.
fn entry(number: u64, user_id: Hash32, visible_quantity: u64) -> RestingOrder {
    RestingOrder {
        id: Id::Sequential(number),
        user_id,
        visible_quantity,
    }
}

/// The safe quantity of a `CancelTaker` action.
fn cancel_taker_quantity(action: &STPAction) -> u64 {
    match action {
        STPAction::CancelTaker { safe_quantity } => *safe_quantity,
        _ => panic!("expected CancelTaker action"),
    }
}

#[test]
fn test_stp_mode_default_is_none() {
    assert_eq!(STPMode::default(), STPMode::Off);
}

#[test]
fn test_stp_mode_is_enabled() {
    assert!(!STPMode::Off.is_enabled());
    assert!(STPMode::CancelTaker.is_enabled());
    assert!(STPMode::CancelMaker.is_enabled());
    assert!(STPMode::CancelBoth.is_enabled());
}

#[test]
fn test_stp_mode_display() {
    assert_eq!(STPMode::Off.to_string(), "None");
    assert_eq!(STPMode::CancelTaker.to_string(), "CancelTaker");
    assert_eq!(STPMode::CancelMaker.to_string(), "CancelMaker");
    assert_eq!(STPMode::CancelBoth.to_string(), "CancelBoth");
}

#[test]
fn modes_debug_by_their_name() {
    assert_eq!(format!("{:?}", STPMode::Off), "None");
    assert_eq!(format!("{:?}", STPMode::CancelTaker), "CancelTaker");
    assert_eq!(format!("{:?}", STPMode::CancelMaker), "CancelMaker");
    assert_eq!(format!("{:?}", STPMode::CancelBoth), "CancelBoth");
    assert_eq!(format!("{:#20?}", Some(STPMode::Off)), "Some(\n    None,\n)");
}

#[test]
fn actions_debug_with_the_maker() {
    let action = STPAction::CancelBoth {
        safe_quantity: 10,
        maker_order_id: Id::Uuid(1),
    };
    assert_eq!(
        format!("{:?}", action),
        "CancelBoth { safe_quantity: 10, maker_order_id: \
         Uuid(00000000-0000-0000-0000-000000000001) }"
    );
}

#[test]
fn mode_numbers_follow_the_order_of_the_modes() {
    assert_eq!(STPMode::Off as u8, 0);
    assert_eq!(STPMode::CancelTaker as u8, 1);
    assert_eq!(STPMode::CancelMaker as u8, 2);
    assert_eq!(STPMode::CancelBoth as u8, 3);
}

#[test]
fn test_check_stp_none_mode_returns_no_conflict() {
    let orders = vec![];
    let action = check_stp_at_level(&orders, Hash32::zero(), STPMode::Off);
    assert!(matches!(action, STPAction::NoConflict));
}

#[test]
fn test_check_stp_zero_user_bypasses() {
    let user = Hash32::zero();
    let orders = vec![standard(10, user, 0)];
    let action = check_stp_at_level(&orders, user, STPMode::CancelTaker);
    assert!(matches!(action, STPAction::NoConflict));
}

#[test]
fn test_check_stp_cancel_taker_detects_same_user() {
    let user = Hash32::new([1u8; 32]);
    let orders = vec![standard(10, user, 0)];
    let action = check_stp_at_level(&orders, user, STPMode::CancelTaker);
    match action {
        STPAction::CancelTaker { safe_quantity } => assert_eq!(safe_quantity, 0),
        _ => panic!("expected CancelTaker action"),
    }
}

#[test]
fn test_check_stp_cancel_taker_safe_quantity_before_self() {
    let taker_user = Hash32::new([1u8; 32]);
    let other_user = Hash32::new([2u8; 32]);

    let other_order = standard(5, other_user, 0);
    let same_order = standard(10, taker_user, 1);
    let orders = vec![other_order, same_order];
    let action = check_stp_at_level(&orders, taker_user, STPMode::CancelTaker);
    match action {
        STPAction::CancelTaker { safe_quantity } => assert_eq!(safe_quantity, 5),
        _ => panic!("expected CancelTaker action"),
    }
}

#[test]
fn test_check_stp_cancel_maker_detects_same_user() {
    let taker_user = Hash32::new([1u8; 32]);
    let other_user = Hash32::new([2u8; 32]);

    let same1 = standard(5, taker_user, 0);
    let other = standard(3, other_user, 1);
    let same2 = standard(7, taker_user, 2);
    let orders = vec![same1, other, same2];
    let action = check_stp_at_level(&orders, taker_user, STPMode::CancelMaker);
    assert!(matches!(action, STPAction::CancelMaker));
}

#[test]
fn test_check_stp_cancel_both_detects_self() {
    let user = Hash32::new([1u8; 32]);
    let other_user = Hash32::new([2u8; 32]);

    let other = standard(3, other_user, 0);
    let same = standard(10, user, 1);
    let orders = vec![other, same.clone()];
    let action = check_stp_at_level(&orders, user, STPMode::CancelBoth);
    match action {
        STPAction::CancelBoth {
            safe_quantity,
            maker_order_id,
        } => {
            assert_eq!(safe_quantity, 3);
            assert_eq!(maker_order_id.to_string(), same.id().to_string());
            assert_eq!(maker_order_id, resting_order(&same).id);
        }
        _ => panic!("expected CancelBoth action"),
    }
}

#[test]
fn test_check_stp_no_conflict_when_different_users() {
    let taker_user = Hash32::new([1u8; 32]);
    let other_user = Hash32::new([2u8; 32]);

    let orders = vec![standard(10, other_user, 0)];

    assert!(matches!(
        check_stp_at_level(&orders, taker_user, STPMode::CancelTaker),
        STPAction::NoConflict
    ));
    assert!(matches!(
        check_stp_at_level(&orders, taker_user, STPMode::CancelMaker),
        STPAction::NoConflict
    ));
    assert!(matches!(
        check_stp_at_level(&orders, taker_user, STPMode::CancelBoth),
        STPAction::NoConflict
    ));
}

#[test]
fn anonymous_taker_bypasses_every_mode() {
    let orders = vec![entry(1, Hash32::zero(), 10), entry(2, Hash32::new([2u8; 32]), 4)];
    let modes = [
        STPMode::Off,
        STPMode::CancelTaker,
        STPMode::CancelMaker,
        STPMode::CancelBoth,
    ];
    for mode in modes {
        let action = check_stp_on_queue(&orders, Hash32::zero(), mode);
        assert!(matches!(action, STPAction::NoConflict));
    }
}

#[test]
fn off_lets_orders_of_one_user_match() {
    let user = Hash32::new([1u8; 32]);
    let orders = vec![entry(3, user, 10)];
    let action = check_stp_on_queue(&orders, user, STPMode::Off);
    assert!(matches!(action, STPAction::NoConflict));
}

#[test]
fn owners_that_differ_in_one_byte_are_different() {
    let mut bytes = [1u8; 32];
    bytes[31] = 2;
    let orders = vec![entry(4, Hash32::new(bytes), 10)];
    let action = check_stp_on_queue(&orders, Hash32::new([1u8; 32]), STPMode::CancelMaker);
    assert!(matches!(action, STPAction::NoConflict));
}

#[test]
fn an_owner_with_one_nonzero_byte_is_not_anonymous() {
    let mut bytes = [0u8; 32];
    bytes[31] = 1;
    let user = Hash32::new(bytes);
    let orders = vec![entry(5, user, 10)];
    let action = check_stp_on_queue(&orders, user, STPMode::CancelMaker);
    assert!(matches!(action, STPAction::CancelMaker));
}

#[test]
fn an_empty_level_is_free_of_conflict() {
    let user = Hash32::new([1u8; 32]);
    let modes = [STPMode::CancelTaker, STPMode::CancelMaker, STPMode::CancelBoth];
    for mode in modes {
        let action = check_stp_on_queue(&[], user, mode);
        assert!(matches!(action, STPAction::NoConflict));
    }
}

#[test]
fn safe_quantity_saturates() {
    let user = Hash32::new([1u8; 32]);
    let other = Hash32::new([2u8; 32]);
    let orders = vec![
        entry(6, other, u64::MAX),
        entry(7, other, 7),
        entry(8, user, 1),
    ];
    let action = check_stp_on_queue(&orders, user, STPMode::CancelTaker);
    assert_eq!(cancel_taker_quantity(&action), u64::MAX);
}

#[test]
fn safe_quantity_counts_visible_quantity_only() {
    let user = Hash32::new([1u8; 32]);
    let other = Hash32::new([2u8; 32]);
    let orders = vec![resting_order(&reserve(10, 20, other)), entry(9, user, 1)];
    let action = check_stp_on_queue(&orders, user, STPMode::CancelTaker);
    assert_eq!(cancel_taker_quantity(&action), 10);
}

#[test]
fn safe_quantity_is_the_largest_that_stays_clear() {
    let user = Hash32::new([1u8; 32]);
    let other = Hash32::new([2u8; 32]);
    let orders = vec![
        entry(10, other, 5),
        entry(11, other, 3),
        entry(12, user, 2),
        entry(13, other, 4),
    ];
    let action = check_stp_on_queue(&orders, user, STPMode::CancelTaker);
    let safe = cancel_taker_quantity(&action);
    assert_eq!(safe, 8);
    // A fill in queue order comes to an order once it exceeds what is ahead.
    let reaches_own = |quantity: u64| {
        let mut ahead = 0;
        for order in &orders {
            if order.user_id == user && ahead < quantity {
                return true;
            }
            ahead += order.visible_quantity;
        }
        false
    };
    assert!(!reaches_own(safe));
    assert!(reaches_own(safe + 1));
}

#[test]
fn safe_quantity_is_zero_behind_orders_that_show_nothing() {
    let user = Hash32::new([1u8; 32]);
    let other = Hash32::new([2u8; 32]);
    let orders = vec![resting_order(&reserve(0, 20, other)), entry(14, user, 1)];
    let action = check_stp_on_queue(&orders, user, STPMode::CancelTaker);
    assert_eq!(cancel_taker_quantity(&action), 0);
}

#[test]
fn cancel_taker_and_cancel_both_allow_the_same_quantity() {
    let user = Hash32::new([1u8; 32]);
    let other = Hash32::new([2u8; 32]);
    let orders = vec![entry(15, other, 6), entry(16, user, 3), entry(17, user, 2)];
    let taker = check_stp_on_queue(&orders, user, STPMode::CancelTaker);
    match check_stp_on_queue(&orders, user, STPMode::CancelBoth) {
        STPAction::CancelBoth {
            safe_quantity,
            maker_order_id,
        } => {
            assert_eq!(safe_quantity, cancel_taker_quantity(&taker));
            assert_eq!(maker_order_id, orders[1].id);
        }
        _ => panic!("expected CancelBoth action"),
    }
}

#[test]
fn orders_behind_the_first_own_order_are_ignored() {
    let user = Hash32::new([1u8; 32]);
    let other = Hash32::new([2u8; 32]);
    let mut orders = vec![entry(18, other, 6), entry(19, user, 3)];
    let short = check_stp_on_queue(&orders, user, STPMode::CancelTaker);
    orders.push(entry(20, other, 50));
    orders.push(entry(21, user, 1));
    let long = check_stp_on_queue(&orders, user, STPMode::CancelTaker);
    assert_eq!(cancel_taker_quantity(&short), 6);
    assert_eq!(cancel_taker_quantity(&long), 6);
}

#[test]
fn cancelling_the_makers_clears_the_level() {
    let user = Hash32::new([1u8; 32]);
    let other = Hash32::new([2u8; 32]);
    let orders = vec![entry(22, user, 6), entry(23, other, 3), entry(24, user, 2)];
    let rest: Vec<RestingOrder> = orders
        .into_iter()
        .filter(|order| order.user_id != user)
        .collect();
    assert_eq!(rest.len(), 1);
    let action = check_stp_on_queue(&rest, user, STPMode::CancelMaker);
    assert!(matches!(action, STPAction::NoConflict));
}

#[test]
fn actions_clone_unchanged() {
    let action = STPAction::CancelBoth {
        safe_quantity: 4,
        maker_order_id: Id::Sequential(8),
    };
    assert!(matches!(
        action.clone(),
        STPAction::CancelBoth {
            safe_quantity: 4,
            maker_order_id: Id::Sequential(8)
        }
    ));
    assert!(matches!(
        STPAction::CancelTaker { safe_quantity: 3 }.clone(),
        STPAction::CancelTaker { safe_quantity: 3 }
    ));
    assert!(matches!(STPAction::CancelMaker.clone(), STPAction::CancelMaker));
    assert!(matches!(STPAction::NoConflict.clone(), STPAction::NoConflict));
}

#[test]
fn orders_are_read_by_kind() {
    let user = Hash32::new([7u8; 32]);
    let plain = standard(10, user, 0);
    let read = resting_order(&plain);
    assert_eq!(read.id.to_string(), plain.id().to_string());
    assert!(read.user_id == user);
    assert_eq!(read.visible_quantity, 10);

    let read = resting_order(&reserve(4, 20, user));
    assert_eq!(read.id, Id::Uuid(9 << 64));
    assert!(read.user_id == user);
    assert_eq!(read.visible_quantity, 4);

    let read = resting_order(&iceberg(3, 30, user));
    assert_eq!(read.id, Id::Sequential(12));
    assert!(read.user_id == user);
    assert_eq!(read.visible_quantity, 3);
}

#[test]
fn a_level_and_its_queue_give_the_same_action() {
    let user = Hash32::new([1u8; 32]);
    let other = Hash32::new([2u8; 32]);
    let orders = vec![
        iceberg(3, 30, other),
        reserve(4, 20, other),
        standard(5, user, 0),
        standard(6, other, 1),
    ];
    let queue: Vec<RestingOrder> = orders.iter().map(|order| resting_order(order)).collect();
    let modes = [
        STPMode::Off,
        STPMode::CancelTaker,
        STPMode::CancelMaker,
        STPMode::CancelBoth,
    ];
    for mode in modes {
        let at_level = check_stp_at_level(&orders, user, mode);
        let on_queue = check_stp_on_queue(&queue, user, mode);
        assert_eq!(format!("{:?}", at_level), format!("{:?}", on_queue));
    }
    let action = check_stp_at_level(&orders, user, STPMode::CancelTaker);
    assert_eq!(cancel_taker_quantity(&action), 7);
}

#[test]
fn a_level_saturates_and_bypasses_like_a_queue() {
    let user = Hash32::new([1u8; 32]);
    let other = Hash32::new([2u8; 32]);
    let orders = vec![
        standard(u64::MAX, other, 0),
        standard(1, other, 1),
        standard(1, user, 2),
    ];
    let action = check_stp_at_level(&orders, user, STPMode::CancelTaker);
    assert_eq!(cancel_taker_quantity(&action), u64::MAX);
    let action = check_stp_at_level(&orders, user, STPMode::Off);
    assert!(matches!(action, STPAction::NoConflict));
}
