//! Errors: messages, copies and conversions.

use orderbook_rs::error::{ManagerError, OrderBookError, SerializationError};
use orderbook_rs::order::{Hash32, Id, Side};
use orderbook_rs::price_level::PriceLevelError;
use orderbook_rs::stp::STPMode;

/// The identifier that stands for an identifier of the matching engine.
fn id_of(raw: pricelevel::Id) -> Id {
    match raw {
        pricelevel::Id::Uuid(uuid) => Id::Uuid(uuid.as_u128()),
        pricelevel::Id::Ulid(ulid) => Id::Ulid(ulid.0),
        pricelevel::Id::Sequential(number) => Id::Sequential(number),
    }
}

#[test]
fn test_clone_order_not_found() {
    let error = OrderBookError::OrderNotFound("order123".to_string());
    let cloned = error.clone();
    assert!(matches!(cloned, OrderBookError::OrderNotFound(ref s) if s == "order123"));
}

#[test]
fn test_clone_invalid_price_level() {
    let error = OrderBookError::InvalidPriceLevel(12345);
    let cloned = error.clone();
    assert!(matches!(cloned, OrderBookError::InvalidPriceLevel(12345)));
}

#[test]
fn test_clone_price_crossing() {
    let error = OrderBookError::PriceCrossing {
        price: 100,
        side: Side::Buy,
        opposite_price: 99,
    };
    let cloned = error.clone();
    assert!(matches!(
        cloned,
        OrderBookError::PriceCrossing {
            price: 100,
            side: Side::Buy,
            opposite_price: 99
        }
    ));
}

#[test]
fn test_clone_insufficient_liquidity() {
    let error = OrderBookError::InsufficientLiquidity {
        side: Side::Sell,
        requested: 1000,
        available: 500,
    };
    let cloned = error.clone();
    assert!(matches!(
        cloned,
        OrderBookError::InsufficientLiquidity {
            side: Side::Sell,
            requested: 1000,
            available: 500
        }
    ));
}

#[test]
fn test_clone_insufficient_liquidity_notional() {
    let error = OrderBookError::InsufficientLiquidityNotional {
        side: Side::Buy,
        requested: 1_000_000,
        spent: 0,
    };
    let cloned = error.clone();
    assert!(matches!(
        cloned,
        OrderBookError::InsufficientLiquidityNotional {
            side: Side::Buy,
            requested: 1_000_000,
            spent: 0
        }
    ));
}

#[test]
fn test_display_insufficient_liquidity_notional() {
    let error = OrderBookError::InsufficientLiquidityNotional {
        side: Side::Sell,
        requested: 42,
        spent: 0,
    };
    let s = error.to_string();
    assert!(s.contains("Insufficient liquidity by notional"));
    assert!(s.contains("42"));
}

#[test]
fn test_clone_invalid_operation() {
    let error = OrderBookError::InvalidOperation {
        message: "Cannot cancel filled order".to_string(),
    };
    let cloned = error.clone();
    assert!(matches!(
        cloned,
        OrderBookError::InvalidOperation { ref message } if message == "Cannot cancel filled order"
    ));
}

#[test]
fn test_clone_serialization_error() {
    let error = OrderBookError::SerializationError {
        message: "Failed to serialize".to_string(),
    };
    let cloned = error.clone();
    assert!(matches!(
        cloned,
        OrderBookError::SerializationError { ref message } if message == "Failed to serialize"
    ));
}

#[test]
fn test_clone_checksum_mismatch() {
    let error = OrderBookError::ChecksumMismatch {
        expected: "abc123".to_string(),
        actual: "def456".to_string(),
    };
    let cloned = error.clone();
    assert!(matches!(
        cloned,
        OrderBookError::ChecksumMismatch { ref expected, ref actual }
        if expected == "abc123" && actual == "def456"
    ));
}

#[test]
fn test_clone_invalid_tick_size() {
    let error = OrderBookError::InvalidTickSize {
        price: 10050,
        tick_size: 100,
    };
    let cloned = error.clone();
    assert!(matches!(
        cloned,
        OrderBookError::InvalidTickSize {
            price: 10050,
            tick_size: 100
        }
    ));
}

#[test]
fn test_clone_invalid_lot_size() {
    let error = OrderBookError::InvalidLotSize {
        quantity: 75,
        lot_size: 10,
    };
    let cloned = error.clone();
    assert!(matches!(
        cloned,
        OrderBookError::InvalidLotSize {
            quantity: 75,
            lot_size: 10
        }
    ));
}

#[test]
fn test_clone_order_size_out_of_range() {
    let error = OrderBookError::OrderSizeOutOfRange {
        quantity: 5,
        min: Some(10),
        max: Some(1000),
    };
    let cloned = error.clone();
    assert!(matches!(
        cloned,
        OrderBookError::OrderSizeOutOfRange {
            quantity: 5,
            min: Some(10),
            max: Some(1000)
        }
    ));
}

#[test]
fn test_clone_missing_user_id() {
    let order_id = id_of(pricelevel::Id::new_uuid());
    let error = OrderBookError::MissingUserId { order_id };
    let cloned = error.clone();
    assert!(matches!(
        cloned,
        OrderBookError::MissingUserId { order_id: id } if id == order_id
    ));
}

#[test]
fn test_clone_self_trade_prevented() {
    let taker_id = id_of(pricelevel::Id::new_uuid());
    let user_id = Hash32::from([1u8; 32]);
    let error = OrderBookError::SelfTradePrevented {
        mode: STPMode::CancelMaker,
        taker_order_id: taker_id,
        user_id,
    };
    let cloned = error.clone();
    assert!(matches!(
        cloned,
        OrderBookError::SelfTradePrevented {
            mode: STPMode::CancelMaker,
            taker_order_id: id,
            user_id: uid
        } if id == taker_id && uid == user_id
    ));
}

#[test]
fn test_clone_price_level_error_parse_error() {
    let price_level_err = PriceLevelError::ParseError {
        message: "Parse failed".to_string(),
    };
    let error = OrderBookError::PriceLevelError(price_level_err);
    let cloned = error.clone();
    assert!(matches!(
        cloned,
        OrderBookError::PriceLevelError(PriceLevelError::ParseError { ref message })
        if message == "Parse failed"
    ));
}

#[test]
fn test_clone_price_level_error_invalid_format() {
    let price_level_err = PriceLevelError::InvalidFormat;
    let error = OrderBookError::PriceLevelError(price_level_err);
    let cloned = error.clone();
    assert!(matches!(
        cloned,
        OrderBookError::PriceLevelError(PriceLevelError::InvalidFormat)
    ));
}

#[test]
fn test_clone_price_level_error_unknown_order_type() {
    let price_level_err = PriceLevelError::UnknownOrderType("CUSTOM".to_string());
    let error = OrderBookError::PriceLevelError(price_level_err);
    let cloned = error.clone();
    assert!(matches!(
        cloned,
        OrderBookError::PriceLevelError(PriceLevelError::UnknownOrderType(ref s))
        if s == "CUSTOM"
    ));
}

#[test]
fn test_clone_price_level_error_checksum_mismatch() {
    let price_level_err = PriceLevelError::ChecksumMismatch {
        expected: "hash1".to_string(),
        actual: "hash2".to_string(),
    };
    let error = OrderBookError::PriceLevelError(price_level_err);
    let cloned = error.clone();
    assert!(matches!(
        cloned,
        OrderBookError::PriceLevelError(PriceLevelError::ChecksumMismatch {
            ref expected,
            ref actual
        }) if expected == "hash1" && actual == "hash2"
    ));
}

#[test]
fn test_display_price_level_error() {
    let err = OrderBookError::PriceLevelError(PriceLevelError::InvalidFormat);
    assert_eq!(err.to_string(), "Price level error: Invalid format");
}

#[test]
fn test_display_order_not_found() {
    let order_id = "e4968197-6137-47a4-ba79-690d8c552248";
    let err = OrderBookError::OrderNotFound(order_id.to_string());
    assert_eq!(err.to_string(), format!("Order not found: {}", order_id));
}

#[test]
fn test_display_invalid_price_level() {
    let price = 1000;
    let err = OrderBookError::InvalidPriceLevel(price);
    assert_eq!(err.to_string(), format!("Invalid price level: {}", price));
}

#[test]
fn test_display_price_crossing() {
    let err = OrderBookError::PriceCrossing {
        price: 1000,
        side: Side::Buy,
        opposite_price: 999,
    };
    assert_eq!(
        err.to_string(),
        "Price crossing: BUY 1000 would cross opposite at 999"
    );
}

#[test]
fn test_display_insufficient_liquidity() {
    let err = OrderBookError::InsufficientLiquidity {
        side: Side::Sell,
        requested: 100,
        available: 50,
    };
    assert_eq!(
        err.to_string(),
        "Insufficient liquidity for SELL order: requested 100, available 50"
    );
}

#[test]
fn test_display_invalid_operation() {
    let message = "Cannot update price to the same value";
    let err = OrderBookError::InvalidOperation {
        message: message.to_string(),
    };
    assert_eq!(err.to_string(), format!("Invalid operation: {}", message));
}

#[test]
fn test_from_price_level_error() {
    let price_level_error = PriceLevelError::InvalidFormat;
    let order_book_error: OrderBookError = price_level_error.into();

    match order_book_error {
        OrderBookError::PriceLevelError(err) => match err {
            PriceLevelError::InvalidFormat => (),
            _ => panic!("Expected PriceLevelError::InvalidFormat"),
        },
        _ => panic!("Expected OrderBookError::PriceLevelError"),
    }
}

#[test]
fn test_missing_field_conversion() {
    let field_name = "price";
    let price_level_error = PriceLevelError::MissingField(field_name.to_string());
    let order_book_error: OrderBookError = price_level_error.into();

    match order_book_error {
        OrderBookError::PriceLevelError(PriceLevelError::MissingField(field)) => {
            assert_eq!(field, field_name);
        }
        _ => panic!("Expected OrderBookError::PriceLevelError(PriceLevelError::MissingField)"),
    }
}

#[test]
fn test_invalid_field_value_conversion() {
    let price_level_error = PriceLevelError::InvalidFieldValue {
        field: "price".to_string(),
        value: "invalid".to_string(),
    };
    let order_book_error: OrderBookError = price_level_error.into();

    match order_book_error {
        OrderBookError::PriceLevelError(PriceLevelError::InvalidFieldValue {
            field,
            value,
        }) => {
            assert_eq!(field, "price");
            assert_eq!(value, "invalid");
        }
        _ => panic!(
            "Expected OrderBookError::PriceLevelError(PriceLevelError::InvalidFieldValue)"
        ),
    }
}

/// `ZeroVisibleTranche` names the order and the tranche that would be
/// stranded, and clones field-for-field.
#[test]
fn test_zero_visible_tranche_display_and_clone() {
    let order_id = id_of(pricelevel::Id::from_u64(77));
    let error = OrderBookError::ZeroVisibleTranche {
        order_id,
        hidden_quantity: 20,
    };

    let rendered = error.to_string();
    assert!(
        rendered.contains("zero visible tranche"),
        "names the rule: {rendered}"
    );
    assert!(
        rendered.contains("20"),
        "names the hidden tranche: {rendered}"
    );
    assert!(
        rendered.contains(&order_id.to_string()),
        "names the order: {rendered}"
    );

    match error.clone() {
        OrderBookError::ZeroVisibleTranche {
            order_id: cloned_id,
            hidden_quantity,
        } => {
            assert_eq!(cloned_id, order_id);
            assert_eq!(hidden_quantity, 20);
        }
        other => panic!("clone changed the variant: {other:?}"),
    }
    assert_eq!(
        error.clone().to_string(),
        rendered,
        "clone renders the same"
    );
}

/// `ReserveResidualWouldBeDiscarded` distinguishes the projected hidden
/// tranche from the quantity that would actually be destroyed.
#[test]
fn test_reserve_residual_would_be_discarded_display_and_clone() {
    let order_id = id_of(pricelevel::Id::from_u64(78));
    let error = OrderBookError::ReserveResidualWouldBeDiscarded {
        order_id,
        visible_quantity: 10,
        crossable_quantity: 15,
        hidden_quantity: 20,
        discarded_quantity: 15,
    };

    let rendered = error.to_string();
    assert!(
        rendered.contains("would cross 15 units"),
        "names the crossable depth: {rendered}"
    );
    assert!(
        rendered.contains("visible tranche of 10"),
        "names the visible tranche: {rendered}"
    );
    assert!(
        rendered.contains("discarding 15 of its 20 hidden units"),
        "separates destroyed from projected hidden: {rendered}"
    );

    match error.clone() {
        OrderBookError::ReserveResidualWouldBeDiscarded {
            order_id: cloned_id,
            visible_quantity,
            crossable_quantity,
            hidden_quantity,
            discarded_quantity,
        } => {
            assert_eq!(cloned_id, order_id);
            assert_eq!(
                (
                    visible_quantity,
                    crossable_quantity,
                    hidden_quantity,
                    discarded_quantity
                ),
                (10, 15, 20, 15)
            );
        }
        other => panic!("clone changed the variant: {other:?}"),
    }
    assert_eq!(
        error.clone().to_string(),
        rendered,
        "clone renders the same"
    );
}

/// Every error of the book with the message it gives.
fn errors_with_messages() -> Vec<(OrderBookError, String)> {
    let account = Hash32::new([0xab; 32]);
    let hex = "ab".repeat(32);
    let id = Id::Sequential(42);
    vec![
        (
            OrderBookError::PriceLevelError(PriceLevelError::MissingField("price".to_string())),
            "Price level error: Missing field: price".to_string(),
        ),
        (
            OrderBookError::OrderNotFound("x1".to_string()),
            "Order not found: x1".to_string(),
        ),
        (
            OrderBookError::InvalidPriceLevel(u128::MAX),
            "Invalid price level: 340282366920938463463374607431768211455".to_string(),
        ),
        (
            OrderBookError::PriceCrossing {
                price: 10,
                side: Side::Sell,
                opposite_price: 11,
            },
            "Price crossing: SELL 10 would cross opposite at 11".to_string(),
        ),
        (
            OrderBookError::InsufficientLiquidity {
                side: Side::Buy,
                requested: u64::MAX,
                available: 0,
            },
            "Insufficient liquidity for BUY order: requested 18446744073709551615, available 0"
                .to_string(),
        ),
        (
            OrderBookError::InsufficientLiquidityNotional {
                side: Side::Sell,
                requested: 42,
                spent: 0,
            },
            "Insufficient liquidity by notional for SELL order: requested 42, spent 0".to_string(),
        ),
        (
            OrderBookError::InvalidOperation {
                message: "no".to_string(),
            },
            "Invalid operation: no".to_string(),
        ),
        (
            OrderBookError::KillSwitchActive,
            "kill switch active: new order entry and modifications are halted".to_string(),
        ),
        (
            OrderBookError::SerializationError {
                message: "a".to_string(),
            },
            "Serialization error: a".to_string(),
        ),
        (
            OrderBookError::DeserializationError {
                message: "b".to_string(),
            },
            "Deserialization error: b".to_string(),
        ),
        (
            OrderBookError::ChecksumMismatch {
                expected: "c".to_string(),
                actual: "d".to_string(),
            },
            "Checksum mismatch: expected c, but computed d".to_string(),
        ),
        (
            OrderBookError::InvalidTickSize {
                price: 10050,
                tick_size: 100,
            },
            "invalid tick size: price 10050 is not a multiple of tick size 100".to_string(),
        ),
        (
            OrderBookError::InvalidLotSize {
                quantity: 75,
                lot_size: 10,
            },
            "invalid lot size: quantity 75 is not a multiple of lot size 10".to_string(),
        ),
        (
            OrderBookError::OrderSizeOutOfRange {
                quantity: 5,
                min: Some(10),
                max: None,
            },
            format!(
                "order size out of range: quantity 5, min {:?}, max {:?}",
                Some(10),
                None::<u64>
            ),
        ),
        (
            OrderBookError::DuplicateOrderId { order_id: id },
            "duplicate order id: order 42 is already resting on the book".to_string(),
        ),
        (
            OrderBookError::QuantityOverflow {
                visible: u64::MAX,
                hidden: 1,
            },
            "quantity overflow: visible 18446744073709551615 + hidden 1 exceeds u64".to_string(),
        ),
        (
            OrderBookError::MissingUserId { order_id: id },
            "missing user_id: order 42 rejected because STP is enabled and user_id is zero"
                .to_string(),
        ),
        (
            OrderBookError::SelfTradePrevented {
                mode: STPMode::CancelBoth,
                taker_order_id: id,
                user_id: account,
            },
            format!("self-trade prevented (CancelBoth): taker 42, user {}", hex),
        ),
        (
            OrderBookError::RiskMaxOpenOrders {
                account,
                current: 7,
                limit: 7,
            },
            format!("risk: account {} has 7 open orders (limit 7)", hex),
        ),
        (
            OrderBookError::RiskMaxNotional {
                account,
                current: 900,
                attempted: 200,
                limit: 1000,
            },
            format!(
                "risk: account {} notional 900 + attempted 200 would exceed limit 1000",
                hex
            ),
        ),
        (
            OrderBookError::ZeroVisibleTranche {
                order_id: id,
                hidden_quantity: 20,
            },
            "zero visible tranche: order 42 carries 20 hidden units behind an empty visible \
             tranche; a two-tranche order must display a positive visible quantity"
                .to_string(),
        ),
        (
            OrderBookError::ReserveResidualWouldBeDiscarded {
                order_id: id,
                visible_quantity: 10,
                crossable_quantity: 15,
                hidden_quantity: 20,
                discarded_quantity: 15,
            },
            "reserve residual would be discarded: re-adding order 42 would cross 15 units, \
             exhausting its visible tranche of 10 and discarding 15 of its 20 hidden units because \
             automatic replenishment is off; cancel and resubmit deliberately instead"
                .to_string(),
        ),
        (
            OrderBookError::RiskPriceBand {
                submitted: 120,
                reference: 100,
                deviation_bps: 2000,
                limit_bps: 500,
            },
            "risk: submitted price 120 deviates 2000 bps from reference 100 (limit 500 bps)"
                .to_string(),
        ),
        (
            OrderBookError::NatsPublishError {
                message: "e".to_string(),
            },
            "nats publish error: e".to_string(),
        ),
        (
            OrderBookError::NatsSerializationError {
                message: "f".to_string(),
            },
            "nats serialization error: f".to_string(),
        ),
    ]
}

#[test]
fn every_error_gives_its_message() {
    for (error, message) in errors_with_messages() {
        assert_eq!(error.to_string(), message);
    }
}

#[test]
fn every_error_clones_unchanged() {
    for (error, message) in errors_with_messages() {
        assert_eq!(error.clone().to_string(), message);
        assert_eq!(format!("{:?}", error.clone()), format!("{:?}", error));
    }
}

#[test]
fn discarded_quantity_lies_within_the_hidden_tranche() {
    for (error, _) in errors_with_messages() {
        if let OrderBookError::ReserveResidualWouldBeDiscarded {
            visible_quantity,
            crossable_quantity,
            hidden_quantity,
            discarded_quantity,
            ..
        } = error
        {
            assert_eq!(
                discarded_quantity,
                visible_quantity + hidden_quantity - crossable_quantity
            );
            assert!(0 < discarded_quantity && discarded_quantity <= hidden_quantity);
        }
    }
}

#[test]
fn price_level_errors_read_as_in_the_matching_engine() {
    let text = |s: &str| s.to_string();
    let pairs = vec![
        (
            PriceLevelError::ParseError { message: text("p") },
            pricelevel::PriceLevelError::ParseError { message: text("p") },
            "p",
        ),
        (
            PriceLevelError::InvalidFormat,
            pricelevel::PriceLevelError::InvalidFormat,
            "Invalid format",
        ),
        (
            PriceLevelError::UnknownOrderType(text("CUSTOM")),
            pricelevel::PriceLevelError::UnknownOrderType(text("CUSTOM")),
            "Unknown order type: CUSTOM",
        ),
        (
            PriceLevelError::MissingField(text("price")),
            pricelevel::PriceLevelError::MissingField(text("price")),
            "Missing field: price",
        ),
        (
            PriceLevelError::DuplicateOrderId(text("7")),
            pricelevel::PriceLevelError::DuplicateOrderId(text("7")),
            "Duplicate order id: 7",
        ),
        (
            PriceLevelError::InvalidFieldValue {
                field: text("price"),
                value: text("x"),
            },
            pricelevel::PriceLevelError::InvalidFieldValue {
                field: text("price"),
                value: text("x"),
            },
            "Invalid value for field price: x",
        ),
        (
            PriceLevelError::InvalidOperation { message: text("o") },
            pricelevel::PriceLevelError::InvalidOperation { message: text("o") },
            "Invalid operation: o",
        ),
        (
            PriceLevelError::SerializationError { message: text("s") },
            pricelevel::PriceLevelError::SerializationError { message: text("s") },
            "Serialization error: s",
        ),
        (
            PriceLevelError::DeserializationError { message: text("d") },
            pricelevel::PriceLevelError::DeserializationError { message: text("d") },
            "Deserialization error: d",
        ),
        (
            PriceLevelError::ChecksumMismatch {
                expected: text("hash1"),
                actual: text("hash2"),
            },
            pricelevel::PriceLevelError::ChecksumMismatch {
                expected: text("hash1"),
                actual: text("hash2"),
            },
            "Checksum mismatch: expected hash1, got hash2",
        ),
    ];
    for (error, raw, message) in pairs {
        assert_eq!(error.to_string(), message);
        assert_eq!(raw.to_string(), message);
        assert_eq!(error.clone().to_string(), message);
        assert_eq!(format!("{:?}", error), message);
        assert_eq!(format!("{:?}", raw), message);
        assert_eq!(format!("{:#60?}", error), format!("{:#60?}", raw));
    }
}

#[test]
fn errors_debug_with_their_variant_and_fields() {
    assert_eq!(
        format!(
            "{:?}",
            OrderBookError::PriceLevelError(PriceLevelError::MissingField("price".to_string()))
        ),
        "PriceLevelError(Missing field: price)"
    );
    assert_eq!(
        format!(
            "{:?}",
            OrderBookError::ZeroVisibleTranche {
                order_id: Id::Uuid(77 << 64),
                hidden_quantity: 20,
            }
        ),
        "ZeroVisibleTranche { order_id: Uuid(00000000-0000-004d-0000-000000000000), \
         hidden_quantity: 20 }"
    );
    let prevented = OrderBookError::SelfTradePrevented {
        mode: STPMode::CancelBoth,
        taker_order_id: Id::Sequential(3),
        user_id: Hash32::new([1u8; 32]),
    };
    assert_eq!(
        format!("{:?}", prevented),
        format!(
            "SelfTradePrevented {{ mode: CancelBoth, taker_order_id: Sequential(3), \
             user_id: {:?} }}",
            pricelevel::Hash32::new([1u8; 32])
        )
    );
}

#[test]
fn a_serializer_failure_keeps_its_message() {
    let error: OrderBookError = SerializationError {
        message: "key must be a string".to_string(),
    }
    .into();
    assert!(matches!(
        error,
        OrderBookError::SerializationError { ref message } if message == "key must be a string"
    ));
}

#[test]
fn manager_errors_give_their_message_and_clone_unchanged() {
    let started = ManagerError::ProcessorAlreadyStarted;
    assert_eq!(started.to_string(), "trade processor already started");
    assert!(matches!(
        started.clone(),
        ManagerError::ProcessorAlreadyStarted
    ));
    let exists = ManagerError::BookAlreadyExists {
        symbol: "BTC/USD".to_string(),
    };
    assert_eq!(
        exists.to_string(),
        "order book already exists for symbol: BTC/USD"
    );
    assert_eq!(exists.clone().to_string(), exists.to_string());
}
