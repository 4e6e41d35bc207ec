use oms_rust_client::dds_client::{validate_order, ValidationError, MAX_ORDER_PRICE, MAX_ORDER_QUANTITY};
use oms_rust_client::{generate_unique_order_id, OrderRequest, OrderSide, OrderType};

fn base_order() -> OrderRequest {
    OrderRequest::new(
        "rust_client".to_string(),
        "ORD-1".to_string(),
        "BTC-USD".to_string(),
        OrderSide::BUY,
        OrderType::LIMIT,
        10,
        50000,
        "user001".to_string(),
    )
}

#[test]
fn valid_limit_order_passes_with_exact_fields() {
    let order = base_order();
    assert_eq!(order.client_id, "rust_client");
    assert_eq!(order.order_id, "ORD-1");
    assert_eq!(order.symbol, "BTC-USD");
    assert_eq!(order.side, OrderSide::BUY);
    assert_eq!(order.order_type, OrderType::LIMIT);
    assert_eq!(order.quantity, 10);
    assert_eq!(order.price, 50000);
    assert_eq!(order.stop_price, 0);
    assert_eq!(order.user_id, "user001");
    assert!(validate_order(&order).is_ok());
}

#[test]
fn valid_market_order_passes_without_price() {
    let order = OrderRequest::market_order(
        "rust_client".to_string(),
        "ORD-2".to_string(),
        "EURUSD".to_string(),
        OrderSide::SELL,
        500,
        "user001".to_string(),
    );
    assert_eq!(order.order_type, OrderType::MARKET);
    assert_eq!(order.price, 0);
    assert!(validate_order(&order).is_ok());
}

#[test]
fn limit_order_constructor_sets_limit_kind() {
    let order = OrderRequest::limit_order(
        "rust_client".to_string(),
        "ORD-3".to_string(),
        "ETH-USD".to_string(),
        OrderSide::BUY,
        3,
        2500,
        "user002".to_string(),
    );
    assert_eq!(order.order_type, OrderType::LIMIT);
    assert_eq!(order.price, 2500);
    assert!(validate_order(&order).is_ok());
}

#[test]
fn empty_order_id_is_rejected() {
    let mut order = base_order();
    order.order_id = String::new();
    assert_eq!(validate_order(&order), Err(ValidationError::EmptyOrderId));
}

#[test]
fn empty_symbol_is_rejected() {
    let mut order = base_order();
    order.symbol = String::new();
    assert_eq!(validate_order(&order), Err(ValidationError::EmptySymbol));
}

#[test]
fn zero_quantity_is_rejected() {
    let mut order = base_order();
    order.quantity = 0;
    assert_eq!(validate_order(&order), Err(ValidationError::NonPositiveQuantity));
}

#[test]
fn limit_order_with_zero_price_is_rejected() {
    let mut order = base_order();
    order.price = 0;
    assert_eq!(validate_order(&order), Err(ValidationError::NonPositiveLimitPrice));
}

#[test]
fn market_order_with_zero_price_is_accepted() {
    let mut order = base_order();
    order.order_type = OrderType::MARKET;
    order.price = 0;
    assert!(validate_order(&order).is_ok());
}

#[test]
fn empty_user_id_is_rejected() {
    let mut order = base_order();
    order.user_id = String::new();
    assert_eq!(validate_order(&order), Err(ValidationError::EmptyUserId));
}

#[test]
fn quantity_above_maximum_is_rejected() {
    let mut order = base_order();
    order.quantity = MAX_ORDER_QUANTITY + 1;
    assert_eq!(validate_order(&order), Err(ValidationError::QuantityAboveMax));
}

#[test]
fn quantity_at_maximum_is_accepted() {
    let mut order = base_order();
    order.quantity = MAX_ORDER_QUANTITY;
    assert!(validate_order(&order).is_ok());
}

#[test]
fn price_above_maximum_is_rejected() {
    let mut order = base_order();
    order.price = MAX_ORDER_PRICE + 1;
    assert_eq!(validate_order(&order), Err(ValidationError::PriceAboveMax));
}

#[test]
fn first_broken_rule_decides_the_error() {
    let mut order = base_order();
    order.symbol = String::new();
    order.quantity = 0;
    order.user_id = String::new();
    assert_eq!(validate_order(&order), Err(ValidationError::EmptySymbol));
}

#[test]
fn wire_codes_match_the_counterpart_service() {
    assert_eq!(OrderSide::BUY.code(), 1);
    assert_eq!(OrderSide::SELL.code(), 2);
    assert_eq!(OrderType::MARKET.code(), 1);
    assert_eq!(OrderType::LIMIT.code(), 2);
    assert_eq!(OrderType::STOP.code(), 3);
    assert_eq!(OrderType::STOP_LIMIT.code(), 4);
}

#[test]
fn generated_order_ids_have_the_documented_shape() {
    let a = generate_unique_order_id();
    let b = generate_unique_order_id();
    assert!(a.starts_with("ORD_"));
    assert!(b.starts_with("ORD_"));
    assert!(a.chars().count() >= 14);
    assert_ne!(a, b);
}
