//! Outbound-side rules: validation of an order request before it may reach
//! the transport, and the connection-status snapshot shape.

use vstd::prelude::*;

use crate::decimal::{dec_str, u64_to_dec};
use crate::order_message::{OrderRequest, OrderType};

verus! {

/// The largest quantity a single order may carry.
pub const MAX_ORDER_QUANTITY: u64 = 1000000;

/// The largest price a single order may carry.
pub const MAX_ORDER_PRICE: u64 = 1000000;

/// Why an order request was refused before any transport interaction.
#[derive(Debug, Clone, Copy, PartialEq, Eq, Structural)]
pub enum ValidationError {
    EmptyOrderId,
    EmptySymbol,
    NonPositiveQuantity,
    NonPositiveLimitPrice,
    EmptyUserId,
    QuantityAboveMax,
    PriceAboveMax,
}

/// The validation verdict on an order request: the first rule it breaks, in
/// the order the rules are checked, or success.
pub open spec fn validate_spec(o: OrderRequest) -> Result<(), ValidationError> {
    if o.order_id@.len() == 0 {
        Err(ValidationError::EmptyOrderId)
    } else if o.symbol@.len() == 0 {
        Err(ValidationError::EmptySymbol)
    } else if o.quantity == 0 {
        Err(ValidationError::NonPositiveQuantity)
    } else if o.order_type == OrderType::LIMIT && o.price == 0 {
        Err(ValidationError::NonPositiveLimitPrice)
    } else if o.user_id@.len() == 0 {
        Err(ValidationError::EmptyUserId)
    } else if o.quantity > MAX_ORDER_QUANTITY {
        Err(ValidationError::QuantityAboveMax)
    } else if o.price > MAX_ORDER_PRICE {
        Err(ValidationError::PriceAboveMax)
    } else {
        Ok(())
    }
}

/// Checks an order request against the trading rules. Pure and side-effect
/// free: no transport call happens here, and the order is unchanged. Success
/// comes exactly when every rule passes.
pub fn validate_order(order: &OrderRequest) -> (r: Result<(), ValidationError>)
    ensures
        r == validate_spec(*order),
        r is Ok <==> {
            &&& order.order_id@.len() > 0
            &&& order.symbol@.len() > 0
            &&& 0 < order.quantity <= MAX_ORDER_QUANTITY
            &&& (order.order_type == OrderType::LIMIT ==> order.price > 0)
            &&& order.price <= MAX_ORDER_PRICE
            &&& order.user_id@.len() > 0
        },
{
    if order.order_id.as_str().is_empty() {
        Err(ValidationError::EmptyOrderId)
    } else if order.symbol.as_str().is_empty() {
        Err(ValidationError::EmptySymbol)
    } else if order.quantity == 0 {
        Err(ValidationError::NonPositiveQuantity)
    } else if order.order_type == OrderType::LIMIT && order.price == 0 {
        Err(ValidationError::NonPositiveLimitPrice)
    } else if order.user_id.as_str().is_empty() {
        Err(ValidationError::EmptyUserId)
    } else if order.quantity > MAX_ORDER_QUANTITY {
        Err(ValidationError::QuantityAboveMax)
    } else if order.price > MAX_ORDER_PRICE {
        Err(ValidationError::PriceAboveMax)
    } else {
        Ok(())
    }
}

/// Point-in-time connectivity of the outbound client, derived from the
/// transport's peer counts without mutating anything.
#[derive(Debug)]
pub struct ConnectionStatus {
    pub is_connected: bool,
    pub subscriber_count: usize,
    pub domain_id: u16,
    pub topic_name: String,
}

/// The rendering used when a connection status is shown.
pub open spec fn connection_status_line(s: ConnectionStatus) -> Seq<char> {
    "Domain: "@ + dec_str(s.domain_id as nat) + ", Topic: "@ + s.topic_name@ + ", Connected: "@
        + bool_str_spec(s.is_connected) + ", Subscribers: "@ + dec_str(s.subscriber_count as nat)
}

pub open spec fn bool_str_spec(b: bool) -> Seq<char> {
    if b {
        "true"@
    } else {
        "false"@
    }
}

pub(crate) fn bool_str(b: bool) -> (r: &'static str)
    ensures
        r@ == bool_str_spec(b),
{
    if b {
        "true"
    } else {
        "false"
    }
}

impl ConnectionStatus {
    /// Builds a status snapshot from a peer count: connected exactly when at
    /// least one subscriber is matched.
    pub fn from_counts(subscriber_count: usize, domain_id: u16, topic_name: String) -> (r: Self)
        ensures
            r.is_connected == (subscriber_count > 0),
            r.subscriber_count == subscriber_count,
            r.domain_id == domain_id,
            r.topic_name == topic_name,
    {
        ConnectionStatus {
            is_connected: subscriber_count > 0,
            subscriber_count,
            domain_id,
            topic_name,
        }
    }

    /// One human-readable line describing this status.
    pub fn status_line(&self) -> (r: String)
        ensures
            r@ == connection_status_line(*self),
    {
        let mut line = "Domain: ".to_owned();
        line.append(u64_to_dec(self.domain_id as u64).as_str());
        line.append(", Topic: ");
        line.append(self.topic_name.as_str());
        line.append(", Connected: ");
        line.append(bool_str(self.is_connected));
        line.append(", Subscribers: ");
        line.append(u64_to_dec(self.subscriber_count as u64).as_str());
        line
    }
}

} // verus!
