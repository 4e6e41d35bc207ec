//! Outbound order requests: the data shape sent to the order-management
//! service, and the generation of unique client-side order identifiers.
//!
//! Quantities and prices are carried as whole units in unsigned integers;
//! the transport edge converts to its own wire representation.

use vstd::prelude::*;

use crate::clock;
use crate::decimal::{dec_str_signed, i64_to_dec, lemma_dec_str_len};

verus! {

/// Which side of the book an order takes.
#[derive(Debug, Clone, Copy, PartialEq, Eq, Structural)]
pub enum OrderSide {
    BUY,
    SELL,
}

/// How an order is to be executed.
#[derive(Debug, Clone, Copy, PartialEq, Eq, Structural)]
pub enum OrderType {
    MARKET,
    LIMIT,
    STOP,
    STOP_LIMIT,
}

impl OrderSide {
    /// The numeric code used on the wire for this side.
    pub fn code(&self) -> (c: u32)
        ensures
            c == self.code_spec(),
    {
        match self {
            OrderSide::BUY => 1,
            OrderSide::SELL => 2,
        }
    }

    pub open spec fn code_spec(&self) -> u32 {
        match self {
            OrderSide::BUY => 1,
            OrderSide::SELL => 2,
        }
    }
}

impl OrderType {
    /// The numeric code used on the wire for this order type.
    pub fn code(&self) -> (c: u32)
        ensures
            c == self.code_spec(),
    {
        match self {
            OrderType::MARKET => 1,
            OrderType::LIMIT => 2,
            OrderType::STOP => 3,
            OrderType::STOP_LIMIT => 4,
        }
    }

    pub open spec fn code_spec(&self) -> u32 {
        match self {
            OrderType::MARKET => 1,
            OrderType::LIMIT => 2,
            OrderType::STOP => 3,
            OrderType::STOP_LIMIT => 4,
        }
    }
}

/// An outbound order submission. Immutable once constructed; a fresh value is
/// built per submission. Quantity and price are in whole units.
#[derive(Debug, Clone)]
pub struct OrderRequest {
    pub client_id: String,
    pub order_id: String,
    pub symbol: String,
    pub side: OrderSide,
    pub order_type: OrderType,
    pub quantity: u64,
    pub price: u64,
    pub stop_price: u64,
    pub timestamp: i64,
    pub user_id: String,
}

impl OrderRequest {
    /// Builds an order request, stamping it with the current time. Every
    /// field but the timestamp is fixed by the arguments.
    pub fn new(
        client_id: String,
        order_id: String,
        symbol: String,
        side: OrderSide,
        order_type: OrderType,
        quantity: u64,
        price: u64,
        user_id: String,
    ) -> (r: Self)
        ensures
            r.client_id == client_id,
            r.order_id == order_id,
            r.symbol == symbol,
            r.side == side,
            r.order_type == order_type,
            r.quantity == quantity,
            r.price == price,
            r.stop_price == 0,
            r.user_id == user_id,
    {
        OrderRequest {
            client_id,
            order_id,
            symbol,
            side,
            order_type,
            quantity,
            price,
            stop_price: 0,
            timestamp: clock::now_millis(),
            user_id,
        }
    }

    /// A market order: no price is required and it is carried as zero.
    pub fn market_order(
        client_id: String,
        order_id: String,
        symbol: String,
        side: OrderSide,
        quantity: u64,
        user_id: String,
    ) -> (r: Self)
        ensures
            r.client_id == client_id,
            r.order_id == order_id,
            r.symbol == symbol,
            r.side == side,
            r.order_type == OrderType::MARKET,
            r.quantity == quantity,
            r.price == 0,
            r.stop_price == 0,
            r.user_id == user_id,
    {
        Self::new(client_id, order_id, symbol, side, OrderType::MARKET, quantity, 0, user_id)
    }

    /// A limit order at the given price.
    pub fn limit_order(
        client_id: String,
        order_id: String,
        symbol: String,
        side: OrderSide,
        quantity: u64,
        price: u64,
        user_id: String,
    ) -> (r: Self)
        ensures
            r.client_id == client_id,
            r.order_id == order_id,
            r.symbol == symbol,
            r.side == side,
            r.order_type == OrderType::LIMIT,
            r.quantity == quantity,
            r.price == price,
            r.stop_price == 0,
            r.user_id == user_id,
    {
        Self::new(client_id, order_id, symbol, side, OrderType::LIMIT, quantity, price, user_id)
    }
}

/// Relies on uuid's `Uuid::new_v4` and its display form: a random version-4
/// identifier rendered hyphenated, which is 36 ASCII characters. The value is
/// random, so nothing else is assumed of it.
#[verifier::external_body]
pub(crate) fn uuid_hyphenated() -> (r: String)
    ensures
        r@.len() == 36,
        r.is_ascii(),
{
    uuid::Uuid::new_v4().to_string()
}

/// A fresh client-side order identifier: the current time in microseconds and
/// a random suffix, behind a fixed prefix. Distinct calls collide only if the
/// random suffixes do at the same microsecond.
pub fn generate_unique_order_id() -> (r: String)
    ensures
        r@.len() >= 14,
        r@.subrange(0, 4) == "ORD_"@,
        exists|ts: int, suffix: Seq<char>|
            r@ == "ORD_"@ + dec_str_signed(ts) + "_"@ + suffix && suffix.len() == 8,
{
    let timestamp = clock::now_micros();
    let suffix = uuid_hyphenated();
    let mut id = "ORD_".to_owned();
    let digits = i64_to_dec(timestamp);
    id.append(digits.as_str());
    id.append("_");
    id.append(suffix.as_str().substring_ascii(0, 8));
    proof {
        reveal_strlit("ORD_");
        reveal_strlit("_");
        lemma_dec_str_len(if timestamp >= 0 {
            timestamp as nat
        } else {
            (-(timestamp as int)) as nat
        });
        assert(id@ == "ORD_"@ + dec_str_signed(timestamp as int) + "_"@ + suffix@.subrange(0, 8))
            by {
            assert(id@ =~= "ORD_"@ + dec_str_signed(timestamp as int) + "_"@ + suffix@.subrange(
                0,
                8,
            ));
        }
        assert(id@.subrange(0, 4) =~= "ORD_"@);
    }
    id
}

} // verus!
