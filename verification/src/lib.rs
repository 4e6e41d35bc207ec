//! Client-side core of an order-management trading system: it validates and
//! builds outbound order requests, and tracks order lifecycle state from
//! inbound execution events, keeping a dual-keyed status cache and dispatching
//! every accepted event to registered observers.

pub mod clock;
pub mod dds_client;
pub mod decimal;
pub mod events;
pub mod new_order_single;
pub mod order_message;
pub mod report;
pub mod status_cache;

pub use dds_client::{ConnectionStatus, ValidationError};
pub use new_order_single::{generate_unique_cl_ord_id, Header, NewOrderSingle};
pub use order_message::{generate_unique_order_id, OrderRequest, OrderSide, OrderType};
pub use report::OrderResponseReport;
