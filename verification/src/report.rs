//! Inbound execution reporting: the event shapes received from the order
//! management service and matching engine, and the listener cores that track
//! order state from them.

pub mod execution_report;
pub mod execution_report_listener;
pub mod order_response_report;
pub mod order_response_report_listener;

pub use execution_report::ExecutionReport;
pub use execution_report_listener::{ExecutionReportConnectionStatus, ExecutionReportListener};
pub use order_response_report::OrderResponseReport;
pub use order_response_report_listener::{
    OrderResponseListener, OrderResponseReportConnectionStatus,
};
