//! The order response event: the order management service's report on an
//! order, a near-identical shape to the execution report but without the FIX
//! header.
//!
//! Prices are carried as whole units in unsigned integers; the transport edge
//! converts to its own wire representation.

use vstd::prelude::*;

use crate::decimal::{dec_str, dec_str_signed, i32_to_dec, u64_to_dec};
use crate::report::execution_report::{
    execution_status_str, execution_type_str, is_terminal_status, order_side_str, order_type_str,
    time_in_force_str,
};

verus! {

/// One inbound order response. Status fields use the FIX character codes,
/// carried as bytes; quantities are signed 32-bit counts and prices whole
/// units.
#[derive(Debug)]
pub struct OrderResponseReport {
    pub dats_source: String,
    pub dats_destination: String,
    pub dats_source_user: String,
    pub dats_destination_user: String,
    pub order_id: String,
    pub orig_cl_ord_id: String,
    pub exec_id: String,
    pub exec_type: u8,
    pub ord_status: u8,
    pub ord_rej_reason: i32,
    pub symbol: String,
    pub security_exchange: String,
    pub side: u8,
    pub order_qty: i32,
    pub ord_type: u8,
    pub price: u64,
    pub stop_px: u64,
    pub time_in_force: u8,
    pub exec_inst: String,
    pub last_qty: i32,
    pub last_px: u64,
    pub leaves_qty: i32,
    pub cum_qty: i32,
    pub avg_px: u64,
    pub transact_time: u64,
    pub text: String,
}

impl Clone for OrderResponseReport {
    fn clone(&self) -> (r: Self)
        ensures
            r == *self,
    {
        OrderResponseReport {
            dats_source: self.dats_source.clone(),
            dats_destination: self.dats_destination.clone(),
            dats_source_user: self.dats_source_user.clone(),
            dats_destination_user: self.dats_destination_user.clone(),
            order_id: self.order_id.clone(),
            orig_cl_ord_id: self.orig_cl_ord_id.clone(),
            exec_id: self.exec_id.clone(),
            exec_type: self.exec_type,
            ord_status: self.ord_status,
            ord_rej_reason: self.ord_rej_reason,
            symbol: self.symbol.clone(),
            security_exchange: self.security_exchange.clone(),
            side: self.side,
            order_qty: self.order_qty,
            ord_type: self.ord_type,
            price: self.price,
            stop_px: self.stop_px,
            time_in_force: self.time_in_force,
            exec_inst: self.exec_inst.clone(),
            last_qty: self.last_qty,
            last_px: self.last_px,
            leaves_qty: self.leaves_qty,
            cum_qty: self.cum_qty,
            avg_px: self.avg_px,
            transact_time: self.transact_time,
            text: self.text.clone(),
        }
    }
}

impl OrderResponseReport {
    /// The transport type name under which these responses travel.
    pub fn transport_type_name() -> (r: &'static str)
        ensures
            r@ == "OMS::OrderResponseReport"@,
    {
        "OMS::OrderResponseReport"
    }

    /// A newly accepted order: execution type New, status Pending New.
    pub fn is_order_accepted(&self) -> (r: bool)
        ensures
            r == (self.exec_type == 48 && self.ord_status == 48),
    {
        self.exec_type == 48 && self.ord_status == 48
    }

    /// A rejected order: execution type and status both Rejected.
    pub fn is_order_rejected(&self) -> (r: bool)
        ensures
            r == (self.exec_type == 56 && self.ord_status == 56),
    {
        self.exec_type == 56 && self.ord_status == 56
    }

    /// A trade execution that left the order partially or completely filled.
    pub fn is_fill(&self) -> (r: bool)
        ensures
            r == (self.exec_type == 70 && (self.ord_status == 49 || self.ord_status == 50)),
    {
        self.exec_type == 70 && (self.ord_status == 49 || self.ord_status == 50)
    }

    /// The order is completely filled.
    pub fn is_completely_filled(&self) -> (r: bool)
        ensures
            r == (self.ord_status == 50),
    {
        self.ord_status == 50
    }

    /// The order's lifecycle is over: filled, cancelled, rejected or expired.
    pub fn is_terminal(&self) -> (r: bool)
        ensures
            r == is_terminal_status(self.ord_status),
    {
        self.ord_status == 50 || self.ord_status == 52 || self.ord_status == 56
            || self.ord_status == 67
    }

    /// The order status as a human-readable word.
    pub fn get_execution_status(&self) -> (r: &'static str)
        ensures
            r@ == execution_status_str(self.ord_status),
    {
        if self.ord_status == 48 {
            "Pending New"
        } else if self.ord_status == 49 {
            "Partially Filled"
        } else if self.ord_status == 50 {
            "Filled"
        } else if self.ord_status == 52 {
            "Cancelled"
        } else if self.ord_status == 56 {
            "Rejected"
        } else if self.ord_status == 65 {
            "Pending Cancel"
        } else if self.ord_status == 67 {
            "Expired"
        } else {
            "Unknown"
        }
    }

    /// The execution type as a human-readable word.
    pub fn get_execution_type(&self) -> (r: &'static str)
        ensures
            r@ == execution_type_str(self.exec_type),
    {
        if self.exec_type == 48 {
            "New"
        } else if self.exec_type == 52 {
            "Cancelled"
        } else if self.exec_type == 56 {
            "Rejected"
        } else if self.exec_type == 70 {
            "Trade"
        } else if self.exec_type == 73 {
            "Order Status"
        } else {
            "Unknown"
        }
    }

    /// The order side as a human-readable word.
    pub fn get_order_side(&self) -> (r: &'static str)
        ensures
            r@ == order_side_str(self.side),
    {
        if self.side == 49 {
            "Buy"
        } else if self.side == 50 {
            "Sell"
        } else {
            "Unknown"
        }
    }

    /// The order type as a human-readable word.
    pub fn get_order_type(&self) -> (r: &'static str)
        ensures
            r@ == order_type_str(self.ord_type),
    {
        if self.ord_type == 49 {
            "Market"
        } else if self.ord_type == 50 {
            "Limit"
        } else if self.ord_type == 51 {
            "Stop"
        } else if self.ord_type == 52 {
            "Stop Limit"
        } else {
            "Unknown"
        }
    }

    /// The time-in-force as a human-readable word.
    pub fn get_time_in_force(&self) -> (r: &'static str)
        ensures
            r@ == time_in_force_str(self.time_in_force),
    {
        if self.time_in_force == 48 {
            "Day"
        } else if self.time_in_force == 49 {
            "Good Till Cancel"
        } else if self.time_in_force == 50 {
            "At The Opening"
        } else if self.time_in_force == 51 {
            "Immediate Or Cancel"
        } else if self.time_in_force == 52 {
            "Fill Or Kill"
        } else if self.time_in_force == 54 {
            "Good Till Date"
        } else {
            "Unknown"
        }
    }

    /// Quantity still open: ordered less cumulatively filled.
    pub fn get_remaining_qty(&self) -> (r: i32)
        requires
            i32::MIN <= self.order_qty - self.cum_qty <= i32::MAX,
        ensures
            r == self.order_qty - self.cum_qty,
    {
        self.order_qty - self.cum_qty
    }

    /// Whether any quantity has been filled yet.
    pub fn has_fills(&self) -> (r: bool)
        ensures
            r == (self.cum_qty > 0),
    {
        self.cum_qty > 0
    }

    /// The one-line execution summary used for monitoring.
    pub open spec fn execution_summary(self) -> Seq<char> {
        "OrderID: "@ + self.order_id@ + ", Status: "@ + execution_status_str(self.ord_status)
            + ", Side: "@ + order_side_str(self.side) + ", Symbol: "@ + self.symbol@ + ", Qty: "@
            + dec_str_signed(self.cum_qty as int) + "/"@ + dec_str_signed(self.order_qty as int)
            + ", Price: "@ + dec_str(self.price as nat) + ", AvgPx: "@ + dec_str(self.avg_px as nat)
    }

    /// Renders the execution summary.
    pub fn get_execution_summary(&self) -> (r: String)
        ensures
            r@ == self.execution_summary(),
    {
        let mut s = "OrderID: ".to_owned();
        s.append(self.order_id.as_str());
        s.append(", Status: ");
        s.append(self.get_execution_status());
        s.append(", Side: ");
        s.append(self.get_order_side());
        s.append(", Symbol: ");
        s.append(self.symbol.as_str());
        s.append(", Qty: ");
        s.append(i32_to_dec(self.cum_qty).as_str());
        s.append("/");
        s.append(i32_to_dec(self.order_qty).as_str());
        s.append(", Price: ");
        s.append(u64_to_dec(self.price).as_str());
        s.append(", AvgPx: ");
        s.append(u64_to_dec(self.avg_px).as_str());
        s
    }
}

} // verus!
