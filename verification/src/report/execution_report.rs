//! The execution report event: the matching engine's word on an order's
//! lifecycle, with FIX-coded status fields and a routing header.
//!
//! Prices are carried as whole units in unsigned integers; the transport edge
//! converts to its own wire representation.

use vstd::prelude::*;

use crate::decimal::{dec_str, dec_str_signed, i32_to_dec, u64_to_dec};

verus! {

/// FIX-style message header carried on each execution report.
#[derive(Debug)]
pub struct Header {
    pub begin_string: String,
    pub body_length: i32,
    pub msg_type: String,
    pub sender_comp_id: String,
    pub target_comp_id: String,
    pub msg_seq_num: i32,
    pub sender_sub_id: String,
    pub target_sub_id: String,
    pub sending_time: u64,
}

impl Clone for Header {
    fn clone(&self) -> (r: Self)
        ensures
            r == *self,
    {
        Header {
            begin_string: self.begin_string.clone(),
            body_length: self.body_length,
            msg_type: self.msg_type.clone(),
            sender_comp_id: self.sender_comp_id.clone(),
            target_comp_id: self.target_comp_id.clone(),
            msg_seq_num: self.msg_seq_num,
            sender_sub_id: self.sender_sub_id.clone(),
            target_sub_id: self.target_sub_id.clone(),
            sending_time: self.sending_time,
        }
    }
}

impl Default for Header {
    /// An all-empty header: empty strings and zero counters.
    fn default() -> (r: Self)
        ensures
            r.begin_string@.len() == 0,
            r.body_length == 0,
            r.msg_type@.len() == 0,
            r.sender_comp_id@.len() == 0,
            r.target_comp_id@.len() == 0,
            r.msg_seq_num == 0,
            r.sender_sub_id@.len() == 0,
            r.target_sub_id@.len() == 0,
            r.sending_time == 0,
    {
        Header {
            begin_string: String::new(),
            body_length: 0,
            msg_type: String::new(),
            sender_comp_id: String::new(),
            target_comp_id: String::new(),
            msg_seq_num: 0,
            sender_sub_id: String::new(),
            target_sub_id: String::new(),
            sending_time: 0,
        }
    }
}

/// One inbound execution event. Status fields use the FIX character codes,
/// carried as bytes; quantities are signed 32-bit counts and prices whole
/// units.
#[derive(Debug)]
pub struct ExecutionReport {
    pub dats_source: String,
    pub dats_destination: String,
    pub dats_source_user: String,
    pub dats_destination_user: String,
    pub fix_header: Header,
    pub order_id: String,
    pub orig_cl_ord_id: String,
    pub exec_id: String,
    pub exec_type: u8,
    pub ord_status: u8,
    pub ord_rej_reason: i32,
    pub symbol: String,
    pub security_exchange: String,
    pub side: u8,
    pub order_qty: i32,
    pub ord_type: u8,
    pub price: u64,
    pub stop_px: u64,
    pub time_in_force: u8,
    pub exec_inst: String,
    pub last_qty: i32,
    pub last_px: u64,
    pub leaves_qty: i32,
    pub cum_qty: i32,
    pub avg_px: u64,
    pub transact_time: u64,
    pub text: String,
}

impl Clone for ExecutionReport {
    fn clone(&self) -> (r: Self)
        ensures
            r == *self,
    {
        ExecutionReport {
            dats_source: self.dats_source.clone(),
            dats_destination: self.dats_destination.clone(),
            dats_source_user: self.dats_source_user.clone(),
            dats_destination_user: self.dats_destination_user.clone(),
            fix_header: self.fix_header.clone(),
            order_id: self.order_id.clone(),
            orig_cl_ord_id: self.orig_cl_ord_id.clone(),
            exec_id: self.exec_id.clone(),
            exec_type: self.exec_type,
            ord_status: self.ord_status,
            ord_rej_reason: self.ord_rej_reason,
            symbol: self.symbol.clone(),
            security_exchange: self.security_exchange.clone(),
            side: self.side,
            order_qty: self.order_qty,
            ord_type: self.ord_type,
            price: self.price,
            stop_px: self.stop_px,
            time_in_force: self.time_in_force,
            exec_inst: self.exec_inst.clone(),
            last_qty: self.last_qty,
            last_px: self.last_px,
            leaves_qty: self.leaves_qty,
            cum_qty: self.cum_qty,
            avg_px: self.avg_px,
            transact_time: self.transact_time,
            text: self.text.clone(),
        }
    }
}

impl Default for ExecutionReport {
    /// An all-empty report: empty strings, zero codes and quantities.
    fn default() -> (r: Self)
        ensures
            r.dats_source@.len() == 0,
            r.dats_destination@.len() == 0,
            r.dats_source_user@.len() == 0,
            r.dats_destination_user@.len() == 0,
            r.fix_header.begin_string@.len() == 0,
            r.fix_header.body_length == 0,
            r.fix_header.msg_type@.len() == 0,
            r.fix_header.sender_comp_id@.len() == 0,
            r.fix_header.target_comp_id@.len() == 0,
            r.fix_header.msg_seq_num == 0,
            r.fix_header.sender_sub_id@.len() == 0,
            r.fix_header.target_sub_id@.len() == 0,
            r.fix_header.sending_time == 0,
            r.order_id@.len() == 0,
            r.orig_cl_ord_id@.len() == 0,
            r.exec_id@.len() == 0,
            r.exec_type == 0,
            r.ord_status == 0,
            r.ord_rej_reason == 0,
            r.symbol@.len() == 0,
            r.security_exchange@.len() == 0,
            r.side == 0,
            r.order_qty == 0,
            r.ord_type == 0,
            r.price == 0,
            r.stop_px == 0,
            r.time_in_force == 0,
            r.exec_inst@.len() == 0,
            r.last_qty == 0,
            r.last_px == 0,
            r.leaves_qty == 0,
            r.cum_qty == 0,
            r.avg_px == 0,
            r.transact_time == 0,
            r.text@.len() == 0,
    {
        ExecutionReport {
            dats_source: String::new(),
            dats_destination: String::new(),
            dats_source_user: String::new(),
            dats_destination_user: String::new(),
            fix_header: Header::default(),
            order_id: String::new(),
            orig_cl_ord_id: String::new(),
            exec_id: String::new(),
            exec_type: 0,
            ord_status: 0,
            ord_rej_reason: 0,
            symbol: String::new(),
            security_exchange: String::new(),
            side: 0,
            order_qty: 0,
            ord_type: 0,
            price: 0,
            stop_px: 0,
            time_in_force: 0,
            exec_inst: String::new(),
            last_qty: 0,
            last_px: 0,
            leaves_qty: 0,
            cum_qty: 0,
            avg_px: 0,
            transact_time: 0,
            text: String::new(),
        }
    }
}

/// The human-readable name of a FIX order-status code.
pub open spec fn execution_status_str(code: u8) -> Seq<char> {
    if code == 48 {
        "Pending New"@
    } else if code == 49 {
        "Partially Filled"@
    } else if code == 50 {
        "Filled"@
    } else if code == 52 {
        "Cancelled"@
    } else if code == 56 {
        "Rejected"@
    } else if code == 65 {
        "Pending Cancel"@
    } else if code == 67 {
        "Expired"@
    } else {
        "Unknown"@
    }
}

/// The human-readable name of a FIX execution-type code.
pub open spec fn execution_type_str(code: u8) -> Seq<char> {
    if code == 48 {
        "New"@
    } else if code == 52 {
        "Cancelled"@
    } else if code == 56 {
        "Rejected"@
    } else if code == 70 {
        "Trade"@
    } else if code == 73 {
        "Order Status"@
    } else {
        "Unknown"@
    }
}

/// The human-readable name of a FIX side code.
pub open spec fn order_side_str(code: u8) -> Seq<char> {
    if code == 49 {
        "Buy"@
    } else if code == 50 {
        "Sell"@
    } else {
        "Unknown"@
    }
}

/// The human-readable name of a FIX order-type code.
pub open spec fn order_type_str(code: u8) -> Seq<char> {
    if code == 49 {
        "Market"@
    } else if code == 50 {
        "Limit"@
    } else if code == 51 {
        "Stop"@
    } else if code == 52 {
        "Stop Limit"@
    } else {
        "Unknown"@
    }
}

/// The human-readable name of a FIX time-in-force code.
pub open spec fn time_in_force_str(code: u8) -> Seq<char> {
    if code == 48 {
        "Day"@
    } else if code == 49 {
        "Good Till Cancel"@
    } else if code == 50 {
        "At The Opening"@
    } else if code == 51 {
        "Immediate Or Cancel"@
    } else if code == 52 {
        "Fill Or Kill"@
    } else if code == 54 {
        "Good Till Date"@
    } else {
        "Unknown"@
    }
}

/// A terminal status: the order's lifecycle is over.
pub open spec fn is_terminal_status(code: u8) -> bool {
    code == 50 || code == 52 || code == 56 || code == 67
}

impl ExecutionReport {
    /// The transport type name under which these reports travel.
    pub fn transport_type_name() -> (r: &'static str)
        ensures
            r@ == "DistributedATS_ExecutionReport::ExecutionReport"@,
    {
        "DistributedATS_ExecutionReport::ExecutionReport"
    }

    /// A newly accepted order: execution type New, status Pending New.
    pub fn is_order_accepted(&self) -> (r: bool)
        ensures
            r == (self.exec_type == 48 && self.ord_status == 48),
    {
        self.exec_type == 48 && self.ord_status == 48
    }

    /// A rejected order: execution type and status both Rejected.
    pub fn is_order_rejected(&self) -> (r: bool)
        ensures
            r == (self.exec_type == 56 && self.ord_status == 56),
    {
        self.exec_type == 56 && self.ord_status == 56
    }

    /// A trade execution that left the order partially or completely filled.
    pub fn is_fill(&self) -> (r: bool)
        ensures
            r == (self.exec_type == 70 && (self.ord_status == 49 || self.ord_status == 50)),
    {
        self.exec_type == 70 && (self.ord_status == 49 || self.ord_status == 50)
    }

    /// The order is completely filled.
    pub fn is_completely_filled(&self) -> (r: bool)
        ensures
            r == (self.ord_status == 50),
    {
        self.ord_status == 50
    }

    /// The order's lifecycle is over: filled, cancelled, rejected or expired.
    pub fn is_terminal(&self) -> (r: bool)
        ensures
            r == is_terminal_status(self.ord_status),
    {
        self.ord_status == 50 || self.ord_status == 52 || self.ord_status == 56
            || self.ord_status == 67
    }

    /// The order status as a human-readable word.
    pub fn get_execution_status(&self) -> (r: &'static str)
        ensures
            r@ == execution_status_str(self.ord_status),
    {
        if self.ord_status == 48 {
            "Pending New"
        } else if self.ord_status == 49 {
            "Partially Filled"
        } else if self.ord_status == 50 {
            "Filled"
        } else if self.ord_status == 52 {
            "Cancelled"
        } else if self.ord_status == 56 {
            "Rejected"
        } else if self.ord_status == 65 {
            "Pending Cancel"
        } else if self.ord_status == 67 {
            "Expired"
        } else {
            "Unknown"
        }
    }

    /// The execution type as a human-readable word.
    pub fn get_execution_type(&self) -> (r: &'static str)
        ensures
            r@ == execution_type_str(self.exec_type),
    {
        if self.exec_type == 48 {
            "New"
        } else if self.exec_type == 52 {
            "Cancelled"
        } else if self.exec_type == 56 {
            "Rejected"
        } else if self.exec_type == 70 {
            "Trade"
        } else if self.exec_type == 73 {
            "Order Status"
        } else {
            "Unknown"
        }
    }

    /// The order side as a human-readable word.
    pub fn get_order_side(&self) -> (r: &'static str)
        ensures
            r@ == order_side_str(self.side),
    {
        if self.side == 49 {
            "Buy"
        } else if self.side == 50 {
            "Sell"
        } else {
            "Unknown"
        }
    }

    /// The order type as a human-readable word.
    pub fn get_order_type(&self) -> (r: &'static str)
        ensures
            r@ == order_type_str(self.ord_type),
    {
        if self.ord_type == 49 {
            "Market"
        } else if self.ord_type == 50 {
            "Limit"
        } else if self.ord_type == 51 {
            "Stop"
        } else if self.ord_type == 52 {
            "Stop Limit"
        } else {
            "Unknown"
        }
    }

    /// The time-in-force as a human-readable word.
    pub fn get_time_in_force(&self) -> (r: &'static str)
        ensures
            r@ == time_in_force_str(self.time_in_force),
    {
        if self.time_in_force == 48 {
            "Day"
        } else if self.time_in_force == 49 {
            "Good Till Cancel"
        } else if self.time_in_force == 50 {
            "At The Opening"
        } else if self.time_in_force == 51 {
            "Immediate Or Cancel"
        } else if self.time_in_force == 52 {
            "Fill Or Kill"
        } else if self.time_in_force == 54 {
            "Good Till Date"
        } else {
            "Unknown"
        }
    }

    /// Who sent this report, from the FIX header.
    pub fn get_sender_comp_id(&self) -> (r: &str)
        ensures
            r@ == self.fix_header.sender_comp_id@,
    {
        self.fix_header.sender_comp_id.as_str()
    }

    /// Whom this report was addressed to, from the FIX header.
    pub fn get_target_comp_id(&self) -> (r: &str)
        ensures
            r@ == self.fix_header.target_comp_id@,
    {
        self.fix_header.target_comp_id.as_str()
    }

    /// The header's message sequence number.
    pub fn get_msg_seq_num(&self) -> (r: i32)
        ensures
            r == self.fix_header.msg_seq_num,
    {
        self.fix_header.msg_seq_num
    }

    /// The header's sending time.
    pub fn get_sending_time(&self) -> (r: u64)
        ensures
            r == self.fix_header.sending_time,
    {
        self.fix_header.sending_time
    }

    /// Quantity still open: ordered less cumulatively filled.
    pub fn get_remaining_qty(&self) -> (r: i32)
        requires
            i32::MIN <= self.order_qty - self.cum_qty <= i32::MAX,
        ensures
            r == self.order_qty - self.cum_qty,
    {
        self.order_qty - self.cum_qty
    }

    /// Whether any quantity has been filled yet.
    pub fn has_fills(&self) -> (r: bool)
        ensures
            r == (self.cum_qty > 0),
    {
        self.cum_qty > 0
    }

    /// The one-line execution summary used for monitoring.
    pub open spec fn execution_summary(self) -> Seq<char> {
        "OrderID: "@ + self.order_id@ + ", ExecID: "@ + self.exec_id@ + ", Status: "@
            + execution_status_str(self.ord_status) + ", Side: "@ + order_side_str(self.side)
            + ", Symbol: "@ + self.symbol@ + ", Qty: "@ + dec_str_signed(self.cum_qty as int)
            + "/"@ + dec_str_signed(self.order_qty as int) + ", Price: "@ + dec_str(
            self.price as nat,
        ) + ", AvgPx: "@ + dec_str(self.avg_px as nat) + ", Sender: "@
            + self.fix_header.sender_comp_id@ + ", SeqNum: "@ + dec_str_signed(
            self.fix_header.msg_seq_num as int,
        )
    }

    /// Renders the execution summary.
    pub fn get_execution_summary(&self) -> (r: String)
        ensures
            r@ == self.execution_summary(),
    {
        let mut s = "OrderID: ".to_owned();
        s.append(self.order_id.as_str());
        s.append(", ExecID: ");
        s.append(self.exec_id.as_str());
        s.append(", Status: ");
        s.append(self.get_execution_status());
        s.append(", Side: ");
        s.append(self.get_order_side());
        s.append(", Symbol: ");
        s.append(self.symbol.as_str());
        s.append(", Qty: ");
        s.append(i32_to_dec(self.cum_qty).as_str());
        s.append("/");
        s.append(i32_to_dec(self.order_qty).as_str());
        s.append(", Price: ");
        s.append(u64_to_dec(self.price).as_str());
        s.append(", AvgPx: ");
        s.append(u64_to_dec(self.avg_px).as_str());
        s.append(", Sender: ");
        s.append(self.fix_header.sender_comp_id.as_str());
        s.append(", SeqNum: ");
        s.append(i32_to_dec(self.fix_header.msg_seq_num).as_str());
        s
    }

    /// The full audit line recorded for each processed report.
    pub open spec fn audit_trail(self) -> Seq<char> {
        "EXECUTION_AUDIT: OrderID="@ + self.order_id@ + ", ExecID="@ + self.exec_id@
            + ", ExecType="@ + execution_type_str(self.exec_type) + ", OrdStatus="@
            + execution_status_str(self.ord_status) + ", Symbol="@ + self.symbol@ + ", Side="@
            + order_side_str(self.side) + ", Qty="@ + dec_str_signed(self.order_qty as int)
            + ", Price="@ + dec_str(self.price as nat) + ", CumQty="@ + dec_str_signed(
            self.cum_qty as int,
        ) + ", AvgPx="@ + dec_str(self.avg_px as nat) + ", Source="@ + self.dats_source@
            + ", Dest="@ + self.dats_destination@ + ", SenderComp="@
            + self.fix_header.sender_comp_id@ + ", TargetComp="@ + self.fix_header.target_comp_id@
            + ", SeqNum="@ + dec_str_signed(self.fix_header.msg_seq_num as int) + ", SendingTime="@
            + dec_str(self.fix_header.sending_time as nat) + ", TransactTime="@ + dec_str(
            self.transact_time as nat,
        ) + ", Text='"@ + self.text@ + "'"@
    }

    /// Renders the audit line.
    pub fn get_audit_trail(&self) -> (r: String)
        ensures
            r@ == self.audit_trail(),
    {
        let mut s = "EXECUTION_AUDIT: OrderID=".to_owned();
        s.append(self.order_id.as_str());
        s.append(", ExecID=");
        s.append(self.exec_id.as_str());
        s.append(", ExecType=");
        s.append(self.get_execution_type());
        s.append(", OrdStatus=");
        s.append(self.get_execution_status());
        s.append(", Symbol=");
        s.append(self.symbol.as_str());
        s.append(", Side=");
        s.append(self.get_order_side());
        s.append(", Qty=");
        s.append(i32_to_dec(self.order_qty).as_str());
        s.append(", Price=");
        s.append(u64_to_dec(self.price).as_str());
        s.append(", CumQty=");
        s.append(i32_to_dec(self.cum_qty).as_str());
        s.append(", AvgPx=");
        s.append(u64_to_dec(self.avg_px).as_str());
        s.append(", Source=");
        s.append(self.dats_source.as_str());
        s.append(", Dest=");
        s.append(self.dats_destination.as_str());
        s.append(", SenderComp=");
        s.append(self.fix_header.sender_comp_id.as_str());
        s.append(", TargetComp=");
        s.append(self.fix_header.target_comp_id.as_str());
        s.append(", SeqNum=");
        s.append(i32_to_dec(self.fix_header.msg_seq_num).as_str());
        s.append(", SendingTime=");
        s.append(u64_to_dec(self.fix_header.sending_time).as_str());
        s.append(", TransactTime=");
        s.append(u64_to_dec(self.transact_time).as_str());
        s.append(", Text='");
        s.append(self.text.as_str());
        s.append("'");
        s
    }
}

} // verus!
