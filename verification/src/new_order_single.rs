//! The FIX-style NewOrderSingle submission sent straight to the matching
//! engine, with its message header, and the generation of unique client
//! correlation identifiers.
//!
//! Prices are carried as whole units in unsigned integers; the transport edge
//! converts to its own wire representation.

use vstd::prelude::*;

use crate::clock;
use crate::decimal::{i64_to_dec, lemma_dec_str_len};

verus! {

/// FIX-style header for outbound messages.
#[derive(Debug)]
pub struct Header {
    pub begin_string: String,
    pub body_length: i32,
    pub msg_type: String,
    pub sender_comp_id: String,
    pub target_comp_id: String,
    pub msg_seq_num: i32,
    pub sending_time: String,
    pub checksum: String,
}

impl Default for Header {
    /// The outbound header: FIX 4.4, a NewOrderSingle message type, this
    /// client as sender, stamped with the current time.
    fn default() -> (r: Self)
        ensures
            r.begin_string@ == "FIX.4.4"@,
            r.body_length == 0,
            r.msg_type@ == "D"@,
            r.sender_comp_id@ == "RUST_CLIENT"@,
            r.target_comp_id@ == "OMS"@,
            r.msg_seq_num == 1,
            r.checksum@ == "000"@,
    {
        Header {
            begin_string: "FIX.4.4".to_owned(),
            body_length: 0,
            msg_type: "D".to_owned(),
            sender_comp_id: "RUST_CLIENT".to_owned(),
            target_comp_id: "OMS".to_owned(),
            msg_seq_num: 1,
            sending_time: clock::sending_time_now(),
            checksum: "000".to_owned(),
        }
    }
}

/// An order submission in the matching engine's own shape. Side and order
/// type are carried as FIX character codes in strings; the price is in whole
/// units, zero for market orders.
#[derive(Debug)]
pub struct NewOrderSingle {
    pub dats_source: String,
    pub dats_destination: String,
    pub dats_source_user: String,
    pub dats_destination_user: String,
    pub security_exchange: String,
    pub fix_header: Header,
    pub cl_ord_id: String,
    pub symbol: String,
    pub side: String,
    pub order_qty: i32,
    pub ord_type: String,
    pub price: u64,
    pub time_in_force: String,
    pub transact_time: u64,
}

impl NewOrderSingle {
    /// The transport type name under which these submissions travel.
    pub fn transport_type_name() -> (r: &'static str)
        ensures
            r@ == "DistributedATS_NewOrderSingle::NewOrderSingle"@,
    {
        "DistributedATS_NewOrderSingle::NewOrderSingle"
    }

    /// A market order for the matching engine: order type code 1, no price.
    /// The caller supplies the header sequence number; timestamps come from
    /// the clock.
    pub fn market_order(
        cl_ord_id: String,
        symbol: String,
        side: &str,
        quantity: i32,
        source_user: String,
        seq_num: i32,
    ) -> (r: Self)
        ensures
            r.dats_source@ == "RUST_CLIENT"@,
            r.dats_destination@ == "DATA_SERVICE_A"@,
            r.dats_source_user == source_user,
            r.dats_destination_user@ == "DATA_SERVICE_A"@,
            r.security_exchange@ == "BTC_MARKET"@,
            r.fix_header.msg_seq_num == seq_num,
            r.fix_header.begin_string@ == "FIX.4.4"@,
            r.fix_header.msg_type@ == "D"@,
            r.cl_ord_id == cl_ord_id,
            r.symbol == symbol,
            r.side@ == side@,
            r.order_qty == quantity,
            r.ord_type@ == "1"@,
            r.price == 0,
            r.time_in_force@ == "0"@,
    {
        let mut header = Header::default();
        header.msg_seq_num = seq_num;
        header.sending_time = clock::sending_time_now();
        let ts = clock::now_millis();
        NewOrderSingle {
            dats_source: "RUST_CLIENT".to_owned(),
            dats_destination: "DATA_SERVICE_A".to_owned(),
            dats_source_user: source_user,
            dats_destination_user: "DATA_SERVICE_A".to_owned(),
            security_exchange: "BTC_MARKET".to_owned(),
            fix_header: header,
            cl_ord_id,
            symbol,
            side: side.to_owned(),
            order_qty: quantity,
            ord_type: "1".to_owned(),
            price: 0,
            time_in_force: "0".to_owned(),
            transact_time: if ts >= 0 {
                ts as u64
            } else {
                0
            },
        }
    }

    /// A limit order for the matching engine: order type code 2, at the given
    /// price. The caller supplies the header sequence number; timestamps come
    /// from the clock.
    pub fn limit_order(
        cl_ord_id: String,
        symbol: String,
        side: &str,
        quantity: i32,
        price: u64,
        source_user: String,
        seq_num: i32,
    ) -> (r: Self)
        ensures
            r.dats_source@ == "RUST_CLIENT"@,
            r.dats_destination@ == "DATA_SERVICE_A"@,
            r.dats_source_user == source_user,
            r.dats_destination_user@ == "DATA_SERVICE_A"@,
            r.security_exchange@ == "BTC_MARKET"@,
            r.fix_header.msg_seq_num == seq_num,
            r.fix_header.begin_string@ == "FIX.4.4"@,
            r.fix_header.msg_type@ == "D"@,
            r.cl_ord_id == cl_ord_id,
            r.symbol == symbol,
            r.side@ == side@,
            r.order_qty == quantity,
            r.ord_type@ == "2"@,
            r.price == price,
            r.time_in_force@ == "0"@,
    {
        let mut header = Header::default();
        header.msg_seq_num = seq_num;
        header.sending_time = clock::sending_time_now();
        let ts = clock::now_millis();
        NewOrderSingle {
            dats_source: "RUST_CLIENT".to_owned(),
            dats_destination: "DATA_SERVICE_A".to_owned(),
            dats_source_user: source_user,
            dats_destination_user: "DATA_SERVICE_A".to_owned(),
            security_exchange: "BTC_MARKET".to_owned(),
            fix_header: header,
            cl_ord_id,
            symbol,
            side: side.to_owned(),
            order_qty: quantity,
            ord_type: "2".to_owned(),
            price,
            time_in_force: "0".to_owned(),
            transact_time: if ts >= 0 {
                ts as u64
            } else {
                0
            },
        }
    }
}

/// A fresh client correlation identifier: the current time in microseconds
/// and a random suffix, behind a fixed prefix.
pub fn generate_unique_cl_ord_id() -> (r: String)
    ensures
        r@.len() >= 12,
        r@.subrange(0, 4) == "CLO_"@,
        exists|ts: int, suffix: Seq<char>|
            r@ == "CLO_"@ + crate::decimal::dec_str_signed(ts) + "_"@ + suffix && suffix.len()
                == 6,
{
    let timestamp = clock::now_micros();
    let suffix = crate::order_message::uuid_hyphenated();
    let mut id = "CLO_".to_owned();
    let digits = i64_to_dec(timestamp);
    id.append(digits.as_str());
    id.append("_");
    id.append(suffix.as_str().substring_ascii(0, 6));
    proof {
        reveal_strlit("CLO_");
        reveal_strlit("_");
        lemma_dec_str_len(if timestamp >= 0 {
            timestamp as nat
        } else {
            (-(timestamp as int)) as nat
        });
        assert(id@ == "CLO_"@ + crate::decimal::dec_str_signed(timestamp as int) + "_"@
            + suffix@.subrange(0, 6)) by {
            assert(id@ =~= "CLO_"@ + crate::decimal::dec_str_signed(timestamp as int) + "_"@
                + suffix@.subrange(0, 6));
        }
        assert(id@.subrange(0, 4) =~= "CLO_"@);
    }
    id
}

} // verus!
