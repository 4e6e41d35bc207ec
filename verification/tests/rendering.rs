use oms_rust_client::decimal::{i32_to_dec, i64_to_dec, u64_to_dec};
use oms_rust_client::dds_client::ConnectionStatus;
use oms_rust_client::events::Sample;
use oms_rust_client::report::execution_report_listener::ExecutionReportListener;
use oms_rust_client::report::order_response_report_listener::OrderResponseListener;
use oms_rust_client::report::{ExecutionReport, OrderResponseReport};
use oms_rust_client::{generate_unique_cl_ord_id, NewOrderSingle};

struct Quiet;

impl oms_rust_client::events::Observer<ExecutionReport> for Quiet {
    fn on_event(&self, _event: &ExecutionReport) {}
}

impl oms_rust_client::events::Observer<OrderResponseReport> for Quiet {
    fn on_event(&self, _event: &OrderResponseReport) {}
}

#[test]
fn decimal_rendering_matches_expected_values() {
    assert_eq!(u64_to_dec(0), "0");
    assert_eq!(u64_to_dec(7), "7");
    assert_eq!(u64_to_dec(10), "10");
    assert_eq!(u64_to_dec(50000), "50000");
    assert_eq!(u64_to_dec(u64::MAX), "18446744073709551615");
    assert_eq!(i64_to_dec(-1), "-1");
    assert_eq!(i64_to_dec(i64::MIN), "-9223372036854775808");
    assert_eq!(i32_to_dec(-250), "-250");
    assert_eq!(i32_to_dec(0), "0");
}

fn sample_report() -> ExecutionReport {
    let mut e = ExecutionReport::default();
    e.order_id = "OID-1".to_string();
    e.orig_cl_ord_id = "CLO-9".to_string();
    e.exec_id = "EX-5".to_string();
    e.exec_type = b'F';
    e.ord_status = b'2';
    e.symbol = "BTC-USD".to_string();
    e.side = b'1';
    e.order_qty = 10;
    e.ord_type = b'2';
    e.price = 50000;
    e.cum_qty = 10;
    e.avg_px = 50000;
    e.fix_header.sender_comp_id = "OMS".to_string();
    e.fix_header.msg_seq_num = 42;
    e.fix_header.sending_time = 1700000000;
    e.transact_time = 1700000001;
    e.text = "done".to_string();
    e
}

#[test]
fn status_words_follow_the_fix_codes() {
    let mut e = ExecutionReport::default();
    let cases = [
        (b'0', "Pending New"),
        (b'1', "Partially Filled"),
        (b'2', "Filled"),
        (b'4', "Cancelled"),
        (b'8', "Rejected"),
        (b'A', "Pending Cancel"),
        (b'C', "Expired"),
        (b'z', "Unknown"),
    ];
    for (code, word) in cases {
        e.ord_status = code;
        assert_eq!(e.get_execution_status(), word);
    }
    e.exec_type = b'I';
    assert_eq!(e.get_execution_type(), "Order Status");
    e.side = b'2';
    assert_eq!(e.get_order_side(), "Sell");
    e.ord_type = b'4';
    assert_eq!(e.get_order_type(), "Stop Limit");
    e.time_in_force = b'3';
    assert_eq!(e.get_time_in_force(), "Immediate Or Cancel");
    e.time_in_force = b'6';
    assert_eq!(e.get_time_in_force(), "Good Till Date");
}

#[test]
fn response_status_words_follow_the_fix_codes() {
    let mut listener: OrderResponseListener<Quiet> = OrderResponseListener::new();
    let mut e = OrderResponseReport {
        dats_source: String::new(),
        dats_destination: String::new(),
        dats_source_user: String::new(),
        dats_destination_user: String::new(),
        order_id: "OID-2".to_string(),
        orig_cl_ord_id: String::new(),
        exec_id: String::new(),
        exec_type: b'0',
        ord_status: b'0',
        ord_rej_reason: 0,
        symbol: "EURUSD".to_string(),
        security_exchange: String::new(),
        side: b'1',
        order_qty: 5,
        ord_type: b'1',
        price: 0,
        stop_px: 0,
        time_in_force: b'0',
        exec_inst: String::new(),
        last_qty: 0,
        last_px: 0,
        leaves_qty: 0,
        cum_qty: 0,
        avg_px: 0,
        transact_time: 0,
        text: String::new(),
    };
    assert!(e.is_order_accepted());
    assert_eq!(e.get_execution_status(), "Pending New");
    assert_eq!(e.get_order_type(), "Market");
    assert_eq!(e.get_time_in_force(), "Day");
    assert_eq!(e.get_remaining_qty(), 5);
    assert!(!e.has_fills());
    assert!(!e.is_terminal());
    e.exec_type = b'8';
    e.ord_status = b'8';
    assert!(e.is_order_rejected());
    assert!(e.is_terminal());
    listener.poll_once(vec![Sample::Value(e)]);
    assert_eq!(listener.get_all_order_statuses().len(), 1);
}

#[test]
fn execution_summary_renders_exactly() {
    let e = sample_report();
    assert_eq!(
        e.get_execution_summary(),
        "OrderID: OID-1, ExecID: EX-5, Status: Filled, Side: Buy, Symbol: BTC-USD, \
         Qty: 10/10, Price: 50000, AvgPx: 50000, Sender: OMS, SeqNum: 42"
    );
}

#[test]
fn response_execution_summary_renders_exactly() {
    let mut e = OrderResponseReport {
        dats_source: String::new(),
        dats_destination: String::new(),
        dats_source_user: String::new(),
        dats_destination_user: String::new(),
        order_id: "OID-3".to_string(),
        orig_cl_ord_id: String::new(),
        exec_id: String::new(),
        exec_type: b'F',
        ord_status: b'1',
        ord_rej_reason: 0,
        symbol: "ETH-USD".to_string(),
        security_exchange: String::new(),
        side: b'2',
        order_qty: 8,
        ord_type: b'2',
        price: 2500,
        stop_px: 0,
        time_in_force: b'0',
        exec_inst: String::new(),
        last_qty: 3,
        last_px: 2500,
        leaves_qty: 5,
        cum_qty: 3,
        avg_px: 2500,
        transact_time: 0,
        text: String::new(),
    };
    assert!(e.is_fill());
    assert_eq!(
        e.get_execution_summary(),
        "OrderID: OID-3, Status: Partially Filled, Side: Sell, Symbol: ETH-USD, \
         Qty: 3/8, Price: 2500, AvgPx: 2500"
    );
    e.ord_status = b'2';
    assert!(e.is_completely_filled());
}

#[test]
fn audit_trail_renders_exactly() {
    let e = sample_report();
    assert_eq!(
        e.get_audit_trail(),
        "EXECUTION_AUDIT: OrderID=OID-1, ExecID=EX-5, ExecType=Trade, OrdStatus=Filled, \
         Symbol=BTC-USD, Side=Buy, Qty=10, Price=50000, CumQty=10, AvgPx=50000, Source=, \
         Dest=, SenderComp=OMS, TargetComp=, SeqNum=42, SendingTime=1700000000, \
         TransactTime=1700000001, Text='done'"
    );
}

#[test]
fn listener_audit_line_renders_exactly() {
    let listener: ExecutionReportListener<Quiet> = ExecutionReportListener::new();
    let e = sample_report();
    assert_eq!(
        listener.log_execution_report(&e),
        "EXECUTION_REPORT_AUDIT: Topic='EXECUTION_REPORT_TOPIC', ExecID=EX-5, OrderID=OID-1, \
         OrigClOrdID=CLO-9, Symbol=BTC-USD, Side=49, Qty=10, Price=50000, ExecType=Trade, \
         OrdStatus=Filled, CumQty=10, AvgPx=50000, Text='done'"
    );
}

#[test]
fn header_getters_read_the_fix_header() {
    let e = sample_report();
    assert_eq!(e.get_sender_comp_id(), "OMS");
    assert_eq!(e.get_target_comp_id(), "");
    assert_eq!(e.get_msg_seq_num(), 42);
    assert_eq!(e.get_sending_time(), 1700000000);
}

#[test]
fn connection_status_line_renders_exactly() {
    let status = ConnectionStatus::from_counts(2, 0, "new_order_request".to_string());
    assert!(status.is_connected);
    assert_eq!(
        status.status_line(),
        "Domain: 0, Topic: new_order_request, Connected: true, Subscribers: 2"
    );
    let idle = ConnectionStatus::from_counts(0, 0, "new_order_request".to_string());
    assert!(!idle.is_connected);
    assert_eq!(
        idle.status_line(),
        "Domain: 0, Topic: new_order_request, Connected: false, Subscribers: 0"
    );
}

#[test]
fn listener_connection_status_derives_from_peer_count_and_cache() {
    let mut listener: ExecutionReportListener<Quiet> = ExecutionReportListener::new();
    let mut e = ExecutionReport::default();
    e.order_id = "OID-1".to_string();
    listener.update_order_cache(&e);
    let status = listener.get_connection_status(3);
    assert_eq!(status.domain_id, 0);
    assert_eq!(status.topic_name, "EXECUTION_REPORT_TOPIC");
    assert_eq!(status.schema_name, "DistributedATS_ExecutionReport::ExecutionReport");
    assert_eq!(status.publisher_count, 3);
    assert!(status.is_connected);
    assert_eq!(status.tracked_orders, 1);
    assert_eq!(
        status.status_line(),
        "ExecutionReport Listener Status | Domain: 0\nTopic: 'EXECUTION_REPORT_TOPIC' -> \
         'DistributedATS_ExecutionReport::ExecutionReport' - CONNECTED (3 publishers)\n\
         Tracked Orders: 1"
    );
    let offline = listener.get_connection_status(0);
    assert!(!offline.is_connected);
}

#[test]
fn response_listener_connection_status_renders() {
    let listener: OrderResponseListener<Quiet> = OrderResponseListener::new();
    let status = listener.get_connection_status(0);
    assert_eq!(status.topic_name, "order_response");
    assert_eq!(status.schema_name, "OMS::OrderResponseReport");
    assert!(!status.is_connected);
    assert_eq!(status.tracked_orders, 0);
    assert_eq!(
        status.status_line(),
        "Order Response Listener Status | Domain: 0\nTopic: 'order_response' -> \
         'OMS::OrderResponseReport' - DISCONNECTED (0 publishers)\nTracked Orders: 0"
    );
}

#[test]
fn new_order_single_constructors_fix_their_fields() {
    let market = NewOrderSingle::market_order(
        "CLO-1".to_string(),
        "BTC-USD".to_string(),
        "1",
        1000,
        "rust_trader_001".to_string(),
        7,
    );
    assert_eq!(market.cl_ord_id, "CLO-1");
    assert_eq!(market.symbol, "BTC-USD");
    assert_eq!(market.side, "1");
    assert_eq!(market.order_qty, 1000);
    assert_eq!(market.ord_type, "1");
    assert_eq!(market.price, 0);
    assert_eq!(market.time_in_force, "0");
    assert_eq!(market.dats_source, "RUST_CLIENT");
    assert_eq!(market.dats_destination, "DATA_SERVICE_A");
    assert_eq!(market.dats_source_user, "rust_trader_001");
    assert_eq!(market.security_exchange, "BTC_MARKET");
    assert_eq!(market.fix_header.msg_seq_num, 7);
    assert_eq!(market.fix_header.begin_string, "FIX.4.4");
    assert_eq!(market.fix_header.msg_type, "D");

    let limit = NewOrderSingle::limit_order(
        "CLO-2".to_string(),
        "ETH-USD".to_string(),
        "2",
        50,
        2500,
        "rust_trader_001".to_string(),
        8,
    );
    assert_eq!(limit.ord_type, "2");
    assert_eq!(limit.price, 2500);
    assert_eq!(limit.side, "2");
    assert_eq!(limit.fix_header.msg_seq_num, 8);
}

#[test]
fn transport_names_are_the_documented_constants() {
    assert_eq!(
        ExecutionReport::transport_type_name(),
        "DistributedATS_ExecutionReport::ExecutionReport"
    );
    assert_eq!(OrderResponseReport::transport_type_name(), "OMS::OrderResponseReport");
    assert_eq!(
        NewOrderSingle::transport_type_name(),
        "DistributedATS_NewOrderSingle::NewOrderSingle"
    );
}

#[test]
fn generated_cl_ord_ids_have_the_documented_shape() {
    let a = generate_unique_cl_ord_id();
    let b = generate_unique_cl_ord_id();
    assert!(a.starts_with("CLO_"));
    assert!(a.chars().count() >= 12);
    assert_ne!(a, b);
}
