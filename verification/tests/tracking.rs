use std::cell::RefCell;
use std::rc::Rc;

use oms_rust_client::dds_client::validate_order;
use oms_rust_client::events::{Observer, Sample};
use oms_rust_client::report::execution_report_listener::ExecutionReportListener;
use oms_rust_client::report::order_response_report_listener::OrderResponseListener;
use oms_rust_client::report::{ExecutionReport, OrderResponseReport};
use oms_rust_client::{OrderRequest, OrderSide, OrderType};

/// An observer that appends its own index and the event's exchange order
/// identifier to a shared log on every invocation.
struct Recorder {
    idx: usize,
    log: Rc<RefCell<Vec<(usize, String)>>>,
}

impl Observer<ExecutionReport> for Recorder {
    fn on_event(&self, event: &ExecutionReport) {
        self.log.borrow_mut().push((self.idx, event.order_id.clone()));
    }
}

impl Observer<OrderResponseReport> for Recorder {
    fn on_event(&self, event: &OrderResponseReport) {
        self.log.borrow_mut().push((self.idx, event.order_id.clone()));
    }
}

fn event(order_id: &str, cl_ord_id: &str) -> ExecutionReport {
    let mut e = ExecutionReport::default();
    e.order_id = order_id.to_string();
    e.orig_cl_ord_id = cl_ord_id.to_string();
    e
}

fn response(order_id: &str, cl_ord_id: &str) -> OrderResponseReport {
    OrderResponseReport {
        dats_source: String::new(),
        dats_destination: String::new(),
        dats_source_user: String::new(),
        dats_destination_user: String::new(),
        order_id: order_id.to_string(),
        orig_cl_ord_id: cl_ord_id.to_string(),
        exec_id: String::new(),
        exec_type: 0,
        ord_status: 0,
        ord_rej_reason: 0,
        symbol: String::new(),
        security_exchange: String::new(),
        side: 0,
        order_qty: 0,
        ord_type: 0,
        price: 0,
        stop_px: 0,
        time_in_force: 0,
        exec_inst: String::new(),
        last_qty: 0,
        last_px: 0,
        leaves_qty: 0,
        cum_qty: 0,
        avg_px: 0,
        transact_time: 0,
        text: String::new(),
    }
}

#[test]
fn get_all_twice_with_no_events_yields_equal_snapshots() {
    let mut listener: ExecutionReportListener<Recorder> = ExecutionReportListener::new();
    listener.update_order_cache(&event("OID-1", "CLO-1"));
    listener.update_order_cache(&event("OID-2", ""));
    let first = listener.get_all_order_statuses();
    let second = listener.get_all_order_statuses();
    assert_eq!(first.len(), second.len());
    for (a, b) in first.iter().zip(second.iter()) {
        assert_eq!(a.0, b.0);
        assert_eq!(a.1.order_id, b.1.order_id);
        assert_eq!(a.1.orig_cl_ord_id, b.1.orig_cl_ord_id);
    }
}

#[test]
fn cache_returns_last_event_per_identifier_and_counts_distinct_keys() {
    let mut listener: ExecutionReportListener<Recorder> = ExecutionReportListener::new();
    let samples = vec![
        Sample::Value(event("OID-1", "CLO-1")),
        Sample::Value(event("OID-2", "")),
        Sample::Value(event("OID-3", "CLO-3")),
    ];
    let processed = listener.read_execution_reports(samples);
    assert_eq!(processed.len(), 3);
    for oid in ["OID-1", "OID-2", "OID-3"] {
        let got = listener.get_order_status(oid).expect("cached");
        assert_eq!(got.order_id, oid);
    }
    // Three exchange identifiers plus two distinct non-empty correlation
    // identifiers.
    assert_eq!(listener.get_all_order_statuses().len(), 5);
    assert!(listener.get_order_status("OID-9").is_none());
}

#[test]
fn later_event_overwrites_the_same_identifier() {
    let mut listener: ExecutionReportListener<Recorder> = ExecutionReportListener::new();
    let mut first = event("OID-1", "");
    first.cum_qty = 1;
    let mut second = event("OID-1", "");
    second.cum_qty = 7;
    listener.read_execution_reports(vec![Sample::Value(first), Sample::Value(second)]);
    let got = listener.get_order_status("OID-1").expect("cached");
    assert_eq!(got.cum_qty, 7);
    assert_eq!(listener.get_all_order_statuses().len(), 1);
}

#[test]
fn dual_key_correlation_reads_the_same_record_under_both_identifiers() {
    let mut listener: ExecutionReportListener<Recorder> = ExecutionReportListener::new();
    let mut e = event("OID-1", "CLO-9");
    e.cum_qty = 4;
    listener.update_order_cache(&e);
    let by_exchange = listener.get_order_status("OID-1").expect("by exchange id");
    let by_correlation = listener.get_order_status("CLO-9").expect("by correlation id");
    assert_eq!(by_exchange.order_id, by_correlation.order_id);
    assert_eq!(by_exchange.orig_cl_ord_id, by_correlation.orig_cl_ord_id);
    assert_eq!(by_exchange.cum_qty, 4);
    assert_eq!(by_correlation.cum_qty, 4);
}

#[test]
fn all_observers_run_once_in_registration_order_per_event() {
    let log: Rc<RefCell<Vec<(usize, String)>>> = Rc::new(RefCell::new(Vec::new()));
    let mut listener: ExecutionReportListener<Recorder> = ExecutionReportListener::new();
    for idx in 0..3 {
        listener.register_execution_callback(Recorder { idx, log: Rc::clone(&log) });
    }
    listener.read_execution_reports(vec![
        Sample::Value(event("OID-1", "")),
        Sample::Value(event("OID-2", "")),
    ]);
    let seen = log.borrow().clone();
    assert_eq!(
        seen,
        vec![
            (0, "OID-1".to_string()),
            (1, "OID-1".to_string()),
            (2, "OID-1".to_string()),
            (0, "OID-2".to_string()),
            (1, "OID-2".to_string()),
            (2, "OID-2".to_string()),
        ]
    );
}

#[test]
fn malformed_sample_is_skipped_and_the_next_event_still_lands() {
    let log: Rc<RefCell<Vec<(usize, String)>>> = Rc::new(RefCell::new(Vec::new()));
    let mut listener: ExecutionReportListener<Recorder> = ExecutionReportListener::new();
    listener.register_execution_callback(Recorder { idx: 0, log: Rc::clone(&log) });
    let processed = listener.read_execution_reports(vec![
        Sample::Malformed,
        Sample::Value(event("OID-7", "")),
    ]);
    assert_eq!(processed.len(), 1);
    assert_eq!(processed[0].order_id, "OID-7");
    assert!(listener.get_order_status("OID-7").is_some());
    assert_eq!(log.borrow().clone(), vec![(0, "OID-7".to_string())]);
}

#[test]
fn order_response_listener_polls_and_tracks_the_same_way() {
    let log: Rc<RefCell<Vec<(usize, String)>>> = Rc::new(RefCell::new(Vec::new()));
    let mut listener: OrderResponseListener<Recorder> = OrderResponseListener::new();
    listener.register_execution_callback(Recorder { idx: 0, log: Rc::clone(&log) });
    let processed = listener.poll_once(vec![
        Sample::Value(response("OID-1", "CLO-1")),
        Sample::Malformed,
        Sample::Value(response("OID-2", "")),
    ]);
    assert_eq!(processed, 2);
    assert!(listener.get_order_status("OID-1").is_some());
    assert!(listener.get_order_status("CLO-1").is_some());
    assert!(listener.get_order_status("OID-2").is_some());
    assert_eq!(listener.get_all_order_statuses().len(), 3);
    assert_eq!(
        log.borrow().clone(),
        vec![(0, "OID-1".to_string()), (0, "OID-2".to_string())]
    );
}

#[test]
fn submitted_limit_order_tracks_through_to_filled() {
    // Build and validate the submission; these are the exact fields the
    // transport edge would publish.
    let order = OrderRequest::limit_order(
        "rust_client".to_string(),
        "ORD-1".to_string(),
        "BTC-USD".to_string(),
        OrderSide::BUY,
        10,
        50000,
        "user001".to_string(),
    );
    assert!(validate_order(&order).is_ok());
    assert_eq!(order.order_id, "ORD-1");
    assert_eq!(order.symbol, "BTC-USD");
    assert_eq!(order.side, OrderSide::BUY);
    assert_eq!(order.order_type, OrderType::LIMIT);
    assert_eq!(order.quantity, 10);
    assert_eq!(order.price, 50000);

    // Inject the fill event and read the tracked status back.
    let mut listener: ExecutionReportListener<Recorder> = ExecutionReportListener::new();
    let mut fill = event("ORD-1", "");
    fill.exec_type = b'F';
    fill.ord_status = b'2';
    fill.order_qty = 10;
    fill.cum_qty = 10;
    fill.avg_px = 50000;
    listener.read_execution_reports(vec![Sample::Value(fill)]);
    let got = listener.get_order_status("ORD-1").expect("tracked");
    assert_eq!(got.get_execution_status(), "Filled");
    assert!(got.has_fills());
    assert_eq!(got.get_remaining_qty(), 0);
    assert!(got.is_completely_filled());
    assert!(got.is_fill());
    assert!(got.is_terminal());
}
