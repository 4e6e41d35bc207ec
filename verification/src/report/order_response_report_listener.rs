//! The order-response tracking core: the same dual-keyed cache and observer
//! fan-out as the execution-report core, over the order response shape. The
//! transport edge drains the subscription and hands each poll's samples
//! here; a malformed sample is skipped and never aborts the batch.

use vstd::prelude::*;

use crate::decimal::{dec_str, dec_str_signed, i32_to_dec, u64_to_dec};
use crate::events::{batch_records, dispatch_records, values_of, CallbackRegistry, Observer, Sample};
use crate::report::execution_report::{execution_status_str, execution_type_str};
use crate::report::order_response_report::OrderResponseReport;
use crate::status_cache::StatusCache;

verus! {

/// The topic these responses arrive on.
pub fn order_response_topic_name() -> (r: &'static str)
    ensures
        r@ == "order_response"@,
{
    "order_response"
}

/// Whether a response carries this identifier, in either identifier space.
pub open spec fn carries_id(e: OrderResponseReport, id: Seq<char>) -> bool {
    e.order_id@ == id || (e.orig_cl_ord_id@.len() > 0 && e.orig_cl_ord_id@ == id)
}

/// One cache mutation for one response: the entry under the exchange order
/// identifier is written, and, when the correlation identifier is non-empty,
/// the entry under it as well, as one step.
pub open spec fn apply_event(
    m: Map<Seq<char>, OrderResponseReport>,
    e: OrderResponseReport,
) -> Map<Seq<char>, OrderResponseReport> {
    if e.orig_cl_ord_id@.len() > 0 {
        m.insert(e.order_id@, e).insert(e.orig_cl_ord_id@, e)
    } else {
        m.insert(e.order_id@, e)
    }
}

/// The cache after a whole drain, responses applied in arrival order.
pub open spec fn apply_events(
    m: Map<Seq<char>, OrderResponseReport>,
    events: Seq<OrderResponseReport>,
) -> Map<Seq<char>, OrderResponseReport>
    decreases events.len(),
{
    if events.len() == 0 {
        m
    } else {
        apply_event(apply_events(m, events.drop_last()), events.last())
    }
}

/// The last response of a drain that carries an identifier, if any.
pub open spec fn last_event_for(events: Seq<OrderResponseReport>, id: Seq<char>) -> Option<
    OrderResponseReport,
>
    decreases events.len(),
{
    if events.len() == 0 {
        Option::None
    } else if carries_id(events.last(), id) {
        Option::Some(events.last())
    } else {
        last_event_for(events.drop_last(), id)
    }
}

/// The identifiers one response writes.
pub open spec fn event_keys(e: OrderResponseReport) -> Set<Seq<char>> {
    if e.orig_cl_ord_id@.len() > 0 {
        set![e.order_id@, e.orig_cl_ord_id@]
    } else {
        set![e.order_id@]
    }
}

/// The identifiers a whole drain writes.
pub open spec fn events_keys(events: Seq<OrderResponseReport>) -> Set<Seq<char>>
    decreases events.len(),
{
    if events.len() == 0 {
        Set::empty()
    } else {
        events_keys(events.drop_last()) + event_keys(events.last())
    }
}

/// Latest write wins: after a drain, an identifier reads the last response
/// that carried it, and an identifier no response carried reads what it read
/// before.
pub proof fn lemma_cache_tracks_last_event(
    m: Map<Seq<char>, OrderResponseReport>,
    events: Seq<OrderResponseReport>,
    id: Seq<char>,
)
    ensures
        match last_event_for(events, id) {
            Option::Some(e) => apply_events(m, events).contains_key(id) && apply_events(
                m,
                events,
            )[id] == e,
            Option::None => apply_events(m, events).contains_key(id) == m.contains_key(id) && (
            m.contains_key(id) ==> apply_events(m, events)[id] == m[id]),
        },
    decreases events.len(),
{
    if events.len() > 0 {
        lemma_cache_tracks_last_event(m, events.drop_last(), id);
    }
}

/// After a drain, the cache holds exactly its earlier identifiers plus every
/// identifier the drain's responses carried.
pub proof fn lemma_cache_keys(
    m: Map<Seq<char>, OrderResponseReport>,
    events: Seq<OrderResponseReport>,
)
    ensures
        apply_events(m, events).dom() == m.dom() + events_keys(events),
    decreases events.len(),
{
    if events.len() == 0 {
        assert(apply_events(m, events).dom() =~= m.dom() + events_keys(events));
    } else {
        lemma_cache_keys(m, events.drop_last());
        assert(apply_events(m, events).dom() =~= m.dom() + events_keys(events));
    }
}

/// Processing a response makes its record readable under both of its
/// identifiers at once.
pub proof fn lemma_dual_key_correlation(
    m: Map<Seq<char>, OrderResponseReport>,
    e: OrderResponseReport,
)
    ensures
        apply_event(m, e).contains_key(e.order_id@),
        apply_event(m, e)[e.order_id@] == e,
        e.orig_cl_ord_id@.len() > 0 ==> apply_event(m, e).contains_key(e.orig_cl_ord_id@)
            && apply_event(m, e)[e.orig_cl_ord_id@] == e,
{
}

/// Cache reads are idempotent: two snapshots taken with no intervening
/// events are equal.
pub proof fn lemma_snapshot_idempotent<O: Observer<OrderResponseReport>>(
    l: &OrderResponseListener<O>,
    r1: Seq<(String, OrderResponseReport)>,
    r2: Seq<(String, OrderResponseReport)>,
)
    requires
        r1 == l.cache_entries(),
        r2 == l.cache_entries(),
    ensures
        r1 == r2,
{
}

/// The order-response tracking core. The transport subscription stays at the
/// process edge; this core owns the dual-keyed status cache and the observer
/// registry the responses drive.
pub struct OrderResponseListener<O: Observer<OrderResponseReport>> {
    pub order_status_cache: StatusCache<OrderResponseReport>,
    pub execution_callbacks: CallbackRegistry<OrderResponseReport, O>,
}

impl<O: Observer<OrderResponseReport>> OrderResponseListener<O> {
    /// The cache as a map from identifier to last stored record.
    pub open spec fn cache_map(&self) -> Map<Seq<char>, OrderResponseReport> {
        self.order_status_cache.as_map()
    }

    /// The cache entries, in first-insertion order.
    pub open spec fn cache_entries(&self) -> Seq<(String, OrderResponseReport)> {
        self.order_status_cache.entries_seq()
    }

    /// The registered observers, in registration order.
    pub open spec fn observers(&self) -> Seq<O> {
        self.execution_callbacks.observers_seq()
    }

    /// Every observer invocation dispatched so far, oldest first.
    pub open spec fn history(&self) -> Seq<(int, OrderResponseReport)> {
        self.execution_callbacks.history_seq()
    }

    /// Well-formed: the cache keys are unique.
    pub open spec fn wf(&self) -> bool {
        self.order_status_cache.wf()
    }

    /// A fresh core: empty cache, no observers, nothing dispatched.
    pub fn new() -> (r: Self)
        ensures
            r.wf(),
            r.cache_map() == Map::<Seq<char>, OrderResponseReport>::empty(),
            r.cache_entries() == Seq::<(String, OrderResponseReport)>::empty(),
            r.observers() == Seq::<O>::empty(),
            r.history() == Seq::<(int, OrderResponseReport)>::empty(),
    {
        OrderResponseListener {
            order_status_cache: StatusCache::new(),
            execution_callbacks: CallbackRegistry::new(),
        }
    }

    /// Writes a response into the cache under its exchange order identifier
    /// and, when non-empty, its correlation identifier, as one mutation.
    pub fn update_order_cache(&mut self, report: &OrderResponseReport)
        requires
            old(self).wf(),
        ensures
            final(self).wf(),
            final(self).cache_map() == apply_event(old(self).cache_map(), *report),
            final(self).observers() == old(self).observers(),
            final(self).history() == old(self).history(),
    {
        self.order_status_cache.insert(report.order_id.clone(), report.clone());
        if !report.orig_cl_ord_id.as_str().is_empty() {
            self.order_status_cache.insert(report.orig_cl_ord_id.clone(), report.clone());
        }
    }

    /// Invokes every registered observer with the response, synchronously,
    /// in registration order.
    pub fn trigger_callbacks(&mut self, report: &OrderResponseReport)
        ensures
            final(self).wf() == old(self).wf(),
            final(self).cache_map() == old(self).cache_map(),
            final(self).cache_entries() == old(self).cache_entries(),
            final(self).observers() == old(self).observers(),
            final(self).history() == old(self).history() + dispatch_records(
                old(self).observers().len(),
                *report,
            ),
    {
        self.execution_callbacks.dispatch(report);
    }

    /// Appends an observer; it will see every response processed from now
    /// on.
    pub fn register_execution_callback(&mut self, callback: O)
        ensures
            final(self).wf() == old(self).wf(),
            final(self).cache_map() == old(self).cache_map(),
            final(self).cache_entries() == old(self).cache_entries(),
            final(self).observers() == old(self).observers().push(callback),
            final(self).history() == old(self).history(),
    {
        self.execution_callbacks.register(callback);
    }

    /// Processes one well-formed response: cache update, then dispatch to
    /// every observer, all before this call returns.
    pub fn process_report(&mut self, report: &OrderResponseReport)
        requires
            old(self).wf(),
        ensures
            final(self).wf(),
            final(self).cache_map() == apply_event(old(self).cache_map(), *report),
            final(self).observers() == old(self).observers(),
            final(self).history() == old(self).history() + dispatch_records(
                old(self).observers().len(),
                *report,
            ),
    {
        self.update_order_cache(report);
        self.trigger_callbacks(report);
    }

    /// Processes one poll's samples in arrival order and returns how many
    /// well-formed responses were processed. Every well-formed response is
    /// cached and dispatched before the next is touched; a malformed sample
    /// is skipped and aborts nothing.
    pub fn poll_once(&mut self, samples: Vec<Sample<OrderResponseReport>>) -> (processed:
        usize)
        requires
            old(self).wf(),
        ensures
            final(self).wf(),
            processed == values_of(samples@).len(),
            final(self).cache_map() == apply_events(old(self).cache_map(), values_of(samples@)),
            final(self).observers() == old(self).observers(),
            final(self).history() == old(self).history() + batch_records(
                old(self).observers().len(),
                values_of(samples@),
            ),
    {
        let mut processed: usize = 0;
        let n = samples.len();
        let mut i: usize = 0;
        while i < n
            invariant
                n == samples@.len(),
                0 <= i <= n,
                self.wf(),
                processed <= i,
                processed == values_of(samples@.subrange(0, i as int)).len(),
                self.cache_map() == apply_events(
                    old(self).cache_map(),
                    values_of(samples@.subrange(0, i as int)),
                ),
                self.observers() == old(self).observers(),
                self.history() == old(self).history() + batch_records(
                    old(self).observers().len(),
                    values_of(samples@.subrange(0, i as int)),
                ),
            decreases n - i,
        {
            let ghost prefix = samples@.subrange(0, i as int);
            let ghost step = samples@.subrange(0, i as int + 1);
            proof {
                assert(step.drop_last() =~= prefix);
            }
            match &samples[i] {
                Sample::Value(report) => {
                    self.process_report(report);
                    processed += 1;
                    proof {
                        assert(values_of(step) == values_of(prefix).push(*report));
                        assert(values_of(step).drop_last() =~= values_of(prefix));
                        assert(self.history() == old(self).history() + batch_records(
                            old(self).observers().len(),
                            values_of(step),
                        )) by {
                            assert(old(self).history() + batch_records(
                                old(self).observers().len(),
                                values_of(prefix),
                            ) + dispatch_records(old(self).observers().len(), *report) =~= old(
                                self,
                            ).history() + batch_records(
                                old(self).observers().len(),
                                values_of(step),
                            ));
                        }
                    }
                },
                Sample::Malformed => {
                    proof {
                        assert(values_of(step) == values_of(prefix));
                    }
                },
            }
            i += 1;
        }
        proof {
            assert(samples@.subrange(0, n as int) =~= samples@);
        }
        processed
    }

    /// The record last stored under an identifier, in either identifier
    /// space, or nothing when the identifier has never been seen.
    pub fn get_order_status(&self, order_id: &str) -> (r: Option<OrderResponseReport>)
        requires
            self.wf(),
        ensures
            match r {
                Option::Some(v) => self.cache_map().contains_key(order_id@) && v
                    == self.cache_map()[order_id@],
                Option::None => !self.cache_map().contains_key(order_id@),
            },
    {
        match self.order_status_cache.get(order_id) {
            Option::Some(v) => Option::Some(v.clone()),
            Option::None => Option::None,
        }
    }

    /// A snapshot copy of every tracked identifier and its record. Mutation
    /// after the snapshot is taken is invisible to it.
    pub fn get_all_order_statuses(&self) -> (r: Vec<(String, OrderResponseReport)>)
        ensures
            r@ == self.cache_entries(),
    {
        let entries = &self.order_status_cache.entries;
        let mut out: Vec<(String, OrderResponseReport)> = Vec::new();
        let n = entries.len();
        let mut i: usize = 0;
        while i < n
            invariant
                n == entries@.len(),
                entries@ == self.order_status_cache.entries@,
                0 <= i <= n,
                out@ == entries@.subrange(0, i as int),
            decreases n - i,
        {
            let p = &entries[i];
            out.push((p.0.clone(), p.1.clone()));
            proof {
                assert(entries@.subrange(0, i as int + 1) =~= entries@.subrange(0, i as int).push(
                    entries@[i as int],
                ));
            }
            i += 1;
        }
        proof {
            assert(entries@.subrange(0, n as int) =~= entries@);
        }
        out
    }

    /// A point-in-time health snapshot, from the transport's matched peer
    /// count and the cache. Pure: nothing is mutated.
    pub fn get_connection_status(&self, publisher_count: usize) -> (r:
        OrderResponseReportConnectionStatus)
        requires
            self.wf(),
        ensures
            r.domain_id == 0,
            r.topic_name@ == "order_response"@,
            r.schema_name@ == "OMS::OrderResponseReport"@,
            r.publisher_count == publisher_count,
            r.is_connected == (publisher_count > 0),
            r.tracked_orders == self.cache_map().len(),
    {
        OrderResponseReportConnectionStatus {
            domain_id: 0,
            topic_name: order_response_topic_name().to_owned(),
            schema_name: OrderResponseReport::transport_type_name().to_owned(),
            publisher_count,
            is_connected: publisher_count > 0,
            tracked_orders: self.order_status_cache.len(),
        }
    }

    /// The audit line recorded for a processed response.
    pub fn log_execution_report(&self, report: &OrderResponseReport) -> (r: String)
        ensures
            r@ == response_audit_line(*report),
    {
        let mut s = "ORDER_RESPONSE_AUDIT: ExecID=".to_owned();
        s.append(report.exec_id.as_str());
        s.append(", OrderID=");
        s.append(report.order_id.as_str());
        s.append(", OrigClOrdID=");
        s.append(report.orig_cl_ord_id.as_str());
        s.append(", Symbol=");
        s.append(report.symbol.as_str());
        s.append(", Side=");
        s.append(u64_to_dec(report.side as u64).as_str());
        s.append(", Qty=");
        s.append(i32_to_dec(report.order_qty).as_str());
        s.append(", Price=");
        s.append(u64_to_dec(report.price).as_str());
        s.append(", ExecType=");
        s.append(report.get_execution_type());
        s.append(", OrdStatus=");
        s.append(report.get_execution_status());
        s.append(", CumQty=");
        s.append(i32_to_dec(report.cum_qty).as_str());
        s.append(", AvgPx=");
        s.append(u64_to_dec(report.avg_px).as_str());
        s.append(", Text='");
        s.append(report.text.as_str());
        s.append("'");
        s
    }
}

/// The audit line the listener records for each processed response.
pub open spec fn response_audit_line(r: OrderResponseReport) -> Seq<char> {
    "ORDER_RESPONSE_AUDIT: ExecID="@ + r.exec_id@ + ", OrderID="@ + r.order_id@ + ", OrigClOrdID="@
        + r.orig_cl_ord_id@ + ", Symbol="@ + r.symbol@ + ", Side="@ + dec_str(r.side as nat)
        + ", Qty="@ + dec_str_signed(r.order_qty as int) + ", Price="@ + dec_str(r.price as nat)
        + ", ExecType="@ + execution_type_str(r.exec_type) + ", OrdStatus="@ + execution_status_str(
        r.ord_status,
    ) + ", CumQty="@ + dec_str_signed(r.cum_qty as int) + ", AvgPx="@ + dec_str(r.avg_px as nat)
        + ", Text='"@ + r.text@ + "'"@
}

/// Point-in-time connectivity of the order-response listener.
#[derive(Debug)]
pub struct OrderResponseReportConnectionStatus {
    pub domain_id: u16,
    pub topic_name: String,
    pub schema_name: String,
    pub publisher_count: usize,
    pub is_connected: bool,
    pub tracked_orders: usize,
}

/// The rendering used when a listener status is shown.
pub open spec fn response_status_line(s: OrderResponseReportConnectionStatus) -> Seq<char> {
    "Order Response Listener Status | Domain: "@ + dec_str(s.domain_id as nat) + "\nTopic: '"@
        + s.topic_name@ + "' -> '"@ + s.schema_name@ + "' - "@ + (if s.is_connected {
        "CONNECTED"@
    } else {
        "DISCONNECTED"@
    }) + " ("@ + dec_str(s.publisher_count as nat) + " publishers)\nTracked Orders: "@ + dec_str(
        s.tracked_orders as nat,
    )
}

impl OrderResponseReportConnectionStatus {
    /// Renders this status for monitoring output.
    pub fn status_line(&self) -> (r: String)
        ensures
            r@ == response_status_line(*self),
    {
        let mut s = "Order Response Listener Status | Domain: ".to_owned();
        s.append(u64_to_dec(self.domain_id as u64).as_str());
        s.append("\nTopic: '");
        s.append(self.topic_name.as_str());
        s.append("' -> '");
        s.append(self.schema_name.as_str());
        s.append("' - ");
        if self.is_connected {
            s.append("CONNECTED");
        } else {
            s.append("DISCONNECTED");
        }
        s.append(" (");
        s.append(u64_to_dec(self.publisher_count as u64).as_str());
        s.append(" publishers)\nTracked Orders: ");
        s.append(u64_to_dec(self.tracked_orders as u64).as_str());
        s
    }
}

} // verus!
