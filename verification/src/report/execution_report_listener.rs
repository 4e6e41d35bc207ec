//! The execution-report tracking core: a dual-keyed status cache and an
//! observer registry, fed one drain batch at a time. The transport edge
//! takes samples from the subscription and hands them here; every
//! well-formed event is logged, cached under both of its identifiers, and
//! dispatched to every observer before the next event is touched.

use vstd::prelude::*;

use crate::decimal::{i32_to_dec, u64_to_dec};
use crate::events::{batch_records, dispatch_records, values_of, CallbackRegistry, Observer, Sample};
use crate::report::execution_report::ExecutionReport;
use crate::status_cache::StatusCache;

verus! {

/// The topic these reports arrive on.
pub fn execution_report_topic_name() -> (r: &'static str)
    ensures
        r@ == "EXECUTION_REPORT_TOPIC"@,
{
    "EXECUTION_REPORT_TOPIC"
}

/// Whether an event carries this identifier, in either identifier space: as
/// its exchange order identifier, or as its non-empty correlation identifier.
pub open spec fn carries_id(e: ExecutionReport, id: Seq<char>) -> bool {
    e.order_id@ == id || (e.orig_cl_ord_id@.len() > 0 && e.orig_cl_ord_id@ == id)
}

/// One cache mutation for one event: the entry under the exchange order
/// identifier is written, and, when the correlation identifier is non-empty,
/// the entry under it as well, as one step.
pub open spec fn apply_event(
    m: Map<Seq<char>, ExecutionReport>,
    e: ExecutionReport,
) -> Map<Seq<char>, ExecutionReport> {
    if e.orig_cl_ord_id@.len() > 0 {
        m.insert(e.order_id@, e).insert(e.orig_cl_ord_id@, e)
    } else {
        m.insert(e.order_id@, e)
    }
}

/// The cache after a whole drain, events applied in arrival order.
pub open spec fn apply_events(
    m: Map<Seq<char>, ExecutionReport>,
    events: Seq<ExecutionReport>,
) -> Map<Seq<char>, ExecutionReport>
    decreases events.len(),
{
    if events.len() == 0 {
        m
    } else {
        apply_event(apply_events(m, events.drop_last()), events.last())
    }
}

/// The last event of a drain that carries an identifier, if any.
pub open spec fn last_event_for(events: Seq<ExecutionReport>, id: Seq<char>) -> Option<
    ExecutionReport,
>
    decreases events.len(),
{
    if events.len() == 0 {
        Option::None
    } else if carries_id(events.last(), id) {
        Option::Some(events.last())
    } else {
        last_event_for(events.drop_last(), id)
    }
}

/// The identifiers one event writes.
pub open spec fn event_keys(e: ExecutionReport) -> Set<Seq<char>> {
    if e.orig_cl_ord_id@.len() > 0 {
        set![e.order_id@, e.orig_cl_ord_id@]
    } else {
        set![e.order_id@]
    }
}

/// The identifiers a whole drain writes.
pub open spec fn events_keys(events: Seq<ExecutionReport>) -> Set<Seq<char>>
    decreases events.len(),
{
    if events.len() == 0 {
        Set::empty()
    } else {
        events_keys(events.drop_last()) + event_keys(events.last())
    }
}

/// Latest write wins: after a drain, an identifier reads the last event that
/// carried it, and an identifier no event carried reads what it read before.
pub proof fn lemma_cache_tracks_last_event(
    m: Map<Seq<char>, ExecutionReport>,
    events: Seq<ExecutionReport>,
    id: Seq<char>,
)
    ensures
        match last_event_for(events, id) {
            Option::Some(e) => apply_events(m, events).contains_key(id) && apply_events(
                m,
                events,
            )[id] == e,
            Option::None => apply_events(m, events).contains_key(id) == m.contains_key(id) && (
            m.contains_key(id) ==> apply_events(m, events)[id] == m[id]),
        },
    decreases events.len(),
{
    if events.len() > 0 {
        lemma_cache_tracks_last_event(m, events.drop_last(), id);
    }
}

/// After a drain, the cache holds exactly its earlier identifiers plus every
/// exchange order identifier and every non-empty correlation identifier the
/// drain's events carried.
pub proof fn lemma_cache_keys(m: Map<Seq<char>, ExecutionReport>, events: Seq<ExecutionReport>)
    ensures
        apply_events(m, events).dom() == m.dom() + events_keys(events),
    decreases events.len(),
{
    if events.len() == 0 {
        assert(apply_events(m, events).dom() =~= m.dom() + events_keys(events));
    } else {
        lemma_cache_keys(m, events.drop_last());
        assert(apply_events(m, events).dom() =~= m.dom() + events_keys(events));
    }
}

/// Processing an event makes its record readable under both of its
/// identifiers at once: the exchange order identifier, and the correlation
/// identifier when it is non-empty.
pub proof fn lemma_dual_key_correlation(m: Map<Seq<char>, ExecutionReport>, e: ExecutionReport)
    ensures
        apply_event(m, e).contains_key(e.order_id@),
        apply_event(m, e)[e.order_id@] == e,
        e.orig_cl_ord_id@.len() > 0 ==> apply_event(m, e).contains_key(e.orig_cl_ord_id@)
            && apply_event(m, e)[e.orig_cl_ord_id@] == e,
{
}

/// A drain of one malformed sample and then one well-formed event still
/// caches and dispatches the well-formed event, exactly as if it had arrived
/// alone.
pub proof fn lemma_malformed_sample_skipped(
    m: Map<Seq<char>, ExecutionReport>,
    e: ExecutionReport,
    k: nat,
)
    ensures
        values_of(seq![Sample::<ExecutionReport>::Malformed, Sample::Value(e)]) == seq![e],
        apply_events(m, values_of(seq![Sample::<ExecutionReport>::Malformed, Sample::Value(e)]))
            == apply_event(m, e),
        batch_records(k, values_of(seq![Sample::<ExecutionReport>::Malformed, Sample::Value(e)]))
            == dispatch_records(k, e),
{
    let s0 = Seq::<Sample<ExecutionReport>>::empty();
    let s1 = seq![Sample::<ExecutionReport>::Malformed];
    let s = seq![Sample::<ExecutionReport>::Malformed, Sample::Value(e)];
    assert(values_of(s0) == Seq::<ExecutionReport>::empty());
    assert(s1.drop_last() =~= s0);
    assert(values_of(s1) == Seq::<ExecutionReport>::empty());
    assert(s.drop_last() =~= s1);
    assert(s.last() == Sample::<ExecutionReport>::Value(e));
    assert(values_of(s) =~= seq![e]);
    let es = seq![e];
    assert(es.drop_last() =~= Seq::<ExecutionReport>::empty());
    assert(apply_events(m, Seq::<ExecutionReport>::empty()) == m);
    assert(apply_events(m, es) == apply_event(m, e));
    assert(batch_records(k, Seq::<ExecutionReport>::empty()) == Seq::<
        (int, ExecutionReport),
    >::empty());
    assert(batch_records(k, es) =~= dispatch_records(k, e));
}

/// Cache reads are idempotent: two snapshots taken with no intervening
/// events are equal.
pub proof fn lemma_snapshot_idempotent<O: Observer<ExecutionReport>>(
    l: &ExecutionReportListener<O>,
    r1: Seq<(String, ExecutionReport)>,
    r2: Seq<(String, ExecutionReport)>,
)
    requires
        r1 == l.cache_entries(),
        r2 == l.cache_entries(),
    ensures
        r1 == r2,
{
}

/// The execution-report tracking core. The transport subscription itself
/// stays at the process edge; this core owns the state the events drive: the
/// dual-keyed status cache and the observer registry.
pub struct ExecutionReportListener<O: Observer<ExecutionReport>> {
    pub order_status_cache: StatusCache<ExecutionReport>,
    pub execution_callbacks: CallbackRegistry<ExecutionReport, O>,
}

impl<O: Observer<ExecutionReport>> ExecutionReportListener<O> {
    /// The cache as a map from identifier to last stored record.
    pub open spec fn cache_map(&self) -> Map<Seq<char>, ExecutionReport> {
        self.order_status_cache.as_map()
    }

    /// The cache entries, in first-insertion order.
    pub open spec fn cache_entries(&self) -> Seq<(String, ExecutionReport)> {
        self.order_status_cache.entries_seq()
    }

    /// The registered observers, in registration order.
    pub open spec fn observers(&self) -> Seq<O> {
        self.execution_callbacks.observers_seq()
    }

    /// Every observer invocation dispatched so far, oldest first.
    pub open spec fn history(&self) -> Seq<(int, ExecutionReport)> {
        self.execution_callbacks.history_seq()
    }

    /// Well-formed: the cache keys are unique.
    pub open spec fn wf(&self) -> bool {
        self.order_status_cache.wf()
    }

    /// A fresh core: empty cache, no observers, nothing dispatched.
    pub fn new() -> (r: Self)
        ensures
            r.wf(),
            r.cache_map() == Map::<Seq<char>, ExecutionReport>::empty(),
            r.cache_entries() == Seq::<(String, ExecutionReport)>::empty(),
            r.observers() == Seq::<O>::empty(),
            r.history() == Seq::<(int, ExecutionReport)>::empty(),
    {
        ExecutionReportListener {
            order_status_cache: StatusCache::new(),
            execution_callbacks: CallbackRegistry::new(),
        }
    }

    /// Writes an event into the cache under its exchange order identifier
    /// and, when non-empty, its correlation identifier, as one mutation.
    pub fn update_order_cache(&mut self, report: &ExecutionReport)
        requires
            old(self).wf(),
        ensures
            final(self).wf(),
            final(self).cache_map() == apply_event(old(self).cache_map(), *report),
            final(self).observers() == old(self).observers(),
            final(self).history() == old(self).history(),
    {
        self.order_status_cache.insert(report.order_id.clone(), report.clone());
        if !report.orig_cl_ord_id.as_str().is_empty() {
            self.order_status_cache.insert(report.orig_cl_ord_id.clone(), report.clone());
        }
    }

    /// Invokes every registered observer with the event, synchronously, in
    /// registration order.
    pub fn trigger_callbacks(&mut self, report: &ExecutionReport)
        ensures
            final(self).wf() == old(self).wf(),
            final(self).cache_map() == old(self).cache_map(),
            final(self).cache_entries() == old(self).cache_entries(),
            final(self).observers() == old(self).observers(),
            final(self).history() == old(self).history() + dispatch_records(
                old(self).observers().len(),
                *report,
            ),
    {
        self.execution_callbacks.dispatch(report);
    }

    /// Appends an observer; it will see every event processed from now on.
    pub fn register_execution_callback(&mut self, callback: O)
        ensures
            final(self).wf() == old(self).wf(),
            final(self).cache_map() == old(self).cache_map(),
            final(self).cache_entries() == old(self).cache_entries(),
            final(self).observers() == old(self).observers().push(callback),
            final(self).history() == old(self).history(),
    {
        self.execution_callbacks.register(callback);
    }

    /// Processes one well-formed event: cache update, then dispatch to every
    /// observer, all before this call returns.
    pub fn process_report(&mut self, report: &ExecutionReport)
        requires
            old(self).wf(),
        ensures
            final(self).wf(),
            final(self).cache_map() == apply_event(old(self).cache_map(), *report),
            final(self).observers() == old(self).observers(),
            final(self).history() == old(self).history() + dispatch_records(
                old(self).observers().len(),
                *report,
            ),
    {
        self.update_order_cache(report);
        self.trigger_callbacks(report);
    }

    /// Processes one drain batch in arrival order: every well-formed event
    /// is cached and dispatched before the next is touched; malformed
    /// samples are skipped and abort nothing. The transport edge takes the
    /// samples from the subscription and hands them here. Returns the events
    /// processed.
    pub fn read_execution_reports(&mut self, samples: Vec<Sample<ExecutionReport>>) -> (reports: Vec<
        ExecutionReport,
    >)
        requires
            old(self).wf(),
        ensures
            final(self).wf(),
            reports@ == values_of(samples@),
            final(self).cache_map() == apply_events(old(self).cache_map(), values_of(samples@)),
            final(self).observers() == old(self).observers(),
            final(self).history() == old(self).history() + batch_records(
                old(self).observers().len(),
                values_of(samples@),
            ),
    {
        let mut reports: Vec<ExecutionReport> = Vec::new();
        let n = samples.len();
        let mut i: usize = 0;
        while i < n
            invariant
                n == samples@.len(),
                0 <= i <= n,
                self.wf(),
                reports@ == values_of(samples@.subrange(0, i as int)),
                self.cache_map() == apply_events(
                    old(self).cache_map(),
                    values_of(samples@.subrange(0, i as int)),
                ),
                self.observers() == old(self).observers(),
                self.history() == old(self).history() + batch_records(
                    old(self).observers().len(),
                    values_of(samples@.subrange(0, i as int)),
                ),
            decreases n - i,
        {
            let ghost prefix = samples@.subrange(0, i as int);
            let ghost step = samples@.subrange(0, i as int + 1);
            proof {
                assert(step.drop_last() =~= prefix);
            }
            match &samples[i] {
                Sample::Value(report) => {
                    self.process_report(report);
                    reports.push(report.clone());
                    proof {
                        assert(values_of(step) == values_of(prefix).push(*report));
                        assert(values_of(step).drop_last() =~= values_of(prefix));
                        assert(self.history() == old(self).history() + batch_records(
                            old(self).observers().len(),
                            values_of(step),
                        )) by {
                            assert(old(self).history() + batch_records(
                                old(self).observers().len(),
                                values_of(prefix),
                            ) + dispatch_records(old(self).observers().len(), *report) =~= old(
                                self,
                            ).history() + batch_records(
                                old(self).observers().len(),
                                values_of(step),
                            ));
                        }
                    }
                },
                Sample::Malformed => {
                    proof {
                        assert(values_of(step) == values_of(prefix));
                    }
                },
            }
            i += 1;
        }
        proof {
            assert(samples@.subrange(0, n as int) =~= samples@);
        }
        reports
    }

    /// The record last stored under an identifier, in either identifier
    /// space, or nothing when the identifier has never been seen.
    pub fn get_order_status(&self, order_id: &str) -> (r: Option<ExecutionReport>)
        requires
            self.wf(),
        ensures
            match r {
                Option::Some(v) => self.cache_map().contains_key(order_id@) && v
                    == self.cache_map()[order_id@],
                Option::None => !self.cache_map().contains_key(order_id@),
            },
    {
        match self.order_status_cache.get(order_id) {
            Option::Some(v) => Option::Some(v.clone()),
            Option::None => Option::None,
        }
    }

    /// A snapshot copy of every tracked identifier and its record. Mutation
    /// after the snapshot is taken is invisible to it.
    pub fn get_all_order_statuses(&self) -> (r: Vec<(String, ExecutionReport)>)
        ensures
            r@ == self.cache_entries(),
    {
        let entries = &self.order_status_cache.entries;
        let mut out: Vec<(String, ExecutionReport)> = Vec::new();
        let n = entries.len();
        let mut i: usize = 0;
        while i < n
            invariant
                n == entries@.len(),
                entries@ == self.order_status_cache.entries@,
                0 <= i <= n,
                out@ == entries@.subrange(0, i as int),
            decreases n - i,
        {
            let p = &entries[i];
            out.push((p.0.clone(), p.1.clone()));
            proof {
                assert(entries@.subrange(0, i as int + 1) =~= entries@.subrange(0, i as int).push(
                    entries@[i as int],
                ));
            }
            i += 1;
        }
        proof {
            assert(entries@.subrange(0, n as int) =~= entries@);
        }
        out
    }

    /// A point-in-time health snapshot, from the transport's matched peer
    /// count and the cache. Pure: nothing is mutated.
    pub fn get_connection_status(&self, publisher_count: usize) -> (r:
        ExecutionReportConnectionStatus)
        requires
            self.wf(),
        ensures
            r.domain_id == 0,
            r.topic_name@ == "EXECUTION_REPORT_TOPIC"@,
            r.schema_name@ == "DistributedATS_ExecutionReport::ExecutionReport"@,
            r.publisher_count == publisher_count,
            r.is_connected == (publisher_count > 0),
            r.tracked_orders == self.cache_map().len(),
    {
        ExecutionReportConnectionStatus {
            domain_id: 0,
            topic_name: execution_report_topic_name().to_owned(),
            schema_name: ExecutionReport::transport_type_name().to_owned(),
            publisher_count,
            is_connected: publisher_count > 0,
            tracked_orders: self.order_status_cache.len(),
        }
    }

    /// The audit line recorded for a processed report.
    pub fn log_execution_report(&self, report: &ExecutionReport) -> (r: String)
        ensures
            r@ == listener_audit_line(*report),
    {
        let mut s = "EXECUTION_REPORT_AUDIT: Topic='".to_owned();
        s.append(execution_report_topic_name());
        s.append("', ExecID=");
        s.append(report.exec_id.as_str());
        s.append(", OrderID=");
        s.append(report.order_id.as_str());
        s.append(", OrigClOrdID=");
        s.append(report.orig_cl_ord_id.as_str());
        s.append(", Symbol=");
        s.append(report.symbol.as_str());
        s.append(", Side=");
        s.append(u64_to_dec(report.side as u64).as_str());
        s.append(", Qty=");
        s.append(i32_to_dec(report.order_qty).as_str());
        s.append(", Price=");
        s.append(u64_to_dec(report.price).as_str());
        s.append(", ExecType=");
        s.append(report.get_execution_type());
        s.append(", OrdStatus=");
        s.append(report.get_execution_status());
        s.append(", CumQty=");
        s.append(i32_to_dec(report.cum_qty).as_str());
        s.append(", AvgPx=");
        s.append(u64_to_dec(report.avg_px).as_str());
        s.append(", Text='");
        s.append(report.text.as_str());
        s.append("'");
        s
    }
}

/// The audit line the listener records for each processed report.
pub open spec fn listener_audit_line(r: ExecutionReport) -> Seq<char> {
    "EXECUTION_REPORT_AUDIT: Topic='"@ + "EXECUTION_REPORT_TOPIC"@ + "', ExecID="@ + r.exec_id@
        + ", OrderID="@ + r.order_id@ + ", OrigClOrdID="@ + r.orig_cl_ord_id@ + ", Symbol="@
        + r.symbol@ + ", Side="@ + crate::decimal::dec_str(r.side as nat) + ", Qty="@
        + crate::decimal::dec_str_signed(r.order_qty as int) + ", Price="@ + crate::decimal::dec_str(
        r.price as nat,
    ) + ", ExecType="@ + crate::report::execution_report::execution_type_str(r.exec_type)
        + ", OrdStatus="@ + crate::report::execution_report::execution_status_str(r.ord_status)
        + ", CumQty="@ + crate::decimal::dec_str_signed(r.cum_qty as int) + ", AvgPx="@
        + crate::decimal::dec_str(r.avg_px as nat) + ", Text='"@ + r.text@ + "'"@
}

/// Point-in-time connectivity of the execution-report listener.
#[derive(Debug)]
pub struct ExecutionReportConnectionStatus {
    pub domain_id: u16,
    pub topic_name: String,
    pub schema_name: String,
    pub publisher_count: usize,
    pub is_connected: bool,
    pub tracked_orders: usize,
}

/// The rendering used when a listener status is shown.
pub open spec fn listener_status_line(s: ExecutionReportConnectionStatus) -> Seq<char> {
    "ExecutionReport Listener Status | Domain: "@ + crate::decimal::dec_str(s.domain_id as nat)
        + "\nTopic: '"@ + s.topic_name@ + "' -> '"@ + s.schema_name@ + "' - "@ + (if s.is_connected {
        "CONNECTED"@
    } else {
        "DISCONNECTED"@
    }) + " ("@ + crate::decimal::dec_str(s.publisher_count as nat) + " publishers)\nTracked Orders: "@
        + crate::decimal::dec_str(s.tracked_orders as nat)
}

impl ExecutionReportConnectionStatus {
    /// Renders this status for monitoring output.
    pub fn status_line(&self) -> (r: String)
        ensures
            r@ == listener_status_line(*self),
    {
        let mut s = "ExecutionReport Listener Status | Domain: ".to_owned();
        s.append(u64_to_dec(self.domain_id as u64).as_str());
        s.append("\nTopic: '");
        s.append(self.topic_name.as_str());
        s.append("' -> '");
        s.append(self.schema_name.as_str());
        s.append("' - ");
        if self.is_connected {
            s.append("CONNECTED");
        } else {
            s.append("DISCONNECTED");
        }
        s.append(" (");
        s.append(u64_to_dec(self.publisher_count as u64).as_str());
        s.append(" publishers)\nTracked Orders: ");
        s.append(u64_to_dec(self.tracked_orders as u64).as_str());
        s
    }
}

} // verus!
