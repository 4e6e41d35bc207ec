//! Event intake and fan-out: what one take from the transport yielded, the
//! observer capability, and the registry that dispatches each event to every
//! registered observer in registration order.

use vstd::prelude::*;

verus! {

/// What one take from the transport subscription yielded: a decoded event,
/// or a sample that carried no usable value.
pub enum Sample<E> {
    Value(E),
    Malformed,
}

/// The well-formed events of a drain, in arrival order; malformed samples
/// contribute nothing.
pub open spec fn values_of<E>(s: Seq<Sample<E>>) -> Seq<E>
    decreases s.len(),
{
    if s.len() == 0 {
        Seq::empty()
    } else {
        let rest = values_of(s.drop_last());
        match s.last() {
            Sample::Value(e) => rest.push(e),
            Sample::Malformed => rest,
        }
    }
}

/// A registered unit of logic invoked once per processed event. Observers
/// are opaque to the library: nothing is assumed about what an invocation
/// does. Dispatch does not isolate observer failures: an observer must
/// contain its own, and must not block, or it stalls ingestion of the events
/// behind it.
pub trait Observer<E> {
    fn on_event(&self, event: &E);
}

/// The invocations one dispatch performs: observer index paired with the
/// event, one record per registered observer, in registration order.
pub open spec fn dispatch_records<E>(k: nat, event: E) -> Seq<(int, E)> {
    Seq::new(k, |i: int| (i, event))
}

/// The invocations a whole drain performs: the records of each well-formed
/// event in turn, for a registry of k observers.
pub open spec fn batch_records<E>(k: nat, events: Seq<E>) -> Seq<(int, E)>
    decreases events.len(),
{
    if events.len() == 0 {
        Seq::empty()
    } else {
        batch_records(k, events.drop_last()) + dispatch_records(k, events.last())
    }
}

/// One dispatch invokes each of the k registered observers exactly once, in
/// registration order, with the dispatched event.
pub proof fn lemma_dispatch_once_each<E>(k: nat, event: E)
    ensures
        dispatch_records(k, event).len() == k,
        forall|j: int| 0 <= j < k ==> dispatch_records(k, event)[j] == (j, event),
{
}

/// An ordered collection of observers. Observers are only ever appended, and
/// every dispatch reaches all of them; the ghost `history` records each
/// invocation made, in the order it was made.
pub struct CallbackRegistry<E, O: Observer<E>> {
    pub observers: Vec<O>,
    pub history: Ghost<Seq<(int, E)>>,
}

impl<E, O: Observer<E>> CallbackRegistry<E, O> {
    /// The registered observers, in registration order.
    pub open spec fn observers_seq(&self) -> Seq<O> {
        self.observers@
    }

    /// Every invocation dispatched so far: observer index and event, oldest
    /// first.
    pub open spec fn history_seq(&self) -> Seq<(int, E)> {
        self.history@
    }

    /// An empty registry that has dispatched nothing.
    pub fn new() -> (r: Self)
        ensures
            r.observers_seq() == Seq::<O>::empty(),
            r.history_seq() == Seq::<(int, E)>::empty(),
    {
        CallbackRegistry { observers: Vec::new(), history: Ghost(Seq::empty()) }
    }

    /// Appends an observer. Observers are never removed once registered.
    pub fn register(&mut self, observer: O)
        ensures
            final(self).observers_seq() == old(self).observers_seq().push(observer),
            final(self).history_seq() == old(self).history_seq(),
    {
        self.observers.push(observer);
    }

    /// Invokes every registered observer with the event, synchronously and in
    /// registration order: the history grows by exactly one record per
    /// observer, index order, all before this call returns.
    pub fn dispatch(&mut self, event: &E)
        ensures
            final(self).observers_seq() == old(self).observers_seq(),
            final(self).history_seq() == old(self).history_seq() + dispatch_records(
                old(self).observers_seq().len(),
                *event,
            ),
    {
        let ghost pre = self.history@;
        let n = self.observers.len();
        let mut i: usize = 0;
        while i < n
            invariant
                n == self.observers@.len(),
                0 <= i <= n,
                self.observers@ == old(self).observers@,
                self.history@ == pre + dispatch_records(i as nat, *event),
            decreases n - i,
        {
            self.observers[i].on_event(event);
            proof {
                assert(pre + dispatch_records(i as nat, *event) + seq![(i as int, *event)] =~= pre
                    + dispatch_records((i + 1) as nat, *event));
            }
            self.history = Ghost(self.history@ + seq![(i as int, *event)]);
            i += 1;
        }
        proof {
            assert(dispatch_records(n as nat, *event) == dispatch_records(
                old(self).observers_seq().len(),
                *event,
            ));
        }
    }
}

} // verus!
