//! The request-metrics model: what the middleware decides and records for
//! each completed request. The middleware captures method, path and a start
//! time before forwarding, and after the handler answers it turns the end
//! time and status into one observation. The recorder stands for the
//! counter/histogram pair: one observation carries both the count (one per
//! request) and the duration sample, tagged with method and raw path.

use vstd::prelude::*;
use crate::http::Method;

verus! {

/// One completed request as the instruments see it: the tags (method and the
/// raw request path, not a route pattern), the response status, and the
/// elapsed wall-clock time in nanoseconds.
pub struct Observation {
    pub method: Method,
    pub path: String,
    pub status: u16,
    pub duration_nanos: u64,
}

/// Builds the observation for one request from what the middleware captured:
/// method and path before forwarding, status and the two monotonic clock
/// readings around the handler.
pub fn observe(method: Method, path: &str, status: u16, start_nanos: u64, end_nanos: u64) -> (o:
    Observation)
    requires
        start_nanos <= end_nanos,
    ensures
        o.method == method,
        o.path@ == path@,
        o.status == status,
        o.duration_nanos == end_nanos - start_nanos,
{
    Observation { method, path: path.to_owned(), status, duration_nanos: end_nanos - start_nanos }
}

/// The record of all observations made so far, in order. It stands for the
/// exporter-side view of the counter: the counter's total is the number of
/// observations recorded.
pub struct MetricsRecorder {
    observations: Vec<Observation>,
}

impl View for MetricsRecorder {
    type V = Seq<Observation>;

    closed spec fn view(&self) -> Seq<Observation> {
        self.observations@
    }
}

impl MetricsRecorder {
    /// A recorder with nothing observed yet.
    pub fn new() -> (r: MetricsRecorder)
        ensures
            r@ == Seq::<Observation>::empty(),
    {
        MetricsRecorder { observations: Vec::new() }
    }

    /// The counter's total so far.
    pub open spec fn spec_total(&self) -> nat {
        self@.len()
    }

    /// Records one completed request: exactly one observation is appended.
    pub fn record(&mut self, o: Observation)
        ensures
            final(self)@ == old(self)@.push(o),
            final(self).spec_total() == old(self).spec_total() + 1,
    {
        self.observations.push(o);
    }

    /// The counter's total so far.
    pub fn total(&self) -> (n: usize)
        ensures
            n == self.spec_total(),
    {
        self.observations.len()
    }

    /// The observation at position `i`, in recording order.
    pub fn get(&self, i: usize) -> (o: &Observation)
        requires
            i < self@.len(),
        ensures
            *o == self@[i as int],
    {
        &self.observations[i]
    }
}

/// Records the observation only if the instruments are already initialized;
/// before initialization the observation is skipped, never a failure. Under
/// normal startup the slot is filled before the first request.
pub fn record_if_ready(slot: Option<MetricsRecorder>, o: Observation) -> (r: Option<
    MetricsRecorder,
>)
    ensures
        slot is None ==> r is None,
        slot matches Some(m) ==> (r matches Some(m2) && m2@ == m@.push(o)),
{
    match slot {
        Option::Some(mut recorder) => {
            recorder.record(o);
            Option::Some(recorder)
        },
        Option::None => Option::None,
    }
}

/// The counter counts requests: each recorded request raises the total by
/// exactly one, and a fresh recorder totals zero, so after any run of
/// requests the total equals the number of requests recorded.
pub proof fn lemma_total_counts_requests(before: MetricsRecorder, after: MetricsRecorder, o: Observation)
    requires
        after@ == before@.push(o),
    ensures
        after.spec_total() == before.spec_total() + 1,
{
}

} // verus!
