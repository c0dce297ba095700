//! From matched services to the trains that arrived late.

use vstd::prelude::*;

use crate::service_query::ServiceMetrics;
use crate::train::{first_stop, opt_int, Train, TrainLocation};

verus! {

/// Why a run stops before it has an answer.
#[derive(Clone, Copy, Debug, PartialEq, Eq, Structural)]
pub enum PipelineError {
    /// The upstream source failed or answered with something unreadable.
    DataSource,
    /// A matched service names no train run.
    UnresolvedReference,
}

/// Every matched service names at least one run.
pub open spec fn all_resolvable(metrics: &ServiceMetrics) -> bool {
    forall|i: int|
        0 <= i < metrics.services@.len() ==> #[trigger] metrics.services@[i].service_attributes_metrics.rids@.len()
            > 0
}

/// The run to resolve for each matched service: the first one it names, in
/// the order of the services. Fails when some service names none.
pub fn first_identifiers(metrics: &ServiceMetrics) -> (r: Result<Vec<String>, PipelineError>)
    ensures
        r is Ok <==> all_resolvable(metrics),
        r matches Err(e) ==> e == PipelineError::UnresolvedReference,
        r matches Ok(ids) ==> ids@.len() == metrics.services@.len() && forall|i: int|
            0 <= i < ids@.len() ==> #[trigger] ids@[i] == metrics.services@[i].service_attributes_metrics.rids@[0],
{
    let services = &metrics.services;
    let mut ids: Vec<String> = Vec::new();
    let mut i: usize = 0;
    while i < services.len()
        invariant
            0 <= i <= services@.len(),
            services@ == metrics.services@,
            ids@.len() == i,
            forall|k: int| 0 <= k < i ==> services@[k].service_attributes_metrics.rids@.len() > 0,
            forall|k: int|
                0 <= k < i ==> #[trigger] ids@[k] == services@[k].service_attributes_metrics.rids@[0],
        decreases services@.len() - i,
    {
        let rids = &services[i].service_attributes_metrics.rids;
        if rids.len() == 0 {
            return Err(PipelineError::UnresolvedReference);
        }
        ids.push(rids[0].clone());
        i = i + 1;
    }
    Ok(ids)
}

/// The test that keeps a train: delayed by at least `minutes` at `dest`.
pub open spec fn delayed_pred(minutes: int, dest: Seq<char>) -> spec_fn(Train) -> bool {
    |t: Train| t.was_delayed(minutes, dest)
}

/// The trains delayed by at least `minutes` at `destination`, in the order
/// they came in.
pub fn select_delayed(trains: Vec<Train>, minutes: i64, destination: &String) -> (r: Vec<Train>)
    ensures
        r@ == trains@.filter(delayed_pred(minutes as int, destination@)),
{
    let ghost all = trains@;
    let ghost pred = delayed_pred(minutes as int, destination@);
    let mut rest = trains;
    let mut kept: Vec<Train> = Vec::new();
    let n = rest.len();
    let mut i: usize = 0;
    while i < n
        invariant
            0 <= i <= n,
            n == all.len(),
            pred == delayed_pred(minutes as int, destination@),
            rest@ == all.subrange(i as int, n as int),
            kept@ == all.subrange(0, i as int).filter(pred),
        decreases n - i,
    {
        let t = rest.remove(0);
        let ghost prefix = all.subrange(0, i as int + 1);
        proof {
            assert(t == all[i as int]);
            assert(prefix.drop_last() =~= all.subrange(0, i as int));
            assert(prefix.last() == t);
            assert(pred(t) == t.was_delayed(minutes as int, destination@));
            reveal(Seq::filter);
        }
        if t.was_delayed_on_arrival(minutes, destination) {
            kept.push(t);
            assert(kept@ == prefix.filter(pred));
        } else {
            assert(kept@ == prefix.filter(pred));
        }
        proof {
            assert(rest@ =~= all.subrange(i as int + 1, n as int));
        }
        i = i + 1;
    }
    assert(all.subrange(0, n as int) =~= all);
    kept
}

/// Positions in `s` of the items that `pred` keeps, in increasing order.
pub open spec fn kept_indices<A>(s: Seq<A>, pred: spec_fn(A) -> bool) -> Seq<int>
    decreases s.len(),
{
    if s.len() == 0 {
        Seq::empty()
    } else if pred(s.last()) {
        kept_indices(s.drop_last(), pred).push(s.len() - 1)
    } else {
        kept_indices(s.drop_last(), pred)
    }
}

proof fn lemma_kept_indices<A>(s: Seq<A>, pred: spec_fn(A) -> bool)
    ensures
        kept_indices(s, pred).len() == s.filter(pred).len(),
        forall|k: int|
            0 <= k < kept_indices(s, pred).len() ==> 0 <= #[trigger] kept_indices(s, pred)[k] < s.len()
                && s.filter(pred)[k] == s[kept_indices(s, pred)[k]],
        forall|k1: int, k2: int|
            0 <= k1 < k2 < kept_indices(s, pred).len() ==> #[trigger] kept_indices(s, pred)[k1]
                < #[trigger] kept_indices(s, pred)[k2],
    decreases s.len(),
{
    reveal(Seq::filter);
    if s.len() > 0 {
        lemma_kept_indices(s.drop_last(), pred);
    }
}

/// The delayed trains form a subsequence of the resolved ones: each is the
/// train at a position of the input, and those positions strictly increase.
pub proof fn lemma_delayed_keeps_order(trains: Seq<Train>, minutes: int, destination: Seq<char>)
    ensures
        ({
            let out = trains.filter(delayed_pred(minutes, destination));
            let idx = kept_indices(trains, delayed_pred(minutes, destination));
            &&& idx.len() == out.len()
            &&& forall|k: int| 0 <= k < idx.len() ==> 0 <= #[trigger] idx[k] < trains.len() && out[k] == trains[idx[k]]
            &&& forall|k1: int, k2: int| 0 <= k1 < k2 < idx.len() ==> #[trigger] idx[k1] < #[trigger] idx[k2]
        }),
{
    lemma_kept_indices(trains, delayed_pred(minutes, destination));
}

/// What is reported of a delayed train.
#[derive(Debug)]
pub struct DelayReport {
    pub scheduled_departure: String,
    pub departure_location: String,
    pub destination_location: String,
    pub delay_minutes: i64,
}

/// The report of a train at `destination`: scheduled departure and location
/// of its first stop, the destination stop's location, and the delay there.
/// Absent when the train has no stops, no stop at `destination`, or an
/// unknown delay.
pub fn delay_report(train: &Train, destination: &String) -> (r: Option<DelayReport>)
    ensures
        r is Some <==> (train.stops().len() > 0 && train.total_delay(destination@) is Some),
        r matches Some(rep) ==> {
            &&& rep.scheduled_departure@ == train.stops()[0].gbtt_ptd@
            &&& rep.departure_location@ == train.stops()[0].location@
            &&& rep.destination_location@ == train.stops()[first_stop(train.stops(), destination@)->0].location@
            &&& opt_int(Some(rep.delay_minutes)) == train.total_delay(destination@)
        },
{
    let departure: &TrainLocation = match train.get_departure_details() {
        Some(d) => d,
        None => return None,
    };
    let arrival: &TrainLocation = match train.get_destination_details(destination) {
        Some(d) => d,
        None => return None,
    };
    match train.get_total_delay(destination) {
        Some(delay) => Some(
            DelayReport {
                scheduled_departure: departure.gbtt_ptd.clone(),
                departure_location: departure.location.clone(),
                destination_location: arrival.location.clone(),
                delay_minutes: delay,
            },
        ),
        None => None,
    }
}

} // verus!
