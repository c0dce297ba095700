//! Train records and the delay at a destination stop.

use vstd::prelude::*;

verus! {

/// One stop of a train run; times are "HHMM" tokens.
#[derive(Debug)]
pub struct TrainLocation {
    pub location: String,
    pub gbtt_ptd: String,
    pub gbtt_pta: String,
    pub actual_td: String,
    pub actual_ta: String,
    pub late_canc_reason: String,
}

/// One specific train run, its stops in journey order.
#[derive(Debug)]
pub struct TrainDetails {
    pub date_of_service: String,
    pub toc_code: String,
    pub rid: String,
    pub locations: Vec<TrainLocation>,
}

/// A resolved train record.
#[derive(Debug)]
pub struct Train {
    pub service_attributes_details: TrainDetails,
}

/// The detail request for one train run.
#[derive(Debug)]
pub struct DetailsRequest {
    pub rid: String,
}

/// The detail request keyed by `rid`, and nothing else.
pub fn details_request(rid: &str) -> (r: DetailsRequest)
    ensures
        r.rid@ == rid@,
{
    DetailsRequest { rid: rid.to_owned() }
}

/// What chrono's "%H%M" parser makes of a text: hour and minute, or nothing.
pub uninterp spec fn hhmm_of(s: Seq<char>) -> Option<(u32, u32)>;

/// Relies on chrono's `NaiveTime::parse_from_str` with "%H%M" and
/// `Timelike::{hour, minute}`: a parsed time has an hour below 24 and a minute
/// below 60, and empty input does not parse.
#[verifier::external_body]
fn parse_hhmm(s: &str) -> (r: Option<(u32, u32)>)
    ensures
        r == hhmm_of(s@),
        r matches Some(t) ==> t.0 < 24 && t.1 < 60,
        s@.len() == 0 ==> r is None,
{
    chrono::NaiveTime::parse_from_str(s, "%H%M").ok().map(
        |t| (chrono::Timelike::hour(&t), chrono::Timelike::minute(&t)),
    )
}

pub open spec fn minute_of_day(t: (u32, u32)) -> int {
    t.0 * 60 + t.1
}

/// Signed minutes from `scheduled` to `actual`, when both are known.
pub open spec fn delay_minutes(actual: Option<(u32, u32)>, scheduled: Option<(u32, u32)>) -> Option<int> {
    match (actual, scheduled) {
        (Some(a), Some(s)) => Some(minute_of_day(a) - minute_of_day(s)),
        _ => None,
    }
}

pub open spec fn opt_int(r: Option<i64>) -> Option<int> {
    match r {
        Some(v) => Some(v as int),
        None => None,
    }
}

/// Delay between two "HHMM" tokens: actual minus scheduled, absent when
/// either does not parse.
pub open spec fn arrival_delay_spec(actual: Seq<char>, scheduled: Seq<char>) -> Option<int> {
    delay_minutes(hhmm_of(actual), hhmm_of(scheduled))
}

/// Signed minutes from a scheduled to an actual time of day, absent when
/// either is.
pub fn delay_between(actual: Option<(u32, u32)>, scheduled: Option<(u32, u32)>) -> (r: Option<i64>)
    ensures
        opt_int(r) == delay_minutes(actual, scheduled),
{
    match (actual, scheduled) {
        (Some(a), Some(s)) => {
            let am: i64 = a.0 as i64 * 60 + a.1 as i64;
            let sm: i64 = s.0 as i64 * 60 + s.1 as i64;
            Some(am - sm)
        },
        _ => None,
    }
}

/// Minutes by which `actual` is later than `scheduled` (negative when early),
/// absent when either token does not parse as "HHMM".
pub fn arrival_delay(actual: &str, scheduled: &str) -> (r: Option<i64>)
    ensures
        opt_int(r) == arrival_delay_spec(actual@, scheduled@),
{
    let a = parse_hhmm(actual);
    let s = parse_hhmm(scheduled);
    delay_between(a, s)
}

/// `i` is the first stop at `dest`.
pub open spec fn is_first_stop(stops: Seq<TrainLocation>, dest: Seq<char>, i: int) -> bool {
    &&& 0 <= i < stops.len()
    &&& stops[i].location@ == dest
    &&& forall|j: int| 0 <= j < i ==> stops[j].location@ != dest
}

pub open spec fn has_stop(stops: Seq<TrainLocation>, dest: Seq<char>) -> bool {
    exists|i: int| 0 <= i < stops.len() && stops[i].location@ == dest
}

/// Index of the first stop at `dest`, if any stop is there.
pub open spec fn first_stop(stops: Seq<TrainLocation>, dest: Seq<char>) -> Option<int> {
    if has_stop(stops, dest) {
        Some(choose|i: int| is_first_stop(stops, dest, i))
    } else {
        None
    }
}

/// Two first stops are the same stop.
proof fn lemma_first_stop_unique(stops: Seq<TrainLocation>, dest: Seq<char>, i: int)
    requires
        is_first_stop(stops, dest, i),
    ensures
        first_stop(stops, dest) == Some(i),
{
    let k = choose|k: int| is_first_stop(stops, dest, k);
    assert(is_first_stop(stops, dest, k));
    if k < i {
        assert(stops[k].location@ != dest);
    } else if i < k {
        assert(stops[i].location@ != dest);
    }
}

impl Train {
    pub open spec fn stops(&self) -> Seq<TrainLocation> {
        self.service_attributes_details.locations@
    }

    /// Delay at the first stop at `dest`, absent when there is none or its
    /// times do not parse.
    pub open spec fn total_delay(&self, dest: Seq<char>) -> Option<int> {
        match first_stop(self.stops(), dest) {
            Some(i) => arrival_delay_spec(self.stops()[i].actual_ta@, self.stops()[i].gbtt_pta@),
            None => None,
        }
    }

    /// The delay at `dest` is known and at least `minutes`.
    pub open spec fn was_delayed(&self, minutes: int, dest: Seq<char>) -> bool {
        match self.total_delay(dest) {
            Some(d) => d >= minutes,
            None => false,
        }
    }

    /// The first stop, taken as the departure.
    pub fn get_departure_details(&self) -> (r: Option<&TrainLocation>)
        ensures
            r is Some <==> self.stops().len() > 0,
            r matches Some(l) ==> *l == self.stops()[0],
    {
        if self.service_attributes_details.locations.len() > 0 {
            Some(&self.service_attributes_details.locations[0])
        } else {
            None
        }
    }

    /// The first stop whose location is `destination`.
    pub fn get_destination_details(&self, destination: &String) -> (r: Option<&TrainLocation>)
        ensures
            r is Some <==> first_stop(self.stops(), destination@) is Some,
            r matches Some(l) ==> *l == self.stops()[first_stop(self.stops(), destination@)->0],
    {
        let locations = &self.service_attributes_details.locations;
        let mut i: usize = 0;
        while i < locations.len()
            invariant
                0 <= i <= locations@.len(),
                locations@ == self.stops(),
                forall|j: int| 0 <= j < i ==> locations@[j].location@ != destination@,
            decreases locations@.len() - i,
        {
            if locations[i].location == *destination {
                proof {
                    lemma_first_stop_unique(self.stops(), destination@, i as int);
                }
                return Some(&locations[i]);
            }
            i = i + 1;
        }
        assert(!has_stop(self.stops(), destination@));
        None
    }

    /// Minutes late at the first stop at `destination` (negative when early);
    /// absent when no stop is there or its arrival times do not parse.
    pub fn get_total_delay(&self, destination: &String) -> (r: Option<i64>)
        ensures
            opt_int(r) == self.total_delay(destination@),
    {
        match self.get_destination_details(destination) {
            Some(d) => arrival_delay(d.actual_ta.as_str(), d.gbtt_pta.as_str()),
            None => None,
        }
    }

    /// Whether the train reached `destination` at least `minutes` late; an
    /// unknown delay counts as not delayed.
    pub fn was_delayed_on_arrival(&self, minutes: i64, destination: &String) -> (r: bool)
        ensures
            r == self.was_delayed(minutes as int, destination@),
    {
        match self.get_total_delay(destination) {
            Some(delay) => delay >= minutes,
            None => false,
        }
    }
}

/// Swapping the actual and scheduled times negates the delay, and one is
/// known exactly when the other is.
pub proof fn lemma_delay_antisymmetric(actual: Seq<char>, scheduled: Seq<char>)
    ensures
        arrival_delay_spec(actual, scheduled) is Some <==> arrival_delay_spec(scheduled, actual) is Some,
        arrival_delay_spec(actual, scheduled) matches Some(d) ==> arrival_delay_spec(scheduled, actual)
            == Some(-d),
{
}

/// A train delayed by a threshold is delayed by every lower threshold.
pub proof fn lemma_was_delayed_monotonic(train: Train, destination: Seq<char>, minutes: int, lower: int)
    requires
        train.was_delayed(minutes, destination),
        lower <= minutes,
    ensures
        train.was_delayed(lower, destination),
{
}

} // verus!
