//! The station-pair query and the upstream lookup it becomes.

use vstd::prelude::*;

use crate::day::{
    day_type_of, day_type_token, day_type_token_spec, format_date, iso_date_text, process_day_type,
    CalendarDate,
};
use crate::text::{decimal_text, signed_decimal};
use vstd::string::StringExecFns;

verus! {

/// Stations and times of a matched service, and the runs that operated it.
#[derive(Debug)]
pub struct ServiceAttributes {
    pub origin_location: String,
    pub destination_location: String,
    pub gbtt_ptd: String,
    pub gbtt_pta: String,
    pub toc_code: String,
    pub matched_services: String,
    pub rids: Vec<String>,
}

/// Punctuality figures of a matched service.
#[derive(Debug)]
pub struct ServiceMetric {
    pub tolerance_value: String,
    pub num_not_tolerance: String,
    pub num_tolerance: String,
    pub percent_tolerance: String,
    pub global_tolerance: bool,
}

/// One service that the lookup matched.
#[derive(Debug)]
pub struct Service {
    pub service_attributes_metrics: ServiceAttributes,
    pub metrics: Vec<ServiceMetric>,
}

/// The stations that a lookup answer is about.
#[derive(Debug)]
pub struct ServiceMetricsHeader {
    pub from_location: String,
    pub to_location: String,
}

/// The lookup's answer: the matched services in the order given.
#[derive(Debug)]
pub struct ServiceMetrics {
    pub header: ServiceMetricsHeader,
    pub services: Vec<Service>,
}

/// A station pair, an hour window and a day.
#[derive(Debug)]
pub struct ServiceQuery {
    pub departure_station: String,
    pub destination_station: String,
    pub departure_hour: i8,
    pub arrival_hour: i8,
    pub date: CalendarDate,
}

/// The fields of a lookup request, each as the upstream expects it.
#[derive(Debug)]
pub struct MetricsRequest {
    pub days: String,
    pub from_date: String,
    pub to_date: String,
    pub from_loc: String,
    pub to_loc: String,
    pub from_time: String,
    pub to_time: String,
}

/// An hour as a time token: its decimal digits followed by "00".
pub open spec fn hour_token_spec(hour: int) -> Seq<char> {
    signed_decimal(hour) + seq!['0', '0']
}

/// An hour as the lookup's time token: its decimal digits, then "00".
pub fn hour_token(hour: i8) -> (r: String)
    ensures
        r@ == hour_token_spec(hour as int),
{
    let mut token = decimal_text(hour);
    token.append("00");
    proof {
        reveal_strlit("00");
    }
    assert("00"@ =~= seq!['0', '0']);
    token
}

impl ServiceQuery {
    pub open spec fn wf(&self) -> bool {
        self.date.wf()
    }

    pub fn new(
        departure_station: String,
        destination_station: String,
        departure_hour: i8,
        arrival_hour: i8,
        date: CalendarDate,
    ) -> (r: ServiceQuery)
        ensures
            r.departure_station == departure_station,
            r.destination_station == destination_station,
            r.departure_hour == departure_hour,
            r.arrival_hour == arrival_hour,
            r.date == date,
    {
        ServiceQuery { departure_station, destination_station, departure_hour, arrival_hour, date }
    }

    /// The lookup request for this query: the day type of its date, the date
    /// as both bounds, the two stations, and each hour followed by "00".
    pub fn metrics_request(&self) -> (r: MetricsRequest)
        requires
            self.wf(),
        ensures
            r.days@ == day_type_token_spec(day_type_of(self.date.weekday())),
            r.from_date@ == iso_date_text(
                self.date.year as int,
                self.date.month as int,
                self.date.day as int,
            ),
            r.to_date@ == r.from_date@,
            r.from_loc@ == self.departure_station@,
            r.to_loc@ == self.destination_station@,
            r.from_time@ == hour_token_spec(self.departure_hour as int),
            r.to_time@ == hour_token_spec(self.arrival_hour as int),
    {
        let day_type = process_day_type(&self.date);
        let formatted_date = format_date(&self.date);
        MetricsRequest {
            days: day_type_token(day_type),
            from_date: formatted_date.clone(),
            to_date: formatted_date,
            from_loc: self.departure_station.clone(),
            to_loc: self.destination_station.clone(),
            from_time: hour_token(self.departure_hour),
            to_time: hour_token(self.arrival_hour),
        }
    }
}

} // verus!
