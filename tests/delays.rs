use train_delay::day::{classify_weekday, format_date, process_day_type, CalendarDate, DayType};
use train_delay::pipeline::{delay_report, first_identifiers, select_delayed, PipelineError};
use train_delay::service_query::{
    MetricsRequest, Service, ServiceAttributes, ServiceMetrics, ServiceMetricsHeader, ServiceQuery,
};
use train_delay::train::{
    arrival_delay, delay_between, details_request, Train, TrainDetails, TrainLocation,
};

fn date(y: i32, m: u32, d: u32) -> CalendarDate {
    CalendarDate::new(y, m, d).unwrap()
}

fn stop(location: &str, ptd: &str, pta: &str, ta: &str) -> TrainLocation {
    TrainLocation {
        location: location.to_string(),
        gbtt_ptd: ptd.to_string(),
        gbtt_pta: pta.to_string(),
        actual_td: String::new(),
        actual_ta: ta.to_string(),
        late_canc_reason: String::new(),
    }
}

fn train(rid: &str, locations: Vec<TrainLocation>) -> Train {
    Train {
        service_attributes_details: TrainDetails {
            date_of_service: "2023-03-10".to_string(),
            toc_code: "GW".to_string(),
            rid: rid.to_string(),
            locations,
        },
    }
}

fn late_train(rid: &str, scheduled: &str, actual: &str) -> Train {
    train(
        rid,
        vec![
            stop("PAD", "1200", "", ""),
            stop("RDG", "1215", "1214", "1216"),
            stop("BTH", "", scheduled, actual),
        ],
    )
}

fn service(rids: &[&str]) -> Service {
    Service {
        service_attributes_metrics: ServiceAttributes {
            origin_location: "PAD".to_string(),
            destination_location: "BTH".to_string(),
            gbtt_ptd: "1200".to_string(),
            gbtt_pta: "1330".to_string(),
            toc_code: "GW".to_string(),
            matched_services: "1".to_string(),
            rids: rids.iter().map(|r| r.to_string()).collect(),
        },
        metrics: Vec::new(),
    }
}

fn metrics(services: Vec<Service>) -> ServiceMetrics {
    ServiceMetrics {
        header: ServiceMetricsHeader {
            from_location: "PAD".to_string(),
            to_location: "BTH".to_string(),
        },
        services,
    }
}

fn request(q: &ServiceQuery) -> MetricsRequest {
    q.metrics_request()
}

#[test]
fn classify_march_2023() {
    assert_eq!(process_day_type(&date(2023, 3, 10)), DayType::Weekday);
    assert_eq!(process_day_type(&date(2023, 3, 11)), DayType::Saturday);
    assert_eq!(process_day_type(&date(2023, 3, 12)), DayType::Sunday);
}

#[test]
fn classify_full_week_across_year_boundary() {
    let expected = [
        (2022, 12, 29, DayType::Weekday),
        (2022, 12, 30, DayType::Weekday),
        (2022, 12, 31, DayType::Saturday),
        (2023, 1, 1, DayType::Sunday),
        (2023, 1, 2, DayType::Weekday),
        (2023, 1, 3, DayType::Weekday),
        (2023, 1, 4, DayType::Weekday),
        (2024, 2, 29, DayType::Weekday),
        (2000, 1, 1, DayType::Saturday),
        (0, 1, 1, DayType::Saturday),
        (-1, 12, 31, DayType::Weekday),
    ];
    for (y, m, d, t) in expected {
        assert_eq!(process_day_type(&date(y, m, d)), t, "{}-{}-{}", y, m, d);
    }
}

#[test]
fn classify_weekday_numbers() {
    for n in 1..=5 {
        assert_eq!(classify_weekday(n), DayType::Weekday);
    }
    assert_eq!(classify_weekday(6), DayType::Saturday);
    assert_eq!(classify_weekday(7), DayType::Sunday);
    assert_eq!(classify_weekday(0), DayType::Weekday);
    assert_eq!(classify_weekday(8), DayType::Weekday);
}

#[test]
fn calendar_dates_are_checked() {
    assert!(CalendarDate::new(2023, 2, 29).is_none());
    assert!(CalendarDate::new(2024, 2, 29).is_some());
    assert!(CalendarDate::new(1900, 2, 29).is_none());
    assert!(CalendarDate::new(2023, 13, 1).is_none());
    assert!(CalendarDate::new(2023, 4, 31).is_none());
    assert!(CalendarDate::new(2023, 1, 0).is_none());
}

#[test]
fn dates_format_as_iso() {
    assert_eq!(format_date(&date(2023, 3, 10)), "2023-03-10");
    assert_eq!(format_date(&date(5, 1, 2)), "0005-01-02");
    assert_eq!(format_date(&date(-1, 1, 1)), "-0001-01-01");
    assert_eq!(format_date(&date(10000, 12, 31)), "+10000-12-31");
}

#[test]
fn metrics_request_fields() {
    let q = ServiceQuery::new("PAD".to_string(), "BTH".to_string(), 9, 14, date(2023, 3, 11));
    let r = request(&q);
    assert_eq!(r.days, "SATURDAY");
    assert_eq!(r.from_date, "2023-03-11");
    assert_eq!(r.to_date, "2023-03-11");
    assert_eq!(r.from_loc, "PAD");
    assert_eq!(r.to_loc, "BTH");
    assert_eq!(r.from_time, "900");
    assert_eq!(r.to_time, "1400");
}

#[test]
fn metrics_request_weekday_and_negative_hour() {
    let q = ServiceQuery::new("A".to_string(), "B".to_string(), -1, 0, date(2023, 3, 10));
    let r = request(&q);
    assert_eq!(r.days, "WEEKDAY");
    assert_eq!(r.from_time, "-100");
    assert_eq!(r.to_time, "000");
    let q = ServiceQuery::new("A".to_string(), "B".to_string(), 7, 8, date(2023, 3, 12));
    assert_eq!(request(&q).days, "SUNDAY");
}

#[test]
fn details_request_carries_rid() {
    assert_eq!(details_request("202303107654321").rid, "202303107654321");
}

#[test]
fn delay_of_seventeen_minutes() {
    let t = late_train("1", "1230", "1247");
    let dest = "BTH".to_string();
    assert_eq!(t.get_total_delay(&dest), Some(17));
    assert!(t.was_delayed_on_arrival(15, &dest));
    assert!(t.was_delayed_on_arrival(17, &dest));
    assert!(!t.was_delayed_on_arrival(20, &dest));
}

#[test]
fn unparsable_arrival_is_not_delayed() {
    let t = late_train("1", "1230", "");
    let dest = "BTH".to_string();
    assert_eq!(t.get_total_delay(&dest), None);
    for m in [i64::MIN, -100, 0, 15, 1000] {
        assert!(!t.was_delayed_on_arrival(m, &dest));
    }
}

#[test]
fn missing_destination_is_excluded() {
    let t = late_train("1", "1230", "1300");
    let dest = "XYZ".to_string();
    assert!(t.get_destination_details(&dest).is_none());
    assert_eq!(t.get_total_delay(&dest), None);
    assert!(!t.was_delayed_on_arrival(0, &dest));
    assert!(select_delayed(vec![t], 0, &dest).is_empty());
}

#[test]
fn delay_swaps_sign() {
    assert_eq!(arrival_delay("1247", "1230"), Some(17));
    assert_eq!(arrival_delay("1230", "1247"), Some(-17));
    assert_eq!(arrival_delay("0005", "2355"), Some(-1430));
    assert_eq!(arrival_delay("2355", "0005"), Some(1430));
    assert_eq!(arrival_delay("", "1230"), None);
    assert_eq!(arrival_delay("1230", "abcd"), None);
}

#[test]
fn delay_between_times() {
    assert_eq!(delay_between(Some((13, 5)), Some((12, 50))), Some(15));
    assert_eq!(delay_between(Some((0, 0)), Some((23, 59))), Some(-1439));
    assert_eq!(delay_between(None, Some((1, 0))), None);
    assert_eq!(delay_between(Some((1, 0)), None), None);
}

#[test]
fn early_arrival_is_negative() {
    let t = late_train("1", "1230", "1226");
    let dest = "BTH".to_string();
    assert_eq!(t.get_total_delay(&dest), Some(-4));
    assert!(!t.was_delayed_on_arrival(0, &dest));
    assert!(t.was_delayed_on_arrival(-4, &dest));
}

#[test]
fn lower_threshold_stays_delayed() {
    let t = late_train("1", "1230", "1247");
    let dest = "BTH".to_string();
    for m in [17, 16, 15, 0, -5, i64::MIN] {
        assert!(t.was_delayed_on_arrival(m, &dest));
    }
}

#[test]
fn first_matching_stop_is_the_destination() {
    let t = train(
        "1",
        vec![
            stop("PAD", "1200", "", ""),
            stop("BTH", "1300", "1230", "1250"),
            stop("BTH", "", "1400", "1401"),
        ],
    );
    let dest = "BTH".to_string();
    assert_eq!(t.get_destination_details(&dest).unwrap().gbtt_pta, "1230");
    assert_eq!(t.get_total_delay(&dest), Some(20));
    assert_eq!(t.get_departure_details().unwrap().location, "PAD");
}

#[test]
fn departure_of_empty_train() {
    let t = train("1", Vec::new());
    assert!(t.get_departure_details().is_none());
    assert!(delay_report(&t, &"BTH".to_string()).is_none());
}

#[test]
fn selection_keeps_order() {
    let trains = vec![
        late_train("a", "1230", "1300"),
        late_train("b", "1230", "1231"),
        late_train("c", "1230", "1245"),
        late_train("d", "1230", ""),
        late_train("e", "1230", "1330"),
    ];
    let out = select_delayed(trains, 15, &"BTH".to_string());
    let rids: Vec<&str> = out
        .iter()
        .map(|t| t.service_attributes_details.rid.as_str())
        .collect();
    assert_eq!(rids, vec!["a", "c", "e"]);
}

#[test]
fn first_identifier_only() {
    let m = metrics(vec![service(&["A123", "B456"]), service(&["C789"])]);
    assert_eq!(first_identifiers(&m), Ok(vec!["A123".to_string(), "C789".to_string()]));
}

#[test]
fn service_without_identifier_is_unresolved() {
    let m = metrics(vec![service(&["A123"]), service(&[])]);
    assert_eq!(first_identifiers(&m), Err(PipelineError::UnresolvedReference));
    assert_eq!(first_identifiers(&metrics(Vec::new())), Ok(Vec::new()));
}

#[test]
fn report_of_delayed_train() {
    let t = late_train("1", "1230", "1247");
    let r = delay_report(&t, &"BTH".to_string()).unwrap();
    assert_eq!(r.scheduled_departure, "1200");
    assert_eq!(r.departure_location, "PAD");
    assert_eq!(r.destination_location, "BTH");
    assert_eq!(r.delay_minutes, 17);
    assert!(delay_report(&t, &"XYZ".to_string()).is_none());
}
