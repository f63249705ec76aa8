use std::io::Write;

use vaccinate::config::{Address, Config, CvsPharmacy, Pushover, Walgreens};
use vaccinate::cycle::{plan_cycle, CycleRun, CycleTask, ProviderKind};
use vaccinate::date::{today_local, tomorrow_local, Date};
use vaccinate::errors::report;
use vaccinate::json::parse_response;
use vaccinate::pushover::{Notification, Notifier};
use vaccinate::walgreens::{PerformOutcome, Provider};

fn test_address() -> Address {
    Address {
        city: String::from("Victor"),
        latitude: String::from("42.9825"),
        longitude: String::from("-77.4089"),
        state: String::from("NY"),
        street2: None,
        street: String::from("1 Main St"),
        zipcode: 14564,
        zipcode_ext: None,
    }
}

fn test_config(debug: bool, pushover: bool, walgreens: bool, cvs: bool) -> Config {
    Config {
        address: test_address(),
        cvs: if cvs {
            Some(CvsPharmacy { email: String::from("a@b.c"), password: String::from("pw") })
        } else {
            None
        },
        debug,
        name: String::from("Thom"),
        pushover: if pushover {
            Some(Pushover {
                app_token: String::from("app-token"),
                device: None,
                user_token: String::from("user-token"),
            })
        } else {
            None
        },
        walgreens: if walgreens {
            Some(Walgreens { email: String::from("a@b.c"), password: String::from("pw") })
        } else {
            None
        },
    }
}

fn gzip(text: &str) -> Vec<u8> {
    let mut enc = libflate::gzip::Encoder::new(Vec::new()).unwrap();
    enc.write_all(text.as_bytes()).unwrap();
    enc.finish().into_result().unwrap()
}

const GOOD_BODY: &str = "{\"appointmentsAvailable\":true,\"days\":3,\"radius\":25,\"stateCode\":\"NY\",\"stateName\":\"New York\",\"zipCode\":\"14564\"}";

// ---------------------------------------------------------------- cycle

#[test]
fn plan_runs_every_configured_provider() {
    let config = test_config(false, false, true, true);
    let plan = plan_cycle(&config);
    assert_eq!(plan.len(), 2);
    assert!(matches!(plan[0], CycleTask::Run(ProviderKind::Cvs)));
    assert!(matches!(plan[1], CycleTask::Run(ProviderKind::Walgreens)));
}

#[test]
fn plan_skips_every_missing_provider() {
    let config = test_config(false, false, false, false);
    let plan = plan_cycle(&config);
    assert_eq!(plan.len(), 2);
    match &plan[0] {
        CycleTask::Skip(ProviderKind::Cvs, line) => {
            assert_eq!(line, "No CVS configuration. Moving on.");
        }
        other => panic!("expected a CVS no-op, got {:?}", discriminant_name(other)),
    }
    match &plan[1] {
        CycleTask::Skip(ProviderKind::Walgreens, line) => {
            assert_eq!(line, "No Walgreens configuration. Moving on.");
        }
        other => panic!("expected a Walgreens no-op, got {:?}", discriminant_name(other)),
    }
}

fn discriminant_name(t: &CycleTask) -> &'static str {
    match t {
        CycleTask::Run(_) => "Run",
        CycleTask::Skip(_, _) => "Skip",
    }
}

#[test]
fn plan_mixes_runs_and_skips() {
    let config = test_config(false, false, true, false);
    let plan = plan_cycle(&config);
    assert!(matches!(plan[0], CycleTask::Skip(ProviderKind::Cvs, _)));
    assert!(matches!(plan[1], CycleTask::Run(ProviderKind::Walgreens)));
}

#[test]
fn cycle_barrier_blocks_sleep_until_all_collected() {
    let mut run = CycleRun::begin(2);
    assert!(!run.may_sleep());
    run.collect();
    assert!(!run.may_sleep());
    run.collect();
    assert!(run.may_sleep());
}

// --------------------------------------------------------------- report

#[test]
fn report_formats_the_error_line() {
    let config = test_config(false, false, true, false);
    let plan = report("walgreens", String::from("boom"), &config);
    assert_eq!(plan.error_line, "[walgreens] boom");
    assert!(plan.notification.is_none());
}

#[test]
fn report_escalates_only_in_debug_with_credentials() {
    let config = test_config(true, true, true, false);
    let plan = report("walgreens", String::from("boom"), &config);
    let n = plan.notification.expect("debug mode with credentials escalates");
    assert_eq!(n.title, "Vaccinate Error");
    assert_eq!(n.message, "[walgreens] boom");

    let no_creds = test_config(true, false, true, false);
    let plan = report("walgreens", String::from("boom"), &no_creds);
    assert!(plan.notification.is_none());

    let no_debug = test_config(false, true, true, false);
    let plan = report("walgreens", String::from("boom"), &no_debug);
    assert!(plan.notification.is_none());
}

// ------------------------------------------------------------- notifier

#[test]
fn notifier_exists_only_with_credentials() {
    assert!(Notifier::for_config(&test_config(false, false, false, false)).is_none());
    let n = Notifier::for_config(&test_config(false, true, false, false));
    assert!(n.is_some());
    assert_eq!(n.unwrap().app_token, "app-token");
}

#[test]
fn payload_without_device() {
    let n = Notifier {
        app_token: String::from("tok"),
        device: None,
        user_token: String::from("usr"),
    };
    let p = n.payload(&Notification {
        title: String::from("Vaccinate!"),
        message: String::from("Walgreens has availability in 14564."),
    });
    assert_eq!(
        p,
        "{\"device\":null,\"message\":\"Walgreens has availability in 14564.\",\"title\":\"Vaccinate!\",\"token\":\"tok\",\"user\":\"usr\"}"
    );
}

#[test]
fn payload_with_device_and_escaping() {
    let n = Notifier {
        app_token: String::from("to\\k"),
        device: Some(String::from("pho\"ne")),
        user_token: String::from("usr"),
    };
    let p = n.payload(&Notification {
        title: String::from("a\"b"),
        message: String::from("line1\nline2"),
    });
    assert_eq!(
        p,
        "{\"device\":\"pho\\\"ne\",\"message\":\"line1\\u000aline2\",\"title\":\"a\\\"b\",\"token\":\"to\\\\k\",\"user\":\"usr\"}"
    );
}

// ----------------------------------------------------------------- date

#[test]
fn next_day_within_a_month() {
    let d = Date { year: 2021, month: 2, day: 14 };
    assert_eq!(d.next_day(), Date { year: 2021, month: 2, day: 15 });
}

#[test]
fn next_day_into_leap_day() {
    let d = Date { year: 2024, month: 2, day: 28 };
    assert_eq!(d.next_day(), Date { year: 2024, month: 2, day: 29 });
    let d = Date { year: 2023, month: 2, day: 28 };
    assert_eq!(d.next_day(), Date { year: 2023, month: 3, day: 1 });
    let d = Date { year: 1900, month: 2, day: 28 };
    assert_eq!(d.next_day(), Date { year: 1900, month: 3, day: 1 });
    let d = Date { year: 2000, month: 2, day: 28 };
    assert_eq!(d.next_day(), Date { year: 2000, month: 2, day: 29 });
}

#[test]
fn next_day_across_month_and_year() {
    let d = Date { year: 2021, month: 4, day: 30 };
    assert_eq!(d.next_day(), Date { year: 2021, month: 5, day: 1 });
    let d = Date { year: 2021, month: 12, day: 31 };
    assert_eq!(d.next_day(), Date { year: 2022, month: 1, day: 1 });
}

#[test]
fn date_formats_zero_padded() {
    let d = Date { year: 2021, month: 2, day: 4 };
    let mut s = String::new();
    d.push_ymd(&mut s);
    assert_eq!(s, "2021-02-04");
    let d = Date { year: 987, month: 12, day: 31 };
    let mut s = String::new();
    d.push_ymd(&mut s);
    assert_eq!(s, "0987-12-31");
}

#[test]
fn clock_reads_as_a_calendar_day() {
    let today = today_local().expect("the clock reads as a date");
    assert!((1..=12).contains(&today.month));
    assert!((1..=31).contains(&today.day));
    let tomorrow = tomorrow_local().expect("tomorrow exists");
    assert!((1..=12).contains(&tomorrow.month));
    assert_ne!((today.year, today.month, today.day), (tomorrow.year, tomorrow.month, tomorrow.day));
}

// -------------------------------------------------------------- request

#[test]
fn request_body_is_exact() {
    let provider = Provider::new(test_config(false, false, true, false));
    let body = provider.request_body(&Date { year: 2021, month: 2, day: 15 });
    assert_eq!(
        body,
        "{\"serviceId\":\"99\",\"position\":{\"latitude\":42.9825,\"longitude\":-77.4089},\"appointmentAvailability\":{\"startDateTime\":\"2021-02-15\"},\"radius\":25}"
    );
}

#[test]
fn address_validity_check() {
    assert!(test_address().is_wf());
    let mut a = test_address();
    for good in ["42", "-77", "0.5", "-0.5", "1e5", "2.75E-3", "9007199254740993"] {
        a.latitude = String::from(good);
        assert!(a.is_wf(), "{} is a JSON number", good);
    }
    for bad in ["", "4x.2", "NaN", "inf", "e+e", "...", "01", "1.", ".5", "1e", "1e+", "-", "+1"] {
        a.latitude = String::from(bad);
        assert!(!a.is_wf(), "{} is not a JSON number", bad);
    }
}

// ------------------------------------------------------------ decoding

#[test]
fn parse_accepts_the_upstream_document() {
    let r = parse_response(&GOOD_BODY.as_bytes().to_vec()).expect("well-formed response");
    assert!(r.appointments_available);
    assert_eq!(r.days, 3);
    assert_eq!(r.radius, 25);
    assert_eq!(r.state_code, "NY");
    assert_eq!(r.state_name, "New York");
    assert_eq!(r.zip_code, "14564");
}

#[test]
fn parse_accepts_any_member_order_and_whitespace() {
    let body = " { \"zipCode\" : \"14564\" ,\n\"stateName\":\"New York\",\t\"stateCode\":\"NY\",\r\n\"radius\":25,\"days\":3,\"appointmentsAvailable\":false } ";
    let r = parse_response(&body.as_bytes().to_vec()).expect("order does not matter");
    assert!(!r.appointments_available);
    assert_eq!(r.zip_code, "14564");
}

#[test]
fn parse_ignores_unknown_members() {
    let body = "{\"appointmentsAvailable\":true,\"days\":3,\"radius\":25,\"stateCode\":\"NY\",\"stateName\":\"New York\",\"zipCode\":\"14564\",\"extra\":null,\"note\":\"hi\",\"n\":7}";
    let r = parse_response(&body.as_bytes().to_vec()).expect("unknown members are ignored");
    assert!(r.appointments_available);
}

#[test]
fn parse_rejects_missing_duplicate_or_mistyped_members() {
    // a required member is missing
    let body = "{\"appointmentsAvailable\":true,\"days\":3,\"radius\":25,\"stateCode\":\"NY\",\"stateName\":\"New York\"}";
    assert!(parse_response(&body.as_bytes().to_vec()).is_none());
    // a required member repeats
    let body = "{\"appointmentsAvailable\":true,\"appointmentsAvailable\":true,\"days\":3,\"radius\":25,\"stateCode\":\"NY\",\"stateName\":\"New York\",\"zipCode\":\"14564\"}";
    assert!(parse_response(&body.as_bytes().to_vec()).is_none());
    // a required member has the wrong type
    let body = "{\"appointmentsAvailable\":\"yes\",\"days\":3,\"radius\":25,\"stateCode\":\"NY\",\"stateName\":\"New York\",\"zipCode\":\"14564\"}";
    assert!(parse_response(&body.as_bytes().to_vec()).is_none());
    // a count does not fit its width
    let body = "{\"appointmentsAvailable\":true,\"days\":256,\"radius\":25,\"stateCode\":\"NY\",\"stateName\":\"New York\",\"zipCode\":\"14564\"}";
    assert!(parse_response(&body.as_bytes().to_vec()).is_none());
    // a number does not fit at all
    let body = "{\"appointmentsAvailable\":true,\"days\":99999999999999999999999,\"radius\":25,\"stateCode\":\"NY\",\"stateName\":\"New York\",\"zipCode\":\"14564\"}";
    assert!(parse_response(&body.as_bytes().to_vec()).is_none());
}

#[test]
fn parse_skips_unknown_members_of_any_shape() {
    let body = "{\"extra\":{\"a\":[1,-2.5e3,\"x\\\"y\"],\"b\":{}},\"appointmentsAvailable\":true,\"days\":3,\"radius\":25,\"stateCode\":\"NY\",\"stateName\":\"New York\",\"zipCode\":\"14564\",\"more\":[[],[null,true]],\"t\\u0065xt\":-1.5}";
    let r = parse_response(&body.as_bytes().to_vec()).expect("any-shape unknown members are skipped");
    assert!(r.appointments_available);
    assert_eq!(r.zip_code, "14564");
    // non-ASCII text inside an ignored member
    let body = "{\"note\":\"Z\u{fc}rich\",\"appointmentsAvailable\":false,\"days\":3,\"radius\":25,\"stateCode\":\"NY\",\"stateName\":\"New York\",\"zipCode\":\"14564\"}";
    assert!(parse_response(&body.as_bytes().to_vec()).is_some());
    // an ignored member that is itself malformed still fails the parse
    let body = "{\"bad\":{\"x\":,},\"appointmentsAvailable\":true}";
    assert!(parse_response(&body.as_bytes().to_vec()).is_none());
}

#[test]
fn parse_rejects_malformed_documents() {
    assert!(parse_response(&b"".to_vec()).is_none());
    assert!(parse_response(&b"{}".to_vec()).is_none());
    assert!(parse_response(&b"not json".to_vec()).is_none());
    assert!(parse_response(&b"[1,2,3]".to_vec()).is_none());
    let trailing = format!("{} x", GOOD_BODY);
    assert!(parse_response(&trailing.as_bytes().to_vec()).is_none());
    let unterminated = "{\"appointmentsAvailable\":true,\"days\":3,\"radius\":25,\"stateCode\":\"NY\",\"stateName\":\"New York\",\"zipCode\":\"14564\"";
    assert!(parse_response(&unterminated.as_bytes().to_vec()).is_none());
    let escaped = "{\"appointmentsAvailable\":true,\"days\":3,\"radius\":25,\"stateCode\":\"NY\",\"stateName\":\"New\\nYork\",\"zipCode\":\"14564\"}";
    assert!(parse_response(&escaped.as_bytes().to_vec()).is_none());
}

// ------------------------------------------------- provider end to end

#[test]
fn available_response_yields_one_notification_naming_the_location() {
    let provider = Provider::new(test_config(false, true, true, false));
    match provider.on_response_body(&gzip(GOOD_BODY)) {
        PerformOutcome::Available(line, notification) => {
            assert_eq!(line, "[walgreens] Appointments available in 14564!");
            assert_eq!(notification.title, "Vaccinate!");
            assert_eq!(notification.message, "Walgreens has availability in 14564.");
            assert!(notification.message.contains("14564"));
        }
        PerformOutcome::Failed(p) => panic!("unexpected failure: {}", p.error_line),
        PerformOutcome::NoAvailability(line) => panic!("unexpected no-op: {}", line),
    }
}

#[test]
fn unavailable_response_yields_no_notification_and_no_report() {
    let body = GOOD_BODY.replace("true", "false");
    let provider = Provider::new(test_config(true, true, true, false));
    match provider.on_response_body(&gzip(&body)) {
        PerformOutcome::NoAvailability(line) => {
            assert_eq!(line, "[walgreens] No appointments available in 14564.");
        }
        _ => panic!("a no-availability response must end in a log line only"),
    }
}

#[test]
fn non_gzip_body_yields_one_decode_failure_report() {
    let provider = Provider::new(test_config(false, true, true, false));
    match provider.on_response_body(&GOOD_BODY.as_bytes().to_vec()) {
        PerformOutcome::Failed(plan) => {
            assert!(plan.error_line.starts_with("[walgreens] Error decoding gzip:"));
            assert!(plan.notification.is_none());
        }
        _ => panic!("a body that is not gzip must be reported"),
    }
}

#[test]
fn malformed_json_yields_one_decode_failure_report() {
    let provider = Provider::new(test_config(false, true, true, false));
    match provider.on_response_body(&gzip("{\"whatever\":1}")) {
        PerformOutcome::Failed(plan) => {
            assert_eq!(plan.error_line, "[walgreens] Invalid response: schema mismatch");
        }
        _ => panic!("a schema mismatch must be reported"),
    }
}

#[test]
fn decode_failure_escalates_in_debug_mode() {
    let provider = Provider::new(test_config(true, true, true, false));
    match provider.on_response_body(&gzip("nonsense")) {
        PerformOutcome::Failed(plan) => {
            let n = plan.notification.expect("debug mode escalates the report");
            assert_eq!(n.title, "Vaccinate Error");
            assert_eq!(n.message, plan.error_line);
        }
        _ => panic!("a schema mismatch must be reported"),
    }
}

#[test]
fn transport_failure_yields_one_tagged_report() {
    let provider = Provider::new(test_config(false, false, true, false));
    match provider.on_transport_error("connection timed out") {
        PerformOutcome::Failed(plan) => {
            assert_eq!(plan.error_line, "[walgreens] Request error: connection timed out");
            assert!(plan.notification.is_none());
        }
        _ => panic!("a transport failure must be reported"),
    }
}

// --------------------------------------------------------------- config

#[test]
fn duplicated_settings_are_independent() {
    let config = test_config(true, true, true, true);
    let mut copy = config.duplicate();
    assert_eq!(copy.name, config.name);
    assert_eq!(copy.address.latitude, config.address.latitude);
    copy.name = String::from("someone else");
    copy.address.latitude = String::from("0.0");
    assert_eq!(config.name, "Thom");
    assert_eq!(config.address.latitude, "42.9825");
}

// -------------------------------------------------------------- barrier

#[test]
fn cycle_waits_for_the_slowest_provider() {
    let rt = tokio::runtime::Runtime::new().unwrap();
    let start = std::time::Instant::now();
    let mut run = CycleRun::begin(2);
    rt.block_on(async {
        let fast = tokio::task::spawn(async {
            tokio::time::sleep(std::time::Duration::from_millis(10)).await;
        });
        let slow = tokio::task::spawn(async {
            tokio::time::sleep(std::time::Duration::from_millis(200)).await;
        });
        for handle in [fast, slow] {
            let _ = handle.await;
            if !run.may_sleep() {
                run.collect();
            }
        }
    });
    assert!(run.may_sleep());
    assert!(start.elapsed() >= std::time::Duration::from_millis(200));
}
