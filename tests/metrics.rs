use rustkit::http::auxiliary::{aux_response, aux_route, health, AuxRoute};
use rustkit::http::labels::{observation_labels, Labels, Method};
use rustkit::http::metrics::{handler, middleware, Registry};

const HEADER: &str = "# HELP servus_http_request_duration HTTP request duration in seconds as a histogram, by method, path, and status\n# TYPE servus_http_request_duration histogram\n";

fn empty_text() -> String {
    let mut t = String::from(HEADER);
    for le in [
        "0.005000", "0.010000", "0.025000", "0.050000", "0.100000", "0.250000", "0.500000",
        "1.000000", "2.500000", "5.000000", "10.000000", "+Inf",
    ] {
        t.push_str(&format!("servus_http_request_duration_bucket{{le=\"{}\"}} 0\n", le));
    }
    t.push_str("servus_http_request_duration_sum 0.000000\n");
    t.push_str("servus_http_request_duration_count 0\n");
    t
}

fn labels(method: Method, path: &str, status: u16) -> Labels {
    Labels { method, path: path.as_bytes().to_vec(), status }
}

fn text(r: &Registry) -> String {
    String::from_utf8(handler(r)).unwrap()
}

#[test]
fn method_names_are_parsed_exactly() {
    assert_eq!(Method::parse(b"GET"), Method::Get);
    assert_eq!(Method::parse(b"POST"), Method::Post);
    assert_eq!(Method::parse(b"PATCH"), Method::Patch);
    assert_eq!(Method::parse(b"get"), Method::Other);
    assert_eq!(Method::parse(b"BREW"), Method::Other);
    assert_eq!(Method::parse(b""), Method::Other);
    assert_eq!(Method::Delete.text(), b"DELETE".to_vec());
    assert_eq!(Method::Other.text(), b"OTHER".to_vec());
}

#[test]
fn unmatched_request_has_no_labels() {
    assert!(observation_labels(b"GET", None, 404).is_none());
    let l = observation_labels(b"POST", Some(b"/message"), 201).unwrap();
    assert_eq!(l.method, Method::Post);
    assert_eq!(l.path, b"/message".to_vec());
    assert_eq!(l.status, 201);
}

#[test]
fn empty_registry_encodes_zero_histogram() {
    let r = Registry::new();
    assert_eq!(r.series_count(), 0);
    assert_eq!(text(&r), empty_text());
}

#[test]
fn one_observation_encodes_every_line() {
    let mut r = Registry::new();
    assert!(r.observe(labels(Method::Get, "/message", 200), 7_000));
    let l = "method=\"GET\",path=\"/message\",status=\"200\"";
    let bounds = [
        ("0.005000", 0),
        ("0.010000", 1),
        ("0.025000", 1),
        ("0.050000", 1),
        ("0.100000", 1),
        ("0.250000", 1),
        ("0.500000", 1),
        ("1.000000", 1),
        ("2.500000", 1),
        ("5.000000", 1),
        ("10.000000", 1),
        ("+Inf", 1),
    ];
    let mut expected = String::from(HEADER);
    for (le, c) in bounds.iter() {
        expected.push_str(&format!("servus_http_request_duration_bucket{{{},le=\"{}\"}} {}\n", l, le, c));
    }
    expected.push_str(&format!("servus_http_request_duration_sum{{{}}} 0.007000\n", l));
    expected.push_str(&format!("servus_http_request_duration_count{{{}}} 1\n", l));
    assert_eq!(text(&r), expected);
}

#[test]
fn sum_is_written_in_seconds() {
    let mut r = Registry::new();
    assert!(r.observe(labels(Method::Put, "/a", 503), 1_000_000));
    assert!(r.observe(labels(Method::Put, "/a", 503), 500_001));
    let t = text(&r);
    assert!(t.contains("servus_http_request_duration_sum{method=\"PUT\",path=\"/a\",status=\"503\"} 1.500001\n"));
    assert!(t.contains("servus_http_request_duration_count{method=\"PUT\",path=\"/a\",status=\"503\"} 2\n"));
    assert!(t.contains("le=\"0.500000\"} 0\n"));
    assert!(t.contains("le=\"1.000000\"} 2\n"));
}

#[test]
fn label_values_are_escaped() {
    let mut r = Registry::new();
    assert!(r.observe(labels(Method::Get, "/a\"b\\c\nd", 200), 1));
    let t = text(&r);
    assert!(t.contains("path=\"/a\\\"b\\\\c\\nd\""));
}

#[test]
fn bucket_counts_never_decrease() {
    let mut r = Registry::new();
    for d in [1u64, 6_000, 30_000, 30_000, 700_000, 3_000_000, 20_000_000] {
        assert!(r.observe(labels(Method::Get, "/x", 200), d));
    }
    let t = text(&r);
    let counts: Vec<u64> = t
        .lines()
        .filter(|l| l.starts_with("servus_http_request_duration_bucket"))
        .map(|l| l.rsplit(' ').next().unwrap().parse().unwrap())
        .collect();
    assert_eq!(counts, vec![1, 2, 2, 4, 4, 4, 4, 5, 5, 6, 6, 7]);
    for w in counts.windows(2) {
        assert!(w[0] <= w[1]);
    }
}

#[test]
fn matched_requests_are_labelled_with_the_template() {
    let mut r = Registry::new();
    assert!(middleware(&mut r, b"GET", Some(b"/message/:id"), 200, 12));
    assert!(middleware(&mut r, b"GET", Some(b"/message/:id"), 200, 12));
    assert!(middleware(&mut r, b"GET", Some(b"/message/:id"), 500, 12));
    assert_eq!(r.count(&labels(Method::Get, "/message/:id", 200)), 2);
    assert_eq!(r.count(&labels(Method::Get, "/message/:id", 500)), 1);
    assert_eq!(r.count(&labels(Method::Get, "/message/123", 200)), 0);
    assert_eq!(r.series_count(), 2);
    assert!(!text(&r).contains("/message/123"));
}

#[test]
fn unmatched_requests_are_not_observed() {
    let mut r = Registry::new();
    assert!(!middleware(&mut r, b"GET", None, 404, 5));
    assert!(!middleware(&mut r, b"POST", None, 404, 5));
    assert_eq!(r.series_count(), 0);
    assert_eq!(text(&r), empty_text());
    assert!(!text(&r).contains("does-not-exist"));
}

#[test]
fn thousand_requests_give_thousand_observations() {
    let mut r = Registry::new();
    for i in 0..1000u64 {
        let status: u16 = if i % 4 == 0 { 500 } else { 200 };
        assert!(middleware(&mut r, b"GET", Some(b"/message"), status, i));
    }
    assert_eq!(r.count(&labels(Method::Get, "/message", 200)), 750);
    assert_eq!(r.count(&labels(Method::Get, "/message", 500)), 250);
    assert_eq!(r.count(&labels(Method::Post, "/message", 200)), 0);
}

#[test]
fn overflowing_sum_is_refused() {
    let mut r = Registry::new();
    assert!(r.observe(labels(Method::Get, "/x", 200), u64::MAX));
    assert!(!r.observe(labels(Method::Get, "/x", 200), 1));
    assert_eq!(r.count(&labels(Method::Get, "/x", 200)), 1);
    assert!(r.observe(labels(Method::Get, "/y", 200), 1));
}

#[test]
fn unusual_methods_share_one_label() {
    let mut r = Registry::new();
    assert!(middleware(&mut r, b"BREW", Some(b"/pot"), 418, 1));
    assert!(middleware(&mut r, b"PROPFIND", Some(b"/pot"), 418, 1));
    assert_eq!(r.count(&labels(Method::Other, "/pot", 418)), 2);
    assert_eq!(r.series_count(), 1);
}

#[test]
fn health_is_always_ok() {
    assert_eq!(health(), 200);
    let mut r = Registry::new();
    assert_eq!(aux_response(&r, b"GET", b"/health"), (200, Vec::new()));
    assert!(r.observe(labels(Method::Get, "/x", 500), 1));
    assert_eq!(aux_response(&r, b"GET", b"/health"), (200, Vec::new()));
}

#[test]
fn auxiliary_routes() {
    assert_eq!(aux_route(b"GET", b"/metrics"), AuxRoute::Metrics);
    assert_eq!(aux_route(b"GET", b"/health"), AuxRoute::Health);
    assert_eq!(aux_route(b"POST", b"/health"), AuxRoute::NotFound);
    assert_eq!(aux_route(b"GET", b"/metrics/"), AuxRoute::NotFound);
    assert_eq!(aux_route(b"GET", b"/"), AuxRoute::NotFound);
    let r = Registry::new();
    let (status, body) = aux_response(&r, b"GET", b"/metrics");
    assert_eq!(status, 200);
    assert_eq!(String::from_utf8(body).unwrap(), empty_text());
    assert_eq!(aux_response(&r, b"GET", b"/nope"), (404, Vec::new()));
}
