use electric_oxen::coordinator::build_client;
use electric_oxen::coordinator::classify_poll;
use electric_oxen::coordinator::get_active_season;
use electric_oxen::coordinator::request_work;
use electric_oxen::coordinator::PollReport;
use electric_oxen::errors::PollError;
use electric_oxen::model::Config;

fn config() -> Config {
    Config {
        server: "https://sheeps.triple6.org".to_string(),
        apikey: "SECRET-REDACTED".to_string(),
        debug: false,
        no_download: false,
    }
}

#[test]
fn active_season_request_carries_key_and_compute_class() {
    let request = get_active_season(&config());
    assert_eq!(
        request.url,
        "https://sheeps.triple6.org/api/active_season?apikey=SECRET-REDACTED&gpu=true"
    );
    assert!(request.gzip);
}

#[test]
fn work_request_carries_key_and_compute_class() {
    let request = request_work(&config());
    assert_eq!(
        request.url,
        "https://sheeps.triple6.org/api/request_work?apikey=SECRET-REDACTED&gpu=true"
    );
    assert!(request.gzip);
}

#[test]
fn requests_follow_the_configured_server() {
    let mut other = config();
    other.server = "https://farm.example:8443".to_string();
    other.apikey = "k".to_string();
    assert_eq!(
        request_work(&other).url,
        "https://farm.example:8443/api/request_work?apikey=k&gpu=true"
    );
    assert_eq!(
        get_active_season(&other).url,
        "https://farm.example:8443/api/active_season?apikey=k&gpu=true"
    );
}

#[test]
fn every_client_pins_the_same_certificate() {
    let api = build_client(true);
    let download = build_client(false);
    assert!(api.gzip);
    assert!(!download.gzip);
    assert_eq!(api.certificate, "sheeps.der");
    assert_eq!(download.certificate, "sheeps.der");
}

fn report(trusted: bool, answered: bool, status: u16, decoded: bool) -> PollReport {
    PollReport { trusted, answered, status, decoded }
}

#[test]
fn a_decoded_answer_with_a_success_status_is_no_failure() {
    assert_eq!(classify_poll(report(true, true, 200, true), "x".to_string()), None);
    assert_eq!(classify_poll(report(true, true, 299, true), "x".to_string()), None);
}

#[test]
fn an_untrusted_coordinator_is_a_trust_error_whatever_else_happened() {
    assert_eq!(
        classify_poll(report(false, true, 200, true), "bad certificate".to_string()),
        Some(PollError::Trust("bad certificate".to_string()))
    );
    assert_eq!(
        classify_poll(report(false, false, 0, false), "bad certificate".to_string()),
        Some(PollError::Trust("bad certificate".to_string()))
    );
}

#[test]
fn a_request_without_an_answer_is_a_transport_error() {
    assert_eq!(
        classify_poll(report(true, false, 200, true), "timed out".to_string()),
        Some(PollError::Transport("timed out".to_string()))
    );
}

#[test]
fn an_answer_of_another_shape_or_status_is_a_protocol_error() {
    assert_eq!(
        classify_poll(report(true, true, 200, false), "missing field".to_string()),
        Some(PollError::Protocol("missing field".to_string()))
    );
    assert_eq!(
        classify_poll(report(true, true, 199, true), "status".to_string()),
        Some(PollError::Protocol("status".to_string()))
    );
    assert_eq!(
        classify_poll(report(true, true, 300, true), "status".to_string()),
        Some(PollError::Protocol("status".to_string()))
    );
    assert_eq!(
        classify_poll(report(true, true, 503, true), "status".to_string()),
        Some(PollError::Protocol("status".to_string()))
    );
}
