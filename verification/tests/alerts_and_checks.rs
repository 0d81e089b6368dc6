use healthmon::alert::{classify_delivery, Alert, AlertType, DeliveryError, DiscordAlert, HttpAlert};
use healthmon::check::{CheckError, CheckType, HttpCheck, ProbeFailReason, ProbeOutcome};
use healthmon::config::check::def_http_accept_codes;
use healthmon::helper::HttpMethod;

#[test]
fn discord_payload_wraps_basic_content_as_json() {
    let alert = DiscordAlert::new(
        "http://127.0.0.1/hook".to_string(),
        10,
        false,
        "service is down".to_string(),
        None,
    );
    assert_eq!(alert.payload(), "{\"content\":\"service is down\"}");
}

#[test]
fn discord_payload_escapes_content() {
    let alert = DiscordAlert::new(
        "http://127.0.0.1/hook".to_string(),
        10,
        false,
        "a\"b".to_string(),
        None,
    );
    assert_eq!(alert.payload(), "{\"content\":\"a\\\"b\"}");
}

#[test]
fn discord_payload_raw_is_sent_verbatim() {
    let alert = DiscordAlert::new(
        "http://127.0.0.1/hook".to_string(),
        10,
        false,
        "ignored".to_string(),
        Some("{\"embeds\":[]}".to_string()),
    );
    assert_eq!(alert.payload(), "{\"embeds\":[]}");
}

#[test]
fn delivery_classification_accepts_the_success_range() {
    assert_eq!(classify_delivery(200), Ok(()));
    // Webhook endpoints commonly answer 204 No Content on success.
    assert_eq!(classify_delivery(204), Ok(()));
    assert_eq!(classify_delivery(299), Ok(()));
    assert_eq!(classify_delivery(199), Err(DeliveryError::BadStatus(199)));
    assert_eq!(classify_delivery(301), Err(DeliveryError::BadStatus(301)));
    assert_eq!(classify_delivery(404), Err(DeliveryError::BadStatus(404)));
    assert_eq!(classify_delivery(500), Err(DeliveryError::BadStatus(500)));
}

#[test]
fn timeouts_resolve_zero_to_the_default() {
    let check = http_check(vec![200]);
    assert_eq!(check.effective_timeout(), 10);
    let mut short = http_check(vec![200]);
    short.timeout = 3;
    assert_eq!(short.effective_timeout(), 3);
    let mut unset = http_check(vec![200]);
    unset.timeout = 0;
    assert_eq!(unset.effective_timeout(), 10);

    let http_alert = HttpAlert::new(
        HttpMethod::POST,
        "http://127.0.0.1/hook".to_string(),
        0,
        None,
        false,
        None,
        false,
    );
    assert_eq!(http_alert.effective_timeout(), 10);

    let discord = DiscordAlert::new(
        "http://127.0.0.1/hook".to_string(),
        0,
        false,
        "down".to_string(),
        None,
    );
    assert_eq!(discord.effective_timeout(), 10);
}

#[test]
fn alert_error_keeps_its_message() {
    let e = healthmon::alert::AlertError::new("boom".to_string());
    assert_eq!(e.get(), "boom");
}

#[test]
fn check_error_keeps_its_message() {
    let e = CheckError::new("no route".to_string());
    assert_eq!(e.get(), "no route");
}

#[test]
fn http_alert_effective_body() {
    let mk = |body: Option<String>, body_is_file: bool| {
        HttpAlert::new(
            HttpMethod::POST,
            "http://127.0.0.1/hook".to_string(),
            10,
            body,
            body_is_file,
            None,
            false,
        )
    };
    let literal = mk(Some("payload".to_string()), false);
    assert_eq!(literal.effective_body(None), Some("payload".to_string()));

    let from_file = mk(Some("/tmp/body.json".to_string()), true);
    assert_eq!(
        from_file.effective_body(Some("file contents".to_string())),
        Some("file contents".to_string())
    );

    let none = mk(None, false);
    assert_eq!(none.effective_body(Some("unused".to_string())), None);
}

fn http_check(accept_codes: Vec<u16>) -> HttpCheck {
    HttpCheck {
        method: healthmon::check::HttpMethod::GET,
        is_insecure: false,
        url: "http://127.0.0.1".to_string(),
        timeout: 10,
        headers: None,
        accept_codes,
    }
}

#[test]
fn probe_classification_by_accepted_codes() {
    let check = http_check(def_http_accept_codes());
    assert_eq!(check.classify_response(200), ProbeOutcome::Success);
    assert_eq!(check.classify_response(204), ProbeOutcome::Success);
    assert_eq!(
        check.classify_response(500),
        ProbeOutcome::Failure(ProbeFailReason::BadStatus(500))
    );
    assert_eq!(
        check.classify_response(301),
        ProbeOutcome::Failure(ProbeFailReason::BadStatus(301))
    );
}

#[test]
fn probe_status_matching() {
    let check = http_check(vec![200, 418]);
    assert!(check.status_matches(418));
    assert!(!check.status_matches(201));
}

#[test]
fn probe_outcome_success_flag() {
    assert!(ProbeOutcome::Success.is_success());
    assert!(!ProbeOutcome::Failure(ProbeFailReason::TimedOut).is_success());
    assert!(!ProbeOutcome::Failure(ProbeFailReason::Transport).is_success());
}

#[test]
fn set_http_settings_replaces_request_fields() {
    let mut check = http_check(vec![200]);
    check.set_http_settings(
        healthmon::check::HttpMethod::PUT,
        "http://10.0.0.1/health".to_string(),
        30,
        None,
    );
    assert_eq!(check.url, "http://10.0.0.1/health");
    assert_eq!(check.timeout, 30);
    assert_eq!(check.method.as_str(), "PUT");
    assert_eq!(check.accept_codes, vec![200]);
}

#[test]
fn check_kind_label() {
    let kind = CheckType::Http(http_check(vec![200]));
    assert_eq!(kind.as_str(), "HTTP");
}

#[test]
fn alert_new_keeps_kind() {
    let alert = Alert::new(AlertType::Http(HttpAlert::new(
        HttpMethod::GET,
        "http://127.0.0.1".to_string(),
        5,
        None,
        false,
        None,
        false,
    )));
    assert!(matches!(alert.alert_type, AlertType::Http(_)));
}
