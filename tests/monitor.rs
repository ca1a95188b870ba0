use ssl_expiry::expiry::{ProbeError, SslExpiration};
use ssl_expiry::monitor::{
    after_probe, evaluate_certificate, scan_certificates, evaluate_liveness, msg_err, msg_ssl, wants_liveness, Attempt,
    FallbackStep, Liveness,
};
use ssl_expiry::target::{Endpoint, TargetError};

#[test]
fn failed_lookup_falls_back_and_reports_fallback_certificate() {
    let primary = Err(ProbeError::Resolution("no such host".to_string()));
    assert_eq!(after_probe(Attempt::Primary, primary), FallbackStep::RetryWithFallback);
    let found = SslExpiration::from_secs(40 * 86_400);
    assert_eq!(after_probe(Attempt::Fallback, Ok(found)), FallbackStep::Finish(Ok(found)));
}

#[test]
fn both_probes_failing_reports_failure_without_alert() {
    let primary = Err(ProbeError::Connect("timed out".to_string()));
    assert_eq!(after_probe(Attempt::Primary, primary), FallbackStep::RetryWithFallback);
    let fallback: Result<SslExpiration, ProbeError> = Err(ProbeError::Connect("refused".to_string()));
    let step = after_probe(Attempt::Fallback, fallback.clone());
    assert_eq!(step, FallbackStep::Finish(fallback.clone()));
    let report = evaluate_certificate("example.test", &fallback);
    assert_eq!(report.line, " - SSL check failed due to : connection failed: refused");
    assert!(report.alert.is_none());
}

#[test]
fn primary_success_is_final() {
    let e = SslExpiration::from_secs(3);
    assert_eq!(after_probe(Attempt::Primary, Ok(e)), FallbackStep::Finish(Ok(e)));
}

#[test]
fn liveness_only_for_http_schemes() {
    assert!(wants_liveness("http"));
    assert!(wants_liveness("https"));
    assert!(!wants_liveness("ftp"));
    assert!(!wants_liveness("ssh"));
    assert!(!wants_liveness(""));
    assert!(!wants_liveness("htt"));
}

#[test]
fn five_days_left_end_to_end() {
    let endpoint = Endpoint::from_target("https://example.test", 443).unwrap();
    assert_eq!(endpoint.host, "example.test");
    assert_eq!(endpoint.scheme, "https");
    assert_eq!(endpoint.url, "https://example.test/");
    assert!(endpoint.wants_liveness());
    let outcome =
        SslExpiration::from_time_texts("Mar  1 00:00:00 2030 GMT", "Mar  6 00:00:00 2030 GMT");
    let report = evaluate_certificate(&endpoint.host, &outcome);
    assert_eq!(report.line, " - SSL's expire in 5 days");
    let alert = report.alert.unwrap();
    assert!(alert.contains("5 days"));
    assert!(alert.contains("example.test"));
    assert_eq!(alert, msg_ssl(5, "example.test"));
}

#[test]
fn no_alert_on_day_twenty_nine() {
    let report = evaluate_certificate("a.test", &Ok(SslExpiration::from_secs(29 * 86_400 + 5)));
    assert_eq!(report.line, " - SSL's expire in 29 days");
    assert!(report.alert.is_none());
}

#[test]
fn expired_certificate_alerts() {
    let report = evaluate_certificate("a.test", &Ok(SslExpiration::from_secs(-3 * 86_400 - 1)));
    assert_eq!(report.line, " - SSL's expire in -3 days");
    assert_eq!(report.alert, Some(msg_ssl(-3, "a.test")));
}

#[test]
fn ssl_message_text() {
    assert_eq!(
        msg_ssl(15, "h.test"),
        ":closed_lock_with_key: *[SSL ALERT]* \n\nThe following host\u{2019}s ssl expire in *15 days*.\n- h.test\nPlease renew it before or your service will start to fail :cutevolt: "
    );
}

#[test]
fn error_message_text() {
    assert_eq!(
        msg_err("h.test", "Timeout"),
        ":closed_lock_with_key: *[WEB ALERT]* \n\nThe following host test resulted in an error.\n- h.test\n- Timeout\n"
    );
}

#[test]
fn liveness_reports() {
    let ok = evaluate_liveness("h.test", &Liveness::Responded { status: 200, millis: 42 });
    assert_eq!(ok.line, " - Response: 200 in 42ms");
    assert!(ok.alert.is_none());
    let failed =
        evaluate_liveness("h.test", &Liveness::Failed { detail: "connection reset".to_string() });
    assert_eq!(failed.line, " - connection reset");
    assert_eq!(failed.alert, Some(msg_err("h.test", "connection reset")));
}

#[test]
fn target_port_is_applied() {
    let e = Endpoint::from_target("https://example.test", 8443).unwrap();
    assert_eq!(e.url, "https://example.test:8443/");
    assert_eq!(e.port, 8443);
    let plain = Endpoint::from_target("tcp://db.example.test", 5432).unwrap();
    assert_eq!(plain.host, "db.example.test");
    assert!(!plain.wants_liveness());
}

#[test]
fn target_errors() {
    assert!(matches!(Endpoint::from_target("not a url", 443), Err(TargetError::BadUri)));
    assert!(matches!(Endpoint::from_target("mailto:ops@example.test", 443), Err(TargetError::CannotBeBase)));
    assert!(matches!(Endpoint::from_target("file:///tmp/x", 443), Err(TargetError::CannotBeBase)));
}

#[test]
fn scan_reports_every_target_after_a_failure() {
    let hosts = vec!["down.test".to_string(), "soon.test".to_string(), "fine.test".to_string()];
    let outcomes = vec![
        Err(ProbeError::Connect("refused".to_string())),
        Ok(SslExpiration::from_secs(10 * 86_400 + 7)),
        Ok(SslExpiration::from_secs(90 * 86_400)),
    ];
    let reports = scan_certificates(&hosts, &outcomes);
    assert_eq!(reports.len(), 3);
    assert_eq!(reports[0].line, " - SSL check failed due to : connection failed: refused");
    assert!(reports[0].alert.is_none());
    assert_eq!(reports[1].line, " - SSL's expire in 10 days");
    assert_eq!(reports[1].alert, Some(msg_ssl(10, "soon.test")));
    assert_eq!(reports[2].line, " - SSL's expire in 90 days");
    assert!(reports[2].alert.is_none());
}
