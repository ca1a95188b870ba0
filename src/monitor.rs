//! Per-target decisions of a scan: the single fallback retry of a failed
//! probe, the report line and alert for a certificate, and the liveness check
//! of HTTP endpoints.
use vstd::prelude::*;
use crate::expiry::{SslExpiration, ProbeError, alert_due, whole_days, error_text};
use crate::text::{decimal, push_decimal, push_digits};

verus! {

/// What a certificate probe produced.
pub type ProbeOutcome = Result<SslExpiration, ProbeError>;

/// Which address a probe went to.
#[derive(Clone, Copy, Debug, PartialEq, Eq, Structural)]
pub enum Attempt {
    /// The target's own host name.
    Primary,
    /// The target's configured fallback address.
    Fallback,
}

/// What to do once a probe has finished.
#[derive(Debug, PartialEq, Eq)]
pub enum FallbackStep {
    /// Probe the fallback address, with the same port and timeout.
    RetryWithFallback,
    /// The target's result is this outcome.
    Finish(ProbeOutcome),
}

pub open spec fn next_step(attempt: Attempt, outcome: ProbeOutcome) -> FallbackStep {
    match (attempt, outcome) {
        (Attempt::Primary, Err(_)) => FallbackStep::RetryWithFallback,
        (_, o) => FallbackStep::Finish(o),
    }
}

/// The outcome a target reports, given what each probe would produce; the
/// fallback outcome is used only when the primary probe failed.
pub open spec fn reported_outcome(primary: ProbeOutcome, fallback: ProbeOutcome) -> ProbeOutcome {
    match next_step(Attempt::Primary, primary) {
        FallbackStep::Finish(o) => o,
        FallbackStep::RetryWithFallback => match next_step(Attempt::Fallback, fallback) {
            FallbackStep::Finish(o) => o,
            FallbackStep::RetryWithFallback => fallback,
        },
    }
}

/// A target whose host name fails to resolve, but whose fallback address
/// yields a certificate, reports that certificate's expiry: no failure is
/// surfaced.
pub proof fn law_fallback_rescues_failed_lookup(detail: String, found: SslExpiration)
    ensures
        next_step(Attempt::Primary, Err(ProbeError::Resolution(detail)))
            == FallbackStep::RetryWithFallback,
        reported_outcome(Err(ProbeError::Resolution(detail)), Ok(found)) == Ok::<
            SslExpiration,
            ProbeError,
        >(found),
{
}

/// When both the primary and the fallback probe fail, the target reports the
/// fallback's failure, with no alert; a failed primary probe is retried
/// exactly once.
pub proof fn law_double_failure_is_reported(primary: ProbeError, fallback: ProbeError, host: Seq<char>)
    ensures
        reported_outcome(Err(primary), Err(fallback)) == Err::<SslExpiration, ProbeError>(fallback),
        next_step(Attempt::Fallback, Err(fallback)) == FallbackStep::Finish(Err(fallback)),
        certificate_alert(host, reported_outcome(Err(primary), Err(fallback))) is None,
{
}

/// Decides what follows a probe: a failed primary probe is retried once at
/// the fallback address; any other outcome is final.
pub fn after_probe(attempt: Attempt, outcome: ProbeOutcome) -> (r: FallbackStep)
    ensures
        r == next_step(attempt, outcome),
{
    match attempt {
        Attempt::Primary => match outcome {
            Ok(e) => FallbackStep::Finish(Ok(e)),
            Err(_) => FallbackStep::RetryWithFallback,
        },
        Attempt::Fallback => FallbackStep::Finish(outcome),
    }
}

pub open spec fn ssl_alert_text(days: int, host: Seq<char>) -> Seq<char> {
    ":closed_lock_with_key: *[SSL ALERT]* \n\nThe following host\u{2019}s ssl expire in *"@ + decimal(days)
        + " days*.\n- "@ + host
        + "\nPlease renew it before or your service will start to fail :cutevolt: "@
}

pub open spec fn error_alert_text(host: Seq<char>, code: Seq<char>) -> Seq<char> {
    ":closed_lock_with_key: *[WEB ALERT]* \n\nThe following host test resulted in an error.\n- "@
        + host + "\n- "@ + code + "\n"@
}

/// The alert sent when a certificate nears or passes its expiry.
pub fn msg_ssl(days: i64, host: &str) -> (r: String)
    ensures
        r@ == ssl_alert_text(days as int, host@),
{
    let mut out = String::new();
    out.append(":closed_lock_with_key: *[SSL ALERT]* \n\nThe following host\u{2019}s ssl expire in *");
    push_decimal(&mut out, days);
    out.append(" days*.\n- ");
    out.append(host);
    out.append("\nPlease renew it before or your service will start to fail :cutevolt: ");
    assert(out@ =~= ssl_alert_text(days as int, host@));
    out
}

/// The alert sent when an endpoint's liveness request fails.
pub fn msg_err(host: &str, code: &str) -> (r: String)
    ensures
        r@ == error_alert_text(host@, code@),
{
    let mut out = String::new();
    out.append(
        ":closed_lock_with_key: *[WEB ALERT]* \n\nThe following host test resulted in an error.\n- ",
    );
    out.append(host);
    out.append("\n- ");
    out.append(code);
    out.append("\n");
    assert(out@ =~= error_alert_text(host@, code@));
    out
}

/// The report line and the alert, if any, for one target's certificate.
pub struct CertificateReport {
    pub line: String,
    pub alert: Option<String>,
}

pub open spec fn certificate_line(outcome: ProbeOutcome) -> Seq<char> {
    match outcome {
        Ok(e) => " - SSL's expire in "@ + decimal(whole_days(e.remaining_seconds as int))
            + " days"@,
        Err(err) => " - SSL check failed due to : "@ + error_text(err),
    }
}

/// The alert text owed for `outcome`, if one is owed.
pub open spec fn certificate_alert(host: Seq<char>, outcome: ProbeOutcome) -> Option<Seq<char>> {
    match outcome {
        Ok(e) => if alert_due(e.remaining_seconds as int) {
            Some(ssl_alert_text(whole_days(e.remaining_seconds as int), host))
        } else {
            None
        },
        Err(_) => None,
    }
}

pub open spec fn alert_view(a: Option<String>) -> Option<Seq<char>> {
    match a {
        Some(s) => Some(s@),
        None => None,
    }
}

/// Reports a target's certificate outcome and decides on its alert: one is
/// sent when the certificate has expired or has exactly 30, 15, 10, 5 or 1
/// whole days left; a failed probe is reported but raises no alert.
pub fn evaluate_certificate(host: &str, outcome: &ProbeOutcome) -> (r: CertificateReport)
    ensures
        r.line@ == certificate_line(*outcome),
        alert_view(r.alert) == certificate_alert(host@, *outcome),
{
    match outcome {
        Ok(e) => {
            let days = e.days();
            let mut line = String::from_str(" - SSL's expire in ");
            push_decimal(&mut line, days);
            line.append(" days");
            assert(line@ =~= certificate_line(*outcome));
            let alert = if e.should_alert() {
                Some(msg_ssl(days, host))
            } else {
                None
            };
            CertificateReport { line, alert }
        },
        Err(err) => {
            let mut line = String::from_str(" - SSL check failed due to : ");
            let text = err.message();
            line.append(text.as_str());
            assert(line@ =~= certificate_line(*outcome));
            CertificateReport { line, alert: None }
        },
    }
}

/// Reports every target of a scan, in order: the report of each target
/// depends on its own outcome alone, so a failed probe never keeps the
/// targets after it from being reported.
pub fn scan_certificates(hosts: &Vec<String>, outcomes: &Vec<ProbeOutcome>) -> (r: Vec<
    CertificateReport,
>)
    requires
        hosts.len() == outcomes.len(),
    ensures
        r.len() == hosts.len(),
        forall|i: int|
            0 <= i < r.len() ==> (#[trigger] r[i]).line@ == certificate_line(outcomes[i])
                && alert_view(r[i].alert) == certificate_alert(hosts[i]@, outcomes[i]),
{
    let mut reports: Vec<CertificateReport> = Vec::new();
    let mut i: usize = 0;
    while i < hosts.len()
        invariant
            hosts.len() == outcomes.len(),
            i <= hosts.len(),
            reports.len() == i,
            forall|j: int|
                0 <= j < i ==> (#[trigger] reports[j]).line@ == certificate_line(outcomes[j])
                    && alert_view(reports[j].alert) == certificate_alert(hosts[j]@, outcomes[j]),
        decreases hosts.len() - i,
    {
        let report = evaluate_certificate(hosts[i].as_str(), &outcomes[i]);
        reports.push(report);
        i = i + 1;
    }
    reports
}

/// `s` contains `http`.
pub open spec fn names_http(s: Seq<char>) -> bool {
    exists|i: int|
        0 <= i && i + 4 <= s.len() && #[trigger] s[i] == 'h' && s[i + 1] == 't' && s[i + 2]
            == 't' && s[i + 3] == 'p'
}

/// Whether a target with URL scheme `scheme` gets a liveness request: only
/// schemes of the HTTP family, those that contain `http`.
pub fn wants_liveness(scheme: &str) -> (r: bool)
    ensures
        r == names_http(scheme@),
{
    let n = scheme.unicode_len();
    if n < 4 {
        return false;
    }
    let mut i: usize = 0;
    while i <= n - 4
        invariant
            n == scheme@.len(),
            n >= 4,
            i <= n - 3,
            forall|j: int|
                0 <= j < i ==> !(#[trigger] scheme@[j] == 'h' && scheme@[j + 1] == 't' && scheme@[j
                    + 2] == 't' && scheme@[j + 3] == 'p'),
        decreases n - i,
    {
        if scheme.get_char(i) == 'h' && scheme.get_char(i + 1) == 't' && scheme.get_char(i + 2)
            == 't' && scheme.get_char(i + 3) == 'p' {
            return true;
        }
        i = i + 1;
    }
    false
}

/// What a liveness request produced.
pub enum Liveness {
    /// The endpoint answered with `status` after `millis` milliseconds.
    Responded { status: u16, millis: u64 },
    /// The request failed; `detail` describes the transport error.
    Failed { detail: String },
}

/// The report line and the alert, if any, for one liveness request.
pub struct LivenessReport {
    pub line: String,
    pub alert: Option<String>,
}

pub open spec fn liveness_line(result: Liveness) -> Seq<char> {
    match result {
        Liveness::Responded { status, millis } => " - Response: "@ + decimal(status as int)
            + " in "@ + decimal(millis as int) + "ms"@,
        Liveness::Failed { detail } => " - "@ + detail@,
    }
}

pub open spec fn liveness_alert(host: Seq<char>, result: Liveness) -> Option<Seq<char>> {
    match result {
        Liveness::Responded { .. } => None,
        Liveness::Failed { detail } => Some(error_alert_text(host, detail@)),
    }
}

/// Reports a liveness result; a failed request raises an alert.
pub fn evaluate_liveness(host: &str, result: &Liveness) -> (r: LivenessReport)
    ensures
        r.line@ == liveness_line(*result),
        alert_view(r.alert) == liveness_alert(host@, *result),
{
    match result {
        Liveness::Responded { status, millis } => {
            let mut line = String::from_str(" - Response: ");
            push_decimal(&mut line, *status as i64);
            line.append(" in ");
            push_digits(&mut line, *millis);
            line.append("ms");
            assert(line@ =~= liveness_line(*result));
            LivenessReport { line, alert: None }
        },
        Liveness::Failed { detail } => {
            let mut line = String::from_str(" - ");
            line.append(detail.as_str());
            assert(line@ =~= liveness_line(*result));
            LivenessReport { line, alert: Some(msg_err(host, detail.as_str())) }
        },
    }
}

} // verus!
