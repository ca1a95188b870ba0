//! Remaining validity of a peer certificate, and the errors of a probe.
use vstd::prelude::*;
use crate::calendar::{Timestamp, seconds_between, div_toward_zero, time_diff, lemma_instant_bounds};
use crate::time_text::{parse_time_text, describes, is_time_text};

verus! {

/// Why a certificate probe produced no expiry.
#[derive(Clone, Debug, PartialEq, Eq)]
pub enum ProbeError {
    /// The host name could not be resolved, or resolved to no address.
    Resolution(String),
    /// The TCP connection failed or timed out.
    Connect(String),
    /// The TLS client context could not be set up.
    Tls(String),
    /// The TLS handshake failed; carries the library's error text.
    Handshake(String),
    /// The handshake succeeded but the peer presented no certificate.
    CertificateMissing,
    /// A certificate time was not in the expected text form.
    BadTime,
}

pub open spec fn error_text(e: ProbeError) -> Seq<char> {
    match e {
        ProbeError::Resolution(d) => "DNS resolution failed: "@ + d@,
        ProbeError::Connect(d) => "connection failed: "@ + d@,
        ProbeError::Tls(d) => "TLS setup failed: "@ + d@,
        ProbeError::Handshake(d) => "HandshakeError: "@ + d@,
        ProbeError::CertificateMissing => "Certificate not found"@,
        ProbeError::BadTime => "certificate time not understood"@,
    }
}

impl ProbeError {
    /// A one-line description for reports.
    pub fn message(&self) -> (r: String)
        ensures
            r@ == error_text(*self),
    {
        let (head, detail) = match self {
            ProbeError::Resolution(d) => ("DNS resolution failed: ", d.as_str()),
            ProbeError::Connect(d) => ("connection failed: ", d.as_str()),
            ProbeError::Tls(d) => ("TLS setup failed: ", d.as_str()),
            ProbeError::Handshake(d) => ("HandshakeError: ", d.as_str()),
            ProbeError::CertificateMissing => ("Certificate not found", ""),
            ProbeError::BadTime => ("certificate time not understood", ""),
        };
        proof {
            reveal_strlit("");
        }
        let mut out = String::from_str(head);
        out.append(detail);
        assert(out@ =~= error_text(*self));
        out
    }
}

/// Seconds left until a certificate's not-after time; negative once it has
/// passed.
#[derive(Clone, Copy, Debug, PartialEq, Eq, Structural)]
pub struct SslExpiration {
    pub remaining_seconds: i64,
}

/// The day counts at which an alert is due.
pub open spec fn is_threshold_day(d: int) -> bool {
    d == 30 || d == 15 || d == 10 || d == 5 || d == 1
}

pub open spec fn whole_days(secs: int) -> int {
    div_toward_zero(secs, 86400)
}

/// An alert is due for a certificate with `secs` seconds left.
pub open spec fn alert_due(secs: int) -> bool {
    secs < 0 || is_threshold_day(whole_days(secs))
}

/// Whole days round toward zero: less than a day either side of the
/// not-after time counts as zero days, so a certificate that expired half a
/// day ago reports 0 days, not -1; otherwise the count carries the sign of
/// the seconds and is off from them by less than one day.
pub proof fn law_whole_days_toward_zero(secs: int)
    ensures
        -86400 < secs < 86400 ==> whole_days(secs) == 0,
        secs >= 0 ==> whole_days(secs) * 86400 <= secs < whole_days(secs) * 86400 + 86400,
        secs < 0 ==> whole_days(secs) * 86400 - 86400 < secs <= whole_days(secs) * 86400,
{
}

/// The alert policy is an exact match on the day count: 29 or 31 whole days
/// left raise no alert, while an expired certificate always does.
pub proof fn law_alert_days_exact(secs: int)
    ensures
        secs < 0 ==> alert_due(secs),
        secs >= 0 ==> (alert_due(secs) <==> is_threshold_day(whole_days(secs))),
        whole_days(secs) == 29 || whole_days(secs) == 31 ==> !alert_due(secs),
{
}

/// Seconds from the moment written `now` to the moment written `not_after`,
/// both in certificate time text form.
pub open spec fn text_interval(now: Seq<char>, not_after: Seq<char>, secs: int) -> bool {
    forall|a: Timestamp, b: Timestamp|
        a.wf() && b.wf() && #[trigger] describes(now, a) && #[trigger] describes(not_after, b)
            ==> secs == seconds_between(a, b)
}

impl SslExpiration {
    pub fn from_secs(secs: i64) -> (r: SslExpiration)
        ensures
            r.remaining_seconds == secs,
    {
        SslExpiration { remaining_seconds: secs }
    }

    /// The expiry of a certificate whose not-after time is `not_after`, seen
    /// at `now`.
    pub fn between(now: &Timestamp, not_after: &Timestamp) -> (r: SslExpiration)
        requires
            now.wf(),
            not_after.wf(),
        ensures
            r.remaining_seconds == seconds_between(*now, *not_after),
    {
        proof {
            lemma_instant_bounds(*now);
            lemma_instant_bounds(*not_after);
        }
        let (days, leftover) = time_diff(now, not_after);
        SslExpiration { remaining_seconds: days * 86400 + leftover }
    }

    /// The expiry of a certificate whose not-after time has the text form
    /// `not_after`, seen at the moment whose text form is `now`.
    pub fn from_time_texts(now: &str, not_after: &str) -> (r: Result<SslExpiration, ProbeError>)
        ensures
            r is Ok <==> is_time_text(now@) && is_time_text(not_after@),
            r is Err ==> r == Err::<SslExpiration, ProbeError>(ProbeError::BadTime),
            r matches Ok(e) ==> text_interval(now@, not_after@, e.remaining_seconds as int),
    {
        let a = match parse_time_text(now) {
            Some(t) => t,
            None => return Err(ProbeError::BadTime),
        };
        let b = match parse_time_text(not_after) {
            Some(t) => t,
            None => return Err(ProbeError::BadTime),
        };
        let e = SslExpiration::between(&a, &b);
        proof {
            assert forall|x: Timestamp, y: Timestamp|
                x.wf() && y.wf() && #[trigger] describes(now@, x) && #[trigger] describes(
                    not_after@,
                    y,
                ) implies e.remaining_seconds == seconds_between(x, y) by {
                crate::time_text::lemma_describes_unique(now@, a, x);
                crate::time_text::lemma_describes_unique(not_after@, b, y);
            }
        }
        Ok(e)
    }

    /// Seconds until the certificate expires; negative once it has.
    pub fn secs(&self) -> (r: i64)
        ensures
            r == self.remaining_seconds,
    {
        self.remaining_seconds
    }

    /// Whole days until the certificate expires, rounded toward zero.
    pub fn days(&self) -> (r: i64)
        ensures
            r == whole_days(self.remaining_seconds as int),
    {
        if self.remaining_seconds >= 0 {
            self.remaining_seconds / 86400
        } else {
            -((-(self.remaining_seconds as i128)) / 86400) as i64
        }
    }

    /// Whether the not-after time has passed.
    pub fn is_expired(&self) -> (r: bool)
        ensures
            r == (self.remaining_seconds < 0),
    {
        self.remaining_seconds < 0
    }

    /// Whether an alert is due: the certificate has expired, or its whole
    /// days left are exactly 30, 15, 10, 5 or 1.
    pub fn should_alert(&self) -> (r: bool)
        ensures
            r == alert_due(self.remaining_seconds as int),
    {
        let d = self.days();
        self.is_expired() || d == 30 || d == 15 || d == 10 || d == 5 || d == 1
    }
}

} // verus!
