//! The OWASP Top 10 web probes: the request each one sends, and how each
//! judges the answer.
use vstd::prelude::*;
use crate::owasp_text::OwaspFinding;
use crate::text::{
    concat2, contains, has_infix, has_prefix, header_text, header_value_text, is_ascii_digit,
    has_ascii_digit, owned, push_str, starts_with, str_equal, strip_trailing,
    strip_trailing_char, to_lowercase, unicode_lowercase,
};
use crate::verdict::Verdict;

verus! {

/// The ten OWASP Top 10 controls, A01 to A10.
#[derive(Debug, Clone, Copy, PartialEq, Eq, Structural)]
pub enum OwaspCheck {
    BrokenAccessControl,
    CryptographicFailures,
    Injection,
    RateLimiting,
    SecurityMisconfiguration,
    VulnerableComponents,
    AuthFailures,
    DataIntegrity,
    LoggingMonitoring,
    RequestForgery,
}

impl OwaspCheck {
    pub open spec fn spec_id(self) -> Seq<char> {
        match self {
            OwaspCheck::BrokenAccessControl => "A01"@,
            OwaspCheck::CryptographicFailures => "A02"@,
            OwaspCheck::Injection => "A03"@,
            OwaspCheck::RateLimiting => "A04"@,
            OwaspCheck::SecurityMisconfiguration => "A05"@,
            OwaspCheck::VulnerableComponents => "A06"@,
            OwaspCheck::AuthFailures => "A07"@,
            OwaspCheck::DataIntegrity => "A08"@,
            OwaspCheck::LoggingMonitoring => "A09"@,
            OwaspCheck::RequestForgery => "A10"@,
        }
    }

    pub open spec fn spec_name_en(self) -> Seq<char> {
        match self {
            OwaspCheck::BrokenAccessControl => "Broken Access Control"@,
            OwaspCheck::CryptographicFailures => "Cryptographic Failures"@,
            OwaspCheck::Injection => "Injection Flaws"@,
            OwaspCheck::RateLimiting => "Insecure Design (Rate Limiting)"@,
            OwaspCheck::SecurityMisconfiguration => "Security Misconfiguration"@,
            OwaspCheck::VulnerableComponents => "Vulnerable Components (Info Leak)"@,
            OwaspCheck::AuthFailures => "Identification & Auth Failures"@,
            OwaspCheck::DataIntegrity => "Software & Data Integrity (CORS)"@,
            OwaspCheck::LoggingMonitoring => "Logging & Monitoring Failures"@,
            OwaspCheck::RequestForgery => "Server-Side Request Forgery"@,
        }
    }

    pub open spec fn spec_name_fr(self) -> Seq<char> {
        match self {
            OwaspCheck::BrokenAccessControl => "Contrôle d'Accès Défaillant"@,
            OwaspCheck::CryptographicFailures => "Défaillances Cryptographiques"@,
            OwaspCheck::Injection => "Failles d'Injection"@,
            OwaspCheck::RateLimiting => "Conception Insuffisante (Rate Limiting)"@,
            OwaspCheck::SecurityMisconfiguration => "Mauvaise Configuration Sécurité"@,
            OwaspCheck::VulnerableComponents => "Composants Vulnérables (Fuite Info)"@,
            OwaspCheck::AuthFailures => "Failles d'Identification & Auth"@,
            OwaspCheck::DataIntegrity => "Intégrité des Données (CORS)"@,
            OwaspCheck::LoggingMonitoring => "Journalisation & Surveillance"@,
            OwaspCheck::RequestForgery => "Falsification de Requête (SSRF)"@,
        }
    }

    pub fn id(&self) -> (r: &'static str)
        ensures
            r@ == self.spec_id(),
    {
        match self {
            OwaspCheck::BrokenAccessControl => "A01",
            OwaspCheck::CryptographicFailures => "A02",
            OwaspCheck::Injection => "A03",
            OwaspCheck::RateLimiting => "A04",
            OwaspCheck::SecurityMisconfiguration => "A05",
            OwaspCheck::VulnerableComponents => "A06",
            OwaspCheck::AuthFailures => "A07",
            OwaspCheck::DataIntegrity => "A08",
            OwaspCheck::LoggingMonitoring => "A09",
            OwaspCheck::RequestForgery => "A10",
        }
    }

    pub fn name_en(&self) -> (r: &'static str)
        ensures
            r@ == self.spec_name_en(),
    {
        match self {
            OwaspCheck::BrokenAccessControl => "Broken Access Control",
            OwaspCheck::CryptographicFailures => "Cryptographic Failures",
            OwaspCheck::Injection => "Injection Flaws",
            OwaspCheck::RateLimiting => "Insecure Design (Rate Limiting)",
            OwaspCheck::SecurityMisconfiguration => "Security Misconfiguration",
            OwaspCheck::VulnerableComponents => "Vulnerable Components (Info Leak)",
            OwaspCheck::AuthFailures => "Identification & Auth Failures",
            OwaspCheck::DataIntegrity => "Software & Data Integrity (CORS)",
            OwaspCheck::LoggingMonitoring => "Logging & Monitoring Failures",
            OwaspCheck::RequestForgery => "Server-Side Request Forgery",
        }
    }

    pub fn name_fr(&self) -> (r: &'static str)
        ensures
            r@ == self.spec_name_fr(),
    {
        match self {
            OwaspCheck::BrokenAccessControl => "Contrôle d'Accès Défaillant",
            OwaspCheck::CryptographicFailures => "Défaillances Cryptographiques",
            OwaspCheck::Injection => "Failles d'Injection",
            OwaspCheck::RateLimiting => "Conception Insuffisante (Rate Limiting)",
            OwaspCheck::SecurityMisconfiguration => "Mauvaise Configuration Sécurité",
            OwaspCheck::VulnerableComponents => "Composants Vulnérables (Fuite Info)",
            OwaspCheck::AuthFailures => "Failles d'Identification & Auth",
            OwaspCheck::DataIntegrity => "Intégrité des Données (CORS)",
            OwaspCheck::LoggingMonitoring => "Journalisation & Surveillance",
            OwaspCheck::RequestForgery => "Falsification de Requête (SSRF)",
        }
    }
}

/// The ten controls in the order of the audit.
pub open spec fn owasp_checks() -> Seq<OwaspCheck> {
    seq![
        OwaspCheck::BrokenAccessControl,
        OwaspCheck::CryptographicFailures,
        OwaspCheck::Injection,
        OwaspCheck::RateLimiting,
        OwaspCheck::SecurityMisconfiguration,
        OwaspCheck::VulnerableComponents,
        OwaspCheck::AuthFailures,
        OwaspCheck::DataIntegrity,
        OwaspCheck::LoggingMonitoring,
        OwaspCheck::RequestForgery,
    ]
}

pub fn all_owasp_checks() -> (v: Vec<OwaspCheck>)
    ensures
        v@ == owasp_checks(),
{
    let mut v: Vec<OwaspCheck> = Vec::new();
    v.push(OwaspCheck::BrokenAccessControl);
    v.push(OwaspCheck::CryptographicFailures);
    v.push(OwaspCheck::Injection);
    v.push(OwaspCheck::RateLimiting);
    v.push(OwaspCheck::SecurityMisconfiguration);
    v.push(OwaspCheck::VulnerableComponents);
    v.push(OwaspCheck::AuthFailures);
    v.push(OwaspCheck::DataIntegrity);
    v.push(OwaspCheck::LoggingMonitoring);
    v.push(OwaspCheck::RequestForgery);
    assert(v@ =~= owasp_checks());
    v
}

// ---------------------------------------------------------------------------
// Requests
// ---------------------------------------------------------------------------

#[derive(Debug, Clone, Copy, PartialEq, Eq, Structural)]
pub enum HttpMethod {
    Get,
    Post,
}

/// An HTTP request to send to the target.
#[derive(Debug, Clone)]
pub struct HttpProbe {
    pub method: HttpMethod,
    pub url: String,
    pub headers: Vec<(&'static str, &'static str)>,
    pub body: Option<&'static str>,
}

pub struct ProbeRequestView {
    pub method: HttpMethod,
    pub url: Seq<char>,
    pub headers: Seq<(Seq<char>, Seq<char>)>,
    pub body: Option<Seq<char>>,
}

impl View for HttpProbe {
    type V = ProbeRequestView;

    open spec fn view(&self) -> ProbeRequestView {
        ProbeRequestView {
            method: self.method,
            url: self.url@,
            headers: self.headers@.map_values(|h: (&'static str, &'static str)| (h.0@, h.1@)),
            body: match self.body {
                Some(b) => Some(b@),
                None => None,
            },
        }
    }
}

/// How many login requests the rate-limiting probe sends at most.
pub const RATE_LIMIT_ATTEMPTS: usize = 15;

/// The target URL without trailing slashes, to which probe paths are appended.
pub open spec fn url_root(base: Seq<char>) -> Seq<char> {
    strip_trailing(base, '/')
}

/// The request that a control sends to the target `base`.
pub open spec fn spec_request(check: OwaspCheck, base: Seq<char>) -> ProbeRequestView {
    let root = url_root(base);
    let none = Seq::<(Seq<char>, Seq<char>)>::empty();
    match check {
        OwaspCheck::BrokenAccessControl => ProbeRequestView {
            method: HttpMethod::Get,
            url: root + "/.git/HEAD"@,
            headers: none,
            body: None,
        },
        OwaspCheck::CryptographicFailures => ProbeRequestView {
            method: HttpMethod::Get,
            url: base,
            headers: none,
            body: None,
        },
        OwaspCheck::Injection => ProbeRequestView {
            method: HttpMethod::Get,
            url: root + "/api/search?q=test%27%22%3B--"@,
            headers: none,
            body: None,
        },
        OwaspCheck::RateLimiting => ProbeRequestView {
            method: HttpMethod::Post,
            url: root + "/api/login"@,
            headers: none,
            body: None,
        },
        OwaspCheck::SecurityMisconfiguration => ProbeRequestView {
            method: HttpMethod::Get,
            url: root + "/.env"@,
            headers: none,
            body: None,
        },
        OwaspCheck::VulnerableComponents => ProbeRequestView {
            method: HttpMethod::Get,
            url: base,
            headers: none,
            body: None,
        },
        OwaspCheck::AuthFailures => ProbeRequestView {
            method: HttpMethod::Post,
            url: root + "/api/login"@,
            headers: seq![("Content-Type"@, "application/json"@)],
            body: Some("{\"user\":\"\",\"pass\":\"\"}"@),
        },
        OwaspCheck::DataIntegrity => ProbeRequestView {
            method: HttpMethod::Get,
            url: base,
            headers: seq![("Origin"@, "https://unauthorized-thirdparty.test"@)],
            body: None,
        },
        OwaspCheck::LoggingMonitoring => ProbeRequestView {
            method: HttpMethod::Get,
            url: root + "/endpoint_that_definitely_does_not_exist_404"@,
            headers: none,
            body: None,
        },
        OwaspCheck::RequestForgery => ProbeRequestView {
            method: HttpMethod::Get,
            url: root + "/api/fetch"@,
            headers: seq![("X-Forwarded-For"@, "127.0.0.1"@), ("X-Remote-IP"@, "127.0.0.1"@)],
            body: None,
        },
    }
}

fn rooted(base: &str, path: &str) -> (r: String)
    ensures
        r@ == url_root(base@) + path@,
{
    let mut r = strip_trailing_char(base, '/');
    push_str(&mut r, path);
    r
}

impl OwaspCheck {
    /// The request that this control sends to the target `base`.
    pub fn probe_request(&self, base: &str) -> (r: HttpProbe)
        ensures
            r@ == spec_request(*self, base@),
    {
        let mut headers: Vec<(&'static str, &'static str)> = Vec::new();
        let r = match self {
            OwaspCheck::BrokenAccessControl => HttpProbe {
                method: HttpMethod::Get,
                url: rooted(base, "/.git/HEAD"),
                headers,
                body: None,
            },
            OwaspCheck::CryptographicFailures => HttpProbe {
                method: HttpMethod::Get,
                url: owned(base),
                headers,
                body: None,
            },
            OwaspCheck::Injection => HttpProbe {
                method: HttpMethod::Get,
                url: rooted(base, "/api/search?q=test%27%22%3B--"),
                headers,
                body: None,
            },
            OwaspCheck::RateLimiting => HttpProbe {
                method: HttpMethod::Post,
                url: rooted(base, "/api/login"),
                headers,
                body: None,
            },
            OwaspCheck::SecurityMisconfiguration => HttpProbe {
                method: HttpMethod::Get,
                url: rooted(base, "/.env"),
                headers,
                body: None,
            },
            OwaspCheck::VulnerableComponents => HttpProbe {
                method: HttpMethod::Get,
                url: owned(base),
                headers,
                body: None,
            },
            OwaspCheck::AuthFailures => {
                headers.push(("Content-Type", "application/json"));
                HttpProbe {
                    method: HttpMethod::Post,
                    url: rooted(base, "/api/login"),
                    headers,
                    body: Some("{\"user\":\"\",\"pass\":\"\"}"),
                }
            },
            OwaspCheck::DataIntegrity => {
                headers.push(("Origin", "https://unauthorized-thirdparty.test"));
                HttpProbe { method: HttpMethod::Get, url: owned(base), headers, body: None }
            },
            OwaspCheck::LoggingMonitoring => HttpProbe {
                method: HttpMethod::Get,
                url: rooted(base, "/endpoint_that_definitely_does_not_exist_404"),
                headers,
                body: None,
            },
            OwaspCheck::RequestForgery => {
                headers.push(("X-Forwarded-For", "127.0.0.1"));
                headers.push(("X-Remote-IP", "127.0.0.1"));
                HttpProbe {
                    method: HttpMethod::Get,
                    url: rooted(base, "/api/fetch"),
                    headers,
                    body: None,
                }
            },
        };
        assert(r@.headers =~= spec_request(*self, base@).headers);
        r
    }
}

} // verus!

verus! {

// ---------------------------------------------------------------------------
// Answers and judgement
// ---------------------------------------------------------------------------

/// What the program reads from an HTTP response: the status code and the raw
/// values of the headers that the controls look at.
#[derive(Debug, Clone)]
pub struct HttpReply {
    pub status: u16,
    pub server: Option<Vec<u8>>,
    pub allow_origin: Option<Vec<u8>>,
    pub allow_credentials: Option<Vec<u8>>,
}

/// The answer to a request: a response, or the text of the transport error.
#[derive(Debug, Clone)]
pub enum HttpOutcome {
    Reply(HttpReply),
    Failure(String),
}

/// 2xx (`StatusCode::is_success`).
pub open spec fn is_success(code: u16) -> bool {
    200 <= code <= 299
}

/// 5xx (`StatusCode::is_server_error`).
pub open spec fn is_server_error(code: u16) -> bool {
    500 <= code <= 599
}

/// A header's text, or the empty text when the header is absent.
pub open spec fn header_or_empty(h: Option<Vec<u8>>) -> Seq<char> {
    match h {
        Some(b) => header_text(b@),
        None => Seq::empty(),
    }
}

pub open spec fn has_digit(s: Seq<char>) -> bool {
    exists|i: int| 0 <= i < s.len() && is_ascii_digit(#[trigger] s[i])
}

/// Whether the target URL is served over TLS: its lower-cased form starts
/// with "https://".
pub open spec fn is_https(base: Seq<char>) -> bool {
    has_prefix(unicode_lowercase(base), "https://"@)
}

/// Whether the target is a local development host.
pub open spec fn is_local(base: Seq<char>) -> bool {
    has_infix(base, "localhost"@) || has_infix(base, "127.0.0.1"@)
}

/// Whether the CORS headers let an unknown origin in: a wildcard origin, or
/// the reflected origin together with credentials.
pub open spec fn cors_permissive(allow_origin: Seq<char>, allow_credentials: Seq<char>) -> bool {
    allow_origin == "*"@ || (allow_origin == "https://unauthorized-thirdparty.test"@
        && allow_credentials == "true"@)
}

/// The finding of a control (other than rate limiting) on the answer to its
/// request.
pub open spec fn judged(check: OwaspCheck, base: Seq<char>, outcome: HttpOutcome, f: OwaspFinding) -> bool {
    match outcome {
        HttpOutcome::Failure(m) => match check {
            OwaspCheck::CryptographicFailures | OwaspCheck::SecurityMisconfiguration
            | OwaspCheck::VulnerableComponents | OwaspCheck::DataIntegrity =>
                f matches OwaspFinding::RequestFailed(t) && t@ == m@,
            OwaspCheck::AuthFailures => f matches OwaspFinding::CommunicationError(t) && t@ == m@,
            _ => f matches OwaspFinding::ConnectionError(t) && t@ == m@,
        },
        HttpOutcome::Reply(r) => {
            let code = r.status;
            match check {
                OwaspCheck::BrokenAccessControl => if is_success(code) {
                    f is GitMetadataExposed
                } else {
                    f matches OwaspFinding::GitMetadataBlocked(c) && c == code
                },
                OwaspCheck::CryptographicFailures => if !is_https(base) && !is_local(base) {
                    f is CleartextTransport
                } else {
                    f is EncryptedTransport
                },
                OwaspCheck::Injection => if is_server_error(code) {
                    f matches OwaspFinding::InjectionCrash(c) && c == code
                } else {
                    f matches OwaspFinding::InjectionHandled(c) && c == code
                },
                OwaspCheck::SecurityMisconfiguration => if code == 200 {
                    f is EnvFileExposed
                } else {
                    f matches OwaspFinding::EnvFileProtected(c) && c == code
                },
                OwaspCheck::VulnerableComponents => match r.server {
                    Some(b) => if has_digit(header_text(b@)) {
                        f matches OwaspFinding::VersionDisclosed(t) && t@ == "Server: "@
                            + header_text(b@)
                    } else {
                        f is NoVersionBanner
                    },
                    None => f is NoVersionBanner,
                },
                OwaspCheck::AuthFailures => if code == 401 || code == 400 || code == 404 {
                    f matches OwaspFinding::EmptyAuthRejected(c) && c == code
                } else if is_server_error(code) {
                    f matches OwaspFinding::EmptyAuthCrash(c) && c == code
                } else {
                    f matches OwaspFinding::EmptyAuthUnexpected(c) && c == code
                },
                OwaspCheck::DataIntegrity => if cors_permissive(
                    header_or_empty(r.allow_origin),
                    header_or_empty(r.allow_credentials),
                ) {
                    f is PermissiveCors
                } else {
                    f is RestrictedCors
                },
                OwaspCheck::LoggingMonitoring => if code == 404 {
                    f is Standard404
                } else {
                    f matches OwaspFinding::NonStandard404(c) && c == code
                },
                OwaspCheck::RequestForgery => if is_server_error(code) {
                    f matches OwaspFinding::SsrfCrash(c) && c == code
                } else {
                    f matches OwaspFinding::SsrfHandled(c) && c == code
                },
                OwaspCheck::RateLimiting => false,
            }
        },
    }
}

fn header_or_empty_text(h: &Option<Vec<u8>>) -> (r: String)
    ensures
        r@ == header_or_empty(*h),
{
    match h {
        Some(b) => header_value_text(b),
        None => String::new(),
    }
}

impl OwaspCheck {
    /// Judges the answer to this control's request.
    pub fn assess(&self, base: &str, outcome: &HttpOutcome) -> (f: OwaspFinding)
        requires
            *self != OwaspCheck::RateLimiting,
        ensures
            judged(*self, base@, *outcome, f),
    {
        match outcome {
            HttpOutcome::Failure(m) => match self {
                OwaspCheck::CryptographicFailures | OwaspCheck::SecurityMisconfiguration
                | OwaspCheck::VulnerableComponents | OwaspCheck::DataIntegrity =>
                    OwaspFinding::RequestFailed(owned(m.as_str())),
                OwaspCheck::AuthFailures => OwaspFinding::CommunicationError(owned(m.as_str())),
                _ => OwaspFinding::ConnectionError(owned(m.as_str())),
            },
            HttpOutcome::Reply(r) => {
                let code = r.status;
                match self {
                    OwaspCheck::BrokenAccessControl => if 200 <= code && code <= 299 {
                        OwaspFinding::GitMetadataExposed
                    } else {
                        OwaspFinding::GitMetadataBlocked(code)
                    },
                    OwaspCheck::CryptographicFailures => {
                        let https = starts_with(to_lowercase(base).as_str(), "https://");
                        if !https && !contains(base, "localhost") && !contains(base, "127.0.0.1") {
                            OwaspFinding::CleartextTransport
                        } else {
                            OwaspFinding::EncryptedTransport
                        }
                    },
                    OwaspCheck::Injection => if 500 <= code && code <= 599 {
                        OwaspFinding::InjectionCrash(code)
                    } else {
                        OwaspFinding::InjectionHandled(code)
                    },
                    OwaspCheck::SecurityMisconfiguration => if code == 200 {
                        OwaspFinding::EnvFileExposed
                    } else {
                        OwaspFinding::EnvFileProtected(code)
                    },
                    OwaspCheck::VulnerableComponents => match &r.server {
                        Some(b) => {
                            let s = header_value_text(b);
                            if has_ascii_digit(s.as_str()) {
                                OwaspFinding::VersionDisclosed(concat2("Server: ", s.as_str()))
                            } else {
                                OwaspFinding::NoVersionBanner
                            }
                        },
                        None => OwaspFinding::NoVersionBanner,
                    },
                    OwaspCheck::AuthFailures => if code == 401 || code == 400 || code == 404 {
                        OwaspFinding::EmptyAuthRejected(code)
                    } else if 500 <= code && code <= 599 {
                        OwaspFinding::EmptyAuthCrash(code)
                    } else {
                        OwaspFinding::EmptyAuthUnexpected(code)
                    },
                    OwaspCheck::DataIntegrity => {
                        let acao = header_or_empty_text(&r.allow_origin);
                        let acac = header_or_empty_text(&r.allow_credentials);
                        if str_equal(acao.as_str(), "*") || (str_equal(
                            acao.as_str(),
                            "https://unauthorized-thirdparty.test",
                        ) && str_equal(acac.as_str(), "true")) {
                            OwaspFinding::PermissiveCors
                        } else {
                            OwaspFinding::RestrictedCors
                        }
                    },
                    OwaspCheck::LoggingMonitoring => if code == 404 {
                        OwaspFinding::Standard404
                    } else {
                        OwaspFinding::NonStandard404(code)
                    },
                    _ => if 500 <= code && code <= 599 {
                        OwaspFinding::SsrfCrash(code)
                    } else {
                        OwaspFinding::SsrfHandled(code)
                    },
                }
            },
        }
    }
}

} // verus!

verus! {

// ---------------------------------------------------------------------------
// Results
// ---------------------------------------------------------------------------

/// The report of one OWASP control.
#[derive(Debug, Clone)]
pub struct OwaspCheckResult {
    pub id: &'static str,
    pub name_en: &'static str,
    pub name_fr: &'static str,
    pub status_code: Option<u16>,
    pub latency_ms: u128,
    pub verdict: Verdict,
    pub details_en: String,
    pub details_fr: String,
}

/// Whether `r` reports finding `f` of `check`, with the given status code and
/// latency.
pub open spec fn owasp_reports(
    r: OwaspCheckResult,
    check: OwaspCheck,
    f: OwaspFinding,
    status_code: Option<u16>,
    latency_ms: u128,
) -> bool {
    &&& r.id@ == check.spec_id()
    &&& r.name_en@ == check.spec_name_en()
    &&& r.name_fr@ == check.spec_name_fr()
    &&& r.status_code == status_code
    &&& r.latency_ms == latency_ms
    &&& r.verdict == f.spec_verdict()
    &&& r.details_en@ == f.spec_details_en()
    &&& r.details_fr@ == f.spec_details_fr()
}

/// The status code that a result shows for an answer: the response's, or none
/// after a transport error.
pub open spec fn answered_code(outcome: HttpOutcome) -> Option<u16> {
    match outcome {
        HttpOutcome::Reply(r) => Some(r.status),
        HttpOutcome::Failure(_) => None,
    }
}

impl OwaspCheck {
    /// The report of finding `f` of this control.
    pub fn report(&self, f: &OwaspFinding, status_code: Option<u16>, latency_ms: u128) -> (r:
        OwaspCheckResult)
        ensures
            owasp_reports(r, *self, *f, status_code, latency_ms),
    {
        OwaspCheckResult {
            id: self.id(),
            name_en: self.name_en(),
            name_fr: self.name_fr(),
            status_code,
            latency_ms,
            verdict: f.verdict(),
            details_en: f.details_en(),
            details_fr: f.details_fr(),
        }
    }

    /// Judges the answer to this control's request and reports it.
    pub fn evaluate(&self, base: &str, outcome: &HttpOutcome, latency_ms: u128) -> (r:
        OwaspCheckResult)
        requires
            *self != OwaspCheck::RateLimiting,
        ensures
            exists|f: OwaspFinding|
                judged(*self, base@, *outcome, f) && #[trigger] owasp_reports(
                    r,
                    *self,
                    f,
                    answered_code(*outcome),
                    latency_ms,
                ),
    {
        let f = self.assess(base, outcome);
        let code = match outcome {
            HttpOutcome::Reply(reply) => Some(reply.status),
            HttpOutcome::Failure(_) => None,
        };
        let r = self.report(&f, code, latency_ms);
        assert(judged(*self, base@, *outcome, f) && owasp_reports(r, *self, f, answered_code(*outcome), latency_ms));
        r
    }
}

// ---------------------------------------------------------------------------
// The rate-limiting probe
// ---------------------------------------------------------------------------

/// State of the rate-limiting probe, which posts to the login endpoint until
/// it is throttled (HTTP 429) or has sent `RATE_LIMIT_ATTEMPTS` requests.
#[derive(Debug, Clone, Copy)]
pub struct RateLimitProbe {
    /// Requests sent so far.
    pub attempts: usize,
    /// Whether any request got a response.
    pub reached: bool,
    /// Status code of the latest response (0 before any).
    pub last_code: u16,
    /// Whether a response was 429 Too Many Requests.
    pub rate_limited: bool,
}

/// The probe's state after one more answer: `Some(status)` for a response,
/// `None` for a transport error.
pub open spec fn rate_probe_step(p: RateLimitProbe, answer: Option<u16>) -> RateLimitProbe {
    match answer {
        Some(code) => RateLimitProbe {
            attempts: (p.attempts + 1) as usize,
            reached: true,
            last_code: code,
            rate_limited: code == 429,
        },
        None => RateLimitProbe { attempts: (p.attempts + 1) as usize, ..p },
    }
}

/// The probe's state after the given answers, in order.
pub open spec fn rate_probe_after(answers: Seq<Option<u16>>) -> RateLimitProbe
    decreases answers.len(),
{
    if answers.len() == 0 {
        RateLimitProbe { attempts: 0, reached: false, last_code: 0, rate_limited: false }
    } else {
        rate_probe_step(rate_probe_after(answers.drop_last()), answers.last())
    }
}

/// Whether each answer came to a request that the probe asked for: before
/// each of them the probe still wanted another request.
pub open spec fn probe_asked_each(answers: Seq<Option<u16>>) -> bool {
    forall|i: int| 0 <= i < answers.len() ==> #[trigger] rate_probe_after(answers.take(i)).spec_wants_more()
}

/// Over any run that the probe drives: it sends at most `RATE_LIMIT_ATTEMPTS`
/// requests, one per answer; it has reached the endpoint exactly when some
/// request got a response; it reports rate limiting (the `Secure` verdict)
/// exactly when some response was HTTP 429, and then stops asking.
pub proof fn lemma_rate_probe_run(answers: Seq<Option<u16>>)
    requires
        probe_asked_each(answers),
    ensures
        rate_probe_after(answers).attempts == answers.len(),
        answers.len() <= RATE_LIMIT_ATTEMPTS,
        rate_probe_after(answers).reached <==> (exists|i: int|
            0 <= i < answers.len() && #[trigger] answers[i] is Some),
        rate_probe_after(answers).rate_limited <==> (exists|i: int|
            0 <= i < answers.len() && #[trigger] answers[i] == Some(429u16)),
        (rate_probe_after(answers).spec_finding().spec_verdict() == Verdict::Secure) <==> (exists|
            i: int,
        | 0 <= i < answers.len() && #[trigger] answers[i] == Some(429u16)),
        rate_probe_after(answers).rate_limited ==> !rate_probe_after(answers).spec_wants_more(),
    decreases answers.len(),
{
    if answers.len() > 0 {
        let prev = answers.drop_last();
        let n = answers.len() - 1;
        assert forall|i: int| 0 <= i < prev.len() implies #[trigger] rate_probe_after(
            prev.take(i),
        ).spec_wants_more() by {
            assert(prev.take(i) =~= answers.take(i));
            assert(rate_probe_after(answers.take(i)).spec_wants_more());
        }
        lemma_rate_probe_run(prev);
        assert(answers.take(n) =~= prev);
        assert(rate_probe_after(answers.take(n)).spec_wants_more());
        assert forall|i: int| 0 <= i < n implies #[trigger] answers[i] == prev[i] by {}
        if answers.last() is Some {
            assert(answers[n] is Some);
        }
        if answers.last() == Some(429u16) {
            assert(answers[n] == Some(429u16));
        }
    }
}

impl RateLimitProbe {
    /// Whether the probe sends another request.
    pub open spec fn spec_wants_more(self) -> bool {
        !self.rate_limited && self.attempts < RATE_LIMIT_ATTEMPTS
    }

    pub fn new() -> (p: RateLimitProbe)
        ensures
            p == rate_probe_after(Seq::empty()),
    {
        RateLimitProbe { attempts: 0, reached: false, last_code: 0, rate_limited: false }
    }

    /// Whether another request is to be sent.
    pub fn wants_more(&self) -> (r: bool)
        ensures
            r == self.spec_wants_more(),
    {
        !self.rate_limited && self.attempts < RATE_LIMIT_ATTEMPTS
    }

    /// Records the answer to one request: `Some(status)` for a response,
    /// `None` for a transport error.
    pub fn record(&mut self, answer: Option<u16>)
        requires
            old(self).spec_wants_more(),
        ensures
            *final(self) == rate_probe_step(*old(self), answer),
    {
        self.attempts = self.attempts + 1;
        match answer {
            Some(code) => {
                self.reached = true;
                self.last_code = code;
                self.rate_limited = code == 429;
            },
            None => {},
        }
    }

    /// What the probe established.
    pub open spec fn spec_finding(self) -> OwaspFinding {
        if !self.reached {
            OwaspFinding::LoginUnreachable
        } else if self.rate_limited {
            OwaspFinding::RateLimited
        } else {
            OwaspFinding::NoRateLimit(self.last_code)
        }
    }

    /// The status code that the result shows.
    pub open spec fn spec_status_code(self) -> Option<u16> {
        if !self.reached {
            None
        } else if self.rate_limited {
            Some(429)
        } else {
            Some(self.last_code)
        }
    }

    /// The report of the rate-limiting control.
    pub fn result(&self, latency_ms: u128) -> (r: OwaspCheckResult)
        ensures
            owasp_reports(
                r,
                OwaspCheck::RateLimiting,
                self.spec_finding(),
                self.spec_status_code(),
                latency_ms,
            ),
    {
        let (f, code) = if !self.reached {
            (OwaspFinding::LoginUnreachable, None)
        } else if self.rate_limited {
            (OwaspFinding::RateLimited, Some(429u16))
        } else {
            (OwaspFinding::NoRateLimit(self.last_code), Some(self.last_code))
        };
        OwaspCheck::RateLimiting.report(&f, code, latency_ms)
    }
}

// ---------------------------------------------------------------------------
// The audit summary
// ---------------------------------------------------------------------------

/// How many results have each verdict.
#[derive(Debug, Clone, Copy, PartialEq, Eq, Structural)]
pub struct VerdictTally {
    pub secure: usize,
    pub warning: usize,
    pub vulnerable: usize,
    pub error: usize,
}

pub open spec fn count_of(vs: Seq<Verdict>, v: Verdict) -> nat {
    vs.filter(|x: Verdict| x == v).len()
}

/// Counts the verdicts of a run.
pub fn tally(verdicts: &Vec<Verdict>) -> (t: VerdictTally)
    ensures
        t.secure == count_of(verdicts@, Verdict::Secure),
        t.warning == count_of(verdicts@, Verdict::Warning),
        t.vulnerable == count_of(verdicts@, Verdict::Vulnerable),
        t.error == count_of(verdicts@, Verdict::Error),
        t.secure + t.warning + t.vulnerable + t.error == verdicts.len(),
{
    let mut t = VerdictTally { secure: 0, warning: 0, vulnerable: 0, error: 0 };
    let mut i: usize = 0;
    while i < verdicts.len()
        invariant
            i <= verdicts.len(),
            t.secure == count_of(verdicts@.take(i as int), Verdict::Secure),
            t.warning == count_of(verdicts@.take(i as int), Verdict::Warning),
            t.vulnerable == count_of(verdicts@.take(i as int), Verdict::Vulnerable),
            t.error == count_of(verdicts@.take(i as int), Verdict::Error),
            t.secure + t.warning + t.vulnerable + t.error == i,
        decreases verdicts.len() - i,
    {
        proof {
            reveal_with_fuel(Seq::filter, 1);
            assert(verdicts@.take(i + 1).drop_last() =~= verdicts@.take(i as int));
        }
        match verdicts[i] {
            Verdict::Secure => t.secure = t.secure + 1,
            Verdict::Warning => t.warning = t.warning + 1,
            Verdict::Vulnerable => t.vulnerable = t.vulnerable + 1,
            Verdict::Error => t.error = t.error + 1,
        }
        i = i + 1;
    }
    proof {
        assert(verdicts@.take(verdicts.len() as int) =~= verdicts@);
    }
    t
}

} // verus!

verus! {

// ---------------------------------------------------------------------------
// What each control concludes
// ---------------------------------------------------------------------------

/// The verdict of each OWASP control from the answer to its probe. A
/// transport error is an error. Otherwise: exposed `.git` metadata (any 2xx)
/// and an exposed `.env` (200) fail; a 5xx crash on the injection or the
/// proxy-header probe fails; empty credentials must be rejected with 401, 400
/// or 404, fail on a 5xx and warn on anything else; a missing endpoint must
/// answer 404, else it warns; a server banner carrying a digit warns; a
/// wildcard CORS origin, or the probe's origin reflected with credentials,
/// fails; and a cleartext `http` target that is not local fails.
pub proof fn lemma_owasp_verdicts(
    check: OwaspCheck,
    base: Seq<char>,
    outcome: HttpOutcome,
    f: OwaspFinding,
)
    requires
        judged(check, base, outcome, f),
    ensures
        outcome is Failure ==> f.spec_verdict() == Verdict::Error,
        outcome matches HttpOutcome::Reply(r) ==> ({
            let c = r.status;
            let v = f.spec_verdict();
            &&& check == OwaspCheck::BrokenAccessControl ==> v == if 200 <= c && c <= 299 {
                Verdict::Vulnerable
            } else {
                Verdict::Secure
            }
            &&& (check == OwaspCheck::Injection || check == OwaspCheck::RequestForgery) ==> v
                == if 500 <= c && c <= 599 {
                Verdict::Vulnerable
            } else {
                Verdict::Secure
            }
            &&& check == OwaspCheck::SecurityMisconfiguration ==> v == if c == 200 {
                Verdict::Vulnerable
            } else {
                Verdict::Secure
            }
            &&& check == OwaspCheck::AuthFailures ==> v == if c == 401 || c == 400 || c == 404 {
                Verdict::Secure
            } else if 500 <= c && c <= 599 {
                Verdict::Vulnerable
            } else {
                Verdict::Warning
            }
            &&& check == OwaspCheck::LoggingMonitoring ==> v == if c == 404 {
                Verdict::Secure
            } else {
                Verdict::Warning
            }
            &&& check == OwaspCheck::CryptographicFailures ==> v == if !has_prefix(
                unicode_lowercase(base),
                "https://"@,
            ) && !has_infix(base, "localhost"@) && !has_infix(base, "127.0.0.1"@) {
                Verdict::Vulnerable
            } else {
                Verdict::Secure
            }
            &&& check == OwaspCheck::VulnerableComponents ==> v == if (r.server matches Some(b)
                && exists|i: int|
                0 <= i < header_text(b@).len() && is_ascii_digit(#[trigger] header_text(b@)[i])) {
                Verdict::Warning
            } else {
                Verdict::Secure
            }
            &&& check == OwaspCheck::DataIntegrity ==> v == if header_or_empty(r.allow_origin)
                == "*"@ || (header_or_empty(r.allow_origin) == "https://unauthorized-thirdparty.test"@
                && header_or_empty(r.allow_credentials) == "true"@) {
                Verdict::Vulnerable
            } else {
                Verdict::Secure
            }
        }),
{
}

/// The rate-limiting control passes exactly when a response was HTTP 429,
/// fails when the endpoint answered without ever throttling, and is an error
/// when no request got a response.
pub proof fn lemma_rate_limit_verdict(p: RateLimitProbe)
    ensures
        p.spec_finding().spec_verdict() == if !p.reached {
            Verdict::Error
        } else if p.rate_limited {
            Verdict::Secure
        } else {
            Verdict::Vulnerable
        },
{
}

} // verus!

verus! {

/// Every probe goes to the target: the three controls that judge the target
/// itself (transport, server banner, CORS) request its URL as given; the
/// others request a path under it, trailing slashes removed. Only the login
/// probes (rate limiting, empty credentials) POST; the rest GET, and only the
/// empty-credentials probe has a body.
pub proof fn lemma_probe_targets(check: OwaspCheck, base: Seq<char>)
    ensures
        (check == OwaspCheck::CryptographicFailures || check == OwaspCheck::VulnerableComponents
            || check == OwaspCheck::DataIntegrity) ==> spec_request(check, base).url == base,
        !(check == OwaspCheck::CryptographicFailures || check == OwaspCheck::VulnerableComponents
            || check == OwaspCheck::DataIntegrity) ==> has_prefix(
            spec_request(check, base).url,
            strip_trailing(base, '/'),
        ) && spec_request(check, base).url.len() > strip_trailing(base, '/').len(),
        spec_request(check, base).method == if check == OwaspCheck::RateLimiting || check
            == OwaspCheck::AuthFailures {
            HttpMethod::Post
        } else {
            HttpMethod::Get
        },
        spec_request(check, base).body is Some <==> check == OwaspCheck::AuthFailures,
{
    let root = strip_trailing(base, '/');
    let u = spec_request(check, base).url;
    if !(check == OwaspCheck::CryptographicFailures || check == OwaspCheck::VulnerableComponents
        || check == OwaspCheck::DataIntegrity) {
        let path = u.subrange(root.len() as int, u.len() as int);
        assert(u =~= root + path);
        assert(u.subrange(0, root.len() as int) =~= root);
        reveal_strlit("/.git/HEAD");
        reveal_strlit("/api/search?q=test%27%22%3B--");
        reveal_strlit("/api/login");
        reveal_strlit("/.env");
        reveal_strlit("/endpoint_that_definitely_does_not_exist_404");
        reveal_strlit("/api/fetch");
    }
}

} // verus!
