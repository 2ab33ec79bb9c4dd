use hunter::owasp::{
    all_owasp_checks, tally, HttpMethod, HttpOutcome, HttpReply, OwaspCheck, RateLimitProbe,
    RATE_LIMIT_ATTEMPTS,
};
use hunter::owasp_text::OwaspFinding;
use hunter::verdict::Verdict;

fn reply(status: u16) -> HttpOutcome {
    HttpOutcome::Reply(HttpReply { status, server: None, allow_origin: None, allow_credentials: None })
}

fn failure(text: &str) -> HttpOutcome {
    HttpOutcome::Failure(text.to_string())
}

#[test]
fn the_ten_controls_in_order() {
    let checks = all_owasp_checks();
    let ids: Vec<&str> = checks.iter().map(|c| c.id()).collect();
    assert_eq!(ids, vec!["A01", "A02", "A03", "A04", "A05", "A06", "A07", "A08", "A09", "A10"]);
    assert_eq!(OwaspCheck::RateLimiting.name_en(), "Insecure Design (Rate Limiting)");
    assert_eq!(OwaspCheck::RateLimiting.name_fr(), "Conception Insuffisante (Rate Limiting)");
    assert_eq!(OwaspCheck::BrokenAccessControl.name_fr(), "Contrôle d'Accès Défaillant");
}

#[test]
fn probe_urls_drop_trailing_slashes() {
    let p = OwaspCheck::BrokenAccessControl.probe_request("http://example.test//");
    assert_eq!(p.url, "http://example.test/.git/HEAD");
    assert!(matches!(p.method, HttpMethod::Get));
    assert!(p.headers.is_empty());
    assert!(p.body.is_none());
    let a02 = OwaspCheck::CryptographicFailures.probe_request("http://example.test/");
    assert_eq!(a02.url, "http://example.test/");
    let a03 = OwaspCheck::Injection.probe_request("http://example.test");
    assert_eq!(a03.url, "http://example.test/api/search?q=test%27%22%3B--");
    let a09 = OwaspCheck::LoggingMonitoring.probe_request("http://h/");
    assert_eq!(a09.url, "http://h/endpoint_that_definitely_does_not_exist_404");
}

#[test]
fn probe_headers_and_bodies() {
    let a07 = OwaspCheck::AuthFailures.probe_request("http://h");
    assert!(matches!(a07.method, HttpMethod::Post));
    assert_eq!(a07.url, "http://h/api/login");
    assert_eq!(a07.headers, vec![("Content-Type", "application/json")]);
    assert_eq!(a07.body, Some("{\"user\":\"\",\"pass\":\"\"}"));
    let a08 = OwaspCheck::DataIntegrity.probe_request("http://h");
    assert_eq!(a08.headers, vec![("Origin", "https://unauthorized-thirdparty.test")]);
    let a10 = OwaspCheck::RequestForgery.probe_request("http://h");
    assert_eq!(a10.url, "http://h/api/fetch");
    assert_eq!(a10.headers, vec![("X-Forwarded-For", "127.0.0.1"), ("X-Remote-IP", "127.0.0.1")]);
    let a04 = OwaspCheck::RateLimiting.probe_request("http://h/");
    assert!(matches!(a04.method, HttpMethod::Post));
    assert_eq!(a04.url, "http://h/api/login");
}

#[test]
fn broken_access_control() {
    let r = OwaspCheck::BrokenAccessControl.evaluate("http://h", &reply(200), 12);
    assert_eq!(r.id, "A01");
    assert_eq!(r.status_code, Some(200));
    assert_eq!(r.latency_ms, 12);
    assert_eq!(r.verdict, Verdict::Vulnerable);
    assert_eq!(r.details_en, "Publicly accessible internal repository metadata (HTTP 200).");
    let r2 = OwaspCheck::BrokenAccessControl.evaluate("http://h", &reply(403), 5);
    assert_eq!(r2.verdict, Verdict::Secure);
    assert_eq!(r2.details_en, "Restricted resource access blocked properly (HTTP 403).");
    assert_eq!(r2.details_fr, "Accès aux ressources sensibles bloqué (HTTP 403).");
}

#[test]
fn connection_errors_carry_the_message() {
    let r = OwaspCheck::BrokenAccessControl.evaluate("http://h", &failure("timed out"), 3000);
    assert_eq!(r.verdict, Verdict::Error);
    assert_eq!(r.status_code, None);
    assert_eq!(r.details_en, "Connection error: timed out");
    assert_eq!(r.details_fr, "Erreur de connexion : timed out");
    let r2 = OwaspCheck::SecurityMisconfiguration.evaluate("http://h", &failure("dns"), 1);
    assert_eq!(r2.details_en, "Request failed: dns");
    assert_eq!(r2.details_fr, "Échec de requête : dns");
    let r3 = OwaspCheck::AuthFailures.evaluate("http://h", &failure("reset"), 1);
    assert_eq!(r3.details_fr, "Erreur de communication : reset");
}

#[test]
fn cryptographic_failures_by_scheme_and_host() {
    let clear = OwaspCheck::CryptographicFailures.evaluate("http://example.com", &reply(200), 1);
    assert_eq!(clear.verdict, Verdict::Vulnerable);
    assert_eq!(clear.details_en, "Cleartext HTTP transport detected without TLS encryption.");
    let tls = OwaspCheck::CryptographicFailures.evaluate("HTTPS://example.com", &reply(200), 1);
    assert_eq!(tls.verdict, Verdict::Secure);
    let local = OwaspCheck::CryptographicFailures.evaluate("http://localhost:8080", &reply(500), 1);
    assert_eq!(local.verdict, Verdict::Secure);
    assert_eq!(local.details_en, "Encrypted transport or safe local development environment.");
    let loopback = OwaspCheck::CryptographicFailures.evaluate("http://127.0.0.1", &reply(200), 1);
    assert_eq!(loopback.verdict, Verdict::Secure);
}

#[test]
fn injection_and_ssrf_on_server_errors() {
    let crash = OwaspCheck::Injection.evaluate("http://h", &reply(502), 1);
    assert_eq!(crash.verdict, Verdict::Vulnerable);
    assert_eq!(crash.details_en, "Unhandled 5xx crash on test syntax (HTTP 502).");
    let ok = OwaspCheck::Injection.evaluate("http://h", &reply(400), 1);
    assert_eq!(ok.verdict, Verdict::Secure);
    assert_eq!(ok.details_en, "Input safely sanitized or rejected (HTTP 400).");
    let ssrf = OwaspCheck::RequestForgery.evaluate("http://h", &reply(599), 1);
    assert_eq!(ssrf.verdict, Verdict::Vulnerable);
    let ssrf_ok = OwaspCheck::RequestForgery.evaluate("http://h", &reply(600), 1);
    assert_eq!(ssrf_ok.verdict, Verdict::Secure);
    assert_eq!(ssrf_ok.details_en, "Local loopback headers safely ignored or rejected (HTTP 600).");
}

#[test]
fn env_file_exposure() {
    let exposed = OwaspCheck::SecurityMisconfiguration.evaluate("http://h", &reply(200), 1);
    assert_eq!(exposed.verdict, Verdict::Vulnerable);
    let created = OwaspCheck::SecurityMisconfiguration.evaluate("http://h", &reply(201), 1);
    assert_eq!(created.verdict, Verdict::Secure);
    assert_eq!(created.details_en, "Configuration file protected or absent (HTTP 201).");
}

#[test]
fn server_banner_with_version() {
    let with_version = HttpOutcome::Reply(HttpReply {
        status: 200,
        server: Some(b"nginx/1.18.0".to_vec()),
        allow_origin: None,
        allow_credentials: None,
    });
    let r = OwaspCheck::VulnerableComponents.evaluate("http://h", &with_version, 1);
    assert_eq!(r.verdict, Verdict::Warning);
    assert_eq!(r.details_en, "Software version disclosure detected: Server: nginx/1.18.0.");
    assert_eq!(r.details_fr, "Divulgation de versions logicielles : Server: nginx/1.18.0.");
    let plain = HttpOutcome::Reply(HttpReply {
        status: 200,
        server: Some(b"nginx".to_vec()),
        allow_origin: None,
        allow_credentials: None,
    });
    assert_eq!(OwaspCheck::VulnerableComponents.evaluate("http://h", &plain, 1).verdict, Verdict::Secure);
    let opaque = HttpOutcome::Reply(HttpReply {
        status: 200,
        server: Some(vec![b'v', b'1', 0xc3, 0xa9]),
        allow_origin: None,
        allow_credentials: None,
    });
    let r3 = OwaspCheck::VulnerableComponents.evaluate("http://h", &opaque, 1);
    assert_eq!(r3.verdict, Verdict::Secure);
    assert_eq!(r3.details_en, "No sensitive version banners disclosed in headers.");
}

#[test]
fn empty_credentials() {
    for code in [401u16, 400, 404] {
        let r = OwaspCheck::AuthFailures.evaluate("http://h", &reply(code), 1);
        assert_eq!(r.verdict, Verdict::Secure);
    }
    let r = OwaspCheck::AuthFailures.evaluate("http://h", &reply(401), 1);
    assert_eq!(r.details_en, "Empty auth handled with proper client rejection (HTTP 401).");
    let crash = OwaspCheck::AuthFailures.evaluate("http://h", &reply(500), 1);
    assert_eq!(crash.verdict, Verdict::Vulnerable);
    assert_eq!(crash.details_en, "Server crash on empty credentials (HTTP 500).");
    let odd = OwaspCheck::AuthFailures.evaluate("http://h", &reply(200), 1);
    assert_eq!(odd.verdict, Verdict::Warning);
    assert_eq!(odd.details_fr, "Réponse inattendue sur des identifiants vides (HTTP 200).");
}

#[test]
fn cors_policies() {
    let cors = |origin: Option<&str>, creds: Option<&str>| {
        HttpOutcome::Reply(HttpReply {
            status: 200,
            server: None,
            allow_origin: origin.map(|s| s.as_bytes().to_vec()),
            allow_credentials: creds.map(|s| s.as_bytes().to_vec()),
        })
    };
    let wildcard = OwaspCheck::DataIntegrity.evaluate("http://h", &cors(Some("*"), None), 1);
    assert_eq!(wildcard.verdict, Verdict::Vulnerable);
    assert_eq!(wildcard.details_en, "Permissive wildcard CORS origin with credential reflection.");
    let reflected = cors(Some("https://unauthorized-thirdparty.test"), Some("true"));
    assert_eq!(OwaspCheck::DataIntegrity.evaluate("http://h", &reflected, 1).verdict, Verdict::Vulnerable);
    let no_creds = cors(Some("https://unauthorized-thirdparty.test"), None);
    assert_eq!(OwaspCheck::DataIntegrity.evaluate("http://h", &no_creds, 1).verdict, Verdict::Secure);
    let none = OwaspCheck::DataIntegrity.evaluate("http://h", &cors(None, None), 1);
    assert_eq!(none.verdict, Verdict::Secure);
    assert_eq!(none.details_en, "Cross-Origin headers properly restricted or absent.");
}

#[test]
fn missing_endpoint_code() {
    let std404 = OwaspCheck::LoggingMonitoring.evaluate("http://h", &reply(404), 1);
    assert_eq!(std404.verdict, Verdict::Secure);
    assert_eq!(std404.details_en, "Standard HTTP 404 response logged without leakage.");
    let soft = OwaspCheck::LoggingMonitoring.evaluate("http://h", &reply(200), 1);
    assert_eq!(soft.verdict, Verdict::Warning);
    assert_eq!(soft.details_en, "Non-standard response code for missing endpoint (HTTP 200).");
}

#[test]
fn rate_limit_probe_stops_on_429() {
    let mut p = RateLimitProbe::new();
    assert!(p.wants_more());
    p.record(Some(200));
    p.record(None);
    p.record(Some(429));
    assert!(!p.wants_more());
    assert_eq!(p.attempts, 3);
    let r = p.result(40);
    assert_eq!(r.id, "A04");
    assert_eq!(r.verdict, Verdict::Secure);
    assert_eq!(r.status_code, Some(429));
    assert_eq!(r.details_en, "Anti-automation rate limit triggered (HTTP 429).");
}

#[test]
fn rate_limit_probe_gives_up_after_fifteen() {
    let mut p = RateLimitProbe::new();
    let mut sent = 0;
    while p.wants_more() {
        p.record(Some(200));
        sent += 1;
    }
    assert_eq!(sent, 15);
    assert_eq!(RATE_LIMIT_ATTEMPTS, 15);
    let r = p.result(7);
    assert_eq!(r.verdict, Verdict::Vulnerable);
    assert_eq!(r.status_code, Some(200));
    assert_eq!(r.details_en, "No rate limit after 15 rapid requests (HTTP 200).");
    assert_eq!(r.details_fr, "Aucune limite après 15 requêtes rapides (HTTP 200).");
}

#[test]
fn rate_limit_probe_unreachable() {
    let mut p = RateLimitProbe::new();
    while p.wants_more() {
        p.record(None);
    }
    let r = p.result(9);
    assert_eq!(r.verdict, Verdict::Error);
    assert_eq!(r.status_code, None);
    assert_eq!(r.details_en, "Target endpoint unreachable (Connection refused).");
}

#[test]
fn finding_texts_and_verdicts() {
    let f = OwaspFinding::GitMetadataBlocked(301);
    assert_eq!(f.verdict(), Verdict::Secure);
    assert_eq!(f.details_en(), "Restricted resource access blocked properly (HTTP 301).");
    let e = OwaspFinding::RequestFailed("boom".to_string());
    assert_eq!(e.verdict(), Verdict::Error);
    assert_eq!(e.details_fr(), "Échec de requête : boom");
}

#[test]
fn tally_counts_each_verdict() {
    let vs = vec![
        Verdict::Secure,
        Verdict::Vulnerable,
        Verdict::Secure,
        Verdict::Warning,
        Verdict::Error,
        Verdict::Secure,
    ];
    let t = tally(&vs);
    assert_eq!((t.secure, t.warning, t.vulnerable, t.error), (3, 1, 1, 1));
    let empty = tally(&Vec::new());
    assert_eq!((empty.secure, empty.warning, empty.vulnerable, empty.error), (0, 0, 0, 0));
}
