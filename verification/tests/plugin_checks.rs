use hunter::plugins::{
    default_category, http_test_report, io_payload, io_target, io_test_report, plugin_summary,
    sort_by_id, text_less, IoProbeOutcome, IoTarget, PluginTestDefinition, TestReportItem,
    DEFAULT_IO_PAYLOAD,
};

fn test_def(id: &str) -> PluginTestDefinition {
    PluginTestDefinition {
        id: id.to_string(),
        test_name: format!("Test {}", id),
        description_en: None,
        description_fr: None,
        category: default_category(),
        test_path: None,
        test_payload: None,
        target_url: None,
        expected_status_code: None,
        remediation_command: Some("fix-it".to_string()),
    }
}

#[test]
fn defaults() {
    assert_eq!(default_category(), "io_file");
    let t = test_def("X");
    assert_eq!(io_payload(&t), DEFAULT_IO_PAYLOAD);
    assert_eq!(DEFAULT_IO_PAYLOAD, "HUNTER_DIAGNOSTIC_PAYLOAD_TEST_OK");
    let mut with_payload = test_def("X");
    with_payload.test_payload = Some("abc".to_string());
    assert_eq!(io_payload(&with_payload), "abc");
}

#[test]
fn io_target_defaults_to_lowercased_temp_file() {
    let t = test_def("IO_Check-01");
    match io_target(&t) {
        IoTarget::TempFile(name) => assert_eq!(name, "hunter_io_test_io_check-01.tmp"),
        other => panic!("unexpected {:?}", other),
    }
    let mut blank = test_def("ÀB");
    blank.test_path = Some("   ".to_string());
    match io_target(&blank) {
        IoTarget::TempFile(name) => assert_eq!(name, "hunter_io_test_àb.tmp"),
        other => panic!("unexpected {:?}", other),
    }
    let mut named = test_def("a");
    named.test_path = Some(" /tmp/x.txt".to_string());
    match io_target(&named) {
        IoTarget::Path(p) => assert_eq!(p, " /tmp/x.txt"),
        other => panic!("unexpected {:?}", other),
    }
}

#[test]
fn io_reports() {
    let t = test_def("io1");
    let ok = io_test_report(&t, false, &IoProbeOutcome::Read(DEFAULT_IO_PAYLOAD.to_string()), 3);
    assert!(ok.passed);
    assert_eq!(ok.id, "io1");
    assert_eq!(ok.name, "Test io1");
    assert_eq!(ok.latency_ms, 3);
    assert_eq!(ok.details, "Write, Path::exists, and read verified (33 bytes)");
    assert_eq!(ok.remediation, None);
    let mut fr_t = test_def("io2");
    fr_t.test_payload = Some("é".to_string());
    let fr = io_test_report(&fr_t, true, &IoProbeOutcome::Read("é".to_string()), 1);
    assert_eq!(fr.details, "Écriture, Path::exists et lecture validés (2 octets)");
    let tampered = io_test_report(&t, false, &IoProbeOutcome::Read("other".to_string()), 1);
    assert!(!tampered.passed);
    assert_eq!(tampered.details, "Integrity compromised: read content differs from injected payload.");
    assert_eq!(tampered.remediation, Some("fix-it".to_string()));
    let denied = io_test_report(&t, false, &IoProbeOutcome::WriteFailed("Permission denied".to_string()), 1);
    assert_eq!(denied.details, "Disk write failure / I/O intercepted: Permission denied");
    let missing = io_test_report(&t, true, &IoProbeOutcome::Missing, 1);
    assert_eq!(
        missing.details,
        "Fichier absent ou supprimé immédiatement après l'écriture (interception E/S active)."
    );
    let unreadable = io_test_report(&t, false, &IoProbeOutcome::ReadFailed("locked".to_string()), 1);
    assert_eq!(unreadable.details, "Read permission denied / Access locked: locked");
}

#[test]
fn http_reports() {
    let no_url = test_def("h0");
    let r = http_test_report(&no_url, false, &None, 99);
    assert!(!r.passed);
    assert_eq!(r.latency_ms, 0);
    assert_eq!(r.details, "No target URL defined in plugin.");
    assert_eq!(r.remediation, None);
    let mut t = test_def("h1");
    t.target_url = Some("http://x".to_string());
    let pass = http_test_report(&t, false, &Some(Ok(200)), 5);
    assert!(pass.passed);
    assert_eq!(pass.details, "HTTP status received: 200 (Expected: 200)");
    assert_eq!(pass.remediation, None);
    t.expected_status_code = Some(403);
    let fail = http_test_report(&t, true, &Some(Ok(200)), 5);
    assert!(!fail.passed);
    assert_eq!(fail.details, "Code HTTP reçu : 200 (Attendu : 403)");
    assert_eq!(fail.remediation, Some("fix-it".to_string()));
    let err = http_test_report(&t, false, &Some(Err("timeout".to_string())), 5);
    assert_eq!(err.details, "HTTP request failed: timeout");
    assert!(!err.passed);
}

#[test]
fn summary_counts() {
    let item = |passed: bool| TestReportItem {
        id: "a".to_string(),
        name: "a".to_string(),
        passed,
        latency_ms: 0,
        details: String::new(),
        remediation: None,
    };
    assert_eq!(plugin_summary(&vec![item(true), item(false), item(true)]), (3, 2, 1));
    assert_eq!(plugin_summary(&Vec::new()), (0, 0, 0));
}

#[test]
fn ids_sort_stably() {
    let mut b1 = test_def("b");
    b1.test_name = "first b".to_string();
    let mut b2 = test_def("b");
    b2.test_name = "second b".to_string();
    let sorted = sort_by_id(vec![test_def("c"), b1, test_def("a"), b2, test_def("B")]);
    let ids: Vec<&str> = sorted.iter().map(|t| t.id.as_str()).collect();
    assert_eq!(ids, vec!["B", "a", "b", "b", "c"]);
    assert_eq!(sorted[2].test_name, "first b");
    assert_eq!(sorted[3].test_name, "second b");
    assert!(sort_by_id(Vec::new()).is_empty());
}

#[test]
fn text_order_matches_string_order() {
    let cases = [("a", "b"), ("ab", "a"), ("", "a"), ("é", "z"), ("Z", "a"), ("same", "same")];
    for (a, b) in cases {
        assert_eq!(text_less(a, b), a < b, "{:?} < {:?}", a, b);
        assert_eq!(text_less(b, a), b < a, "{:?} < {:?}", b, a);
    }
}
