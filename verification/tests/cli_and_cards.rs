use hunter::cards::{defend_card, full_pass_card, owasp_card, scenario_card, tone_of, Tone, ValueStyle, CARD_WIDTH};
use hunter::cli::{normalize_target_url, parse_args, CliCommand};
use hunter::owasp::{HttpOutcome, HttpReply, OwaspCheck};
use hunter::scenarios::{AutoDefendScenario, DefendScenario, HostObservation, Platform};
use hunter::verdict::Verdict;
use hunter::wrap::wrap_text;

fn args(list: &[&str]) -> Vec<String> {
    list.iter().map(|s| s.to_string()).collect()
}

#[test]
fn owasp_mode_adds_a_scheme() {
    let r = parse_args(&args(&["hunter", "-owasp", "localhost:3000"]));
    assert!(!r.french);
    match r.command {
        CliCommand::OwaspAudit { url } => assert_eq!(url, "http://localhost:3000"),
        other => panic!("unexpected {:?}", other),
    }
    let r2 = parse_args(&args(&["hunter", "--owasp", "https://x.test", "-fr"]));
    assert!(r2.french);
    match r2.command {
        CliCommand::OwaspAudit { url } => assert_eq!(url, "https://x.test"),
        other => panic!("unexpected {:?}", other),
    }
}

#[test]
fn auto_defend_with_flag_anywhere() {
    let r = parse_args(&args(&["hunter", "--fr", "--auto-defend", "localhost", "-check", "all"]));
    assert!(r.french);
    match r.command {
        CliCommand::AutoDefend { target, scenario } => {
            assert_eq!(target, "localhost");
            assert_eq!(scenario, "all");
        }
        other => panic!("unexpected {:?}", other),
    }
    let r2 = parse_args(&args(&["hunter", "--auto-defend", "h", "--check", "eicar_quarantine"]));
    assert!(matches!(r2.command, CliCommand::AutoDefend { .. }));
}

#[test]
fn help_list_and_usage() {
    assert!(matches!(parse_args(&args(&["hunter", "--auto-defend"])).command, CliCommand::AutoDefendHelp));
    assert!(matches!(
        parse_args(&args(&["hunter", "--auto-defend", "-h", "-fr"])).command,
        CliCommand::AutoDefendHelp
    ));
    assert!(matches!(parse_args(&args(&["hunter", "-l"])).command, CliCommand::ListChecks));
    assert!(matches!(parse_args(&args(&["hunter", "--list-checks"])).command, CliCommand::ListChecks));
    assert!(matches!(parse_args(&args(&["hunter"])).command, CliCommand::Usage));
    assert!(matches!(parse_args(&args(&["hunter", "-owasp"])).command, CliCommand::Usage));
    assert!(matches!(
        parse_args(&args(&["hunter", "--auto-defend", "h", "-x", "all"])).command,
        CliCommand::Usage
    ));
    assert!(parse_args(&args(&["hunter", "-fr"])).french);
}

#[test]
fn normalization_leaves_schemes_alone() {
    assert_eq!(normalize_target_url("example.com"), "http://example.com");
    assert_eq!(normalize_target_url("http://example.com"), "http://example.com");
    assert_eq!(normalize_target_url("https://example.com"), "https://example.com");
    let once = normalize_target_url("a.b");
    assert_eq!(normalize_target_url(&once), once);
}

#[test]
fn wrap_text_examples() {
    assert_eq!(wrap_text("aaa bbb ccc", 7), vec!["aaa bbb", "ccc"]);
    assert_eq!(wrap_text("   ", 10), vec!["-"]);
    assert_eq!(wrap_text("", 10), vec!["-"]);
    assert_eq!(wrap_text("averyveryverylongword x", 5), vec!["averyveryverylongword", "x"]);
    assert_eq!(wrap_text("a\tb\nc", 80), vec!["a b c"]);
    // Width counts bytes: "é" is two bytes.
    assert_eq!(wrap_text("éé é", 4), vec!["éé", "é"]);
    assert_eq!(wrap_text("ab cd", 5), vec!["ab cd"]);
}

#[test]
fn wrap_text_lines_fit() {
    let text = "Publicly accessible internal repository metadata exposed over HTTP with a rather long explanation";
    let lines = wrap_text(text, 20);
    for l in &lines {
        assert!(l.len() <= 20 || !l.contains(' '));
        assert!(!l.is_empty());
    }
    assert_eq!(lines.join(" "), text.split_whitespace().collect::<Vec<_>>().join(" "));
}

#[test]
fn owasp_card_rows() {
    let r = OwaspCheck::BrokenAccessControl.evaluate(
        "http://h",
        &HttpOutcome::Reply(HttpReply { status: 403, server: None, allow_origin: None, allow_credentials: None }),
        42,
    );
    let card = owasp_card(&r, false);
    assert_eq!(card.border, Tone::Green);
    assert_eq!(card.title, "[A01] OWASP CONTROL : Broken Access Control");
    assert!(!card.spaced_title);
    assert_eq!(card.label_width, 12);
    assert_eq!(card.value_width, CARD_WIDTH - 20);
    assert_eq!(card.label_width + card.value_width + 8, CARD_WIDTH);
    assert_eq!(card.rows.len(), 4);
    assert_eq!(card.rows[0].label, "STATUS");
    assert_eq!(card.rows[0].value, "[SECURE]");
    assert_eq!(card.rows[0].style, ValueStyle::Bold(Tone::Green));
    assert_eq!(card.rows[1].value, "HTTP 403");
    assert_eq!(card.rows[2].value, "42 ms");
    assert_eq!(card.rows[3].label, "DETAILS");
    assert_eq!(card.rows[3].value, "Restricted resource access blocked properly (HTTP 403).");
    let fr = owasp_card(&r, true);
    assert_eq!(fr.title, "[A01] CONTRÔLE OWASP : Contrôle d'Accès Défaillant");
    assert_eq!(fr.rows[0].value, "[SÉCURISÉ]");
    assert_eq!(fr.rows[1].label, "CODE HTTP");
}

#[test]
fn owasp_card_without_code() {
    let r = OwaspCheck::Injection.evaluate("http://h", &HttpOutcome::Failure("refused".to_string()), 0);
    let card = owasp_card(&r, false);
    assert_eq!(card.border, Tone::Magenta);
    assert_eq!(card.rows[0].value, "[ERROR]");
    assert_eq!(card.rows[1].value, "N/A");
    assert_eq!(card.rows[2].value, "0 ms");
}

#[test]
fn defend_card_rows() {
    let r = DefendScenario::FirewallPolicy.execute_evaluation(
        Platform::Linux,
        &HostObservation::CommandOutput(Some(b"Status: inactive".to_vec())),
    );
    let card = defend_card(&r, false);
    assert_eq!(card.border, Tone::Red);
    assert_eq!(card.title, "[firewall_policy] SECURITY SCENARIO : Host Firewall Active Policy");
    assert_eq!(card.label_width, 17);
    assert_eq!(card.label_width + card.value_width + 8, CARD_WIDTH);
    assert_eq!(card.rows[0].label, "DEFENSE STATUS");
    assert_eq!(card.rows[0].value, "[!] STATUS: Security control FAILED. System is NON-COMPLIANT.");
    assert_eq!(card.rows[1].label, "FACTUAL FINDINGS");
    assert_eq!(card.rows[1].value, "UFW Linux host firewall is INACTIVE.");
}

#[test]
fn catalog_cards() {
    let card = scenario_card(DefendScenario::EicarQuarantine, false);
    assert!(card.spaced_title);
    assert!(card.title.contains("eicar_quarantine"));
    assert!(card.rows.iter().any(|row| row.value == "eicar_quarantine"));
    let all = full_pass_card(false);
    assert_eq!(all.title, "  [all] FULL COMPREHENSIVE CONTROL");
    assert_eq!(all.rows[0].value, "all");
    assert_eq!(all.border, Tone::Yellow);
}

#[test]
fn tones_follow_verdicts() {
    assert_eq!(tone_of(Verdict::Secure), Tone::Green);
    assert_eq!(tone_of(Verdict::Warning), Tone::Yellow);
    assert_eq!(tone_of(Verdict::Vulnerable), Tone::Red);
    assert_eq!(tone_of(Verdict::Error), Tone::Magenta);
    assert!(Verdict::Vulnerable.needs_remediation());
    assert!(!Verdict::Warning.needs_remediation());
    let s = DefendScenario::UsbScanning;
    assert_eq!(s.id(), "usb_scanning");
}

#[test]
fn language_flag_position_does_not_change_the_mode() {
    let base = ["hunter", "--auto-defend", "srv", "-check", "eicar_quarantine"];
    let plain = parse_args(&args(&base));
    assert!(!plain.french);
    for k in 0..=base.len() {
        let mut with_flag: Vec<&str> = base.to_vec();
        with_flag.insert(k, if k % 2 == 0 { "-fr" } else { "--fr" });
        let r = parse_args(&args(&with_flag));
        assert!(r.french);
        assert_eq!(format!("{:?}", r.command), format!("{:?}", plain.command));
    }
}

#[test]
fn report_card_lines_stay_in_their_column() {
    let long = "word ".repeat(60);
    let r = OwaspCheck::Injection.evaluate("http://h", &HttpOutcome::Failure(long.clone()), 0);
    let card = owasp_card(&r, false);
    assert!(card.rows.len() > 4);
    for row in &card.rows[3..] {
        assert!(row.value.len() <= card.value_width);
    }
    for row in &card.rows {
        let cols = 8 + row.label.chars().count().max(card.label_width) + row.value.chars().count().max(card.value_width);
        assert_eq!(cols, CARD_WIDTH);
    }
    let s = DefendScenario::EicarQuarantine.execute_evaluation(
        Platform::Linux,
        &HostObservation::EicarFile { write_succeeded: true, still_exists: true },
    );
    let dcard = defend_card(&s, true);
    for row in &dcard.rows[1..] {
        assert!(row.value.len() <= dcard.value_width);
    }
    for row in &dcard.rows {
        let cols = 8 + row.label.chars().count().max(dcard.label_width) + row.value.chars().count().max(dcard.value_width);
        assert_eq!(cols, CARD_WIDTH);
    }
}

#[test]
fn rewrapping_changes_nothing() {
    for (text, width) in [
        ("Publicly accessible internal repository metadata (HTTP 200).", 20usize),
        ("   ", 10),
        ("averyveryverylongword x y", 5),
        ("é é é é é", 4),
    ] {
        let lines = wrap_text(text, width);
        assert_eq!(wrap_text(&lines.join(" "), width), lines);
    }
}

#[test]
fn lines_break_only_when_the_next_word_does_not_fit() {
    let lines = wrap_text("aa bb cc dddd e", 5);
    assert_eq!(lines, vec!["aa bb", "cc", "dddd", "e"]);
    for pair in lines.windows(2) {
        let next_first = pair[1].split_whitespace().next().unwrap();
        assert!(pair[0].len() + 1 + next_first.len() > 5);
    }
}
