use hunter::scenarios::{
    get_all_defend_scenarios, remediation_result, select_scenarios, AutoDefendScenario,
    DefendScenario, HostObservation, Platform, ProbePlan, RemediationPlan, EICAR_TEST_FILE_NAME,
    EICAR_TEST_STRING,
};
use hunter::session::{is_affirmative, remediation_confirmed, remediation_queue};
use hunter::verdict::Verdict;

fn output(text: &str) -> HostObservation {
    HostObservation::CommandOutput(Some(text.as_bytes().to_vec()))
}

#[test]
fn eicar_write_blocked_is_secure() {
    let obs = HostObservation::EicarFile { write_succeeded: false, still_exists: false };
    let r = DefendScenario::EicarQuarantine.execute_evaluation(Platform::Linux, &obs);
    assert_eq!(r.scenario_id, "eicar_quarantine");
    assert_eq!(r.title_en, "Antivirus Real-Time File Interception (EICAR)");
    assert_eq!(r.title_fr, "Interception Antivirus en Temps Réel (EICAR)");
    assert_eq!(r.verdict, Verdict::Secure);
    assert_eq!(
        r.findings_en,
        "File write blocked immediately by active antivirus on-access scanner."
    );
    assert_eq!(r.remediation_title_en, "Antivirus protection is already active.");
}

#[test]
fn eicar_file_left_on_disk_is_vulnerable() {
    let obs = HostObservation::EicarFile { write_succeeded: true, still_exists: true };
    let r = DefendScenario::EicarQuarantine.execute_evaluation(Platform::Windows, &obs);
    assert_eq!(r.verdict, Verdict::Vulnerable);
    assert_eq!(
        r.findings_en,
        "EICAR test string was created on disk and NOT quarantined by real-time protection."
    );
    assert_eq!(
        r.findings_fr,
        "Le fichier de test EICAR a été écrit sur disque sans être neutralisé par l'antivirus."
    );
    assert_eq!(
        r.remediation_title_en,
        "Deploy & Enable System Real-Time Antivirus Protection Shield"
    );
}

#[test]
fn eicar_file_removed_is_secure() {
    let obs = HostObservation::EicarFile { write_succeeded: true, still_exists: false };
    let r = DefendScenario::EicarQuarantine.execute_evaluation(Platform::Linux, &obs);
    assert_eq!(r.verdict, Verdict::Secure);
    assert_eq!(
        r.findings_en,
        "File was successfully intercepted and deleted/quarantined by active antivirus."
    );
    assert_eq!(r.remediation_title_fr, "Protection antivirus vérifiée et active.");
}

#[test]
fn eicar_probe_writes_the_test_file() {
    assert!(matches!(
        DefendScenario::EicarQuarantine.probe_plan(Platform::Linux),
        ProbePlan::WriteEicarFile
    ));
    assert_eq!(
        EICAR_TEST_STRING,
        "X5O!P%@AP[4\\PZX54(P^)7CC)7}$EICAR-STANDARD-ANTIVIRUS-TEST-FILE!$H+H*"
    );
    assert_eq!(EICAR_TEST_FILE_NAME, "hunter_eicar_test.com");
}

#[test]
fn realtime_windows_output_is_trimmed_and_lowercased() {
    let r = DefendScenario::RealtimeProtection.execute_evaluation(Platform::Windows, &output("True\r\n"));
    assert_eq!(r.verdict, Verdict::Secure);
    assert_eq!(r.findings_en, "Windows Defender Real-Time Protection is confirmed ACTIVE.");
    assert_eq!(r.remediation_title_en, "System is compliant.");
}

#[test]
fn realtime_windows_false_or_missing_is_vulnerable() {
    let r = DefendScenario::RealtimeProtection.execute_evaluation(Platform::Windows, &output("False"));
    assert_eq!(r.verdict, Verdict::Vulnerable);
    assert_eq!(
        r.findings_en,
        "Real-Time Antivirus Monitoring is currently DISABLED or unmonitored."
    );
    let none = HostObservation::CommandOutput(None);
    let r2 = DefendScenario::RealtimeProtection.execute_evaluation(Platform::Windows, &none);
    assert_eq!(r2.verdict, Verdict::Vulnerable);
}

#[test]
fn realtime_linux_active_daemon() {
    let r = DefendScenario::RealtimeProtection.execute_evaluation(Platform::Linux, &output("active\n"));
    assert_eq!(r.verdict, Verdict::Secure);
    assert_eq!(
        r.findings_en,
        "ClamAV daemon service is active and monitoring filesystem operations."
    );
    let r2 = DefendScenario::RealtimeProtection.execute_evaluation(Platform::Linux, &output("inactive\n"));
    assert_eq!(r2.verdict, Verdict::Vulnerable);
    assert_eq!(r2.findings_en, "clamav-daemon is inactive or not configured.");
    assert_eq!(r2.remediation_title_en, "Install and start ClamAV background daemon");
    // Upper case is not lowered on Linux.
    let r3 = DefendScenario::RealtimeProtection.execute_evaluation(Platform::Linux, &output("ACTIVE"));
    assert_eq!(r3.verdict, Verdict::Vulnerable);
}

#[test]
fn realtime_other_platform_is_an_error() {
    let r = DefendScenario::RealtimeProtection.execute_evaluation(Platform::Other, &HostObservation::Nothing);
    assert_eq!(r.verdict, Verdict::Error);
    assert_eq!(r.findings_en, "Unsupported OS platform.");
    assert_eq!(r.remediation_title_en, "N/A");
}

#[test]
fn realtime_linux_probe_command() {
    match DefendScenario::RealtimeProtection.probe_plan(Platform::Linux) {
        ProbePlan::RunCommand(c) => {
            assert_eq!(c.program, "systemctl");
            assert_eq!(c.args, vec!["is-active", "clamav-daemon"]);
        }
        _ => panic!("expected a command"),
    }
    match DefendScenario::RealtimeProtection.probe_plan(Platform::Windows) {
        ProbePlan::RunCommand(c) => {
            assert_eq!(c.program, "powershell");
            assert_eq!(c.args, vec!["-Command", "(Get-MpComputerStatus).RealTimeProtectionEnabled"]);
        }
        _ => panic!("expected a command"),
    }
}

const NETSH_ALL_ON: &str = "\r\nDomain Profile Settings:\r\n----------------------------------------------------------------------\r\nState                                 ON\r\n\r\nPrivate Profile Settings:\r\n----------------------------------------------------------------------\r\nState                                 ON\r\n\r\nPublic Profile Settings:\r\n----------------------------------------------------------------------\r\nState                                 ON\r\nOk.\r\n";

#[test]
fn firewall_windows_needs_every_profile_on() {
    let r = DefendScenario::FirewallPolicy.execute_evaluation(Platform::Windows, &output(NETSH_ALL_ON));
    assert_eq!(r.verdict, Verdict::Secure);
    assert_eq!(r.findings_en, "Windows Firewall is confirmed ON across network profiles.");
    let one_off = NETSH_ALL_ON.replacen("ON\r\n\r\nPrivate", "OFF\r\n\r\nPrivate", 1);
    let r2 = DefendScenario::FirewallPolicy.execute_evaluation(Platform::Windows, &output(&one_off));
    assert_eq!(r2.verdict, Verdict::Vulnerable);
    assert_eq!(
        r2.findings_en,
        "Windows Firewall is DISABLED on one or more profiles, exposing open ports."
    );
    assert_eq!(r2.remediation_title_en, "Enable Windows Firewall on all network profiles");
    let fr = output("Profil de domaine :\nÉtat    Activé\nProfil privé :\nÉtat    Activé\nProfil public :\nÉtat    Activé\n");
    assert_eq!(DefendScenario::FirewallPolicy.execute_evaluation(Platform::Windows, &fr).verdict, Verdict::Secure);
    // Only two profiles reported.
    let two = output("State ON\nState ON\n");
    assert_eq!(DefendScenario::FirewallPolicy.execute_evaluation(Platform::Windows, &two).verdict, Verdict::Vulnerable);
    // "ON" elsewhere in the text does not count.
    let stray = output("ONLINE ON ON ON");
    assert_eq!(DefendScenario::FirewallPolicy.execute_evaluation(Platform::Windows, &stray).verdict, Verdict::Vulnerable);
    let none = HostObservation::CommandOutput(None);
    assert_eq!(DefendScenario::FirewallPolicy.execute_evaluation(Platform::Windows, &none).verdict, Verdict::Vulnerable);
}

#[test]
fn firewall_linux_status_active() {
    let r = DefendScenario::FirewallPolicy.execute_evaluation(Platform::Linux, &output("Status: active\n\nTo Action From\n"));
    assert_eq!(r.verdict, Verdict::Secure);
    assert_eq!(r.findings_en, "UFW Linux host firewall is ACTIVE with default deny policy.");
    let r2 = DefendScenario::FirewallPolicy.execute_evaluation(Platform::Linux, &output("Status: inactive\n"));
    assert_eq!(r2.verdict, Verdict::Vulnerable);
    assert_eq!(r2.findings_en, "UFW Linux host firewall is INACTIVE.");
    let r3 = DefendScenario::FirewallPolicy.execute_evaluation(Platform::Linux, &HostObservation::CommandOutput(None));
    assert_eq!(r3.verdict, Verdict::Vulnerable);
}

#[test]
fn signature_freshness_by_age() {
    let fresh = DefendScenario::SignatureFreshness.execute_evaluation(Platform::Windows, &output(" 2\r\n"));
    assert_eq!(fresh.verdict, Verdict::Secure);
    assert_eq!(
        fresh.findings_en,
        "Antivirus signatures are UP TO DATE (Age: 2 day(s)). Latest malware definitions installed."
    );
    let edge = DefendScenario::SignatureFreshness.execute_evaluation(Platform::Windows, &output("3"));
    assert_eq!(edge.verdict, Verdict::Secure);
    let aged = DefendScenario::SignatureFreshness.execute_evaluation(Platform::Windows, &output("7"));
    assert_eq!(aged.verdict, Verdict::Warning);
    assert_eq!(
        aged.findings_fr,
        "Signatures moyennement récentes (Ancienneté : 7 jours). Mise à jour recommandée."
    );
    let old = DefendScenario::SignatureFreshness.execute_evaluation(Platform::Windows, &output("120"));
    assert_eq!(old.verdict, Verdict::Vulnerable);
    assert_eq!(
        old.findings_en,
        "Antivirus signatures are OUTDATED (Age: 120 days). Host is exposed to recent malware campaigns."
    );
    assert_eq!(old.remediation_title_en, "Force Immediate Antivirus Signature Database Update");
}

#[test]
fn signature_age_unreadable_is_a_warning() {
    for text in ["", "abc", "-1", "4294967296", "1.5"] {
        let r = DefendScenario::SignatureFreshness.execute_evaluation(Platform::Windows, &output(text));
        assert_eq!(r.verdict, Verdict::Warning, "output {:?}", text);
        assert_eq!(
            r.findings_en,
            "Unable to query signature age directly or definitions not installed."
        );
    }
    let plus = DefendScenario::SignatureFreshness.execute_evaluation(Platform::Windows, &output("+1"));
    assert_eq!(plus.verdict, Verdict::Secure);
    let max = DefendScenario::SignatureFreshness.execute_evaluation(Platform::Windows, &output("4294967295"));
    assert_eq!(max.verdict, Verdict::Vulnerable);
}

#[test]
fn signature_freshness_off_windows_is_secure() {
    let r = DefendScenario::SignatureFreshness.execute_evaluation(Platform::Linux, &HostObservation::Nothing);
    assert_eq!(r.verdict, Verdict::Secure);
    assert_eq!(r.findings_en, "ClamAV signature mirror timestamp verified.");
    assert!(matches!(
        DefendScenario::SignatureFreshness.probe_plan(Platform::Linux),
        ProbePlan::Nothing
    ));
}

#[test]
fn invalid_utf8_output_is_decoded_lossily() {
    let bytes = vec![0xffu8, b'1'];
    let obs = HostObservation::CommandOutput(Some(bytes));
    let r = DefendScenario::ScriptBlockLogging.execute_evaluation(Platform::Windows, &obs);
    assert_eq!(r.verdict, Verdict::Vulnerable);
    let ok = DefendScenario::ScriptBlockLogging.execute_evaluation(Platform::Windows, &output("1\r\n"));
    assert_eq!(ok.verdict, Verdict::Secure);
}

#[test]
fn windows_only_scenarios_on_linux() {
    let windows_only = [
        DefendScenario::RansomwareShield,
        DefendScenario::TamperProtection,
        DefendScenario::AmsiIntegrity,
        DefendScenario::BehaviorMonitoring,
        DefendScenario::CloudProtection,
        DefendScenario::NetworkProtection,
        DefendScenario::PuaProtection,
        DefendScenario::CredentialGuard,
        DefendScenario::ScriptBlockLogging,
        DefendScenario::UsbScanning,
    ];
    for s in windows_only {
        assert!(matches!(s.probe_plan(Platform::Linux), ProbePlan::Nothing));
        let r = s.execute_evaluation(Platform::Linux, &HostObservation::Nothing);
        assert_ne!(r.verdict, Verdict::Vulnerable, "{}", s.id());
        assert_eq!(r.scenario_id, s.id());
    }
}

#[test]
fn multi_valued_windows_settings() {
    let cloud = DefendScenario::CloudProtection.execute_evaluation(Platform::Windows, &output("2"));
    assert_eq!(cloud.verdict, Verdict::Secure);
    let cloud_off = DefendScenario::CloudProtection.execute_evaluation(Platform::Windows, &output("0"));
    assert_eq!(cloud_off.verdict, Verdict::Vulnerable);
    let net_audit = DefendScenario::NetworkProtection.execute_evaluation(Platform::Windows, &output("2"));
    assert_eq!(net_audit.verdict, Verdict::Warning);
    let pua = DefendScenario::PuaProtection.execute_evaluation(Platform::Windows, &output("1"));
    assert_eq!(pua.verdict, Verdict::Secure);
    let ransom = DefendScenario::RansomwareShield.execute_evaluation(Platform::Windows, &output("2"));
    assert_eq!(ransom.verdict, Verdict::Warning);
    let usb = DefendScenario::UsbScanning.execute_evaluation(Platform::Windows, &output("False"));
    assert_eq!(usb.verdict, Verdict::Secure);
    let usb_off = DefendScenario::UsbScanning.execute_evaluation(Platform::Windows, &output("True"));
    assert_eq!(usb_off.verdict, Verdict::Vulnerable);
    let tamper = DefendScenario::TamperProtection.execute_evaluation(Platform::Windows, &output("TRUE"));
    assert_eq!(tamper.verdict, Verdict::Secure);
}

#[test]
fn catalog_has_fourteen_scenarios_in_order() {
    let all = get_all_defend_scenarios();
    let ids: Vec<&str> = all.iter().map(|s| s.id()).collect();
    assert_eq!(
        ids,
        vec![
            "eicar_quarantine",
            "realtime_protection",
            "behavior_monitoring",
            "cloud_protection",
            "network_protection",
            "ransomware_shield",
            "tamper_protection",
            "amsi_integrity",
            "pua_protection",
            "credential_guard",
            "script_block_logging",
            "usb_scanning",
            "signature_freshness",
            "firewall_policy",
        ]
    );
}

#[test]
fn scenario_descriptions() {
    let s = DefendScenario::EicarQuarantine;
    assert_eq!(
        s.description_en(),
        "Writes benign standard EICAR test string and checks if active AV intercepts and quarantines it"
    );
    assert_eq!(
        s.remediation_desc_fr(),
        "Active et démarre le bouclier de surveillance antivirus temps réel pour neutraliser immédiatement les menaces."
    );
    assert_eq!(
        DefendScenario::RealtimeProtection.description_fr(),
        "Valide que le moteur antivirus hôte et la surveillance comportementale sont actifs"
    );
}

#[test]
fn select_all_and_by_name() {
    assert_eq!(select_scenarios("all").len(), 14);
    assert_eq!(select_scenarios("ALL").len(), 14);
    let one = select_scenarios("firewall_policy");
    assert_eq!(one, vec![DefendScenario::FirewallPolicy]);
    let upper = select_scenarios("EICAR_QUARANTINE");
    assert_eq!(upper, vec![DefendScenario::EicarQuarantine]);
    assert!(select_scenarios("no_such_check").is_empty());
}

#[test]
fn remediation_linux_eicar_runs_systemctl() {
    let plan = DefendScenario::EicarQuarantine.remediation_plan(Platform::Linux);
    match &plan {
        RemediationPlan::Run { command, on_success, on_failure } => {
            assert_eq!(command.program, "sudo");
            assert_eq!(command.args, vec!["systemctl", "enable", "--now", "clamav-daemon"]);
            assert_eq!(*on_success, "clamav-daemon service has been enabled and started.");
            assert_eq!(*on_failure, "Failed to start clamav-daemon service via systemctl.");
        }
        _ => panic!("expected a command to run"),
    }
    let ok = remediation_result(plan, true);
    assert!(ok.follow_up.is_none());
    assert_eq!(ok.result, Ok("clamav-daemon service has been enabled and started.".to_string()));
    let failed = remediation_result(DefendScenario::EicarQuarantine.remediation_plan(Platform::Linux), false);
    assert_eq!(failed.result, Err("Failed to start clamav-daemon service via systemctl.".to_string()));
}

#[test]
fn remediation_linux_realtime_installs_then_enables() {
    let plan = DefendScenario::RealtimeProtection.remediation_plan(Platform::Linux);
    let step = remediation_result(plan, true);
    let follow = step.follow_up.expect("a follow-up command");
    assert_eq!(follow.program, "sudo");
    assert_eq!(follow.args, vec!["systemctl", "enable", "--now", "clamav-daemon"]);
    assert_eq!(step.result, Ok("ClamAV daemon installed and activated successfully.".to_string()));
    let failed = remediation_result(DefendScenario::RealtimeProtection.remediation_plan(Platform::Linux), false);
    assert!(failed.follow_up.is_none());
    assert_eq!(failed.result, Err("Failed to install clamav-daemon package.".to_string()));
}

#[test]
fn remediation_other_platform_is_fixed_failure() {
    let step = remediation_result(DefendScenario::EicarQuarantine.remediation_plan(Platform::Other), true);
    assert_eq!(step.result, Err("Unsupported operating system for automated remediation.".to_string()));
    let step2 = remediation_result(DefendScenario::SignatureFreshness.remediation_plan(Platform::Linux), true);
    assert_eq!(step2.result, Ok("freshclam signature update completed.".to_string()));
}

#[test]
fn remediation_queue_lists_vulnerable_results() {
    let secure = DefendScenario::EicarQuarantine.execute_evaluation(
        Platform::Linux,
        &HostObservation::EicarFile { write_succeeded: false, still_exists: false },
    );
    let bad = DefendScenario::FirewallPolicy.execute_evaluation(Platform::Linux, &output("Status: inactive"));
    let warn = DefendScenario::SignatureFreshness.execute_evaluation(Platform::Windows, &output("5"));
    let bad2 = DefendScenario::RealtimeProtection.execute_evaluation(Platform::Linux, &output(""));
    let results = vec![secure, bad, warn, bad2];
    assert_eq!(remediation_queue(&results), vec![1, 3]);
    assert!(remediation_queue(&Vec::new()).is_empty());
    assert!(!remediation_confirmed(&results[1]));
    assert!(remediation_confirmed(&results[0]));
}

#[test]
fn affirmative_answers() {
    assert!(is_affirmative("y"));
    assert!(is_affirmative(" YES \n"));
    assert!(is_affirmative("o"));
    assert!(is_affirmative("Oui"));
    assert!(!is_affirmative("n"));
    assert!(!is_affirmative(""));
    assert!(!is_affirmative("yes please"));
}

#[test]
fn unprobed_scenarios_ignore_the_observation() {
    let a = DefendScenario::SignatureFreshness.execute_evaluation(Platform::Linux, &HostObservation::Nothing);
    let b = DefendScenario::SignatureFreshness.execute_evaluation(Platform::Linux, &output("999"));
    assert_eq!(a.verdict, b.verdict);
    assert_eq!(a.findings_en, b.findings_en);
    let c = DefendScenario::AmsiIntegrity.execute_evaluation(Platform::Other, &output("false"));
    let d = DefendScenario::AmsiIntegrity.execute_evaluation(
        Platform::Other,
        &HostObservation::EicarFile { write_succeeded: true, still_exists: true },
    );
    assert_eq!(c.findings_fr, d.findings_fr);
}
