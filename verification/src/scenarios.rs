//! The host hardening scenarios: what each one probes, how it judges what it
//! saw, and how it proposes to remediate.
use vstd::prelude::*;
use crate::scenario_text::{
    Finding, amsi_query, amsi_scan, behavior_enable, behavior_query, clamav_daemon_enable,
    clamav_daemon_query, clamav_install, defender_monitoring_enable, defender_realtime_enable,
    firewall_state_query, folder_access_enable, folder_access_query, freshclam_update, maps_enable,
    maps_query, network_protection_enable, network_protection_query, pua_enable, pua_query,
    realtime_status_query, removable_scan_enable, removable_scan_query, run_as_ppl_enable,
    run_as_ppl_query, script_block_logging_enable, script_block_logging_query,
    security_settings_open, signature_age_query, signature_update, spec_amsi_query,
    spec_amsi_scan, spec_behavior_enable, spec_behavior_query, spec_clamav_daemon_enable,
    spec_clamav_daemon_query, spec_clamav_install, spec_defender_monitoring_enable,
    spec_defender_realtime_enable, spec_firewall_state_query, spec_folder_access_enable,
    spec_folder_access_query, spec_freshclam_update, spec_maps_enable, spec_maps_query,
    spec_network_protection_enable, spec_network_protection_query, spec_pua_enable,
    spec_pua_query, spec_realtime_status_query, spec_removable_scan_enable,
    spec_removable_scan_query, spec_run_as_ppl_enable, spec_run_as_ppl_query,
    spec_script_block_logging_enable, spec_script_block_logging_query,
    spec_security_settings_open, spec_signature_age_query, spec_signature_update,
    spec_tamper_query, spec_ufw_enable, spec_ufw_status_query, spec_windows_firewall_enable,
    tamper_query, ufw_enable, ufw_status_query, windows_firewall_enable,
};
use crate::text::{
    contains, decode_lossy, has_infix, owned, parse_decimal_u32, parse_u32, str_equal,
    to_lowercase, trim, trimmed, unicode_lowercase, utf8_lossy,
};
use crate::text::{ascii_lower, eq_ignore_ascii_case, str_eq_ignore_ascii_case};
use crate::verdict::Verdict;
use crate::wrap::{split_words, views_of, words};
use crate::text::{chars_of, string_of};

verus! {

/// The operating system family that the host runs.
#[derive(Debug, Clone, Copy, PartialEq, Eq, Structural)]
pub enum Platform {
    Windows,
    Linux,
    Other,
}

/// The fourteen host hardening scenarios.
#[derive(Debug, Clone, Copy, PartialEq, Eq, Structural)]
pub enum DefendScenario {
    EicarQuarantine,
    RealtimeProtection,
    RansomwareShield,
    TamperProtection,
    AmsiIntegrity,
    FirewallPolicy,
    BehaviorMonitoring,
    CloudProtection,
    NetworkProtection,
    PuaProtection,
    CredentialGuard,
    ScriptBlockLogging,
    UsbScanning,
    SignatureFreshness,
}

/// A program to run on the host, with its arguments.
#[derive(Debug, Clone)]
pub struct HostCommand {
    pub program: &'static str,
    pub args: Vec<&'static str>,
}

pub struct CommandView {
    pub program: Seq<char>,
    pub args: Seq<Seq<char>>,
}

impl View for HostCommand {
    type V = CommandView;

    open spec fn view(&self) -> CommandView {
        CommandView { program: self.program@, args: self.args@.map_values(|a: &'static str| a@) }
    }
}

/// What a scenario needs to observe on the host before it can judge.
#[derive(Debug, Clone)]
pub enum ProbePlan {
    /// Run the command and capture its standard output.
    RunCommand(HostCommand),
    /// Write the EICAR test string to a file in the temporary directory,
    /// wait, and check whether the file is still there.
    WriteEicarFile,
    /// Nothing to observe.
    Nothing,
}

pub enum ProbeView {
    RunCommand(CommandView),
    WriteEicarFile,
    Nothing,
}

impl View for ProbePlan {
    type V = ProbeView;

    open spec fn view(&self) -> ProbeView {
        match self {
            ProbePlan::RunCommand(c) => ProbeView::RunCommand(c@),
            ProbePlan::WriteEicarFile => ProbeView::WriteEicarFile,
            ProbePlan::Nothing => ProbeView::Nothing,
        }
    }
}

/// What the host answered to a probe.
#[derive(Debug, Clone)]
pub enum HostObservation {
    /// The standard output of the command, or `None` when it could not be run.
    CommandOutput(Option<Vec<u8>>),
    /// Whether the test file could be written, and whether it was still on
    /// disk after the wait.
    EicarFile { write_succeeded: bool, still_exists: bool },
    /// No probe was made.
    Nothing,
}

/// Whether an observation answers the probe that a plan asks for.
pub open spec fn answers(plan: ProbeView, obs: HostObservation) -> bool {
    match plan {
        ProbeView::RunCommand(_) => obs is CommandOutput,
        ProbeView::WriteEicarFile => obs is EicarFile,
        ProbeView::Nothing => obs is Nothing,
    }
}

/// How a remediation is carried out.
#[derive(Debug)]
pub enum RemediationPlan {
    /// No command: the outcome is known in advance.
    Fixed(Result<&'static str, &'static str>),
    /// Run the command and wait; its exit status decides the outcome.
    Run { command: HostCommand, on_success: &'static str, on_failure: &'static str },
    /// Run the command and wait; when it succeeds, run `follow_up` too (whose
    /// status does not matter) and report success.
    RunThen {
        command: HostCommand,
        follow_up: HostCommand,
        on_success: &'static str,
        on_failure: &'static str,
    },
    /// Start the command without waiting and report `message`.
    Launch { command: HostCommand, message: &'static str },
}

pub enum RemediationView {
    Fixed(Result<Seq<char>, Seq<char>>),
    Run { command: CommandView, on_success: Seq<char>, on_failure: Seq<char> },
    RunThen {
        command: CommandView,
        follow_up: CommandView,
        on_success: Seq<char>,
        on_failure: Seq<char>,
    },
    Launch { command: CommandView, message: Seq<char> },
}

impl View for RemediationPlan {
    type V = RemediationView;

    open spec fn view(&self) -> RemediationView {
        match self {
            RemediationPlan::Fixed(Ok(m)) => RemediationView::Fixed(Ok(m@)),
            RemediationPlan::Fixed(Err(m)) => RemediationView::Fixed(Err(m@)),
            RemediationPlan::Run { command, on_success, on_failure } => RemediationView::Run {
                command: command@,
                on_success: on_success@,
                on_failure: on_failure@,
            },
            RemediationPlan::RunThen { command, follow_up, on_success, on_failure } =>
                RemediationView::RunThen {
                command: command@,
                follow_up: follow_up@,
                on_success: on_success@,
                on_failure: on_failure@,
            },
            RemediationPlan::Launch { command, message } => RemediationView::Launch {
                command: command@,
                message: message@,
            },
        }
    }
}

/// What the program does after the first command of a remediation, and what
/// the remediation reports.
pub struct RemediationStep {
    pub follow_up: Option<HostCommand>,
    pub result: Result<String, String>,
}

/// The report of one scenario's evaluation.
#[derive(Debug, Clone)]
pub struct DefendCheckResult {
    pub scenario_id: &'static str,
    pub title_en: &'static str,
    pub title_fr: &'static str,
    pub verdict: Verdict,
    pub findings_en: String,
    pub findings_fr: String,
    pub remediation_title_en: &'static str,
    pub remediation_title_fr: &'static str,
}

} // verus!

verus! {

// ---------------------------------------------------------------------------
// Reading command output
// ---------------------------------------------------------------------------

pub open spec fn opt_view(o: Option<String>) -> Option<Seq<char>> {
    match o {
        Some(s) => Some(s@),
        None => None,
    }
}

/// The standard output of the probe command, decoded as
/// `String::from_utf8_lossy` does; `None` when no output was captured.
pub open spec fn command_text(obs: HostObservation) -> Option<Seq<char>> {
    match obs {
        HostObservation::CommandOutput(Some(bytes)) => Some(utf8_lossy(bytes@)),
        _ => None,
    }
}

/// The output with surrounding white space removed.
pub open spec fn trimmed_output(obs: HostObservation) -> Option<Seq<char>> {
    match command_text(obs) {
        Some(t) => Some(trim(t)),
        None => None,
    }
}

/// The trimmed output, lower-cased.
pub open spec fn lowered_output(obs: HostObservation) -> Option<Seq<char>> {
    match trimmed_output(obs) {
        Some(t) => Some(unicode_lowercase(t)),
        None => None,
    }
}

/// Whether the raw output contains `pat`.
pub open spec fn output_contains(obs: HostObservation, pat: Seq<char>) -> bool {
    match command_text(obs) {
        Some(t) => has_infix(t, pat),
        None => false,
    }
}

fn output_text(obs: &HostObservation) -> (r: Option<String>)
    ensures
        opt_view(r) == command_text(*obs),
{
    match obs {
        HostObservation::CommandOutput(Some(bytes)) => Some(decode_lossy(bytes.as_slice())),
        _ => None,
    }
}

fn output_trimmed(obs: &HostObservation) -> (r: Option<String>)
    ensures
        opt_view(r) == trimmed_output(*obs),
{
    match output_text(obs) {
        Some(t) => Some(trimmed(t.as_str())),
        None => None,
    }
}

fn output_lowered(obs: &HostObservation) -> (r: Option<String>)
    ensures
        opt_view(r) == lowered_output(*obs),
{
    match output_trimmed(obs) {
        Some(t) => Some(to_lowercase(t.as_str())),
        None => None,
    }
}

fn output_has(obs: &HostObservation, pat: &str) -> (r: bool)
    ensures
        r == output_contains(*obs, pat@),
{
    match output_text(obs) {
        Some(t) => contains(t.as_str(), pat),
        None => false,
    }
}

/// Whether an optional text is present and equal to `lit`.
fn is_text(o: &Option<String>, lit: &str) -> (r: bool)
    ensures
        r == (opt_view(*o) == Some(lit@)),
{
    match o {
        Some(t) => str_equal(t.as_str(), lit),
        None => false,
    }
}

// ---------------------------------------------------------------------------
// Reading the Windows firewall state
// ---------------------------------------------------------------------------

/// A profile's state label in `netsh advfirewall show allprofiles state`
/// ("État" on French hosts).
pub open spec fn is_state_label(w: Seq<char>) -> bool {
    w == "State"@ || w == "État"@
}

/// A state value that means the profile's firewall is on.
pub open spec fn is_on_value(w: Seq<char>) -> bool {
    w == "ON"@ || w == "Activé"@
}

/// The values of the profile state lines, in order: the word after each
/// state label.
pub open spec fn profile_states(ws: Seq<Seq<char>>) -> Seq<Seq<char>>
    decreases ws.len(),
{
    if ws.len() < 2 {
        Seq::empty()
    } else if is_state_label(ws[0]) {
        seq![ws[1]] + profile_states(ws.subrange(2, ws.len() as int))
    } else {
        profile_states(ws.drop_first())
    }
}

/// Whether the output reports the three profiles (Domain, Private, Public),
/// each of them on.
pub open spec fn profiles_all_on(ws: Seq<Seq<char>>) -> bool {
    let st = profile_states(ws);
    st.len() == 3 && forall|k: int| 0 <= k < 3 ==> is_on_value(#[trigger] st[k])
}

/// Whether the observed `netsh` output shows the firewall on for every
/// profile.
pub open spec fn windows_firewall_on(obs: HostObservation) -> bool {
    match command_text(obs) {
        Some(t) => profiles_all_on(words(t)),
        None => false,
    }
}

fn word_is(w: &Vec<char>, lit: &str) -> (r: bool)
    ensures
        r == (w@ == lit@),
{
    let s = string_of(w);
    str_equal(s.as_str(), lit)
}

fn all_profiles_on(ws: &Vec<Vec<char>>) -> (r: bool)
    ensures
        r == profiles_all_on(views_of(ws@)),
{
    let ghost v = views_of(ws@);
    let ghost mut acc: Seq<Seq<char>> = Seq::empty();
    let mut count: usize = 0;
    let mut all_on = true;
    let mut i: usize = 0;
    proof {
        assert(v.skip(0) =~= v);
    }
    while i < ws.len() && ws.len() - i >= 2
        invariant
            i <= ws.len(),
            v == views_of(ws@),
            count == acc.len(),
            count <= i,
            all_on == (forall|k: int| 0 <= k < acc.len() ==> is_on_value(#[trigger] acc[k])),
            profile_states(v) == acc + profile_states(v.skip(i as int)),
        decreases ws.len() - i,
    {
        let ghost rest = v.skip(i as int);
        proof {
            assert(rest[0] == ws@[i as int]@);
            assert(rest[1] == ws@[i + 1]@);
        }
        if word_is(&ws[i], "State") || word_is(&ws[i], "État") {
            let on = word_is(&ws[i + 1], "ON") || word_is(&ws[i + 1], "Activé");
            proof {
                assert(rest.subrange(2, rest.len() as int) =~= v.skip(i + 2));
                let acc2 = acc.push(rest[1]);
                assert(acc + (seq![rest[1]] + profile_states(v.skip(i + 2))) =~= acc2
                    + profile_states(v.skip(i + 2)));
                assert forall|k: int| 0 <= k < acc.len() implies acc2[k] == acc[k] by {}
                assert(acc2[acc.len() as int] == rest[1]);
                assert(on == is_on_value(rest[1]));
                assert((all_on && on) == (forall|k: int|
                    0 <= k < acc2.len() ==> is_on_value(#[trigger] acc2[k]))) by {
                    if all_on && on {
                        assert forall|k: int| 0 <= k < acc2.len() implies is_on_value(
                            #[trigger] acc2[k],
                        ) by {
                            if k < acc.len() {
                                assert(acc2[k] == acc[k]);
                            }
                        }
                    }
                    if !on {
                        assert(!is_on_value(acc2[acc.len() as int]));
                    }
                    if !all_on {
                        let k0 = choose|k: int| 0 <= k < acc.len() && !is_on_value(#[trigger] acc[k]);
                        assert(acc2[k0] == acc[k0]);
                    }
                }
                acc = acc2;
            }
            all_on = all_on && on;
            count = count + 1;
            i = i + 2;
        } else {
            proof {
                assert(rest.drop_first() =~= v.skip(i + 1));
            }
            i = i + 1;
        }
    }
    proof {
        let rest = v.skip(i as int);
        assert(rest.len() < 2);
        assert(profile_states(rest) =~= Seq::<Seq<char>>::empty());
        assert(acc + Seq::<Seq<char>>::empty() =~= acc);
    }
    count == 3 && all_on
}

fn firewall_profiles_on(obs: &HostObservation) -> (r: bool)
    ensures
        r == windows_firewall_on(*obs),
{
    match output_text(obs) {
        Some(t) => {
            let chars = chars_of(t.as_str());
            let ws = split_words(&chars);
            all_profiles_on(&ws)
        },
        None => false,
    }
}

// ---------------------------------------------------------------------------
// The scenarios' judgement
// ---------------------------------------------------------------------------

/// What a scenario concludes on a platform from what it observed.
pub open spec fn judge(s: DefendScenario, platform: Platform, obs: HostObservation) -> Finding {
    let windows = platform == Platform::Windows;
    match s {
        DefendScenario::EicarQuarantine => match obs {
            HostObservation::EicarFile { write_succeeded, still_exists } => if !write_succeeded {
                Finding::EicarWriteBlocked
            } else if still_exists {
                Finding::EicarNotQuarantined
            } else {
                Finding::EicarQuarantined
            },
            // Without an observation of the test file, no write is known to
            // have succeeded.
            _ => Finding::EicarWriteBlocked,
        },
        DefendScenario::RealtimeProtection => match platform {
            Platform::Windows => if lowered_output(obs) == Some("true"@) {
                Finding::RealtimeWindowsActive
            } else {
                Finding::RealtimeWindowsDisabled
            },
            Platform::Linux => if trimmed_output(obs) == Some("active"@) {
                Finding::RealtimeLinuxActive
            } else {
                Finding::RealtimeLinuxInactive
            },
            Platform::Other => Finding::RealtimeUnsupported,
        },
        DefendScenario::RansomwareShield => if !windows {
            Finding::RansomwareNonWindows
        } else if trimmed_output(obs) == Some("1"@) {
            Finding::RansomwareEnabled
        } else if trimmed_output(obs) == Some("2"@) {
            Finding::RansomwareAuditOnly
        } else {
            Finding::RansomwareDisabled
        },
        DefendScenario::TamperProtection => if !windows {
            Finding::TamperNonWindows
        } else if lowered_output(obs) == Some("true"@) {
            Finding::TamperActive
        } else {
            Finding::TamperInactive
        },
        DefendScenario::AmsiIntegrity => if !windows {
            Finding::AmsiNonWindows
        } else if lowered_output(obs) == Some("true"@) {
            Finding::AmsiRegistered
        } else {
            Finding::AmsiMissing
        },
        DefendScenario::FirewallPolicy => match platform {
            Platform::Windows => if windows_firewall_on(obs) {
                Finding::FirewallWindowsOn
            } else {
                Finding::FirewallWindowsOff
            },
            Platform::Linux => if output_contains(obs, "Status: active"@) {
                Finding::FirewallLinuxActive
            } else {
                Finding::FirewallLinuxInactive
            },
            Platform::Other => Finding::FirewallUnsupported,
        },
        DefendScenario::BehaviorMonitoring => if !windows {
            Finding::BehaviorNonWindows
        } else if lowered_output(obs) == Some("true"@) {
            Finding::BehaviorActive
        } else {
            Finding::BehaviorDisabled
        },
        DefendScenario::CloudProtection => if !windows {
            Finding::CloudNonWindows
        } else if trimmed_output(obs) == Some("2"@) {
            Finding::CloudEnabled(2)
        } else if trimmed_output(obs) == Some("1"@) {
            Finding::CloudEnabled(1)
        } else {
            Finding::CloudDisabled
        },
        DefendScenario::NetworkProtection => if !windows {
            Finding::NetworkNonWindows
        } else if trimmed_output(obs) == Some("1"@) {
            Finding::NetworkEnabled
        } else if trimmed_output(obs) == Some("2"@) {
            Finding::NetworkAuditOnly
        } else {
            Finding::NetworkDisabled
        },
        DefendScenario::PuaProtection => if !windows {
            Finding::PuaNonWindows
        } else if trimmed_output(obs) == Some("1"@) {
            Finding::PuaEnabled
        } else if trimmed_output(obs) == Some("2"@) {
            Finding::PuaAuditOnly
        } else {
            Finding::PuaDisabled
        },
        DefendScenario::CredentialGuard => if !windows {
            Finding::CredentialNonWindows
        } else if trimmed_output(obs) == Some("1"@) {
            Finding::CredentialProtected(1)
        } else if trimmed_output(obs) == Some("2"@) {
            Finding::CredentialProtected(2)
        } else {
            Finding::CredentialUnprotected
        },
        DefendScenario::ScriptBlockLogging => if !windows {
            Finding::ScriptLoggingNonWindows
        } else if trimmed_output(obs) == Some("1"@) {
            Finding::ScriptLoggingEnabled
        } else {
            Finding::ScriptLoggingDisabled
        },
        DefendScenario::UsbScanning => if !windows {
            Finding::UsbScanningNonWindows
        } else if lowered_output(obs) == Some("false"@) || lowered_output(obs) == Some("0"@) {
            Finding::UsbScanningActive
        } else {
            Finding::UsbScanningDisabled
        },
        DefendScenario::SignatureFreshness => if !windows {
            Finding::SignaturesNonWindows
        } else {
            match trimmed_output(obs) {
                Some(t) => match parse_u32(t) {
                    Some(age) => if age <= 3 {
                        Finding::SignaturesFresh(age)
                    } else if age <= 7 {
                        Finding::SignaturesAged(age)
                    } else {
                        Finding::SignaturesOutdated(age)
                    },
                    None => Finding::SignatureAgeUnknown,
                },
                None => Finding::SignatureAgeUnknown,
            }
        },
    }
}

/// Whether `r` is the report of finding `f`: the scenario's id and title, and
/// the finding's verdict, findings and remediation title.
pub open spec fn reports(r: DefendCheckResult, f: Finding) -> bool {
    let s = f.scenario();
    &&& r.scenario_id@ == s.spec_id()
    &&& r.title_en@ == s.spec_title_en()
    &&& r.title_fr@ == s.spec_title_fr()
    &&& r.verdict == f.spec_verdict()
    &&& r.findings_en@ == f.spec_findings_en()
    &&& r.findings_fr@ == f.spec_findings_fr()
    &&& r.remediation_title_en@ == f.spec_remedy_en()
    &&& r.remediation_title_fr@ == f.spec_remedy_fr()
}

impl Finding {
    /// The report of this finding.
    pub fn report(&self) -> (r: DefendCheckResult)
        ensures
            reports(r, *self),
    {
        let s = self.scenario_of();
        DefendCheckResult {
            scenario_id: s.id_text(),
            title_en: s.title_en_text(),
            title_fr: s.title_fr_text(),
            verdict: self.verdict(),
            findings_en: self.findings_en_text(),
            findings_fr: self.findings_fr_text(),
            remediation_title_en: self.remedy_en_text(),
            remediation_title_fr: self.remedy_fr_text(),
        }
    }
}

impl DefendScenario {
    /// What this scenario concludes on `platform` from `obs`.
    pub fn judge(&self, platform: Platform, obs: &HostObservation) -> (f: Finding)
        ensures
            f == judge(*self, platform, *obs),
    {
        let windows = platform == Platform::Windows;
        match self {
            DefendScenario::EicarQuarantine => match obs {
                HostObservation::EicarFile { write_succeeded, still_exists } => if !*write_succeeded {
                    Finding::EicarWriteBlocked
                } else if *still_exists {
                    Finding::EicarNotQuarantined
                } else {
                    Finding::EicarQuarantined
                },
                _ => Finding::EicarWriteBlocked,
            },
            DefendScenario::RealtimeProtection => match platform {
                Platform::Windows => if is_text(&output_lowered(obs), "true") {
                    Finding::RealtimeWindowsActive
                } else {
                    Finding::RealtimeWindowsDisabled
                },
                Platform::Linux => if is_text(&output_trimmed(obs), "active") {
                    Finding::RealtimeLinuxActive
                } else {
                    Finding::RealtimeLinuxInactive
                },
                Platform::Other => Finding::RealtimeUnsupported,
            },
            DefendScenario::RansomwareShield => if !windows {
                Finding::RansomwareNonWindows
            } else {
                let t = output_trimmed(obs);
                if is_text(&t, "1") {
                    Finding::RansomwareEnabled
                } else if is_text(&t, "2") {
                    Finding::RansomwareAuditOnly
                } else {
                    Finding::RansomwareDisabled
                }
            },
            DefendScenario::TamperProtection => if !windows {
                Finding::TamperNonWindows
            } else if is_text(&output_lowered(obs), "true") {
                Finding::TamperActive
            } else {
                Finding::TamperInactive
            },
            DefendScenario::AmsiIntegrity => if !windows {
                Finding::AmsiNonWindows
            } else if is_text(&output_lowered(obs), "true") {
                Finding::AmsiRegistered
            } else {
                Finding::AmsiMissing
            },
            DefendScenario::FirewallPolicy => match platform {
                Platform::Windows => if firewall_profiles_on(obs) {
                    Finding::FirewallWindowsOn
                } else {
                    Finding::FirewallWindowsOff
                },
                Platform::Linux => if output_has(obs, "Status: active") {
                    Finding::FirewallLinuxActive
                } else {
                    Finding::FirewallLinuxInactive
                },
                Platform::Other => Finding::FirewallUnsupported,
            },
            DefendScenario::BehaviorMonitoring => if !windows {
                Finding::BehaviorNonWindows
            } else if is_text(&output_lowered(obs), "true") {
                Finding::BehaviorActive
            } else {
                Finding::BehaviorDisabled
            },
            DefendScenario::CloudProtection => if !windows {
                Finding::CloudNonWindows
            } else {
                let t = output_trimmed(obs);
                if is_text(&t, "2") {
                    Finding::CloudEnabled(2)
                } else if is_text(&t, "1") {
                    Finding::CloudEnabled(1)
                } else {
                    Finding::CloudDisabled
                }
            },
            DefendScenario::NetworkProtection => if !windows {
                Finding::NetworkNonWindows
            } else {
                let t = output_trimmed(obs);
                if is_text(&t, "1") {
                    Finding::NetworkEnabled
                } else if is_text(&t, "2") {
                    Finding::NetworkAuditOnly
                } else {
                    Finding::NetworkDisabled
                }
            },
            DefendScenario::PuaProtection => if !windows {
                Finding::PuaNonWindows
            } else {
                let t = output_trimmed(obs);
                if is_text(&t, "1") {
                    Finding::PuaEnabled
                } else if is_text(&t, "2") {
                    Finding::PuaAuditOnly
                } else {
                    Finding::PuaDisabled
                }
            },
            DefendScenario::CredentialGuard => if !windows {
                Finding::CredentialNonWindows
            } else {
                let t = output_trimmed(obs);
                if is_text(&t, "1") {
                    Finding::CredentialProtected(1)
                } else if is_text(&t, "2") {
                    Finding::CredentialProtected(2)
                } else {
                    Finding::CredentialUnprotected
                }
            },
            DefendScenario::ScriptBlockLogging => if !windows {
                Finding::ScriptLoggingNonWindows
            } else if is_text(&output_trimmed(obs), "1") {
                Finding::ScriptLoggingEnabled
            } else {
                Finding::ScriptLoggingDisabled
            },
            DefendScenario::UsbScanning => if !windows {
                Finding::UsbScanningNonWindows
            } else {
                let t = output_lowered(obs);
                if is_text(&t, "false") || is_text(&t, "0") {
                    Finding::UsbScanningActive
                } else {
                    Finding::UsbScanningDisabled
                }
            },
            DefendScenario::SignatureFreshness => if !windows {
                Finding::SignaturesNonWindows
            } else {
                match output_trimmed(obs) {
                    Some(t) => match parse_decimal_u32(t.as_str()) {
                        Some(age) => if age <= 3 {
                            Finding::SignaturesFresh(age)
                        } else if age <= 7 {
                            Finding::SignaturesAged(age)
                        } else {
                            Finding::SignaturesOutdated(age)
                        },
                        None => Finding::SignatureAgeUnknown,
                    },
                    None => Finding::SignatureAgeUnknown,
                }
            },
        }
    }
}

} // verus!

verus! {

// ---------------------------------------------------------------------------
// Probes and remediations
// ---------------------------------------------------------------------------

impl DefendScenario {
    /// The probe that this scenario makes on `platform`.
    pub open spec fn spec_probe(self, platform: Platform) -> ProbeView {
        let windows = platform == Platform::Windows;
        match self {
            DefendScenario::EicarQuarantine => ProbeView::WriteEicarFile,
            DefendScenario::RealtimeProtection => match platform {
                Platform::Windows => ProbeView::RunCommand(spec_realtime_status_query()),
                Platform::Linux => ProbeView::RunCommand(spec_clamav_daemon_query()),
                Platform::Other => ProbeView::Nothing,
            },
            DefendScenario::FirewallPolicy => match platform {
                Platform::Windows => ProbeView::RunCommand(spec_firewall_state_query()),
                Platform::Linux => ProbeView::RunCommand(spec_ufw_status_query()),
                Platform::Other => ProbeView::Nothing,
            },
            _ => if !windows {
                ProbeView::Nothing
            } else {
                ProbeView::RunCommand(
                    match self {
                        DefendScenario::RansomwareShield => spec_folder_access_query(),
                        DefendScenario::TamperProtection => spec_tamper_query(),
                        DefendScenario::AmsiIntegrity => spec_amsi_query(),
                        DefendScenario::BehaviorMonitoring => spec_behavior_query(),
                        DefendScenario::CloudProtection => spec_maps_query(),
                        DefendScenario::NetworkProtection => spec_network_protection_query(),
                        DefendScenario::PuaProtection => spec_pua_query(),
                        DefendScenario::CredentialGuard => spec_run_as_ppl_query(),
                        DefendScenario::ScriptBlockLogging => spec_script_block_logging_query(),
                        DefendScenario::UsbScanning => spec_removable_scan_query(),
                        _ => spec_signature_age_query(),
                    },
                )
            },
        }
    }

    /// The probe that this scenario makes on `platform`.
    pub fn probe_for(&self, platform: Platform) -> (r: ProbePlan)
        ensures
            r@ == self.spec_probe(platform),
    {
        let windows = platform == Platform::Windows;
        match self {
            DefendScenario::EicarQuarantine => ProbePlan::WriteEicarFile,
            DefendScenario::RealtimeProtection => match platform {
                Platform::Windows => ProbePlan::RunCommand(realtime_status_query()),
                Platform::Linux => ProbePlan::RunCommand(clamav_daemon_query()),
                Platform::Other => ProbePlan::Nothing,
            },
            DefendScenario::FirewallPolicy => match platform {
                Platform::Windows => ProbePlan::RunCommand(firewall_state_query()),
                Platform::Linux => ProbePlan::RunCommand(ufw_status_query()),
                Platform::Other => ProbePlan::Nothing,
            },
            _ => if !windows {
                ProbePlan::Nothing
            } else {
                ProbePlan::RunCommand(
                    match self {
                        DefendScenario::RansomwareShield => folder_access_query(),
                        DefendScenario::TamperProtection => tamper_query(),
                        DefendScenario::AmsiIntegrity => amsi_query(),
                        DefendScenario::BehaviorMonitoring => behavior_query(),
                        DefendScenario::CloudProtection => maps_query(),
                        DefendScenario::NetworkProtection => network_protection_query(),
                        DefendScenario::PuaProtection => pua_query(),
                        DefendScenario::CredentialGuard => run_as_ppl_query(),
                        DefendScenario::ScriptBlockLogging => script_block_logging_query(),
                        DefendScenario::UsbScanning => removable_scan_query(),
                        _ => signature_age_query(),
                    },
                )
            },
        }
    }

    /// How this scenario remediates on `platform`.
    pub open spec fn spec_remediation(self, platform: Platform) -> RemediationView {
        let windows = platform == Platform::Windows;
        match self {
            DefendScenario::EicarQuarantine => match platform {
                Platform::Windows => RemediationView::Run {
                    command: spec_defender_realtime_enable(),
                    on_success: "Windows Defender Real-Time Protection and WinDefend service have been enabled."@,
                    on_failure: "Failed to enable Windows Defender real-time protection. Administrator privileges required."@,
                },
                Platform::Linux => RemediationView::Run {
                    command: spec_clamav_daemon_enable(),
                    on_success: "clamav-daemon service has been enabled and started."@,
                    on_failure: "Failed to start clamav-daemon service via systemctl."@,
                },
                Platform::Other => RemediationView::Fixed(
                    Err("Unsupported operating system for automated remediation."@),
                ),
            },
            DefendScenario::RealtimeProtection => match platform {
                Platform::Windows => RemediationView::Run {
                    command: spec_defender_monitoring_enable(),
                    on_success: "Real-time and Behavioral Monitoring preferences have been enabled."@,
                    on_failure: "Administrative privileges required to modify Defender preferences."@,
                },
                Platform::Linux => RemediationView::RunThen {
                    command: spec_clamav_install(),
                    follow_up: spec_clamav_daemon_enable(),
                    on_success: "ClamAV daemon installed and activated successfully."@,
                    on_failure: "Failed to install clamav-daemon package."@,
                },
                Platform::Other => RemediationView::Fixed(Err("Unsupported platform."@)),
            },
            DefendScenario::RansomwareShield => if windows {
                RemediationView::Run {
                    command: spec_folder_access_enable(),
                    on_success: "Controlled Folder Access (Anti-Ransomware) successfully switched to ENABLED."@,
                    on_failure: "Failed to enable Controlled Folder Access. Administrator privileges required."@,
                }
            } else {
                RemediationView::Fixed(Ok("Linux snapshot policy confirmed."@))
            },
            DefendScenario::TamperProtection => if windows {
                RemediationView::Launch {
                    command: spec_security_settings_open(),
                    message: "Opened Windows Security Settings UI. Please toggle 'Tamper Protection' to ON."@,
                }
            } else {
                RemediationView::Fixed(Ok("Linux systemd unit protections validated."@))
            },
            DefendScenario::AmsiIntegrity => if windows {
                RemediationView::Run {
                    command: spec_amsi_scan(),
                    on_success: "AMSI integrity scan and verification completed."@,
                    on_failure: "Failed to verify AMSI binary. Run command prompt as Administrator."@,
                }
            } else {
                RemediationView::Fixed(Ok("Linux script execution policy compliant."@))
            },
            DefendScenario::FirewallPolicy => match platform {
                Platform::Windows => RemediationView::Run {
                    command: spec_windows_firewall_enable(),
                    on_success: "Windows Firewall enabled on Domain, Private, and Public profiles."@,
                    on_failure: "Failed to enable Windows Firewall. Administrator rights required."@,
                },
                Platform::Linux => RemediationView::Run {
                    command: spec_ufw_enable(),
                    on_success: "UFW firewall enabled with default policy."@,
                    on_failure: "Failed to enable UFW via sudo."@,
                },
                Platform::Other => RemediationView::Fixed(Err("Unsupported platform."@)),
            },
            DefendScenario::BehaviorMonitoring => if windows {
                RemediationView::Run {
                    command: spec_behavior_enable(),
                    on_success: "Behavioral process monitoring successfully enabled."@,
                    on_failure: "Failed to enable behavioral monitoring. Administrator rights required."@,
                }
            } else {
                RemediationView::Fixed(Ok("Linux audit policy verified."@))
            },
            DefendScenario::CloudProtection => if windows {
                RemediationView::Run {
                    command: spec_maps_enable(),
                    on_success: "Advanced Cloud-delivered protection (MAPS) and sample submission enabled."@,
                    on_failure: "Failed to enable cloud protection. Administrator rights required."@,
                }
            } else {
                RemediationView::Fixed(Ok("Linux threat feed updated."@))
            },
            DefendScenario::NetworkProtection => if windows {
                RemediationView::Run {
                    command: spec_network_protection_enable(),
                    on_success: "Network Protection successfully switched to Enabled."@,
                    on_failure: "Failed to enable Network Protection. Administrator rights required."@,
                }
            } else {
                RemediationView::Fixed(Ok("Linux network security policies compliant."@))
            },
            DefendScenario::PuaProtection => if windows {
                RemediationView::Run {
                    command: spec_pua_enable(),
                    on_success: "PUA Protection successfully enabled."@,
                    on_failure: "Failed to enable PUA protection. Administrator rights required."@,
                }
            } else {
                RemediationView::Fixed(Ok("Linux package manager policies compliant."@))
            },
            DefendScenario::CredentialGuard => if windows {
                RemediationView::Run {
                    command: spec_run_as_ppl_enable(),
                    on_success: "RunAsPPL enabled in LSA registry hive (takes full effect upon next reboot)."@,
                    on_failure: "Failed to configure LSA RunAsPPL. Administrator privileges required."@,
                }
            } else {
                RemediationView::Fixed(Ok("Linux memory protections compliant."@))
            },
            DefendScenario::ScriptBlockLogging => if windows {
                RemediationView::Run {
                    command: spec_script_block_logging_enable(),
                    on_success: "PowerShell Script Block Logging enabled in system policy."@,
                    on_failure: "Failed to enable Script Block Logging. Administrator privileges required."@,
                }
            } else {
                RemediationView::Fixed(Ok("Linux command audit policy compliant."@))
            },
            DefendScenario::UsbScanning => if windows {
                RemediationView::Run {
                    command: spec_removable_scan_enable(),
                    on_success: "Automatic scanning of removable USB drives successfully enabled."@,
                    on_failure: "Failed to update removable drive preference. Administrator rights required."@,
                }
            } else {
                RemediationView::Fixed(Ok("Linux removable media policy compliant."@))
            },
            DefendScenario::SignatureFreshness => if windows {
                RemediationView::Run {
                    command: spec_signature_update(),
                    on_success: "Antivirus signatures successfully updated from Microsoft Update Server."@,
                    on_failure: "Failed to update antivirus signatures. Check network or run as Administrator."@,
                }
            } else {
                RemediationView::Run {
                    command: spec_freshclam_update(),
                    on_success: "freshclam signature update completed."@,
                    on_failure: "Failed to run freshclam."@,
                }
            },
        }
    }

    /// How this scenario remediates on `platform`.
    pub fn remediation_for(&self, platform: Platform) -> (r: RemediationPlan)
        ensures
            r@ == self.spec_remediation(platform),
    {
        let windows = platform == Platform::Windows;
        match self {
            DefendScenario::EicarQuarantine => match platform {
                Platform::Windows => RemediationPlan::Run {
                    command: defender_realtime_enable(),
                    on_success: "Windows Defender Real-Time Protection and WinDefend service have been enabled.",
                    on_failure: "Failed to enable Windows Defender real-time protection. Administrator privileges required.",
                },
                Platform::Linux => RemediationPlan::Run {
                    command: clamav_daemon_enable(),
                    on_success: "clamav-daemon service has been enabled and started.",
                    on_failure: "Failed to start clamav-daemon service via systemctl.",
                },
                Platform::Other => RemediationPlan::Fixed(
                    Err("Unsupported operating system for automated remediation."),
                ),
            },
            DefendScenario::RealtimeProtection => match platform {
                Platform::Windows => RemediationPlan::Run {
                    command: defender_monitoring_enable(),
                    on_success: "Real-time and Behavioral Monitoring preferences have been enabled.",
                    on_failure: "Administrative privileges required to modify Defender preferences.",
                },
                Platform::Linux => RemediationPlan::RunThen {
                    command: clamav_install(),
                    follow_up: clamav_daemon_enable(),
                    on_success: "ClamAV daemon installed and activated successfully.",
                    on_failure: "Failed to install clamav-daemon package.",
                },
                Platform::Other => RemediationPlan::Fixed(Err("Unsupported platform.")),
            },
            DefendScenario::RansomwareShield => if windows {
                RemediationPlan::Run {
                    command: folder_access_enable(),
                    on_success: "Controlled Folder Access (Anti-Ransomware) successfully switched to ENABLED.",
                    on_failure: "Failed to enable Controlled Folder Access. Administrator privileges required.",
                }
            } else {
                RemediationPlan::Fixed(Ok("Linux snapshot policy confirmed."))
            },
            DefendScenario::TamperProtection => if windows {
                RemediationPlan::Launch {
                    command: security_settings_open(),
                    message: "Opened Windows Security Settings UI. Please toggle 'Tamper Protection' to ON.",
                }
            } else {
                RemediationPlan::Fixed(Ok("Linux systemd unit protections validated."))
            },
            DefendScenario::AmsiIntegrity => if windows {
                RemediationPlan::Run {
                    command: amsi_scan(),
                    on_success: "AMSI integrity scan and verification completed.",
                    on_failure: "Failed to verify AMSI binary. Run command prompt as Administrator.",
                }
            } else {
                RemediationPlan::Fixed(Ok("Linux script execution policy compliant."))
            },
            DefendScenario::FirewallPolicy => match platform {
                Platform::Windows => RemediationPlan::Run {
                    command: windows_firewall_enable(),
                    on_success: "Windows Firewall enabled on Domain, Private, and Public profiles.",
                    on_failure: "Failed to enable Windows Firewall. Administrator rights required.",
                },
                Platform::Linux => RemediationPlan::Run {
                    command: ufw_enable(),
                    on_success: "UFW firewall enabled with default policy.",
                    on_failure: "Failed to enable UFW via sudo.",
                },
                Platform::Other => RemediationPlan::Fixed(Err("Unsupported platform.")),
            },
            DefendScenario::BehaviorMonitoring => if windows {
                RemediationPlan::Run {
                    command: behavior_enable(),
                    on_success: "Behavioral process monitoring successfully enabled.",
                    on_failure: "Failed to enable behavioral monitoring. Administrator rights required.",
                }
            } else {
                RemediationPlan::Fixed(Ok("Linux audit policy verified."))
            },
            DefendScenario::CloudProtection => if windows {
                RemediationPlan::Run {
                    command: maps_enable(),
                    on_success: "Advanced Cloud-delivered protection (MAPS) and sample submission enabled.",
                    on_failure: "Failed to enable cloud protection. Administrator rights required.",
                }
            } else {
                RemediationPlan::Fixed(Ok("Linux threat feed updated."))
            },
            DefendScenario::NetworkProtection => if windows {
                RemediationPlan::Run {
                    command: network_protection_enable(),
                    on_success: "Network Protection successfully switched to Enabled.",
                    on_failure: "Failed to enable Network Protection. Administrator rights required.",
                }
            } else {
                RemediationPlan::Fixed(Ok("Linux network security policies compliant."))
            },
            DefendScenario::PuaProtection => if windows {
                RemediationPlan::Run {
                    command: pua_enable(),
                    on_success: "PUA Protection successfully enabled.",
                    on_failure: "Failed to enable PUA protection. Administrator rights required.",
                }
            } else {
                RemediationPlan::Fixed(Ok("Linux package manager policies compliant."))
            },
            DefendScenario::CredentialGuard => if windows {
                RemediationPlan::Run {
                    command: run_as_ppl_enable(),
                    on_success: "RunAsPPL enabled in LSA registry hive (takes full effect upon next reboot).",
                    on_failure: "Failed to configure LSA RunAsPPL. Administrator privileges required.",
                }
            } else {
                RemediationPlan::Fixed(Ok("Linux memory protections compliant."))
            },
            DefendScenario::ScriptBlockLogging => if windows {
                RemediationPlan::Run {
                    command: script_block_logging_enable(),
                    on_success: "PowerShell Script Block Logging enabled in system policy.",
                    on_failure: "Failed to enable Script Block Logging. Administrator privileges required.",
                }
            } else {
                RemediationPlan::Fixed(Ok("Linux command audit policy compliant."))
            },
            DefendScenario::UsbScanning => if windows {
                RemediationPlan::Run {
                    command: removable_scan_enable(),
                    on_success: "Automatic scanning of removable USB drives successfully enabled.",
                    on_failure: "Failed to update removable drive preference. Administrator rights required.",
                }
            } else {
                RemediationPlan::Fixed(Ok("Linux removable media policy compliant."))
            },
            DefendScenario::SignatureFreshness => if windows {
                RemediationPlan::Run {
                    command: signature_update(),
                    on_success: "Antivirus signatures successfully updated from Microsoft Update Server.",
                    on_failure: "Failed to update antivirus signatures. Check network or run as Administrator.",
                }
            } else {
                RemediationPlan::Run {
                    command: freshclam_update(),
                    on_success: "freshclam signature update completed.",
                    on_failure: "Failed to run freshclam.",
                }
            },
        }
    }
}

} // verus!

verus! {

/// The EICAR anti-virus test string: harmless, and recognised by every
/// anti-virus engine.
pub const EICAR_TEST_STRING: &'static str = "X5O!P%@AP[4\\PZX54(P^)7CC)7}$EICAR-STANDARD-ANTIVIRUS-TEST-FILE!$H+H*";

/// Name of the EICAR test file, created in the temporary directory.
pub const EICAR_TEST_FILE_NAME: &'static str = "hunter_eicar_test.com";

/// Milliseconds to wait after writing the test file, and after a remediation
/// before checking again, so that the host's protection can act.
pub const SETTLE_DELAY_MS: u64 = 1500;

/// A host hardening scenario: its texts, what it observes, how it judges, and
/// how it remediates.
pub trait AutoDefendScenario {
    fn id(&self) -> &'static str;

    fn description_en(&self) -> &'static str;

    fn description_fr(&self) -> &'static str;

    fn remediation_desc_en(&self) -> &'static str;

    fn remediation_desc_fr(&self) -> &'static str;

    /// What to observe on the host before judging.
    fn probe_plan(&self, platform: Platform) -> ProbePlan;

    /// Judges what was observed and reports it.
    fn execute_evaluation(&self, platform: Platform, observation: &HostObservation) -> DefendCheckResult;

    /// How to remediate a failed control.
    fn remediation_plan(&self, platform: Platform) -> RemediationPlan;
}

impl AutoDefendScenario for DefendScenario {
    fn id(&self) -> (r: &'static str)
        ensures
            r@ == self.spec_id(),
    {
        self.id_text()
    }

    fn description_en(&self) -> (r: &'static str)
        ensures
            r@ == self.spec_description_en(),
    {
        self.description_en_text()
    }

    fn description_fr(&self) -> (r: &'static str)
        ensures
            r@ == self.spec_description_fr(),
    {
        self.description_fr_text()
    }

    fn remediation_desc_en(&self) -> (r: &'static str)
        ensures
            r@ == self.spec_remediation_desc_en(),
    {
        self.remediation_desc_en_text()
    }

    fn remediation_desc_fr(&self) -> (r: &'static str)
        ensures
            r@ == self.spec_remediation_desc_fr(),
    {
        self.remediation_desc_fr_text()
    }

    fn probe_plan(&self, platform: Platform) -> (r: ProbePlan)
        ensures
            r@ == self.spec_probe(platform),
    {
        self.probe_for(platform)
    }

    fn execute_evaluation(&self, platform: Platform, observation: &HostObservation) -> (r: DefendCheckResult)
        ensures
            reports(r, judge(*self, platform, *observation)),
    {
        self.judge(platform, observation).report()
    }

    fn remediation_plan(&self, platform: Platform) -> (r: RemediationPlan)
        ensures
            r@ == self.spec_remediation(platform),
    {
        self.remediation_for(platform)
    }
}

// ---------------------------------------------------------------------------
// Outcome of a remediation
// ---------------------------------------------------------------------------

/// What a remediation reports, and which command follows, once the first
/// command has run (`command_succeeded` is its exit status; it is not read for
/// plans that run nothing or do not wait).
pub open spec fn remediation_outcome(plan: RemediationView, command_succeeded: bool) -> (
    Option<CommandView>,
    Result<Seq<char>, Seq<char>>,
) {
    match plan {
        RemediationView::Fixed(r) => (None, r),
        RemediationView::Run { command, on_success, on_failure } => if command_succeeded {
            (None, Ok(on_success))
        } else {
            (None, Err(on_failure))
        },
        RemediationView::RunThen { command, follow_up, on_success, on_failure } =>
            if command_succeeded {
            (Some(follow_up), Ok(on_success))
        } else {
            (None, Err(on_failure))
        },
        RemediationView::Launch { command, message } => (None, Ok(message)),
    }
}

pub open spec fn step_view(step: RemediationStep) -> (Option<CommandView>, Result<Seq<char>, Seq<char>>) {
    (
        match step.follow_up {
            Some(c) => Some(c@),
            None => None,
        },
        match step.result {
            Ok(m) => Ok(m@),
            Err(m) => Err(m@),
        },
    )
}

/// Decides the outcome of a remediation from the exit status of its first
/// command.
pub fn remediation_result(plan: RemediationPlan, command_succeeded: bool) -> (r: RemediationStep)
    ensures
        step_view(r) == remediation_outcome(plan@, command_succeeded),
{
    match plan {
        RemediationPlan::Fixed(Ok(m)) => RemediationStep { follow_up: None, result: Ok(owned(m)) },
        RemediationPlan::Fixed(Err(m)) => RemediationStep { follow_up: None, result: Err(owned(m)) },
        RemediationPlan::Run { command, on_success, on_failure } => if command_succeeded {
            RemediationStep { follow_up: None, result: Ok(owned(on_success)) }
        } else {
            RemediationStep { follow_up: None, result: Err(owned(on_failure)) }
        },
        RemediationPlan::RunThen { command, follow_up, on_success, on_failure } =>
            if command_succeeded {
            RemediationStep { follow_up: Some(follow_up), result: Ok(owned(on_success)) }
        } else {
            RemediationStep { follow_up: None, result: Err(owned(on_failure)) }
        },
        RemediationPlan::Launch { command, message } => RemediationStep {
            follow_up: None,
            result: Ok(owned(message)),
        },
    }
}

// ---------------------------------------------------------------------------
// The catalog and the choice of scenarios
// ---------------------------------------------------------------------------

/// Every scenario, in the order in which a full pass runs them.
pub open spec fn catalog() -> Seq<DefendScenario> {
    seq![
        DefendScenario::EicarQuarantine,
        DefendScenario::RealtimeProtection,
        DefendScenario::BehaviorMonitoring,
        DefendScenario::CloudProtection,
        DefendScenario::NetworkProtection,
        DefendScenario::RansomwareShield,
        DefendScenario::TamperProtection,
        DefendScenario::AmsiIntegrity,
        DefendScenario::PuaProtection,
        DefendScenario::CredentialGuard,
        DefendScenario::ScriptBlockLogging,
        DefendScenario::UsbScanning,
        DefendScenario::SignatureFreshness,
        DefendScenario::FirewallPolicy,
    ]
}

/// Every scenario, in catalog order.
pub fn get_all_defend_scenarios() -> (v: Vec<DefendScenario>)
    ensures
        v@ == catalog(),
{
    let mut v: Vec<DefendScenario> = Vec::new();
    v.push(DefendScenario::EicarQuarantine);
    v.push(DefendScenario::RealtimeProtection);
    v.push(DefendScenario::BehaviorMonitoring);
    v.push(DefendScenario::CloudProtection);
    v.push(DefendScenario::NetworkProtection);
    v.push(DefendScenario::RansomwareShield);
    v.push(DefendScenario::TamperProtection);
    v.push(DefendScenario::AmsiIntegrity);
    v.push(DefendScenario::PuaProtection);
    v.push(DefendScenario::CredentialGuard);
    v.push(DefendScenario::ScriptBlockLogging);
    v.push(DefendScenario::UsbScanning);
    v.push(DefendScenario::SignatureFreshness);
    v.push(DefendScenario::FirewallPolicy);
    assert(v@ =~= catalog());
    v
}

/// Whether scenario `s` answers to the name `name` (ASCII case ignored).
pub open spec fn named(s: DefendScenario, name: Seq<char>) -> bool {
    eq_ignore_ascii_case(s.spec_id(), name)
}

/// The scenarios that the argument of `-check` selects: all of them for
/// "all" (any case), otherwise those whose id equals it, ignoring ASCII case.
pub open spec fn selected(arg: Seq<char>) -> Seq<DefendScenario> {
    if eq_ignore_ascii_case(arg, "all"@) {
        catalog()
    } else {
        catalog().filter(|s: DefendScenario| named(s, arg))
    }
}

/// The scenarios to run for the argument of `-check`, in catalog order.
pub fn select_scenarios(arg: &str) -> (v: Vec<DefendScenario>)
    ensures
        v@ == selected(arg@),
{
    let all = get_all_defend_scenarios();
    if str_eq_ignore_ascii_case(arg, "all") {
        return all;
    }
    let mut v: Vec<DefendScenario> = Vec::new();
    let mut i: usize = 0;
    while i < all.len()
        invariant
            i <= all.len(),
            all@ == catalog(),
            v@ == all@.take(i as int).filter(|s: DefendScenario| named(s, arg@)),
        decreases all.len() - i,
    {
        proof {
            reveal_with_fuel(Seq::filter, 1);
            assert(all@.take(i + 1).drop_last() =~= all@.take(i as int));
        }
        let s = all[i];
        if str_eq_ignore_ascii_case(s.id_text(), arg) {
            v.push(s);
        }
        i = i + 1;
    }
    proof {
        assert(all@.take(all.len() as int) =~= all@);
    }
    v
}

} // verus!

verus! {

// ---------------------------------------------------------------------------
// Laws of the scenarios
// ---------------------------------------------------------------------------

/// A scenario's report always speaks of that scenario: what it concludes is
/// one of its own findings, whatever the platform and the observation.
pub proof fn lemma_judge_own_finding(s: DefendScenario, platform: Platform, obs: HostObservation)
    ensures
        judge(s, platform, obs).scenario() == s,
{
}

/// A scenario that observes nothing on a platform concludes the same whatever
/// observation it is handed.
pub proof fn lemma_unprobed_judgement_fixed(
    s: DefendScenario,
    platform: Platform,
    a: HostObservation,
    b: HostObservation,
)
    requires
        s.spec_probe(platform) is Nothing,
    ensures
        judge(s, platform, a) == judge(s, platform, b),
{
}

/// The catalog holds each of the fourteen scenarios exactly once.
pub proof fn lemma_catalog_complete(s: DefendScenario)
    ensures
        catalog().contains(s),
        catalog().len() == 14,
        catalog().no_duplicates(),
{
    let c = catalog();
    let k: int = match s {
        DefendScenario::EicarQuarantine => 0,
        DefendScenario::RealtimeProtection => 1,
        DefendScenario::BehaviorMonitoring => 2,
        DefendScenario::CloudProtection => 3,
        DefendScenario::NetworkProtection => 4,
        DefendScenario::RansomwareShield => 5,
        DefendScenario::TamperProtection => 6,
        DefendScenario::AmsiIntegrity => 7,
        DefendScenario::PuaProtection => 8,
        DefendScenario::CredentialGuard => 9,
        DefendScenario::ScriptBlockLogging => 10,
        DefendScenario::UsbScanning => 11,
        DefendScenario::SignatureFreshness => 12,
        DefendScenario::FirewallPolicy => 13,
    };
    assert(c[k] == s);
}

/// "all", in any case, selects the whole catalog in order.
pub proof fn lemma_select_all(arg: Seq<char>)
    requires
        eq_ignore_ascii_case(arg, "all"@),
    ensures
        selected(arg) == catalog(),
{
}

/// A remediation that runs a command and waits succeeds exactly when that
/// command succeeds; one fixed in advance does not depend on any status.
pub proof fn lemma_remediation_follows_status(plan: RemediationView, ok: bool)
    ensures
        (plan is Run || plan is RunThen) ==> (remediation_outcome(plan, ok).1 is Ok <==> ok),
        plan is Fixed ==> remediation_outcome(plan, ok) == remediation_outcome(plan, !ok),
        remediation_outcome(plan, ok).0 is Some ==> plan is RunThen && ok,
{
}

} // verus!

verus! {

proof fn lemma_names_differ_at(a: Seq<char>, b: Seq<char>, i: int)
    requires
        0 <= i < a.len(),
        i < b.len(),
        ascii_lower(a[i]) != ascii_lower(b[i]),
    ensures
        !eq_ignore_ascii_case(a, b),
        !eq_ignore_ascii_case(b, a),
{
}

proof fn lemma_filter_single<A>(c: Seq<A>, p: spec_fn(A) -> bool, k: int)
    requires
        0 <= k < c.len(),
        p(c[k]),
        forall|j: int| 0 <= j < c.len() && j != k ==> !p(#[trigger] c[j]),
    ensures
        c.filter(p) == seq![c[k]],
    decreases c.len(),
{
    reveal_with_fuel(Seq::filter, 1);
    let d = c.drop_last();
    if k == c.len() - 1 {
        lemma_filter_none(d, p);
        assert(d.filter(p).push(c.last()) =~= seq![c[k]]);
    } else {
        assert forall|j: int| 0 <= j < d.len() && j != k implies !p(#[trigger] d[j]) by {
            assert(d[j] == c[j]);
        }
        assert(d[k] == c[k]);
        lemma_filter_single(d, p, k);
        assert(!p(c[c.len() - 1]));
    }
}

proof fn lemma_filter_none<A>(c: Seq<A>, p: spec_fn(A) -> bool)
    requires
        forall|j: int| 0 <= j < c.len() ==> !p(#[trigger] c[j]),
    ensures
        c.filter(p) == Seq::<A>::empty(),
    decreases c.len(),
{
    reveal_with_fuel(Seq::filter, 1);
    if c.len() > 0 {
        let d = c.drop_last();
        assert forall|j: int| 0 <= j < d.len() implies !p(#[trigger] d[j]) by {
            assert(d[j] == c[j]);
        }
        lemma_filter_none(d, p);
        assert(!p(c[c.len() - 1]));
    }
}

/// Scenario ids are told apart even ignoring ASCII case: naming a scenario
/// selects that scenario alone.
pub proof fn lemma_select_by_id(s: DefendScenario)
    ensures
        selected(s.spec_id()) == seq![s],
{
    reveal_strlit("eicar_quarantine");
    reveal_strlit("realtime_protection");
    reveal_strlit("behavior_monitoring");
    reveal_strlit("cloud_protection");
    reveal_strlit("network_protection");
    reveal_strlit("ransomware_shield");
    reveal_strlit("tamper_protection");
    reveal_strlit("amsi_integrity");
    reveal_strlit("pua_protection");
    reveal_strlit("credential_guard");
    reveal_strlit("script_block_logging");
    reveal_strlit("usb_scanning");
    reveal_strlit("signature_freshness");
    reveal_strlit("firewall_policy");
    reveal_strlit("all");
    lemma_names_differ_at(DefendScenario::EicarQuarantine.spec_id(), DefendScenario::CloudProtection.spec_id(), 0);
    lemma_names_differ_at(DefendScenario::EicarQuarantine.spec_id(), DefendScenario::CredentialGuard.spec_id(), 0);
    lemma_names_differ_at(DefendScenario::RealtimeProtection.spec_id(), DefendScenario::BehaviorMonitoring.spec_id(), 0);
    lemma_names_differ_at(DefendScenario::RealtimeProtection.spec_id(), DefendScenario::SignatureFreshness.spec_id(), 0);
    lemma_names_differ_at(DefendScenario::BehaviorMonitoring.spec_id(), DefendScenario::SignatureFreshness.spec_id(), 0);
    lemma_names_differ_at(DefendScenario::CloudProtection.spec_id(), DefendScenario::CredentialGuard.spec_id(), 1);
    lemma_names_differ_at(DefendScenario::RansomwareShield.spec_id(), DefendScenario::TamperProtection.spec_id(), 0);
    lemma_names_differ_at(DefendScenario::AmsiIntegrity.spec_id(), DefendScenario::PuaProtection.spec_id(), 0);
    let c = catalog();
    let name = s.spec_id();
    let p = |t: DefendScenario| named(t, name);
    lemma_catalog_complete(s);
    let k = choose|k: int| 0 <= k < c.len() && c[k] == s;
    assert(!eq_ignore_ascii_case(name, "all"@));
    assert(eq_ignore_ascii_case(name, name));
    assert forall|j: int| 0 <= j < c.len() && j != k implies !p(#[trigger] c[j]) by {
        assert(c.no_duplicates());
        assert(c[j] != s);
    }
    lemma_filter_single(c, p, k);
}

} // verus!

verus! {

/// An argument that is neither "all" nor the id of a scenario (ASCII case
/// ignored) selects nothing, and the run is refused as an unknown scenario.
pub proof fn lemma_select_unknown(arg: Seq<char>)
    requires
        !eq_ignore_ascii_case(arg, "all"@),
        forall|s: DefendScenario| !named(s, arg),
    ensures
        selected(arg).len() == 0,
{
    let c = catalog();
    let p = |s: DefendScenario| named(s, arg);
    assert forall|j: int| 0 <= j < c.len() implies !p(#[trigger] c[j]) by {
        assert(!named(c[j], arg));
    }
    lemma_filter_none(c, p);
}

} // verus!

verus! {

/// On Windows the firewall check passes only when the `netsh` output reports
/// exactly the three profiles (Domain, Private, Public), each of them on; a
/// profile reported off, or a missing profile, makes the host non-compliant.
pub proof fn lemma_firewall_every_profile(obs: HostObservation)
    ensures
        judge(DefendScenario::FirewallPolicy, Platform::Windows, obs).spec_verdict()
            == Verdict::Secure <==> (obs matches HostObservation::CommandOutput(Some(b)) && ({
            let st = profile_states(words(utf8_lossy(b@)));
            st.len() == 3 && forall|k: int| 0 <= k < 3 ==> is_on_value(#[trigger] st[k])
        })),
        judge(DefendScenario::FirewallPolicy, Platform::Windows, obs).spec_verdict()
            != Verdict::Secure ==> judge(
            DefendScenario::FirewallPolicy,
            Platform::Windows,
            obs,
        ).spec_verdict() == Verdict::Vulnerable,
{
}

} // verus!

verus! {

// ---------------------------------------------------------------------------
// What each scenario concludes
// ---------------------------------------------------------------------------

/// The verdict that scenario `s` reaches on `platform` from `obs`.
pub open spec fn verdict_on(s: DefendScenario, platform: Platform, obs: HostObservation) -> Verdict {
    judge(s, platform, obs).spec_verdict()
}

/// A text answer on a Windows host decides between passing and failing.
pub open spec fn pass_if(ok: bool) -> Verdict {
    if ok {
        Verdict::Secure
    } else {
        Verdict::Vulnerable
    }
}

/// The EICAR test fails exactly when the test file could be written and was
/// still on disk after the wait; in every other case the antivirus acted.
pub proof fn lemma_eicar_verdict(platform: Platform, obs: HostObservation)
    ensures
        verdict_on(DefendScenario::EicarQuarantine, platform, obs) == pass_if(
            !(obs matches HostObservation::EicarFile { write_succeeded, still_exists }
                && write_succeeded && still_exists),
        ),
{
}

/// On Windows each control passes exactly when the queried setting reports it
/// on: "true" (any case) for the real-time, tamper, AMSI and behaviour
/// monitors; "1" for script block logging; "1" or "2" for cloud protection
/// and LSA protection; "false" or "0" for the setting that disables removable
/// drive scanning. Controlled folder access, network protection and PUA
/// protection pass at "1", warn at "2" (audit mode) and fail otherwise. The
/// firewall passes when its three profiles are on. Signatures up to 3 days
/// old pass, up to 7 days warn, older ones fail, and an unreadable age warns.
pub proof fn lemma_windows_verdicts(obs: HostObservation)
    ensures
        verdict_on(DefendScenario::RealtimeProtection, Platform::Windows, obs) == pass_if(
            lowered_output(obs) == Some("true"@),
        ),
        verdict_on(DefendScenario::TamperProtection, Platform::Windows, obs) == pass_if(
            lowered_output(obs) == Some("true"@),
        ),
        verdict_on(DefendScenario::AmsiIntegrity, Platform::Windows, obs) == pass_if(
            lowered_output(obs) == Some("true"@),
        ),
        verdict_on(DefendScenario::BehaviorMonitoring, Platform::Windows, obs) == pass_if(
            lowered_output(obs) == Some("true"@),
        ),
        verdict_on(DefendScenario::ScriptBlockLogging, Platform::Windows, obs) == pass_if(
            trimmed_output(obs) == Some("1"@),
        ),
        verdict_on(DefendScenario::CloudProtection, Platform::Windows, obs) == pass_if(
            trimmed_output(obs) == Some("1"@) || trimmed_output(obs) == Some("2"@),
        ),
        verdict_on(DefendScenario::CredentialGuard, Platform::Windows, obs) == pass_if(
            trimmed_output(obs) == Some("1"@) || trimmed_output(obs) == Some("2"@),
        ),
        verdict_on(DefendScenario::UsbScanning, Platform::Windows, obs) == pass_if(
            lowered_output(obs) == Some("false"@) || lowered_output(obs) == Some("0"@),
        ),
        verdict_on(DefendScenario::FirewallPolicy, Platform::Windows, obs) == pass_if(
            windows_firewall_on(obs),
        ),
        forall|s: DefendScenario|
            (s == DefendScenario::RansomwareShield || s == DefendScenario::NetworkProtection || s
                == DefendScenario::PuaProtection) ==> #[trigger] verdict_on(s, Platform::Windows, obs)
                == if trimmed_output(obs) == Some("1"@) {
                Verdict::Secure
            } else if trimmed_output(obs) == Some("2"@) {
                Verdict::Warning
            } else {
                Verdict::Vulnerable
            },
        verdict_on(DefendScenario::SignatureFreshness, Platform::Windows, obs) == match trimmed_output(
            obs,
        ) {
            Some(t) => match parse_u32(t) {
                Some(age) => if age <= 3 {
                    Verdict::Secure
                } else if age <= 7 {
                    Verdict::Warning
                } else {
                    Verdict::Vulnerable
                },
                None => Verdict::Warning,
            },
            None => Verdict::Warning,
        },
{
}

/// On Linux the real-time check passes when the ClamAV daemon reports exactly
/// "active", and the firewall check when `ufw` reports "Status: active"; the
/// Windows-only controls pass. On other systems those two checks end in an
/// error and the Windows-only controls pass.
pub proof fn lemma_other_platform_verdicts(s: DefendScenario, obs: HostObservation)
    ensures
        verdict_on(DefendScenario::RealtimeProtection, Platform::Linux, obs) == pass_if(
            trimmed_output(obs) == Some("active"@),
        ),
        verdict_on(DefendScenario::FirewallPolicy, Platform::Linux, obs) == pass_if(
            output_contains(obs, "Status: active"@),
        ),
        verdict_on(DefendScenario::RealtimeProtection, Platform::Other, obs) == Verdict::Error,
        verdict_on(DefendScenario::FirewallPolicy, Platform::Other, obs) == Verdict::Error,
        s != DefendScenario::EicarQuarantine && s != DefendScenario::RealtimeProtection && s
            != DefendScenario::FirewallPolicy ==> verdict_on(s, Platform::Linux, obs)
            == Verdict::Secure && verdict_on(s, Platform::Other, obs) == Verdict::Secure,
{
}

} // verus!
