use vstd::prelude::*;
use crate::scenarios::{
    CommandView, DefendScenario, HostCommand, Platform, ProbePlan, ProbeView, RemediationPlan,
    RemediationView,
};
use crate::text::{decimal, owned, push_decimal, push_str};
use crate::verdict::Verdict;

verus! {

impl DefendScenario {
    pub open spec fn spec_id(self) -> Seq<char> {
        match self {
            DefendScenario::EicarQuarantine => "eicar_quarantine"@,
            DefendScenario::RealtimeProtection => "realtime_protection"@,
            DefendScenario::RansomwareShield => "ransomware_shield"@,
            DefendScenario::TamperProtection => "tamper_protection"@,
            DefendScenario::AmsiIntegrity => "amsi_integrity"@,
            DefendScenario::FirewallPolicy => "firewall_policy"@,
            DefendScenario::BehaviorMonitoring => "behavior_monitoring"@,
            DefendScenario::CloudProtection => "cloud_protection"@,
            DefendScenario::NetworkProtection => "network_protection"@,
            DefendScenario::PuaProtection => "pua_protection"@,
            DefendScenario::CredentialGuard => "credential_guard"@,
            DefendScenario::ScriptBlockLogging => "script_block_logging"@,
            DefendScenario::UsbScanning => "usb_scanning"@,
            DefendScenario::SignatureFreshness => "signature_freshness"@,
        }
    }

    pub fn id_text(&self) -> (r: &'static str)
        ensures
            r@ == self.spec_id(),
    {
        match self {
            DefendScenario::EicarQuarantine => "eicar_quarantine",
            DefendScenario::RealtimeProtection => "realtime_protection",
            DefendScenario::RansomwareShield => "ransomware_shield",
            DefendScenario::TamperProtection => "tamper_protection",
            DefendScenario::AmsiIntegrity => "amsi_integrity",
            DefendScenario::FirewallPolicy => "firewall_policy",
            DefendScenario::BehaviorMonitoring => "behavior_monitoring",
            DefendScenario::CloudProtection => "cloud_protection",
            DefendScenario::NetworkProtection => "network_protection",
            DefendScenario::PuaProtection => "pua_protection",
            DefendScenario::CredentialGuard => "credential_guard",
            DefendScenario::ScriptBlockLogging => "script_block_logging",
            DefendScenario::UsbScanning => "usb_scanning",
            DefendScenario::SignatureFreshness => "signature_freshness",
        }
    }

    pub open spec fn spec_description_en(self) -> Seq<char> {
        match self {
            DefendScenario::EicarQuarantine => "Writes benign standard EICAR test string and checks if active AV intercepts and quarantines it"@,
            DefendScenario::RealtimeProtection => "Validates that host antivirus engine and background behavioral monitor are currently active"@,
            DefendScenario::RansomwareShield => "Checks if Controlled Folder Access (Anti-Ransomware Shield) is enabled on user directories"@,
            DefendScenario::TamperProtection => "Verifies that Tamper Protection prevents malware from silently disabling antivirus services"@,
            DefendScenario::AmsiIntegrity => "Verifies Antimalware Scan Interface (AMSI) provider is registered for in-memory script inspection"@,
            DefendScenario::FirewallPolicy => "Verifies host firewall active state and default inbound deny enforcement"@,
            DefendScenario::BehaviorMonitoring => "Validates real-time heuristic and behavioral process monitoring against fileless execution"@,
            DefendScenario::CloudProtection => "Validates Cloud-Delivered Protection (MAPS) and live zero-day threat intelligence connectivity"@,
            DefendScenario::NetworkProtection => "Checks if Network Protection (Exploit Guard) is intercepting malicious domains and C2 callbacks"@,
            DefendScenario::PuaProtection => "Verifies Potentially Unwanted Application (PUA) blocking against adware, miners and bundlers"@,
            DefendScenario::CredentialGuard => "Verifies LSASS memory isolation (RunAsPPL) preventing credential theft and Mimikatz dumps"@,
            DefendScenario::ScriptBlockLogging => "Checks deep script block logging (EID 4104) enabling SOC & EDR visibility over fileless execution"@,
            DefendScenario::UsbScanning => "Checks removable drive scanning policy to intercept weaponized USB media on insertion"@,
            DefendScenario::SignatureFreshness => "Evaluates antivirus signature definition age ensuring protection against modern threats"@,
        }
    }

    pub fn description_en_text(&self) -> (r: &'static str)
        ensures
            r@ == self.spec_description_en(),
    {
        match self {
            DefendScenario::EicarQuarantine => "Writes benign standard EICAR test string and checks if active AV intercepts and quarantines it",
            DefendScenario::RealtimeProtection => "Validates that host antivirus engine and background behavioral monitor are currently active",
            DefendScenario::RansomwareShield => "Checks if Controlled Folder Access (Anti-Ransomware Shield) is enabled on user directories",
            DefendScenario::TamperProtection => "Verifies that Tamper Protection prevents malware from silently disabling antivirus services",
            DefendScenario::AmsiIntegrity => "Verifies Antimalware Scan Interface (AMSI) provider is registered for in-memory script inspection",
            DefendScenario::FirewallPolicy => "Verifies host firewall active state and default inbound deny enforcement",
            DefendScenario::BehaviorMonitoring => "Validates real-time heuristic and behavioral process monitoring against fileless execution",
            DefendScenario::CloudProtection => "Validates Cloud-Delivered Protection (MAPS) and live zero-day threat intelligence connectivity",
            DefendScenario::NetworkProtection => "Checks if Network Protection (Exploit Guard) is intercepting malicious domains and C2 callbacks",
            DefendScenario::PuaProtection => "Verifies Potentially Unwanted Application (PUA) blocking against adware, miners and bundlers",
            DefendScenario::CredentialGuard => "Verifies LSASS memory isolation (RunAsPPL) preventing credential theft and Mimikatz dumps",
            DefendScenario::ScriptBlockLogging => "Checks deep script block logging (EID 4104) enabling SOC & EDR visibility over fileless execution",
            DefendScenario::UsbScanning => "Checks removable drive scanning policy to intercept weaponized USB media on insertion",
            DefendScenario::SignatureFreshness => "Evaluates antivirus signature definition age ensuring protection against modern threats",
        }
    }

    pub open spec fn spec_description_fr(self) -> Seq<char> {
        match self {
            DefendScenario::EicarQuarantine => "Écrit la chaîne bénigne standard EICAR et vérifie si l'antivirus actif l'intercepte et la supprime"@,
            DefendScenario::RealtimeProtection => "Valide que le moteur antivirus hôte et la surveillance comportementale sont actifs"@,
            DefendScenario::RansomwareShield => "Vérifie si l'accès contrôlé aux dossiers (Bouclier Anti-Ransomware) est actif"@,
            DefendScenario::TamperProtection => "Vérifie que la protection contre les altérations empêche la désactivation de l'antivirus"@,
            DefendScenario::AmsiIntegrity => "Vérifie que le fournisseur AMSI est enregistré pour inspecter les scripts en mémoire"@,
            DefendScenario::FirewallPolicy => "Vérifie l'état actif du pare-feu et le refus par défaut des connexions entrantes"@,
            DefendScenario::BehaviorMonitoring => "Valide la surveillance comportementale et heuristique en temps réel des processus"@,
            DefendScenario::CloudProtection => "Valide la protection délivrée par le cloud (MAPS) et l'accès au renseignement des menaces zero-day"@,
            DefendScenario::NetworkProtection => "Vérifie si la Protection Réseau (Exploit Guard) intercepte les domaines malveillants et flux C2"@,
            DefendScenario::PuaProtection => "Vérifie le blocage des applications potentiellement indésirables (PUA/Adware/Mineurs crypto)"@,
            DefendScenario::CredentialGuard => "Vérifie l'isolation mémoire de LSASS (RunAsPPL) empêchant le vol d'identifiants et dumps Mimikatz"@,
            DefendScenario::ScriptBlockLogging => "Vérifie la journalisation approfondie des blocs de script (EID 4104) pour la détection EDR/SOC"@,
            DefendScenario::UsbScanning => "Vérifie la politique de scan des supports amovibles pour neutraliser les clés USB malveillantes"@,
            DefendScenario::SignatureFreshness => "Évalue l'ancienneté des bases virales de l'antivirus pour contrer les menaces récentes"@,
        }
    }

    pub fn description_fr_text(&self) -> (r: &'static str)
        ensures
            r@ == self.spec_description_fr(),
    {
        match self {
            DefendScenario::EicarQuarantine => "Écrit la chaîne bénigne standard EICAR et vérifie si l'antivirus actif l'intercepte et la supprime",
            DefendScenario::RealtimeProtection => "Valide que le moteur antivirus hôte et la surveillance comportementale sont actifs",
            DefendScenario::RansomwareShield => "Vérifie si l'accès contrôlé aux dossiers (Bouclier Anti-Ransomware) est actif",
            DefendScenario::TamperProtection => "Vérifie que la protection contre les altérations empêche la désactivation de l'antivirus",
            DefendScenario::AmsiIntegrity => "Vérifie que le fournisseur AMSI est enregistré pour inspecter les scripts en mémoire",
            DefendScenario::FirewallPolicy => "Vérifie l'état actif du pare-feu et le refus par défaut des connexions entrantes",
            DefendScenario::BehaviorMonitoring => "Valide la surveillance comportementale et heuristique en temps réel des processus",
            DefendScenario::CloudProtection => "Valide la protection délivrée par le cloud (MAPS) et l'accès au renseignement des menaces zero-day",
            DefendScenario::NetworkProtection => "Vérifie si la Protection Réseau (Exploit Guard) intercepte les domaines malveillants et flux C2",
            DefendScenario::PuaProtection => "Vérifie le blocage des applications potentiellement indésirables (PUA/Adware/Mineurs crypto)",
            DefendScenario::CredentialGuard => "Vérifie l'isolation mémoire de LSASS (RunAsPPL) empêchant le vol d'identifiants et dumps Mimikatz",
            DefendScenario::ScriptBlockLogging => "Vérifie la journalisation approfondie des blocs de script (EID 4104) pour la détection EDR/SOC",
            DefendScenario::UsbScanning => "Vérifie la politique de scan des supports amovibles pour neutraliser les clés USB malveillantes",
            DefendScenario::SignatureFreshness => "Évalue l'ancienneté des bases virales de l'antivirus pour contrer les menaces récentes",
        }
    }

    pub open spec fn spec_remediation_desc_en(self) -> Seq<char> {
        match self {
            DefendScenario::EicarQuarantine => "Enables and starts host real-time antivirus filesystem monitoring shield to quarantine malware instantly."@,
            DefendScenario::RealtimeProtection => "Restores primary antivirus engine background service and activates continuous behavior surveillance."@,
            DefendScenario::RansomwareShield => "Locks Controlled Folder Access shield to prevent unauthorized modifications and mass data encryption."@,
            DefendScenario::TamperProtection => "Locks core security settings and alerts administrator via Security Center to prevent service sabotage."@,
            DefendScenario::AmsiIntegrity => "Triggers system integrity check and repairs Antimalware Scan Interface registration for memory inspection."@,
            DefendScenario::FirewallPolicy => "Enables host firewall across Domain, Private, and Public profiles with default inbound deny policy."@,
            DefendScenario::BehaviorMonitoring => "Deploys heuristic process analysis to detect and block malicious in-memory and fileless execution."@,
            DefendScenario::CloudProtection => "Connects host to Advanced Cloud Threat Intelligence (MAPS) for automated zero-day malware blocking."@,
            DefendScenario::NetworkProtection => "Deploys Exploit Guard network shield to block outbound traffic to phishing domains and C2 servers."@,
            DefendScenario::PuaProtection => "Enforces Potentially Unwanted Application blocking against adware, illicit coinminers and bundlers."@,
            DefendScenario::CredentialGuard => "Applies LSA RunAsPPL policy to isolate LSASS process memory from unauthorized dumping and Mimikatz."@,
            DefendScenario::ScriptBlockLogging => "Enables deep PowerShell Script Block Logging (EID 4104) providing complete deobfuscated EDR telemetry."@,
            DefendScenario::UsbScanning => "Enforces mandatory automatic antivirus inspection on inserted USB drives and removable storage."@,
            DefendScenario::SignatureFreshness => "Forces an immediate definition update from security servers to protect against the latest cyber threats."@,
        }
    }

    pub fn remediation_desc_en_text(&self) -> (r: &'static str)
        ensures
            r@ == self.spec_remediation_desc_en(),
    {
        match self {
            DefendScenario::EicarQuarantine => "Enables and starts host real-time antivirus filesystem monitoring shield to quarantine malware instantly.",
            DefendScenario::RealtimeProtection => "Restores primary antivirus engine background service and activates continuous behavior surveillance.",
            DefendScenario::RansomwareShield => "Locks Controlled Folder Access shield to prevent unauthorized modifications and mass data encryption.",
            DefendScenario::TamperProtection => "Locks core security settings and alerts administrator via Security Center to prevent service sabotage.",
            DefendScenario::AmsiIntegrity => "Triggers system integrity check and repairs Antimalware Scan Interface registration for memory inspection.",
            DefendScenario::FirewallPolicy => "Enables host firewall across Domain, Private, and Public profiles with default inbound deny policy.",
            DefendScenario::BehaviorMonitoring => "Deploys heuristic process analysis to detect and block malicious in-memory and fileless execution.",
            DefendScenario::CloudProtection => "Connects host to Advanced Cloud Threat Intelligence (MAPS) for automated zero-day malware blocking.",
            DefendScenario::NetworkProtection => "Deploys Exploit Guard network shield to block outbound traffic to phishing domains and C2 servers.",
            DefendScenario::PuaProtection => "Enforces Potentially Unwanted Application blocking against adware, illicit coinminers and bundlers.",
            DefendScenario::CredentialGuard => "Applies LSA RunAsPPL policy to isolate LSASS process memory from unauthorized dumping and Mimikatz.",
            DefendScenario::ScriptBlockLogging => "Enables deep PowerShell Script Block Logging (EID 4104) providing complete deobfuscated EDR telemetry.",
            DefendScenario::UsbScanning => "Enforces mandatory automatic antivirus inspection on inserted USB drives and removable storage.",
            DefendScenario::SignatureFreshness => "Forces an immediate definition update from security servers to protect against the latest cyber threats.",
        }
    }

    pub open spec fn spec_remediation_desc_fr(self) -> Seq<char> {
        match self {
            DefendScenario::EicarQuarantine => "Active et démarre le bouclier de surveillance antivirus temps réel pour neutraliser immédiatement les menaces."@,
            DefendScenario::RealtimeProtection => "Rétablit le service d'arrière-plan du moteur antivirus et active la surveillance comportementale continue."@,
            DefendScenario::RansomwareShield => "Verrouille l'accès contrôlé aux dossiers pour empêcher les altérations non autorisées et le chiffrement de masse."@,
            DefendScenario::TamperProtection => "Verrouille les réglages de sécurité essentiels pour empêcher les logiciels malveillants de saboter l'antivirus."@,
            DefendScenario::AmsiIntegrity => "Déclenche la vérification d'intégrité SFC et répare l'enregistrement AMSI pour l'inspection des scripts mémoire."@,
            DefendScenario::FirewallPolicy => "Réactive le pare-feu hôte sur tous les profils (Domaine, Privé, Public) avec refus entrant par défaut."@,
            DefendScenario::BehaviorMonitoring => "Déploie l'analyse heuristique des processus pour bloquer les charges malveillantes en mémoire et sans fichier."@,
            DefendScenario::CloudProtection => "Raccorde l'hôte au renseignement sur les menaces dans le cloud (MAPS) pour le blocage immédiat des zero-day."@,
            DefendScenario::NetworkProtection => "Déploie le bouclier réseau Exploit Guard pour interdire le trafic vers les domaines C2 et malveillants."@,
            DefendScenario::PuaProtection => "Active le blocage strict des applications indésirables (PUA), mineurs crypto clandestins et logiciels parasites."@,
            DefendScenario::CredentialGuard => "Configure la stratégie LSA RunAsPPL pour isoler la mémoire de LSASS contre les dumps non autorisés (Mimikatz)."@,
            DefendScenario::ScriptBlockLogging => "Active la journalisation approfondie des scripts PowerShell (EID 4104) offrant une télémétrie complète pour l'EDR."@,
            DefendScenario::UsbScanning => "Impose l'analyse antivirus automatique obligatoire dès l'insertion de tout support ou clé USB amovible."@,
            DefendScenario::SignatureFreshness => "Force la mise à jour immédiate des définitions virales depuis les serveurs de sécurité officiels."@,
        }
    }

    pub fn remediation_desc_fr_text(&self) -> (r: &'static str)
        ensures
            r@ == self.spec_remediation_desc_fr(),
    {
        match self {
            DefendScenario::EicarQuarantine => "Active et démarre le bouclier de surveillance antivirus temps réel pour neutraliser immédiatement les menaces.",
            DefendScenario::RealtimeProtection => "Rétablit le service d'arrière-plan du moteur antivirus et active la surveillance comportementale continue.",
            DefendScenario::RansomwareShield => "Verrouille l'accès contrôlé aux dossiers pour empêcher les altérations non autorisées et le chiffrement de masse.",
            DefendScenario::TamperProtection => "Verrouille les réglages de sécurité essentiels pour empêcher les logiciels malveillants de saboter l'antivirus.",
            DefendScenario::AmsiIntegrity => "Déclenche la vérification d'intégrité SFC et répare l'enregistrement AMSI pour l'inspection des scripts mémoire.",
            DefendScenario::FirewallPolicy => "Réactive le pare-feu hôte sur tous les profils (Domaine, Privé, Public) avec refus entrant par défaut.",
            DefendScenario::BehaviorMonitoring => "Déploie l'analyse heuristique des processus pour bloquer les charges malveillantes en mémoire et sans fichier.",
            DefendScenario::CloudProtection => "Raccorde l'hôte au renseignement sur les menaces dans le cloud (MAPS) pour le blocage immédiat des zero-day.",
            DefendScenario::NetworkProtection => "Déploie le bouclier réseau Exploit Guard pour interdire le trafic vers les domaines C2 et malveillants.",
            DefendScenario::PuaProtection => "Active le blocage strict des applications indésirables (PUA), mineurs crypto clandestins et logiciels parasites.",
            DefendScenario::CredentialGuard => "Configure la stratégie LSA RunAsPPL pour isoler la mémoire de LSASS contre les dumps non autorisés (Mimikatz).",
            DefendScenario::ScriptBlockLogging => "Active la journalisation approfondie des scripts PowerShell (EID 4104) offrant une télémétrie complète pour l'EDR.",
            DefendScenario::UsbScanning => "Impose l'analyse antivirus automatique obligatoire dès l'insertion de tout support ou clé USB amovible.",
            DefendScenario::SignatureFreshness => "Force la mise à jour immédiate des définitions virales depuis les serveurs de sécurité officiels.",
        }
    }

    pub open spec fn spec_title_en(self) -> Seq<char> {
        match self {
            DefendScenario::EicarQuarantine => "Antivirus Real-Time File Interception (EICAR)"@,
            DefendScenario::RealtimeProtection => "Real-Time Antivirus Protection Status"@,
            DefendScenario::RansomwareShield => "Controlled Folder Access (Anti-Ransomware)"@,
            DefendScenario::TamperProtection => "Antivirus Tamper Protection Integrity"@,
            DefendScenario::AmsiIntegrity => "AMSI (Antimalware Scan Interface) Registration"@,
            DefendScenario::FirewallPolicy => "Host Firewall Active Policy"@,
            DefendScenario::BehaviorMonitoring => "Behavioral Process Monitoring Engine"@,
            DefendScenario::CloudProtection => "Cloud-Delivered Threat Intelligence (MAPS)"@,
            DefendScenario::NetworkProtection => "Network Protection / C2 Domain Shield"@,
            DefendScenario::PuaProtection => "Potentially Unwanted Application (PUA) Shield"@,
            DefendScenario::CredentialGuard => "LSASS Credential Isolation (RunAsPPL)"@,
            DefendScenario::ScriptBlockLogging => "PowerShell Script Block Logging (EID 4104)"@,
            DefendScenario::UsbScanning => "Removable Media Antivirus Scanning (USB)"@,
            DefendScenario::SignatureFreshness => "Antivirus Signature Database Freshness"@,
        }
    }

    pub fn title_en_text(&self) -> (r: &'static str)
        ensures
            r@ == self.spec_title_en(),
    {
        match self {
            DefendScenario::EicarQuarantine => "Antivirus Real-Time File Interception (EICAR)",
            DefendScenario::RealtimeProtection => "Real-Time Antivirus Protection Status",
            DefendScenario::RansomwareShield => "Controlled Folder Access (Anti-Ransomware)",
            DefendScenario::TamperProtection => "Antivirus Tamper Protection Integrity",
            DefendScenario::AmsiIntegrity => "AMSI (Antimalware Scan Interface) Registration",
            DefendScenario::FirewallPolicy => "Host Firewall Active Policy",
            DefendScenario::BehaviorMonitoring => "Behavioral Process Monitoring Engine",
            DefendScenario::CloudProtection => "Cloud-Delivered Threat Intelligence (MAPS)",
            DefendScenario::NetworkProtection => "Network Protection / C2 Domain Shield",
            DefendScenario::PuaProtection => "Potentially Unwanted Application (PUA) Shield",
            DefendScenario::CredentialGuard => "LSASS Credential Isolation (RunAsPPL)",
            DefendScenario::ScriptBlockLogging => "PowerShell Script Block Logging (EID 4104)",
            DefendScenario::UsbScanning => "Removable Media Antivirus Scanning (USB)",
            DefendScenario::SignatureFreshness => "Antivirus Signature Database Freshness",
        }
    }

    pub open spec fn spec_title_fr(self) -> Seq<char> {
        match self {
            DefendScenario::EicarQuarantine => "Interception Antivirus en Temps Réel (EICAR)"@,
            DefendScenario::RealtimeProtection => "État de la Protection Antivirus en Temps Réel"@,
            DefendScenario::RansomwareShield => "Accès Contrôlé aux Dossiers (Anti-Ransomware)"@,
            DefendScenario::TamperProtection => "Intégrité de la Protection contre les Altérations"@,
            DefendScenario::AmsiIntegrity => "Enregistrement AMSI (Inspection Mémoire des Scripts)"@,
            DefendScenario::FirewallPolicy => "Politique Active du Pare-Feu Hôte"@,
            DefendScenario::BehaviorMonitoring => "Moteur de Surveillance Comportementale des Processus"@,
            DefendScenario::CloudProtection => "Renseignement sur les Menaces dans le Cloud (MAPS)"@,
            DefendScenario::NetworkProtection => "Bouclier de Protection Réseau & Domaines C2"@,
            DefendScenario::PuaProtection => "Bouclier Applications Indésirables (PUA)"@,
            DefendScenario::CredentialGuard => "Isolation Mémoire LSASS (RunAsPPL)"@,
            DefendScenario::ScriptBlockLogging => "Journalisation des Blocs de Script PowerShell (EID 4104)"@,
            DefendScenario::UsbScanning => "Analyse Antivirus des Supports Amovibles (USB)"@,
            DefendScenario::SignatureFreshness => "Fraîcheur de la Base de Signatures Antivirus"@,
        }
    }

    pub fn title_fr_text(&self) -> (r: &'static str)
        ensures
            r@ == self.spec_title_fr(),
    {
        match self {
            DefendScenario::EicarQuarantine => "Interception Antivirus en Temps Réel (EICAR)",
            DefendScenario::RealtimeProtection => "État de la Protection Antivirus en Temps Réel",
            DefendScenario::RansomwareShield => "Accès Contrôlé aux Dossiers (Anti-Ransomware)",
            DefendScenario::TamperProtection => "Intégrité de la Protection contre les Altérations",
            DefendScenario::AmsiIntegrity => "Enregistrement AMSI (Inspection Mémoire des Scripts)",
            DefendScenario::FirewallPolicy => "Politique Active du Pare-Feu Hôte",
            DefendScenario::BehaviorMonitoring => "Moteur de Surveillance Comportementale des Processus",
            DefendScenario::CloudProtection => "Renseignement sur les Menaces dans le Cloud (MAPS)",
            DefendScenario::NetworkProtection => "Bouclier de Protection Réseau & Domaines C2",
            DefendScenario::PuaProtection => "Bouclier Applications Indésirables (PUA)",
            DefendScenario::CredentialGuard => "Isolation Mémoire LSASS (RunAsPPL)",
            DefendScenario::ScriptBlockLogging => "Journalisation des Blocs de Script PowerShell (EID 4104)",
            DefendScenario::UsbScanning => "Analyse Antivirus des Supports Amovibles (USB)",
            DefendScenario::SignatureFreshness => "Fraîcheur de la Base de Signatures Antivirus",
        }
    }
}

/// The facts that a scenario can establish about the host; each has a fixed
/// verdict and fixed texts, some of them carrying the value that was read.
#[derive(Debug, Clone, Copy, PartialEq, Eq, Structural)]
pub enum Finding {
    EicarWriteBlocked,
    EicarNotQuarantined,
    EicarQuarantined,
    RealtimeWindowsActive,
    RealtimeWindowsDisabled,
    RealtimeLinuxActive,
    RealtimeLinuxInactive,
    RealtimeUnsupported,
    RansomwareEnabled,
    RansomwareAuditOnly,
    RansomwareDisabled,
    RansomwareNonWindows,
    TamperActive,
    TamperInactive,
    TamperNonWindows,
    AmsiRegistered,
    AmsiMissing,
    AmsiNonWindows,
    FirewallWindowsOn,
    FirewallWindowsOff,
    FirewallLinuxActive,
    FirewallLinuxInactive,
    FirewallUnsupported,
    BehaviorActive,
    BehaviorDisabled,
    BehaviorNonWindows,
    CloudEnabled(u8),
    CloudDisabled,
    CloudNonWindows,
    NetworkEnabled,
    NetworkAuditOnly,
    NetworkDisabled,
    NetworkNonWindows,
    PuaEnabled,
    PuaAuditOnly,
    PuaDisabled,
    PuaNonWindows,
    CredentialProtected(u8),
    CredentialUnprotected,
    CredentialNonWindows,
    ScriptLoggingEnabled,
    ScriptLoggingDisabled,
    ScriptLoggingNonWindows,
    UsbScanningActive,
    UsbScanningDisabled,
    UsbScanningNonWindows,
    SignaturesFresh(u32),
    SignaturesAged(u32),
    SignaturesOutdated(u32),
    SignatureAgeUnknown,
    SignaturesNonWindows,
}

impl Finding {
    /// The scenario that establishes this finding.
    pub open spec fn scenario(self) -> DefendScenario {
        match self {
            Finding::EicarWriteBlocked => DefendScenario::EicarQuarantine,
            Finding::EicarNotQuarantined => DefendScenario::EicarQuarantine,
            Finding::EicarQuarantined => DefendScenario::EicarQuarantine,
            Finding::RealtimeWindowsActive => DefendScenario::RealtimeProtection,
            Finding::RealtimeWindowsDisabled => DefendScenario::RealtimeProtection,
            Finding::RealtimeLinuxActive => DefendScenario::RealtimeProtection,
            Finding::RealtimeLinuxInactive => DefendScenario::RealtimeProtection,
            Finding::RealtimeUnsupported => DefendScenario::RealtimeProtection,
            Finding::RansomwareEnabled => DefendScenario::RansomwareShield,
            Finding::RansomwareAuditOnly => DefendScenario::RansomwareShield,
            Finding::RansomwareDisabled => DefendScenario::RansomwareShield,
            Finding::RansomwareNonWindows => DefendScenario::RansomwareShield,
            Finding::TamperActive => DefendScenario::TamperProtection,
            Finding::TamperInactive => DefendScenario::TamperProtection,
            Finding::TamperNonWindows => DefendScenario::TamperProtection,
            Finding::AmsiRegistered => DefendScenario::AmsiIntegrity,
            Finding::AmsiMissing => DefendScenario::AmsiIntegrity,
            Finding::AmsiNonWindows => DefendScenario::AmsiIntegrity,
            Finding::FirewallWindowsOn => DefendScenario::FirewallPolicy,
            Finding::FirewallWindowsOff => DefendScenario::FirewallPolicy,
            Finding::FirewallLinuxActive => DefendScenario::FirewallPolicy,
            Finding::FirewallLinuxInactive => DefendScenario::FirewallPolicy,
            Finding::FirewallUnsupported => DefendScenario::FirewallPolicy,
            Finding::BehaviorActive => DefendScenario::BehaviorMonitoring,
            Finding::BehaviorDisabled => DefendScenario::BehaviorMonitoring,
            Finding::BehaviorNonWindows => DefendScenario::BehaviorMonitoring,
            Finding::CloudEnabled(_) => DefendScenario::CloudProtection,
            Finding::CloudDisabled => DefendScenario::CloudProtection,
            Finding::CloudNonWindows => DefendScenario::CloudProtection,
            Finding::NetworkEnabled => DefendScenario::NetworkProtection,
            Finding::NetworkAuditOnly => DefendScenario::NetworkProtection,
            Finding::NetworkDisabled => DefendScenario::NetworkProtection,
            Finding::NetworkNonWindows => DefendScenario::NetworkProtection,
            Finding::PuaEnabled => DefendScenario::PuaProtection,
            Finding::PuaAuditOnly => DefendScenario::PuaProtection,
            Finding::PuaDisabled => DefendScenario::PuaProtection,
            Finding::PuaNonWindows => DefendScenario::PuaProtection,
            Finding::CredentialProtected(_) => DefendScenario::CredentialGuard,
            Finding::CredentialUnprotected => DefendScenario::CredentialGuard,
            Finding::CredentialNonWindows => DefendScenario::CredentialGuard,
            Finding::ScriptLoggingEnabled => DefendScenario::ScriptBlockLogging,
            Finding::ScriptLoggingDisabled => DefendScenario::ScriptBlockLogging,
            Finding::ScriptLoggingNonWindows => DefendScenario::ScriptBlockLogging,
            Finding::UsbScanningActive => DefendScenario::UsbScanning,
            Finding::UsbScanningDisabled => DefendScenario::UsbScanning,
            Finding::UsbScanningNonWindows => DefendScenario::UsbScanning,
            Finding::SignaturesFresh(_) => DefendScenario::SignatureFreshness,
            Finding::SignaturesAged(_) => DefendScenario::SignatureFreshness,
            Finding::SignaturesOutdated(_) => DefendScenario::SignatureFreshness,
            Finding::SignatureAgeUnknown => DefendScenario::SignatureFreshness,
            Finding::SignaturesNonWindows => DefendScenario::SignatureFreshness,
        }
    }

    pub open spec fn spec_verdict(self) -> Verdict {
        match self {
            Finding::EicarWriteBlocked => Verdict::Secure,
            Finding::EicarNotQuarantined => Verdict::Vulnerable,
            Finding::EicarQuarantined => Verdict::Secure,
            Finding::RealtimeWindowsActive => Verdict::Secure,
            Finding::RealtimeWindowsDisabled => Verdict::Vulnerable,
            Finding::RealtimeLinuxActive => Verdict::Secure,
            Finding::RealtimeLinuxInactive => Verdict::Vulnerable,
            Finding::RealtimeUnsupported => Verdict::Error,
            Finding::RansomwareEnabled => Verdict::Secure,
            Finding::RansomwareAuditOnly => Verdict::Warning,
            Finding::RansomwareDisabled => Verdict::Vulnerable,
            Finding::RansomwareNonWindows => Verdict::Secure,
            Finding::TamperActive => Verdict::Secure,
            Finding::TamperInactive => Verdict::Vulnerable,
            Finding::TamperNonWindows => Verdict::Secure,
            Finding::AmsiRegistered => Verdict::Secure,
            Finding::AmsiMissing => Verdict::Vulnerable,
            Finding::AmsiNonWindows => Verdict::Secure,
            Finding::FirewallWindowsOn => Verdict::Secure,
            Finding::FirewallWindowsOff => Verdict::Vulnerable,
            Finding::FirewallLinuxActive => Verdict::Secure,
            Finding::FirewallLinuxInactive => Verdict::Vulnerable,
            Finding::FirewallUnsupported => Verdict::Error,
            Finding::BehaviorActive => Verdict::Secure,
            Finding::BehaviorDisabled => Verdict::Vulnerable,
            Finding::BehaviorNonWindows => Verdict::Secure,
            Finding::CloudEnabled(_) => Verdict::Secure,
            Finding::CloudDisabled => Verdict::Vulnerable,
            Finding::CloudNonWindows => Verdict::Secure,
            Finding::NetworkEnabled => Verdict::Secure,
            Finding::NetworkAuditOnly => Verdict::Warning,
            Finding::NetworkDisabled => Verdict::Vulnerable,
            Finding::NetworkNonWindows => Verdict::Secure,
            Finding::PuaEnabled => Verdict::Secure,
            Finding::PuaAuditOnly => Verdict::Warning,
            Finding::PuaDisabled => Verdict::Vulnerable,
            Finding::PuaNonWindows => Verdict::Secure,
            Finding::CredentialProtected(_) => Verdict::Secure,
            Finding::CredentialUnprotected => Verdict::Vulnerable,
            Finding::CredentialNonWindows => Verdict::Secure,
            Finding::ScriptLoggingEnabled => Verdict::Secure,
            Finding::ScriptLoggingDisabled => Verdict::Vulnerable,
            Finding::ScriptLoggingNonWindows => Verdict::Secure,
            Finding::UsbScanningActive => Verdict::Secure,
            Finding::UsbScanningDisabled => Verdict::Vulnerable,
            Finding::UsbScanningNonWindows => Verdict::Secure,
            Finding::SignaturesFresh(_) => Verdict::Secure,
            Finding::SignaturesAged(_) => Verdict::Warning,
            Finding::SignaturesOutdated(_) => Verdict::Vulnerable,
            Finding::SignatureAgeUnknown => Verdict::Warning,
            Finding::SignaturesNonWindows => Verdict::Secure,
        }
    }

    pub open spec fn spec_findings_en(self) -> Seq<char> {
        match self {
            Finding::EicarWriteBlocked => "File write blocked immediately by active antivirus on-access scanner."@,
            Finding::EicarNotQuarantined => "EICAR test string was created on disk and NOT quarantined by real-time protection."@,
            Finding::EicarQuarantined => "File was successfully intercepted and deleted/quarantined by active antivirus."@,
            Finding::RealtimeWindowsActive => "Windows Defender Real-Time Protection is confirmed ACTIVE."@,
            Finding::RealtimeWindowsDisabled => "Real-Time Antivirus Monitoring is currently DISABLED or unmonitored."@,
            Finding::RealtimeLinuxActive => "ClamAV daemon service is active and monitoring filesystem operations."@,
            Finding::RealtimeLinuxInactive => "clamav-daemon is inactive or not configured."@,
            Finding::RealtimeUnsupported => "Unsupported OS platform."@,
            Finding::RansomwareEnabled => "Anti-Ransomware Controlled Folder Access is ENABLED and actively blocking unauthorized modifications."@,
            Finding::RansomwareAuditOnly => "Controlled Folder Access is in Audit Mode only (telemetry without active blocking)."@,
            Finding::RansomwareDisabled => "Controlled Folder Access is DISABLED. User folders are unprotected against bulk unauthorized encryption."@,
            Finding::RansomwareNonWindows => "POSIX immutable filesystem attributes or snapshots verified on host."@,
            Finding::TamperActive => "Tamper Protection is ACTIVE. Security settings cannot be modified by unverified processes."@,
            Finding::TamperInactive => "Tamper Protection is INACTIVE. Malicious scripts could attempt to disable antivirus engines via registry."@,
            Finding::TamperNonWindows => "Linux systemd unit file immutability verified."@,
            Finding::AmsiRegistered => "AMSI providers registry hive exists and is actively monitoring PowerShell and script hosts."@,
            Finding::AmsiMissing => "AMSI provider registration is missing or corrupted. In-memory scripts may bypass inspection."@,
            Finding::AmsiNonWindows => "Linux PAM & AppArmor script sandbox integrity confirmed."@,
            Finding::FirewallWindowsOn => "Windows Firewall is confirmed ON across network profiles."@,
            Finding::FirewallWindowsOff => "Windows Firewall is DISABLED on one or more profiles, exposing open ports."@,
            Finding::FirewallLinuxActive => "UFW Linux host firewall is ACTIVE with default deny policy."@,
            Finding::FirewallLinuxInactive => "UFW Linux host firewall is INACTIVE."@,
            Finding::FirewallUnsupported => "Unsupported platform."@,
            Finding::BehaviorActive => "Behavioral and heuristic real-time process monitoring is ACTIVE."@,
            Finding::BehaviorDisabled => "Behavioral process monitoring is DISABLED. In-memory fileless attacks may evade detection."@,
            Finding::BehaviorNonWindows => "Host kernel audit subsystem active."@,
            Finding::CloudEnabled(v) => "Cloud-delivered protection is ENABLED (Level: "@ + decimal(v as nat) + "). Near-instant zero-day blocking active."@,
            Finding::CloudDisabled => "Cloud-Delivered Protection is DISABLED. New zero-day variants cannot be blocked in real-time."@,
            Finding::CloudNonWindows => "Upstream security repository mirror synchronization confirmed."@,
            Finding::NetworkEnabled => "Network Protection is ENABLED. Outbound connections to malicious phishing/C2 domains are blocked."@,
            Finding::NetworkAuditOnly => "Network Protection is in Audit Mode only (logging without active blocking)."@,
            Finding::NetworkDisabled => "Network Protection is DISABLED. Host is unshielded against malicious domain callbacks."@,
            Finding::NetworkNonWindows => "Host DNSSEC resolution and outbound egress filters validated."@,
            Finding::PuaEnabled => "PUA Protection is ENABLED. Adware, torrent clients, and unauthorized cryptominers are blocked."@,
            Finding::PuaAuditOnly => "PUA Protection is in Audit mode only."@,
            Finding::PuaDisabled => "PUA Protection is DISABLED. Bundled adware and unauthorized background utilities can execute freely."@,
            Finding::PuaNonWindows => "Package manager signature and integrity checks active."@,
            Finding::CredentialProtected(v) => "LSASS process is running as Protected Process Light (RunAsPPL="@ + decimal(v as nat) + "). Memory dumps blocked."@,
            Finding::CredentialUnprotected => "LSASS RunAsPPL protection is DISABLED or missing. LSASS process memory is vulnerable to unauthorized dumping."@,
            Finding::CredentialNonWindows => "Linux ptrace scope restricts cross-process memory inspection."@,
            Finding::ScriptLoggingEnabled => "PowerShell Script Block Logging is ENABLED. Deobfuscated script code is recorded for EDR/SIEM."@,
            Finding::ScriptLoggingDisabled => "Script Block Logging is DISABLED. Obfuscated fileless scripts can execute without full telemetry trace."@,
            Finding::ScriptLoggingNonWindows => "Shell command logging (auditd/syslog) active."@,
            Finding::UsbScanningActive => "Removable Drive Scanning is ACTIVE. Inserted USB drives and external storage are inspected."@,
            Finding::UsbScanningDisabled => "Removable drive scanning is DISABLED. External USB flash drives bypass automatic antivirus inspection."@,
            Finding::UsbScanningNonWindows => "Linux udev removable media mount security policy confirmed."@,
            Finding::SignaturesFresh(v) => "Antivirus signatures are UP TO DATE (Age: "@ + decimal(v as nat) + " day(s)). Latest malware definitions installed."@,
            Finding::SignaturesAged(v) => "Signatures are moderately aged (Age: "@ + decimal(v as nat) + " days). Update recommended for zero-day protection."@,
            Finding::SignaturesOutdated(v) => "Antivirus signatures are OUTDATED (Age: "@ + decimal(v as nat) + " days). Host is exposed to recent malware campaigns."@,
            Finding::SignatureAgeUnknown => "Unable to query signature age directly or definitions not installed."@,
            Finding::SignaturesNonWindows => "ClamAV signature mirror timestamp verified."@,
        }
    }

    pub open spec fn spec_findings_fr(self) -> Seq<char> {
        match self {
            Finding::EicarWriteBlocked => "Écriture du fichier bloquée immédiatement par le moniteur d'accès antivirus."@,
            Finding::EicarNotQuarantined => "Le fichier de test EICAR a été écrit sur disque sans être neutralisé par l'antivirus."@,
            Finding::EicarQuarantined => "Le fichier a été intercepté et mis en quarantaine avec succès par l'antivirus."@,
            Finding::RealtimeWindowsActive => "La protection en temps réel de Windows Defender est confirmée ACTIVE."@,
            Finding::RealtimeWindowsDisabled => "La protection antivirus en temps réel est actuellement DÉSACTIVÉE."@,
            Finding::RealtimeLinuxActive => "Le service clamav-daemon est actif et surveille le système de fichiers."@,
            Finding::RealtimeLinuxInactive => "Le service clamav-daemon est inactif ou non configuré."@,
            Finding::RealtimeUnsupported => "Système d'exploitation non pris en charge."@,
            Finding::RansomwareEnabled => "L'accès contrôlé aux dossiers anti-ransomware est ACTIVÉ et bloque les altérations."@,
            Finding::RansomwareAuditOnly => "L'accès contrôlé aux dossiers est en mode Audit seul (télémétrie sans blocage actif)."@,
            Finding::RansomwareDisabled => "L'accès contrôlé aux dossiers est DÉSACTIVÉ. Les dossiers sont exposés au chiffrement non autorisé."@,
            Finding::RansomwareNonWindows => "Attributs immuables POSIX ou snapshots système vérifiés sur l'hôte."@,
            Finding::TamperActive => "La protection contre les altérations est ACTIVE. Les paramètres de sécurité sont verrouillés."@,
            Finding::TamperInactive => "La protection contre les altérations est INACTIVE. Des scripts malveillants pourraient couper l'antivirus."@,
            Finding::TamperNonWindows => "Immuabilité des unités systemd Linux vérifiée."@,
            Finding::AmsiRegistered => "La ruche des fournisseurs AMSI est présente et surveille activement les scripts en mémoire."@,
            Finding::AmsiMissing => "L'enregistrement du fournisseur AMSI est manquant ou altéré. Les scripts mémoire ne sont pas inspectés."@,
            Finding::AmsiNonWindows => "Intégrité du sandbox de scripts PAM & AppArmor confirmée."@,
            Finding::FirewallWindowsOn => "Le pare-feu Windows est confirmé ACTIF sur tous les profils réseau."@,
            Finding::FirewallWindowsOff => "Le pare-feu Windows est DÉSACTIVÉ sur un ou plusieurs profils, exposant les ports."@,
            Finding::FirewallLinuxActive => "Le pare-feu Linux UFW est ACTIF avec politique de refus par défaut."@,
            Finding::FirewallLinuxInactive => "Le pare-feu Linux UFW est INACTIF."@,
            Finding::FirewallUnsupported => "Plateforme non supportée."@,
            Finding::BehaviorActive => "La surveillance comportementale et heuristique des processus est ACTIVE."@,
            Finding::BehaviorDisabled => "La surveillance comportementale est DÉSACTIVÉE. Les attaques en mémoire sans fichier peuvent échapper à la détection."@,
            Finding::BehaviorNonWindows => "Sous-système d'audit du noyau hôte actif."@,
            Finding::CloudEnabled(v) => "Protection délivrée par le cloud ACTIVÉE (Niveau: "@ + decimal(v as nat) + "). Blocage zero-day quasi-instantané actif."@,
            Finding::CloudDisabled => "La protection cloud est DÉSACTIVÉE. Les nouveaux variants zero-day ne peuvent être bloqués en temps réel."@,
            Finding::CloudNonWindows => "Synchronisation des miroirs de sécurité en amont confirmée."@,
            Finding::NetworkEnabled => "La Protection Réseau est ACTIVÉE. Les flux sortants vers les domaines C2 et malveillants sont bloqués."@,
            Finding::NetworkAuditOnly => "La Protection Réseau est en mode Audit uniquement (journalisation sans blocage actif)."@,
            Finding::NetworkDisabled => "La Protection Réseau est DÉSACTIVÉE. L'hôte n'est pas protégé contre les communications vers des domaines malveillants."@,
            Finding::NetworkNonWindows => "Résolution DNSSEC et filtrage sortant de l'hôte validés."@,
            Finding::PuaEnabled => "La Protection PUA est ACTIVÉE. Les adwares, outils torrent et mineurs illicites sont bloqués."@,
            Finding::PuaAuditOnly => "La Protection PUA est en mode Audit seul."@,
            Finding::PuaDisabled => "La Protection PUA est DÉSACTIVÉE. Les logiciels publicitaires et utilitaires parasites peuvent s'exécuter."@,
            Finding::PuaNonWindows => "Vérification des signatures et de l'intégrité des paquets active."@,
            Finding::CredentialProtected(v) => "Le processus LSASS s'exécute en Processus Protégé (RunAsPPL="@ + decimal(v as nat) + "). Dumps mémoire bloqués."@,
            Finding::CredentialUnprotected => "La protection LSASS RunAsPPL est DÉSACTIVÉE ou absente. La mémoire de LSASS est exposée aux attaques par dump."@,
            Finding::CredentialNonWindows => "Le périmètre ptrace Linux restreint l'inspection mémoire inter-processus."@,
            Finding::ScriptLoggingEnabled => "La journalisation des blocs de script PowerShell est ACTIVÉE. Les scripts désobfusqués sont tracés pour l'EDR/SIEM."@,
            Finding::ScriptLoggingDisabled => "La journalisation des blocs de script est DÉSACTIVÉE. Les scripts obfusqués s'exécutent sans trace télémétrique complète."@,
            Finding::ScriptLoggingNonWindows => "Journalisation des commandes shell (auditd/syslog) active."@,
            Finding::UsbScanningActive => "L'analyse des lecteurs amovibles est ACTIVE. Les clés USB et supports externes sont inspectés."@,
            Finding::UsbScanningDisabled => "L'analyse des lecteurs amovibles est DÉSACTIVÉE. Les clés USB contournent l'analyse antivirus automatique."@,
            Finding::UsbScanningNonWindows => "Politique de sécurité de montage des médias amovibles udev confirmée."@,
            Finding::SignaturesFresh(v) => "Les bases virales sont À JOUR (Ancienneté : "@ + decimal(v as nat) + " jour(s)). Définitions récentes installées."@,
            Finding::SignaturesAged(v) => "Signatures moyennement récentes (Ancienneté : "@ + decimal(v as nat) + " jours). Mise à jour recommandée."@,
            Finding::SignaturesOutdated(v) => "Bases virales OBSOLÈTES (Ancienneté : "@ + decimal(v as nat) + " jours). L'hôte est vulnérable aux menaces récentes."@,
            Finding::SignatureAgeUnknown => "Impossible de déterminer l'âge des signatures ou définitions non installées."@,
            Finding::SignaturesNonWindows => "Horodatage du miroir de signatures ClamAV vérifié."@,
        }
    }

    pub open spec fn spec_remedy_en(self) -> Seq<char> {
        match self {
            Finding::EicarWriteBlocked => "Antivirus protection is already active."@,
            Finding::EicarNotQuarantined => "Deploy & Enable System Real-Time Antivirus Protection Shield"@,
            Finding::EicarQuarantined => "Antivirus protection verified active."@,
            Finding::RealtimeWindowsActive => "System is compliant."@,
            Finding::RealtimeWindowsDisabled => "Enable Antivirus Real-Time Monitoring Shield"@,
            Finding::RealtimeLinuxActive => "System is compliant."@,
            Finding::RealtimeLinuxInactive => "Install and start ClamAV background daemon"@,
            Finding::RealtimeUnsupported => "N/A"@,
            Finding::RansomwareEnabled => "Protected folders are secure."@,
            Finding::RansomwareAuditOnly => "Switch Anti-Ransomware Shield to Full Enforcement Mode"@,
            Finding::RansomwareDisabled => "Enable Controlled Folder Access Anti-Ransomware Protection"@,
            Finding::RansomwareNonWindows => "System is compliant."@,
            Finding::TamperActive => "Configuration is locked."@,
            Finding::TamperInactive => "Open Windows Security Center to Enable Tamper Protection"@,
            Finding::TamperNonWindows => "System is compliant."@,
            Finding::AmsiRegistered => "AMSI is operational."@,
            Finding::AmsiMissing => "Repair AMSI Provider Registration via System File Checker"@,
            Finding::AmsiNonWindows => "System is compliant."@,
            Finding::FirewallWindowsOn => "Firewall is active."@,
            Finding::FirewallWindowsOff => "Enable Windows Firewall on all network profiles"@,
            Finding::FirewallLinuxActive => "Firewall is active."@,
            Finding::FirewallLinuxInactive => "Enable UFW firewall service"@,
            Finding::FirewallUnsupported => "N/A"@,
            Finding::BehaviorActive => "Behavior monitor is active."@,
            Finding::BehaviorDisabled => "Enable Antivirus Behavioral Process Monitoring"@,
            Finding::BehaviorNonWindows => "Compliant."@,
            Finding::CloudEnabled(_) => "Cloud protection is active."@,
            Finding::CloudDisabled => "Enable Advanced Cloud-Delivered Protection (MAPS)"@,
            Finding::CloudNonWindows => "Compliant."@,
            Finding::NetworkEnabled => "Network shield is active."@,
            Finding::NetworkAuditOnly => "Switch Network Protection to Full Blocking Mode"@,
            Finding::NetworkDisabled => "Enable Network Protection (Exploit Guard)"@,
            Finding::NetworkNonWindows => "Compliant."@,
            Finding::PuaEnabled => "PUA shield is active."@,
            Finding::PuaAuditOnly => "Switch PUA Shield to Full Blocking Mode"@,
            Finding::PuaDisabled => "Enable PUA (Potentially Unwanted Application) Blocking"@,
            Finding::PuaNonWindows => "Compliant."@,
            Finding::CredentialProtected(_) => "LSASS memory is protected."@,
            Finding::CredentialUnprotected => "Enable LSASS Protected Process Light (RunAsPPL=1)"@,
            Finding::CredentialNonWindows => "Compliant."@,
            Finding::ScriptLoggingEnabled => "Script logging is active."@,
            Finding::ScriptLoggingDisabled => "Enable PowerShell Script Block Logging Policy (EID 4104)"@,
            Finding::ScriptLoggingNonWindows => "Compliant."@,
            Finding::UsbScanningActive => "USB scanning is active."@,
            Finding::UsbScanningDisabled => "Enable Automatic Antivirus Scanning on Removable Drives"@,
            Finding::UsbScanningNonWindows => "Compliant."@,
            Finding::SignaturesFresh(_) => "Signatures are fresh."@,
            Finding::SignaturesAged(_) => "Update Antivirus Signature Definitions"@,
            Finding::SignaturesOutdated(_) => "Force Immediate Antivirus Signature Database Update"@,
            Finding::SignatureAgeUnknown => "Trigger Antivirus Signature Update"@,
            Finding::SignaturesNonWindows => "Compliant."@,
        }
    }

    pub open spec fn spec_remedy_fr(self) -> Seq<char> {
        match self {
            Finding::EicarWriteBlocked => "La protection antivirus est déjà active."@,
            Finding::EicarNotQuarantined => "Déployer & Activer le Bouclier de Protection Antivirus en Temps Réel"@,
            Finding::EicarQuarantined => "Protection antivirus vérifiée et active."@,
            Finding::RealtimeWindowsActive => "Le système est conforme."@,
            Finding::RealtimeWindowsDisabled => "Activer le Bouclier de Surveillance Antivirus en Temps Réel"@,
            Finding::RealtimeLinuxActive => "Le système est conforme."@,
            Finding::RealtimeLinuxInactive => "Installer et démarrer le démon en arrière-plan ClamAV"@,
            Finding::RealtimeUnsupported => "N/A"@,
            Finding::RansomwareEnabled => "Les dossiers protégés sont sécurisés."@,
            Finding::RansomwareAuditOnly => "Basculer le Bouclier Anti-Ransomware en mode Blocage Actif"@,
            Finding::RansomwareDisabled => "Activer la Protection Anti-Ransomware par Accès Contrôlé aux Dossiers"@,
            Finding::RansomwareNonWindows => "Le système est conforme."@,
            Finding::TamperActive => "La configuration est verrouillée."@,
            Finding::TamperInactive => "Ouvrir le Centre de Sécurité pour Activer la Protection contre les Altérations"@,
            Finding::TamperNonWindows => "Le système est conforme."@,
            Finding::AmsiRegistered => "L'AMSI est opérationnel."@,
            Finding::AmsiMissing => "Réparer l'Enregistrement du Fournisseur AMSI via SFC"@,
            Finding::AmsiNonWindows => "Le système est conforme."@,
            Finding::FirewallWindowsOn => "Le pare-feu est actif."@,
            Finding::FirewallWindowsOff => "Activer le pare-feu Windows sur tous les profils réseau"@,
            Finding::FirewallLinuxActive => "Le pare-feu est actif."@,
            Finding::FirewallLinuxInactive => "Activer le service de pare-feu UFW"@,
            Finding::FirewallUnsupported => "N/A"@,
            Finding::BehaviorActive => "La surveillance comportementale est active."@,
            Finding::BehaviorDisabled => "Activer la Surveillance Comportementale des Processus"@,
            Finding::BehaviorNonWindows => "Conforme."@,
            Finding::CloudEnabled(_) => "La protection cloud est active."@,
            Finding::CloudDisabled => "Activer la Protection Avancée par le Cloud (MAPS)"@,
            Finding::CloudNonWindows => "Conforme."@,
            Finding::NetworkEnabled => "Le bouclier réseau est actif."@,
            Finding::NetworkAuditOnly => "Basculer la Protection Réseau en Mode Blocage Actif"@,
            Finding::NetworkDisabled => "Activer la Protection Réseau (Exploit Guard)"@,
            Finding::NetworkNonWindows => "Conforme."@,
            Finding::PuaEnabled => "Le bouclier PUA est actif."@,
            Finding::PuaAuditOnly => "Basculer le Bouclier PUA en Mode Blocage Actif"@,
            Finding::PuaDisabled => "Activer le Blocage des Applications Indésirables (PUA)"@,
            Finding::PuaNonWindows => "Conforme."@,
            Finding::CredentialProtected(_) => "La mémoire de LSASS est protégée."@,
            Finding::CredentialUnprotected => "Activer la Protection de Processus LSASS (RunAsPPL=1)"@,
            Finding::CredentialNonWindows => "Conforme."@,
            Finding::ScriptLoggingEnabled => "La journalisation des scripts est active."@,
            Finding::ScriptLoggingDisabled => "Activer la Politique de Journalisation des Scripts PowerShell (EID 4104)"@,
            Finding::ScriptLoggingNonWindows => "Conforme."@,
            Finding::UsbScanningActive => "L'analyse USB est active."@,
            Finding::UsbScanningDisabled => "Activer l'Analyse Antivirus Automatique des Supports Amovibles"@,
            Finding::UsbScanningNonWindows => "Conforme."@,
            Finding::SignaturesFresh(_) => "Les signatures sont à jour."@,
            Finding::SignaturesAged(_) => "Mettre à Jour la Base de Signatures Antivirus"@,
            Finding::SignaturesOutdated(_) => "Forcer la Mise à Jour Immédiate de la Base Antivirus"@,
            Finding::SignatureAgeUnknown => "Déclencher la Mise à Jour des Signatures Antivirus"@,
            Finding::SignaturesNonWindows => "Conforme."@,
        }
    }

    pub fn scenario_of(&self) -> (r: DefendScenario)
        ensures
            r == self.scenario(),
    {
        match self {
            Finding::EicarWriteBlocked => DefendScenario::EicarQuarantine,
            Finding::EicarNotQuarantined => DefendScenario::EicarQuarantine,
            Finding::EicarQuarantined => DefendScenario::EicarQuarantine,
            Finding::RealtimeWindowsActive => DefendScenario::RealtimeProtection,
            Finding::RealtimeWindowsDisabled => DefendScenario::RealtimeProtection,
            Finding::RealtimeLinuxActive => DefendScenario::RealtimeProtection,
            Finding::RealtimeLinuxInactive => DefendScenario::RealtimeProtection,
            Finding::RealtimeUnsupported => DefendScenario::RealtimeProtection,
            Finding::RansomwareEnabled => DefendScenario::RansomwareShield,
            Finding::RansomwareAuditOnly => DefendScenario::RansomwareShield,
            Finding::RansomwareDisabled => DefendScenario::RansomwareShield,
            Finding::RansomwareNonWindows => DefendScenario::RansomwareShield,
            Finding::TamperActive => DefendScenario::TamperProtection,
            Finding::TamperInactive => DefendScenario::TamperProtection,
            Finding::TamperNonWindows => DefendScenario::TamperProtection,
            Finding::AmsiRegistered => DefendScenario::AmsiIntegrity,
            Finding::AmsiMissing => DefendScenario::AmsiIntegrity,
            Finding::AmsiNonWindows => DefendScenario::AmsiIntegrity,
            Finding::FirewallWindowsOn => DefendScenario::FirewallPolicy,
            Finding::FirewallWindowsOff => DefendScenario::FirewallPolicy,
            Finding::FirewallLinuxActive => DefendScenario::FirewallPolicy,
            Finding::FirewallLinuxInactive => DefendScenario::FirewallPolicy,
            Finding::FirewallUnsupported => DefendScenario::FirewallPolicy,
            Finding::BehaviorActive => DefendScenario::BehaviorMonitoring,
            Finding::BehaviorDisabled => DefendScenario::BehaviorMonitoring,
            Finding::BehaviorNonWindows => DefendScenario::BehaviorMonitoring,
            Finding::CloudEnabled(_) => DefendScenario::CloudProtection,
            Finding::CloudDisabled => DefendScenario::CloudProtection,
            Finding::CloudNonWindows => DefendScenario::CloudProtection,
            Finding::NetworkEnabled => DefendScenario::NetworkProtection,
            Finding::NetworkAuditOnly => DefendScenario::NetworkProtection,
            Finding::NetworkDisabled => DefendScenario::NetworkProtection,
            Finding::NetworkNonWindows => DefendScenario::NetworkProtection,
            Finding::PuaEnabled => DefendScenario::PuaProtection,
            Finding::PuaAuditOnly => DefendScenario::PuaProtection,
            Finding::PuaDisabled => DefendScenario::PuaProtection,
            Finding::PuaNonWindows => DefendScenario::PuaProtection,
            Finding::CredentialProtected(_) => DefendScenario::CredentialGuard,
            Finding::CredentialUnprotected => DefendScenario::CredentialGuard,
            Finding::CredentialNonWindows => DefendScenario::CredentialGuard,
            Finding::ScriptLoggingEnabled => DefendScenario::ScriptBlockLogging,
            Finding::ScriptLoggingDisabled => DefendScenario::ScriptBlockLogging,
            Finding::ScriptLoggingNonWindows => DefendScenario::ScriptBlockLogging,
            Finding::UsbScanningActive => DefendScenario::UsbScanning,
            Finding::UsbScanningDisabled => DefendScenario::UsbScanning,
            Finding::UsbScanningNonWindows => DefendScenario::UsbScanning,
            Finding::SignaturesFresh(_) => DefendScenario::SignatureFreshness,
            Finding::SignaturesAged(_) => DefendScenario::SignatureFreshness,
            Finding::SignaturesOutdated(_) => DefendScenario::SignatureFreshness,
            Finding::SignatureAgeUnknown => DefendScenario::SignatureFreshness,
            Finding::SignaturesNonWindows => DefendScenario::SignatureFreshness,
        }
    }

    pub fn verdict(&self) -> (r: Verdict)
        ensures
            r == self.spec_verdict(),
    {
        match self {
            Finding::EicarWriteBlocked => Verdict::Secure,
            Finding::EicarNotQuarantined => Verdict::Vulnerable,
            Finding::EicarQuarantined => Verdict::Secure,
            Finding::RealtimeWindowsActive => Verdict::Secure,
            Finding::RealtimeWindowsDisabled => Verdict::Vulnerable,
            Finding::RealtimeLinuxActive => Verdict::Secure,
            Finding::RealtimeLinuxInactive => Verdict::Vulnerable,
            Finding::RealtimeUnsupported => Verdict::Error,
            Finding::RansomwareEnabled => Verdict::Secure,
            Finding::RansomwareAuditOnly => Verdict::Warning,
            Finding::RansomwareDisabled => Verdict::Vulnerable,
            Finding::RansomwareNonWindows => Verdict::Secure,
            Finding::TamperActive => Verdict::Secure,
            Finding::TamperInactive => Verdict::Vulnerable,
            Finding::TamperNonWindows => Verdict::Secure,
            Finding::AmsiRegistered => Verdict::Secure,
            Finding::AmsiMissing => Verdict::Vulnerable,
            Finding::AmsiNonWindows => Verdict::Secure,
            Finding::FirewallWindowsOn => Verdict::Secure,
            Finding::FirewallWindowsOff => Verdict::Vulnerable,
            Finding::FirewallLinuxActive => Verdict::Secure,
            Finding::FirewallLinuxInactive => Verdict::Vulnerable,
            Finding::FirewallUnsupported => Verdict::Error,
            Finding::BehaviorActive => Verdict::Secure,
            Finding::BehaviorDisabled => Verdict::Vulnerable,
            Finding::BehaviorNonWindows => Verdict::Secure,
            Finding::CloudEnabled(_) => Verdict::Secure,
            Finding::CloudDisabled => Verdict::Vulnerable,
            Finding::CloudNonWindows => Verdict::Secure,
            Finding::NetworkEnabled => Verdict::Secure,
            Finding::NetworkAuditOnly => Verdict::Warning,
            Finding::NetworkDisabled => Verdict::Vulnerable,
            Finding::NetworkNonWindows => Verdict::Secure,
            Finding::PuaEnabled => Verdict::Secure,
            Finding::PuaAuditOnly => Verdict::Warning,
            Finding::PuaDisabled => Verdict::Vulnerable,
            Finding::PuaNonWindows => Verdict::Secure,
            Finding::CredentialProtected(_) => Verdict::Secure,
            Finding::CredentialUnprotected => Verdict::Vulnerable,
            Finding::CredentialNonWindows => Verdict::Secure,
            Finding::ScriptLoggingEnabled => Verdict::Secure,
            Finding::ScriptLoggingDisabled => Verdict::Vulnerable,
            Finding::ScriptLoggingNonWindows => Verdict::Secure,
            Finding::UsbScanningActive => Verdict::Secure,
            Finding::UsbScanningDisabled => Verdict::Vulnerable,
            Finding::UsbScanningNonWindows => Verdict::Secure,
            Finding::SignaturesFresh(_) => Verdict::Secure,
            Finding::SignaturesAged(_) => Verdict::Warning,
            Finding::SignaturesOutdated(_) => Verdict::Vulnerable,
            Finding::SignatureAgeUnknown => Verdict::Warning,
            Finding::SignaturesNonWindows => Verdict::Secure,
        }
    }

    pub fn findings_en_text(&self) -> (r: String)
        ensures
            r@ == self.spec_findings_en(),
    {
        match self {
            Finding::EicarWriteBlocked => owned("File write blocked immediately by active antivirus on-access scanner."),
            Finding::EicarNotQuarantined => owned("EICAR test string was created on disk and NOT quarantined by real-time protection."),
            Finding::EicarQuarantined => owned("File was successfully intercepted and deleted/quarantined by active antivirus."),
            Finding::RealtimeWindowsActive => owned("Windows Defender Real-Time Protection is confirmed ACTIVE."),
            Finding::RealtimeWindowsDisabled => owned("Real-Time Antivirus Monitoring is currently DISABLED or unmonitored."),
            Finding::RealtimeLinuxActive => owned("ClamAV daemon service is active and monitoring filesystem operations."),
            Finding::RealtimeLinuxInactive => owned("clamav-daemon is inactive or not configured."),
            Finding::RealtimeUnsupported => owned("Unsupported OS platform."),
            Finding::RansomwareEnabled => owned("Anti-Ransomware Controlled Folder Access is ENABLED and actively blocking unauthorized modifications."),
            Finding::RansomwareAuditOnly => owned("Controlled Folder Access is in Audit Mode only (telemetry without active blocking)."),
            Finding::RansomwareDisabled => owned("Controlled Folder Access is DISABLED. User folders are unprotected against bulk unauthorized encryption."),
            Finding::RansomwareNonWindows => owned("POSIX immutable filesystem attributes or snapshots verified on host."),
            Finding::TamperActive => owned("Tamper Protection is ACTIVE. Security settings cannot be modified by unverified processes."),
            Finding::TamperInactive => owned("Tamper Protection is INACTIVE. Malicious scripts could attempt to disable antivirus engines via registry."),
            Finding::TamperNonWindows => owned("Linux systemd unit file immutability verified."),
            Finding::AmsiRegistered => owned("AMSI providers registry hive exists and is actively monitoring PowerShell and script hosts."),
            Finding::AmsiMissing => owned("AMSI provider registration is missing or corrupted. In-memory scripts may bypass inspection."),
            Finding::AmsiNonWindows => owned("Linux PAM & AppArmor script sandbox integrity confirmed."),
            Finding::FirewallWindowsOn => owned("Windows Firewall is confirmed ON across network profiles."),
            Finding::FirewallWindowsOff => owned("Windows Firewall is DISABLED on one or more profiles, exposing open ports."),
            Finding::FirewallLinuxActive => owned("UFW Linux host firewall is ACTIVE with default deny policy."),
            Finding::FirewallLinuxInactive => owned("UFW Linux host firewall is INACTIVE."),
            Finding::FirewallUnsupported => owned("Unsupported platform."),
            Finding::BehaviorActive => owned("Behavioral and heuristic real-time process monitoring is ACTIVE."),
            Finding::BehaviorDisabled => owned("Behavioral process monitoring is DISABLED. In-memory fileless attacks may evade detection."),
            Finding::BehaviorNonWindows => owned("Host kernel audit subsystem active."),
            Finding::CloudEnabled(v) => {
                let mut s = owned("Cloud-delivered protection is ENABLED (Level: ");
                push_decimal(&mut s, *v as u128);
                push_str(&mut s, "). Near-instant zero-day blocking active.");
                s
            },
            Finding::CloudDisabled => owned("Cloud-Delivered Protection is DISABLED. New zero-day variants cannot be blocked in real-time."),
            Finding::CloudNonWindows => owned("Upstream security repository mirror synchronization confirmed."),
            Finding::NetworkEnabled => owned("Network Protection is ENABLED. Outbound connections to malicious phishing/C2 domains are blocked."),
            Finding::NetworkAuditOnly => owned("Network Protection is in Audit Mode only (logging without active blocking)."),
            Finding::NetworkDisabled => owned("Network Protection is DISABLED. Host is unshielded against malicious domain callbacks."),
            Finding::NetworkNonWindows => owned("Host DNSSEC resolution and outbound egress filters validated."),
            Finding::PuaEnabled => owned("PUA Protection is ENABLED. Adware, torrent clients, and unauthorized cryptominers are blocked."),
            Finding::PuaAuditOnly => owned("PUA Protection is in Audit mode only."),
            Finding::PuaDisabled => owned("PUA Protection is DISABLED. Bundled adware and unauthorized background utilities can execute freely."),
            Finding::PuaNonWindows => owned("Package manager signature and integrity checks active."),
            Finding::CredentialProtected(v) => {
                let mut s = owned("LSASS process is running as Protected Process Light (RunAsPPL=");
                push_decimal(&mut s, *v as u128);
                push_str(&mut s, "). Memory dumps blocked.");
                s
            },
            Finding::CredentialUnprotected => owned("LSASS RunAsPPL protection is DISABLED or missing. LSASS process memory is vulnerable to unauthorized dumping."),
            Finding::CredentialNonWindows => owned("Linux ptrace scope restricts cross-process memory inspection."),
            Finding::ScriptLoggingEnabled => owned("PowerShell Script Block Logging is ENABLED. Deobfuscated script code is recorded for EDR/SIEM."),
            Finding::ScriptLoggingDisabled => owned("Script Block Logging is DISABLED. Obfuscated fileless scripts can execute without full telemetry trace."),
            Finding::ScriptLoggingNonWindows => owned("Shell command logging (auditd/syslog) active."),
            Finding::UsbScanningActive => owned("Removable Drive Scanning is ACTIVE. Inserted USB drives and external storage are inspected."),
            Finding::UsbScanningDisabled => owned("Removable drive scanning is DISABLED. External USB flash drives bypass automatic antivirus inspection."),
            Finding::UsbScanningNonWindows => owned("Linux udev removable media mount security policy confirmed."),
            Finding::SignaturesFresh(v) => {
                let mut s = owned("Antivirus signatures are UP TO DATE (Age: ");
                push_decimal(&mut s, *v as u128);
                push_str(&mut s, " day(s)). Latest malware definitions installed.");
                s
            },
            Finding::SignaturesAged(v) => {
                let mut s = owned("Signatures are moderately aged (Age: ");
                push_decimal(&mut s, *v as u128);
                push_str(&mut s, " days). Update recommended for zero-day protection.");
                s
            },
            Finding::SignaturesOutdated(v) => {
                let mut s = owned("Antivirus signatures are OUTDATED (Age: ");
                push_decimal(&mut s, *v as u128);
                push_str(&mut s, " days). Host is exposed to recent malware campaigns.");
                s
            },
            Finding::SignatureAgeUnknown => owned("Unable to query signature age directly or definitions not installed."),
            Finding::SignaturesNonWindows => owned("ClamAV signature mirror timestamp verified."),
        }
    }

    pub fn findings_fr_text(&self) -> (r: String)
        ensures
            r@ == self.spec_findings_fr(),
    {
        match self {
            Finding::EicarWriteBlocked => owned("Écriture du fichier bloquée immédiatement par le moniteur d'accès antivirus."),
            Finding::EicarNotQuarantined => owned("Le fichier de test EICAR a été écrit sur disque sans être neutralisé par l'antivirus."),
            Finding::EicarQuarantined => owned("Le fichier a été intercepté et mis en quarantaine avec succès par l'antivirus."),
            Finding::RealtimeWindowsActive => owned("La protection en temps réel de Windows Defender est confirmée ACTIVE."),
            Finding::RealtimeWindowsDisabled => owned("La protection antivirus en temps réel est actuellement DÉSACTIVÉE."),
            Finding::RealtimeLinuxActive => owned("Le service clamav-daemon est actif et surveille le système de fichiers."),
            Finding::RealtimeLinuxInactive => owned("Le service clamav-daemon est inactif ou non configuré."),
            Finding::RealtimeUnsupported => owned("Système d'exploitation non pris en charge."),
            Finding::RansomwareEnabled => owned("L'accès contrôlé aux dossiers anti-ransomware est ACTIVÉ et bloque les altérations."),
            Finding::RansomwareAuditOnly => owned("L'accès contrôlé aux dossiers est en mode Audit seul (télémétrie sans blocage actif)."),
            Finding::RansomwareDisabled => owned("L'accès contrôlé aux dossiers est DÉSACTIVÉ. Les dossiers sont exposés au chiffrement non autorisé."),
            Finding::RansomwareNonWindows => owned("Attributs immuables POSIX ou snapshots système vérifiés sur l'hôte."),
            Finding::TamperActive => owned("La protection contre les altérations est ACTIVE. Les paramètres de sécurité sont verrouillés."),
            Finding::TamperInactive => owned("La protection contre les altérations est INACTIVE. Des scripts malveillants pourraient couper l'antivirus."),
            Finding::TamperNonWindows => owned("Immuabilité des unités systemd Linux vérifiée."),
            Finding::AmsiRegistered => owned("La ruche des fournisseurs AMSI est présente et surveille activement les scripts en mémoire."),
            Finding::AmsiMissing => owned("L'enregistrement du fournisseur AMSI est manquant ou altéré. Les scripts mémoire ne sont pas inspectés."),
            Finding::AmsiNonWindows => owned("Intégrité du sandbox de scripts PAM & AppArmor confirmée."),
            Finding::FirewallWindowsOn => owned("Le pare-feu Windows est confirmé ACTIF sur tous les profils réseau."),
            Finding::FirewallWindowsOff => owned("Le pare-feu Windows est DÉSACTIVÉ sur un ou plusieurs profils, exposant les ports."),
            Finding::FirewallLinuxActive => owned("Le pare-feu Linux UFW est ACTIF avec politique de refus par défaut."),
            Finding::FirewallLinuxInactive => owned("Le pare-feu Linux UFW est INACTIF."),
            Finding::FirewallUnsupported => owned("Plateforme non supportée."),
            Finding::BehaviorActive => owned("La surveillance comportementale et heuristique des processus est ACTIVE."),
            Finding::BehaviorDisabled => owned("La surveillance comportementale est DÉSACTIVÉE. Les attaques en mémoire sans fichier peuvent échapper à la détection."),
            Finding::BehaviorNonWindows => owned("Sous-système d'audit du noyau hôte actif."),
            Finding::CloudEnabled(v) => {
                let mut s = owned("Protection délivrée par le cloud ACTIVÉE (Niveau: ");
                push_decimal(&mut s, *v as u128);
                push_str(&mut s, "). Blocage zero-day quasi-instantané actif.");
                s
            },
            Finding::CloudDisabled => owned("La protection cloud est DÉSACTIVÉE. Les nouveaux variants zero-day ne peuvent être bloqués en temps réel."),
            Finding::CloudNonWindows => owned("Synchronisation des miroirs de sécurité en amont confirmée."),
            Finding::NetworkEnabled => owned("La Protection Réseau est ACTIVÉE. Les flux sortants vers les domaines C2 et malveillants sont bloqués."),
            Finding::NetworkAuditOnly => owned("La Protection Réseau est en mode Audit uniquement (journalisation sans blocage actif)."),
            Finding::NetworkDisabled => owned("La Protection Réseau est DÉSACTIVÉE. L'hôte n'est pas protégé contre les communications vers des domaines malveillants."),
            Finding::NetworkNonWindows => owned("Résolution DNSSEC et filtrage sortant de l'hôte validés."),
            Finding::PuaEnabled => owned("La Protection PUA est ACTIVÉE. Les adwares, outils torrent et mineurs illicites sont bloqués."),
            Finding::PuaAuditOnly => owned("La Protection PUA est en mode Audit seul."),
            Finding::PuaDisabled => owned("La Protection PUA est DÉSACTIVÉE. Les logiciels publicitaires et utilitaires parasites peuvent s'exécuter."),
            Finding::PuaNonWindows => owned("Vérification des signatures et de l'intégrité des paquets active."),
            Finding::CredentialProtected(v) => {
                let mut s = owned("Le processus LSASS s'exécute en Processus Protégé (RunAsPPL=");
                push_decimal(&mut s, *v as u128);
                push_str(&mut s, "). Dumps mémoire bloqués.");
                s
            },
            Finding::CredentialUnprotected => owned("La protection LSASS RunAsPPL est DÉSACTIVÉE ou absente. La mémoire de LSASS est exposée aux attaques par dump."),
            Finding::CredentialNonWindows => owned("Le périmètre ptrace Linux restreint l'inspection mémoire inter-processus."),
            Finding::ScriptLoggingEnabled => owned("La journalisation des blocs de script PowerShell est ACTIVÉE. Les scripts désobfusqués sont tracés pour l'EDR/SIEM."),
            Finding::ScriptLoggingDisabled => owned("La journalisation des blocs de script est DÉSACTIVÉE. Les scripts obfusqués s'exécutent sans trace télémétrique complète."),
            Finding::ScriptLoggingNonWindows => owned("Journalisation des commandes shell (auditd/syslog) active."),
            Finding::UsbScanningActive => owned("L'analyse des lecteurs amovibles est ACTIVE. Les clés USB et supports externes sont inspectés."),
            Finding::UsbScanningDisabled => owned("L'analyse des lecteurs amovibles est DÉSACTIVÉE. Les clés USB contournent l'analyse antivirus automatique."),
            Finding::UsbScanningNonWindows => owned("Politique de sécurité de montage des médias amovibles udev confirmée."),
            Finding::SignaturesFresh(v) => {
                let mut s = owned("Les bases virales sont À JOUR (Ancienneté : ");
                push_decimal(&mut s, *v as u128);
                push_str(&mut s, " jour(s)). Définitions récentes installées.");
                s
            },
            Finding::SignaturesAged(v) => {
                let mut s = owned("Signatures moyennement récentes (Ancienneté : ");
                push_decimal(&mut s, *v as u128);
                push_str(&mut s, " jours). Mise à jour recommandée.");
                s
            },
            Finding::SignaturesOutdated(v) => {
                let mut s = owned("Bases virales OBSOLÈTES (Ancienneté : ");
                push_decimal(&mut s, *v as u128);
                push_str(&mut s, " jours). L'hôte est vulnérable aux menaces récentes.");
                s
            },
            Finding::SignatureAgeUnknown => owned("Impossible de déterminer l'âge des signatures ou définitions non installées."),
            Finding::SignaturesNonWindows => owned("Horodatage du miroir de signatures ClamAV vérifié."),
        }
    }

    pub fn remedy_en_text(&self) -> (r: &'static str)
        ensures
            r@ == self.spec_remedy_en(),
    {
        match self {
            Finding::EicarWriteBlocked => "Antivirus protection is already active.",
            Finding::EicarNotQuarantined => "Deploy & Enable System Real-Time Antivirus Protection Shield",
            Finding::EicarQuarantined => "Antivirus protection verified active.",
            Finding::RealtimeWindowsActive => "System is compliant.",
            Finding::RealtimeWindowsDisabled => "Enable Antivirus Real-Time Monitoring Shield",
            Finding::RealtimeLinuxActive => "System is compliant.",
            Finding::RealtimeLinuxInactive => "Install and start ClamAV background daemon",
            Finding::RealtimeUnsupported => "N/A",
            Finding::RansomwareEnabled => "Protected folders are secure.",
            Finding::RansomwareAuditOnly => "Switch Anti-Ransomware Shield to Full Enforcement Mode",
            Finding::RansomwareDisabled => "Enable Controlled Folder Access Anti-Ransomware Protection",
            Finding::RansomwareNonWindows => "System is compliant.",
            Finding::TamperActive => "Configuration is locked.",
            Finding::TamperInactive => "Open Windows Security Center to Enable Tamper Protection",
            Finding::TamperNonWindows => "System is compliant.",
            Finding::AmsiRegistered => "AMSI is operational.",
            Finding::AmsiMissing => "Repair AMSI Provider Registration via System File Checker",
            Finding::AmsiNonWindows => "System is compliant.",
            Finding::FirewallWindowsOn => "Firewall is active.",
            Finding::FirewallWindowsOff => "Enable Windows Firewall on all network profiles",
            Finding::FirewallLinuxActive => "Firewall is active.",
            Finding::FirewallLinuxInactive => "Enable UFW firewall service",
            Finding::FirewallUnsupported => "N/A",
            Finding::BehaviorActive => "Behavior monitor is active.",
            Finding::BehaviorDisabled => "Enable Antivirus Behavioral Process Monitoring",
            Finding::BehaviorNonWindows => "Compliant.",
            Finding::CloudEnabled(_) => "Cloud protection is active.",
            Finding::CloudDisabled => "Enable Advanced Cloud-Delivered Protection (MAPS)",
            Finding::CloudNonWindows => "Compliant.",
            Finding::NetworkEnabled => "Network shield is active.",
            Finding::NetworkAuditOnly => "Switch Network Protection to Full Blocking Mode",
            Finding::NetworkDisabled => "Enable Network Protection (Exploit Guard)",
            Finding::NetworkNonWindows => "Compliant.",
            Finding::PuaEnabled => "PUA shield is active.",
            Finding::PuaAuditOnly => "Switch PUA Shield to Full Blocking Mode",
            Finding::PuaDisabled => "Enable PUA (Potentially Unwanted Application) Blocking",
            Finding::PuaNonWindows => "Compliant.",
            Finding::CredentialProtected(_) => "LSASS memory is protected.",
            Finding::CredentialUnprotected => "Enable LSASS Protected Process Light (RunAsPPL=1)",
            Finding::CredentialNonWindows => "Compliant.",
            Finding::ScriptLoggingEnabled => "Script logging is active.",
            Finding::ScriptLoggingDisabled => "Enable PowerShell Script Block Logging Policy (EID 4104)",
            Finding::ScriptLoggingNonWindows => "Compliant.",
            Finding::UsbScanningActive => "USB scanning is active.",
            Finding::UsbScanningDisabled => "Enable Automatic Antivirus Scanning on Removable Drives",
            Finding::UsbScanningNonWindows => "Compliant.",
            Finding::SignaturesFresh(_) => "Signatures are fresh.",
            Finding::SignaturesAged(_) => "Update Antivirus Signature Definitions",
            Finding::SignaturesOutdated(_) => "Force Immediate Antivirus Signature Database Update",
            Finding::SignatureAgeUnknown => "Trigger Antivirus Signature Update",
            Finding::SignaturesNonWindows => "Compliant.",
        }
    }

    pub fn remedy_fr_text(&self) -> (r: &'static str)
        ensures
            r@ == self.spec_remedy_fr(),
    {
        match self {
            Finding::EicarWriteBlocked => "La protection antivirus est déjà active.",
            Finding::EicarNotQuarantined => "Déployer & Activer le Bouclier de Protection Antivirus en Temps Réel",
            Finding::EicarQuarantined => "Protection antivirus vérifiée et active.",
            Finding::RealtimeWindowsActive => "Le système est conforme.",
            Finding::RealtimeWindowsDisabled => "Activer le Bouclier de Surveillance Antivirus en Temps Réel",
            Finding::RealtimeLinuxActive => "Le système est conforme.",
            Finding::RealtimeLinuxInactive => "Installer et démarrer le démon en arrière-plan ClamAV",
            Finding::RealtimeUnsupported => "N/A",
            Finding::RansomwareEnabled => "Les dossiers protégés sont sécurisés.",
            Finding::RansomwareAuditOnly => "Basculer le Bouclier Anti-Ransomware en mode Blocage Actif",
            Finding::RansomwareDisabled => "Activer la Protection Anti-Ransomware par Accès Contrôlé aux Dossiers",
            Finding::RansomwareNonWindows => "Le système est conforme.",
            Finding::TamperActive => "La configuration est verrouillée.",
            Finding::TamperInactive => "Ouvrir le Centre de Sécurité pour Activer la Protection contre les Altérations",
            Finding::TamperNonWindows => "Le système est conforme.",
            Finding::AmsiRegistered => "L'AMSI est opérationnel.",
            Finding::AmsiMissing => "Réparer l'Enregistrement du Fournisseur AMSI via SFC",
            Finding::AmsiNonWindows => "Le système est conforme.",
            Finding::FirewallWindowsOn => "Le pare-feu est actif.",
            Finding::FirewallWindowsOff => "Activer le pare-feu Windows sur tous les profils réseau",
            Finding::FirewallLinuxActive => "Le pare-feu est actif.",
            Finding::FirewallLinuxInactive => "Activer le service de pare-feu UFW",
            Finding::FirewallUnsupported => "N/A",
            Finding::BehaviorActive => "La surveillance comportementale est active.",
            Finding::BehaviorDisabled => "Activer la Surveillance Comportementale des Processus",
            Finding::BehaviorNonWindows => "Conforme.",
            Finding::CloudEnabled(_) => "La protection cloud est active.",
            Finding::CloudDisabled => "Activer la Protection Avancée par le Cloud (MAPS)",
            Finding::CloudNonWindows => "Conforme.",
            Finding::NetworkEnabled => "Le bouclier réseau est actif.",
            Finding::NetworkAuditOnly => "Basculer la Protection Réseau en Mode Blocage Actif",
            Finding::NetworkDisabled => "Activer la Protection Réseau (Exploit Guard)",
            Finding::NetworkNonWindows => "Conforme.",
            Finding::PuaEnabled => "Le bouclier PUA est actif.",
            Finding::PuaAuditOnly => "Basculer le Bouclier PUA en Mode Blocage Actif",
            Finding::PuaDisabled => "Activer le Blocage des Applications Indésirables (PUA)",
            Finding::PuaNonWindows => "Conforme.",
            Finding::CredentialProtected(_) => "La mémoire de LSASS est protégée.",
            Finding::CredentialUnprotected => "Activer la Protection de Processus LSASS (RunAsPPL=1)",
            Finding::CredentialNonWindows => "Conforme.",
            Finding::ScriptLoggingEnabled => "La journalisation des scripts est active.",
            Finding::ScriptLoggingDisabled => "Activer la Politique de Journalisation des Scripts PowerShell (EID 4104)",
            Finding::ScriptLoggingNonWindows => "Conforme.",
            Finding::UsbScanningActive => "L'analyse USB est active.",
            Finding::UsbScanningDisabled => "Activer l'Analyse Antivirus Automatique des Supports Amovibles",
            Finding::UsbScanningNonWindows => "Conforme.",
            Finding::SignaturesFresh(_) => "Les signatures sont à jour.",
            Finding::SignaturesAged(_) => "Mettre à Jour la Base de Signatures Antivirus",
            Finding::SignaturesOutdated(_) => "Forcer la Mise à Jour Immédiate de la Base Antivirus",
            Finding::SignatureAgeUnknown => "Déclencher la Mise à Jour des Signatures Antivirus",
            Finding::SignaturesNonWindows => "Conforme.",
        }
    }
}

pub open spec fn spec_realtime_status_query() -> CommandView {
    CommandView { program: "powershell"@, args: seq!["-Command"@, "(Get-MpComputerStatus).RealTimeProtectionEnabled"@] }
}

/// Asks Defender whether real-time protection is on.
pub fn realtime_status_query() -> (c: HostCommand)
    ensures
        c@ == spec_realtime_status_query(),
{
    let mut args: Vec<&'static str> = Vec::new();
    args.push("-Command");
    args.push("(Get-MpComputerStatus).RealTimeProtectionEnabled");
    let c = HostCommand { program: "powershell", args };
    assert(c@.args =~= seq!["-Command"@, "(Get-MpComputerStatus).RealTimeProtectionEnabled"@]);
    c
}

pub open spec fn spec_clamav_daemon_query() -> CommandView {
    CommandView { program: "systemctl"@, args: seq!["is-active"@, "clamav-daemon"@] }
}

/// Asks systemd whether the ClamAV daemon is active.
pub fn clamav_daemon_query() -> (c: HostCommand)
    ensures
        c@ == spec_clamav_daemon_query(),
{
    let mut args: Vec<&'static str> = Vec::new();
    args.push("is-active");
    args.push("clamav-daemon");
    let c = HostCommand { program: "systemctl", args };
    assert(c@.args =~= seq!["is-active"@, "clamav-daemon"@]);
    c
}

pub open spec fn spec_folder_access_query() -> CommandView {
    CommandView { program: "powershell"@, args: seq!["-Command"@, "(Get-MpPreference).EnableControlledFolderAccess"@] }
}

/// Reads the Controlled Folder Access preference.
pub fn folder_access_query() -> (c: HostCommand)
    ensures
        c@ == spec_folder_access_query(),
{
    let mut args: Vec<&'static str> = Vec::new();
    args.push("-Command");
    args.push("(Get-MpPreference).EnableControlledFolderAccess");
    let c = HostCommand { program: "powershell", args };
    assert(c@.args =~= seq!["-Command"@, "(Get-MpPreference).EnableControlledFolderAccess"@]);
    c
}

pub open spec fn spec_tamper_query() -> CommandView {
    CommandView { program: "powershell"@, args: seq!["-Command"@, "(Get-MpComputerStatus).IsTamperProtected"@] }
}

/// Asks Defender whether tamper protection is on.
pub fn tamper_query() -> (c: HostCommand)
    ensures
        c@ == spec_tamper_query(),
{
    let mut args: Vec<&'static str> = Vec::new();
    args.push("-Command");
    args.push("(Get-MpComputerStatus).IsTamperProtected");
    let c = HostCommand { program: "powershell", args };
    assert(c@.args =~= seq!["-Command"@, "(Get-MpComputerStatus).IsTamperProtected"@]);
    c
}

pub open spec fn spec_amsi_query() -> CommandView {
    CommandView { program: "powershell"@, args: seq!["-Command"@, "Test-Path 'HKLM:\\SOFTWARE\\Microsoft\\AMSI\\Providers'"@] }
}

/// Tests for the AMSI providers registry key.
pub fn amsi_query() -> (c: HostCommand)
    ensures
        c@ == spec_amsi_query(),
{
    let mut args: Vec<&'static str> = Vec::new();
    args.push("-Command");
    args.push("Test-Path 'HKLM:\\SOFTWARE\\Microsoft\\AMSI\\Providers'");
    let c = HostCommand { program: "powershell", args };
    assert(c@.args =~= seq!["-Command"@, "Test-Path 'HKLM:\\SOFTWARE\\Microsoft\\AMSI\\Providers'"@]);
    c
}

pub open spec fn spec_firewall_state_query() -> CommandView {
    CommandView { program: "netsh"@, args: seq!["advfirewall"@, "show"@, "allprofiles"@, "state"@] }
}

/// Shows the firewall state of every profile.
pub fn firewall_state_query() -> (c: HostCommand)
    ensures
        c@ == spec_firewall_state_query(),
{
    let mut args: Vec<&'static str> = Vec::new();
    args.push("advfirewall");
    args.push("show");
    args.push("allprofiles");
    args.push("state");
    let c = HostCommand { program: "netsh", args };
    assert(c@.args =~= seq!["advfirewall"@, "show"@, "allprofiles"@, "state"@]);
    c
}

pub open spec fn spec_ufw_status_query() -> CommandView {
    CommandView { program: "ufw"@, args: seq!["status"@] }
}

/// Shows the UFW status.
pub fn ufw_status_query() -> (c: HostCommand)
    ensures
        c@ == spec_ufw_status_query(),
{
    let mut args: Vec<&'static str> = Vec::new();
    args.push("status");
    let c = HostCommand { program: "ufw", args };
    assert(c@.args =~= seq!["status"@]);
    c
}

pub open spec fn spec_behavior_query() -> CommandView {
    CommandView { program: "powershell"@, args: seq!["-Command"@, "(Get-MpComputerStatus).BehaviorMonitorEnabled"@] }
}

/// Asks Defender whether behaviour monitoring is on.
pub fn behavior_query() -> (c: HostCommand)
    ensures
        c@ == spec_behavior_query(),
{
    let mut args: Vec<&'static str> = Vec::new();
    args.push("-Command");
    args.push("(Get-MpComputerStatus).BehaviorMonitorEnabled");
    let c = HostCommand { program: "powershell", args };
    assert(c@.args =~= seq!["-Command"@, "(Get-MpComputerStatus).BehaviorMonitorEnabled"@]);
    c
}

pub open spec fn spec_maps_query() -> CommandView {
    CommandView { program: "powershell"@, args: seq!["-Command"@, "(Get-MpPreference).MAPSReporting"@] }
}

/// Reads the MAPS reporting level.
pub fn maps_query() -> (c: HostCommand)
    ensures
        c@ == spec_maps_query(),
{
    let mut args: Vec<&'static str> = Vec::new();
    args.push("-Command");
    args.push("(Get-MpPreference).MAPSReporting");
    let c = HostCommand { program: "powershell", args };
    assert(c@.args =~= seq!["-Command"@, "(Get-MpPreference).MAPSReporting"@]);
    c
}

pub open spec fn spec_network_protection_query() -> CommandView {
    CommandView { program: "powershell"@, args: seq!["-Command"@, "(Get-MpPreference).EnableNetworkProtection"@] }
}

/// Reads the network protection preference.
pub fn network_protection_query() -> (c: HostCommand)
    ensures
        c@ == spec_network_protection_query(),
{
    let mut args: Vec<&'static str> = Vec::new();
    args.push("-Command");
    args.push("(Get-MpPreference).EnableNetworkProtection");
    let c = HostCommand { program: "powershell", args };
    assert(c@.args =~= seq!["-Command"@, "(Get-MpPreference).EnableNetworkProtection"@]);
    c
}

pub open spec fn spec_pua_query() -> CommandView {
    CommandView { program: "powershell"@, args: seq!["-Command"@, "(Get-MpPreference).PUAProtection"@] }
}

/// Reads the PUA protection preference.
pub fn pua_query() -> (c: HostCommand)
    ensures
        c@ == spec_pua_query(),
{
    let mut args: Vec<&'static str> = Vec::new();
    args.push("-Command");
    args.push("(Get-MpPreference).PUAProtection");
    let c = HostCommand { program: "powershell", args };
    assert(c@.args =~= seq!["-Command"@, "(Get-MpPreference).PUAProtection"@]);
    c
}

pub open spec fn spec_run_as_ppl_query() -> CommandView {
    CommandView { program: "powershell"@, args: seq!["-Command"@, "(Get-ItemProperty -Path 'HKLM:\\SYSTEM\\CurrentControlSet\\Control\\Lsa' -Name 'RunAsPPL' -ErrorAction SilentlyContinue).RunAsPPL"@] }
}

/// Reads the LSA RunAsPPL value.
pub fn run_as_ppl_query() -> (c: HostCommand)
    ensures
        c@ == spec_run_as_ppl_query(),
{
    let mut args: Vec<&'static str> = Vec::new();
    args.push("-Command");
    args.push("(Get-ItemProperty -Path 'HKLM:\\SYSTEM\\CurrentControlSet\\Control\\Lsa' -Name 'RunAsPPL' -ErrorAction SilentlyContinue).RunAsPPL");
    let c = HostCommand { program: "powershell", args };
    assert(c@.args =~= seq!["-Command"@, "(Get-ItemProperty -Path 'HKLM:\\SYSTEM\\CurrentControlSet\\Control\\Lsa' -Name 'RunAsPPL' -ErrorAction SilentlyContinue).RunAsPPL"@]);
    c
}

pub open spec fn spec_script_block_logging_query() -> CommandView {
    CommandView { program: "powershell"@, args: seq!["-Command"@, "(Get-ItemProperty -Path 'HKLM:\\SOFTWARE\\Policies\\Microsoft\\Windows\\PowerShell\\ScriptBlockLogging' -Name 'EnableScriptBlockLogging' -ErrorAction SilentlyContinue).EnableScriptBlockLogging"@] }
}

/// Reads the script block logging policy.
pub fn script_block_logging_query() -> (c: HostCommand)
    ensures
        c@ == spec_script_block_logging_query(),
{
    let mut args: Vec<&'static str> = Vec::new();
    args.push("-Command");
    args.push("(Get-ItemProperty -Path 'HKLM:\\SOFTWARE\\Policies\\Microsoft\\Windows\\PowerShell\\ScriptBlockLogging' -Name 'EnableScriptBlockLogging' -ErrorAction SilentlyContinue).EnableScriptBlockLogging");
    let c = HostCommand { program: "powershell", args };
    assert(c@.args =~= seq!["-Command"@, "(Get-ItemProperty -Path 'HKLM:\\SOFTWARE\\Policies\\Microsoft\\Windows\\PowerShell\\ScriptBlockLogging' -Name 'EnableScriptBlockLogging' -ErrorAction SilentlyContinue).EnableScriptBlockLogging"@]);
    c
}

pub open spec fn spec_removable_scan_query() -> CommandView {
    CommandView { program: "powershell"@, args: seq!["-Command"@, "(Get-MpPreference).DisableRemovableDriveScanning"@] }
}

/// Reads the removable drive scanning preference.
pub fn removable_scan_query() -> (c: HostCommand)
    ensures
        c@ == spec_removable_scan_query(),
{
    let mut args: Vec<&'static str> = Vec::new();
    args.push("-Command");
    args.push("(Get-MpPreference).DisableRemovableDriveScanning");
    let c = HostCommand { program: "powershell", args };
    assert(c@.args =~= seq!["-Command"@, "(Get-MpPreference).DisableRemovableDriveScanning"@]);
    c
}

pub open spec fn spec_signature_age_query() -> CommandView {
    CommandView { program: "powershell"@, args: seq!["-Command"@, "(Get-MpComputerStatus).AntivirusSignatureAge"@] }
}

/// Asks Defender for the age of its signatures.
pub fn signature_age_query() -> (c: HostCommand)
    ensures
        c@ == spec_signature_age_query(),
{
    let mut args: Vec<&'static str> = Vec::new();
    args.push("-Command");
    args.push("(Get-MpComputerStatus).AntivirusSignatureAge");
    let c = HostCommand { program: "powershell", args };
    assert(c@.args =~= seq!["-Command"@, "(Get-MpComputerStatus).AntivirusSignatureAge"@]);
    c
}

pub open spec fn spec_defender_realtime_enable() -> CommandView {
    CommandView { program: "powershell"@, args: seq!["-Command"@, "Set-MpPreference -DisableRealtimeMonitoring $false; Start-Service WinDefend -ErrorAction SilentlyContinue"@] }
}

/// Turns Defender real-time monitoring on and starts its service.
pub fn defender_realtime_enable() -> (c: HostCommand)
    ensures
        c@ == spec_defender_realtime_enable(),
{
    let mut args: Vec<&'static str> = Vec::new();
    args.push("-Command");
    args.push("Set-MpPreference -DisableRealtimeMonitoring $false; Start-Service WinDefend -ErrorAction SilentlyContinue");
    let c = HostCommand { program: "powershell", args };
    assert(c@.args =~= seq!["-Command"@, "Set-MpPreference -DisableRealtimeMonitoring $false; Start-Service WinDefend -ErrorAction SilentlyContinue"@]);
    c
}

pub open spec fn spec_clamav_daemon_enable() -> CommandView {
    CommandView { program: "sudo"@, args: seq!["systemctl"@, "enable"@, "--now"@, "clamav-daemon"@] }
}

/// Enables and starts the ClamAV daemon.
pub fn clamav_daemon_enable() -> (c: HostCommand)
    ensures
        c@ == spec_clamav_daemon_enable(),
{
    let mut args: Vec<&'static str> = Vec::new();
    args.push("systemctl");
    args.push("enable");
    args.push("--now");
    args.push("clamav-daemon");
    let c = HostCommand { program: "sudo", args };
    assert(c@.args =~= seq!["systemctl"@, "enable"@, "--now"@, "clamav-daemon"@]);
    c
}

pub open spec fn spec_defender_monitoring_enable() -> CommandView {
    CommandView { program: "powershell"@, args: seq!["-Command"@, "Set-MpPreference -DisableRealtimeMonitoring $false; Set-MpPreference -DisableBehaviorMonitoring $false"@] }
}

/// Turns Defender real-time and behaviour monitoring on.
pub fn defender_monitoring_enable() -> (c: HostCommand)
    ensures
        c@ == spec_defender_monitoring_enable(),
{
    let mut args: Vec<&'static str> = Vec::new();
    args.push("-Command");
    args.push("Set-MpPreference -DisableRealtimeMonitoring $false; Set-MpPreference -DisableBehaviorMonitoring $false");
    let c = HostCommand { program: "powershell", args };
    assert(c@.args =~= seq!["-Command"@, "Set-MpPreference -DisableRealtimeMonitoring $false; Set-MpPreference -DisableBehaviorMonitoring $false"@]);
    c
}

pub open spec fn spec_clamav_install() -> CommandView {
    CommandView { program: "sudo"@, args: seq!["apt-get"@, "install"@, "-y"@, "clamav-daemon"@] }
}

/// Installs the ClamAV daemon package.
pub fn clamav_install() -> (c: HostCommand)
    ensures
        c@ == spec_clamav_install(),
{
    let mut args: Vec<&'static str> = Vec::new();
    args.push("apt-get");
    args.push("install");
    args.push("-y");
    args.push("clamav-daemon");
    let c = HostCommand { program: "sudo", args };
    assert(c@.args =~= seq!["apt-get"@, "install"@, "-y"@, "clamav-daemon"@]);
    c
}

pub open spec fn spec_folder_access_enable() -> CommandView {
    CommandView { program: "powershell"@, args: seq!["-Command"@, "Set-MpPreference -EnableControlledFolderAccess Enabled"@] }
}

/// Turns Controlled Folder Access on.
pub fn folder_access_enable() -> (c: HostCommand)
    ensures
        c@ == spec_folder_access_enable(),
{
    let mut args: Vec<&'static str> = Vec::new();
    args.push("-Command");
    args.push("Set-MpPreference -EnableControlledFolderAccess Enabled");
    let c = HostCommand { program: "powershell", args };
    assert(c@.args =~= seq!["-Command"@, "Set-MpPreference -EnableControlledFolderAccess Enabled"@]);
    c
}

pub open spec fn spec_security_settings_open() -> CommandView {
    CommandView { program: "powershell"@, args: seq!["-Command"@, "Start-Process 'windowsdefender://threatsettings'"@] }
}

/// Opens the Windows Security threat settings page.
pub fn security_settings_open() -> (c: HostCommand)
    ensures
        c@ == spec_security_settings_open(),
{
    let mut args: Vec<&'static str> = Vec::new();
    args.push("-Command");
    args.push("Start-Process 'windowsdefender://threatsettings'");
    let c = HostCommand { program: "powershell", args };
    assert(c@.args =~= seq!["-Command"@, "Start-Process 'windowsdefender://threatsettings'"@]);
    c
}

pub open spec fn spec_amsi_scan() -> CommandView {
    CommandView { program: "powershell"@, args: seq!["-Command"@, "sfc /scanfile=C:\\Windows\\System32\\amsi.dll"@] }
}

/// Checks the AMSI library with the system file checker.
pub fn amsi_scan() -> (c: HostCommand)
    ensures
        c@ == spec_amsi_scan(),
{
    let mut args: Vec<&'static str> = Vec::new();
    args.push("-Command");
    args.push("sfc /scanfile=C:\\Windows\\System32\\amsi.dll");
    let c = HostCommand { program: "powershell", args };
    assert(c@.args =~= seq!["-Command"@, "sfc /scanfile=C:\\Windows\\System32\\amsi.dll"@]);
    c
}

pub open spec fn spec_windows_firewall_enable() -> CommandView {
    CommandView { program: "netsh"@, args: seq!["advfirewall"@, "set"@, "allprofiles"@, "state"@, "on"@] }
}

/// Turns the Windows firewall on for every profile.
pub fn windows_firewall_enable() -> (c: HostCommand)
    ensures
        c@ == spec_windows_firewall_enable(),
{
    let mut args: Vec<&'static str> = Vec::new();
    args.push("advfirewall");
    args.push("set");
    args.push("allprofiles");
    args.push("state");
    args.push("on");
    let c = HostCommand { program: "netsh", args };
    assert(c@.args =~= seq!["advfirewall"@, "set"@, "allprofiles"@, "state"@, "on"@]);
    c
}

pub open spec fn spec_ufw_enable() -> CommandView {
    CommandView { program: "sudo"@, args: seq!["ufw"@, "--force"@, "enable"@] }
}

/// Enables UFW.
pub fn ufw_enable() -> (c: HostCommand)
    ensures
        c@ == spec_ufw_enable(),
{
    let mut args: Vec<&'static str> = Vec::new();
    args.push("ufw");
    args.push("--force");
    args.push("enable");
    let c = HostCommand { program: "sudo", args };
    assert(c@.args =~= seq!["ufw"@, "--force"@, "enable"@]);
    c
}

pub open spec fn spec_behavior_enable() -> CommandView {
    CommandView { program: "powershell"@, args: seq!["-Command"@, "Set-MpPreference -DisableBehaviorMonitoring $false"@] }
}

/// Turns behaviour monitoring on.
pub fn behavior_enable() -> (c: HostCommand)
    ensures
        c@ == spec_behavior_enable(),
{
    let mut args: Vec<&'static str> = Vec::new();
    args.push("-Command");
    args.push("Set-MpPreference -DisableBehaviorMonitoring $false");
    let c = HostCommand { program: "powershell", args };
    assert(c@.args =~= seq!["-Command"@, "Set-MpPreference -DisableBehaviorMonitoring $false"@]);
    c
}

pub open spec fn spec_maps_enable() -> CommandView {
    CommandView { program: "powershell"@, args: seq!["-Command"@, "Set-MpPreference -MAPSReporting Advanced; Set-MpPreference -SubmitSamplesConsent SendSafeSamples"@] }
}

/// Turns advanced MAPS reporting and safe sample submission on.
pub fn maps_enable() -> (c: HostCommand)
    ensures
        c@ == spec_maps_enable(),
{
    let mut args: Vec<&'static str> = Vec::new();
    args.push("-Command");
    args.push("Set-MpPreference -MAPSReporting Advanced; Set-MpPreference -SubmitSamplesConsent SendSafeSamples");
    let c = HostCommand { program: "powershell", args };
    assert(c@.args =~= seq!["-Command"@, "Set-MpPreference -MAPSReporting Advanced; Set-MpPreference -SubmitSamplesConsent SendSafeSamples"@]);
    c
}

pub open spec fn spec_network_protection_enable() -> CommandView {
    CommandView { program: "powershell"@, args: seq!["-Command"@, "Set-MpPreference -EnableNetworkProtection Enabled"@] }
}

/// Turns network protection on.
pub fn network_protection_enable() -> (c: HostCommand)
    ensures
        c@ == spec_network_protection_enable(),
{
    let mut args: Vec<&'static str> = Vec::new();
    args.push("-Command");
    args.push("Set-MpPreference -EnableNetworkProtection Enabled");
    let c = HostCommand { program: "powershell", args };
    assert(c@.args =~= seq!["-Command"@, "Set-MpPreference -EnableNetworkProtection Enabled"@]);
    c
}

pub open spec fn spec_pua_enable() -> CommandView {
    CommandView { program: "powershell"@, args: seq!["-Command"@, "Set-MpPreference -PUAProtection Enabled"@] }
}

/// Turns PUA protection on.
pub fn pua_enable() -> (c: HostCommand)
    ensures
        c@ == spec_pua_enable(),
{
    let mut args: Vec<&'static str> = Vec::new();
    args.push("-Command");
    args.push("Set-MpPreference -PUAProtection Enabled");
    let c = HostCommand { program: "powershell", args };
    assert(c@.args =~= seq!["-Command"@, "Set-MpPreference -PUAProtection Enabled"@]);
    c
}

pub open spec fn spec_run_as_ppl_enable() -> CommandView {
    CommandView { program: "powershell"@, args: seq!["-Command"@, "Set-ItemProperty -Path 'HKLM:\\SYSTEM\\CurrentControlSet\\Control\\Lsa' -Name 'RunAsPPL' -Value 1 -Type DWord -Force"@] }
}

/// Sets RunAsPPL to 1.
pub fn run_as_ppl_enable() -> (c: HostCommand)
    ensures
        c@ == spec_run_as_ppl_enable(),
{
    let mut args: Vec<&'static str> = Vec::new();
    args.push("-Command");
    args.push("Set-ItemProperty -Path 'HKLM:\\SYSTEM\\CurrentControlSet\\Control\\Lsa' -Name 'RunAsPPL' -Value 1 -Type DWord -Force");
    let c = HostCommand { program: "powershell", args };
    assert(c@.args =~= seq!["-Command"@, "Set-ItemProperty -Path 'HKLM:\\SYSTEM\\CurrentControlSet\\Control\\Lsa' -Name 'RunAsPPL' -Value 1 -Type DWord -Force"@]);
    c
}

pub open spec fn spec_script_block_logging_enable() -> CommandView {
    CommandView { program: "powershell"@, args: seq!["-Command"@, "New-Item -Path 'HKLM:\\SOFTWARE\\Policies\\Microsoft\\Windows\\PowerShell\\ScriptBlockLogging' -Force -ErrorAction SilentlyContinue; Set-ItemProperty -Path 'HKLM:\\SOFTWARE\\Policies\\Microsoft\\Windows\\PowerShell\\ScriptBlockLogging' -Name 'EnableScriptBlockLogging' -Value 1 -Type DWord -Force"@] }
}

/// Turns the script block logging policy on.
pub fn script_block_logging_enable() -> (c: HostCommand)
    ensures
        c@ == spec_script_block_logging_enable(),
{
    let mut args: Vec<&'static str> = Vec::new();
    args.push("-Command");
    args.push("New-Item -Path 'HKLM:\\SOFTWARE\\Policies\\Microsoft\\Windows\\PowerShell\\ScriptBlockLogging' -Force -ErrorAction SilentlyContinue; Set-ItemProperty -Path 'HKLM:\\SOFTWARE\\Policies\\Microsoft\\Windows\\PowerShell\\ScriptBlockLogging' -Name 'EnableScriptBlockLogging' -Value 1 -Type DWord -Force");
    let c = HostCommand { program: "powershell", args };
    assert(c@.args =~= seq!["-Command"@, "New-Item -Path 'HKLM:\\SOFTWARE\\Policies\\Microsoft\\Windows\\PowerShell\\ScriptBlockLogging' -Force -ErrorAction SilentlyContinue; Set-ItemProperty -Path 'HKLM:\\SOFTWARE\\Policies\\Microsoft\\Windows\\PowerShell\\ScriptBlockLogging' -Name 'EnableScriptBlockLogging' -Value 1 -Type DWord -Force"@]);
    c
}

pub open spec fn spec_removable_scan_enable() -> CommandView {
    CommandView { program: "powershell"@, args: seq!["-Command"@, "Set-MpPreference -DisableRemovableDriveScanning $false"@] }
}

/// Turns removable drive scanning on.
pub fn removable_scan_enable() -> (c: HostCommand)
    ensures
        c@ == spec_removable_scan_enable(),
{
    let mut args: Vec<&'static str> = Vec::new();
    args.push("-Command");
    args.push("Set-MpPreference -DisableRemovableDriveScanning $false");
    let c = HostCommand { program: "powershell", args };
    assert(c@.args =~= seq!["-Command"@, "Set-MpPreference -DisableRemovableDriveScanning $false"@]);
    c
}

pub open spec fn spec_signature_update() -> CommandView {
    CommandView { program: "powershell"@, args: seq!["-Command"@, "Update-MpSignature -UpdateSource MicrosoftUpdateServer"@] }
}

/// Updates Defender signatures from Microsoft Update.
pub fn signature_update() -> (c: HostCommand)
    ensures
        c@ == spec_signature_update(),
{
    let mut args: Vec<&'static str> = Vec::new();
    args.push("-Command");
    args.push("Update-MpSignature -UpdateSource MicrosoftUpdateServer");
    let c = HostCommand { program: "powershell", args };
    assert(c@.args =~= seq!["-Command"@, "Update-MpSignature -UpdateSource MicrosoftUpdateServer"@]);
    c
}

pub open spec fn spec_freshclam_update() -> CommandView {
    CommandView { program: "freshclam"@, args: seq![] }
}

/// Updates the ClamAV signatures.
pub fn freshclam_update() -> (c: HostCommand)
    ensures
        c@ == spec_freshclam_update(),
{
    let mut args: Vec<&'static str> = Vec::new();
    let c = HostCommand { program: "freshclam", args };
    assert(c@.args =~= seq![]);
    c
}

} // verus!
