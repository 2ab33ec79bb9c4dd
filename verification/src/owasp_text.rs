use vstd::prelude::*;
use crate::text::{decimal, owned, push_decimal, push_str};
use crate::verdict::Verdict;

verus! {

/// What an OWASP probe established; each has a fixed verdict and detail texts,
/// some of them carrying the status code or the text that was seen.
pub enum OwaspFinding {
    GitMetadataExposed,
    GitMetadataBlocked(u16),
    CleartextTransport,
    EncryptedTransport,
    InjectionCrash(u16),
    InjectionHandled(u16),
    LoginUnreachable,
    RateLimited,
    NoRateLimit(u16),
    EnvFileExposed,
    EnvFileProtected(u16),
    VersionDisclosed(String),
    NoVersionBanner,
    EmptyAuthRejected(u16),
    EmptyAuthCrash(u16),
    EmptyAuthUnexpected(u16),
    PermissiveCors,
    RestrictedCors,
    Standard404,
    NonStandard404(u16),
    SsrfCrash(u16),
    SsrfHandled(u16),
    ConnectionError(String),
    RequestFailed(String),
    CommunicationError(String),
}

impl OwaspFinding {
    pub open spec fn spec_verdict(&self) -> Verdict {
        match self {
            OwaspFinding::GitMetadataExposed => Verdict::Vulnerable,
            OwaspFinding::GitMetadataBlocked(_) => Verdict::Secure,
            OwaspFinding::CleartextTransport => Verdict::Vulnerable,
            OwaspFinding::EncryptedTransport => Verdict::Secure,
            OwaspFinding::InjectionCrash(_) => Verdict::Vulnerable,
            OwaspFinding::InjectionHandled(_) => Verdict::Secure,
            OwaspFinding::LoginUnreachable => Verdict::Error,
            OwaspFinding::RateLimited => Verdict::Secure,
            OwaspFinding::NoRateLimit(_) => Verdict::Vulnerable,
            OwaspFinding::EnvFileExposed => Verdict::Vulnerable,
            OwaspFinding::EnvFileProtected(_) => Verdict::Secure,
            OwaspFinding::VersionDisclosed(_) => Verdict::Warning,
            OwaspFinding::NoVersionBanner => Verdict::Secure,
            OwaspFinding::EmptyAuthRejected(_) => Verdict::Secure,
            OwaspFinding::EmptyAuthCrash(_) => Verdict::Vulnerable,
            OwaspFinding::EmptyAuthUnexpected(_) => Verdict::Warning,
            OwaspFinding::PermissiveCors => Verdict::Vulnerable,
            OwaspFinding::RestrictedCors => Verdict::Secure,
            OwaspFinding::Standard404 => Verdict::Secure,
            OwaspFinding::NonStandard404(_) => Verdict::Warning,
            OwaspFinding::SsrfCrash(_) => Verdict::Vulnerable,
            OwaspFinding::SsrfHandled(_) => Verdict::Secure,
            OwaspFinding::ConnectionError(_) => Verdict::Error,
            OwaspFinding::RequestFailed(_) => Verdict::Error,
            OwaspFinding::CommunicationError(_) => Verdict::Error,
        }
    }

    pub open spec fn spec_details_en(&self) -> Seq<char> {
        match self {
            OwaspFinding::GitMetadataExposed => "Publicly accessible internal repository metadata (HTTP 200)."@,
            OwaspFinding::GitMetadataBlocked(v) => "Restricted resource access blocked properly (HTTP "@ + decimal(v as nat) + ")."@,
            OwaspFinding::CleartextTransport => "Cleartext HTTP transport detected without TLS encryption."@,
            OwaspFinding::EncryptedTransport => "Encrypted transport or safe local development environment."@,
            OwaspFinding::InjectionCrash(v) => "Unhandled 5xx crash on test syntax (HTTP "@ + decimal(v as nat) + ")."@,
            OwaspFinding::InjectionHandled(v) => "Input safely sanitized or rejected (HTTP "@ + decimal(v as nat) + ")."@,
            OwaspFinding::LoginUnreachable => "Target endpoint unreachable (Connection refused)."@,
            OwaspFinding::RateLimited => "Anti-automation rate limit triggered (HTTP 429)."@,
            OwaspFinding::NoRateLimit(v) => "No rate limit after 15 rapid requests (HTTP "@ + decimal(v as nat) + ")."@,
            OwaspFinding::EnvFileExposed => "Sensitive environment file /.env is publicly exposed (HTTP 200)."@,
            OwaspFinding::EnvFileProtected(v) => "Configuration file protected or absent (HTTP "@ + decimal(v as nat) + ")."@,
            OwaspFinding::VersionDisclosed(v) => "Software version disclosure detected: "@ + v@ + "."@,
            OwaspFinding::NoVersionBanner => "No sensitive version banners disclosed in headers."@,
            OwaspFinding::EmptyAuthRejected(v) => "Empty auth handled with proper client rejection (HTTP "@ + decimal(v as nat) + ")."@,
            OwaspFinding::EmptyAuthCrash(v) => "Server crash on empty credentials (HTTP "@ + decimal(v as nat) + ")."@,
            OwaspFinding::EmptyAuthUnexpected(v) => "Unexpected response to empty credentials (HTTP "@ + decimal(v as nat) + ")."@,
            OwaspFinding::PermissiveCors => "Permissive wildcard CORS origin with credential reflection."@,
            OwaspFinding::RestrictedCors => "Cross-Origin headers properly restricted or absent."@,
            OwaspFinding::Standard404 => "Standard HTTP 404 response logged without leakage."@,
            OwaspFinding::NonStandard404(v) => "Non-standard response code for missing endpoint (HTTP "@ + decimal(v as nat) + ")."@,
            OwaspFinding::SsrfCrash(v) => "Internal crash triggered by proxy reflection headers (HTTP "@ + decimal(v as nat) + ")."@,
            OwaspFinding::SsrfHandled(v) => "Local loopback headers safely ignored or rejected (HTTP "@ + decimal(v as nat) + ")."@,
            OwaspFinding::ConnectionError(v) => "Connection error: "@ + v@,
            OwaspFinding::RequestFailed(v) => "Request failed: "@ + v@,
            OwaspFinding::CommunicationError(v) => "Connection error: "@ + v@,
        }
    }

    pub open spec fn spec_details_fr(&self) -> Seq<char> {
        match self {
            OwaspFinding::GitMetadataExposed => "Métadonnées de dépôt interne accessibles publiquement (HTTP 200)."@,
            OwaspFinding::GitMetadataBlocked(v) => "Accès aux ressources sensibles bloqué (HTTP "@ + decimal(v as nat) + ")."@,
            OwaspFinding::CleartextTransport => "Transport HTTP en clair sans chiffrement TLS."@,
            OwaspFinding::EncryptedTransport => "Transport chiffré ou environnement local sain vérifié."@,
            OwaspFinding::InjectionCrash(v) => "Crash 5xx non intercepté sur rupture syntaxique (HTTP "@ + decimal(v as nat) + ")."@,
            OwaspFinding::InjectionHandled(v) => "Entrée assainie ou rejetée en toute sécurité (HTTP "@ + decimal(v as nat) + ")."@,
            OwaspFinding::LoginUnreachable => "Point d'accès injoignable (Connexion refusée)."@,
            OwaspFinding::RateLimited => "Limitation de débit anti-automatisation active (HTTP 429)."@,
            OwaspFinding::NoRateLimit(v) => "Aucune limite après 15 requêtes rapides (HTTP "@ + decimal(v as nat) + ")."@,
            OwaspFinding::EnvFileExposed => "Le fichier d'environnement sensible /.env est exposé (HTTP 200)."@,
            OwaspFinding::EnvFileProtected(v) => "Fichier de configuration protégé ou absent (HTTP "@ + decimal(v as nat) + ")."@,
            OwaspFinding::VersionDisclosed(v) => "Divulgation de versions logicielles : "@ + v@ + "."@,
            OwaspFinding::NoVersionBanner => "Aucune bannière de version sensible divulguée."@,
            OwaspFinding::EmptyAuthRejected(v) => "Authentification vide rejetée proprement (HTTP "@ + decimal(v as nat) + ")."@,
            OwaspFinding::EmptyAuthCrash(v) => "Le serveur a planté sur des identifiants vides (HTTP "@ + decimal(v as nat) + ")."@,
            OwaspFinding::EmptyAuthUnexpected(v) => "Réponse inattendue sur des identifiants vides (HTTP "@ + decimal(v as nat) + ")."@,
            OwaspFinding::PermissiveCors => "Origine CORS permissive avec reflet des crédits d'accès."@,
            OwaspFinding::RestrictedCors => "En-têtes Cross-Origin correctement restreints ou absents."@,
            OwaspFinding::Standard404 => "Réponse standard HTTP 404 retournée sans divulgation."@,
            OwaspFinding::NonStandard404(v) => "Code de réponse inhabituel pour un point d'accès manquant (HTTP "@ + decimal(v as nat) + ")."@,
            OwaspFinding::SsrfCrash(v) => "Crash interne déclenché par les en-têtes proxy locaux (HTTP "@ + decimal(v as nat) + ")."@,
            OwaspFinding::SsrfHandled(v) => "En-têtes de boucle locale rejetés ou ignorés sans incidence (HTTP "@ + decimal(v as nat) + ")."@,
            OwaspFinding::ConnectionError(v) => "Erreur de connexion : "@ + v@,
            OwaspFinding::RequestFailed(v) => "Échec de requête : "@ + v@,
            OwaspFinding::CommunicationError(v) => "Erreur de communication : "@ + v@,
        }
    }

    pub fn verdict(&self) -> (r: Verdict)
        ensures
            r == self.spec_verdict(),
    {
        match self {
            OwaspFinding::GitMetadataExposed => Verdict::Vulnerable,
            OwaspFinding::GitMetadataBlocked(_) => Verdict::Secure,
            OwaspFinding::CleartextTransport => Verdict::Vulnerable,
            OwaspFinding::EncryptedTransport => Verdict::Secure,
            OwaspFinding::InjectionCrash(_) => Verdict::Vulnerable,
            OwaspFinding::InjectionHandled(_) => Verdict::Secure,
            OwaspFinding::LoginUnreachable => Verdict::Error,
            OwaspFinding::RateLimited => Verdict::Secure,
            OwaspFinding::NoRateLimit(_) => Verdict::Vulnerable,
            OwaspFinding::EnvFileExposed => Verdict::Vulnerable,
            OwaspFinding::EnvFileProtected(_) => Verdict::Secure,
            OwaspFinding::VersionDisclosed(_) => Verdict::Warning,
            OwaspFinding::NoVersionBanner => Verdict::Secure,
            OwaspFinding::EmptyAuthRejected(_) => Verdict::Secure,
            OwaspFinding::EmptyAuthCrash(_) => Verdict::Vulnerable,
            OwaspFinding::EmptyAuthUnexpected(_) => Verdict::Warning,
            OwaspFinding::PermissiveCors => Verdict::Vulnerable,
            OwaspFinding::RestrictedCors => Verdict::Secure,
            OwaspFinding::Standard404 => Verdict::Secure,
            OwaspFinding::NonStandard404(_) => Verdict::Warning,
            OwaspFinding::SsrfCrash(_) => Verdict::Vulnerable,
            OwaspFinding::SsrfHandled(_) => Verdict::Secure,
            OwaspFinding::ConnectionError(_) => Verdict::Error,
            OwaspFinding::RequestFailed(_) => Verdict::Error,
            OwaspFinding::CommunicationError(_) => Verdict::Error,
        }
    }

    pub fn details_en(&self) -> (r: String)
        ensures
            r@ == self.spec_details_en(),
    {
        match self {
            OwaspFinding::GitMetadataExposed => owned("Publicly accessible internal repository metadata (HTTP 200)."),
            OwaspFinding::GitMetadataBlocked(v) => {
                let mut s = owned("Restricted resource access blocked properly (HTTP ");
                push_decimal(&mut s, *v as u128);
                push_str(&mut s, ").");
                s
            },
            OwaspFinding::CleartextTransport => owned("Cleartext HTTP transport detected without TLS encryption."),
            OwaspFinding::EncryptedTransport => owned("Encrypted transport or safe local development environment."),
            OwaspFinding::InjectionCrash(v) => {
                let mut s = owned("Unhandled 5xx crash on test syntax (HTTP ");
                push_decimal(&mut s, *v as u128);
                push_str(&mut s, ").");
                s
            },
            OwaspFinding::InjectionHandled(v) => {
                let mut s = owned("Input safely sanitized or rejected (HTTP ");
                push_decimal(&mut s, *v as u128);
                push_str(&mut s, ").");
                s
            },
            OwaspFinding::LoginUnreachable => owned("Target endpoint unreachable (Connection refused)."),
            OwaspFinding::RateLimited => owned("Anti-automation rate limit triggered (HTTP 429)."),
            OwaspFinding::NoRateLimit(v) => {
                let mut s = owned("No rate limit after 15 rapid requests (HTTP ");
                push_decimal(&mut s, *v as u128);
                push_str(&mut s, ").");
                s
            },
            OwaspFinding::EnvFileExposed => owned("Sensitive environment file /.env is publicly exposed (HTTP 200)."),
            OwaspFinding::EnvFileProtected(v) => {
                let mut s = owned("Configuration file protected or absent (HTTP ");
                push_decimal(&mut s, *v as u128);
                push_str(&mut s, ").");
                s
            },
            OwaspFinding::VersionDisclosed(v) => {
                let mut s = owned("Software version disclosure detected: ");
                push_str(&mut s, v.as_str());
                push_str(&mut s, ".");
                s
            },
            OwaspFinding::NoVersionBanner => owned("No sensitive version banners disclosed in headers."),
            OwaspFinding::EmptyAuthRejected(v) => {
                let mut s = owned("Empty auth handled with proper client rejection (HTTP ");
                push_decimal(&mut s, *v as u128);
                push_str(&mut s, ").");
                s
            },
            OwaspFinding::EmptyAuthCrash(v) => {
                let mut s = owned("Server crash on empty credentials (HTTP ");
                push_decimal(&mut s, *v as u128);
                push_str(&mut s, ").");
                s
            },
            OwaspFinding::EmptyAuthUnexpected(v) => {
                let mut s = owned("Unexpected response to empty credentials (HTTP ");
                push_decimal(&mut s, *v as u128);
                push_str(&mut s, ").");
                s
            },
            OwaspFinding::PermissiveCors => owned("Permissive wildcard CORS origin with credential reflection."),
            OwaspFinding::RestrictedCors => owned("Cross-Origin headers properly restricted or absent."),
            OwaspFinding::Standard404 => owned("Standard HTTP 404 response logged without leakage."),
            OwaspFinding::NonStandard404(v) => {
                let mut s = owned("Non-standard response code for missing endpoint (HTTP ");
                push_decimal(&mut s, *v as u128);
                push_str(&mut s, ").");
                s
            },
            OwaspFinding::SsrfCrash(v) => {
                let mut s = owned("Internal crash triggered by proxy reflection headers (HTTP ");
                push_decimal(&mut s, *v as u128);
                push_str(&mut s, ").");
                s
            },
            OwaspFinding::SsrfHandled(v) => {
                let mut s = owned("Local loopback headers safely ignored or rejected (HTTP ");
                push_decimal(&mut s, *v as u128);
                push_str(&mut s, ").");
                s
            },
            OwaspFinding::ConnectionError(v) => {
                let mut s = owned("Connection error: ");
                push_str(&mut s, v.as_str());
                s
            },
            OwaspFinding::RequestFailed(v) => {
                let mut s = owned("Request failed: ");
                push_str(&mut s, v.as_str());
                s
            },
            OwaspFinding::CommunicationError(v) => {
                let mut s = owned("Connection error: ");
                push_str(&mut s, v.as_str());
                s
            },
        }
    }

    pub fn details_fr(&self) -> (r: String)
        ensures
            r@ == self.spec_details_fr(),
    {
        match self {
            OwaspFinding::GitMetadataExposed => owned("Métadonnées de dépôt interne accessibles publiquement (HTTP 200)."),
            OwaspFinding::GitMetadataBlocked(v) => {
                let mut s = owned("Accès aux ressources sensibles bloqué (HTTP ");
                push_decimal(&mut s, *v as u128);
                push_str(&mut s, ").");
                s
            },
            OwaspFinding::CleartextTransport => owned("Transport HTTP en clair sans chiffrement TLS."),
            OwaspFinding::EncryptedTransport => owned("Transport chiffré ou environnement local sain vérifié."),
            OwaspFinding::InjectionCrash(v) => {
                let mut s = owned("Crash 5xx non intercepté sur rupture syntaxique (HTTP ");
                push_decimal(&mut s, *v as u128);
                push_str(&mut s, ").");
                s
            },
            OwaspFinding::InjectionHandled(v) => {
                let mut s = owned("Entrée assainie ou rejetée en toute sécurité (HTTP ");
                push_decimal(&mut s, *v as u128);
                push_str(&mut s, ").");
                s
            },
            OwaspFinding::LoginUnreachable => owned("Point d'accès injoignable (Connexion refusée)."),
            OwaspFinding::RateLimited => owned("Limitation de débit anti-automatisation active (HTTP 429)."),
            OwaspFinding::NoRateLimit(v) => {
                let mut s = owned("Aucune limite après 15 requêtes rapides (HTTP ");
                push_decimal(&mut s, *v as u128);
                push_str(&mut s, ").");
                s
            },
            OwaspFinding::EnvFileExposed => owned("Le fichier d'environnement sensible /.env est exposé (HTTP 200)."),
            OwaspFinding::EnvFileProtected(v) => {
                let mut s = owned("Fichier de configuration protégé ou absent (HTTP ");
                push_decimal(&mut s, *v as u128);
                push_str(&mut s, ").");
                s
            },
            OwaspFinding::VersionDisclosed(v) => {
                let mut s = owned("Divulgation de versions logicielles : ");
                push_str(&mut s, v.as_str());
                push_str(&mut s, ".");
                s
            },
            OwaspFinding::NoVersionBanner => owned("Aucune bannière de version sensible divulguée."),
            OwaspFinding::EmptyAuthRejected(v) => {
                let mut s = owned("Authentification vide rejetée proprement (HTTP ");
                push_decimal(&mut s, *v as u128);
                push_str(&mut s, ").");
                s
            },
            OwaspFinding::EmptyAuthCrash(v) => {
                let mut s = owned("Le serveur a planté sur des identifiants vides (HTTP ");
                push_decimal(&mut s, *v as u128);
                push_str(&mut s, ").");
                s
            },
            OwaspFinding::EmptyAuthUnexpected(v) => {
                let mut s = owned("Réponse inattendue sur des identifiants vides (HTTP ");
                push_decimal(&mut s, *v as u128);
                push_str(&mut s, ").");
                s
            },
            OwaspFinding::PermissiveCors => owned("Origine CORS permissive avec reflet des crédits d'accès."),
            OwaspFinding::RestrictedCors => owned("En-têtes Cross-Origin correctement restreints ou absents."),
            OwaspFinding::Standard404 => owned("Réponse standard HTTP 404 retournée sans divulgation."),
            OwaspFinding::NonStandard404(v) => {
                let mut s = owned("Code de réponse inhabituel pour un point d'accès manquant (HTTP ");
                push_decimal(&mut s, *v as u128);
                push_str(&mut s, ").");
                s
            },
            OwaspFinding::SsrfCrash(v) => {
                let mut s = owned("Crash interne déclenché par les en-têtes proxy locaux (HTTP ");
                push_decimal(&mut s, *v as u128);
                push_str(&mut s, ").");
                s
            },
            OwaspFinding::SsrfHandled(v) => {
                let mut s = owned("En-têtes de boucle locale rejetés ou ignorés sans incidence (HTTP ");
                push_decimal(&mut s, *v as u128);
                push_str(&mut s, ").");
                s
            },
            OwaspFinding::ConnectionError(v) => {
                let mut s = owned("Erreur de connexion : ");
                push_str(&mut s, v.as_str());
                s
            },
            OwaspFinding::RequestFailed(v) => {
                let mut s = owned("Échec de requête : ");
                push_str(&mut s, v.as_str());
                s
            },
            OwaspFinding::CommunicationError(v) => {
                let mut s = owned("Erreur de communication : ");
                push_str(&mut s, v.as_str());
                s
            },
        }
    }
}

} // verus!
