//! Hunter: defensive posture auditing. The library holds the decisions of the
//! OWASP web probes, of the host hardening scenarios and of the plugin tests,
//! and the text layout of their reports; the program around it performs the
//! network, process and file work and prints.
pub mod cards;
pub mod cli;
pub mod owasp;
pub mod plugins;
pub mod owasp_text;
pub mod scenario_text;
pub mod scenarios;
pub mod session;
pub mod text;
pub mod verdict;
pub mod wrap;
