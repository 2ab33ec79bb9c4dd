use vstd::prelude::*;

verus! {

/// Outcome of a single security control.
#[derive(Debug, Clone, Copy, PartialEq, Eq, Structural)]
pub enum Verdict {
    Secure,
    Warning,
    Vulnerable,
    Error,
}

impl Verdict {
    /// Whether this verdict calls for a remediation playbook.
    pub fn needs_remediation(&self) -> (r: bool)
        ensures
            r <==> *self == Verdict::Vulnerable,
    {
        *self == Verdict::Vulnerable
    }
}

} // verus!
