//! Severity-tagged diagnostics collected while decoding a configuration.
//!
//! Decoding never aborts on a malformed field: the offending fragment is
//! dropped, a diagnostic is recorded, and decoding continues. Decoders only
//! ever append to the diagnostic list, and their contracts state both the
//! prefix relation between the list before and after the call and the exact
//! number of entries appended — so a dropped fragment provably reports
//! itself, while unknown fields, unknown rule names, and clean decodes
//! provably stay silent.

use vstd::prelude::*;

verus! {

/// How serious a decoding diagnostic is. Only `Fatal`, `Error` and `Warning`
/// diagnostics are surfaced to the user; `Info` is kept for completeness.
#[derive(Clone, Copy, Debug, PartialEq, Eq, Structural)]
pub enum DiagnosticSeverity {
    Fatal,
    Error,
    Warning,
    Info,
}

/// One decoding diagnostic: a severity and a human-readable message.
#[derive(Clone, Debug)]
pub struct Diagnostic {
    pub severity: DiagnosticSeverity,
    pub message: String,
}

impl Diagnostic {
    /// Builds a diagnostic from a severity and a message.
    pub fn new(severity: DiagnosticSeverity, message: &str) -> (r: Diagnostic)
        ensures
            r.severity == severity,
            r.message@ == message@,
    {
        Diagnostic { severity, message: message.to_owned() }
    }
}

/// Appending to a vector keeps every element already present: the old
/// contents are a prefix of the new ones. This lemma chains that relation
/// across two successive calls that each only append.
pub proof fn lemma_prefix_trans<A>(a: Seq<A>, b: Seq<A>, c: Seq<A>)
    requires
        a.is_prefix_of(b),
        b.is_prefix_of(c),
    ensures
        a.is_prefix_of(c),
{
    assert forall|i: int| 0 <= i < a.len() implies a[i] == c.subrange(0, a.len() as int)[i] by {
        assert(a[i] == b.subrange(0, a.len() as int)[i]);
        assert(b[i] == c.subrange(0, b.len() as int)[i]);
    }
    assert(a =~= c.subrange(0, a.len() as int));
}

} // verus!
