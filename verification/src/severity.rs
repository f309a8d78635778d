//! The three-level rule severity and its decoding.
//!
//! A severity is written either as a small integer (`0`/`1`/`2`) or as one of
//! the keywords `"off"`/`"warn"`/`"error"`; both spellings decode to the same
//! canonical value, and every other number or string fails to decode.

use crate::decode::str_eq;
use crate::value::Value;
use vstd::prelude::*;

verus! {

/// The enable state of a rule: disabled, reported as a warning, or reported
/// as an error.
#[derive(Clone, Copy, Debug, PartialEq, Eq, Structural)]
pub enum Severity {
    Off,
    Warn,
    Error,
}

impl DeepView for Severity {
    type V = Severity;

    open spec fn deep_view(&self) -> Severity {
        *self
    }
}

/// What a number means as a severity: `0` is off, `1` is warn, `2` is error,
/// and everything else fails to decode.
pub open spec fn severity_of_num(n: u64) -> Option<Severity> {
    if n == 0 {
        Some(Severity::Off)
    } else if n == 1 {
        Some(Severity::Warn)
    } else if n == 2 {
        Some(Severity::Error)
    } else {
        None
    }
}

/// What a string means as a severity: exactly the keywords `"off"`,
/// `"warn"` and `"error"` decode; every other string fails.
pub open spec fn severity_of_keyword(s: Seq<char>) -> Option<Severity> {
    if s == "off"@ {
        Some(Severity::Off)
    } else if s == "warn"@ {
        Some(Severity::Warn)
    } else if s == "error"@ {
        Some(Severity::Error)
    } else {
        None
    }
}

/// What a raw value means as a severity: numbers and strings decode by the
/// rules above, every other shape fails.
pub open spec fn severity_of_value(v: Value) -> Option<Severity> {
    match v {
        Value::Num(n) => severity_of_num(n),
        Value::Str(s) => severity_of_keyword(s@),
        _ => None,
    }
}

impl Severity {
    /// Decodes a severity from a number.
    pub fn from_number(n: u64) -> (r: Option<Severity>)
        ensures
            r == severity_of_num(n),
    {
        if n == 0 {
            Some(Severity::Off)
        } else if n == 1 {
            Some(Severity::Warn)
        } else if n == 2 {
            Some(Severity::Error)
        } else {
            None
        }
    }

    /// Decodes a severity from a keyword string.
    pub fn from_keyword(s: &str) -> (r: Option<Severity>)
        ensures
            r == severity_of_keyword(s@),
    {
        if str_eq(s, "off") {
            Some(Severity::Off)
        } else if str_eq(s, "warn") {
            Some(Severity::Warn)
        } else if str_eq(s, "error") {
            Some(Severity::Error)
        } else {
            None
        }
    }

    /// Decodes a severity from a raw value.
    pub fn from_value(v: &Value) -> (r: Option<Severity>)
        ensures
            r == severity_of_value(*v),
    {
        match v {
            Value::Num(n) => Severity::from_number(*n),
            Value::Str(s) => Severity::from_keyword(s.as_str()),
            _ => None,
        }
    }
}

/// Every severity has exactly two spellings, a numeric one and a keyword
/// one, and both decode to the same canonical value; any other number or
/// any other string fails to decode.
pub proof fn lemma_severity_decode_canonical()
    ensures
        severity_of_num(0) == Some(Severity::Off),
        severity_of_num(1) == Some(Severity::Warn),
        severity_of_num(2) == Some(Severity::Error),
        forall|n: u64| n > 2 ==> severity_of_num(n) is None,
        severity_of_keyword("off"@) == Some(Severity::Off),
        severity_of_keyword("warn"@) == Some(Severity::Warn),
        severity_of_keyword("error"@) == Some(Severity::Error),
        forall|s: Seq<char>|
            s != "off"@ && s != "warn"@ && s != "error"@ ==> severity_of_keyword(s) is None,
        forall|n: u64| severity_of_num(n) == severity_of_keyword(keyword_of_num(n)),
{
    reveal_strlit("off");
    reveal_strlit("warn");
    reveal_strlit("error");
    reveal_strlit("");
    assert forall|n: u64| severity_of_num(n) == severity_of_keyword(keyword_of_num(n)) by {
        assert("off"@.len() == 3 && "warn"@.len() == 4 && "error"@.len() == 5 && ""@.len() == 0);
    }
}

/// The keyword spelling that matches a numeric severity spelling; numbers
/// with no severity meaning map to the empty string, which has none either.
pub open spec fn keyword_of_num(n: u64) -> Seq<char> {
    if n == 0 {
        "off"@
    } else if n == 1 {
        "warn"@
    } else if n == 2 {
        "error"@
    } else {
        ""@
    }
}

} // verus!
