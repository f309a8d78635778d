//! Preset rule tables of the import plugin.

use crate::severity::Severity;
use vstd::prelude::*;

verus! {

/// The pairs of the plugin's rules reported as errors.
pub open spec fn spec_errors() -> Seq<(Seq<char>, Severity)> {
    seq![
        ("import/named"@, Severity::Error),
        ("import/namespace"@, Severity::Error),
        ("import/default"@, Severity::Error),
        ("import/export"@, Severity::Error),
    ]
}

/// The plugin's rules reported as errors.
pub fn errors() -> (r: Vec<(&'static str, Severity)>)
    ensures
        r.deep_view() == spec_errors(),
{
    let r: Vec<(&'static str, Severity)> = vec![
        ("import/named", Severity::Error),
        ("import/namespace", Severity::Error),
        ("import/default", Severity::Error),
        ("import/export", Severity::Error),
    ];
    proof {
        assert(r.deep_view() =~= spec_errors());
    }
    r
}

/// The pairs of the plugin's rules reported as warnings.
pub open spec fn spec_warnings() -> Seq<(Seq<char>, Severity)> {
    seq![
        ("import/no-named-as-default"@, Severity::Warn),
        ("import/no-named-as-default-member"@, Severity::Warn),
        ("import/no-duplicates"@, Severity::Warn),
    ]
}

/// The plugin's rules reported as warnings.
pub fn warnings() -> (r: Vec<(&'static str, Severity)>)
    ensures
        r.deep_view() == spec_warnings(),
{
    let r: Vec<(&'static str, Severity)> = vec![
        ("import/no-named-as-default", Severity::Warn),
        ("import/no-named-as-default-member", Severity::Warn),
        ("import/no-duplicates", Severity::Warn),
    ];
    proof {
        assert(r.deep_view() =~= spec_warnings());
    }
    r
}

} // verus!
