//! Preset rule tables of the barrel-files plugin.

use crate::severity::Severity;
use vstd::prelude::*;

verus! {

/// The pairs of the plugin's `recommended` preset.
pub open spec fn spec_recommended() -> Seq<(Seq<char>, Severity)> {
    seq![
        ("barrel-files/avoid-barrel-files"@, Severity::Error),
        ("barrel-files/avoid-namespace-import"@, Severity::Error),
        ("barrel-files/avoid-re-export-all"@, Severity::Error),
    ]
}

/// The plugin's `recommended` preset.
pub fn recommended() -> (r: Vec<(&'static str, Severity)>)
    ensures
        r.deep_view() == spec_recommended(),
{
    let r: Vec<(&'static str, Severity)> = vec![
        ("barrel-files/avoid-barrel-files", Severity::Error),
        ("barrel-files/avoid-namespace-import", Severity::Error),
        ("barrel-files/avoid-re-export-all", Severity::Error),
    ];
    proof {
        assert(r.deep_view() =~= spec_recommended());
    }
    r
}

} // verus!
