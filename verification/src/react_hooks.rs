//! Preset rule tables of the React hooks plugin.

use crate::severity::Severity;
use vstd::prelude::*;

verus! {

/// The pairs of the plugin's `recommended` preset.
pub open spec fn spec_recommended() -> Seq<(Seq<char>, Severity)> {
    seq![
        ("react-hooks/rules-of-hooks"@, Severity::Error),
        ("react-hooks/exhaustive-deps"@, Severity::Warn),
    ]
}

/// The plugin's `recommended` preset.
pub fn recommended() -> (r: Vec<(&'static str, Severity)>)
    ensures
        r.deep_view() == spec_recommended(),
{
    let r: Vec<(&'static str, Severity)> = vec![
        ("react-hooks/rules-of-hooks", Severity::Error),
        ("react-hooks/exhaustive-deps", Severity::Warn),
    ];
    proof {
        assert(r.deep_view() =~= spec_recommended());
    }
    r
}

} // verus!
