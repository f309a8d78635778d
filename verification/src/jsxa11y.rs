//! Configuration of the JSX accessibility plugin's rules, and the
//! translation of its aria-role options into the target model.

use crate::biome;
use crate::decode::{
    bool_diag_count, decode_vec, push_diag, spec_decode_list, spec_list_diag_count, str_eq,
    DecodeValue,
};
use crate::diagnostics::{lemma_prefix_trans, Diagnostic, DiagnosticSeverity};
use crate::severity::Severity;
use crate::value::Value;
use vstd::prelude::*;

verus! {

/// The options of the source aria-role rule.
#[derive(Clone, Debug, PartialEq)]
pub struct AriaRoleOptions {
    pub allow_invalid_roles: Vec<String>,
    pub ignore_non_dom: bool,
}

/// The mathematical shape of [`AriaRoleOptions`].
#[verifier::ext_equal]
pub struct AriaRoleOptionsView {
    pub allow_invalid_roles: Seq<Seq<char>>,
    pub ignore_non_dom: bool,
}

impl DeepView for AriaRoleOptions {
    type V = AriaRoleOptionsView;

    open spec fn deep_view(&self) -> AriaRoleOptionsView {
        AriaRoleOptionsView {
            allow_invalid_roles: self.allow_invalid_roles.deep_view(),
            ignore_non_dom: self.ignore_non_dom,
        }
    }
}

/// The options every field starts from.
pub open spec fn aria_role_init() -> AriaRoleOptionsView {
    AriaRoleOptionsView { allow_invalid_roles: Seq::empty(), ignore_non_dom: false }
}

/// How one object field updates partially decoded aria-role options.
pub open spec fn aria_role_step(acc: AriaRoleOptionsView, kv: (String, Value)) -> AriaRoleOptionsView {
    if kv.0@ == "allowInvalidRoles"@ {
        match spec_decode_list::<String>(kv.1) {
            Some(x) => (AriaRoleOptionsView { allow_invalid_roles: x, ..acc }),
            None => acc,
        }
    } else if kv.0@ == "ignoreNonDom"@ {
        match kv.1 {
            Value::Bool(b) => (AriaRoleOptionsView { ignore_non_dom: b, ..acc }),
            _ => acc,
        }
    } else {
        acc
    }
}

/// How many diagnostics one aria-role-options field records: the field
/// value's own count for the two known fields, none for unknown fields.
pub open spec fn aria_role_step_diag_count(kv: (String, Value)) -> nat {
    if kv.0@ == "allowInvalidRoles"@ {
        spec_list_diag_count::<String>(kv.1)
    } else if kv.0@ == "ignoreNonDom"@ {
        bool_diag_count(kv.1)
    } else {
        0
    }
}

/// How many diagnostics the fields of aria-role options record in all.
pub open spec fn aria_role_fold_diag_count(entries: Seq<(String, Value)>) -> nat
    decreases entries.len(),
{
    if entries.len() == 0 {
        0
    } else {
        aria_role_fold_diag_count(entries.drop_last()) + aria_role_step_diag_count(entries.last())
    }
}

/// How many diagnostics decoding a value as aria-role options records.
pub open spec fn aria_role_diag_count(v: Value) -> nat {
    match v {
        Value::Object(entries) => aria_role_fold_diag_count(entries@),
        _ => 1,
    }
}

/// The object fields of aria-role options, folded in source order.
pub open spec fn aria_role_fold(
    entries: Seq<(String, Value)>,
    acc: AriaRoleOptionsView,
) -> AriaRoleOptionsView
    decreases entries.len(),
{
    if entries.len() == 0 {
        acc
    } else {
        aria_role_step(aria_role_fold(entries.drop_last(), acc), entries.last())
    }
}

impl DecodeValue for AriaRoleOptions {
    open spec fn spec_decode(v: Value) -> Option<AriaRoleOptionsView> {
        match v {
            Value::Object(entries) => Some(aria_role_fold(entries@, aria_role_init())),
            _ => None,
        }
    }

    open spec fn spec_diag_count(v: Value) -> nat {
        aria_role_diag_count(v)
    }

    #[verifier::loop_isolation(false)]
    fn decode(v: &Value, diags: &mut Vec<Diagnostic>) -> (r: Option<AriaRoleOptions>) {
        match v {
            Value::Object(entries) => {
                let mut acc = AriaRoleOptions {
                    allow_invalid_roles: Vec::new(),
                    ignore_non_dom: false,
                };
                assert(acc.deep_view() =~= aria_role_init());
                let n = entries.len();
                let mut i: usize = 0;
                while i < n
                    invariant
                        i <= n,
                        acc.deep_view() == aria_role_fold(entries@.take(i as int), aria_role_init()),
                        old(diags)@.is_prefix_of(diags@),
                        diags@.len() == old(diags)@.len() + aria_role_fold_diag_count(
                            entries@.take(i as int),
                        ),
                    decreases n - i,
                {
                    let ghost dpre = diags@;
                    let ghost accpre = acc.deep_view();
                    proof {
                        assert(entries@.take(i + 1 as int).drop_last() =~= entries@.take(i as int));
                        assert(entries@.take(i + 1 as int).last() == entries@[i as int]);
                    }
                    let key = entries[i].0.as_str();
                    if str_eq(key, "allowInvalidRoles") {
                        match decode_vec::<String>(&entries[i].1, diags) {
                            Some(x) => {
                                acc = AriaRoleOptions { allow_invalid_roles: x, ..acc };
                            },
                            None => {},
                        }
                    } else if str_eq(key, "ignoreNonDom") {
                        match bool::decode(&entries[i].1, diags) {
                            Some(b) => {
                                acc = AriaRoleOptions { ignore_non_dom: b, ..acc };
                            },
                            None => {},
                        }
                    }
                    proof {
                        lemma_prefix_trans(old(diags)@, dpre, diags@);
                        assert(acc.deep_view() == aria_role_step(accpre, entries@[i as int]));
                    }
                    i += 1;
                }
                proof {
                    assert(entries@.take(n as int) =~= entries@);
                }
                Some(acc)
            },
            _ => {
                push_diag(diags, DiagnosticSeverity::Error, "Expected an object.");
                None
            },
        }
    }
}

impl AriaRoleOptions {
    /// Translates these options into the target's valid-aria-role options;
    /// both fields carry over unchanged.
    pub fn into_biome(self) -> (r: biome::ValidAriaRoleOptions)
        ensures
            r.deep_view().allow_invalid_roles == self.deep_view().allow_invalid_roles,
            r.deep_view().ignore_non_dom == self.deep_view().ignore_non_dom,
    {
        biome::ValidAriaRoleOptions {
            allow_invalid_roles: self.allow_invalid_roles,
            ignore_non_dom: self.ignore_non_dom,
        }
    }
}

/// The pairs of the plugin's `strict` preset.
pub open spec fn spec_strict() -> Seq<(Seq<char>, Severity)> {
    seq![
        ("jsx-a11y/alt-text"@, Severity::Error),
        ("jsx-a11y/anchor-has-content"@, Severity::Error),
        ("jsx-a11y/anchor-is-valid"@, Severity::Error),
        ("jsx-a11y/aria-activedescendant-has-tabindex"@, Severity::Error),
        ("jsx-a11y/aria-props"@, Severity::Error),
        ("jsx-a11y/aria-proptypes"@, Severity::Error),
        ("jsx-a11y/aria-role"@, Severity::Error),
        ("jsx-a11y/aria-unsupported-elements"@, Severity::Error),
        ("jsx-a11y/autocomplete-valid"@, Severity::Error),
        ("jsx-a11y/click-events-have-key-events"@, Severity::Error),
        ("jsx-a11y/control-has-associated-label"@, Severity::Off),
        ("jsx-a11y/heading-has-content"@, Severity::Error),
        ("jsx-a11y/html-has-lang"@, Severity::Error),
        ("jsx-a11y/iframe-has-title"@, Severity::Error),
        ("jsx-a11y/img-redundant-alt"@, Severity::Error),
        ("jsx-a11y/interactive-supports-focus"@, Severity::Error),
        ("jsx-a11y/label-has-for"@, Severity::Off),
        ("jsx-a11y/label-has-associated-control"@, Severity::Error),
        ("jsx-a11y/media-has-caption"@, Severity::Error),
        ("jsx-a11y/mouse-events-have-key-events"@, Severity::Error),
        ("jsx-a11y/no-access-key"@, Severity::Error),
        ("jsx-a11y/no-autofocus"@, Severity::Error),
        ("jsx-a11y/no-distracting-elements"@, Severity::Error),
        ("jsx-a11y/no-interactive-element-to-noninteractive-role"@, Severity::Error),
        ("jsx-a11y/no-noninteractive-element-interactions"@, Severity::Error),
        ("jsx-a11y/no-noninteractive-element-to-interactive-role"@, Severity::Error),
        ("jsx-a11y/no-noninteractive-tabindex"@, Severity::Error),
        ("jsx-a11y/no-redundant-roles"@, Severity::Error),
        ("jsx-a11y/no-static-element-interactions"@, Severity::Error),
        ("jsx-a11y/role-has-required-aria-props"@, Severity::Error),
        ("jsx-a11y/role-supports-aria-props"@, Severity::Error),
        ("jsx-a11y/scope"@, Severity::Error),
        ("jsx-a11y/tabindex-no-positive"@, Severity::Error),
    ]
}

/// The plugin's `strict` preset.
pub fn strict() -> (r: Vec<(&'static str, Severity)>)
    ensures
        r.deep_view() == spec_strict(),
{
    let r: Vec<(&'static str, Severity)> = vec![
        ("jsx-a11y/alt-text", Severity::Error),
        ("jsx-a11y/anchor-has-content", Severity::Error),
        ("jsx-a11y/anchor-is-valid", Severity::Error),
        ("jsx-a11y/aria-activedescendant-has-tabindex", Severity::Error),
        ("jsx-a11y/aria-props", Severity::Error),
        ("jsx-a11y/aria-proptypes", Severity::Error),
        ("jsx-a11y/aria-role", Severity::Error),
        ("jsx-a11y/aria-unsupported-elements", Severity::Error),
        ("jsx-a11y/autocomplete-valid", Severity::Error),
        ("jsx-a11y/click-events-have-key-events", Severity::Error),
        ("jsx-a11y/control-has-associated-label", Severity::Off),
        ("jsx-a11y/heading-has-content", Severity::Error),
        ("jsx-a11y/html-has-lang", Severity::Error),
        ("jsx-a11y/iframe-has-title", Severity::Error),
        ("jsx-a11y/img-redundant-alt", Severity::Error),
        ("jsx-a11y/interactive-supports-focus", Severity::Error),
        ("jsx-a11y/label-has-for", Severity::Off),
        ("jsx-a11y/label-has-associated-control", Severity::Error),
        ("jsx-a11y/media-has-caption", Severity::Error),
        ("jsx-a11y/mouse-events-have-key-events", Severity::Error),
        ("jsx-a11y/no-access-key", Severity::Error),
        ("jsx-a11y/no-autofocus", Severity::Error),
        ("jsx-a11y/no-distracting-elements", Severity::Error),
        ("jsx-a11y/no-interactive-element-to-noninteractive-role", Severity::Error),
        ("jsx-a11y/no-noninteractive-element-interactions", Severity::Error),
        ("jsx-a11y/no-noninteractive-element-to-interactive-role", Severity::Error),
        ("jsx-a11y/no-noninteractive-tabindex", Severity::Error),
        ("jsx-a11y/no-redundant-roles", Severity::Error),
        ("jsx-a11y/no-static-element-interactions", Severity::Error),
        ("jsx-a11y/role-has-required-aria-props", Severity::Error),
        ("jsx-a11y/role-supports-aria-props", Severity::Error),
        ("jsx-a11y/scope", Severity::Error),
        ("jsx-a11y/tabindex-no-positive", Severity::Error),
    ];
    proof {
        assert(r.deep_view() =~= spec_strict());
    }
    r
}

/// The pairs of the plugin's rules that its `recommended` preset turns off relative to
pub open spec fn spec_disabled_in_recommended() -> Seq<(Seq<char>, Severity)> {
    seq![
        ("jsx-a11y/anchor-ambiguous-text"@, Severity::Off),
    ]
}

/// The plugin's rules that its `recommended` preset turns off relative to
/// `strict`.
pub fn disabled_in_recommended() -> (r: Vec<(&'static str, Severity)>)
    ensures
        r.deep_view() == spec_disabled_in_recommended(),
{
    let r: Vec<(&'static str, Severity)> = vec![
        ("jsx-a11y/anchor-ambiguous-text", Severity::Off),
    ];
    proof {
        assert(r.deep_view() =~= spec_disabled_in_recommended());
    }
    r
}

} // verus!
