//! The rule identity model: each configured rule is a name-keyed entity.
//!
//! A handful of rules with hand-modeled option shapes get a variant of
//! their own; every other rule is kept as its name and severity. A rule
//! set never holds two rules with the same name, and inserting a rule that
//! is already configured replaces the prior entry — which makes "the last
//! configuration wins" hold under merging, and merging idempotent.

use crate::decode::{push_diag, str_eq, DecodeValue};
use crate::diagnostics::{lemma_prefix_trans, Diagnostic, DiagnosticSeverity};
use crate::jsxa11y::AriaRoleOptions;
use crate::name_map::{
    keys_distinct, lemma_insert_pairs, lemma_merge_get, lemma_merge_pairs,
    lemma_merge_self_identity, map_get, map_has_key, map_insert, map_merge, NameMap,
};
use crate::rule_conf::{
    decode_conf, decode_severity_conf, spec_conf_diag_count, spec_decode_conf,
    spec_decode_severity_conf, spec_severity_conf_diag_count, RuleConf, RuleConfView,
};
use crate::severity::Severity;
use crate::typescript::{ArrayTypeOptions, NamingConventionSelection};
use crate::unicorn::FilenameCaseOptions;
use crate::value::Value;
use vstd::prelude::*;

verus! {

/// A restricted global: a bare name, or a name with a custom message.
#[derive(Clone, Debug, PartialEq)]
pub enum NoRestrictedGlobal {
    Plain(String),
    WithMessage(GlobalWithMessage),
}

/// A restricted global together with the message reported for it.
#[derive(Clone, Debug, PartialEq)]
pub struct GlobalWithMessage {
    pub name: String,
    pub message: String,
}

/// The mathematical shape of [`GlobalWithMessage`].
#[verifier::ext_equal]
pub struct GlobalWithMessageView {
    pub name: Seq<char>,
    pub message: Seq<char>,
}

impl DeepView for GlobalWithMessage {
    type V = GlobalWithMessageView;

    open spec fn deep_view(&self) -> GlobalWithMessageView {
        GlobalWithMessageView { name: self.name@, message: self.message@ }
    }
}

/// The mathematical shape of [`NoRestrictedGlobal`].
#[verifier::ext_equal]
pub enum NoRestrictedGlobalView {
    Plain(Seq<char>),
    WithMessage(GlobalWithMessageView),
}

impl DeepView for NoRestrictedGlobal {
    type V = NoRestrictedGlobalView;

    open spec fn deep_view(&self) -> NoRestrictedGlobalView {
        match self {
            NoRestrictedGlobal::Plain(name) => NoRestrictedGlobalView::Plain(name@),
            NoRestrictedGlobal::WithMessage(g) => NoRestrictedGlobalView::WithMessage(
                g.deep_view(),
            ),
        }
    }
}

impl NoRestrictedGlobalView {
    /// The restricted global's name, whichever shape carries it.
    pub open spec fn name(self) -> Seq<char> {
        match self {
            NoRestrictedGlobalView::Plain(name) => name,
            NoRestrictedGlobalView::WithMessage(g) => g.name,
        }
    }
}

impl NoRestrictedGlobal {
    /// The restricted global's name, discarding any message.
    pub fn into_name(self) -> (r: String)
        ensures
            r@ == self.deep_view().name(),
    {
        match self {
            NoRestrictedGlobal::Plain(name) => name,
            NoRestrictedGlobal::WithMessage(named) => named.name,
        }
    }
}

/// The message-object fields every field starts from.
pub open spec fn global_with_message_init() -> GlobalWithMessageView {
    GlobalWithMessageView { name: Seq::empty(), message: Seq::empty() }
}

/// How one object field updates a partially decoded message object.
pub open spec fn global_with_message_step(
    acc: GlobalWithMessageView,
    kv: (String, Value),
) -> GlobalWithMessageView {
    if kv.0@ == "name"@ {
        match kv.1 {
            Value::Str(s) => (GlobalWithMessageView { name: s@, ..acc }),
            _ => acc,
        }
    } else if kv.0@ == "message"@ {
        match kv.1 {
            Value::Str(s) => (GlobalWithMessageView { message: s@, ..acc }),
            _ => acc,
        }
    } else {
        acc
    }
}

/// The object fields of a message object, folded in source order.
pub open spec fn global_with_message_fold(
    entries: Seq<(String, Value)>,
    acc: GlobalWithMessageView,
) -> GlobalWithMessageView
    decreases entries.len(),
{
    if entries.len() == 0 {
        acc
    } else {
        global_with_message_step(
            global_with_message_fold(entries.drop_last(), acc),
            entries.last(),
        )
    }
}

/// What a value decodes to as a restricted global: a string is a bare
/// name, an object carries a name and a message, everything else fails.
pub open spec fn spec_decode_restricted_global(v: Value) -> Option<NoRestrictedGlobalView> {
    match v {
        Value::Str(s) => Some(NoRestrictedGlobalView::Plain(s@)),
        Value::Object(entries) => Some(
            NoRestrictedGlobalView::WithMessage(
                global_with_message_fold(entries@, global_with_message_init()),
            ),
        ),
        _ => None,
    }
}

/// How many diagnostics decoding a value as a restricted global records:
/// none for a string or an object — a non-string field inside the object
/// is silently ignored — and one for anything else.
pub open spec fn restricted_global_diag_count(v: Value) -> nat {
    match v {
        Value::Str(_) => 0,
        Value::Object(_) => 0,
        _ => 1,
    }
}

impl DecodeValue for NoRestrictedGlobal {
    open spec fn spec_decode(v: Value) -> Option<NoRestrictedGlobalView> {
        spec_decode_restricted_global(v)
    }

    open spec fn spec_diag_count(v: Value) -> nat {
        restricted_global_diag_count(v)
    }

    #[verifier::loop_isolation(false)]
    fn decode(v: &Value, diags: &mut Vec<Diagnostic>) -> (r: Option<NoRestrictedGlobal>) {
        match v {
            Value::Str(s) => Some(NoRestrictedGlobal::Plain(s.clone())),
            Value::Object(entries) => {
                let mut acc = GlobalWithMessage { name: String::new(), message: String::new() };
                assert(acc.deep_view() =~= global_with_message_init());
                let n = entries.len();
                let mut i: usize = 0;
                while i < n
                    invariant
                        i <= n,
                        acc.deep_view() == global_with_message_fold(
                            entries@.take(i as int),
                            global_with_message_init(),
                        ),
                        old(diags)@.is_prefix_of(diags@),
                    decreases n - i,
                {
                    let ghost accpre = acc.deep_view();
                    proof {
                        assert(entries@.take(i + 1 as int).drop_last() =~= entries@.take(i as int));
                        assert(entries@.take(i + 1 as int).last() == entries@[i as int]);
                    }
                    let key = entries[i].0.as_str();
                    if str_eq(key, "name") {
                        match &entries[i].1 {
                            Value::Str(s) => {
                                acc = GlobalWithMessage { name: s.clone(), ..acc };
                            },
                            _ => {},
                        }
                    } else if str_eq(key, "message") {
                        match &entries[i].1 {
                            Value::Str(s) => {
                                acc = GlobalWithMessage { message: s.clone(), ..acc };
                            },
                            _ => {},
                        }
                    }
                    proof {
                        assert(acc.deep_view() == global_with_message_step(
                            accpre,
                            entries@[i as int],
                        ));
                    }
                    i += 1;
                }
                proof {
                    assert(entries@.take(n as int) =~= entries@);
                }
                Some(NoRestrictedGlobal::WithMessage(acc))
            },
            _ => {
                push_diag(diags, DiagnosticSeverity::Error, "Expected a string or an object.");
                None
            },
        }
    }
}

/// One configured rule: any rule as its name and severity, or one of the
/// rules whose option shape is hand-modeled, wrapping its decoded
/// configuration.
#[derive(Clone, Debug, PartialEq)]
pub enum Rule {
    /// Any rule without its options.
    Any(String, Severity),
    NoRestrictedGlobals(RuleConf<NoRestrictedGlobal>),
    Jsxa11yAriaRole(RuleConf<AriaRoleOptions>),
    TypeScriptArrayType(RuleConf<ArrayTypeOptions>),
    TypeScriptNamingConvention(RuleConf<NamingConventionSelection>),
    UnicornFilenameCase(RuleConf<FilenameCaseOptions>),
}

/// The mathematical shape of a [`Rule`].
#[verifier::ext_equal]
pub enum RuleView {
    Any(Seq<char>, Severity),
    NoRestrictedGlobals(RuleConfView<NoRestrictedGlobalView, ()>),
    Jsxa11yAriaRole(RuleConfView<crate::jsxa11y::AriaRoleOptionsView, ()>),
    TypeScriptArrayType(RuleConfView<ArrayTypeOptions, ()>),
    TypeScriptNamingConvention(
        RuleConfView<crate::typescript::NamingConventionSelectionView, ()>,
    ),
    UnicornFilenameCase(RuleConfView<crate::unicorn::FilenameCaseOptionsView, ()>),
}

impl DeepView for Rule {
    type V = RuleView;

    open spec fn deep_view(&self) -> RuleView {
        match self {
            Rule::Any(name, sev) => RuleView::Any(name@, *sev),
            Rule::NoRestrictedGlobals(c) => RuleView::NoRestrictedGlobals(c.deep_view()),
            Rule::Jsxa11yAriaRole(c) => RuleView::Jsxa11yAriaRole(c.deep_view()),
            Rule::TypeScriptArrayType(c) => RuleView::TypeScriptArrayType(c.deep_view()),
            Rule::TypeScriptNamingConvention(c) => RuleView::TypeScriptNamingConvention(
                c.deep_view(),
            ),
            Rule::UnicornFilenameCase(c) => RuleView::UnicornFilenameCase(c.deep_view()),
        }
    }
}

impl RuleView {
    /// The rule's name: its identity, and the key into the migration table.
    pub open spec fn name(self) -> Seq<char> {
        match self {
            RuleView::Any(name, _) => name,
            RuleView::NoRestrictedGlobals(_) => "no-restricted-globals"@,
            RuleView::Jsxa11yAriaRole(_) => "jsx-a11y/aria-role"@,
            RuleView::TypeScriptArrayType(_) => "@typescript-eslint/array-type"@,
            RuleView::TypeScriptNamingConvention(_) => "@typescript-eslint/naming-convention"@,
            RuleView::UnicornFilenameCase(_) => "unicorn/filename-case"@,
        }
    }

    /// The severity the rule is configured at.
    pub open spec fn severity(self) -> Severity {
        match self {
            RuleView::Any(_, sev) => sev,
            RuleView::NoRestrictedGlobals(c) => c.severity(),
            RuleView::Jsxa11yAriaRole(c) => c.severity(),
            RuleView::TypeScriptArrayType(c) => c.severity(),
            RuleView::TypeScriptNamingConvention(c) => c.severity(),
            RuleView::UnicornFilenameCase(c) => c.severity(),
        }
    }
}

/// The rule a name-and-severity pair constructs: the correctly specialized
/// variant for each hand-modeled rule, the plain variant for every other
/// name.
pub open spec fn spec_rule_new(name: Seq<char>, severity: Severity) -> RuleView {
    if name == "no-restricted-globals"@ {
        RuleView::NoRestrictedGlobals(RuleConfView::Severity(severity))
    } else if name == "jsx-a11y/aria-role"@ {
        RuleView::Jsxa11yAriaRole(RuleConfView::Severity(severity))
    } else if name == "@typescript-eslint/array-type"@ {
        RuleView::TypeScriptArrayType(RuleConfView::Severity(severity))
    } else if name == "@typescript-eslint/naming-convention"@ {
        RuleView::TypeScriptNamingConvention(RuleConfView::Severity(severity))
    } else if name == "unicorn/filename-case"@ {
        RuleView::UnicornFilenameCase(RuleConfView::Severity(severity))
    } else {
        RuleView::Any(name, severity)
    }
}

/// Constructing a rule from a name and projecting the name back are
/// inverse: a rule's identity is exactly the name it was built from.
pub proof fn lemma_rule_new_name(name: Seq<char>, severity: Severity)
    ensures
        spec_rule_new(name, severity).name() == name,
        spec_rule_new(name, severity).severity() == severity,
{
}

impl Rule {
    /// Builds the correctly specialized rule for a name-and-severity pair.
    pub fn new(name: &str, severity: Severity) -> (r: Rule)
        ensures
            r.deep_view() == spec_rule_new(name@, severity),
    {
        if str_eq(name, "no-restricted-globals") {
            Rule::NoRestrictedGlobals(RuleConf::Severity(severity))
        } else if str_eq(name, "jsx-a11y/aria-role") {
            Rule::Jsxa11yAriaRole(RuleConf::Severity(severity))
        } else if str_eq(name, "@typescript-eslint/array-type") {
            Rule::TypeScriptArrayType(RuleConf::Severity(severity))
        } else if str_eq(name, "@typescript-eslint/naming-convention") {
            Rule::TypeScriptNamingConvention(RuleConf::Severity(severity))
        } else if str_eq(name, "unicorn/filename-case") {
            Rule::UnicornFilenameCase(RuleConf::Severity(severity))
        } else {
            Rule::Any(name.to_owned(), severity)
        }
    }

    /// The rule's name: the inverse of [`Rule::new`]'s name argument, and
    /// the key under which the rule is stored and looked up.
    pub fn name(&self) -> (r: String)
        ensures
            r@ == self.deep_view().name(),
    {
        match self {
            Rule::Any(name, _) => name.clone(),
            Rule::NoRestrictedGlobals(_) => "no-restricted-globals".to_owned(),
            Rule::Jsxa11yAriaRole(_) => "jsx-a11y/aria-role".to_owned(),
            Rule::TypeScriptArrayType(_) => "@typescript-eslint/array-type".to_owned(),
            Rule::TypeScriptNamingConvention(_) => {
                "@typescript-eslint/naming-convention".to_owned()
            },
            Rule::UnicornFilenameCase(_) => "unicorn/filename-case".to_owned(),
        }
    }

    /// The severity the rule is configured at.
    pub fn severity(&self) -> (r: Severity)
        ensures
            r == self.deep_view().severity(),
    {
        match self {
            Rule::Any(_, sev) => *sev,
            Rule::NoRestrictedGlobals(c) => c.severity(),
            Rule::Jsxa11yAriaRole(c) => c.severity(),
            Rule::TypeScriptArrayType(c) => c.severity(),
            Rule::TypeScriptNamingConvention(c) => c.severity(),
            Rule::UnicornFilenameCase(c) => c.severity(),
        }
    }
}

/// A name-unique set of rules, stored as a map keyed by rule name.
#[derive(Debug)]
pub struct Rules {
    pub map: NameMap<Rule>,
}

impl DeepView for Rules {
    type V = Seq<(Seq<char>, RuleView)>;

    open spec fn deep_view(&self) -> Seq<(Seq<char>, RuleView)> {
        self.map.deep_view()
    }
}

/// Every stored pair keys a rule by exactly that rule's own name.
pub open spec fn rules_keyed_by_name(s: Seq<(Seq<char>, RuleView)>) -> bool {
    forall|i: int| 0 <= i < s.len() ==> (#[trigger] s[i]).0 == s[i].1.name()
}

impl Rules {
    /// The names never repeat, and each rule is stored under its own name.
    pub open spec fn wf(&self) -> bool {
        keys_distinct(self.deep_view()) && rules_keyed_by_name(self.deep_view())
    }

    /// The empty rule set.
    pub fn new() -> (r: Rules)
        ensures
            r.deep_view() =~= Seq::<(Seq<char>, RuleView)>::empty(),
            r.wf(),
    {
        Rules { map: NameMap::new() }
    }

    /// How many rules are configured.
    pub fn len(&self) -> (r: usize)
        ensures
            r == self.deep_view().len(),
    {
        self.map.len()
    }

    /// Whether no rule is configured.
    pub fn is_empty(&self) -> (r: bool)
        ensures
            r == (self.deep_view().len() == 0),
    {
        self.map.is_empty()
    }

    /// Looks a rule up by name.
    pub fn get(&self, name: &str) -> (r: Option<&Rule>)
        ensures
            r.deep_view() == map_get(self.deep_view(), name@),
    {
        self.map.get(name)
    }

    /// Inserts a rule under its own name, replacing any rule already
    /// configured under that name.
    pub fn insert(&mut self, rule: Rule)
        ensures
            final(self).deep_view() == map_insert(
                old(self).deep_view(),
                rule.deep_view().name(),
                rule.deep_view(),
            ),
            old(self).wf() ==> final(self).wf(),
    {
        let ghost rv = rule.deep_view();
        let name = rule.name();
        self.map.insert(name, rule);
        proof {
            if old(self).wf() {
                let p = |kv: (Seq<char>, RuleView)| kv.0 == kv.1.name();
                lemma_insert_pairs(old(self).deep_view(), rv.name(), rv, p);
            }
        }
    }

    /// Set union keyed by rule name: every incoming rule is inserted in
    /// order, so an incoming rule overwrites a present one with the same
    /// name — the later configuration wins.
    pub fn merge_with(&mut self, other: Rules)
        ensures
            final(self).deep_view() == map_merge(old(self).deep_view(), other.deep_view()),
            old(self).wf() && rules_keyed_by_name(other.deep_view()) ==> final(self).wf(),
    {
        let ghost t = other.deep_view();
        self.map.merge_with(other.map);
        proof {
            if old(self).wf() && rules_keyed_by_name(t) {
                let p = |kv: (Seq<char>, RuleView)| kv.0 == kv.1.name();
                lemma_merge_pairs(old(self).deep_view(), t, p);
            }
        }
    }

    /// Builds a rule set from name-and-severity pairs, in order, later
    /// pairs overwriting earlier ones with the same name.
    #[verifier::loop_isolation(false)]
    pub fn from_iter(pairs: Vec<(&'static str, Severity)>) -> (r: Rules)
        ensures
            r.deep_view() == rules_from_pairs(pairs.deep_view()),
            r.wf(),
    {
        let mut rules = Rules::new();
        let n = pairs.len();
        let mut i: usize = 0;
        while i < n
            invariant
                i <= n,
                rules.deep_view() == rules_from_pairs(pairs.deep_view().take(i as int)),
                rules.wf(),
            decreases n - i,
        {
            proof {
                assert(pairs.deep_view().take(i + 1 as int).drop_last() =~= pairs.deep_view().take(
                    i as int,
                ));
                assert(pairs.deep_view().take(i + 1 as int).last() == pairs.deep_view()[i as int]);
            }
            let rule = Rule::new(pairs[i].0, pairs[i].1);
            rules.insert(rule);
            i += 1;
        }
        proof {
            assert(pairs.deep_view().take(n as int) =~= pairs.deep_view());
        }
        rules
    }
}

/// The rule set that a list of name-and-severity pairs builds, in order.
pub open spec fn rules_from_pairs(pairs: Seq<(Seq<char>, Severity)>) -> Seq<
    (Seq<char>, RuleView),
>
    decreases pairs.len(),
{
    if pairs.len() == 0 {
        Seq::empty()
    } else {
        let prev = rules_from_pairs(pairs.drop_last());
        let r = spec_rule_new(pairs.last().0, pairs.last().1);
        map_insert(prev, r.name(), r)
    }
}

/// How one rule-map entry updates a partially decoded rule set: the five
/// hand-modeled names decode their full option shape, every other name
/// keeps its severity alone, and an entry whose value fails to decode is
/// dropped.
pub open spec fn rules_decode_step(
    acc: Seq<(Seq<char>, RuleView)>,
    kv: (String, Value),
) -> Seq<(Seq<char>, RuleView)> {
    if kv.0@ == "no-restricted-globals"@ {
        match spec_decode_conf::<NoRestrictedGlobal>(kv.1) {
            Some(c) => map_insert(acc, kv.0@, RuleView::NoRestrictedGlobals(c)),
            None => acc,
        }
    } else if kv.0@ == "jsx-a11y/aria-role"@ {
        match spec_decode_conf::<AriaRoleOptions>(kv.1) {
            Some(c) => map_insert(acc, kv.0@, RuleView::Jsxa11yAriaRole(c)),
            None => acc,
        }
    } else if kv.0@ == "@typescript-eslint/array-type"@ {
        match spec_decode_conf::<ArrayTypeOptions>(kv.1) {
            Some(c) => map_insert(acc, kv.0@, RuleView::TypeScriptArrayType(c)),
            None => acc,
        }
    } else if kv.0@ == "@typescript-eslint/naming-convention"@ {
        match spec_decode_conf::<NamingConventionSelection>(kv.1) {
            Some(c) => map_insert(acc, kv.0@, RuleView::TypeScriptNamingConvention(c)),
            None => acc,
        }
    } else if kv.0@ == "unicorn/filename-case"@ {
        match spec_decode_conf::<FilenameCaseOptions>(kv.1) {
            Some(c) => map_insert(acc, kv.0@, RuleView::UnicornFilenameCase(c)),
            None => acc,
        }
    } else {
        match spec_decode_severity_conf(kv.1) {
            Some(sev) => map_insert(acc, kv.0@, RuleView::Any(kv.0@, sev)),
            None => acc,
        }
    }
}

/// The entries of a rule map, folded in source order.
pub open spec fn rules_decode_fold(
    entries: Seq<(String, Value)>,
    acc: Seq<(Seq<char>, RuleView)>,
) -> Seq<(Seq<char>, RuleView)>
    decreases entries.len(),
{
    if entries.len() == 0 {
        acc
    } else {
        rules_decode_step(rules_decode_fold(entries.drop_last(), acc), entries.last())
    }
}

/// How many diagnostics one rule-map entry records: the full option
/// decode's count for the five hand-modeled names, the severity decode's
/// count for every other name — so an unknown rule name whose value
/// decodes records none.
pub open spec fn rules_entry_diag_count(kv: (String, Value)) -> nat {
    if kv.0@ == "no-restricted-globals"@ {
        spec_conf_diag_count::<NoRestrictedGlobal>(kv.1)
    } else if kv.0@ == "jsx-a11y/aria-role"@ {
        spec_conf_diag_count::<AriaRoleOptions>(kv.1)
    } else if kv.0@ == "@typescript-eslint/array-type"@ {
        spec_conf_diag_count::<ArrayTypeOptions>(kv.1)
    } else if kv.0@ == "@typescript-eslint/naming-convention"@ {
        spec_conf_diag_count::<NamingConventionSelection>(kv.1)
    } else if kv.0@ == "unicorn/filename-case"@ {
        spec_conf_diag_count::<FilenameCaseOptions>(kv.1)
    } else {
        spec_severity_conf_diag_count(kv.1)
    }
}

/// How many diagnostics the entries of a rule map record in all.
pub open spec fn rules_fold_diag_count(entries: Seq<(String, Value)>) -> nat
    decreases entries.len(),
{
    if entries.len() == 0 {
        0
    } else {
        rules_fold_diag_count(entries.drop_last()) + rules_entry_diag_count(entries.last())
    }
}

/// How many diagnostics decoding a value as a rule set records.
pub open spec fn rules_diag_count(v: Value) -> nat {
    match v {
        Value::Object(entries) => rules_fold_diag_count(entries@),
        _ => 1,
    }
}

/// What a value decodes to as a rule set: an object whose entries are
/// folded in order, or a failure for any other shape.
pub open spec fn spec_decode_rules(v: Value) -> Option<Seq<(Seq<char>, RuleView)>> {
    match v {
        Value::Object(entries) => Some(rules_decode_fold(entries@, Seq::empty())),
        _ => None,
    }
}

impl Rules {
    /// Decodes a rule map: each entry keyed by a rule name, each value a
    /// rule configuration. A malformed entry is dropped with a diagnostic
    /// without invalidating the rest of the map.
    #[verifier::loop_isolation(false)]
    pub fn deserialize(v: &Value, diags: &mut Vec<Diagnostic>) -> (r: Option<Rules>)
        ensures
            match r {
                Some(rules) => {
                    &&& spec_decode_rules(*v) == Some(rules.deep_view())
                    &&& rules.wf()
                },
                None => spec_decode_rules(*v) is None,
            },
            old(diags)@.is_prefix_of(final(diags)@),
            final(diags)@.len() == old(diags)@.len() + rules_diag_count(*v),
            rules_diag_count(*v) == 0 ==> final(diags)@ == old(diags)@,
    {
        match v {
            Value::Object(entries) => {
                let mut rules = Rules::new();
                let n = entries.len();
                let mut i: usize = 0;
                while i < n
                    invariant
                        i <= n,
                        rules.deep_view() == rules_decode_fold(
                            entries@.take(i as int),
                            Seq::empty(),
                        ),
                        rules.wf(),
                        old(diags)@.is_prefix_of(diags@),
                        diags@.len() == old(diags)@.len() + rules_fold_diag_count(
                            entries@.take(i as int),
                        ),
                    decreases n - i,
                {
                    let ghost dpre = diags@;
                    let ghost accpre = rules.deep_view();
                    proof {
                        assert(entries@.take(i + 1 as int).drop_last() =~= entries@.take(i as int));
                        assert(entries@.take(i + 1 as int).last() == entries@[i as int]);
                        assert(rules_fold_diag_count(entries@.take(i + 1 as int))
                            == rules_fold_diag_count(entries@.take(i as int))
                            + rules_entry_diag_count(entries@[i as int]));
                    }
                    let key = entries[i].0.as_str();
                    if str_eq(key, "no-restricted-globals") {
                        match decode_conf::<NoRestrictedGlobal>(&entries[i].1, diags) {
                            Some(conf) => {
                                rules.insert(Rule::NoRestrictedGlobals(conf));
                            },
                            None => {},
                        }
                    } else if str_eq(key, "jsx-a11y/aria-role") {
                        match decode_conf::<AriaRoleOptions>(&entries[i].1, diags) {
                            Some(conf) => {
                                rules.insert(Rule::Jsxa11yAriaRole(conf));
                            },
                            None => {},
                        }
                    } else if str_eq(key, "@typescript-eslint/array-type") {
                        match decode_conf::<ArrayTypeOptions>(&entries[i].1, diags) {
                            Some(conf) => {
                                rules.insert(Rule::TypeScriptArrayType(conf));
                            },
                            None => {},
                        }
                    } else if str_eq(key, "@typescript-eslint/naming-convention") {
                        match decode_conf::<NamingConventionSelection>(&entries[i].1, diags) {
                            Some(conf) => {
                                rules.insert(Rule::TypeScriptNamingConvention(conf));
                            },
                            None => {},
                        }
                    } else if str_eq(key, "unicorn/filename-case") {
                        match decode_conf::<FilenameCaseOptions>(&entries[i].1, diags) {
                            Some(conf) => {
                                rules.insert(Rule::UnicornFilenameCase(conf));
                            },
                            None => {},
                        }
                    } else {
                        match decode_severity_conf(&entries[i].1, diags) {
                            Some(sev) => {
                                rules.insert(Rule::Any(entries[i].0.clone(), sev));
                            },
                            None => {},
                        }
                    }
                    proof {
                        lemma_prefix_trans(old(diags)@, dpre, diags@);
                        assert(rules.deep_view() == rules_decode_step(accpre, entries@[i as int]));
                    }
                    i += 1;
                }
                proof {
                    assert(entries@.take(n as int) =~= entries@);
                }
                Some(rules)
            },
            _ => {
                push_diag(diags, DiagnosticSeverity::Error, "Expected an object.");
                None
            },
        }
    }
}

/// Idempotence of rule merge: merging a rule set with itself yields the
/// identical set — name-keyed overwrite is idempotent.
pub proof fn lemma_rules_merge_idempotent(s: Rules)
    requires
        s.wf(),
    ensures
        map_merge(s.deep_view(), s.deep_view()) == s.deep_view(),
{
    lemma_merge_self_identity(s.deep_view());
}

/// A rule explicitly configured always reflects the explicit value after a
/// merge: whatever the base set (for instance a preset expansion) holds
/// under that name, the incoming set's value wins.
pub proof fn lemma_rules_merge_later_wins(
    base: Seq<(Seq<char>, RuleView)>,
    explicit: Seq<(Seq<char>, RuleView)>,
    name: Seq<char>,
)
    requires
        keys_distinct(explicit),
        map_has_key(explicit, name),
    ensures
        map_get(map_merge(base, explicit), name) == map_get(explicit, name),
{
    lemma_merge_get(base, explicit);
}

} // verus!
