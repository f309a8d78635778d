//! The typed configuration model and its decoding, merging, and preset
//! resolution.
//!
//! A configuration carries an `extends` chain, environment flags, global
//! declarations, ignore patterns, a rule set, and override blocks. Merging
//! folds an incoming configuration into a present one field by field:
//! lists append, maps union with the incoming entry winning on a shared
//! key, and override blocks accumulate. Resolving `extends` expands each
//! known preset name into its rule set and folds those sets in order
//! underneath the configuration's own rules, so an explicitly configured
//! rule always keeps the explicit value.

use crate::barrel;
use crate::decode::{
    decode_shorthand, decode_vec, push_diag, spec_decode_list, spec_decode_shorthand,
    spec_list_diag_count, spec_shorthand_diag_count, str_eq, DecodeValue, Shorthand,
};
use crate::diagnostics::{lemma_prefix_trans, Diagnostic, DiagnosticSeverity};
use crate::imports;
use crate::jsxa11y;
use crate::name_map::{
    keys_distinct, lemma_merge_disjoint, map_insert, map_merge, NameMap,
};
use crate::presets;
use crate::react;
use crate::react_hooks;
use crate::rules::{
    rules_diag_count, rules_from_pairs, rules_keyed_by_name, spec_decode_rules, RuleView, Rules,
};
use crate::severity::Severity;
use crate::typescript;
use crate::unicorn;
use crate::value::Value;
use vstd::prelude::*;

verus! {

/// The qualifier a global declaration can carry.
#[derive(Clone, Copy, Debug, PartialEq, Eq, Structural)]
pub enum GlobalConfQualifier {
    Off,
    Readable,
    Readonly,
    Writable,
    Writeable,
}

/// Which keyword names which qualifier.
pub open spec fn qualifier_of_keyword(s: Seq<char>) -> Option<GlobalConfQualifier> {
    if s == "off"@ {
        Some(GlobalConfQualifier::Off)
    } else if s == "readable"@ {
        Some(GlobalConfQualifier::Readable)
    } else if s == "readonly"@ {
        Some(GlobalConfQualifier::Readonly)
    } else if s == "writable"@ {
        Some(GlobalConfQualifier::Writable)
    } else if s == "writeable"@ {
        Some(GlobalConfQualifier::Writeable)
    } else {
        None
    }
}

/// A global declaration: a boolean flag, or a qualifier keyword.
#[derive(Clone, Copy, Debug, PartialEq, Eq, Structural)]
pub enum GlobalConf {
    Flag(bool),
    Qualifier(GlobalConfQualifier),
}

impl DeepView for GlobalConf {
    type V = GlobalConf;

    open spec fn deep_view(&self) -> GlobalConf {
        *self
    }
}

impl GlobalConf {
    /// A declared global counts as enabled unless its flag is false or its
    /// qualifier is `off`.
    pub open spec fn spec_is_enabled(self) -> bool {
        match self {
            GlobalConf::Flag(result) => result,
            GlobalConf::Qualifier(qualifier) => qualifier != GlobalConfQualifier::Off,
        }
    }

    /// Whether the declared global is enabled.
    pub fn is_enabled(&self) -> (r: bool)
        ensures
            r == self.spec_is_enabled(),
    {
        match self {
            GlobalConf::Flag(result) => *result,
            GlobalConf::Qualifier(qualifier) => !matches!(qualifier, GlobalConfQualifier::Off),
        }
    }
}

/// How many diagnostics decoding a value as a global declaration records:
/// none for a known qualifier keyword or a boolean flag, one otherwise.
pub open spec fn global_conf_diag_count(v: Value) -> nat {
    match v {
        Value::Str(s) => if qualifier_of_keyword(s@) is Some {
            0
        } else {
            1
        },
        Value::Bool(_) => 0,
        _ => 1,
    }
}

impl DecodeValue for GlobalConf {
    open spec fn spec_decode(v: Value) -> Option<GlobalConf> {
        match v {
            Value::Str(s) => match qualifier_of_keyword(s@) {
                Some(q) => Some(GlobalConf::Qualifier(q)),
                None => None,
            },
            Value::Bool(b) => Some(GlobalConf::Flag(b)),
            _ => None,
        }
    }

    open spec fn spec_diag_count(v: Value) -> nat {
        global_conf_diag_count(v)
    }

    fn decode(v: &Value, diags: &mut Vec<Diagnostic>) -> (r: Option<GlobalConf>) {
        match v {
            Value::Str(s) => {
                let k = s.as_str();
                if str_eq(k, "off") {
                    Some(GlobalConf::Qualifier(GlobalConfQualifier::Off))
                } else if str_eq(k, "readable") {
                    Some(GlobalConf::Qualifier(GlobalConfQualifier::Readable))
                } else if str_eq(k, "readonly") {
                    Some(GlobalConf::Qualifier(GlobalConfQualifier::Readonly))
                } else if str_eq(k, "writable") {
                    Some(GlobalConf::Qualifier(GlobalConfQualifier::Writable))
                } else if str_eq(k, "writeable") {
                    Some(GlobalConf::Qualifier(GlobalConfQualifier::Writeable))
                } else {
                    push_diag(diags, DiagnosticSeverity::Error, "Unknown global qualifier.");
                    None
                }
            },
            Value::Bool(b) => Some(GlobalConf::Flag(*b)),
            _ => {
                push_diag(diags, DiagnosticSeverity::Error, "Expected a string or a boolean.");
                None
            },
        }
    }
}

/// How one object entry updates a partially decoded name-keyed map: an
/// entry whose value decodes is inserted under its key, a failing entry is
/// dropped.
pub open spec fn name_map_step<T: DecodeValue>(
    acc: Seq<(Seq<char>, T::V)>,
    kv: (String, Value),
) -> Seq<(Seq<char>, T::V)> {
    match T::spec_decode(kv.1) {
        Some(x) => map_insert(acc, kv.0@, x),
        None => acc,
    }
}

/// The entries of a name-keyed map, folded in source order.
pub open spec fn name_map_fold<T: DecodeValue>(
    entries: Seq<(String, Value)>,
    acc: Seq<(Seq<char>, T::V)>,
) -> Seq<(Seq<char>, T::V)>
    decreases entries.len(),
{
    if entries.len() == 0 {
        acc
    } else {
        name_map_step::<T>(name_map_fold::<T>(entries.drop_last(), acc), entries.last())
    }
}

/// How many diagnostics the entries of a name-keyed map record in all:
/// each entry's value contributes its own count.
pub open spec fn name_map_fold_diag_count<T: DecodeValue>(entries: Seq<(String, Value)>) -> nat
    decreases entries.len(),
{
    if entries.len() == 0 {
        0
    } else {
        name_map_fold_diag_count::<T>(entries.drop_last()) + T::spec_diag_count(
            entries.last().1,
        )
    }
}

/// How many diagnostics decoding a value as a name-keyed map records.
pub open spec fn spec_name_map_diag_count<T: DecodeValue>(v: Value) -> nat {
    match v {
        Value::Object(entries) => name_map_fold_diag_count::<T>(entries@),
        _ => 1,
    }
}

/// What a value decodes to as a name-keyed map: an object whose entries
/// are folded in order, or a failure for any other shape.
pub open spec fn spec_decode_name_map<T: DecodeValue>(v: Value) -> Option<
    Seq<(Seq<char>, T::V)>,
> {
    match v {
        Value::Object(entries) => Some(name_map_fold::<T>(entries@, Seq::empty())),
        _ => None,
    }
}

/// Decodes an object into a name-keyed map, dropping (and diagnosing)
/// entries whose values fail to decode.
#[verifier::loop_isolation(false)]
pub fn decode_name_map<T: DecodeValue>(v: &Value, diags: &mut Vec<Diagnostic>) -> (r: Option<
    NameMap<T>,
>)
    ensures
        match r {
            Some(m) => spec_decode_name_map::<T>(*v) == Some(m.deep_view()) && m.wf(),
            None => spec_decode_name_map::<T>(*v) is None,
        },
        old(diags)@.is_prefix_of(final(diags)@),
        final(diags)@.len() == old(diags)@.len() + spec_name_map_diag_count::<T>(*v),
        spec_name_map_diag_count::<T>(*v) == 0 ==> final(diags)@ == old(diags)@,
{
    match v {
        Value::Object(entries) => {
            let mut m: NameMap<T> = NameMap::new();
            let n = entries.len();
            let mut i: usize = 0;
            while i < n
                invariant
                    i <= n,
                    m.deep_view() == name_map_fold::<T>(entries@.take(i as int), Seq::empty()),
                    m.wf(),
                    old(diags)@.is_prefix_of(diags@),
                    diags@.len() == old(diags)@.len() + name_map_fold_diag_count::<T>(
                        entries@.take(i as int),
                    ),
                decreases n - i,
            {
                let ghost dpre = diags@;
                let ghost accpre = m.deep_view();
                proof {
                    assert(entries@.take(i + 1 as int).drop_last() =~= entries@.take(i as int));
                    assert(entries@.take(i + 1 as int).last() == entries@[i as int]);
                    assert(name_map_fold_diag_count::<T>(entries@.take(i + 1 as int))
                        == name_map_fold_diag_count::<T>(entries@.take(i as int))
                        + T::spec_diag_count(entries@[i as int].1));
                }
                match T::decode(&entries[i].1, diags) {
                    Some(x) => {
                        m.insert(entries[i].0.clone(), x);
                    },
                    None => {},
                }
                proof {
                    lemma_prefix_trans(old(diags)@, dpre, diags@);
                    assert(m.deep_view() == name_map_step::<T>(accpre, entries@[i as int]));
                }
                i += 1;
            }
            proof {
                assert(entries@.take(n as int) =~= entries@);
            }
            Some(m)
        },
        _ => {
            push_diag(diags, DiagnosticSeverity::Error, "Expected an object.");
            None
        },
    }
}

/// One override block: a configuration fragment scoped to the files its
/// globs match, carrying its own rule set independent of the base
/// configuration.
#[derive(Debug)]
pub struct OverrideConfigData {
    pub extends: Shorthand<String>,
    pub env: NameMap<bool>,
    pub globals: NameMap<GlobalConf>,
    pub excluded_files: Shorthand<String>,
    pub files: Shorthand<String>,
    pub rules: Rules,
}

/// The mathematical shape of an [`OverrideConfigData`].
#[verifier::ext_equal]
pub struct OverrideConfigDataView {
    pub extends: Seq<Seq<char>>,
    pub env: Seq<(Seq<char>, bool)>,
    pub globals: Seq<(Seq<char>, GlobalConf)>,
    pub excluded_files: Seq<Seq<char>>,
    pub files: Seq<Seq<char>>,
    pub rules: Seq<(Seq<char>, RuleView)>,
}

impl DeepView for OverrideConfigData {
    type V = OverrideConfigDataView;

    open spec fn deep_view(&self) -> OverrideConfigDataView {
        OverrideConfigDataView {
            extends: self.extends.deep_view(),
            env: self.env.deep_view(),
            globals: self.globals.deep_view(),
            excluded_files: self.excluded_files.deep_view(),
            files: self.files.deep_view(),
            rules: self.rules.deep_view(),
        }
    }
}

/// The override block every field starts from.
pub open spec fn override_init() -> OverrideConfigDataView {
    OverrideConfigDataView {
        extends: Seq::empty(),
        env: Seq::empty(),
        globals: Seq::empty(),
        excluded_files: Seq::empty(),
        files: Seq::empty(),
        rules: Seq::empty(),
    }
}

/// How one object field updates a partially decoded override block.
pub open spec fn override_step(
    acc: OverrideConfigDataView,
    kv: (String, Value),
) -> OverrideConfigDataView {
    if kv.0@ == "extends"@ {
        match spec_decode_shorthand::<String>(kv.1) {
            Some(x) => (OverrideConfigDataView { extends: x, ..acc }),
            None => acc,
        }
    } else if kv.0@ == "env"@ {
        match spec_decode_name_map::<bool>(kv.1) {
            Some(x) => (OverrideConfigDataView { env: x, ..acc }),
            None => acc,
        }
    } else if kv.0@ == "globals"@ {
        match spec_decode_name_map::<GlobalConf>(kv.1) {
            Some(x) => (OverrideConfigDataView { globals: x, ..acc }),
            None => acc,
        }
    } else if kv.0@ == "excludedFiles"@ {
        match spec_decode_shorthand::<String>(kv.1) {
            Some(x) => (OverrideConfigDataView { excluded_files: x, ..acc }),
            None => acc,
        }
    } else if kv.0@ == "files"@ {
        match spec_decode_shorthand::<String>(kv.1) {
            Some(x) => (OverrideConfigDataView { files: x, ..acc }),
            None => acc,
        }
    } else if kv.0@ == "rules"@ {
        match spec_decode_rules(kv.1) {
            Some(x) => (OverrideConfigDataView { rules: x, ..acc }),
            None => acc,
        }
    } else {
        acc
    }
}

/// How many diagnostics one override-block field records: the field
/// value's own count for the known fields, none for unknown fields.
pub open spec fn override_step_diag_count(kv: (String, Value)) -> nat {
    if kv.0@ == "extends"@ {
        spec_shorthand_diag_count::<String>(kv.1)
    } else if kv.0@ == "env"@ {
        spec_name_map_diag_count::<bool>(kv.1)
    } else if kv.0@ == "globals"@ {
        spec_name_map_diag_count::<GlobalConf>(kv.1)
    } else if kv.0@ == "excludedFiles"@ {
        spec_shorthand_diag_count::<String>(kv.1)
    } else if kv.0@ == "files"@ {
        spec_shorthand_diag_count::<String>(kv.1)
    } else if kv.0@ == "rules"@ {
        rules_diag_count(kv.1)
    } else {
        0
    }
}

/// How many diagnostics the fields of an override block record in all.
pub open spec fn override_fold_diag_count(entries: Seq<(String, Value)>) -> nat
    decreases entries.len(),
{
    if entries.len() == 0 {
        0
    } else {
        override_fold_diag_count(entries.drop_last()) + override_step_diag_count(entries.last())
    }
}

/// How many diagnostics decoding a value as an override block records.
pub open spec fn override_diag_count(v: Value) -> nat {
    match v {
        Value::Object(entries) => override_fold_diag_count(entries@),
        _ => 1,
    }
}

/// The object fields of an override block, folded in source order.
pub open spec fn override_fold(
    entries: Seq<(String, Value)>,
    acc: OverrideConfigDataView,
) -> OverrideConfigDataView
    decreases entries.len(),
{
    if entries.len() == 0 {
        acc
    } else {
        override_step(override_fold(entries.drop_last(), acc), entries.last())
    }
}

impl DecodeValue for OverrideConfigData {
    open spec fn spec_decode(v: Value) -> Option<OverrideConfigDataView> {
        match v {
            Value::Object(entries) => Some(override_fold(entries@, override_init())),
            _ => None,
        }
    }

    open spec fn spec_diag_count(v: Value) -> nat {
        override_diag_count(v)
    }

    #[verifier::loop_isolation(false)]
    fn decode(v: &Value, diags: &mut Vec<Diagnostic>) -> (r: Option<OverrideConfigData>) {
        match v {
            Value::Object(entries) => {
                let mut acc = OverrideConfigData {
                    extends: Shorthand::new(),
                    env: NameMap::new(),
                    globals: NameMap::new(),
                    excluded_files: Shorthand::new(),
                    files: Shorthand::new(),
                    rules: Rules::new(),
                };
                assert(acc.deep_view() =~= override_init());
                let n = entries.len();
                let mut i: usize = 0;
                while i < n
                    invariant
                        i <= n,
                        acc.deep_view() == override_fold(entries@.take(i as int), override_init()),
                        old(diags)@.is_prefix_of(diags@),
                        diags@.len() == old(diags)@.len() + override_fold_diag_count(
                            entries@.take(i as int),
                        ),
                    decreases n - i,
                {
                    let ghost dpre = diags@;
                    let ghost accpre = acc.deep_view();
                    proof {
                        assert(entries@.take(i + 1 as int).drop_last() =~= entries@.take(i as int));
                        assert(entries@.take(i + 1 as int).last() == entries@[i as int]);
                    }
                    let key = entries[i].0.as_str();
                    if str_eq(key, "extends") {
                        match decode_shorthand::<String>(&entries[i].1, diags) {
                            Some(x) => {
                                acc = OverrideConfigData { extends: x, ..acc };
                            },
                            None => {},
                        }
                    } else if str_eq(key, "env") {
                        match decode_name_map::<bool>(&entries[i].1, diags) {
                            Some(x) => {
                                acc = OverrideConfigData { env: x, ..acc };
                            },
                            None => {},
                        }
                    } else if str_eq(key, "globals") {
                        match decode_name_map::<GlobalConf>(&entries[i].1, diags) {
                            Some(x) => {
                                acc = OverrideConfigData { globals: x, ..acc };
                            },
                            None => {},
                        }
                    } else if str_eq(key, "excludedFiles") {
                        match decode_shorthand::<String>(&entries[i].1, diags) {
                            Some(x) => {
                                acc = OverrideConfigData { excluded_files: x, ..acc };
                            },
                            None => {},
                        }
                    } else if str_eq(key, "files") {
                        match decode_shorthand::<String>(&entries[i].1, diags) {
                            Some(x) => {
                                acc = OverrideConfigData { files: x, ..acc };
                            },
                            None => {},
                        }
                    } else if str_eq(key, "rules") {
                        match Rules::deserialize(&entries[i].1, diags) {
                            Some(x) => {
                                acc = OverrideConfigData { rules: x, ..acc };
                            },
                            None => {},
                        }
                    }
                    proof {
                        lemma_prefix_trans(old(diags)@, dpre, diags@);
                        assert(acc.deep_view() == override_step(accpre, entries@[i as int]));
                    }
                    i += 1;
                }
                proof {
                    assert(entries@.take(n as int) =~= entries@);
                }
                let r = Some(acc);
                proof {
                    assert(r.deep_view() == Option::<OverrideConfigDataView>::Some(
                        acc.deep_view(),
                    ));
                }
                r
            },
            _ => {
                push_diag(diags, DiagnosticSeverity::Error, "Expected an object.");
                None
            },
        }
    }
}

/// The top-level configuration.
#[derive(Debug)]
pub struct ConfigData {
    pub extends: Shorthand<String>,
    pub env: NameMap<bool>,
    pub globals: NameMap<GlobalConf>,
    pub ignore_patterns: Shorthand<String>,
    pub rules: Rules,
    pub overrides: Vec<OverrideConfigData>,
}

/// The mathematical shape of a [`ConfigData`].
#[verifier::ext_equal]
pub struct ConfigDataView {
    pub extends: Seq<Seq<char>>,
    pub env: Seq<(Seq<char>, bool)>,
    pub globals: Seq<(Seq<char>, GlobalConf)>,
    pub ignore_patterns: Seq<Seq<char>>,
    pub rules: Seq<(Seq<char>, RuleView)>,
    pub overrides: Seq<OverrideConfigDataView>,
}

impl DeepView for ConfigData {
    type V = ConfigDataView;

    open spec fn deep_view(&self) -> ConfigDataView {
        ConfigDataView {
            extends: self.extends.deep_view(),
            env: self.env.deep_view(),
            globals: self.globals.deep_view(),
            ignore_patterns: self.ignore_patterns.deep_view(),
            rules: self.rules.deep_view(),
            overrides: self.overrides.deep_view(),
        }
    }
}

/// The configuration every field starts from.
pub open spec fn config_init() -> ConfigDataView {
    ConfigDataView {
        extends: Seq::empty(),
        env: Seq::empty(),
        globals: Seq::empty(),
        ignore_patterns: Seq::empty(),
        rules: Seq::empty(),
        overrides: Seq::empty(),
    }
}

/// How one object field updates a partially decoded configuration.
pub open spec fn config_step(acc: ConfigDataView, kv: (String, Value)) -> ConfigDataView {
    if kv.0@ == "extends"@ {
        match spec_decode_shorthand::<String>(kv.1) {
            Some(x) => (ConfigDataView { extends: x, ..acc }),
            None => acc,
        }
    } else if kv.0@ == "env"@ {
        match spec_decode_name_map::<bool>(kv.1) {
            Some(x) => (ConfigDataView { env: x, ..acc }),
            None => acc,
        }
    } else if kv.0@ == "globals"@ {
        match spec_decode_name_map::<GlobalConf>(kv.1) {
            Some(x) => (ConfigDataView { globals: x, ..acc }),
            None => acc,
        }
    } else if kv.0@ == "ignorePatterns"@ {
        match spec_decode_shorthand::<String>(kv.1) {
            Some(x) => (ConfigDataView { ignore_patterns: x, ..acc }),
            None => acc,
        }
    } else if kv.0@ == "rules"@ {
        match spec_decode_rules(kv.1) {
            Some(x) => (ConfigDataView { rules: x, ..acc }),
            None => acc,
        }
    } else if kv.0@ == "overrides"@ {
        match spec_decode_list::<OverrideConfigData>(kv.1) {
            Some(x) => (ConfigDataView { overrides: x, ..acc }),
            None => acc,
        }
    } else {
        acc
    }
}

/// How many diagnostics one configuration field records: the field
/// value's own count for the known fields, none for unknown fields, which
/// are silently accepted.
pub open spec fn config_step_diag_count(kv: (String, Value)) -> nat {
    if kv.0@ == "extends"@ {
        spec_shorthand_diag_count::<String>(kv.1)
    } else if kv.0@ == "env"@ {
        spec_name_map_diag_count::<bool>(kv.1)
    } else if kv.0@ == "globals"@ {
        spec_name_map_diag_count::<GlobalConf>(kv.1)
    } else if kv.0@ == "ignorePatterns"@ {
        spec_shorthand_diag_count::<String>(kv.1)
    } else if kv.0@ == "rules"@ {
        rules_diag_count(kv.1)
    } else if kv.0@ == "overrides"@ {
        spec_list_diag_count::<OverrideConfigData>(kv.1)
    } else {
        0
    }
}

/// How many diagnostics the fields of a configuration record in all.
pub open spec fn config_fold_diag_count(entries: Seq<(String, Value)>) -> nat
    decreases entries.len(),
{
    if entries.len() == 0 {
        0
    } else {
        config_fold_diag_count(entries.drop_last()) + config_step_diag_count(entries.last())
    }
}

/// How many diagnostics decoding a value as a configuration records: the
/// fields' own counts for an object, one (the fatal) for anything else.
pub open spec fn config_diag_count(v: Value) -> nat {
    match v {
        Value::Object(entries) => config_fold_diag_count(entries@),
        _ => 1,
    }
}

/// The object fields of a configuration, folded in source order.
pub open spec fn config_fold(
    entries: Seq<(String, Value)>,
    acc: ConfigDataView,
) -> ConfigDataView
    decreases entries.len(),
{
    if entries.len() == 0 {
        acc
    } else {
        config_step(config_fold(entries.drop_last(), acc), entries.last())
    }
}

/// What a value decodes to as a configuration: an object whose known
/// fields are folded in order (unknown fields are silently accepted), or a
/// failure for any other shape — the one load-fatal decode.
pub open spec fn spec_decode_config(v: Value) -> Option<ConfigDataView> {
    match v {
        Value::Object(entries) => Some(config_fold(entries@, config_init())),
        _ => None,
    }
}

impl ConfigData {
    /// The maps are well-formed and every rule sits under its own name.
    pub open spec fn wf(&self) -> bool {
        &&& keys_distinct(self.env.deep_view())
        &&& keys_distinct(self.globals.deep_view())
        &&& self.rules.wf()
    }

    /// The empty configuration.
    pub fn new() -> (r: ConfigData)
        ensures
            r.deep_view() =~= config_init(),
            r.wf(),
    {
        ConfigData {
            extends: Shorthand::new(),
            env: NameMap::new(),
            globals: NameMap::new(),
            ignore_patterns: Shorthand::new(),
            rules: Rules::new(),
            overrides: Vec::new(),
        }
    }

    /// Decodes a raw configuration value. Only a non-object fails
    /// outright; inside an object, every malformed field is dropped with a
    /// diagnostic and the remaining fields are kept.
    #[verifier::loop_isolation(false)]
    pub fn deserialize(v: &Value, diags: &mut Vec<Diagnostic>) -> (r: Option<ConfigData>)
        ensures
            match r {
                Some(c) => spec_decode_config(*v) == Some(c.deep_view()) && c.wf(),
                None => spec_decode_config(*v) is None,
            },
            old(diags)@.is_prefix_of(final(diags)@),
            final(diags)@.len() == old(diags)@.len() + config_diag_count(*v),
            config_diag_count(*v) == 0 ==> final(diags)@ == old(diags)@,
    {
        match v {
            Value::Object(entries) => {
                let mut acc = ConfigData::new();
                let n = entries.len();
                let mut i: usize = 0;
                while i < n
                    invariant
                        i <= n,
                        acc.deep_view() == config_fold(entries@.take(i as int), config_init()),
                        acc.wf(),
                        old(diags)@.is_prefix_of(diags@),
                        diags@.len() == old(diags)@.len() + config_fold_diag_count(
                            entries@.take(i as int),
                        ),
                    decreases n - i,
                {
                    let ghost dpre = diags@;
                    let ghost accpre = acc.deep_view();
                    proof {
                        assert(entries@.take(i + 1 as int).drop_last() =~= entries@.take(i as int));
                        assert(entries@.take(i + 1 as int).last() == entries@[i as int]);
                    }
                    let key = entries[i].0.as_str();
                    if str_eq(key, "extends") {
                        match decode_shorthand::<String>(&entries[i].1, diags) {
                            Some(x) => {
                                acc = ConfigData { extends: x, ..acc };
                            },
                            None => {},
                        }
                    } else if str_eq(key, "env") {
                        match decode_name_map::<bool>(&entries[i].1, diags) {
                            Some(x) => {
                                acc = ConfigData { env: x, ..acc };
                            },
                            None => {},
                        }
                    } else if str_eq(key, "globals") {
                        match decode_name_map::<GlobalConf>(&entries[i].1, diags) {
                            Some(x) => {
                                acc = ConfigData { globals: x, ..acc };
                            },
                            None => {},
                        }
                    } else if str_eq(key, "ignorePatterns") {
                        match decode_shorthand::<String>(&entries[i].1, diags) {
                            Some(x) => {
                                acc = ConfigData { ignore_patterns: x, ..acc };
                            },
                            None => {},
                        }
                    } else if str_eq(key, "rules") {
                        match Rules::deserialize(&entries[i].1, diags) {
                            Some(x) => {
                                acc = ConfigData { rules: x, ..acc };
                            },
                            None => {},
                        }
                    } else if str_eq(key, "overrides") {
                        match decode_vec::<OverrideConfigData>(&entries[i].1, diags) {
                            Some(x) => {
                                acc = ConfigData { overrides: x, ..acc };
                            },
                            None => {},
                        }
                    }
                    proof {
                        lemma_prefix_trans(old(diags)@, dpre, diags@);
                        assert(acc.deep_view() == config_step(accpre, entries@[i as int]));
                    }
                    i += 1;
                }
                proof {
                    assert(entries@.take(n as int) =~= entries@);
                }
                Some(acc)
            },
            _ => {
                push_diag(
                    diags,
                    DiagnosticSeverity::Fatal,
                    "The configuration should be an object.",
                );
                None
            },
        }
    }

    /// Folds an incoming configuration into this one: `extends`, ignore
    /// patterns, and override blocks append; environments, globals, and
    /// rules union with the incoming entry overwriting a present entry
    /// with the same key.
    pub fn merge_with(&mut self, other: ConfigData)
        ensures
            final(self).extends.deep_view() == old(self).extends.deep_view()
                + other.extends.deep_view(),
            final(self).env.deep_view() == map_merge(
                old(self).env.deep_view(),
                other.env.deep_view(),
            ),
            final(self).globals.deep_view() == map_merge(
                old(self).globals.deep_view(),
                other.globals.deep_view(),
            ),
            final(self).ignore_patterns.deep_view() == old(self).ignore_patterns.deep_view()
                + other.ignore_patterns.deep_view(),
            final(self).rules.deep_view() == map_merge(
                old(self).rules.deep_view(),
                other.rules.deep_view(),
            ),
            final(self).overrides.deep_view() == old(self).overrides.deep_view()
                + other.overrides.deep_view(),
            old(self).wf() && rules_keyed_by_name(other.rules.deep_view()) ==> final(self).wf(),
    {
        let ghost oext = other.extends.deep_view();
        let ghost oign = other.ignore_patterns.deep_view();
        let ghost oover = other.overrides.deep_view();
        let ConfigData { extends, env, globals, ignore_patterns, rules, overrides } = other;
        self.extends.merge_with(extends);
        self.env.merge_with(env);
        self.globals.merge_with(globals);
        self.ignore_patterns.merge_with(ignore_patterns);
        self.rules.merge_with(rules);
        let mut overrides = overrides;
        self.overrides.append(&mut overrides);
        proof {
            assert(self.extends.deep_view() =~= old(self).extends.deep_view() + oext);
            assert(self.ignore_patterns.deep_view() =~= old(self).ignore_patterns.deep_view()
                + oign);
            assert(self.overrides.deep_view() =~= old(self).overrides.deep_view() + oover);
        }
    }
}

/// The rule set each known preset name expands to; an unknown name
/// expands to nothing and is skipped by the resolver.
pub open spec fn spec_preset_rules(name: Seq<char>) -> Option<Seq<(Seq<char>, RuleView)>> {
    if name == "eslint:recommended"@ {
        Some(rules_from_pairs(presets::spec_eslint_recommended()))
    } else if name == "eslint:all"@ {
        Some(rules_from_pairs(presets::spec_eslint_all()))
    } else if name == "plugin:barrel/recommended"@ {
        Some(rules_from_pairs(barrel::spec_recommended()))
    } else if name == "plugin:import/errors"@ {
        Some(rules_from_pairs(imports::spec_errors()))
    } else if name == "plugin:import/recommended"@ {
        Some(rules_from_pairs(imports::spec_errors() + imports::spec_warnings()))
    } else if name == "plugin:import/warnings"@ {
        Some(rules_from_pairs(imports::spec_warnings()))
    } else if name == "plugin:jsx-a11y/recommended"@ {
        Some(rules_from_pairs(jsxa11y::spec_strict() + jsxa11y::spec_disabled_in_recommended()))
    } else if name == "plugin:jsx-a11y/strict"@ {
        Some(rules_from_pairs(jsxa11y::spec_strict()))
    } else if name == "plugin:react/all"@ {
        Some(rules_from_pairs(react::spec_recommended() + react::spec_non_recommended()))
    } else if name == "plugin:react/jsx-runtime"@ {
        Some(rules_from_pairs(react::spec_jsx_runtime()))
    } else if name == "plugin:react-hooks/recommended"@ {
        Some(rules_from_pairs(react_hooks::spec_recommended()))
    } else if name == "plugin:react/recommended"@ {
        Some(rules_from_pairs(react::spec_recommended()))
    } else if name == "plugin:@typescript-eslint/base"@ {
        Some(Seq::empty())
    } else if name == "plugin:@typescript-eslint/recommended"@ {
        Some(rules_from_pairs(typescript::spec_recommended()))
    } else if name == "plugin:@typescript-eslint/recommended-type-checked-only"@ {
        Some(rules_from_pairs(typescript::spec_recommended_type_checked_only()))
    } else if name == "plugin:@typescript-eslint/recommended-type-checked"@ {
        Some(
            rules_from_pairs(
                typescript::spec_recommended() + typescript::spec_recommended_type_checked_only(),
            ),
        )
    } else if name == "plugin:@typescript-eslint/strict"@ {
        Some(rules_from_pairs(typescript::spec_strict()))
    } else if name == "plugin:@typescript-eslint/strict-type-checked-only"@ {
        Some(rules_from_pairs(typescript::spec_strict_type_checked_only()))
    } else if name == "plugin:@typescript-eslint/strict-type-checked"@ {
        Some(
            rules_from_pairs(
                typescript::spec_strict() + typescript::spec_strict_type_checked_only(),
            ),
        )
    } else if name == "plugin:@typescript-eslint/stylistic"@ {
        Some(rules_from_pairs(typescript::spec_stylistic()))
    } else if name == "plugin:@typescript-eslint/stylistic-type-checked-only"@ {
        Some(rules_from_pairs(typescript::spec_stylistic_type_checked_only()))
    } else if name == "plugin:@typescript-eslint/stylistic-type-checked"@ {
        Some(
            rules_from_pairs(
                typescript::spec_stylistic() + typescript::spec_stylistic_type_checked_only(),
            ),
        )
    } else if name == "plugin:@typescript-eslint/disable-type-checked"@ {
        Some(rules_from_pairs(typescript::spec_disable_type_checked()))
    } else if name == "plugin:@typescript-eslint/all"@ {
        Some(rules_from_pairs(typescript::spec_all_rules()))
    } else if name == "plugin:unicorn/recommended"@ {
        Some(rules_from_pairs(unicorn::spec_recommended()))
    } else if name == "plugin:unicorn/all"@ {
        Some(rules_from_pairs(unicorn::spec_recommended() + unicorn::spec_non_recommended()))
    } else {
        None
    }
}

/// The preset names the resolver knows.
pub open spec fn spec_known_preset(name: Seq<char>) -> bool {
    spec_preset_rules(name) is Some
}

/// The rule sets of the known presets among the named ones, folded in
/// listed order into an accumulated base; unknown names are skipped.
pub open spec fn spec_fold_presets(
    names: Seq<Seq<char>>,
    acc: Seq<(Seq<char>, RuleView)>,
) -> Seq<(Seq<char>, RuleView)>
    decreases names.len(),
{
    if names.len() == 0 {
        acc
    } else {
        let next = match spec_preset_rules(names[0]) {
            Some(t) => map_merge(acc, t),
            None => acc,
        };
        spec_fold_presets(names.drop_first(), next)
    }
}

/// The rule set an `extends` chain expands to on its own.
pub open spec fn spec_resolved_base(names: Seq<Seq<char>>) -> Seq<(Seq<char>, RuleView)> {
    spec_fold_presets(names, Seq::empty())
}

/// Wraps a preset's rule set as a configuration with every other field
/// empty.
fn preset_config(rules: Rules) -> (r: ConfigData)
    requires
        rules.wf(),
    ensures
        r.wf(),
        r.extends.deep_view() =~= Seq::<Seq<char>>::empty(),
        r.env.deep_view() =~= Seq::<(Seq<char>, bool)>::empty(),
        r.globals.deep_view() =~= Seq::<(Seq<char>, GlobalConf)>::empty(),
        r.ignore_patterns.deep_view() =~= Seq::<Seq<char>>::empty(),
        r.overrides.deep_view() =~= Seq::<OverrideConfigDataView>::empty(),
        r.rules == rules,
{
    ConfigData {
        extends: Shorthand::new(),
        env: NameMap::new(),
        globals: NameMap::new(),
        ignore_patterns: Shorthand::new(),
        rules,
        overrides: Vec::new(),
    }
}

/// Concatenates two preset tables.
fn chain_pairs(
    first: Vec<(&'static str, Severity)>,
    second: Vec<(&'static str, Severity)>,
) -> (r: Vec<(&'static str, Severity)>)
    ensures
        r.deep_view() == first.deep_view() + second.deep_view(),
{
    let ghost f0 = first.deep_view();
    let ghost s0 = second.deep_view();
    let mut first = first;
    let mut second = second;
    first.append(&mut second);
    proof {
        assert(first.deep_view() =~= f0 + s0);
    }
    first
}

impl ConfigData {
    /// Expands a preset name into the configuration holding its rule set.
    /// Exactly the known preset names expand; an unknown name yields
    /// nothing and is skipped by the resolver.
    pub fn from_preset(name: &str) -> (r: Option<ConfigData>)
        ensures
            (r is Some) == spec_known_preset(name@),
            match r {
                Some(c) => {
                    &&& Some(c.rules.deep_view()) == spec_preset_rules(name@)
                    &&& c.wf()
                    &&& c.extends.deep_view() =~= Seq::<Seq<char>>::empty()
                    &&& c.env.deep_view() =~= Seq::<(Seq<char>, bool)>::empty()
                    &&& c.globals.deep_view() =~= Seq::<(Seq<char>, GlobalConf)>::empty()
                    &&& c.ignore_patterns.deep_view() =~= Seq::<Seq<char>>::empty()
                    &&& c.overrides.deep_view() =~= Seq::<OverrideConfigDataView>::empty()
                },
                None => true,
            },
    {
        let rules = if str_eq(name, "eslint:recommended") {
            Rules::from_iter(presets::eslint_recommended())
        } else if str_eq(name, "eslint:all") {
            Rules::from_iter(presets::eslint_all())
        } else if str_eq(name, "plugin:barrel/recommended") {
            Rules::from_iter(barrel::recommended())
        } else if str_eq(name, "plugin:import/errors") {
            Rules::from_iter(imports::errors())
        } else if str_eq(name, "plugin:import/recommended") {
            Rules::from_iter(chain_pairs(imports::errors(), imports::warnings()))
        } else if str_eq(name, "plugin:import/warnings") {
            Rules::from_iter(imports::warnings())
        } else if str_eq(name, "plugin:jsx-a11y/recommended") {
            Rules::from_iter(chain_pairs(jsxa11y::strict(), jsxa11y::disabled_in_recommended()))
        } else if str_eq(name, "plugin:jsx-a11y/strict") {
            Rules::from_iter(jsxa11y::strict())
        } else if str_eq(name, "plugin:react/all") {
            Rules::from_iter(chain_pairs(react::recommended(), react::non_recommended()))
        } else if str_eq(name, "plugin:react/jsx-runtime") {
            Rules::from_iter(react::jsx_runtime())
        } else if str_eq(name, "plugin:react-hooks/recommended") {
            Rules::from_iter(react_hooks::recommended())
        } else if str_eq(name, "plugin:react/recommended") {
            Rules::from_iter(react::recommended())
        } else if str_eq(name, "plugin:@typescript-eslint/base") {
            Rules::new()
        } else if str_eq(name, "plugin:@typescript-eslint/recommended") {
            Rules::from_iter(typescript::recommended())
        } else if str_eq(name, "plugin:@typescript-eslint/recommended-type-checked-only") {
            Rules::from_iter(typescript::recommended_type_checked_only())
        } else if str_eq(name, "plugin:@typescript-eslint/recommended-type-checked") {
            Rules::from_iter(
                chain_pairs(typescript::recommended(), typescript::recommended_type_checked_only()),
            )
        } else if str_eq(name, "plugin:@typescript-eslint/strict") {
            Rules::from_iter(typescript::strict())
        } else if str_eq(name, "plugin:@typescript-eslint/strict-type-checked-only") {
            Rules::from_iter(typescript::strict_type_checked_only())
        } else if str_eq(name, "plugin:@typescript-eslint/strict-type-checked") {
            Rules::from_iter(
                chain_pairs(typescript::strict(), typescript::strict_type_checked_only()),
            )
        } else if str_eq(name, "plugin:@typescript-eslint/stylistic") {
            Rules::from_iter(typescript::stylistic())
        } else if str_eq(name, "plugin:@typescript-eslint/stylistic-type-checked-only") {
            Rules::from_iter(typescript::stylistic_type_checked_only())
        } else if str_eq(name, "plugin:@typescript-eslint/stylistic-type-checked") {
            Rules::from_iter(
                chain_pairs(typescript::stylistic(), typescript::stylistic_type_checked_only()),
            )
        } else if str_eq(name, "plugin:@typescript-eslint/disable-type-checked") {
            Rules::from_iter(typescript::disable_type_checked())
        } else if str_eq(name, "plugin:@typescript-eslint/all") {
            Rules::from_iter(typescript::all_rules())
        } else if str_eq(name, "plugin:unicorn/recommended") {
            Rules::from_iter(unicorn::recommended())
        } else if str_eq(name, "plugin:unicorn/all") {
            Rules::from_iter(chain_pairs(unicorn::recommended(), unicorn::non_recommended()))
        } else {
            return None;
        };
        Some(preset_config(rules))
    }

    /// Expands every known name in `extends` into its rule set, folds
    /// those sets in listed order, and places the configuration's own
    /// rules on top, so an explicitly configured rule keeps the explicit
    /// value. Unknown preset names are silently skipped, and `extends` is
    /// cleared so it cannot be resolved twice. Every other field is left
    /// untouched.
    #[verifier::loop_isolation(false)]
    pub fn resolve_extends(&mut self)
        ensures
            final(self).extends.deep_view() =~= Seq::<Seq<char>>::empty(),
            final(self).env == old(self).env,
            final(self).globals == old(self).globals,
            final(self).ignore_patterns == old(self).ignore_patterns,
            final(self).overrides == old(self).overrides,
            final(self).rules.deep_view() == map_merge(
                spec_resolved_base(old(self).extends.deep_view()),
                old(self).rules.deep_view(),
            ),
            keys_distinct(spec_resolved_base(old(self).extends.deep_view())),
            rules_keyed_by_name(spec_resolved_base(old(self).extends.deep_view())),
            old(self).extends.deep_view().len() == 0 && old(self).rules.wf()
                ==> final(self).rules.deep_view() == old(self).rules.deep_view(),
            old(self).wf() ==> final(self).wf(),
    {
        let ghost ext = old(self).extends.deep_view();
        let mut merged = Rules::new();
        let n = self.extends.0.len();
        proof {
            assert(ext.subrange(0, n as int) =~= ext);
            assert(merged.deep_view() =~= Seq::<(Seq<char>, RuleView)>::empty());
        }
        let mut i: usize = 0;
        while i < n
            invariant
                i <= n,
                n == self.extends.0.len(),
                n == ext.len(),
                self == old(self),
                merged.wf(),
                spec_fold_presets(ext, Seq::empty()) == spec_fold_presets(
                    ext.subrange(i as int, n as int),
                    merged.deep_view(),
                ),
            decreases n - i,
        {
            let ghost sub = ext.subrange(i as int, n as int);
            proof {
                assert(sub[0] == ext[i as int]);
                assert(sub.drop_first() =~= ext.subrange(i + 1 as int, n as int));
                assert(self.extends.0@[i as int]@ == ext[i as int]);
            }
            match ConfigData::from_preset(self.extends.0[i].as_str()) {
                Some(preset) => {
                    merged.merge_with(preset.rules);
                },
                None => {},
            }
            i += 1;
        }
        proof {
            assert(ext.subrange(n as int, n as int) =~= Seq::<Seq<char>>::empty());
            assert(merged.deep_view() == spec_resolved_base(ext));
        }
        self.extends = Shorthand::new();
        let mut user = Rules::new();
        core::mem::swap(&mut user, &mut self.rules);
        let ghost base = merged.deep_view();
        merged.merge_with(user);
        self.rules = merged;
        proof {
            assert(final(self).rules.deep_view() == map_merge(
                base,
                old(self).rules.deep_view(),
            ));
            if old(self).extends.deep_view().len() == 0 && old(self).rules.wf() {
                assert(base =~= Seq::<(Seq<char>, RuleView)>::empty());
                lemma_merge_disjoint(base, old(self).rules.deep_view());
                assert(base + old(self).rules.deep_view() =~= old(self).rules.deep_view());
            }
        }
    }
}

} // verus!
