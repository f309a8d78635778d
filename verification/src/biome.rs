//! The target configuration model the migration populates.
//!
//! Biome's configuration is a strict, typed tree: a rule set grouped by rule
//! category, each configured rule carrying a plain level or a level with
//! typed options, plus a linter section, a javascript-globals section, and a
//! list of override patterns. This module models exactly the slice of that
//! tree the migration writes.

use crate::name_map::{keys_distinct, map_get, map_insert, NameMap};
use crate::severity::Severity;
use vstd::prelude::*;

verus! {

/// A rule's plain configured level.
#[derive(Clone, Copy, Debug, PartialEq, Eq, Structural)]
pub enum RulePlainConfiguration {
    Off,
    Warn,
    Error,
}

/// Severities map onto plain levels one to one.
pub open spec fn plain_of_severity(severity: Severity) -> RulePlainConfiguration {
    match severity {
        Severity::Off => RulePlainConfiguration::Off,
        Severity::Warn => RulePlainConfiguration::Warn,
        Severity::Error => RulePlainConfiguration::Error,
    }
}

impl RulePlainConfiguration {
    /// Translates a source severity into the equivalent plain level.
    pub fn of_severity(severity: Severity) -> (r: RulePlainConfiguration)
        ensures
            r == plain_of_severity(severity),
    {
        match severity {
            Severity::Off => RulePlainConfiguration::Off,
            Severity::Warn => RulePlainConfiguration::Warn,
            Severity::Error => RulePlainConfiguration::Error,
        }
    }
}

/// The rule categories the migration writes into.
#[derive(Clone, Copy, Debug, PartialEq, Eq, Structural)]
pub enum RuleGroup {
    A11y,
    Complexity,
    Correctness,
    Performance,
    Security,
    Style,
    Suspicious,
    Nursery,
}

/// Options of the rule that denies configured global names.
#[derive(Clone, Debug, PartialEq)]
pub struct RestrictedGlobalsOptions {
    pub denied_globals: Vec<String>,
}

/// The mathematical shape of [`RestrictedGlobalsOptions`].
#[verifier::ext_equal]
pub struct RestrictedGlobalsOptionsView {
    pub denied_globals: Seq<Seq<char>>,
}

impl DeepView for RestrictedGlobalsOptions {
    type V = RestrictedGlobalsOptionsView;

    open spec fn deep_view(&self) -> RestrictedGlobalsOptionsView {
        RestrictedGlobalsOptionsView { denied_globals: self.denied_globals.deep_view() }
    }
}

/// Options of the rule that validates `aria` roles.
#[derive(Clone, Debug, PartialEq)]
pub struct ValidAriaRoleOptions {
    pub allow_invalid_roles: Vec<String>,
    pub ignore_non_dom: bool,
}

/// The mathematical shape of [`ValidAriaRoleOptions`].
#[verifier::ext_equal]
pub struct ValidAriaRoleOptionsView {
    pub allow_invalid_roles: Seq<Seq<char>>,
    pub ignore_non_dom: bool,
}

impl DeepView for ValidAriaRoleOptions {
    type V = ValidAriaRoleOptionsView;

    open spec fn deep_view(&self) -> ValidAriaRoleOptionsView {
        ValidAriaRoleOptionsView {
            allow_invalid_roles: self.allow_invalid_roles.deep_view(),
            ignore_non_dom: self.ignore_non_dom,
        }
    }
}

/// The two array-type spellings the target distinguishes.
#[derive(Clone, Copy, Debug, PartialEq, Eq, Structural)]
pub enum ConsistentArrayType {
    Shorthand,
    Generic,
}

/// Options of the rule that enforces one array-type spelling.
#[derive(Clone, Copy, Debug, PartialEq, Eq, Structural)]
pub struct ConsistentArrayTypeOptions {
    pub syntax: ConsistentArrayType,
}

impl DeepView for ConsistentArrayTypeOptions {
    type V = ConsistentArrayTypeOptions;

    open spec fn deep_view(&self) -> ConsistentArrayTypeOptions {
        *self
    }
}

/// The case the target accepts for enum members; the target supports a
/// single case per rule.
#[derive(Clone, Copy, Debug, PartialEq, Eq, Structural)]
pub enum EnumMemberCase {
    Camel,
    Constant,
    Pascal,
}

/// Options of the target's naming-convention rule.
#[derive(Clone, Copy, Debug, PartialEq, Eq, Structural)]
pub struct NamingConventionOptions {
    pub strict_case: bool,
    pub require_ascii: bool,
    pub enum_member_case: EnumMemberCase,
}

impl DeepView for NamingConventionOptions {
    type V = NamingConventionOptions;

    open spec fn deep_view(&self) -> NamingConventionOptions {
        *self
    }
}

/// A filename case the target accepts.
#[derive(Clone, Copy, Debug, PartialEq, Eq, Structural)]
pub enum FilenameCase {
    Kebab,
    Camel,
    Snake,
    Pascal,
}

impl DeepView for FilenameCase {
    type V = FilenameCase;

    open spec fn deep_view(&self) -> FilenameCase {
        *self
    }
}

/// Options of the target's filenaming-convention rule.
#[derive(Clone, Debug, PartialEq)]
pub struct FilenamingConventionOptions {
    pub strict_case: bool,
    pub require_ascii: bool,
    pub filename_cases: Vec<FilenameCase>,
}

/// The mathematical shape of [`FilenamingConventionOptions`].
#[verifier::ext_equal]
pub struct FilenamingConventionOptionsView {
    pub strict_case: bool,
    pub require_ascii: bool,
    pub filename_cases: Seq<FilenameCase>,
}

impl DeepView for FilenamingConventionOptions {
    type V = FilenamingConventionOptionsView;

    open spec fn deep_view(&self) -> FilenamingConventionOptionsView {
        FilenamingConventionOptionsView {
            strict_case: self.strict_case,
            require_ascii: self.require_ascii,
            filename_cases: self.filename_cases.deep_view(),
        }
    }
}

/// The typed options a migrated rule can carry.
#[derive(Clone, Debug, PartialEq)]
pub enum RuleOptions {
    RestrictedGlobals(RestrictedGlobalsOptions),
    ValidAriaRole(ValidAriaRoleOptions),
    ConsistentArrayType(ConsistentArrayTypeOptions),
    NamingConvention(NamingConventionOptions),
    FilenamingConvention(FilenamingConventionOptions),
}

/// The mathematical shape of [`RuleOptions`].
#[verifier::ext_equal]
pub enum RuleOptionsView {
    RestrictedGlobals(RestrictedGlobalsOptionsView),
    ValidAriaRole(ValidAriaRoleOptionsView),
    ConsistentArrayType(ConsistentArrayTypeOptions),
    NamingConvention(NamingConventionOptions),
    FilenamingConvention(FilenamingConventionOptionsView),
}

impl DeepView for RuleOptions {
    type V = RuleOptionsView;

    open spec fn deep_view(&self) -> RuleOptionsView {
        match self {
            RuleOptions::RestrictedGlobals(o) => RuleOptionsView::RestrictedGlobals(o.deep_view()),
            RuleOptions::ValidAriaRole(o) => RuleOptionsView::ValidAriaRole(o.deep_view()),
            RuleOptions::ConsistentArrayType(o) => RuleOptionsView::ConsistentArrayType(
                o.deep_view(),
            ),
            RuleOptions::NamingConvention(o) => RuleOptionsView::NamingConvention(o.deep_view()),
            RuleOptions::FilenamingConvention(o) => RuleOptionsView::FilenamingConvention(
                o.deep_view(),
            ),
        }
    }
}

/// One configured target rule: its category, its level, and its options if
/// the migration produced any.
#[derive(Clone, Debug)]
pub struct BiomeRuleConf {
    pub group: RuleGroup,
    pub level: RulePlainConfiguration,
    pub options: Option<RuleOptions>,
}

/// The mathematical shape of [`BiomeRuleConf`].
#[verifier::ext_equal]
pub struct BiomeRuleConfView {
    pub group: RuleGroup,
    pub level: RulePlainConfiguration,
    pub options: Option<RuleOptionsView>,
}

impl DeepView for BiomeRuleConf {
    type V = BiomeRuleConfView;

    open spec fn deep_view(&self) -> BiomeRuleConfView {
        BiomeRuleConfView {
            group: self.group,
            level: self.level,
            options: self.options.deep_view(),
        }
    }
}

/// The target rule set, keyed by the target rule's name.
#[derive(Debug)]
pub struct BiomeRules {
    pub map: NameMap<BiomeRuleConf>,
}

impl DeepView for BiomeRules {
    type V = Seq<(Seq<char>, BiomeRuleConfView)>;

    open spec fn deep_view(&self) -> Seq<(Seq<char>, BiomeRuleConfView)> {
        self.map.deep_view()
    }
}

impl BiomeRules {
    /// The rule names never repeat.
    pub open spec fn wf(&self) -> bool {
        keys_distinct(self.deep_view())
    }

    /// The empty rule set.
    pub fn new() -> (r: BiomeRules)
        ensures
            r.deep_view() =~= Seq::<(Seq<char>, BiomeRuleConfView)>::empty(),
            r.wf(),
    {
        BiomeRules { map: NameMap::new() }
    }

    /// How many rules are configured.
    pub fn len(&self) -> (r: usize)
        ensures
            r == self.deep_view().len(),
    {
        self.map.len()
    }

    /// Configures a rule, overwriting any prior configuration of it.
    pub fn set(&mut self, name: String, conf: BiomeRuleConf)
        ensures
            final(self).deep_view() == map_insert(
                old(self).deep_view(),
                name@,
                conf.deep_view(),
            ),
            old(self).wf() ==> final(self).wf(),
    {
        self.map.insert(name, conf);
    }

    /// Looks a configured rule up by name.
    pub fn get(&self, name: &str) -> (r: Option<&BiomeRuleConf>)
        ensures
            r.deep_view() == map_get(self.deep_view(), name@),
    {
        self.map.get(name)
    }
}

/// The linter section of the target configuration.
#[derive(Debug)]
pub struct LinterConfiguration {
    pub ignore: Vec<String>,
    pub rules: Option<BiomeRules>,
}

/// The mathematical shape of [`LinterConfiguration`].
#[verifier::ext_equal]
pub struct LinterConfigurationView {
    pub ignore: Seq<Seq<char>>,
    pub rules: Option<Seq<(Seq<char>, BiomeRuleConfView)>>,
}

impl DeepView for LinterConfiguration {
    type V = LinterConfigurationView;

    open spec fn deep_view(&self) -> LinterConfigurationView {
        LinterConfigurationView {
            ignore: self.ignore.deep_view(),
            rules: self.rules.deep_view(),
        }
    }
}

/// One target override pattern: the globs that scope it, the globals it
/// declares, and its own migrated rule set.
#[derive(Debug)]
pub struct OverridePattern {
    pub files: Vec<String>,
    pub ignore: Vec<String>,
    pub globals: Vec<String>,
    pub rules: Option<BiomeRules>,
}

/// The mathematical shape of [`OverridePattern`].
#[verifier::ext_equal]
pub struct OverridePatternView {
    pub files: Seq<Seq<char>>,
    pub ignore: Seq<Seq<char>>,
    pub globals: Seq<Seq<char>>,
    pub rules: Option<Seq<(Seq<char>, BiomeRuleConfView)>>,
}

impl DeepView for OverridePattern {
    type V = OverridePatternView;

    open spec fn deep_view(&self) -> OverridePatternView {
        OverridePatternView {
            files: self.files.deep_view(),
            ignore: self.ignore.deep_view(),
            globals: self.globals.deep_view(),
            rules: self.rules.deep_view(),
        }
    }
}

/// The target configuration tree the migration produces: an optional
/// javascript-globals section, the linter section, and the override list.
#[derive(Debug)]
pub struct BiomeConfiguration {
    pub javascript_globals: Option<Vec<String>>,
    pub linter: LinterConfiguration,
    pub overrides: Vec<OverridePattern>,
}

/// The mathematical shape of [`BiomeConfiguration`].
#[verifier::ext_equal]
pub struct BiomeConfigurationView {
    pub javascript_globals: Option<Seq<Seq<char>>>,
    pub linter: LinterConfigurationView,
    pub overrides: Seq<OverridePatternView>,
}

impl DeepView for BiomeConfiguration {
    type V = BiomeConfigurationView;

    open spec fn deep_view(&self) -> BiomeConfigurationView {
        BiomeConfigurationView {
            javascript_globals: self.javascript_globals.deep_view(),
            linter: self.linter.deep_view(),
            overrides: self.overrides.deep_view(),
        }
    }
}

} // verus!
