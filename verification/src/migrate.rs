//! The rule migration engine.
//!
//! Every configured source rule is looked up in a precomputed table mapping
//! source rule names onto target rules. A rule the table does not know is
//! classified as unsupported; a rule tagged as merely inspired by its
//! source, or still under incubation ("nursery"), is excluded unless the
//! policy asks for it; everything else is migrated, carrying its severity
//! over and, for the hand-modeled rules, its translated options.

use crate::biome::{
    plain_of_severity, BiomeConfiguration, BiomeConfigurationView, BiomeRuleConf,
    BiomeRuleConfView, BiomeRules, LinterConfiguration, LinterConfigurationView, OverridePattern,
    OverridePatternView, RestrictedGlobalsOptions, RestrictedGlobalsOptionsView, RuleGroup,
    RuleOptions, RuleOptionsView,
};
use crate::config::{ConfigData, ConfigDataView, GlobalConf, OverrideConfigDataView};
use crate::decode::str_eq;
use crate::name_map::map_insert;
use crate::rule_conf::{RuleConf, RuleConfView};
use crate::rules::{NoRestrictedGlobalView, Rule, RuleView, Rules};
use crate::severity::Severity;
use crate::typescript::{naming_options_to_biome, spec_default_selections, NamingConventionOptions};
use crate::unicorn::{filename_options_init, filename_options_to_biome};
use vstd::prelude::*;

verus! {

/// The two independent policy switches of a migration run.
#[derive(Clone, Copy, Debug, PartialEq, Eq, Structural)]
pub struct MigrationOptions {
    /// Migrate rules tagged as merely inspired by their source rule?
    pub include_inspired: bool,
    /// Migrate rules still under incubation in the target linter?
    pub include_nursery: bool,
}

/// The migration report: every configured source rule lands in exactly one
/// of these four buckets.
#[derive(Debug)]
pub struct MigrationResults {
    /// Rules that were successfully migrated.
    pub migrated_rules: Vec<String>,
    /// Rules that have no equivalent in the target linter.
    pub unsupported_rules: Vec<String>,
    /// Inspired rules that were not migrated because the policy excludes
    /// them.
    pub inspired_rules: Vec<String>,
    /// Nursery rules that were not migrated because the policy excludes
    /// them.
    pub nursery_rules: Vec<String>,
}

/// The mathematical shape of a [`MigrationResults`].
#[verifier::ext_equal]
pub struct MigrationResultsView {
    pub migrated_rules: Seq<Seq<char>>,
    pub unsupported_rules: Seq<Seq<char>>,
    pub inspired_rules: Seq<Seq<char>>,
    pub nursery_rules: Seq<Seq<char>>,
}

impl DeepView for MigrationResults {
    type V = MigrationResultsView;

    open spec fn deep_view(&self) -> MigrationResultsView {
        MigrationResultsView {
            migrated_rules: self.migrated_rules.deep_view(),
            unsupported_rules: self.unsupported_rules.deep_view(),
            inspired_rules: self.inspired_rules.deep_view(),
            nursery_rules: self.nursery_rules.deep_view(),
        }
    }
}

/// The empty report.
pub open spec fn results_init() -> MigrationResultsView {
    MigrationResultsView {
        migrated_rules: Seq::empty(),
        unsupported_rules: Seq::empty(),
        inspired_rules: Seq::empty(),
        nursery_rules: Seq::empty(),
    }
}

impl MigrationResults {
    /// The empty report.
    pub fn new() -> (r: MigrationResults)
        ensures
            r.deep_view() =~= results_init(),
    {
        MigrationResults {
            migrated_rules: Vec::new(),
            unsupported_rules: Vec::new(),
            inspired_rules: Vec::new(),
            nursery_rules: Vec::new(),
        }
    }
}

/// One row of the migration table: which target rule a source rule maps
/// onto, and how that target rule is tagged.
#[derive(Clone, Copy, Debug)]
pub struct RuleMapping {
    pub group: RuleGroup,
    pub biome_name: &'static str,
    pub inspired: bool,
    pub nursery: bool,
}

/// The mathematical shape of a [`RuleMapping`].
#[verifier::ext_equal]
pub struct RuleMappingView {
    pub group: RuleGroup,
    pub biome_name: Seq<char>,
    pub inspired: bool,
    pub nursery: bool,
}

impl DeepView for RuleMapping {
    type V = RuleMappingView;

    open spec fn deep_view(&self) -> RuleMappingView {
        RuleMappingView {
            group: self.group,
            biome_name: self.biome_name@,
            inspired: self.inspired,
            nursery: self.nursery,
        }
    }
}

/// The migration table: which source rule names map onto which target
/// rules, with the target rule's tags. A name the table does not know has
/// no target equivalent.
pub open spec fn spec_lookup_rule(name: Seq<char>) -> Option<RuleMappingView> {
    if name == "constructor-super"@ {
        Some(mapping_view(RuleGroup::Correctness, "noInvalidConstructorSuper"@, false, false))
    } else if name == "default-case"@ {
        Some(mapping_view(RuleGroup::Style, "useDefaultSwitchClause"@, true, false))
    } else if name == "default-case-last"@ {
        Some(mapping_view(RuleGroup::Style, "useDefaultSwitchClauseLast"@, false, false))
    } else if name == "dot-notation"@ {
        Some(mapping_view(RuleGroup::Complexity, "useLiteralKeys"@, false, false))
    } else if name == "eqeqeq"@ {
        Some(mapping_view(RuleGroup::Suspicious, "noDoubleEquals"@, false, false))
    } else if name == "for-direction"@ {
        Some(mapping_view(RuleGroup::Correctness, "useValidForDirection"@, false, false))
    } else if name == "getter-return"@ {
        Some(mapping_view(RuleGroup::Suspicious, "useGetterReturn"@, false, false))
    } else if name == "no-async-promise-executor"@ {
        Some(mapping_view(RuleGroup::Suspicious, "noAsyncPromiseExecutor"@, false, false))
    } else if name == "no-case-declarations"@ {
        Some(mapping_view(RuleGroup::Correctness, "noSwitchDeclarations"@, false, false))
    } else if name == "no-class-assign"@ {
        Some(mapping_view(RuleGroup::Suspicious, "noClassAssign"@, false, false))
    } else if name == "no-compare-neg-zero"@ {
        Some(mapping_view(RuleGroup::Suspicious, "noCompareNegZero"@, false, false))
    } else if name == "no-cond-assign"@ {
        Some(mapping_view(RuleGroup::Suspicious, "noAssignInExpressions"@, true, false))
    } else if name == "no-console"@ {
        Some(mapping_view(RuleGroup::Suspicious, "noConsoleLog"@, false, true))
    } else if name == "no-const-assign"@ {
        Some(mapping_view(RuleGroup::Correctness, "noConstAssign"@, false, false))
    } else if name == "no-control-regex"@ {
        Some(mapping_view(RuleGroup::Suspicious, "noControlCharactersInRegex"@, false, false))
    } else if name == "no-debugger"@ {
        Some(mapping_view(RuleGroup::Suspicious, "noDebugger"@, false, false))
    } else if name == "no-dupe-args"@ {
        Some(mapping_view(RuleGroup::Suspicious, "noDuplicateParameters"@, false, false))
    } else if name == "no-dupe-class-members"@ {
        Some(mapping_view(RuleGroup::Suspicious, "noDuplicateClassMembers"@, false, false))
    } else if name == "no-dupe-keys"@ {
        Some(mapping_view(RuleGroup::Suspicious, "noDuplicateObjectKeys"@, false, false))
    } else if name == "no-duplicate-case"@ {
        Some(mapping_view(RuleGroup::Suspicious, "noDuplicateCase"@, false, false))
    } else if name == "no-else-return"@ {
        Some(mapping_view(RuleGroup::Style, "noUselessElse"@, true, false))
    } else if name == "no-empty-character-class"@ {
        Some(mapping_view(RuleGroup::Correctness, "noEmptyCharacterClassInRegex"@, false, false))
    } else if name == "no-empty-pattern"@ {
        Some(mapping_view(RuleGroup::Correctness, "noEmptyPattern"@, false, false))
    } else if name == "no-eval"@ {
        Some(mapping_view(RuleGroup::Security, "noGlobalEval"@, false, false))
    } else if name == "no-extra-boolean-cast"@ {
        Some(mapping_view(RuleGroup::Complexity, "noExtraBooleanCast"@, false, false))
    } else if name == "no-fallthrough"@ {
        Some(mapping_view(RuleGroup::Suspicious, "noFallthroughSwitchClause"@, false, false))
    } else if name == "no-func-assign"@ {
        Some(mapping_view(RuleGroup::Suspicious, "noFunctionAssign"@, false, false))
    } else if name == "no-global-assign"@ {
        Some(mapping_view(RuleGroup::Suspicious, "noGlobalAssign"@, false, false))
    } else if name == "no-import-assign"@ {
        Some(mapping_view(RuleGroup::Suspicious, "noImportAssign"@, false, false))
    } else if name == "no-inner-declarations"@ {
        Some(mapping_view(RuleGroup::Correctness, "noInnerDeclarations"@, false, false))
    } else if name == "no-loss-of-precision"@ {
        Some(mapping_view(RuleGroup::Correctness, "noPrecisionLoss"@, false, false))
    } else if name == "no-misleading-character-class"@ {
        Some(mapping_view(RuleGroup::Suspicious, "noMisleadingCharacterClass"@, false, false))
    } else if name == "no-new-native-nonconstructor"@ {
        Some(mapping_view(RuleGroup::Correctness, "noInvalidNewBuiltin"@, false, false))
    } else if name == "no-obj-calls"@ {
        Some(mapping_view(RuleGroup::Correctness, "noGlobalObjectCalls"@, false, false))
    } else if name == "no-prototype-builtins"@ {
        Some(mapping_view(RuleGroup::Suspicious, "noPrototypeBuiltins"@, false, false))
    } else if name == "no-redeclare"@ {
        Some(mapping_view(RuleGroup::Suspicious, "noRedeclare"@, false, false))
    } else if name == "no-restricted-globals"@ {
        Some(mapping_view(RuleGroup::Style, "noRestrictedGlobals"@, false, false))
    } else if name == "no-self-assign"@ {
        Some(mapping_view(RuleGroup::Correctness, "noSelfAssign"@, false, false))
    } else if name == "no-setter-return"@ {
        Some(mapping_view(RuleGroup::Correctness, "noSetterReturn"@, false, false))
    } else if name == "no-sparse-arrays"@ {
        Some(mapping_view(RuleGroup::Suspicious, "noSparseArray"@, false, false))
    } else if name == "no-this-before-super"@ {
        Some(mapping_view(RuleGroup::Correctness, "noUnreachableSuper"@, false, false))
    } else if name == "no-unsafe-finally"@ {
        Some(mapping_view(RuleGroup::Correctness, "noUnsafeFinally"@, false, false))
    } else if name == "no-unsafe-negation"@ {
        Some(mapping_view(RuleGroup::Suspicious, "noUnsafeNegation"@, false, false))
    } else if name == "no-unsafe-optional-chaining"@ {
        Some(mapping_view(RuleGroup::Correctness, "noUnsafeOptionalChaining"@, false, false))
    } else if name == "no-unused-labels"@ {
        Some(mapping_view(RuleGroup::Correctness, "noUnusedLabels"@, false, false))
    } else if name == "no-unused-private-class-members"@ {
        Some(mapping_view(RuleGroup::Correctness, "noUnusedPrivateClassMembers"@, false, false))
    } else if name == "no-unused-vars"@ {
        Some(mapping_view(RuleGroup::Correctness, "noUnusedVariables"@, false, false))
    } else if name == "no-useless-catch"@ {
        Some(mapping_view(RuleGroup::Complexity, "noUselessCatch"@, false, false))
    } else if name == "no-var"@ {
        Some(mapping_view(RuleGroup::Style, "noVar"@, false, false))
    } else if name == "no-with"@ {
        Some(mapping_view(RuleGroup::Complexity, "noWith"@, false, false))
    } else if name == "prefer-const"@ {
        Some(mapping_view(RuleGroup::Style, "useConst"@, false, false))
    } else if name == "require-yield"@ {
        Some(mapping_view(RuleGroup::Correctness, "useYield"@, false, false))
    } else if name == "use-isnan"@ {
        Some(mapping_view(RuleGroup::Suspicious, "useIsNan"@, false, false))
    } else if name == "valid-typeof"@ {
        Some(mapping_view(RuleGroup::Suspicious, "useValidTypeof"@, false, false))
    } else if name == "jsx-a11y/aria-role"@ {
        Some(mapping_view(RuleGroup::A11y, "useValidAriaRole"@, false, false))
    } else if name == "react/jsx-key"@ {
        Some(mapping_view(RuleGroup::Correctness, "useJsxKeyInIterable"@, false, true))
    } else if name == "react/jsx-no-duplicate-props"@ {
        Some(mapping_view(RuleGroup::Suspicious, "noDuplicateJsxProps"@, false, false))
    } else if name == "react/no-children-prop"@ {
        Some(mapping_view(RuleGroup::Correctness, "noChildrenProp"@, false, false))
    } else if name == "react-hooks/exhaustive-deps"@ {
        Some(mapping_view(RuleGroup::Correctness, "useExhaustiveDependencies"@, false, false))
    } else if name == "react-hooks/rules-of-hooks"@ {
        Some(mapping_view(RuleGroup::Correctness, "useHookAtTopLevel"@, false, false))
    } else if name == "@typescript-eslint/array-type"@ {
        Some(mapping_view(RuleGroup::Style, "useConsistentArrayType"@, false, false))
    } else if name == "@typescript-eslint/naming-convention"@ {
        Some(mapping_view(RuleGroup::Style, "useNamingConvention"@, true, false))
    } else if name == "unicorn/filename-case"@ {
        Some(mapping_view(RuleGroup::Style, "useFilenamingConvention"@, true, false))
    } else {
        None
    }
}

/// Builds one table row.
pub open spec fn mapping_view(
    group: RuleGroup,
    biome_name: Seq<char>,
    inspired: bool,
    nursery: bool,
) -> RuleMappingView {
    RuleMappingView { group, biome_name, inspired, nursery }
}

/// Looks a source rule name up in the migration table.
pub fn lookup_rule_mapping(name: &str) -> (r: Option<RuleMapping>)
    ensures
        r.deep_view() == spec_lookup_rule(name@),
{
    let r = if str_eq(name, "constructor-super") {
        Some(mapping(RuleGroup::Correctness, "noInvalidConstructorSuper", false, false))
    } else if str_eq(name, "default-case") {
        Some(mapping(RuleGroup::Style, "useDefaultSwitchClause", true, false))
    } else if str_eq(name, "default-case-last") {
        Some(mapping(RuleGroup::Style, "useDefaultSwitchClauseLast", false, false))
    } else if str_eq(name, "dot-notation") {
        Some(mapping(RuleGroup::Complexity, "useLiteralKeys", false, false))
    } else if str_eq(name, "eqeqeq") {
        Some(mapping(RuleGroup::Suspicious, "noDoubleEquals", false, false))
    } else if str_eq(name, "for-direction") {
        Some(mapping(RuleGroup::Correctness, "useValidForDirection", false, false))
    } else if str_eq(name, "getter-return") {
        Some(mapping(RuleGroup::Suspicious, "useGetterReturn", false, false))
    } else if str_eq(name, "no-async-promise-executor") {
        Some(mapping(RuleGroup::Suspicious, "noAsyncPromiseExecutor", false, false))
    } else if str_eq(name, "no-case-declarations") {
        Some(mapping(RuleGroup::Correctness, "noSwitchDeclarations", false, false))
    } else if str_eq(name, "no-class-assign") {
        Some(mapping(RuleGroup::Suspicious, "noClassAssign", false, false))
    } else if str_eq(name, "no-compare-neg-zero") {
        Some(mapping(RuleGroup::Suspicious, "noCompareNegZero", false, false))
    } else if str_eq(name, "no-cond-assign") {
        Some(mapping(RuleGroup::Suspicious, "noAssignInExpressions", true, false))
    } else if str_eq(name, "no-console") {
        Some(mapping(RuleGroup::Suspicious, "noConsoleLog", false, true))
    } else if str_eq(name, "no-const-assign") {
        Some(mapping(RuleGroup::Correctness, "noConstAssign", false, false))
    } else if str_eq(name, "no-control-regex") {
        Some(mapping(RuleGroup::Suspicious, "noControlCharactersInRegex", false, false))
    } else if str_eq(name, "no-debugger") {
        Some(mapping(RuleGroup::Suspicious, "noDebugger", false, false))
    } else if str_eq(name, "no-dupe-args") {
        Some(mapping(RuleGroup::Suspicious, "noDuplicateParameters", false, false))
    } else if str_eq(name, "no-dupe-class-members") {
        Some(mapping(RuleGroup::Suspicious, "noDuplicateClassMembers", false, false))
    } else if str_eq(name, "no-dupe-keys") {
        Some(mapping(RuleGroup::Suspicious, "noDuplicateObjectKeys", false, false))
    } else if str_eq(name, "no-duplicate-case") {
        Some(mapping(RuleGroup::Suspicious, "noDuplicateCase", false, false))
    } else if str_eq(name, "no-else-return") {
        Some(mapping(RuleGroup::Style, "noUselessElse", true, false))
    } else if str_eq(name, "no-empty-character-class") {
        Some(mapping(RuleGroup::Correctness, "noEmptyCharacterClassInRegex", false, false))
    } else if str_eq(name, "no-empty-pattern") {
        Some(mapping(RuleGroup::Correctness, "noEmptyPattern", false, false))
    } else if str_eq(name, "no-eval") {
        Some(mapping(RuleGroup::Security, "noGlobalEval", false, false))
    } else if str_eq(name, "no-extra-boolean-cast") {
        Some(mapping(RuleGroup::Complexity, "noExtraBooleanCast", false, false))
    } else if str_eq(name, "no-fallthrough") {
        Some(mapping(RuleGroup::Suspicious, "noFallthroughSwitchClause", false, false))
    } else if str_eq(name, "no-func-assign") {
        Some(mapping(RuleGroup::Suspicious, "noFunctionAssign", false, false))
    } else if str_eq(name, "no-global-assign") {
        Some(mapping(RuleGroup::Suspicious, "noGlobalAssign", false, false))
    } else if str_eq(name, "no-import-assign") {
        Some(mapping(RuleGroup::Suspicious, "noImportAssign", false, false))
    } else if str_eq(name, "no-inner-declarations") {
        Some(mapping(RuleGroup::Correctness, "noInnerDeclarations", false, false))
    } else if str_eq(name, "no-loss-of-precision") {
        Some(mapping(RuleGroup::Correctness, "noPrecisionLoss", false, false))
    } else if str_eq(name, "no-misleading-character-class") {
        Some(mapping(RuleGroup::Suspicious, "noMisleadingCharacterClass", false, false))
    } else if str_eq(name, "no-new-native-nonconstructor") {
        Some(mapping(RuleGroup::Correctness, "noInvalidNewBuiltin", false, false))
    } else if str_eq(name, "no-obj-calls") {
        Some(mapping(RuleGroup::Correctness, "noGlobalObjectCalls", false, false))
    } else if str_eq(name, "no-prototype-builtins") {
        Some(mapping(RuleGroup::Suspicious, "noPrototypeBuiltins", false, false))
    } else if str_eq(name, "no-redeclare") {
        Some(mapping(RuleGroup::Suspicious, "noRedeclare", false, false))
    } else if str_eq(name, "no-restricted-globals") {
        Some(mapping(RuleGroup::Style, "noRestrictedGlobals", false, false))
    } else if str_eq(name, "no-self-assign") {
        Some(mapping(RuleGroup::Correctness, "noSelfAssign", false, false))
    } else if str_eq(name, "no-setter-return") {
        Some(mapping(RuleGroup::Correctness, "noSetterReturn", false, false))
    } else if str_eq(name, "no-sparse-arrays") {
        Some(mapping(RuleGroup::Suspicious, "noSparseArray", false, false))
    } else if str_eq(name, "no-this-before-super") {
        Some(mapping(RuleGroup::Correctness, "noUnreachableSuper", false, false))
    } else if str_eq(name, "no-unsafe-finally") {
        Some(mapping(RuleGroup::Correctness, "noUnsafeFinally", false, false))
    } else if str_eq(name, "no-unsafe-negation") {
        Some(mapping(RuleGroup::Suspicious, "noUnsafeNegation", false, false))
    } else if str_eq(name, "no-unsafe-optional-chaining") {
        Some(mapping(RuleGroup::Correctness, "noUnsafeOptionalChaining", false, false))
    } else if str_eq(name, "no-unused-labels") {
        Some(mapping(RuleGroup::Correctness, "noUnusedLabels", false, false))
    } else if str_eq(name, "no-unused-private-class-members") {
        Some(mapping(RuleGroup::Correctness, "noUnusedPrivateClassMembers", false, false))
    } else if str_eq(name, "no-unused-vars") {
        Some(mapping(RuleGroup::Correctness, "noUnusedVariables", false, false))
    } else if str_eq(name, "no-useless-catch") {
        Some(mapping(RuleGroup::Complexity, "noUselessCatch", false, false))
    } else if str_eq(name, "no-var") {
        Some(mapping(RuleGroup::Style, "noVar", false, false))
    } else if str_eq(name, "no-with") {
        Some(mapping(RuleGroup::Complexity, "noWith", false, false))
    } else if str_eq(name, "prefer-const") {
        Some(mapping(RuleGroup::Style, "useConst", false, false))
    } else if str_eq(name, "require-yield") {
        Some(mapping(RuleGroup::Correctness, "useYield", false, false))
    } else if str_eq(name, "use-isnan") {
        Some(mapping(RuleGroup::Suspicious, "useIsNan", false, false))
    } else if str_eq(name, "valid-typeof") {
        Some(mapping(RuleGroup::Suspicious, "useValidTypeof", false, false))
    } else if str_eq(name, "jsx-a11y/aria-role") {
        Some(mapping(RuleGroup::A11y, "useValidAriaRole", false, false))
    } else if str_eq(name, "react/jsx-key") {
        Some(mapping(RuleGroup::Correctness, "useJsxKeyInIterable", false, true))
    } else if str_eq(name, "react/jsx-no-duplicate-props") {
        Some(mapping(RuleGroup::Suspicious, "noDuplicateJsxProps", false, false))
    } else if str_eq(name, "react/no-children-prop") {
        Some(mapping(RuleGroup::Correctness, "noChildrenProp", false, false))
    } else if str_eq(name, "react-hooks/exhaustive-deps") {
        Some(mapping(RuleGroup::Correctness, "useExhaustiveDependencies", false, false))
    } else if str_eq(name, "react-hooks/rules-of-hooks") {
        Some(mapping(RuleGroup::Correctness, "useHookAtTopLevel", false, false))
    } else if str_eq(name, "@typescript-eslint/array-type") {
        Some(mapping(RuleGroup::Style, "useConsistentArrayType", false, false))
    } else if str_eq(name, "@typescript-eslint/naming-convention") {
        Some(mapping(RuleGroup::Style, "useNamingConvention", true, false))
    } else if str_eq(name, "unicorn/filename-case") {
        Some(mapping(RuleGroup::Style, "useFilenamingConvention", true, false))
    } else {
        None
    };
    r
}

/// Builds one table row.
fn mapping(group: RuleGroup, biome_name: &'static str, inspired: bool, nursery: bool) -> (r:
    RuleMapping)
    ensures
        r.group == group,
        r.biome_name@ == biome_name@,
        r.inspired == inspired,
        r.nursery == nursery,
{
    RuleMapping { group, biome_name, inspired, nursery }
}

/// What migrating one source rule name at a severity does: an unknown name
/// lands in the unsupported bucket and leaves the rule set untouched; a
/// policy-excluded rule lands in the inspired or nursery bucket and leaves
/// the rule set untouched; a migrated rule is recorded and configured in
/// the target set at the equivalent level, with no options yet.
pub open spec fn spec_any_rule(
    rules: Seq<(Seq<char>, BiomeRuleConfView)>,
    results: MigrationResultsView,
    name: Seq<char>,
    severity: Severity,
    opts: MigrationOptions,
) -> (Seq<(Seq<char>, BiomeRuleConfView)>, MigrationResultsView, bool) {
    match spec_lookup_rule(name) {
        None => (
            rules,
            MigrationResultsView {
                unsupported_rules: results.unsupported_rules.push(name),
                ..results
            },
            false,
        ),
        Some(m) => {
            if m.inspired && !opts.include_inspired {
                (
                    rules,
                    MigrationResultsView {
                        inspired_rules: results.inspired_rules.push(name),
                        ..results
                    },
                    false,
                )
            } else if m.nursery && !opts.include_nursery {
                (
                    rules,
                    MigrationResultsView {
                        nursery_rules: results.nursery_rules.push(name),
                        ..results
                    },
                    false,
                )
            } else {
                (
                    map_insert(
                        rules,
                        m.biome_name,
                        BiomeRuleConfView {
                            group: m.group,
                            level: plain_of_severity(severity),
                            options: None,
                        },
                    ),
                    MigrationResultsView {
                        migrated_rules: results.migrated_rules.push(name),
                        ..results
                    },
                    true,
                )
            }
        },
    }
}

/// Migrates one source rule name at a severity, returning whether the rule
/// was migrated (and so may carry options).
pub fn migrate_eslint_any_rule(
    rules: &mut BiomeRules,
    name: &str,
    severity: Severity,
    opts: &MigrationOptions,
    results: &mut MigrationResults,
) -> (r: bool)
    ensures
        final(rules).deep_view() == spec_any_rule(
            old(rules).deep_view(),
            old(results).deep_view(),
            name@,
            severity,
            *opts,
        ).0,
        final(results).deep_view() == spec_any_rule(
            old(rules).deep_view(),
            old(results).deep_view(),
            name@,
            severity,
            *opts,
        ).1,
        r == spec_any_rule(
            old(rules).deep_view(),
            old(results).deep_view(),
            name@,
            severity,
            *opts,
        ).2,
        old(rules).wf() ==> final(rules).wf(),
{
    match lookup_rule_mapping(name) {
        None => {
            results.unsupported_rules.push(name.to_owned());
            proof {
                assert(results.deep_view() =~= spec_any_rule(
                    old(rules).deep_view(),
                    old(results).deep_view(),
                    name@,
                    severity,
                    *opts,
                ).1);
            }
            false
        },
        Some(m) => {
            if m.inspired && !opts.include_inspired {
                results.inspired_rules.push(name.to_owned());
                proof {
                    assert(results.deep_view() =~= spec_any_rule(
                        old(rules).deep_view(),
                        old(results).deep_view(),
                        name@,
                        severity,
                        *opts,
                    ).1);
                }
                false
            } else if m.nursery && !opts.include_nursery {
                results.nursery_rules.push(name.to_owned());
                proof {
                    assert(results.deep_view() =~= spec_any_rule(
                        old(rules).deep_view(),
                        old(results).deep_view(),
                        name@,
                        severity,
                        *opts,
                    ).1);
                }
                false
            } else {
                results.migrated_rules.push(name.to_owned());
                rules.set(
                    m.biome_name.to_owned(),
                    BiomeRuleConf {
                        group: m.group,
                        level: crate::biome::RulePlainConfiguration::of_severity(severity),
                        options: None,
                    },
                );
                proof {
                    assert(results.deep_view() =~= spec_any_rule(
                        old(rules).deep_view(),
                        old(results).deep_view(),
                        name@,
                        severity,
                        *opts,
                    ).1);
                }
                true
            }
        },
    }
}

/// The names of a list of restricted globals, in order.
pub open spec fn spec_global_names(gs: Seq<NoRestrictedGlobalView>) -> Seq<Seq<char>>
    decreases gs.len(),
{
    if gs.len() == 0 {
        Seq::empty()
    } else {
        spec_global_names(gs.drop_last()).push(gs.last().name())
    }
}

/// The denied-globals list a restricted-globals configuration carries: the
/// name of every configured global, in order.
pub open spec fn spec_denied_globals(conf: RuleConfView<NoRestrictedGlobalView, ()>) -> Seq<
    Seq<char>,
> {
    spec_global_names(conf.options())
}

/// What migrating one configured source rule does: the rule's name and
/// severity go through the table as for any rule, and if the rule was
/// migrated and is one of the hand-modeled rules, its decoded options are
/// translated and attached to the target rule.
pub open spec fn spec_migrate_rule(
    rules: Seq<(Seq<char>, BiomeRuleConfView)>,
    results: MigrationResultsView,
    rule: RuleView,
    opts: MigrationOptions,
) -> (Seq<(Seq<char>, BiomeRuleConfView)>, MigrationResultsView) {
    let step = spec_any_rule(rules, results, rule.name(), rule.severity(), opts);
    let (r1, res1, ok) = step;
    if !ok {
        (r1, res1)
    } else {
        match rule {
            RuleView::Any(_, _) => (r1, res1),
            RuleView::NoRestrictedGlobals(conf) => (
                map_insert(
                    r1,
                    "noRestrictedGlobals"@,
                    BiomeRuleConfView {
                        group: RuleGroup::Style,
                        level: plain_of_severity(conf.severity()),
                        options: Some(
                            RuleOptionsView::RestrictedGlobals(
                                RestrictedGlobalsOptionsView {
                                    denied_globals: spec_denied_globals(conf),
                                },
                            ),
                        ),
                    },
                ),
                res1,
            ),
            RuleView::Jsxa11yAriaRole(conf) => match conf {
                RuleConfView::Option(sev, o) => (
                    map_insert(
                        r1,
                        "useValidAriaRole"@,
                        BiomeRuleConfView {
                            group: RuleGroup::A11y,
                            level: plain_of_severity(sev),
                            options: Some(
                                RuleOptionsView::ValidAriaRole(
                                    crate::biome::ValidAriaRoleOptionsView {
                                        allow_invalid_roles: o.allow_invalid_roles,
                                        ignore_non_dom: o.ignore_non_dom,
                                    },
                                ),
                            ),
                        },
                    ),
                    res1,
                ),
                _ => (r1, res1),
            },
            RuleView::TypeScriptArrayType(conf) => match conf {
                RuleConfView::Option(sev, o) => (
                    map_insert(
                        r1,
                        "useConsistentArrayType"@,
                        BiomeRuleConfView {
                            group: RuleGroup::Style,
                            level: plain_of_severity(sev),
                            options: Some(
                                RuleOptionsView::ConsistentArrayType(
                                    crate::biome::ConsistentArrayTypeOptions {
                                        syntax: crate::typescript::array_type_to_biome(
                                            o.default_type,
                                        ),
                                    },
                                ),
                            ),
                        },
                    ),
                    res1,
                ),
                _ => (r1, res1),
            },
            RuleView::TypeScriptNamingConvention(conf) => (
                map_insert(
                    r1,
                    "useNamingConvention"@,
                    BiomeRuleConfView {
                        group: RuleGroup::Style,
                        level: plain_of_severity(conf.severity()),
                        options: Some(
                            RuleOptionsView::NamingConvention(
                                naming_options_to_biome(
                                    spec_default_selections() + conf.options(),
                                ),
                            ),
                        ),
                    },
                ),
                res1,
            ),
            RuleView::UnicornFilenameCase(conf) => (
                map_insert(
                    r1,
                    "useFilenamingConvention"@,
                    BiomeRuleConfView {
                        group: RuleGroup::Style,
                        level: plain_of_severity(conf.severity()),
                        options: Some(
                            RuleOptionsView::FilenamingConvention(
                                filename_options_to_biome(
                                    match conf {
                                        RuleConfView::Option(_, o) => o,
                                        _ => filename_options_init(),
                                    },
                                ),
                            ),
                        ),
                    },
                ),
                res1,
            ),
        }
    }
}

/// Migrates one configured source rule into the target rule set.
pub fn migrate_eslint_rule(
    rules: &mut BiomeRules,
    rule: Rule,
    opts: &MigrationOptions,
    results: &mut MigrationResults,
)
    ensures
        final(rules).deep_view() == spec_migrate_rule(
            old(rules).deep_view(),
            old(results).deep_view(),
            rule.deep_view(),
            *opts,
        ).0,
        final(results).deep_view() == spec_migrate_rule(
            old(rules).deep_view(),
            old(results).deep_view(),
            rule.deep_view(),
            *opts,
        ).1,
        old(rules).wf() ==> final(rules).wf(),
{
    let ghost rv = rule.deep_view();
    let name = rule.name();
    let severity = rule.severity();
    let ok = migrate_eslint_any_rule(rules, name.as_str(), severity, opts, results);
    if !ok {
        return ;
    }
    match rule {
        Rule::Any(_, _) => {},
        Rule::NoRestrictedGlobals(conf) => {
            let severity = conf.severity();
            let ghost confv = conf.deep_view();
            let globals = conf.into_vec();
            let mut denied: Vec<String> = Vec::new();
            let n = globals.len();
            let ghost gv = globals.deep_view();
            let mut i: usize = 0;
            let mut globals = globals;
            while globals.len() > 0
                invariant
                    globals.deep_view().len() <= gv.len(),
                    globals.deep_view() =~= gv.subrange(
                        gv.len() - globals.deep_view().len(),
                        gv.len() as int,
                    ),
                    denied.deep_view() =~= spec_global_names(
                        gv.take(gv.len() - globals.deep_view().len()),
                    ),
                decreases globals.len(),
            {
                let ghost rem = globals.deep_view();
                let ghost k: int = gv.len() - rem.len();
                let g = globals.remove(0);
                proof {
                    assert(globals.deep_view() =~= rem.drop_first());
                    assert(g.deep_view() == rem[0]);
                    assert(rem[0] == gv.subrange(k, gv.len() as int)[0]);
                    assert(rem[0] == gv[k]);
                    assert(gv.take(k + 1).drop_last() =~= gv.take(k));
                    assert(gv.take(k + 1).last() == gv[k]);
                    assert(spec_global_names(gv.take(k + 1)) == spec_global_names(
                        gv.take(k),
                    ).push(gv[k].name()));
                }
                denied.push(g.into_name());
                proof {
                    assert(denied.deep_view() =~= spec_global_names(gv.take(k + 1)));
                }
            }
            proof {
                assert(gv.take(gv.len() as int) =~= gv);
                assert(denied.deep_view() =~= spec_denied_globals(confv));
            }
            rules.set(
                "noRestrictedGlobals".to_owned(),
                BiomeRuleConf {
                    group: RuleGroup::Style,
                    level: crate::biome::RulePlainConfiguration::of_severity(severity),
                    options: Some(
                        RuleOptions::RestrictedGlobals(
                            RestrictedGlobalsOptions { denied_globals: denied },
                        ),
                    ),
                },
            );
        },
        Rule::Jsxa11yAriaRole(conf) => {
            match conf {
                RuleConf::Option(severity, rule_options) => {
                    rules.set(
                        "useValidAriaRole".to_owned(),
                        BiomeRuleConf {
                            group: RuleGroup::A11y,
                            level: crate::biome::RulePlainConfiguration::of_severity(severity),
                            options: Some(RuleOptions::ValidAriaRole(rule_options.into_biome())),
                        },
                    );
                },
                _ => {},
            }
        },
        Rule::TypeScriptArrayType(conf) => {
            match conf {
                RuleConf::Option(severity, rule_options) => {
                    rules.set(
                        "useConsistentArrayType".to_owned(),
                        BiomeRuleConf {
                            group: RuleGroup::Style,
                            level: crate::biome::RulePlainConfiguration::of_severity(severity),
                            options: Some(
                                RuleOptions::ConsistentArrayType(rule_options.into_biome()),
                            ),
                        },
                    );
                },
                _ => {},
            }
        },
        Rule::TypeScriptNamingConvention(conf) => {
            let severity = conf.severity();
            let ghost confv = conf.deep_view();
            let selections = conf.into_vec();
            let options = NamingConventionOptions::override_default(selections);
            let biome_options = options.into_biome();
            rules.set(
                "useNamingConvention".to_owned(),
                BiomeRuleConf {
                    group: RuleGroup::Style,
                    level: crate::biome::RulePlainConfiguration::of_severity(severity),
                    options: Some(RuleOptions::NamingConvention(biome_options)),
                },
            );
        },
        Rule::UnicornFilenameCase(conf) => {
            let severity = conf.severity();
            let ghost confv = conf.deep_view();
            let options = conf.option_or_default();
            rules.set(
                "useFilenamingConvention".to_owned(),
                BiomeRuleConf {
                    group: RuleGroup::Style,
                    level: crate::biome::RulePlainConfiguration::of_severity(severity),
                    options: Some(RuleOptions::FilenamingConvention(options.into_biome())),
                },
            );
        },
    }
}

/// What migrating a whole rule set does, rule by rule in stored order.
pub open spec fn spec_migrate_rules_from(
    entries: Seq<(Seq<char>, RuleView)>,
    rules: Seq<(Seq<char>, BiomeRuleConfView)>,
    results: MigrationResultsView,
    opts: MigrationOptions,
) -> (Seq<(Seq<char>, BiomeRuleConfView)>, MigrationResultsView)
    decreases entries.len(),
{
    if entries.len() == 0 {
        (rules, results)
    } else {
        let step = spec_migrate_rule(rules, results, entries[0].1, opts);
        spec_migrate_rules_from(entries.drop_first(), step.0, step.1, opts)
    }
}

impl Rules {
    /// Migrates every configured rule into a fresh target rule set,
    /// recording each rule's classification in the report.
    #[verifier::loop_isolation(false)]
    pub fn into_biome_rules(
        self,
        opts: &MigrationOptions,
        results: &mut MigrationResults,
    ) -> (r: BiomeRules)
        ensures
            r.deep_view() == spec_migrate_rules_from(
                self.deep_view(),
                Seq::empty(),
                old(results).deep_view(),
                *opts,
            ).0,
            final(results).deep_view() == spec_migrate_rules_from(
                self.deep_view(),
                Seq::empty(),
                old(results).deep_view(),
                *opts,
            ).1,
            r.wf(),
    {
        let ghost all = self.deep_view();
        let mut rules = BiomeRules::new();
        let mut entries = self.map.entries;
        while entries.len() > 0
            invariant
                rules.wf(),
                spec_migrate_rules_from(all, Seq::empty(), old(results).deep_view(), *opts)
                    == spec_migrate_rules_from(
                    entries.deep_view(),
                    rules.deep_view(),
                    results.deep_view(),
                    *opts,
                ),
            decreases entries.len(),
        {
            let ghost rem = entries.deep_view();
            let kv = entries.remove(0);
            proof {
                assert(entries.deep_view() =~= rem.drop_first());
                assert((kv.0.deep_view(), kv.1.deep_view()) == rem[0]);
            }
            migrate_eslint_rule(&mut rules, kv.1, opts, results);
        }
        proof {
            assert(entries.deep_view().len() == 0);
        }
        rules
    }
}

/// The names of the enabled globals, in declaration order: a declared
/// global counts unless its flag is false or its qualifier is `off`.
pub open spec fn spec_enabled_globals(globals: Seq<(Seq<char>, GlobalConf)>) -> Seq<Seq<char>>
    decreases globals.len(),
{
    if globals.len() == 0 {
        Seq::empty()
    } else {
        let rest = spec_enabled_globals(globals.drop_last());
        if globals.last().1.spec_is_enabled() {
            rest.push(globals.last().0)
        } else {
            rest
        }
    }
}

/// The names of all declared globals, in declaration order.
pub open spec fn spec_global_keys(globals: Seq<(Seq<char>, GlobalConf)>) -> Seq<Seq<char>> {
    globals.map_values(|kv: (Seq<char>, GlobalConf)| kv.0)
}

/// What migrating one override block produces: a target override pattern
/// scoped to the block's globs, declaring the block's globals, and
/// carrying the block's own migrated rule set when it configures any rule.
pub open spec fn spec_migrate_override(
    o: OverrideConfigDataView,
    results: MigrationResultsView,
    opts: MigrationOptions,
) -> (OverridePatternView, MigrationResultsView) {
    let (rules_opt, res1) = if o.rules.len() == 0 {
        (None, results)
    } else {
        let step = spec_migrate_rules_from(o.rules, Seq::empty(), results, opts);
        (Some(step.0), step.1)
    };
    (
        OverridePatternView {
            files: o.files,
            ignore: o.excluded_files,
            globals: spec_global_keys(o.globals),
            rules: rules_opt,
        },
        res1,
    )
}

/// What migrating the override list produces, block by block in order.
pub open spec fn spec_migrate_overrides(
    overrides: Seq<OverrideConfigDataView>,
    results: MigrationResultsView,
    opts: MigrationOptions,
) -> (Seq<OverridePatternView>, MigrationResultsView)
    decreases overrides.len(),
{
    if overrides.len() == 0 {
        (Seq::empty(), results)
    } else {
        let step = spec_migrate_override(overrides[0], results, opts);
        let rest = spec_migrate_overrides(overrides.drop_first(), step.1, opts);
        (seq![step.0] + rest.0, rest.1)
    }
}

/// What the whole migration produces for a resolved configuration: a
/// javascript-globals section exactly when the source declared globals
/// (holding the enabled ones), a linter section with the ignore patterns
/// and the migrated rule set when any rule was configured, and one target
/// override pattern per source override block — plus the four-bucket
/// report.
pub open spec fn spec_into_biome_config(c: ConfigDataView, opts: MigrationOptions) -> (
    BiomeConfigurationView,
    MigrationResultsView,
) {
    let (rules_opt, res1) = spec_rules_part(c, opts);
    let (overs, res2) = spec_migrate_overrides(c.overrides, res1, opts);
    (
        BiomeConfigurationView {
            javascript_globals: if c.globals.len() > 0 {
                Some(spec_enabled_globals(c.globals))
            } else {
                None
            },
            linter: LinterConfigurationView { ignore: c.ignore_patterns, rules: rules_opt },
            overrides: overs,
        },
        res2,
    )
}

impl ConfigData {
    /// Migrates a resolved configuration into the target configuration
    /// tree and the migration report.
    #[verifier::loop_isolation(false)]
    pub fn into_biome_config(self, opts: &MigrationOptions) -> (r: (
        BiomeConfiguration,
        MigrationResults,
    ))
        ensures
            r.0.deep_view() == spec_into_biome_config(self.deep_view(), *opts).0,
            r.1.deep_view() == spec_into_biome_config(self.deep_view(), *opts).1,
    {
        let ghost cv = self.deep_view();
        let mut results = MigrationResults::new();
        proof {
            assert(results.deep_view() =~= results_init());
        }
        let ConfigData { extends: _, env: _, globals, ignore_patterns, rules, overrides } = self;

        let javascript_globals: Option<Vec<String>> = if globals.len() > 0 {
            let ghost gv = globals.deep_view();
            let mut enabled: Vec<String> = Vec::new();
            let n = globals.entries.len();
            let mut i: usize = 0;
            while i < n
                invariant
                    i <= n,
                    n == globals.entries.len(),
                    globals.deep_view() == gv,
                    enabled.deep_view() =~= spec_enabled_globals(gv.take(i as int)),
                decreases n - i,
            {
                proof {
                    assert(gv.take(i + 1 as int).drop_last() =~= gv.take(i as int));
                    assert(gv.take(i + 1 as int).last() == gv[i as int]);
                }
                if globals.entries[i].1.is_enabled() {
                    enabled.push(globals.entries[i].0.clone());
                }
                i += 1;
            }
            proof {
                assert(gv.take(n as int) =~= gv);
            }
            Some(enabled)
        } else {
            None
        };

        let linter_rules: Option<BiomeRules> = if rules.len() > 0 {
            Some(rules.into_biome_rules(opts, &mut results))
        } else {
            None
        };

        let mut target_overrides: Vec<OverridePattern> = Vec::new();
        let ghost ov = cv.overrides;
        let mut overrides = overrides;
        while overrides.len() > 0
            invariant
                overrides.deep_view().len() <= ov.len(),
                overrides.deep_view() =~= ov.subrange(
                    ov.len() - overrides.deep_view().len(),
                    ov.len() as int,
                ),
                ({
                    let done = spec_migrate_overrides(
                        ov.take(ov.len() - overrides.deep_view().len()),
                        spec_rules_part(cv, *opts).1,
                        *opts,
                    );
                    &&& target_overrides.deep_view() =~= done.0
                    &&& results.deep_view() == done.1
                }),
            decreases overrides.len(),
        {
            let ghost rem = overrides.deep_view();
            let ghost donepre = ov.len() - rem.len();
            let o = overrides.remove(0);
            proof {
                assert(overrides.deep_view() =~= rem.drop_first());
                assert(o.deep_view() == rem[0]);
                assert(rem[0] == ov[donepre]);
            }
            let pattern = migrate_override(o, opts, &mut results);
            target_overrides.push(pattern);
            proof {
                let done0 = ov.take(donepre);
                let done1 = ov.take(donepre + 1);
                assert(done1 =~= done0.push(ov[donepre]));
                lemma_migrate_overrides_snoc(done0, ov[donepre], spec_rules_part(cv, *opts).1, *opts);
            }
        }
        proof {
            assert(overrides.deep_view().len() == 0);
            assert(ov.take(ov.len() as int) =~= ov);
        }

        let config = BiomeConfiguration {
            javascript_globals,
            linter: LinterConfiguration {
                ignore: ignore_patterns.0,
                rules: linter_rules,
            },
            overrides: target_overrides,
        };
        proof {
            assert(config.deep_view() =~= spec_into_biome_config(cv, *opts).0);
            assert(results.deep_view() =~= spec_into_biome_config(cv, *opts).1);
        }
        (config, results)
    }
}

/// The rule-set part of the migration: the migrated base rules (if any)
/// and the report after them.
pub open spec fn spec_rules_part(c: ConfigDataView, opts: MigrationOptions) -> (
    Option<Seq<(Seq<char>, BiomeRuleConfView)>>,
    MigrationResultsView,
) {
    if c.rules.len() == 0 {
        (None, results_init())
    } else {
        let step = spec_migrate_rules_from(c.rules, Seq::empty(), results_init(), opts);
        (Some(step.0), step.1)
    }
}

/// Migrating blocks one at a time from the front agrees with migrating a
/// prefix and then one more block.
pub proof fn lemma_migrate_overrides_snoc(
    done: Seq<OverrideConfigDataView>,
    next: OverrideConfigDataView,
    results: MigrationResultsView,
    opts: MigrationOptions,
)
    ensures
        spec_migrate_overrides(done.push(next), results, opts).0 == spec_migrate_overrides(
            done,
            results,
            opts,
        ).0.push(spec_migrate_override(next, spec_migrate_overrides(done, results, opts).1, opts).0),
        spec_migrate_overrides(done.push(next), results, opts).1 == spec_migrate_override(
            next,
            spec_migrate_overrides(done, results, opts).1,
            opts,
        ).1,
    decreases done.len(),
{
    let full = done.push(next);
    if done.len() == 0 {
        let so_head = spec_migrate_override(next, results, opts);
        assert(full[0] == next);
        assert(full.drop_first() =~= Seq::<OverrideConfigDataView>::empty());
        let rest = spec_migrate_overrides(full.drop_first(), so_head.1, opts);
        assert(rest.0 == Seq::<OverridePatternView>::empty() && rest.1 == so_head.1);
        assert(spec_migrate_overrides(full, results, opts).0 == seq![so_head.0] + rest.0);
        assert(seq![so_head.0] + rest.0 =~= Seq::<OverridePatternView>::empty().push(so_head.0));
        assert(spec_migrate_overrides(done, results, opts).0
            == Seq::<OverridePatternView>::empty());
        assert(spec_migrate_overrides(done, results, opts).1 == results);
    } else {
        let step = spec_migrate_override(done[0], results, opts);
        assert(full[0] == done[0]);
        assert(full.drop_first() =~= done.drop_first().push(next));
        lemma_migrate_overrides_snoc(done.drop_first(), next, step.1, opts);
        let restfull = spec_migrate_overrides(full.drop_first(), step.1, opts);
        let rest = spec_migrate_overrides(done.drop_first(), step.1, opts);
        let x = spec_migrate_override(next, rest.1, opts);
        assert(restfull.0 == rest.0.push(x.0) && restfull.1 == x.1);
        assert(spec_migrate_overrides(full, results, opts).0 == seq![step.0] + restfull.0);
        assert(spec_migrate_overrides(done, results, opts).0 == seq![step.0] + rest.0);
        assert(spec_migrate_overrides(done, results, opts).1 == rest.1);
        assert(seq![step.0] + rest.0.push(x.0) =~= (seq![step.0] + rest.0).push(x.0));
    }
}

/// Migrates one override block.
#[verifier::loop_isolation(false)]
fn migrate_override(
    o: crate::config::OverrideConfigData,
    opts: &MigrationOptions,
    results: &mut MigrationResults,
) -> (r: OverridePattern)
    ensures
        r.deep_view() == spec_migrate_override(o.deep_view(), old(results).deep_view(), *opts).0,
        final(results).deep_view() == spec_migrate_override(
            o.deep_view(),
            old(results).deep_view(),
            *opts,
        ).1,
{
    let ghost oview = o.deep_view();
    let crate::config::OverrideConfigData { extends: _, env: _, globals, excluded_files, files, rules } = o;

    let ghost gv = oview.globals;
    let mut global_names: Vec<String> = Vec::new();
    let n = globals.entries.len();
    let mut i: usize = 0;
    while i < n
        invariant
            i <= n,
            n == globals.entries.len(),
            globals.deep_view() == gv,
            global_names.deep_view() =~= spec_global_keys(gv.take(i as int)),
        decreases n - i,
    {
        global_names.push(globals.entries[i].0.clone());
        proof {
            assert(gv.take(i + 1 as int) =~= gv.take(i as int).push(gv[i as int]));
            assert(spec_global_keys(gv.take(i as int).push(gv[i as int])) =~= spec_global_keys(
                gv.take(i as int),
            ).push(gv[i as int].0));
        }
        i += 1;
    }
    proof {
        assert(gv.take(n as int) =~= gv);
    }

    let target_rules: Option<BiomeRules> = if rules.len() > 0 {
        Some(rules.into_biome_rules(opts, results))
    } else {
        None
    };

    let r = OverridePattern {
        files: files.0,
        ignore: excluded_files.0,
        globals: global_names,
        rules: target_rules,
    };
    proof {
        assert(r.deep_view() =~= spec_migrate_override(
            oview,
            old(results).deep_view(),
            *opts,
        ).0);
    }
    r
}

} // verus!
