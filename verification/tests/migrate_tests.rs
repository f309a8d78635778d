use eslint_migrate::biome::{
    ConsistentArrayType, EnumMemberCase, FilenameCase, RuleOptions, RulePlainConfiguration,
};
use eslint_migrate::config::ConfigData;
use eslint_migrate::diagnostics::Diagnostic;
use eslint_migrate::migrate::{MigrationOptions, MigrationResults};
use eslint_migrate::rules::{Rule, Rules};
use eslint_migrate::severity::Severity;
use eslint_migrate::value::Value;

fn obj(fields: Vec<(&str, Value)>) -> Value {
    Value::Object(
        fields
            .into_iter()
            .map(|(k, v)| (k.to_string(), v))
            .collect(),
    )
}

fn s(text: &str) -> Value {
    Value::Str(text.to_string())
}

fn default_options() -> MigrationOptions {
    MigrationOptions { include_inspired: false, include_nursery: false }
}

fn migrate_value(v: Value, opts: MigrationOptions) -> (
    eslint_migrate::biome::BiomeConfiguration,
    MigrationResults,
) {
    let mut diags: Vec<Diagnostic> = Vec::new();
    let mut config = ConfigData::deserialize(&v, &mut diags).unwrap();
    config.resolve_extends();
    config.into_biome_config(&opts)
}

#[test]
fn two_plain_rules_migrate() {
    // `eqeqeq` at "warn" and `no-eval` at 1 (numeric warn) both have target
    // equivalents, so nothing lands in the unsupported bucket.
    let v = obj(vec![(
        "rules",
        obj(vec![("eqeqeq", s("warn")), ("no-eval", Value::Num(1))]),
    )]);
    let (config, report) = migrate_value(v, default_options());
    let rules = config.linter.rules.unwrap();
    let double_equals = rules.get("noDoubleEquals").unwrap();
    assert_eq!(double_equals.level, RulePlainConfiguration::Warn);
    let global_eval = rules.get("noGlobalEval").unwrap();
    assert_eq!(global_eval.level, RulePlainConfiguration::Warn);
    assert!(report.unsupported_rules.is_empty());
    assert_eq!(report.migrated_rules, vec!["eqeqeq", "no-eval"]);
}

#[test]
fn override_blocks_migrate_independently() {
    let v = obj(vec![(
        "overrides",
        Value::Array(vec![obj(vec![
            ("files", Value::Array(vec![s("bin/*.js")])),
            ("rules", obj(vec![("eqeqeq", s("off"))])),
        ])]),
    )]);
    let (config, _report) = migrate_value(v, default_options());
    // the base rule set is unaffected by the override
    assert!(config.linter.rules.is_none());
    assert_eq!(config.overrides.len(), 1);
    let pattern = &config.overrides[0];
    assert_eq!(pattern.files, vec!["bin/*.js"]);
    let rules = pattern.rules.as_ref().unwrap();
    assert_eq!(rules.len(), 1);
    assert_eq!(
        rules.get("noDoubleEquals").unwrap().level,
        RulePlainConfiguration::Off
    );
}

#[test]
fn enabled_globals_migrate() {
    let v = obj(vec![(
        "globals",
        obj(vec![("var1", s("writable")), ("var2", s("readonly"))]),
    )]);
    let (config, _) = migrate_value(v, default_options());
    assert_eq!(config.javascript_globals.unwrap(), vec!["var1", "var2"]);
}

#[test]
fn disabled_globals_are_excluded() {
    let v = obj(vec![(
        "globals",
        obj(vec![("var3", s("off")), ("var4", Value::Bool(false))]),
    )]);
    let (config, _) = migrate_value(v, default_options());
    assert_eq!(config.javascript_globals.unwrap(), Vec::<String>::new());
    let empty = obj(vec![]);
    let (config, _) = migrate_value(empty, default_options());
    assert!(config.javascript_globals.is_none());
}

#[test]
fn unknown_rule_is_unsupported_only() {
    // A rule name absent from the migration table lands only in the
    // unsupported bucket and contributes no target rule.
    let v = obj(vec![(
        "rules",
        obj(vec![("some-plugin/not-modeled", s("error"))]),
    )]);
    let (config, report) = migrate_value(v, default_options());
    let rules = config.linter.rules.unwrap();
    assert_eq!(rules.len(), 0);
    assert_eq!(report.unsupported_rules, vec!["some-plugin/not-modeled"]);
    assert!(report.migrated_rules.is_empty());
    assert!(report.inspired_rules.is_empty());
    assert!(report.nursery_rules.is_empty());
}

#[test]
fn inspired_rules_follow_the_policy() {
    let v = obj(vec![("rules", obj(vec![("no-else-return", s("warn"))]))]);
    let (config, report) = migrate_value(v, default_options());
    assert_eq!(config.linter.rules.unwrap().len(), 0);
    assert_eq!(report.inspired_rules, vec!["no-else-return"]);

    let v = obj(vec![("rules", obj(vec![("no-else-return", s("warn"))]))]);
    let opts = MigrationOptions { include_inspired: true, include_nursery: false };
    let (config, report) = migrate_value(v, opts);
    let rules = config.linter.rules.unwrap();
    assert_eq!(
        rules.get("noUselessElse").unwrap().level,
        RulePlainConfiguration::Warn
    );
    assert_eq!(report.migrated_rules, vec!["no-else-return"]);
    assert!(report.inspired_rules.is_empty());
}

#[test]
fn nursery_rules_follow_the_policy() {
    let v = obj(vec![("rules", obj(vec![("no-console", s("error"))]))]);
    let (config, report) = migrate_value(v, default_options());
    assert_eq!(config.linter.rules.unwrap().len(), 0);
    assert_eq!(report.nursery_rules, vec!["no-console"]);

    let v = obj(vec![("rules", obj(vec![("no-console", s("error"))]))]);
    let opts = MigrationOptions { include_inspired: false, include_nursery: true };
    let (config, report) = migrate_value(v, opts);
    assert!(config.linter.rules.unwrap().get("noConsoleLog").is_some());
    assert_eq!(report.migrated_rules, vec!["no-console"]);
}

#[test]
fn restricted_globals_options_translate() {
    let v = obj(vec![(
        "rules",
        obj(vec![(
            "no-restricted-globals",
            Value::Array(vec![
                s("error"),
                s("event"),
                obj(vec![
                    ("name", s("fdescribe")),
                    ("message", s("use describe")),
                ]),
            ]),
        )]),
    )]);
    let (config, _) = migrate_value(v, default_options());
    let rules = config.linter.rules.unwrap();
    let conf = rules.get("noRestrictedGlobals").unwrap();
    assert_eq!(conf.level, RulePlainConfiguration::Error);
    match conf.options.as_ref().unwrap() {
        RuleOptions::RestrictedGlobals(o) => {
            assert_eq!(o.denied_globals, vec!["event", "fdescribe"]);
        }
        other => panic!("unexpected options: {other:?}"),
    }
}

#[test]
fn aria_role_options_translate() {
    let v = obj(vec![(
        "rules",
        obj(vec![(
            "jsx-a11y/aria-role",
            Value::Array(vec![
                s("error"),
                obj(vec![
                    (
                        "allowInvalidRoles",
                        Value::Array(vec![s("text"), s("searchbox")]),
                    ),
                    ("ignoreNonDom", Value::Bool(true)),
                ]),
            ]),
        )]),
    )]);
    let (config, _) = migrate_value(v, default_options());
    let rules = config.linter.rules.unwrap();
    let conf = rules.get("useValidAriaRole").unwrap();
    match conf.options.as_ref().unwrap() {
        RuleOptions::ValidAriaRole(o) => {
            assert_eq!(o.allow_invalid_roles, vec!["text", "searchbox"]);
            assert!(o.ignore_non_dom);
        }
        other => panic!("unexpected options: {other:?}"),
    }
}

#[test]
fn array_type_options_translate() {
    for (spelling, expected) in [
        ("array", ConsistentArrayType::Shorthand),
        ("array-simple", ConsistentArrayType::Shorthand),
        ("generic", ConsistentArrayType::Generic),
    ] {
        let v = obj(vec![(
            "rules",
            obj(vec![(
                "@typescript-eslint/array-type",
                Value::Array(vec![s("warn"), obj(vec![("default", s(spelling))])]),
            )]),
        )]);
        let (config, _) = migrate_value(v, default_options());
        let rules = config.linter.rules.unwrap();
        let conf = rules.get("useConsistentArrayType").unwrap();
        assert_eq!(conf.level, RulePlainConfiguration::Warn);
        match conf.options.as_ref().unwrap() {
            RuleOptions::ConsistentArrayType(o) => assert_eq!(o.syntax, expected),
            other => panic!("unexpected options: {other:?}"),
        }
    }
}

#[test]
fn naming_convention_takes_enum_member_format() {
    let opts = MigrationOptions { include_inspired: true, include_nursery: false };
    let v = obj(vec![(
        "rules",
        obj(vec![(
            "@typescript-eslint/naming-convention",
            Value::Array(vec![
                s("error"),
                obj(vec![
                    ("selector", s("enumMember")),
                    ("format", Value::Array(vec![s("StrictPascalCase"), s("UPPER_CASE")])),
                ]),
            ]),
        )]),
    )]);
    let (config, _) = migrate_value(v, opts);
    let rules = config.linter.rules.unwrap();
    let conf = rules.get("useNamingConvention").unwrap();
    match conf.options.as_ref().unwrap() {
        RuleOptions::NamingConvention(o) => {
            // only the first declared case of the enum-member selector is
            // kept, and a strict case format turns strict checking on
            assert_eq!(o.enum_member_case, EnumMemberCase::Pascal);
            assert!(o.strict_case);
            assert!(!o.require_ascii);
        }
        other => panic!("unexpected options: {other:?}"),
    }
}

#[test]
fn naming_convention_snake_falls_back() {
    let opts = MigrationOptions { include_inspired: true, include_nursery: false };
    let v = obj(vec![(
        "rules",
        obj(vec![(
            "@typescript-eslint/naming-convention",
            Value::Array(vec![
                s("warn"),
                obj(vec![
                    ("selector", s("enumMember")),
                    ("format", Value::Array(vec![s("snake_case")])),
                ]),
            ]),
        )]),
    )]);
    let (config, _) = migrate_value(v, opts);
    let rules = config.linter.rules.unwrap();
    let conf = rules.get("useNamingConvention").unwrap();
    match conf.options.as_ref().unwrap() {
        RuleOptions::NamingConvention(o) => {
            assert_eq!(o.enum_member_case, EnumMemberCase::Constant);
            assert!(!o.strict_case);
        }
        other => panic!("unexpected options: {other:?}"),
    }
}

#[test]
fn filename_case_bitset_takes_precedence() {
    let opts = MigrationOptions { include_inspired: true, include_nursery: false };
    let v = obj(vec![(
        "rules",
        obj(vec![(
            "unicorn/filename-case",
            Value::Array(vec![
                s("error"),
                obj(vec![
                    ("case", s("camelCase")),
                    (
                        "cases",
                        obj(vec![
                            ("kebabCase", Value::Bool(true)),
                            ("pascalCase", Value::Bool(true)),
                        ]),
                    ),
                ]),
            ]),
        )]),
    )]);
    let (config, _) = migrate_value(v, opts);
    let rules = config.linter.rules.unwrap();
    let conf = rules.get("useFilenamingConvention").unwrap();
    match conf.options.as_ref().unwrap() {
        RuleOptions::FilenamingConvention(o) => {
            assert!(o.strict_case);
            assert!(o.require_ascii);
            assert_eq!(o.filename_cases, vec![FilenameCase::Kebab, FilenameCase::Pascal]);
        }
        other => panic!("unexpected options: {other:?}"),
    }
}

#[test]
fn filename_case_single_case_when_no_bitset() {
    let opts = MigrationOptions { include_inspired: true, include_nursery: false };
    let v = obj(vec![(
        "rules",
        obj(vec![(
            "unicorn/filename-case",
            Value::Array(vec![s("warn"), obj(vec![("case", s("snakeCase"))])]),
        )]),
    )]);
    let (config, _) = migrate_value(v, opts);
    let rules = config.linter.rules.unwrap();
    let conf = rules.get("useFilenamingConvention").unwrap();
    match conf.options.as_ref().unwrap() {
        RuleOptions::FilenamingConvention(o) => {
            assert_eq!(o.filename_cases, vec![FilenameCase::Snake]);
        }
        other => panic!("unexpected options: {other:?}"),
    }
}

#[test]
fn ignore_patterns_carry_into_the_linter() {
    let v = obj(vec![
        ("ignorePatterns", Value::Array(vec![s("dist/**")])),
        ("rules", obj(vec![("eqeqeq", s("warn"))])),
    ]);
    let (config, _) = migrate_value(v, default_options());
    assert_eq!(config.linter.ignore, vec!["dist/**"]);
}

#[test]
fn into_biome_rules_direct() {
    let mut rules = Rules::new();
    rules.insert(Rule::new("no-var", Severity::Error));
    rules.insert(Rule::new("made-up-rule", Severity::Warn));
    let mut report = MigrationResults::new();
    let target = rules.into_biome_rules(&default_options(), &mut report);
    assert_eq!(target.len(), 1);
    assert_eq!(
        target.get("noVar").unwrap().level,
        RulePlainConfiguration::Error
    );
    assert_eq!(report.migrated_rules, vec!["no-var"]);
    assert_eq!(report.unsupported_rules, vec!["made-up-rule"]);
}

#[test]
fn override_globals_keep_every_declared_name() {
    // unlike the base configuration, an override's globals section lists
    // every declared name, whatever its qualifier
    let v = obj(vec![(
        "overrides",
        Value::Array(vec![obj(vec![
            ("files", Value::Array(vec![s("*.ts")])),
            (
                "globals",
                obj(vec![("a", s("off")), ("b", s("writable"))]),
            ),
        ])]),
    )]);
    let (config, _) = migrate_value(v, default_options());
    assert_eq!(config.overrides[0].globals, vec!["a", "b"]);
    assert_eq!(config.overrides[0].ignore, Vec::<String>::new());
}

#[test]
fn empty_configuration_migrates_to_empty_target() {
    let (config, report) = migrate_value(obj(vec![]), default_options());
    assert!(config.javascript_globals.is_none());
    assert!(config.linter.rules.is_none());
    assert!(config.linter.ignore.is_empty());
    assert!(config.overrides.is_empty());
    assert!(report.migrated_rules.is_empty());
    assert!(report.unsupported_rules.is_empty());
}

#[test]
fn excluded_files_become_override_ignores() {
    let v = obj(vec![(
        "overrides",
        Value::Array(vec![obj(vec![
            ("files", s("src/*.js")),
            ("excludedFiles", s("src/vendor/*.js")),
            ("rules", obj(vec![("no-var", s("error"))])),
        ])]),
    )]);
    let (config, _) = migrate_value(v, default_options());
    let pattern = &config.overrides[0];
    assert_eq!(pattern.files, vec!["src/*.js"]);
    assert_eq!(pattern.ignore, vec!["src/vendor/*.js"]);
}
