use eslint_migrate::react;
use eslint_migrate::rules::Rules;
use eslint_migrate::severity::Severity;
use eslint_migrate::unicorn;

/// The last severity a preset table pairs with a name, as a name-keyed map
/// built from the table would hold it.
fn lookup(table: &[(&'static str, Severity)], name: &str) -> Option<Severity> {
    table
        .iter()
        .rev()
        .find(|(n, _)| *n == name)
        .map(|(_, sev)| *sev)
}

#[test]
fn recommended_xor_non_recommended_() {
    let rules = react::recommended();
    for (name, _) in react::non_recommended() {
        assert!(lookup(&rules, name).is_none(), "{name}");
    }
}

#[test]
fn non_recommended_disabled_in_recommended_() {
    let rules = unicorn::recommended();
    for (name, _) in unicorn::non_recommended() {
        if let Some(severity) = lookup(&rules, name) {
            assert!(matches!(severity, Severity::Off), "{name}");
        }
    }
}

#[test]
fn preset_tables_build_well_formed_rule_sets() {
    for table in [
        eslint_migrate::presets::eslint_recommended(),
        eslint_migrate::presets::eslint_all(),
        eslint_migrate::typescript::all_rules(),
        unicorn::recommended(),
        react::recommended(),
    ] {
        let names: Vec<&str> = table.iter().map(|(n, _)| *n).collect();
        let rules = Rules::from_iter(table);
        // every listed name is found back under its own key
        for name in names {
            assert!(rules.get(name).is_some(), "{name}");
        }
    }
}

#[test]
fn eslint_all_enables_no_var() {
    let rules = Rules::from_iter(eslint_migrate::presets::eslint_all());
    assert_eq!(rules.get("no-var").unwrap().severity(), Severity::Error);
}
