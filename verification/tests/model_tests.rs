//! Tests for the data model and the policy resolver.

use rhodibot::model::{
    BannedPattern, CheckCategory, CheckDef, PolicyPack, RepoConfig, Severity, SeverityTable,
    contains_name, find_override, resolve_severity,
};

fn table(m: Severity, s: Severity, t: Severity, e: Severity) -> SeverityTable {
    SeverityTable { minimal: m, standard: s, strict: t, enterprise: e }
}

fn sample_def() -> CheckDef {
    CheckDef {
        name: "SECURITY.md".to_string(),
        description: "Security policy".to_string(),
        category: CheckCategory::Security,
        points: 5,
        severity: table(
            Severity::Optional,
            Severity::Recommended,
            Severity::Required,
            Severity::Required,
        ),
    }
}

#[test]
fn severity_for_reads_the_pack_column() {
    let def = sample_def();
    assert_eq!(def.severity_for(PolicyPack::Minimal), Severity::Optional);
    assert_eq!(def.severity_for(PolicyPack::Standard), Severity::Recommended);
    assert_eq!(def.severity_for(PolicyPack::Strict), Severity::Required);
    assert_eq!(def.severity_for(PolicyPack::Enterprise), Severity::Required);
}

#[test]
fn severity_for_custom_falls_back_to_standard() {
    let def = sample_def();
    assert_eq!(def.severity_for(PolicyPack::Custom), Severity::Recommended);
    let ban = BannedPattern {
        name: "go.mod".to_string(),
        description: "Go module (use Rust)".to_string(),
        category: CheckCategory::LanguagePolicy,
        severity: table(
            Severity::Optional,
            Severity::Recommended,
            Severity::Required,
            Severity::Required,
        ),
    };
    assert_eq!(ban.severity_for(PolicyPack::Custom), Severity::Recommended);
    assert_eq!(ban.severity_for(PolicyPack::Strict), Severity::Required);
}

#[test]
fn defaults_are_standard_and_recommended() {
    assert_eq!(Severity::default(), Severity::Recommended);
    assert_eq!(PolicyPack::default(), PolicyPack::Standard);
    let cfg = RepoConfig::default();
    assert_eq!(cfg.policy, PolicyPack::Standard);
    assert!(cfg.severity_overrides.is_empty());
    assert!(cfg.skip.is_empty());
    assert!(cfg.require.is_empty());
    assert!(cfg.ban.is_empty());
}

#[test]
fn override_wins_over_table_for_every_pack() {
    for policy in [
        PolicyPack::Minimal,
        PolicyPack::Standard,
        PolicyPack::Strict,
        PolicyPack::Enterprise,
        PolicyPack::Custom,
    ] {
        let cfg = RepoConfig {
            policy,
            severity_overrides: vec![("SECURITY.md".to_string(), Severity::Optional)],
            skip: Vec::new(),
            require: Vec::new(),
            ban: Vec::new(),
        };
        let def = sample_def();
        let resolved = resolve_severity(&cfg, &"SECURITY.md".to_string(), def.severity);
        assert_eq!(resolved, Severity::Optional);
    }
}

#[test]
fn no_override_resolves_from_the_table() {
    let cfg = RepoConfig {
        policy: PolicyPack::Strict,
        severity_overrides: vec![("OTHER.md".to_string(), Severity::Optional)],
        skip: Vec::new(),
        require: Vec::new(),
        ban: Vec::new(),
    };
    let def = sample_def();
    let resolved = resolve_severity(&cfg, &"SECURITY.md".to_string(), def.severity);
    assert_eq!(resolved, Severity::Required);
}

#[test]
fn find_override_returns_first_match() {
    let overrides = vec![
        ("a".to_string(), Severity::Required),
        ("b".to_string(), Severity::Optional),
        ("a".to_string(), Severity::Optional),
    ];
    assert_eq!(find_override(&overrides, &"a".to_string()), Some(Severity::Required));
    assert_eq!(find_override(&overrides, &"b".to_string()), Some(Severity::Optional));
    assert_eq!(find_override(&overrides, &"c".to_string()), None);
}

#[test]
fn contains_name_finds_exact_names() {
    let list = vec!["README.adoc".to_string(), "no-go.mod".to_string()];
    assert!(contains_name(&list, &"README.adoc".to_string()));
    assert!(contains_name(&list, &"no-go.mod".to_string()));
    assert!(!contains_name(&list, &"go.mod".to_string()));
    assert!(!contains_name(&list, &"README".to_string()));
}
