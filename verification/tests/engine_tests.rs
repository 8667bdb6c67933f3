//! End-to-end tests of the evaluation engine: the four reference
//! scenarios, precedence rules, aggregation bounds and idempotence.

use rhodibot::evaluate::check_compliance_with_policy;
use rhodibot::model::{CheckStatus, PolicyPack, RepoConfig, Severity};
use rhodibot::registry::{banned_patterns, required_files, with_extra_banned, with_extra_required};
use rhodibot::report::{Check, ComplianceReport, License};

fn config(policy: PolicyPack) -> RepoConfig {
    RepoConfig {
        policy,
        severity_overrides: Vec::new(),
        skip: Vec::new(),
        require: Vec::new(),
        ban: Vec::new(),
    }
}

fn answers_for(present: &[&str]) -> Vec<(String, bool)> {
    present.iter().map(|p| (p.to_string(), true)).collect()
}

fn license(key: &str, name: &str) -> Option<Option<License>> {
    Some(Some(License { key: key.to_string(), name: name.to_string(), spdx_id: None }))
}

fn run(
    cfg: &RepoConfig,
    present: &[&str],
    fetch: Option<Option<License>>,
) -> ComplianceReport {
    let registry = with_extra_required(required_files(), &cfg.require);
    let banned = with_extra_banned(banned_patterns(), &cfg.ban);
    let answers = answers_for(present);
    check_compliance_with_policy("octo", "repo", &registry, &banned, cfg, &answers, &fetch)
}

fn percentage(r: &ComplianceReport) -> f32 {
    if r.max_score > 0 {
        (r.score as f32 / r.max_score as f32) * 100.0
    } else {
        100.0
    }
}

fn find_check<'a>(r: &'a ComplianceReport, name: &str) -> Option<&'a Check> {
    r.checks.iter().find(|c| c.name == name)
}

#[test]
fn scenario_minimal_two_files_mit_license() {
    let cfg = config(PolicyPack::Minimal);
    let report = run(&cfg, &["README.adoc", "LICENSE.txt"], license("mit", "MIT License"));
    assert!(report.required_passed);
    assert_eq!(report.score, 15);
    assert_eq!(report.max_score, 15);
    assert_eq!(percentage(&report), 100.0);
    assert_eq!(report.summary, "Excellent RSR compliance (minimal)");
}

#[test]
fn scenario_standard_nothing_present_no_license() {
    let cfg = config(PolicyPack::Standard);
    let report = run(&cfg, &[], Some(None));
    assert!(!report.required_passed);
    assert_eq!(report.score, 0);
    assert_eq!(report.summary, "RSR standard policy: Required checks failed");
    let readme = find_check(&report, "README.adoc").unwrap();
    assert_eq!(readme.status, CheckStatus::Fail);
    assert_eq!(readme.severity, Severity::Required);
    let lic = find_check(&report, "license-type").unwrap();
    assert_eq!(lic.status, CheckStatus::Fail);
    assert_eq!(lic.message, "No license detected");
}

#[test]
fn scenario_strict_banned_pattern_fails_despite_full_score() {
    let cfg = config(PolicyPack::Strict);
    let all_files = [
        "README.adoc",
        "LICENSE.txt",
        "SECURITY.md",
        "CONTRIBUTING.md",
        "CODE_OF_CONDUCT.md",
        "AGENTS.md",
        "STATE.scm",
        "META.scm",
        "ECOSYSTEM.scm",
        ".github/workflows",
        "go.mod",
    ];
    let report = run(&cfg, &all_files, None);
    assert!(!report.required_passed);
    assert_eq!(report.score, report.max_score);
    assert_eq!(report.summary, "RSR strict policy: Required checks failed");
    let violation = find_check(&report, "no-go.mod").unwrap();
    assert_eq!(violation.status, CheckStatus::Fail);
    assert_eq!(violation.severity, Severity::Required);
    assert_eq!(violation.points, 0);
    assert_eq!(violation.max_points, 0);
    assert_eq!(violation.message, "Go module (use Rust) detected - policy violation");
    assert!(find_check(&report, "license-type").is_none());
}

#[test]
fn scenario_enterprise_everything_apache_license() {
    let cfg = config(PolicyPack::Enterprise);
    let all_files = [
        "README.adoc",
        "LICENSE.txt",
        "SECURITY.md",
        "CONTRIBUTING.md",
        "CODE_OF_CONDUCT.md",
        "AGENTS.md",
        "STATE.scm",
        "META.scm",
        "ECOSYSTEM.scm",
        ".github/workflows",
    ];
    let report = run(&cfg, &all_files, license("apache-2.0", "Apache License 2.0"));
    assert!(report.required_passed);
    assert_eq!(report.score, 42);
    assert_eq!(report.max_score, 42);
    assert_eq!(percentage(&report), 100.0);
    assert_eq!(report.summary, "Excellent RSR compliance (enterprise)");
}

#[test]
fn score_never_exceeds_max_and_unscored_checks_are_zero() {
    let configs = [
        config(PolicyPack::Minimal),
        config(PolicyPack::Standard),
        config(PolicyPack::Strict),
        config(PolicyPack::Enterprise),
        config(PolicyPack::Custom),
    ];
    for cfg in &configs {
        for present in [&[][..], &["README.adoc", "go.mod"][..]] {
            let report = run(cfg, present, license("mit", "MIT License"));
            assert!(report.score <= report.max_score);
            for c in &report.checks {
                assert!(c.points <= c.max_points);
                if c.severity == Severity::Optional || c.status == CheckStatus::Skip {
                    assert_eq!(c.max_points, 0);
                }
            }
        }
    }
}

#[test]
fn required_passed_tracks_required_failures() {
    let cfg = config(PolicyPack::Standard);
    let failing = run(&cfg, &[], None);
    assert!(!failing.required_passed);
    assert!(failing
        .checks
        .iter()
        .any(|c| c.severity == Severity::Required && c.status == CheckStatus::Fail));
    let passing = run(&cfg, &["README.adoc", "LICENSE.txt"], None);
    assert!(passing.required_passed);
    assert!(!passing
        .checks
        .iter()
        .any(|c| c.severity == Severity::Required && c.status == CheckStatus::Fail));
}

#[test]
fn unapproved_required_license_warns_yet_fails_the_repo() {
    let cfg = config(PolicyPack::Standard);
    let report = run(
        &cfg,
        &["README.adoc", "LICENSE.txt"],
        license("proprietary", "Custom License"),
    );
    let lic = find_check(&report, "license-type").unwrap();
    assert_eq!(lic.status, CheckStatus::Warn);
    assert_eq!(lic.severity, Severity::Required);
    assert_eq!(lic.points, 2);
    assert_eq!(lic.max_points, 5);
    assert_eq!(lic.message, "Non-standard license: Custom License");
    assert!(!report.required_passed);
}

fn checks_equal(a: &Check, b: &Check) -> bool {
    a.name == b.name && a.category == b.category && a.severity == b.severity
        && a.status == b.status && a.points == b.points && a.max_points == b.max_points
        && a.message == b.message
}

#[test]
fn identical_inputs_give_identical_reports() {
    let cfg = RepoConfig {
        policy: PolicyPack::Custom,
        severity_overrides: vec![("SECURITY.md".to_string(), Severity::Required)],
        skip: vec!["META.scm".to_string()],
        require: Vec::new(),
        ban: Vec::new(),
    };
    let present = ["README.adoc", "yarn.lock"];
    let r1 = run(&cfg, &present, license("mit", "MIT License"));
    let r2 = run(&cfg, &present, license("mit", "MIT License"));
    assert_eq!(r1.owner, r2.owner);
    assert_eq!(r1.repo, r2.repo);
    assert_eq!(r1.policy, r2.policy);
    assert_eq!(r1.score, r2.score);
    assert_eq!(r1.max_score, r2.max_score);
    assert_eq!(r1.required_passed, r2.required_passed);
    assert_eq!(r1.summary, r2.summary);
    assert_eq!(r1.checks.len(), r2.checks.len());
    for (a, b) in r1.checks.iter().zip(r2.checks.iter()) {
        assert!(checks_equal(a, b));
    }
}

#[test]
fn skipped_check_never_scores_regardless_of_overrides() {
    let cfg = RepoConfig {
        policy: PolicyPack::Enterprise,
        severity_overrides: vec![("README.adoc".to_string(), Severity::Required)],
        skip: vec!["README.adoc".to_string(), "no-go.mod".to_string()],
        require: Vec::new(),
        ban: Vec::new(),
    };
    let report = run(&cfg, &["README.adoc", "go.mod"], None);
    let readme = find_check(&report, "README.adoc").unwrap();
    assert_eq!(readme.status, CheckStatus::Skip);
    assert_eq!(readme.points, 0);
    assert_eq!(readme.max_points, 0);
    assert_eq!(readme.message, "AsciiDoc README skipped by config");
    assert!(find_check(&report, "no-go.mod").is_none());
}

#[test]
fn override_downgrade_turns_failure_into_skip() {
    let cfg = RepoConfig {
        policy: PolicyPack::Standard,
        severity_overrides: vec![("README.adoc".to_string(), Severity::Optional)],
        skip: Vec::new(),
        require: Vec::new(),
        ban: Vec::new(),
    };
    let report = run(&cfg, &["LICENSE.txt"], None);
    let readme = find_check(&report, "README.adoc").unwrap();
    assert_eq!(readme.severity, Severity::Optional);
    assert_eq!(readme.status, CheckStatus::Skip);
    assert_eq!(readme.max_points, 0);
    assert_eq!(readme.message, "AsciiDoc README not present (optional)");
    assert!(report.required_passed);
}

#[test]
fn custom_pack_override_raises_banned_pattern_to_required() {
    let cfg = RepoConfig {
        policy: PolicyPack::Custom,
        severity_overrides: vec![("no-yarn.lock".to_string(), Severity::Required)],
        skip: Vec::new(),
        require: Vec::new(),
        ban: Vec::new(),
    };
    let report = run(&cfg, &["README.adoc", "LICENSE.txt", "yarn.lock"], None);
    let violation = find_check(&report, "no-yarn.lock").unwrap();
    assert_eq!(violation.severity, Severity::Required);
    assert_eq!(violation.status, CheckStatus::Fail);
    assert!(!report.required_passed);
}

#[test]
fn all_skip_custom_policy_is_vacuously_perfect() {
    let cfg = RepoConfig {
        policy: PolicyPack::Custom,
        severity_overrides: vec![(".github/workflows".to_string(), Severity::Optional)],
        skip: vec![
            "README.adoc".to_string(),
            "LICENSE.txt".to_string(),
            "SECURITY.md".to_string(),
            "CONTRIBUTING.md".to_string(),
            "CODE_OF_CONDUCT.md".to_string(),
            "AGENTS.md".to_string(),
            "STATE.scm".to_string(),
            "META.scm".to_string(),
            "ECOSYSTEM.scm".to_string(),
        ],
        require: Vec::new(),
        ban: Vec::new(),
    };
    let report = run(&cfg, &[], None);
    assert_eq!(report.max_score, 0);
    assert_eq!(report.score, 0);
    assert_eq!(percentage(&report), 100.0);
    assert!(report.required_passed);
    assert_eq!(report.summary, "Excellent RSR compliance (custom)");
}

#[test]
fn optional_check_present_is_informative_pass() {
    let cfg = config(PolicyPack::Minimal);
    let report = run(&cfg, &["README.adoc", "LICENSE.txt", "SECURITY.md"], None);
    let security = find_check(&report, "SECURITY.md").unwrap();
    assert_eq!(security.severity, Severity::Optional);
    assert_eq!(security.status, CheckStatus::Pass);
    assert_eq!(security.points, 0);
    assert_eq!(security.max_points, 0);
    assert_eq!(security.message, "Security policy found (optional)");
}

#[test]
fn recommended_missing_warns_without_failing() {
    let cfg = config(PolicyPack::Standard);
    let report = run(&cfg, &["README.adoc", "LICENSE.txt"], None);
    let security = find_check(&report, "SECURITY.md").unwrap();
    assert_eq!(security.severity, Severity::Recommended);
    assert_eq!(security.status, CheckStatus::Warn);
    assert_eq!(security.points, 0);
    assert_eq!(security.max_points, 5);
    assert!(report.required_passed);
}

#[test]
fn report_keeps_registry_order() {
    let cfg = config(PolicyPack::Standard);
    let report = run(&cfg, &["go.sum", "package-lock.json"], Some(None));
    let names: Vec<&str> = report.checks.iter().map(|c| c.name.as_str()).collect();
    assert_eq!(
        names,
        vec![
            "README.adoc",
            "LICENSE.txt",
            "SECURITY.md",
            "CONTRIBUTING.md",
            "CODE_OF_CONDUCT.md",
            "AGENTS.md",
            "STATE.scm",
            "META.scm",
            "ECOSYSTEM.scm",
            "no-package-lock.json",
            "no-go.sum",
            ".github/workflows",
            "license-type",
        ]
    );
}

#[test]
fn metadata_fetch_failure_omits_the_license_check() {
    let cfg = config(PolicyPack::Enterprise);
    let with_fetch = run(&cfg, &[], Some(None));
    let without_fetch = run(&cfg, &[], None);
    assert!(find_check(&with_fetch, "license-type").is_some());
    assert!(find_check(&without_fetch, "license-type").is_none());
    assert_eq!(with_fetch.max_score, without_fetch.max_score + 5);
}

#[test]
fn every_approved_license_key_passes() {
    let cfg = config(PolicyPack::Enterprise);
    for key in ["agpl-3.0", "apache-2.0", "mit", "mpl-2.0", "lgpl-3.0"] {
        let report = run(&cfg, &[], license(key, "Some License"));
        let lic = find_check(&report, "license-type").unwrap();
        assert_eq!(lic.status, CheckStatus::Pass);
        assert_eq!(lic.points, 5);
        assert_eq!(lic.message, "Approved license: Some License");
    }
}

#[test]
fn extra_required_file_is_enforced() {
    let mut cfg = config(PolicyPack::Minimal);
    cfg.require = vec!["Makefile".to_string()];
    let absent = run(&cfg, &["README.adoc", "LICENSE.txt"], None);
    let mk = find_check(&absent, "Makefile").unwrap();
    assert_eq!(mk.severity, Severity::Required);
    assert_eq!(mk.status, CheckStatus::Fail);
    assert_eq!(mk.points, 0);
    assert_eq!(mk.max_points, 3);
    assert_eq!(mk.message, "Makefile missing");
    assert!(!absent.required_passed);
    let present = run(&cfg, &["README.adoc", "LICENSE.txt", "Makefile"], None);
    let mk = find_check(&present, "Makefile").unwrap();
    assert_eq!(mk.status, CheckStatus::Pass);
    assert_eq!(mk.points, 3);
    assert_eq!(mk.message, "Makefile found");
    assert!(present.required_passed);
    assert_eq!(present.max_score, absent.max_score);
    assert_eq!(present.score, absent.score + 3);
}

#[test]
fn extra_banned_pattern_is_enforced() {
    let mut cfg = config(PolicyPack::Minimal);
    cfg.ban = vec!["vendor.zip".to_string()];
    let clean = run(&cfg, &["README.adoc", "LICENSE.txt"], None);
    assert!(find_check(&clean, "no-vendor.zip").is_none());
    assert!(clean.required_passed);
    let dirty = run(&cfg, &["README.adoc", "LICENSE.txt", "vendor.zip"], None);
    let violation = find_check(&dirty, "no-vendor.zip").unwrap();
    assert_eq!(violation.severity, Severity::Required);
    assert_eq!(violation.status, CheckStatus::Fail);
    assert_eq!(violation.points, 0);
    assert_eq!(violation.max_points, 0);
    assert_eq!(violation.message, "vendor.zip detected - policy violation");
    assert!(!dirty.required_passed);
}

#[test]
fn extra_checks_obey_skip_and_overrides() {
    let mut cfg = config(PolicyPack::Standard);
    cfg.require = vec!["Makefile".to_string()];
    cfg.skip = vec!["Makefile".to_string()];
    let skipped = run(&cfg, &["README.adoc", "LICENSE.txt"], None);
    let mk = find_check(&skipped, "Makefile").unwrap();
    assert_eq!(mk.status, CheckStatus::Skip);
    assert_eq!(mk.max_points, 0);
    assert!(skipped.required_passed);

    let mut cfg = config(PolicyPack::Standard);
    cfg.ban = vec!["vendor.zip".to_string()];
    cfg.severity_overrides = vec![("no-vendor.zip".to_string(), Severity::Recommended)];
    let downgraded = run(&cfg, &["README.adoc", "LICENSE.txt", "vendor.zip"], None);
    let violation = find_check(&downgraded, "no-vendor.zip").unwrap();
    assert_eq!(violation.severity, Severity::Recommended);
    assert_eq!(violation.status, CheckStatus::Warn);
    assert!(downgraded.required_passed);
}
