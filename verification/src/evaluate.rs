//! The evaluator and score aggregator.  The evaluator walks the registry in
//! order and produces one result per required-file check, one per detected
//! banned pattern, one synthesized workflow-presence check and, when the
//! repository metadata fetch succeeded, one license-approval check.  The
//! aggregator folds the results into `(score, max_score, required_passed)`.
//!
//! Oracle answers are handed in as plain `(path, present)` pairs: the first
//! recorded answer for a path wins, and a path with no recorded answer
//! counts as absent (transport errors and timeouts are conservative false
//! negatives).  The metadata fetch result is `None` when the fetch failed
//! (the license check is then omitted entirely), `Some(None)` when the
//! repository has no license, and `Some(Some(license))` otherwise.

use vstd::prelude::*;
use vstd::string::*;

use crate::model::{
    BannedPattern, CheckCategory, CheckDef, CheckStatus, PolicyPack, RepoConfig, Severity,
    contains_name, find_override, resolve_severity, spec_effective_severity, spec_name_in,
    spec_override_lookup,
};
use crate::report::{
    Check, CheckV, ComplianceReport, License, ReportV, build_summary, check_views, spec_summary,
};

verus! {

/// Answer of the existence oracle for `name`: the first recorded answer
/// wins; a path with no recorded answer counts as absent.
pub open spec fn spec_present(answers: Seq<(String, bool)>, name: Seq<char>) -> bool
    decreases answers.len(),
{
    if answers.len() == 0 {
        false
    } else if answers[0].0@ == name {
        answers[0].1
    } else {
        spec_present(answers.drop_first(), name)
    }
}

proof fn lemma_present_step(answers: Seq<(String, bool)>, name: Seq<char>, i: int)
    requires
        0 <= i < answers.len(),
        answers[i].0@ != name,
    ensures
        spec_present(answers.skip(i), name) == spec_present(answers.skip(i + 1), name),
{
    assert(answers.skip(i).drop_first() =~= answers.skip(i + 1));
}

/// Answer of the existence oracle for `name`.
pub fn lookup_present(answers: &Vec<(String, bool)>, name: &String) -> (b: bool)
    ensures
        b == spec_present(answers@, name@),
{
    let mut i: usize = 0;
    assert(answers@.skip(0) =~= answers@);
    while i < answers.len()
        invariant
            0 <= i <= answers@.len(),
            spec_present(answers@, name@) == spec_present(answers@.skip(i as int), name@),
        decreases answers@.len() - i,
    {
        if answers[i].0 == *name {
            assert(answers@.skip(i as int)[0] == answers@[i as int]);
            return answers[i].1;
        }
        proof {
            lemma_present_step(answers@, name@, i as int);
        }
        i += 1;
    }
    assert(answers@.skip(answers@.len() as int) =~= Seq::<(String, bool)>::empty());
    false
}

/// The result the evaluator emits for one required-file check: skipped
/// checks score nothing; optional checks are informative but unscored;
/// otherwise presence earns the points and absence fails (`Required`) or
/// warns (`Recommended`).
pub open spec fn spec_file_check(def: CheckDef, cfg: RepoConfig, present: bool) -> CheckV {
    if spec_name_in(cfg.skip@, def.name@) {
        CheckV {
            name: def.name@,
            category: def.category,
            severity: Severity::Optional,
            status: CheckStatus::Skip,
            points: 0,
            max_points: 0,
            message: def.description@ + " skipped by config"@,
        }
    } else {
        let sev = spec_effective_severity(cfg, def.name@, def.severity);
        if sev == Severity::Optional {
            CheckV {
                name: def.name@,
                category: def.category,
                severity: sev,
                status: if present {
                    CheckStatus::Pass
                } else {
                    CheckStatus::Skip
                },
                points: 0,
                max_points: 0,
                message: if present {
                    def.description@ + " found (optional)"@
                } else {
                    def.description@ + " not present (optional)"@
                },
            }
        } else if present {
            CheckV {
                name: def.name@,
                category: def.category,
                severity: sev,
                status: CheckStatus::Pass,
                points: def.points as int,
                max_points: def.points as int,
                message: def.description@ + " found"@,
            }
        } else {
            CheckV {
                name: def.name@,
                category: def.category,
                severity: sev,
                status: if sev == Severity::Required {
                    CheckStatus::Fail
                } else {
                    CheckStatus::Warn
                },
                points: 0,
                max_points: def.points as int,
                message: def.description@ + " missing"@,
            }
        }
    }
}

/// The results for the whole required-file registry, in registry order.
pub open spec fn spec_file_checks(
    defs: Seq<CheckDef>,
    cfg: RepoConfig,
    answers: Seq<(String, bool)>,
) -> Seq<CheckV> {
    Seq::new(defs.len(), |i: int| spec_file_check(defs[i], cfg, spec_present(answers, defs[i].name@)))
}

/// Evaluate the required-file checks.
pub fn evaluate_file_checks(
    registry: &Vec<CheckDef>,
    cfg: &RepoConfig,
    answers: &Vec<(String, bool)>,
) -> (r: Vec<Check>)
    ensures
        check_views(r@) == spec_file_checks(registry@, *cfg, answers@),
{
    let mut r: Vec<Check> = Vec::new();
    let mut i: usize = 0;
    while i < registry.len()
        invariant
            0 <= i <= registry@.len(),
            r@.len() == i,
            forall|j: int|
                0 <= j < i ==> r@[j]@ == spec_file_check(
                    registry@[j],
                    *cfg,
                    spec_present(answers@, registry@[j].name@),
                ),
        decreases registry@.len() - i,
    {
        let def = &registry[i];
        let c: Check;
        if contains_name(&cfg.skip, &def.name) {
            c = Check {
                name: def.name.clone(),
                category: def.category,
                severity: Severity::Optional,
                status: CheckStatus::Skip,
                points: 0,
                max_points: 0,
                message: def.description.clone().concat(" skipped by config"),
            };
        } else {
            let sev = resolve_severity(cfg, &def.name, def.severity);
            let present = lookup_present(answers, &def.name);
            if sev == Severity::Optional {
                c = Check {
                    name: def.name.clone(),
                    category: def.category,
                    severity: sev,
                    status: if present {
                        CheckStatus::Pass
                    } else {
                        CheckStatus::Skip
                    },
                    points: 0,
                    max_points: 0,
                    message: if present {
                        def.description.clone().concat(" found (optional)")
                    } else {
                        def.description.clone().concat(" not present (optional)")
                    },
                };
            } else if present {
                c = Check {
                    name: def.name.clone(),
                    category: def.category,
                    severity: sev,
                    status: CheckStatus::Pass,
                    points: def.points,
                    max_points: def.points,
                    message: def.description.clone().concat(" found"),
                };
            } else {
                c = Check {
                    name: def.name.clone(),
                    category: def.category,
                    severity: sev,
                    status: if sev == Severity::Required {
                        CheckStatus::Fail
                    } else {
                        CheckStatus::Warn
                    },
                    points: 0,
                    max_points: def.points,
                    message: def.description.clone().concat(" missing"),
                };
            }
        }
        r.push(c);
        i += 1;
    }
    proof {
        assert(check_views(r@) =~= spec_file_checks(registry@, *cfg, answers@));
    }
    r
}

/// The key under which a banned pattern is skipped or overridden.
pub open spec fn spec_ban_key(name: Seq<char>) -> Seq<char> {
    "no-"@ + name
}

/// The results the evaluator emits for one banned pattern: none when the
/// pattern is skipped or absent (absence of a banned file is the expected
/// baseline, not an achievement), one violation otherwise, failing under
/// `Required` severity and warning under any other.
pub open spec fn spec_banned_entry(
    b: BannedPattern,
    cfg: RepoConfig,
    answers: Seq<(String, bool)>,
) -> Seq<CheckV> {
    let key = spec_ban_key(b.name@);
    if spec_name_in(cfg.skip@, key) {
        Seq::empty()
    } else if spec_present(answers, b.name@) {
        let sev = spec_effective_severity(cfg, key, b.severity);
        seq![
            CheckV {
                name: key,
                category: b.category,
                severity: sev,
                status: if sev == Severity::Required {
                    CheckStatus::Fail
                } else {
                    CheckStatus::Warn
                },
                points: 0,
                max_points: 0,
                message: b.description@ + " detected - policy violation"@,
            },
        ]
    } else {
        Seq::empty()
    }
}

/// The results for the whole banned-pattern registry, in registry order.
pub open spec fn spec_banned_checks(
    bans: Seq<BannedPattern>,
    cfg: RepoConfig,
    answers: Seq<(String, bool)>,
) -> Seq<CheckV>
    decreases bans.len(),
{
    if bans.len() == 0 {
        Seq::empty()
    } else {
        spec_banned_checks(bans.drop_last(), cfg, answers) + spec_banned_entry(
            bans.last(),
            cfg,
            answers,
        )
    }
}

/// Evaluate the banned-pattern checks.
pub fn evaluate_banned_checks(
    banned: &Vec<BannedPattern>,
    cfg: &RepoConfig,
    answers: &Vec<(String, bool)>,
) -> (r: Vec<Check>)
    ensures
        check_views(r@) == spec_banned_checks(banned@, *cfg, answers@),
{
    let mut r: Vec<Check> = Vec::new();
    let mut i: usize = 0;
    assert(banned@.take(0) =~= Seq::<BannedPattern>::empty());
    while i < banned.len()
        invariant
            0 <= i <= banned@.len(),
            check_views(r@) == spec_banned_checks(banned@.take(i as int), *cfg, answers@),
        decreases banned@.len() - i,
    {
        let ghost prev = r@;
        let b = &banned[i];
        let key = String::from_str("no-").concat(b.name.as_str());
        if !contains_name(&cfg.skip, &key) {
            if lookup_present(answers, &b.name) {
                let sev = resolve_severity(cfg, &key, b.severity);
                r.push(
                    Check {
                        name: key,
                        category: b.category,
                        severity: sev,
                        status: if sev == Severity::Required {
                            CheckStatus::Fail
                        } else {
                            CheckStatus::Warn
                        },
                        points: 0,
                        max_points: 0,
                        message: b.description.clone().concat(" detected - policy violation"),
                    },
                );
            }
        }
        proof {
            assert(banned@.take(i as int + 1).drop_last() =~= banned@.take(i as int));
            assert(banned@.take(i as int + 1).last() == banned@[i as int]);
            assert(check_views(r@) =~= check_views(prev) + spec_banned_entry(
                banned@[i as int],
                *cfg,
                answers@,
            ));
        }
        i += 1;
    }
    proof {
        assert(banned@.take(banned@.len() as int) =~= banned@);
    }
    r
}

/// Severity of the synthesized workflow-presence check: policy-driven, and
/// overridable through `severity_overrides` only under the `Custom` pack.
pub open spec fn spec_workflow_severity(cfg: RepoConfig) -> Severity {
    match cfg.policy {
        PolicyPack::Minimal => Severity::Optional,
        PolicyPack::Standard => Severity::Recommended,
        PolicyPack::Strict => Severity::Required,
        PolicyPack::Enterprise => Severity::Required,
        PolicyPack::Custom => match spec_override_lookup(
            cfg.severity_overrides@,
            ".github/workflows"@,
        ) {
            Some(s) => s,
            None => Severity::Recommended,
        },
    }
}

/// The synthesized workflow-presence check, mapped from present/absent like
/// an ordinary required-file check worth 5 points.
pub open spec fn spec_workflow_check(cfg: RepoConfig, present: bool) -> CheckV {
    let sev = spec_workflow_severity(cfg);
    let mp: int = if sev == Severity::Optional {
        0
    } else {
        5
    };
    if present {
        CheckV {
            name: ".github/workflows"@,
            category: CheckCategory::Structure,
            severity: sev,
            status: CheckStatus::Pass,
            points: mp,
            max_points: mp,
            message: "GitHub Actions workflows found"@,
        }
    } else {
        CheckV {
            name: ".github/workflows"@,
            category: CheckCategory::Structure,
            severity: sev,
            status: match sev {
                Severity::Required => CheckStatus::Fail,
                Severity::Recommended => CheckStatus::Warn,
                Severity::Optional => CheckStatus::Skip,
            },
            points: 0,
            max_points: mp,
            message: "No GitHub Actions workflows"@,
        }
    }
}

/// Evaluate the synthesized workflow-presence check.
pub fn evaluate_workflow(cfg: &RepoConfig, present: bool) -> (c: Check)
    ensures
        c@ == spec_workflow_check(*cfg, present),
{
    let sev: Severity = match cfg.policy {
        PolicyPack::Minimal => Severity::Optional,
        PolicyPack::Standard => Severity::Recommended,
        PolicyPack::Strict => Severity::Required,
        PolicyPack::Enterprise => Severity::Required,
        PolicyPack::Custom => {
            let key = String::from_str(".github/workflows");
            match find_override(&cfg.severity_overrides, &key) {
                Some(s) => s,
                None => Severity::Recommended,
            }
        },
    };
    let mp: u8 = match sev {
        Severity::Optional => 0,
        _ => 5,
    };
    if present {
        Check {
            name: String::from_str(".github/workflows"),
            category: CheckCategory::Structure,
            severity: sev,
            status: CheckStatus::Pass,
            points: mp,
            max_points: mp,
            message: String::from_str("GitHub Actions workflows found"),
        }
    } else {
        Check {
            name: String::from_str(".github/workflows"),
            category: CheckCategory::Structure,
            severity: sev,
            status: match sev {
                Severity::Required => CheckStatus::Fail,
                Severity::Recommended => CheckStatus::Warn,
                Severity::Optional => CheckStatus::Skip,
            },
            points: 0,
            max_points: mp,
            message: String::from_str("No GitHub Actions workflows"),
        }
    }
}

/// The fixed set of approved license keys.
pub open spec fn spec_approved_license(key: Seq<char>) -> bool {
    ||| key == "agpl-3.0"@
    ||| key == "apache-2.0"@
    ||| key == "mit"@
    ||| key == "mpl-2.0"@
    ||| key == "lgpl-3.0"@
}

/// Severity of the synthesized license-approval check: the Minimal pack
/// downgrades it to `Recommended`, every other pack requires it.
pub open spec fn spec_license_severity(policy: PolicyPack) -> Severity {
    if policy == PolicyPack::Minimal {
        Severity::Recommended
    } else {
        Severity::Required
    }
}

/// The results the evaluator emits for the license-approval check: none
/// when the metadata fetch failed; otherwise a missing license fails, a
/// non-approved license warns with partial credit (2 of 5 points), and an
/// approved license passes with full credit.
pub open spec fn spec_license_checks(
    policy: PolicyPack,
    fetch: Option<Option<License>>,
) -> Seq<CheckV> {
    match fetch {
        Option::None => Seq::empty(),
        Option::Some(lic_opt) => {
            let sev = spec_license_severity(policy);
            match lic_opt {
                Option::Some(lic) => {
                    if spec_approved_license(lic.key@) {
                        seq![
                            CheckV {
                                name: "license-type"@,
                                category: CheckCategory::Governance,
                                severity: sev,
                                status: CheckStatus::Pass,
                                points: 5,
                                max_points: 5,
                                message: "Approved license: "@ + lic.name@,
                            },
                        ]
                    } else {
                        seq![
                            CheckV {
                                name: "license-type"@,
                                category: CheckCategory::Governance,
                                severity: sev,
                                status: CheckStatus::Warn,
                                points: 2,
                                max_points: 5,
                                message: "Non-standard license: "@ + lic.name@,
                            },
                        ]
                    }
                },
                Option::None => seq![
                    CheckV {
                        name: "license-type"@,
                        category: CheckCategory::Governance,
                        severity: sev,
                        status: CheckStatus::Fail,
                        points: 0,
                        max_points: 5,
                        message: "No license detected"@,
                    },
                ],
            }
        },
    }
}

/// Whether a license key is in the approved set.
pub fn approved_license(key: &String) -> (b: bool)
    ensures
        b == spec_approved_license(key@),
{
    *key == String::from_str("agpl-3.0") || *key == String::from_str("apache-2.0") || *key
        == String::from_str("mit") || *key == String::from_str("mpl-2.0") || *key
        == String::from_str("lgpl-3.0")
}

/// Evaluate the synthesized license-approval check.
pub fn evaluate_license(policy: PolicyPack, fetch: &Option<Option<License>>) -> (r: Vec<Check>)
    ensures
        check_views(r@) == spec_license_checks(policy, *fetch),
{
    let mut r: Vec<Check> = Vec::new();
    match fetch {
        Option::None => {},
        Option::Some(lic_opt) => {
            let sev: Severity = match policy {
                PolicyPack::Minimal => Severity::Recommended,
                _ => Severity::Required,
            };
            match lic_opt {
                Option::Some(lic) => {
                    if approved_license(&lic.key) {
                        r.push(
                            Check {
                                name: String::from_str("license-type"),
                                category: CheckCategory::Governance,
                                severity: sev,
                                status: CheckStatus::Pass,
                                points: 5,
                                max_points: 5,
                                message: String::from_str("Approved license: ").concat(
                                    lic.name.as_str(),
                                ),
                            },
                        );
                    } else {
                        r.push(
                            Check {
                                name: String::from_str("license-type"),
                                category: CheckCategory::Governance,
                                severity: sev,
                                status: CheckStatus::Warn,
                                points: 2,
                                max_points: 5,
                                message: String::from_str("Non-standard license: ").concat(
                                    lic.name.as_str(),
                                ),
                            },
                        );
                    }
                },
                Option::None => {
                    r.push(
                        Check {
                            name: String::from_str("license-type"),
                            category: CheckCategory::Governance,
                            severity: sev,
                            status: CheckStatus::Fail,
                            points: 0,
                            max_points: 5,
                            message: String::from_str("No license detected"),
                        },
                    );
                },
            }
        },
    }
    proof {
        assert(check_views(r@) =~= spec_license_checks(policy, *fetch));
    }
    r
}


/// Sum of earned points over a sequence of results.
pub open spec fn spec_points_sum(cs: Seq<CheckV>) -> int
    decreases cs.len(),
{
    if cs.len() == 0 {
        0
    } else {
        spec_points_sum(cs.drop_last()) + cs.last().points
    }
}

/// Sum of possible points over a sequence of results.
pub open spec fn spec_max_sum(cs: Seq<CheckV>) -> int
    decreases cs.len(),
{
    if cs.len() == 0 {
        0
    } else {
        spec_max_sum(cs.drop_last()) + cs.last().max_points
    }
}

/// Whether a result trips the `required_passed` flag: a `Required`-severity
/// check that failed, or the `Required`-severity license check left at
/// `Warn` by a non-approved license (the only `Required`-and-`Warn` result
/// the evaluator ever emits).
pub open spec fn spec_flips(c: CheckV) -> bool {
    c.severity == Severity::Required && (c.status == CheckStatus::Fail || c.status
        == CheckStatus::Warn)
}

/// Whether every `Required`-severity obligation was met.
pub open spec fn spec_required_passed(cs: Seq<CheckV>) -> bool {
    forall|i: int| 0 <= i < cs.len() ==> !spec_flips(#[trigger] cs[i])
}

proof fn lemma_sum_take_step(cs: Seq<CheckV>, i: int)
    requires
        0 <= i < cs.len(),
    ensures
        spec_points_sum(cs.take(i + 1)) == spec_points_sum(cs.take(i)) + cs[i].points,
        spec_max_sum(cs.take(i + 1)) == spec_max_sum(cs.take(i)) + cs[i].max_points,
{
    assert(cs.take(i + 1).drop_last() =~= cs.take(i));
    assert(cs.take(i + 1).last() == cs[i]);
}

proof fn lemma_max_sum_take_le(cs: Seq<CheckV>, i: int)
    requires
        0 <= i <= cs.len(),
        forall|j: int| 0 <= j < cs.len() ==> (#[trigger] cs[j]).max_points >= 0,
    ensures
        spec_max_sum(cs.take(i)) <= spec_max_sum(cs),
    decreases cs.len() - i,
{
    if i == cs.len() {
        assert(cs.take(i) =~= cs);
    } else {
        lemma_sum_take_step(cs, i);
        lemma_max_sum_take_le(cs, i + 1);
    }
}

pub proof fn lemma_points_le_max(cs: Seq<CheckV>)
    requires
        forall|j: int| 0 <= j < cs.len() ==> (#[trigger] cs[j]).points <= cs[j].max_points,
    ensures
        spec_points_sum(cs) <= spec_max_sum(cs),
    decreases cs.len(),
{
    if cs.len() > 0 {
        assert forall|j: int| 0 <= j < cs.drop_last().len() implies (#[trigger] cs.drop_last()[j]).points
            <= cs.drop_last()[j].max_points by {
            assert(cs.drop_last()[j] == cs[j]);
        }
        lemma_points_le_max(cs.drop_last());
        assert(cs.last().points <= cs.last().max_points);
    }
}

proof fn lemma_required_take_step(cs: Seq<CheckV>, i: int)
    requires
        0 <= i < cs.len(),
    ensures
        spec_required_passed(cs.take(i + 1)) == (spec_required_passed(cs.take(i))
            && !spec_flips(cs[i])),
{
    if spec_required_passed(cs.take(i)) && !spec_flips(cs[i]) {
        assert forall|j: int| 0 <= j < i + 1 implies !spec_flips(#[trigger] cs.take(i + 1)[j]) by {
            if j < i {
                assert(cs.take(i + 1)[j] == cs.take(i)[j]);
            } else {
                assert(cs.take(i + 1)[j] == cs[i]);
            }
        }
    }
    if spec_required_passed(cs.take(i + 1)) {
        assert forall|j: int| 0 <= j < i implies !spec_flips(#[trigger] cs.take(i)[j]) by {
            assert(cs.take(i)[j] == cs.take(i + 1)[j]);
        }
        assert(cs.take(i + 1)[i] == cs[i]);
        assert(!spec_flips(cs[i]));
    }
}

/// Fold check results into `(score, max_score, required_passed)`.  The
/// evaluator already enforces that skips and optional checks carry zero
/// points, so the aggregator simply sums; `required_passed` holds exactly
/// when no result trips the flag.
pub fn aggregate(checks: &Vec<Check>) -> (r: (u8, u8, bool))
    requires
        spec_max_sum(check_views(checks@)) <= 255,
        forall|j: int| 0 <= j < checks@.len() ==> (#[trigger] checks@[j]@).points
            <= checks@[j]@.max_points,
    ensures
        r.0 as int == spec_points_sum(check_views(checks@)),
        r.1 as int == spec_max_sum(check_views(checks@)),
        r.2 == spec_required_passed(check_views(checks@)),
        r.0 <= r.1,
{
    let ghost cs = check_views(checks@);
    proof {
        assert forall|j: int| 0 <= j < cs.len() implies 0 <= (#[trigger] cs[j]).points
            <= cs[j].max_points by {
            assert(cs[j] == checks@[j]@);
        }
    }
    let mut score: u8 = 0;
    let mut max_score: u8 = 0;
    let mut required_passed: bool = true;
    let mut i: usize = 0;
    assert(cs.take(0) =~= Seq::<CheckV>::empty());
    while i < checks.len()
        invariant
            0 <= i <= checks@.len(),
            cs == check_views(checks@),
            cs.len() == checks@.len(),
            spec_max_sum(cs) <= 255,
            forall|j: int| 0 <= j < cs.len() ==> 0 <= (#[trigger] cs[j]).points
                <= cs[j].max_points,
            score as int == spec_points_sum(cs.take(i as int)),
            max_score as int == spec_max_sum(cs.take(i as int)),
            required_passed == spec_required_passed(cs.take(i as int)),
        decreases checks@.len() - i,
    {
        let c = &checks[i];
        proof {
            assert(cs[i as int] == checks@[i as int]@);
            lemma_sum_take_step(cs, i as int);
            lemma_max_sum_take_le(cs, i as int + 1);
            assert forall|j: int| 0 <= j < cs.take(i as int).len() implies (#[trigger] cs.take(
                i as int,
            )[j]).points <= cs.take(i as int)[j].max_points by {
                assert(cs.take(i as int)[j] == cs[j]);
            }
            lemma_points_le_max(cs.take(i as int));
            lemma_required_take_step(cs, i as int);
        }
        score = score + c.points;
        max_score = max_score + c.max_points;
        let trips: bool = match c.severity {
            Severity::Required => match c.status {
                CheckStatus::Fail => true,
                CheckStatus::Warn => true,
                _ => false,
            },
            _ => false,
        };
        if trips {
            required_passed = false;
        }
        i += 1;
    }
    proof {
        assert(cs.take(checks@.len() as int) =~= cs);
        lemma_points_le_max(cs);
    }
    (score, max_score, required_passed)
}


/// All results of one evaluation, in report order: required-file checks in
/// registry order, then banned-pattern violations, then the synthesized
/// workflow check, then the license check when metadata was fetched.
pub open spec fn spec_all_checks(
    defs: Seq<CheckDef>,
    bans: Seq<BannedPattern>,
    cfg: RepoConfig,
    answers: Seq<(String, bool)>,
    fetch: Option<Option<License>>,
) -> Seq<CheckV> {
    spec_file_checks(defs, cfg, answers) + spec_banned_checks(bans, cfg, answers) + seq![
        spec_workflow_check(cfg, spec_present(answers, ".github/workflows"@)),
    ] + spec_license_checks(cfg.policy, fetch)
}

/// Structural facts that hold of every result the evaluator emits: points
/// never exceed possible points, and optional or skipped checks are
/// excluded from the possible score.
pub open spec fn spec_emitted_ok(c: CheckV) -> bool {
    &&& 0 <= c.points <= c.max_points
    &&& ((c.severity == Severity::Optional || c.status == CheckStatus::Skip) ==> c.max_points
        == 0)
}

pub proof fn lemma_file_check_shape(def: CheckDef, cfg: RepoConfig, present: bool)
    ensures
        ({
            let c = spec_file_check(def, cfg, present);
            spec_emitted_ok(c) && (c.status == CheckStatus::Warn ==> c.severity
                == Severity::Recommended) && c.max_points <= def.points && c.name == def.name@
                && c.category == def.category
        }),
{
}

pub proof fn lemma_banned_elems(bans: Seq<BannedPattern>, cfg: RepoConfig, answers: Seq<(String, bool)>)
    ensures
        forall|i: int|
            0 <= i < spec_banned_checks(bans, cfg, answers).len() ==> {
                let c = #[trigger] spec_banned_checks(bans, cfg, answers)[i];
                c.points == 0 && c.max_points == 0 && (c.status == CheckStatus::Fail || c.status
                    == CheckStatus::Warn) && (c.status == CheckStatus::Warn ==> c.severity
                    != Severity::Required)
            },
    decreases bans.len(),
{
    if bans.len() > 0 {
        lemma_banned_elems(bans.drop_last(), cfg, answers);
        let prev = spec_banned_checks(bans.drop_last(), cfg, answers);
        let entry = spec_banned_entry(bans.last(), cfg, answers);
        assert forall|i: int| 0 <= i < spec_banned_checks(bans, cfg, answers).len() implies {
            let c = #[trigger] spec_banned_checks(bans, cfg, answers)[i];
            c.points == 0 && c.max_points == 0 && (c.status == CheckStatus::Fail || c.status
                == CheckStatus::Warn) && (c.status == CheckStatus::Warn ==> c.severity
                != Severity::Required)
        } by {
            if i < prev.len() {
                assert(spec_banned_checks(bans, cfg, answers)[i] == prev[i]);
            } else {
                assert(spec_banned_checks(bans, cfg, answers)[i] == entry[i - prev.len()]);
            }
        }
    }
}

proof fn lemma_sum_concat(a: Seq<CheckV>, b: Seq<CheckV>)
    ensures
        spec_max_sum(a + b) == spec_max_sum(a) + spec_max_sum(b),
        spec_points_sum(a + b) == spec_points_sum(a) + spec_points_sum(b),
    decreases b.len(),
{
    if b.len() == 0 {
        assert(a + b =~= a);
    } else {
        lemma_sum_concat(a, b.drop_last());
        assert((a + b).drop_last() =~= a + b.drop_last());
        assert((a + b).last() == b.last());
    }
}

proof fn lemma_singleton_sums(c: CheckV)
    ensures
        spec_max_sum(seq![c]) == c.max_points,
        spec_points_sum(seq![c]) == c.points,
{
    assert(seq![c].drop_last() =~= Seq::<CheckV>::empty());
    assert(seq![c].last() == c);
    assert(spec_max_sum(Seq::<CheckV>::empty()) == 0);
    assert(spec_points_sum(Seq::<CheckV>::empty()) == 0);
}

proof fn lemma_banned_sums_zero(
    bans: Seq<BannedPattern>,
    cfg: RepoConfig,
    answers: Seq<(String, bool)>,
)
    ensures
        spec_max_sum(spec_banned_checks(bans, cfg, answers)) == 0,
        spec_points_sum(spec_banned_checks(bans, cfg, answers)) == 0,
    decreases bans.len(),
{
    if bans.len() > 0 {
        lemma_banned_sums_zero(bans.drop_last(), cfg, answers);
        let entry = spec_banned_entry(bans.last(), cfg, answers);
        lemma_sum_concat(spec_banned_checks(bans.drop_last(), cfg, answers), entry);
        if entry.len() > 0 {
            lemma_singleton_sums(entry[0]);
            assert(entry =~= seq![entry[0]]);
        } else {
            assert(entry =~= Seq::<CheckV>::empty());
        }
    }
}

/// Sum of the point values of a required-file registry.
pub open spec fn spec_def_points_sum(defs: Seq<CheckDef>) -> int
    decreases defs.len(),
{
    if defs.len() == 0 {
        0
    } else {
        spec_def_points_sum(defs.drop_last()) + defs.last().points
    }
}

proof fn lemma_def_sum_take_step(defs: Seq<CheckDef>, i: int)
    requires
        0 <= i < defs.len(),
    ensures
        spec_def_points_sum(defs.take(i + 1)) == spec_def_points_sum(defs.take(i))
            + defs[i].points,
{
    assert(defs.take(i + 1).drop_last() =~= defs.take(i));
    assert(defs.take(i + 1).last() == defs[i]);
}

proof fn lemma_def_sum_take_le(defs: Seq<CheckDef>, i: int)
    requires
        0 <= i <= defs.len(),
    ensures
        spec_def_points_sum(defs.take(i)) <= spec_def_points_sum(defs),
    decreases defs.len() - i,
{
    if i == defs.len() {
        assert(defs.take(i) =~= defs);
    } else {
        lemma_def_sum_take_step(defs, i);
        lemma_def_sum_take_le(defs, i + 1);
    }
}

proof fn lemma_file_max_sum(
    defs: Seq<CheckDef>,
    cfg: RepoConfig,
    answers: Seq<(String, bool)>,
    i: int,
)
    requires
        0 <= i <= defs.len(),
    ensures
        spec_max_sum(spec_file_checks(defs, cfg, answers).take(i)) <= spec_def_points_sum(
            defs.take(i),
        ),
        spec_points_sum(spec_file_checks(defs, cfg, answers).take(i)) >= 0,
    decreases i,
{
    let fs = spec_file_checks(defs, cfg, answers);
    if i > 0 {
        lemma_file_max_sum(defs, cfg, answers, i - 1);
        lemma_sum_take_step(fs, i - 1);
        lemma_def_sum_take_step(defs, i - 1);
        lemma_file_check_shape(defs[i - 1], cfg, spec_present(answers, defs[i - 1].name@));
        assert(fs[i - 1] == spec_file_check(defs[i - 1], cfg, spec_present(answers, defs[i - 1].name@)));
    }
}

/// Every result of an evaluation is well-formed, and the possible score is
/// bounded by the registry's own point total plus the two synthesized
/// five-point checks.
pub proof fn lemma_checks_wf(
    defs: Seq<CheckDef>,
    bans: Seq<BannedPattern>,
    cfg: RepoConfig,
    answers: Seq<(String, bool)>,
    fetch: Option<Option<License>>,
)
    ensures
        forall|i: int|
            0 <= i < spec_all_checks(defs, bans, cfg, answers, fetch).len()
                ==> spec_emitted_ok(#[trigger] spec_all_checks(defs, bans, cfg, answers, fetch)[i]),
        spec_max_sum(spec_all_checks(defs, bans, cfg, answers, fetch)) <= spec_def_points_sum(defs)
            + 10,
{
    let fs = spec_file_checks(defs, cfg, answers);
    let bs = spec_banned_checks(bans, cfg, answers);
    let w = spec_workflow_check(cfg, spec_present(answers, ".github/workflows"@));
    let ls = spec_license_checks(cfg.policy, fetch);
    let cs = spec_all_checks(defs, bans, cfg, answers, fetch);
    lemma_banned_elems(bans, cfg, answers);
    assert forall|i: int| 0 <= i < cs.len() implies spec_emitted_ok(#[trigger] cs[i]) by {
        if i < fs.len() {
            assert(cs[i] == fs[i]);
            lemma_file_check_shape(defs[i], cfg, spec_present(answers, defs[i].name@));
        } else if i < fs.len() + bs.len() {
            assert(cs[i] == bs[i - fs.len()]);
        } else if i < fs.len() + bs.len() + 1 {
            assert(cs[i] == w);
        } else {
            assert(cs[i] == ls[i - fs.len() - bs.len() - 1]);
            assert(ls.len() > 0);
        }
    }
    lemma_sum_concat(fs + bs + seq![w], ls);
    lemma_sum_concat(fs + bs, seq![w]);
    lemma_sum_concat(fs, bs);
    lemma_singleton_sums(w);
    lemma_banned_sums_zero(bans, cfg, answers);
    lemma_file_max_sum(defs, cfg, answers, defs.len() as int);
    assert(fs.take(fs.len() as int) =~= fs);
    assert(defs.take(defs.len() as int) =~= defs);
    if ls.len() > 0 {
        lemma_singleton_sums(ls[0]);
        assert(ls =~= seq![ls[0]]);
    } else {
        assert(ls =~= Seq::<CheckV>::empty());
    }
}

/// Whether a registry's total point value leaves room for the two
/// synthesized five-point checks within the byte-sized score.
pub fn registry_points_fit(registry: &Vec<CheckDef>) -> (b: bool)
    ensures
        b == (spec_def_points_sum(registry@) + 10 <= 255),
{
    let mut total: u32 = 0;
    let mut i: usize = 0;
    assert(registry@.take(0) =~= Seq::<CheckDef>::empty());
    while i < registry.len()
        invariant
            0 <= i <= registry@.len(),
            total as int == spec_def_points_sum(registry@.take(i as int)),
            total <= 245,
        decreases registry@.len() - i,
    {
        proof {
            lemma_def_sum_take_step(registry@, i as int);
        }
        let p = registry[i].points;
        if total + (p as u32) > 245 {
            proof {
                lemma_def_sum_take_le(registry@, i as int + 1);
            }
            return false;
        }
        total = total + (p as u32);
        i += 1;
    }
    assert(registry@.take(registry@.len() as int) =~= registry@);
    true
}

/// The full report of one evaluation: the engine is a pure function of its
/// inputs, and this is its value.
pub open spec fn spec_report(
    owner: Seq<char>,
    repo: Seq<char>,
    defs: Seq<CheckDef>,
    bans: Seq<BannedPattern>,
    cfg: RepoConfig,
    answers: Seq<(String, bool)>,
    fetch: Option<Option<License>>,
) -> ReportV {
    let cs = spec_all_checks(defs, bans, cfg, answers, fetch);
    ReportV {
        owner: owner,
        repo: repo,
        policy: cfg.policy,
        score: spec_points_sum(cs),
        max_score: spec_max_sum(cs),
        required_passed: spec_required_passed(cs),
        checks: cs,
        summary: spec_summary(
            spec_points_sum(cs),
            spec_max_sum(cs),
            spec_required_passed(cs),
            cfg.policy,
        ),
    }
}

/// Check repository compliance against a specific policy configuration.
/// The registry point total must leave room for the two synthesized
/// five-point checks in the byte-sized score; `registry_points_fit` tests
/// exactly that, and the real registry totals 32 points.
pub fn check_compliance_with_policy(
    owner: &str,
    repo: &str,
    registry: &Vec<CheckDef>,
    banned: &Vec<BannedPattern>,
    repo_config: &RepoConfig,
    answers: &Vec<(String, bool)>,
    license_fetch: &Option<Option<License>>,
) -> (r: ComplianceReport)
    requires
        spec_def_points_sum(registry@) + 10 <= 255,
    ensures
        r@ == spec_report(
            owner@,
            repo@,
            registry@,
            banned@,
            *repo_config,
            answers@,
            *license_fetch,
        ),
{
    let ghost cs = spec_all_checks(registry@, banned@, *repo_config, answers@, *license_fetch);
    let mut checks = evaluate_file_checks(registry, repo_config, answers);
    let ghost fpart = checks@;
    let mut banned_checks = evaluate_banned_checks(banned, repo_config, answers);
    let ghost bpart = banned_checks@;
    checks.append(&mut banned_checks);
    let workflow_name = String::from_str(".github/workflows");
    let workflow_present = lookup_present(answers, &workflow_name);
    let workflow_check = evaluate_workflow(repo_config, workflow_present);
    let ghost wcheck = workflow_check;
    checks.push(workflow_check);
    let mut license_checks = evaluate_license(repo_config.policy, license_fetch);
    let ghost lpart = license_checks@;
    checks.append(&mut license_checks);
    proof {
        let fs = spec_file_checks(registry@, *repo_config, answers@);
        let bs = spec_banned_checks(banned@, *repo_config, answers@);
        let w = spec_workflow_check(*repo_config, spec_present(answers@, ".github/workflows"@));
        let ls = spec_license_checks(repo_config.policy, *license_fetch);
        assert(checks@ == ((fpart + bpart).push(wcheck)) + lpart);
        assert forall|i: int| 0 <= i < checks@.len() implies #[trigger] check_views(checks@)[i]
            == cs[i] by {
            let fl = fpart.len() as int;
            let bl = bpart.len() as int;
            if i < fl {
                assert(checks@[i] == fpart[i]);
                assert(check_views(fpart)[i] == fpart[i]@);
                assert(cs[i] == fs[i]);
            } else if i < fl + bl {
                assert(checks@[i] == bpart[i - fl]);
                assert(check_views(bpart)[i - fl] == bpart[i - fl]@);
                assert(cs[i] == bs[i - fl]);
            } else if i == fl + bl {
                assert(checks@[i] == wcheck);
                assert(cs[i] == w);
            } else {
                assert(checks@[i] == lpart[i - fl - bl - 1]);
                assert(check_views(lpart)[i - fl - bl - 1] == lpart[i - fl - bl - 1]@);
                assert(cs[i] == ls[i - fl - bl - 1]);
            }
        }
        assert(check_views(checks@) =~= cs);
        lemma_checks_wf(registry@, banned@, *repo_config, answers@, *license_fetch);
        assert forall|j: int| 0 <= j < checks@.len() implies (#[trigger] checks@[j]@).points
            <= checks@[j]@.max_points by {
            assert(check_views(checks@)[j] == checks@[j]@);
            assert(spec_emitted_ok(cs[j]));
        }
    }
    let (score, max_score, required_passed) = aggregate(&checks);
    let summary = build_summary(score, max_score, required_passed, repo_config.policy);
    ComplianceReport {
        owner: owner.to_owned(),
        repo: repo.to_owned(),
        policy: repo_config.policy,
        score,
        max_score,
        required_passed,
        checks,
        summary,
    }
}

} // verus!
