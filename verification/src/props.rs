//! Engine-wide laws, stated over the evaluation model and proved once for
//! every registry, configuration, oracle answer set and metadata outcome.

use vstd::prelude::*;

use crate::model::{
    BannedPattern, CheckDef, CheckStatus, PolicyPack, RepoConfig, Severity, SeverityTable,
    spec_effective_severity, spec_name_in, spec_override_lookup,
};
use crate::report::{License, ReportV};
use crate::evaluate::{
    lemma_banned_elems, lemma_checks_wf, lemma_file_check_shape, lemma_points_le_max,
    spec_all_checks, spec_approved_license, spec_banned_checks, spec_emitted_ok, spec_file_check,
    spec_file_checks, spec_flips, spec_license_checks, spec_max_sum, spec_points_sum,
    spec_present, spec_report, spec_required_passed, spec_workflow_check,
};

verus! {

/// For every policy pack and every check set, the earned score never
/// exceeds the possible score, and every check that resolved to `Optional`
/// or was skipped is excluded from the possible score entirely.
pub proof fn lemma_score_within_max(
    defs: Seq<CheckDef>,
    bans: Seq<BannedPattern>,
    cfg: RepoConfig,
    answers: Seq<(String, bool)>,
    fetch: Option<Option<License>>,
)
    ensures
        spec_points_sum(spec_all_checks(defs, bans, cfg, answers, fetch)) <= spec_max_sum(
            spec_all_checks(defs, bans, cfg, answers, fetch),
        ),
        forall|i: int|
            0 <= i < spec_all_checks(defs, bans, cfg, answers, fetch).len() ==> {
                let c = #[trigger] spec_all_checks(defs, bans, cfg, answers, fetch)[i];
                (c.severity == Severity::Optional || c.status == CheckStatus::Skip)
                    ==> c.max_points == 0
            },
{
    let cs = spec_all_checks(defs, bans, cfg, answers, fetch);
    lemma_checks_wf(defs, bans, cfg, answers, fetch);
    assert forall|j: int| 0 <= j < cs.len() implies (#[trigger] cs[j]).points
        <= cs[j].max_points by {
        assert(spec_emitted_ok(cs[j]));
    }
    lemma_points_le_max(cs);
}

/// `required_passed` is false exactly when some result has `Required`
/// severity and `Fail` status.  The one exception is excluded by the
/// premise: a fetched but non-approved license outside the Minimal pack
/// makes the license check warn at `Required` severity, and that warning
/// also trips the flag.
pub proof fn lemma_required_passed_iff_fail(
    defs: Seq<CheckDef>,
    bans: Seq<BannedPattern>,
    cfg: RepoConfig,
    answers: Seq<(String, bool)>,
    fetch: Option<Option<License>>,
)
    requires
        match fetch {
            Some(lic_opt) => match lic_opt {
                Some(lic) => spec_approved_license(lic.key@) || cfg.policy == PolicyPack::Minimal,
                None => true,
            },
            None => true,
        },
    ensures
        !spec_required_passed(spec_all_checks(defs, bans, cfg, answers, fetch)) <==> exists|i: int|
            0 <= i < spec_all_checks(defs, bans, cfg, answers, fetch).len()
                && (#[trigger] spec_all_checks(defs, bans, cfg, answers, fetch)[i]).severity
                == Severity::Required && spec_all_checks(defs, bans, cfg, answers, fetch)[i].status
                == CheckStatus::Fail,
{
    let cs = spec_all_checks(defs, bans, cfg, answers, fetch);
    let fs = spec_file_checks(defs, cfg, answers);
    let bs = spec_banned_checks(bans, cfg, answers);
    let w = spec_workflow_check(cfg, spec_present(answers, ".github/workflows"@));
    let ls = spec_license_checks(cfg.policy, fetch);
    lemma_banned_elems(bans, cfg, answers);
    assert forall|i: int| 0 <= i < cs.len() && spec_flips(#[trigger] cs[i]) implies cs[i].status
        == CheckStatus::Fail by {
        let fl = fs.len() as int;
        let bl = bs.len() as int;
        if i < fl {
            assert(cs[i] == fs[i]);
            lemma_file_check_shape(defs[i], cfg, spec_present(answers, defs[i].name@));
        } else if i < fl + bl {
            assert(cs[i] == bs[i - fl]);
        } else if i == fl + bl {
            assert(cs[i] == w);
        } else {
            assert(cs[i] == ls[i - fl - bl - 1]);
            assert(ls.len() == 1);
            assert(cs[i] == ls[0]);
        }
    }
    if !spec_required_passed(cs) {
        let i = choose|i: int| 0 <= i < cs.len() && spec_flips(#[trigger] cs[i]);
        assert(cs[i].severity == Severity::Required && cs[i].status == CheckStatus::Fail);
    }
    if exists|i: int|
        0 <= i < cs.len() && (#[trigger] cs[i]).severity == Severity::Required && cs[i].status
            == CheckStatus::Fail {
        let i = choose|i: int|
            0 <= i < cs.len() && (#[trigger] cs[i]).severity == Severity::Required && cs[i].status
                == CheckStatus::Fail;
        assert(spec_flips(cs[i]));
    }
}

/// Re-evaluating identical oracle answers and an identical configuration
/// yields an identical report: the engine is a pure function of its
/// inputs, so any two reports that satisfy its contract coincide in every
/// field, ordering included.
pub proof fn lemma_evaluation_idempotent(
    r1: ReportV,
    r2: ReportV,
    owner: Seq<char>,
    repo: Seq<char>,
    defs: Seq<CheckDef>,
    bans: Seq<BannedPattern>,
    cfg: RepoConfig,
    answers: Seq<(String, bool)>,
    fetch: Option<Option<License>>,
)
    requires
        r1 == spec_report(owner, repo, defs, bans, cfg, answers, fetch),
        r2 == spec_report(owner, repo, defs, bans, cfg, answers, fetch),
    ensures
        r1 == r2,
{
}

/// A required-file check named in `skip` never appears with non-zero
/// possible points, regardless of severity tables and overrides; detected
/// banned patterns never carry possible points at all.  The premise keeps
/// the two synthesized check names out of `skip`: the evaluator does not
/// consult `skip` for them, so naming them there would have no effect.
pub proof fn lemma_skip_never_scored(
    defs: Seq<CheckDef>,
    bans: Seq<BannedPattern>,
    cfg: RepoConfig,
    answers: Seq<(String, bool)>,
    fetch: Option<Option<License>>,
)
    requires
        !spec_name_in(cfg.skip@, ".github/workflows"@),
        !spec_name_in(cfg.skip@, "license-type"@),
    ensures
        forall|i: int|
            0 <= i < spec_all_checks(defs, bans, cfg, answers, fetch).len() ==> {
                let c = #[trigger] spec_all_checks(defs, bans, cfg, answers, fetch)[i];
                spec_name_in(cfg.skip@, c.name) ==> c.max_points == 0
            },
{
    let cs = spec_all_checks(defs, bans, cfg, answers, fetch);
    let fs = spec_file_checks(defs, cfg, answers);
    let bs = spec_banned_checks(bans, cfg, answers);
    let w = spec_workflow_check(cfg, spec_present(answers, ".github/workflows"@));
    let ls = spec_license_checks(cfg.policy, fetch);
    lemma_banned_elems(bans, cfg, answers);
    assert forall|i: int| 0 <= i < cs.len() implies {
        let c = #[trigger] cs[i];
        spec_name_in(cfg.skip@, c.name) ==> c.max_points == 0
    } by {
        let fl = fs.len() as int;
        let bl = bs.len() as int;
        if i < fl {
            assert(cs[i] == fs[i]);
            assert(fs[i] == spec_file_check(defs[i], cfg, spec_present(answers, defs[i].name@)));
            lemma_file_check_shape(defs[i], cfg, spec_present(answers, defs[i].name@));
        } else if i < fl + bl {
            assert(cs[i] == bs[i - fl]);
        } else if i == fl + bl {
            assert(cs[i] == w);
        } else {
            assert(cs[i] == ls[i - fl - bl - 1]);
            assert(ls.len() == 1);
            assert(cs[i] == ls[0]);
        }
    }
}

/// An entry in `severity_overrides` always wins over the policy-pack
/// table, for any pack including `Custom`.
pub proof fn lemma_override_wins(cfg: RepoConfig, key: Seq<char>, table: SeverityTable, s: Severity)
    requires
        spec_override_lookup(cfg.severity_overrides@, key) == Some(s),
    ensures
        spec_effective_severity(cfg, key, table) == s,
{
}

/// Lifted to the report: a required-file check that is not skipped carries
/// its overridden severity, in every pack.
pub proof fn lemma_override_wins_in_report(
    defs: Seq<CheckDef>,
    bans: Seq<BannedPattern>,
    cfg: RepoConfig,
    answers: Seq<(String, bool)>,
    fetch: Option<Option<License>>,
    i: int,
    s: Severity,
)
    requires
        0 <= i < defs.len(),
        !spec_name_in(cfg.skip@, defs[i].name@),
        spec_override_lookup(cfg.severity_overrides@, defs[i].name@) == Some(s),
    ensures
        spec_all_checks(defs, bans, cfg, answers, fetch)[i].severity == s,
{
    let cs = spec_all_checks(defs, bans, cfg, answers, fetch);
    let fs = spec_file_checks(defs, cfg, answers);
    assert(cs[i] == fs[i]);
    assert(fs[i] == spec_file_check(defs[i], cfg, spec_present(answers, defs[i].name@)));
}

} // verus!
