//! Report data: individual check results, the compliance report, and the
//! composer that derives the human-readable summary tier from the aggregate
//! score.

use vstd::prelude::*;
use vstd::string::*;

use crate::model::{CheckCategory, CheckStatus, PolicyPack, Severity};

verus! {

/// Individual compliance check result; never mutated after creation.
#[derive(Debug)]
pub struct Check {
    pub name: String,
    pub category: CheckCategory,
    pub severity: Severity,
    pub status: CheckStatus,
    pub points: u8,
    pub max_points: u8,
    pub message: String,
}

/// Mathematical model of a check result.
pub struct CheckV {
    pub name: Seq<char>,
    pub category: CheckCategory,
    pub severity: Severity,
    pub status: CheckStatus,
    pub points: int,
    pub max_points: int,
    pub message: Seq<char>,
}

impl View for Check {
    type V = CheckV;

    open spec fn view(&self) -> CheckV {
        CheckV {
            name: self.name@,
            category: self.category,
            severity: self.severity,
            status: self.status,
            points: self.points as int,
            max_points: self.max_points as int,
            message: self.message@,
        }
    }
}

/// The models of a sequence of check results.
pub open spec fn check_views(s: Seq<Check>) -> Seq<CheckV> {
    s.map_values(|c: Check| c@)
}

/// Repository license metadata, as the metadata fetch reports it.
#[derive(Debug)]
pub struct License {
    /// Lower-case license identifier, e.g. `mit`.
    pub key: String,
    /// Human-readable license name.
    pub name: String,
    /// SPDX identifier, when known.
    pub spdx_id: Option<String>,
}

/// RSR compliance report: the engine's sole output, built once and
/// immutable.  The percentage is a derived quantity,
/// `100 * score / max_score` (or 100 when nothing was scoreable), and is
/// left to renderers; the summary tiers below are computed from the same
/// ratio exactly.
#[derive(Debug)]
pub struct ComplianceReport {
    pub owner: String,
    pub repo: String,
    pub policy: PolicyPack,
    pub score: u8,
    pub max_score: u8,
    pub required_passed: bool,
    pub checks: Vec<Check>,
    pub summary: String,
}

/// Mathematical model of a compliance report.
pub struct ReportV {
    pub owner: Seq<char>,
    pub repo: Seq<char>,
    pub policy: PolicyPack,
    pub score: int,
    pub max_score: int,
    pub required_passed: bool,
    pub checks: Seq<CheckV>,
    pub summary: Seq<char>,
}

impl View for ComplianceReport {
    type V = ReportV;

    open spec fn view(&self) -> ReportV {
        ReportV {
            owner: self.owner@,
            repo: self.repo@,
            policy: self.policy,
            score: self.score as int,
            max_score: self.max_score as int,
            required_passed: self.required_passed,
            checks: check_views(self.checks@),
            summary: self.summary@,
        }
    }
}

/// The lower-case name of a policy pack, as it appears in summaries.
pub open spec fn spec_pack_name(p: PolicyPack) -> Seq<char> {
    match p {
        PolicyPack::Minimal => "minimal"@,
        PolicyPack::Standard => "standard"@,
        PolicyPack::Strict => "strict"@,
        PolicyPack::Enterprise => "enterprise"@,
        PolicyPack::Custom => "custom"@,
    }
}

impl PolicyPack {
    /// The lower-case name of this pack, as it appears in summaries.
    pub fn name(&self) -> (r: &'static str)
        ensures
            r@ == spec_pack_name(*self),
    {
        match self {
            PolicyPack::Minimal => "minimal",
            PolicyPack::Standard => "standard",
            PolicyPack::Strict => "strict",
            PolicyPack::Enterprise => "enterprise",
            PolicyPack::Custom => "custom",
        }
    }
}

/// The summary line of a report with the given aggregate.  Failed required
/// checks take precedence over every percentage tier; the percentage tiers
/// compare `100 * score / max_score` against 90, 70 and 50, which on
/// integers is `100 * score >= tier * max_score` (vacuously the top tier
/// when nothing was scoreable).
pub open spec fn spec_summary(
    score: int,
    max_score: int,
    required_passed: bool,
    p: PolicyPack,
) -> Seq<char> {
    if !required_passed {
        "RSR "@ + spec_pack_name(p) + " policy: Required checks failed"@
    } else if 100 * score >= 90 * max_score {
        "Excellent RSR compliance ("@ + spec_pack_name(p) + ")"@
    } else if 100 * score >= 70 * max_score {
        "Good RSR compliance ("@ + spec_pack_name(p) + ") with minor issues"@
    } else if 100 * score >= 50 * max_score {
        "Partial RSR compliance ("@ + spec_pack_name(p) + ") - improvements needed"@
    } else {
        "Poor RSR compliance ("@ + spec_pack_name(p) + ") - significant work required"@
    }
}

/// Compose the summary line for an aggregate.
pub fn build_summary(score: u8, max_score: u8, required_passed: bool, p: PolicyPack) -> (r:
    String)
    ensures
        r@ == spec_summary(score as int, max_score as int, required_passed, p),
{
    let s: u32 = 100 * (score as u32);
    let m: u32 = max_score as u32;
    if !required_passed {
        String::from_str("RSR ").concat(p.name()).concat(" policy: Required checks failed")
    } else if s >= 90 * m {
        String::from_str("Excellent RSR compliance (").concat(p.name()).concat(")")
    } else if s >= 70 * m {
        String::from_str("Good RSR compliance (").concat(p.name()).concat(") with minor issues")
    } else if s >= 50 * m {
        String::from_str("Partial RSR compliance (").concat(p.name()).concat(
            ") - improvements needed",
        )
    } else {
        String::from_str("Poor RSR compliance (").concat(p.name()).concat(
            ") - significant work required",
        )
    }
}

/// Check-run conclusion for an aggregate, as published to CI: `success` at
/// 70 percent and above, `neutral` at 50 and above, `failure` below.
pub open spec fn spec_conclusion(score: int, max_score: int) -> Seq<char> {
    if 100 * score >= 70 * max_score {
        "success"@
    } else if 100 * score >= 50 * max_score {
        "neutral"@
    } else {
        "failure"@
    }
}

/// Check-run conclusion for an aggregate.
pub fn check_run_conclusion(score: u8, max_score: u8) -> (r: &'static str)
    ensures
        r@ == spec_conclusion(score as int, max_score as int),
{
    let s: u32 = 100 * (score as u32);
    let m: u32 = max_score as u32;
    if s >= 70 * m {
        "success"
    } else if s >= 50 * m {
        "neutral"
    } else {
        "failure"
    }
}

/// The fixed description of a policy pack's configuration.
pub open spec fn spec_policy_summary(p: PolicyPack) -> Seq<char> {
    match p {
        PolicyPack::Minimal => "Minimal policy: README.adoc and LICENSE.txt required. Other checks optional."@,
        PolicyPack::Standard => "Standard policy: Core files required, security and structure recommended."@,
        PolicyPack::Strict => "Strict policy: Most files required, language policy enforced."@,
        PolicyPack::Enterprise => "Enterprise policy: All checks required, full compliance mandatory."@,
        PolicyPack::Custom => "Custom policy: Defined by repository .rsr.toml configuration."@,
    }
}

/// Get the policy pack configuration summary.
pub fn policy_summary(policy: PolicyPack) -> (r: &'static str)
    ensures
        r@ == spec_policy_summary(policy),
{
    match policy {
        PolicyPack::Minimal => {
            "Minimal policy: README.adoc and LICENSE.txt required. Other checks optional."
        },
        PolicyPack::Standard => {
            "Standard policy: Core files required, security and structure recommended."
        },
        PolicyPack::Strict => "Strict policy: Most files required, language policy enforced.",
        PolicyPack::Enterprise => {
            "Enterprise policy: All checks required, full compliance mandatory."
        },
        PolicyPack::Custom => "Custom policy: Defined by repository .rsr.toml configuration.",
    }
}

/// One decimal digit as text.
pub open spec fn spec_digit_str(d: int) -> Seq<char> {
    if d == 0 {
        "0"@
    } else if d == 1 {
        "1"@
    } else if d == 2 {
        "2"@
    } else if d == 3 {
        "3"@
    } else if d == 4 {
        "4"@
    } else if d == 5 {
        "5"@
    } else if d == 6 {
        "6"@
    } else if d == 7 {
        "7"@
    } else if d == 8 {
        "8"@
    } else {
        "9"@
    }
}

/// Decimal notation of a non-negative integer, without leading zeros.
pub open spec fn spec_dec(n: int) -> Seq<char>
    decreases n,
{
    if n < 10 {
        spec_digit_str(n)
    } else {
        spec_dec(n / 10) + spec_digit_str(n % 10)
    }
}

fn digit_str(d: u8) -> (r: &'static str)
    requires
        d < 10,
    ensures
        r@ == spec_digit_str(d as int),
{
    if d == 0 {
        "0"
    } else if d == 1 {
        "1"
    } else if d == 2 {
        "2"
    } else if d == 3 {
        "3"
    } else if d == 4 {
        "4"
    } else if d == 5 {
        "5"
    } else if d == 6 {
        "6"
    } else if d == 7 {
        "7"
    } else if d == 8 {
        "8"
    } else {
        "9"
    }
}

/// Decimal notation of a byte-sized count.
pub fn u8_dec_string(n: u8) -> (r: String)
    ensures
        r@ == spec_dec(n as int),
{
    let q: u8 = n / 10;
    let d0: u8 = n % 10;
    if q == 0 {
        assert(spec_dec(n as int) == spec_digit_str(d0 as int));
        String::from_str(digit_str(d0))
    } else {
        let q2: u8 = q / 10;
        let d1: u8 = q % 10;
        assert(spec_dec(n as int) == spec_dec(q as int) + spec_digit_str(d0 as int));
        if q2 == 0 {
            assert(spec_dec(q as int) == spec_digit_str(d1 as int));
            String::from_str(digit_str(d1)).concat(digit_str(d0))
        } else {
            assert(spec_dec(q as int) == spec_dec(q2 as int) + spec_digit_str(d1 as int));
            assert(spec_dec(q2 as int) == spec_digit_str(q2 as int));
            String::from_str(digit_str(q2)).concat(digit_str(d1)).concat(digit_str(d0))
        }
    }
}


/// The status glyph used in the Markdown detail block.
pub open spec fn spec_status_icon(s: CheckStatus) -> Seq<char> {
    match s {
        CheckStatus::Pass => ":white_check_mark:"@,
        CheckStatus::Fail => ":x:"@,
        CheckStatus::Warn => ":warning:"@,
        CheckStatus::Skip => ":fast_forward:"@,
    }
}

fn status_icon(s: CheckStatus) -> (r: &'static str)
    ensures
        r@ == spec_status_icon(s),
{
    match s {
        CheckStatus::Pass => ":white_check_mark:",
        CheckStatus::Fail => ":x:",
        CheckStatus::Warn => ":warning:",
        CheckStatus::Skip => ":fast_forward:",
    }
}

/// One bullet of the Markdown detail block: status glyph, name, message
/// and earned/possible points.
pub open spec fn spec_check_line(c: CheckV) -> Seq<char> {
    "- "@ + spec_status_icon(c.status) + " **"@ + c.name + "**: "@ + c.message + " ("@
        + spec_dec(c.points) + "/"@ + spec_dec(c.max_points) + ")\n"@
}

fn check_line(c: &Check) -> (r: String)
    ensures
        r@ == spec_check_line(c@),
{
    String::from_str("- ").concat(status_icon(c.status)).concat(" **").concat(
        c.name.as_str(),
    ).concat("**: ").concat(c.message.as_str()).concat(" (").concat(
        u8_dec_string(c.points).as_str(),
    ).concat("/").concat(u8_dec_string(c.max_points).as_str()).concat(")\n")
}

/// The bullets of every result in `cs` whose category is `cat`, in order.
pub open spec fn spec_category_lines(cs: Seq<CheckV>, cat: CheckCategory) -> Seq<char>
    decreases cs.len(),
{
    if cs.len() == 0 {
        Seq::empty()
    } else {
        spec_category_lines(cs.drop_last(), cat) + (if cs.last().category == cat {
            spec_check_line(cs.last())
        } else {
            Seq::<char>::empty()
        })
    }
}

/// Whether any result in `cs` belongs to `cat`.
pub open spec fn spec_has_category(cs: Seq<CheckV>, cat: CheckCategory) -> bool {
    exists|i: int| 0 <= i < cs.len() && (#[trigger] cs[i]).category == cat
}

/// One category section of the detail block, empty when the category has
/// no results.
pub open spec fn spec_category_section(
    cs: Seq<CheckV>,
    cat: CheckCategory,
    title: Seq<char>,
) -> Seq<char> {
    if spec_has_category(cs, cat) {
        "### "@ + title + "\n\n"@ + spec_category_lines(cs, cat) + "\n"@
    } else {
        Seq::empty()
    }
}

/// The whole Markdown detail block: a header, then one section per
/// category in the fixed order, each grouping its results.
pub open spec fn spec_report_text(cs: Seq<CheckV>) -> Seq<char> {
    "## Detailed Results\n\n"@ + spec_category_section(cs, CheckCategory::Documentation, "Documentation"@)
        + spec_category_section(cs, CheckCategory::Security, "Security"@)
        + spec_category_section(cs, CheckCategory::Governance, "Governance"@)
        + spec_category_section(cs, CheckCategory::Structure, "Structure"@)
        + spec_category_section(cs, CheckCategory::LanguagePolicy, "Language Policy"@)
}

proof fn lemma_has_category_take_step(cs: Seq<CheckV>, cat: CheckCategory, i: int)
    requires
        0 <= i < cs.len(),
    ensures
        spec_has_category(cs.take(i + 1), cat) == (spec_has_category(cs.take(i), cat)
            || cs[i].category == cat),
{
    if spec_has_category(cs.take(i), cat) {
        let j = choose|j: int| 0 <= j < cs.take(i).len() && (#[trigger] cs.take(i)[j]).category == cat;
        assert(cs.take(i + 1)[j] == cs.take(i)[j]);
        assert(spec_has_category(cs.take(i + 1), cat));
    }
    if cs[i].category == cat {
        assert(cs.take(i + 1)[i] == cs[i]);
        assert(spec_has_category(cs.take(i + 1), cat));
    }
    if spec_has_category(cs.take(i + 1), cat) {
        let j = choose|j: int|
            0 <= j < cs.take(i + 1).len() && (#[trigger] cs.take(i + 1)[j]).category == cat;
        if j < i {
            assert(cs.take(i)[j] == cs.take(i + 1)[j]);
            assert(spec_has_category(cs.take(i), cat));
        } else {
            assert(cs.take(i + 1)[j] == cs[i]);
        }
    }
}

fn category_section(checks: &Vec<Check>, cat: CheckCategory, title: &str) -> (r: String)
    ensures
        r@ == spec_category_section(check_views(checks@), cat, title@),
{
    let ghost cs = check_views(checks@);
    let mut lines = String::new();
    let mut any: bool = false;
    let mut i: usize = 0;
    assert(cs.take(0) =~= Seq::<CheckV>::empty());
    while i < checks.len()
        invariant
            0 <= i <= checks@.len(),
            cs == check_views(checks@),
            cs.len() == checks@.len(),
            lines@ == spec_category_lines(cs.take(i as int), cat),
            any == spec_has_category(cs.take(i as int), cat),
        decreases checks@.len() - i,
    {
        let c = &checks[i];
        proof {
            assert(cs[i as int] == checks@[i as int]@);
            assert(cs.take(i as int + 1).drop_last() =~= cs.take(i as int));
            assert(cs.take(i as int + 1).last() == cs[i as int]);
            lemma_has_category_take_step(cs, cat, i as int);
        }
        if c.category == cat {
            let line = check_line(c);
            lines.append(line.as_str());
            any = true;
        } else {
            proof {
                assert(lines@ + Seq::<char>::empty() =~= lines@);
            }
        }
        i += 1;
    }
    proof {
        assert(cs.take(checks@.len() as int) =~= cs);
    }
    if any {
        String::from_str("### ").concat(title).concat("\n\n").concat(lines.as_str()).concat("\n")
    } else {
        String::new()
    }
}

/// Format a report as the Markdown detail block used in check-run
/// annotations: results grouped by category, one bullet per check with a
/// status glyph and earned/possible points.
pub fn format_report_text(report: &ComplianceReport) -> (r: String)
    ensures
        r@ == spec_report_text(check_views(report.checks@)),
{
    String::from_str("## Detailed Results\n\n").concat(
        category_section(&report.checks, CheckCategory::Documentation, "Documentation").as_str(),
    ).concat(category_section(&report.checks, CheckCategory::Security, "Security").as_str()).concat(
        category_section(&report.checks, CheckCategory::Governance, "Governance").as_str(),
    ).concat(category_section(&report.checks, CheckCategory::Structure, "Structure").as_str()).concat(
        category_section(&report.checks, CheckCategory::LanguagePolicy, "Language Policy").as_str(),
    )
}

} // verus!
