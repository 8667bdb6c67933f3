//! The immutable check registry: required-file checks and banned-pattern
//! checks, each annotated with a severity per policy pack.  The registry is
//! handed to the evaluator as a parameter, so synthetic registries can be
//! evaluated as well; these two builders produce the real RSR tables.

use vstd::prelude::*;
use vstd::string::*;

use crate::model::{BannedPattern, CheckCategory, CheckDef, Severity, SeverityTable};

verus! {

/// Whether a check definition carries exactly the given fields.
pub open spec fn spec_def_is(
    d: CheckDef,
    name: Seq<char>,
    description: Seq<char>,
    category: CheckCategory,
    points: int,
    table: SeverityTable,
) -> bool {
    &&& d.name@ == name
    &&& d.description@ == description
    &&& d.category == category
    &&& d.points as int == points
    &&& d.severity == table
}

/// Whether a banned-pattern definition carries exactly the given fields.
pub open spec fn spec_ban_is(
    b: BannedPattern,
    name: Seq<char>,
    description: Seq<char>,
    category: CheckCategory,
    table: SeverityTable,
) -> bool {
    &&& b.name@ == name
    &&& b.description@ == description
    &&& b.category == category
    &&& b.severity == table
}

/// Table that makes a check required under every pack.
pub open spec fn spec_table_all_required() -> SeverityTable {
    SeverityTable {
        minimal: Severity::Required,
        standard: Severity::Required,
        strict: Severity::Required,
        enterprise: Severity::Required,
    }
}

/// Table for checks that harden with the pack: optional under Minimal,
/// recommended under Standard, required under Strict and Enterprise.
pub open spec fn spec_table_ramp() -> SeverityTable {
    SeverityTable {
        minimal: Severity::Optional,
        standard: Severity::Recommended,
        strict: Severity::Required,
        enterprise: Severity::Required,
    }
}

/// Table for late-hardening checks: optional up to Standard, recommended
/// under Strict, required under Enterprise.
pub open spec fn spec_table_late_ramp() -> SeverityTable {
    SeverityTable {
        minimal: Severity::Optional,
        standard: Severity::Optional,
        strict: Severity::Recommended,
        enterprise: Severity::Required,
    }
}

fn table_all_required() -> (t: SeverityTable)
    ensures
        t == spec_table_all_required(),
{
    SeverityTable {
        minimal: Severity::Required,
        standard: Severity::Required,
        strict: Severity::Required,
        enterprise: Severity::Required,
    }
}

fn table_ramp() -> (t: SeverityTable)
    ensures
        t == spec_table_ramp(),
{
    SeverityTable {
        minimal: Severity::Optional,
        standard: Severity::Recommended,
        strict: Severity::Required,
        enterprise: Severity::Required,
    }
}

fn table_late_ramp() -> (t: SeverityTable)
    ensures
        t == spec_table_late_ramp(),
{
    SeverityTable {
        minimal: Severity::Optional,
        standard: Severity::Optional,
        strict: Severity::Recommended,
        enterprise: Severity::Required,
    }
}

fn def(
    name: &str,
    description: &str,
    category: CheckCategory,
    points: u8,
    table: SeverityTable,
) -> (d: CheckDef)
    ensures
        spec_def_is(d, name@, description@, category, points as int, table),
{
    CheckDef {
        name: String::from_str(name),
        description: String::from_str(description),
        category,
        points,
        severity: table,
    }
}

fn ban(name: &str, description: &str, table: SeverityTable) -> (b: BannedPattern)
    ensures
        spec_ban_is(b, name@, description@, CheckCategory::LanguagePolicy, table),
{
    BannedPattern {
        name: String::from_str(name),
        description: String::from_str(description),
        category: CheckCategory::LanguagePolicy,
        severity: table,
    }
}

/// Required files for RSR compliance with policy-based severity.
pub fn required_files() -> (r: Vec<CheckDef>)
    ensures
        r@.len() == 9,
        spec_def_is(
            r@[0],
            "README.adoc"@,
            "AsciiDoc README"@,
            CheckCategory::Documentation,
            5,
            spec_table_all_required(),
        ),
        spec_def_is(
            r@[1],
            "LICENSE.txt"@,
            "License file"@,
            CheckCategory::Governance,
            5,
            spec_table_all_required(),
        ),
        spec_def_is(
            r@[2],
            "SECURITY.md"@,
            "Security policy"@,
            CheckCategory::Security,
            5,
            spec_table_ramp(),
        ),
        spec_def_is(
            r@[3],
            "CONTRIBUTING.md"@,
            "Contributing guidelines"@,
            CheckCategory::Documentation,
            3,
            spec_table_ramp(),
        ),
        spec_def_is(
            r@[4],
            "CODE_OF_CONDUCT.md"@,
            "Code of conduct"@,
            CheckCategory::Governance,
            3,
            spec_table_late_ramp(),
        ),
        spec_def_is(
            r@[5],
            "AGENTS.md"@,
            "AI assistant instructions"@,
            CheckCategory::Structure,
            2,
            spec_table_late_ramp(),
        ),
        spec_def_is(
            r@[6],
            "STATE.scm"@,
            "Project state file"@,
            CheckCategory::Structure,
            3,
            spec_table_ramp(),
        ),
        spec_def_is(
            r@[7],
            "META.scm"@,
            "Meta information"@,
            CheckCategory::Structure,
            3,
            spec_table_ramp(),
        ),
        spec_def_is(
            r@[8],
            "ECOSYSTEM.scm"@,
            "Ecosystem position"@,
            CheckCategory::Structure,
            3,
            spec_table_late_ramp(),
        ),
{
    let mut r: Vec<CheckDef> = Vec::new();
    r.push(def("README.adoc", "AsciiDoc README", CheckCategory::Documentation, 5,
        table_all_required()));
    r.push(def("LICENSE.txt", "License file", CheckCategory::Governance, 5,
        table_all_required()));
    r.push(def("SECURITY.md", "Security policy", CheckCategory::Security, 5, table_ramp()));
    r.push(def("CONTRIBUTING.md", "Contributing guidelines", CheckCategory::Documentation, 3,
        table_ramp()));
    r.push(def("CODE_OF_CONDUCT.md", "Code of conduct", CheckCategory::Governance, 3,
        table_late_ramp()));
    r.push(def("AGENTS.md", "AI assistant instructions", CheckCategory::Structure, 2,
        table_late_ramp()));
    r.push(def("STATE.scm", "Project state file", CheckCategory::Structure, 3, table_ramp()));
    r.push(def("META.scm", "Meta information", CheckCategory::Structure, 3, table_ramp()));
    r.push(def("ECOSYSTEM.scm", "Ecosystem position", CheckCategory::Structure, 3,
        table_late_ramp()));
    r
}

/// Banned file patterns (language policy): presence is punitive, never
/// scored positively.
pub fn banned_patterns() -> (r: Vec<BannedPattern>)
    ensures
        r@.len() == 6,
        spec_ban_is(
            r@[0],
            "package-lock.json"@,
            "npm lock file (use Deno)"@,
            CheckCategory::LanguagePolicy,
            spec_table_ramp(),
        ),
        spec_ban_is(
            r@[1],
            "yarn.lock"@,
            "Yarn lock file (use Deno)"@,
            CheckCategory::LanguagePolicy,
            spec_table_ramp(),
        ),
        spec_ban_is(
            r@[2],
            "pnpm-lock.yaml"@,
            "pnpm lock file (use Deno)"@,
            CheckCategory::LanguagePolicy,
            spec_table_ramp(),
        ),
        spec_ban_is(
            r@[3],
            "bun.lockb"@,
            "Bun lock file (use Deno)"@,
            CheckCategory::LanguagePolicy,
            spec_table_ramp(),
        ),
        spec_ban_is(
            r@[4],
            "go.mod"@,
            "Go module (use Rust)"@,
            CheckCategory::LanguagePolicy,
            spec_table_ramp(),
        ),
        spec_ban_is(
            r@[5],
            "go.sum"@,
            "Go checksum (use Rust)"@,
            CheckCategory::LanguagePolicy,
            spec_table_ramp(),
        ),
{
    let mut r: Vec<BannedPattern> = Vec::new();
    r.push(ban("package-lock.json", "npm lock file (use Deno)", table_ramp()));
    r.push(ban("yarn.lock", "Yarn lock file (use Deno)", table_ramp()));
    r.push(ban("pnpm-lock.yaml", "pnpm lock file (use Deno)", table_ramp()));
    r.push(ban("bun.lockb", "Bun lock file (use Deno)", table_ramp()));
    r.push(ban("go.mod", "Go module (use Rust)", table_ramp()));
    r.push(ban("go.sum", "Go checksum (use Rust)", table_ramp()));
    r
}


/// Point value of a required-file check added by a repository's own
/// `require` list.
pub const EXTRA_REQUIRED_POINTS: u8 = 3;

/// Append one required-file check per `require` entry of a repository's
/// configuration.  The entry's path serves as both name and description,
/// the check is grouped under `Structure`, worth `EXTRA_REQUIRED_POINTS`,
/// and required under every pack; `severity_overrides` and `skip` still
/// apply to it by name like to any other check.  Entries are appended as
/// given, in order: a name listed twice is checked (and scored) once per
/// occurrence.
pub fn with_extra_required(registry: Vec<CheckDef>, require: &Vec<String>) -> (r: Vec<CheckDef>)
    ensures
        r@.len() == registry@.len() + require@.len(),
        forall|j: int| 0 <= j < registry@.len() ==> r@[j] == registry@[j],
        forall|k: int|
            0 <= k < require@.len() ==> spec_def_is(
                r@[registry@.len() + k],
                require@[k]@,
                require@[k]@,
                CheckCategory::Structure,
                EXTRA_REQUIRED_POINTS as int,
                spec_table_all_required(),
            ),
{
    let ghost base = registry@;
    let mut r = registry;
    let mut i: usize = 0;
    while i < require.len()
        invariant
            0 <= i <= require@.len(),
            r@.len() == base.len() + i,
            forall|j: int| 0 <= j < base.len() ==> r@[j] == base[j],
            forall|k: int|
                0 <= k < i ==> spec_def_is(
                    r@[base.len() + k],
                    require@[k]@,
                    require@[k]@,
                    CheckCategory::Structure,
                    EXTRA_REQUIRED_POINTS as int,
                    spec_table_all_required(),
                ),
        decreases require@.len() - i,
    {
        r.push(
            CheckDef {
                name: require[i].clone(),
                description: require[i].clone(),
                category: CheckCategory::Structure,
                points: EXTRA_REQUIRED_POINTS,
                severity: table_all_required(),
            },
        );
        i += 1;
    }
    r
}

/// Append one banned pattern per `ban` entry of a repository's
/// configuration.  The entry's path serves as both name and description,
/// and a pattern the repository itself bans is treated as required-absent
/// under every pack; `severity_overrides` and `skip` still apply to it
/// under the `no-` key like to any other banned pattern.
pub fn with_extra_banned(banned: Vec<BannedPattern>, ban: &Vec<String>) -> (r: Vec<BannedPattern>)
    ensures
        r@.len() == banned@.len() + ban@.len(),
        forall|j: int| 0 <= j < banned@.len() ==> r@[j] == banned@[j],
        forall|k: int|
            0 <= k < ban@.len() ==> spec_ban_is(
                r@[banned@.len() + k],
                ban@[k]@,
                ban@[k]@,
                CheckCategory::LanguagePolicy,
                spec_table_all_required(),
            ),
{
    let ghost base = banned@;
    let mut r = banned;
    let mut i: usize = 0;
    while i < ban.len()
        invariant
            0 <= i <= ban@.len(),
            r@.len() == base.len() + i,
            forall|j: int| 0 <= j < base.len() ==> r@[j] == base[j],
            forall|k: int|
                0 <= k < i ==> spec_ban_is(
                    r@[base.len() + k],
                    ban@[k]@,
                    ban@[k]@,
                    CheckCategory::LanguagePolicy,
                    spec_table_all_required(),
                ),
        decreases ban@.len() - i,
    {
        r.push(
            BannedPattern {
                name: ban[i].clone(),
                description: ban[i].clone(),
                category: CheckCategory::LanguagePolicy,
                severity: table_all_required(),
            },
        );
        i += 1;
    }
    r
}

} // verus!
