//! Core data model: severities, policy packs, check definitions and the
//! per-repository configuration document, together with the policy resolver
//! (effective severity of a named check under a pack, overrides and skips).

use vstd::prelude::*;

verus! {

/// Severity levels for compliance checks.
#[derive(Debug, Clone, Copy, PartialEq, Eq, Structural)]
pub enum Severity {
    /// Must pass for RSR compliance.
    Required,
    /// Should pass, counts toward the score but does not block.
    Recommended,
    /// Nice to have, informational only.
    Optional,
}

impl Default for Severity {
    /// The severity assumed when a configuration names none.
    fn default() -> (s: Severity)
        ensures
            s == Severity::Recommended,
    {
        Severity::Recommended
    }
}

/// Policy pack identifiers.
#[derive(Debug, Clone, Copy, PartialEq, Eq, Structural)]
pub enum PolicyPack {
    /// Minimal requirements for small or experimental repositories.
    Minimal,
    /// Standard requirements for most repositories.
    Standard,
    /// Strict requirements for production repositories.
    Strict,
    /// Enterprise requirements with full compliance.
    Enterprise,
    /// Custom policy defined in the repository's own configuration.
    Custom,
}

impl Default for PolicyPack {
    /// The pack assumed when a configuration names none.
    fn default() -> (p: PolicyPack)
        ensures
            p == PolicyPack::Standard,
    {
        PolicyPack::Standard
    }
}

/// A four-entry severity table indexed by the fixed policy packs.
/// `Custom` is never a table index: it is resolved dynamically, falling
/// back to the `standard` column.
#[derive(Debug, Clone, Copy, PartialEq, Eq, Structural)]
pub struct SeverityTable {
    pub minimal: Severity,
    pub standard: Severity,
    pub strict: Severity,
    pub enterprise: Severity,
}

/// Severity of a check under a policy pack, read from its table.  `Custom`
/// falls back to the `standard` column, and the repository's overrides are
/// expected to refine it.
pub open spec fn spec_table_severity(table: SeverityTable, policy: PolicyPack) -> Severity {
    match policy {
        PolicyPack::Minimal => table.minimal,
        PolicyPack::Standard => table.standard,
        PolicyPack::Strict => table.strict,
        PolicyPack::Enterprise => table.enterprise,
        PolicyPack::Custom => table.standard,
    }
}

/// Repository-specific RSR configuration (the `.rsr.toml` document).
#[derive(Debug, Clone)]
pub struct RepoConfig {
    /// Policy pack to use.
    pub policy: PolicyPack,
    /// Override severity for specific checks; the first entry for a name wins.
    pub severity_overrides: Vec<(String, Severity)>,
    /// Checks to skip entirely.
    pub skip: Vec<String>,
    /// Additional required files beyond the policy, appended to the
    /// required-file registry before evaluation (see
    /// `registry::with_extra_required`).
    pub require: Vec<String>,
    /// Custom banned patterns, appended to the banned-pattern registry
    /// before evaluation (see `registry::with_extra_banned`).
    pub ban: Vec<String>,
}

impl Default for RepoConfig {
    /// The all-default configuration used when a repository has no parsable
    /// policy document: Standard pack, no overrides, nothing skipped.
    fn default() -> (c: RepoConfig)
        ensures
            c.policy == PolicyPack::Standard,
            c.severity_overrides@.len() == 0,
            c.skip@.len() == 0,
            c.require@.len() == 0,
            c.ban@.len() == 0,
    {
        RepoConfig {
            policy: PolicyPack::Standard,
            severity_overrides: Vec::new(),
            skip: Vec::new(),
            require: Vec::new(),
            ban: Vec::new(),
        }
    }
}

/// Check definition with a severity per policy pack.
#[derive(Debug, Clone)]
pub struct CheckDef {
    /// Stable identifier, the path whose presence is checked.
    pub name: String,
    /// Human-readable description.
    pub description: String,
    /// Report grouping.
    pub category: CheckCategory,
    /// Points earned when the file is present.
    pub points: u8,
    /// Severity by policy pack: `(minimal, standard, strict, enterprise)`.
    pub severity: SeverityTable,
}

impl CheckDef {
    /// Severity of this check under `policy`, from its own table.
    pub fn severity_for(&self, policy: PolicyPack) -> (s: Severity)
        ensures
            s == spec_table_severity(self.severity, policy),
    {
        match policy {
            PolicyPack::Minimal => self.severity.minimal,
            PolicyPack::Standard => self.severity.standard,
            PolicyPack::Strict => self.severity.strict,
            PolicyPack::Enterprise => self.severity.enterprise,
            PolicyPack::Custom => self.severity.standard,
        }
    }
}

/// Banned-pattern definition: same shape as a check definition, but a
/// detected pattern is purely punitive and never scored positively.
#[derive(Debug, Clone)]
pub struct BannedPattern {
    /// The path whose presence violates the policy.
    pub name: String,
    /// Human-readable description.
    pub description: String,
    /// Report grouping.
    pub category: CheckCategory,
    /// Severity by policy pack: `(minimal, standard, strict, enterprise)`.
    pub severity: SeverityTable,
}

impl BannedPattern {
    /// Severity of this pattern under `policy`, from its own table.
    pub fn severity_for(&self, policy: PolicyPack) -> (s: Severity)
        ensures
            s == spec_table_severity(self.severity, policy),
    {
        match policy {
            PolicyPack::Minimal => self.severity.minimal,
            PolicyPack::Standard => self.severity.standard,
            PolicyPack::Strict => self.severity.strict,
            PolicyPack::Enterprise => self.severity.enterprise,
            PolicyPack::Custom => self.severity.standard,
        }
    }
}

/// Check categories, used only for report grouping.
#[derive(Debug, Clone, Copy, PartialEq, Eq, Structural)]
pub enum CheckCategory {
    Documentation,
    Security,
    Governance,
    Structure,
    LanguagePolicy,
}

/// Check status.
#[derive(Debug, Clone, Copy, PartialEq, Eq, Structural)]
pub enum CheckStatus {
    Pass,
    Fail,
    Warn,
    Skip,
}

/// Whether `name` occurs in `list`.
pub open spec fn spec_name_in(list: Seq<String>, name: Seq<char>) -> bool {
    exists|i: int| 0 <= i < list.len() && list[i]@ == name
}

/// First severity paired with `name` in `overrides`, if any.
pub open spec fn spec_override_lookup(
    overrides: Seq<(String, Severity)>,
    name: Seq<char>,
) -> Option<Severity>
    decreases overrides.len(),
{
    if overrides.len() == 0 {
        None
    } else if overrides[0].0@ == name {
        Some(overrides[0].1)
    } else {
        spec_override_lookup(overrides.drop_first(), name)
    }
}

/// The effective severity of the check keyed `key` under `cfg`: an entry in
/// `severity_overrides` wins unconditionally; otherwise the check's own
/// table entry for the configured pack applies (with `Custom` falling back
/// to the `Standard` column).  Skips are resolved separately by the
/// evaluator and take precedence over any severity.
pub open spec fn spec_effective_severity(
    cfg: RepoConfig,
    key: Seq<char>,
    table: SeverityTable,
) -> Severity {
    match spec_override_lookup(cfg.severity_overrides@, key) {
        Some(s) => s,
        None => spec_table_severity(table, cfg.policy),
    }
}

/// Whether `name` occurs in `list`.
pub fn contains_name(list: &Vec<String>, name: &String) -> (b: bool)
    ensures
        b == spec_name_in(list@, name@),
{
    let mut i: usize = 0;
    while i < list.len()
        invariant
            0 <= i <= list@.len(),
            forall|j: int| 0 <= j < i ==> list@[j]@ != name@,
        decreases list@.len() - i,
    {
        if list[i] == *name {
            assert(spec_name_in(list@, name@));
            return true;
        }
        i += 1;
    }
    false
}

proof fn lemma_override_lookup_step(overrides: Seq<(String, Severity)>, name: Seq<char>, i: int)
    requires
        0 <= i < overrides.len(),
        overrides[i].0@ != name,
    ensures
        spec_override_lookup(overrides.skip(i), name) == spec_override_lookup(
            overrides.skip(i + 1),
            name,
        ),
{
    assert(overrides.skip(i).drop_first() =~= overrides.skip(i + 1));
}

/// First severity paired with `name` in `overrides`, if any.
pub fn find_override(overrides: &Vec<(String, Severity)>, name: &String) -> (r: Option<Severity>)
    ensures
        r == spec_override_lookup(overrides@, name@),
{
    let mut i: usize = 0;
    assert(overrides@.skip(0) =~= overrides@);
    while i < overrides.len()
        invariant
            0 <= i <= overrides@.len(),
            spec_override_lookup(overrides@, name@) == spec_override_lookup(
                overrides@.skip(i as int),
                name@,
            ),
        decreases overrides@.len() - i,
    {
        if overrides[i].0 == *name {
            assert(overrides@.skip(i as int)[0] == overrides@[i as int]);
            return Some(overrides[i].1);
        }
        proof {
            lemma_override_lookup_step(overrides@, name@, i as int);
        }
        i += 1;
    }
    assert(overrides@.skip(overrides@.len() as int) =~= Seq::<(String, Severity)>::empty());
    None
}

/// The effective severity of the check keyed `key` under `cfg`.
pub fn resolve_severity(cfg: &RepoConfig, key: &String, table: SeverityTable) -> (s: Severity)
    ensures
        s == spec_effective_severity(*cfg, key@, table),
{
    match find_override(&cfg.severity_overrides, key) {
        Some(s) => s,
        None => {
            match cfg.policy {
                PolicyPack::Minimal => table.minimal,
                PolicyPack::Standard => table.standard,
                PolicyPack::Strict => table.strict,
                PolicyPack::Enterprise => table.enterprise,
                PolicyPack::Custom => table.standard,
            }
        },
    }
}

} // verus!
