//! Account state: the entities stored in the ledger, their field bounds,
//! and the spec-level invariants that every operation establishes or
//! preserves.

use vstd::prelude::*;
use vstd::utf8::encode_utf8;

verus! {

/// A ledger account address or signing key, 32 bytes.
///
/// Every entity is stored at a deterministically derived address computed
/// from a namespace tag plus its identifying fields, so an entity's
/// identifying field doubles as its address here: a program entry is
/// addressed by its program hash, an auditor account by its authority key.
pub type Pubkey = [u8; 32];

pub const MAX_SKILL_NAME_LEN: usize = 64;

pub const MAX_SKILL_VERSION_LEN: usize = 16;

pub const MAX_SKILL_DESC_LEN: usize = 256;

pub const MAX_METADATA_URI_LEN: usize = 200;

pub const MAX_CREDENTIALS_URI_LEN: usize = 200;

pub const MAX_AUDITOR_NAME_LEN: usize = 64;

pub const MAX_PATTERN_ID_LEN: usize = 64;

pub const MAX_PATTERN_DESC_LEN: usize = 256;

pub const MAX_DETECTION_RULE_LEN: usize = 512;

pub const MAX_SKILLS_PER_ANALYSIS: usize = 8;

/// Length in bytes of a string's UTF-8 encoding; the unit in which all
/// field bounds are stated and checked.
pub open spec fn byte_len(s: Seq<char>) -> nat {
    encode_utf8(s).len()
}

/// The singleton holding global counters, policy configuration, and the
/// authority key allowed to administer policy and issue or revoke badges.
#[derive(Clone, Copy, Debug)]
pub struct Registry {
    pub authority: Pubkey,
    pub total_programs: u64,
    pub total_analyses: u64,
    pub total_skills: u64,
    pub total_auditors: u64,
    pub total_patterns: u64,
    pub min_score_for_badge: u8,
    pub analysis_fee_lamports: u64,
    pub is_paused: bool,
    pub created_at: i64,
    pub updated_at: i64,
}

/// Policy fields supplied when the registry is initialized or reconfigured.
#[derive(Clone, Copy, Debug)]
pub struct RegistryConfig {
    pub min_score_for_badge: u8,
    pub analysis_fee_lamports: u64,
    pub is_paused: bool,
}

/// One record per audited program, addressed by program content hash.
#[derive(Debug)]
pub struct ProgramEntry {
    pub owner: Pubkey,
    pub program_hash: [u8; 32],
    pub framework: Framework,
    pub metadata_uri: String,
    pub registered_at: i64,
    pub updated_at: i64,
    pub analysis_count: u32,
    pub latest_score: u8,
    pub is_verified: bool,
}

/// One record per (program, auditor) pair holding the latest submitted
/// score and findings summary.
#[derive(Debug)]
pub struct AnalysisReport {
    pub program_entry: Pubkey,
    pub auditor: Pubkey,
    pub score: u8,
    pub findings_hash: [u8; 32],
    pub skills_used: Vec<String>,
    pub findings_count: AnalysisFindingsCount,
    pub submitted_at: i64,
    pub updated_at: i64,
    pub version: u8,
}

/// Per-severity counts of the issues an analysis found; `total` must equal
/// the sum of the five buckets.
#[derive(Clone, Copy, Debug, PartialEq, Eq, Structural)]
pub struct AnalysisFindingsCount {
    pub critical: u16,
    pub high: u16,
    pub medium: u16,
    pub info: u16,
    pub pass: u16,
    pub total: u16,
}

/// Catalog entry describing a reusable audit methodology.
#[derive(Debug)]
pub struct SkillEntry {
    pub authority: Pubkey,
    pub name: String,
    pub version: String,
    pub description: String,
    pub skill_type: SkillType,
    pub usage_count: u64,
    pub is_deprecated: bool,
    pub registered_at: i64,
    pub updated_at: i64,
}

/// Profile and activation flag for an accredited auditor.
#[derive(Debug)]
pub struct AuditorAccount {
    pub authority: Pubkey,
    pub name: String,
    pub credentials_uri: String,
    pub total_analyses: u64,
    pub average_score: u64,
    pub is_active: bool,
    pub registered_at: i64,
    pub updated_at: i64,
}

/// A tiered credential issued against a program entry, derived from its
/// latest score.
#[derive(Clone, Copy, Debug)]
pub struct VerificationBadge {
    pub program_entry: Pubkey,
    pub issuer: Pubkey,
    pub tier: VerificationTier,
    pub score_at_issuance: u8,
    pub issued_at: i64,
    pub expires_at: i64,
    pub is_revoked: bool,
}

/// Catalog entry describing a vulnerability-detection rule.
#[derive(Debug)]
pub struct ContextPattern {
    pub submitter: Pubkey,
    pub pattern_id: String,
    pub severity: Severity,
    pub pattern_type: PatternType,
    pub description: String,
    pub detection_rule: String,
    pub usage_count: u64,
    pub submitted_at: i64,
    pub updated_at: i64,
    pub is_active: bool,
}

#[derive(Clone, Copy, Debug, PartialEq, Eq, Structural)]
pub enum Framework {
    Anchor,
    Native,
    Seahorse,
    Steel,
}

#[derive(Clone, Copy, Debug, PartialEq, Eq, Structural)]
pub enum SkillType {
    SecurityAudit,
    BestPractices,
    GasOptimization,
    DeepAudit,
    Custom,
}

#[derive(Clone, Copy, Debug, PartialEq, Eq, Structural)]
pub enum Severity {
    Critical,
    High,
    Medium,
    Info,
    Pass,
}

/// The fixed vulnerability classes a detection pattern can target.
#[derive(Clone, Copy, Debug, PartialEq, Eq, Structural)]
pub enum PatternType {
    MissingSignerCheck,
    UncheckedArithmetic,
    UnvalidatedPda,
    InsecureCpi,
    AccountDeserialization,
    RentExemption,
    CloseAccount,
    TypeCosplay,
    ReinitializationAttack,
    OwnerCheck,
}

#[derive(Clone, Copy, Debug, PartialEq, Eq, Structural)]
pub enum VerificationTier {
    Bronze,
    Silver,
    Gold,
    Platinum,
}

/// Executable counterpart of [`byte_len`].
pub fn str_byte_len(s: &str) -> (n: usize)
    ensures
        n == byte_len(s@),
{
    s.as_bytes().len()
}

/// Equality of two string slices, stated over their character views.
pub fn str_eq(a: &str, b: &str) -> (r: bool)
    ensures
        r == (a@ == b@),
{
    a.to_owned() == b.to_owned()
}

/// Byte-for-byte equality of two 32-byte keys or hashes.
pub fn pubkey_eq(a: &Pubkey, b: &Pubkey) -> (r: bool)
    ensures
        r == (a == b),
{
    let mut i: usize = 0;
    while i < 32
        invariant
            i <= 32,
            forall|j: int| 0 <= j < i ==> a@[j] == b@[j],
        decreases 32 - i,
    {
        if a[i] != b[i] {
            return false;
        }
        i = i + 1;
    }
    proof {
        broadcast use vstd::array::group_array_axioms;

        assert(a =~= b);
    }
    true
}

/// Minimum latest score a program needs to qualify for a badge tier.
pub open spec fn spec_tier_threshold(tier: VerificationTier) -> u8 {
    match tier {
        VerificationTier::Bronze => 50,
        VerificationTier::Silver => 70,
        VerificationTier::Gold => 85,
        VerificationTier::Platinum => 95,
    }
}

/// Executable counterpart of [`spec_tier_threshold`].
pub fn tier_threshold(tier: VerificationTier) -> (min_score: u8)
    ensures
        min_score == spec_tier_threshold(tier),
{
    match tier {
        VerificationTier::Bronze => 50,
        VerificationTier::Silver => 70,
        VerificationTier::Gold => 85,
        VerificationTier::Platinum => 95,
    }
}

/// A program's verification flag after an accepted submission: set when
/// the score reaches the threshold, and never cleared — a low score from
/// one auditor does not strip verification earned before.
pub open spec fn verified_after_submission(was_verified: bool, score: u8, min_score: u8) -> bool {
    was_verified || score >= min_score
}

/// A program's verification flag after an accepted revision: recomputed
/// from the new score alone, so a revision can both set and clear it.
pub open spec fn verified_after_revision(new_score: u8, min_score: u8) -> bool {
    new_score >= min_score
}

/// Law: a submission can only raise the verification flag — a verified
/// program stays verified whatever the score — and sets it exactly when
/// the score reaches the threshold; a revision holds the flag exactly
/// when the new score reaches the threshold, whatever held before.
pub proof fn lemma_verification_flag(was_verified: bool, score: u8, min_score: u8)
    ensures
        was_verified ==> verified_after_submission(was_verified, score, min_score),
        !was_verified ==> verified_after_submission(was_verified, score, min_score) == (score
            >= min_score),
        verified_after_revision(score, min_score) == (score >= min_score),
{
}

/// The registry as [`crate::instructions::registry::initialize_registry`]
/// creates it: counters zeroed, the given policy stored.
pub open spec fn initial_registry(authority: Pubkey, config: RegistryConfig, now: i64) -> Registry {
    Registry {
        authority,
        total_programs: 0,
        total_analyses: 0,
        total_skills: 0,
        total_auditors: 0,
        total_patterns: 0,
        min_score_for_badge: config.min_score_for_badge,
        analysis_fee_lamports: config.analysis_fee_lamports,
        is_paused: config.is_paused,
        created_at: now,
        updated_at: now,
    }
}

/// A program entry as registration creates it: no analyses, zero score,
/// not verified.
pub open spec fn initial_program_entry(
    owner: Pubkey,
    program_hash: [u8; 32],
    framework: Framework,
    metadata_uri: String,
    now: i64,
) -> ProgramEntry {
    ProgramEntry {
        owner,
        program_hash,
        framework,
        metadata_uri,
        registered_at: now,
        updated_at: now,
        analysis_count: 0,
        latest_score: 0,
        is_verified: false,
    }
}

/// An auditor account as registration creates it: active, counters zeroed.
pub open spec fn initial_auditor_account(
    authority: Pubkey,
    name: String,
    credentials_uri: String,
    now: i64,
) -> AuditorAccount {
    AuditorAccount {
        authority,
        name,
        credentials_uri,
        total_analyses: 0,
        average_score: 0,
        is_active: true,
        registered_at: now,
        updated_at: now,
    }
}

/// A skill entry as registration creates it: not deprecated, never used.
pub open spec fn initial_skill_entry(
    authority: Pubkey,
    name: String,
    version: String,
    description: String,
    skill_type: SkillType,
    now: i64,
) -> SkillEntry {
    SkillEntry {
        authority,
        name,
        version,
        description,
        skill_type,
        usage_count: 0,
        is_deprecated: false,
        registered_at: now,
        updated_at: now,
    }
}

/// A detection pattern as submission creates it: active, never used.
pub open spec fn initial_context_pattern(
    submitter: Pubkey,
    pattern_id: String,
    severity: Severity,
    pattern_type: PatternType,
    description: String,
    detection_rule: String,
    now: i64,
) -> ContextPattern {
    ContextPattern {
        submitter,
        pattern_id,
        severity,
        pattern_type,
        description,
        detection_rule,
        usage_count: 0,
        submitted_at: now,
        updated_at: now,
        is_active: true,
    }
}

/// An analysis report as submission creates it, at version 1.
pub open spec fn initial_analysis_report(
    program_entry: Pubkey,
    auditor: Pubkey,
    score: u8,
    findings_hash: [u8; 32],
    skills_used: Vec<String>,
    findings_count: AnalysisFindingsCount,
    now: i64,
) -> AnalysisReport {
    AnalysisReport {
        program_entry,
        auditor,
        score,
        findings_hash,
        skills_used,
        findings_count,
        submitted_at: now,
        updated_at: now,
        version: 1,
    }
}

/// A badge as issuance creates it: not revoked, recording the program's
/// latest score.
pub open spec fn issued_badge(
    program_entry: Pubkey,
    issuer: Pubkey,
    tier: VerificationTier,
    score_at_issuance: u8,
    now: i64,
    expires_at: i64,
) -> VerificationBadge {
    VerificationBadge {
        program_entry,
        issuer,
        tier,
        score_at_issuance,
        issued_at: now,
        expires_at,
        is_revoked: false,
    }
}

impl AnalysisFindingsCount {
    /// The reported total equals the sum of the five severity buckets,
    /// computed without wrapping.
    pub open spec fn consistent(self) -> bool {
        self.total == self.critical + self.high + self.medium + self.info + self.pass
    }
}

impl ProgramEntry {
    pub open spec fn wf(self) -> bool {
        &&& byte_len(self.metadata_uri@) <= MAX_METADATA_URI_LEN
        &&& self.latest_score <= 100
    }
}

impl AnalysisReport {
    pub open spec fn wf(self) -> bool {
        &&& self.score <= 100
        &&& self.findings_count.consistent()
        &&& self.skills_used@.len() <= MAX_SKILLS_PER_ANALYSIS
        &&& forall|i: int|
            0 <= i < self.skills_used@.len() ==> byte_len(#[trigger] self.skills_used@[i]@)
                <= MAX_SKILL_NAME_LEN
        &&& self.version >= 1
    }
}

impl SkillEntry {
    pub open spec fn wf(self) -> bool {
        &&& byte_len(self.name@) <= MAX_SKILL_NAME_LEN
        &&& byte_len(self.version@) <= MAX_SKILL_VERSION_LEN
        &&& byte_len(self.description@) <= MAX_SKILL_DESC_LEN
    }
}

impl AuditorAccount {
    pub open spec fn wf(self) -> bool {
        &&& byte_len(self.name@) <= MAX_AUDITOR_NAME_LEN
        &&& byte_len(self.credentials_uri@) <= MAX_CREDENTIALS_URI_LEN
    }
}

impl VerificationBadge {
    pub open spec fn wf(self) -> bool {
        &&& self.score_at_issuance <= 100
        &&& self.score_at_issuance >= spec_tier_threshold(self.tier)
    }
}

impl ContextPattern {
    pub open spec fn wf(self) -> bool {
        &&& byte_len(self.pattern_id@) <= MAX_PATTERN_ID_LEN
        &&& byte_len(self.description@) <= MAX_PATTERN_DESC_LEN
        &&& byte_len(self.detection_rule@) <= MAX_DETECTION_RULE_LEN
    }
}

} // verus!
