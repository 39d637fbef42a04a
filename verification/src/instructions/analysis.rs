//! Analysis submission and revision.
//!
//! `submit_analysis` creates one report per (program, auditor) pair and can
//! only raise a program's verification flag; `update_analysis` revises the
//! report in place, bumps its version by exactly one, and recomputes the
//! flag in both directions.

use vstd::prelude::*;
use crate::errors::ParityError;
use crate::state::AnalysisFindingsCount;
use crate::state::AnalysisReport;
use crate::state::AuditorAccount;
use crate::state::MAX_SKILL_NAME_LEN;
use crate::state::MAX_SKILLS_PER_ANALYSIS;
use crate::state::ProgramEntry;
use crate::state::Pubkey;
use crate::state::Registry;
use crate::state::byte_len;
use crate::state::pubkey_eq;
use crate::state::str_byte_len;

verus! {

/// Accounts touched by [`submit_analysis`]: the signing auditor, their
/// auditor account, the registry singleton, and the program under analysis.
pub struct SubmitAnalysis {
    /// The transaction signer.
    pub auditor: Pubkey,
    pub auditor_account: AuditorAccount,
    pub registry: Registry,
    pub program_entry: ProgramEntry,
}

/// The first check a submission fails, in the order they are applied:
/// authorization, score range, skill-list bounds, findings consistency,
/// auditor activation. `None` means the submission is accepted.
pub open spec fn spec_submit_analysis_error(
    auditor_account: AuditorAccount,
    auditor: Pubkey,
    score: u8,
    skills_used: Seq<String>,
    findings_count: AnalysisFindingsCount,
) -> Option<ParityError> {
    if auditor_account.authority != auditor {
        Some(ParityError::UnauthorizedAuditor)
    } else if score > 100 {
        Some(ParityError::InvalidScore)
    } else if skills_used.len() > MAX_SKILLS_PER_ANALYSIS {
        Some(ParityError::TooManySkills)
    } else if exists|i: int|
        0 <= i < skills_used.len() && byte_len(#[trigger] skills_used[i]@) > MAX_SKILL_NAME_LEN {
        Some(ParityError::SkillNameTooLong)
    } else if !findings_count.consistent() {
        Some(ParityError::FindingsCountMismatch)
    } else if !auditor_account.is_active {
        Some(ParityError::AuditorInactive)
    } else {
        None
    }
}

/// Validates and records a scored analysis of `ctx.program_entry` by the
/// signing auditor, returning the new report (version 1).
///
/// On success the program's analysis count and the registry's analysis
/// total each grow by one, the program's latest score becomes `score`, and
/// the program is marked verified when the score reaches the registry's
/// badge threshold — an accepted submission never clears the flag. On
/// failure nothing changes.
pub fn submit_analysis(
    ctx: &mut SubmitAnalysis,
    now: i64,
    score: u8,
    findings_hash: [u8; 32],
    skills_used: Vec<String>,
    findings_count: AnalysisFindingsCount,
) -> (r: Result<AnalysisReport, ParityError>)
    requires
        old(ctx).registry.total_analyses < u64::MAX,
        old(ctx).program_entry.analysis_count < u32::MAX,
    ensures
        match r {
            Ok(report) => {
                &&& spec_submit_analysis_error(
                    old(ctx).auditor_account,
                    old(ctx).auditor,
                    score,
                    skills_used@,
                    findings_count,
                ) is None
                &&& report == (AnalysisReport {
                    program_entry: old(ctx).program_entry.program_hash,
                    auditor: old(ctx).auditor,
                    score,
                    findings_hash,
                    skills_used,
                    findings_count,
                    submitted_at: now,
                    updated_at: now,
                    version: 1,
                })
                &&& report.wf()
                &&& final(ctx).program_entry == (ProgramEntry {
                    analysis_count: (old(ctx).program_entry.analysis_count + 1) as u32,
                    latest_score: score,
                    updated_at: now,
                    is_verified: crate::state::verified_after_submission(
                        old(ctx).program_entry.is_verified,
                        score,
                        old(ctx).registry.min_score_for_badge,
                    ),
                    ..old(ctx).program_entry
                })
                &&& final(ctx).registry == (Registry {
                    total_analyses: (old(ctx).registry.total_analyses + 1) as u64,
                    updated_at: now,
                    ..old(ctx).registry
                })
                &&& final(ctx).auditor == old(ctx).auditor
                &&& final(ctx).auditor_account == old(ctx).auditor_account
            },
            Err(e) => {
                &&& Some(e) == spec_submit_analysis_error(
                    old(ctx).auditor_account,
                    old(ctx).auditor,
                    score,
                    skills_used@,
                    findings_count,
                )
                &&& *final(ctx) == *old(ctx)
            },
        },
{
    if !pubkey_eq(&ctx.auditor_account.authority, &ctx.auditor) {
        return Err(ParityError::UnauthorizedAuditor);
    }
    if score > 100 {
        return Err(ParityError::InvalidScore);
    }
    if skills_used.len() > MAX_SKILLS_PER_ANALYSIS {
        return Err(ParityError::TooManySkills);
    }
    let mut i: usize = 0;
    #[verifier::loop_isolation(false)]
    while i < skills_used.len()
        invariant
            i <= skills_used@.len(),
            forall|j: int| 0 <= j < i ==> byte_len(#[trigger] skills_used@[j]@)
                <= MAX_SKILL_NAME_LEN,
        decreases skills_used@.len() - i,
    {
        if str_byte_len(skills_used[i].as_str()) > MAX_SKILL_NAME_LEN {
            return Err(ParityError::SkillNameTooLong);
        }
        i = i + 1;
    }
    let expected_total: u32 = findings_count.critical as u32 + findings_count.high as u32
        + findings_count.medium as u32 + findings_count.info as u32 + findings_count.pass as u32;
    if findings_count.total as u32 != expected_total {
        return Err(ParityError::FindingsCountMismatch);
    }
    if !ctx.auditor_account.is_active {
        return Err(ParityError::AuditorInactive);
    }

    let report = AnalysisReport {
        program_entry: ctx.program_entry.program_hash,
        auditor: ctx.auditor,
        score,
        findings_hash,
        skills_used,
        findings_count,
        submitted_at: now,
        updated_at: now,
        version: 1,
    };

    ctx.program_entry.analysis_count = ctx.program_entry.analysis_count + 1;
    ctx.program_entry.latest_score = score;
    ctx.program_entry.updated_at = now;
    if score >= ctx.registry.min_score_for_badge {
        ctx.program_entry.is_verified = true;
    }

    ctx.registry.total_analyses = ctx.registry.total_analyses + 1;
    ctx.registry.updated_at = now;

    Ok(report)
}

/// Law: an accepted submission carries a consistent findings breakdown —
/// its total equals the sum of the five severity buckets — and a
/// submission that passes every earlier check but carries an inconsistent
/// breakdown is rejected with `FindingsCountMismatch` before anything is
/// stored.
pub proof fn lemma_submission_findings_consistency(
    auditor_account: AuditorAccount,
    auditor: Pubkey,
    score: u8,
    skills_used: Seq<String>,
    findings_count: AnalysisFindingsCount,
)
    ensures
        spec_submit_analysis_error(auditor_account, auditor, score, skills_used, findings_count)
            is None ==> findings_count.consistent(),
        (auditor_account.authority == auditor && score <= 100 && skills_used.len()
            <= MAX_SKILLS_PER_ANALYSIS && (forall|i: int|
            0 <= i < skills_used.len() ==> byte_len(#[trigger] skills_used[i]@)
                <= MAX_SKILL_NAME_LEN) && !findings_count.consistent()) ==> spec_submit_analysis_error(
            auditor_account,
            auditor,
            score,
            skills_used,
            findings_count,
        ) == Some(ParityError::FindingsCountMismatch),
{
}

/// Accounts touched by [`update_analysis`]: the signing auditor, the
/// registry singleton (read only), the program entry, and the report being
/// revised.
pub struct UpdateAnalysis {
    /// The transaction signer.
    pub auditor: Pubkey,
    pub registry: Registry,
    pub program_entry: ProgramEntry,
    pub analysis_report: AnalysisReport,
}

/// The first check a revision fails, in the order they are applied:
/// authorship, score range, findings consistency. `None` means the
/// revision is accepted.
pub open spec fn spec_update_analysis_error(
    analysis_report: AnalysisReport,
    auditor: Pubkey,
    new_score: u8,
    new_findings_count: AnalysisFindingsCount,
) -> Option<ParityError> {
    if analysis_report.auditor != auditor {
        Some(ParityError::UnauthorizedAuditor)
    } else if new_score > 100 {
        Some(ParityError::InvalidScore)
    } else if !new_findings_count.consistent() {
        Some(ParityError::FindingsCountMismatch)
    } else {
        None
    }
}

/// Law: an accepted revision carries a consistent findings breakdown, and
/// a revision by the report's author with a score in range but an
/// inconsistent breakdown is rejected with `FindingsCountMismatch`.
pub proof fn lemma_revision_findings_consistency(
    analysis_report: AnalysisReport,
    auditor: Pubkey,
    new_score: u8,
    new_findings_count: AnalysisFindingsCount,
)
    ensures
        spec_update_analysis_error(analysis_report, auditor, new_score, new_findings_count)
            is None ==> new_findings_count.consistent(),
        (analysis_report.auditor == auditor && new_score <= 100
            && !new_findings_count.consistent()) ==> spec_update_analysis_error(
            analysis_report,
            auditor,
            new_score,
            new_findings_count,
        ) == Some(ParityError::FindingsCountMismatch),
{
}

/// Revises an existing report in place: only its author may revise it, the
/// version grows by exactly one, and the program's verification flag is
/// recomputed against the registry threshold — unlike submission, a
/// revision can both set and clear the flag. On failure nothing changes.
pub fn update_analysis(
    ctx: &mut UpdateAnalysis,
    now: i64,
    new_score: u8,
    new_findings_hash: [u8; 32],
    new_findings_count: AnalysisFindingsCount,
) -> (r: Result<(), ParityError>)
    requires
        old(ctx).analysis_report.version < u8::MAX,
    ensures
        match r {
            Ok(_) => {
                &&& spec_update_analysis_error(
                    old(ctx).analysis_report,
                    old(ctx).auditor,
                    new_score,
                    new_findings_count,
                ) is None
                &&& final(ctx).analysis_report == (AnalysisReport {
                    score: new_score,
                    findings_hash: new_findings_hash,
                    findings_count: new_findings_count,
                    updated_at: now,
                    version: (old(ctx).analysis_report.version + 1) as u8,
                    ..old(ctx).analysis_report
                })
                &&& final(ctx).program_entry == (ProgramEntry {
                    latest_score: new_score,
                    updated_at: now,
                    is_verified: crate::state::verified_after_revision(
                        new_score,
                        old(ctx).registry.min_score_for_badge,
                    ),
                    ..old(ctx).program_entry
                })
                &&& final(ctx).registry == old(ctx).registry
                &&& final(ctx).auditor == old(ctx).auditor
            },
            Err(e) => {
                &&& Some(e) == spec_update_analysis_error(
                    old(ctx).analysis_report,
                    old(ctx).auditor,
                    new_score,
                    new_findings_count,
                )
                &&& *final(ctx) == *old(ctx)
            },
        },
{
    if !pubkey_eq(&ctx.auditor, &ctx.analysis_report.auditor) {
        return Err(ParityError::UnauthorizedAuditor);
    }
    if new_score > 100 {
        return Err(ParityError::InvalidScore);
    }
    let expected_total: u32 = new_findings_count.critical as u32 + new_findings_count.high as u32
        + new_findings_count.medium as u32 + new_findings_count.info as u32
        + new_findings_count.pass as u32;
    if new_findings_count.total as u32 != expected_total {
        return Err(ParityError::FindingsCountMismatch);
    }

    ctx.analysis_report.score = new_score;
    ctx.analysis_report.findings_hash = new_findings_hash;
    ctx.analysis_report.findings_count = new_findings_count;
    ctx.analysis_report.updated_at = now;
    ctx.analysis_report.version = ctx.analysis_report.version + 1;

    ctx.program_entry.latest_score = new_score;
    ctx.program_entry.updated_at = now;

    if new_score >= ctx.registry.min_score_for_badge {
        ctx.program_entry.is_verified = true;
    } else {
        ctx.program_entry.is_verified = false;
    }

    Ok(())
}

} // verus!
