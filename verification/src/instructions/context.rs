//! Detection-pattern curation.

use vstd::prelude::*;
use crate::errors::ParityError;
use crate::state::ContextPattern;
use crate::state::MAX_DETECTION_RULE_LEN;
use crate::state::MAX_PATTERN_DESC_LEN;
use crate::state::MAX_PATTERN_ID_LEN;
use crate::state::PatternType;
use crate::state::Pubkey;
use crate::state::Registry;
use crate::state::Severity;
use crate::state::byte_len;
use crate::state::str_byte_len;

verus! {

/// Accounts touched by [`submit_context_pattern`]: the signing submitter
/// and the registry singleton.
pub struct SubmitContextPattern {
    /// The transaction signer, recorded as the pattern's submitter.
    pub submitter: Pubkey,
    pub registry: Registry,
}

/// The first check a pattern submission fails; `None` means it is
/// accepted.
pub open spec fn spec_submit_pattern_error(
    pattern_id: Seq<char>,
    description: Seq<char>,
    detection_rule: Seq<char>,
) -> Option<ParityError> {
    if byte_len(pattern_id) > MAX_PATTERN_ID_LEN {
        Some(ParityError::PatternIdTooLong)
    } else if byte_len(description) > MAX_PATTERN_DESC_LEN {
        Some(ParityError::PatternDescriptionTooLong)
    } else if byte_len(detection_rule) > MAX_DETECTION_RULE_LEN {
        Some(ParityError::DetectionRuleTooLong)
    } else {
        None
    }
}

/// Creates an active catalog entry for a vulnerability-detection rule and
/// counts it in the registry. On failure nothing changes. Uniqueness of
/// `pattern_id` is enforced by the ledger's keyed storage, modeled in
/// [`crate::ledger`].
pub fn submit_context_pattern(
    ctx: &mut SubmitContextPattern,
    now: i64,
    pattern_id: String,
    severity: Severity,
    pattern_type: PatternType,
    description: String,
    detection_rule: String,
) -> (r: Result<ContextPattern, ParityError>)
    requires
        old(ctx).registry.total_patterns < u64::MAX,
    ensures
        match r {
            Ok(pattern) => {
                &&& spec_submit_pattern_error(pattern_id@, description@, detection_rule@) is None
                &&& pattern == (ContextPattern {
                    submitter: old(ctx).submitter,
                    pattern_id,
                    severity,
                    pattern_type,
                    description,
                    detection_rule,
                    usage_count: 0,
                    submitted_at: now,
                    updated_at: now,
                    is_active: true,
                })
                &&& pattern.wf()
                &&& final(ctx).registry == (Registry {
                    total_patterns: (old(ctx).registry.total_patterns + 1) as u64,
                    updated_at: now,
                    ..old(ctx).registry
                })
                &&& final(ctx).submitter == old(ctx).submitter
            },
            Err(e) => {
                &&& Some(e) == spec_submit_pattern_error(
                    pattern_id@,
                    description@,
                    detection_rule@,
                )
                &&& *final(ctx) == *old(ctx)
            },
        },
{
    if str_byte_len(pattern_id.as_str()) > MAX_PATTERN_ID_LEN {
        return Err(ParityError::PatternIdTooLong);
    }
    if str_byte_len(description.as_str()) > MAX_PATTERN_DESC_LEN {
        return Err(ParityError::PatternDescriptionTooLong);
    }
    if str_byte_len(detection_rule.as_str()) > MAX_DETECTION_RULE_LEN {
        return Err(ParityError::DetectionRuleTooLong);
    }

    let pattern = ContextPattern {
        submitter: ctx.submitter,
        pattern_id,
        severity,
        pattern_type,
        description,
        detection_rule,
        usage_count: 0,
        submitted_at: now,
        updated_at: now,
        is_active: true,
    };

    ctx.registry.total_patterns = ctx.registry.total_patterns + 1;
    ctx.registry.updated_at = now;

    Ok(pattern)
}

} // verus!
