//! The error taxonomy: input-bound violations, numeric-consistency
//! violations, authorization violations, and state-machine violations.
//! Every check runs before any mutation, so a failed operation leaves all
//! accounts exactly as they were.

use vstd::prelude::*;

verus! {

#[derive(Clone, Copy, Debug, PartialEq, Eq)]
pub enum ParityError {
    /// Analysis score must be between 0 and 100.
    InvalidScore,
    /// Program hash has already been registered.
    ProgramAlreadyRegistered,
    /// Analysis has already been submitted for this program by this auditor.
    AnalysisAlreadyExists,
    /// Skill name exceeds maximum length of 64 bytes.
    SkillNameTooLong,
    /// Skill version exceeds maximum length of 16 bytes.
    SkillVersionTooLong,
    /// Skill description exceeds maximum length of 256 bytes.
    SkillDescriptionTooLong,
    /// Maximum number of skills per analysis exceeded.
    TooManySkills,
    /// Metadata URI exceeds maximum length of 200 bytes.
    MetadataUriTooLong,
    /// Auditor name exceeds maximum length of 64 bytes.
    AuditorNameTooLong,
    /// Credentials URI exceeds maximum length of 200 bytes.
    CredentialsUriTooLong,
    /// Signer does not match the stored authority for this operation.
    UnauthorizedAuditor,
    /// Auditor account is currently inactive.
    AuditorInactive,
    /// Verification badge expiry is not in the future.
    BadgeExpired,
    /// Verification badge has already been revoked.
    BadgeAlreadyRevoked,
    /// Invalid verification tier for the given score.
    InvalidTierForScore,
    /// Pattern ID exceeds maximum length of 64 bytes.
    PatternIdTooLong,
    /// Detection rule exceeds maximum length of 512 bytes.
    DetectionRuleTooLong,
    /// Pattern description exceeds maximum length of 256 bytes.
    PatternDescriptionTooLong,
    /// Program is not registered in the registry.
    ProgramNotRegistered,
    /// Insufficient analysis score for the requested tier.
    InsufficientScore,
    /// Registry has reached maximum capacity.
    RegistryFull,
    /// Reported findings total does not equal the sum of its buckets.
    FindingsCountMismatch,
    /// Deprecated skills are immutable.
    CannotUpdateDeprecatedSkill,
    /// Skill has already been deprecated.
    SkillAlreadyDeprecated,
    /// The registry singleton has already been initialized.
    RegistryAlreadyInitialized,
    /// The registry singleton has not been initialized yet.
    RegistryNotInitialized,
    /// An auditor account already exists for this authority key.
    AuditorAlreadyRegistered,
    /// No auditor account exists for this authority key.
    AuditorNotFound,
    /// A skill with this name is already in the catalog.
    SkillAlreadyRegistered,
    /// No skill with this name is in the catalog.
    SkillNotFound,
    /// A pattern with this ID is already in the catalog.
    PatternAlreadyRegistered,
    /// A badge has already been issued for this program.
    BadgeAlreadyIssued,
    /// No badge has been issued for this program.
    BadgeNotFound,
    /// No analysis by this auditor exists for this program.
    AnalysisNotFound,
}

impl ParityError {
    /// Human-readable description, for hosts that surface errors as text.
    pub fn message(&self) -> String {
        match self {
            ParityError::InvalidScore => "Analysis score must be between 0 and 100".to_owned(),
            ParityError::ProgramAlreadyRegistered => "Program hash has already been registered".to_owned(),
            ParityError::AnalysisAlreadyExists => "Analysis has already been submitted for this program".to_owned(),
            ParityError::SkillNameTooLong => "Skill name exceeds maximum length of 64 bytes".to_owned(),
            ParityError::SkillVersionTooLong => "Skill version exceeds maximum length of 16 bytes".to_owned(),
            ParityError::SkillDescriptionTooLong => "Skill description exceeds maximum length of 256 bytes".to_owned(),
            ParityError::TooManySkills => "Maximum number of skills per analysis exceeded".to_owned(),
            ParityError::MetadataUriTooLong => "Metadata URI exceeds maximum length of 200 bytes".to_owned(),
            ParityError::AuditorNameTooLong => "Auditor name exceeds maximum length of 64 bytes".to_owned(),
            ParityError::CredentialsUriTooLong => "Credentials URI exceeds maximum length of 200 bytes".to_owned(),
            ParityError::UnauthorizedAuditor => "Auditor is not authorized to submit analyses".to_owned(),
            ParityError::AuditorInactive => "Auditor account is currently inactive".to_owned(),
            ParityError::BadgeExpired => "Verification badge has expired".to_owned(),
            ParityError::BadgeAlreadyRevoked => "Verification badge has already been revoked".to_owned(),
            ParityError::InvalidTierForScore => "Invalid verification tier for the given score".to_owned(),
            ParityError::PatternIdTooLong => "Pattern ID exceeds maximum length of 64 bytes".to_owned(),
            ParityError::DetectionRuleTooLong => "Detection rule exceeds maximum length of 512 bytes".to_owned(),
            ParityError::PatternDescriptionTooLong => "Pattern description exceeds maximum length of 256 bytes".to_owned(),
            ParityError::ProgramNotRegistered => "Program is not registered in the registry".to_owned(),
            ParityError::InsufficientScore => "Insufficient analysis score for the requested tier".to_owned(),
            ParityError::RegistryFull => "Registry has reached maximum capacity".to_owned(),
            ParityError::FindingsCountMismatch => "Findings total does not equal the sum of its severity buckets".to_owned(),
            ParityError::CannotUpdateDeprecatedSkill => "Deprecated skills cannot be updated".to_owned(),
            ParityError::SkillAlreadyDeprecated => "Skill has already been deprecated".to_owned(),
            ParityError::RegistryAlreadyInitialized => "Registry has already been initialized".to_owned(),
            ParityError::RegistryNotInitialized => "Registry has not been initialized".to_owned(),
            ParityError::AuditorAlreadyRegistered => "An auditor account already exists for this authority".to_owned(),
            ParityError::AuditorNotFound => "No auditor account exists for this authority".to_owned(),
            ParityError::SkillAlreadyRegistered => "A skill with this name is already registered".to_owned(),
            ParityError::SkillNotFound => "No skill with this name is registered".to_owned(),
            ParityError::PatternAlreadyRegistered => "A pattern with this ID has already been submitted".to_owned(),
            ParityError::BadgeAlreadyIssued => "A verification badge has already been issued for this program".to_owned(),
            ParityError::BadgeNotFound => "No verification badge has been issued for this program".to_owned(),
            ParityError::AnalysisNotFound => "No analysis by this auditor exists for this program".to_owned(),
        }
    }
}

} // verus!
