use parity::errors::ParityError;
use parity::instructions::badge::CreateVerificationBadge;
use parity::instructions::badge::create_verification_badge;
use parity::instructions::registry::initialize_registry;
use parity::ledger::Ledger;
use parity::state::AnalysisFindingsCount;
use parity::state::Framework;
use parity::state::ProgramEntry;
use parity::state::Pubkey;
use parity::state::RegistryConfig;
use parity::state::VerificationTier;
use parity::state::tier_threshold;

fn key(b: u8) -> Pubkey {
    [b; 32]
}

fn zero_counts() -> AnalysisFindingsCount {
    AnalysisFindingsCount { critical: 0, high: 0, medium: 0, info: 0, pass: 0, total: 0 }
}

/// A ledger with registry authority `key(1)`, program `key(2)`, and an
/// analysis by auditor `key(7)` scoring `score`.
fn ledger_with_score(score: u8) -> Ledger {
    let mut led = Ledger::new();
    let config =
        RegistryConfig { min_score_for_badge: 50, analysis_fee_lamports: 0, is_paused: false };
    led.initialize_registry(key(1), config, 1).unwrap();
    led.register_program(key(9), key(2), Framework::Anchor, String::new(), 2).unwrap();
    led.register_auditor(key(7), String::new(), String::new(), 3).unwrap();
    led.submit_analysis(key(7), key(2), score, key(4), Vec::new(), zero_counts(), 4).unwrap();
    led
}

#[test]
fn tier_thresholds_are_fixed() {
    assert_eq!(tier_threshold(VerificationTier::Bronze), 50);
    assert_eq!(tier_threshold(VerificationTier::Silver), 70);
    assert_eq!(tier_threshold(VerificationTier::Gold), 85);
    assert_eq!(tier_threshold(VerificationTier::Platinum), 95);
}

#[test]
fn silver_badge_fails_at_sixty_five_and_succeeds_at_seventy() {
    let mut led = ledger_with_score(65);
    assert_eq!(
        led.create_verification_badge(key(1), key(2), VerificationTier::Silver, 100, 10),
        Err(ParityError::InsufficientScore)
    );
    assert_eq!(led.badges.len(), 0);

    let mut led = ledger_with_score(70);
    assert!(
        led.create_verification_badge(key(1), key(2), VerificationTier::Silver, 100, 10).is_ok()
    );
    assert_eq!(led.badges.len(), 1);
    let badge = &led.badges[0];
    assert_eq!(badge.program_entry, key(2));
    assert_eq!(badge.issuer, key(1));
    assert_eq!(badge.tier, VerificationTier::Silver);
    assert_eq!(badge.score_at_issuance, 70);
    assert_eq!(badge.issued_at, 10);
    assert_eq!(badge.expires_at, 100);
    assert!(!badge.is_revoked);
}

#[test]
fn expiry_must_lie_strictly_in_the_future() {
    let mut led = ledger_with_score(95);
    assert_eq!(
        led.create_verification_badge(key(1), key(2), VerificationTier::Gold, 10, 10),
        Err(ParityError::BadgeExpired)
    );
    assert!(
        led.create_verification_badge(key(1), key(2), VerificationTier::Gold, 11, 10).is_ok()
    );
}

#[test]
fn issuance_requires_registry_authority() {
    let mut led = ledger_with_score(95);
    assert_eq!(
        led.create_verification_badge(key(3), key(2), VerificationTier::Gold, 100, 10),
        Err(ParityError::UnauthorizedAuditor)
    );
}

#[test]
fn issuance_requires_verified_program() {
    let registry = initialize_registry(
        key(1),
        RegistryConfig { min_score_for_badge: 50, analysis_fee_lamports: 0, is_paused: false },
        1,
    );
    // A program whose latest score would reach Platinum, but which was
    // never marked verified.
    let program_entry = ProgramEntry {
        owner: key(9),
        program_hash: key(2),
        framework: Framework::Anchor,
        metadata_uri: String::new(),
        registered_at: 2,
        updated_at: 2,
        analysis_count: 1,
        latest_score: 100,
        is_verified: false,
    };
    let mut ctx = CreateVerificationBadge { authority: key(1), registry, program_entry };
    let r = create_verification_badge(&mut ctx, 10, VerificationTier::Platinum, 100);
    assert_eq!(r.unwrap_err(), ParityError::ProgramNotRegistered);
}

#[test]
fn one_badge_per_program() {
    let mut led = ledger_with_score(95);
    led.create_verification_badge(key(1), key(2), VerificationTier::Bronze, 100, 10).unwrap();
    assert_eq!(
        led.create_verification_badge(key(1), key(2), VerificationTier::Gold, 100, 11),
        Err(ParityError::BadgeAlreadyIssued)
    );
    assert_eq!(led.badges.len(), 1);
    assert_eq!(led.badges[0].tier, VerificationTier::Bronze);
}

#[test]
fn badge_for_unknown_program_fails() {
    let mut led = ledger_with_score(95);
    assert_eq!(
        led.create_verification_badge(key(1), key(3), VerificationTier::Bronze, 100, 10),
        Err(ParityError::ProgramNotRegistered)
    );
}

#[test]
fn revocation_succeeds_once_then_fails() {
    let mut led = ledger_with_score(95);
    led.create_verification_badge(key(1), key(2), VerificationTier::Platinum, 100, 10).unwrap();
    assert!(led.revoke_verification_badge(key(1), key(2)).is_ok());
    assert!(led.badges[0].is_revoked);
    // Idempotent in effect, not in result: the state stands, the call fails.
    assert_eq!(
        led.revoke_verification_badge(key(1), key(2)),
        Err(ParityError::BadgeAlreadyRevoked)
    );
    assert!(led.badges[0].is_revoked);
}

#[test]
fn revocation_requires_registry_authority() {
    let mut led = ledger_with_score(95);
    led.create_verification_badge(key(1), key(2), VerificationTier::Platinum, 100, 10).unwrap();
    assert_eq!(
        led.revoke_verification_badge(key(7), key(2)),
        Err(ParityError::UnauthorizedAuditor)
    );
    assert!(!led.badges[0].is_revoked);
}

#[test]
fn revoking_a_missing_badge_fails() {
    let mut led = ledger_with_score(95);
    assert_eq!(led.revoke_verification_badge(key(1), key(2)), Err(ParityError::BadgeNotFound));
}
