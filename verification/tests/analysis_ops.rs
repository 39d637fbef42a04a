use parity::errors::ParityError;
use parity::instructions::analysis::SubmitAnalysis;
use parity::instructions::analysis::submit_analysis;
use parity::instructions::registry::initialize_registry;
use parity::ledger::Ledger;
use parity::state::AnalysisFindingsCount;
use parity::state::Framework;
use parity::state::Pubkey;
use parity::state::RegistryConfig;

fn key(b: u8) -> Pubkey {
    [b; 32]
}

fn counts(critical: u16, high: u16, medium: u16, info: u16, pass: u16, total: u16)
    -> AnalysisFindingsCount {
    AnalysisFindingsCount { critical, high, medium, info, pass, total }
}

/// A ledger with one registry (badge threshold 80), one program under
/// `key(2)` owned by `key(9)`, and one active auditor under `key(7)`.
fn ledger_with_program() -> Ledger {
    let mut led = Ledger::new();
    let config =
        RegistryConfig { min_score_for_badge: 80, analysis_fee_lamports: 0, is_paused: false };
    led.initialize_registry(key(1), config, 1).unwrap();
    led.register_program(key(9), key(2), Framework::Anchor, String::new(), 2).unwrap();
    led.register_auditor(key(7), String::from("auditor"), String::new(), 3).unwrap();
    led
}

#[test]
fn submission_stores_report_at_version_one() {
    let mut led = ledger_with_program();
    let skills = vec![String::from("security-audit")];
    let fc = counts(1, 2, 3, 4, 5, 15);
    assert!(led.submit_analysis(key(7), key(2), 90, key(4), skills.clone(), fc, 10).is_ok());
    assert_eq!(led.reports.len(), 1);
    let report = &led.reports[0];
    assert_eq!(report.program_entry, key(2));
    assert_eq!(report.auditor, key(7));
    assert_eq!(report.score, 90);
    assert_eq!(report.findings_hash, key(4));
    assert_eq!(report.skills_used, skills);
    assert_eq!(report.findings_count, fc);
    assert_eq!(report.submitted_at, 10);
    assert_eq!(report.updated_at, 10);
    assert_eq!(report.version, 1);
    assert_eq!(led.programs[0].analysis_count, 1);
    assert_eq!(led.programs[0].latest_score, 90);
    assert_eq!(led.registry.as_ref().unwrap().total_analyses, 1);
}

#[test]
fn version_counts_one_two_three_across_revisions() {
    let mut led = ledger_with_program();
    led.submit_analysis(key(7), key(2), 90, key(4), Vec::new(), counts(0, 0, 0, 0, 0, 0), 10)
        .unwrap();
    assert_eq!(led.reports[0].version, 1);
    led.update_analysis(key(7), key(2), 85, key(5), counts(1, 0, 0, 0, 0, 1), 11).unwrap();
    assert_eq!(led.reports[0].version, 2);
    led.update_analysis(key(7), key(2), 86, key(6), counts(0, 1, 0, 0, 0, 1), 12).unwrap();
    assert_eq!(led.reports[0].version, 3);
    // A revision that touches nothing else: submission time stands.
    assert_eq!(led.reports[0].submitted_at, 10);
    assert_eq!(led.reports[0].updated_at, 12);
}

#[test]
fn findings_mismatch_is_rejected_before_storage() {
    let mut led = ledger_with_program();
    let fc = counts(1, 2, 3, 4, 5, 14);
    assert_eq!(
        led.submit_analysis(key(7), key(2), 90, key(4), Vec::new(), fc, 10),
        Err(ParityError::FindingsCountMismatch)
    );
    assert_eq!(led.reports.len(), 0);
    assert_eq!(led.programs[0].latest_score, 0);
    assert_eq!(led.registry.as_ref().unwrap().total_analyses, 0);
}

#[test]
fn findings_sum_overflowing_u16_is_rejected() {
    let mut led = ledger_with_program();
    // The buckets sum to 65536, which no u16 total can equal.
    let fc = counts(65535, 1, 0, 0, 0, 0);
    assert_eq!(
        led.submit_analysis(key(7), key(2), 90, key(4), Vec::new(), fc, 10),
        Err(ParityError::FindingsCountMismatch)
    );
}

#[test]
fn findings_mismatch_rejected_on_update_too() {
    let mut led = ledger_with_program();
    led.submit_analysis(key(7), key(2), 90, key(4), Vec::new(), counts(0, 0, 0, 0, 0, 0), 10)
        .unwrap();
    assert_eq!(
        led.update_analysis(key(7), key(2), 80, key(5), counts(2, 0, 0, 0, 0, 1), 11),
        Err(ParityError::FindingsCountMismatch)
    );
    assert_eq!(led.reports[0].version, 1);
    assert_eq!(led.reports[0].score, 90);
}

#[test]
fn score_above_hundred_is_rejected() {
    let mut led = ledger_with_program();
    assert_eq!(
        led.submit_analysis(key(7), key(2), 101, key(4), Vec::new(), counts(0, 0, 0, 0, 0, 0), 10),
        Err(ParityError::InvalidScore)
    );
    // 100 itself is accepted.
    assert!(
        led.submit_analysis(key(7), key(2), 100, key(4), Vec::new(), counts(0, 0, 0, 0, 0, 0), 11)
            .is_ok()
    );
}

#[test]
fn more_than_eight_skills_rejected_and_eight_accepted() {
    let mut led = ledger_with_program();
    let nine: Vec<String> = (0..9).map(|i| format!("skill-{}", i)).collect();
    assert_eq!(
        led.submit_analysis(key(7), key(2), 90, key(4), nine, counts(0, 0, 0, 0, 0, 0), 10),
        Err(ParityError::TooManySkills)
    );
    let eight: Vec<String> = (0..8).map(|i| format!("skill-{}", i)).collect();
    assert!(
        led.submit_analysis(key(7), key(2), 90, key(4), eight, counts(0, 0, 0, 0, 0, 0), 11)
            .is_ok()
    );
}

#[test]
fn skill_name_longer_than_sixty_four_bytes_rejected() {
    let mut led = ledger_with_program();
    let skills = vec![String::from("ok"), "s".repeat(65)];
    assert_eq!(
        led.submit_analysis(key(7), key(2), 90, key(4), skills, counts(0, 0, 0, 0, 0, 0), 10),
        Err(ParityError::SkillNameTooLong)
    );
    let at_bound = vec!["s".repeat(64)];
    assert!(
        led.submit_analysis(key(7), key(2), 90, key(4), at_bound, counts(0, 0, 0, 0, 0, 0), 11)
            .is_ok()
    );
}

#[test]
fn second_report_for_same_pair_rejected() {
    let mut led = ledger_with_program();
    led.submit_analysis(key(7), key(2), 90, key(4), Vec::new(), counts(0, 0, 0, 0, 0, 0), 10)
        .unwrap();
    assert_eq!(
        led.submit_analysis(key(7), key(2), 50, key(5), Vec::new(), counts(0, 0, 0, 0, 0, 0), 11),
        Err(ParityError::AnalysisAlreadyExists)
    );
    assert_eq!(led.reports.len(), 1);
    assert_eq!(led.reports[0].score, 90);
}

#[test]
fn inactive_auditor_rejected() {
    let mut led = ledger_with_program();
    led.update_auditor_status(key(7), false, 5).unwrap();
    assert_eq!(
        led.submit_analysis(key(7), key(2), 90, key(4), Vec::new(), counts(0, 0, 0, 0, 0, 0), 10),
        Err(ParityError::AuditorInactive)
    );
}

#[test]
fn unknown_auditor_and_unknown_program_rejected() {
    let mut led = ledger_with_program();
    assert_eq!(
        led.submit_analysis(key(8), key(2), 90, key(4), Vec::new(), counts(0, 0, 0, 0, 0, 0), 10),
        Err(ParityError::AuditorNotFound)
    );
    assert_eq!(
        led.submit_analysis(key(7), key(3), 90, key(4), Vec::new(), counts(0, 0, 0, 0, 0, 0), 10),
        Err(ParityError::ProgramNotRegistered)
    );
    assert_eq!(
        led.update_analysis(key(7), key(2), 90, key(4), counts(0, 0, 0, 0, 0, 0), 10),
        Err(ParityError::AnalysisNotFound)
    );
}

#[test]
fn verification_set_when_score_reaches_threshold() {
    let mut led = ledger_with_program();
    led.submit_analysis(key(7), key(2), 80, key(4), Vec::new(), counts(0, 0, 0, 0, 0, 0), 10)
        .unwrap();
    assert!(led.programs[0].is_verified);
}

#[test]
fn verification_unset_when_first_score_below_threshold() {
    let mut led = ledger_with_program();
    led.submit_analysis(key(7), key(2), 79, key(4), Vec::new(), counts(0, 0, 0, 0, 0, 0), 10)
        .unwrap();
    assert!(!led.programs[0].is_verified);
    assert_eq!(led.programs[0].latest_score, 79);
}

#[test]
fn low_submission_never_clears_verification() {
    let mut led = ledger_with_program();
    led.register_auditor(key(8), String::from("second"), String::new(), 4).unwrap();
    led.submit_analysis(key(7), key(2), 95, key(4), Vec::new(), counts(0, 0, 0, 0, 0, 0), 10)
        .unwrap();
    assert!(led.programs[0].is_verified);
    // A second auditor files a lower score: the flag stays up even though
    // the latest score drops below the threshold.
    led.submit_analysis(key(8), key(2), 10, key(5), Vec::new(), counts(0, 0, 0, 0, 0, 0), 11)
        .unwrap();
    assert!(led.programs[0].is_verified);
    assert_eq!(led.programs[0].latest_score, 10);
    assert_eq!(led.programs[0].analysis_count, 2);
}

#[test]
fn revision_clears_and_sets_verification() {
    let mut led = ledger_with_program();
    led.submit_analysis(key(7), key(2), 95, key(4), Vec::new(), counts(0, 0, 0, 0, 0, 0), 10)
        .unwrap();
    assert!(led.programs[0].is_verified);
    led.update_analysis(key(7), key(2), 79, key(5), counts(0, 0, 0, 0, 0, 0), 11).unwrap();
    assert!(!led.programs[0].is_verified);
    led.update_analysis(key(7), key(2), 80, key(6), counts(0, 0, 0, 0, 0, 0), 12).unwrap();
    assert!(led.programs[0].is_verified);
}

#[test]
fn direct_submission_requires_matching_authority() {
    let registry = initialize_registry(
        key(1),
        RegistryConfig { min_score_for_badge: 80, analysis_fee_lamports: 0, is_paused: false },
        1,
    );
    let mut reg_ctx = parity::instructions::registry::RegisterProgram { owner: key(9), registry };
    let entry = parity::instructions::registry::register_program(
        &mut reg_ctx,
        2,
        key(2),
        Framework::Anchor,
        String::new(),
    )
    .unwrap();
    let mut aud_ctx =
        parity::instructions::auditor::RegisterAuditor { authority: key(7), registry: reg_ctx.registry };
    let account =
        parity::instructions::auditor::register_auditor(&mut aud_ctx, 3, String::new(), String::new())
            .unwrap();
    // The stored account belongs to key(7); key(8) signs.
    let mut ctx = SubmitAnalysis {
        auditor: key(8),
        auditor_account: account,
        registry: aud_ctx.registry,
        program_entry: entry,
    };
    let r = submit_analysis(&mut ctx, 10, 90, key(4), Vec::new(), counts(0, 0, 0, 0, 0, 0));
    assert_eq!(r.unwrap_err(), ParityError::UnauthorizedAuditor);
}
