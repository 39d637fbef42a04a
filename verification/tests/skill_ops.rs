use parity::errors::ParityError;
use parity::ledger::Ledger;
use parity::state::Pubkey;
use parity::state::RegistryConfig;
use parity::state::SkillType;

fn key(b: u8) -> Pubkey {
    [b; 32]
}

/// A ledger with a registry whose authority is `key(1)`.
fn ledger() -> Ledger {
    let mut led = Ledger::new();
    let config =
        RegistryConfig { min_score_for_badge: 80, analysis_fee_lamports: 0, is_paused: false };
    led.initialize_registry(key(1), config, 1).unwrap();
    led
}

fn register_default_skill(led: &mut Ledger, authority: Pubkey) {
    led.register_skill(
        authority,
        String::from("fuzzing"),
        String::from("1.0.0"),
        String::from("Coverage-guided input exploration"),
        SkillType::Custom,
        2,
    )
    .unwrap();
}

#[test]
fn register_skill_stores_entry_and_counts_it() {
    let mut led = ledger();
    register_default_skill(&mut led, key(3));
    assert_eq!(led.skills.len(), 1);
    let skill = &led.skills[0];
    assert_eq!(skill.authority, key(3));
    assert_eq!(skill.name, "fuzzing");
    assert_eq!(skill.version, "1.0.0");
    assert_eq!(skill.skill_type, SkillType::Custom);
    assert_eq!(skill.usage_count, 0);
    assert!(!skill.is_deprecated);
    assert_eq!(led.registry.as_ref().unwrap().total_skills, 1);
}

#[test]
fn skill_names_are_unique() {
    let mut led = ledger();
    register_default_skill(&mut led, key(3));
    assert_eq!(
        led.register_skill(
            key(4),
            String::from("fuzzing"),
            String::from("2.0.0"),
            String::new(),
            SkillType::DeepAudit,
            3,
        ),
        Err(ParityError::SkillAlreadyRegistered)
    );
    assert_eq!(led.skills.len(), 1);
    assert_eq!(led.registry.as_ref().unwrap().total_skills, 1);
}

#[test]
fn skill_field_bounds_are_checked_in_order() {
    let mut led = ledger();
    assert_eq!(
        led.register_skill(
            key(3),
            "n".repeat(65),
            String::new(),
            String::new(),
            SkillType::Custom,
            2
        ),
        Err(ParityError::SkillNameTooLong)
    );
    assert_eq!(
        led.register_skill(
            key(3),
            "n".repeat(64),
            "v".repeat(17),
            String::new(),
            SkillType::Custom,
            2
        ),
        Err(ParityError::SkillVersionTooLong)
    );
    assert_eq!(
        led.register_skill(
            key(3),
            "n".repeat(64),
            "v".repeat(16),
            "d".repeat(257),
            SkillType::Custom,
            2
        ),
        Err(ParityError::SkillDescriptionTooLong)
    );
    assert!(
        led.register_skill(
            key(3),
            "n".repeat(64),
            "v".repeat(16),
            "d".repeat(256),
            SkillType::Custom,
            2
        )
        .is_ok()
    );
}

#[test]
fn update_skill_replaces_version_and_description() {
    let mut led = ledger();
    register_default_skill(&mut led, key(3));
    let name = String::from("fuzzing");
    assert!(
        led.update_skill(key(3), &name, String::from("1.1.0"), String::from("Updated"), 9).is_ok()
    );
    assert_eq!(led.skills[0].version, "1.1.0");
    assert_eq!(led.skills[0].description, "Updated");
    assert_eq!(led.skills[0].updated_at, 9);
    assert_eq!(led.skills[0].registered_at, 2);
}

#[test]
fn update_skill_requires_its_authority() {
    let mut led = ledger();
    register_default_skill(&mut led, key(3));
    let name = String::from("fuzzing");
    assert_eq!(
        led.update_skill(key(4), &name, String::from("1.1.0"), String::new(), 9),
        Err(ParityError::UnauthorizedAuditor)
    );
    assert_eq!(led.skills[0].version, "1.0.0");
}

#[test]
fn update_unknown_skill_fails() {
    let mut led = ledger();
    let name = String::from("absent");
    assert_eq!(
        led.update_skill(key(3), &name, String::new(), String::new(), 9),
        Err(ParityError::SkillNotFound)
    );
}

#[test]
fn deprecate_skill_is_one_way() {
    let mut led = ledger();
    register_default_skill(&mut led, key(3));
    let name = String::from("fuzzing");
    assert!(led.deprecate_skill(key(3), &name, 9).is_ok());
    assert!(led.skills[0].is_deprecated);
    assert_eq!(
        led.deprecate_skill(key(3), &name, 10),
        Err(ParityError::SkillAlreadyDeprecated)
    );
    assert!(led.skills[0].is_deprecated);
}

#[test]
fn deprecate_skill_requires_its_authority() {
    let mut led = ledger();
    register_default_skill(&mut led, key(3));
    let name = String::from("fuzzing");
    assert_eq!(led.deprecate_skill(key(4), &name, 9), Err(ParityError::UnauthorizedAuditor));
    assert!(!led.skills[0].is_deprecated);
}

#[test]
fn deprecated_skill_rejects_updates_from_its_own_authority() {
    let mut led = ledger();
    register_default_skill(&mut led, key(3));
    let name = String::from("fuzzing");
    led.deprecate_skill(key(3), &name, 9).unwrap();
    assert_eq!(
        led.update_skill(key(3), &name, String::from("2.0.0"), String::new(), 10),
        Err(ParityError::CannotUpdateDeprecatedSkill)
    );
}

#[test]
fn deprecated_skill_rejects_updates_regardless_of_caller() {
    let mut led = ledger();
    register_default_skill(&mut led, key(3));
    let name = String::from("fuzzing");
    led.deprecate_skill(key(3), &name, 9).unwrap();
    // Even a caller who is not the authority sees the deprecation error.
    assert_eq!(
        led.update_skill(key(4), &name, String::from("2.0.0"), String::new(), 10),
        Err(ParityError::CannotUpdateDeprecatedSkill)
    );
    assert_eq!(led.skills[0].version, "1.0.0");
}
