use parity::errors::ParityError;
use parity::instructions::registry::RegisterProgram;
use parity::instructions::registry::UpdateRegistryConfig;
use parity::instructions::registry::initialize_registry;
use parity::instructions::registry::register_program;
use parity::instructions::registry::update_registry_config;
use parity::ledger::Ledger;
use parity::state::Framework;
use parity::state::Pubkey;
use parity::state::RegistryConfig;

fn key(b: u8) -> Pubkey {
    [b; 32]
}

fn config(min_score: u8) -> RegistryConfig {
    RegistryConfig { min_score_for_badge: min_score, analysis_fee_lamports: 1000, is_paused: false }
}

fn empty_ledger() -> Ledger {
    Ledger::new()
}

#[test]
fn initialize_registry_zeroes_counters_and_stores_policy() {
    let reg = initialize_registry(key(1), config(80), 42);
    assert_eq!(reg.authority, key(1));
    assert_eq!(reg.total_programs, 0);
    assert_eq!(reg.total_analyses, 0);
    assert_eq!(reg.total_skills, 0);
    assert_eq!(reg.total_auditors, 0);
    assert_eq!(reg.total_patterns, 0);
    assert_eq!(reg.min_score_for_badge, 80);
    assert_eq!(reg.analysis_fee_lamports, 1000);
    assert!(!reg.is_paused);
    assert_eq!(reg.created_at, 42);
    assert_eq!(reg.updated_at, 42);
}

#[test]
fn initialize_registry_twice_fails() {
    let mut led = empty_ledger();
    assert!(led.initialize_registry(key(1), config(80), 1).is_ok());
    assert_eq!(
        led.initialize_registry(key(2), config(50), 2),
        Err(ParityError::RegistryAlreadyInitialized)
    );
    // The first initialization stands.
    assert_eq!(led.registry.as_ref().unwrap().authority, key(1));
}

#[test]
fn register_program_fills_fresh_entry() {
    let mut led = empty_ledger();
    led.initialize_registry(key(1), config(80), 1).unwrap();
    let uri = String::from("https://example.org/meta.json");
    assert!(led.register_program(key(9), key(2), Framework::Anchor, uri.clone(), 7).is_ok());
    assert_eq!(led.programs.len(), 1);
    let entry = &led.programs[0];
    assert_eq!(entry.owner, key(9));
    assert_eq!(entry.program_hash, key(2));
    assert_eq!(entry.framework, Framework::Anchor);
    assert_eq!(entry.metadata_uri, uri);
    assert_eq!(entry.registered_at, 7);
    assert_eq!(entry.updated_at, 7);
    assert_eq!(entry.analysis_count, 0);
    assert_eq!(entry.latest_score, 0);
    assert!(!entry.is_verified);
    assert_eq!(led.registry.as_ref().unwrap().total_programs, 1);
    assert_eq!(led.registry.as_ref().unwrap().updated_at, 7);
}

#[test]
fn register_same_hash_twice_fails_second_time() {
    let mut led = empty_ledger();
    led.initialize_registry(key(1), config(80), 1).unwrap();
    assert!(led.register_program(key(9), key(2), Framework::Anchor, String::new(), 2).is_ok());
    assert_eq!(
        led.register_program(key(9), key(2), Framework::Native, String::new(), 3),
        Err(ParityError::ProgramAlreadyRegistered)
    );
    assert_eq!(led.programs.len(), 1);
    assert_eq!(led.registry.as_ref().unwrap().total_programs, 1);
}

#[test]
fn register_two_distinct_hashes_counts_two_programs() {
    let mut led = empty_ledger();
    led.initialize_registry(key(1), config(80), 1).unwrap();
    assert!(led.register_program(key(9), key(2), Framework::Anchor, String::new(), 2).is_ok());
    assert!(led.register_program(key(9), key(3), Framework::Steel, String::new(), 3).is_ok());
    assert_eq!(led.programs.len(), 2);
    assert_eq!(led.registry.as_ref().unwrap().total_programs, 2);
}

#[test]
fn register_program_without_registry_fails() {
    let mut led = empty_ledger();
    assert_eq!(
        led.register_program(key(9), key(2), Framework::Anchor, String::new(), 2),
        Err(ParityError::RegistryNotInitialized)
    );
}

#[test]
fn metadata_uri_at_bound_passes_and_over_bound_fails() {
    let mut led = empty_ledger();
    led.initialize_registry(key(1), config(80), 1).unwrap();
    let at_bound = "u".repeat(200);
    assert!(led.register_program(key(9), key(2), Framework::Seahorse, at_bound, 2).is_ok());
    let over_bound = "u".repeat(201);
    assert_eq!(
        led.register_program(key(9), key(3), Framework::Seahorse, over_bound, 3),
        Err(ParityError::MetadataUriTooLong)
    );
    assert_eq!(led.programs.len(), 1);
}

#[test]
fn update_registry_config_requires_authority() {
    let mut ctx = UpdateRegistryConfig {
        authority: key(2),
        registry: initialize_registry(key(1), config(80), 1),
    };
    assert_eq!(
        update_registry_config(&mut ctx, 5, config(50)),
        Err(ParityError::UnauthorizedAuditor)
    );
    assert_eq!(ctx.registry.min_score_for_badge, 80);
}

#[test]
fn update_registry_config_overwrites_policy() {
    let mut ctx = UpdateRegistryConfig {
        authority: key(1),
        registry: initialize_registry(key(1), config(80), 1),
    };
    let new_config =
        RegistryConfig { min_score_for_badge: 60, analysis_fee_lamports: 5, is_paused: true };
    assert!(update_registry_config(&mut ctx, 5, new_config).is_ok());
    assert_eq!(ctx.registry.min_score_for_badge, 60);
    assert_eq!(ctx.registry.analysis_fee_lamports, 5);
    assert!(ctx.registry.is_paused);
    assert_eq!(ctx.registry.updated_at, 5);
    // Creation time and counters are untouched.
    assert_eq!(ctx.registry.created_at, 1);
    assert_eq!(ctx.registry.total_programs, 0);
}

#[test]
fn register_program_handler_counts_into_registry() {
    let mut ctx = RegisterProgram {
        owner: key(9),
        registry: initialize_registry(key(1), config(80), 1),
    };
    let entry =
        register_program(&mut ctx, 4, key(5), Framework::Native, String::from("uri")).unwrap();
    assert_eq!(entry.program_hash, key(5));
    assert_eq!(ctx.registry.total_programs, 1);
}
