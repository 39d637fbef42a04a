use parity::errors::ParityError;
use parity::ledger::Ledger;
use parity::state::Pubkey;
use parity::state::RegistryConfig;

fn key(b: u8) -> Pubkey {
    [b; 32]
}

fn empty_ledger() -> Ledger {
    Ledger::new()
}

fn ledger() -> Ledger {
    let mut led = empty_ledger();
    let config =
        RegistryConfig { min_score_for_badge: 80, analysis_fee_lamports: 0, is_paused: false };
    led.initialize_registry(key(1), config, 1).unwrap();
    led
}

#[test]
fn register_auditor_stores_active_account() {
    let mut led = ledger();
    assert!(
        led.register_auditor(key(7), String::from("alice"), String::from("https://a.example"), 5)
            .is_ok()
    );
    assert_eq!(led.auditors.len(), 1);
    let account = &led.auditors[0];
    assert_eq!(account.authority, key(7));
    assert_eq!(account.name, "alice");
    assert_eq!(account.credentials_uri, "https://a.example");
    assert_eq!(account.total_analyses, 0);
    assert_eq!(account.average_score, 0);
    assert!(account.is_active);
    assert_eq!(account.registered_at, 5);
    assert_eq!(led.registry.as_ref().unwrap().total_auditors, 1);
}

#[test]
fn one_account_per_authority() {
    let mut led = ledger();
    led.register_auditor(key(7), String::from("alice"), String::new(), 5).unwrap();
    assert_eq!(
        led.register_auditor(key(7), String::from("again"), String::new(), 6),
        Err(ParityError::AuditorAlreadyRegistered)
    );
    assert_eq!(led.auditors.len(), 1);
    assert_eq!(led.auditors[0].name, "alice");
}

#[test]
fn auditor_field_bounds_are_checked_in_order() {
    let mut led = ledger();
    assert_eq!(
        led.register_auditor(key(7), "n".repeat(65), String::new(), 5),
        Err(ParityError::AuditorNameTooLong)
    );
    assert_eq!(
        led.register_auditor(key(7), "n".repeat(64), "c".repeat(201), 5),
        Err(ParityError::CredentialsUriTooLong)
    );
    assert!(led.register_auditor(key(7), "n".repeat(64), "c".repeat(200), 5).is_ok());
}

#[test]
fn register_auditor_without_registry_fails() {
    let mut led = empty_ledger();
    assert_eq!(
        led.register_auditor(key(7), String::new(), String::new(), 5),
        Err(ParityError::RegistryNotInitialized)
    );
}

#[test]
fn status_toggles_both_ways() {
    let mut led = ledger();
    led.register_auditor(key(7), String::new(), String::new(), 5).unwrap();
    assert!(led.update_auditor_status(key(7), false, 6).is_ok());
    assert!(!led.auditors[0].is_active);
    assert_eq!(led.auditors[0].updated_at, 6);
    assert!(led.update_auditor_status(key(7), true, 7).is_ok());
    assert!(led.auditors[0].is_active);
    assert_eq!(led.auditors[0].updated_at, 7);
    // Nothing but the flag and the timestamp moves.
    assert_eq!(led.auditors[0].registered_at, 5);
    assert_eq!(led.registry.as_ref().unwrap().total_auditors, 1);
}

#[test]
fn status_update_for_unknown_auditor_fails() {
    let mut led = ledger();
    assert_eq!(led.update_auditor_status(key(7), false, 6), Err(ParityError::AuditorNotFound));
}
