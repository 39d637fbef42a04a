//! The built-in catalog of vulnerability-detection rules: read-only
//! reference data consumed by off-chain analysis tooling, never mutated or
//! validated by the core state machine. Each rule names one of the fixed
//! vulnerability classes of [`crate::state::PatternType`].

use vstd::prelude::*;
use crate::state::PatternType;
use crate::state::Severity;

verus! {

/// A curated vulnerability-detection rule.
pub struct VulnerabilityRule {
    pub id: &'static str,
    pub severity: Severity,
    pub pattern_type: PatternType,
    pub description: &'static str,
    pub detection_hint: &'static str,
}

/// The built-in rule catalog, one rule per vulnerability class.
pub fn vulnerability_rules() -> (r: Vec<VulnerabilityRule>)
    ensures
        r@.len() == 10,
        forall|i: int, j: int|
            0 <= i < j < r@.len() ==> (#[trigger] r@[i]).pattern_type != (
            #[trigger] r@[j]).pattern_type,
{
    let mut rules: Vec<VulnerabilityRule> = Vec::new();
    rules.push(
        VulnerabilityRule {
            id: "missing-signer-check",
            severity: Severity::Critical,
            pattern_type: PatternType::MissingSignerCheck,
            description: "Instruction does not verify that the authority account has signed the transaction",
            detection_hint: "Check for Signer<'info> constraint on authority accounts in #[derive(Accounts)]",
        },
    );
    rules.push(
        VulnerabilityRule {
            id: "unchecked-arithmetic",
            severity: Severity::High,
            pattern_type: PatternType::UncheckedArithmetic,
            description: "Arithmetic operation may overflow or underflow without checked math",
            detection_hint: "Look for +, -, * operators without checked_add, checked_sub, checked_mul",
        },
    );
    rules.push(
        VulnerabilityRule {
            id: "unvalidated-pda",
            severity: Severity::Critical,
            pattern_type: PatternType::UnvalidatedPda,
            description: "PDA derivation uses attacker-controlled seeds without validation",
            detection_hint: "Verify seeds constraints in #[account] and check for bump validation",
        },
    );
    rules.push(
        VulnerabilityRule {
            id: "insecure-cpi",
            severity: Severity::Critical,
            pattern_type: PatternType::InsecureCpi,
            description: "Cross-program invocation does not verify the target program ID",
            detection_hint: "Ensure CPI calls use Program<'info, T> typed accounts",
        },
    );
    rules.push(
        VulnerabilityRule {
            id: "account-deserialization",
            severity: Severity::High,
            pattern_type: PatternType::AccountDeserialization,
            description: "Account data deserialization does not verify discriminator or owner",
            detection_hint: "Use Account<'info, T> instead of AccountInfo for typed deserialization",
        },
    );
    rules.push(
        VulnerabilityRule {
            id: "rent-exemption",
            severity: Severity::Medium,
            pattern_type: PatternType::RentExemption,
            description: "Account may not be rent-exempt after initialization",
            detection_hint: "Verify init constraint includes correct space calculation",
        },
    );
    rules.push(
        VulnerabilityRule {
            id: "close-account-drain",
            severity: Severity::High,
            pattern_type: PatternType::CloseAccount,
            description: "Close account instruction does not properly drain lamports and zero data",
            detection_hint: "Check close = target constraint or manual lamport transfer and data zeroing",
        },
    );
    rules.push(
        VulnerabilityRule {
            id: "type-cosplay",
            severity: Severity::Critical,
            pattern_type: PatternType::TypeCosplay,
            description: "Account can be substituted with a different account type due to missing discriminator check",
            detection_hint: "Ensure all accounts use Anchor discriminators via Account<> wrapper",
        },
    );
    rules.push(
        VulnerabilityRule {
            id: "reinitialization-attack",
            severity: Severity::Critical,
            pattern_type: PatternType::ReinitializationAttack,
            description: "Account can be re-initialized by calling init instruction multiple times",
            detection_hint: "Use init_if_needed with care or add is_initialized flag checks",
        },
    );
    rules.push(
        VulnerabilityRule {
            id: "owner-check",
            severity: Severity::High,
            pattern_type: PatternType::OwnerCheck,
            description: "Account owner is not validated, allowing cross-program account injection",
            detection_hint: "Verify owner field matches expected program ID in constraints",
        },
    );
    rules
}

} // verus!
