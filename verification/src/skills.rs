//! The built-in catalog of audit skills: read-only reference data consumed
//! by off-chain analysis tooling, never mutated or validated by the core
//! state machine.

use vstd::prelude::*;
use crate::state::SkillType;
use crate::state::str_eq;

verus! {

/// A reusable audit methodology: what it inspects, step by step, and the
/// values it consumes and produces.
pub struct SkillDefinition {
    pub name: &'static str,
    pub version: &'static str,
    pub description: &'static str,
    pub skill_type: SkillType,
    pub steps: Vec<&'static str>,
    pub inputs: Vec<SkillInput>,
    pub outputs: Vec<SkillOutput>,
}

/// A value a skill consumes.
pub struct SkillInput {
    pub name: &'static str,
    pub input_type: &'static str,
    pub required: bool,
    pub default_value: Option<&'static str>,
}

/// A value a skill produces.
pub struct SkillOutput {
    pub name: &'static str,
    pub output_type: &'static str,
}

/// The names of the built-in skills, in catalog order.
pub open spec fn builtin_skill_names() -> Seq<Seq<char>> {
    seq!["security-audit"@, "best-practices"@, "gas-optimization"@, "deep-audit"@]
}

pub open spec fn is_builtin_skill_name(name: Seq<char>) -> bool {
    builtin_skill_names().contains(name)
}

/// The standard inputs shared by every built-in skill: the program under
/// analysis and an optional framework hint.
fn standard_inputs() -> Vec<SkillInput> {
    let mut inputs: Vec<SkillInput> = Vec::new();
    inputs.push(
        SkillInput { name: "program", input_type: "file", required: true, default_value: None },
    );
    inputs.push(
        SkillInput {
            name: "framework",
            input_type: "string",
            required: false,
            default_value: Some("anchor"),
        },
    );
    inputs
}

/// The built-in skill catalog, in order: security audit, best practices,
/// compute-cost optimization, and the combined deep audit.
pub fn builtin_skills() -> (r: Vec<SkillDefinition>)
    ensures
        r@.len() == 4,
        r@[0].name@ == builtin_skill_names()[0] && r@[0].skill_type == SkillType::SecurityAudit,
        r@[1].name@ == builtin_skill_names()[1] && r@[1].skill_type == SkillType::BestPractices,
        r@[2].name@ == builtin_skill_names()[2] && r@[2].skill_type == SkillType::GasOptimization,
        r@[3].name@ == builtin_skill_names()[3] && r@[3].skill_type == SkillType::DeepAudit,
{
    let mut skills: Vec<SkillDefinition> = Vec::new();

    let mut steps: Vec<&'static str> = Vec::new();
    steps.push("Parse the program source and resolve all account structures");
    steps.push("Check for missing signer validations on privileged instructions");
    steps.push("Verify arithmetic operations use checked math or overflow protection");
    steps.push("Validate CPI calls have correct program ID checks");
    steps.push("Ensure PDA seeds are deterministic and not attacker-controlled");
    steps.push("Check account constraints (has_one, constraint, seeds)");
    steps.push("Verify close account logic drains lamports and zeros data");
    steps.push("Score the program 0-100 based on finding severity");
    let mut outputs: Vec<SkillOutput> = Vec::new();
    outputs.push(SkillOutput { name: "findings", output_type: "Finding[]" });
    outputs.push(SkillOutput { name: "score", output_type: "number" });
    skills.push(
        SkillDefinition {
            name: "security-audit",
            version: "1.0.0",
            description: "Comprehensive Solana program security analysis covering signer checks, arithmetic safety, PDA validation, CPI security, and account constraints",
            skill_type: SkillType::SecurityAudit,
            steps,
            inputs: standard_inputs(),
            outputs,
        },
    );

    let mut steps: Vec<&'static str> = Vec::new();
    steps.push("Verify program uses InitSpace derive for automatic space calculation");
    steps.push("Check error definitions provide descriptive messages");
    steps.push("Validate event emissions for critical state changes");
    steps.push("Ensure account constraints use typed wrappers over raw AccountInfo");
    steps.push("Verify instruction handlers follow single-responsibility principle");
    steps.push("Check for proper use of msg! logging in instruction handlers");
    let mut outputs: Vec<SkillOutput> = Vec::new();
    outputs.push(SkillOutput { name: "findings", output_type: "Finding[]" });
    outputs.push(SkillOutput { name: "score", output_type: "number" });
    skills.push(
        SkillDefinition {
            name: "best-practices",
            version: "1.0.0",
            description: "Solana and Anchor best practices analysis covering code organization, error handling, event emission, and documentation",
            skill_type: SkillType::BestPractices,
            steps,
            inputs: standard_inputs(),
            outputs,
        },
    );

    let mut steps: Vec<&'static str> = Vec::new();
    steps.push("Analyze account data layout for packing efficiency");
    steps.push("Check for unnecessary account reallocations");
    steps.push("Identify redundant deserialization operations");
    steps.push("Measure instruction handler compute unit consumption");
    steps.push("Suggest data structure optimizations for reduced rent");
    steps.push("Evaluate CPI overhead and suggest batching strategies");
    let mut outputs: Vec<SkillOutput> = Vec::new();
    outputs.push(SkillOutput { name: "findings", output_type: "Finding[]" });
    outputs.push(SkillOutput { name: "compute_units", output_type: "number" });
    skills.push(
        SkillDefinition {
            name: "gas-optimization",
            version: "1.0.0",
            description: "Compute unit optimization analysis for Solana programs targeting reduced transaction costs and improved throughput",
            skill_type: SkillType::GasOptimization,
            steps,
            inputs: standard_inputs(),
            outputs,
        },
    );

    let mut steps: Vec<&'static str> = Vec::new();
    steps.push("Execute security-audit skill and collect findings");
    steps.push("Execute best-practices skill and collect findings");
    steps.push("Execute gas-optimization skill and collect findings");
    steps.push("Correlate findings across skills for compound vulnerabilities");
    steps.push("Generate risk-prioritized remediation plan");
    steps.push("Produce optimized code artifact with all fixes applied");
    let mut outputs: Vec<SkillOutput> = Vec::new();
    outputs.push(SkillOutput { name: "findings", output_type: "Finding[]" });
    outputs.push(SkillOutput { name: "score", output_type: "number" });
    outputs.push(SkillOutput { name: "optimized_code", output_type: "string" });
    skills.push(
        SkillDefinition {
            name: "deep-audit",
            version: "1.0.0",
            description: "Multi-pass deep audit combining security-audit, best-practices, and gas-optimization with cross-skill correlation and optimized code generation",
            skill_type: SkillType::DeepAudit,
            steps,
            inputs: standard_inputs(),
            outputs,
        },
    );

    skills
}

/// Looks a built-in skill up by name; `None` exactly when the name is not
/// in the catalog.
pub fn get_skill_by_name(name: &str) -> (r: Option<SkillDefinition>)
    ensures
        match r {
            Some(d) => d.name@ == name@ && is_builtin_skill_name(name@),
            None => !is_builtin_skill_name(name@),
        },
{
    let mut defs = builtin_skills();
    let mut i: usize = 0;
    #[verifier::loop_isolation(false)]
    while i < defs.len()
        invariant
            i <= defs@.len(),
            defs@.len() == 4,
            forall|j: int| 0 <= j < i ==> (#[trigger] defs@[j]).name@ != name@,
            defs@[0].name@ == builtin_skill_names()[0],
            defs@[1].name@ == builtin_skill_names()[1],
            defs@[2].name@ == builtin_skill_names()[2],
            defs@[3].name@ == builtin_skill_names()[3],
        decreases defs@.len() - i,
    {
        if str_eq(defs[i].name, name) {
            proof {
                if i == 0 {
                    assert(builtin_skill_names()[0] == name@);
                } else if i == 1 {
                    assert(builtin_skill_names()[1] == name@);
                } else if i == 2 {
                    assert(builtin_skill_names()[2] == name@);
                } else {
                    assert(builtin_skill_names()[3] == name@);
                }
            }
            return Some(defs.remove(i));
        }
        i = i + 1;
    }
    proof {
        assert forall|k: int| 0 <= k < builtin_skill_names().len() implies builtin_skill_names()[k]
            != name@ by {
            if k == 0 {
                assert(defs@[0].name@ != name@);
            } else if k == 1 {
                assert(defs@[1].name@ != name@);
            } else if k == 2 {
                assert(defs@[2].name@ != name@);
            } else {
                assert(defs@[3].name@ != name@);
            }
        }
    }
    None
}

/// The built-in skill names, in catalog order.
pub fn list_skill_names() -> (r: Vec<&'static str>)
    ensures
        r@.len() == builtin_skill_names().len(),
        forall|i: int| 0 <= i < r@.len() ==> (#[trigger] r@[i])@ == builtin_skill_names()[i],
{
    let mut names: Vec<&'static str> = Vec::new();
    names.push("security-audit");
    names.push("best-practices");
    names.push("gas-optimization");
    names.push("deep-audit");
    names
}

/// The built-in skills of the given type. Each built-in skill has a
/// distinct type and none is `Custom`, so the result holds at most one
/// entry.
pub fn get_skills_by_type(skill_type: SkillType) -> (r: Vec<SkillDefinition>)
    ensures
        forall|i: int| 0 <= i < r@.len() ==> (#[trigger] r@[i]).skill_type == skill_type,
        match skill_type {
            SkillType::Custom => r@.len() == 0,
            _ => r@.len() == 1 && r@[0].name@ == builtin_skill_names()[
                match skill_type {
                    SkillType::SecurityAudit => 0int,
                    SkillType::BestPractices => 1,
                    SkillType::GasOptimization => 2,
                    SkillType::DeepAudit => 3,
                    SkillType::Custom => 0,
                }
            ],
        },
{
    let mut defs = builtin_skills();
    let mut out: Vec<SkillDefinition> = Vec::new();
    let deep = defs.pop().unwrap();
    let gas = defs.pop().unwrap();
    let best = defs.pop().unwrap();
    let security = defs.pop().unwrap();
    if security.skill_type == skill_type {
        out.push(security);
    }
    if best.skill_type == skill_type {
        out.push(best);
    }
    if gas.skill_type == skill_type {
        out.push(gas);
    }
    if deep.skill_type == skill_type {
        out.push(deep);
    }
    out
}

} // verus!
