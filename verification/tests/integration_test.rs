//! Integration tests: a contract with two pattern assertions and a latency
//! limit, run against clean and offending outputs.

use agentcontract::measure::Millis;
use agentcontract::models::{Assertion, AssertionType, Limits, OnViolation, ViolationAction};
use agentcontract::{Contract, ContractRunner, RunContext};

fn pattern_assertion(name: &str, must_not_match: &str, description: &str) -> Assertion {
    Assertion {
        name: name.into(),
        assertion_type: AssertionType::Pattern,
        description: description.into(),
        must_not_match: Some(must_not_match.into()),
        must_match: None,
        max_usd: None,
        max_ms: None,
        prompt: None,
        pass_when: None,
        model: None,
    }
}

fn make_runner() -> ContractRunner {
    let mut limits = Limits::default();
    limits.max_latency_ms = Some(30000);
    let contract = Contract {
        agent: "test-agent".into(),
        spec_version: "0.1.0".into(),
        version: "1.0.0".into(),
        description: String::new(),
        author: String::new(),
        tags: Vec::new(),
        must: Vec::new(),
        must_not: Vec::new(),
        can: Vec::new(),
        ensures: Vec::new(),
        invariant: Vec::new(),
        assert_: vec![
            pattern_assertion(
                "no_pii_leak",
                r"\b\d{3}-\d{2}-\d{4}\b",
                "No US Social Security Numbers in output",
            ),
            pattern_assertion(
                "no_credentials",
                r"(?i)(api_key|password|secret)\s*[:=]\s*\S+",
                "No credentials in output",
            ),
        ],
        limits,
        on_violation: OnViolation::new(ViolationAction::Block),
    };
    ContractRunner::new(contract)
}

#[test]
fn test_clean_output_passes() {
    let runner = make_runner();
    let ctx = RunContext {
        input: "What are the cleaning validation requirements?".into(),
        output: "Per 21 CFR Part 211.67, equipment must be cleaned and maintained.".into(),
        duration_ms: Millis::from_whole_ms(1200),
        ..Default::default()
    };
    let result = runner.run(&ctx);
    assert!(result.passed, "Expected pass, got violations: {:?}", result.violations);
    assert!(result.blocking_violations().is_empty());
}

#[test]
fn test_pii_pattern_triggers_violation() {
    let runner = make_runner();
    let ctx = RunContext {
        input: "Who processed the deviation?".into(),
        output: "Processed by employee SSN 123-45-6789 on 2024-01-15.".into(),
        duration_ms: Millis::from_whole_ms(800),
        ..Default::default()
    };
    let result = runner.run(&ctx);
    assert!(!result.passed, "Expected violation but run passed");
    let names: Vec<&str> = result.violations.iter().map(|v| v.clause_name.as_str()).collect();
    assert!(names.contains(&"no_pii_leak"), "Expected no_pii_leak, got: {names:?}");
}

#[test]
fn test_pii_violation_is_blocking() {
    let runner = make_runner();
    let ctx = RunContext {
        input: "Any question".into(),
        output: "Patient SSN: 987-65-4321".into(),
        duration_ms: Millis::from_whole_ms(500),
        ..Default::default()
    };
    let result = runner.run(&ctx);
    let blocking = result.blocking_violations();
    assert!(!blocking.is_empty(), "Expected a blocking violation for PII");
    assert_eq!(blocking[0].clause_name, "no_pii_leak");
    assert_eq!(blocking[0].action_taken, "block");
}

#[test]
fn test_credentials_pattern_triggers_violation() {
    let runner = make_runner();
    let ctx = RunContext {
        input: "What is the API configuration?".into(),
        output: "The service uses api_key=sk-abc123secret to authenticate.".into(),
        duration_ms: Millis::from_whole_ms(600),
        ..Default::default()
    };
    let result = runner.run(&ctx);
    let names: Vec<&str> = result.violations.iter().map(|v| v.clause_name.as_str()).collect();
    assert!(names.contains(&"no_credentials"), "Expected no_credentials, got: {names:?}");
}

#[test]
fn test_latency_limit_violation() {
    let runner = make_runner();
    let ctx = RunContext {
        input: "question".into(),
        output: "answer".into(),
        duration_ms: Millis::from_whole_ms(45_000), // exceeds 30 000ms limit
        ..Default::default()
    };
    let result = runner.run(&ctx);
    let names: Vec<&str> = result.violations.iter().map(|v| v.clause_name.as_str()).collect();
    assert!(names.contains(&"max_latency_ms"), "Expected latency violation, got: {names:?}");
}
