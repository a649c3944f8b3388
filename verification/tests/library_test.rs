//! Tests of the validators, the runner's records, the audit line and the
//! small helpers, on concrete values.

use agentcontract::audit::AuditWriter;
use agentcontract::errors::{ContractError, ContractViolation};
use agentcontract::measure::{f64_value, Amount, Millis};
use agentcontract::models::{
    Assertion, AssertionType, Clause, ClauseObject, Contract, JudgeType, Limits, OnViolation,
    ViolationAction,
};
use agentcontract::runner::{violation_from_result, ContractRunner, RunResult, ViolationRecord};
use agentcontract::validators::{cost, latency, pattern, RunContext, ValidationResult};
use sha2::Digest;

/// The amount standing for `x`, ranked as `f64` values are ordered.
fn amount(x: f64) -> Amount {
    let rank = if x.is_nan() {
        None
    } else {
        let x = if x == 0.0 { 0.0f64 } else { x };
        let bits = x.to_bits();
        Some(if bits >> 63 == 0 { bits | (1u64 << 63) } else { !bits })
    };
    Amount { rank, fixed4: format!("{:.4}", x), fixed6: format!("{:.6}", x) }
}

fn ctx_with_output(output: &str) -> RunContext {
    RunContext { output: output.into(), ..Default::default() }
}

fn empty_contract() -> Contract {
    Contract {
        agent: "agent-x".into(),
        spec_version: "0.1.0".into(),
        version: "2.0.0".into(),
        description: String::new(),
        author: String::new(),
        tags: Vec::new(),
        must: Vec::new(),
        must_not: Vec::new(),
        can: Vec::new(),
        ensures: Vec::new(),
        invariant: Vec::new(),
        assert_: Vec::new(),
        limits: Limits::default(),
        on_violation: OnViolation::default(),
    }
}

fn assertion(name: &str, kind: AssertionType) -> Assertion {
    Assertion {
        name: name.into(),
        assertion_type: kind,
        description: String::new(),
        must_not_match: None,
        must_match: None,
        max_usd: None,
        max_ms: None,
        prompt: None,
        pass_when: None,
        model: None,
    }
}

fn llm_clause(text: &str) -> Clause {
    Clause::Object(ClauseObject { text: text.into(), judge: JudgeType::Llm, description: String::new() })
}

#[test]
fn forbidden_pattern_reports_position_and_match() {
    let ctx = ctx_with_output("Processed by employee SSN 123-45-6789 on 2024-01-15.");
    let r = pattern::validate(&ctx, "no_pii", Some(r"\b\d{3}-\d{2}-\d{4}\b"), None, "No SSNs");
    assert!(!r.passed);
    assert_eq!(r.clause_name, "no_pii");
    assert_eq!(r.clause_text, "No SSNs");
    assert_eq!(r.clause_type, "assert");
    assert_eq!(r.judge, "deterministic");
    assert_eq!(r.details, "Forbidden pattern found at position 26: '123-45-6789'");
}

#[test]
fn forbidden_pattern_position_is_in_bytes() {
    let ctx = ctx_with_output("é 123-45-6789");
    let r = pattern::validate(&ctx, "n", Some(r"\d{3}-\d{2}-\d{4}"), None, "");
    assert_eq!(r.details, "Forbidden pattern found at position 3: '123-45-6789'");
    assert_eq!(r.clause_text, r"must_not_match: \d{3}-\d{2}-\d{4}");
}

#[test]
fn forbidden_pattern_snippet_is_cut_at_fifty_characters() {
    let output = "ä".repeat(60);
    let ctx = ctx_with_output(&output);
    let r = pattern::validate(&ctx, "n", Some("ä+"), None, "d");
    assert_eq!(r.details, format!("Forbidden pattern found at position 0: '{}'", "ä".repeat(50)));
}

#[test]
fn required_pattern_missing_fails() {
    let ctx = ctx_with_output("hello");
    let r = pattern::validate(&ctx, "greets", None, Some("^Dear"), "");
    assert!(!r.passed);
    assert_eq!(r.clause_text, "must_match: ^Dear");
    assert_eq!(r.details, "Required pattern not found in output.");
}

#[test]
fn required_pattern_present_passes() {
    let ctx = ctx_with_output("Dear user");
    let r = pattern::validate(&ctx, "greets", Some("password"), Some("^Dear"), "");
    assert!(r.passed);
    assert_eq!(r.clause_text, "greets");
    assert_eq!(r.details, "");
    let r = pattern::validate(&ctx, "greets", None, None, "Says hello");
    assert!(r.passed);
    assert_eq!(r.clause_text, "Says hello");
}

#[test]
fn invalid_pattern_reports_the_compiler_message() {
    let ctx = ctx_with_output("text");
    let expected = format!("Invalid regex: {}", regex::Regex::new("(").unwrap_err());
    let r = pattern::validate(&ctx, "bad", Some("("), None, "");
    assert!(!r.passed);
    assert_eq!(r.clause_text, "");
    assert_eq!(r.details, expected);
    let r = pattern::validate(&ctx, "bad", None, Some("("), "desc");
    assert_eq!(r.clause_text, "desc");
    assert_eq!(r.details, expected);
}

#[test]
fn latency_validator_texts() {
    let mut ctx = RunContext::default();
    ctx.duration_ms = Millis::from_whole_ms(45000);
    let r = latency::validate(&ctx, 30000);
    assert!(!r.passed);
    assert_eq!(r.clause_name, "latency");
    assert_eq!(r.clause_text, "latency must not exceed 30000ms");
    assert_eq!(r.clause_type, "limits");
    assert_eq!(r.details, "Response took 45000ms, limit is 30000ms");
    ctx.duration_ms = Millis::from_whole_ms(30000);
    let r = latency::validate(&ctx, 30000);
    assert!(r.passed);
    assert_eq!(r.details, "");
}

#[test]
fn latency_fraction_above_bound_fails() {
    // 30000.2 ms: its ceiling is 30001, and it is shown rounded.
    let mut ctx = RunContext::default();
    ctx.duration_ms = Millis { ceil: 30001, shown: "30000".into() };
    let r = latency::validate(&ctx, 30000);
    assert!(!r.passed);
    assert_eq!(r.details, "Response took 30000ms, limit is 30000ms");
}

#[test]
fn cost_validator_texts() {
    let mut ctx = RunContext::default();
    ctx.cost_usd = amount(0.002);
    let r = cost::validate(&ctx, &amount(0.001));
    assert!(!r.passed);
    assert_eq!(r.clause_name, "cost");
    assert_eq!(r.clause_text, "cost must not exceed $0.0010 USD");
    assert_eq!(r.details, "Run cost $0.002000 exceeds limit of $0.0010");
    let r = cost::validate(&ctx, &amount(0.002));
    assert!(r.passed);
    let r = cost::validate(&ctx, &amount(0.1));
    assert!(r.passed);
    ctx.cost_usd = amount(f64::NAN);
    assert!(cost::validate(&ctx, &amount(0.0)).passed);
    ctx.cost_usd = amount(-1.0);
    assert!(cost::validate(&ctx, &amount(-2.0)).passed == false);
    assert!(cost::validate(&ctx, &amount(0.0)).passed);
}

#[test]
fn amount_ordering() {
    assert!(amount(1.5).exceeds(&amount(1.25)));
    assert!(!amount(1.25).exceeds(&amount(1.5)));
    assert!(!amount(-0.0).exceeds(&amount(0.0)));
    assert!(amount(0.0).exceeds(&amount(-0.5)));
    assert!(!amount(f64::NAN).exceeds(&amount(0.0)));
    let zero = Amount::zero();
    assert_eq!(zero.fixed4, "0.0000");
    assert_eq!(zero.fixed6, "0.000000");
    assert_eq!(zero.rank, amount(0.0).rank);
}

#[test]
fn token_limit_record() {
    let mut c = empty_contract();
    c.limits.max_tokens = Some(4);
    let runner = ContractRunner::new(c);
    let r = runner.run(&ctx_with_output("twenty bytes here!!!"));
    assert!(!r.passed);
    assert_eq!(r.violations.len(), 1);
    let v = &r.violations[0];
    assert_eq!(v.clause_type, "limits");
    assert_eq!(v.clause_name, "max_tokens");
    assert_eq!(v.clause_text, "output must not exceed 4 tokens");
    assert_eq!(v.judge, "deterministic");
    assert_eq!(v.details, "Estimated 5 tokens exceeds limit of 4");
    assert_eq!(v.severity, "block");
    let r = runner.run(&ctx_with_output("nineteen bytes here"));
    assert!(r.passed);
    assert!(r.violations.is_empty());
}

#[test]
fn cost_and_latency_limits_records_in_order() {
    let mut c = empty_contract();
    c.limits.max_latency_ms = Some(100);
    c.limits.max_cost_usd = Some(amount(0.01));
    c.limits.max_tokens = Some(0);
    let runner = ContractRunner::new(c);
    let mut ctx = ctx_with_output("abcd");
    ctx.duration_ms = Millis::from_whole_ms(101);
    ctx.cost_usd = amount(0.5);
    let r = runner.run(&ctx);
    let names: Vec<&str> = r.violations.iter().map(|v| v.clause_name.as_str()).collect();
    assert_eq!(names, vec!["max_latency_ms", "max_cost_usd", "max_tokens"]);
    assert_eq!(r.violations[1].clause_text, "cost must not exceed $0.0100 USD");
    assert_eq!(r.violations[1].details, "Run cost $0.500000 exceeds limit of $0.0100");
    assert_eq!(r.violations[0].details, "Response took 101ms, limit is 100ms");
}

#[test]
fn llm_clauses_are_recorded_under_a_cut_key() {
    let mut c = empty_contract();
    c.must = vec![
        Clause::Simple("Cite the regulation for every requirement".into()),
        llm_clause("Answer only from the approved knowledge base, always"),
    ];
    c.must_not = vec![llm_clause("Give legal advice")];
    let runner = ContractRunner::new(c);
    let r = runner.run(&RunContext::default());
    assert_eq!(r.violations.len(), 2);
    let v = &r.violations[0];
    assert_eq!(v.clause_type, "must");
    assert_eq!(v.clause_name, "must:Answer only from the approved ");
    assert_eq!(v.clause_text, "Answer only from the approved knowledge base, always");
    assert_eq!(v.judge, "llm");
    assert_eq!(v.details, "LLM judge not supported in this build.");
    assert_eq!(v.action_taken, "block");
    let v = &r.violations[1];
    assert_eq!(v.clause_type, "must_not");
    assert_eq!(v.clause_name, "must_not:Give legal advice");
    assert!(!r.passed);
}

#[test]
fn overrides_choose_the_action() {
    let mut c = empty_contract();
    c.must = vec![llm_clause("Be kind")];
    c.on_violation = OnViolation::new(ViolationAction::Block);
    c.on_violation.insert("must:Be kind".into(), ViolationAction::Warn);
    let runner = ContractRunner::new(c);
    let r = runner.run(&RunContext::default());
    assert_eq!(r.violations.len(), 1);
    assert_eq!(r.violations[0].action_taken, "warn");
    assert_eq!(r.violations[0].severity, "warn");
    assert!(r.passed);
    assert!(r.blocking_violations().is_empty());
    assert_eq!(r.outcome(), "pass");
}

#[test]
fn action_for_prefers_override() {
    let mut ov = OnViolation::new(ViolationAction::Rollback);
    ov.insert("a".into(), ViolationAction::Warn);
    ov.insert("b".into(), ViolationAction::HaltAndAlert);
    assert_eq!(*ov.action_for("a"), ViolationAction::Warn);
    assert_eq!(*ov.action_for("b"), ViolationAction::HaltAndAlert);
    assert_eq!(*ov.action_for("c"), ViolationAction::Rollback);
    assert_eq!(*OnViolation::default().action_for("a"), ViolationAction::Block);
}

#[test]
fn every_blocking_action_fails_the_run() {
    for (action, blocks) in [
        (ViolationAction::Warn, false),
        (ViolationAction::Block, true),
        (ViolationAction::Rollback, true),
        (ViolationAction::HaltAndAlert, true),
    ] {
        let mut c = empty_contract();
        c.limits.max_latency_ms = Some(0);
        c.on_violation.set_default(action);
        let runner = ContractRunner::new(c);
        let mut ctx = RunContext::default();
        ctx.duration_ms = Millis::from_whole_ms(1);
        let r = runner.run(&ctx);
        assert_eq!(r.passed, !blocks);
        assert_eq!(r.blocking_violations().len(), if blocks { 1 } else { 0 });
        assert_eq!(r.outcome(), if blocks { "violation" } else { "pass" });
    }
}

#[test]
fn assertion_kinds() {
    let mut c = empty_contract();
    let mut lat = assertion("fast", AssertionType::Latency);
    lat.max_ms = Some(10);
    let cost_default = assertion("free", AssertionType::Cost);
    let mut schema = assertion("shape", AssertionType::Schema);
    schema.description = "Output is JSON".into();
    let custom = assertion("mine", AssertionType::Custom);
    c.assert_ = vec![lat, cost_default, schema, custom];
    let runner = ContractRunner::new(c);
    let mut ctx = RunContext::default();
    ctx.duration_ms = Millis::from_whole_ms(11);
    ctx.cost_usd = amount(0.0001);
    let r = runner.run(&ctx);
    assert_eq!(r.violations.len(), 4);
    assert_eq!(r.violations[0].clause_type, "assert");
    assert_eq!(r.violations[0].clause_name, "fast");
    assert_eq!(r.violations[0].clause_text, "latency must not exceed 10ms");
    assert_eq!(r.violations[1].clause_name, "free");
    assert_eq!(r.violations[1].clause_text, "cost must not exceed $0.0000 USD");
    assert_eq!(r.violations[1].details, "Run cost $0.000100 exceeds limit of $0.0000");
    assert_eq!(r.violations[2].clause_text, "Output is JSON");
    assert_eq!(r.violations[2].details, "Unsupported assertion type in this build: Schema");
    assert_eq!(r.violations[3].clause_text, "mine");
    assert_eq!(r.violations[3].details, "Unsupported assertion type in this build: Custom");
}

#[test]
fn latency_assertion_without_bound_means_zero() {
    let mut c = empty_contract();
    c.assert_ = vec![assertion("instant", AssertionType::Latency)];
    let runner = ContractRunner::new(c);
    let r = runner.run(&RunContext::default());
    assert!(r.passed);
    let mut ctx = RunContext::default();
    ctx.duration_ms = Millis::from_whole_ms(1);
    let r = runner.run(&ctx);
    assert_eq!(r.violations[0].details, "Response took 1ms, limit is 0ms");
}

#[test]
fn evaluation_order_limits_assert_must_must_not() {
    let mut c = empty_contract();
    c.limits.max_latency_ms = Some(0);
    c.assert_ = vec![assertion("x", AssertionType::Llm)];
    c.must = vec![llm_clause("m")];
    c.must_not = vec![llm_clause("n")];
    let runner = ContractRunner::new(c);
    let mut ctx = RunContext::default();
    ctx.duration_ms = Millis::from_whole_ms(5);
    let r = runner.run(&ctx);
    let kinds: Vec<&str> = r.violations.iter().map(|v| v.clause_type.as_str()).collect();
    assert_eq!(kinds, vec!["limits", "assert", "must", "must_not"]);
    assert_eq!(r.violations[1].details, "Unsupported assertion type in this build: Llm");
}

#[test]
fn unconstrained_contract_passes_any_run() {
    let mut c = empty_contract();
    c.must = vec![Clause::Simple("Be accurate".into())];
    c.must_not = vec![Clause::Object(ClauseObject {
        text: "Be rude".into(),
        judge: JudgeType::Deterministic,
        description: String::new(),
    })];
    let runner = ContractRunner::new(c);
    let mut ctx = ctx_with_output("anything at all");
    ctx.duration_ms = Millis::from_whole_ms(1_000_000);
    let r = runner.run(&ctx);
    assert!(r.passed);
    assert!(r.violations.is_empty());
    assert_eq!(r.agent, "agent-x");
    assert_eq!(r.contract_version, "2.0.0");
}

#[test]
fn run_ids_are_hyphenated_uuids() {
    let runner = ContractRunner::new(empty_contract());
    let a = runner.run(&RunContext::default());
    let b = runner.run(&RunContext::default());
    for id in [&a.run_id, &b.run_id] {
        assert_eq!(id.len(), 36);
        for (i, ch) in id.chars().enumerate() {
            if [8, 13, 18, 23].contains(&i) {
                assert_eq!(ch, '-');
            } else {
                assert!(ch.is_ascii_digit() || ('a'..='f').contains(&ch));
            }
        }
    }
    assert_ne!(a.run_id, b.run_id);
    let c = runner.run_with_id(&RunContext::default(), "fixed".into());
    assert_eq!(c.run_id, "fixed");
}

#[test]
fn clause_accessors() {
    let s = Clause::Simple("plain".into());
    assert_eq!(s.text(), "plain");
    assert_eq!(*s.judge(), JudgeType::Deterministic);
    let o = llm_clause("judged");
    assert_eq!(o.text(), "judged");
    assert_eq!(*o.judge(), JudgeType::Llm);
    assert_eq!(JudgeType::default(), JudgeType::Deterministic);
    assert_eq!(ViolationAction::default(), ViolationAction::Block);
}

#[test]
fn action_names() {
    assert_eq!(ViolationAction::Warn.to_string(), "warn");
    assert_eq!(ViolationAction::Block.to_string(), "block");
    assert_eq!(ViolationAction::Rollback.to_string(), "rollback");
    assert_eq!(ViolationAction::HaltAndAlert.to_string(), "halt_and_alert");
    assert_eq!(AssertionType::Pattern.debug_string(), format!("{:?}", AssertionType::Pattern));
}

#[test]
fn validation_result_constructors() {
    let p = ValidationResult::pass("n", "t", "assert");
    assert!(p.passed);
    assert_eq!((p.clause_name.as_str(), p.clause_text.as_str(), p.clause_type.as_str()), ("n", "t", "assert"));
    assert_eq!(p.judge, "deterministic");
    assert_eq!(p.details, "");
    let f = ValidationResult::fail("n", "t", "limits", "why");
    assert!(!f.passed);
    assert_eq!(f.details, "why");
    assert_eq!(f.judge, "deterministic");
    let v = violation_from_result("limits", "max_cost_usd", &ViolationAction::HaltAndAlert, &f);
    assert_eq!(v.clause_type, "limits");
    assert_eq!(v.clause_name, "max_cost_usd");
    assert_eq!(v.clause_text, "t");
    assert_eq!(v.severity, "halt_and_alert");
    assert_eq!(v.action_taken, "halt_and_alert");
    assert_eq!(v.details, "why");
}

#[test]
fn run_context_default_and_millis() {
    let ctx = RunContext::default();
    assert_eq!(ctx.input, "");
    assert_eq!(ctx.output, "");
    assert_eq!(ctx.duration_ms.ceil, 0);
    assert_eq!(ctx.duration_ms.shown, "0");
    assert_eq!(ctx.cost_usd.fixed6, "0.000000");
    assert_eq!(ctx.steps, 0);
    assert_eq!(Millis::from_whole_ms(1234567890).shown, "1234567890");
    assert_eq!(Millis::from_whole_ms(u64::MAX).shown, u64::MAX.to_string());
}

#[test]
fn limits_count() {
    let mut l = Limits::default();
    assert_eq!(l.checked_count(), 0);
    l.max_latency_ms = Some(1);
    l.max_tokens = Some(2);
    l.max_steps = Some(3);
    assert_eq!(l.checked_count(), 2);
    l.max_cost_usd = Some(amount(0.1));
    assert_eq!(l.checked_count(), 3);
}

#[test]
fn error_messages() {
    assert_eq!(
        ContractError::LoadError("Cannot read x".into()).to_string(),
        "Failed to load contract: Cannot read x"
    );
    assert_eq!(
        ContractError::ValidationError("bad".into()).to_string(),
        "Contract validation error: bad"
    );
    let v = ContractViolation { message: "blocked".into(), violations: vec!["a".into()] };
    assert_eq!(v.to_string(), "ContractViolation: blocked");
}

fn sample_result() -> RunResult {
    RunResult {
        passed: false,
        run_id: "id-1".into(),
        agent: "my-agent".into(),
        contract_version: "1.0.0".into(),
        violations: vec![ViolationRecord {
            clause_type: "assert".into(),
            clause_name: "no_pii".into(),
            clause_text: "say \"no\"\n\ttab\u{1}".into(),
            severity: "block".into(),
            action_taken: "block".into(),
            judge: "deterministic".into(),
            details: "é/\\".into(),
        }],
    }
}

#[test]
fn audit_line_is_signed_sorted_json() {
    let result = sample_result();
    let line = AuditWriter::entry_line(&result, "c.yaml", "2026-03-22T10:00:00Z");
    let line = String::from_utf8(line).unwrap();
    let violation = r#"{"action_taken":"block","clause_name":"no_pii","clause_text":"say \"no\"\n\ttab\u0001","clause_type":"assert","details":"é/\\"}"#;
    let unsigned = format!(
        r#"{{"agent":"my-agent","contract_path":"c.yaml","contract_version":"1.0.0","outcome":"violation","passed":false,"run_id":"id-1","timestamp":"2026-03-22T10:00:00Z","violations":[{violation}]}}"#
    );
    let hash = hex::encode(sha2::Sha256::digest(unsigned.as_bytes()));
    let signed = format!(
        r#"{{"agent":"my-agent","contract_path":"c.yaml","contract_version":"1.0.0","entry_sha256":"{hash}","outcome":"violation","passed":false,"run_id":"id-1","timestamp":"2026-03-22T10:00:00Z","violations":[{violation}]}}"#
    );
    assert_eq!(line, signed);
    // The same bytes as serde_json writes for the parsed entry.
    let parsed: serde_json::Value = serde_json::from_str(&line).unwrap();
    assert_eq!(serde_json::to_string(&parsed).unwrap(), line);
    let mut stripped = parsed.clone();
    stripped.as_object_mut().unwrap().remove("entry_sha256");
    assert_eq!(serde_json::to_string(&stripped).unwrap(), unsigned);
}

#[test]
fn audit_line_with_no_violations_and_clock() {
    let mut result = sample_result();
    result.passed = true;
    result.violations.clear();
    let w = AuditWriter::new("logs/audit.jsonl");
    assert_eq!(w.path(), "logs/audit.jsonl");
    let line = String::from_utf8(w.line(&result, "c.json")).unwrap();
    let parsed: serde_json::Value = serde_json::from_str(&line).unwrap();
    assert_eq!(parsed["outcome"], "pass");
    assert_eq!(parsed["passed"], true);
    assert_eq!(parsed["violations"].as_array().unwrap().len(), 0);
    assert!(parsed["timestamp"].as_str().unwrap().len() > 0);
    let hash = parsed["entry_sha256"].as_str().unwrap();
    assert_eq!(hash.len(), 64);
    let mut stripped = parsed.clone();
    stripped.as_object_mut().unwrap().remove("entry_sha256");
    let unsigned = serde_json::to_string(&stripped).unwrap();
    assert_eq!(hex::encode(sha2::Sha256::digest(unsigned.as_bytes())), hash);
}

#[test]
fn ensures_clauses_are_evaluated_last() {
    let mut c = empty_contract();
    c.must_not = vec![llm_clause("Leak data")];
    c.ensures = vec![
        Clause::Simple("Response is polite".into()),
        llm_clause("Output is consistent with the cited regulation text"),
    ];
    let runner = ContractRunner::new(c);
    let r = runner.run(&RunContext::default());
    assert_eq!(r.violations.len(), 2);
    assert_eq!(r.violations[0].clause_type, "must_not");
    let v = &r.violations[1];
    assert_eq!(v.clause_type, "ensures");
    assert_eq!(v.clause_name, "ensures:Output is consistent with the ");
    assert_eq!(v.clause_text, "Output is consistent with the cited regulation text");
    assert_eq!(v.judge, "llm");
    assert_eq!(v.details, "LLM judge not supported in this build.");
    assert!(!r.passed);
}

#[test]
fn ensures_clause_uses_its_own_override() {
    let mut c = empty_contract();
    c.ensures = vec![llm_clause("Cites sources")];
    c.on_violation.insert("ensures:Cites sources".into(), ViolationAction::Warn);
    let r = ContractRunner::new(c).run(&RunContext::default());
    assert_eq!(r.violations.len(), 1);
    assert_eq!(r.violations[0].action_taken, "warn");
    assert!(r.passed);
}

#[test]
fn whole_number_as_f64_matches_the_cast() {
    let mut values: Vec<u64> = vec![0, 1, 30000, (1 << 53) - 1, 1 << 53, (1 << 53) + 1, (1 << 53) + 2,
        (1 << 53) + 3, (1 << 54) + 1, (1 << 54) + 2, (1 << 54) + 6, u64::MAX, u64::MAX - 1024,
        u64::MAX - 1025, (1 << 63) + 1024, (1 << 63) + 1023, (1 << 63) + 3072];
    let mut x: u64 = 0x9e37_79b9_7f4a_7c15;
    for _ in 0..2000 {
        x ^= x << 13;
        x ^= x >> 7;
        x ^= x << 17;
        values.push(x);
        values.push(x >> (x % 60));
    }
    for m in values {
        assert_eq!(f64_value(m), (m as f64) as u128, "m = {m}");
    }
}

#[test]
fn latency_bound_beyond_exact_integers() {
    // 2^53 + 3 ms becomes 2^53 + 4 as an f64, so a duration of 2^53 + 4
    // does not exceed it.
    let bound: u64 = (1 << 53) + 3;
    let mut ctx = RunContext::default();
    ctx.duration_ms = Millis { ceil: (1u128 << 53) + 4, shown: "9007199254740996".into() };
    assert!(latency::validate(&ctx, bound).passed);
    // u64::MAX becomes 2^64; a duration of 2^65 exceeds it.
    ctx.duration_ms = Millis { ceil: 1u128 << 65, shown: "36893488147419103232".into() };
    assert!(!latency::validate(&ctx, u64::MAX).passed);
    ctx.duration_ms = Millis { ceil: 1u128 << 64, shown: "18446744073709551616".into() };
    assert!(latency::validate(&ctx, u64::MAX).passed);
}

#[test]
fn run_id_has_version_and_variant() {
    let r = ContractRunner::new(empty_contract()).run(&RunContext::default());
    let chars: Vec<char> = r.run_id.chars().collect();
    assert_eq!(chars[14], '4');
    assert!(['8', '9', 'a', 'b'].contains(&chars[19]));
}

#[test]
fn audit_timestamp_is_rfc3339_utc() {
    let result = sample_result();
    let line = String::from_utf8(AuditWriter::new("a.jsonl").line(&result, "c")).unwrap();
    let parsed: serde_json::Value = serde_json::from_str(&line).unwrap();
    let ts = parsed["timestamp"].as_str().unwrap();
    assert!(ts.ends_with("+00:00"), "{ts}");
    let b = ts.as_bytes();
    assert_eq!(b[4], b'-');
    assert_eq!(b[7], b'-');
    assert_eq!(b[10], b'T');
    assert_eq!(b[13], b':');
    assert_eq!(b[16], b':');
    let frac = &ts[19..ts.len() - 6];
    assert!(frac.is_empty() || [4, 7, 10].contains(&frac.len()) && frac.starts_with('.'), "{ts}");
}

#[test]
fn match_results_after_the_search() {
    let r = pattern::forbidden_found("n", "x+", "", 7, "xxx");
    assert_eq!(r.clause_text, "must_not_match: x+");
    assert_eq!(r.details, "Forbidden pattern found at position 7: 'xxx'");
    let r = pattern::forbidden_found("n", "x+", "No x", 0, &"x".repeat(80));
    assert_eq!(r.clause_text, "No x");
    assert_eq!(r.details, format!("Forbidden pattern found at position 0: '{}'", "x".repeat(50)));
    let r = pattern::required_missing("n", "^y", "");
    assert_eq!(r.clause_text, "must_match: ^y");
    assert_eq!(r.details, "Required pattern not found in output.");
    let r = pattern::invalid_regex("n", "d", "boom");
    assert_eq!(r.clause_text, "d");
    assert_eq!(r.details, "Invalid regex: boom");
}

#[test]
fn overrides_insert_replaces() {
    let mut ov = OnViolation::new(ViolationAction::Warn);
    ov.insert("x".into(), ViolationAction::Block);
    ov.insert("x".into(), ViolationAction::Rollback);
    ov.insert("y".into(), ViolationAction::Block);
    assert_eq!(ov.overrides().len(), 2);
    assert_eq!(*ov.action_for("x"), ViolationAction::Rollback);
    assert_eq!(*ov.action_for("y"), ViolationAction::Block);
    assert_eq!(*ov.action_for("z"), ViolationAction::Warn);
    let copy = ov.clone();
    assert_eq!(*copy.action_for("x"), ViolationAction::Rollback);
    assert_eq!(copy.default_action(), ViolationAction::Warn);
}
