//! The contract runner: evaluates a contract against one run, in the order
//! limits, typed assertions, `must`, `must_not`, `ensures`, and records
//! every violation with the action the contract prescribes for it.

use vstd::prelude::*;
use crate::measure::zero_rank;
use crate::models::{Assertion, AssertionType, Clause, Contract, JudgeType, OnViolation, ViolationAction};
use crate::text::{cuts_cleanly, decimal, push_decimal, str_eq, str_len, utf8_prefix, utf8_prefix_of};
use crate::validators::{cost, latency, pattern, ResultView, RunContext, ValidationResult, failed_view};
use crate::validators::pattern::described;
use crate::measure::Amount;

verus! {

/// A single contract violation record.
#[derive(Clone, Debug)]
pub struct ViolationRecord {
    pub clause_type: String,
    pub clause_name: String,
    pub clause_text: String,
    pub severity: String,
    pub action_taken: String,
    pub judge: String,
    pub details: String,
}

/// A violation record with its text fields as character sequences.
pub struct RecordView {
    pub clause_type: Seq<char>,
    pub clause_name: Seq<char>,
    pub clause_text: Seq<char>,
    pub severity: Seq<char>,
    pub action_taken: Seq<char>,
    pub judge: Seq<char>,
    pub details: Seq<char>,
}

impl View for ViolationRecord {
    type V = RecordView;

    open spec fn view(&self) -> RecordView {
        RecordView {
            clause_type: self.clause_type@,
            clause_name: self.clause_name@,
            clause_text: self.clause_text@,
            severity: self.severity@,
            action_taken: self.action_taken@,
            judge: self.judge@,
            details: self.details@,
        }
    }
}

/// The record of a violation of the clause `clause_name`, handled by
/// `action` (which is both its severity and the action taken).
pub open spec fn record_view(
    clause_type: Seq<char>,
    clause_name: Seq<char>,
    clause_text: Seq<char>,
    action: ViolationAction,
    judge: Seq<char>,
    details: Seq<char>,
) -> RecordView {
    RecordView {
        clause_type: clause_type,
        clause_name: clause_name,
        clause_text: clause_text,
        severity: action.label(),
        action_taken: action.label(),
        judge: judge,
        details: details,
    }
}

/// The views of a sequence of records.
pub open spec fn views(vs: Seq<ViolationRecord>) -> Seq<RecordView> {
    vs.map_values(|v: ViolationRecord| v@)
}

/// Whether an action name is one that stops the run: `block`, `rollback`
/// or `halt_and_alert`.
pub open spec fn is_blocking_label(s: Seq<char>) -> bool {
    s == "block"@ || s == "rollback"@ || s == "halt_and_alert"@
}

/// Whether no record in `vs` was handled by a blocking action.
pub open spec fn all_clear(vs: Seq<RecordView>) -> bool {
    forall|i: int| 0 <= i < vs.len() ==> !is_blocking_label(#[trigger] vs[i].action_taken)
}

/// The records of `vs` that were handled by a blocking action, in order.
pub open spec fn blocking_of(vs: Seq<ViolationRecord>) -> Seq<ViolationRecord>
    decreases vs.len(),
{
    if vs.len() == 0 {
        Seq::empty()
    } else {
        let rest = blocking_of(vs.drop_last());
        if is_blocking_label(vs.last().action_taken@) {
            rest.push(vs.last())
        } else {
            rest
        }
    }
}

/// Whether a record was handled by a blocking action.
pub open spec fn blocking_record() -> spec_fn(ViolationRecord) -> bool {
    |v: ViolationRecord| is_blocking_label(v.action_taken@)
}

/// `blocking_of` keeps exactly the records that `Seq::filter` keeps with
/// the blocking predicate.
pub proof fn blocking_of_is_filter(vs: Seq<ViolationRecord>)
    ensures
        blocking_of(vs) == vs.filter(blocking_record()),
    decreases vs.len(),
{
    reveal(Seq::filter);
    if vs.len() > 0 {
        blocking_of_is_filter(vs.drop_last());
    }
}

/// Whether `s` names a blocking action.
pub fn is_blocking_action(s: &str) -> (r: bool)
    ensures
        r == is_blocking_label(s@),
{
    str_eq(s, "block") || str_eq(s, "rollback") || str_eq(s, "halt_and_alert")
}

/// Result of running a contract against a run.
#[derive(Debug)]
pub struct RunResult {
    pub passed: bool,
    pub run_id: String,
    pub agent: String,
    pub contract_version: String,
    pub violations: Vec<ViolationRecord>,
}

impl RunResult {
    /// `pass` for a run that passed, `violation` otherwise.
    pub open spec fn spec_outcome(self) -> Seq<char> {
        if self.passed {
            "pass"@
        } else {
            "violation"@
        }
    }

    /// `pass` for a run that passed, `violation` otherwise.
    pub fn outcome(&self) -> (r: &str)
        ensures
            r@ == self.spec_outcome(),
    {
        if self.passed {
            "pass"
        } else {
            "violation"
        }
    }

    /// The violations handled by a blocking action, in the order they were
    /// recorded.
    pub fn blocking_violations(&self) -> (r: Vec<&ViolationRecord>)
        ensures
            r@.map_values(|v: &ViolationRecord| *v) == blocking_of(self.violations@),
            r@.map_values(|v: &ViolationRecord| *v) == self.violations@.filter(blocking_record()),
    {
        proof {
            blocking_of_is_filter(self.violations@);
        }
        let mut out: Vec<&ViolationRecord> = Vec::new();
        let n = self.violations.len();
        let mut i: usize = 0;
        while i < n
            invariant
                n == self.violations@.len(),
                i <= n,
                out@.map_values(|v: &ViolationRecord| *v) == blocking_of(
                    self.violations@.take(i as int),
                ),
            decreases n - i,
        {
            let v = &self.violations[i];
            assert(self.violations@.take(i + 1).drop_last() =~= self.violations@.take(i as int));
            if is_blocking_action(v.action_taken.as_str()) {
                out.push(v);
                assert(out@.map_values(|v: &ViolationRecord| *v) =~= blocking_of(
                    self.violations@.take(i as int),
                ).push(*v));
            }
            i = i + 1;
        }
        assert(self.violations@.take(n as int) =~= self.violations@);
        out
    }
}

/// Whether `s` is a random (version 4, RFC 4122 variant) UUID in
/// hyphenated form: 36 characters, hyphens at offsets 8, 13, 18 and 23,
/// lowercase hexadecimal digits elsewhere, the version digit `4` at offset
/// 14 and a variant digit `8`, `9`, `a` or `b` at offset 19.
pub open spec fn is_hyphenated_uuid(s: Seq<char>) -> bool {
    &&& s.len() == 36
    &&& s[14] == '4'
    &&& (s[19] == '8' || s[19] == '9' || s[19] == 'a' || s[19] == 'b')
    &&& forall|i: int|
        0 <= i < 36 ==> if i == 8 || i == 13 || i == 18 || i == 23 {
            s[i] == '-'
        } else {
            ('0' <= #[trigger] s[i] <= '9') || ('a' <= s[i] <= 'f')
        }
}

/// A fresh identifier for a run: a random (version 4) UUID from
/// `uuid::Uuid::new_v4`, rendered by its `Display` impl.
///
/// Trusted: the rendering is the hyphenated lowercase form that uuid's
/// `Display` (through `LowerHex` and `as_hyphenated`) writes, and `new_v4`
/// masks in the version and variant bits (`v4.rs`).  Which UUID comes back
/// is random, so nothing more is stated of it.
#[verifier::external_body]
fn new_run_id() -> (r: String)
    ensures
        is_hyphenated_uuid(r@),
{
    uuid::Uuid::new_v4().to_string()
}

/// The record a failed check turns into.
pub open spec fn from_result(
    clause_type: Seq<char>,
    clause_name: Seq<char>,
    action: ViolationAction,
    r: ResultView,
) -> RecordView {
    record_view(clause_type, clause_name, r.clause_text, action, r.judge, r.details)
}

/// The output's token estimate: a quarter of its length in bytes.
pub open spec fn estimated_tokens(output: Seq<char>) -> nat {
    str_len(output) / 4
}

/// The record of a latency limit violation, if the run broke it.
pub open spec fn latency_limit_records(c: Contract, ctx: RunContext) -> Seq<RecordView> {
    match c.limits.max_latency_ms {
        Some(m) => {
            let r = latency::spec_validate(ctx, m);
            if r.passed {
                Seq::empty()
            } else {
                seq![
                    from_result(
                        "limits"@,
                        "max_latency_ms"@,
                        c.on_violation.spec_action_for("max_latency_ms"@),
                        r,
                    ),
                ]
            }
        },
        None => Seq::empty(),
    }
}

/// The record of a cost limit violation, if the run broke it.
pub open spec fn cost_limit_records(c: Contract, ctx: RunContext) -> Seq<RecordView> {
    match c.limits.max_cost_usd {
        Some(m) => {
            let r = cost::spec_validate(ctx, m.rank, m.fixed4@);
            if r.passed {
                Seq::empty()
            } else {
                seq![
                    from_result(
                        "limits"@,
                        "max_cost_usd"@,
                        c.on_violation.spec_action_for("max_cost_usd"@),
                        r,
                    ),
                ]
            }
        },
        None => Seq::empty(),
    }
}

/// The record of a token limit violation, if the run broke it.
pub open spec fn token_limit_records(c: Contract, ctx: RunContext) -> Seq<RecordView> {
    match c.limits.max_tokens {
        Some(t) => {
            let est = estimated_tokens(ctx.output@);
            if est > t {
                seq![
                    record_view(
                        "limits"@,
                        "max_tokens"@,
                        "output must not exceed "@ + decimal(t as nat) + " tokens"@,
                        c.on_violation.spec_action_for("max_tokens"@),
                        "deterministic"@,
                        "Estimated "@ + decimal(est) + " tokens exceeds limit of "@ + decimal(
                            t as nat,
                        ),
                    ),
                ]
            } else {
                Seq::empty()
            }
        },
        None => Seq::empty(),
    }
}

/// The records of the limits a run broke: latency, then cost, then tokens.
pub open spec fn limit_records(c: Contract, ctx: RunContext) -> Seq<RecordView> {
    latency_limit_records(c, ctx) + cost_limit_records(c, ctx) + token_limit_records(c, ctx)
}

/// The view of an optional owned text.
pub open spec fn opt_string_view(o: Option<String>) -> Option<Seq<char>> {
    match o {
        Some(s) => Some(s@),
        None => None,
    }
}

/// The result of one typed assertion on a run.  Kinds this build does not
/// evaluate fail with a message naming the kind.
pub open spec fn assertion_result(a: Assertion, ctx: RunContext) -> ResultView {
    match a.assertion_type {
        AssertionType::Pattern => pattern::spec_validate(
            ctx.output@,
            a.name@,
            opt_string_view(a.must_not_match),
            opt_string_view(a.must_match),
            a.description@,
        ),
        AssertionType::Latency => latency::spec_validate(
            ctx,
            match a.max_ms {
                Some(m) => m,
                None => 0,
            },
        ),
        AssertionType::Cost => match a.max_usd {
            Some(m) => cost::spec_validate(ctx, m.rank, m.fixed4@),
            None => cost::spec_validate(ctx, Some(zero_rank()), "0.0000"@),
        },
        _ => failed_view(
            a.name@,
            described(a.description@, a.name@),
            "assert"@,
            "Unsupported assertion type in this build: "@ + a.assertion_type.debug_name(),
        ),
    }
}

/// The records of the typed assertions a run failed, in order.
pub open spec fn assertion_records(
    ctx: RunContext,
    ov: OnViolation,
    assertions: Seq<Assertion>,
) -> Seq<RecordView>
    decreases assertions.len(),
{
    if assertions.len() == 0 {
        Seq::empty()
    } else {
        let rest = assertion_records(ctx, ov, assertions.drop_last());
        let a = assertions.last();
        let r = assertion_result(a, ctx);
        if r.passed {
            rest
        } else {
            rest.push(
                record_view(
                    "assert"@,
                    a.name@,
                    r.clause_text,
                    ov.spec_action_for(a.name@),
                    r.judge,
                    r.details,
                ),
            )
        }
    }
}

/// The name a natural-language clause is recorded and handled under: its
/// kind, a colon, and the first 30 bytes of its text.
pub open spec fn clause_key(kind: Seq<char>, text: Seq<char>) -> Seq<char> {
    kind + ":"@ + utf8_prefix(text, 30)
}

/// The records of the natural-language clauses of one kind that this build
/// cannot judge: those annotated for an LLM judge.  Deterministically judged
/// clauses pass.
pub open spec fn clause_records(kind: Seq<char>, clauses: Seq<Clause>, ov: OnViolation) -> Seq<
    RecordView,
>
    decreases clauses.len(),
{
    if clauses.len() == 0 {
        Seq::empty()
    } else {
        let rest = clause_records(kind, clauses.drop_last(), ov);
        let c = clauses.last();
        if c.spec_judge() == JudgeType::Deterministic {
            rest
        } else {
            let key = clause_key(kind, c.spec_text());
            rest.push(
                record_view(
                    kind,
                    key,
                    c.spec_text(),
                    ov.spec_action_for(key),
                    "llm"@,
                    "LLM judge not supported in this build."@,
                ),
            )
        }
    }
}

/// Every clause annotated for an LLM judge can have its key cut from its
/// text: the cut after 30 bytes falls between characters.
pub open spec fn llm_keys_cut_cleanly(clauses: Seq<Clause>) -> bool {
    forall|i: int|
        0 <= i < clauses.len() && (#[trigger] clauses[i]).spec_judge() != JudgeType::Deterministic
            ==> cuts_cleanly(clauses[i].spec_text(), 30)
}

/// The `must`, `must_not` and `ensures` clauses of `c` can all be keyed.
pub open spec fn keys_cut_cleanly(c: Contract) -> bool {
    llm_keys_cut_cleanly(c.must@) && llm_keys_cut_cleanly(c.must_not@) && llm_keys_cut_cleanly(
        c.ensures@,
    )
}

/// Every violation of contract `c` by run `ctx`, in evaluation order:
/// limits, typed assertions, `must` clauses, `must_not` clauses, `ensures`
/// clauses.
pub open spec fn spec_violations(c: Contract, ctx: RunContext) -> Seq<RecordView> {
    limit_records(c, ctx) + assertion_records(ctx, c.on_violation, c.assert_@) + clause_records(
        "must"@,
        c.must@,
        c.on_violation,
    ) + clause_records("must_not"@, c.must_not@, c.on_violation) + clause_records(
        "ensures"@,
        c.ensures@,
        c.on_violation,
    )
}

/// The record of a failed check of clause `clause_name`.
pub fn violation_from_result(
    clause_type: &str,
    clause_name: &str,
    action: &ViolationAction,
    result: &ValidationResult,
) -> (r: ViolationRecord)
    ensures
        r@ == from_result(clause_type@, clause_name@, *action, result@),
{
    ViolationRecord {
        clause_type: String::from_str(clause_type),
        clause_name: String::from_str(clause_name),
        clause_text: result.clause_text.clone(),
        severity: action.to_string(),
        action_taken: action.to_string(),
        judge: result.judge.clone(),
        details: result.details.clone(),
    }
}

proof fn lemma_views_push(vs: Seq<ViolationRecord>, v: ViolationRecord)
    ensures
        views(vs.push(v)) == views(vs).push(v@),
{
    assert(views(vs.push(v)) =~= views(vs).push(v@));
}

/// Appends a record for every clause of `clauses` that this build cannot
/// judge.
fn push_clause_records(
    violations: &mut Vec<ViolationRecord>,
    kind: &str,
    clauses: &Vec<Clause>,
    ov: &OnViolation,
)
    requires
        llm_keys_cut_cleanly(clauses@),
    ensures
        views(final(violations)@) == views(old(violations)@) + clause_records(kind@, clauses@, *ov),
{
    let ghost start = violations@;
    let n = clauses.len();
    let mut i: usize = 0;
    assert(views(start) + clause_records(kind@, clauses@.take(0), *ov) =~= views(start));
    while i < n
        invariant
            n == clauses@.len(),
            i <= n,
            llm_keys_cut_cleanly(clauses@),
            views(violations@) == views(start) + clause_records(
                kind@,
                clauses@.take(i as int),
                *ov,
            ),
        decreases n - i,
    {
        let clause = &clauses[i];
        assert(clauses@.take(i + 1).drop_last() =~= clauses@.take(i as int));
        assert(clauses@.take(i + 1).last() == clauses@[i as int]);
        match clause.judge() {
            JudgeType::Deterministic => {},
            JudgeType::Llm => {
                let text = clause.text();
                let mut key = String::from_str(kind);
                key.append(":");
                key.append(utf8_prefix_of(text, 30));
                let action = ov.action_for(key.as_str());
                let rec = ViolationRecord {
                    clause_type: String::from_str(kind),
                    clause_name: key.clone(),
                    clause_text: String::from_str(text),
                    severity: action.to_string(),
                    action_taken: action.to_string(),
                    judge: String::from_str("llm"),
                    details: String::from_str("LLM judge not supported in this build."),
                };
                proof {
                    lemma_views_push(violations@, rec);
                }
                violations.push(rec);
            },
        }
        i = i + 1;
    }
    assert(clauses@.take(n as int) =~= clauses@);
}

/// Evaluates a contract against runs, in the order the specification sets:
/// limits, typed assertions, `must`, `must_not`, `ensures`.
pub struct ContractRunner {
    pub contract: Contract,
}

impl ContractRunner {
    /// A runner for `contract`.
    pub fn new(contract: Contract) -> (r: Self)
        ensures
            r.contract == contract,
    {
        ContractRunner { contract }
    }

    /// The records of the limits the run broke.
    fn check_limits(&self, ctx: &RunContext) -> (r: Vec<ViolationRecord>)
        ensures
            views(r@) == limit_records(self.contract, *ctx),
    {
        let mut records: Vec<ViolationRecord> = Vec::new();
        let limits = &self.contract.limits;
        let ov = &self.contract.on_violation;
        assert(views(records@) =~= Seq::empty());

        if let Some(max_ms) = limits.max_latency_ms {
            let result = latency::validate(ctx, max_ms);
            if !result.passed {
                let action = ov.action_for("max_latency_ms");
                let rec = violation_from_result("limits", "max_latency_ms", action, &result);
                proof {
                    lemma_views_push(records@, rec);
                }
                records.push(rec);
            }
        }
        assert(views(records@) =~= latency_limit_records(self.contract, *ctx));

        if let Some(max_usd) = &limits.max_cost_usd {
            let result = cost::validate(ctx, max_usd);
            if !result.passed {
                let action = ov.action_for("max_cost_usd");
                let rec = violation_from_result("limits", "max_cost_usd", action, &result);
                proof {
                    lemma_views_push(records@, rec);
                }
                records.push(rec);
            }
        }
        assert(views(records@) =~= latency_limit_records(self.contract, *ctx)
            + cost_limit_records(self.contract, *ctx));

        if let Some(max_tokens) = limits.max_tokens {
            let estimated = ctx.output.as_str().len() as u64 / 4;
            if estimated > max_tokens {
                let action = ov.action_for("max_tokens");
                let mut text = String::from_str("output must not exceed ");
                push_decimal(&mut text, max_tokens);
                text.append(" tokens");
                let mut details = String::from_str("Estimated ");
                push_decimal(&mut details, estimated);
                details.append(" tokens exceeds limit of ");
                push_decimal(&mut details, max_tokens);
                let rec = ViolationRecord {
                    clause_type: String::from_str("limits"),
                    clause_name: String::from_str("max_tokens"),
                    clause_text: text,
                    severity: action.to_string(),
                    action_taken: action.to_string(),
                    judge: String::from_str("deterministic"),
                    details,
                };
                proof {
                    lemma_views_push(records@, rec);
                }
                records.push(rec);
            }
        }
        assert(views(records@) =~= limit_records(self.contract, *ctx));
        records
    }

    /// Runs one typed assertion against the run.
    fn run_assertion(&self, assertion: &Assertion, ctx: &RunContext) -> (r: ValidationResult)
        ensures
            r@ == assertion_result(*assertion, *ctx),
    {
        match assertion.assertion_type {
            AssertionType::Pattern => {
                let must_not = match &assertion.must_not_match {
                    Some(s) => Some(s.as_str()),
                    None => None,
                };
                let must = match &assertion.must_match {
                    Some(s) => Some(s.as_str()),
                    None => None,
                };
                pattern::validate(
                    ctx,
                    assertion.name.as_str(),
                    must_not,
                    must,
                    assertion.description.as_str(),
                )
            },
            AssertionType::Latency => {
                let max_ms = match assertion.max_ms {
                    Some(m) => m,
                    None => 0,
                };
                latency::validate(ctx, max_ms)
            },
            AssertionType::Cost => {
                match &assertion.max_usd {
                    Some(m) => cost::validate(ctx, m),
                    None => {
                        let zero = Amount::zero();
                        cost::validate(ctx, &zero)
                    },
                }
            },
            _ => {
                let text = if assertion.description.as_str().is_empty() {
                    assertion.name.clone()
                } else {
                    assertion.description.clone()
                };
                let mut details = String::from_str("Unsupported assertion type in this build: ");
                details.append(assertion.assertion_type.debug_string().as_str());
                ValidationResult {
                    passed: false,
                    clause_name: assertion.name.clone(),
                    clause_text: text,
                    clause_type: String::from_str("assert"),
                    judge: String::from_str("deterministic"),
                    details,
                }
            },
        }
    }

    /// Evaluates the contract against `ctx`, recording the result under
    /// `run_id`.
    pub fn run_with_id(&self, ctx: &RunContext, run_id: String) -> (r: RunResult)
        requires
            keys_cut_cleanly(self.contract),
        ensures
            views(r.violations@) == spec_violations(self.contract, *ctx),
            r.passed == all_clear(views(r.violations@)),
            r.run_id == run_id,
            r.agent@ == self.contract.agent@,
            r.contract_version@ == self.contract.version@,
            forall|i: int|
                0 <= i < r.violations@.len() ==> (#[trigger] r.violations@[i]).action_taken@
                    == self.contract.on_violation.spec_action_for(
                    r.violations@[i].clause_name@,
                ).label() && r.violations@[i].severity@ == r.violations@[i].action_taken@,
    {
        let c = &self.contract;
        let ov = &c.on_violation;

        // 1. Limits
        let mut violations = self.check_limits(ctx);

        // 2. Typed assertions
        let n = c.assert_.len();
        let mut i: usize = 0;
        assert(assertion_records(*ctx, *ov, c.assert_@.take(0)) =~= Seq::empty());
        assert(views(violations@) =~= limit_records(*c, *ctx) + assertion_records(
            *ctx,
            *ov,
            c.assert_@.take(0),
        ));
        while i < n
            invariant
                n == c.assert_@.len(),
                i <= n,
                c == &self.contract,
                ov == &c.on_violation,
                views(violations@) == limit_records(*c, *ctx) + assertion_records(
                    *ctx,
                    *ov,
                    c.assert_@.take(i as int),
                ),
            decreases n - i,
        {
            let assertion = &c.assert_[i];
            assert(c.assert_@.take(i + 1).drop_last() =~= c.assert_@.take(i as int));
            assert(c.assert_@.take(i + 1).last() == c.assert_@[i as int]);
            let result = self.run_assertion(assertion, ctx);
            if !result.passed {
                let action = ov.action_for(assertion.name.as_str());
                let rec = ViolationRecord {
                    clause_type: String::from_str("assert"),
                    clause_name: assertion.name.clone(),
                    clause_text: result.clause_text.clone(),
                    severity: action.to_string(),
                    action_taken: action.to_string(),
                    judge: result.judge.clone(),
                    details: result.details.clone(),
                };
                proof {
                    lemma_views_push(violations@, rec);
                }
                violations.push(rec);
            }
            i = i + 1;
        }
        assert(c.assert_@.take(n as int) =~= c.assert_@);

        // 3. must, 4. must_not, 5. ensures
        push_clause_records(&mut violations, "must", &c.must, ov);
        push_clause_records(&mut violations, "must_not", &c.must_not, ov);
        push_clause_records(&mut violations, "ensures", &c.ensures, ov);
        assert(views(violations@) =~= spec_violations(*c, *ctx));

        // A run passes when no violation is handled by a blocking action.
        let m = violations.len();
        let mut passed = true;
        let mut j: usize = 0;
        while j < m
            invariant
                m == violations@.len(),
                j <= m,
                passed == (forall|k: int|
                    0 <= k < j ==> !is_blocking_label(#[trigger] violations@[k].action_taken@)),
            decreases m - j,
        {
            let blocking = is_blocking_action(violations[j].action_taken.as_str());
            passed = passed && !blocking;
            j = j + 1;
        }
        proof {
            let vs = views(violations@);
            crate::laws::violations_handled_as_prescribed(*c, *ctx);
            assert forall|k: int| 0 <= k < violations@.len() implies (
            #[trigger] violations@[k]).action_taken@ == c.on_violation.spec_action_for(
                violations@[k].clause_name@,
            ).label() && violations@[k].severity@ == violations@[k].action_taken@ by {
                assert(vs[k] == violations@[k]@);
            }
            if passed {
                assert forall|k: int| 0 <= k < vs.len() implies !is_blocking_label(
                    #[trigger] vs[k].action_taken,
                ) by {
                    assert(vs[k].action_taken == violations@[k].action_taken@);
                }
            } else {
                let k = choose|k: int|
                    0 <= k < m && is_blocking_label(#[trigger] violations@[k].action_taken@);
                assert(vs[k].action_taken == violations@[k].action_taken@);
            }
        }

        RunResult {
            passed,
            run_id,
            agent: c.agent.clone(),
            contract_version: c.version.clone(),
            violations,
        }
    }

    /// Evaluates the contract against `ctx` under a fresh random run id.
    pub fn run(&self, ctx: &RunContext) -> (r: RunResult)
        requires
            keys_cut_cleanly(self.contract),
        ensures
            views(r.violations@) == spec_violations(self.contract, *ctx),
            r.passed == all_clear(views(r.violations@)),
            is_hyphenated_uuid(r.run_id@),
            r.agent@ == self.contract.agent@,
            r.contract_version@ == self.contract.version@,
            forall|i: int|
                0 <= i < r.violations@.len() ==> (#[trigger] r.violations@[i]).action_taken@
                    == self.contract.on_violation.spec_action_for(
                    r.violations@[i].clause_name@,
                ).label() && r.violations@[i].severity@ == r.violations@[i].action_taken@,
    {
        let run_id = new_run_id();
        self.run_with_id(ctx, run_id)
    }
}

} // verus!
