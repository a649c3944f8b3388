//! Validators (pattern, latency, cost) and what they share: the run being
//! judged and the result of one check.

pub mod cost;
pub mod latency;
pub mod pattern;

use vstd::prelude::*;
use crate::measure::{Amount, Millis};

verus! {

/// Everything a validator knows about a single agent run.
#[derive(Clone, Debug)]
pub struct RunContext {
    pub input: String,
    pub output: String,
    pub duration_ms: Millis,
    pub cost_usd: Amount,
    pub steps: u32,
}

impl Default for RunContext {
    /// An empty run: no text, no time, no cost, no steps.
    fn default() -> (r: Self)
        ensures
            r.input@.len() == 0,
            r.output@.len() == 0,
            r.duration_ms.ceil == 0,
            r.duration_ms.shown@ == "0"@,
            r.cost_usd.rank == Some(crate::measure::zero_rank()),
            r.cost_usd.fixed4@ == "0.0000"@,
            r.cost_usd.fixed6@ == "0.000000"@,
            r.steps == 0,
    {
        let duration_ms = Millis::from_whole_ms(0);
        proof {
            reveal_strlit("0");
            assert(crate::text::decimal(0) =~= "0"@);
        }
        RunContext {
            input: String::new(),
            output: String::new(),
            duration_ms,
            cost_usd: Amount::zero(),
            steps: 0,
        }
    }
}

/// Result of a single validation check.
#[derive(Clone, Debug)]
pub struct ValidationResult {
    pub passed: bool,
    pub clause_name: String,
    pub clause_text: String,
    pub clause_type: String,
    pub judge: String,
    pub details: String,
}

/// A validation result with its text fields as character sequences.
pub struct ResultView {
    pub passed: bool,
    pub clause_name: Seq<char>,
    pub clause_text: Seq<char>,
    pub clause_type: Seq<char>,
    pub judge: Seq<char>,
    pub details: Seq<char>,
}

impl View for ValidationResult {
    type V = ResultView;

    open spec fn view(&self) -> ResultView {
        ResultView {
            passed: self.passed,
            clause_name: self.clause_name@,
            clause_text: self.clause_text@,
            clause_type: self.clause_type@,
            judge: self.judge@,
            details: self.details@,
        }
    }
}

/// A passing check, judged deterministically, with no details.
pub open spec fn passed_view(name: Seq<char>, text: Seq<char>, clause_type: Seq<char>) -> ResultView {
    ResultView {
        passed: true,
        clause_name: name,
        clause_text: text,
        clause_type: clause_type,
        judge: "deterministic"@,
        details: Seq::empty(),
    }
}

/// A failing check, judged deterministically.
pub open spec fn failed_view(
    name: Seq<char>,
    text: Seq<char>,
    clause_type: Seq<char>,
    details: Seq<char>,
) -> ResultView {
    ResultView {
        passed: false,
        clause_name: name,
        clause_text: text,
        clause_type: clause_type,
        judge: "deterministic"@,
        details: details,
    }
}

impl ValidationResult {
    /// A passing, deterministically judged result.
    pub fn pass(clause_name: &str, clause_text: &str, clause_type: &str) -> (r: Self)
        ensures
            r@ == passed_view(clause_name@, clause_text@, clause_type@),
    {
        ValidationResult {
            passed: true,
            clause_name: String::from_str(clause_name),
            clause_text: String::from_str(clause_text),
            clause_type: String::from_str(clause_type),
            judge: String::from_str("deterministic"),
            details: String::new(),
        }
    }

    /// A failing, deterministically judged result.
    pub fn fail(clause_name: &str, clause_text: &str, clause_type: &str, details: &str) -> (r: Self)
        ensures
            r@ == failed_view(clause_name@, clause_text@, clause_type@, details@),
    {
        ValidationResult {
            passed: false,
            clause_name: String::from_str(clause_name),
            clause_text: String::from_str(clause_text),
            clause_type: String::from_str(clause_type),
            judge: String::from_str("deterministic"),
            details: String::from_str(details),
        }
    }
}

} // verus!
