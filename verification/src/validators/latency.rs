//! Latency validator: a run's duration against a whole number of
//! milliseconds.

use vstd::prelude::*;
use crate::measure::{f64_of, f64_value};
use crate::text::{decimal, push_decimal};
use super::{failed_view, passed_view, ResultView, RunContext, ValidationResult};

verus! {

/// The clause a latency bound of `max_ms` stands for.
pub open spec fn clause_text(max_ms: u64) -> Seq<char> {
    "latency must not exceed "@ + decimal(max_ms as nat) + "ms"@
}

/// The check of `ctx`'s duration against `max_ms`: it fails exactly when
/// the duration is longer than `max_ms` taken as an `f64`.
pub open spec fn spec_validate(ctx: RunContext, max_ms: u64) -> ResultView {
    if ctx.duration_ms.ceil > f64_of(max_ms as nat) {
        failed_view(
            "latency"@,
            clause_text(max_ms),
            "limits"@,
            "Response took "@ + ctx.duration_ms.shown@ + "ms, limit is "@ + decimal(max_ms as nat)
                + "ms"@,
        )
    } else {
        passed_view("latency"@, clause_text(max_ms), "limits"@)
    }
}

/// Checks the run's duration against `max_ms` milliseconds.
pub fn validate(ctx: &RunContext, max_ms: u64) -> (r: ValidationResult)
    ensures
        r@ == spec_validate(*ctx, max_ms),
{
    let mut text = String::from_str("latency must not exceed ");
    push_decimal(&mut text, max_ms);
    text.append("ms");
    if ctx.duration_ms.ceil > f64_value(max_ms) {
        let mut details = String::from_str("Response took ");
        details.append(ctx.duration_ms.shown.as_str());
        details.append("ms, limit is ");
        push_decimal(&mut details, max_ms);
        details.append("ms");
        ValidationResult::fail("latency", text.as_str(), "limits", details.as_str())
    } else {
        ValidationResult::pass("latency", text.as_str(), "limits")
    }
}

} // verus!
