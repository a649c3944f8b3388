//! Cost validator: a run's cost against a bound in US dollars.

use vstd::prelude::*;
use crate::measure::Amount;
use super::{failed_view, passed_view, ResultView, RunContext, ValidationResult};

verus! {

/// The clause a cost bound rendered as `max_fixed4` stands for.
pub open spec fn clause_text(max_fixed4: Seq<char>) -> Seq<char> {
    "cost must not exceed $"@ + max_fixed4 + " USD"@
}

/// The check of `ctx`'s cost against the bound of rank `max_rank`,
/// rendered as `max_fixed4`: it fails exactly when the run cost more.
pub open spec fn spec_validate(ctx: RunContext, max_rank: Option<u64>, max_fixed4: Seq<char>) -> ResultView {
    if ctx.cost_usd.rank is Some && max_rank is Some && ctx.cost_usd.rank->0 > max_rank->0 {
        failed_view(
            "cost"@,
            clause_text(max_fixed4),
            "limits"@,
            "Run cost $"@ + ctx.cost_usd.fixed6@ + " exceeds limit of $"@ + max_fixed4,
        )
    } else {
        passed_view("cost"@, clause_text(max_fixed4), "limits"@)
    }
}

/// Checks the run's cost against `max_usd`.
pub fn validate(ctx: &RunContext, max_usd: &Amount) -> (r: ValidationResult)
    ensures
        r@ == spec_validate(*ctx, max_usd.rank, max_usd.fixed4@),
{
    let mut text = String::from_str("cost must not exceed $");
    text.append(max_usd.fixed4.as_str());
    text.append(" USD");
    if ctx.cost_usd.exceeds(max_usd) {
        let mut details = String::from_str("Run cost $");
        details.append(ctx.cost_usd.fixed6.as_str());
        details.append(" exceeds limit of $");
        details.append(max_usd.fixed4.as_str());
        ValidationResult::fail("cost", text.as_str(), "limits", details.as_str())
    } else {
        ValidationResult::pass("cost", text.as_str(), "limits")
    }
}

} // verus!
