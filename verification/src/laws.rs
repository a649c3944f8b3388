//! Properties of the library as a whole, stated over the specifications
//! that its functions' contracts use.

use vstd::prelude::*;
use crate::validators::RunContext;
use crate::measure::{f64_of, spec_exceeds};
use crate::validators::pattern::{first_chars, forbidden_absent, required_present};
use crate::text::{cuts_cleanly, min_nat, str_len};
use vstd::utf8::{encode_utf8, is_ascii_chars};
use crate::audit::{record_json, records_json, entry_head, entry_json, entry_tail, hash_member, hex_lower, sha256, signed_entry};
use crate::models::{Contract, Clause, JudgeType, OnViolation, ViolationAction};
use crate::runner::{
    cost_limit_records, latency_limit_records, token_limit_records, estimated_tokens,
    limit_records, spec_violations, assertion_records,
    all_clear, blocking_of, blocking_record, blocking_of_is_filter, clause_key, clause_records, is_blocking_label, views, RecordView, RunResult,
    ViolationRecord,
};

verus! {

/// Exactly the actions `block`, `rollback` and `halt_and_alert` stop a run;
/// `warn` never does.
pub proof fn blocking_actions(a: ViolationAction)
    ensures
        is_blocking_label(a.label()) <==> a != ViolationAction::Warn,
{
    reveal_strlit("warn");
    reveal_strlit("block");
    reveal_strlit("rollback");
    reveal_strlit("halt_and_alert");
    assert("warn"@.len() != "block"@.len());
    assert("warn"@.len() != "rollback"@.len());
    assert("warn"@.len() != "halt_and_alert"@.len());
}

/// A run whose violations were all handled with `warn` passes.
pub proof fn warnings_never_fail(vs: Seq<ViolationRecord>)
    requires
        forall|i: int| 0 <= i < vs.len() ==> (#[trigger] vs[i]).action_taken@ == "warn"@,
    ensures
        all_clear(views(vs)),
{
    reveal_strlit("warn");
    reveal_strlit("block");
    reveal_strlit("rollback");
    reveal_strlit("halt_and_alert");
    assert("warn"@.len() != "block"@.len());
    assert("warn"@.len() != "rollback"@.len());
    assert("warn"@.len() != "halt_and_alert"@.len());
    assert forall|i: int| 0 <= i < views(vs).len() implies !is_blocking_label(
        #[trigger] views(vs)[i].action_taken,
    ) by {
        assert(views(vs)[i].action_taken == vs[i].action_taken@);
    }
}

proof fn blocking_of_empty_iff(vs: Seq<ViolationRecord>)
    ensures
        blocking_of(vs).len() == 0 <==> (forall|i: int|
            0 <= i < vs.len() ==> !is_blocking_label(#[trigger] vs[i].action_taken@)),
    decreases vs.len(),
{
    if vs.len() > 0 {
        blocking_of_empty_iff(vs.drop_last());
        assert forall|i: int| 0 <= i < vs.len() - 1 implies #[trigger] vs.drop_last()[i] == vs[i] by {}
        if blocking_of(vs).len() == 0 {
            assert forall|i: int| 0 <= i < vs.len() implies !is_blocking_label(
                #[trigger] vs[i].action_taken@,
            ) by {
                if i < vs.len() - 1 {
                    assert(vs.drop_last()[i] == vs[i]);
                }
            }
        }
    }
}

/// A run passes exactly when it has no blocking violation: the runner's
/// verdict and `blocking_violations` agree.
pub proof fn passed_iff_no_blocking_violations(result: RunResult)
    requires
        result.passed == all_clear(views(result.violations@)),
    ensures
        result.passed <==> blocking_of(result.violations@).len() == 0,
{
    let vs = result.violations@;
    blocking_of_empty_iff(vs);
    assert forall|i: int| 0 <= i < vs.len() implies views(vs)[i].action_taken
        == #[trigger] vs[i].action_taken@ by {}
    if !result.passed {
        let i = choose|i: int|
            0 <= i < views(vs).len() && is_blocking_label(#[trigger] views(vs)[i].action_taken);
        assert(vs[i].action_taken@ == views(vs)[i].action_taken);
    } else {
        assert forall|i: int| 0 <= i < vs.len() implies !is_blocking_label(
            #[trigger] vs[i].action_taken@,
        ) by {
            assert(views(vs)[i].action_taken == vs[i].action_taken@);
        }
    }
}

/// The blocking violations are violations of the run, in their order: each
/// is one of the run's violations and is handled by a blocking action.
pub proof fn blocking_violations_are_violations(vs: Seq<ViolationRecord>)
    ensures
        blocking_of(vs).len() <= vs.len(),
        forall|i: int|
            0 <= i < blocking_of(vs).len() ==> is_blocking_label(
                (#[trigger] blocking_of(vs)[i]).action_taken@,
            ) && vs.contains(blocking_of(vs)[i]),
    decreases vs.len(),
{
    if vs.len() > 0 {
        blocking_violations_are_violations(vs.drop_last());
        let rest = blocking_of(vs.drop_last());
        assert forall|i: int| 0 <= i < blocking_of(vs).len() implies is_blocking_label(
            (#[trigger] blocking_of(vs)[i]).action_taken@,
        ) && vs.contains(blocking_of(vs)[i]) by {
            if i < rest.len() {
                assert(blocking_of(vs)[i] == rest[i]);
                let j = choose|j: int| 0 <= j < vs.drop_last().len() && vs.drop_last()[j] == rest[i];
                assert(vs[j] == rest[i]);
            } else {
                assert(vs[vs.len() - 1] == vs.last());
            }
        }
    }
}

/// Overriding a name (`OnViolation::insert`) makes that name handled by
/// the override, and leaves the action of every other name as it was.
pub proof fn override_changes_only_its_name(
    before: OnViolation,
    after: OnViolation,
    name: Seq<char>,
    action: ViolationAction,
    other: Seq<char>,
)
    requires
        after@.overrides == before@.overrides.insert(name, action),
        after@.default == before@.default,
        other != name,
    ensures
        after.spec_action_for(name) == action,
        after.spec_action_for(other) == before.spec_action_for(other),
{
}

/// A name without an override is handled by the default action.
pub proof fn default_applies(ov: OnViolation, name: Seq<char>)
    requires
        !ov@.overrides.contains_key(name),
    ensures
        ov.spec_action_for(name) == ov@.default,
{
}

/// Deterministically judged natural-language clauses never produce a
/// violation: they pass by default.
pub proof fn deterministic_clauses_pass(kind: Seq<char>, clauses: Seq<Clause>, ov: OnViolation)
    requires
        forall|i: int|
            0 <= i < clauses.len() ==> (#[trigger] clauses[i]).spec_judge()
                == JudgeType::Deterministic,
    ensures
        clause_records(kind, clauses, ov) == Seq::<RecordView>::empty(),
    decreases clauses.len(),
{
    if clauses.len() > 0 {
        let rest = clauses.drop_last();
        assert forall|i: int| 0 <= i < rest.len() implies (#[trigger] rest[i]).spec_judge()
            == JudgeType::Deterministic by {
            assert(rest[i] == clauses[i]);
        }
        deterministic_clauses_pass(kind, rest, ov);
        assert(clauses.last() == clauses[clauses.len() - 1]);
    }
}

/// Every LLM-judged natural-language clause produces exactly one violation
/// in this build, so their number is the number of violations.
pub proof fn llm_clauses_all_fail(kind: Seq<char>, clauses: Seq<Clause>, ov: OnViolation)
    requires
        forall|i: int|
            0 <= i < clauses.len() ==> (#[trigger] clauses[i]).spec_judge() == JudgeType::Llm,
    ensures
        clause_records(kind, clauses, ov).len() == clauses.len(),
        forall|i: int|
            0 <= i < clauses.len() ==> (#[trigger] clause_records(kind, clauses, ov)[i]).clause_text
                == clauses[i].spec_text(),
    decreases clauses.len(),
{
    if clauses.len() > 0 {
        let rest = clauses.drop_last();
        assert forall|i: int| 0 <= i < rest.len() implies (#[trigger] rest[i]).spec_judge()
            == JudgeType::Llm by {
            assert(rest[i] == clauses[i]);
        }
        llm_clauses_all_fail(kind, rest, ov);
        assert(clauses.last() == clauses[clauses.len() - 1]);
        assert forall|i: int| 0 <= i < clauses.len() implies (#[trigger] clause_records(
            kind,
            clauses,
            ov,
        )[i]).clause_text == clauses[i].spec_text() by {
            if i < rest.len() {
                assert(rest[i] == clauses[i]);
            }
        }
    }
}

/// Stripping the `entry_sha256` member from a signed audit entry gives back
/// exactly the bytes whose SHA-256 it holds: anyone can check an entry by
/// removing that member and hashing the rest.
pub proof fn audit_hash_covers_the_rest(result: RunResult, contract_path: Seq<char>, timestamp: Seq<char>)
    ensures
        ({
            let unsigned = entry_json(result, contract_path, timestamp, None);
            let hash = hex_lower(sha256(unsigned));
            let signed = signed_entry(result, contract_path, timestamp);
            let head = entry_head(result, contract_path);
            let member = hash_member(Some(hash));
            &&& signed.subrange(0, head.len() as int) + signed.subrange(
                (head.len() + member.len()) as int,
                signed.len() as int,
            ) == unsigned
            &&& signed.subrange(head.len() as int, (head.len() + member.len()) as int) == member
        }),
{
    let unsigned = entry_json(result, contract_path, timestamp, None);
    let hash = hex_lower(sha256(unsigned));
    let signed = signed_entry(result, contract_path, timestamp);
    let head = entry_head(result, contract_path);
    let member = hash_member(Some(hash));
    let tail = entry_tail(result, timestamp);
    assert(signed == head + member + tail);
    assert(unsigned =~= head + tail);
    assert(signed.subrange(0, head.len() as int) =~= head);
    assert(signed.subrange((head.len() + member.len()) as int, signed.len() as int) =~= tail);
    assert(signed.subrange(head.len() as int, (head.len() + member.len()) as int) =~= member);
}

/// A contract with no limits, no typed assertions and only
/// deterministically judged `must` / `must_not` / `ensures` clauses is never
/// violated.
pub proof fn unconstrained_contract_passes(c: Contract, ctx: RunContext)
    requires
        c.limits.max_latency_ms is None,
        c.limits.max_cost_usd is None,
        c.limits.max_tokens is None,
        c.assert_@.len() == 0,
        forall|i: int|
            0 <= i < c.must@.len() ==> (#[trigger] c.must@[i]).spec_judge()
                == JudgeType::Deterministic,
        forall|i: int|
            0 <= i < c.must_not@.len() ==> (#[trigger] c.must_not@[i]).spec_judge()
                == JudgeType::Deterministic,
        forall|i: int|
            0 <= i < c.ensures@.len() ==> (#[trigger] c.ensures@[i]).spec_judge()
                == JudgeType::Deterministic,
    ensures
        spec_violations(c, ctx) == Seq::<RecordView>::empty(),
        all_clear(spec_violations(c, ctx)),
{
    deterministic_clauses_pass("must"@, c.must@, c.on_violation);
    deterministic_clauses_pass("must_not"@, c.must_not@, c.on_violation);
    deterministic_clauses_pass("ensures"@, c.ensures@, c.on_violation);
    assert(limit_records(c, ctx) =~= Seq::<RecordView>::empty());
    assert(assertion_records(ctx, c.on_violation, c.assert_@) =~= Seq::<RecordView>::empty());
    assert(spec_violations(c, ctx) =~= Seq::<RecordView>::empty());
}

/// An ASCII clause text can always be keyed, and its key is the kind, a
/// colon and the text's first 30 characters.
pub proof fn ascii_clause_key(kind: Seq<char>, text: Seq<char>)
    requires
        is_ascii_chars(text),
        text.len() <= usize::MAX,
    ensures
        cuts_cleanly(text, 30),
        clause_key(kind, text) == kind + ":"@ + first_chars(text, 30),
{
    vstd::utf8::is_ascii_chars_encode_utf8(text);
    vstd::utf8::encode_utf8_valid_utf8(text);
    let bytes = encode_utf8(text);
    assert(str_len(text) == text.len());
    let k = min_nat(text.len(), 30);
    if k == text.len() {
        vstd::utf8::is_char_boundary_start_end_of_seq(bytes);
    } else {
        vstd::utf8::is_ascii_chars_nat_bound(text);
        assert(bytes[k as int] == text[k as int] as u8);
        assert((text[k as int] as nat) < 128);
        vstd::utf8::is_char_boundary_iff_not_is_continuation_byte(bytes, k as int);
    }
    let head = text.take(k as int);
    assert(is_ascii_chars(head));
    vstd::utf8::is_ascii_chars_encode_utf8(head);
    assert(bytes.take(k as int) =~= encode_utf8(head));
    vstd::utf8::encode_utf8_decode_utf8(head);
    assert(first_chars(text, 30) == head);
}

/// Every record in `vs` carries the action that `ov` prescribes for the
/// clause it names, as both its severity and the action taken.
pub open spec fn handled_as_prescribed(vs: Seq<RecordView>, ov: OnViolation) -> bool {
    forall|i: int|
        0 <= i < vs.len() ==> (#[trigger] vs[i]).action_taken == ov.spec_action_for(
            vs[i].clause_name,
        ).label() && vs[i].severity == vs[i].action_taken
}

proof fn prescribed_concat(a: Seq<RecordView>, b: Seq<RecordView>, ov: OnViolation)
    requires
        handled_as_prescribed(a, ov),
        handled_as_prescribed(b, ov),
    ensures
        handled_as_prescribed(a + b, ov),
{
    assert forall|i: int| 0 <= i < (a + b).len() implies (#[trigger] (a + b)[i]).action_taken
        == ov.spec_action_for((a + b)[i].clause_name).label() && (a + b)[i].severity == (a
        + b)[i].action_taken by {
        if i < a.len() {
            assert((a + b)[i] == a[i]);
        } else {
            assert((a + b)[i] == b[i - a.len()]);
        }
    }
}

proof fn prescribed_assertions(ctx: RunContext, ov: OnViolation, assertions: Seq<crate::models::Assertion>)
    ensures
        handled_as_prescribed(assertion_records(ctx, ov, assertions), ov),
    decreases assertions.len(),
{
    if assertions.len() > 0 {
        prescribed_assertions(ctx, ov, assertions.drop_last());
        let rest = assertion_records(ctx, ov, assertions.drop_last());
        let all = assertion_records(ctx, ov, assertions);
        assert forall|i: int| 0 <= i < all.len() implies (#[trigger] all[i]).action_taken
            == ov.spec_action_for(all[i].clause_name).label() && all[i].severity
            == all[i].action_taken by {
            if i < rest.len() {
                assert(all[i] == rest[i]);
            }
        }
    }
}

proof fn prescribed_clauses(kind: Seq<char>, clauses: Seq<Clause>, ov: OnViolation)
    ensures
        handled_as_prescribed(clause_records(kind, clauses, ov), ov),
    decreases clauses.len(),
{
    if clauses.len() > 0 {
        prescribed_clauses(kind, clauses.drop_last(), ov);
        let rest = clause_records(kind, clauses.drop_last(), ov);
        let all = clause_records(kind, clauses, ov);
        assert forall|i: int| 0 <= i < all.len() implies (#[trigger] all[i]).action_taken
            == ov.spec_action_for(all[i].clause_name).label() && all[i].severity
            == all[i].action_taken by {
            if i < rest.len() {
                assert(all[i] == rest[i]);
            }
        }
    }
}

/// Every violation of a run is handled as the contract prescribes for the
/// clause it names: an override registered under that name decides, and the
/// default applies only to names without one.  This holds of limits
/// (named `max_latency_ms`, `max_cost_usd`, `max_tokens`), of typed
/// assertions (named by the assertion) and of natural-language clauses
/// (named by their key) alike.
pub proof fn violations_handled_as_prescribed(c: Contract, ctx: RunContext)
    ensures
        handled_as_prescribed(spec_violations(c, ctx), c.on_violation),
{
    let ov = c.on_violation;
    assert(handled_as_prescribed(latency_limit_records(c, ctx), ov));
    assert(handled_as_prescribed(cost_limit_records(c, ctx), ov));
    assert(handled_as_prescribed(token_limit_records(c, ctx), ov));
    prescribed_concat(latency_limit_records(c, ctx), cost_limit_records(c, ctx), ov);
    prescribed_concat(
        latency_limit_records(c, ctx) + cost_limit_records(c, ctx),
        token_limit_records(c, ctx),
        ov,
    );
    prescribed_assertions(ctx, ov, c.assert_@);
    prescribed_clauses("must"@, c.must@, ov);
    prescribed_clauses("must_not"@, c.must_not@, ov);
    prescribed_clauses("ensures"@, c.ensures@, ov);
    let l = limit_records(c, ctx);
    let a = assertion_records(ctx, ov, c.assert_@);
    let m = clause_records("must"@, c.must@, ov);
    let n = clause_records("must_not"@, c.must_not@, ov);
    let e = clause_records("ensures"@, c.ensures@, ov);
    prescribed_concat(l, a, ov);
    prescribed_concat(l + a, m, ov);
    prescribed_concat(l + a + m, n, ov);
    prescribed_concat(l + a + m + n, e, ov);
}

proof fn limit_record_leads(c: Contract, ctx: RunContext, i: int)
    requires
        0 <= i < limit_records(c, ctx).len(),
    ensures
        i < spec_violations(c, ctx).len(),
        spec_violations(c, ctx)[i] == limit_records(c, ctx)[i],
{
    let ov = c.on_violation;
    let l = limit_records(c, ctx);
    let a = assertion_records(ctx, ov, c.assert_@);
    let m = clause_records("must"@, c.must@, ov);
    let n = clause_records("must_not"@, c.must_not@, ov);
    let e = clause_records("ensures"@, c.ensures@, ov);
    assert((l + a)[i] == l[i]);
    assert((l + a + m)[i] == l[i]);
    assert((l + a + m + n)[i] == l[i]);
    assert((l + a + m + n + e)[i] == l[i]);
}

/// Whether `vs` holds a record of the limit `name`.
pub open spec fn records_limit(vs: Seq<RecordView>, name: Seq<char>) -> bool {
    exists|i: int|
        0 <= i < vs.len() && (#[trigger] vs[i]).clause_type == "limits"@ && vs[i].clause_name
            == name
}

/// A run that breaks a limit has a violation of that limit: a duration
/// longer than `max_latency_ms` (as an `f64`), a cost above `max_cost_usd`,
/// an output estimated at more than `max_tokens` tokens.
pub proof fn breached_limits_are_recorded(c: Contract, ctx: RunContext)
    ensures
        c.limits.max_latency_ms is Some && ctx.duration_ms.ceil > f64_of(
            c.limits.max_latency_ms->0 as nat,
        ) ==> records_limit(spec_violations(c, ctx), "max_latency_ms"@),
        c.limits.max_cost_usd is Some && spec_exceeds(ctx.cost_usd, c.limits.max_cost_usd->0)
            ==> records_limit(spec_violations(c, ctx), "max_cost_usd"@),
        c.limits.max_tokens is Some && estimated_tokens(ctx.output@) > c.limits.max_tokens->0
            ==> records_limit(spec_violations(c, ctx), "max_tokens"@),
{
    let sv = spec_violations(c, ctx);
    let lat = latency_limit_records(c, ctx);
    let cost = cost_limit_records(c, ctx);
    let tok = token_limit_records(c, ctx);
    let l = limit_records(c, ctx);
    if c.limits.max_latency_ms is Some && ctx.duration_ms.ceil > f64_of(
        c.limits.max_latency_ms->0 as nat,
    ) {
        assert(lat.len() == 1);
        assert(l[0] == lat[0]);
        limit_record_leads(c, ctx, 0);
        assert(sv[0].clause_type == "limits"@ && sv[0].clause_name == "max_latency_ms"@);
    }
    if c.limits.max_cost_usd is Some && spec_exceeds(ctx.cost_usd, c.limits.max_cost_usd->0) {
        assert(cost.len() == 1);
        let i = lat.len() as int;
        assert(l[i] == cost[0]);
        limit_record_leads(c, ctx, i);
        assert(sv[i].clause_type == "limits"@ && sv[i].clause_name == "max_cost_usd"@);
    }
    if c.limits.max_tokens is Some && estimated_tokens(ctx.output@) > c.limits.max_tokens->0 {
        assert(tok.len() == 1);
        let i = (lat.len() + cost.len()) as int;
        assert(l[i] == tok[0]);
        limit_record_leads(c, ctx, i);
        assert(sv[i].clause_type == "limits"@ && sv[i].clause_name == "max_tokens"@);
    }
}

/// A violation of a clause whose prescribed action blocks makes the run
/// fail: with the default `block` and no override, a run over its cost,
/// latency or token budget does not pass.
pub proof fn blocking_violation_fails_run(c: Contract, ctx: RunContext, name: Seq<char>)
    requires
        exists|i: int|
            0 <= i < spec_violations(c, ctx).len() && (#[trigger] spec_violations(c, ctx)[i]).clause_name
                == name,
        is_blocking_label(c.on_violation.spec_action_for(name).label()),
    ensures
        !all_clear(spec_violations(c, ctx)),
{
    violations_handled_as_prescribed(c, ctx);
    let sv = spec_violations(c, ctx);
    let i = choose|i: int| 0 <= i < sv.len() && (#[trigger] sv[i]).clause_name == name;
    assert(is_blocking_label(sv[i].action_taken));
}

/// With a non-`warn` default and no override for the limits, a run that
/// breaks any limit does not pass.
pub proof fn breached_limit_fails_by_default(c: Contract, ctx: RunContext)
    requires
        c.on_violation@.default != ViolationAction::Warn,
        !c.on_violation@.overrides.contains_key("max_latency_ms"@),
        !c.on_violation@.overrides.contains_key("max_cost_usd"@),
        !c.on_violation@.overrides.contains_key("max_tokens"@),
    ensures
        c.limits.max_latency_ms is Some && ctx.duration_ms.ceil > f64_of(
            c.limits.max_latency_ms->0 as nat,
        ) ==> !all_clear(spec_violations(c, ctx)),
        c.limits.max_cost_usd is Some && spec_exceeds(ctx.cost_usd, c.limits.max_cost_usd->0)
            ==> !all_clear(spec_violations(c, ctx)),
        c.limits.max_tokens is Some && estimated_tokens(ctx.output@) > c.limits.max_tokens->0
            ==> !all_clear(spec_violations(c, ctx)),
{
    breached_limits_are_recorded(c, ctx);
    blocking_actions(c.on_violation@.default);
    let sv = spec_violations(c, ctx);
    if records_limit(sv, "max_latency_ms"@) {
        blocking_violation_fails_run(c, ctx, "max_latency_ms"@);
    }
    if records_limit(sv, "max_cost_usd"@) {
        blocking_violation_fails_run(c, ctx, "max_cost_usd"@);
    }
    if records_limit(sv, "max_tokens"@) {
        blocking_violation_fails_run(c, ctx, "max_tokens"@);
    }
}

/// A pattern check passes exactly when the forbidden pattern, if given,
/// compiles and matches nowhere in the output, and the required pattern, if
/// given, compiles and matches somewhere: a match of the forbidden pattern
/// fails the check whatever the required pattern is.  The result always
/// names the assertion and is of type `assert`.
pub proof fn pattern_verdict(
    output: Seq<char>,
    name: Seq<char>,
    must_not_match: Option<Seq<char>>,
    must_match: Option<Seq<char>>,
    description: Seq<char>,
)
    ensures
        crate::validators::pattern::spec_validate(
            output,
            name,
            must_not_match,
            must_match,
            description,
        ).passed == (forbidden_absent(output, must_not_match) && required_present(
            output,
            must_match,
        )),
        crate::validators::pattern::spec_validate(
            output,
            name,
            must_not_match,
            must_match,
            description,
        ).clause_name == name,
        crate::validators::pattern::spec_validate(
            output,
            name,
            must_not_match,
            must_match,
            description,
        ).clause_type == "assert"@,
{
}

/// The violations array of a single violation holds exactly its object.
pub proof fn violation_array_of_one(v: RecordView)
    ensures
        records_json(seq![v]) == record_json(v),
{
}

/// The violations array of an audit entry splits, at any point, into the
/// arrays of the violations before and after it, joined by a comma: no
/// violation is dropped, duplicated or moved.
pub proof fn violation_array_splits(vs: Seq<RecordView>, k: int)
    requires
        0 < k < vs.len(),
    ensures
        records_json(vs) == records_json(vs.take(k)) + seq![0x2cu8] + records_json(vs.skip(k)),
    decreases vs.len(),
{
    let dl = vs.drop_last();
    assert(vs.take(k) =~= dl.take(k)) by {
        assert(dl.len() >= k);
    }
    if k == vs.len() - 1 {
        assert(dl =~= vs.take(k));
        assert(vs.skip(k) =~= seq![vs.last()]);
    } else {
        violation_array_splits(dl, k);
        let tail = vs.skip(k);
        assert(tail.len() >= 2);
        assert(tail.drop_last() =~= dl.skip(k));
        assert(tail.last() == vs.last());
        assert(records_json(tail) == records_json(dl.skip(k)) + seq![0x2cu8] + record_json(
            vs.last(),
        ));
        assert(records_json(vs) =~= records_json(vs.take(k)) + seq![0x2cu8] + records_json(tail));
    }
}

proof fn violation_array_first(vs: Seq<RecordView>)
    requires
        vs.len() >= 1,
    ensures
        vs.len() == 1 ==> records_json(vs) == record_json(vs[0]),
        vs.len() > 1 ==> records_json(vs) == record_json(vs[0]) + seq![0x2cu8] + records_json(
            vs.skip(1),
        ),
{
    if vs.len() == 1 {
        assert(vs =~= seq![vs[0]]);
    } else {
        violation_array_splits(vs, 1);
        assert(vs.take(1) =~= seq![vs[0]]);
    }
}

/// Each violation's object stands in the violations array at its own place:
/// after the objects of the violations before it and a comma, and before a
/// comma and the objects of the violations after it.
pub proof fn violation_array_holds_each(vs: Seq<RecordView>, i: int)
    requires
        0 <= i < vs.len(),
    ensures
        i == 0 && vs.len() == 1 ==> records_json(vs) == record_json(vs[i]),
        i == 0 && vs.len() > 1 ==> records_json(vs) == record_json(vs[i]) + seq![0x2cu8]
            + records_json(vs.skip(i + 1)),
        i > 0 && i == vs.len() - 1 ==> records_json(vs) == records_json(vs.take(i)) + seq![
            0x2cu8,
        ] + record_json(vs[i]),
        i > 0 && i < vs.len() - 1 ==> records_json(vs) == records_json(vs.take(i)) + seq![
            0x2cu8,
        ] + record_json(vs[i]) + seq![0x2cu8] + records_json(vs.skip(i + 1)),
{
    let rest = vs.skip(i);
    violation_array_first(rest);
    assert(rest[0] == vs[i]);
    if i + 1 < vs.len() {
        assert(rest.skip(1) =~= vs.skip(i + 1));
    }
    if i == 0 {
        assert(rest =~= vs);
    } else {
        violation_array_splits(vs, i);
        if i < vs.len() - 1 {
            assert(records_json(vs) =~= records_json(vs.take(i)) + seq![0x2cu8] + record_json(
                vs[i],
            ) + seq![0x2cu8] + records_json(vs.skip(i + 1)));
        }
    }
}

/// The blocking violations are all of the run's violations handled by a
/// blocking action, in their order: as many as there are such violations,
/// each of them present, and nothing else.
pub proof fn blocking_violations_complete(vs: Seq<ViolationRecord>)
    ensures
        blocking_of(vs) == vs.filter(blocking_record()),
        forall|i: int|
            0 <= i < vs.len() && is_blocking_label((#[trigger] vs[i]).action_taken@)
                ==> blocking_of(vs).contains(vs[i]),
        forall|i: int|
            0 <= i < blocking_of(vs).len() ==> is_blocking_label(
                (#[trigger] blocking_of(vs)[i]).action_taken@,
            ),
        blocking_of(vs).len() == vs.filter(blocking_record()).len(),
{
    blocking_of_is_filter(vs);
    assert forall|i: int|
        0 <= i < vs.len() && is_blocking_label((#[trigger] vs[i]).action_taken@) implies blocking_of(
        vs,
    ).contains(vs[i]) by {
        assert(blocking_record()(vs[i]));
        vs.lemma_filter_contains(blocking_record(), i);
    }
    assert forall|i: int| 0 <= i < blocking_of(vs).len() implies is_blocking_label(
        (#[trigger] blocking_of(vs)[i]).action_taken@,
    ) by {
        vs.lemma_filter_pred(blocking_record(), i);
    }
}

/// The number of blocking violations counts every blocking violation: with
/// one more record at the end, it grows by one exactly when that record is
/// blocking.
pub proof fn blocking_count_grows_by_blocking(vs: Seq<ViolationRecord>, v: ViolationRecord)
    ensures
        blocking_of(vs.push(v)).len() == blocking_of(vs).len() + (if is_blocking_label(
            v.action_taken@,
        ) {
            1int
        } else {
            0int
        }),
{
    assert(vs.push(v).drop_last() =~= vs);
}

/// Below 2^53 every whole number of milliseconds is exact as an `f64`, so a
/// latency check passes exactly when the duration, rounded up, is at most
/// the bound; above it, a longer duration never passes where a shorter one
/// fails.
pub proof fn latency_verdict(ctx: RunContext, longer: RunContext, max_ms: u64)
    requires
        longer.duration_ms.ceil >= ctx.duration_ms.ceil,
    ensures
        max_ms < 0x20_0000_0000_0000 ==> (crate::validators::latency::spec_validate(
            ctx,
            max_ms,
        ).passed <==> ctx.duration_ms.ceil <= max_ms),
        !crate::validators::latency::spec_validate(ctx, max_ms).passed
            ==> !crate::validators::latency::spec_validate(longer, max_ms).passed,
        crate::validators::latency::spec_validate(ctx, max_ms).clause_type == "limits"@,
{
    if max_ms < 0x20_0000_0000_0000 {
        assert(crate::measure::f64_spacing(max_ms as nat) == 1);
        assert(f64_of(max_ms as nat) == max_ms);
    }
}

/// A cost check passes exactly when the run did not cost more than the
/// bound; a run that cost more than another fails wherever the other does.
pub proof fn cost_verdict(ctx: RunContext, costlier: RunContext, max_rank: Option<u64>, shown: Seq<char>)
    requires
        ctx.cost_usd.rank is Some ==> costlier.cost_usd.rank is Some && costlier.cost_usd.rank->0
            >= ctx.cost_usd.rank->0,
    ensures
        crate::validators::cost::spec_validate(ctx, max_rank, shown).passed <==> !(
        ctx.cost_usd.rank is Some && max_rank is Some && ctx.cost_usd.rank->0 > max_rank->0),
        !crate::validators::cost::spec_validate(ctx, max_rank, shown).passed
            ==> !crate::validators::cost::spec_validate(costlier, max_rank, shown).passed,
{
}

} // verus!
