//! The contract model: actions, assertion kinds, clauses, limits and the
//! per-clause violation handlers.

use vstd::prelude::*;
use crate::measure::Amount;
use crate::text::str_eq;

verus! {

/// What is done when a clause is violated.
#[derive(Clone, Copy, Debug, PartialEq, Eq, Structural)]
pub enum ViolationAction {
    Warn,
    Block,
    Rollback,
    HaltAndAlert,
}

impl ViolationAction {
    /// The action's name as it is written in contracts and records.
    pub open spec fn label(self) -> Seq<char> {
        match self {
            ViolationAction::Warn => "warn"@,
            ViolationAction::Block => "block"@,
            ViolationAction::Rollback => "rollback"@,
            ViolationAction::HaltAndAlert => "halt_and_alert"@,
        }
    }

    /// The action's name: `warn`, `block`, `rollback` or `halt_and_alert`.
    pub fn to_string(&self) -> (r: String)
        ensures
            r@ == self.label(),
    {
        match self {
            ViolationAction::Warn => String::from_str("warn"),
            ViolationAction::Block => String::from_str("block"),
            ViolationAction::Rollback => String::from_str("rollback"),
            ViolationAction::HaltAndAlert => String::from_str("halt_and_alert"),
        }
    }
}

impl Default for ViolationAction {
    /// Violations block unless the contract says otherwise.
    fn default() -> (r: Self)
        ensures
            r == ViolationAction::Block,
    {
        ViolationAction::Block
    }
}

/// The kind of a typed assertion.
#[derive(Clone, Copy, Debug, PartialEq, Eq, Structural)]
pub enum AssertionType {
    Pattern,
    Schema,
    Llm,
    Cost,
    Latency,
    Custom,
}

impl AssertionType {
    /// The kind's name as `{:?}` prints it.
    pub open spec fn debug_name(self) -> Seq<char> {
        match self {
            AssertionType::Pattern => "Pattern"@,
            AssertionType::Schema => "Schema"@,
            AssertionType::Llm => "Llm"@,
            AssertionType::Cost => "Cost"@,
            AssertionType::Latency => "Latency"@,
            AssertionType::Custom => "Custom"@,
        }
    }

    /// The kind's name as `{:?}` prints it.
    pub fn debug_string(&self) -> (r: String)
        ensures
            r@ == self.debug_name(),
    {
        match self {
            AssertionType::Pattern => String::from_str("Pattern"),
            AssertionType::Schema => String::from_str("Schema"),
            AssertionType::Llm => String::from_str("Llm"),
            AssertionType::Cost => String::from_str("Cost"),
            AssertionType::Latency => String::from_str("Latency"),
            AssertionType::Custom => String::from_str("Custom"),
        }
    }
}

/// Who judges a natural-language clause.
#[derive(Clone, Copy, Debug, PartialEq, Eq, Structural)]
pub enum JudgeType {
    Deterministic,
    Llm,
}

impl Default for JudgeType {
    /// Clauses are judged deterministically unless annotated otherwise.
    fn default() -> (r: Self)
        ensures
            r == JudgeType::Deterministic,
    {
        JudgeType::Deterministic
    }
}

/// A clause with a judge annotation.
#[derive(Clone, Debug)]
pub struct ClauseObject {
    pub text: String,
    pub judge: JudgeType,
    pub description: String,
}

/// A clause is either a plain string or an object with a judge annotation.
#[derive(Clone, Debug)]
pub enum Clause {
    Simple(String),
    Object(ClauseObject),
}

impl Clause {
    /// The clause's text.
    pub open spec fn spec_text(self) -> Seq<char> {
        match self {
            Clause::Simple(s) => s@,
            Clause::Object(o) => o.text@,
        }
    }

    /// The clause's judge: a plain string is judged deterministically.
    pub open spec fn spec_judge(self) -> JudgeType {
        match self {
            Clause::Simple(_) => JudgeType::Deterministic,
            Clause::Object(o) => o.judge,
        }
    }

    /// The clause's text.
    pub fn text(&self) -> (r: &str)
        ensures
            r@ == self.spec_text(),
    {
        match self {
            Clause::Simple(s) => s.as_str(),
            Clause::Object(o) => o.text.as_str(),
        }
    }

    /// The clause's judge: a plain string is judged deterministically.
    pub fn judge(&self) -> (r: &JudgeType)
        ensures
            *r == self.spec_judge(),
    {
        match self {
            Clause::Simple(_) => &JudgeType::Deterministic,
            Clause::Object(o) => &o.judge,
        }
    }
}

/// A named, typed assertion.
///
/// Which fields are read depends on the kind: the two patterns for
/// `Pattern`, `max_usd` for `Cost`, `max_ms` for `Latency`; the
/// judge-prompt fields are carried along for kinds this build does not
/// evaluate.
#[derive(Clone, Debug)]
pub struct Assertion {
    pub name: String,
    pub assertion_type: AssertionType,
    pub description: String,
    pub must_not_match: Option<String>,
    pub must_match: Option<String>,
    pub max_usd: Option<Amount>,
    pub max_ms: Option<u64>,
    pub prompt: Option<String>,
    pub pass_when: Option<String>,
    pub model: Option<String>,
}

/// Quantitative hard limits.
#[derive(Clone, Debug)]
pub struct Limits {
    pub max_tokens: Option<u64>,
    pub max_input_tokens: Option<u64>,
    pub max_latency_ms: Option<u64>,
    pub max_cost_usd: Option<Amount>,
    pub max_tool_calls: Option<u64>,
    pub max_steps: Option<u64>,
}

impl Default for Limits {
    /// No limits at all.
    fn default() -> (r: Self)
        ensures
            r.max_tokens is None,
            r.max_input_tokens is None,
            r.max_latency_ms is None,
            r.max_cost_usd is None,
            r.max_tool_calls is None,
            r.max_steps is None,
    {
        Limits {
            max_tokens: None,
            max_input_tokens: None,
            max_latency_ms: None,
            max_cost_usd: None,
            max_tool_calls: None,
            max_steps: None,
        }
    }
}

/// No two overrides share a name.
pub open spec fn overrides_distinct(entries: Seq<(String, ViolationAction)>) -> bool {
    forall|i: int, j: int|
        0 <= i < entries.len() && 0 <= j < entries.len() && i != j ==> entries[i].0@
            != entries[j].0@
}

/// The map from clause names to actions that a list of overrides holds.
pub open spec fn entries_map(entries: Seq<(String, ViolationAction)>) -> Map<Seq<char>, ViolationAction> {
    Map::new(
        |k: Seq<char>| exists|i: int| 0 <= i < entries.len() && #[trigger] entries[i].0@ == k,
        |k: Seq<char>| entries[choose|i: int| 0 <= i < entries.len() && #[trigger] entries[i].0@ == k].1,
    )
}

/// With distinct names, the map holds each entry's action under its name.
proof fn lemma_entries_map_at(entries: Seq<(String, ViolationAction)>, i: int)
    requires
        overrides_distinct(entries),
        0 <= i < entries.len(),
    ensures
        entries_map(entries).contains_key(entries[i].0@),
        entries_map(entries)[entries[i].0@] == entries[i].1,
{
    let k = entries[i].0@;
    assert(entries[i].0@ == k);
    let j = choose|j: int| 0 <= j < entries.len() && #[trigger] entries[j].0@ == k;
    assert(j == i);
}

/// Where the entry named `name` stands among `entries`, if any does.
fn position_of(entries: &Vec<(String, ViolationAction)>, name: &str) -> (r: Option<usize>)
    ensures
        match r {
            Some(i) => i < entries@.len() && entries@[i as int].0@ == name@,
            None => forall|j: int| 0 <= j < entries@.len() ==> (#[trigger] entries@[j]).0@ != name@,
        },
{
    let n = entries.len();
    let mut i: usize = 0;
    while i < n
        invariant
            n == entries@.len(),
            i <= n,
            forall|j: int| 0 <= j < i ==> (#[trigger] entries@[j]).0@ != name@,
        decreases n - i,
    {
        if str_eq(entries[i].0.as_str(), name) {
            return Some(i);
        }
        i = i + 1;
    }
    None
}

/// Violation handlers: a default action and per-clause overrides, keyed by
/// clause name.  No name has two overrides.
#[derive(Debug)]
pub struct OnViolation {
    default: ViolationAction,
    overrides: Vec<(String, ViolationAction)>,
}

/// The handlers as values: the default action, and the action of each
/// clause name that has an override.
pub struct OnViolationView {
    pub default: ViolationAction,
    pub overrides: Map<Seq<char>, ViolationAction>,
}

impl View for OnViolation {
    type V = OnViolationView;

    closed spec fn view(&self) -> OnViolationView {
        OnViolationView { default: self.default, overrides: entries_map(self.overrides@) }
    }
}

impl OnViolation {
    #[verifier::type_invariant]
    spec fn names_distinct(self) -> bool {
        overrides_distinct(self.overrides@)
    }

    /// The action for the clause named `name`: its override if it has one,
    /// else the default.
    pub open spec fn spec_action_for(self, name: Seq<char>) -> ViolationAction {
        if self@.overrides.contains_key(name) {
            self@.overrides[name]
        } else {
            self@.default
        }
    }

    /// Handlers that apply `default` to every clause.
    pub fn new(default: ViolationAction) -> (r: Self)
        ensures
            r@.default == default,
            r@.overrides == Map::<Seq<char>, ViolationAction>::empty(),
    {
        let overrides: Vec<(String, ViolationAction)> = Vec::new();
        assert(overrides_distinct(overrides@));
        let r = OnViolation { default, overrides };
        assert(r@.overrides =~= Map::<Seq<char>, ViolationAction>::empty());
        r
    }

    /// The default action.
    pub fn default_action(&self) -> (r: ViolationAction)
        ensures
            r == self@.default,
    {
        self.default
    }

    /// Replaces the default action.
    pub fn set_default(&mut self, action: ViolationAction)
        ensures
            final(self)@.default == action,
            final(self)@.overrides == old(self)@.overrides,
    {
        proof {
            use_type_invariant(&*self);
        }
        self.default = action;
    }

    /// The overrides, one entry per clause name.
    pub fn overrides(&self) -> (r: &Vec<(String, ViolationAction)>)
        ensures
            entries_map(r@) == self@.overrides,
            overrides_distinct(r@),
    {
        proof {
            use_type_invariant(self);
        }
        &self.overrides
    }

    /// Sets the action for the clause named `name`, replacing any override
    /// it had.
    pub fn insert(&mut self, name: String, action: ViolationAction)
        ensures
            final(self)@.overrides == old(self)@.overrides.insert(name@, action),
            final(self)@.default == old(self)@.default,
    {
        proof {
            use_type_invariant(&*self);
        }
        let ghost key = name@;
        let mut entries: Vec<(String, ViolationAction)> = Vec::new();
        std::mem::swap(&mut entries, &mut self.overrides);
        let ghost before = entries@;
        let n = entries.len();
        let found = position_of(&entries, name.as_str());
        if let Some(i) = found {
            entries.set(i, (name, action));
            proof {
                let after = entries@;
                assert forall|a: int, b: int|
                    0 <= a < after.len() && 0 <= b < after.len() && a != b implies after[a].0@
                    != after[b].0@ by {
                    if a != i as int {
                        assert(after[a] == before[a]);
                    }
                    if b != i as int {
                        assert(after[b] == before[b]);
                    }
                }
                assert forall|k: Seq<char>| #[trigger] entries_map(after).contains_key(k)
                    == entries_map(before).insert(key, action).contains_key(k) by {
                    if k != key && entries_map(before).contains_key(k) {
                        let j = choose|j: int| 0 <= j < before.len() && #[trigger] before[j].0@ == k;
                        assert(after[j] == before[j]);
                    }
                    if k == key {
                        assert(after[i as int].0@ == k);
                    }
                    if entries_map(after).contains_key(k) && k != key {
                        let j = choose|j: int| 0 <= j < after.len() && #[trigger] after[j].0@ == k;
                        assert(after[j] == before[j]);
                    }
                }
                assert forall|k: Seq<char>| #[trigger] entries_map(after).contains_key(k)
                    implies entries_map(after)[k] == entries_map(before).insert(key, action)[k] by {
                    let j = choose|j: int| 0 <= j < after.len() && #[trigger] after[j].0@ == k;
                    lemma_entries_map_at(after, j);
                    if j != i as int {
                        assert(after[j] == before[j]);
                        lemma_entries_map_at(before, j);
                    }
                }
                assert(entries_map(after) =~= entries_map(before).insert(key, action));
            }
        } else {
            entries.push((name, action));
            proof {
                let after = entries@;
                assert(after[n as int].0@ == key);
                assert(after.len() == n + 1);
                assert forall|a: int, b: int|
                    0 <= a < after.len() && 0 <= b < after.len() && a != b implies after[a].0@
                    != after[b].0@ by {
                    if a < n {
                        assert(after[a] == before[a]);
                    }
                    if b < n {
                        assert(after[b] == before[b]);
                    }
                }
                assert forall|k: Seq<char>| #[trigger] entries_map(after).contains_key(k)
                    == entries_map(before).insert(key, action).contains_key(k) by {
                    if k != key && entries_map(before).contains_key(k) {
                        let j = choose|j: int| 0 <= j < before.len() && #[trigger] before[j].0@ == k;
                        assert(after[j] == before[j]);
                    }
                    if entries_map(after).contains_key(k) && k != key {
                        let j = choose|j: int| 0 <= j < after.len() && #[trigger] after[j].0@ == k;
                        assert(after[j] == before[j]);
                    }
                }
                assert forall|k: Seq<char>| #[trigger] entries_map(after).contains_key(k)
                    implies entries_map(after)[k] == entries_map(before).insert(key, action)[k] by {
                    let j = choose|j: int| 0 <= j < after.len() && #[trigger] after[j].0@ == k;
                    lemma_entries_map_at(after, j);
                    if j < n {
                        assert(after[j] == before[j]);
                        lemma_entries_map_at(before, j);
                    }
                }
                assert(entries_map(after) =~= entries_map(before).insert(key, action));
            }
        }
        self.overrides = entries;
    }

    /// The action for the clause named `name`: its override if it has one,
    /// else the default.
    pub fn action_for(&self, name: &str) -> (r: &ViolationAction)
        ensures
            *r == self.spec_action_for(name@),
    {
        proof {
            use_type_invariant(self);
        }
        if let Some(i) = position_of(&self.overrides, name) {
            proof {
                lemma_entries_map_at(self.overrides@, i as int);
            }
            return &self.overrides[i].1;
        }
        &self.default
    }
}

impl Clone for OnViolation {
    /// The same handlers.
    fn clone(&self) -> (r: Self)
        ensures
            r@ == self@,
    {
        proof {
            use_type_invariant(self);
        }
        let n = self.overrides.len();
        let mut entries: Vec<(String, ViolationAction)> = Vec::new();
        let mut i: usize = 0;
        while i < n
            invariant
                n == self.overrides@.len(),
                i <= n,
                entries@.len() == i,
                forall|j: int| 0 <= j < i ==> #[trigger] entries@[j] == self.overrides@[j],
            decreases n - i,
        {
            let name = self.overrides[i].0.clone();
            entries.push((name, self.overrides[i].1));
            i = i + 1;
        }
        assert(entries@ =~= self.overrides@);
        OnViolation { default: self.default, overrides: entries }
    }
}

impl Default for OnViolation {
    /// Block on every violation, with no overrides.
    fn default() -> (r: Self)
        ensures
            r@.default == ViolationAction::Block,
            r@.overrides == Map::<Seq<char>, ViolationAction>::empty(),
    {
        OnViolation::new(ViolationAction::Block)
    }
}

/// An agent contract.
#[derive(Clone, Debug)]
pub struct Contract {
    pub agent: String,
    pub spec_version: String,
    pub version: String,
    pub description: String,
    pub author: String,
    pub tags: Vec<String>,
    pub must: Vec<Clause>,
    pub must_not: Vec<Clause>,
    pub can: Vec<String>,
    pub ensures: Vec<Clause>,
    pub invariant: Vec<Clause>,
    pub assert_: Vec<Assertion>,
    pub limits: Limits,
    pub on_violation: OnViolation,
}

impl Limits {
    /// How many of the limits that a run is checked against are set:
    /// latency, cost and tokens.
    pub open spec fn spec_checked_count(self) -> nat {
        (if self.max_latency_ms is Some { 1nat } else { 0nat }) + (if self.max_cost_usd is Some {
            1nat
        } else {
            0nat
        }) + (if self.max_tokens is Some { 1nat } else { 0nat })
    }

    /// How many of the limits that a run is checked against are set:
    /// latency, cost and tokens.
    pub fn checked_count(&self) -> (r: usize)
        ensures
            r == self.spec_checked_count(),
    {
        let mut n: usize = 0;
        if self.max_latency_ms.is_some() {
            n = n + 1;
        }
        if self.max_cost_usd.is_some() {
            n = n + 1;
        }
        if self.max_tokens.is_some() {
            n = n + 1;
        }
        n
    }
}

} // verus!
