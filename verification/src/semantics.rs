//! What the synthesized methods of the comparison family compute, stated
//! over the plan that they are written from, and what follows for every
//! type and every value.
//!
//! A value of a struct or of a variant is seen here as what its fields
//! give, by position: the outcome of comparing the field of two values,
//! whether the field of two values is equal, or what the field feeds to a
//! hasher.

use vstd::prelude::*;
use crate::compare_expr::key_tokens;
use crate::compare_op::{ignored, reversed, rule_from, rule_of, steps_of, Rule, Step};
use crate::hattrs::CompareAttrsView;
use crate::item::FieldEntryView;
use crate::kinds::CompareOp;
use crate::plan_laws::{lemma_plan_covers_fields, step_matches, steps_cover};
use crate::site::chain;
use crate::text::{DiagnosticView, TokenView};

verus! {

/// The outcome of a comparison.
#[derive(Debug, Copy, Clone, Eq, PartialEq, Structural)]
pub enum Outcome {
    Less,
    Equal,
    Greater,
}

impl Outcome {
    /// The outcome of the reversed comparison.
    pub open spec fn flipped(self) -> Outcome {
        match self {
            Outcome::Less => Outcome::Greater,
            Outcome::Equal => Outcome::Equal,
            Outcome::Greater => Outcome::Less,
        }
    }
}

/// What a step makes of the outcome `r` of its field: the outcome, or its
/// reverse where the step says so. `None` stands for two values that
/// cannot be compared.
pub open spec fn contribution(step: Step, r: Option<Outcome>) -> Option<Outcome> {
    if step.reverse {
        match r {
            Some(o) => Some(o.flipped()),
            None => None,
        }
    } else {
        r
    }
}

/// What the method of an ordering computes from the steps from position
/// `i` on, where `results` gives the outcome of each field by its
/// position: the first contribution that is not "equal", and "equal" if
/// there is none.
pub open spec fn first_decisive(
    steps: Seq<Step>,
    results: spec_fn(int) -> Option<Outcome>,
    i: int,
) -> Option<Outcome>
    decreases steps.len() - i,
{
    if i < 0 || i >= steps.len() {
        Some(Outcome::Equal)
    } else {
        let o = contribution(steps[i], results(steps[i].index as int));
        if o != Some(Outcome::Equal) {
            o
        } else {
            first_decisive(steps, results, i + 1)
        }
    }
}

/// What the method of an ordering computes for two values of a struct or
/// of one variant.
pub open spec fn order_of(steps: Seq<Step>, results: spec_fn(int) -> Option<Outcome>) -> Option<
    Outcome,
> {
    first_decisive(steps, results, 0)
}

/// What the method of an equality test computes: whether every field that
/// takes part is equal, where `equal` says so for each field by its
/// position.
pub open spec fn equality_of(steps: Seq<Step>, equal: spec_fn(int) -> bool) -> bool {
    forall|k: int| 0 <= k < steps.len() ==> equal((#[trigger] steps[k]).index as int)
}

/// The order of the variants at the positions `a` and `b` of an enum.
pub open spec fn variant_order(a: int, b: int) -> Outcome {
    if a < b {
        Outcome::Less
    } else if a == b {
        Outcome::Equal
    } else {
        Outcome::Greater
    }
}

/// What the method of an ordering computes for a value of the variant at
/// position `a` and a value of the variant at position `b`: the fields
/// decide between two values of one variant, the positions of the variants
/// between two values of different variants.
pub open spec fn enum_order_of(
    plans: Seq<Seq<Step>>,
    a: int,
    b: int,
    results: spec_fn(int) -> Option<Outcome>,
) -> Option<Outcome> {
    if a == b {
        order_of(plans[a], results)
    } else {
        Some(variant_order(a, b))
    }
}

/// Steps whose contributions are all "equal" are passed over.
pub proof fn lemma_equal_steps_pass(
    steps: Seq<Step>,
    results: spec_fn(int) -> Option<Outcome>,
    from: int,
    to: int,
)
    requires
        0 <= from <= to <= steps.len(),
        forall|m: int|
            from <= m < to ==> contribution(#[trigger] steps[m], results(steps[m].index as int))
                == Some(Outcome::Equal),
    ensures
        first_decisive(steps, results, from) == first_decisive(steps, results, to),
    decreases to - from,
{
    if from < to {
        assert(contribution(steps[from], results(steps[from].index as int)) == Some(
            Outcome::Equal,
        ));
        lemma_equal_steps_pass(steps, results, from + 1, to);
    }
}

/// The fields are compared in declaration order, and the first field that
/// takes part and is not equal decides: the outcome of the whole is the
/// outcome of that field, reversed where the field is marked so.
pub proof fn lemma_first_differing_field_decides(
    entries: Seq<FieldEntryView>,
    op: CompareOp,
    steps: Seq<Step>,
    results: spec_fn(int) -> Option<Outcome>,
    i: int,
)
    requires
        entries.len() <= usize::MAX,
        op == CompareOp::Ord || op == CompareOp::PartialOrd,
        steps_of(entries, op) == Ok::<Seq<Step>, DiagnosticView>(steps),
        0 <= i < entries.len(),
        ignored(entries[i].hattrs.compare, op) == Ok::<bool, DiagnosticView>(false),
        results(i) != Some(Outcome::Equal),
        forall|j: int|
            0 <= j < i && #[trigger] ignored(entries[j].hattrs.compare, op) == Ok::<
                bool,
                DiagnosticView,
            >(false) ==> results(j) == Some(Outcome::Equal),
    ensures
        reversed(entries[i].hattrs.compare, op) is Ok,
        order_of(steps, results) == (if reversed(entries[i].hattrs.compare, op) == Ok::<
            bool,
            DiagnosticView,
        >(true) {
            match results(i) {
                Some(o) => Some(o.flipped()),
                None => None,
            }
        } else {
            results(i)
        }),
{
    lemma_plan_covers_fields(entries, op, steps);
    let k = choose|k: int| 0 <= k < steps.len() && (#[trigger] steps[k]).index == i;
    assert(step_matches(entries, op, steps[k]));
    assert forall|m: int| 0 <= m < k implies contribution(
        #[trigger] steps[m],
        results(steps[m].index as int),
    ) == Some(Outcome::Equal) by {
        assert(step_matches(entries, op, steps[m]));
        assert(steps[m].index < steps[k].index);
        let j = steps[m].index as int;
        assert(ignored(entries[j].hattrs.compare, op) == Ok::<bool, DiagnosticView>(false));
        assert(results(j) == Some(Outcome::Equal));
    }
    lemma_equal_steps_pass(steps, results, 0, k);
    assert(contribution(steps[k], results(i)) != Some(Outcome::Equal));
}

/// A field that is left out of a trait has no step in the trait's plan.
pub proof fn lemma_skipped_field_has_no_step(
    entries: Seq<FieldEntryView>,
    op: CompareOp,
    steps: Seq<Step>,
    i: int,
)
    requires
        entries.len() <= usize::MAX,
        steps_of(entries, op) == Ok::<Seq<Step>, DiagnosticView>(steps),
        0 <= i < entries.len(),
        ignored(entries[i].hattrs.compare, op) == Ok::<bool, DiagnosticView>(true),
    ensures
        forall|k: int| 0 <= k < steps.len() ==> (#[trigger] steps[k]).index != i,
{
    lemma_plan_covers_fields(entries, op, steps);
    assert forall|k: int| 0 <= k < steps.len() implies (#[trigger] steps[k]).index != i by {
        assert(step_matches(entries, op, steps[k]));
    }
}

/// What the steps compute does not depend on a field that none of them
/// speaks of.
pub proof fn lemma_order_ignores_other_fields(
    steps: Seq<Step>,
    r1: spec_fn(int) -> Option<Outcome>,
    r2: spec_fn(int) -> Option<Outcome>,
    i: int,
    from: int,
)
    requires
        0 <= from,
        forall|k: int| 0 <= k < steps.len() ==> (#[trigger] steps[k]).index != i,
        forall|j: int| j != i ==> #[trigger] r1(j) == r2(j),
    ensures
        first_decisive(steps, r1, from) == first_decisive(steps, r2, from),
    decreases steps.len() - from,
{
    if from < steps.len() {
        assert(steps[from].index != i);
        lemma_order_ignores_other_fields(steps, r1, r2, i, from + 1);
    }
}

/// A field that is left out of an ordering never affects it: two pairs of
/// values whose fields compare alike but for that field are ordered
/// alike.
pub proof fn lemma_skipped_field_never_orders(
    entries: Seq<FieldEntryView>,
    op: CompareOp,
    steps: Seq<Step>,
    r1: spec_fn(int) -> Option<Outcome>,
    r2: spec_fn(int) -> Option<Outcome>,
    i: int,
)
    requires
        entries.len() <= usize::MAX,
        steps_of(entries, op) == Ok::<Seq<Step>, DiagnosticView>(steps),
        0 <= i < entries.len(),
        ignored(entries[i].hattrs.compare, op) == Ok::<bool, DiagnosticView>(true),
        forall|j: int| j != i ==> #[trigger] r1(j) == r2(j),
    ensures
        order_of(steps, r1) == order_of(steps, r2),
{
    lemma_skipped_field_has_no_step(entries, op, steps, i);
    lemma_order_ignores_other_fields(steps, r1, r2, i, 0);
}

/// A field that is left out of an equality test never affects it: two
/// values that differ in that field alone are equal.
pub proof fn lemma_skipped_field_never_differs(
    entries: Seq<FieldEntryView>,
    op: CompareOp,
    steps: Seq<Step>,
    equal: spec_fn(int) -> bool,
    i: int,
)
    requires
        entries.len() <= usize::MAX,
        steps_of(entries, op) == Ok::<Seq<Step>, DiagnosticView>(steps),
        0 <= i < entries.len(),
        ignored(entries[i].hattrs.compare, op) == Ok::<bool, DiagnosticView>(true),
        forall|j: int| j != i ==> #[trigger] equal(j),
    ensures
        equality_of(steps, equal),
{
    lemma_skipped_field_has_no_step(entries, op, steps, i);
}

/// A value of a variant declared earlier is less than a value of a variant
/// declared later, whatever their fields hold.
pub proof fn lemma_earlier_variant_is_less(
    plans: Seq<Seq<Step>>,
    a: int,
    b: int,
    results: spec_fn(int) -> Option<Outcome>,
)
    requires
        a < b,
    ensures
        enum_order_of(plans, a, b, results) == Some(Outcome::Less),
        enum_order_of(plans, b, a, results) == Some(Outcome::Greater),
{
}

/// What stands for the value `v` of the field `e` where the field is
/// compared or hashed by `rule`: the value of the key expression on `v`,
/// as `key` gives it, or `v` itself.
pub open spec fn target<V>(
    e: FieldEntryView,
    rule: Rule,
    key: spec_fn(Seq<TokenView>, V) -> V,
    v: V,
) -> V {
    match rule {
        Rule::Key(source) => key(key_tokens(e, source), v),
        _ => v,
    }
}

/// Whether the values `a` and `b`, given by their fields, are equal under
/// the plan `steps`: what stands for each field that takes part is the
/// same in both.
pub open spec fn values_equal<V>(
    entries: Seq<FieldEntryView>,
    steps: Seq<Step>,
    key: spec_fn(Seq<TokenView>, V) -> V,
    a: Seq<V>,
    b: Seq<V>,
) -> bool {
    forall|k: int|
        0 <= k < steps.len() ==> target(
            entries[(#[trigger] steps[k]).index as int],
            steps[k].rule,
            key,
            a[steps[k].index as int],
        ) == target(entries[steps[k].index as int], steps[k].rule, key, b[steps[k].index as int])
}

/// What the value `a`, given by its fields, feeds to the hasher under the
/// plan `steps`, in order.
pub open spec fn hash_feed<V>(
    entries: Seq<FieldEntryView>,
    steps: Seq<Step>,
    key: spec_fn(Seq<TokenView>, V) -> V,
    a: Seq<V>,
) -> Seq<V> {
    Seq::new(
        steps.len(),
        |k: int|
            target(entries[steps[k].index as int], steps[k].rule, key, a[steps[k].index as int]),
    )
}

/// Whether the behaviour of a field is overridden, if at all, by a key
/// given for `eq` or for `ord`: the overrides that equality and hashing
/// share.
pub open spec fn shares_overrides(c: CompareAttrsView) -> bool {
    &&& c.partial_eq.by is None && c.partial_eq.key is None
    &&& c.partial_ord.by is None && c.partial_ord.key is None
    &&& c.hash.by is None && c.hash.key is None
    &&& c.eq.by is None
    &&& c.ord.by is None
}

/// A field that is hashed is a field that is compared: a field that takes
/// part in `Hash` takes part in `PartialEq` and in `Eq`.
pub proof fn lemma_hashed_fields_are_compared(c: CompareAttrsView)
    requires
        ignored(c, CompareOp::Hash) == Ok::<bool, DiagnosticView>(false),
    ensures
        ignored(c, CompareOp::PartialEq) == Ok::<bool, DiagnosticView>(false),
        ignored(c, CompareOp::Eq) == Ok::<bool, DiagnosticView>(false),
{
}

/// Where `Hash` has no override of its own, it takes the key that `Eq`
/// takes, or the field itself where `Eq` does; only a function given for
/// `Eq` or `Ord` beside a key can set the two apart.
pub proof fn lemma_hash_rule_follows_eq(c: CompareAttrsView)
    requires
        c.hash.by is None,
        c.hash.key is None,
        rule_of(c, CompareOp::Hash) is Ok,
        rule_of(c, CompareOp::Eq) is Ok,
    ensures
        rule_of(c, CompareOp::Hash)->Ok_0.0 == rule_of(c, CompareOp::Eq)->Ok_0.0 || rule_of(
            c,
            CompareOp::Eq,
        )->Ok_0.0 is By,
{
    reveal_with_fuel(rule_from, 5);
    assert(chain(CompareOp::Hash)[0] == CompareOp::Hash);
    assert(chain(CompareOp::Hash)[1] == CompareOp::Eq);
    assert(chain(CompareOp::Hash)[2] == CompareOp::Ord);
    assert(chain(CompareOp::Eq)[0] == CompareOp::Eq);
    assert(chain(CompareOp::Eq)[1] == CompareOp::Ord);
}

/// A field whose overrides are shared is compared for equality and hashed
/// by one rule.
pub proof fn lemma_shared_overrides_give_one_rule(c: CompareAttrsView)
    requires
        shares_overrides(c),
        rule_of(c, CompareOp::Hash) is Ok,
        rule_of(c, CompareOp::PartialEq) is Ok,
    ensures
        rule_of(c, CompareOp::Hash)->Ok_0.0 == rule_of(c, CompareOp::PartialEq)->Ok_0.0,
{
    reveal_with_fuel(rule_from, 5);
    assert(chain(CompareOp::Hash)[0] == CompareOp::Hash);
    assert(chain(CompareOp::Hash)[1] == CompareOp::Eq);
    assert(chain(CompareOp::Hash)[2] == CompareOp::Ord);
    assert(chain(CompareOp::PartialEq)[0] == CompareOp::PartialEq);
    assert(chain(CompareOp::PartialEq)[1] == CompareOp::Eq);
    assert(chain(CompareOp::PartialEq)[2] == CompareOp::PartialOrd);
    assert(chain(CompareOp::PartialEq)[3] == CompareOp::Ord);
}

/// Two values that are equal feed the same to the hasher, for every type
/// whose fields share their overrides between equality and hashing, and
/// whatever the key expressions compute.
pub proof fn lemma_equal_values_hash_alike<V>(
    entries: Seq<FieldEntryView>,
    eq_steps: Seq<Step>,
    hash_steps: Seq<Step>,
    key: spec_fn(Seq<TokenView>, V) -> V,
    a: Seq<V>,
    b: Seq<V>,
)
    requires
        entries.len() <= usize::MAX,
        steps_of(entries, CompareOp::PartialEq) == Ok::<Seq<Step>, DiagnosticView>(eq_steps),
        steps_of(entries, CompareOp::Hash) == Ok::<Seq<Step>, DiagnosticView>(hash_steps),
        forall|i: int|
            0 <= i < entries.len() ==> shares_overrides(#[trigger] entries[i].hattrs.compare),
        values_equal(entries, eq_steps, key, a, b),
    ensures
        hash_feed(entries, hash_steps, key, a) == hash_feed(entries, hash_steps, key, b),
{
    lemma_plan_covers_fields(entries, CompareOp::PartialEq, eq_steps);
    lemma_plan_covers_fields(entries, CompareOp::Hash, hash_steps);
    assert forall|k: int| 0 <= k < hash_steps.len() implies hash_feed(
        entries,
        hash_steps,
        key,
        a,
    )[k] == hash_feed(entries, hash_steps, key, b)[k] by {
        let s = hash_steps[k];
        let i = s.index as int;
        let c = entries[i].hattrs.compare;
        assert(step_matches(entries, CompareOp::Hash, s));
        assert(shares_overrides(c));
        lemma_hashed_fields_are_compared(c);
        let m = choose|m: int| 0 <= m < eq_steps.len() && (#[trigger] eq_steps[m]).index == i;
        assert(step_matches(entries, CompareOp::PartialEq, eq_steps[m]));
        lemma_shared_overrides_give_one_rule(c);
        assert(eq_steps[m].rule == s.rule);
    }
    assert(hash_feed(entries, hash_steps, key, a) =~= hash_feed(entries, hash_steps, key, b));
}

} // verus!
