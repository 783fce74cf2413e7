//! What the plan of a trait of the comparison family holds, field by
//! field.

use vstd::prelude::*;
use crate::compare_op::{ignored, reversed, rule_from, rule_of, steps_from, steps_of, Rule, Step};
use crate::hattrs::{CompareAttrsView, HelperAttributeKinds};
use crate::item::FieldEntryView;
use crate::kinds::CompareOp;
use crate::site::chain;

verus! {

/// Whether the step `s` is the step of one of the fields `entries` under
/// `op`: the field is not left out, and the step holds the field's rule
/// and whether its contribution is reversed.
pub open spec fn step_matches(entries: Seq<FieldEntryView>, op: CompareOp, s: Step) -> bool {
    let c = entries[s.index as int].hattrs.compare;
    &&& s.index < entries.len()
    &&& ignored(c, op) == Ok::<bool, crate::text::DiagnosticView>(false)
    &&& rule_of(c, op) == Ok::<(Rule, int), crate::text::DiagnosticView>(
        (s.rule, s.consulted as int),
    )
    &&& reversed(c, op) == Ok::<bool, crate::text::DiagnosticView>(s.reverse)
}

/// Whether `steps` holds exactly the steps of those of the first `n`
/// fields that are not left out of `op`, in declaration order.
pub open spec fn steps_cover(
    entries: Seq<FieldEntryView>,
    op: CompareOp,
    steps: Seq<Step>,
    n: int,
) -> bool {
    &&& forall|k: int|
        0 <= k < steps.len() ==> step_matches(entries, op, #[trigger] steps[k]) && steps[k].index
            < n
    &&& forall|k: int, m: int|
        0 <= k < m < steps.len() ==> (#[trigger] steps[k]).index < (#[trigger] steps[m]).index
    &&& forall|i: int|
        0 <= i < n && #[trigger] ignored(entries[i].hattrs.compare, op) == Ok::<
            bool,
            crate::text::DiagnosticView,
        >(false) ==> exists|k: int| 0 <= k < steps.len() && (#[trigger] steps[k]).index == i
}

/// Whether `chain(t)` holds the link `op`.
pub open spec fn consults(t: CompareOp, op: CompareOp) -> bool {
    exists|i: int| 0 <= i < chain(t).len() && #[trigger] chain(t)[i] == op
}

/// The helper attribute of a comparison trait is read exactly where a
/// requested trait consults it.
pub proof fn lemma_read_where_consulted(kinds: HelperAttributeKinds, op: CompareOp)
    ensures
        kinds.matches_compare(op) <==> exists|t: CompareOp|
            kinds.requested(t) && #[trigger] consults(t, op),
{
    assert(chain(CompareOp::Ord)[0] == CompareOp::Ord);
    assert(chain(CompareOp::PartialOrd)[0] == CompareOp::PartialOrd);
    assert(chain(CompareOp::PartialOrd)[1] == CompareOp::Ord);
    assert(chain(CompareOp::Eq)[0] == CompareOp::Eq);
    assert(chain(CompareOp::Eq)[1] == CompareOp::Ord);
    assert(chain(CompareOp::PartialEq)[0] == CompareOp::PartialEq);
    assert(chain(CompareOp::PartialEq)[1] == CompareOp::Eq);
    assert(chain(CompareOp::PartialEq)[2] == CompareOp::PartialOrd);
    assert(chain(CompareOp::PartialEq)[3] == CompareOp::Ord);
    assert(chain(CompareOp::Hash)[0] == CompareOp::Hash);
    assert(chain(CompareOp::Hash)[1] == CompareOp::Eq);
    assert(chain(CompareOp::Hash)[2] == CompareOp::Ord);
    if kinds.matches_compare(op) {
        let t = if kinds.requested(op) {
            op
        } else if kinds.partial_eq {
            CompareOp::PartialEq
        } else if kinds.hash {
            CompareOp::Hash
        } else if kinds.eq {
            CompareOp::Eq
        } else {
            CompareOp::PartialOrd
        };
        assert(kinds.requested(t) && consults(t, op));
    }
}

/// An annotation named after a comparison trait is read, and so taken off
/// the item, exactly where a requested trait consults it.
pub proof fn lemma_named_attribute_is_read_where_consulted(
    kinds: HelperAttributeKinds,
    op: CompareOp,
)
    ensures
        kinds.matches(Some(op.snake_name())) <==> exists|t: CompareOp|
            kinds.requested(t) && #[trigger] consults(t, op),
{
    reveal_strlit("derive_ex");
    reveal_strlit("default");
    reveal_strlit("debug");
    reveal_strlit("ord");
    reveal_strlit("partial_ord");
    reveal_strlit("eq");
    reveal_strlit("partial_eq");
    reveal_strlit("hash");
    assert(op.snake_name().len() == 3 || op.snake_name().len() == 11 || op.snake_name().len() == 2
        || op.snake_name().len() == 10 || op.snake_name().len() == 4);
    assert(kinds.matches(Some(op.snake_name())) == kinds.matches_compare(op));
    lemma_read_where_consulted(kinds, op);
}

/// A chain has at least one link and at most four.
pub proof fn lemma_chain_len(op: CompareOp)
    ensures
        1 <= chain(op).len() <= 4,
{
}

/// The number of links that were consulted for a rule is at most the
/// length of the longest chain.
pub proof fn lemma_rule_consulted(c: CompareAttrsView, op: CompareOp, i: int)
    requires
        0 <= i,
    ensures
        rule_from(c, op, i) matches Ok((_, n)) ==> 0 <= n <= 4,
    decreases chain(op).len() - i,
{
    lemma_chain_len(op);
    if i < chain(op).len() {
        lemma_rule_consulted(c, op, i + 1);
    }
}

/// Walking the fields from position `i` on adds to `acc` exactly the steps
/// of the fields from `i` on that are not left out.
pub proof fn lemma_steps_cover(
    entries: Seq<FieldEntryView>,
    op: CompareOp,
    i: int,
    acc: Seq<Step>,
    steps: Seq<Step>,
)
    requires
        entries.len() <= usize::MAX,
        0 <= i <= entries.len(),
        steps_cover(entries, op, acc, i),
        steps_from(entries, op, i, acc) == Ok::<Seq<Step>, crate::text::DiagnosticView>(steps),
    ensures
        steps_cover(entries, op, steps, entries.len() as int),
    decreases entries.len() - i,
{
    if i < entries.len() {
        let c = entries[i].hattrs.compare;
        match ignored(c, op) {
            Ok(true) => {
                lemma_steps_cover(entries, op, i + 1, acc, steps);
            },
            Ok(false) => {
                lemma_rule_consulted(c, op, 0);
                match rule_of(c, op) {
                    Ok((rule, consulted)) => match reversed(c, op) {
                        Ok(reverse) => {
                            let s = Step {
                                index: i as usize,
                                rule,
                                consulted: consulted as usize,
                                reverse,
                            };
                            let next = acc.push(s);
                            assert(step_matches(entries, op, s));
                            assert forall|k: int| 0 <= k < next.len() implies step_matches(
                                entries,
                                op,
                                #[trigger] next[k],
                            ) && next[k].index < i + 1 by {
                                if k < acc.len() {
                                    assert(next[k] == acc[k]);
                                }
                            }
                            assert forall|k: int, m: int| 0 <= k < m < next.len() implies (
                            #[trigger] next[k]).index < (#[trigger] next[m]).index by {
                                assert(next[k] == acc[k]);
                                if m < acc.len() {
                                    assert(next[m] == acc[m]);
                                }
                            }
                            assert forall|j: int|
                                0 <= j < i + 1 && #[trigger] ignored(
                                    entries[j].hattrs.compare,
                                    op,
                                ) == Ok::<bool, crate::text::DiagnosticView>(
                                    false,
                                ) implies exists|k: int|
                                0 <= k < next.len() && (#[trigger] next[k]).index == j by {
                                if j < i {
                                    let k = choose|k: int|
                                        0 <= k < acc.len() && (#[trigger] acc[k]).index == j;
                                    assert(next[k] == acc[k]);
                                } else {
                                    assert(next[acc.len() as int].index == j);
                                }
                            }
                            lemma_steps_cover(entries, op, i + 1, next, steps);
                        },
                        Err(_) => {},
                    },
                    Err(_) => {},
                }
            },
            Err(_) => {},
        }
    }
}

/// The plan of `op` holds exactly the steps of the fields that are not
/// left out, in declaration order.
pub proof fn lemma_plan_covers_fields(
    entries: Seq<FieldEntryView>,
    op: CompareOp,
    steps: Seq<Step>,
)
    requires
        entries.len() <= usize::MAX,
        steps_of(entries, op) == Ok::<Seq<Step>, crate::text::DiagnosticView>(steps),
    ensures
        steps_cover(entries, op, steps, entries.len() as int),
{
    lemma_steps_cover(entries, op, 0, Seq::empty(), steps);
}

} // verus!
