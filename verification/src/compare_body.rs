//! The implementations of the comparison family: the body of each trait's
//! method for structs and for enums, and the bounds that go with it.

use vstd::prelude::*;
use crate::bound::{fresh, put_where_clause, BoundForm, WhereClauseBuilder, WhereClauseView};
use crate::compare_expr::{build_field_expr, put_field_expr, ItemSourceKind};
use crate::compare_op::{plan_fields, steps_fit, steps_of, Step};
use crate::generics::{Generics, GenericsView};
use crate::helper::{DeriveEntry, DeriveEntryView};
use crate::item::{
    field_entries_view, put_pattern, put_pattern_wildcard, variant_entries_view, FieldEntry,
    FieldEntryView, ItemEnum, ItemEnumView, ItemStruct, ItemStructView, VariantEntry,
    VariantEntryView,
};
use crate::kinds::{CompareOp, DeriveItemKind};
use crate::resolve::{
    all_steps_bounds, level_bounds, push_level_bounds, push_steps_bounds, struct_sites,
    struct_upper, variant_sites, variant_upper,
};
use crate::site::{HelperAttributes, HelperAttributesView};
use crate::text::{decimal, decimal_string, push_fragment, render, Diagnostic, DiagnosticView};

verus! {

/// The item that a trait of the family is implemented for, with its
/// worklist.
#[allow(inconsistent_fields)]
pub enum ItemSource<'a> {
    Struct { item: &'a ItemStruct, fields: &'a Vec<FieldEntry<'a>> },
    Enum { item: &'a ItemEnum, variants: &'a Vec<VariantEntry<'a>> },
}

/// The mathematical value of an [`ItemSource`].
#[allow(inconsistent_fields)]
pub enum ItemSourceView {
    Struct { item: ItemStructView, fields: Seq<FieldEntryView> },
    Enum { item: ItemEnumView, variants: Seq<VariantEntryView> },
}

impl<'a> View for ItemSource<'a> {
    type V = ItemSourceView;

    open spec fn view(&self) -> ItemSourceView {
        match self {
            ItemSource::Struct { item, fields } => ItemSourceView::Struct {
                item: item@,
                fields: field_entries_view(fields@),
            },
            ItemSource::Enum { item, variants } => ItemSourceView::Enum {
                item: item@,
                variants: variant_entries_view(variants@),
            },
        }
    }
}

impl ItemSourceView {
    /// The generics of the item.
    pub open spec fn generics(self) -> GenericsView {
        match self {
            ItemSourceView::Struct { item, .. } => item.generics,
            ItemSourceView::Enum { item, .. } => item.generics,
        }
    }

    /// The name of the item.
    pub open spec fn ident(self) -> Seq<char> {
        match self {
            ItemSourceView::Struct { item, .. } => item.ident,
            ItemSourceView::Enum { item, .. } => item.ident,
        }
    }
}

impl<'a> ItemSource<'a> {
    /// The generics of the item.
    pub fn generics(&self) -> (r: &Generics)
        ensures
            r@ == self@.generics(),
    {
        match self {
            ItemSource::Struct { item, .. } => &item.generics,
            ItemSource::Enum { item, .. } => &item.generics,
        }
    }

    /// The name of the item.
    pub fn ident(&self) -> (r: &String)
        ensures
            r@ == self@.ident(),
    {
        match self {
            ItemSource::Struct { item, .. } => &item.ident,
            ItemSource::Enum { item, .. } => &item.ident,
        }
    }

    /// Whether the item is a struct or an enum.
    pub fn kind(&self) -> (r: ItemSourceKind)
        ensures
            r == (match self@ {
                ItemSourceView::Struct { .. } => ItemSourceKind::Struct,
                ItemSourceView::Enum { .. } => ItemSourceKind::Enum,
            }),
    {
        match self {
            ItemSource::Struct { .. } => ItemSourceKind::Struct,
            ItemSource::Enum { .. } => ItemSourceKind::Enum,
        }
    }
}

/// Which fields take part in a trait, for a struct or for each variant of
/// an enum.
pub enum Plan {
    Struct(Vec<Step>),
    Enum(Vec<Vec<Step>>),
}

/// The mathematical value of a [`Plan`].
pub enum PlanView {
    Struct(Seq<Step>),
    Enum(Seq<Seq<Step>>),
}

/// The values of the plans of a list of variants.
pub open spec fn plans_view(ps: Seq<Vec<Step>>) -> Seq<Seq<Step>> {
    ps.map_values(|p: Vec<Step>| p@)
}

impl View for Plan {
    type V = PlanView;

    open spec fn view(&self) -> PlanView {
        match self {
            Plan::Struct(steps) => PlanView::Struct(steps@),
            Plan::Enum(plans) => PlanView::Enum(plans_view(plans@)),
        }
    }
}

/// `acc` followed by the steps of the variants `variants` from position
/// `i` on under `op`. The first fault ends the walk.
pub open spec fn variant_plans_from(
    variants: Seq<VariantEntryView>,
    op: CompareOp,
    i: int,
    acc: Seq<Seq<Step>>,
) -> Result<Seq<Seq<Step>>, DiagnosticView>
    decreases variants.len() - i,
{
    if i < 0 || i >= variants.len() {
        Ok(acc)
    } else {
        match steps_of(variants[i].fields, op) {
            Err(d) => Err(d),
            Ok(steps) => variant_plans_from(variants, op, i + 1, acc.push(steps)),
        }
    }
}

/// The plan of `source` for the trait `op`.
pub open spec fn plan_of(
    source: ItemSourceView,
    op: CompareOp,
) -> Result<PlanView, DiagnosticView> {
    match source {
        ItemSourceView::Struct { fields, .. } => match steps_of(fields, op) {
            Err(d) => Err(d),
            Ok(steps) => Ok(PlanView::Struct(steps)),
        },
        ItemSourceView::Enum { variants, .. } => match variant_plans_from(
            variants,
            op,
            0,
            Seq::empty(),
        ) {
            Err(d) => Err(d),
            Ok(plans) => Ok(PlanView::Enum(plans)),
        },
    }
}

/// Whether `plan` is a plan for `source`: of the same shape, with every
/// step speaking of a field that is there and holding that field's rule.
pub open spec fn plan_fits(plan: PlanView, op: CompareOp, source: ItemSourceView) -> bool {
    match (plan, source) {
        (PlanView::Struct(steps), ItemSourceView::Struct { fields, .. }) => steps_fit(
            steps,
            op,
            fields,
        ),
        (PlanView::Enum(plans), ItemSourceView::Enum { variants, .. }) => plans.len()
            == variants.len() && forall|i: int|
            0 <= i < plans.len() ==> steps_fit(
                #[trigger] plans[i],
                op,
                variants[i].fields,
            ),
        _ => false,
    }
}

/// The bounds after the fields of the first `n` variants have contributed
/// to the implementation of `op`, a variant of which no field takes part
/// through its own sites.
pub open spec fn variants_bounds(
    w: WhereClauseView,
    op: CompareOp,
    variants: Seq<VariantEntryView>,
    plans: Seq<Seq<Step>>,
    h: HelperAttributesView,
    e: DeriveEntryView,
    n: int,
) -> WhereClauseView
    decreases n,
{
    if n <= 0 {
        w
    } else {
        all_steps_bounds(
            variants_bounds(w, op, variants, plans, h, e, n - 1),
            op,
            variants[n - 1].fields,
            plans[n - 1],
            variant_upper(variants[n - 1].hattrs, h, DeriveItemKind::CompareOp(op), e),
        )
    }
}

/// The bounds of the implementation of `op` for `source`: what each field
/// that takes part contributes, in order. Where no field of a struct or
/// of a variant takes part, and where an enum has no variant, what is
/// written above the fields contributes once.
pub open spec fn plan_bounds(
    op: CompareOp,
    source: ItemSourceView,
    plan: PlanView,
    h: HelperAttributesView,
    e: DeriveEntryView,
) -> WhereClauseView {
    match (plan, source) {
        (PlanView::Struct(steps), ItemSourceView::Struct { item, fields }) => all_steps_bounds(
            fresh(item.generics),
            op,
            fields,
            steps,
            struct_upper(h, DeriveItemKind::CompareOp(op), e),
        ),
        (PlanView::Enum(plans), ItemSourceView::Enum { item, variants }) => if plans.len() == 0 {
            level_bounds(fresh(item.generics), struct_upper(h, DeriveItemKind::CompareOp(op), e))
        } else {
            variants_bounds(fresh(item.generics), op, variants, plans, h, e, plans.len() as int)
        },
        _ => fresh(source.generics()),
    }
}

/// `acc` followed by what the method of `op` does with the field of one
/// step.
///
/// An equality test joins the fields with `&&`. An ordering returns the
/// first answer that is not "equal", with the field's answer reversed
/// where the step says so.
pub open spec fn put_step(
    acc: Seq<char>,
    op: CompareOp,
    kind: ItemSourceKind,
    e: FieldEntryView,
    step: Step,
    first: bool,
) -> Seq<char> {
    match op {
        CompareOp::PartialEq => put_field_expr(
            if first {
                acc
            } else {
                acc + " && "@
            },
            op,
            kind,
            e,
            step.rule,
        ),
        CompareOp::Eq => put_field_expr(acc, op, kind, e, step.rule) + " "@,
        CompareOp::PartialOrd => if step.reverse {
            put_field_expr(acc + "match ::core::option::Option::map("@, op, kind, e, step.rule)
                + ", ::core::cmp::Ordering::reverse) { ::core::option::Option::Some(::core::cmp::Ordering::Equal) => {} o => return o, } "@
        } else {
            put_field_expr(acc + "match "@, op, kind, e, step.rule)
                + " { ::core::option::Option::Some(::core::cmp::Ordering::Equal) => {} o => return o, } "@
        },
        CompareOp::Ord => if step.reverse {
            put_field_expr(acc + "match ::core::cmp::Ordering::reverse("@, op, kind, e, step.rule)
                + ") { ::core::cmp::Ordering::Equal => {} o => return o, } "@
        } else {
            put_field_expr(acc + "match "@, op, kind, e, step.rule)
                + " { ::core::cmp::Ordering::Equal => {} o => return o, } "@
        },
        CompareOp::Hash => put_field_expr(acc, op, kind, e, step.rule) + " "@,
    }
}

/// `acc` followed by what the method of `op` does with the fields of the
/// first `n` of `steps`, in order.
pub open spec fn put_steps(
    acc: Seq<char>,
    op: CompareOp,
    kind: ItemSourceKind,
    entries: Seq<FieldEntryView>,
    steps: Seq<Step>,
    n: int,
) -> Seq<char>
    decreases n,
{
    if n <= 0 {
        acc
    } else {
        put_step(
            put_steps(acc, op, kind, entries, steps, n - 1),
            op,
            kind,
            entries[steps[n - 1].index as int],
            steps[n - 1],
            n == 1,
        )
    }
}

/// `acc` followed by what the method of `op` does with the fields of one
/// struct or variant: the steps, and the answer where no step has given
/// one. Without a step, an equality test answers `true`.
pub open spec fn put_fields_body(
    acc: Seq<char>,
    op: CompareOp,
    kind: ItemSourceKind,
    entries: Seq<FieldEntryView>,
    steps: Seq<Step>,
) -> Seq<char> {
    let done = put_steps(acc, op, kind, entries, steps, steps.len() as int);
    match op {
        CompareOp::PartialEq => if steps.len() == 0 {
            acc + "true"@
        } else {
            done
        },
        CompareOp::Eq => done,
        CompareOp::PartialOrd => done
            + "::core::option::Option::Some(::core::cmp::Ordering::Equal)"@,
        CompareOp::Ord => done + "::core::cmp::Ordering::Equal"@,
        CompareOp::Hash => done,
    }
}

/// `acc` followed by the arm for the variant `v`: the pattern that matches
/// two values of the variant, or the one value that the method takes, and
/// what the method does with its fields.
pub open spec fn put_arm(
    acc: Seq<char>,
    op: CompareOp,
    ident: Seq<char>,
    v: VariantEntryView,
    steps: Seq<Step>,
) -> Seq<char> {
    match op {
        CompareOp::Eq => put_fields_body(
            put_pattern(acc, ident, v, "_this"@) + " => { "@,
            op,
            ItemSourceKind::Enum,
            v.fields,
            steps,
        ) + " } "@,
        CompareOp::Hash => put_fields_body(
            put_pattern(acc, "Self"@, v, "_self"@) + " => { "@,
            op,
            ItemSourceKind::Enum,
            v.fields,
            steps,
        ) + " } "@,
        _ => put_fields_body(
            put_pattern(put_pattern(acc + "("@, "Self"@, v, "_self"@) + ", "@, "Self"@, v, "_other"@)
                + ") => { "@,
            op,
            ItemSourceKind::Enum,
            v.fields,
            steps,
        ) + " } "@,
    }
}

/// `acc` followed by the arms for the first `n` variants.
pub open spec fn put_arms(
    acc: Seq<char>,
    op: CompareOp,
    ident: Seq<char>,
    variants: Seq<VariantEntryView>,
    plans: Seq<Seq<Step>>,
    n: int,
) -> Seq<char>
    decreases n,
{
    if n <= 0 {
        acc
    } else {
        put_arm(
            put_arms(acc, op, ident, variants, plans, n - 1),
            op,
            ident,
            variants[n - 1],
            plans[n - 1],
        )
    }
}

/// `acc` followed by the arms that give the first `n` variants their
/// positions in declaration order.
pub open spec fn put_index_arms(acc: Seq<char>, variants: Seq<VariantEntryView>, n: int) -> Seq<
    char,
>
    decreases n,
{
    if n <= 0 {
        acc
    } else {
        put_pattern_wildcard(put_index_arms(acc, variants, n - 1) + "("@, variants[n - 1])
            + ") => "@ + decimal((n - 1) as nat) + "usize, "@
    }
}

/// `acc` followed by the local function that gives a value the position
/// of its variant in declaration order.
pub open spec fn put_to_index_fn(acc: Seq<char>, variants: Seq<VariantEntryView>) -> Seq<char> {
    put_index_arms(
        acc + "let to_index = |this: &Self| -> usize { match this { "@,
        variants,
        variants.len() as int,
    ) + "_ => unreachable!(), } };"@
}

/// `acc` followed by the opening of the method of `op`, up to its body.
pub open spec fn put_method_open(acc: Seq<char>, op: CompareOp) -> Seq<char> {
    match op {
        CompareOp::PartialEq => acc + "fn eq(&self, other: &Self) -> bool { "@,
        CompareOp::Eq => acc,
        CompareOp::PartialOrd => acc
            + "fn partial_cmp(&self, other: &Self) -> ::core::option::Option<::core::cmp::Ordering> { "@,
        CompareOp::Ord => acc + "fn cmp(&self, other: &Self) -> ::core::cmp::Ordering { "@,
        CompareOp::Hash => acc + "fn hash<H: ::core::hash::Hasher>(&self, state: &mut H) { "@,
    }
}

/// `acc` followed by the end of the method of `op`.
pub open spec fn put_method_close(acc: Seq<char>, op: CompareOp) -> Seq<char> {
    match op {
        CompareOp::Eq => acc,
        _ => acc + " }"@,
    }
}

/// `acc` followed by what an enum's method of `op` does once the arms for
/// its variants are written: two values of different variants are unequal,
/// and ordered by the positions of their variants in declaration order.
pub open spec fn put_match_close(
    acc: Seq<char>,
    op: CompareOp,
    variants: Seq<VariantEntryView>,
) -> Seq<
    char,
> {
    match op {
        CompareOp::PartialEq => acc + "_ => false, }"@,
        CompareOp::Eq => acc + "_ => { } }"@,
        CompareOp::PartialOrd => put_to_index_fn(acc + "(this, other) => { "@, variants)
            + " ::core::cmp::PartialOrd::partial_cmp(&to_index(this), &to_index(other)) }, }"@,
        CompareOp::Ord => put_to_index_fn(acc + "(this, other) => { "@, variants)
            + " ::core::cmp::Ord::cmp(&to_index(this), &to_index(other)) }, }"@,
        CompareOp::Hash => acc + "_ => unreachable!(), }"@,
    }
}

/// `acc` followed by the opening of the `match` of an enum's method.
pub open spec fn put_match_open(acc: Seq<char>, op: CompareOp) -> Seq<char> {
    match op {
        CompareOp::Eq => acc + "match this { "@,
        CompareOp::Hash => acc + "match self { "@,
        _ => acc + "match (self, other) { "@,
    }
}

/// `acc` followed by the method of `op` for `source`; for `Eq`, which has
/// no method, by the body of the function that checks the fields.
pub open spec fn put_body(
    acc: Seq<char>,
    op: CompareOp,
    source: ItemSourceView,
    plan: PlanView,
) -> Seq<
    char,
> {
    match (plan, source) {
        (PlanView::Struct(steps), ItemSourceView::Struct { fields, .. }) => put_method_close(
            put_fields_body(put_method_open(acc, op), op, ItemSourceKind::Struct, fields, steps),
            op,
        ),
        (PlanView::Enum(plans), ItemSourceView::Enum { item, variants }) => put_method_close(
            put_match_close(
                put_arms(
                    put_match_open(put_method_open(acc, op), op),
                    op,
                    item.ident,
                    variants,
                    plans,
                    plans.len() as int,
                ),
                op,
                variants,
            ),
            op,
        ),
        _ => acc,
    }
}

/// `acc` followed by the type that an implementation is for: the item's
/// name with its parameters.
pub open spec fn put_this_type(acc: Seq<char>, ident: Seq<char>, g: GenericsView) -> Seq<char> {
    acc + ident + " "@ + render(g.type_generics.tokens)
}

/// `acc` followed by the implementation of `op` for `source` with the
/// bounds `w`.
///
/// `Eq` has no method: its implementation is empty, and a function beside
/// it holds the checks of the fields.
pub open spec fn put_compare_impl(
    acc: Seq<char>,
    op: CompareOp,
    source: ItemSourceView,
    plan: PlanView,
    w: WhereClauseView,
) -> Seq<char> {
    let g = source.generics();
    let head = put_where_clause(
        put_this_type(
            acc
                + "#[automatically_derived] #[allow(clippy::double_parens)] #[allow(unused_parens)] impl "@
                + render(g.impl_generics.tokens) + op.path() + " for "@,
            source.ident(),
            g,
        ),
        w,
        BoundForm::Plain,
        op.path(),
    ) + "{ "@;
    match op {
        CompareOp::Eq => put_body(
            put_where_clause(
                put_this_type(
                    head
                        + "} const _: () = { #[allow(clippy::double_parens)] #[allow(unused_parens)] fn _f "@
                        + render(g.impl_generics.tokens) + "(this: &"@,
                    source.ident(),
                    g,
                ) + ") "@,
                w,
                BoundForm::Plain,
                op.path(),
            ) + "{ "@,
            op,
            source,
            plan,
        ) + " } };"@,
        _ => put_body(head, op, source, plan) + " }"@,
    }
}

/// The implementation of the trait `op` for `source`, requested by `e`,
/// where the annotations on the item say `h`; or the first fault among the
/// helper attributes of the fields.
pub open spec fn compare_impl(
    op: CompareOp,
    source: ItemSourceView,
    e: DeriveEntryView,
    h: HelperAttributesView,
) -> Result<Seq<char>, DiagnosticView> {
    match plan_of(source, op) {
        Err(d) => Err(d),
        Ok(plan) => Ok(
            put_compare_impl(Seq::empty(), op, source, plan, plan_bounds(op, source, plan, h, e)),
        ),
    }
}

/// Plans `source` for the trait `op`.
pub fn plan(op: CompareOp, source: &ItemSource) -> (r: Result<Plan, Diagnostic>)
    ensures
        match r {
            Ok(p) => plan_of(source@, op) == Ok::<PlanView, DiagnosticView>(p@) && plan_fits(
                p@,
                op,
                source@,
            ),
            Err(d) => plan_of(source@, op) == Err::<PlanView, DiagnosticView>(d@),
        },
{
    match source {
        ItemSource::Struct { fields, .. } => {
            let steps = plan_fields(op, fields)?;
            Ok(Plan::Struct(steps))
        },
        ItemSource::Enum { item, variants } => {
            let ghost all = variant_entries_view(variants@);
            let mut plans: Vec<Vec<Step>> = Vec::new();
            assert(plans_view(plans@) =~= Seq::empty());
            let mut i: usize = 0;
            while i < variants.len()
                invariant
                    i <= variants.len(),
                    all == variant_entries_view(variants@),
                    source@ == (ItemSourceView::Enum { item: item@, variants: all }),
                    plans.len() == i,
                    variant_plans_from(all, op, 0, Seq::empty()) == variant_plans_from(
                        all,
                        op,
                        i as int,
                        plans_view(plans@),
                    ),
                    forall|j: int|
                        0 <= j < i ==> steps_fit(
                            #[trigger] plans_view(plans@)[j],
                            op,
                            all[j].fields,
                        ),
                decreases variants.len() - i,
            {
                assert(all[i as int] == variants@[i as int]@);
                let steps = plan_fields(op, &variants[i].fields)?;
                let ghost before = plans_view(plans@);
                plans.push(steps);
                assert(plans_view(plans@) =~= before.push(steps@));
                i = i + 1;
            }
            Ok(Plan::Enum(plans))
        },
    }
}

/// Lets the fields that take part in `op` contribute their bounds.
pub(crate) fn push_plan_bounds(
    op: CompareOp,
    source: &ItemSource,
    plan: &Plan,
    hattrs: &HelperAttributes,
    e: &DeriveEntry,
) -> (wcb: WhereClauseBuilder)
    requires
        plan_fits(plan@, op, source@),
    ensures
        wcb@ == plan_bounds(op, source@, plan@, hattrs@, e@),
{
    let mut wcb = WhereClauseBuilder::new(source.generics());
    let kind = DeriveItemKind::CompareOp(op);
    match (plan, source) {
        (Plan::Struct(steps), ItemSource::Struct { fields, .. }) => {
            let upper = struct_sites(hattrs, kind, e);
            push_steps_bounds(op, fields, steps, &upper, &mut wcb);
        },
        (Plan::Enum(plans), ItemSource::Enum { variants, .. }) => {
            if plans.len() == 0 {
                let upper = struct_sites(hattrs, kind, e);
                push_level_bounds(&upper, &mut wcb);
                return wcb;
            }
            let ghost start = wcb@;
            let ghost vs = variant_entries_view(variants@);
            let ghost ps = plans_view(plans@);
            let mut i: usize = 0;
            while i < plans.len()
                invariant
                    i <= plans.len(),
                    plans.len() == variants.len(),
                    vs == variant_entries_view(variants@),
                    ps == plans_view(plans@),
                    forall|j: int|
                        0 <= j < ps.len() ==> steps_fit(
                            #[trigger] ps[j],
                            op,
                            vs[j].fields,
                        ),
                    kind == DeriveItemKind::CompareOp(op),
                    wcb@ == variants_bounds(start, op, vs, ps, hattrs@, e@, i as int),
                decreases plans.len() - i,
            {
                assert(vs[i as int] == variants@[i as int]@);
                assert(ps[i as int] == plans@[i as int]@);
                let upper = variant_sites(&variants[i].hattrs, hattrs, kind, e);
                push_steps_bounds(op, &variants[i].fields, &plans[i], &upper, &mut wcb);
                i = i + 1;
            }
        },
        _ => {},
    }
    wcb
}

/// Appends to `out` what the method of `op` does with the fields of one
/// struct or variant.
pub(crate) fn build_fields_body(
    out: &mut String,
    op: CompareOp,
    kind: ItemSourceKind,
    entries: &Vec<FieldEntry>,
    steps: &Vec<Step>,
)
    requires
        steps_fit(steps@, op, field_entries_view(entries@)),
    ensures
        final(out)@ == put_fields_body(old(out)@, op, kind, field_entries_view(entries@), steps@),
{
    let ghost start = out@;
    let ghost all = field_entries_view(entries@);
    if steps.len() == 0 {
        match op {
            CompareOp::PartialEq => {
                out.append("true");
                return ;
            },
            _ => {},
        }
    }
    let mut i: usize = 0;
    while i < steps.len()
        invariant
            i <= steps.len(),
            steps_fit(steps@, op, field_entries_view(entries@)),
            all == field_entries_view(entries@),
            out@ == put_steps(start, op, kind, all, steps@, i as int),
        decreases steps.len() - i,
    {
        let step = &steps[i];
        assert(steps@[i as int].index < entries.len());
        assert(all[step.index as int] == entries@[step.index as int]@);
        let field = &entries[step.index];
        match op {
            CompareOp::PartialEq => {
                if i != 0 {
                    out.append(" && ");
                }
                build_field_expr(out, op, kind, field, step.rule);
            },
            CompareOp::Eq => {
                build_field_expr(out, op, kind, field, step.rule);
                out.append(" ");
            },
            CompareOp::PartialOrd => {
                if step.reverse {
                    out.append("match ::core::option::Option::map(");
                    build_field_expr(out, op, kind, field, step.rule);
                    out.append(
                        ", ::core::cmp::Ordering::reverse) { ::core::option::Option::Some(::core::cmp::Ordering::Equal) => {} o => return o, } ",
                    );
                } else {
                    out.append("match ");
                    build_field_expr(out, op, kind, field, step.rule);
                    out.append(
                        " { ::core::option::Option::Some(::core::cmp::Ordering::Equal) => {} o => return o, } ",
                    );
                }
            },
            CompareOp::Ord => {
                if step.reverse {
                    out.append("match ::core::cmp::Ordering::reverse(");
                    build_field_expr(out, op, kind, field, step.rule);
                    out.append(") { ::core::cmp::Ordering::Equal => {} o => return o, } ");
                } else {
                    out.append("match ");
                    build_field_expr(out, op, kind, field, step.rule);
                    out.append(" { ::core::cmp::Ordering::Equal => {} o => return o, } ");
                }
            },
            CompareOp::Hash => {
                build_field_expr(out, op, kind, field, step.rule);
                out.append(" ");
            },
        }
        i = i + 1;
    }
    match op {
        CompareOp::PartialOrd => {
            out.append("::core::option::Option::Some(::core::cmp::Ordering::Equal)");
        },
        CompareOp::Ord => {
            out.append("::core::cmp::Ordering::Equal");
        },
        _ => {},
    }
}

/// Appends to `out` the local function that gives a value the position of
/// its variant in declaration order.
pub fn build_to_index_fn(out: &mut String, variants: &Vec<VariantEntry>)
    ensures
        final(out)@ == put_to_index_fn(old(out)@, variant_entries_view(variants@)),
{
    out.append("let to_index = |this: &Self| -> usize { match this { ");
    let ghost start = out@;
    let ghost all = variant_entries_view(variants@);
    let mut i: usize = 0;
    while i < variants.len()
        invariant
            i <= variants.len(),
            all == variant_entries_view(variants@),
            out@ == put_index_arms(start, all, i as int),
        decreases variants.len() - i,
    {
        assert(all[i as int] == variants@[i as int]@);
        out.append("(");
        variants[i].make_pat_wildcard(out);
        out.append(") => ");
        let index = decimal_string(i);
        out.append(index.as_str());
        out.append("usize, ");
        i = i + 1;
    }
    out.append("_ => unreachable!(), } };");
}

fn build_method_open(out: &mut String, op: CompareOp)
    ensures
        final(out)@ == put_method_open(old(out)@, op),
{
    match op {
        CompareOp::PartialEq => out.append("fn eq(&self, other: &Self) -> bool { "),
        CompareOp::Eq => {},
        CompareOp::PartialOrd => out.append(
            "fn partial_cmp(&self, other: &Self) -> ::core::option::Option<::core::cmp::Ordering> { ",
        ),
        CompareOp::Ord => out.append("fn cmp(&self, other: &Self) -> ::core::cmp::Ordering { "),
        CompareOp::Hash => out.append("fn hash<H: ::core::hash::Hasher>(&self, state: &mut H) { "),
    }
}

fn build_method_close(out: &mut String, op: CompareOp)
    ensures
        final(out)@ == put_method_close(old(out)@, op),
{
    match op {
        CompareOp::Eq => {},
        _ => out.append(" }"),
    }
}

fn build_arm(out: &mut String, op: CompareOp, ident: &str, v: &VariantEntry, steps: &Vec<Step>)
    requires
        steps_fit(steps@, op, v@.fields),
    ensures
        final(out)@ == put_arm(old(out)@, op, ident@, v@, steps@),
{
    match op {
        CompareOp::Eq => {
            v.make_pat_with_self_path(out, "_this", ident);
            out.append(" => { ");
        },
        CompareOp::Hash => {
            v.make_pat(out, "_self");
            out.append(" => { ");
        },
        _ => {
            out.append("(");
            v.make_pat(out, "_self");
            out.append(", ");
            v.make_pat(out, "_other");
            out.append(") => { ");
        },
    }
    build_fields_body(out, op, ItemSourceKind::Enum, &v.fields, steps);
    out.append(" } ");
}

/// Appends to `out` the method of `op` for `source`.
pub(crate) fn build_body(out: &mut String, op: CompareOp, source: &ItemSource, plan: &Plan)
    requires
        plan_fits(plan@, op, source@),
    ensures
        final(out)@ == put_body(old(out)@, op, source@, plan@),
{
    match (plan, source) {
        (Plan::Struct(steps), ItemSource::Struct { fields, .. }) => {
            build_method_open(out, op);
            build_fields_body(out, op, ItemSourceKind::Struct, fields, steps);
            build_method_close(out, op);
        },
        (Plan::Enum(plans), ItemSource::Enum { item, variants }) => {
            build_method_open(out, op);
            match op {
                CompareOp::Eq => out.append("match this { "),
                CompareOp::Hash => out.append("match self { "),
                _ => out.append("match (self, other) { "),
            }
            let ghost start = out@;
            let ghost vs = variant_entries_view(variants@);
            let ghost ps = plans_view(plans@);
            let mut i: usize = 0;
            while i < plans.len()
                invariant
                    i <= plans.len(),
                    plans.len() == variants.len(),
                    vs == variant_entries_view(variants@),
                    ps == plans_view(plans@),
                    forall|j: int|
                        0 <= j < ps.len() ==> steps_fit(
                            #[trigger] ps[j],
                            op,
                            vs[j].fields,
                        ),
                    out@ == put_arms(start, op, item@.ident, vs, ps, i as int),
                decreases plans.len() - i,
            {
                assert(vs[i as int] == variants@[i as int]@);
                assert(ps[i as int] == plans@[i as int]@);
                build_arm(out, op, item.ident.as_str(), &variants[i], &plans[i]);
                i = i + 1;
            }
            match op {
                CompareOp::PartialEq => out.append("_ => false, }"),
                CompareOp::Eq => out.append("_ => { } }"),
                CompareOp::PartialOrd => {
                    out.append("(this, other) => { ");
                    build_to_index_fn(out, variants);
                    out.append(
                        " ::core::cmp::PartialOrd::partial_cmp(&to_index(this), &to_index(other)) }, }",
                    );
                },
                CompareOp::Ord => {
                    out.append("(this, other) => { ");
                    build_to_index_fn(out, variants);
                    out.append(" ::core::cmp::Ord::cmp(&to_index(this), &to_index(other)) }, }");
                },
                CompareOp::Hash => out.append("_ => unreachable!(), }"),
            }
            build_method_close(out, op);
        },
        _ => {},
    }
}

/// Appends to `out` the method `eq` for `source`.
pub(crate) fn build_partial_eq_body(out: &mut String, source: &ItemSource, plan: &Plan)
    requires
        plan_fits(plan@, CompareOp::PartialEq, source@),
    ensures
        final(out)@ == put_body(old(out)@, CompareOp::PartialEq, source@, plan@),
{
    build_body(out, CompareOp::PartialEq, source, plan)
}

/// Appends to `out` the checks that the fields of `source` have a total
/// equality.
pub(crate) fn build_eq_body(out: &mut String, source: &ItemSource, plan: &Plan)
    requires
        plan_fits(plan@, CompareOp::Eq, source@),
    ensures
        final(out)@ == put_body(old(out)@, CompareOp::Eq, source@, plan@),
{
    build_body(out, CompareOp::Eq, source, plan)
}

/// Appends to `out` the method `partial_cmp` for `source`.
pub(crate) fn build_partial_ord_body(out: &mut String, source: &ItemSource, plan: &Plan)
    requires
        plan_fits(plan@, CompareOp::PartialOrd, source@),
    ensures
        final(out)@ == put_body(old(out)@, CompareOp::PartialOrd, source@, plan@),
{
    build_body(out, CompareOp::PartialOrd, source, plan)
}

/// Appends to `out` the method `cmp` for `source`.
pub(crate) fn build_ord_body(out: &mut String, source: &ItemSource, plan: &Plan)
    requires
        plan_fits(plan@, CompareOp::Ord, source@),
    ensures
        final(out)@ == put_body(old(out)@, CompareOp::Ord, source@, plan@),
{
    build_body(out, CompareOp::Ord, source, plan)
}

/// Appends to `out` the method `hash` for `source`.
pub(crate) fn build_hash_body(out: &mut String, source: &ItemSource, plan: &Plan)
    requires
        plan_fits(plan@, CompareOp::Hash, source@),
    ensures
        final(out)@ == put_body(old(out)@, CompareOp::Hash, source@, plan@),
{
    build_body(out, CompareOp::Hash, source, plan)
}

/// Builds the implementation of the trait `op` for `source`.
pub fn build_compare_op(
    op: CompareOp,
    source: &ItemSource,
    e: &DeriveEntry,
    hattrs: &HelperAttributes,
) -> (r: Result<String, Diagnostic>)
    ensures
        match r {
            Ok(code) => compare_impl(op, source@, e@, hattrs@) == Ok::<Seq<char>, DiagnosticView>(
                code@,
            ),
            Err(d) => compare_impl(op, source@, e@, hattrs@) == Err::<Seq<char>, DiagnosticView>(
                d@,
            ),
        },
{
    let plan = plan(op, source)?;
    let wcb = push_plan_bounds(op, source, &plan, hattrs, e);
    let g = source.generics();
    let path = op.to_path();
    let mut out = String::new();
    out.append(
        "#[automatically_derived] #[allow(clippy::double_parens)] #[allow(unused_parens)] impl ",
    );
    push_fragment(&mut out, &g.impl_generics);
    out.append(path);
    out.append(" for ");
    out.append(source.ident().as_str());
    out.append(" ");
    push_fragment(&mut out, &g.type_generics);
    wcb.build(&mut out, BoundForm::Plain, path);
    out.append("{ ");
    match op {
        CompareOp::Eq => {
            out.append(
                "} const _: () = { #[allow(clippy::double_parens)] #[allow(unused_parens)] fn _f ",
            );
            push_fragment(&mut out, &g.impl_generics);
            out.append("(this: &");
            out.append(source.ident().as_str());
            out.append(" ");
            push_fragment(&mut out, &g.type_generics);
            out.append(") ");
            wcb.build(&mut out, BoundForm::Plain, path);
            out.append("{ ");
            build_eq_body(&mut out, source, &plan);
            out.append(" } };");
        },
        CompareOp::PartialEq => {
            build_partial_eq_body(&mut out, source, &plan);
            out.append(" }");
        },
        CompareOp::PartialOrd => {
            build_partial_ord_body(&mut out, source, &plan);
            out.append(" }");
        },
        CompareOp::Ord => {
            build_ord_body(&mut out, source, &plan);
            out.append(" }");
        },
        CompareOp::Hash => {
            build_hash_body(&mut out, source, &plan);
            out.append(" }");
        },
    }
    Ok(out)
}

/// Builds the implementation of the trait `op` for a struct.
pub fn build_compare_op_for_struct(
    op: CompareOp,
    item: &ItemStruct,
    e: &DeriveEntry,
    hattrs: &HelperAttributes,
    fields: &Vec<FieldEntry>,
) -> (r: Result<String, Diagnostic>)
    ensures
        crate::text::code_result_view(r) == compare_impl(
            op,
            ItemSourceView::Struct { item: item@, fields: field_entries_view(fields@) },
            e@,
            hattrs@,
        ),
{
    build_compare_op(op, &ItemSource::Struct { item, fields }, e, hattrs)
}

/// Builds the implementation of the trait `op` for an enum.
pub fn build_compare_op_for_enum(
    op: CompareOp,
    item: &ItemEnum,
    e: &DeriveEntry,
    hattrs: &HelperAttributes,
    variants: &Vec<VariantEntry>,
) -> (r: Result<String, Diagnostic>)
    ensures
        crate::text::code_result_view(r) == compare_impl(
            op,
            ItemSourceView::Enum { item: item@, variants: variant_entries_view(variants@) },
            e@,
            hattrs@,
        ),
{
    build_compare_op(op, &ItemSource::Enum { item, variants }, e, hattrs)
}

} // verus!
