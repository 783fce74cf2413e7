//! The comparison family: which fields take part in each trait, and where
//! the behaviour of each comes from.

use vstd::prelude::*;
use crate::attrs::Flag;
use crate::bound::{scanned, sites_view, Bounds, WhereClauseBuilder};
use crate::hattrs::{
    CompareAttrsView, HelperAttribtuesForCompareOp, HelperAttributeForCompareOp,
    HelperAttributeForCompareOpView,
};
use crate::item::{field_entries_view, FieldEntry, FieldEntryView};
use crate::kinds::CompareOp;
use crate::site::{chain, chain_of, with_compare_sites};
use crate::text::{Diagnostic, DiagnosticView};

verus! {

/// Where the behaviour of a field under a trait of the family comes from.
#[derive(Debug, Copy, Clone, Eq, PartialEq, Structural)]
pub enum Rule {
    /// The function given with `by =` in the helper attribute of the named
    /// trait.
    By(CompareOp),
    /// The expression given with `key =` in the helper attribute of the
    /// named trait, in place of the field.
    Key(CompareOp),
    /// The field's own implementation of the trait.
    Default,
}

/// One field that takes part in a trait.
#[derive(Debug, Copy, Clone)]
pub struct Step {
    /// The position of the field among the fields of its struct or variant.
    pub index: usize,
    pub rule: Rule,
    /// How many helper attributes of the chain were consulted to find the
    /// rule.
    pub consulted: usize,
    /// Whether the field's contribution to an ordering is reversed.
    pub reverse: bool,
}

/// The complaint that one helper attribute is used where another must be.
pub open spec fn instead_message(op: CompareOp, bad: Seq<char>, good: Seq<char>) -> Seq<char> {
    "When `#[derive_ex("@ + op.name() + ")]` is specified, `#["@ + good
        + "]` must be used instead of `#["@ + bad + "]`."@
}

/// The complaint that `ignore` is written for the trait `bad` where it
/// must be written for `good`.
pub open spec fn bad_ignore(
    span: usize,
    op: CompareOp,
    bad: CompareOp,
    good: CompareOp,
) -> DiagnosticView {
    DiagnosticView {
        span,
        message: instead_message(
            op,
            bad.snake_name() + "(ignore)"@,
            good.snake_name() + "(ignore)"@,
        ),
    }
}

/// Whether a field with the helper attributes `c` is left out of the trait
/// `op`.
///
/// A field is left out where `ignore` is written for `op` or for a trait
/// that reaches `op`. Where it is written only for a trait that `op` does
/// not heed, the two traits would disagree on the field, and that is a
/// fault.
pub open spec fn ignored(c: CompareAttrsView, op: CompareOp) -> Result<bool, DiagnosticView> {
    match op {
        CompareOp::Ord => if c.ord.ignore.is_set() {
            Ok(true)
        } else if let Some(span) = c.partial_ord.ignore.span {
            Err(bad_ignore(span, op, CompareOp::PartialOrd, CompareOp::Ord))
        } else if let Some(span) = c.partial_eq.ignore.span {
            Err(bad_ignore(span, op, CompareOp::PartialEq, CompareOp::Ord))
        } else if let Some(span) = c.eq.ignore.span {
            Err(bad_ignore(span, op, CompareOp::Eq, CompareOp::Ord))
        } else {
            Ok(false)
        },
        CompareOp::PartialOrd => if c.partial_ord.ignore.is_set() || c.ord.ignore.is_set() {
            Ok(true)
        } else if let Some(span) = c.partial_eq.ignore.span {
            Err(bad_ignore(span, op, CompareOp::PartialEq, CompareOp::PartialOrd))
        } else if let Some(span) = c.eq.ignore.span {
            Err(bad_ignore(span, op, CompareOp::Eq, CompareOp::Ord))
        } else {
            Ok(false)
        },
        CompareOp::Eq => if c.eq.ignore.is_set() || c.ord.ignore.is_set() {
            Ok(true)
        } else if let Some(span) = c.partial_eq.ignore.span {
            Err(bad_ignore(span, op, CompareOp::PartialEq, CompareOp::Eq))
        } else if let Some(span) = c.partial_ord.ignore.span {
            Err(bad_ignore(span, op, CompareOp::PartialOrd, CompareOp::Ord))
        } else {
            Ok(false)
        },
        CompareOp::PartialEq => Ok(
            c.partial_eq.ignore.is_set() || c.eq.ignore.is_set() || c.partial_ord.ignore.is_set()
                || c.ord.ignore.is_set(),
        ),
        CompareOp::Hash => if c.hash.ignore.is_set() || c.eq.ignore.is_set()
            || c.ord.ignore.is_set() {
            Ok(true)
        } else if let Some(span) = c.partial_eq.ignore.span {
            Err(bad_ignore(span, op, CompareOp::PartialEq, CompareOp::Eq))
        } else if let Some(span) = c.partial_ord.ignore.span {
            Err(bad_ignore(span, op, CompareOp::PartialOrd, CompareOp::Ord))
        } else {
            Ok(false)
        },
    }
}

/// Whether the contribution of a field with the helper attributes `c` to
/// the ordering `op` is reversed. The traits that are no orderings reverse
/// nothing.
pub open spec fn reversed(c: CompareAttrsView, op: CompareOp) -> Result<bool, DiagnosticView> {
    match op {
        CompareOp::Ord => if let Some(span) = c.partial_ord.reverse.span {
            Err(
                DiagnosticView {
                    span,
                    message: instead_message(op, "partial_ord(reverse)"@, "ord(reverse)"@),
                },
            )
        } else {
            Ok(c.ord.reverse.is_set())
        },
        CompareOp::PartialOrd => Ok(c.partial_ord.reverse.is_set() || c.ord.reverse.is_set()),
        _ => Ok(false),
    }
}

/// The override that the helper attribute `a` holds, as it is named in
/// complaints, with its place: the key before the function.
pub open spec fn override_of(a: HelperAttributeForCompareOpView) -> Option<(Seq<char>, usize)> {
    if let Some(key) = a.key {
        Some(("key = ..."@, key.span))
    } else if let Some(by) = a.by {
        Some(("by = ..."@, by.span))
    } else {
        None
    }
}

/// The override of the trait `op` in `c`, written as the attribute that
/// holds it.
pub open spec fn named_override_of(c: CompareAttrsView, op: CompareOp) -> Option<
    (Seq<char>, usize),
> {
    match override_of(c.get(op)) {
        Some((bad, span)) => Some((op.snake_name() + "("@ + bad + ")"@, span)),
        None => None,
    }
}

/// The first override that `c` holds for any trait of the family, taken in
/// the order `Ord`, `PartialOrd`, `Eq`, `PartialEq`, `Hash`.
pub open spec fn any_override(c: CompareAttrsView) -> Option<(Seq<char>, usize)> {
    if named_override_of(c, CompareOp::Ord) is Some {
        named_override_of(c, CompareOp::Ord)
    } else if named_override_of(c, CompareOp::PartialOrd) is Some {
        named_override_of(c, CompareOp::PartialOrd)
    } else if named_override_of(c, CompareOp::Eq) is Some {
        named_override_of(c, CompareOp::Eq)
    } else if named_override_of(c, CompareOp::PartialEq) is Some {
        named_override_of(c, CompareOp::PartialEq)
    } else {
        named_override_of(c, CompareOp::Hash)
    }
}

/// The attributes of which one is needed for `op` once the field's
/// behaviour under another trait is overridden, one to a line.
pub open spec fn required_list(op: CompareOp) -> Seq<char> {
    match op {
        CompareOp::Ord => "#[ord(key = ...)]\n#[ord(by = ...)]\n"@,
        CompareOp::PartialOrd =>
            "#[partial_ord(key = ...)]\n#[partial_ord(by = ...)]\n#[ord(key = ...)]\n#[ord(by = ...)]\n"@,
        CompareOp::Eq => "#[eq(key = ...)]\n#[eq(by = ...)]\n#[ord(key = ...)]\n#[ord(by = ...)]\n"@,
        CompareOp::PartialEq =>
            "#[partial_eq(key = ...)]\n#[partial_eq(by = ...)]\n#[eq(key = ...)]\n#[eq(by = ...)]\n#[partial_ord(key = ...)]\n#[partial_ord(by = ...)]\n#[ord(key = ...)]\n#[ord(by = ...)]\n"@,
        CompareOp::Hash =>
            "#[hash(key = ...)]\n#[hash(by = ...)]\n#[eq(key = ...)]\n#[ord(key = ...)]\n"@,
    }
}

/// The complaint that the field's own implementation of `op` cannot be
/// used next to the override `bad`.
pub open spec fn mixed_message(op: CompareOp, bad: Seq<char>) -> Seq<char> {
    "Since `#["@ + bad + "]` was specified, the default implementation of `"@ + op.name()
        + "` cannot be used.\nOne of the following attributes is required.\n\n"@ + required_list(
        op,
    )
}

/// Whether a function given for the trait `source` can stand in for the
/// method of `op`: for `Hash`, only its own can.
pub open spec fn by_counts(op: CompareOp, source: CompareOp) -> bool {
    op != CompareOp::Hash || source == CompareOp::Hash
}

/// The complaint that one helper attribute holds both a function and a
/// key.
pub open spec fn both_message(source: CompareOp) -> Seq<char> {
    "`#["@ + source.snake_name() + "(by = ...)]` and `#["@ + source.snake_name()
        + "(key = ...)]` cannot be used together."@
}

/// The rule for a field with the helper attributes `c` under `op`, found
/// by walking the chain of `op` from link `i` on, with the number of links
/// consulted.
///
/// The first link that holds an override decides. A link may hold a
/// function or a key, not both: that is a fault. Where no link holds an
/// override, the field's own implementation is used, unless some trait of
/// the family holds one: then the traits would not agree on the field, and
/// that is a fault too.
pub open spec fn rule_from(c: CompareAttrsView, op: CompareOp, i: int) -> Result<
    (Rule, int),
    DiagnosticView,
>
    decreases chain(op).len() - i,
{
    if i < 0 || i >= chain(op).len() {
        match any_override(c) {
            Some((bad, span)) => Err(DiagnosticView { span, message: mixed_message(op, bad) }),
            None => Ok((Rule::Default, chain(op).len() as int)),
        }
    } else {
        let source = chain(op)[i];
        match (c.get(source).by, c.get(source).key) {
            (Some(_), Some(key)) => Err(
                DiagnosticView { span: key.span, message: both_message(source) },
            ),
            (Some(_), None) => if by_counts(op, source) {
                Ok((Rule::By(source), i + 1))
            } else {
                rule_from(c, op, i + 1)
            },
            (None, Some(_)) => Ok((Rule::Key(source), i + 1)),
            (None, None) => rule_from(c, op, i + 1),
        }
    }
}

/// The rule for a field with the helper attributes `c` under `op`.
pub open spec fn rule_of(
    c: CompareAttrsView,
    op: CompareOp,
) -> Result<(Rule, int), DiagnosticView> {
    rule_from(c, op, 0)
}

/// `acc` followed by the steps for the fields `entries` from position `i`
/// on under `op`: one step for each field that is not left out, in
/// declaration order. The first fault ends the walk.
pub open spec fn steps_from(
    entries: Seq<FieldEntryView>,
    op: CompareOp,
    i: int,
    acc: Seq<Step>,
) -> Result<Seq<Step>, DiagnosticView>
    decreases entries.len() - i,
{
    if i < 0 || i >= entries.len() {
        Ok(acc)
    } else {
        let c = entries[i].hattrs.compare;
        match ignored(c, op) {
            Err(d) => Err(d),
            Ok(true) => steps_from(entries, op, i + 1, acc),
            Ok(false) => match rule_of(c, op) {
                Err(d) => Err(d),
                Ok((rule, consulted)) => match reversed(c, op) {
                    Err(d) => Err(d),
                    Ok(reverse) => steps_from(
                        entries,
                        op,
                        i + 1,
                        acc.push(
                            Step {
                                index: i as usize,
                                rule,
                                consulted: consulted as usize,
                                reverse,
                            },
                        ),
                    ),
                },
            },
        }
    }
}

/// The steps for the fields `entries` under `op`.
pub open spec fn steps_of(entries: Seq<FieldEntryView>, op: CompareOp) -> Result<
    Seq<Step>,
    DiagnosticView,
> {
    steps_from(entries, op, 0, Seq::empty())
}

/// Whether `rule` is the rule of the field `e` under `op`.
pub open spec fn is_rule_of(e: FieldEntryView, op: CompareOp, rule: Rule) -> bool {
    match rule_of(e.hattrs.compare, op) {
        Ok((r, _)) => r == rule,
        Err(_) => false,
    }
}

/// Whether every step of `steps` speaks of one of the fields `entries`,
/// holds the rule of that field under `op`, and has consulted no more
/// links than the chain of `op` has.
pub open spec fn steps_fit(steps: Seq<Step>, op: CompareOp, entries: Seq<FieldEntryView>) -> bool {
    forall|j: int|
        0 <= j < steps.len() ==> {
            &&& (#[trigger] steps[j]).index < entries.len()
            &&& steps[j].consulted <= chain(op).len()
            &&& is_rule_of(entries[steps[j].index as int], op, steps[j].rule)
        }
}

fn instead(span: usize, op: CompareOp, bad: &str, good: &str) -> (r: Diagnostic)
    ensures
        r@ == (DiagnosticView { span, message: instead_message(op, bad@, good@) }),
{
    let mut message = "When `#[derive_ex(".to_owned();
    message.append(op.to_str());
    message.append(")]` is specified, `#[");
    message.append(good);
    message.append("]` must be used instead of `#[");
    message.append(bad);
    message.append("]`.");
    Diagnostic { span, message }
}

fn bad_flag(flag: &Flag, op: CompareOp, bad: CompareOp, good: CompareOp) -> (r: Result<
    (),
    Diagnostic,
>)
    ensures
        match r {
            Ok(()) => flag.span is None,
            Err(d) => flag.span matches Some(span) && d@ == bad_ignore(span, op, bad, good),
        },
{
    match flag.span {
        Some(span) => {
            let mut b = bad.to_str_snake_case().to_owned();
            b.append("(ignore)");
            let mut g = good.to_str_snake_case().to_owned();
            g.append("(ignore)");
            Err(instead(span, op, b.as_str(), g.as_str()))
        },
        None => Ok(()),
    }
}

fn required(op: CompareOp) -> (r: &'static str)
    ensures
        r@ == required_list(op),
{
    match op {
        CompareOp::Ord => "#[ord(key = ...)]\n#[ord(by = ...)]\n",
        CompareOp::PartialOrd =>
            "#[partial_ord(key = ...)]\n#[partial_ord(by = ...)]\n#[ord(key = ...)]\n#[ord(by = ...)]\n",
        CompareOp::Eq => "#[eq(key = ...)]\n#[eq(by = ...)]\n#[ord(key = ...)]\n#[ord(by = ...)]\n",
        CompareOp::PartialEq =>
            "#[partial_eq(key = ...)]\n#[partial_eq(by = ...)]\n#[eq(key = ...)]\n#[eq(by = ...)]\n#[partial_ord(key = ...)]\n#[partial_ord(by = ...)]\n#[ord(key = ...)]\n#[ord(by = ...)]\n",
        CompareOp::Hash =>
            "#[hash(key = ...)]\n#[hash(by = ...)]\n#[eq(key = ...)]\n#[ord(key = ...)]\n",
    }
}

/// The complaint that the field's own implementation of `op` cannot be
/// used next to the override `bad`, written at `span`.
pub fn bad_attr(op: CompareOp, bad: &str, span: usize) -> (r: Diagnostic)
    ensures
        r@ == (DiagnosticView { span, message: mixed_message(op, bad@) }),
{
    let mut message = "Since `#[".to_owned();
    message.append(bad);
    message.append("]` was specified, the default implementation of `");
    message.append(op.to_str());
    message.append("` cannot be used.\nOne of the following attributes is required.\n\n");
    message.append(required(op));
    Diagnostic { span, message }
}

impl HelperAttributeForCompareOp {
    /// The override that the helper attribute holds, as it is named in
    /// complaints, with its place.
    pub fn bad_attr(&self) -> (r: Option<(&'static str, usize)>)
        ensures
            match r {
                Some((bad, span)) => override_of(self@) == Some((bad@, span)),
                None => override_of(self@) is None,
            },
    {
        if let Some(key) = &self.key {
            return Some(("key = ...", key.span));
        }
        if let Some(by) = &self.by {
            return Some(("by = ...", by.span));
        }
        None
    }

    fn named_bad_attr(&self, op: CompareOp) -> (r: Option<(String, usize)>)
        ensures
            match r {
                Some((bad, span)) => Some((bad@, span)) == match override_of(self@) {
                    Some((b, s)) => Some((op.snake_name() + "("@ + b + ")"@, s)),
                    None => None,
                },
                None => override_of(self@) is None,
            },
    {
        match self.bad_attr() {
            Some((bad, span)) => {
                let mut s = op.to_str_snake_case().to_owned();
                s.append("(");
                s.append(bad);
                s.append(")");
                Some((s, span))
            },
            None => None,
        }
    }
}

impl HelperAttribtuesForCompareOp {
    /// Lets the helper attributes that reach `op` contribute their bounds,
    /// from the one of `op` itself to the most general, and tells whether
    /// all of them defer.
    pub fn push_bounds(&self, op: CompareOp, wcb: &mut WhereClauseBuilder) -> (r: bool)
        ensures
            (final(wcb)@, r) == scanned(
                old(wcb)@,
                true,
                with_compare_sites(Seq::empty(), self@, chain(op), chain(op).len() as int),
            ),
    {
        let links = chain_of(op);
        let mut sites: Vec<&Bounds> = Vec::new();
        assert(sites_view(sites@) =~= Seq::empty());
        let mut i: usize = 0;
        while i < links.len()
            invariant
                i <= links.len(),
                links@ == chain(op),
                sites_view(sites@) == with_compare_sites(
                    Seq::empty(),
                    self@,
                    links@,
                    i as int,
                ),
            decreases links.len() - i,
        {
            let ghost before = sites_view(sites@);
            let a = self.get(links[i]);
            sites.push(&a.bounds);
            assert(sites_view(sites@) =~= before.push(a.bounds@));
            i = i + 1;
        }
        wcb.scan(true, &sites)
    }

    /// Whether the field is left out of the trait `op`.
    pub fn is_ignore(&self, op: CompareOp) -> (r: Result<bool, Diagnostic>)
        ensures
            match r {
                Ok(b) => ignored(self@, op) == Ok::<bool, DiagnosticView>(b),
                Err(d) => ignored(self@, op) == Err::<bool, DiagnosticView>(d@),
            },
    {
        match op {
            CompareOp::Ord => {
                if self.ord.ignore.value() {
                    return Ok(true);
                }
                bad_flag(&self.partial_ord.ignore, op, CompareOp::PartialOrd, CompareOp::Ord)?;
                bad_flag(&self.partial_eq.ignore, op, CompareOp::PartialEq, CompareOp::Ord)?;
                bad_flag(&self.eq.ignore, op, CompareOp::Eq, CompareOp::Ord)?;
                Ok(false)
            },
            CompareOp::PartialOrd => {
                if self.partial_ord.ignore.value() || self.ord.ignore.value() {
                    return Ok(true);
                }
                bad_flag(&self.partial_eq.ignore, op, CompareOp::PartialEq, CompareOp::PartialOrd)?;
                bad_flag(&self.eq.ignore, op, CompareOp::Eq, CompareOp::Ord)?;
                Ok(false)
            },
            CompareOp::Eq => {
                if self.eq.ignore.value() || self.ord.ignore.value() {
                    return Ok(true);
                }
                bad_flag(&self.partial_eq.ignore, op, CompareOp::PartialEq, CompareOp::Eq)?;
                bad_flag(&self.partial_ord.ignore, op, CompareOp::PartialOrd, CompareOp::Ord)?;
                Ok(false)
            },
            CompareOp::PartialEq => Ok(
                self.partial_eq.ignore.value() || self.eq.ignore.value()
                    || self.partial_ord.ignore.value() || self.ord.ignore.value(),
            ),
            CompareOp::Hash => {
                if self.hash.ignore.value() || self.eq.ignore.value() || self.ord.ignore.value() {
                    return Ok(true);
                }
                bad_flag(&self.partial_eq.ignore, op, CompareOp::PartialEq, CompareOp::Eq)?;
                bad_flag(&self.partial_ord.ignore, op, CompareOp::PartialOrd, CompareOp::Ord)?;
                Ok(false)
            },
        }
    }

    /// Whether the field's contribution to the ordering `op` is reversed.
    pub fn is_reverse(&self, op: CompareOp) -> (r: Result<bool, Diagnostic>)
        ensures
            match r {
                Ok(b) => reversed(self@, op) == Ok::<bool, DiagnosticView>(b),
                Err(d) => reversed(self@, op) == Err::<bool, DiagnosticView>(d@),
            },
    {
        match op {
            CompareOp::Ord => {
                if let Some(span) = self.partial_ord.reverse.span {
                    return Err(instead(span, op, "partial_ord(reverse)", "ord(reverse)"));
                }
                Ok(self.ord.reverse.value())
            },
            CompareOp::PartialOrd => Ok(
                self.partial_ord.reverse.value() || self.ord.reverse.value(),
            ),
            _ => Ok(false),
        }
    }

    /// The first override held for any trait of the family, written as the
    /// attribute that holds it, with its place.
    pub fn bad_attr(&self) -> (r: Option<(String, usize)>)
        ensures
            match r {
                Some((bad, span)) => any_override(self@) == Some((bad@, span)),
                None => any_override(self@) is None,
            },
    {
        if let Some(x) = self.ord.named_bad_attr(CompareOp::Ord) {
            return Some(x);
        }
        if let Some(x) = self.partial_ord.named_bad_attr(CompareOp::PartialOrd) {
            return Some(x);
        }
        if let Some(x) = self.eq.named_bad_attr(CompareOp::Eq) {
            return Some(x);
        }
        if let Some(x) = self.partial_eq.named_bad_attr(CompareOp::PartialEq) {
            return Some(x);
        }
        self.hash.named_bad_attr(CompareOp::Hash)
    }

    /// Finds the rule for the field under `op`, and the number of links of
    /// the chain of `op` that were consulted for it.
    pub fn rule(&self, op: CompareOp) -> (r: Result<(Rule, usize), Diagnostic>)
        ensures
            match r {
                Ok((rule, n)) => rule_of(self@, op) == Ok::<(Rule, int), DiagnosticView>(
                    (rule, n as int),
                ) && n <= chain(op).len(),
                Err(d) => rule_of(self@, op) == Err::<(Rule, int), DiagnosticView>(d@),
            },
    {
        let links = chain_of(op);
        let mut i: usize = 0;
        while i < links.len()
            invariant
                i <= links.len(),
                links@ == chain(op),
                rule_of(self@, op) == rule_from(self@, op, i as int),
            decreases links.len() - i,
        {
            let source = links[i];
            let a = self.get(source);
            let counts = match op {
                CompareOp::Hash => match source {
                    CompareOp::Hash => true,
                    _ => false,
                },
                _ => true,
            };
            match (&a.by, &a.key) {
                (Some(_), Some(key)) => {
                    let name = source.to_str_snake_case();
                    let mut message = "`#[".to_owned();
                    message.append(name);
                    message.append("(by = ...)]` and `#[");
                    message.append(name);
                    message.append("(key = ...)]` cannot be used together.");
                    return Err(Diagnostic { span: key.span, message });
                },
                (Some(_), None) => {
                    if counts {
                        return Ok((Rule::By(source), i + 1));
                    }
                },
                (None, Some(_)) => {
                    return Ok((Rule::Key(source), i + 1));
                },
                (None, None) => {},
            }
            i = i + 1;
        }
        match self.bad_attr() {
            Some((bad, span)) => Err(bad_attr(op, bad.as_str(), span)),
            None => Ok((Rule::Default, links.len())),
        }
    }
}

/// Plans the fields `fields` for the trait `op`: which of them take part,
/// in declaration order, and by which rule each.
pub fn plan_fields(op: CompareOp, fields: &Vec<FieldEntry>) -> (r: Result<Vec<Step>, Diagnostic>)
    ensures
        match r {
            Ok(steps) => steps_of(field_entries_view(fields@), op) == Ok::<
                Seq<Step>,
                DiagnosticView,
            >(steps@) && steps_fit(steps@, op, field_entries_view(fields@)),
            Err(d) => steps_of(field_entries_view(fields@), op) == Err::<
                Seq<Step>,
                DiagnosticView,
            >(d@),
        },
{
    let ghost all = field_entries_view(fields@);
    let mut steps: Vec<Step> = Vec::new();
    let mut i: usize = 0;
    while i < fields.len()
        invariant
            i <= fields.len(),
            all == field_entries_view(fields@),
            steps_of(all, op) == steps_from(all, op, i as int, steps@),
            steps_fit(steps@, op, all),
        decreases fields.len() - i,
    {
        assert(all[i as int] == fields@[i as int]@);
        let c = &fields[i].hattrs.compare;
        if c.is_ignore(op)? {
            i = i + 1;
            continue ;
        }
        let (rule, consulted) = c.rule(op)?;
        let reverse = c.is_reverse(op)?;
        steps.push(Step { index: i, rule, consulted, reverse });
        i = i + 1;
    }
    Ok(steps)
}

} // verus!
