//! The expression that each trait of the comparison family applies to one
//! field.

use vstd::prelude::*;
use crate::compare_op::{is_rule_of, Rule};
use crate::compare_text::{
    push_call_on_pair, push_eq_checker, push_hash_by, push_hash_stmt, push_ord_by_ord,
    push_partial_eq_by_eq, push_partial_eq_by_ord, push_partial_eq_by_partial_ord,
    push_partial_ord_by_ord, push_partial_ord_by_partial_ord, put_call_on_pair, put_eq_checker,
    put_hash_by, put_hash_stmt, put_ord_by_ord, put_partial_eq_by_eq, put_partial_eq_by_ord,
    put_partial_eq_by_partial_ord, put_partial_ord_by_ord, put_partial_ord_by_partial_ord,
};
use crate::item::{binding_text, member_text, type_text, FieldEntry, FieldEntryView};
use crate::kinds::CompareOp;
use crate::text::{
    render, render_tokens, replace_tokens, replaced, token, tokens_view, Token, TokenView,
};

verus! {

/// Whether the fields at hand are those of a struct or of a variant.
#[derive(Debug, Copy, Clone, Eq, PartialEq, Structural)]
pub enum ItemSourceKind {
    Struct,
    Enum,
}

/// The value that an expression speaks of.
#[derive(Debug, Copy, Clone, Eq, PartialEq, Structural)]
pub enum Side {
    /// The receiver of the method.
    Own,
    /// The argument of the function that checks for total equality.
    This,
    /// The value that the receiver is compared with.
    Other,
}

/// The name of the value of `side` in a method of a struct.
pub open spec fn side_word(side: Side) -> Seq<char> {
    match side {
        Side::Own => "self"@,
        Side::This => "this"@,
        Side::Other => "other"@,
    }
}

/// The prefix of the variables that a pattern binds the fields of the
/// value of `side` to.
pub open spec fn side_prefix(side: Side) -> Seq<char> {
    match side {
        Side::Own => "_self"@,
        Side::This => "_this"@,
        Side::Other => "_other"@,
    }
}

/// A token written directly against the one that follows it.
pub open spec fn glued(text: Seq<char>) -> TokenView {
    TokenView { text, glued: true }
}

/// The tokens that stand for the value of the field `e` on `side`, in
/// parentheses: the field of the value for a struct, the variable that the
/// pattern binds for a variant.
pub open spec fn value_tokens(kind: ItemSourceKind, side: Side, e: FieldEntryView) -> Seq<
    TokenView,
> {
    match kind {
        ItemSourceKind::Struct => seq![
            glued("("@),
            glued(side_word(side)),
            glued("."@),
            glued(member_text(e)),
            glued(")"@),
        ],
        ItemSourceKind::Enum => seq![
            glued("("@),
            glued("*"@),
            glued(binding_text(side_prefix(side), e)),
            glued(")"@),
        ],
    }
}

/// The token that stands for the field's value in a key expression.
pub open spec fn placeholder_text() -> Seq<char> {
    "__placeholder"@
}

/// The expression given with `by =` for the trait `source` at the field
/// `e`, as text.
pub open spec fn by_text(e: FieldEntryView, source: CompareOp) -> Seq<char> {
    match e.hattrs.compare.get(source).by {
        Some(f) => render(f.tokens),
        None => Seq::empty(),
    }
}

/// The tokens of the expression given with `key =` for the trait `source`
/// at the field `e`.
pub open spec fn key_tokens(e: FieldEntryView, source: CompareOp) -> Seq<TokenView> {
    match e.hattrs.compare.get(source).key {
        Some(f) => f.tokens,
        None => Seq::empty(),
    }
}

/// The key expression of the trait `source` at the field `e`, with the
/// value of the field on `side` in place of every placeholder, as text.
pub open spec fn key_applied(
    e: FieldEntryView,
    source: CompareOp,
    kind: ItemSourceKind,
    side: Side,
) -> Seq<char> {
    render(replaced(key_tokens(e, source), placeholder_text(), value_tokens(kind, side, e)))
}

/// The value of the field `e` on `side`, as text.
pub open spec fn value_text(kind: ItemSourceKind, side: Side, e: FieldEntryView) -> Seq<char> {
    render(value_tokens(kind, side, e))
}

/// `acc` followed by the test of the field `e` for equality.
pub open spec fn put_partial_eq_expr(
    acc: Seq<char>,
    kind: ItemSourceKind,
    e: FieldEntryView,
    rule: Rule,
) -> Seq<char> {
    let f = binding_text("__eq_"@, e);
    let this = value_text(kind, Side::Own, e);
    let other = value_text(kind, Side::Other, e);
    match rule {
        Rule::By(CompareOp::PartialOrd) => put_partial_eq_by_partial_ord(
            acc,
            f,
            type_text(e),
            this,
            other,
            by_text(e, CompareOp::PartialOrd),
        ),
        Rule::By(CompareOp::Ord) => put_partial_eq_by_ord(
            acc,
            f,
            type_text(e),
            this,
            other,
            by_text(e, CompareOp::Ord),
        ),
        Rule::By(source) => put_partial_eq_by_eq(
            acc,
            f,
            type_text(e),
            this,
            other,
            by_text(e, source),
        ),
        Rule::Key(source) => put_call_on_pair(
            acc,
            "::core::cmp::PartialEq::eq"@,
            key_applied(e, source, kind, Side::Own),
            key_applied(e, source, kind, Side::Other),
        ),
        Rule::Default => put_call_on_pair(acc, "::core::cmp::PartialEq::eq"@, this, other),
    }
}

/// `acc` followed by the check that what stands for the field `e` in
/// comparisons has a total equality. A function given with `by =` is
/// taken at its word, and nothing is checked.
pub open spec fn put_eq_expr(
    acc: Seq<char>,
    kind: ItemSourceKind,
    e: FieldEntryView,
    rule: Rule,
) -> Seq<char> {
    match rule {
        Rule::By(_) => acc,
        Rule::Key(source) => put_eq_checker(acc, key_applied(e, source, kind, Side::This)),
        Rule::Default => put_eq_checker(acc, value_text(kind, Side::This, e)),
    }
}

/// `acc` followed by the partial comparison of the field `e`.
pub open spec fn put_partial_ord_expr(
    acc: Seq<char>,
    kind: ItemSourceKind,
    e: FieldEntryView,
    rule: Rule,
) -> Seq<char> {
    let f = binding_text("__partial_ord_"@, e);
    let this = value_text(kind, Side::Own, e);
    let other = value_text(kind, Side::Other, e);
    match rule {
        Rule::By(CompareOp::Ord) => put_partial_ord_by_ord(
            acc,
            f,
            type_text(e),
            this,
            other,
            by_text(e, CompareOp::Ord),
        ),
        Rule::By(source) => put_partial_ord_by_partial_ord(
            acc,
            f,
            type_text(e),
            this,
            other,
            by_text(e, source),
        ),
        Rule::Key(source) => put_call_on_pair(
            acc,
            "::core::cmp::PartialOrd::partial_cmp"@,
            key_applied(e, source, kind, Side::Own),
            key_applied(e, source, kind, Side::Other),
        ),
        Rule::Default => put_call_on_pair(
            acc,
            "::core::cmp::PartialOrd::partial_cmp"@,
            this,
            other,
        ),
    }
}

/// `acc` followed by the total comparison of the field `e`.
pub open spec fn put_ord_expr(
    acc: Seq<char>,
    kind: ItemSourceKind,
    e: FieldEntryView,
    rule: Rule,
) -> Seq<char> {
    let f = binding_text("__ord_"@, e);
    let this = value_text(kind, Side::Own, e);
    let other = value_text(kind, Side::Other, e);
    match rule {
        Rule::By(source) => put_ord_by_ord(acc, f, type_text(e), this, other, by_text(e, source)),
        Rule::Key(source) => put_call_on_pair(
            acc,
            "::core::cmp::Ord::cmp"@,
            key_applied(e, source, kind, Side::Own),
            key_applied(e, source, kind, Side::Other),
        ),
        Rule::Default => put_call_on_pair(acc, "::core::cmp::Ord::cmp"@, this, other),
    }
}

/// `acc` followed by the statement that feeds the field `e` to the hasher.
pub open spec fn put_hash_expr(
    acc: Seq<char>,
    kind: ItemSourceKind,
    e: FieldEntryView,
    rule: Rule,
) -> Seq<char> {
    let f = binding_text("__hash_"@, e);
    let this = value_text(kind, Side::Own, e);
    match rule {
        Rule::By(source) => put_hash_by(acc, f, type_text(e), this, by_text(e, source)),
        Rule::Key(source) => put_hash_stmt(acc, key_applied(e, source, kind, Side::Own)),
        Rule::Default => put_hash_stmt(acc, this),
    }
}

/// `acc` followed by what the trait `op` applies to the field `e`.
pub open spec fn put_field_expr(
    acc: Seq<char>,
    op: CompareOp,
    kind: ItemSourceKind,
    e: FieldEntryView,
    rule: Rule,
) -> Seq<char> {
    match op {
        CompareOp::PartialEq => put_partial_eq_expr(acc, kind, e, rule),
        CompareOp::Eq => put_eq_expr(acc, kind, e, rule),
        CompareOp::PartialOrd => put_partial_ord_expr(acc, kind, e, rule),
        CompareOp::Ord => put_ord_expr(acc, kind, e, rule),
        CompareOp::Hash => put_hash_expr(acc, kind, e, rule),
    }
}

/// The token that stands for the field's value in a key expression.
pub fn placeholder() -> (r: &'static str)
    ensures
        r@ == placeholder_text(),
{
    "__placeholder"
}

/// Replaces every `$` in `input` by the placeholder for the field's value.
pub fn dollar_token_to_placeholder(input: &Vec<Token>) -> (r: Vec<Token>)
    ensures
        tokens_view(r@) == replaced(
            tokens_view(input@),
            "$"@,
            seq![TokenView { text: placeholder_text(), glued: false }],
        ),
{
    let mut by: Vec<Token> = Vec::new();
    let t = token(placeholder(), false);
    by.push(t);
    assert(tokens_view(by@) =~= seq![TokenView { text: placeholder_text(), glued: false }]);
    replace_tokens(input, "$", &by)
}

impl ItemSourceKind {
    /// The tokens that stand for the value of `field` on `side`.
    pub fn value_of(self, side: Side, field: &FieldEntry) -> (r: Vec<Token>)
        ensures
            tokens_view(r@) == value_tokens(self, side, field@),
    {
        let mut r: Vec<Token> = Vec::new();
        r.push(token("(", true));
        match self {
            ItemSourceKind::Struct => {
                let word = match side {
                    Side::Own => "self",
                    Side::This => "this",
                    Side::Other => "other",
                };
                r.push(token(word, true));
                r.push(token(".", true));
                let m = field.member();
                r.push(token(m.as_str(), true));
            },
            ItemSourceKind::Enum => {
                let prefix = match side {
                    Side::Own => "_self",
                    Side::This => "_this",
                    Side::Other => "_other",
                };
                r.push(token("*", true));
                let b = field.make_ident(prefix);
                r.push(token(b.as_str(), true));
            },
        }
        r.push(token(")", true));
        assert(tokens_view(r@) =~= value_tokens(self, side, field@));
        r
    }

    /// The tokens that stand for the field of the receiver.
    pub fn self_of(self, field: &FieldEntry) -> (r: Vec<Token>)
        ensures
            tokens_view(r@) == value_tokens(self, Side::Own, field@),
    {
        self.value_of(Side::Own, field)
    }

    /// The tokens that stand for the field of the value that is checked
    /// for total equality.
    pub fn this_of(self, field: &FieldEntry) -> (r: Vec<Token>)
        ensures
            tokens_view(r@) == value_tokens(self, Side::This, field@),
    {
        self.value_of(Side::This, field)
    }

    /// The tokens that stand for the field of the value that the receiver
    /// is compared with.
    pub fn other_of(self, field: &FieldEntry) -> (r: Vec<Token>)
        ensures
            tokens_view(r@) == value_tokens(self, Side::Other, field@),
    {
        self.value_of(Side::Other, field)
    }
}

/// A key expression, with the placeholder for the field's value in it.
pub struct Template<'a> {
    pub tokens: &'a Vec<Token>,
}

impl<'a> Template<'a> {
    /// The expression with `value` in place of every placeholder, as text.
    pub fn apply(&self, value: &Vec<Token>) -> (r: String)
        ensures
            r@ == render(
                replaced(tokens_view(self.tokens@), placeholder_text(), tokens_view(value@)),
            ),
    {
        let ts = replace_tokens(self.tokens, placeholder(), value);
        render_tokens(&ts)
    }
}

fn by_string(field: &FieldEntry, source: CompareOp) -> (r: String)
    ensures
        r@ == by_text(field@, source),
{
    match &field.hattrs.compare.get(source).by {
        Some(f) => render_tokens(&f.tokens),
        None => String::new(),
    }
}

fn key_string(
    field: &FieldEntry,
    source: CompareOp,
    kind: ItemSourceKind,
    side: Side,
) -> (r: String)
    ensures
        r@ == key_applied(field@, source, kind, side),
{
    let value = kind.value_of(side, field);
    match &field.hattrs.compare.get(source).key {
        Some(f) => Template { tokens: &f.tokens }.apply(&value),
        None => {
            let empty: Vec<Token> = Vec::new();
            assert(tokens_view(empty@) =~= Seq::empty());
            Template { tokens: &empty }.apply(&value)
        },
    }
}

fn value_string(kind: ItemSourceKind, side: Side, field: &FieldEntry) -> (r: String)
    ensures
        r@ == value_text(kind, side, field@),
{
    let value = match side {
        Side::Own => kind.self_of(field),
        Side::This => kind.this_of(field),
        Side::Other => kind.other_of(field),
    };
    render_tokens(&value)
}

/// Appends to `out` the test of `field` for equality, by the rule of
/// the field.
pub fn build_partial_eq_expr(out: &mut String, kind: ItemSourceKind, field: &FieldEntry, rule: Rule)
    requires
        is_rule_of(field@, CompareOp::PartialEq, rule),
    ensures
        final(out)@ == put_partial_eq_expr(old(out)@, kind, field@, rule),
{
    let this = value_string(kind, Side::Own, field);
    let other = value_string(kind, Side::Other, field);
    match rule {
        Rule::By(source) => {
            let f = field.make_ident("__eq_");
            let ty = field.type_string();
            let by = by_string(field, source);
            match source {
                CompareOp::PartialOrd => push_partial_eq_by_partial_ord(
                    out,
                    f.as_str(),
                    ty.as_str(),
                    this.as_str(),
                    other.as_str(),
                    by.as_str(),
                ),
                CompareOp::Ord => push_partial_eq_by_ord(
                    out,
                    f.as_str(),
                    ty.as_str(),
                    this.as_str(),
                    other.as_str(),
                    by.as_str(),
                ),
                _ => push_partial_eq_by_eq(
                    out,
                    f.as_str(),
                    ty.as_str(),
                    this.as_str(),
                    other.as_str(),
                    by.as_str(),
                ),
            }
        },
        Rule::Key(source) => {
            let a = key_string(field, source, kind, Side::Own);
            let b = key_string(field, source, kind, Side::Other);
            push_call_on_pair(out, "::core::cmp::PartialEq::eq", a.as_str(), b.as_str());
        },
        Rule::Default => {
            push_call_on_pair(out, "::core::cmp::PartialEq::eq", this.as_str(), other.as_str());
        },
    }
}

/// Appends to `out` the check that what stands for `field` in comparisons
/// has a total equality.
pub fn build_eq_expr(out: &mut String, kind: ItemSourceKind, field: &FieldEntry, rule: Rule)
    requires
        is_rule_of(field@, CompareOp::Eq, rule),
    ensures
        final(out)@ == put_eq_expr(old(out)@, kind, field@, rule),
{
    match rule {
        Rule::By(_) => {},
        Rule::Key(source) => {
            let x = key_string(field, source, kind, Side::This);
            push_eq_checker(out, x.as_str());
        },
        Rule::Default => {
            let x = value_string(kind, Side::This, field);
            push_eq_checker(out, x.as_str());
        },
    }
}

/// Appends to `out` the partial comparison of `field`, by the rule of
/// the field.
pub fn build_partial_ord_expr(
    out: &mut String,
    kind: ItemSourceKind,
    field: &FieldEntry,
    rule: Rule,
)
    requires
        is_rule_of(field@, CompareOp::PartialOrd, rule),
    ensures
        final(out)@ == put_partial_ord_expr(old(out)@, kind, field@, rule),
{
    let this = value_string(kind, Side::Own, field);
    let other = value_string(kind, Side::Other, field);
    match rule {
        Rule::By(source) => {
            let f = field.make_ident("__partial_ord_");
            let ty = field.type_string();
            let by = by_string(field, source);
            match source {
                CompareOp::Ord => push_partial_ord_by_ord(
                    out,
                    f.as_str(),
                    ty.as_str(),
                    this.as_str(),
                    other.as_str(),
                    by.as_str(),
                ),
                _ => push_partial_ord_by_partial_ord(
                    out,
                    f.as_str(),
                    ty.as_str(),
                    this.as_str(),
                    other.as_str(),
                    by.as_str(),
                ),
            }
        },
        Rule::Key(source) => {
            let a = key_string(field, source, kind, Side::Own);
            let b = key_string(field, source, kind, Side::Other);
            push_call_on_pair(out, "::core::cmp::PartialOrd::partial_cmp", a.as_str(), b.as_str());
        },
        Rule::Default => {
            push_call_on_pair(
                out,
                "::core::cmp::PartialOrd::partial_cmp",
                this.as_str(),
                other.as_str(),
            );
        },
    }
}

/// Appends to `out` the total comparison of `field`, by the rule of the
/// field.
pub fn build_ord_expr(out: &mut String, kind: ItemSourceKind, field: &FieldEntry, rule: Rule)
    requires
        is_rule_of(field@, CompareOp::Ord, rule),
    ensures
        final(out)@ == put_ord_expr(old(out)@, kind, field@, rule),
{
    let this = value_string(kind, Side::Own, field);
    let other = value_string(kind, Side::Other, field);
    match rule {
        Rule::By(source) => {
            let f = field.make_ident("__ord_");
            let ty = field.type_string();
            let by = by_string(field, source);
            push_ord_by_ord(
                out,
                f.as_str(),
                ty.as_str(),
                this.as_str(),
                other.as_str(),
                by.as_str(),
            );
        },
        Rule::Key(source) => {
            let a = key_string(field, source, kind, Side::Own);
            let b = key_string(field, source, kind, Side::Other);
            push_call_on_pair(out, "::core::cmp::Ord::cmp", a.as_str(), b.as_str());
        },
        Rule::Default => {
            push_call_on_pair(out, "::core::cmp::Ord::cmp", this.as_str(), other.as_str());
        },
    }
}

/// Appends to `out` the statement that feeds `field` to the hasher, by
/// the rule of the field.
pub fn build_hash_expr(out: &mut String, kind: ItemSourceKind, field: &FieldEntry, rule: Rule)
    requires
        is_rule_of(field@, CompareOp::Hash, rule),
    ensures
        final(out)@ == put_hash_expr(old(out)@, kind, field@, rule),
{
    let this = value_string(kind, Side::Own, field);
    match rule {
        Rule::By(source) => {
            let f = field.make_ident("__hash_");
            let ty = field.type_string();
            let by = by_string(field, source);
            push_hash_by(out, f.as_str(), ty.as_str(), this.as_str(), by.as_str());
        },
        Rule::Key(source) => {
            let x = key_string(field, source, kind, Side::Own);
            push_hash_stmt(out, x.as_str());
        },
        Rule::Default => {
            push_hash_stmt(out, this.as_str());
        },
    }
}

/// Appends to `out` what the trait `op` applies to `field`, by the rule
/// of the field.
pub fn build_field_expr(
    out: &mut String,
    op: CompareOp,
    kind: ItemSourceKind,
    field: &FieldEntry,
    rule: Rule,
)
    requires
        is_rule_of(field@, op, rule),
    ensures
        final(out)@ == put_field_expr(old(out)@, op, kind, field@, rule),
{
    match op {
        CompareOp::PartialEq => build_partial_eq_expr(out, kind, field, rule),
        CompareOp::Eq => build_eq_expr(out, kind, field, rule),
        CompareOp::PartialOrd => build_partial_ord_expr(out, kind, field, rule),
        CompareOp::Ord => build_ord_expr(out, kind, field, rule),
        CompareOp::Hash => build_hash_expr(out, kind, field, rule),
    }
}

} // verus!
