//! The implementations of `Deref`, `DerefMut` and of the operators, made
//! from the shape of a struct.

use vstd::prelude::*;
use crate::bound::{
    fresh, put_where_clause, BoundForm, WhereClauseBuilder, WhereClauseView,
};
use crate::common::BinaryOp;
use crate::generics::{expand_self_in_generics, generics_self_expanded, Generics, GenericsView};
use crate::helper::{DeriveEntry, DeriveEntryView};
use crate::item::{
    build_ctor_args, field_entries_view, member_text, put_ctor_args, type_text, FieldEntry,
    FieldEntryView, ItemStruct, ItemStructView,
};
use crate::item_type::{build_impl_head, put_impl_head};
use crate::kinds::{DeriveItemKind, UnaryOp};
use crate::resolve::{
    all_fields_bounds, level_bounds, push_fields_bounds, push_level_bounds, struct_sites,
    struct_upper,
};
use crate::site::{HelperAttributes, HelperAttributesView};
use crate::structural_text::{
    push_assign_stmt, push_binary_value, push_unary_value, put_assign_stmt, put_binary_value,
    put_unary_value,
};
use crate::text::{
    extend_tokens, render, render_tokens, strings_view, token, tokens_view, Diagnostic,
    DiagnosticView, Fragment, FragmentView, Token, TokenView, CALL_SITE,
};

verus! {

/// The complaint that `Deref` or `DerefMut` is asked for a struct that
/// does not have exactly one field.
pub open spec fn single_field_message(kind: DeriveItemKind) -> Seq<char> {
    "`#[derive_ex("@ + kind.name() + ")]` supports only single field struct."@
}

/// The implementation of `Deref` or `DerefMut`, as `e` requests, for a
/// struct with exactly one field: the field is what the struct
/// dereferences to. A struct with another number of fields is a fault.
/// Only the sites of the item contribute bounds.
pub open spec fn deref_struct_impl(
    item: ItemStructView,
    e: DeriveEntryView,
    h: HelperAttributesView,
    entries: Seq<FieldEntryView>,
) -> Result<Seq<char>, DiagnosticView> {
    if entries.len() != 1 {
        Err(DiagnosticView { span: CALL_SITE, message: single_field_message(e.kind) })
    } else {
        let head = put_where_clause(
            put_impl_head(Seq::empty(), item.generics, e.kind.path(), item.ident),
            level_bounds(fresh(item.generics), struct_upper(h, e.kind, e)),
            BoundForm::Plain,
            e.kind.path(),
        );
        let ty = type_text(entries[0]);
        let member = member_text(entries[0]);
        if e.kind == DeriveItemKind::Deref {
            Ok(
                head + "{ type Target = "@ + ty + "; fn deref(&self) -> &"@ + ty + " { &self."@
                    + member + " } }"@,
            )
        } else {
            Ok(
                head + "{ fn deref_mut(&mut self) -> &mut "@ + ty + " { &mut self."@ + member
                    + " } }"@,
            )
        }
    }
}

/// Builds the implementation of `Deref` or `DerefMut` for a struct.
pub(crate) fn build_deref_for_struct(
    item: &ItemStruct,
    e: &DeriveEntry,
    hattrs: &HelperAttributes,
    fields: &Vec<FieldEntry>,
) -> (r: Result<String, Diagnostic>)
    requires
        e.kind == DeriveItemKind::Deref || e.kind == DeriveItemKind::DerefMut,
    ensures
        crate::text::code_result_view(r) == deref_struct_impl(
            item@,
            e@,
            hattrs@,
            field_entries_view(fields@),
        ),
{
    let kind = e.kind;
    if fields.len() != 1 {
        let mut message = "`#[derive_ex(".to_owned();
        let name = kind.to_string();
        message.append(name.as_str());
        message.append(")]` supports only single field struct.");
        return Err(Diagnostic { span: CALL_SITE, message });
    }
    assert(field_entries_view(fields@)[0] == fields@[0]@);
    let path = kind.to_path();
    let mut wcb = WhereClauseBuilder::new(&item.generics);
    let upper = struct_sites(hattrs, kind, e);
    push_level_bounds(&upper, &mut wcb);
    let ty = fields[0].type_string();
    let member = fields[0].member();
    let mut out = String::new();
    build_impl_head(&mut out, &item.generics, path.as_str(), item.ident.as_str());
    wcb.build(&mut out, BoundForm::Plain, path.as_str());
    match kind {
        DeriveItemKind::Deref => {
            out.append("{ type Target = ");
            out.append(ty.as_str());
            out.append("; fn deref(&self) -> &");
            out.append(ty.as_str());
            out.append(" { &self.");
            out.append(member.as_str());
            out.append(" } }");
        },
        _ => {
            out.append("{ fn deref_mut(&mut self) -> &mut ");
            out.append(ty.as_str());
            out.append(" { &mut self.");
            out.append(member.as_str());
            out.append(" } }");
        },
    }
    Ok(out)
}

/// `x`, behind a reference where `is_ref` is set.
pub open spec fn with_ref_text(x: Seq<char>, is_ref: bool) -> Seq<char> {
    if is_ref {
        Seq::empty() + "&"@ + x
    } else {
        Seq::empty() + x
    }
}

/// The field `e` of the value named `this`.
pub open spec fn member_of(this: Seq<char>, e: FieldEntryView) -> Seq<char> {
    Seq::empty() + this + "."@ + member_text(e)
}

/// The tokens of the type that an implementation is for: the item's name
/// and its parameters.
pub open spec fn this_type_tokens(ident: Seq<char>, g: GenericsView) -> Seq<TokenView> {
    seq![TokenView { text: ident, glued: false }] + g.type_generics.tokens
}

/// The type that an implementation is for.
pub open spec fn this_type(ident: Seq<char>, g: GenericsView) -> FragmentView {
    FragmentView { tokens: this_type_tokens(ident, g), span: CALL_SITE }
}

/// `x`, behind a reference where `is_ref` is set.
pub fn with_ref(x: &str, is_ref: bool) -> (r: String)
    ensures
        r@ == with_ref_text(x@, is_ref),
{
    let mut s = String::new();
    if is_ref {
        s.append("&");
    }
    s.append(x);
    s
}

/// The field `field` of the value named `this`.
pub fn member(this: &str, field: &FieldEntry) -> (r: String)
    ensures
        r@ == member_of(this@, field@),
{
    let mut s = String::new();
    s.append(this);
    s.append(".");
    let m = field.member();
    s.append(m.as_str());
    s
}

/// The type that an implementation for `item` is for.
pub fn this_type_of(item: &ItemStruct) -> (r: Fragment)
    ensures
        r@ == this_type(item@.ident, item@.generics),
{
    let mut tokens: Vec<Token> = Vec::new();
    let t = token(item.ident.as_str(), false);
    tokens.push(t);
    assert(tokens_view(tokens@) =~= seq![TokenView { text: item@.ident, glued: false }]);
    extend_tokens(&mut tokens, &item.generics.type_generics.tokens);
    Fragment { tokens, span: CALL_SITE }
}

/// The generics of an implementation of an operator for `item`: those of
/// the item, with `Self` written out.
pub open spec fn operator_generics(item: ItemStructView) -> GenericsView {
    generics_self_expanded(item.generics, this_type(item.ident, item.generics))
}

/// The bounds of an implementation of the operator `kind` for a struct:
/// every field contributes, and a struct without fields contributes what
/// is written on the struct itself.
pub open spec fn operator_bounds(
    kind: DeriveItemKind,
    item: ItemStructView,
    entries: Seq<FieldEntryView>,
    h: HelperAttributesView,
    e: DeriveEntryView,
) -> WhereClauseView {
    all_fields_bounds(fresh(operator_generics(item)), kind, entries, struct_upper(h, kind, e))
}

fn build_operator_bounds(
    kind: DeriveItemKind,
    generics: &Generics,
    fields: &Vec<FieldEntry>,
    hattrs: &HelperAttributes,
    e: &DeriveEntry,
) -> (wcb: WhereClauseBuilder)
    ensures
        wcb@ == all_fields_bounds(
            fresh(generics@),
            kind,
            field_entries_view(fields@),
            struct_upper(hattrs@, kind, e@),
        ),
{
    let mut wcb = WhereClauseBuilder::new(generics);
    let upper = struct_sites(hattrs, kind, e);
    push_fields_bounds(kind, fields, &upper, &mut wcb);
    wcb
}

/// The results of the operator `op` on the fields `entries` of the
/// receiver and of `rhs`, one for each field, with each side taken by
/// value or by reference.
pub open spec fn binary_values(
    entries: Seq<FieldEntryView>,
    op: BinaryOp,
    lhs_ref: bool,
    rhs_ref: bool,
) -> Seq<Seq<char>> {
    Seq::new(
        entries.len(),
        |i: int|
            put_binary_value(
                Seq::empty(),
                with_ref_text(type_text(entries[i]), lhs_ref),
                DeriveItemKind::BinaryOp(op).path(),
                with_ref_text(type_text(entries[i]), rhs_ref),
                op.func_name(),
                with_ref_text(member_of("self"@, entries[i]), lhs_ref),
                with_ref_text(member_of("rhs"@, entries[i]), rhs_ref),
            ),
    )
}

/// `acc` followed by the implementation of the binary operator `op` for a
/// struct, with each side taken by value or by reference: the result is
/// the struct built from the operator's results on the fields.
pub open spec fn put_binary_impl(
    acc: Seq<char>,
    item: ItemStructView,
    op: BinaryOp,
    entries: Seq<FieldEntryView>,
    w: WhereClauseView,
    lhs_ref: bool,
    rhs_ref: bool,
) -> Seq<char> {
    let path = DeriveItemKind::BinaryOp(op).path();
    let this_ty = render(this_type_tokens(item.ident, item.generics));
    put_ctor_args(
        put_where_clause(
            acc + "#[automatically_derived] impl "@ + render(
                operator_generics(item).impl_generics.tokens,
            ) + path + "<"@ + with_ref_text(this_ty, rhs_ref) + "> for "@ + with_ref_text(
                this_ty,
                lhs_ref,
            ) + " "@,
            w,
            BoundForm::Binary { lhs_ref, rhs_ref },
            path,
        ) + "{ type Output = "@ + this_ty + "; fn "@ + op.func_name() + "(self, rhs: "@
            + with_ref_text(this_ty, rhs_ref) + ") -> Self::Output { "@ + item.ident + " "@,
        item.kind,
        entries,
        binary_values(entries, op, lhs_ref, rhs_ref),
    ) + " } } "@
}

/// The implementations of the binary operator `op` for a struct, for all
/// four ways of taking the two sides by value or by reference.
pub open spec fn binary_op_impls(
    item: ItemStructView,
    op: BinaryOp,
    e: DeriveEntryView,
    h: HelperAttributesView,
    entries: Seq<FieldEntryView>,
) -> Seq<char> {
    let w = operator_bounds(DeriveItemKind::BinaryOp(op), item, entries, h, e);
    put_binary_impl(
        put_binary_impl(
            put_binary_impl(
                put_binary_impl(Seq::empty(), item, op, entries, w, false, false),
                item,
                op,
                entries,
                w,
                false,
                true,
            ),
            item,
            op,
            entries,
            w,
            true,
            false,
        ),
        item,
        op,
        entries,
        w,
        true,
        true,
    )
}

fn build_binary_impl(
    out: &mut String,
    item: &ItemStruct,
    generics: &Generics,
    op: BinaryOp,
    fields: &Vec<FieldEntry>,
    wcb: &WhereClauseBuilder,
    lhs_ref: bool,
    rhs_ref: bool,
)
    requires
        generics@ == operator_generics(item@),
    ensures
        final(out)@ == put_binary_impl(
            old(out)@,
            item@,
            op,
            field_entries_view(fields@),
            wcb@,
            lhs_ref,
            rhs_ref,
        ),
{
    let path = DeriveItemKind::BinaryOp(op).to_path();
    let func = op.to_func_name();
    let this = this_type_of(item);
    let this_ty = render_tokens(&this.tokens);
    let self_ty = with_ref(this_ty.as_str(), lhs_ref);
    let rhs_ty = with_ref(this_ty.as_str(), rhs_ref);
    let mut values: Vec<String> = Vec::new();
    let mut i: usize = 0;
    while i < fields.len()
        invariant
            i <= fields.len(),
            values.len() == i,
            path@ == DeriveItemKind::BinaryOp(op).path(),
            func@ == op.func_name(),
            forall|j: int|
                0 <= j < i ==> values@[j]@ == put_binary_value(
                    Seq::empty(),
                    with_ref_text(type_text(fields@[j]@), lhs_ref),
                    DeriveItemKind::BinaryOp(op).path(),
                    with_ref_text(type_text(fields@[j]@), rhs_ref),
                    op.func_name(),
                    with_ref_text(member_of("self"@, fields@[j]@), lhs_ref),
                    with_ref_text(member_of("rhs"@, fields@[j]@), rhs_ref),
                ),
        decreases fields.len() - i,
    {
        let field = &fields[i];
        let ty = field.type_string();
        let l = member("self", field);
        let r = member("rhs", field);
        let lhs = with_ref(l.as_str(), lhs_ref);
        let rhs = with_ref(r.as_str(), rhs_ref);
        let lhs_ty = with_ref(ty.as_str(), lhs_ref);
        let rhs_field_ty = with_ref(ty.as_str(), rhs_ref);
        let mut value = String::new();
        push_binary_value(
            &mut value,
            lhs_ty.as_str(),
            path.as_str(),
            rhs_field_ty.as_str(),
            func,
            lhs.as_str(),
            rhs.as_str(),
        );
        values.push(value);
        i = i + 1;
    }
    assert(strings_view(values@) =~= binary_values(
        field_entries_view(fields@),
        op,
        lhs_ref,
        rhs_ref,
    ));
    out.append("#[automatically_derived] impl ");
    crate::text::push_fragment(out, &generics.impl_generics);
    out.append(path.as_str());
    out.append("<");
    out.append(rhs_ty.as_str());
    out.append("> for ");
    out.append(self_ty.as_str());
    out.append(" ");
    wcb.build(out, BoundForm::Binary { lhs_ref, rhs_ref }, path.as_str());
    out.append("{ type Output = ");
    out.append(this_ty.as_str());
    out.append("; fn ");
    out.append(func);
    out.append("(self, rhs: ");
    out.append(rhs_ty.as_str());
    out.append(") -> Self::Output { ");
    out.append(item.ident.as_str());
    out.append(" ");
    build_ctor_args(out, item.kind, fields, &values);
    out.append(" } } ");
}

/// Builds the implementations of the binary operator `op` for a struct.
pub fn build_binary_op(
    item: &ItemStruct,
    op: BinaryOp,
    e: &DeriveEntry,
    hattrs: &HelperAttributes,
    fields: &Vec<FieldEntry>,
) -> (r: String)
    ensures
        r@ == binary_op_impls(item@, op, e@, hattrs@, field_entries_view(fields@)),
{
    let kind = DeriveItemKind::BinaryOp(op);
    let this = this_type_of(item);
    let generics = expand_self_in_generics(&item.generics, &this);
    let wcb = build_operator_bounds(kind, &generics, fields, hattrs, e);
    let mut out = String::new();
    build_binary_impl(&mut out, item, &generics, op, fields, &wcb, false, false);
    build_binary_impl(&mut out, item, &generics, op, fields, &wcb, false, true);
    build_binary_impl(&mut out, item, &generics, op, fields, &wcb, true, false);
    build_binary_impl(&mut out, item, &generics, op, fields, &wcb, true, true);
    out
}

/// The name of the method of the assigning form of `op`.
pub open spec fn assign_func_name(op: BinaryOp) -> Seq<char> {
    Seq::empty() + op.func_name() + "_assign"@
}

/// `acc` followed by the statements that apply the assigning form of `op`
/// to each of the first `n` fields of the receiver and of `rhs`.
pub open spec fn put_assign_stmts(
    acc: Seq<char>,
    entries: Seq<FieldEntryView>,
    op: BinaryOp,
    rhs_ref: bool,
    n: int,
) -> Seq<char>
    decreases n,
{
    if n <= 0 {
        acc
    } else {
        put_assign_stmt(
            put_assign_stmts(acc, entries, op, rhs_ref, n - 1),
            type_text(entries[n - 1]),
            DeriveItemKind::AssignOp(op).path(),
            with_ref_text(type_text(entries[n - 1]), rhs_ref),
            assign_func_name(op),
            member_of("self"@, entries[n - 1]),
            with_ref_text(member_of("rhs"@, entries[n - 1]), rhs_ref),
        )
    }
}

/// `acc` followed by the implementation of the assigning form of `op` for
/// a struct, with the right side taken by value or by reference: every
/// field of the receiver is assigned in place.
pub open spec fn put_assign_impl(
    acc: Seq<char>,
    item: ItemStructView,
    op: BinaryOp,
    entries: Seq<FieldEntryView>,
    w: WhereClauseView,
    rhs_ref: bool,
) -> Seq<char> {
    let path = DeriveItemKind::AssignOp(op).path();
    let this_ty = render(this_type_tokens(item.ident, item.generics));
    put_assign_stmts(
        put_where_clause(
            acc + "#[automatically_derived] impl "@ + render(
                operator_generics(item).impl_generics.tokens,
            ) + path + "<"@ + with_ref_text(this_ty, rhs_ref) + "> for "@ + this_ty + " "@,
            w,
            BoundForm::Assign { rhs_ref },
            path,
        ) + "{ fn "@ + assign_func_name(op) + "(&mut self, rhs: "@ + with_ref_text(
            this_ty,
            rhs_ref,
        ) + ") { "@,
        entries,
        op,
        rhs_ref,
        entries.len() as int,
    ) + "} } "@
}

/// The implementations of the assigning form of `op` for a struct, with
/// the right side taken by value and by reference.
pub open spec fn assign_op_impls(
    item: ItemStructView,
    op: BinaryOp,
    e: DeriveEntryView,
    h: HelperAttributesView,
    entries: Seq<FieldEntryView>,
) -> Seq<char> {
    let w = operator_bounds(DeriveItemKind::AssignOp(op), item, entries, h, e);
    put_assign_impl(
        put_assign_impl(Seq::empty(), item, op, entries, w, false),
        item,
        op,
        entries,
        w,
        true,
    )
}

fn build_assign_impl(
    out: &mut String,
    item: &ItemStruct,
    generics: &Generics,
    op: BinaryOp,
    fields: &Vec<FieldEntry>,
    wcb: &WhereClauseBuilder,
    rhs_ref: bool,
)
    requires
        generics@ == operator_generics(item@),
    ensures
        final(out)@ == put_assign_impl(
            old(out)@,
            item@,
            op,
            field_entries_view(fields@),
            wcb@,
            rhs_ref,
        ),
{
    let path = DeriveItemKind::AssignOp(op).to_path();
    let mut func = String::new();
    func.append(op.to_func_name());
    func.append("_assign");
    let this = this_type_of(item);
    let this_ty = render_tokens(&this.tokens);
    let rhs_ty = with_ref(this_ty.as_str(), rhs_ref);
    out.append("#[automatically_derived] impl ");
    crate::text::push_fragment(out, &generics.impl_generics);
    out.append(path.as_str());
    out.append("<");
    out.append(rhs_ty.as_str());
    out.append("> for ");
    out.append(this_ty.as_str());
    out.append(" ");
    wcb.build(out, BoundForm::Assign { rhs_ref }, path.as_str());
    out.append("{ fn ");
    out.append(func.as_str());
    out.append("(&mut self, rhs: ");
    out.append(rhs_ty.as_str());
    out.append(") { ");
    let ghost start = out@;
    let ghost all = field_entries_view(fields@);
    let mut i: usize = 0;
    while i < fields.len()
        invariant
            i <= fields.len(),
            all == field_entries_view(fields@),
            path@ == DeriveItemKind::AssignOp(op).path(),
            func@ == assign_func_name(op),
            out@ == put_assign_stmts(start, all, op, rhs_ref, i as int),
        decreases fields.len() - i,
    {
        assert(all[i as int] == fields@[i as int]@);
        let field = &fields[i];
        let ty = field.type_string();
        let lhs = member("self", field);
        let r = member("rhs", field);
        let rhs = with_ref(r.as_str(), rhs_ref);
        let rhs_field_ty = with_ref(ty.as_str(), rhs_ref);
        push_assign_stmt(
            out,
            ty.as_str(),
            path.as_str(),
            rhs_field_ty.as_str(),
            func.as_str(),
            lhs.as_str(),
            rhs.as_str(),
        );
        i = i + 1;
    }
    out.append("} } ");
}

/// Builds the implementations of the assigning form of `op` for a struct.
pub fn build_assign_op(
    item: &ItemStruct,
    op: BinaryOp,
    e: &DeriveEntry,
    hattrs: &HelperAttributes,
    fields: &Vec<FieldEntry>,
) -> (r: String)
    ensures
        r@ == assign_op_impls(item@, op, e@, hattrs@, field_entries_view(fields@)),
{
    let kind = DeriveItemKind::AssignOp(op);
    let this = this_type_of(item);
    let generics = expand_self_in_generics(&item.generics, &this);
    let wcb = build_operator_bounds(kind, &generics, fields, hattrs, e);
    let mut out = String::new();
    build_assign_impl(&mut out, item, &generics, op, fields, &wcb, false);
    build_assign_impl(&mut out, item, &generics, op, fields, &wcb, true);
    out
}

/// The results of the unary operator `op` on the fields `entries` of the
/// receiver, one for each field.
pub open spec fn unary_values(entries: Seq<FieldEntryView>, op: UnaryOp, lhs_ref: bool) -> Seq<
    Seq<char>,
> {
    Seq::new(
        entries.len(),
        |i: int|
            put_unary_value(
                Seq::empty(),
                with_ref_text(type_text(entries[i]), lhs_ref),
                DeriveItemKind::UnaryOp(op).path(),
                op.func_name(),
                with_ref_text(member_of("self"@, entries[i]), lhs_ref),
            ),
    )
}

/// `acc` followed by the implementation of the unary operator `op` for a
/// struct, with the operand taken by value or by reference: the result is
/// the struct built from the operator's results on the fields.
pub open spec fn put_unary_impl(
    acc: Seq<char>,
    item: ItemStructView,
    op: UnaryOp,
    entries: Seq<FieldEntryView>,
    w: WhereClauseView,
    lhs_ref: bool,
) -> Seq<char> {
    let path = DeriveItemKind::UnaryOp(op).path();
    let this_ty = render(this_type_tokens(item.ident, item.generics));
    put_ctor_args(
        put_where_clause(
            acc + "#[automatically_derived] impl "@ + render(
                operator_generics(item).impl_generics.tokens,
            ) + path + " for "@ + with_ref_text(this_ty, lhs_ref) + " "@,
            w,
            BoundForm::Unary { lhs_ref },
            path,
        ) + "{ type Output = "@ + this_ty + "; fn "@ + op.func_name()
            + "(self) -> Self::Output { "@ + item.ident + " "@,
        item.kind,
        entries,
        unary_values(entries, op, lhs_ref),
    ) + " } } "@
}

/// The implementations of the unary operator `op` for a struct, with the
/// operand taken by value and by reference.
pub open spec fn unary_op_impls(
    item: ItemStructView,
    op: UnaryOp,
    e: DeriveEntryView,
    h: HelperAttributesView,
    entries: Seq<FieldEntryView>,
) -> Seq<char> {
    let w = operator_bounds(DeriveItemKind::UnaryOp(op), item, entries, h, e);
    put_unary_impl(
        put_unary_impl(Seq::empty(), item, op, entries, w, false),
        item,
        op,
        entries,
        w,
        true,
    )
}

fn build_unary_impl(
    out: &mut String,
    item: &ItemStruct,
    generics: &Generics,
    op: UnaryOp,
    fields: &Vec<FieldEntry>,
    wcb: &WhereClauseBuilder,
    lhs_ref: bool,
)
    requires
        generics@ == operator_generics(item@),
    ensures
        final(out)@ == put_unary_impl(
            old(out)@,
            item@,
            op,
            field_entries_view(fields@),
            wcb@,
            lhs_ref,
        ),
{
    let path = DeriveItemKind::UnaryOp(op).to_path();
    let func = op.to_func_name();
    let this = this_type_of(item);
    let this_ty = render_tokens(&this.tokens);
    let self_ty = with_ref(this_ty.as_str(), lhs_ref);
    let mut values: Vec<String> = Vec::new();
    let mut i: usize = 0;
    while i < fields.len()
        invariant
            i <= fields.len(),
            values.len() == i,
            path@ == DeriveItemKind::UnaryOp(op).path(),
            func@ == op.func_name(),
            forall|j: int|
                0 <= j < i ==> values@[j]@ == put_unary_value(
                    Seq::empty(),
                    with_ref_text(type_text(fields@[j]@), lhs_ref),
                    DeriveItemKind::UnaryOp(op).path(),
                    op.func_name(),
                    with_ref_text(member_of("self"@, fields@[j]@), lhs_ref),
                ),
        decreases fields.len() - i,
    {
        let field = &fields[i];
        let ty = field.type_string();
        let l = member("self", field);
        let lhs = with_ref(l.as_str(), lhs_ref);
        let lhs_ty = with_ref(ty.as_str(), lhs_ref);
        let mut value = String::new();
        push_unary_value(&mut value, lhs_ty.as_str(), path.as_str(), func, lhs.as_str());
        values.push(value);
        i = i + 1;
    }
    assert(strings_view(values@) =~= unary_values(field_entries_view(fields@), op, lhs_ref));
    out.append("#[automatically_derived] impl ");
    crate::text::push_fragment(out, &generics.impl_generics);
    out.append(path.as_str());
    out.append(" for ");
    out.append(self_ty.as_str());
    out.append(" ");
    wcb.build(out, BoundForm::Unary { lhs_ref }, path.as_str());
    out.append("{ type Output = ");
    out.append(this_ty.as_str());
    out.append("; fn ");
    out.append(func);
    out.append("(self) -> Self::Output { ");
    out.append(item.ident.as_str());
    out.append(" ");
    build_ctor_args(out, item.kind, fields, &values);
    out.append(" } } ");
}

/// Builds the implementations of the unary operator `op` for a struct.
pub fn build_unary_op(
    item: &ItemStruct,
    op: UnaryOp,
    e: &DeriveEntry,
    hattrs: &HelperAttributes,
    fields: &Vec<FieldEntry>,
) -> (r: String)
    ensures
        r@ == unary_op_impls(item@, op, e@, hattrs@, field_entries_view(fields@)),
{
    let kind = DeriveItemKind::UnaryOp(op);
    let this = this_type_of(item);
    let generics = expand_self_in_generics(&item.generics, &this);
    let wcb = build_operator_bounds(kind, &generics, fields, hattrs, e);
    let mut out = String::new();
    build_unary_impl(&mut out, item, &generics, op, fields, &wcb, false);
    build_unary_impl(&mut out, item, &generics, op, fields, &wcb, true);
    out
}

} // verus!
