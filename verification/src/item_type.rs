//! The implementations of `Clone` and `Copy`.

use vstd::prelude::*;
use crate::bound::{fresh, put_where_clause, BoundForm, WhereClauseBuilder, WhereClauseView};
use crate::generics::{Generics, GenericsView};
use crate::helper::{DeriveEntry, DeriveEntryView};
use crate::item::{
    binding_text, build_ctor_args, field_entries_view, member_text, put_ctor_args, put_pattern,
    type_text, variant_entries_view, FieldEntry, FieldEntryView, ItemEnum, ItemEnumView,
    ItemStruct, ItemStructView, VariantEntry, VariantEntryView,
};
use crate::kinds::DeriveItemKind;
use crate::resolve::{
    all_fields_bounds, level_bounds, push_fields_bounds, push_level_bounds, struct_sites,
    struct_upper, variant_sites, variant_upper,
};
use crate::site::{HelperAttributes, HelperAttributesView};
use crate::structural_text::{
    push_clone_arg, push_clone_from_stmt, push_clone_from_vars, push_clone_var, push_impl_open,
    put_clone_arg, put_clone_from_stmt, put_clone_from_vars, put_clone_var, put_impl_open,
};
use crate::text::{render, render_tokens, strings_view};

verus! {

/// `acc` followed by the head of the implementation of the trait at `path`
/// for the item named `ident` with the generics `g`.
pub open spec fn put_impl_head(
    acc: Seq<char>,
    g: GenericsView,
    path: Seq<char>,
    ident: Seq<char>,
) -> Seq<char> {
    put_impl_open(
        acc,
        render(g.impl_generics.tokens),
        path,
        ident,
        render(g.type_generics.tokens),
    )
}

/// Appends to `out` the head of the implementation of the trait at `path`
/// for the item named `ident` with the generics `g`.
pub fn build_impl_head(out: &mut String, g: &Generics, path: &str, ident: &str)
    ensures
        final(out)@ == put_impl_head(old(out)@, g@, path@, ident@),
{
    let impl_g = render_tokens(&g.impl_generics.tokens);
    let type_g = render_tokens(&g.type_generics.tokens);
    push_impl_open(out, impl_g.as_str(), path, ident, type_g.as_str());
}

/// The bounds of an implementation of `kind` to which every field of every
/// one of the first `n` variants has contributed, a variant without fields
/// through its own sites.
pub open spec fn variants_fields_bounds(
    w: WhereClauseView,
    kind: DeriveItemKind,
    variants: Seq<VariantEntryView>,
    h: HelperAttributesView,
    e: DeriveEntryView,
    n: int,
) -> WhereClauseView
    decreases n,
{
    if n <= 0 {
        w
    } else {
        all_fields_bounds(
            variants_fields_bounds(w, kind, variants, h, e, n - 1),
            kind,
            variants[n - 1].fields,
            variant_upper(variants[n - 1].hattrs, h, kind, e),
        )
    }
}

/// The bounds of an implementation of `kind` for a struct to which every
/// field contributes; a struct without fields contributes what is written
/// on the struct itself.
pub open spec fn struct_bounds(
    kind: DeriveItemKind,
    item: ItemStructView,
    entries: Seq<FieldEntryView>,
    h: HelperAttributesView,
    e: DeriveEntryView,
) -> WhereClauseView {
    all_fields_bounds(fresh(item.generics), kind, entries, struct_upper(h, kind, e))
}

/// The bounds of an implementation of `kind` for an enum to which every
/// field of every variant contributes; an enum without variants
/// contributes what is written on the enum itself.
pub open spec fn enum_bounds(
    kind: DeriveItemKind,
    item: ItemEnumView,
    variants: Seq<VariantEntryView>,
    h: HelperAttributesView,
    e: DeriveEntryView,
) -> WhereClauseView {
    if variants.len() == 0 {
        level_bounds(fresh(item.generics), struct_upper(h, kind, e))
    } else {
        variants_fields_bounds(fresh(item.generics), kind, variants, h, e, variants.len() as int)
    }
}

/// Gathers the bounds of an implementation of `kind` for a struct to which
/// every field contributes.
pub fn build_struct_bounds(
    kind: DeriveItemKind,
    item: &ItemStruct,
    fields: &Vec<FieldEntry>,
    hattrs: &HelperAttributes,
    e: &DeriveEntry,
) -> (wcb: WhereClauseBuilder)
    ensures
        wcb@ == struct_bounds(kind, item@, field_entries_view(fields@), hattrs@, e@),
{
    let mut wcb = WhereClauseBuilder::new(&item.generics);
    let upper = struct_sites(hattrs, kind, e);
    push_fields_bounds(kind, fields, &upper, &mut wcb);
    wcb
}

/// Gathers the bounds of an implementation of `kind` for an enum to which
/// every field of every variant contributes.
pub fn build_enum_bounds(
    kind: DeriveItemKind,
    item: &ItemEnum,
    variants: &Vec<VariantEntry>,
    hattrs: &HelperAttributes,
    e: &DeriveEntry,
) -> (wcb: WhereClauseBuilder)
    ensures
        wcb@ == enum_bounds(kind, item@, variant_entries_view(variants@), hattrs@, e@),
{
    let mut wcb = WhereClauseBuilder::new(&item.generics);
    if variants.len() == 0 {
        let upper = struct_sites(hattrs, kind, e);
        push_level_bounds(&upper, &mut wcb);
        return wcb;
    }
    let ghost start = wcb@;
    let ghost vs = variant_entries_view(variants@);
    let mut i: usize = 0;
    while i < variants.len()
        invariant
            i <= variants.len(),
            vs == variant_entries_view(variants@),
            wcb@ == variants_fields_bounds(start, kind, vs, hattrs@, e@, i as int),
        decreases variants.len() - i,
    {
        assert(vs[i as int] == variants@[i as int]@);
        let upper = variant_sites(&variants[i].hattrs, hattrs, kind, e);
        push_fields_bounds(kind, &variants[i].fields, &upper, &mut wcb);
        i = i + 1;
    }
    wcb
}

/// The clones of the fields `entries` of the receiver, one for each field,
/// in declaration order.
pub open spec fn clone_values(entries: Seq<FieldEntryView>) -> Seq<Seq<char>> {
    Seq::new(
        entries.len(),
        |i: int| put_clone_arg(Seq::empty(), type_text(entries[i]), member_text(entries[i])),
    )
}

/// `acc` followed by the statements that make each of the first `n`
/// fields of the receiver a clone of the same field of `source`.
pub open spec fn put_clone_from_stmts(acc: Seq<char>, entries: Seq<FieldEntryView>, n: int) -> Seq<
    char,
>
    decreases n,
{
    if n <= 0 {
        acc
    } else {
        put_clone_from_stmt(
            put_clone_from_stmts(acc, entries, n - 1),
            type_text(entries[n - 1]),
            member_text(entries[n - 1]),
        )
    }
}

/// `acc` followed by the implementation of `Clone` for a struct with the
/// bounds `w`: `clone` builds the struct anew from the clone of every
/// field, and `clone_from` makes every field a clone of the same field of
/// the source.
pub open spec fn put_clone_struct(
    acc: Seq<char>,
    item: ItemStructView,
    entries: Seq<FieldEntryView>,
    w: WhereClauseView,
) -> Seq<char> {
    put_clone_from_stmts(
        put_ctor_args(
            put_where_clause(
                put_impl_head(acc, item.generics, DeriveItemKind::Clone.path(), item.ident),
                w,
                BoundForm::Plain,
                DeriveItemKind::Clone.path(),
            ) + "{ fn clone(&self) -> Self { "@ + item.ident + " "@,
            item.kind,
            entries,
            clone_values(entries),
        ) + " } fn clone_from(&mut self, source: &Self) { "@,
        entries,
        entries.len() as int,
    ) + "} }"@
}

/// The implementation of `Clone` for a struct.
pub open spec fn clone_struct_impl(
    item: ItemStructView,
    e: DeriveEntryView,
    h: HelperAttributesView,
    entries: Seq<FieldEntryView>,
) -> Seq<char> {
    put_clone_struct(
        Seq::empty(),
        item,
        entries,
        struct_bounds(DeriveItemKind::Clone, item, entries, h, e),
    )
}

/// Builds the implementation of `Clone` for a struct.
pub fn build_clone_for_struct(
    item: &ItemStruct,
    e: &DeriveEntry,
    hattrs: &HelperAttributes,
    fields: &Vec<FieldEntry>,
) -> (r: String)
    ensures
        r@ == clone_struct_impl(item@, e@, hattrs@, field_entries_view(fields@)),
{
    let kind = DeriveItemKind::Clone;
    let path = kind.to_path();
    let wcb = build_struct_bounds(kind, item, fields, hattrs, e);
    let ghost all = field_entries_view(fields@);
    let mut ctor_args: Vec<String> = Vec::new();
    let mut i: usize = 0;
    while i < fields.len()
        invariant
            i <= fields.len(),
            ctor_args.len() == i,
            forall|j: int|
                0 <= j < i ==> ctor_args@[j]@ == put_clone_arg(
                    Seq::empty(),
                    type_text(fields@[j]@),
                    member_text(fields@[j]@),
                ),
        decreases fields.len() - i,
    {
        let ty = fields[i].type_string();
        let m = fields[i].member();
        let mut arg = String::new();
        push_clone_arg(&mut arg, ty.as_str(), m.as_str());
        ctor_args.push(arg);
        i = i + 1;
    }
    assert(strings_view(ctor_args@) =~= clone_values(all));
    let mut out = String::new();
    build_impl_head(&mut out, &item.generics, path.as_str(), item.ident.as_str());
    wcb.build(&mut out, BoundForm::Plain, path.as_str());
    out.append("{ fn clone(&self) -> Self { ");
    out.append(item.ident.as_str());
    out.append(" ");
    build_ctor_args(&mut out, item.kind, fields, &ctor_args);
    out.append(" } fn clone_from(&mut self, source: &Self) { ");
    let ghost start = out@;
    let mut k: usize = 0;
    while k < fields.len()
        invariant
            k <= fields.len(),
            all == field_entries_view(fields@),
            out@ == put_clone_from_stmts(start, all, k as int),
        decreases fields.len() - k,
    {
        assert(all[k as int] == fields@[k as int]@);
        let ty = fields[k].type_string();
        let m = fields[k].member();
        push_clone_from_stmt(&mut out, ty.as_str(), m.as_str());
        k = k + 1;
    }
    out.append("} }");
    out
}

/// The clones of what the variables with the prefix `l` refer to, one for
/// each of the fields `entries`.
pub open spec fn clone_var_values(entries: Seq<FieldEntryView>) -> Seq<Seq<char>> {
    Seq::new(
        entries.len(),
        |i: int| put_clone_var(Seq::empty(), type_text(entries[i]), binding_text("l"@, entries[i])),
    )
}

/// `acc` followed by the statements that make what each of the first `n`
/// variables with the prefix `l` refers to a clone of what the variable
/// with the prefix `r` refers to.
pub open spec fn put_clone_from_var_stmts(
    acc: Seq<char>,
    entries: Seq<FieldEntryView>,
    n: int,
) -> Seq<char>
    decreases n,
{
    if n <= 0 {
        acc
    } else {
        put_clone_from_vars(
            put_clone_from_var_stmts(acc, entries, n - 1),
            type_text(entries[n - 1]),
            binding_text("l"@, entries[n - 1]),
            binding_text("r"@, entries[n - 1]),
        )
    }
}

/// `acc` followed by the arms of `clone` for the first `n` variants: each
/// matches its variant and builds it anew from the clones of its fields.
pub open spec fn put_clone_arms(acc: Seq<char>, variants: Seq<VariantEntryView>, n: int) -> Seq<
    char,
>
    decreases n,
{
    if n <= 0 {
        acc
    } else {
        let v = variants[n - 1];
        put_ctor_args(
            put_pattern(put_clone_arms(acc, variants, n - 1), "Self"@, v, "l"@) + " => Self::"@
                + v.variant.ident + " "@,
            v.variant.kind,
            v.fields,
            clone_var_values(v.fields),
        ) + ", "@
    }
}

/// `acc` followed by the arms of `clone_from` for the first `n` variants:
/// each matches two values of its variant and makes every field of the
/// first a clone of the same field of the second.
pub open spec fn put_clone_from_arms(
    acc: Seq<char>,
    variants: Seq<VariantEntryView>,
    n: int,
) -> Seq<char>
    decreases n,
{
    if n <= 0 {
        acc
    } else {
        let v = variants[n - 1];
        put_clone_from_var_stmts(
            put_pattern(
                put_pattern(put_clone_from_arms(acc, variants, n - 1) + "("@, "Self"@, v, "l"@)
                    + ", "@,
                "Self"@,
                v,
                "r"@,
            ) + ") => { "@,
            v.fields,
            v.fields.len() as int,
        ) + "}, "@
    }
}

/// `acc` followed by the implementation of `Clone` for an enum with the
/// bounds `w`. Where the receiver and the source of `clone_from` are of
/// different variants, the receiver becomes a clone of the source as a
/// whole.
pub open spec fn put_clone_enum(
    acc: Seq<char>,
    item: ItemEnumView,
    variants: Seq<VariantEntryView>,
    w: WhereClauseView,
) -> Seq<char> {
    put_clone_from_arms(
        put_clone_arms(
            put_where_clause(
                put_impl_head(acc, item.generics, DeriveItemKind::Clone.path(), item.ident),
                w,
                BoundForm::Plain,
                DeriveItemKind::Clone.path(),
            ) + "{ fn clone(&self) -> Self { match self { "@,
            variants,
            variants.len() as int,
        ) + "} } fn clone_from(&mut self, source: &Self) { match (self, source) { "@,
        variants,
        variants.len() as int,
    ) + "(lhs, rhs) => *lhs = <Self as ::core::clone::Clone>::clone(rhs), } } }"@
}

/// The implementation of `Clone` for an enum.
pub open spec fn clone_enum_impl(
    item: ItemEnumView,
    e: DeriveEntryView,
    h: HelperAttributesView,
    variants: Seq<VariantEntryView>,
) -> Seq<char> {
    put_clone_enum(
        Seq::empty(),
        item,
        variants,
        enum_bounds(DeriveItemKind::Clone, item, variants, h, e),
    )
}

fn clone_var_strings(fields: &Vec<FieldEntry>) -> (r: Vec<String>)
    ensures
        r.len() == fields.len(),
        strings_view(r@) == clone_var_values(field_entries_view(fields@)),
{
    let mut args: Vec<String> = Vec::new();
    let mut i: usize = 0;
    while i < fields.len()
        invariant
            i <= fields.len(),
            args.len() == i,
            forall|j: int|
                0 <= j < i ==> args@[j]@ == put_clone_var(
                    Seq::empty(),
                    type_text(fields@[j]@),
                    binding_text("l"@, fields@[j]@),
                ),
        decreases fields.len() - i,
    {
        let ty = fields[i].type_string();
        let l = fields[i].make_ident("l");
        let mut arg = String::new();
        push_clone_var(&mut arg, ty.as_str(), l.as_str());
        args.push(arg);
        i = i + 1;
    }
    assert(strings_view(args@) =~= clone_var_values(field_entries_view(fields@)));
    args
}

/// Builds the implementation of `Clone` for an enum.
pub fn build_clone_for_enum(
    item: &ItemEnum,
    e: &DeriveEntry,
    hattrs: &HelperAttributes,
    variants: &Vec<VariantEntry>,
) -> (r: String)
    ensures
        r@ == clone_enum_impl(item@, e@, hattrs@, variant_entries_view(variants@)),
{
    let kind = DeriveItemKind::Clone;
    let path = kind.to_path();
    let wcb = build_enum_bounds(kind, item, variants, hattrs, e);
    let ghost vs = variant_entries_view(variants@);
    let mut out = String::new();
    build_impl_head(&mut out, &item.generics, path.as_str(), item.ident.as_str());
    wcb.build(&mut out, BoundForm::Plain, path.as_str());
    out.append("{ fn clone(&self) -> Self { match self { ");
    let ghost start = out@;
    let mut i: usize = 0;
    while i < variants.len()
        invariant
            i <= variants.len(),
            vs == variant_entries_view(variants@),
            out@ == put_clone_arms(start, vs, i as int),
        decreases variants.len() - i,
    {
        assert(vs[i as int] == variants@[i as int]@);
        let v = &variants[i];
        let args = clone_var_strings(&v.fields);
        v.make_pat(&mut out, "l");
        out.append(" => Self::");
        out.append(v.variant.ident.as_str());
        out.append(" ");
        build_ctor_args(&mut out, v.variant.kind, &v.fields, &args);
        out.append(", ");
        i = i + 1;
    }
    out.append("} } fn clone_from(&mut self, source: &Self) { match (self, source) { ");
    let ghost mid = out@;
    let mut k: usize = 0;
    while k < variants.len()
        invariant
            k <= variants.len(),
            vs == variant_entries_view(variants@),
            out@ == put_clone_from_arms(mid, vs, k as int),
        decreases variants.len() - k,
    {
        assert(vs[k as int] == variants@[k as int]@);
        let v = &variants[k];
        out.append("(");
        v.make_pat(&mut out, "l");
        out.append(", ");
        v.make_pat(&mut out, "r");
        out.append(") => { ");
        let ghost inner = out@;
        let ghost fs = field_entries_view(v.fields@);
        let mut j: usize = 0;
        while j < v.fields.len()
            invariant
                j <= v.fields.len(),
                fs == field_entries_view(v.fields@),
                out@ == put_clone_from_var_stmts(inner, fs, j as int),
            decreases v.fields.len() - j,
        {
            assert(fs[j as int] == v.fields@[j as int]@);
            let ty = v.fields[j].type_string();
            let l = v.fields[j].make_ident("l");
            let r = v.fields[j].make_ident("r");
            push_clone_from_vars(&mut out, ty.as_str(), l.as_str(), r.as_str());
            j = j + 1;
        }
        out.append("}, ");
        k = k + 1;
    }
    out.append("(lhs, rhs) => *lhs = <Self as ::core::clone::Clone>::clone(rhs), } } }");
    out
}

/// The implementation of `Copy` for a struct: the trait has no method, so
/// the implementation holds nothing but its bounds.
pub open spec fn copy_struct_impl(
    item: ItemStructView,
    e: DeriveEntryView,
    h: HelperAttributesView,
    entries: Seq<FieldEntryView>,
) -> Seq<char> {
    put_where_clause(
        put_impl_head(Seq::empty(), item.generics, DeriveItemKind::Copy.path(), item.ident),
        struct_bounds(DeriveItemKind::Copy, item, entries, h, e),
        BoundForm::Plain,
        DeriveItemKind::Copy.path(),
    ) + "{}"@
}

/// The implementation of `Copy` for an enum.
pub open spec fn copy_enum_impl(
    item: ItemEnumView,
    e: DeriveEntryView,
    h: HelperAttributesView,
    variants: Seq<VariantEntryView>,
) -> Seq<char> {
    put_where_clause(
        put_impl_head(Seq::empty(), item.generics, DeriveItemKind::Copy.path(), item.ident),
        enum_bounds(DeriveItemKind::Copy, item, variants, h, e),
        BoundForm::Plain,
        DeriveItemKind::Copy.path(),
    ) + "{}"@
}

/// Builds the implementation of `Copy` for a struct.
pub fn build_copy_for_struct(
    item: &ItemStruct,
    e: &DeriveEntry,
    hattrs: &HelperAttributes,
    fields: &Vec<FieldEntry>,
) -> (r: String)
    ensures
        r@ == copy_struct_impl(item@, e@, hattrs@, field_entries_view(fields@)),
{
    let kind = DeriveItemKind::Copy;
    let path = kind.to_path();
    let wcb = build_struct_bounds(kind, item, fields, hattrs, e);
    let mut out = String::new();
    build_impl_head(&mut out, &item.generics, path.as_str(), item.ident.as_str());
    wcb.build(&mut out, BoundForm::Plain, path.as_str());
    out.append("{}");
    out
}

/// Builds the implementation of `Copy` for an enum.
pub fn build_copy_for_enum(
    item: &ItemEnum,
    e: &DeriveEntry,
    hattrs: &HelperAttributes,
    variants: &Vec<VariantEntry>,
) -> (r: String)
    ensures
        r@ == copy_enum_impl(item@, e@, hattrs@, variant_entries_view(variants@)),
{
    let kind = DeriveItemKind::Copy;
    let path = kind.to_path();
    let wcb = build_enum_bounds(kind, item, variants, hattrs, e);
    let mut out = String::new();
    build_impl_head(&mut out, &item.generics, path.as_str(), item.ident.as_str());
    wcb.build(&mut out, BoundForm::Plain, path.as_str());
    out.append("{}");
    out
}

} // verus!
