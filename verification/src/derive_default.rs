//! The implementation of `Default`.

use vstd::prelude::*;
use crate::attrs::ExprShape;
use crate::bound::{
    fresh, put_where_clause, sites_view, BoundForm, Bounds, BoundsView,
    WhereClauseBuilder, WhereClauseView,
};
use crate::helper::{DeriveEntry, DeriveEntryView};
use crate::item::{
    build_ctor_args, field_entries_view, put_ctor_args, type_text, variant_entries_view,
    FieldEntry, FieldEntryView, ItemEnum, ItemEnumView, ItemStruct, ItemStructView, VariantEntry,
    VariantEntryView,
};
use crate::item_type::{build_impl_head, put_impl_head};
use crate::kinds::DeriveItemKind;
use crate::resolve::{
    field_bounds, level_bounds, push_level_bounds, struct_sites, struct_upper, variant_sites,
    variant_upper,
};
use crate::site::{put_default_value, HelperAttributes, HelperAttributesView};
use crate::structural_text::{push_default_arg, put_default_arg};
use crate::text::{strings_view, Diagnostic, DiagnosticView, FragmentView, CALL_SITE};

verus! {

/// The default value written for a site with `#[default(...)]`, with its
/// form.
pub open spec fn explicit_default(h: HelperAttributesView) -> Option<(FragmentView, ExprShape)> {
    match h.default {
        Some(a) => match a.value {
            Some(v) => Some((v, a.shape)),
            None => None,
        },
        None => None,
    }
}

/// The default value of the field `e`: the expression written for it, or
/// the default of its type.
pub open spec fn default_value_text(e: FieldEntryView) -> Seq<char> {
    match explicit_default(e.hattrs) {
        Some((v, shape)) => put_default_value(Seq::empty(), v, shape, type_text(e)),
        None => put_default_arg(Seq::empty(), type_text(e)),
    }
}

/// The default values of the fields `entries`, one for each field, in
/// declaration order.
pub open spec fn default_values(entries: Seq<FieldEntryView>) -> Seq<Seq<char>> {
    Seq::new(entries.len(), |i: int| default_value_text(entries[i]))
}

/// The bounds after the first `n` of the fields `entries` have contributed
/// to the implementation of `Default`. A field with a default value of its
/// own never has its type bounded.
pub open spec fn default_fields_bounds(
    w: WhereClauseView,
    entries: Seq<FieldEntryView>,
    upper: Seq<BoundsView>,
    n: int,
) -> WhereClauseView
    decreases n,
{
    if n <= 0 {
        w
    } else {
        field_bounds(
            default_fields_bounds(w, entries, upper, n - 1),
            DeriveItemKind::Default,
            entries[n - 1],
            upper,
            explicit_default(entries[n - 1].hattrs) is None,
        )
    }
}

/// The bounds after the fields `entries` below the sites `upper` have
/// contributed to the implementation of `Default`: every field in turn, or
/// the sites above them once where there is no field.
pub open spec fn all_default_bounds(
    w: WhereClauseView,
    entries: Seq<FieldEntryView>,
    upper: Seq<BoundsView>,
) -> WhereClauseView {
    if entries.len() == 0 {
        level_bounds(w, upper)
    } else {
        default_fields_bounds(w, entries, upper, entries.len() as int)
    }
}

/// `acc` followed by the implementation of `Default` with the bounds `w`,
/// up to the value that `default` returns.
pub open spec fn put_default_open(
    acc: Seq<char>,
    g: crate::generics::GenericsView,
    ident: Seq<char>,
    w: WhereClauseView,
) -> Seq<char> {
    put_where_clause(
        put_impl_head(acc, g, DeriveItemKind::Default.path(), ident),
        w,
        BoundForm::Plain,
        DeriveItemKind::Default.path(),
    ) + "{ fn default() -> Self { "@
}

/// The implementation of `Default` whose value is the expression written
/// on the item itself. Only the sites of the item contribute bounds.
pub open spec fn default_impl_of_value(
    g: crate::generics::GenericsView,
    ident: Seq<char>,
    e: DeriveEntryView,
    h: HelperAttributesView,
    v: FragmentView,
    shape: ExprShape,
) -> Seq<char> {
    put_default_value(
        put_default_open(
            Seq::empty(),
            g,
            ident,
            level_bounds(fresh(g), struct_upper(h, DeriveItemKind::Default, e)),
        ),
        v,
        shape,
        "Self"@,
    ) + " } }"@
}

/// The implementation of `Default` for a struct: the value written on the
/// struct, or the struct built from the default value of every field.
pub open spec fn default_struct_impl(
    item: ItemStructView,
    e: DeriveEntryView,
    h: HelperAttributesView,
    entries: Seq<FieldEntryView>,
) -> Seq<char> {
    match explicit_default(h) {
        Some((v, shape)) => default_impl_of_value(item.generics, item.ident, e, h, v, shape),
        None => put_ctor_args(
            put_default_open(
                Seq::empty(),
                item.generics,
                item.ident,
                all_default_bounds(
                    fresh(item.generics),
                    entries,
                    struct_upper(h, DeriveItemKind::Default, e),
                ),
            ) + item.ident + " "@,
            item.kind,
            entries,
            default_values(entries),
        ) + " } }"@,
    }
}

/// The positions of those of the first `n` variants that carry
/// `#[default]`.
pub open spec fn marked_upto(variants: Seq<VariantEntryView>, n: int) -> Seq<usize>
    decreases n,
{
    if n <= 0 {
        Seq::empty()
    } else if variants[n - 1].hattrs.default is Some {
        marked_upto(variants, n - 1).push((n - 1) as usize)
    } else {
        marked_upto(variants, n - 1)
    }
}

/// `acc` followed by the names of the variants at the first `n` of the
/// positions `marked`, separated by commas.
pub open spec fn put_variant_names(
    acc: Seq<char>,
    variants: Seq<VariantEntryView>,
    marked: Seq<usize>,
    n: int,
) -> Seq<char>
    decreases n,
{
    if n <= 0 {
        acc
    } else if n == 1 {
        acc + variants[marked[0] as int].variant.ident
    } else {
        put_variant_names(acc, variants, marked, n - 1) + ", "@ + variants[marked[n
            - 1] as int].variant.ident
    }
}

/// The variant that the default value of an enum is of: the one variant
/// that carries `#[default]`, or the only variant there is. Anything else
/// is a fault.
pub open spec fn default_variant(variants: Seq<VariantEntryView>) -> Result<usize, DiagnosticView> {
    let marked = marked_upto(variants, variants.len() as int);
    if marked.len() == 0 {
        if variants.len() == 1 {
            Ok(0usize)
        } else {
            Err(
                DiagnosticView {
                    span: CALL_SITE,
                    message: "variant with `#[default(...)]` does not exist."@,
                },
            )
        }
    } else if marked.len() == 1 {
        Ok(marked[0])
    } else {
        Err(
            DiagnosticView {
                span: variants[marked[0] as int].variant.span,
                message: put_variant_names(
                    "there are multiple variants with `#[default(...)]` ("@,
                    variants,
                    marked,
                    marked.len() as int,
                ) + ")"@,
            },
        )
    }
}

/// The implementation of `Default` for an enum: the value written on the
/// enum, or the default variant built from the default value of every
/// field of it. A value written on a variant is a fault.
pub open spec fn default_enum_impl(
    item: ItemEnumView,
    e: DeriveEntryView,
    h: HelperAttributesView,
    variants: Seq<VariantEntryView>,
) -> Result<Seq<char>, DiagnosticView> {
    match explicit_default(h) {
        Some((v, shape)) => Ok(default_impl_of_value(item.generics, item.ident, e, h, v, shape)),
        None => match default_variant(variants) {
            Err(d) => Err(d),
            Ok(k) => {
                let v = variants[k as int];
                match explicit_default(v.hattrs) {
                    Some((value, _)) => Err(
                        DiagnosticView {
                            span: value.span,
                            message: "`#[default(...)]` on a variant cannot specify a default value"@,
                        },
                    ),
                    None => Ok(
                        put_ctor_args(
                            put_default_open(
                                Seq::empty(),
                                item.generics,
                                item.ident,
                                all_default_bounds(
                                    fresh(item.generics),
                                    v.fields,
                                    variant_upper(v.hattrs, h, DeriveItemKind::Default, e),
                                ),
                            ) + item.ident + "::"@ + v.variant.ident + " "@,
                            v.variant.kind,
                            v.fields,
                            default_values(v.fields),
                        ) + " } }"@,
                    ),
                }
            },
        }
    }
}

impl HelperAttributes {
    /// Appends to `out` the default value written at the site for a place
    /// of the type written `ty`, and tells whether there is one.
    pub fn default_value(&self, out: &mut String, ty: &str) -> (r: bool)
        ensures
            r == (explicit_default(self@) is Some),
            match explicit_default(self@) {
                Some((v, shape)) => final(out)@ == put_default_value(old(out)@, v, shape, ty@),
                None => final(out)@ == old(out)@,
            },
    {
        match &self.default {
            Some(a) => a.value(out, ty),
            None => false,
        }
    }
}

/// Lets every field contribute its bounds to the implementation of
/// `Default`, and returns the default value of every field. Where there
/// is no field, the sites above are scanned once.
pub fn build_default_ctor_args(
    fields: &Vec<FieldEntry>,
    upper: &Vec<&Bounds>,
    wcb: &mut WhereClauseBuilder,
) -> (r: Vec<String>)
    ensures
        r.len() == fields.len(),
        strings_view(r@) == default_values(field_entries_view(fields@)),
        final(wcb)@ == all_default_bounds(
            old(wcb)@,
            field_entries_view(fields@),
            sites_view(upper@),
        ),
{
    let kind = DeriveItemKind::Default;
    let ghost all = field_entries_view(fields@);
    let ghost start = wcb@;
    let mut ctor_args: Vec<String> = Vec::new();
    if fields.len() == 0 {
        push_level_bounds(upper, wcb);
        assert(strings_view(ctor_args@) =~= default_values(all));
        return ctor_args;
    }
    let mut i: usize = 0;
    while i < fields.len()
        invariant
            i <= fields.len(),
            ctor_args.len() == i,
            kind == DeriveItemKind::Default,
            all == field_entries_view(fields@),
            wcb@ == default_fields_bounds(start, all, sites_view(upper@), i as int),
            forall|j: int| 0 <= j < i ==> ctor_args@[j]@ == default_value_text(all[j]),
        decreases fields.len() - i,
    {
        assert(all[i as int] == fields@[i as int]@);
        let field = &fields[i];
        let ty = field.type_string();
        let mut value = String::new();
        let has_value = field.hattrs.default_value(&mut value, ty.as_str());
        field.push_bounds_to(kind, upper, !has_value, wcb);
        if !has_value {
            push_default_arg(&mut value, ty.as_str());
        }
        ctor_args.push(value);
        i = i + 1;
    }
    assert(strings_view(ctor_args@) =~= default_values(all));
    ctor_args
}

fn build_default_open(
    out: &mut String,
    g: &crate::generics::Generics,
    ident: &str,
    wcb: &WhereClauseBuilder,
)
    ensures
        final(out)@ == put_default_open(old(out)@, g@, ident@, wcb@),
{
    let path = DeriveItemKind::Default.to_path();
    build_impl_head(out, g, path.as_str(), ident);
    wcb.build(out, BoundForm::Plain, path.as_str());
    out.append("{ fn default() -> Self { ");
}

fn build_default_of_value(
    g: &crate::generics::Generics,
    ident: &str,
    e: &DeriveEntry,
    hattrs: &HelperAttributes,
) -> (r: Option<String>)
    ensures
        match r {
            Some(code) => explicit_default(hattrs@) matches Some((v, shape)) && code@
                == default_impl_of_value(g@, ident@, e@, hattrs@, v, shape),
            None => explicit_default(hattrs@) is None,
        },
{
    let present = match &hattrs.default {
        Some(a) => a.value.is_some(),
        None => false,
    };
    if !present {
        return None;
    }
    let mut wcb = WhereClauseBuilder::new(g);
    let upper = struct_sites(hattrs, DeriveItemKind::Default, e);
    push_level_bounds(&upper, &mut wcb);
    let mut out = String::new();
    build_default_open(&mut out, g, ident, &wcb);
    let _ = hattrs.default_value(&mut out, "Self");
    out.append(" } }");
    Some(out)
}

/// Builds the implementation of `Default` for a struct.
pub fn build_default_for_struct(
    item: &ItemStruct,
    e: &DeriveEntry,
    hattrs: &HelperAttributes,
    fields: &Vec<FieldEntry>,
) -> (r: String)
    ensures
        r@ == default_struct_impl(item@, e@, hattrs@, field_entries_view(fields@)),
{
    if let Some(code) = build_default_of_value(&item.generics, item.ident.as_str(), e, hattrs) {
        return code;
    }
    let mut wcb = WhereClauseBuilder::new(&item.generics);
    let upper = struct_sites(hattrs, DeriveItemKind::Default, e);
    let ctor_args = build_default_ctor_args(fields, &upper, &mut wcb);
    let mut out = String::new();
    build_default_open(&mut out, &item.generics, item.ident.as_str(), &wcb);
    out.append(item.ident.as_str());
    out.append(" ");
    build_ctor_args(&mut out, item.kind, fields, &ctor_args);
    out.append(" } }");
    out
}

/// Finds the variant that the default value of an enum is of.
pub fn select_default_variant(variants: &Vec<VariantEntry>) -> (r: Result<usize, Diagnostic>)
    ensures
        match r {
            Ok(k) => default_variant(variant_entries_view(variants@)) == Ok::<
                usize,
                DiagnosticView,
            >(k) && k < variants.len(),
            Err(d) => default_variant(variant_entries_view(variants@)) == Err::<
                usize,
                DiagnosticView,
            >(d@),
        },
{
    let ghost vs = variant_entries_view(variants@);
    let mut marked: Vec<usize> = Vec::new();
    let mut i: usize = 0;
    while i < variants.len()
        invariant
            i <= variants.len(),
            vs == variant_entries_view(variants@),
            marked@ == marked_upto(vs, i as int),
            forall|j: int| 0 <= j < marked.len() ==> (#[trigger] marked@[j]) < i,
        decreases variants.len() - i,
    {
        assert(vs[i as int] == variants@[i as int]@);
        if variants[i].hattrs.default.is_some() {
            marked.push(i);
        }
        i = i + 1;
    }
    if marked.len() == 0 {
        if variants.len() == 1 {
            return Ok(0);
        }
        return Err(
            Diagnostic {
                span: CALL_SITE,
                message: "variant with `#[default(...)]` does not exist.".to_owned(),
            },
        );
    }
    if marked.len() == 1 {
        return Ok(marked[0]);
    }
    let mut message = "there are multiple variants with `#[default(...)]` (".to_owned();
    let ghost start = message@;
    let mut k: usize = 0;
    while k < marked.len()
        invariant
            k <= marked.len(),
            vs == variant_entries_view(variants@),
            forall|j: int| 0 <= j < marked.len() ==> (#[trigger] marked@[j]) < variants.len(),
            message@ == put_variant_names(start, vs, marked@, k as int),
        decreases marked.len() - k,
    {
        let m = marked[k];
        assert(marked@[k as int] < variants.len());
        assert(vs[m as int] == variants@[m as int]@);
        if k != 0 {
            message.append(", ");
        }
        message.append(variants[m].variant.ident.as_str());
        k = k + 1;
    }
    message.append(")");
    let first = marked[0];
    assert(marked@[0] < variants.len());
    assert(vs[first as int] == variants@[first as int]@);
    Err(Diagnostic { span: variants[first].variant.span, message })
}

/// Builds the implementation of `Default` for an enum.
pub fn build_default_for_enum(
    item: &ItemEnum,
    e: &DeriveEntry,
    hattrs: &HelperAttributes,
    variants: &Vec<VariantEntry>,
) -> (r: Result<String, Diagnostic>)
    ensures
        crate::text::code_result_view(r) == default_enum_impl(
            item@,
            e@,
            hattrs@,
            variant_entries_view(variants@),
        ),
{
    if let Some(code) = build_default_of_value(&item.generics, item.ident.as_str(), e, hattrs) {
        return Ok(code);
    }
    let k = select_default_variant(variants)?;
    let v = &variants[k];
    assert(variant_entries_view(variants@)[k as int] == v@);
    if let Some(a) = &v.hattrs.default {
        if let Some(value) = &a.value {
            return Err(
                Diagnostic {
                    span: value.span,
                    message: "`#[default(...)]` on a variant cannot specify a default value".to_owned(),
                },
            );
        }
    }
    let mut wcb = WhereClauseBuilder::new(&item.generics);
    let upper = variant_sites(&v.hattrs, hattrs, DeriveItemKind::Default, e);
    let ctor_args = build_default_ctor_args(&v.fields, &upper, &mut wcb);
    let mut out = String::new();
    build_default_open(&mut out, &item.generics, item.ident.as_str(), &wcb);
    out.append(item.ident.as_str());
    out.append("::");
    out.append(v.variant.ident.as_str());
    out.append(" ");
    build_ctor_args(&mut out, v.variant.kind, &v.fields, &ctor_args);
    out.append(" } }");
    Ok(out)
}

} // verus!
