//! The structural description of a type, and the worklist made of it: each
//! field and variant paired with what its annotations say.

use vstd::prelude::*;
use crate::attrs::{attrs_view, Attribute, AttributeView};
use crate::generics::{Generics, GenericsView, TypeExpr, TypeExprView};
use crate::hattrs::HelperAttributeKinds;
use crate::helper::AttributeTarget;
use crate::site::{helper_attributes_of, HelperAttributes, HelperAttributesView};
use crate::text::{
    decimal, decimal_string, render, render_tokens, strings_view, Diagnostic, DiagnosticView,
};

verus! {

/// How the fields of a struct or a variant are written.
#[derive(Debug, Copy, Clone, Eq, PartialEq, Structural)]
pub enum FieldsKind {
    /// In braces, each with a name.
    Named,
    /// In parentheses, by position.
    Unnamed,
    /// No field list at all.
    Unit,
}

/// One field.
pub struct Field {
    pub ident: Option<String>,
    pub ty: TypeExpr,
    pub attrs: Vec<Attribute>,
}

/// The mathematical value of a [`Field`].
pub struct FieldView {
    pub ident: Option<Seq<char>>,
    pub ty: TypeExprView,
    pub attrs: Seq<AttributeView>,
}

impl View for Field {
    type V = FieldView;

    open spec fn view(&self) -> FieldView {
        FieldView {
            ident: match self.ident {
                Some(s) => Some(s@),
                None => None,
            },
            ty: self.ty@,
            attrs: attrs_view(self.attrs@),
        }
    }
}

/// The values of a list of fields.
pub open spec fn fields_view(fs: Seq<Field>) -> Seq<FieldView> {
    fs.map_values(|f: Field| f@)
}

/// One variant of an enum.
pub struct Variant {
    pub ident: String,
    pub kind: FieldsKind,
    pub fields: Vec<Field>,
    pub attrs: Vec<Attribute>,
    /// Where the variant is written.
    pub span: usize,
}

/// The mathematical value of a [`Variant`].
pub struct VariantView {
    pub ident: Seq<char>,
    pub kind: FieldsKind,
    pub fields: Seq<FieldView>,
    pub attrs: Seq<AttributeView>,
    pub span: usize,
}

impl View for Variant {
    type V = VariantView;

    open spec fn view(&self) -> VariantView {
        VariantView {
            ident: self.ident@,
            kind: self.kind,
            fields: fields_view(self.fields@),
            attrs: attrs_view(self.attrs@),
            span: self.span,
        }
    }
}

/// The values of a list of variants.
pub open spec fn variants_view(vs: Seq<Variant>) -> Seq<VariantView> {
    vs.map_values(|v: Variant| v@)
}

/// A struct.
pub struct ItemStruct {
    pub ident: String,
    pub generics: Generics,
    pub kind: FieldsKind,
    pub fields: Vec<Field>,
    pub attrs: Vec<Attribute>,
}

/// The mathematical value of an [`ItemStruct`].
pub struct ItemStructView {
    pub ident: Seq<char>,
    pub generics: GenericsView,
    pub kind: FieldsKind,
    pub fields: Seq<FieldView>,
    pub attrs: Seq<AttributeView>,
}

impl View for ItemStruct {
    type V = ItemStructView;

    open spec fn view(&self) -> ItemStructView {
        ItemStructView {
            ident: self.ident@,
            generics: self.generics@,
            kind: self.kind,
            fields: fields_view(self.fields@),
            attrs: attrs_view(self.attrs@),
        }
    }
}

/// An enum.
pub struct ItemEnum {
    pub ident: String,
    pub generics: Generics,
    pub variants: Vec<Variant>,
    pub attrs: Vec<Attribute>,
}

/// The mathematical value of an [`ItemEnum`].
pub struct ItemEnumView {
    pub ident: Seq<char>,
    pub generics: GenericsView,
    pub variants: Seq<VariantView>,
    pub attrs: Seq<AttributeView>,
}

impl View for ItemEnum {
    type V = ItemEnumView;

    open spec fn view(&self) -> ItemEnumView {
        ItemEnumView {
            ident: self.ident@,
            generics: self.generics@,
            variants: variants_view(self.variants@),
            attrs: attrs_view(self.attrs@),
        }
    }
}

/// A field with its position and what its annotations say.
pub struct FieldEntry<'a> {
    pub index: usize,
    pub field: &'a Field,
    pub hattrs: HelperAttributes,
}

/// The mathematical value of a [`FieldEntry`].
pub struct FieldEntryView {
    pub index: usize,
    pub field: FieldView,
    pub hattrs: HelperAttributesView,
}

impl<'a> View for FieldEntry<'a> {
    type V = FieldEntryView;

    open spec fn view(&self) -> FieldEntryView {
        FieldEntryView { index: self.index, field: self.field@, hattrs: self.hattrs@ }
    }
}

/// The values of a list of field entries.
pub open spec fn field_entries_view(es: Seq<FieldEntry>) -> Seq<FieldEntryView> {
    es.map_values(|e: FieldEntry| e@)
}

/// `acc` followed by the entries of `fields` from position `i` on; the
/// first field whose annotations hold a fault ends the walk.
pub open spec fn field_entries_from(
    fields: Seq<FieldView>,
    kinds: HelperAttributeKinds,
    i: int,
    acc: Seq<FieldEntryView>,
) -> Result<Seq<FieldEntryView>, DiagnosticView>
    decreases fields.len() - i,
{
    if i < 0 || i >= fields.len() {
        Ok(acc)
    } else {
        match helper_attributes_of(fields[i].attrs, AttributeTarget::Field, kinds) {
            Err(d) => Err(d),
            Ok(hattrs) => field_entries_from(
                fields,
                kinds,
                i + 1,
                acc.push(FieldEntryView { index: i as usize, field: fields[i], hattrs }),
            ),
        }
    }
}

/// The entries of `fields`, in declaration order.
pub open spec fn field_entries_of(fields: Seq<FieldView>, kinds: HelperAttributeKinds) -> Result<
    Seq<FieldEntryView>,
    DiagnosticView,
> {
    field_entries_from(fields, kinds, 0, Seq::empty())
}

/// How a field is named in an expression: by its name, or by its position.
pub open spec fn member_text(e: FieldEntryView) -> Seq<char> {
    match e.field.ident {
        Some(s) => s,
        None => decimal(e.index as nat),
    }
}

/// The variable that a pattern binds a field to: `prefix`, `_`, and the
/// field's name or position.
pub open spec fn binding_text(prefix: Seq<char>, e: FieldEntryView) -> Seq<char> {
    prefix + "_"@ + member_text(e)
}

/// The type of the field `e`, as text.
pub open spec fn type_text(e: FieldEntryView) -> Seq<char> {
    render(e.field.ty.tokens.tokens)
}

impl<'a> FieldEntry<'a> {
    /// The type of the field, as text.
    pub fn type_string(&self) -> (r: String)
        ensures
            r@ == type_text(self@),
    {
        render_tokens(&self.field.ty.tokens.tokens)
    }

    /// Pairs a field with its position and what its annotations say.
    pub fn new(index: usize, field: &'a Field, kinds: &HelperAttributeKinds) -> (r: Result<
        Self,
        Diagnostic,
    >)
        ensures
            match r {
                Ok(e) => helper_attributes_of(field@.attrs, AttributeTarget::Field, *kinds) == Ok::<
                    HelperAttributesView,
                    DiagnosticView,
                >(e@.hattrs) && e@.index == index && e@.field == field@,
                Err(d) => helper_attributes_of(field@.attrs, AttributeTarget::Field, *kinds)
                    == Err::<HelperAttributesView, DiagnosticView>(d@),
            },
    {
        let hattrs = HelperAttributes::from_attrs(&field.attrs, AttributeTarget::Field, kinds)?;
        Ok(FieldEntry { index, field, hattrs })
    }

    /// The entries of `fields`, in declaration order.
    pub fn from_fields(fields: &'a Vec<Field>, kinds: &HelperAttributeKinds) -> (r: Result<
        Vec<FieldEntry<'a>>,
        Diagnostic,
    >)
        ensures
            match r {
                Ok(es) => field_entries_of(fields_view(fields@), *kinds) == Ok::<
                    Seq<FieldEntryView>,
                    DiagnosticView,
                >(field_entries_view(es@)),
                Err(d) => field_entries_of(fields_view(fields@), *kinds) == Err::<
                    Seq<FieldEntryView>,
                    DiagnosticView,
                >(d@),
            },
    {
        let ghost all = fields_view(fields@);
        let mut es: Vec<FieldEntry<'a>> = Vec::new();
        assert(field_entries_view(es@) =~= Seq::empty());
        let mut i: usize = 0;
        while i < fields.len()
            invariant
                i <= fields.len(),
                all == fields_view(fields@),
                field_entries_of(all, *kinds) == field_entries_from(
                    all,
                    *kinds,
                    i as int,
                    field_entries_view(es@),
                ),
            decreases fields.len() - i,
        {
            assert(all[i as int] == fields@[i as int]@);
            let e = Self::new(i, &fields[i], kinds)?;
            let ghost before = field_entries_view(es@);
            es.push(e);
            assert(field_entries_view(es@) =~= before.push(e@));
            i = i + 1;
        }
        Ok(es)
    }

    /// Where the field is written: the place of its type.
    pub fn span(&self) -> (r: usize)
        ensures
            r == self@.field.ty.tokens.span,
    {
        self.field.ty.tokens.span
    }

    /// How the field is named in an expression.
    pub fn member(&self) -> (r: String)
        ensures
            r@ == member_text(self@),
    {
        match &self.field.ident {
            Some(ident) => ident.clone(),
            None => decimal_string(self.index),
        }
    }

    /// The variable that a pattern binds the field to.
    pub fn make_ident(&self, prefix: &str) -> (r: String)
        ensures
            r@ == binding_text(prefix@, self@),
    {
        let mut s = prefix.to_owned();
        s.append("_");
        let m = self.member();
        s.append(m.as_str());
        s
    }
}

/// `acc` followed by the first `n` fields of a constructor or a pattern,
/// each with the matching one of `values` and a comma; the fields are
/// named where `kind` is `Named`.
pub open spec fn put_ctor_fields(
    acc: Seq<char>,
    kind: FieldsKind,
    entries: Seq<FieldEntryView>,
    values: Seq<Seq<char>>,
    n: int,
) -> Seq<char>
    decreases n,
{
    if n <= 0 {
        acc
    } else if kind == FieldsKind::Named {
        put_ctor_fields(acc, kind, entries, values, n - 1) + member_text(entries[n - 1]) + ": "@
            + values[n - 1] + ", "@
    } else {
        put_ctor_fields(acc, kind, entries, values, n - 1) + values[n - 1] + ", "@
    }
}

/// `acc` followed by what comes after the name in a constructor or a
/// pattern: the fields in braces or parentheses, or nothing for a unit.
pub open spec fn put_ctor_args(
    acc: Seq<char>,
    kind: FieldsKind,
    entries: Seq<FieldEntryView>,
    values: Seq<Seq<char>>,
) -> Seq<char> {
    match kind {
        FieldsKind::Named => put_ctor_fields(
            acc + "{ "@,
            kind,
            entries,
            values,
            entries.len() as int,
        ) + "}"@,
        FieldsKind::Unnamed => put_ctor_fields(
            acc + "("@,
            kind,
            entries,
            values,
            entries.len() as int,
        ) + ")"@,
        FieldsKind::Unit => acc,
    }
}

/// Appends to `out` what comes after the name in a constructor or a
/// pattern of the given fields.
pub(crate) fn build_ctor_args(
    out: &mut String,
    kind: FieldsKind,
    entries: &Vec<FieldEntry>,
    values: &Vec<String>,
)
    requires
        values.len() == entries.len(),
    ensures
        final(out)@ == put_ctor_args(
            old(out)@,
            kind,
            field_entries_view(entries@),
            strings_view(values@),
        ),
{
    match kind {
        FieldsKind::Unit => {
            return ;
        },
        FieldsKind::Named => {
            out.append("{ ");
        },
        FieldsKind::Unnamed => {
            out.append("(");
        },
    }
    let ghost start = out@;
    let ghost es = field_entries_view(entries@);
    let ghost vs = strings_view(values@);
    let mut i: usize = 0;
    while i < entries.len()
        invariant
            i <= entries.len(),
            values.len() == entries.len(),
            es == field_entries_view(entries@),
            vs == strings_view(values@),
            out@ == put_ctor_fields(start, kind, es, vs, i as int),
        decreases entries.len() - i,
    {
        assert(es[i as int] == entries@[i as int]@);
        assert(vs[i as int] == values@[i as int]@);
        if kind == FieldsKind::Named {
            let m = entries[i].member();
            out.append(m.as_str());
            out.append(": ");
        }
        out.append(values[i].as_str());
        out.append(", ");
        i = i + 1;
    }
    match kind {
        FieldsKind::Named => {
            out.append("}");
        },
        _ => {
            out.append(")");
        },
    }
}

/// A variant with its fields and what its annotations say.
pub struct VariantEntry<'a> {
    pub variant: &'a Variant,
    pub fields: Vec<FieldEntry<'a>>,
    pub hattrs: HelperAttributes,
}

/// The mathematical value of a [`VariantEntry`].
pub struct VariantEntryView {
    pub variant: VariantView,
    pub fields: Seq<FieldEntryView>,
    pub hattrs: HelperAttributesView,
}

impl<'a> View for VariantEntry<'a> {
    type V = VariantEntryView;

    open spec fn view(&self) -> VariantEntryView {
        VariantEntryView {
            variant: self.variant@,
            fields: field_entries_view(self.fields@),
            hattrs: self.hattrs@,
        }
    }
}

/// The values of a list of variant entries.
pub open spec fn variant_entries_view(es: Seq<VariantEntry>) -> Seq<VariantEntryView> {
    es.map_values(|e: VariantEntry| e@)
}

/// The entry of the variant `v`: its fields are walked first, then its own
/// annotations are read.
pub open spec fn variant_entry_of(v: VariantView, kinds: HelperAttributeKinds) -> Result<
    VariantEntryView,
    DiagnosticView,
> {
    match field_entries_of(v.fields, kinds) {
        Err(d) => Err(d),
        Ok(fields) => match helper_attributes_of(v.attrs, AttributeTarget::Variant, kinds) {
            Err(d) => Err(d),
            Ok(hattrs) => Ok(VariantEntryView { variant: v, fields, hattrs }),
        },
    }
}

/// `acc` followed by the entries of `variants` from position `i` on; the
/// first fault ends the walk.
pub open spec fn variant_entries_from(
    variants: Seq<VariantView>,
    kinds: HelperAttributeKinds,
    i: int,
    acc: Seq<VariantEntryView>,
) -> Result<Seq<VariantEntryView>, DiagnosticView>
    decreases variants.len() - i,
{
    if i < 0 || i >= variants.len() {
        Ok(acc)
    } else {
        match variant_entry_of(variants[i], kinds) {
            Err(d) => Err(d),
            Ok(e) => variant_entries_from(variants, kinds, i + 1, acc.push(e)),
        }
    }
}

/// The entries of `variants`, in declaration order.
pub open spec fn variant_entries_of(
    variants: Seq<VariantView>,
    kinds: HelperAttributeKinds,
) -> Result<
    Seq<VariantEntryView>,
    DiagnosticView,
> {
    variant_entries_from(variants, kinds, 0, Seq::empty())
}

/// The variables that a pattern binds the fields `entries` to.
pub open spec fn bindings(prefix: Seq<char>, entries: Seq<FieldEntryView>) -> Seq<Seq<char>> {
    Seq::new(entries.len(), |i: int| binding_text(prefix, entries[i]))
}

/// `acc` followed by the pattern that matches the variant `v` of the type
/// written `path` and binds each field to a variable with the prefix
/// `prefix`.
pub open spec fn put_pattern(
    acc: Seq<char>,
    path: Seq<char>,
    v: VariantEntryView,
    prefix: Seq<char>,
) -> Seq<char> {
    put_ctor_args(
        acc + path + "::"@ + v.variant.ident + " "@,
        v.variant.kind,
        v.fields,
        bindings(prefix, v.fields),
    )
}

/// `acc` followed by the pattern that matches the variant `v` whatever its
/// fields hold.
pub open spec fn put_pattern_wildcard(acc: Seq<char>, v: VariantEntryView) -> Seq<char> {
    match v.variant.kind {
        FieldsKind::Named => acc + "Self::"@ + v.variant.ident + " { .. }"@,
        FieldsKind::Unnamed => acc + "Self::"@ + v.variant.ident + " (..)"@,
        FieldsKind::Unit => acc + "Self::"@ + v.variant.ident,
    }
}

impl<'a> VariantEntry<'a> {
    /// Pairs a variant with its fields and what its annotations say.
    pub fn new(variant: &'a Variant, kinds: &HelperAttributeKinds) -> (r: Result<Self, Diagnostic>)
        ensures
            match r {
                Ok(e) => variant_entry_of(variant@, *kinds) == Ok::<
                    VariantEntryView,
                    DiagnosticView,
                >(e@),
                Err(d) => variant_entry_of(variant@, *kinds) == Err::<
                    VariantEntryView,
                    DiagnosticView,
                >(d@),
            },
    {
        let fields = FieldEntry::from_fields(&variant.fields, kinds)?;
        let hattrs = HelperAttributes::from_attrs(&variant.attrs, AttributeTarget::Variant, kinds)?;
        Ok(VariantEntry { variant, fields, hattrs })
    }

    /// The entries of `variants`, in declaration order.
    pub fn from_variants(variants: &'a Vec<Variant>, kinds: &HelperAttributeKinds) -> (r: Result<
        Vec<VariantEntry<'a>>,
        Diagnostic,
    >)
        ensures
            match r {
                Ok(es) => variant_entries_of(variants_view(variants@), *kinds) == Ok::<
                    Seq<VariantEntryView>,
                    DiagnosticView,
                >(variant_entries_view(es@)),
                Err(d) => variant_entries_of(variants_view(variants@), *kinds) == Err::<
                    Seq<VariantEntryView>,
                    DiagnosticView,
                >(d@),
            },
    {
        let ghost all = variants_view(variants@);
        let mut es: Vec<VariantEntry<'a>> = Vec::new();
        assert(variant_entries_view(es@) =~= Seq::empty());
        let mut i: usize = 0;
        while i < variants.len()
            invariant
                i <= variants.len(),
                all == variants_view(variants@),
                variant_entries_of(all, *kinds) == variant_entries_from(
                    all,
                    *kinds,
                    i as int,
                    variant_entries_view(es@),
                ),
            decreases variants.len() - i,
        {
            assert(all[i as int] == variants@[i as int]@);
            let e = Self::new(&variants[i], kinds)?;
            let ghost before = variant_entries_view(es@);
            es.push(e);
            assert(variant_entries_view(es@) =~= before.push(e@));
            i = i + 1;
        }
        Ok(es)
    }

    /// Appends to `out` the pattern that matches the variant as a variant
    /// of `Self`.
    pub fn make_pat(&self, out: &mut String, prefix: &str)
        ensures
            final(out)@ == put_pattern(old(out)@, "Self"@, self@, prefix@),
    {
        self.make_pat_with_self_path(out, prefix, "Self");
    }

    /// Appends to `out` the pattern that matches the variant as a variant
    /// of the type written `self_path`.
    pub fn make_pat_with_self_path(&self, out: &mut String, prefix: &str, self_path: &str)
        ensures
            final(out)@ == put_pattern(old(out)@, self_path@, self@, prefix@),
    {
        let mut args: Vec<String> = Vec::new();
        let mut i: usize = 0;
        while i < self.fields.len()
            invariant
                i <= self.fields.len(),
                args.len() == i,
                forall|j: int|
                    0 <= j < i ==> args@[j]@ == binding_text(prefix@, self.fields@[j]@),
            decreases self.fields.len() - i,
        {
            args.push(self.fields[i].make_ident(prefix));
            i = i + 1;
        }
        assert(strings_view(args@) =~= bindings(prefix@, self@.fields));
        out.append(self_path);
        out.append("::");
        out.append(self.variant.ident.as_str());
        out.append(" ");
        build_ctor_args(out, self.variant.kind, &self.fields, &args);
    }

    /// Appends to `out` the pattern that matches the variant whatever its
    /// fields hold.
    pub fn make_pat_wildcard(&self, out: &mut String)
        ensures
            final(out)@ == put_pattern_wildcard(old(out)@, self@),
    {
        out.append("Self::");
        out.append(self.variant.ident.as_str());
        match self.variant.kind {
            FieldsKind::Named => {
                out.append(" { .. }");
            },
            FieldsKind::Unnamed => {
                out.append(" (..)");
            },
            FieldsKind::Unit => {},
        }
    }
}

} // verus!
