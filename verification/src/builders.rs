//! Step-by-step construction helpers for the type model.
//!
//! Each builder collects the parts of one value and hands back the
//! finished node; a declaration builder appends its declaration to a
//! [`Declarations`] container and returns the reference handle.

use crate::declarations::Declarations;
use crate::definitions::{
    ref_name, ref_params, DeclarationValue, EnumVariant, EnumVariantType, StructField,
    StructFieldConfig, StructFieldType, TEnum, TGeneric, TMap, TMapType, TMapValue, TOption,
    TPrimitive, TReference, TSet, TStruct, TVec, TypeDeclaration, TypeDeclarationConfig,
};
use vstd::prelude::*;
use vstd::string::*;

verus! {

/// Start a declaration under the given name, with no documentation, no
/// configuration and no generic parameters.  Raw configuration is explicit
/// per declaration; nothing is injected by default.
pub fn decl(name: String) -> (r: TypeDeclarationBuilder)
    ensures
        r.name == name,
        r.docs@ == Seq::<char>::empty(),
        r.value is None,
        r.config@ == Seq::<TypeDeclarationConfig>::empty(),
        r.generic_params@ == Seq::<TGeneric>::empty(),
{
    TypeDeclarationBuilder {
        name,
        docs: String::new(),
        value: Option::None,
        config: Vec::new(),
        generic_params: Vec::new(),
    }
}

/// An unfinished declaration.
pub struct TypeDeclarationBuilder {
    pub name: String,
    pub docs: String,
    pub value: Option<DeclarationValue>,
    pub config: Vec<TypeDeclarationConfig>,
    pub generic_params: Vec<TGeneric>,
}

impl TypeDeclarationBuilder {
    /// Set the declaration's value kind.
    pub fn value(self, value: DeclarationValue) -> (r: Self)
        ensures
            r.name == self.name,
            r.docs == self.docs,
            r.value == Option::Some(value),
            r.config == self.config,
            r.generic_params == self.generic_params,
    {
        TypeDeclarationBuilder { value: Option::Some(value), ..self }
    }

    /// Finish the declaration and append it; the value must have been set.
    pub fn build(self, d: &mut Declarations) -> (r: TReference)
        requires
            self.value is Some,
        ensures
            final(d).decls() == old(d).decls().push(
                (TypeDeclaration {
                    name: self.name,
                    docs: self.docs,
                    config: self.config,
                    generic_params: self.generic_params,
                    value: self.value->0,
                }),
            ),
            final(d).configs() == old(d).configs(),
            ref_name(r) == self.name@,
            ref_params(r) == Seq::<TGeneric>::empty(),
    {
        let value = match self.value {
            Option::Some(v) => v,
            Option::None => unreached(),
        };
        d.add(
            TypeDeclaration {
                name: self.name,
                docs: self.docs,
                config: self.config,
                generic_params: self.generic_params,
                value,
            },
        )
    }
}

/// Start a struct with no fields.
pub fn build_struct() -> (r: TStructBuilder)
    ensures
        r.fields@ == Seq::<StructField>::empty(),
{
    TStructBuilder { fields: Vec::new() }
}

/// An unfinished struct.
pub struct TStructBuilder {
    pub fields: Vec<StructField>,
}

impl TStructBuilder {
    /// Append one field.
    pub fn field(self, f: StructField) -> (r: Self)
        ensures
            r.fields@ == self.fields@.push(f),
    {
        let mut fields = self.fields;
        fields.push(f);
        TStructBuilder { fields }
    }

    /// Finish the struct.
    pub fn build(self) -> (r: TStruct)
        ensures
            r == (TStruct { fields: self.fields }),
    {
        TStruct { fields: self.fields }
    }
}

impl TStruct {
    /// Wrap this struct as a declaration value.
    pub fn decl(self) -> (r: DeclarationValue)
        ensures
            r == DeclarationValue::TStruct(self),
    {
        DeclarationValue::TStruct(self)
    }
}

/// Start a struct field under the given name, with no documentation and no
/// configuration.
pub fn build_struct_field(name: String) -> (r: StructFieldBuilder)
    ensures
        r.name == name,
        r.docs@ == Seq::<char>::empty(),
        r.field_type is None,
        r.config@ == Seq::<StructFieldConfig>::empty(),
{
    StructFieldBuilder { name, docs: String::new(), field_type: Option::None, config: Vec::new() }
}

/// An unfinished struct field.
pub struct StructFieldBuilder {
    pub name: String,
    pub docs: String,
    pub field_type: Option<StructFieldType>,
    pub config: Vec<StructFieldConfig>,
}

/// The optional form of a field shape: the shape wrapped in an option, an
/// already optional shape unchanged.
pub open spec fn optional_of(t: StructFieldType) -> StructFieldType {
    match t {
        StructFieldType::TMap(m) => StructFieldType::TOption(TOption::TMap(m)),
        StructFieldType::TSet(s) => StructFieldType::TOption(TOption::TSet(s)),
        StructFieldType::TOption(o) => StructFieldType::TOption(o),
        StructFieldType::TPrimitive(p) => StructFieldType::TOption(TOption::TPrimitive(p)),
        StructFieldType::TTuple(t) => StructFieldType::TOption(TOption::TTuple(t)),
        StructFieldType::TVec(v) => StructFieldType::TOption(TOption::TVec(v)),
    }
}

impl StructFieldBuilder {
    /// Set the field's shape.
    pub fn field_type(self, t: StructFieldType) -> (r: Self)
        ensures
            r.name == self.name,
            r.docs == self.docs,
            r.field_type == Option::Some(t),
            r.config == self.config,
    {
        StructFieldBuilder { field_type: Option::Some(t), ..self }
    }

    /// Make the field optional; the shape must have been set first.
    pub fn optional(self) -> (r: Self)
        requires
            self.field_type is Some,
        ensures
            r.name == self.name,
            r.docs == self.docs,
            r.field_type == Option::Some(optional_of(self.field_type->0)),
            r.config == self.config,
    {
        let field_type = match self.field_type {
            Option::Some(t) => t,
            Option::None => unreached(),
        };
        let wrapped = match field_type {
            StructFieldType::TMap(m) => StructFieldType::TOption(TOption::TMap(m)),
            StructFieldType::TSet(s) => StructFieldType::TOption(TOption::TSet(s)),
            StructFieldType::TOption(o) => StructFieldType::TOption(o),
            StructFieldType::TPrimitive(p) => StructFieldType::TOption(TOption::TPrimitive(p)),
            StructFieldType::TTuple(t) => StructFieldType::TOption(TOption::TTuple(t)),
            StructFieldType::TVec(v) => StructFieldType::TOption(TOption::TVec(v)),
        };
        StructFieldBuilder { field_type: Option::Some(wrapped), ..self }
    }

    /// Finish the field; the shape must have been set.
    pub fn build(self) -> (r: StructField)
        requires
            self.field_type is Some,
        ensures
            r == (StructField {
                name: self.name,
                docs: self.docs,
                field_type: self.field_type->0,
                config: self.config,
            }),
    {
        let field_type = match self.field_type {
            Option::Some(t) => t,
            Option::None => unreached(),
        };
        StructField { name: self.name, docs: self.docs, field_type, config: self.config }
    }
}

/// Start a full enum with no variants.
pub fn build_enum() -> (r: TEnumBuilder)
    ensures
        r.variants@ == Seq::<EnumVariant>::empty(),
{
    TEnumBuilder { variants: Vec::new() }
}

/// An unfinished full enum.
pub struct TEnumBuilder {
    pub variants: Vec<EnumVariant>,
}

impl TEnumBuilder {
    /// Append one variant.
    pub fn variant(self, v: EnumVariant) -> (r: Self)
        ensures
            r.variants@ == self.variants@.push(v),
    {
        let mut variants = self.variants;
        variants.push(v);
        TEnumBuilder { variants }
    }

    /// Finish the enum.
    pub fn build(self) -> (r: TEnum)
        ensures
            r == (TEnum { variants: self.variants }),
    {
        TEnum { variants: self.variants }
    }
}

/// Start an enum variant under the given name, with no documentation.
pub fn build_enum_variant(name: String) -> (r: EnumVariantBuilder)
    ensures
        r.name == name,
        r.docs@ == Seq::<char>::empty(),
        r.variant_type is None,
{
    EnumVariantBuilder { name, docs: String::new(), variant_type: Option::None }
}

/// An unfinished enum variant.
pub struct EnumVariantBuilder {
    pub name: String,
    pub docs: String,
    pub variant_type: Option<EnumVariantType>,
}

impl EnumVariantBuilder {
    /// Set the variant's payload.
    pub fn variant_type(self, t: EnumVariantType) -> (r: Self)
        ensures
            r.name == self.name,
            r.docs == self.docs,
            r.variant_type == Option::Some(t),
    {
        EnumVariantBuilder { variant_type: Option::Some(t), ..self }
    }

    /// Finish the variant; the payload must have been set.
    pub fn build(self) -> (r: EnumVariant)
        requires
            self.variant_type is Some,
        ensures
            r == (EnumVariant {
                name: self.name,
                docs: self.docs,
                variant_type: self.variant_type->0,
            }),
    {
        let variant_type = match self.variant_type {
            Option::Some(t) => t,
            Option::None => unreached(),
        };
        EnumVariant { name: self.name, docs: self.docs, variant_type }
    }
}

/// A vector of the given primitive.
pub fn build_vec(t: TPrimitive) -> (r: TVec)
    ensures
        r == TVec::TPrimitive(t),
{
    TVec::TPrimitive(t)
}

/// An ordered map between the given primitives.
pub fn build_map(k: TPrimitive, v: TPrimitive) -> (r: TMap)
    ensures
        r == (TMap { key: k, value: TMapValue::TPrimitive(v), t: TMapType::BTree }),
{
    TMap { key: k, value: TMapValue::TPrimitive(v), t: TMapType::BTree }
}

/// A set of the given primitive.
pub fn build_set(t: TPrimitive) -> (r: TSet)
    ensures
        r == TSet::TPrimitive(t),
{
    TSet::TPrimitive(t)
}

/// The comma-joined derive names.
pub open spec fn sp_derive_list(items: Seq<Seq<char>>) -> Seq<char>
    decreases items.len(),
{
    if items.len() == 0 {
        Seq::empty()
    } else if items.len() == 1 {
        items[0]
    } else {
        sp_derive_list(items.drop_last()) + ", "@ + items.last()
    }
}

/// A `#[derive(...)]` attribute holding the given trait names.
pub fn build_derives(derives: Vec<String>) -> (r: TypeDeclarationConfig)
    ensures
        (r matches TypeDeclarationConfig::RustAttribute(a) && a@ == "#[derive("@ + sp_derive_list(
            derives@.map_values(|s: String| s@),
        ) + ")]"@),
{
    let ghost vs = derives@.map_values(|s: String| s@);
    let mut a = String::from_str("#[derive(");
    let mut i: usize = 0;
    proof {
        assert(vs.subrange(0, 0) =~= Seq::<Seq<char>>::empty());
    }
    while i < derives.len()
        invariant
            i <= derives@.len(),
            vs == derives@.map_values(|s: String| s@),
            vs.len() == derives@.len(),
            a@ == "#[derive("@ + sp_derive_list(vs.subrange(0, i as int)),
        decreases derives@.len() - i,
    {
        if i > 0 {
            a.append(", ");
        }
        a.append(derives[i].as_str());
        proof {
            let pre = vs.subrange(0, i as int);
            let post = vs.subrange(0, (i + 1) as int);
            assert(post.drop_last() =~= pre);
            assert(post.last() == vs[i as int]);
            assert(vs[i as int] == derives@[i as int]@);
            assert(a@ =~= "#[derive("@ + sp_derive_list(post));
        }
        i = i + 1;
    }
    a.append(")]");
    proof {
        assert(vs.subrange(0, vs.len() as int) =~= vs);
        assert(a@ =~= "#[derive("@ + sp_derive_list(vs) + ")]"@);
    }
    TypeDeclarationConfig::RustAttribute(a)
}

} // verus!
