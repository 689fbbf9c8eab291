//! A small demonstration declaration set: two record operations and the
//! tagged union over them, under a configured namespace.  The generator
//! binary renders it; the tests hold its renderings to the expected text.

use crate::builders::{build_derives, sp_derive_list};
use crate::declarations::{Declarations, DeclarationsConfig};
use crate::definitions::{
    ref_name, ref_params, DeclarationValue, EnumVariant, EnumVariantType, StructField,
    StructFieldType, TEnum, TPrimitive, TReference, TStruct, TVec, TypeDeclaration,
    TypeDeclarationConfig,
};
use vstd::prelude::*;
use vstd::string::*;

verus! {

/// The serialization derives every sample declaration carries.
pub open spec fn is_sample_config(cfg: Seq<TypeDeclarationConfig>) -> bool {
    &&& cfg.len() == 1
    &&& (cfg[0] matches TypeDeclarationConfig::RustAttribute(a) && a@ == "#[derive(serde::Serialize, serde::Deserialize)]"@)
}

/// The inline-operation record: one field holding a vector of texts.
pub open spec fn is_op_inline(d: TypeDeclaration) -> bool {
    &&& d.name@ == "OpInline"@
    &&& d.docs@ == Seq::<char>::empty()
    &&& is_sample_config(d.config@)
    &&& d.generic_params@.len() == 0
    &&& (d.value matches DeclarationValue::TStruct(s) && {
        &&& s.fields@.len() == 1
        &&& s.fields@[0].name@ == "graphs"@
        &&& s.fields@[0].docs@ == Seq::<char>::empty()
        &&& s.fields@[0].config@.len() == 0
        &&& s.fields@[0].field_type == StructFieldType::TVec(TVec::TPrimitive(TPrimitive::String))
    })
}

/// The fetch-operation record: a key and a vector of identifiers.
pub open spec fn is_op_fetch(d: TypeDeclaration) -> bool {
    &&& d.name@ == "OpFetch"@
    &&& d.docs@ == Seq::<char>::empty()
    &&& is_sample_config(d.config@)
    &&& d.generic_params@.len() == 0
    &&& (d.value matches DeclarationValue::TStruct(s) && {
        &&& s.fields@.len() == 2
        &&& s.fields@[0].name@ == "timeline_key"@
        &&& s.fields@[0].docs@ == Seq::<char>::empty()
        &&& s.fields@[0].config@.len() == 0
        &&& s.fields@[0].field_type == StructFieldType::TPrimitive(TPrimitive::Ti64)
        &&& s.fields@[1].name@ == "graph_ids"@
        &&& s.fields@[1].docs@ == Seq::<char>::empty()
        &&& s.fields@[1].config@.len() == 0
        &&& s.fields@[1].field_type == StructFieldType::TVec(TVec::TPrimitive(TPrimitive::Ti64))
    })
}

/// One variant of the operations union: named after, and carrying a
/// reference to, one of the two records.
pub open spec fn is_ref_variant(v: EnumVariant, name: Seq<char>) -> bool {
    &&& v.name@ == name
    &&& v.docs@ == Seq::<char>::empty()
    &&& (v.variant_type matches EnumVariantType::TPrimitive(TPrimitive::TReference(r)) && {
        &&& ref_name(r) == name
        &&& ref_params(r).len() == 0
    })
}

/// The operations union over the two records.
pub open spec fn is_operations_enum(d: TypeDeclaration) -> bool {
    &&& d.name@ == "OperationsEnum"@
    &&& d.docs@ == Seq::<char>::empty()
    &&& is_sample_config(d.config@)
    &&& d.generic_params@.len() == 0
    &&& (d.value matches DeclarationValue::TEnum(e) && {
        &&& e.variants@.len() == 2
        &&& is_ref_variant(e.variants@[0], "OpInline"@)
        &&& is_ref_variant(e.variants@[1], "OpFetch"@)
    })
}

/// Build the demonstration declaration set: the two records in dependency
/// order, then the union referencing them, all under one namespace.
pub fn make_declarations() -> (d: Declarations)
    ensures
        d.configs().len() == 1,
        (d.configs()[0] matches DeclarationsConfig::HackNamespace(n) && n@ == "Unigraph"@),
        d.decls().len() == 3,
        is_op_inline(d.decls()[0]),
        is_op_fetch(d.decls()[1]),
        is_operations_enum(d.decls()[2]),
{
    let mut d = Declarations::new();
    d.add_config(DeclarationsConfig::HackNamespace(String::from_str("Unigraph")));

    let mut serde_derives: Vec<String> = Vec::new();
    serde_derives.push(String::from_str("serde::Serialize"));
    serde_derives.push(String::from_str("serde::Deserialize"));
    let ghost sd = serde_derives@;
    let config = build_derives(serde_derives);
    proof {
        reveal_strlit("#[derive(");
        reveal_strlit(", ");
        reveal_strlit(")]");
        reveal_strlit("serde::Serialize");
        reveal_strlit("serde::Deserialize");
        reveal_strlit("#[derive(serde::Serialize, serde::Deserialize)]");
        let vs = sd.map_values(|s: String| s@);
        assert(vs.len() == 2);
        assert(vs[0] == "serde::Serialize"@);
        assert(vs[1] == "serde::Deserialize"@);
        assert(vs.drop_last() =~= seq!["serde::Serialize"@]);
        assert(sp_derive_list(seq!["serde::Serialize"@]) == "serde::Serialize"@);
        assert(sp_derive_list(vs) == "serde::Serialize"@ + ", "@ + "serde::Deserialize"@);
        match &config {
            TypeDeclarationConfig::RustAttribute(a) => {
                assert(a@ =~= "#[derive(serde::Serialize, serde::Deserialize)]"@);
            },
        }
    }
    let config2 = clone_config(&config);
    let config3 = clone_config(&config);

    let op_inline = d.add(
        TypeDeclaration {
            name: String::from_str("OpInline"),
            docs: String::new(),
            config: singleton_config(config),
            generic_params: Vec::new(),
            value: DeclarationValue::TStruct(
                TStruct {
                    fields: singleton_field(
                        StructField {
                            name: String::from_str("graphs"),
                            docs: String::new(),
                            field_type: StructFieldType::TVec(
                                TVec::TPrimitive(TPrimitive::String),
                            ),
                            config: Vec::new(),
                        },
                    ),
                },
            ),
        },
    );

    let mut fetch_fields: Vec<StructField> = Vec::new();
    fetch_fields.push(
        StructField {
            name: String::from_str("timeline_key"),
            docs: String::new(),
            field_type: StructFieldType::TPrimitive(TPrimitive::Ti64),
            config: Vec::new(),
        },
    );
    fetch_fields.push(
        StructField {
            name: String::from_str("graph_ids"),
            docs: String::new(),
            field_type: StructFieldType::TVec(TVec::TPrimitive(TPrimitive::Ti64)),
            config: Vec::new(),
        },
    );
    let op_fetch = d.add(
        TypeDeclaration {
            name: String::from_str("OpFetch"),
            docs: String::new(),
            config: singleton_config(config2),
            generic_params: Vec::new(),
            value: DeclarationValue::TStruct(TStruct { fields: fetch_fields }),
        },
    );

    let mut variants: Vec<EnumVariant> = Vec::new();
    variants.push(
        EnumVariant {
            name: String::from_str("OpInline"),
            docs: String::new(),
            variant_type: EnumVariantType::TPrimitive(op_inline.primitive()),
        },
    );
    variants.push(
        EnumVariant {
            name: String::from_str("OpFetch"),
            docs: String::new(),
            variant_type: EnumVariantType::TPrimitive(op_fetch.primitive()),
        },
    );
    d.add(
        TypeDeclaration {
            name: String::from_str("OperationsEnum"),
            docs: String::new(),
            config: singleton_config(config3),
            generic_params: Vec::new(),
            value: DeclarationValue::TEnum(TEnum { variants }),
        },
    );

    d
}

/// Copy one attribute configuration entry.
fn clone_config(c: &TypeDeclarationConfig) -> (r: TypeDeclarationConfig)
    ensures
        (c matches TypeDeclarationConfig::RustAttribute(a) ==> (r
            matches TypeDeclarationConfig::RustAttribute(b) && b@ == a@)),
{
    match c {
        TypeDeclarationConfig::RustAttribute(a) => TypeDeclarationConfig::RustAttribute(
            a.clone(),
        ),
    }
}

/// A one-entry configuration list.
fn singleton_config(c: TypeDeclarationConfig) -> (r: Vec<TypeDeclarationConfig>)
    ensures
        r@ == seq![c],
{
    let mut r: Vec<TypeDeclarationConfig> = Vec::new();
    r.push(c);
    proof {
        assert(r@ =~= seq![c]);
    }
    r
}

/// A one-entry field list.
fn singleton_field(f: StructField) -> (r: Vec<StructField>)
    ensures
        r@ == seq![f],
{
    let mut r: Vec<StructField> = Vec::new();
    r.push(f);
    proof {
        assert(r@ =~= seq![f]);
    }
    r
}

} // verus!
