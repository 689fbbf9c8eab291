//! The construction helpers, the demonstration declaration set, and the
//! case conversion surfaced through the shape backends.

use gull::builders::{
    build_derives, build_enum, build_enum_variant, build_map, build_set, build_struct,
    build_struct_field, build_vec, decl,
};
use gull::declarations::Declarations;
use gull::definitions::{
    DeclarationValue, EnumVariantType, StructFieldType, TPrimitive, TSimpleEnum,
    TypeDeclarationConfig,
};
use gull::sample::make_declarations;

fn expected(s: &str) -> &str {
    let s = s.strip_prefix('\n').unwrap_or(s);
    s.strip_suffix('\n').unwrap_or(s)
}

#[test]
fn builders_assemble_a_schema() {
    let mut d = Declarations::new();

    let frame = decl("Frame".to_string())
        .value(DeclarationValue::TPrimitive(TPrimitive::String))
        .build(&mut d);

    let record = build_struct()
        .field(
            build_struct_field("id".to_string())
                .field_type(StructFieldType::TPrimitive(TPrimitive::Ti64))
                .build(),
        )
        .field(
            build_struct_field("frames".to_string())
                .field_type(StructFieldType::TVec(build_vec(frame.primitive())))
                .build(),
        )
        .field(
            build_struct_field("labels".to_string())
                .field_type(StructFieldType::TMap(build_map(
                    TPrimitive::String,
                    TPrimitive::String,
                )))
                .optional()
                .build(),
        )
        .field(
            build_struct_field("tags".to_string())
                .field_type(StructFieldType::TSet(build_set(TPrimitive::Ti64)))
                .build(),
        )
        .build();

    let record_ref = decl("Record".to_string()).value(record.decl()).build(&mut d);

    let op = build_enum()
        .variant(
            build_enum_variant("Store".to_string())
                .variant_type(EnumVariantType::TPrimitive(record_ref.primitive()))
                .build(),
        )
        .variant(
            build_enum_variant("Drop".to_string())
                .variant_type(EnumVariantType::Empty)
                .build(),
        )
        .build();

    decl("Op".to_string()).value(DeclarationValue::TEnum(op)).build(&mut d);

    assert_eq!(
        d.codegen_rust().unwrap(),
        expected(
            r#"
use std::collections::BTreeMap;
use std::collections::BTreeSet;


pub type Frame = String;

pub struct Record {
    pub id: i64,
    pub frames: Vec<Frame>,
    pub labels: Option<BTreeMap<String, String>>,
    pub tags: BTreeSet<i64>,
}

pub enum Op {
    Store(Record),
    Drop,
}

"#
        )
    );
}

#[test]
fn derives_attribute_is_injected_verbatim() {
    let attr = build_derives(vec!["Debug".to_string(), "Clone".to_string()]);
    let TypeDeclarationConfig::RustAttribute(a) = attr;
    assert_eq!(a, "#[derive(Debug, Clone)]");
}

#[test]
fn sample_renders_native_union() {
    let d = make_declarations();
    assert_eq!(
        d.codegen_rust().unwrap(),
        expected(
            r#"


#[derive(serde::Serialize, serde::Deserialize)]
pub struct OpInline {
    pub graphs: Vec<String>,
}

#[derive(serde::Serialize, serde::Deserialize)]
pub struct OpFetch {
    pub timeline_key: i64,
    pub graph_ids: Vec<i64>,
}

#[derive(serde::Serialize, serde::Deserialize)]
pub enum OperationsEnum {
    OpInline(OpInline),
    OpFetch(OpFetch),
}

"#
        )
    );
}

#[test]
fn simple_enum_name_is_upper_camel_cased() {
    let mut c = Declarations::new();
    c.add(gull::definitions::TypeDeclaration {
        name: "storage_type".to_string(),
        docs: "".to_string(),
        config: vec![],
        generic_params: vec![],
        value: DeclarationValue::TSimpleEnum(TSimpleEnum {
            variants: vec!["FullSync".to_string(), "Delta".to_string()],
        }),
    });
    assert_eq!(
        c.codegen_flow().unwrap(),
        "\nexport type storage_type = \"FullSync\" | \"Delta\";\n\nexport enum StorageTypeEnum {FullSync, Delta};\n"
    );
    assert_eq!(
        c.codegen_hack().unwrap(),
        "<?hh\n\nenum storage_type: string as string {\n    FULL_SYNC = \"FullSync\";\n    DELTA = \"Delta\";\n}\n"
    );
}
