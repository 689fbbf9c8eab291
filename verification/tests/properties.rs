//! Targeted checks of the formatter, the reference discipline, the enum
//! encodings, generic rendering, import deduplication, and the failure
//! mode of the native-union backend.

use gull::codegen::RenderError;
use gull::declarations::Declarations;
use gull::definitions::{
    DeclarationValue, EnumVariant, EnumVariantType, StructField, StructFieldType, TEnum, TGeneric,
    TMap, TMapType, TMapValue, TPrimitive, TStruct, TVec, TypeDeclaration,
};
use gull::codegen::flow::FlowCodegen;
use gull::codegen::hack::HackCodegen;
use gull::codegen::rust::RustCodegen;
use gull::codegen::Codegen;
use gull::docs::{adjust_indentation, format_docstring, CommentStyle};

fn expected(s: &str) -> &str {
    let s = s.strip_prefix('\n').unwrap_or(s);
    s.strip_suffix('\n').unwrap_or(s)
}

#[test]
fn format_empty_is_none() {
    assert_eq!(format_docstring("", CommentStyle::DoubleSlash, 4), None);
    assert_eq!(format_docstring("   \n\t  ", CommentStyle::TripleSlash, 0), None);
}

#[test]
fn format_prefixes_every_line() {
    let out = format_docstring(
        "first line\n    second line\n\n    deeper:\n        kept relative",
        CommentStyle::DoubleSlash,
        4,
    )
    .unwrap();
    for line in out.lines() {
        assert!(line.starts_with("    // "));
    }
    assert_eq!(
        out,
        "    // first line\n    // second line\n    // \n    // deeper:\n    //     kept relative"
    );
}

#[test]
fn adjust_indentation_is_idempotent() {
    let doc = "Title\n        indented\n            deeper\n        back";
    let once = adjust_indentation(doc);
    let twice = adjust_indentation(once.as_str());
    assert_eq!(once, twice);
    assert_eq!(once, "Title\nindented\n    deeper\nback");

    let untouched = "already\nflush";
    let once = adjust_indentation(untouched);
    assert_eq!(once, untouched);
    assert_eq!(adjust_indentation(once.as_str()), untouched);
}

#[test]
fn reference_follows_append() {
    let mut c = Declarations::new();
    let a = c.add(TypeDeclaration {
        name: "A".to_string(),
        docs: "".to_string(),
        config: vec![],
        generic_params: vec![],
        value: DeclarationValue::TPrimitive(TPrimitive::Ti64),
    });
    assert_eq!(a.get_name(), "A");
    c.add(TypeDeclaration {
        name: "B".to_string(),
        docs: "".to_string(),
        config: vec![],
        generic_params: vec![],
        value: DeclarationValue::TPrimitive(a.primitive()),
    });
    assert_eq!(
        c.codegen_rust().unwrap(),
        "\n\npub type A = i64;\n\npub type B = A;\n"
    );
    assert!(c.codegen_hack().is_ok());
    assert!(c.codegen_flow().is_ok());
}

#[test]
fn full_enum_three_arms() {
    let mut c = Declarations::new();
    let frame = c.add(TypeDeclaration {
        name: "Frame".to_string(),
        docs: "".to_string(),
        config: vec![],
        generic_params: vec![],
        value: DeclarationValue::TPrimitive(TPrimitive::String),
    });
    c.add(TypeDeclaration {
        name: "Op".to_string(),
        docs: "".to_string(),
        config: vec![],
        generic_params: vec![],
        value: DeclarationValue::TEnum(TEnum {
            variants: vec![
                EnumVariant {
                    name: "Fetch".to_string(),
                    docs: "".to_string(),
                    variant_type: EnumVariantType::TPrimitive(TPrimitive::Ti64),
                },
                EnumVariant {
                    name: "Store".to_string(),
                    docs: "".to_string(),
                    variant_type: EnumVariantType::TStruct(TStruct {
                        fields: vec![StructField {
                            name: "frames".to_string(),
                            docs: "".to_string(),
                            config: vec![],
                            field_type: StructFieldType::TVec(TVec::TPrimitive(
                                TPrimitive::TReference(frame),
                            )),
                        }],
                    }),
                },
                EnumVariant {
                    name: "Drop".to_string(),
                    docs: "".to_string(),
                    variant_type: EnumVariantType::Empty,
                },
            ],
        }),
    });

    assert_eq!(
        c.codegen_rust().unwrap(),
        expected(
            r#"


pub type Frame = String;

pub enum Op {
    Fetch(i64),
    Store {
        frames: Vec<Frame>,
    },
    Drop,
}

"#
        )
    );

    assert_eq!(
        c.codegen_hack().unwrap(),
        expected(
            r#"
<?hh

type Frame = string;


enum OpType: string as string {
    FETCH = "Fetch";
    STORE = "Store";
    DROP = "Drop";
}

type Op = shape(
    ?'Fetch' => int,
    ?'Store' =>  shape(
        'frames' => vec<Frame>,
    ),
    ?'Drop' => ?null,
);

"#
        )
    );
}

#[test]
fn generic_struct_three_backends() {
    let mut c = Declarations::new();
    c.add(TypeDeclaration {
        name: "Node".to_string(),
        docs: "".to_string(),
        config: vec![],
        generic_params: vec![TGeneric::TDefinition { name: "T".to_string(), bounds: None }],
        value: DeclarationValue::TStruct(TStruct {
            fields: vec![StructField {
                name: "name".to_string(),
                docs: "".to_string(),
                config: vec![],
                field_type: StructFieldType::TPrimitive(TPrimitive::TGeneric(
                    TGeneric::TDefinition { name: "T".to_string(), bounds: None },
                )),
            }],
        }),
    });

    assert_eq!(
        c.codegen_rust().unwrap(),
        "\n\npub struct Node<T> {\n    pub name: T,\n}\n"
    );
    assert_eq!(
        c.codegen_hack().unwrap(),
        "<?hh\n\ntype Node<T> = shape(\n    'name' => T,\n);\n"
    );
    assert_eq!(
        c.codegen_flow().unwrap(),
        "\nexport type Node<T> = {\n    'name': T,\n};\n"
    );
}

fn int_to_ref_map(c: &mut Declarations, target_name: &str) -> TypeDeclaration {
    let target = c.add(TypeDeclaration {
        name: target_name.to_string(),
        docs: "".to_string(),
        config: vec![],
        generic_params: vec![],
        value: DeclarationValue::TStruct(TStruct { fields: vec![] }),
    });
    TypeDeclaration {
        name: format!("{}Map", target_name),
        docs: "".to_string(),
        config: vec![],
        generic_params: vec![],
        value: DeclarationValue::TMap(Box::new(TMap {
            key: TPrimitive::Ti64,
            value: TMapValue::TPrimitive(target.primitive()),
            t: TMapType::BTree,
        })),
    }
}

#[test]
fn ordered_map_import_deduplicated() {
    let mut c = Declarations::new();
    let m1 = int_to_ref_map(&mut c, "First");
    c.add(m1);
    let m2 = int_to_ref_map(&mut c, "Second");
    c.add(m2);
    let out = c.codegen_rust().unwrap();
    assert_eq!(out.matches("use std::collections::BTreeMap;").count(), 1);
    assert!(out.contains("pub type FirstMap = BTreeMap<i64, First>;"));
    assert!(out.contains("pub type SecondMap = BTreeMap<i64, Second>;"));
}

#[test]
fn generic_param_reference_is_refused() {
    let mut c = Declarations::new();
    let inner = c.add(TypeDeclaration {
        name: "Inner".to_string(),
        docs: "".to_string(),
        config: vec![],
        generic_params: vec![],
        value: DeclarationValue::TPrimitive(TPrimitive::Ti64),
    });
    c.add(TypeDeclaration {
        name: "Fine".to_string(),
        docs: "".to_string(),
        config: vec![],
        generic_params: vec![],
        value: DeclarationValue::TPrimitive(TPrimitive::Tbool),
    });
    c.add(TypeDeclaration {
        name: "Broken".to_string(),
        docs: "".to_string(),
        config: vec![],
        generic_params: vec![TGeneric::TReference(inner)],
        value: DeclarationValue::TStruct(TStruct { fields: vec![] }),
    });

    match c.codegen_rust() {
        Err(RenderError::GenericParamReference { declaration }) => {
            assert_eq!(declaration, "Broken");
        }
        Ok(_) => panic!("a reference in definition position must be refused"),
    }
    // The shape backends render references in argument position instead.
    assert!(c.codegen_hack().is_ok());
    assert!(c.codegen_flow().is_ok());
}

#[test]
fn empty_declarations_render() {
    let c = Declarations::new();
    assert_eq!(c.codegen_rust().unwrap(), "\n");
    assert_eq!(c.codegen_hack().unwrap(), "<?hh\n");
    assert_eq!(c.codegen_flow().unwrap(), "");
}

#[test]
fn trait_entry_points_match_inherent_renders() {
    let mut c = Declarations::new();
    c.add(TypeDeclaration {
        name: "Id".to_string(),
        docs: "".to_string(),
        config: vec![],
        generic_params: vec![],
        value: DeclarationValue::TPrimitive(TPrimitive::Ti64),
    });
    assert_eq!(
        RustCodegen::gen_declarations(&c).unwrap(),
        c.codegen_rust().unwrap()
    );
    assert_eq!(
        HackCodegen::gen_declarations(&c).unwrap(),
        c.codegen_hack().unwrap()
    );
    assert_eq!(
        FlowCodegen::gen_declarations(&c).unwrap(),
        c.codegen_flow().unwrap()
    );
}
