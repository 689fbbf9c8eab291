//! Remaining shape corners: optional tuple positions, set aliases, file
//! headers, and per-backend code-block passthrough.

use gull::declarations::{Declarations, DeclarationsConfig};
use gull::definitions::{
    CodeBlock, DeclarationValue, TOption, TPrimitive, TSet, TTuple, TupleItem, TypeDeclaration,
};

#[test]
fn tuple_with_optional_position() {
    let mut c = Declarations::new();
    c.add(TypeDeclaration {
        name: "Pair".to_string(),
        docs: "".to_string(),
        config: vec![],
        generic_params: vec![],
        value: DeclarationValue::TTuple(TTuple {
            items: vec![
                TupleItem::TPrimitive(TPrimitive::Ti64),
                TupleItem::TOption(TOption::TPrimitive(TPrimitive::Tbool)),
            ],
        }),
    });
    assert_eq!(c.codegen_rust().unwrap(), "\n\npub type Pair = (i64, Option<bool>);\n");
    assert_eq!(c.codegen_hack().unwrap(), "<?hh\n\ntype Pair = (int, ?bool);\n");
    assert_eq!(c.codegen_flow().unwrap(), "\nexport type Pair = [number, ?boolean];\n");
}

#[test]
fn set_alias() {
    let mut c = Declarations::new();
    c.add(TypeDeclaration {
        name: "Tags".to_string(),
        docs: "".to_string(),
        config: vec![],
        generic_params: vec![],
        value: DeclarationValue::TSet(Box::new(TSet::TPrimitive(TPrimitive::String))),
    });
    assert_eq!(
        c.codegen_rust().unwrap(),
        "use std::collections::BTreeSet;\n\n\npub type Tags = BTreeSet<String>;\n"
    );
    assert_eq!(c.codegen_hack().unwrap(), "<?hh\n\ntype Tags = keyset<string>;\n");
    assert_eq!(c.codegen_flow().unwrap(), "\nexport type Tags = Array<string>;\n");
}

#[test]
fn file_headers_are_emitted_in_order() {
    let mut c = Declarations::new();
    c.add_config(DeclarationsConfig::FileHeader("// first".to_string()));
    c.add_config(DeclarationsConfig::HackNamespace("NS".to_string()));
    c.add_config(DeclarationsConfig::FileHeader("// second".to_string()));
    c.add(TypeDeclaration {
        name: "Id".to_string(),
        docs: "".to_string(),
        config: vec![],
        generic_params: vec![],
        value: DeclarationValue::TPrimitive(TPrimitive::Ti64),
    });
    assert_eq!(
        c.codegen_hack().unwrap(),
        "<?hh\n// first\n// second\n\ntype NSId = int;\n"
    );
    assert_eq!(c.codegen_flow().unwrap(), "// first\n// second\n\nexport type Id = number;\n");
    // The native-union backend takes no file headers and no namespace.
    assert_eq!(c.codegen_rust().unwrap(), "\n\npub type Id = i64;\n");
}

#[test]
fn code_blocks_reach_only_their_backend() {
    let mut c = Declarations::new();
    c.add(TypeDeclaration {
        name: "".to_string(),
        docs: "".to_string(),
        config: vec![],
        generic_params: vec![],
        value: DeclarationValue::CodeBlock(CodeBlock::Hack(vec![
            "function helper(): int {".to_string(),
            "  return 1;".to_string(),
            "}".to_string(),
        ])),
    });
    c.add(TypeDeclaration {
        name: "".to_string(),
        docs: "".to_string(),
        config: vec![],
        generic_params: vec![],
        value: DeclarationValue::CodeBlock(CodeBlock::Flow(vec!["// @flow".to_string()])),
    });
    assert_eq!(
        c.codegen_hack().unwrap(),
        "<?hh\n\nfunction helper(): int {\n  return 1;\n}\n\n\n"
    );
    assert_eq!(c.codegen_flow().unwrap(), "\n\n\n// @flow\n");
    assert_eq!(c.codegen_rust().unwrap(), "\n\n\n\n\n");
}
