//! The native-union backend over a generic graph schema: bounds on
//! generic parameters, per-field attributes, a raw type override, a code
//! block, and both map flavours.

use gull::declarations::{Declarations, DeclarationsConfig};
use gull::definitions::{
    CodeBlock, DeclarationValue, StructField, StructFieldConfig, StructFieldType, TGeneric, TMap,
    TMapType, TMapValue, TOption, TPrimitive, TSet, TStruct, TypeDeclaration,
    TypeDeclarationConfig,
};

fn expected(s: &str) -> &str {
    let s = s.strip_prefix('\n').unwrap_or(s);
    s.strip_suffix('\n').unwrap_or(s)
}

fn make_declarations() -> Declarations {
    let mut c = Declarations::new();

    let skip_serializing_none = StructFieldConfig::RustAttribute(
        r#"#[serde(skip_serializing_if = "Option::is_none")]"#.to_string(),
    );

    let struct_derives =
        TypeDeclarationConfig::RustAttribute("#[derive(Default, Clone)]".to_string());

    let struct_derives_eq_ord = TypeDeclarationConfig::RustAttribute(
        "#[derive(Default, Clone, Ord, PartialOrd, Eq, PartialEq)]".to_string(),
    );

    c.add_config(DeclarationsConfig::HackNamespace("NS".to_string()));

    c.add(TypeDeclaration {
        name: "".to_string(),
        docs: "".to_string(),
        config: vec![],
        generic_params: vec![],
        value: DeclarationValue::CodeBlock(CodeBlock::Rust(vec![
            "use chrono::{DateTime, Utc};".to_string(),
            "use crate::types::{IndexedStr as _IndexedStr, ID as _ID};".to_string(),
        ])),
    });

    c.add(TypeDeclaration {
        name: "ID".to_string(),
        docs: "".to_string(),
        config: vec![],
        generic_params: vec![],
        value: DeclarationValue::TPrimitive(TPrimitive::TDifferentPerLanguage {
            rust: Box::new(TPrimitive::THardcoded("_ID".to_string())),
            hack: Box::new(TPrimitive::Ti64),
            flow: Box::new(TPrimitive::Ti64),
        }),
    });

    c.add(TypeDeclaration {
        name: "".to_string(),
        docs: "
        ==========================================================================
        Simple file defining various graph data types
        =========================================================================="
            .to_string(),
        config: vec![],
        generic_params: vec![],
        value: DeclarationValue::Docs,
    });

    c.add(TypeDeclaration {
        name: "NodeID".to_string(),
        docs: "".to_string(),
        config: vec![],
        generic_params: vec![],
        value: DeclarationValue::TPrimitive(TPrimitive::Ti64),
    });

    c.add(TypeDeclaration {
        name: "NodeName".to_string(),
        docs: "".to_string(),
        config: vec![],
        generic_params: vec![],
        value: DeclarationValue::TPrimitive(TPrimitive::String),
    });

    let t_generic = TGeneric::TDefinition { name: "T".to_string(), bounds: None };

    let ts_generic =
        TGeneric::TDefinition { name: "TS".to_string(), bounds: Some("Ord".to_string()) };

    let tn_generic =
        TGeneric::TDefinition { name: "TN".to_string(), bounds: Some("Ord".to_string()) };

    let dynamic_edge = c.add(TypeDeclaration {
        name: "DynamicEdge".to_string(),
        docs: "".to_string(),
        config: vec![struct_derives_eq_ord],
        generic_params: vec![ts_generic.clone(), tn_generic.clone()],
        value: DeclarationValue::TStruct(TStruct {
            fields: vec![
                StructField {
                    name: "branches".to_string(),
                    docs: "".to_string(),
                    field_type: StructFieldType::TMap(TMap {
                        key: TPrimitive::TGeneric(ts_generic.clone()),
                        value: TMapValue::TSet(TSet::TPrimitive(TPrimitive::TGeneric(
                            tn_generic.clone(),
                        ))),
                        t: TMapType::BTree,
                    }),
                    config: vec![],
                },
                StructField {
                    name: "properties".to_string(),
                    docs: "".to_string(),
                    field_type: StructFieldType::TOption(TOption::TMap(TMap {
                        key: TPrimitive::TGeneric(ts_generic.clone()),
                        value: TMapValue::TSet(TSet::TPrimitive(TPrimitive::TGeneric(
                            ts_generic.clone(),
                        ))),
                        t: TMapType::BTree,
                    })),
                    config: vec![],
                },
            ],
        }),
    });

    let node_edges = c.add(TypeDeclaration {
        name: "NodeEdges".to_string(),
        docs: "".to_string(),
        config: vec![struct_derives.clone()],
        generic_params: vec![ts_generic.clone(), tn_generic.clone()],
        value: DeclarationValue::TStruct(TStruct {
            fields: vec![
                StructField {
                    name: "directed".to_string(),
                    docs: "".to_string(),
                    field_type: StructFieldType::TSet(TSet::TPrimitive(TPrimitive::TGeneric(
                        tn_generic.clone(),
                    ))),
                    config: vec![],
                },
                StructField {
                    name: "dynamic".to_string(),
                    docs: "".to_string(),
                    field_type: StructFieldType::TPrimitive(TPrimitive::TReference(dynamic_edge)),
                    config: vec![],
                },
                StructField {
                    name: "tagged".to_string(),
                    docs: "".to_string(),
                    field_type: StructFieldType::TOption(TOption::TMap(TMap {
                        key: TPrimitive::TGeneric(ts_generic),
                        value: TMapValue::TSet(TSet::TPrimitive(TPrimitive::TGeneric(tn_generic))),
                        t: TMapType::BTree,
                    })),
                    config: vec![],
                },
            ],
        }),
    });

    let node = c.add(TypeDeclaration {
        name: "GraphNode".to_string(),
        docs: "".to_string(),
        config: vec![struct_derives.clone()],
        generic_params: vec![t_generic.clone()],
        value: DeclarationValue::TStruct(TStruct {
            fields: vec![
                StructField {
                    name: "name".to_string(),
                    docs: "".to_string(),
                    field_type: StructFieldType::TPrimitive(TPrimitive::TGeneric(
                        t_generic.clone(),
                    )),
                    config: vec![],
                },
                StructField {
                    name: "edges".to_string(),
                    docs: "".to_string(),
                    field_type: StructFieldType::TOption(TOption::TPrimitive(
                        TPrimitive::TReference(node_edges),
                    )),
                    config: vec![skip_serializing_none],
                },
            ],
        }),
    });

    let graph = c.add(TypeDeclaration {
        name: "Graph".to_string(),
        docs: "".to_string(),
        config: vec![struct_derives],
        generic_params: vec![t_generic.clone()],
        value: DeclarationValue::TStruct(TStruct {
            fields: vec![
                StructField {
                    name: "nodes".to_string(),
                    docs: "".to_string(),
                    field_type: StructFieldType::TMap(TMap {
                        key: TPrimitive::TGeneric(t_generic.clone()),
                        value: TMapValue::TPrimitive(TPrimitive::TReference(node)),
                        t: TMapType::Hash,
                    }),
                    config: vec![],
                },
                StructField {
                    name: "timestamp".to_string(),
                    docs: "".to_string(),
                    field_type: StructFieldType::TPrimitive(TPrimitive::String),
                    config: vec![StructFieldConfig::RustOverride("DateTime<Utc>".to_string())],
                },
            ],
        }),
    });

    let mut generic_graph = graph;
    generic_graph.generic_params = vec![t_generic.clone()];

    c.add(TypeDeclaration {
        name: "GraphProxyType".to_string(),
        docs: "".to_string(),
        config: vec![],
        generic_params: vec![t_generic],
        value: DeclarationValue::TPrimitive(generic_graph.primitive()),
    });

    c
}

#[test]
fn graph_types_test_rust_test() {
    let declarations = make_declarations();
    assert_eq!(
        declarations.codegen_rust().unwrap(),
        expected(
            r#"
use std::collections::BTreeMap;
use std::collections::BTreeSet;
use std::collections::HashMap;


use chrono::{DateTime, Utc};
use crate::types::{IndexedStr as _IndexedStr, ID as _ID};

pub type ID = _ID;

// ==========================================================================
// Simple file defining various graph data types
// ==========================================================================


pub type NodeID = i64;

pub type NodeName = String;

#[derive(Default, Clone, Ord, PartialOrd, Eq, PartialEq)]
pub struct DynamicEdge<TS: Ord, TN: Ord> {
    pub branches: BTreeMap<TS, BTreeSet<TN>>,
    pub properties: Option<BTreeMap<TS, BTreeSet<TS>>>,
}

#[derive(Default, Clone)]
pub struct NodeEdges<TS: Ord, TN: Ord> {
    pub directed: BTreeSet<TN>,
    pub dynamic: DynamicEdge,
    pub tagged: Option<BTreeMap<TS, BTreeSet<TN>>>,
}

#[derive(Default, Clone)]
pub struct GraphNode<T> {
    pub name: T,
    #[serde(skip_serializing_if = "Option::is_none")]
    pub edges: Option<NodeEdges>,
}

#[derive(Default, Clone)]
pub struct Graph<T> {
    pub nodes: HashMap<T, GraphNode>,
    pub timestamp: DateTime<Utc>,
}

pub type GraphProxyType<T> = Graph<T>;

"#
        )
    );
}
