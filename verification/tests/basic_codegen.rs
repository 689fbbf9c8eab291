//! The three backends rendered over one realistic declaration set, held to
//! their full expected outputs.

use gull::declarations::{Declarations, DeclarationsConfig};
use gull::definitions::{
    DeclarationValue, EnumVariant, EnumVariantType, StructField, StructFieldConfig,
    StructFieldType, TEnum, TGeneric, TMap, TMapType, TMapValue, TOption, TPrimitive, TSimpleEnum,
    TStruct, TTuple, TVec, TupleItem, TypeDeclaration, TypeDeclarationConfig,
};

/// Inline expected blocks are written with one decorative newline on each
/// side, which is not part of the expected text.
fn expected(s: &str) -> &str {
    let s = s.strip_prefix('\n').unwrap_or(s);
    s.strip_suffix('\n').unwrap_or(s)
}

fn make_declarations() -> Declarations {
    let mut c = Declarations::new();

    c.add_config(DeclarationsConfig::HackNamespace("GraphiteIngester".to_string()));

    c.add(TypeDeclaration {
        name: "".to_string(),
        docs: "Hello world
        ==========================================================================
        THIS IS AN INDEPENDENT DOCUMENTATION BLOCK
        =========================================================================="
            .to_string(),
        config: vec![],
        generic_params: vec![],
        value: DeclarationValue::Docs,
    });

    let frame = c.add(TypeDeclaration {
        name: "Frame".to_string(),
        docs: "Frame represents a tuple of an Timestamp (RFC3339) and an ID".to_string(),
        config: vec![TypeDeclarationConfig::RustAttribute("#[derive(Copy)]".to_string())],
        generic_params: vec![],
        value: DeclarationValue::TTuple(TTuple {
            items: vec![
                TupleItem::TPrimitive(TPrimitive::String),
                TupleItem::TPrimitive(TPrimitive::Ti64),
            ],
        }),
    });

    let indexable_str = c.add(TypeDeclaration {
        name: "IndexableStr".to_string(),
        docs: "".to_string(),
        config: vec![],
        generic_params: vec![],
        value: DeclarationValue::TPrimitive(TPrimitive::TDifferentPerLanguage {
            rust: Box::new(TPrimitive::THardcoded("crate::types::IndexableStr".to_string())),
            hack: Box::new(TPrimitive::String),
            flow: Box::new(TPrimitive::String),
        }),
    });

    c.add(TypeDeclaration {
        name: "StorageType".to_string(),
        docs: "".to_string(),
        config: vec![],
        generic_params: vec![],
        value: DeclarationValue::TSimpleEnum(TSimpleEnum {
            variants: vec![
                "Full".to_string(),
                "Delta".to_string(),
                "Empty".to_string(),
                "Broken".to_string(),
            ],
        }),
    });

    c.add(TypeDeclaration {
        name: "Operation".to_string(),
        docs: "Operation is a single unit of transormation logic".to_string(),
        config: vec![],
        generic_params: vec![],
        value: DeclarationValue::TEnum(TEnum {
            variants: vec![
                EnumVariant {
                    name: "Fetch".to_string(),
                    docs: "Fetch items by their IDs".to_string(),
                    variant_type: EnumVariantType::TStruct(TStruct {
                        fields: vec![StructField {
                            name: "items".to_string(),
                            docs: "item IDs".to_string(),
                            config: vec![],
                            field_type: StructFieldType::TVec(TVec::TPrimitive(TPrimitive::Ti64)),
                        }],
                    }),
                },
                EnumVariant {
                    name: "Store".to_string(),
                    docs: "Store graphs to a storage layer".to_string(),
                    variant_type: EnumVariantType::TStruct(TStruct {
                        fields: vec![StructField {
                            name: "frames".to_string(),
                            docs: "Destination frames for the storage".to_string(),
                            config: vec![],
                            field_type: StructFieldType::TVec(TVec::TPrimitive(
                                TPrimitive::TReference(frame),
                            )),
                        }],
                    }),
                },
                EnumVariant {
                    name: "Drop".to_string(),
                    docs: "Discard all graphs".to_string(),
                    variant_type: EnumVariantType::TPrimitive(TPrimitive::Tbool),
                },
                EnumVariant {
                    name: "FakeOp".to_string(),
                    docs: "Not a real operation".to_string(),
                    variant_type: EnumVariantType::TPrimitive(TPrimitive::Ti64),
                },
            ],
        }),
    });

    let node_id = c.add(TypeDeclaration {
        name: "NodeID".to_string(),
        docs: "".to_string(),
        config: vec![],
        generic_params: vec![],
        value: DeclarationValue::TPrimitive(TPrimitive::Ti64),
    });

    let graph_node = c.add(TypeDeclaration {
        name: "GraphNode".to_string(),
        docs: "".to_string(),
        config: vec![],
        generic_params: vec![],
        value: DeclarationValue::TStruct(TStruct {
            fields: vec![StructField {
                name: "node_id".to_string(),
                docs: "".to_string(),
                config: vec![],
                field_type: StructFieldType::TPrimitive(TPrimitive::TReference(node_id)),
            }],
        }),
    });

    let graph_data = c.add(TypeDeclaration {
        name: "GraphData".to_string(),
        docs: r#"Wrapper value that represents a graph. It contains various top level
        data about the graph as well as a collection of nodes. This is a long
        multiline documentaino block that is here for testing purposes only. I'll also
        add some Ascii diagram just to make sure nothing gets misalligned.

            $> SELECT name, age, hometown, credit_card_number FROM users

            +----------+-----+-------------+----------------+
            | Name     | Age | Location    | Credit Card    |
            +----------+-----+-------------+----------------+
            | Bobby    | 17  | El Paso, TX | 1234 4294 2492 |
            | Hannah   | 20  | Memphis, TN | 9494 2492 4024 |
            +----------+-----+-------------+----------------+

        Some more docs after the ASCII drawings.

        Maybe some extra line after a newline.
        "#
            .to_string(),
        config: vec![],
        generic_params: vec![],
        value: DeclarationValue::TStruct(TStruct {
            fields: vec![
                StructField {
                    name: "entry_points".to_string(),
                    docs: "Root nodes of the graph".to_string(),
                    config: vec![],
                    field_type: StructFieldType::TVec(TVec::TPrimitive(TPrimitive::Ti64)),
                },
                StructField {
                    name: "nodes".to_string(),
                    docs: "".to_string(),
                    config: vec![],
                    field_type: StructFieldType::TMap(TMap {
                        key: TPrimitive::Ti64,
                        value: TMapValue::TPrimitive(TPrimitive::TReference(graph_node.clone())),
                        t: TMapType::BTree,
                    }),
                },
                StructField {
                    name: "string_fields".to_string(),
                    docs: "A bunch of random string fields
                    that are represented as a map between string and string
                    and other important lines of documentation."
                        .to_string(),
                    config: vec![StructFieldConfig::RustAttribute(
                        r#"#[serde(skip_serializing_if = "Option::is_none")]"#.to_string(),
                    )],
                    field_type: StructFieldType::TOption(TOption::TMap(TMap {
                        key: TPrimitive::String,
                        value: TMapValue::TPrimitive(TPrimitive::String),
                        t: TMapType::BTree,
                    })),
                },
            ],
        }),
    });

    let mut graph_data_unindexed = graph_data;
    graph_data_unindexed.generic_params = vec![
        TGeneric::TReference(indexable_str.clone()),
        TGeneric::TReference(indexable_str),
    ];

    c.add(TypeDeclaration {
        name: "GraphDataUnindexed".to_string(),
        docs: "".to_string(),
        config: vec![],
        generic_params: vec![],
        value: DeclarationValue::TPrimitive(TPrimitive::TReference(graph_data_unindexed)),
    });

    c.add(TypeDeclaration {
        name: "BasicVec".to_string(),
        docs: "".to_string(),
        config: vec![],
        generic_params: vec![],
        value: DeclarationValue::TVec(Box::new(TVec::TPrimitive(TPrimitive::Tf64))),
    });

    c.add(TypeDeclaration {
        name: "BasicMap".to_string(),
        docs: "".to_string(),
        config: vec![],
        generic_params: vec![],
        value: DeclarationValue::TMap(Box::new(TMap {
            key: TPrimitive::Ti64,
            value: TMapValue::TPrimitive(graph_node.clone().primitive()),
            t: TMapType::BTree,
        })),
    });

    c.add(TypeDeclaration {
        name: "BasicOption".to_string(),
        docs: "".to_string(),
        config: vec![],
        generic_params: vec![],
        value: DeclarationValue::TOption(Box::new(TOption::TPrimitive(
            graph_node.clone().primitive(),
        ))),
    });

    c.add(TypeDeclaration {
        name: "BasicStruct".to_string(),
        docs: "".to_string(),
        config: vec![],
        generic_params: vec![],
        value: DeclarationValue::TStruct(TStruct {
            fields: vec![
                StructField {
                    name: "map".to_string(),
                    docs: "".to_string(),
                    config: vec![],
                    field_type: StructFieldType::TPrimitive(TPrimitive::TMap(Box::new(TMap {
                        key: TPrimitive::Ti64,
                        value: TMapValue::TPrimitive(graph_node.clone().primitive()),
                        t: TMapType::BTree,
                    }))),
                },
                StructField {
                    name: "vec".to_string(),
                    docs: "".to_string(),
                    config: vec![],
                    field_type: StructFieldType::TPrimitive(TPrimitive::TVec(Box::new(
                        TVec::TPrimitive(graph_node.clone().primitive()),
                    ))),
                },
                StructField {
                    name: "vec".to_string(),
                    docs: "".to_string(),
                    config: vec![],
                    field_type: StructFieldType::TPrimitive(TPrimitive::TOption(Box::new(
                        TOption::TPrimitive(graph_node.primitive()),
                    ))),
                },
            ],
        }),
    });

    c
}

#[test]
fn basic_codegen_test_rust_test() {
    let declarations = make_declarations();
    assert_eq!(
        declarations.codegen_rust().unwrap(),
        expected(
            r#"
use std::collections::BTreeMap;


// Hello world
// ==========================================================================
// THIS IS AN INDEPENDENT DOCUMENTATION BLOCK
// ==========================================================================


#[derive(Copy)]
/// Frame represents a tuple of an Timestamp (RFC3339) and an ID
pub type Frame = (String, i64);

pub type IndexableStr = crate::types::IndexableStr;

pub enum StorageType {
    Full,
    Delta,
    Empty,
    Broken,
}

/// Operation is a single unit of transormation logic
pub enum Operation {
    /// Fetch items by their IDs
    Fetch {
        /// item IDs
        items: Vec<i64>,
    },
    /// Store graphs to a storage layer
    Store {
        /// Destination frames for the storage
        frames: Vec<Frame>,
    },
    /// Discard all graphs
    Drop(bool),
    /// Not a real operation
    FakeOp(i64),
}

pub type NodeID = i64;

pub struct GraphNode {
    pub node_id: NodeID,
}

/// Wrapper value that represents a graph. It contains various top level
/// data about the graph as well as a collection of nodes. This is a long
/// multiline documentaino block that is here for testing purposes only. I'll also
/// add some Ascii diagram just to make sure nothing gets misalligned.
/// 
///     $> SELECT name, age, hometown, credit_card_number FROM users
/// 
///     +----------+-----+-------------+----------------+
///     | Name     | Age | Location    | Credit Card    |
///     +----------+-----+-------------+----------------+
///     | Bobby    | 17  | El Paso, TX | 1234 4294 2492 |
///     | Hannah   | 20  | Memphis, TN | 9494 2492 4024 |
///     +----------+-----+-------------+----------------+
/// 
/// Some more docs after the ASCII drawings.
/// 
/// Maybe some extra line after a newline.
pub struct GraphData {
    /// Root nodes of the graph
    pub entry_points: Vec<i64>,
    pub nodes: BTreeMap<i64, GraphNode>,
    #[serde(skip_serializing_if = "Option::is_none")]
    /// A bunch of random string fields
    /// that are represented as a map between string and string
    /// and other important lines of documentation.
    pub string_fields: Option<BTreeMap<String, String>>,
}

pub type GraphDataUnindexed = GraphData<IndexableStr, IndexableStr>;

pub type BasicVec = Vec<f64>;

pub type BasicMap = BTreeMap<i64, GraphNode>;

pub type BasicOption = Option<GraphNode>;

pub struct BasicStruct {
    pub map: BTreeMap<i64, GraphNode>,
    pub vec: Vec<GraphNode>,
    pub vec: Option<GraphNode>,
}

"#
        )
    );
}

#[test]
fn basic_codegen_test_hack_test() {
    let declarations = make_declarations();
    assert_eq!(
        declarations.codegen_hack().unwrap(),
        expected(
            r#"
<?hh

// Hello world
// ==========================================================================
// THIS IS AN INDEPENDENT DOCUMENTATION BLOCK
// ==========================================================================


// Frame represents a tuple of an Timestamp (RFC3339) and an ID
type GraphiteIngesterFrame = (string, int);

type GraphiteIngesterIndexableStr = string;

enum GraphiteIngesterStorageType: string as string {
    FULL = "Full";
    DELTA = "Delta";
    EMPTY = "Empty";
    BROKEN = "Broken";
}

// Operation is a single unit of transormation logic

enum GraphiteIngesterOperationType: string as string {
    FETCH = "Fetch";
    STORE = "Store";
    DROP = "Drop";
    FAKE_OP = "FakeOp";
}

type GraphiteIngesterOperation = shape(
    // Fetch items by their IDs
    ?'Fetch' =>  shape(
        // item IDs
        'items' => vec<int>,
    ),
    // Store graphs to a storage layer
    ?'Store' =>  shape(
        // Destination frames for the storage
        'frames' => vec<GraphiteIngesterFrame>,
    ),
    // Discard all graphs
    ?'Drop' => bool,
    // Not a real operation
    ?'FakeOp' => int,
);

type GraphiteIngesterNodeID = int;

type GraphiteIngesterGraphNode = shape(
    'node_id' => GraphiteIngesterNodeID,
);

// Wrapper value that represents a graph. It contains various top level
// data about the graph as well as a collection of nodes. This is a long
// multiline documentaino block that is here for testing purposes only. I'll also
// add some Ascii diagram just to make sure nothing gets misalligned.
// 
//     $> SELECT name, age, hometown, credit_card_number FROM users
// 
//     +----------+-----+-------------+----------------+
//     | Name     | Age | Location    | Credit Card    |
//     +----------+-----+-------------+----------------+
//     | Bobby    | 17  | El Paso, TX | 1234 4294 2492 |
//     | Hannah   | 20  | Memphis, TN | 9494 2492 4024 |
//     +----------+-----+-------------+----------------+
// 
// Some more docs after the ASCII drawings.
// 
// Maybe some extra line after a newline.
type GraphiteIngesterGraphData = shape(
    // Root nodes of the graph
    'entry_points' => vec<int>,
    'nodes' => dict<int, GraphiteIngesterGraphNode>,
    // A bunch of random string fields
    // that are represented as a map between string and string
    // and other important lines of documentation.
    ?'string_fields' => dict<string, string>,
);

type GraphiteIngesterGraphDataUnindexed = GraphiteIngesterGraphData<GraphiteIngesterIndexableStr, GraphiteIngesterIndexableStr>;

type GraphiteIngesterBasicVec = vec<float>;

type GraphiteIngesterBasicMap = dict<int, GraphiteIngesterGraphNode>;

type GraphiteIngesterBasicOption = ?GraphiteIngesterGraphNode;

type GraphiteIngesterBasicStruct = shape(
    'map' => dict<int, GraphiteIngesterGraphNode>,
    'vec' => vec<GraphiteIngesterGraphNode>,
    'vec' => ?GraphiteIngesterGraphNode,
);

"#
        )
    );
}

#[test]
fn basic_codegen_test_flow_test() {
    let declarations = make_declarations();
    assert_eq!(
        declarations.codegen_flow().unwrap(),
        expected(
            r#"

// Hello world
// ==========================================================================
// THIS IS AN INDEPENDENT DOCUMENTATION BLOCK
// ==========================================================================


// Frame represents a tuple of an Timestamp (RFC3339) and an ID
export type Frame = [string, number];

export type IndexableStr = string;

export type StorageType = "Full" | "Delta" | "Empty" | "Broken";

export enum StorageTypeEnum {Full, Delta, Empty, Broken};

// Operation is a single unit of transormation logic
type OperationType = "Fetch" | "Store" | "Drop" | "FakeOp";

export type Operation = {
    'type': OperationType,
    // Fetch items by their IDs
    'Fetch'?:  {
        // item IDs
        'items': Array<number>,
    },
    // Store graphs to a storage layer
    'Store'?:  {
        // Destination frames for the storage
        'frames': Array<Frame>,
    },
    // Discard all graphs
    'Drop'?: boolean,
    // Not a real operation
    'FakeOp'?: number,
};

export type NodeID = number;

export type GraphNode = {
    'node_id': NodeID,
};

// Wrapper value that represents a graph. It contains various top level
// data about the graph as well as a collection of nodes. This is a long
// multiline documentaino block that is here for testing purposes only. I'll also
// add some Ascii diagram just to make sure nothing gets misalligned.
// 
//     $> SELECT name, age, hometown, credit_card_number FROM users
// 
//     +----------+-----+-------------+----------------+
//     | Name     | Age | Location    | Credit Card    |
//     +----------+-----+-------------+----------------+
//     | Bobby    | 17  | El Paso, TX | 1234 4294 2492 |
//     | Hannah   | 20  | Memphis, TN | 9494 2492 4024 |
//     +----------+-----+-------------+----------------+
// 
// Some more docs after the ASCII drawings.
// 
// Maybe some extra line after a newline.
export type GraphData = {
    // Root nodes of the graph
    'entry_points': Array<number>,
    'nodes': {[key: number]: GraphNode},
    // A bunch of random string fields
    // that are represented as a map between string and string
    // and other important lines of documentation.
    'string_fields'?: {[key: string]: string},
};

export type GraphDataUnindexed = GraphData<IndexableStr, IndexableStr>;

export type BasicVec = Array<number>;

export type BasicMap = {[key: number]: GraphNode};

export type BasicOption = ?GraphNode;

export type BasicStruct = {
    'map': {[key: number]: GraphNode},
    'vec': Array<GraphNode>,
    'vec': ?GraphNode,
};

"#
        )
    );
}
