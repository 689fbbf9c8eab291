//! The native-union backend: real sum types, native generic containers.
//!
//! During its single recursive pass it accumulates which of the three
//! collection imports the declaration set actually references; the
//! deduplicated, sorted import lines are flushed once before the
//! declarations text.

use crate::declarations::Declarations;
use crate::definitions::{
    CodeBlock, DeclarationValue, EnumVariant, EnumVariantType, StructField, StructFieldConfig,
    StructFieldType, TEnum, TGeneric, TMap, TMapType, TMapValue, TOption, TPrimitive, TSet,
    TSimpleEnum, TStruct, TTuple, TupleItem, TVec, TypeDeclaration, TypeDeclarationConfig,
};
use crate::docs::{format_docstring_spec, CommentStyle};
use crate::shared::{sp_generic, sp_reference};
use crate::text::{join_lines, spaces};
use vstd::prelude::*;

verus! {

broadcast use crate::definitions::ref_params_decreases;

/// The native-union backend has no namespace prefix.
pub open spec fn no_ns() -> Seq<char> {
    Seq::empty()
}

/// Which collection imports a piece of the tree needs.
#[derive(Clone, Copy)]
pub struct Imports {
    pub hash_map: bool,
    pub btree_map: bool,
    pub btree_set: bool,
}

/// No imports.
pub open spec fn imp_none() -> Imports {
    Imports { hash_map: false, btree_map: false, btree_set: false }
}

/// The union of two import sets.
pub open spec fn imp_union(a: Imports, b: Imports) -> Imports {
    Imports {
        hash_map: a.hash_map || b.hash_map,
        btree_map: a.btree_map || b.btree_map,
        btree_set: a.btree_set || b.btree_set,
    }
}

/// The flushed import lines, deduplicated and sorted.
pub open spec fn sp_imports_text(im: Imports) -> Seq<char> {
    (if im.btree_map {
        "use std::collections::BTreeMap;\n"@
    } else {
        Seq::<char>::empty()
    }) + (if im.btree_set {
        "use std::collections::BTreeSet;\n"@
    } else {
        Seq::<char>::empty()
    }) + (if im.hash_map {
        "use std::collections::HashMap;\n"@
    } else {
        Seq::<char>::empty()
    })
}

/// Text of a primitive.
pub open spec fn sp_prim(p: TPrimitive) -> Seq<char>
    decreases p, 0int,
{
    match p {
        TPrimitive::String => "String"@,
        TPrimitive::Tbool => "bool"@,
        TPrimitive::Ti64 => "i64"@,
        TPrimitive::Tf64 => "f64"@,
        TPrimitive::THardcoded(s) => s@,
        TPrimitive::TVec(v) => sp_vec(*v),
        TPrimitive::TMap(m) => sp_map(*m),
        TPrimitive::TSet(s) => sp_set(*s),
        TPrimitive::TOption(o) => sp_opt(*o),
        TPrimitive::TDifferentPerLanguage { rust, .. } => sp_prim(*rust),
        TPrimitive::TGeneric(g) => sp_generic(g, no_ns()),
        TPrimitive::TReference(r) => sp_reference(r, no_ns()),
    }
}

/// Text of a vector.
pub open spec fn sp_vec(v: TVec) -> Seq<char>
    decreases v, 1int,
{
    match v {
        TVec::TPrimitive(p) => "Vec<"@ + sp_prim(p) + ">"@,
    }
}

/// Text of a set.
pub open spec fn sp_set(s: TSet) -> Seq<char>
    decreases s, 1int,
{
    match s {
        TSet::TPrimitive(p) => "BTreeSet<"@ + sp_prim(p) + ">"@,
    }
}

/// Text of a map.
pub open spec fn sp_map(m: TMap) -> Seq<char>
    decreases m, 1int,
{
    let name = match m.t {
        TMapType::Hash => "HashMap"@,
        TMapType::BTree => "BTreeMap"@,
    };
    let value = match m.value {
        TMapValue::TPrimitive(p) => sp_prim(p),
        TMapValue::TSet(s) => sp_set(s),
    };
    name + "<"@ + sp_prim(m.key) + ", "@ + value + ">"@
}

/// Text of an option.
pub open spec fn sp_opt(o: TOption) -> Seq<char>
    decreases o, 2int,
{
    let value = match o {
        TOption::TPrimitive(p) => sp_prim(p),
        TOption::TMap(m) => sp_map(m),
        TOption::TVec(v) => sp_vec(v),
        TOption::TSet(s) => sp_set(s),
        TOption::TTuple(t) => sp_tuple(t),
    };
    "Option<"@ + value + ">"@
}

/// Text of one tuple item.
pub open spec fn sp_tuple_item(item: TupleItem) -> Seq<char>
    decreases item, 3int,
{
    match item {
        TupleItem::TPrimitive(p) => sp_prim(p),
        TupleItem::TOption(o) => sp_opt(o),
    }
}

/// Comma-separated tuple item texts.
pub open spec fn sp_tuple_items(items: Seq<TupleItem>) -> Seq<char>
    decreases items, 4int,
{
    if items.len() == 0 {
        Seq::empty()
    } else if items.len() == 1 {
        sp_tuple_item(items[0])
    } else {
        sp_tuple_items(items.drop_last()) + ", "@ + sp_tuple_item(items.last())
    }
}

/// Text of a tuple.
pub open spec fn sp_tuple(t: TTuple) -> Seq<char>
    decreases t, 5int,
{
    "("@ + sp_tuple_items(t.items@) + ")"@
}

/// The last type-string override among a field's configuration, if any.
pub open spec fn sp_field_override(cfg: Seq<StructFieldConfig>) -> Option<Seq<char>>
    decreases cfg.len(),
{
    if cfg.len() == 0 {
        Option::None
    } else {
        match cfg.last() {
            StructFieldConfig::RustOverride(o) => Option::Some(o@),
            StructFieldConfig::RustAttribute(_) => sp_field_override(cfg.drop_last()),
        }
    }
}

/// The attribute lines of a field's configuration, each on its own line.
pub open spec fn sp_field_attrs(cfg: Seq<StructFieldConfig>, indent: nat) -> Seq<char>
    decreases cfg.len(),
{
    if cfg.len() == 0 {
        Seq::empty()
    } else {
        sp_field_attrs(cfg.drop_last(), indent) + match cfg.last() {
            StructFieldConfig::RustAttribute(a) => "\n    "@ + spaces(indent) + a@,
            StructFieldConfig::RustOverride(_) => Seq::<char>::empty(),
        }
    }
}

/// Text of a field's type: the computed type, or its configured override.
pub open spec fn sp_field_type(f: StructField) -> Seq<char>
    decreases f, 0int,
{
    match sp_field_override(f.config@) {
        Option::Some(o) => o,
        Option::None => match f.field_type {
            StructFieldType::TMap(m) => sp_map(m),
            StructFieldType::TSet(s) => sp_set(s),
            StructFieldType::TOption(o) => sp_opt(o),
            StructFieldType::TPrimitive(p) => sp_prim(p),
            StructFieldType::TTuple(t) => sp_tuple(t),
            StructFieldType::TVec(v) => sp_vec(v),
        },
    }
}

/// One field's block: attribute lines, comment block, then the field line.
pub open spec fn sp_field(f: StructField, indent: nat, pub_fields: bool) -> Seq<char>
    decreases f, 1int,
{
    let vis = if pub_fields {
        "pub "@
    } else {
        Seq::<char>::empty()
    };
    let line = "\n    "@ + vis + spaces(indent) + f.name@ + ": "@ + sp_field_type(f) + ","@;
    let with_doc = match format_docstring_spec(f.docs@, CommentStyle::TripleSlash, indent + 4) {
        Option::Some(doc) => "\n"@ + doc + line,
        Option::None => line,
    };
    sp_field_attrs(f.config@, indent) + with_doc
}

/// The concatenated field blocks.
pub open spec fn sp_fields(fs: Seq<StructField>, indent: nat, pub_fields: bool) -> Seq<char>
    decreases fs, 2int,
{
    if fs.len() == 0 {
        Seq::empty()
    } else {
        sp_fields(fs.drop_last(), indent, pub_fields) + sp_field(fs.last(), indent, pub_fields)
    }
}

/// Text of a struct body.
pub open spec fn sp_struct(s: TStruct, indent: nat, pub_fields: bool) -> Seq<char>
    decreases s, 3int,
{
    "{"@ + sp_fields(s.fields@, indent, pub_fields) + "\n"@ + spaces(indent) + "}"@
}

/// One enum variant's block.
pub open spec fn sp_variant(v: EnumVariant) -> Seq<char>
    decreases v, 4int,
{
    let vt = match v.variant_type {
        EnumVariantType::TStruct(s) => " "@ + sp_struct(s, 4, false),
        EnumVariantType::TPrimitive(p) => "("@ + sp_prim(p) + ")"@,
        EnumVariantType::Empty => Seq::<char>::empty(),
    };
    let line = "\n    "@ + v.name@ + vt + ","@;
    match format_docstring_spec(v.docs@, CommentStyle::TripleSlash, 4) {
        Option::Some(doc) => "\n"@ + doc + line,
        Option::None => line,
    }
}

/// The concatenated variant blocks.
pub open spec fn sp_variants(vs: Seq<EnumVariant>) -> Seq<char>
    decreases vs, 5int,
{
    if vs.len() == 0 {
        Seq::empty()
    } else {
        sp_variants(vs.drop_last()) + sp_variant(vs.last())
    }
}

/// Text of a tagged union body.
pub open spec fn sp_enum(e: TEnum) -> Seq<char>
    decreases e, 6int,
{
    "{"@ + sp_variants(e.variants@) + "\n}"@
}

/// Text of a unit-only enum body.
pub open spec fn sp_simple_variants(vs: Seq<Seq<char>>) -> Seq<char>
    decreases vs.len(),
{
    if vs.len() == 0 {
        Seq::empty()
    } else {
        sp_simple_variants(vs.drop_last()) + "\n    "@ + vs.last() + ","@
    }
}

/// Text of a unit-only enum body, braces included.
pub open spec fn sp_simple_enum(e: TSimpleEnum) -> Seq<char> {
    "{"@ + sp_simple_variants(e.variants@.map_values(|s: String| s@)) + "\n}"@
}

/// A code block: this backend's lines joined, other backends' blocks empty.
pub open spec fn sp_code_block(b: CodeBlock) -> Seq<char> {
    match b {
        CodeBlock::Rust(lines) => join_lines(lines@.map_values(|s: String| s@)),
        CodeBlock::Hack(_) => Seq::<char>::empty(),
        CodeBlock::Flow(_) => Seq::<char>::empty(),
    }
}

/// Text of one generic-parameter definition (name with optional bound).
/// Only parameter definitions can stand at a declaration site; the value
/// for a reference is immaterial because rendering refuses it first.
pub open spec fn sp_def_item(g: TGeneric) -> Seq<char> {
    match g {
        TGeneric::TDefinition { name, bounds } => name@ + match bounds {
            Option::Some(b) => ": "@ + b@,
            Option::None => Seq::<char>::empty(),
        },
        TGeneric::TReference(_) => Seq::<char>::empty(),
    }
}

/// Comma-separated generic-parameter definitions.
pub open spec fn sp_def_list(gs: Seq<TGeneric>) -> Seq<char>
    decreases gs.len(),
{
    if gs.len() == 0 {
        Seq::empty()
    } else if gs.len() == 1 {
        sp_def_item(gs[0])
    } else {
        sp_def_list(gs.drop_last()) + ", "@ + sp_def_item(gs.last())
    }
}

/// `<T: Bound, U>`, or the empty string for an empty parameter list.
pub open spec fn sp_generic_defs(gs: Seq<TGeneric>) -> Seq<char> {
    if gs.len() == 0 {
        Seq::empty()
    } else {
        "<"@ + sp_def_list(gs) + ">"@
    }
}

/// Whether every generic parameter of a declaration site is a definition.
pub open spec fn defs_only(gs: Seq<TGeneric>) -> bool {
    forall|k: int| 0 <= k < gs.len() ==> gs[k] is TDefinition
}

/// Whether this backend has a rendering rule for every part of the
/// declaration: its generic parameters must be fresh definitions, except on
/// the kinds that render no parameter list.
pub open spec fn decl_ok(d: TypeDeclaration) -> bool {
    match d.value {
        DeclarationValue::Docs => true,
        DeclarationValue::CodeBlock(_) => true,
        _ => defs_only(d.generic_params@),
    }
}

/// Whether the whole declaration list renders.
pub open spec fn decls_ok(ds: Seq<TypeDeclaration>) -> bool {
    forall|k: int| 0 <= k < ds.len() ==> decl_ok(#[trigger] ds[k])
}

/// The attribute prefix of a declaration, one line per attribute.
pub open spec fn sp_decl_attrs(cfg: Seq<TypeDeclarationConfig>) -> Seq<char>
    decreases cfg.len(),
{
    if cfg.len() == 0 {
        Seq::empty()
    } else {
        sp_decl_attrs(cfg.drop_last()) + match cfg.last() {
            TypeDeclarationConfig::RustAttribute(a) => a@ + "\n"@,
        }
    }
}

/// The body of one declaration, without attributes and comment block.
pub open spec fn sp_decl_value(d: TypeDeclaration) -> Seq<char> {
    let gdefs = sp_generic_defs(d.generic_params@);
    match d.value {
        DeclarationValue::TPrimitive(p) => "pub type "@ + d.name@ + gdefs + " = "@ + sp_prim(p)
            + ";"@,
        DeclarationValue::TMap(m) => "pub type "@ + d.name@ + gdefs + " = "@ + sp_map(*m) + ";"@,
        DeclarationValue::TVec(v) => "pub type "@ + d.name@ + gdefs + " = "@ + sp_vec(*v) + ";"@,
        DeclarationValue::TSet(s) => "pub type "@ + d.name@ + gdefs + " = "@ + sp_set(*s) + ";"@,
        DeclarationValue::TOption(o) => "pub type "@ + d.name@ + gdefs + " = "@ + sp_opt(*o)
            + ";"@,
        DeclarationValue::TTuple(t) => "pub type "@ + d.name@ + gdefs + " = "@ + sp_tuple(t)
            + ";"@,
        DeclarationValue::TStruct(s) => "pub struct "@ + d.name@ + gdefs + " "@ + sp_struct(
            s,
            0,
            true,
        ),
        DeclarationValue::TEnum(e) => "pub enum "@ + d.name@ + gdefs + " "@ + sp_enum(e),
        DeclarationValue::TSimpleEnum(e) => "pub enum "@ + d.name@ + gdefs + " "@ + sp_simple_enum(
            e,
        ),
        DeclarationValue::Docs => Seq::<char>::empty(),
        DeclarationValue::CodeBlock(b) => sp_code_block(b),
    }
}

/// One declaration's full block: attributes, comment block, body.  A
/// documentation-only declaration keeps the plain line-comment marker.
pub open spec fn sp_decl(d: TypeDeclaration) -> Seq<char> {
    let style = if d.value is Docs {
        CommentStyle::DoubleSlash
    } else {
        CommentStyle::TripleSlash
    };
    let body = sp_decl_value(d);
    let with_doc = match format_docstring_spec(d.docs@, style, 0) {
        Option::Some(doc) => doc + "\n"@ + body,
        Option::None => body,
    };
    sp_decl_attrs(d.config@) + with_doc
}

/// Every declaration's block, blank-line separated.
pub open spec fn sp_decls(ds: Seq<TypeDeclaration>) -> Seq<char>
    decreases ds.len(),
{
    if ds.len() == 0 {
        Seq::empty()
    } else {
        sp_decls(ds.drop_last()) + "\n"@ + sp_decl(ds.last()) + "\n"@
    }
}

/// The whole output: import lines, a blank separator, the declarations.
pub open spec fn sp_output(ds: Seq<TypeDeclaration>) -> Seq<char> {
    sp_imports_text(imp_of_decls(ds)) + "\n"@ + sp_decls(ds)
}

/// Imports needed by a primitive.
pub open spec fn imp_of_prim(p: TPrimitive) -> Imports
    decreases p, 0int,
{
    match p {
        TPrimitive::TVec(v) => imp_of_vec(*v),
        TPrimitive::TMap(m) => imp_of_map(*m),
        TPrimitive::TSet(s) => imp_of_set(*s),
        TPrimitive::TOption(o) => imp_of_opt(*o),
        TPrimitive::TDifferentPerLanguage { rust, .. } => imp_of_prim(*rust),
        _ => imp_none(),
    }
}

/// Imports needed by a vector.
pub open spec fn imp_of_vec(v: TVec) -> Imports
    decreases v, 1int,
{
    match v {
        TVec::TPrimitive(p) => imp_of_prim(p),
    }
}

/// Imports needed by a set: the ordered-set type itself and its element.
pub open spec fn imp_of_set(s: TSet) -> Imports
    decreases s, 1int,
{
    match s {
        TSet::TPrimitive(p) => imp_union(
            Imports { hash_map: false, btree_map: false, btree_set: true },
            imp_of_prim(p),
        ),
    }
}

/// Imports needed by a map: its flavour, its key and its value.
pub open spec fn imp_of_map(m: TMap) -> Imports
    decreases m, 1int,
{
    let own = match m.t {
        TMapType::Hash => Imports { hash_map: true, btree_map: false, btree_set: false },
        TMapType::BTree => Imports { hash_map: false, btree_map: true, btree_set: false },
    };
    let value = match m.value {
        TMapValue::TPrimitive(p) => imp_of_prim(p),
        TMapValue::TSet(s) => imp_of_set(s),
    };
    imp_union(own, imp_union(imp_of_prim(m.key), value))
}

/// Imports needed by an option.
pub open spec fn imp_of_opt(o: TOption) -> Imports
    decreases o, 2int,
{
    match o {
        TOption::TPrimitive(p) => imp_of_prim(p),
        TOption::TMap(m) => imp_of_map(m),
        TOption::TVec(v) => imp_of_vec(v),
        TOption::TSet(s) => imp_of_set(s),
        TOption::TTuple(t) => imp_of_tuple(t),
    }
}

/// Imports needed by one tuple item.
pub open spec fn imp_of_tuple_item(item: TupleItem) -> Imports
    decreases item, 3int,
{
    match item {
        TupleItem::TPrimitive(p) => imp_of_prim(p),
        TupleItem::TOption(o) => imp_of_opt(o),
    }
}

/// Imports needed by a tuple.
pub open spec fn imp_of_tuple_items(items: Seq<TupleItem>) -> Imports
    decreases items, 4int,
{
    if items.len() == 0 {
        imp_none()
    } else {
        imp_union(imp_of_tuple_items(items.drop_last()), imp_of_tuple_item(items.last()))
    }
}

/// Imports needed by a tuple.
pub open spec fn imp_of_tuple(t: TTuple) -> Imports
    decreases t, 5int,
{
    imp_of_tuple_items(t.items@)
}

/// Imports needed by a field.  An overridden field renders its override
/// verbatim, so its computed type contributes nothing.
pub open spec fn imp_of_field(f: StructField) -> Imports
    decreases f, 1int,
{
    match sp_field_override(f.config@) {
        Option::Some(_) => imp_none(),
        Option::None => match f.field_type {
            StructFieldType::TMap(m) => imp_of_map(m),
            StructFieldType::TSet(s) => imp_of_set(s),
            StructFieldType::TOption(o) => imp_of_opt(o),
            StructFieldType::TPrimitive(p) => imp_of_prim(p),
            StructFieldType::TTuple(t) => imp_of_tuple(t),
            StructFieldType::TVec(v) => imp_of_vec(v),
        },
    }
}

/// Imports needed by a struct's fields.
pub open spec fn imp_of_fields(fs: Seq<StructField>) -> Imports
    decreases fs, 2int,
{
    if fs.len() == 0 {
        imp_none()
    } else {
        imp_union(imp_of_fields(fs.drop_last()), imp_of_field(fs.last()))
    }
}

/// Imports needed by a struct.
pub open spec fn imp_of_struct(s: TStruct) -> Imports
    decreases s, 3int,
{
    imp_of_fields(s.fields@)
}

/// Imports needed by one enum variant.
pub open spec fn imp_of_variant(v: EnumVariant) -> Imports
    decreases v, 4int,
{
    match v.variant_type {
        EnumVariantType::TStruct(s) => imp_of_struct(s),
        EnumVariantType::TPrimitive(p) => imp_of_prim(p),
        EnumVariantType::Empty => imp_none(),
    }
}

/// Imports needed by an enum's variants.
pub open spec fn imp_of_variants(vs: Seq<EnumVariant>) -> Imports
    decreases vs, 5int,
{
    if vs.len() == 0 {
        imp_none()
    } else {
        imp_union(imp_of_variants(vs.drop_last()), imp_of_variant(vs.last()))
    }
}

/// Imports needed by one declaration.
pub open spec fn imp_of_decl(d: TypeDeclaration) -> Imports {
    match d.value {
        DeclarationValue::TPrimitive(p) => imp_of_prim(p),
        DeclarationValue::TMap(m) => imp_of_map(*m),
        DeclarationValue::TVec(v) => imp_of_vec(*v),
        DeclarationValue::TSet(s) => imp_of_set(*s),
        DeclarationValue::TOption(o) => imp_of_opt(*o),
        DeclarationValue::TTuple(t) => imp_of_tuple(t),
        DeclarationValue::TStruct(s) => imp_of_struct(s),
        DeclarationValue::TEnum(e) => imp_of_variants(e.variants@),
        DeclarationValue::TSimpleEnum(_) => imp_none(),
        DeclarationValue::Docs => imp_none(),
        DeclarationValue::CodeBlock(_) => imp_none(),
    }
}

/// Imports needed by the whole declaration list.
pub open spec fn imp_of_decls(ds: Seq<TypeDeclaration>) -> Imports
    decreases ds.len(),
{
    if ds.len() == 0 {
        imp_none()
    } else {
        imp_union(imp_of_decls(ds.drop_last()), imp_of_decl(ds.last()))
    }
}


/// The per-invocation visitor context: the import accumulator threaded
/// through one recursive pass.
pub struct RustCodegen {
    imports: Imports,
}

impl RustCodegen {
    fn new() -> (r: Self)
        ensures
            r.imports == imp_none(),
    {
        RustCodegen { imports: Imports { hash_map: false, btree_map: false, btree_set: false } }
    }

    fn gen_prim(&mut self, p: &TPrimitive) -> (r: String)
        ensures
            r@ == sp_prim(*p),
            final(self).imports == imp_union(old(self).imports, imp_of_prim(*p)),
        decreases *p, 0int,
    {
        match p {
            TPrimitive::String => {
                proof {
                    lemma_imp_none(self.imports);
                }
                String::from_str("String")
            },
            TPrimitive::Tbool => {
                proof {
                    lemma_imp_none(self.imports);
                }
                String::from_str("bool")
            },
            TPrimitive::Ti64 => {
                proof {
                    lemma_imp_none(self.imports);
                }
                String::from_str("i64")
            },
            TPrimitive::Tf64 => {
                proof {
                    lemma_imp_none(self.imports);
                }
                String::from_str("f64")
            },
            TPrimitive::THardcoded(s) => {
                proof {
                    lemma_imp_none(self.imports);
                }
                s.clone()
            },
            TPrimitive::TVec(v) => self.gen_vec(v),
            TPrimitive::TMap(m) => self.gen_map(m),
            TPrimitive::TSet(s) => self.gen_set(s),
            TPrimitive::TOption(o) => self.gen_opt(o),
            TPrimitive::TDifferentPerLanguage { rust, .. } => self.gen_prim(rust),
            TPrimitive::TGeneric(g) => {
                proof {
                    lemma_imp_none(self.imports);
                    reveal_strlit("");
                    assert(""@ =~= no_ns());
                }
                crate::shared::generic_arg(g, "")
            },
            TPrimitive::TReference(re) => {
                proof {
                    lemma_imp_none(self.imports);
                    reveal_strlit("");
                    assert(""@ =~= no_ns());
                }
                crate::shared::reference_text(re, "")
            },
        }
    }

    fn gen_vec(&mut self, v: &TVec) -> (r: String)
        ensures
            r@ == sp_vec(*v),
            final(self).imports == imp_union(old(self).imports, imp_of_vec(*v)),
        decreases *v, 1int,
    {
        match v {
            TVec::TPrimitive(p) => {
                let mut r = String::from_str("Vec<");
                let inner = self.gen_prim(p);
                r.append(inner.as_str());
                r.append(">");
                proof {
                    assert(r@ =~= sp_vec(*v));
                }
                r
            },
        }
    }

    fn gen_set(&mut self, s: &TSet) -> (r: String)
        ensures
            r@ == sp_set(*s),
            final(self).imports == imp_union(old(self).imports, imp_of_set(*s)),
        decreases *s, 1int,
    {
        match s {
            TSet::TPrimitive(p) => {
                self.imports.btree_set = true;
                let mut r = String::from_str("BTreeSet<");
                let inner = self.gen_prim(p);
                r.append(inner.as_str());
                r.append(">");
                proof {
                    assert(r@ =~= sp_set(*s));
                }
                r
            },
        }
    }

    fn gen_map(&mut self, m: &TMap) -> (r: String)
        ensures
            r@ == sp_map(*m),
            final(self).imports == imp_union(old(self).imports, imp_of_map(*m)),
        decreases *m, 1int,
    {
        let mut r = match m.t {
            TMapType::Hash => {
                self.imports.hash_map = true;
                String::from_str("HashMap")
            },
            TMapType::BTree => {
                self.imports.btree_map = true;
                String::from_str("BTreeMap")
            },
        };
        r.append("<");
        let key = self.gen_prim(&m.key);
        r.append(key.as_str());
        r.append(", ");
        let value = match &m.value {
            TMapValue::TPrimitive(p) => self.gen_prim(p),
            TMapValue::TSet(s) => self.gen_set(s),
        };
        r.append(value.as_str());
        r.append(">");
        proof {
            assert(r@ =~= sp_map(*m));
        }
        r
    }

    fn gen_opt(&mut self, o: &TOption) -> (r: String)
        ensures
            r@ == sp_opt(*o),
            final(self).imports == imp_union(old(self).imports, imp_of_opt(*o)),
        decreases *o, 2int,
    {
        let mut r = String::from_str("Option<");
        let value = match o {
            TOption::TPrimitive(p) => self.gen_prim(p),
            TOption::TMap(m) => self.gen_map(m),
            TOption::TVec(v) => self.gen_vec(v),
            TOption::TSet(s) => self.gen_set(s),
            TOption::TTuple(t) => self.gen_tuple(t),
        };
        r.append(value.as_str());
        r.append(">");
        proof {
            assert(r@ =~= sp_opt(*o));
        }
        r
    }

    fn gen_tuple(&mut self, t: &TTuple) -> (r: String)
        ensures
            r@ == sp_tuple(*t),
            final(self).imports == imp_union(old(self).imports, imp_of_tuple(*t)),
        decreases *t, 5int,
    {
        let mut r = String::from_str("(");
        let ghost items = t.items@;
        let mut i: usize = 0;
        proof {
            assert(items.subrange(0, 0) =~= Seq::<TupleItem>::empty());
            lemma_imp_none(self.imports);
        }
        while i < t.items.len()
            invariant
                i <= t.items@.len(),
                items == t.items@,
                r@ == "("@ + sp_tuple_items(items.subrange(0, i as int)) + (if 0 < i && i
                    < items.len() {
                    ", "@
                } else {
                    Seq::<char>::empty()
                }),
                self.imports == imp_union(old(self).imports, imp_of_tuple_items(
                    items.subrange(0, i as int),
                )),
            decreases t.items@.len() - i,
        {
            let value = match &t.items[i] {
                TupleItem::TPrimitive(p) => self.gen_prim(p),
                TupleItem::TOption(o) => self.gen_opt(o),
            };
            proof {
                assert(value@ == sp_tuple_item(items[i as int]));
            }
            r.append(value.as_str());
            if i + 1 < t.items.len() {
                r.append(", ");
            }
            proof {
                let pre = items.subrange(0, i as int);
                let post = items.subrange(0, (i + 1) as int);
                assert(post.drop_last() =~= pre);
                assert(post.last() == items[i as int]);
                lemma_imp_union_assoc(old(self).imports, imp_of_tuple_items(pre), imp_of_tuple_item(items[i as int]));
                if i == 0 {
                    assert(sp_tuple_items(post) == sp_tuple_item(items[0]));
                } else {
                    assert(sp_tuple_items(post) == sp_tuple_items(pre) + ", "@ + sp_tuple_item(
                        items[i as int],
                    ));
                }
                assert(r@ =~= "("@ + sp_tuple_items(post) + (if i + 1 < items.len() {
                    ", "@
                } else {
                    Seq::<char>::empty()
                }));
            }
            i = i + 1;
        }
        r.append(")");
        proof {
            assert(items.subrange(0, items.len() as int) =~= items);
            assert(r@ =~= sp_tuple(*t));
        }
        r
    }
}

/// The union with no imports changes nothing.
proof fn lemma_imp_none(a: Imports)
    ensures
        imp_union(a, imp_none()) == a,
        imp_union(imp_none(), a) == a,
{
}

/// Import accumulation is associative.
proof fn lemma_imp_union_assoc(a: Imports, b: Imports, c: Imports)
    ensures
        imp_union(imp_union(a, b), c) == imp_union(a, imp_union(b, c)),
{
}

impl RustCodegen {
    #[verifier::rlimit(50)]
    fn gen_struct(&mut self, s: &TStruct, indent_level: usize, pub_fields: bool) -> (r: String)
        requires
            indent_level + 4 <= usize::MAX,
        ensures
            r@ == sp_struct(*s, indent_level as nat, pub_fields),
            final(self).imports == imp_union(old(self).imports, imp_of_struct(*s)),
        decreases *s, 3int,
    {
        let ind = crate::text::spaces_str(indent_level);
        let mut fields_text = String::new();
        let ghost fs = s.fields@;
        let mut i: usize = 0;
        proof {
            assert(fs.subrange(0, 0) =~= Seq::<StructField>::empty());
            lemma_imp_none(self.imports);
        }
        while i < s.fields.len()
            invariant
                i <= s.fields@.len(),
                fs == s.fields@,
                ind@ == spaces(indent_level as nat),
                indent_level + 4 <= usize::MAX,
                fields_text@ == sp_fields(fs.subrange(0, i as int), indent_level as nat, pub_fields),
                self.imports == imp_union(old(self).imports, imp_of_fields(
                    fs.subrange(0, i as int),
                )),
            decreases s.fields@.len() - i,
        {
            let f = &s.fields[i];
            // Attribute lines and the last configured override, in one scan.
            let mut prefix = String::new();
            let mut ov: Option<&String> = Option::None;
            let ghost cfg = f.config@;
            let mut j: usize = 0;
            proof {
                assert(cfg.subrange(0, 0) =~= Seq::<StructFieldConfig>::empty());
            }
            while j < f.config.len()
                invariant
                    j <= f.config@.len(),
                    cfg == f.config@,
                    ind@ == spaces(indent_level as nat),
                    prefix@ == sp_field_attrs(cfg.subrange(0, j as int), indent_level as nat),
                    match ov {
                        Option::None => sp_field_override(cfg.subrange(0, j as int)) is None,
                        Option::Some(o) => sp_field_override(cfg.subrange(0, j as int))
                            == Option::Some(o@),
                    },
                decreases f.config@.len() - j,
            {
                match &f.config[j] {
                    StructFieldConfig::RustAttribute(a) => {
                        prefix.append("\n    ");
                        prefix.append(ind.as_str());
                        prefix.append(a.as_str());
                    },
                    StructFieldConfig::RustOverride(o) => {
                        ov = Option::Some(o);
                    },
                }
                proof {
                    let pre = cfg.subrange(0, j as int);
                    let post = cfg.subrange(0, (j + 1) as int);
                    assert(post.drop_last() =~= pre);
                    assert(post.last() == cfg[j as int]);
                    assert(prefix@ =~= sp_field_attrs(post, indent_level as nat));
                }
                j = j + 1;
            }
            proof {
                assert(cfg.subrange(0, cfg.len() as int) =~= cfg);
            }
            let field_type: String = match ov {
                Option::Some(o) => o.clone(),
                Option::None => {
                    let t = match &f.field_type {
                        StructFieldType::TMap(m) => self.gen_map(m),
                        StructFieldType::TSet(st) => self.gen_set(st),
                        StructFieldType::TOption(o) => self.gen_opt(o),
                        StructFieldType::TPrimitive(p) => self.gen_prim(p),
                        StructFieldType::TTuple(t) => self.gen_tuple(t),
                        StructFieldType::TVec(v) => self.gen_vec(v),
                    };
                    t
                },
            };
            proof {
                assert(field_type@ == sp_field_type(fs[i as int]));
                if sp_field_override(cfg) is Some {
                    lemma_imp_none(self.imports);
                }
            }
            let mut line = String::from_str("\n    ");
            if pub_fields {
                line.append("pub ");
            }
            line.append(ind.as_str());
            line.append(f.name.as_str());
            line.append(": ");
            line.append(field_type.as_str());
            line.append(",");
            fields_text.append(prefix.as_str());
            match crate::docs::format_docstring(
                f.docs.as_str(),
                CommentStyle::TripleSlash,
                indent_level + 4,
            ) {
                Option::Some(doc) => {
                    fields_text.append("\n");
                    fields_text.append(doc.as_str());
                    fields_text.append(line.as_str());
                },
                Option::None => {
                    fields_text.append(line.as_str());
                },
            }
            proof {
                let pre = fs.subrange(0, i as int);
                let post = fs.subrange(0, (i + 1) as int);
                assert(post.drop_last() =~= pre);
                assert(post.last() == fs[i as int]);
                lemma_imp_union_assoc(
                    old(self).imports,
                    imp_of_fields(pre),
                    imp_of_field(fs[i as int]),
                );
                assert(fields_text@ =~= sp_fields(post, indent_level as nat, pub_fields));
            }
            i = i + 1;
        }
        let mut r = String::from_str("{");
        r.append(fields_text.as_str());
        r.append("\n");
        r.append(ind.as_str());
        r.append("}");
        proof {
            assert(fs.subrange(0, fs.len() as int) =~= fs);
            assert(r@ =~= sp_struct(*s, indent_level as nat, pub_fields));
        }
        r
    }

    fn gen_enum(&mut self, e: &TEnum) -> (r: String)
        ensures
            r@ == sp_enum(*e),
            final(self).imports == imp_union(old(self).imports, imp_of_variants(e.variants@)),
        decreases *e, 6int,
    {
        let mut variants_text = String::new();
        let ghost vs = e.variants@;
        let mut i: usize = 0;
        proof {
            assert(vs.subrange(0, 0) =~= Seq::<EnumVariant>::empty());
            lemma_imp_none(self.imports);
        }
        while i < e.variants.len()
            invariant
                i <= e.variants@.len(),
                vs == e.variants@,
                variants_text@ == sp_variants(vs.subrange(0, i as int)),
                self.imports == imp_union(old(self).imports, imp_of_variants(
                    vs.subrange(0, i as int),
                )),
            decreases e.variants@.len() - i,
        {
            let v = &e.variants[i];
            let vt: String = match &v.variant_type {
                EnumVariantType::TStruct(s) => {
                    let mut t = String::from_str(" ");
                    let body = self.gen_struct(s, 4, false);
                    t.append(body.as_str());
                    t
                },
                EnumVariantType::TPrimitive(p) => {
                    let mut t = String::from_str("(");
                    let body = self.gen_prim(p);
                    t.append(body.as_str());
                    t.append(")");
                    t
                },
                EnumVariantType::Empty => {
                    proof {
                        lemma_imp_none(self.imports);
                        reveal_strlit("");
                    }
                    String::new()
                },
            };
            let mut line = String::from_str("\n    ");
            line.append(v.name.as_str());
            line.append(vt.as_str());
            line.append(",");
            match crate::docs::format_docstring(v.docs.as_str(), CommentStyle::TripleSlash, 4) {
                Option::Some(doc) => {
                    variants_text.append("\n");
                    variants_text.append(doc.as_str());
                    variants_text.append(line.as_str());
                },
                Option::None => {
                    variants_text.append(line.as_str());
                },
            }
            proof {
                let pre = vs.subrange(0, i as int);
                let post = vs.subrange(0, (i + 1) as int);
                assert(post.drop_last() =~= pre);
                assert(post.last() == vs[i as int]);
                lemma_imp_union_assoc(
                    old(self).imports,
                    imp_of_variants(pre),
                    imp_of_variant(vs[i as int]),
                );
                assert(variants_text@ =~= sp_variants(post));
            }
            i = i + 1;
        }
        let mut r = String::from_str("{");
        r.append(variants_text.as_str());
        r.append("\n}");
        proof {
            assert(vs.subrange(0, vs.len() as int) =~= vs);
            assert(r@ =~= sp_enum(*e));
        }
        r
    }
}

/// Render a unit-only enum body.
fn gen_simple_enum(e: &TSimpleEnum) -> (r: String)
    ensures
        r@ == sp_simple_enum(*e),
{
    let ghost vs = e.variants@.map_values(|s: String| s@);
    let mut r = String::from_str("{");
    let mut i: usize = 0;
    proof {
        assert(vs.subrange(0, 0) =~= Seq::<Seq<char>>::empty());
    }
    while i < e.variants.len()
        invariant
            i <= e.variants@.len(),
            vs == e.variants@.map_values(|s: String| s@),
            vs.len() == e.variants@.len(),
            r@ == "{"@ + sp_simple_variants(vs.subrange(0, i as int)),
        decreases e.variants@.len() - i,
    {
        r.append("\n    ");
        r.append(e.variants[i].as_str());
        r.append(",");
        proof {
            let pre = vs.subrange(0, i as int);
            let post = vs.subrange(0, (i + 1) as int);
            assert(post.drop_last() =~= pre);
            assert(post.last() == vs[i as int]);
            assert(vs[i as int] == e.variants@[i as int]@);
            assert(r@ =~= "{"@ + sp_simple_variants(post));
        }
        i = i + 1;
    }
    r.append("\n}");
    proof {
        assert(vs.subrange(0, vs.len() as int) =~= vs);
        assert(r@ =~= sp_simple_enum(*e));
    }
    r
}

/// Render a generic-parameter definition list, refusing a resolved
/// reference in definition position.
fn gen_generic_defs(gs: &Vec<TGeneric>, decl_name: &str) -> (r: Result<
    String,
    crate::codegen::RenderError,
>)
    ensures
        r is Ok <==> defs_only(gs@),
        r is Ok ==> r->Ok_0@ == sp_generic_defs(gs@),
        r is Err ==> crate::codegen::err_decl_name(r->Err_0) == decl_name@,
{
    if gs.len() == 0 {
        let r = String::new();
        proof {
            reveal_strlit("");
            assert(r@ =~= sp_generic_defs(gs@));
        }
        return Result::Ok(r);
    }
    let mut r = String::from_str("<");
    let mut i: usize = 0;
    while i < gs.len()
        invariant
            0 < gs@.len(),
            i <= gs@.len(),
            forall|k: int| 0 <= k < i ==> gs@[k] is TDefinition,
            r@ == "<"@ + sp_def_list(gs@.subrange(0, i as int)) + (if 0 < i && i < gs@.len() {
                ", "@
            } else {
                Seq::<char>::empty()
            }),
        decreases gs@.len() - i,
    {
        match &gs[i] {
            TGeneric::TDefinition { name, bounds } => {
                r.append(name.as_str());
                match bounds {
                    Option::Some(b) => {
                        r.append(": ");
                        r.append(b.as_str());
                    },
                    Option::None => {},
                }
            },
            TGeneric::TReference(_) => {
                return Result::Err(
                    crate::codegen::RenderError::GenericParamReference {
                        declaration: decl_name.to_owned(),
                    },
                );
            },
        }
        if i + 1 < gs.len() {
            r.append(", ");
        }
        proof {
            let pre = gs@.subrange(0, i as int);
            let post = gs@.subrange(0, (i + 1) as int);
            assert(post.drop_last() =~= pre);
            assert(post.last() == gs@[i as int]);
            if i == 0 {
                assert(sp_def_list(post) == sp_def_item(gs@[0]));
            } else {
                assert(sp_def_list(post) == sp_def_list(pre) + ", "@ + sp_def_item(gs@[i as int]));
            }
            assert(r@ =~= "<"@ + sp_def_list(post) + (if i + 1 < gs@.len() {
                ", "@
            } else {
                Seq::<char>::empty()
            }));
        }
        i = i + 1;
    }
    r.append(">");
    proof {
        assert(gs@.subrange(0, gs@.len() as int) =~= gs@);
        assert(r@ =~= sp_generic_defs(gs@));
    }
    Result::Ok(r)
}

/// Build `pub type NAME<G> = INNER;`.
fn alias_line(name: &str, gdefs: &str, inner: &str) -> (r: String)
    ensures
        r@ == "pub type "@ + name@ + gdefs@ + " = "@ + inner@ + ";"@,
{
    let mut r = String::from_str("pub type ");
    r.append(name);
    r.append(gdefs);
    r.append(" = ");
    r.append(inner);
    r.append(";");
    proof {
        assert(r@ =~= "pub type "@ + name@ + gdefs@ + " = "@ + inner@ + ";"@);
    }
    r
}

impl RustCodegen {
    fn gen_declaration(&mut self, d: &TypeDeclaration) -> (r: Result<
        String,
        crate::codegen::RenderError,
    >)
        ensures
            r is Ok <==> decl_ok(*d),
            r is Ok ==> r->Ok_0@ == sp_decl(*d) && final(self).imports == imp_union(
                old(self).imports,
                imp_of_decl(*d),
            ),
            r is Err ==> crate::codegen::err_decl_name(r->Err_0) == d.name@,
    {
        let body: String = match &d.value {
            DeclarationValue::TPrimitive(p) => {
                let gdefs = match gen_generic_defs(&d.generic_params, d.name.as_str()) {
                    Result::Ok(g) => g,
                    Result::Err(e) => return Result::Err(e),
                };
                let inner = self.gen_prim(p);
                alias_line(d.name.as_str(), gdefs.as_str(), inner.as_str())
            },
            DeclarationValue::TMap(m) => {
                let gdefs = match gen_generic_defs(&d.generic_params, d.name.as_str()) {
                    Result::Ok(g) => g,
                    Result::Err(e) => return Result::Err(e),
                };
                let inner = self.gen_map(m);
                alias_line(d.name.as_str(), gdefs.as_str(), inner.as_str())
            },
            DeclarationValue::TVec(v) => {
                let gdefs = match gen_generic_defs(&d.generic_params, d.name.as_str()) {
                    Result::Ok(g) => g,
                    Result::Err(e) => return Result::Err(e),
                };
                let inner = self.gen_vec(v);
                alias_line(d.name.as_str(), gdefs.as_str(), inner.as_str())
            },
            DeclarationValue::TSet(s) => {
                let gdefs = match gen_generic_defs(&d.generic_params, d.name.as_str()) {
                    Result::Ok(g) => g,
                    Result::Err(e) => return Result::Err(e),
                };
                let inner = self.gen_set(s);
                alias_line(d.name.as_str(), gdefs.as_str(), inner.as_str())
            },
            DeclarationValue::TOption(o) => {
                let gdefs = match gen_generic_defs(&d.generic_params, d.name.as_str()) {
                    Result::Ok(g) => g,
                    Result::Err(e) => return Result::Err(e),
                };
                let inner = self.gen_opt(o);
                alias_line(d.name.as_str(), gdefs.as_str(), inner.as_str())
            },
            DeclarationValue::TTuple(t) => {
                let gdefs = match gen_generic_defs(&d.generic_params, d.name.as_str()) {
                    Result::Ok(g) => g,
                    Result::Err(e) => return Result::Err(e),
                };
                let inner = self.gen_tuple(t);
                alias_line(d.name.as_str(), gdefs.as_str(), inner.as_str())
            },
            DeclarationValue::TStruct(s) => {
                let gdefs = match gen_generic_defs(&d.generic_params, d.name.as_str()) {
                    Result::Ok(g) => g,
                    Result::Err(e) => return Result::Err(e),
                };
                let mut b = String::from_str("pub struct ");
                b.append(d.name.as_str());
                b.append(gdefs.as_str());
                b.append(" ");
                let inner = self.gen_struct(s, 0, true);
                b.append(inner.as_str());
                b
            },
            DeclarationValue::TEnum(e) => {
                let gdefs = match gen_generic_defs(&d.generic_params, d.name.as_str()) {
                    Result::Ok(g) => g,
                    Result::Err(er) => return Result::Err(er),
                };
                let mut b = String::from_str("pub enum ");
                b.append(d.name.as_str());
                b.append(gdefs.as_str());
                b.append(" ");
                let inner = self.gen_enum(e);
                b.append(inner.as_str());
                b
            },
            DeclarationValue::TSimpleEnum(e) => {
                let gdefs = match gen_generic_defs(&d.generic_params, d.name.as_str()) {
                    Result::Ok(g) => g,
                    Result::Err(er) => return Result::Err(er),
                };
                let mut b = String::from_str("pub enum ");
                b.append(d.name.as_str());
                b.append(gdefs.as_str());
                b.append(" ");
                let inner = gen_simple_enum(e);
                b.append(inner.as_str());
                proof {
                    lemma_imp_none(self.imports);
                }
                b
            },
            DeclarationValue::Docs => {
                proof {
                    lemma_imp_none(self.imports);
                    reveal_strlit("");
                }
                String::new()
            },
            DeclarationValue::CodeBlock(b) => {
                proof {
                    lemma_imp_none(self.imports);
                }
                match b {
                    CodeBlock::Rust(lines) => crate::text::join_lines_str(lines),
                    CodeBlock::Hack(_) => {
                        proof {
                            reveal_strlit("");
                        }
                        String::new()
                    },
                    CodeBlock::Flow(_) => {
                        proof {
                            reveal_strlit("");
                        }
                        String::new()
                    },
                }
            },
        };
        proof {
            assert(body@ == sp_decl_value(*d));
        }
        let style = match &d.value {
            DeclarationValue::Docs => CommentStyle::DoubleSlash,
            _ => CommentStyle::TripleSlash,
        };
        let mut out = String::new();
        let ghost cfg = d.config@;
        let mut i: usize = 0;
        proof {
            assert(cfg.subrange(0, 0) =~= Seq::<TypeDeclarationConfig>::empty());
        }
        while i < d.config.len()
            invariant
                i <= d.config@.len(),
                cfg == d.config@,
                out@ == sp_decl_attrs(cfg.subrange(0, i as int)),
            decreases d.config@.len() - i,
        {
            match &d.config[i] {
                TypeDeclarationConfig::RustAttribute(a) => {
                    out.append(a.as_str());
                    out.append("\n");
                },
            }
            proof {
                let pre = cfg.subrange(0, i as int);
                let post = cfg.subrange(0, (i + 1) as int);
                assert(post.drop_last() =~= pre);
                assert(post.last() == cfg[i as int]);
                assert(out@ =~= sp_decl_attrs(post));
            }
            i = i + 1;
        }
        proof {
            assert(cfg.subrange(0, cfg.len() as int) =~= cfg);
        }
        match crate::docs::format_docstring(d.docs.as_str(), style, 0) {
            Option::Some(doc) => {
                out.append(doc.as_str());
                out.append("\n");
                out.append(body.as_str());
            },
            Option::None => {
                out.append(body.as_str());
            },
        }
        proof {
            assert(out@ =~= sp_decl(*d));
        }
        Result::Ok(out)
    }

    /// Render a whole declaration list: the accumulated import lines, a
    /// blank separator, then every declaration's block.  Fails, without
    /// emitting anything, on the first declaration whose generic-parameter
    /// list this backend cannot render, naming that declaration.
    pub fn render(declarations: &Declarations) -> (r: Result<String, crate::codegen::RenderError>)
        ensures
            r is Ok <==> decls_ok(declarations.decls()),
            r is Ok ==> r->Ok_0@ == sp_output(declarations.decls()),
            r is Err ==> exists|j: int|
                0 <= j < declarations.decls().len() && !decl_ok(
                    #[trigger] declarations.decls()[j],
                ) && (forall|k: int| 0 <= k < j ==> decl_ok(declarations.decls()[k]))
                    && crate::codegen::err_decl_name(r->Err_0) == declarations.decls()[j].name@,
    {
        let mut rc = RustCodegen::new();
        let ds = declarations.list();
        let ghost dv = declarations.decls();
        let mut decls_text = String::new();
        let mut i: usize = 0;
        proof {
            assert(dv.subrange(0, 0) =~= Seq::<TypeDeclaration>::empty());
            lemma_imp_none(rc.imports);
            assert(rc.imports == imp_union(imp_none(), imp_of_decls(dv.subrange(0, 0))));
        }
        while i < ds.len()
            invariant
                i <= dv.len(),
                ds@ == dv,
                dv == declarations.decls(),
                rc.imports == imp_union(imp_none(), imp_of_decls(dv.subrange(0, i as int))),
                decls_text@ == sp_decls(dv.subrange(0, i as int)),
                forall|k: int| 0 <= k < i ==> decl_ok(#[trigger] dv[k]),
            decreases dv.len() - i,
        {
            match rc.gen_declaration(&ds[i]) {
                Result::Ok(t) => {
                    decls_text.append("\n");
                    decls_text.append(t.as_str());
                    decls_text.append("\n");
                },
                Result::Err(e) => {
                    proof {
                        let j = i as int;
                        assert(!decl_ok(dv[j]));
                        assert(!decls_ok(dv));
                        assert(0 <= j < dv.len() && !decl_ok(dv[j]) && (forall|k: int|
                            0 <= k < j ==> decl_ok(dv[k])) && crate::codegen::err_decl_name(e)
                            == dv[j].name@);
                    }
                    return Result::Err(e);
                },
            }
            proof {
                let pre = dv.subrange(0, i as int);
                let post = dv.subrange(0, (i + 1) as int);
                assert(post.drop_last() =~= pre);
                assert(post.last() == dv[i as int]);
                lemma_imp_union_assoc(imp_none(), imp_of_decls(pre), imp_of_decl(dv[i as int]));
                assert(decls_text@ =~= sp_decls(post));
            }
            i = i + 1;
        }
        proof {
            assert(dv.subrange(0, dv.len() as int) =~= dv);
            lemma_imp_none(imp_of_decls(dv));
            assert(rc.imports == imp_of_decls(dv));
        }
        let mut out = String::new();
        if rc.imports.btree_map {
            out.append("use std::collections::BTreeMap;\n");
        }
        if rc.imports.btree_set {
            out.append("use std::collections::BTreeSet;\n");
        }
        if rc.imports.hash_map {
            out.append("use std::collections::HashMap;\n");
        }
        out.append("\n");
        out.append(decls_text.as_str());
        proof {
            reveal_strlit("");
            assert(out@ =~= sp_output(dv));
        }
        Result::Ok(out)
    }
}

impl crate::codegen::Codegen for RustCodegen {
    fn gen_declarations(declarations: &Declarations) -> Result<
        String,
        crate::codegen::RenderError,
    > {
        RustCodegen::render(declarations)
    }
}

/// Law: import deduplication.  Appending one more declaration whose
/// collection imports are already referenced leaves the flushed import
/// header unchanged: each import line appears at most once, however many
/// declarations need it.
pub proof fn lemma_import_dedup(ds: Seq<TypeDeclaration>, d: TypeDeclaration)
    requires
        imp_union(imp_of_decls(ds), imp_of_decl(d)) == imp_of_decls(ds),
    ensures
        sp_imports_text(imp_of_decls(ds.push(d))) == sp_imports_text(imp_of_decls(ds)),
{
    assert(ds.push(d).drop_last() =~= ds);
    assert(ds.push(d).last() == d);
}

} // verus!
