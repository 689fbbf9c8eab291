//! The JS-family shape backend.
//!
//! Like the namespaced backend it has no native discriminated union: a full
//! enum becomes a string-union discriminant type plus a structural record
//! with a `type` tag key and one optional key per variant payload.

use crate::casing::{to_upper_camel_case, upper_camel_of};
use crate::declarations::{Declarations, DeclarationsConfig};
use crate::definitions::{
    CodeBlock, DeclarationValue, EnumVariant, EnumVariantType, StructField, StructFieldType,
    TEnum, TGeneric, TMap, TMapValue, TOption, TPrimitive, TSet, TSimpleEnum, TStruct, TTuple,
    TupleItem, TVec, TypeDeclaration,
};
use crate::docs::{format_docstring_spec, CommentStyle};
use crate::shared::{sp_generic, sp_generic_args, sp_reference};
use crate::text::{join_lines, spaces};
use vstd::prelude::*;

verus! {

broadcast use crate::definitions::ref_params_decreases;

/// This backend has no namespace prefix.
pub open spec fn no_ns() -> Seq<char> {
    Seq::empty()
}

/// Text of a primitive.
pub open spec fn sp_prim(p: TPrimitive) -> Seq<char>
    decreases p, 0int,
{
    match p {
        TPrimitive::String => "string"@,
        TPrimitive::Tbool => "boolean"@,
        TPrimitive::Ti64 => "number"@,
        TPrimitive::Tf64 => "number"@,
        TPrimitive::THardcoded(s) => s@,
        TPrimitive::TVec(v) => sp_vec(*v),
        TPrimitive::TMap(m) => sp_map(*m),
        TPrimitive::TSet(s) => sp_set(*s),
        TPrimitive::TOption(o) => sp_opt(*o),
        TPrimitive::TDifferentPerLanguage { flow, .. } => sp_prim(*flow),
        TPrimitive::TGeneric(g) => sp_generic(g, no_ns()),
        TPrimitive::TReference(r) => sp_reference(r, no_ns()),
    }
}

/// Text of a vector.
pub open spec fn sp_vec(v: TVec) -> Seq<char>
    decreases v, 1int,
{
    match v {
        TVec::TPrimitive(p) => "Array<"@ + sp_prim(p) + ">"@,
    }
}

/// Text of a set: an array, this target having no set literal type.
pub open spec fn sp_set(s: TSet) -> Seq<char>
    decreases s, 1int,
{
    match s {
        TSet::TPrimitive(p) => "Array<"@ + sp_prim(p) + ">"@,
    }
}

/// Text of a map: an indexer object.
pub open spec fn sp_map(m: TMap) -> Seq<char>
    decreases m, 1int,
{
    let value = match m.value {
        TMapValue::TPrimitive(p) => sp_prim(p),
        TMapValue::TSet(s) => sp_set(s),
    };
    "{[key: "@ + sp_prim(m.key) + "]: "@ + value + "}"@
}

/// Text of an option's inner value.
pub open spec fn sp_opt_value(o: TOption) -> Seq<char>
    decreases o, 2int,
{
    match o {
        TOption::TPrimitive(p) => sp_prim(p),
        TOption::TMap(m) => sp_map(m),
        TOption::TVec(v) => sp_vec(v),
        TOption::TSet(s) => sp_set(s),
        TOption::TTuple(t) => sp_tuple(t),
    }
}

/// Text of an option.
pub open spec fn sp_opt(o: TOption) -> Seq<char>
    decreases o, 3int,
{
    "?"@ + sp_opt_value(o)
}

/// Text of one tuple item.
pub open spec fn sp_tuple_item(item: TupleItem) -> Seq<char>
    decreases item, 4int,
{
    match item {
        TupleItem::TPrimitive(p) => sp_prim(p),
        TupleItem::TOption(o) => sp_opt(o),
    }
}

/// Comma-separated tuple item texts.
pub open spec fn sp_tuple_items(items: Seq<TupleItem>) -> Seq<char>
    decreases items, 5int,
{
    if items.len() == 0 {
        Seq::empty()
    } else if items.len() == 1 {
        sp_tuple_item(items[0])
    } else {
        sp_tuple_items(items.drop_last()) + ", "@ + sp_tuple_item(items.last())
    }
}

/// Text of a tuple.
pub open spec fn sp_tuple(t: TTuple) -> Seq<char>
    decreases t, 6int,
{
    "["@ + sp_tuple_items(t.items@) + "]"@
}

/// One field's block.  An optional field is marked on its key; the field
/// type is then the option's inner value.
pub open spec fn sp_field(f: StructField, indent: nat) -> Seq<char>
    decreases f, 0int,
{
    let opt_mark = if f.field_type is TOption {
        "?"@
    } else {
        Seq::<char>::empty()
    };
    let ftype = match f.field_type {
        StructFieldType::TMap(m) => sp_map(m),
        StructFieldType::TSet(s) => sp_set(s),
        StructFieldType::TPrimitive(p) => sp_prim(p),
        StructFieldType::TTuple(t) => sp_tuple(t),
        StructFieldType::TVec(v) => sp_vec(v),
        StructFieldType::TOption(o) => sp_opt_value(o),
    };
    let line = "\n    "@ + spaces(indent) + "'"@ + f.name@ + "'"@ + opt_mark + ": "@ + ftype
        + ","@;
    match format_docstring_spec(f.docs@, CommentStyle::DoubleSlash, indent + 4) {
        Option::Some(doc) => "\n"@ + doc + line,
        Option::None => line,
    }
}

/// The concatenated field blocks.
pub open spec fn sp_fields(fs: Seq<StructField>, indent: nat) -> Seq<char>
    decreases fs, 1int,
{
    if fs.len() == 0 {
        Seq::empty()
    } else {
        sp_fields(fs.drop_last(), indent) + sp_field(fs.last(), indent)
    }
}

/// Text of a structural record.
pub open spec fn sp_struct(s: TStruct, indent: nat) -> Seq<char>
    decreases s, 2int,
{
    "{"@ + sp_fields(s.fields@, indent) + "\n"@ + spaces(indent) + "}"@
}

/// The variant names quoted and joined into a string union.
pub open spec fn sp_quoted_union(vs: Seq<Seq<char>>) -> Seq<char>
    decreases vs.len(),
{
    if vs.len() == 0 {
        Seq::empty()
    } else if vs.len() == 1 {
        "\""@ + vs[0] + "\""@
    } else {
        sp_quoted_union(vs.drop_last()) + " | "@ + "\""@ + vs.last() + "\""@
    }
}

/// The variant names joined with commas.
pub open spec fn sp_name_list(vs: Seq<Seq<char>>) -> Seq<char>
    decreases vs.len(),
{
    if vs.len() == 0 {
        Seq::empty()
    } else if vs.len() == 1 {
        vs[0]
    } else {
        sp_name_list(vs.drop_last()) + ", "@ + vs.last()
    }
}

/// A unit-only enum: a string-union type plus a native enum of the bare
/// names under the UpperCamelCase name.
pub open spec fn sp_simple_enum(name: Seq<char>, vs: Seq<Seq<char>>) -> Seq<char> {
    "export type "@ + name + " = "@ + sp_quoted_union(vs) + ";"@ + "\n\nexport enum "@
        + upper_camel_of(name) + "Enum {"@ + sp_name_list(vs) + "};"@
}

/// One variant's key in the structural record of a full enum.  A variant
/// with no payload carries a nullable unit value.
pub open spec fn sp_variant(v: EnumVariant) -> Seq<char>
    decreases v, 3int,
{
    let vt = match v.variant_type {
        EnumVariantType::TStruct(s) => " "@ + sp_struct(s, 4),
        EnumVariantType::TPrimitive(p) => sp_prim(p),
        EnumVariantType::Empty => "null"@,
    };
    let line = "\n    '"@ + v.name@ + "'?: "@ + vt + ","@;
    match format_docstring_spec(v.docs@, CommentStyle::DoubleSlash, 4) {
        Option::Some(doc) => "\n"@ + doc + line,
        Option::None => line,
    }
}

/// The concatenated variant keys.
pub open spec fn sp_variants(vs: Seq<EnumVariant>) -> Seq<char>
    decreases vs, 4int,
{
    if vs.len() == 0 {
        Seq::empty()
    } else {
        sp_variants(vs.drop_last()) + sp_variant(vs.last())
    }
}

/// The names of an enum's variants.
pub open spec fn variant_names(vs: Seq<EnumVariant>) -> Seq<Seq<char>> {
    vs.map_values(|v: EnumVariant| v.name@)
}

/// A full enum: the string-union discriminant type, then the structural
/// record opening with its `type` tag key.
pub open spec fn sp_enum(name: Seq<char>, gs: Seq<TGeneric>, e: TEnum) -> Seq<char> {
    "type "@ + name + "Type = "@ + sp_quoted_union(variant_names(e.variants@)) + ";"@
        + "\n\nexport type "@ + name + sp_generic_args(gs, no_ns()) + " = {"@ + "\n    'type': "@
        + name + "Type,"@ + sp_variants(e.variants@) + "\n};"@
}

/// An aliasing declaration line: `export type NAME<G> = INNER;`.
pub open spec fn sp_alias(name: Seq<char>, gs: Seq<TGeneric>, inner: Seq<char>) -> Seq<char> {
    "export type "@ + name + sp_generic_args(gs, no_ns()) + " = "@ + inner + ";"@
}

/// The body of one declaration, without its comment block.
pub open spec fn sp_decl_value(d: TypeDeclaration) -> Seq<char> {
    match d.value {
        DeclarationValue::TPrimitive(p) => sp_alias(d.name@, d.generic_params@, sp_prim(p)),
        DeclarationValue::TMap(m) => sp_alias(d.name@, d.generic_params@, sp_map(*m)),
        DeclarationValue::TVec(v) => sp_alias(d.name@, d.generic_params@, sp_vec(*v)),
        DeclarationValue::TSet(s) => sp_alias(d.name@, d.generic_params@, sp_set(*s)),
        DeclarationValue::TOption(o) => sp_alias(d.name@, d.generic_params@, sp_opt(*o)),
        DeclarationValue::TTuple(t) => sp_alias(d.name@, d.generic_params@, sp_tuple(t)),
        DeclarationValue::TStruct(s) => sp_alias(d.name@, d.generic_params@, sp_struct(s, 0)),
        DeclarationValue::TEnum(e) => sp_enum(d.name@, d.generic_params@, e),
        DeclarationValue::TSimpleEnum(e) => sp_simple_enum(
            d.name@,
            e.variants@.map_values(|s: String| s@),
        ),
        DeclarationValue::Docs => Seq::<char>::empty(),
        DeclarationValue::CodeBlock(b) => match b {
            CodeBlock::Flow(lines) => join_lines(lines@.map_values(|s: String| s@)),
            CodeBlock::Rust(_) => Seq::<char>::empty(),
            CodeBlock::Hack(_) => Seq::<char>::empty(),
        },
    }
}

/// One declaration's block: its comment block, then its body.
pub open spec fn sp_decl(d: TypeDeclaration) -> Seq<char> {
    let body = sp_decl_value(d);
    match format_docstring_spec(d.docs@, CommentStyle::DoubleSlash, 0) {
        Option::Some(doc) => doc + "\n"@ + body,
        Option::None => body,
    }
}

/// Every declaration's block, blank-line separated.
pub open spec fn sp_decls(ds: Seq<TypeDeclaration>) -> Seq<char>
    decreases ds.len(),
{
    if ds.len() == 0 {
        Seq::empty()
    } else {
        sp_decls(ds.drop_last()) + "\n"@ + sp_decl(ds.last()) + "\n"@
    }
}

/// The configured file headers, in order, each on its own line.  The
/// namespace configuration does not apply to this backend.
pub open spec fn sp_headers(cfg: Seq<DeclarationsConfig>) -> Seq<char>
    decreases cfg.len(),
{
    if cfg.len() == 0 {
        Seq::empty()
    } else {
        sp_headers(cfg.drop_last()) + match cfg.last() {
            DeclarationsConfig::FileHeader(h) => h@ + "\n"@,
            DeclarationsConfig::HackNamespace(_) => Seq::<char>::empty(),
        }
    }
}

/// The whole output: the headers, then the declarations.
pub open spec fn sp_output(cfg: Seq<DeclarationsConfig>, ds: Seq<TypeDeclaration>) -> Seq<char> {
    sp_headers(cfg) + sp_decls(ds)
}

/// The JS-family backend pass.
pub struct FlowCodegen {}

fn gen_prim(p: &TPrimitive) -> (r: String)
    ensures
        r@ == sp_prim(*p),
    decreases *p, 0int,
{
    match p {
        TPrimitive::String => String::from_str("string"),
        TPrimitive::Tbool => String::from_str("boolean"),
        TPrimitive::Ti64 => String::from_str("number"),
        TPrimitive::Tf64 => String::from_str("number"),
        TPrimitive::THardcoded(s) => s.clone(),
        TPrimitive::TVec(v) => gen_vec(v),
        TPrimitive::TMap(m) => gen_map(m),
        TPrimitive::TSet(s) => gen_set(s),
        TPrimitive::TOption(o) => gen_opt(o),
        TPrimitive::TDifferentPerLanguage { flow, .. } => gen_prim(flow),
        TPrimitive::TGeneric(g) => {
            proof {
                reveal_strlit("");
                assert(""@ =~= no_ns());
            }
            crate::shared::generic_arg(g, "")
        },
        TPrimitive::TReference(re) => {
            proof {
                reveal_strlit("");
                assert(""@ =~= no_ns());
            }
            crate::shared::reference_text(re, "")
        },
    }
}

fn gen_vec(v: &TVec) -> (r: String)
    ensures
        r@ == sp_vec(*v),
    decreases *v, 1int,
{
    match v {
        TVec::TPrimitive(p) => {
            let mut r = String::from_str("Array<");
            let inner = gen_prim(p);
            r.append(inner.as_str());
            r.append(">");
            proof {
                assert(r@ =~= sp_vec(*v));
            }
            r
        },
    }
}

fn gen_set(s: &TSet) -> (r: String)
    ensures
        r@ == sp_set(*s),
    decreases *s, 1int,
{
    match s {
        TSet::TPrimitive(p) => {
            let mut r = String::from_str("Array<");
            let inner = gen_prim(p);
            r.append(inner.as_str());
            r.append(">");
            proof {
                assert(r@ =~= sp_set(*s));
            }
            r
        },
    }
}

fn gen_map(m: &TMap) -> (r: String)
    ensures
        r@ == sp_map(*m),
    decreases *m, 1int,
{
    let mut r = String::from_str("{[key: ");
    let key = gen_prim(&m.key);
    r.append(key.as_str());
    r.append("]: ");
    let value = match &m.value {
        TMapValue::TPrimitive(p) => gen_prim(p),
        TMapValue::TSet(s) => gen_set(s),
    };
    r.append(value.as_str());
    r.append("}");
    proof {
        assert(r@ =~= sp_map(*m));
    }
    r
}

fn gen_opt_value(o: &TOption) -> (r: String)
    ensures
        r@ == sp_opt_value(*o),
    decreases *o, 2int,
{
    match o {
        TOption::TPrimitive(p) => gen_prim(p),
        TOption::TMap(m) => gen_map(m),
        TOption::TVec(v) => gen_vec(v),
        TOption::TSet(s) => gen_set(s),
        TOption::TTuple(t) => gen_tuple(t),
    }
}

fn gen_opt(o: &TOption) -> (r: String)
    ensures
        r@ == sp_opt(*o),
    decreases *o, 3int,
{
    let mut r = String::from_str("?");
    let value = gen_opt_value(o);
    r.append(value.as_str());
    proof {
        assert(r@ =~= sp_opt(*o));
    }
    r
}

fn gen_tuple(t: &TTuple) -> (r: String)
    ensures
        r@ == sp_tuple(*t),
    decreases *t, 6int,
{
    let mut r = String::from_str("[");
    let ghost items = t.items@;
    let mut i: usize = 0;
    proof {
        assert(items.subrange(0, 0) =~= Seq::<TupleItem>::empty());
    }
    while i < t.items.len()
        invariant
            i <= t.items@.len(),
            items == t.items@,
            r@ == "["@ + sp_tuple_items(items.subrange(0, i as int)) + (if 0 < i && i
                < items.len() {
                ", "@
            } else {
                Seq::<char>::empty()
            }),
        decreases t.items@.len() - i,
    {
        let value = match &t.items[i] {
            TupleItem::TPrimitive(p) => gen_prim(p),
            TupleItem::TOption(o) => gen_opt(o),
        };
        r.append(value.as_str());
        if i + 1 < t.items.len() {
            r.append(", ");
        }
        proof {
            let pre = items.subrange(0, i as int);
            let post = items.subrange(0, (i + 1) as int);
            assert(post.drop_last() =~= pre);
            assert(post.last() == items[i as int]);
            if i == 0 {
                assert(sp_tuple_items(post) == sp_tuple_item(items[0]));
            } else {
                assert(sp_tuple_items(post) == sp_tuple_items(pre) + ", "@ + sp_tuple_item(
                    items[i as int],
                ));
            }
            assert(r@ =~= "["@ + sp_tuple_items(post) + (if i + 1 < items.len() {
                ", "@
            } else {
                Seq::<char>::empty()
            }));
        }
        i = i + 1;
    }
    r.append("]");
    proof {
        assert(items.subrange(0, items.len() as int) =~= items);
        assert(r@ =~= sp_tuple(*t));
    }
    r
}

fn gen_struct(s: &TStruct, indent_level: usize) -> (r: String)
    requires
        indent_level + 4 <= usize::MAX,
    ensures
        r@ == sp_struct(*s, indent_level as nat),
    decreases *s, 2int,
{
    let ind = crate::text::spaces_str(indent_level);
    let mut fields_text = String::new();
    let ghost fs = s.fields@;
    let mut i: usize = 0;
    proof {
        assert(fs.subrange(0, 0) =~= Seq::<StructField>::empty());
    }
    while i < s.fields.len()
        invariant
            i <= s.fields@.len(),
            fs == s.fields@,
            ind@ == spaces(indent_level as nat),
            indent_level + 4 <= usize::MAX,
            fields_text@ == sp_fields(fs.subrange(0, i as int), indent_level as nat),
        decreases s.fields@.len() - i,
    {
        let f = &s.fields[i];
        let is_option = match &f.field_type {
            StructFieldType::TOption(_) => true,
            _ => false,
        };
        let ftype: String = match &f.field_type {
            StructFieldType::TMap(m) => gen_map(m),
            StructFieldType::TSet(st) => gen_set(st),
            StructFieldType::TPrimitive(p) => gen_prim(p),
            StructFieldType::TTuple(t) => gen_tuple(t),
            StructFieldType::TVec(v) => gen_vec(v),
            StructFieldType::TOption(o) => gen_opt_value(o),
        };
        let mut line = String::from_str("\n    ");
        line.append(ind.as_str());
        line.append("'");
        line.append(f.name.as_str());
        line.append("'");
        if is_option {
            line.append("?");
        }
        line.append(": ");
        line.append(ftype.as_str());
        line.append(",");
        match crate::docs::format_docstring(
            f.docs.as_str(),
            CommentStyle::DoubleSlash,
            indent_level + 4,
        ) {
            Option::Some(doc) => {
                fields_text.append("\n");
                fields_text.append(doc.as_str());
                fields_text.append(line.as_str());
            },
            Option::None => {
                fields_text.append(line.as_str());
            },
        }
        proof {
            let pre = fs.subrange(0, i as int);
            let post = fs.subrange(0, (i + 1) as int);
            assert(post.drop_last() =~= pre);
            assert(post.last() == fs[i as int]);
            assert(fields_text@ =~= sp_fields(post, indent_level as nat));
        }
        i = i + 1;
    }
    let mut r = String::from_str("{");
    r.append(fields_text.as_str());
    r.append("\n");
    r.append(ind.as_str());
    r.append("}");
    proof {
        assert(fs.subrange(0, fs.len() as int) =~= fs);
        assert(r@ =~= sp_struct(*s, indent_level as nat));
    }
    r
}

/// The variant names quoted and joined into a string union.
fn gen_quoted_union(variants: &Vec<String>) -> (r: String)
    ensures
        r@ == sp_quoted_union(variants@.map_values(|s: String| s@)),
{
    let ghost vs = variants@.map_values(|s: String| s@);
    let mut r = String::new();
    let mut i: usize = 0;
    proof {
        assert(vs.subrange(0, 0) =~= Seq::<Seq<char>>::empty());
    }
    while i < variants.len()
        invariant
            i <= variants@.len(),
            vs == variants@.map_values(|s: String| s@),
            vs.len() == variants@.len(),
            r@ == sp_quoted_union(vs.subrange(0, i as int)),
        decreases variants@.len() - i,
    {
        if i > 0 {
            r.append(" | ");
        }
        r.append("\"");
        r.append(variants[i].as_str());
        r.append("\"");
        proof {
            let pre = vs.subrange(0, i as int);
            let post = vs.subrange(0, (i + 1) as int);
            assert(post.drop_last() =~= pre);
            assert(post.last() == vs[i as int]);
            assert(vs[i as int] == variants@[i as int]@);
            assert(r@ =~= sp_quoted_union(post));
        }
        i = i + 1;
    }
    proof {
        assert(vs.subrange(0, vs.len() as int) =~= vs);
    }
    r
}

/// The variant names joined with commas.
fn gen_name_list(variants: &Vec<String>) -> (r: String)
    ensures
        r@ == sp_name_list(variants@.map_values(|s: String| s@)),
{
    let ghost vs = variants@.map_values(|s: String| s@);
    let mut r = String::new();
    let mut i: usize = 0;
    proof {
        assert(vs.subrange(0, 0) =~= Seq::<Seq<char>>::empty());
    }
    while i < variants.len()
        invariant
            i <= variants@.len(),
            vs == variants@.map_values(|s: String| s@),
            vs.len() == variants@.len(),
            r@ == sp_name_list(vs.subrange(0, i as int)),
        decreases variants@.len() - i,
    {
        if i > 0 {
            r.append(", ");
        }
        r.append(variants[i].as_str());
        proof {
            let pre = vs.subrange(0, i as int);
            let post = vs.subrange(0, (i + 1) as int);
            assert(post.drop_last() =~= pre);
            assert(post.last() == vs[i as int]);
            assert(vs[i as int] == variants@[i as int]@);
            assert(r@ =~= sp_name_list(post));
        }
        i = i + 1;
    }
    proof {
        assert(vs.subrange(0, vs.len() as int) =~= vs);
    }
    r
}

/// Render a unit-only enum from a name and its variant names.
fn gen_simple_enum(name: &str, variants: &Vec<String>) -> (r: String)
    ensures
        r@ == sp_simple_enum(name@, variants@.map_values(|s: String| s@)),
{
    let mut r = String::from_str("export type ");
    r.append(name);
    r.append(" = ");
    let union = gen_quoted_union(variants);
    r.append(union.as_str());
    r.append(";");
    r.append("\n\nexport enum ");
    let camel = to_upper_camel_case(name);
    r.append(camel.as_str());
    r.append("Enum {");
    let names = gen_name_list(variants);
    r.append(names.as_str());
    r.append("};");
    proof {
        assert(r@ =~= sp_simple_enum(name@, variants@.map_values(|s: String| s@)));
    }
    r
}

fn gen_enum(name: &str, gs: &Vec<TGeneric>, e: &TEnum) -> (r: String)
    ensures
        r@ == sp_enum(name@, gs@, *e),
{
    let mut names: Vec<String> = Vec::new();
    let mut i: usize = 0;
    while i < e.variants.len()
        invariant
            i <= e.variants@.len(),
            names@.len() == i,
            forall|k: int| 0 <= k < i ==> (#[trigger] names@[k])@ == e.variants@[k].name@,
        decreases e.variants@.len() - i,
    {
        names.push(e.variants[i].name.clone());
        i = i + 1;
    }
    proof {
        assert(names@.map_values(|s: String| s@) =~= variant_names(e.variants@));
    }
    let mut r = String::from_str("type ");
    r.append(name);
    r.append("Type = ");
    let union = gen_quoted_union(&names);
    r.append(union.as_str());
    r.append(";");
    r.append("\n\nexport type ");
    r.append(name);
    proof {
        reveal_strlit("");
        assert(""@ =~= no_ns());
    }
    let gargs = crate::shared::generic_params(gs, "");
    r.append(gargs.as_str());
    r.append(" = {");
    r.append("\n    'type': ");
    r.append(name);
    r.append("Type,");
    let mut variants_text = String::new();
    let ghost vs = e.variants@;
    let mut j: usize = 0;
    proof {
        assert(vs.subrange(0, 0) =~= Seq::<EnumVariant>::empty());
    }
    while j < e.variants.len()
        invariant
            j <= e.variants@.len(),
            vs == e.variants@,
            variants_text@ == sp_variants(vs.subrange(0, j as int)),
        decreases e.variants@.len() - j,
    {
        let v = &e.variants[j];
        let vt: String = match &v.variant_type {
            EnumVariantType::TStruct(s) => {
                let mut t = String::from_str(" ");
                let body = gen_struct(s, 4);
                t.append(body.as_str());
                t
            },
            EnumVariantType::TPrimitive(p) => gen_prim(p),
            EnumVariantType::Empty => String::from_str("null"),
        };
        let mut line = String::from_str("\n    '");
        line.append(v.name.as_str());
        line.append("'?: ");
        line.append(vt.as_str());
        line.append(",");
        match crate::docs::format_docstring(v.docs.as_str(), CommentStyle::DoubleSlash, 4) {
            Option::Some(doc) => {
                variants_text.append("\n");
                variants_text.append(doc.as_str());
                variants_text.append(line.as_str());
            },
            Option::None => {
                variants_text.append(line.as_str());
            },
        }
        proof {
            let pre = vs.subrange(0, j as int);
            let post = vs.subrange(0, (j + 1) as int);
            assert(post.drop_last() =~= pre);
            assert(post.last() == vs[j as int]);
            assert(variants_text@ =~= sp_variants(post));
        }
        j = j + 1;
    }
    proof {
        assert(vs.subrange(0, vs.len() as int) =~= vs);
    }
    r.append(variants_text.as_str());
    r.append("\n};");
    proof {
        assert(r@ =~= sp_enum(name@, gs@, *e));
    }
    r
}

/// Build `export type NAME<G> = INNER;`.
fn alias_line(name: &str, gs: &Vec<TGeneric>, inner: &str) -> (r: String)
    ensures
        r@ == sp_alias(name@, gs@, inner@),
{
    let mut r = String::from_str("export type ");
    r.append(name);
    proof {
        reveal_strlit("");
        assert(""@ =~= no_ns());
    }
    let gargs = crate::shared::generic_params(gs, "");
    r.append(gargs.as_str());
    r.append(" = ");
    r.append(inner);
    r.append(";");
    proof {
        assert(r@ =~= sp_alias(name@, gs@, inner@));
    }
    r
}

fn gen_declaration(d: &TypeDeclaration) -> (r: String)
    ensures
        r@ == sp_decl(*d),
{
    let body: String = match &d.value {
        DeclarationValue::TPrimitive(p) => {
            let inner = gen_prim(p);
            alias_line(d.name.as_str(), &d.generic_params, inner.as_str())
        },
        DeclarationValue::TMap(m) => {
            let inner = gen_map(m);
            alias_line(d.name.as_str(), &d.generic_params, inner.as_str())
        },
        DeclarationValue::TVec(v) => {
            let inner = gen_vec(v);
            alias_line(d.name.as_str(), &d.generic_params, inner.as_str())
        },
        DeclarationValue::TSet(s) => {
            let inner = gen_set(s);
            alias_line(d.name.as_str(), &d.generic_params, inner.as_str())
        },
        DeclarationValue::TOption(o) => {
            let inner = gen_opt(o);
            alias_line(d.name.as_str(), &d.generic_params, inner.as_str())
        },
        DeclarationValue::TTuple(t) => {
            let inner = gen_tuple(t);
            alias_line(d.name.as_str(), &d.generic_params, inner.as_str())
        },
        DeclarationValue::TStruct(s) => {
            let inner = gen_struct(s, 0);
            alias_line(d.name.as_str(), &d.generic_params, inner.as_str())
        },
        DeclarationValue::TEnum(e) => gen_enum(d.name.as_str(), &d.generic_params, e),
        DeclarationValue::TSimpleEnum(e) => gen_simple_enum(d.name.as_str(), &e.variants),
        DeclarationValue::Docs => {
            proof {
                reveal_strlit("");
            }
            String::new()
        },
        DeclarationValue::CodeBlock(b) => {
            match b {
                CodeBlock::Flow(lines) => crate::text::join_lines_str(lines),
                CodeBlock::Rust(_) => {
                    proof {
                        reveal_strlit("");
                    }
                    String::new()
                },
                CodeBlock::Hack(_) => {
                    proof {
                        reveal_strlit("");
                    }
                    String::new()
                },
            }
        },
    };
    proof {
        assert(body@ == sp_decl_value(*d));
    }
    match crate::docs::format_docstring(d.docs.as_str(), CommentStyle::DoubleSlash, 0) {
        Option::Some(doc) => {
            let mut out = doc;
            out.append("\n");
            out.append(body.as_str());
            proof {
                assert(out@ =~= sp_decl(*d));
            }
            out
        },
        Option::None => body,
    }
}

impl FlowCodegen {
    /// Render a whole declaration list: the configured headers, then every
    /// declaration's block.  This backend renders every value kind, so the
    /// render always succeeds.
    pub fn render(declarations: &Declarations) -> (r: Result<String, crate::codegen::RenderError>)
        ensures
            r is Ok,
            r->Ok_0@ == sp_output(declarations.configs(), declarations.decls()),
    {
        let cfgs = declarations.config_list();
        let ghost cv = declarations.configs();
        let mut out = String::new();
        let mut i: usize = 0;
        proof {
            assert(cv.subrange(0, 0) =~= Seq::<DeclarationsConfig>::empty());
        }
        while i < cfgs.len()
            invariant
                i <= cv.len(),
                cfgs@ == cv,
                out@ == sp_headers(cv.subrange(0, i as int)),
            decreases cv.len() - i,
        {
            match &cfgs[i] {
                DeclarationsConfig::HackNamespace(_) => {},
                DeclarationsConfig::FileHeader(h) => {
                    out.append(h.as_str());
                    out.append("\n");
                },
            }
            proof {
                let pre = cv.subrange(0, i as int);
                let post = cv.subrange(0, (i + 1) as int);
                assert(post.drop_last() =~= pre);
                assert(post.last() == cv[i as int]);
                assert(out@ =~= sp_headers(post));
            }
            i = i + 1;
        }
        proof {
            assert(cv.subrange(0, cv.len() as int) =~= cv);
        }
        let ds = declarations.list();
        let ghost dv = declarations.decls();
        let mut j: usize = 0;
        proof {
            assert(dv.subrange(0, 0) =~= Seq::<TypeDeclaration>::empty());
        }
        while j < ds.len()
            invariant
                j <= dv.len(),
                ds@ == dv,
                out@ == sp_headers(cv) + sp_decls(dv.subrange(0, j as int)),
            decreases dv.len() - j,
        {
            let t = gen_declaration(&ds[j]);
            out.append("\n");
            out.append(t.as_str());
            out.append("\n");
            proof {
                let pre = dv.subrange(0, j as int);
                let post = dv.subrange(0, (j + 1) as int);
                assert(post.drop_last() =~= pre);
                assert(post.last() == dv[j as int]);
                assert(out@ =~= sp_headers(cv) + sp_decls(post));
            }
            j = j + 1;
        }
        proof {
            assert(dv.subrange(0, dv.len() as int) =~= dv);
        }
        Result::Ok(out)
    }
}

impl crate::codegen::Codegen for FlowCodegen {
    fn gen_declarations(declarations: &Declarations) -> Result<
        String,
        crate::codegen::RenderError,
    > {
        FlowCodegen::render(declarations)
    }
}

} // verus!
