//! The namespaced shape backend.
//!
//! This target has no native discriminated union, so a full enum compiles
//! to two artifacts: a companion string-backed enum listing the variant
//! names (the discriminant), and a structural record with one optional key
//! per variant payload.  A configured namespace prefix is prepended to
//! every declared and referenced name.

use crate::casing::{constant_case_of, to_constant_case};
use crate::declarations::{Declarations, DeclarationsConfig};
use crate::definitions::{
    CodeBlock, DeclarationValue, EnumVariant, EnumVariantType, StructField, StructFieldType,
    TEnum, TGeneric, TMap, TMapValue, TOption, TPrimitive, TSet, TSimpleEnum, TStruct, TTuple,
    TupleItem, TVec, TypeDeclaration,
};
use crate::docs::{format_docstring_spec, CommentStyle};
use crate::shared::{sp_generic, sp_generic_args, sp_reference};
use crate::text::{join_lines, spaces};
use vstd::prelude::*;

verus! {

broadcast use crate::definitions::ref_params_decreases;

/// Text of a primitive.
pub open spec fn sp_prim(p: TPrimitive, ns: Seq<char>) -> Seq<char>
    decreases p, 0int,
{
    match p {
        TPrimitive::String => "string"@,
        TPrimitive::Tbool => "bool"@,
        TPrimitive::Ti64 => "int"@,
        TPrimitive::Tf64 => "float"@,
        TPrimitive::THardcoded(s) => s@,
        TPrimitive::TVec(v) => sp_vec(*v, ns),
        TPrimitive::TMap(m) => sp_map(*m, ns),
        TPrimitive::TSet(s) => sp_set(*s, ns),
        TPrimitive::TOption(o) => sp_opt(*o, ns),
        TPrimitive::TDifferentPerLanguage { hack, .. } => sp_prim(*hack, ns),
        TPrimitive::TGeneric(g) => sp_generic(g, ns),
        TPrimitive::TReference(r) => sp_reference(r, ns),
    }
}

/// Text of a vector.
pub open spec fn sp_vec(v: TVec, ns: Seq<char>) -> Seq<char>
    decreases v, 1int,
{
    match v {
        TVec::TPrimitive(p) => "vec<"@ + sp_prim(p, ns) + ">"@,
    }
}

/// Text of a set.
pub open spec fn sp_set(s: TSet, ns: Seq<char>) -> Seq<char>
    decreases s, 1int,
{
    match s {
        TSet::TPrimitive(p) => "keyset<"@ + sp_prim(p, ns) + ">"@,
    }
}

/// Text of a map.
pub open spec fn sp_map(m: TMap, ns: Seq<char>) -> Seq<char>
    decreases m, 1int,
{
    let value = match m.value {
        TMapValue::TPrimitive(p) => sp_prim(p, ns),
        TMapValue::TSet(s) => sp_set(s, ns),
    };
    "dict<"@ + sp_prim(m.key, ns) + ", "@ + value + ">"@
}

/// Text of an option's inner value.
pub open spec fn sp_opt_value(o: TOption, ns: Seq<char>) -> Seq<char>
    decreases o, 2int,
{
    match o {
        TOption::TPrimitive(p) => sp_prim(p, ns),
        TOption::TMap(m) => sp_map(m, ns),
        TOption::TVec(v) => sp_vec(v, ns),
        TOption::TSet(s) => sp_set(s, ns),
        TOption::TTuple(t) => sp_tuple(t, ns),
    }
}

/// Text of an option.
pub open spec fn sp_opt(o: TOption, ns: Seq<char>) -> Seq<char>
    decreases o, 3int,
{
    "?"@ + sp_opt_value(o, ns)
}

/// Text of one tuple item.
pub open spec fn sp_tuple_item(item: TupleItem, ns: Seq<char>) -> Seq<char>
    decreases item, 4int,
{
    match item {
        TupleItem::TPrimitive(p) => sp_prim(p, ns),
        TupleItem::TOption(o) => sp_opt(o, ns),
    }
}

/// Comma-separated tuple item texts.
pub open spec fn sp_tuple_items(items: Seq<TupleItem>, ns: Seq<char>) -> Seq<char>
    decreases items, 5int,
{
    if items.len() == 0 {
        Seq::empty()
    } else if items.len() == 1 {
        sp_tuple_item(items[0], ns)
    } else {
        sp_tuple_items(items.drop_last(), ns) + ", "@ + sp_tuple_item(items.last(), ns)
    }
}

/// Text of a tuple.
pub open spec fn sp_tuple(t: TTuple, ns: Seq<char>) -> Seq<char>
    decreases t, 6int,
{
    "("@ + sp_tuple_items(t.items@, ns) + ")"@
}

/// One field's block.  An optional field is marked on its key; the field
/// type is then the option's inner value.
pub open spec fn sp_field(f: StructField, indent: nat, ns: Seq<char>) -> Seq<char>
    decreases f, 0int,
{
    let opt_mark = if f.field_type is TOption {
        "?"@
    } else {
        Seq::<char>::empty()
    };
    let ftype = match f.field_type {
        StructFieldType::TMap(m) => sp_map(m, ns),
        StructFieldType::TSet(s) => sp_set(s, ns),
        StructFieldType::TPrimitive(p) => sp_prim(p, ns),
        StructFieldType::TTuple(t) => sp_tuple(t, ns),
        StructFieldType::TVec(v) => sp_vec(v, ns),
        StructFieldType::TOption(o) => sp_opt_value(o, ns),
    };
    let line = "\n    "@ + spaces(indent) + opt_mark + "'"@ + f.name@ + "' => "@ + ftype + ","@;
    match format_docstring_spec(f.docs@, CommentStyle::DoubleSlash, indent + 4) {
        Option::Some(doc) => "\n"@ + doc + line,
        Option::None => line,
    }
}

/// The concatenated field blocks.
pub open spec fn sp_fields(fs: Seq<StructField>, indent: nat, ns: Seq<char>) -> Seq<char>
    decreases fs, 1int,
{
    if fs.len() == 0 {
        Seq::empty()
    } else {
        sp_fields(fs.drop_last(), indent, ns) + sp_field(fs.last(), indent, ns)
    }
}

/// Text of a structural record.
pub open spec fn sp_struct(s: TStruct, indent: nat, ns: Seq<char>) -> Seq<char>
    decreases s, 2int,
{
    "shape("@ + sp_fields(s.fields@, indent, ns) + "\n"@ + spaces(indent) + ")"@
}

/// One line of a string-backed enum: `    NAME = "Name";`.
pub open spec fn sp_simple_variant(v: Seq<char>) -> Seq<char> {
    "    "@ + constant_case_of(v) + " = \""@ + v + "\";\n"@
}

/// The lines of a string-backed enum.
pub open spec fn sp_simple_variants(vs: Seq<Seq<char>>) -> Seq<char>
    decreases vs.len(),
{
    if vs.len() == 0 {
        Seq::empty()
    } else {
        sp_simple_variants(vs.drop_last()) + sp_simple_variant(vs.last())
    }
}

/// A whole string-backed enum.
pub open spec fn sp_simple_enum(name: Seq<char>, vs: Seq<Seq<char>>) -> Seq<char> {
    "enum "@ + name + ": string as string {\n"@ + sp_simple_variants(vs) + "}"@
}

/// One variant's key in the structural record of a full enum.  A variant
/// with no payload carries a nullable unit value.
pub open spec fn sp_variant(v: EnumVariant, ns: Seq<char>) -> Seq<char>
    decreases v, 3int,
{
    let vt = match v.variant_type {
        EnumVariantType::TStruct(s) => " "@ + sp_struct(s, 4, ns),
        EnumVariantType::TPrimitive(p) => sp_prim(p, ns),
        EnumVariantType::Empty => "?null"@,
    };
    let line = "\n    ?'"@ + v.name@ + "' => "@ + vt + ","@;
    match format_docstring_spec(v.docs@, CommentStyle::DoubleSlash, 4) {
        Option::Some(doc) => "\n"@ + doc + line,
        Option::None => line,
    }
}

/// The concatenated variant keys.
pub open spec fn sp_variants(vs: Seq<EnumVariant>, ns: Seq<char>) -> Seq<char>
    decreases vs, 4int,
{
    if vs.len() == 0 {
        Seq::empty()
    } else {
        sp_variants(vs.drop_last(), ns) + sp_variant(vs.last(), ns)
    }
}

/// The names of an enum's variants.
pub open spec fn variant_names(vs: Seq<EnumVariant>) -> Seq<Seq<char>> {
    vs.map_values(|v: EnumVariant| v.name@)
}

/// A full enum: the companion discriminant enum, then the structural
/// record with one optional key per variant.
pub open spec fn sp_enum(name: Seq<char>, gs: Seq<TGeneric>, e: TEnum, ns: Seq<char>) -> Seq<
    char,
> {
    "\n"@ + sp_simple_enum(name + "Type"@, variant_names(e.variants@)) + "\n\ntype "@ + name
        + sp_generic_args(gs, ns) + " = shape("@ + sp_variants(e.variants@, ns) + "\n);"@
}

/// An aliasing declaration line: `type NAME<G> = INNER;`.
pub open spec fn sp_alias(name: Seq<char>, gs: Seq<TGeneric>, inner: Seq<char>, ns: Seq<char>) -> Seq<
    char,
> {
    "type "@ + name + sp_generic_args(gs, ns) + " = "@ + inner + ";"@
}

/// The body of one declaration, without its comment block.
pub open spec fn sp_decl_value(d: TypeDeclaration, ns: Seq<char>) -> Seq<char> {
    let name = ns + d.name@;
    match d.value {
        DeclarationValue::TPrimitive(p) => sp_alias(name, d.generic_params@, sp_prim(p, ns), ns),
        DeclarationValue::TMap(m) => sp_alias(name, d.generic_params@, sp_map(*m, ns), ns),
        DeclarationValue::TVec(v) => sp_alias(name, d.generic_params@, sp_vec(*v, ns), ns),
        DeclarationValue::TSet(s) => sp_alias(name, d.generic_params@, sp_set(*s, ns), ns),
        DeclarationValue::TOption(o) => sp_alias(name, d.generic_params@, sp_opt(*o, ns), ns),
        DeclarationValue::TTuple(t) => sp_alias(name, d.generic_params@, sp_tuple(t, ns), ns),
        DeclarationValue::TStruct(s) => sp_alias(name, d.generic_params@, sp_struct(s, 0, ns), ns),
        DeclarationValue::TEnum(e) => sp_enum(name, d.generic_params@, e, ns),
        DeclarationValue::TSimpleEnum(e) => sp_simple_enum(
            name,
            e.variants@.map_values(|s: String| s@),
        ),
        DeclarationValue::Docs => Seq::<char>::empty(),
        DeclarationValue::CodeBlock(b) => match b {
            CodeBlock::Hack(lines) => join_lines(lines@.map_values(|s: String| s@)),
            CodeBlock::Rust(_) => Seq::<char>::empty(),
            CodeBlock::Flow(_) => Seq::<char>::empty(),
        },
    }
}

/// One declaration's block: its comment block, then its body.
pub open spec fn sp_decl(d: TypeDeclaration, ns: Seq<char>) -> Seq<char> {
    let body = sp_decl_value(d, ns);
    match format_docstring_spec(d.docs@, CommentStyle::DoubleSlash, 0) {
        Option::Some(doc) => doc + "\n"@ + body,
        Option::None => body,
    }
}

/// Every declaration's block, blank-line separated.
pub open spec fn sp_decls(ds: Seq<TypeDeclaration>, ns: Seq<char>) -> Seq<char>
    decreases ds.len(),
{
    if ds.len() == 0 {
        Seq::empty()
    } else {
        sp_decls(ds.drop_last(), ns) + "\n"@ + sp_decl(ds.last(), ns) + "\n"@
    }
}

/// The configured namespace: the last one set, or none.
pub open spec fn sp_ns(cfg: Seq<DeclarationsConfig>) -> Seq<char>
    decreases cfg.len(),
{
    if cfg.len() == 0 {
        Seq::empty()
    } else {
        match cfg.last() {
            DeclarationsConfig::HackNamespace(n) => n@,
            DeclarationsConfig::FileHeader(_) => sp_ns(cfg.drop_last()),
        }
    }
}

/// The configured file headers, in order, each on its own line.
pub open spec fn sp_headers(cfg: Seq<DeclarationsConfig>) -> Seq<char>
    decreases cfg.len(),
{
    if cfg.len() == 0 {
        Seq::empty()
    } else {
        sp_headers(cfg.drop_last()) + match cfg.last() {
            DeclarationsConfig::FileHeader(h) => h@ + "\n"@,
            DeclarationsConfig::HackNamespace(_) => Seq::<char>::empty(),
        }
    }
}

/// The whole output: the opening tag, the headers, the declarations.
pub open spec fn sp_output(cfg: Seq<DeclarationsConfig>, ds: Seq<TypeDeclaration>) -> Seq<char> {
    "<?hh\n"@ + sp_headers(cfg) + sp_decls(ds, sp_ns(cfg))
}

/// The per-invocation context: the configured namespace prefix.
pub struct HackCodegen {
    namespace: String,
}

impl HackCodegen {
    /// The namespaced form of a declared or referenced name.
    fn namespaced(&self, name: &str) -> (r: String)
        ensures
            r@ == self.namespace@ + name@,
    {
        let mut r = self.namespace.clone();
        r.append(name);
        r
    }

    fn gen_prim(&self, p: &TPrimitive) -> (r: String)
        ensures
            r@ == sp_prim(*p, self.namespace@),
        decreases *p, 0int,
    {
        match p {
            TPrimitive::String => String::from_str("string"),
            TPrimitive::Tbool => String::from_str("bool"),
            TPrimitive::Ti64 => String::from_str("int"),
            TPrimitive::Tf64 => String::from_str("float"),
            TPrimitive::THardcoded(s) => s.clone(),
            TPrimitive::TVec(v) => self.gen_vec(v),
            TPrimitive::TMap(m) => self.gen_map(m),
            TPrimitive::TSet(s) => self.gen_set(s),
            TPrimitive::TOption(o) => self.gen_opt(o),
            TPrimitive::TDifferentPerLanguage { hack, .. } => self.gen_prim(hack),
            TPrimitive::TGeneric(g) => crate::shared::generic_arg(g, self.namespace.as_str()),
            TPrimitive::TReference(re) => crate::shared::reference_text(
                re,
                self.namespace.as_str(),
            ),
        }
    }

    fn gen_vec(&self, v: &TVec) -> (r: String)
        ensures
            r@ == sp_vec(*v, self.namespace@),
        decreases *v, 1int,
    {
        match v {
            TVec::TPrimitive(p) => {
                let mut r = String::from_str("vec<");
                let inner = self.gen_prim(p);
                r.append(inner.as_str());
                r.append(">");
                proof {
                    assert(r@ =~= sp_vec(*v, self.namespace@));
                }
                r
            },
        }
    }

    fn gen_set(&self, s: &TSet) -> (r: String)
        ensures
            r@ == sp_set(*s, self.namespace@),
        decreases *s, 1int,
    {
        match s {
            TSet::TPrimitive(p) => {
                let mut r = String::from_str("keyset<");
                let inner = self.gen_prim(p);
                r.append(inner.as_str());
                r.append(">");
                proof {
                    assert(r@ =~= sp_set(*s, self.namespace@));
                }
                r
            },
        }
    }

    fn gen_map(&self, m: &TMap) -> (r: String)
        ensures
            r@ == sp_map(*m, self.namespace@),
        decreases *m, 1int,
    {
        let mut r = String::from_str("dict<");
        let key = self.gen_prim(&m.key);
        r.append(key.as_str());
        r.append(", ");
        let value = match &m.value {
            TMapValue::TPrimitive(p) => self.gen_prim(p),
            TMapValue::TSet(s) => self.gen_set(s),
        };
        r.append(value.as_str());
        r.append(">");
        proof {
            assert(r@ =~= sp_map(*m, self.namespace@));
        }
        r
    }

    fn gen_opt_value(&self, o: &TOption) -> (r: String)
        ensures
            r@ == sp_opt_value(*o, self.namespace@),
        decreases *o, 2int,
    {
        match o {
            TOption::TPrimitive(p) => self.gen_prim(p),
            TOption::TMap(m) => self.gen_map(m),
            TOption::TVec(v) => self.gen_vec(v),
            TOption::TSet(s) => self.gen_set(s),
            TOption::TTuple(t) => self.gen_tuple(t),
        }
    }

    fn gen_opt(&self, o: &TOption) -> (r: String)
        ensures
            r@ == sp_opt(*o, self.namespace@),
        decreases *o, 3int,
    {
        let mut r = String::from_str("?");
        let value = self.gen_opt_value(o);
        r.append(value.as_str());
        proof {
            assert(r@ =~= sp_opt(*o, self.namespace@));
        }
        r
    }

    fn gen_tuple(&self, t: &TTuple) -> (r: String)
        ensures
            r@ == sp_tuple(*t, self.namespace@),
        decreases *t, 6int,
    {
        let ghost ns = self.namespace@;
        let mut r = String::from_str("(");
        let ghost items = t.items@;
        let mut i: usize = 0;
        proof {
            assert(items.subrange(0, 0) =~= Seq::<TupleItem>::empty());
        }
        while i < t.items.len()
            invariant
                i <= t.items@.len(),
                items == t.items@,
                ns == self.namespace@,
                r@ == "("@ + sp_tuple_items(items.subrange(0, i as int), ns) + (if 0 < i && i
                    < items.len() {
                    ", "@
                } else {
                    Seq::<char>::empty()
                }),
            decreases t.items@.len() - i,
        {
            let value = match &t.items[i] {
                TupleItem::TPrimitive(p) => self.gen_prim(p),
                TupleItem::TOption(o) => self.gen_opt(o),
            };
            r.append(value.as_str());
            if i + 1 < t.items.len() {
                r.append(", ");
            }
            proof {
                let pre = items.subrange(0, i as int);
                let post = items.subrange(0, (i + 1) as int);
                assert(post.drop_last() =~= pre);
                assert(post.last() == items[i as int]);
                if i == 0 {
                    assert(sp_tuple_items(post, ns) == sp_tuple_item(items[0], ns));
                } else {
                    assert(sp_tuple_items(post, ns) == sp_tuple_items(pre, ns) + ", "@
                        + sp_tuple_item(items[i as int], ns));
                }
                assert(r@ =~= "("@ + sp_tuple_items(post, ns) + (if i + 1 < items.len() {
                    ", "@
                } else {
                    Seq::<char>::empty()
                }));
            }
            i = i + 1;
        }
        r.append(")");
        proof {
            assert(items.subrange(0, items.len() as int) =~= items);
            assert(r@ =~= sp_tuple(*t, ns));
        }
        r
    }

    fn gen_struct(&self, s: &TStruct, indent_level: usize) -> (r: String)
        requires
            indent_level + 4 <= usize::MAX,
        ensures
            r@ == sp_struct(*s, indent_level as nat, self.namespace@),
        decreases *s, 2int,
    {
        let ghost ns = self.namespace@;
        let ind = crate::text::spaces_str(indent_level);
        let mut fields_text = String::new();
        let ghost fs = s.fields@;
        let mut i: usize = 0;
        proof {
            assert(fs.subrange(0, 0) =~= Seq::<StructField>::empty());
        }
        while i < s.fields.len()
            invariant
                i <= s.fields@.len(),
                fs == s.fields@,
                ns == self.namespace@,
                ind@ == spaces(indent_level as nat),
                indent_level + 4 <= usize::MAX,
                fields_text@ == sp_fields(fs.subrange(0, i as int), indent_level as nat, ns),
            decreases s.fields@.len() - i,
        {
            let f = &s.fields[i];
            let is_option = match &f.field_type {
                StructFieldType::TOption(_) => true,
                _ => false,
            };
            let ftype: String = match &f.field_type {
                StructFieldType::TMap(m) => self.gen_map(m),
                StructFieldType::TSet(st) => self.gen_set(st),
                StructFieldType::TPrimitive(p) => self.gen_prim(p),
                StructFieldType::TTuple(t) => self.gen_tuple(t),
                StructFieldType::TVec(v) => self.gen_vec(v),
                StructFieldType::TOption(o) => self.gen_opt_value(o),
            };
            let mut line = String::from_str("\n    ");
            line.append(ind.as_str());
            if is_option {
                line.append("?");
            }
            line.append("'");
            line.append(f.name.as_str());
            line.append("' => ");
            line.append(ftype.as_str());
            line.append(",");
            match crate::docs::format_docstring(
                f.docs.as_str(),
                CommentStyle::DoubleSlash,
                indent_level + 4,
            ) {
                Option::Some(doc) => {
                    fields_text.append("\n");
                    fields_text.append(doc.as_str());
                    fields_text.append(line.as_str());
                },
                Option::None => {
                    fields_text.append(line.as_str());
                },
            }
            proof {
                let pre = fs.subrange(0, i as int);
                let post = fs.subrange(0, (i + 1) as int);
                assert(post.drop_last() =~= pre);
                assert(post.last() == fs[i as int]);
                assert(fields_text@ =~= sp_fields(post, indent_level as nat, ns));
            }
            i = i + 1;
        }
        let mut r = String::from_str("shape(");
        r.append(fields_text.as_str());
        r.append("\n");
        r.append(ind.as_str());
        r.append(")");
        proof {
            assert(fs.subrange(0, fs.len() as int) =~= fs);
            assert(r@ =~= sp_struct(*s, indent_level as nat, ns));
        }
        r
    }
}

/// Render a string-backed enum from a name and its variant names.
fn gen_simple_enum(name: &str, variants: &Vec<String>) -> (r: String)
    ensures
        r@ == sp_simple_enum(name@, variants@.map_values(|s: String| s@)),
{
    let ghost vs = variants@.map_values(|s: String| s@);
    let mut body = String::new();
    let mut i: usize = 0;
    proof {
        assert(vs.subrange(0, 0) =~= Seq::<Seq<char>>::empty());
    }
    while i < variants.len()
        invariant
            i <= variants@.len(),
            vs == variants@.map_values(|s: String| s@),
            vs.len() == variants@.len(),
            body@ == sp_simple_variants(vs.subrange(0, i as int)),
        decreases variants@.len() - i,
    {
        let scream = to_constant_case(variants[i].as_str());
        body.append("    ");
        body.append(scream.as_str());
        body.append(" = \"");
        body.append(variants[i].as_str());
        body.append("\";\n");
        proof {
            let pre = vs.subrange(0, i as int);
            let post = vs.subrange(0, (i + 1) as int);
            assert(post.drop_last() =~= pre);
            assert(post.last() == vs[i as int]);
            assert(vs[i as int] == variants@[i as int]@);
            assert(body@ =~= sp_simple_variants(post));
        }
        i = i + 1;
    }
    let mut r = String::from_str("enum ");
    r.append(name);
    r.append(": string as string {\n");
    r.append(body.as_str());
    r.append("}");
    proof {
        assert(vs.subrange(0, vs.len() as int) =~= vs);
        assert(r@ =~= sp_simple_enum(name@, vs));
    }
    r
}

impl HackCodegen {
    fn gen_enum(&self, name: &str, gs: &Vec<TGeneric>, e: &TEnum) -> (r: String)
        ensures
            r@ == sp_enum(name@, gs@, *e, self.namespace@),
    {
        let ghost ns = self.namespace@;
        let mut names: Vec<String> = Vec::new();
        let mut i: usize = 0;
        while i < e.variants.len()
            invariant
                i <= e.variants@.len(),
                names@.len() == i,
                forall|k: int| 0 <= k < i ==> (#[trigger] names@[k])@ == e.variants@[k].name@,
            decreases e.variants@.len() - i,
        {
            names.push(e.variants[i].name.clone());
            i = i + 1;
        }
        let mut tname = String::from_str(name);
        tname.append("Type");
        let companion = gen_simple_enum(tname.as_str(), &names);
        proof {
            assert(names@.map_values(|s: String| s@) =~= variant_names(e.variants@));
        }
        let mut variants_text = String::new();
        let ghost vs = e.variants@;
        let mut j: usize = 0;
        proof {
            assert(vs.subrange(0, 0) =~= Seq::<EnumVariant>::empty());
        }
        while j < e.variants.len()
            invariant
                j <= e.variants@.len(),
                vs == e.variants@,
                ns == self.namespace@,
                variants_text@ == sp_variants(vs.subrange(0, j as int), ns),
            decreases e.variants@.len() - j,
        {
            let v = &e.variants[j];
            let vt: String = match &v.variant_type {
                EnumVariantType::TStruct(s) => {
                    let mut t = String::from_str(" ");
                    let body = self.gen_struct(s, 4);
                    t.append(body.as_str());
                    t
                },
                EnumVariantType::TPrimitive(p) => self.gen_prim(p),
                EnumVariantType::Empty => String::from_str("?null"),
            };
            let mut line = String::from_str("\n    ?'");
            line.append(v.name.as_str());
            line.append("' => ");
            line.append(vt.as_str());
            line.append(",");
            match crate::docs::format_docstring(v.docs.as_str(), CommentStyle::DoubleSlash, 4) {
                Option::Some(doc) => {
                    variants_text.append("\n");
                    variants_text.append(doc.as_str());
                    variants_text.append(line.as_str());
                },
                Option::None => {
                    variants_text.append(line.as_str());
                },
            }
            proof {
                let pre = vs.subrange(0, j as int);
                let post = vs.subrange(0, (j + 1) as int);
                assert(post.drop_last() =~= pre);
                assert(post.last() == vs[j as int]);
                assert(variants_text@ =~= sp_variants(post, ns));
            }
            j = j + 1;
        }
        proof {
            assert(vs.subrange(0, vs.len() as int) =~= vs);
        }
        let gargs = crate::shared::generic_params(gs, self.namespace.as_str());
        let mut r = String::from_str("\n");
        r.append(companion.as_str());
        r.append("\n\ntype ");
        r.append(name);
        r.append(gargs.as_str());
        r.append(" = shape(");
        r.append(variants_text.as_str());
        r.append("\n);");
        proof {
            assert(r@ =~= sp_enum(name@, gs@, *e, ns));
        }
        r
    }

    fn gen_declaration(&self, d: &TypeDeclaration) -> (r: String)
        ensures
            r@ == sp_decl(*d, self.namespace@),
    {
        let ghost ns = self.namespace@;
        let name = self.namespaced(d.name.as_str());
        let body: String = match &d.value {
            DeclarationValue::TPrimitive(p) => {
                let inner = self.gen_prim(p);
                self.alias_line(name.as_str(), &d.generic_params, inner.as_str())
            },
            DeclarationValue::TMap(m) => {
                let inner = self.gen_map(m);
                self.alias_line(name.as_str(), &d.generic_params, inner.as_str())
            },
            DeclarationValue::TVec(v) => {
                let inner = self.gen_vec(v);
                self.alias_line(name.as_str(), &d.generic_params, inner.as_str())
            },
            DeclarationValue::TSet(s) => {
                let inner = self.gen_set(s);
                self.alias_line(name.as_str(), &d.generic_params, inner.as_str())
            },
            DeclarationValue::TOption(o) => {
                let inner = self.gen_opt(o);
                self.alias_line(name.as_str(), &d.generic_params, inner.as_str())
            },
            DeclarationValue::TTuple(t) => {
                let inner = self.gen_tuple(t);
                self.alias_line(name.as_str(), &d.generic_params, inner.as_str())
            },
            DeclarationValue::TStruct(s) => {
                let inner = self.gen_struct(s, 0);
                self.alias_line(name.as_str(), &d.generic_params, inner.as_str())
            },
            DeclarationValue::TEnum(e) => self.gen_enum(name.as_str(), &d.generic_params, e),
            DeclarationValue::TSimpleEnum(e) => gen_simple_enum(name.as_str(), &e.variants),
            DeclarationValue::Docs => {
                proof {
                    reveal_strlit("");
                }
                String::new()
            },
            DeclarationValue::CodeBlock(b) => {
                match b {
                    CodeBlock::Hack(lines) => crate::text::join_lines_str(lines),
                    CodeBlock::Rust(_) => {
                        proof {
                            reveal_strlit("");
                        }
                        String::new()
                    },
                    CodeBlock::Flow(_) => {
                        proof {
                            reveal_strlit("");
                        }
                        String::new()
                    },
                }
            },
        };
        proof {
            assert(body@ == sp_decl_value(*d, ns));
        }
        match crate::docs::format_docstring(d.docs.as_str(), CommentStyle::DoubleSlash, 0) {
            Option::Some(doc) => {
                let mut out = doc;
                out.append("\n");
                out.append(body.as_str());
                proof {
                    assert(out@ =~= sp_decl(*d, ns));
                }
                out
            },
            Option::None => body,
        }
    }

    /// Build `type NAME<G> = INNER;`.
    fn alias_line(&self, name: &str, gs: &Vec<TGeneric>, inner: &str) -> (r: String)
        ensures
            r@ == sp_alias(name@, gs@, inner@, self.namespace@),
    {
        let mut r = String::from_str("type ");
        r.append(name);
        let gargs = crate::shared::generic_params(gs, self.namespace.as_str());
        r.append(gargs.as_str());
        r.append(" = ");
        r.append(inner);
        r.append(";");
        proof {
            assert(r@ =~= sp_alias(name@, gs@, inner@, self.namespace@));
        }
        r
    }

    /// Render a whole declaration list: the opening tag, the configured
    /// headers, then every declaration's block with the configured
    /// namespace prefix on every name.  This backend renders every value
    /// kind, so the render always succeeds.
    pub fn render(declarations: &Declarations) -> (r: Result<String, crate::codegen::RenderError>)
        ensures
            r is Ok,
            r->Ok_0@ == sp_output(declarations.configs(), declarations.decls()),
    {
        let cfgs = declarations.config_list();
        let ghost cv = declarations.configs();
        let mut out = String::from_str("<?hh\n");
        let mut ns: Option<&String> = Option::None;
        let mut i: usize = 0;
        proof {
            assert(cv.subrange(0, 0) =~= Seq::<DeclarationsConfig>::empty());
        }
        while i < cfgs.len()
            invariant
                i <= cv.len(),
                cfgs@ == cv,
                out@ == "<?hh\n"@ + sp_headers(cv.subrange(0, i as int)),
                match ns {
                    Option::None => sp_ns(cv.subrange(0, i as int)) == Seq::<char>::empty(),
                    Option::Some(n) => sp_ns(cv.subrange(0, i as int)) == n@,
                },
            decreases cv.len() - i,
        {
            match &cfgs[i] {
                DeclarationsConfig::HackNamespace(n) => {
                    ns = Option::Some(n);
                },
                DeclarationsConfig::FileHeader(h) => {
                    out.append(h.as_str());
                    out.append("\n");
                },
            }
            proof {
                let pre = cv.subrange(0, i as int);
                let post = cv.subrange(0, (i + 1) as int);
                assert(post.drop_last() =~= pre);
                assert(post.last() == cv[i as int]);
                assert(out@ =~= "<?hh\n"@ + sp_headers(post));
            }
            i = i + 1;
        }
        proof {
            assert(cv.subrange(0, cv.len() as int) =~= cv);
        }
        let namespace: String = match ns {
            Option::Some(n) => n.clone(),
            Option::None => {
                proof {
                    reveal_strlit("");
                }
                String::new()
            },
        };
        let rc = HackCodegen { namespace };
        let ghost nsv = rc.namespace@;
        proof {
            assert(nsv == sp_ns(cv));
        }
        let ds = declarations.list();
        let ghost dv = declarations.decls();
        let mut j: usize = 0;
        proof {
            assert(dv.subrange(0, 0) =~= Seq::<TypeDeclaration>::empty());
        }
        while j < ds.len()
            invariant
                j <= dv.len(),
                ds@ == dv,
                nsv == rc.namespace@,
                out@ == "<?hh\n"@ + sp_headers(cv) + sp_decls(dv.subrange(0, j as int), nsv),
            decreases dv.len() - j,
        {
            let t = rc.gen_declaration(&ds[j]);
            out.append("\n");
            out.append(t.as_str());
            out.append("\n");
            proof {
                let pre = dv.subrange(0, j as int);
                let post = dv.subrange(0, (j + 1) as int);
                assert(post.drop_last() =~= pre);
                assert(post.last() == dv[j as int]);
                assert(out@ =~= "<?hh\n"@ + sp_headers(cv) + sp_decls(post, nsv));
            }
            j = j + 1;
        }
        proof {
            assert(dv.subrange(0, dv.len() as int) =~= dv);
        }
        Result::Ok(out)
    }
}

impl crate::codegen::Codegen for HackCodegen {
    fn gen_declarations(declarations: &Declarations) -> Result<
        String,
        crate::codegen::RenderError,
    > {
        HackCodegen::render(declarations)
    }
}

} // verus!
