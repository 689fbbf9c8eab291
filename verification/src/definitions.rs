//! The type model: the closed set of representable shapes.
//!
//! Values of these types form the intermediate representation that the
//! backend emitters walk.  They are built by direct construction (or through
//! the helpers in [`crate::builders`]) and collected into a
//! [`crate::declarations::Declarations`] value.

use vstd::prelude::*;

verus! {

/// A scalar or a self-referential wrapper around another primitive.
pub enum TPrimitive {
    /// A text scalar.
    String,
    /// A boolean scalar.
    Tbool,
    /// A 64-bit integer scalar.
    Ti64,
    /// A 64-bit floating point scalar (a name only; this crate never
    /// computes with floats).
    Tf64,
    /// A raw backend-specific type literal, emitted verbatim.
    THardcoded(String),
    /// A vector of another primitive.
    TVec(Box<TVec>),
    /// A map between primitives.
    TMap(Box<TMap>),
    /// A set of another primitive.
    TSet(Box<TSet>),
    /// An optional value of another shape.
    TOption(Box<TOption>),
    /// One logical primitive with a different backing representation per
    /// backend.
    TDifferentPerLanguage { rust: Box<TPrimitive>, hack: Box<TPrimitive>, flow: Box<TPrimitive> },
    /// A generic parameter in argument position.
    TGeneric(TGeneric),
    /// A reference to an already-appended declaration.
    TReference(TReference),
}

/// A handle to a declaration that is already part of a
/// [`crate::declarations::Declarations`] sequence.
///
/// The `name` field is private and the only constructor is crate-internal:
/// a caller can obtain a reference solely as the return value of appending
/// the referenced declaration, never fabricate one independently.
pub struct TReference {
    name: String,
    pub generic_params: Vec<TGeneric>,
}

/// The name of the declaration a reference points at.
pub closed spec fn ref_name(r: TReference) -> Seq<char> {
    r.name@
}

/// The generic arguments carried by a reference.
pub closed spec fn ref_params(r: TReference) -> Seq<TGeneric> {
    r.generic_params@
}

/// A reference is a container of its generic arguments; recursive walks
/// over a reference may descend into them.
pub broadcast proof fn ref_params_decreases(r: TReference)
    ensures
        #[trigger] (decreases_to!(r => ref_params(r))),
{
    assert(decreases_to!(r => r.generic_params));
    assert(decreases_to!(r.generic_params => r.generic_params@));
}

impl TReference {
    /// The name of the referenced declaration.
    pub fn get_name(&self) -> (r: &str)
        ensures
            r@ == ref_name(*self),
    {
        self.name.as_str()
    }

    /// The generic arguments carried by this reference.
    pub fn params(&self) -> (r: &Vec<TGeneric>)
        ensures
            r@ == ref_params(*self),
    {
        &self.generic_params
    }

    /// Wrap this reference as a primitive so it can stand wherever a type
    /// can.
    pub fn primitive(self) -> (r: TPrimitive)
        ensures
            r == TPrimitive::TReference(self),
    {
        TPrimitive::TReference(self)
    }
}

/// Crate-internal constructor; see the invariant on [`TReference`].
pub(crate) fn make_reference(name: String, generic_params: Vec<TGeneric>) -> (r: TReference)
    ensures
        ref_name(r) == name@,
        ref_params(r) == generic_params@,
{
    TReference { name, generic_params }
}

impl Clone for TReference {
    /// A deep copy; callers hold a reference's text through [`ref_name`] and
    /// [`ref_params`], which the copy preserves view-for-view.
    fn clone(&self) -> (res: Self)
        decreases *self,
    {
        let mut generic_params: Vec<TGeneric> = Vec::new();
        let mut i: usize = 0;
        while i < self.generic_params.len()
            invariant
                i <= self.generic_params.len(),
            decreases self.generic_params.len() - i,
        {
            proof {
                assert(decreases_to!(*self => self.generic_params));
            }
            generic_params.push(self.generic_params[i].clone());
            i = i + 1;
        }
        TReference { name: self.name.clone(), generic_params }
    }
}

impl Clone for TGeneric {
    /// A deep copy.
    fn clone(&self) -> (res: Self)
        decreases *self,
    {
        match self {
            TGeneric::TDefinition { name, bounds } => TGeneric::TDefinition {
                name: name.clone(),
                bounds: match bounds {
                    Option::Some(b) => Option::Some(b.clone()),
                    Option::None => Option::None,
                },
            },
            TGeneric::TReference(r) => TGeneric::TReference(r.clone()),
        }
    }
}

/// An optional value: the shape behind the option.
pub enum TOption {
    TMap(TMap),
    TPrimitive(TPrimitive),
    TSet(TSet),
    TVec(TVec),
    TTuple(TTuple),
}

/// A vector of a primitive.
pub enum TVec {
    TPrimitive(TPrimitive),
}

/// A set of a primitive.
pub enum TSet {
    TPrimitive(TPrimitive),
}

/// Which native map flavour the native-union backend should use.
#[derive(Clone, Copy)]
pub enum TMapType {
    Hash,
    BTree,
}

/// A map from a primitive key to a value shape.
pub struct TMap {
    pub key: TPrimitive,
    pub value: TMapValue,
    pub t: TMapType,
}

/// A generic parameter.
pub enum TGeneric {
    /// A parameter defined and used within one declaration (a fresh name,
    /// with an optional bound).
    TDefinition { name: String, bounds: Option<String> },
    /// An already-resolved outer reference substituted as an argument.
    TReference(TReference),
}

/// The value side of a map entry.
pub enum TMapValue {
    TPrimitive(TPrimitive),
    TSet(TSet),
}

/// A positional tuple.
pub struct TTuple {
    pub items: Vec<TupleItem>,
}

/// One tuple position.
pub enum TupleItem {
    TPrimitive(TPrimitive),
    TOption(TOption),
}

/// One named type declaration.
pub struct TypeDeclaration {
    pub name: String,
    pub docs: String,
    pub config: Vec<TypeDeclarationConfig>,
    pub generic_params: Vec<TGeneric>,
    pub value: DeclarationValue,
}

/// Declaration-level raw configuration.
#[derive(Clone)]
pub enum TypeDeclarationConfig {
    /// An attribute line injected verbatim above the native-union rendering.
    RustAttribute(String),
}

/// The single value kind of a declaration.
pub enum DeclarationValue {
    TEnum(TEnum),
    TSimpleEnum(TSimpleEnum),
    TMap(Box<TMap>),
    TVec(Box<TVec>),
    TSet(Box<TSet>),
    TOption(Box<TOption>),
    TPrimitive(TPrimitive),
    TStruct(TStruct),
    TTuple(TTuple),
    /// A documentation-only marker carrying no type.
    Docs,
    /// A free-form per-backend code-block passthrough.
    CodeBlock(CodeBlock),
}

/// Raw source lines passed through to exactly one backend.
#[derive(Clone)]
pub enum CodeBlock {
    Rust(Vec<String>),
    Hack(Vec<String>),
    Flow(Vec<String>),
}

/// An ordered list of named fields.
pub struct TStruct {
    pub fields: Vec<StructField>,
}

/// One struct field.
pub struct StructField {
    pub name: String,
    pub docs: String,
    pub field_type: StructFieldType,
    pub config: Vec<StructFieldConfig>,
}

/// Field-level raw configuration for the native-union backend.
#[derive(Clone)]
pub enum StructFieldConfig {
    /// An attribute line injected verbatim above the field.
    RustAttribute(String),
    /// A wholesale replacement of the field's computed type string.
    RustOverride(String),
}

/// The shape of a struct field.
pub enum StructFieldType {
    TMap(TMap),
    TSet(TSet),
    TOption(TOption),
    TPrimitive(TPrimitive),
    TTuple(TTuple),
    TVec(TVec),
}

/// A tagged union: an ordered list of variants with payloads.
pub struct TEnum {
    pub variants: Vec<EnumVariant>,
}

/// One variant of a tagged union.
pub struct EnumVariant {
    pub name: String,
    pub docs: String,
    pub variant_type: EnumVariantType,
}

/// The payload of a variant: a struct shape, a bare primitive, or nothing.
///
/// The shape backends have no native discriminated unions, so on them a
/// variant with no payload is rendered as a nullable unit value.
pub enum EnumVariantType {
    TStruct(TStruct),
    TPrimitive(TPrimitive),
    Empty,
}

/// An enum with no data attached to its variants.  It maps to a native
/// string-backed enum on every backend and serializes as a single string.
#[derive(Clone)]
pub struct TSimpleEnum {
    pub variants: Vec<String>,
}

} // verus!
