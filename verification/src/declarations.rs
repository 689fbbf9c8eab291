//! The declarations container: an append-only ordered sequence of type
//! declarations plus global configuration.
//!
//! Appending a declaration returns an opaque, stable [`TReference`] handle,
//! which is the only way later declarations can refer to it.  A declaration
//! may therefore reference only declarations already present when it is
//! added; this is enforced structurally, not checked after the fact.

use crate::definitions::{make_reference, ref_name, ref_params, TGeneric, TReference, TypeDeclaration};
use vstd::prelude::*;
use vstd::string::*;

verus! {

/// Global configuration of one generation run.
#[derive(Clone)]
pub enum DeclarationsConfig {
    /// A verbatim header line emitted at the top of the output (the
    /// namespaced and JS-family backends).
    FileHeader(String),
    /// A prefix prepended to every declared and referenced name by the
    /// namespaced backend.
    HackNamespace(String),
}

/// An ordered, append-only sequence of type declarations with its global
/// configuration.
pub struct Declarations {
    pub(crate) declarations: Vec<TypeDeclaration>,
    pub(crate) config: Vec<DeclarationsConfig>,
}

impl Declarations {
    /// The declarations appended so far, in order.
    pub closed spec fn decls(self) -> Seq<TypeDeclaration> {
        self.declarations@
    }

    /// The configuration entries added so far, in order.
    pub closed spec fn configs(self) -> Seq<DeclarationsConfig> {
        self.config@
    }

    /// An empty container.
    pub fn new() -> (r: Self)
        ensures
            r.decls() == Seq::<TypeDeclaration>::empty(),
            r.configs() == Seq::<DeclarationsConfig>::empty(),
    {
        Declarations { declarations: Vec::new(), config: Vec::new() }
    }

    /// Add one global configuration entry.
    pub fn add_config(&mut self, config: DeclarationsConfig)
        ensures
            final(self).configs() == old(self).configs().push(config),
            final(self).decls() == old(self).decls(),
    {
        self.config.push(config)
    }

    /// Append a declaration and hand back the reference through which later
    /// declarations may point at it.  The reference carries the
    /// declaration's name and an empty generic-argument list.
    pub fn add(&mut self, type_declaration: TypeDeclaration) -> (reference: TReference)
        ensures
            final(self).decls() == old(self).decls().push(type_declaration),
            final(self).configs() == old(self).configs(),
            ref_name(reference) == type_declaration.name@,
            ref_params(reference) == Seq::<TGeneric>::empty(),
    {
        let name = type_declaration.name.clone();
        self.declarations.push(type_declaration);
        make_reference(name, Vec::new())
    }

    /// Borrow the declaration list.
    pub fn list(&self) -> (r: &Vec<TypeDeclaration>)
        ensures
            r@ == self.decls(),
    {
        &self.declarations
    }

    /// Borrow the configuration list.
    pub fn config_list(&self) -> (r: &Vec<DeclarationsConfig>)
        ensures
            r@ == self.configs(),
    {
        &self.config
    }

    /// Render through the native-union backend.  Fails, naming the first
    /// offending declaration, when a generic-parameter list holds a
    /// resolved reference where that backend needs a fresh definition;
    /// succeeds with the full output text on every other input.
    pub fn codegen_rust(&self) -> (r: Result<String, crate::codegen::RenderError>)
        ensures
            r is Ok <==> crate::codegen::rust::decls_ok(self.decls()),
            r is Ok ==> r->Ok_0@ == crate::codegen::rust::sp_output(self.decls()),
            r is Err ==> exists|j: int|
                0 <= j < self.decls().len() && !crate::codegen::rust::decl_ok(
                    #[trigger] self.decls()[j],
                ) && (forall|k: int| 0 <= k < j ==> crate::codegen::rust::decl_ok(self.decls()[k]))
                    && crate::codegen::err_decl_name(r->Err_0) == self.decls()[j].name@,
    {
        crate::codegen::rust::RustCodegen::render(self)
    }

    /// Render through the namespaced shape backend; it renders every value
    /// kind, so this always succeeds.
    pub fn codegen_hack(&self) -> (r: Result<String, crate::codegen::RenderError>)
        ensures
            r is Ok,
            r->Ok_0@ == crate::codegen::hack::sp_output(self.configs(), self.decls()),
    {
        crate::codegen::hack::HackCodegen::render(self)
    }

    /// Render through the JS-family shape backend; it renders every value
    /// kind, so this always succeeds.
    pub fn codegen_flow(&self) -> (r: Result<String, crate::codegen::RenderError>)
        ensures
            r is Ok,
            r->Ok_0@ == crate::codegen::flow::sp_output(self.configs(), self.decls()),
    {
        crate::codegen::flow::FlowCodegen::render(self)
    }
}

} // verus!
