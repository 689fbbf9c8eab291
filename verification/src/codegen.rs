//! The backend emitters.
//!
//! Three structurally independent backends share one contract: one linear
//! pass over the declaration list, one top-level block per declaration,
//! blank-line separated, every documented item preceded by its formatted
//! comment block.

use crate::declarations::Declarations;
use vstd::prelude::*;

pub mod flow;
pub mod hack;
pub mod rust;

verus! {

/// The sole reportable failure of a render: a declaration holds a kind the
/// active backend has no rendering rule for.  The offending declaration is
/// named and no partial output is emitted.
#[derive(Clone, Debug)]
pub enum RenderError {
    /// The named declaration's generic-parameter list holds a resolved
    /// reference where the backend needs a fresh parameter definition.
    GenericParamReference { declaration: String },
}

/// The declaration a render error names.
pub open spec fn err_decl_name(e: RenderError) -> Seq<char> {
    match e {
        RenderError::GenericParamReference { declaration } => declaration@,
    }
}

/// One backend pass over a declaration list.
pub trait Codegen {
    /// Render every declaration into one source text.
    fn gen_declarations(declarations: &Declarations) -> Result<String, RenderError>;
}

} // verus!
