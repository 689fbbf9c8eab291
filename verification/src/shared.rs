//! The shared generic-parameter renderer.
//!
//! Every backend renders a generic-argument list `<A, B, C>` the same way,
//! except that a referenced declaration's name carries the backend's
//! namespace prefix.  An argument may itself be a fully-resolved reference
//! to another generic declaration, so rendering recurses.

use crate::definitions::{ref_name, ref_params, TGeneric, TReference};
use vstd::prelude::*;
use vstd::string::*;

verus! {

broadcast use crate::definitions::ref_params_decreases;

/// Text of one generic argument: a definition renders as its bare name, a
/// reference as the (namespaced) referenced name plus that reference's own
/// argument list.
pub open spec fn sp_generic(g: TGeneric, ns: Seq<char>) -> Seq<char>
    decreases g, 0int,
{
    match g {
        TGeneric::TDefinition { name, .. } => name@,
        TGeneric::TReference(r) => sp_reference(r, ns),
    }
}

/// Text of a reference in type position: namespaced name plus arguments.
pub open spec fn sp_reference(r: TReference, ns: Seq<char>) -> Seq<char>
    decreases r, 0int,
{
    ns + ref_name(r) + sp_generic_args(ref_params(r), ns)
}

/// Comma-separated argument texts, without the angle brackets.
pub open spec fn sp_generic_list(gs: Seq<TGeneric>, ns: Seq<char>) -> Seq<char>
    decreases gs, 0int,
{
    if gs.len() == 0 {
        Seq::empty()
    } else if gs.len() == 1 {
        sp_generic(gs[0], ns)
    } else {
        sp_generic_list(gs.drop_last(), ns) + ", "@ + sp_generic(gs.last(), ns)
    }
}

/// `<A, B, C>`, or the empty string for an empty parameter list.
pub open spec fn sp_generic_args(gs: Seq<TGeneric>, ns: Seq<char>) -> Seq<char>
    decreases gs, 1int,
{
    if gs.len() == 0 {
        Seq::empty()
    } else {
        "<"@ + sp_generic_list(gs, ns) + ">"@
    }
}

/// Render one generic argument.
pub fn generic_arg(g: &TGeneric, ns: &str) -> (r: String)
    ensures
        r@ == sp_generic(*g, ns@),
    decreases *g,
{
    let r: String = match g {
        TGeneric::TDefinition { name, .. } => name.clone(),
        TGeneric::TReference(re) => reference_text(re, ns),
    };
    r
}

/// Render a reference in type position: namespaced name plus arguments.
pub fn reference_text(r: &TReference, ns: &str) -> (res: String)
    ensures
        res@ == sp_reference(*r, ns@),
    decreases *r,
{
    let mut res = String::from_str(ns);
    res.append(r.get_name());
    let args = generic_params(r.params(), ns);
    res.append(args.as_str());
    res
}

/// Given a slice of generic params produce `<A, B, C>`, or the empty string
/// when the list is empty.
pub fn generic_params(params: &Vec<TGeneric>, ns: &str) -> (r: String)
    ensures
        r@ == sp_generic_args(params@, ns@),
    decreases params@,
{
    if params.len() == 0 {
        let r = String::new();
        assert(r@ =~= sp_generic_args(params@, ns@));
        r
    } else {
        let mut r = String::from_str("<");
        let mut i: usize = 0;
        while i < params.len()
            invariant
                0 < params.len() <= usize::MAX,
                i <= params.len(),
                r@ == "<"@ + sp_generic_list(params@.subrange(0, i as int), ns@) + (if 0 < i
                    && i < params.len() {
                    ", "@
                } else {
                    Seq::<char>::empty()
                }),
            decreases params.len() - i,
        {
            let arg = generic_arg(&params[i], ns);
            r.append(arg.as_str());
            if i + 1 < params.len() {
                r.append(", ");
            }
            proof {
                let pre = params@.subrange(0, i as int);
                let post = params@.subrange(0, (i + 1) as int);
                assert(post.drop_last() =~= pre);
                assert(post.last() == params@[i as int]);
                assert(r@ =~= "<"@ + sp_generic_list(post, ns@) + (if i + 1 < params@.len() {
                    ", "@
                } else {
                    Seq::<char>::empty()
                }));
            }
            i = i + 1;
        }
        r.append(">");
        proof {
            assert(params@.subrange(0, params@.len() as int) =~= params@);
            assert(r@ =~= "<"@ + sp_generic_list(params@, ns@) + ">"@);
        }
        r
    }
}

} // verus!
