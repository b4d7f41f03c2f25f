//! Instruments reads of reactive signals inside UI component functions.
//!
//! The program tree is modelled by the closed types of [`ast`]. A site (a
//! declarator whose initializer is a plain function, or a plain function
//! declaration) is classified from its leading directive comments and from
//! heuristics over its subtree; an eligible site has its body wrapped in a
//! tracking setup and a guaranteed teardown, and the unit receives exactly one
//! import of the tracking-setup function.
use vstd::prelude::*;

pub mod ast;
pub mod names;
pub mod directive;
pub mod detect;
pub mod candidate;
pub mod wrap;
pub mod sites;
pub mod visitor;
pub mod identity;
pub mod laws;

verus! {

} // verus!
