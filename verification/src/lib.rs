//! Core of a tree-walking interpreter for a small dynamically typed
//! scripting language with variables, control flow, first-class
//! functions (closures), and classes with methods.
//!
//! The crate holds the abstract syntax model, the lexical-scope
//! resolver that assigns every variable reference an environment-hop
//! distance, and the evaluator that walks the resolved tree against an
//! arena of mutable environments.  Parsing and the surrounding driver
//! are outside collaborators.

use vstd::prelude::*;

pub mod token;
pub mod statement;
pub mod value;
pub mod environment;
pub mod resolver;
pub mod semantics;
pub mod evaluator;

verus! {

} // verus!
