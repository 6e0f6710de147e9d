//! Operator tokens that survive parsing and appear in the syntax tree.

use vstd::prelude::*;

verus! {

/// The operator kinds a parser hands over inside `Binary`, `Unary` and
/// `Logical` expression nodes.  Lexing itself is an outside
/// collaborator; only the operator tag reaches this crate.
#[derive(Clone, Copy, Debug, PartialEq, Eq, Structural)]
pub enum TokenType {
    Plus,
    Minus,
    Star,
    Slash,
    Greater,
    GreaterEqual,
    Less,
    LessEqual,
    EqualEqual,
    BangEqual,
    Bang,
    And,
    Or,
}

} // verus!
