use vstd::prelude::*;

verus! {

/// An expression node, owned by expression statements, print statements and
/// variable initializers.
///
/// The expression grammar is a separate component: the statement tree never
/// interprets an expression's contents, it only owns and forwards them, so
/// only a minimal literal form is modelled here.
#[derive(Debug)]
pub enum Expr {
    /// A literal value as the scanner produced it.
    Literal(i64),
}

} // verus!
