use vstd::prelude::*;

verus! {

/// The failure value threaded through every dispatch call.
///
/// The error taxonomy belongs to the consuming passes, not to the statement
/// tree: dispatch only propagates these values, never produces or alters
/// one. Only the variants that the passes exercised here report are listed.
#[derive(Clone, Copy, Debug, PartialEq, Eq, Structural)]
pub enum Error {
    /// An operand had a shape the operation cannot work with.
    TypeMismatch,
    /// A name was used that no declaration has bound.
    UndefinedVariable,
}

} // verus!
