use vstd::prelude::*;

verus! {

/// A scanner token, used here as the identifier of a variable declaration.
///
/// The statement tree stores and forwards tokens without inspecting them;
/// it keeps only what consumers need: the lexeme and a source position for
/// diagnostics.
#[derive(Debug)]
pub struct Token {
    /// The characters the scanner read for this token.
    pub lexeme: String,
    /// The source line the token was read from.
    pub line: u64,
}

} // verus!
