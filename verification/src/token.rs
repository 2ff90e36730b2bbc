//! The token-level model of a macro invocation's argument.
//!
//! A macro receives its argument as a sequence of token trees: string
//! literals and other literals (carried here by their surface text, quotes
//! included), identifiers, punctuation characters, and groups that wrap a
//! nested token sequence in delimiters.

use vstd::prelude::*;

verus! {

/// One token tree of a macro invocation's argument.
pub enum Token {
    /// A literal token, carried as its exact surface text. For a quoted
    /// string literal the text includes both delimiting quote characters.
    Literal(String),
    /// An identifier, carried as its name.
    Ident(String),
    /// A punctuation token, carried as its character.
    Punct(char),
    /// A delimited group wrapping a nested token sequence.
    Group(Vec<Token>),
}

} // verus!
