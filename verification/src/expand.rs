//! The literal gate: the rules that decide whether a macro argument is
//! exactly one well-formed quoted string literal, and which diagnostic is
//! raised otherwise.

use vstd::prelude::*;
use crate::token::Token;

verus! {

/// The minimal surface length of a quoted string literal: two quote
/// characters around a non-empty body, so `"a"` with length 3.
pub open spec fn min_literal_len() -> int {
    3
}

/// A quoted literal's surface text is well formed when it is long enough to
/// hold a non-empty body and is delimited by double quotes on both sides.
pub open spec fn literal_well_formed(s: Seq<char>) -> bool {
    &&& s.len() >= min_literal_len()
    &&& s[0] == '"'
    &&& s[s.len() - 1] == '"'
}

/// The path text a well-formed quoted literal denotes: its surface text
/// with the two delimiting quotes removed.
pub open spec fn literal_path_text(s: Seq<char>) -> Seq<char> {
    s.subrange(1, s.len() - 1)
}

/// The abstract form of an expansion failure. Each variant carries the
/// offending input as character sequences, so that contracts can speak of
/// the diagnostic without executable strings.
pub enum ErrorView {
    /// The token sequence was empty.
    NoArgument,
    /// A literal's surface text is shorter than the minimal quoted form.
    TooShort(Seq<char>),
    /// A literal's surface text does not start with a double quote.
    NoOpeningQuote(Seq<char>),
    /// A literal's surface text does not end with a double quote.
    NoClosingQuote(Seq<char>),
    /// An identifier stood where the literal was expected.
    WrongIdent(Seq<char>),
    /// A punctuation token stood where the literal was expected.
    WrongPunct(char),
    /// The oracle rejected the literal text; carries the text and the
    /// oracle's reason.
    InvalidPath(Seq<char>, Seq<char>),
    /// Tokens remained after the first literal or group was consumed.
    MultipleProvided,
}

/// An expansion failure, carrying the offending input for the diagnostic.
#[derive(Debug)]
pub enum ExpandError {
    /// The token sequence was empty.
    NoArgument,
    /// A literal's surface text is shorter than the minimal quoted form.
    TooShort(String),
    /// A literal's surface text does not start with a double quote.
    NoOpeningQuote(String),
    /// A literal's surface text does not end with a double quote.
    NoClosingQuote(String),
    /// An identifier stood where the literal was expected.
    WrongIdent(String),
    /// A punctuation token stood where the literal was expected.
    WrongPunct(char),
    /// The oracle rejected the literal text; carries the text and the
    /// oracle's reason.
    InvalidPath(String, String),
    /// Tokens remained after the first literal or group was consumed.
    MultipleProvided,
}

impl View for ExpandError {
    type V = ErrorView;

    open spec fn view(&self) -> ErrorView {
        match self {
            ExpandError::NoArgument => ErrorView::NoArgument,
            ExpandError::TooShort(s) => ErrorView::TooShort(s@),
            ExpandError::NoOpeningQuote(s) => ErrorView::NoOpeningQuote(s@),
            ExpandError::NoClosingQuote(s) => ErrorView::NoClosingQuote(s@),
            ExpandError::WrongIdent(s) => ErrorView::WrongIdent(s@),
            ExpandError::WrongPunct(c) => ErrorView::WrongPunct(*c),
            ExpandError::InvalidPath(s, r) => ErrorView::InvalidPath(s@, r@),
            ExpandError::MultipleProvided => ErrorView::MultipleProvided,
        }
    }
}

/// What scanning a token sequence for its one quoted literal yields: either
/// the literal's surface text together with a flag that records whether any
/// level of the scan left tokens unconsumed, or the first failure found.
///
/// The scan takes the first token. A literal is gated on its surface shape:
/// minimal length first, then the opening quote, then the closing quote. A
/// group is scanned recursively, and leftovers at either level set the flag.
/// An identifier or a punctuation token fails at once, and an empty sequence
/// fails for want of an argument.
pub open spec fn extract_spec(ts: Seq<Token>) -> Result<(Seq<char>, bool), ErrorView>
    decreases ts,
{
    if ts.len() == 0 {
        Err(ErrorView::NoArgument)
    } else {
        match ts[0] {
            Token::Literal(s) => {
                if s@.len() < min_literal_len() {
                    Err(ErrorView::TooShort(s@))
                } else if s@[0] != '"' {
                    Err(ErrorView::NoOpeningQuote(s@))
                } else if s@[s@.len() - 1] != '"' {
                    Err(ErrorView::NoClosingQuote(s@))
                } else {
                    Ok((s@, ts.len() > 1))
                }
            },
            Token::Group(v) => {
                match extract_spec(v@) {
                    Ok(p) => Ok((p.0, p.1 || ts.len() > 1)),
                    Err(e) => Err(e),
                }
            },
            Token::Ident(name) => Err(ErrorView::WrongIdent(name@)),
            Token::Punct(c) => Err(ErrorView::WrongPunct(c)),
        }
    }
}

/// Scans a token sequence for its one quoted string literal.
///
/// On success the returned pair holds the literal's surface text (quotes
/// included) and a flag that is set when tokens were left over at any level
/// of the scan; the leftover diagnostic is deferred so that the oracle's
/// verdict on the literal text can be reported first, as [`conclude`]
/// (crate::emit::conclude) does.
pub fn extract_literal(tokens: &Vec<Token>) -> (r: Result<(String, bool), ExpandError>)
    ensures
        match r {
            Ok(p) => extract_spec(tokens@) == Ok::<(Seq<char>, bool), ErrorView>((p.0@, p.1)),
            Err(e) => extract_spec(tokens@) == Err::<(Seq<char>, bool), ErrorView>(e@),
        },
    decreases tokens@,
{
    if tokens.len() == 0 {
        Err(ExpandError::NoArgument)
    } else {
        match &tokens[0] {
            Token::Literal(s) => {
                let n = s.as_str().unicode_len();
                if n < 3 {
                    Err(ExpandError::TooShort(s.clone()))
                } else if s.as_str().get_char(0) != '"' {
                    Err(ExpandError::NoOpeningQuote(s.clone()))
                } else if s.as_str().get_char(n - 1) != '"' {
                    Err(ExpandError::NoClosingQuote(s.clone()))
                } else {
                    Ok((s.clone(), tokens.len() > 1))
                }
            },
            Token::Group(v) => {
                match extract_literal(v) {
                    Ok(p) => Ok((p.0, p.1 || tokens.len() > 1)),
                    Err(e) => Err(e),
                }
            },
            Token::Ident(name) => Err(ExpandError::WrongIdent(name.clone())),
            Token::Punct(c) => Err(ExpandError::WrongPunct(*c)),
        }
    }
}

/// Trims the two delimiting quotes off a well-formed literal's surface
/// text, leaving the path text it denotes.
pub fn literal_body(lit: &str) -> (r: String)
    requires
        literal_well_formed(lit@),
    ensures
        r@ == literal_path_text(lit@),
{
    let n = lit.unicode_len();
    let body = lit.substring_char(1, n - 1);
    body.to_owned()
}

} // verus!
