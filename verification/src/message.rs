//! The diagnostic texts: every expansion failure is reported as one
//! human-readable message that names the macro, restates what it takes, and
//! includes the offending input and the reason.

use vstd::prelude::*;
use crate::expand::{ErrorView, ExpandError};

verus! {

/// The opening of every diagnostic: the macro's name and what it takes.
pub open spec fn message_preamble() -> Seq<char> {
    "`filepath` macro takes one non-empty quoted file path string literal - "@
}

/// The full diagnostic text for an expansion failure.
pub open spec fn spec_message(e: ErrorView) -> Seq<char> {
    message_preamble() + match e {
        ErrorView::NoArgument => "none were provided"@,
        ErrorView::TooShort(s) => "`"@ + s + "` was provided"@,
        ErrorView::NoOpeningQuote(s) => "`"@ + s + "` does not start with a quote"@,
        ErrorView::NoClosingQuote(s) => "`"@ + s + "` does not end with a quote"@,
        ErrorView::WrongIdent(s) => "ident `"@ + s + "` was provided"@,
        ErrorView::WrongPunct(c) => "punct `"@ + seq![c] + "` was provided"@,
        ErrorView::InvalidPath(s, r) => "`"@ + s + "` is not a valid file path ("@ + r + ")"@,
        ErrorView::MultipleProvided => "multiple were provided"@,
    }
}

/// Relies on `String::push` of std: appends the one character to the end of
/// the string.
#[verifier::external_body]
fn push_char(s: &mut String, c: char)
    ensures
        final(s)@ == old(s)@ + seq![c],
{
    s.push(c)
}

/// Renders the diagnostic for an expansion failure.
pub fn error_message(e: &ExpandError) -> (m: String)
    ensures
        m@ == spec_message(e@),
{
    let mut m = String::new();
    m.append("`filepath` macro takes one non-empty quoted file path string literal - ");
    match e {
        ExpandError::NoArgument => {
            m.append("none were provided");
        },
        ExpandError::TooShort(s) => {
            m.append("`");
            m.append(s.as_str());
            m.append("` was provided");
        },
        ExpandError::NoOpeningQuote(s) => {
            m.append("`");
            m.append(s.as_str());
            m.append("` does not start with a quote");
        },
        ExpandError::NoClosingQuote(s) => {
            m.append("`");
            m.append(s.as_str());
            m.append("` does not end with a quote");
        },
        ExpandError::WrongIdent(s) => {
            m.append("ident `");
            m.append(s.as_str());
            m.append("` was provided");
        },
        ExpandError::WrongPunct(c) => {
            m.append("punct `");
            push_char(&mut m, *c);
            m.append("` was provided");
        },
        ExpandError::InvalidPath(s, r) => {
            m.append("`");
            m.append(s.as_str());
            m.append("` is not a valid file path (");
            m.append(r.as_str());
            m.append(")");
        },
        ExpandError::MultipleProvided => {
            m.append("multiple were provided");
        },
    }
    proof {
        assert(m@ =~= spec_message(e@));
    }
    m
}

} // verus!
