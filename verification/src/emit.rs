//! The code emitter: once the oracle has ruled on the literal text, either
//! the trusted-construction expression is produced or the failure is
//! reported.

use vstd::prelude::*;
use crate::expand::{extract_spec, ErrorView, ExpandError};
use crate::token::Token;

verus! {

/// The text that precedes the literal in the emitted expression.
pub open spec fn emit_prefix() -> Seq<char> {
    "unsafe { FilePath::new_unchecked("@
}

/// The text that follows the literal in the emitted expression.
pub open spec fn emit_suffix() -> Seq<char> {
    ") }"@
}

/// The emitted expression for a validated literal: a call to the trusted
/// constructor with the literal's surface text spliced in verbatim.
pub open spec fn emitted(lit: Seq<char>) -> Seq<char> {
    emit_prefix() + lit + emit_suffix()
}

/// The abstract form of the oracle's verdict on a literal text: `Ok` when
/// the text is a valid file path, `Err` with the oracle's reason otherwise.
pub open spec fn verdict_view(verdict: Result<(), String>) -> Result<(), Seq<char>> {
    match verdict {
        Ok(u) => Ok(u),
        Err(m) => Err(m@),
    }
}

/// What concluding an expansion yields once the literal text and the
/// oracle's verdict are in hand: an oracle rejection is reported first, then
/// leftover tokens, and only a clean scan of a valid path emits code.
pub open spec fn conclude_spec(
    lit: Seq<char>,
    extra: bool,
    verdict: Result<(), Seq<char>>,
) -> Result<Seq<char>, ErrorView> {
    match verdict {
        Err(reason) => Err(ErrorView::InvalidPath(lit, reason)),
        Ok(u) => if extra {
            Err(ErrorView::MultipleProvided)
        } else {
            Ok(emitted(lit))
        },
    }
}

/// The whole expansion over a token sequence, given the verdict the oracle
/// returns on the extracted literal text: the scan's first failure, or the
/// conclusion on the literal it found.
pub open spec fn expand_spec(
    ts: Seq<Token>,
    verdict: Result<(), Seq<char>>,
) -> Result<Seq<char>, ErrorView> {
    match extract_spec(ts) {
        Ok(p) => conclude_spec(p.0, p.1, verdict),
        Err(e) => Err(e),
    }
}

/// Builds the emitted expression for a validated literal: the literal's
/// surface text spliced verbatim into the trusted-construction call.
pub fn emitted_expression(lit: &str) -> (r: String)
    ensures
        r@ == emitted(lit@),
{
    let mut out = String::new();
    out.append("unsafe { FilePath::new_unchecked(");
    out.append(lit);
    out.append(") }");
    proof {
        assert(out@ =~= emitted(lit@));
    }
    out
}

/// Concludes an expansion from the extracted literal, the leftover flag of
/// the scan, and the oracle's verdict on the literal text.
pub fn conclude(lit: String, extra: bool, verdict: Result<(), String>) -> (r: Result<
    String,
    ExpandError,
>)
    ensures
        match r {
            Ok(s) => conclude_spec(lit@, extra, verdict_view(verdict)) == Ok::<
                Seq<char>,
                ErrorView,
            >(s@),
            Err(e) => conclude_spec(lit@, extra, verdict_view(verdict)) == Err::<
                Seq<char>,
                ErrorView,
            >(e@),
        },
{
    match verdict {
        Err(reason) => Err(ExpandError::InvalidPath(lit, reason)),
        Ok(u) => if extra {
            Err(ExpandError::MultipleProvided)
        } else {
            Ok(emitted_expression(lit.as_str()))
        },
    }
}

} // verus!
