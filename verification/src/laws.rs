//! The library's laws: what the expansion guarantees as a whole, proved over
//! the spec functions that the executable functions' contracts are stated
//! with.

use vstd::prelude::*;
use crate::emit::{conclude_spec, emit_prefix, emitted, expand_spec};
use crate::expand::{extract_spec, literal_path_text, literal_well_formed, ErrorView};
use crate::message::{message_preamble, spec_message};
use crate::token::Token;

verus! {

/// One character sequence occurs somewhere inside another.
pub open spec fn contains_seq(hay: Seq<char>, needle: Seq<char>) -> bool {
    exists|i: int|
        0 <= i && i + needle.len() <= hay.len() && #[trigger] hay.subrange(i, i + needle.len())
            == needle
}

/// A well-formed quoted literal the oracle accepts expands, standing alone,
/// to the trusted-construction expression; the literal's surface text is
/// embedded in it verbatim, and the path text the literal denotes comes back
/// out exactly: literal text in equals path text out.
pub proof fn lemma_valid_literal_round_trip(lit: String)
    requires
        literal_well_formed(lit@),
    ensures
        extract_spec(seq![Token::Literal(lit)]) == Ok::<(Seq<char>, bool), ErrorView>((lit@, false)),
        expand_spec(seq![Token::Literal(lit)], Ok(())) == Ok::<Seq<char>, ErrorView>(
            emitted(lit@),
        ),
        emitted(lit@).subrange(
            emit_prefix().len() as int,
            (emit_prefix().len() + lit@.len()) as int,
        ) == lit@,
        emitted(lit@).subrange(
            (emit_prefix().len() + 1) as int,
            (emit_prefix().len() + lit@.len() - 1) as int,
        ) == literal_path_text(lit@),
{
    let ts = seq![Token::Literal(lit)];
    assert(ts[0] == Token::Literal(lit));
    assert(emitted(lit@).subrange(emit_prefix().len() as int, (emit_prefix().len() + lit@.len()) as int)
        =~= lit@);
    assert(emitted(lit@).subrange((emit_prefix().len() + 1) as int, (emit_prefix().len() + lit@.len() - 1) as int)
        =~= literal_path_text(lit@));
}

/// A literal the oracle rejects aborts the expansion with the invalid-path
/// failure, and the diagnostic text carries the oracle's reason verbatim.
pub proof fn lemma_rejected_literal_reports_reason(lit: Seq<char>, extra: bool, reason: Seq<char>)
    ensures
        conclude_spec(lit, extra, Err(reason)) == Err::<Seq<char>, ErrorView>(
            ErrorView::InvalidPath(lit, reason),
        ),
        contains_seq(spec_message(ErrorView::InvalidPath(lit, reason)), reason),
{
    let msg = spec_message(ErrorView::InvalidPath(lit, reason));
    let i = message_preamble().len() + "`"@.len() + lit.len()
        + "` is not a valid file path ("@.len();
    assert(msg.subrange(i as int, (i + reason.len()) as int) =~= reason);
}

/// A grouping wrapping the whole argument is transparent: scanning the group
/// alone yields exactly what scanning its contents yields.
pub proof fn lemma_group_transparent(v: Vec<Token>)
    ensures
        extract_spec(seq![Token::Group(v)]) == extract_spec(v@),
{
    let ts = seq![Token::Group(v)];
    assert(ts[0] == Token::Group(v));
    match extract_spec(v@) {
        Ok(p) => {
            assert(extract_spec(ts) == Ok::<(Seq<char>, bool), ErrorView>((p.0, p.1)));
        },
        Err(e) => {},
    }
}

/// Expansion is deterministic: the contracts tie every result to the token
/// sequence and the oracle's verdict alone, so re-invoking on the same input
/// always yields the identical emitted text or failure.
pub proof fn lemma_expansion_deterministic(
    ts1: Seq<Token>,
    ts2: Seq<Token>,
    v1: Result<(), Seq<char>>,
    v2: Result<(), Seq<char>>,
)
    requires
        ts1 == ts2,
        v1 == v2,
    ensures
        expand_spec(ts1, v1) == expand_spec(ts2, v2),
{
}

/// The trusted constructor is only ever reached on confirmed input: a
/// successful expansion demands the oracle's acceptance, a clean scan with
/// nothing left over, and emits exactly the extracted literal text.
pub proof fn lemma_emission_needs_confirmation(ts: Seq<Token>, verdict: Result<(), Seq<char>>)
    ensures
        expand_spec(ts, verdict) is Ok ==> {
            &&& verdict is Ok
            &&& extract_spec(ts) is Ok
            &&& extract_spec(ts)->Ok_0.1 == false
            &&& expand_spec(ts, verdict) == Ok::<Seq<char>, ErrorView>(
                emitted(extract_spec(ts)->Ok_0.0),
            )
        },
{
}

} // verus!
