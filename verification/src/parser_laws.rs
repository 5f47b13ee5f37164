//! What holds of the parser whatever tokens it is given: it moves forward through the
//! tokens, it never takes a diagnostic back, and it stops before the end of the tokens
//! only where it reports why.

use vstd::prelude::*;
use crate::diagnostic::DiagnosticModel;
use crate::lexer_model::{TokenModel, TokenShape};
use crate::ops::OpModel;
use crate::parser_model::{
    parse_at, parse_block_at, parse_bracket_at, parse_from, parse_items, single_token_shape,
};
use crate::span::Span;

verus! {

/// Whether none of `tokens` is an error token.
pub open spec fn no_error_token(tokens: Seq<TokenModel>) -> bool {
    forall|k: int| 0 <= k < tokens.len() ==> !((#[trigger] tokens[k]).kind is Error)
}

/// Whether a step from position `pos` with the diagnostics `before` to position `next`
/// with the diagnostics `after` is sound: it goes forward inside the tokens, it keeps
/// every diagnostic, and where it `failed` it reports a new one.
pub open spec fn sound_step(
    tokens: Seq<TokenModel>,
    pos: nat,
    before: Seq<DiagnosticModel>,
    next: nat,
    after: Seq<DiagnosticModel>,
    failed: bool,
) -> bool {
    &&& pos <= next <= tokens.len()
    &&& before.len() <= after.len()
    &&& failed ==> before.len() < after.len()
}

/// Every token but an error token, a bracket, `fn`, `if` and `choice` is an
/// operation by itself.
proof fn lemma_single_tokens(kind: TokenShape)
    ensures
        single_token_shape(kind) is None ==> kind is OpenParenthesis || kind is CloseParenthesis
            || kind is OpenSquare || kind is CloseSquare || kind is FnKeyword || kind
            is IfKeyword || kind is ChoiceKeyword || kind is Error,
{
}

/// Parsing one operation from tokens without an error token goes forward by at least
/// one token, and gives an operation or reports why it does not.
pub proof fn lemma_parse_at(tokens: Seq<TokenModel>, pos: nat, diagnostics: Seq<DiagnosticModel>)
    requires
        no_error_token(tokens),
        pos < tokens.len(),
    ensures
        ({
            let r = parse_at(tokens, pos, diagnostics);
            sound_step(tokens, pos, diagnostics, r.next, r.diagnostics, r.op is None) && pos
                < r.next
        }),
    decreases tokens.len() - pos, 0nat,
{
    let token = tokens[pos as int];
    lemma_single_tokens(token.kind);
    match token.kind {
        TokenShape::OpenParenthesis => {
            lemma_parse_block_at(tokens, pos + 1, token.span, diagnostics);
        },
        TokenShape::OpenSquare => {
            lemma_parse_bracket_at(tokens, pos + 1, token.span, diagnostics);
        },
        TokenShape::FnKeyword => {
            if pos + 2 < tokens.len() && tokens[pos + 1 as int].kind is Identifier && tokens[pos
                + 2 as int].kind is OpenParenthesis {
                lemma_parse_block_at(tokens, pos + 3, tokens[pos + 2 as int].span, diagnostics);
            }
        },
        TokenShape::IfKeyword => {
            if pos + 1 < tokens.len() && tokens[pos + 1 as int].kind is OpenParenthesis {
                lemma_parse_block_at(tokens, pos + 2, tokens[pos + 1 as int].span, diagnostics);
                let first = parse_block_at(tokens, pos + 2, tokens[pos + 1 as int].span, diagnostics);
                if first.op is Some && crate::parser_model::else_at(tokens, first.next)
                    && first.next > pos && first.next + 1 < tokens.len() && tokens[first.next
                    + 1 as int].kind is OpenParenthesis {
                    lemma_parse_block_at(
                        tokens,
                        first.next + 2,
                        tokens[first.next + 1 as int].span,
                        first.diagnostics,
                    );
                }
            }
        },
        _ => {},
    }
}

/// Parsing the operations between two brackets goes forward, and gives the
/// operations or reports why it does not.
pub proof fn lemma_parse_items(
    tokens: Seq<TokenModel>,
    pos: nat,
    square: bool,
    done: Seq<OpModel>,
    diagnostics: Seq<DiagnosticModel>,
)
    requires
        no_error_token(tokens),
        pos <= tokens.len(),
    ensures
        ({
            let r = parse_items(tokens, pos, square, done, diagnostics);
            sound_step(tokens, pos, diagnostics, r.next, r.diagnostics, r.items is None)
        }),
    decreases tokens.len() - pos, 1nat,
{
    if pos >= tokens.len() || tokens[pos as int].kind == crate::parser_model::closer(square) {
    } else {
        lemma_parse_at(tokens, pos, diagnostics);
        let step = parse_at(tokens, pos, diagnostics);
        match step.op {
            Some(op) => {
                lemma_parse_items(tokens, step.next, square, done.push(op), step.diagnostics);
            },
            None => {},
        }
    }
}

/// Parsing a block goes forward, and gives the block or reports why it does not.
pub proof fn lemma_parse_block_at(
    tokens: Seq<TokenModel>,
    pos: nat,
    open: Span,
    diagnostics: Seq<DiagnosticModel>,
)
    requires
        no_error_token(tokens),
        pos <= tokens.len(),
    ensures
        ({
            let r = parse_block_at(tokens, pos, open, diagnostics);
            sound_step(tokens, pos, diagnostics, r.next, r.diagnostics, r.op is None)
        }),
    decreases tokens.len() - pos, 2nat,
{
    lemma_parse_items(tokens, pos, false, Seq::empty(), diagnostics);
}

/// Parsing a list or a binding goes forward, and gives the operation or reports why
/// it does not.
pub proof fn lemma_parse_bracket_at(
    tokens: Seq<TokenModel>,
    pos: nat,
    open: Span,
    diagnostics: Seq<DiagnosticModel>,
)
    requires
        no_error_token(tokens),
        pos <= tokens.len(),
    ensures
        ({
            let r = parse_bracket_at(tokens, pos, open, diagnostics);
            sound_step(tokens, pos, diagnostics, r.next, r.diagnostics, r.op is None)
        }),
    decreases tokens.len() - pos, 2nat,
{
    lemma_parse_items(tokens, pos, true, Seq::empty(), diagnostics);
    let inner = parse_items(tokens, pos, true, Seq::empty(), diagnostics);
    match inner.items {
        Some(elements) => {
            if inner.next < tokens.len() {
                let after = inner.next + 1;
                if after < tokens.len() && tokens[after as int].kind is OpenParenthesis {
                    lemma_parse_block_at(
                        tokens,
                        after + 1,
                        tokens[after as int].span,
                        inner.diagnostics,
                    );
                }
            }
        },
        None => {},
    }
}

/// A program without an error token is parsed to its end unless a diagnostic is
/// reported: where parsing ends before the end of the tokens it says why.
pub proof fn lemma_parse_from(
    tokens: Seq<TokenModel>,
    pos: nat,
    done: Seq<OpModel>,
    diagnostics: Seq<DiagnosticModel>,
)
    requires
        no_error_token(tokens),
        pos <= tokens.len(),
    ensures
        ({
            let r = parse_from(tokens, pos, done, diagnostics);
            &&& r.items is Some
            &&& sound_step(
                tokens,
                pos,
                diagnostics,
                r.next,
                r.diagnostics,
                r.next < tokens.len(),
            )
        }),
    decreases tokens.len() - pos,
{
    if pos < tokens.len() {
        lemma_parse_at(tokens, pos, diagnostics);
        let step = parse_at(tokens, pos, diagnostics);
        match step.op {
            Some(op) => {
                lemma_parse_from(tokens, step.next, done.push(op), step.diagnostics);
            },
            None => {},
        }
    }
}

} // verus!
