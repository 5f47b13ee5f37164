//! What holds of the tokens of every text: they lie inside the text, one after the
//! other, and an error token comes with a diagnostic.

use vstd::prelude::*;
use crate::diagnostic::DiagnosticModel;
use crate::lexer_model::{
    TokenModel, after_blanks, after_comment, after_digits, after_line, after_skipped, after_word,
    is_digit, lex_from, starts_word, token_at, with_optional,
};

verus! {

/// Whether the tokens of `tokens` lie one after the other, none of them empty, the
/// last of them ending at or before position `end`.
pub open spec fn in_order(tokens: Seq<TokenModel>, end: nat) -> bool {
    &&& forall|k: int| 0 <= k < tokens.len() ==> (#[trigger] tokens[k]).span.length >= 1
    &&& forall|k: int|
        0 <= k < tokens.len() ==> (#[trigger] tokens[k]).span.offset + tokens[k].span.length
            <= end
    &&& forall|j: int, k: int|
        0 <= j < k < tokens.len() ==> (#[trigger] tokens[j]).span.offset + tokens[j].span.length
            <= (#[trigger] tokens[k]).span.offset
}

/// The number of error tokens among the first `n` of `tokens`.
pub open spec fn error_tokens(tokens: Seq<TokenModel>, n: nat) -> nat
    decreases n,
{
    if n == 0 || n > tokens.len() {
        0
    } else {
        error_tokens(tokens, (n - 1) as nat) + if tokens[n - 1].kind is Error {
            1nat
        } else {
            0nat
        }
    }
}

/// Blanks end at or behind the position they start at, inside the text.
pub proof fn lemma_after_blanks(source: Seq<char>, pos: nat)
    requires
        pos <= source.len(),
    ensures
        pos <= after_blanks(source, pos) <= source.len(),
    decreases source.len() - pos,
{
    if pos < source.len() && crate::lexer_model::is_blank(source[pos as int]) {
        lemma_after_blanks(source, pos + 1);
    }
}

/// A line ends at or behind the position it is entered at, inside the text.
pub proof fn lemma_after_line(source: Seq<char>, pos: nat)
    requires
        pos <= source.len(),
    ensures
        pos <= after_line(source, pos) <= source.len(),
    decreases source.len() - pos,
{
    if pos < source.len() && source[pos as int] != '\n' {
        lemma_after_line(source, pos + 1);
    }
}

/// What is skipped ends at or behind the position it starts at, inside the text.
pub proof fn lemma_after_skipped(source: Seq<char>, pos: nat)
    requires
        pos <= source.len(),
    ensures
        pos <= after_skipped(source, pos) <= source.len(),
    decreases source.len() - pos,
{
    lemma_after_blanks(source, pos);
    let blank_end = after_blanks(source, pos);
    if blank_end + 1 < source.len() && source[blank_end as int] == '/' && source[blank_end
        + 1 as int] == '/' {
        lemma_after_line(source, blank_end + 2);
    }
    let next = after_comment(source, blank_end);
    if pos < next && next <= source.len() {
        lemma_after_skipped(source, next);
    }
}

/// Digits end behind the digit they start with, inside the text.
pub proof fn lemma_after_digits(source: Seq<char>, pos: nat)
    requires
        pos <= source.len(),
    ensures
        pos <= after_digits(source, pos) <= source.len(),
        pos < source.len() && is_digit(source[pos as int]) ==> pos < after_digits(source, pos),
    decreases source.len() - pos,
{
    if pos < source.len() && is_digit(source[pos as int]) {
        lemma_after_digits(source, pos + 1);
    }
}

/// A word ends behind the character it starts with, inside the text.
pub proof fn lemma_after_word(source: Seq<char>, pos: nat)
    requires
        pos <= source.len(),
    ensures
        pos <= after_word(source, pos) <= source.len(),
        pos < source.len() && starts_word(source[pos as int]) ==> pos < after_word(source, pos),
    decreases source.len() - pos,
{
    if pos < source.len() && crate::lexer_model::continues_word(source[pos as int]) {
        lemma_after_word(source, pos + 1);
    }
}

/// The token at a position of the text starts there, is not empty and ends inside
/// the text, where the next token is looked for; and it is an error token exactly if
/// it comes with a diagnostic.
pub proof fn lemma_token_at(source: Seq<char>, pos: nat)
    requires
        pos < source.len() <= usize::MAX,
    ensures
        ({
            let scanned = token_at(source, pos);
            &&& scanned.token.span.offset == pos
            &&& scanned.token.span.length >= 1
            &&& scanned.next == pos + scanned.token.span.length
            &&& scanned.next <= source.len()
            &&& scanned.token.kind is Error <==> scanned.error is Some
        }),
{
    lemma_after_digits(source, pos);
    lemma_after_word(source, pos);
    let c = source[pos as int];
    if starts_word(c) && !is_digit(c) && c != '<' && c != '>' && crate::lexer_model::symbol_shape(
        c,
    ) is None {
        let end = after_word(source, pos);
        let text = source.subrange(pos as int, end as int);
        assert(!(crate::lexer_model::word_shape(text) is Error));
    }
}

/// The tokens of a text whose length fits a machine word lie inside the text, one
/// after the other and none of them empty; lexing ends inside the text; and it reports
/// one diagnostic for each error token.
pub proof fn lemma_lex_from(
    source: Seq<char>,
    pos: nat,
    tokens: Seq<TokenModel>,
    diagnostics: Seq<DiagnosticModel>,
)
    requires
        pos <= source.len() <= usize::MAX,
        in_order(tokens, pos),
    ensures
        in_order(lex_from(source, pos, tokens, diagnostics).tokens, source.len()),
        pos <= lex_from(source, pos, tokens, diagnostics).cursor <= source.len(),
        lex_from(source, pos, tokens, diagnostics).diagnostics.len() + error_tokens(
            tokens,
            tokens.len(),
        ) == diagnostics.len() + error_tokens(
            lex_from(source, pos, tokens, diagnostics).tokens,
            lex_from(source, pos, tokens, diagnostics).tokens.len(),
        ),
    decreases source.len() - pos,
{
    lemma_after_skipped(source, pos);
    let start = after_skipped(source, pos);
    if start < source.len() {
        lemma_token_at(source, start);
        let scanned = token_at(source, start);
        let more = tokens.push(scanned.token);
        assert forall|j: int, k: int| 0 <= j < k < more.len() implies (#[trigger] more[j]).span.offset
            + more[j].span.length <= (#[trigger] more[k]).span.offset by {
            if k < tokens.len() {
                assert(more[j] == tokens[j] && more[k] == tokens[k]);
            } else {
                assert(more[j] == tokens[j]);
            }
        }
        assert(in_order(more, scanned.next)) by {
            assert forall|k: int| 0 <= k < more.len() implies (#[trigger] more[k]).span.length
                >= 1 && more[k].span.offset + more[k].span.length <= scanned.next by {
                if k < tokens.len() {
                    assert(more[k] == tokens[k]);
                }
            }
        }
        assert(more.drop_last() =~= tokens);
        assert(error_tokens(more, more.len()) == error_tokens(tokens, tokens.len()) + if scanned.token.kind
            is Error {
            1nat
        } else {
            0nat
        }) by {
            assert(error_tokens(more, (more.len() - 1) as nat) == error_tokens(
                tokens,
                tokens.len(),
            )) by {
                lemma_error_tokens_prefix(more, tokens, tokens.len());
            }
        }
        lemma_lex_from(
            source,
            scanned.next,
            more,
            with_optional(diagnostics, scanned.error),
        );
    } else {
        assert forall|k: int| 0 <= k < tokens.len() implies (#[trigger] tokens[k]).span.offset
            + tokens[k].span.length <= source.len() by {
        }
    }
}

/// The error tokens among the first `n` tokens are those of any sequence that starts
/// with the same `n` tokens.
proof fn lemma_error_tokens_prefix(longer: Seq<TokenModel>, shorter: Seq<TokenModel>, n: nat)
    requires
        n <= shorter.len() <= longer.len(),
        forall|k: int| 0 <= k < shorter.len() ==> longer[k] == shorter[k],
    ensures
        error_tokens(longer, n) == error_tokens(shorter, n),
    decreases n,
{
    if n > 0 {
        lemma_error_tokens_prefix(longer, shorter, (n - 1) as nat);
    }
}

/// A text that is lexed from its start without a diagnostic has no error token.
pub proof fn lemma_clean_text_has_no_error_token(source: Seq<char>)
    requires
        source.len() <= usize::MAX,
    ensures
        ({
            let lexed = lex_from(source, 0, Seq::empty(), Seq::empty());
            lexed.diagnostics.len() == 0 ==> forall|k: int|
                0 <= k < lexed.tokens.len() ==> !((#[trigger] lexed.tokens[k]).kind is Error)
        }),
{
    let lexed = lex_from(source, 0, Seq::empty(), Seq::empty());
    lemma_lex_from(source, 0, Seq::empty(), Seq::empty());
    if lexed.diagnostics.len() == 0 {
        assert forall|k: int| 0 <= k < lexed.tokens.len() implies !((#[trigger] lexed.tokens[k]).kind
            is Error) by {
            if lexed.tokens[k].kind is Error {
                lemma_error_tokens_count(lexed.tokens, lexed.tokens.len(), k);
            }
        }
    }
}

/// An error token among the first `n` tokens is counted.
proof fn lemma_error_tokens_count(tokens: Seq<TokenModel>, n: nat, k: int)
    requires
        0 <= k < n <= tokens.len(),
        tokens[k].kind is Error,
    ensures
        error_tokens(tokens, n) >= 1,
    decreases n,
{
    if k < n - 1 {
        lemma_error_tokens_count(tokens, (n - 1) as nat, k);
    }
}

} // verus!
