//! The mathematical model of the lexer: which tokens a text consists of.

use vstd::prelude::*;
use crate::diagnostic::{DiagnosticModel, error_at};
use crate::span::Span;

verus! {

/// The mathematical form of the kind of a token.
pub enum TokenShape {
    Identifier(Seq<char>),
    IntLiteral(i64),
    BoolLiteral(bool),
    Plus,
    Minus,
    Star,
    Slash,
    Percent,
    OpenParenthesis,
    CloseParenthesis,
    OpenAngle,
    OpenAngleEquals,
    CloseAngle,
    CloseAngleEquals,
    Equals,
    Bang,
    Dot,
    AndKeyword,
    OrKeyword,
    OpenSquare,
    CloseSquare,
    DupKeyword,
    LenKeyword,
    OverKeyword,
    PopKeyword,
    RotKeyword,
    SwapKeyword,
    PrintKeyword,
    ConcatKeyword,
    PushKeyword,
    HeadKeyword,
    TailKeyword,
    DoKeyword,
    FilterKeyword,
    FoldKeyword,
    ForeachKeyword,
    MapKeyword,
    TripleQuestion,
    FnKeyword,
    IfKeyword,
    ChoiceKeyword,
    Error(Seq<char>),
}

/// The mathematical form of a token: its kind and its place in the source.
pub struct TokenModel {
    pub kind: TokenShape,
    pub span: Span,
}

/// Whether `c` separates tokens: a space, a tab, a line feed, a form feed or a
/// carriage return.
pub open spec fn is_blank(c: char) -> bool {
    c == ' ' || c == '\t' || c == '\n' || c == '\x0C' || c == '\r'
}

/// Whether `c` is a decimal digit.
pub open spec fn is_digit(c: char) -> bool {
    '0' <= c && c <= '9'
}

/// Whether a word can start with `c`: a letter, an underscore or a question mark.
pub open spec fn starts_word(c: char) -> bool {
    ('a' <= c && c <= 'z') || ('A' <= c && c <= 'Z') || c == '_' || c == '?'
}

/// Whether `c` can stand inside a word: a letter, a digit, an underscore or a
/// question mark.
pub open spec fn continues_word(c: char) -> bool {
    starts_word(c) || is_digit(c)
}

/// The first position from `pos` on that holds no blank.
pub open spec fn after_blanks(source: Seq<char>, pos: nat) -> nat
    decreases source.len() - pos,
{
    if pos < source.len() && is_blank(source[pos as int]) {
        after_blanks(source, pos + 1)
    } else {
        pos
    }
}

/// The position behind the line that `pos` stands in: behind its line feed, or the
/// end of the source.
pub open spec fn after_line(source: Seq<char>, pos: nat) -> nat
    decreases source.len() - pos,
{
    if pos >= source.len() {
        pos
    } else if source[pos as int] == '\n' {
        pos + 1
    } else {
        after_line(source, pos + 1)
    }
}

/// The position behind the comment that starts at `pos`, and `pos` itself where no
/// comment starts there. A comment starts with two slashes and ends with its line.
pub open spec fn after_comment(source: Seq<char>, pos: nat) -> nat {
    if pos + 1 < source.len() && source[pos as int] == '/' && source[pos + 1 as int] == '/' {
        after_line(source, pos + 2)
    } else {
        pos
    }
}

/// The first position from `pos` on at which neither a blank nor a comment starts.
pub open spec fn after_skipped(source: Seq<char>, pos: nat) -> nat
    decreases source.len() - pos,
{
    let next = after_comment(source, after_blanks(source, pos));
    if pos < next && next <= source.len() {
        after_skipped(source, next)
    } else {
        pos
    }
}

/// The first position from `pos` on that holds no digit.
pub open spec fn after_digits(source: Seq<char>, pos: nat) -> nat
    decreases source.len() - pos,
{
    if pos < source.len() && is_digit(source[pos as int]) {
        after_digits(source, pos + 1)
    } else {
        pos
    }
}

/// The first position from `pos` on that holds no character of a word.
pub open spec fn after_word(source: Seq<char>, pos: nat) -> nat
    decreases source.len() - pos,
{
    if pos < source.len() && continues_word(source[pos as int]) {
        after_word(source, pos + 1)
    } else {
        pos
    }
}

/// The number that the digits of `source` from `from` up to `to` write in decimal.
pub open spec fn digits_value(source: Seq<char>, from: nat, to: nat) -> nat
    decreases to,
{
    if to <= from || to > source.len() {
        0
    } else {
        (digits_value(source, from, (to - 1) as nat) * 10 + (source[to - 1] as int - '0' as int)) as nat
    }
}

/// The kind of the token that the word `text` is: a keyword, a truth value, or an
/// identifier.
pub open spec fn word_shape(text: Seq<char>) -> TokenShape {
    if text == "dup"@ {
        TokenShape::DupKeyword
    } else if text == "over"@ {
        TokenShape::OverKeyword
    } else if text == "pop"@ {
        TokenShape::PopKeyword
    } else if text == "rot"@ {
        TokenShape::RotKeyword
    } else if text == "swap"@ {
        TokenShape::SwapKeyword
    } else if text == "print"@ {
        TokenShape::PrintKeyword
    } else if text == "true"@ {
        TokenShape::BoolLiteral(true)
    } else if text == "false"@ {
        TokenShape::BoolLiteral(false)
    } else if text == "and"@ {
        TokenShape::AndKeyword
    } else if text == "or"@ {
        TokenShape::OrKeyword
    } else if text == "concat"@ {
        TokenShape::ConcatKeyword
    } else if text == "push"@ {
        TokenShape::PushKeyword
    } else if text == "head"@ {
        TokenShape::HeadKeyword
    } else if text == "tail"@ {
        TokenShape::TailKeyword
    } else if text == "do"@ {
        TokenShape::DoKeyword
    } else if text == "filter"@ {
        TokenShape::FilterKeyword
    } else if text == "fold"@ {
        TokenShape::FoldKeyword
    } else if text == "foreach"@ {
        TokenShape::ForeachKeyword
    } else if text == "len"@ {
        TokenShape::LenKeyword
    } else if text == "map"@ {
        TokenShape::MapKeyword
    } else if text == "???"@ {
        TokenShape::TripleQuestion
    } else if text == "fn"@ {
        TokenShape::FnKeyword
    } else if text == "if"@ {
        TokenShape::IfKeyword
    } else if text == "choice"@ {
        TokenShape::ChoiceKeyword
    } else {
        TokenShape::Identifier(text)
    }
}

/// The kind of the token that the single character `c` is, if it is one.
pub open spec fn symbol_shape(c: char) -> Option<TokenShape> {
    if c == '+' {
        Some(TokenShape::Plus)
    } else if c == '-' {
        Some(TokenShape::Minus)
    } else if c == '*' {
        Some(TokenShape::Star)
    } else if c == '/' {
        Some(TokenShape::Slash)
    } else if c == '%' {
        Some(TokenShape::Percent)
    } else if c == '(' {
        Some(TokenShape::OpenParenthesis)
    } else if c == ')' {
        Some(TokenShape::CloseParenthesis)
    } else if c == '=' {
        Some(TokenShape::Equals)
    } else if c == '!' {
        Some(TokenShape::Bang)
    } else if c == '.' {
        Some(TokenShape::Dot)
    } else if c == '[' {
        Some(TokenShape::OpenSquare)
    } else if c == ']' {
        Some(TokenShape::CloseSquare)
    } else {
        None
    }
}

/// The message for a character that starts no token.
pub open spec fn unexpected_text(found: Seq<char>) -> Seq<char> {
    "Unexpected character `"@ + found + "`"@
}

/// The message for a number that is too large for an integer.
pub open spec fn too_large_text(digits: Seq<char>) -> Seq<char> {
    "Integer literal `"@ + digits + "` is too large"@
}

/// One token read from the source: the token, the position behind it, and the error
/// found while reading it, if any.
pub struct Scanned {
    pub token: TokenModel,
    pub next: nat,
    pub error: Option<DiagnosticModel>,
}

/// The token that starts at `pos`, a position of `source` at which neither a blank nor
/// a comment starts.
///
/// A `<` or `>` takes a `=` that follows it. A digit starts a number, which takes all
/// the digits that follow. A letter, an underscore or a question mark starts a word,
/// which takes all the letters, digits, underscores and question marks that follow.
/// Any other character that is none of the symbols is an error token of its own.
pub open spec fn token_at(source: Seq<char>, pos: nat) -> Scanned
    recommends
        pos < source.len(),
{
    let c = source[pos as int];
    let followed_by_equals = pos + 1 < source.len() && source[pos + 1 as int] == '=';
    if c == '<' || c == '>' {
        if followed_by_equals {
            Scanned {
                token: TokenModel {
                    kind: if c == '<' {
                        TokenShape::OpenAngleEquals
                    } else {
                        TokenShape::CloseAngleEquals
                    },
                    span: Span { offset: pos as usize, length: 2 },
                },
                next: pos + 2,
                error: None,
            }
        } else {
            Scanned {
                token: TokenModel {
                    kind: if c == '<' {
                        TokenShape::OpenAngle
                    } else {
                        TokenShape::CloseAngle
                    },
                    span: Span { offset: pos as usize, length: 1 },
                },
                next: pos + 1,
                error: None,
            }
        }
    } else if symbol_shape(c) is Some {
        Scanned {
            token: TokenModel {
                kind: symbol_shape(c)->0,
                span: Span { offset: pos as usize, length: 1 },
            },
            next: pos + 1,
            error: None,
        }
    } else if is_digit(c) {
        let end = after_digits(source, pos);
        let span = Span { offset: pos as usize, length: (end - pos) as usize };
        let value = digits_value(source, pos, end);
        if value <= i64::MAX {
            Scanned {
                token: TokenModel { kind: TokenShape::IntLiteral(value as i64), span },
                next: end,
                error: None,
            }
        } else {
            let digits = source.subrange(pos as int, end as int);
            Scanned {
                token: TokenModel { kind: TokenShape::Error(digits), span },
                next: end,
                error: Some(error_at(too_large_text(digits), span)),
            }
        }
    } else if starts_word(c) {
        let end = after_word(source, pos);
        Scanned {
            token: TokenModel {
                kind: word_shape(source.subrange(pos as int, end as int)),
                span: Span { offset: pos as usize, length: (end - pos) as usize },
            },
            next: end,
            error: None,
        }
    } else {
        let found = source.subrange(pos as int, pos + 1 as int);
        let span = Span { offset: pos as usize, length: 1 };
        Scanned {
            token: TokenModel { kind: TokenShape::Error(found), span },
            next: pos + 1,
            error: Some(error_at(unexpected_text(found), span)),
        }
    }
}

/// What lexing gives: the tokens, the diagnostics, and the position reached.
#[verifier::ext_equal]
pub struct Lexed {
    pub tokens: Seq<TokenModel>,
    pub diagnostics: Seq<DiagnosticModel>,
    pub cursor: nat,
}

/// `diagnostics` with `error` at its end, where there is one.
pub open spec fn with_optional(diagnostics: Seq<DiagnosticModel>, error: Option<DiagnosticModel>)
    -> Seq<DiagnosticModel> {
    match error {
        Some(d) => diagnostics.push(d),
        None => diagnostics,
    }
}

/// Lexing `source` from `pos` on: blanks and comments are skipped, and the tokens that
/// follow are read one after the other up to the end of the source, after `tokens`;
/// the errors found on the way come after `diagnostics`.
pub open spec fn lex_from(
    source: Seq<char>,
    pos: nat,
    tokens: Seq<TokenModel>,
    diagnostics: Seq<DiagnosticModel>,
) -> Lexed
    decreases source.len() - pos,
{
    let start = after_skipped(source, pos);
    if pos <= start && start < source.len() {
        let scanned = token_at(source, start);
        if start < scanned.next && scanned.next <= source.len() {
            lex_from(
                source,
                scanned.next,
                tokens.push(scanned.token),
                with_optional(diagnostics, scanned.error),
            )
        } else {
            Lexed { tokens, diagnostics, cursor: start }
        }
    } else {
        Lexed { tokens, diagnostics, cursor: start }
    }
}

} // verus!
