//! The lexer: from the text of a program to its tokens.

use vstd::prelude::*;
use vstd::string::*;
use crate::diagnostic::{Diagnostic, diagnostics_of, push_diagnostic};
use crate::lexer_model::{
    Lexed, TokenModel, TokenShape, after_blanks, after_comment, after_digits, after_line,
    after_skipped, after_word, digits_value, is_blank, is_digit, lex_from, starts_word,
    symbol_shape, token_at, with_optional, word_shape,
};
pub use crate::span::Span;
use crate::text::chars_of;

verus! {

/// The kind of a token.
#[derive(PartialEq, Debug, Clone)]
pub enum TokenKind {
    Identifier(String),
    IntLiteral(i64),
    BoolLiteral(bool),
    Plus,
    Minus,
    Star,
    Slash,
    Percent,
    OpenParenthesis,
    CloseParenthesis,
    OpenAngle,
    OpenAngleEquals,
    CloseAngle,
    CloseAngleEquals,
    Equals,
    Bang,
    Dot,
    AndKeyword,
    OrKeyword,
    OpenSquare,
    CloseSquare,
    DupKeyword,
    LenKeyword,
    OverKeyword,
    PopKeyword,
    RotKeyword,
    SwapKeyword,
    PrintKeyword,
    ConcatKeyword,
    PushKeyword,
    HeadKeyword,
    TailKeyword,
    DoKeyword,
    FilterKeyword,
    FoldKeyword,
    ForeachKeyword,
    MapKeyword,
    TripleQuestion,
    FnKeyword,
    IfKeyword,
    ChoiceKeyword,
    /// Text that is no token.
    Error(String),
}

impl View for TokenKind {
    type V = TokenShape;

    open spec fn view(&self) -> TokenShape {
        match self {
            TokenKind::Identifier(text) => TokenShape::Identifier(text@),
            TokenKind::IntLiteral(v) => TokenShape::IntLiteral(*v),
            TokenKind::BoolLiteral(b) => TokenShape::BoolLiteral(*b),
            TokenKind::Plus => TokenShape::Plus,
            TokenKind::Minus => TokenShape::Minus,
            TokenKind::Star => TokenShape::Star,
            TokenKind::Slash => TokenShape::Slash,
            TokenKind::Percent => TokenShape::Percent,
            TokenKind::OpenParenthesis => TokenShape::OpenParenthesis,
            TokenKind::CloseParenthesis => TokenShape::CloseParenthesis,
            TokenKind::OpenAngle => TokenShape::OpenAngle,
            TokenKind::OpenAngleEquals => TokenShape::OpenAngleEquals,
            TokenKind::CloseAngle => TokenShape::CloseAngle,
            TokenKind::CloseAngleEquals => TokenShape::CloseAngleEquals,
            TokenKind::Equals => TokenShape::Equals,
            TokenKind::Bang => TokenShape::Bang,
            TokenKind::Dot => TokenShape::Dot,
            TokenKind::AndKeyword => TokenShape::AndKeyword,
            TokenKind::OrKeyword => TokenShape::OrKeyword,
            TokenKind::OpenSquare => TokenShape::OpenSquare,
            TokenKind::CloseSquare => TokenShape::CloseSquare,
            TokenKind::DupKeyword => TokenShape::DupKeyword,
            TokenKind::LenKeyword => TokenShape::LenKeyword,
            TokenKind::OverKeyword => TokenShape::OverKeyword,
            TokenKind::PopKeyword => TokenShape::PopKeyword,
            TokenKind::RotKeyword => TokenShape::RotKeyword,
            TokenKind::SwapKeyword => TokenShape::SwapKeyword,
            TokenKind::PrintKeyword => TokenShape::PrintKeyword,
            TokenKind::ConcatKeyword => TokenShape::ConcatKeyword,
            TokenKind::PushKeyword => TokenShape::PushKeyword,
            TokenKind::HeadKeyword => TokenShape::HeadKeyword,
            TokenKind::TailKeyword => TokenShape::TailKeyword,
            TokenKind::DoKeyword => TokenShape::DoKeyword,
            TokenKind::FilterKeyword => TokenShape::FilterKeyword,
            TokenKind::FoldKeyword => TokenShape::FoldKeyword,
            TokenKind::ForeachKeyword => TokenShape::ForeachKeyword,
            TokenKind::MapKeyword => TokenShape::MapKeyword,
            TokenKind::TripleQuestion => TokenShape::TripleQuestion,
            TokenKind::FnKeyword => TokenShape::FnKeyword,
            TokenKind::IfKeyword => TokenShape::IfKeyword,
            TokenKind::ChoiceKeyword => TokenShape::ChoiceKeyword,
            TokenKind::Error(text) => TokenShape::Error(text@),
        }
    }
}

/// A token and its place in the source.
#[derive(PartialEq, Debug, Clone)]
pub struct Token {
    pub kind: TokenKind,
    pub span: Span,
}

impl View for Token {
    type V = TokenModel;

    open spec fn view(&self) -> TokenModel {
        TokenModel { kind: self.kind@, span: self.span }
    }
}

/// The mathematical forms of the tokens in `tokens`, in order.
pub open spec fn tokens_of(tokens: Seq<Token>) -> Seq<TokenModel> {
    Seq::new(tokens.len(), |i: int| tokens[i]@)
}

/// Whether `c` separates tokens.
fn blank(c: char) -> (r: bool)
    ensures
        r == is_blank(c),
{
    c == ' ' || c == '\t' || c == '\n' || c == '\x0C' || c == '\r'
}

/// Whether `c` is a decimal digit.
fn digit(c: char) -> (r: bool)
    ensures
        r == is_digit(c),
{
    c >= '0' && c <= '9'
}

/// Whether a word can start with `c`.
fn word_start(c: char) -> (r: bool)
    ensures
        r == starts_word(c),
{
    (c >= 'a' && c <= 'z') || (c >= 'A' && c <= 'Z') || c == '_' || c == '?'
}

/// The kind of the token that the single character `c` is, if it is one.
fn symbol(c: char) -> (r: Option<TokenKind>)
    ensures
        match r {
            Some(kind) => symbol_shape(c) == Some(kind@),
            None => symbol_shape(c) is None,
        },
{
    if c == '+' {
        Some(TokenKind::Plus)
    } else if c == '-' {
        Some(TokenKind::Minus)
    } else if c == '*' {
        Some(TokenKind::Star)
    } else if c == '/' {
        Some(TokenKind::Slash)
    } else if c == '%' {
        Some(TokenKind::Percent)
    } else if c == '(' {
        Some(TokenKind::OpenParenthesis)
    } else if c == ')' {
        Some(TokenKind::CloseParenthesis)
    } else if c == '=' {
        Some(TokenKind::Equals)
    } else if c == '!' {
        Some(TokenKind::Bang)
    } else if c == '.' {
        Some(TokenKind::Dot)
    } else if c == '[' {
        Some(TokenKind::OpenSquare)
    } else if c == ']' {
        Some(TokenKind::CloseSquare)
    } else {
        None
    }
}

/// Whether `word` is the text `keyword`.
fn is_text(word: &String, keyword: &str) -> (r: bool)
    ensures
        r == (word@ == keyword@),
{
    let other = String::from_str(keyword);
    word.eq(&other)
}

/// The kind of the token that the word `word` is.
fn word_kind(word: String) -> (r: TokenKind)
    ensures
        r@ == word_shape(word@),
{
    if is_text(&word, "dup") {
        TokenKind::DupKeyword
    } else if is_text(&word, "over") {
        TokenKind::OverKeyword
    } else if is_text(&word, "pop") {
        TokenKind::PopKeyword
    } else if is_text(&word, "rot") {
        TokenKind::RotKeyword
    } else if is_text(&word, "swap") {
        TokenKind::SwapKeyword
    } else if is_text(&word, "print") {
        TokenKind::PrintKeyword
    } else if is_text(&word, "true") {
        TokenKind::BoolLiteral(true)
    } else if is_text(&word, "false") {
        TokenKind::BoolLiteral(false)
    } else if is_text(&word, "and") {
        TokenKind::AndKeyword
    } else if is_text(&word, "or") {
        TokenKind::OrKeyword
    } else if is_text(&word, "concat") {
        TokenKind::ConcatKeyword
    } else if is_text(&word, "push") {
        TokenKind::PushKeyword
    } else if is_text(&word, "head") {
        TokenKind::HeadKeyword
    } else if is_text(&word, "tail") {
        TokenKind::TailKeyword
    } else if is_text(&word, "do") {
        TokenKind::DoKeyword
    } else if is_text(&word, "filter") {
        TokenKind::FilterKeyword
    } else if is_text(&word, "fold") {
        TokenKind::FoldKeyword
    } else if is_text(&word, "foreach") {
        TokenKind::ForeachKeyword
    } else if is_text(&word, "len") {
        TokenKind::LenKeyword
    } else if is_text(&word, "map") {
        TokenKind::MapKeyword
    } else if is_text(&word, "???") {
        TokenKind::TripleQuestion
    } else if is_text(&word, "fn") {
        TokenKind::FnKeyword
    } else if is_text(&word, "if") {
        TokenKind::IfKeyword
    } else if is_text(&word, "choice") {
        TokenKind::ChoiceKeyword
    } else {
        TokenKind::Identifier(word)
    }
}

/// Appends `token` to `tokens`.
fn push_token(tokens: &mut Vec<Token>, token: Token)
    ensures
        tokens_of(final(tokens)@) == tokens_of(old(tokens)@).push(token@),
{
    tokens.push(token);
    assert(tokens_of(tokens@) =~= tokens_of(old(tokens)@).push(token@));
}

/// The lexer: it turns the text of a program into tokens and collects the errors it
/// finds. Positions count characters.
pub struct Lexer {
    pub cursor: usize,
    pub diagnostics: Vec<Diagnostic>,
}

impl Lexer {
    /// A lexer at the start of a text, with no diagnostics.
    pub fn new() -> (r: Lexer)
        ensures
            r.cursor == 0,
            diagnostics_of(r.diagnostics@) == Seq::<crate::diagnostic::DiagnosticModel>::empty(),
    {
        let r = Lexer { cursor: 0, diagnostics: Vec::new() };
        assert(diagnostics_of(r.diagnostics@) =~= Seq::<crate::diagnostic::DiagnosticModel>::empty());
        r
    }

    /// The tokens of `input` from the lexer's position on. Errors are added to the
    /// lexer's diagnostics, and the lexer's position moves to where lexing ended.
    pub fn lex(&mut self, input: &str) -> (tokens: Vec<Token>)
        ensures
            (Lexed {
                tokens: tokens_of(tokens@),
                diagnostics: diagnostics_of(final(self).diagnostics@),
                cursor: final(self).cursor as nat,
            }) == lex_from(
                input@,
                old(self).cursor as nat,
                Seq::empty(),
                diagnostics_of(old(self).diagnostics@),
            ),
    {
        let chars = chars_of(input);
        let ghost source = input@;
        let ghost first = self.cursor as nat;
        let ghost given = diagnostics_of(self.diagnostics@);
        let mut tokens: Vec<Token> = Vec::new();
        assert(tokens_of(tokens@) =~= Seq::<TokenModel>::empty());
        loop
            invariant_except_break
                lex_from(source, first, Seq::empty(), given) == lex_from(
                    source,
                    self.cursor as nat,
                    tokens_of(tokens@),
                    diagnostics_of(self.diagnostics@),
                ),
            invariant
                chars@ == source,
                source == input@,
                first == old(self).cursor as nat,
                given == diagnostics_of(old(self).diagnostics@),
            ensures
                (Lexed {
                    tokens: tokens_of(tokens@),
                    diagnostics: diagnostics_of(self.diagnostics@),
                    cursor: self.cursor as nat,
                }) == lex_from(source, first, Seq::empty(), given),
            decreases source.len() - self.cursor,
        {
            match self.next(input, &chars) {
                Some(token) => {
                    push_token(&mut tokens, token);
                },
                None => {
                    break;
                },
            }
        }
        tokens
    }

    /// The next token of `input`, whose characters are `chars`, after the blanks and
    /// comments at the lexer's position; `None` at the end of the text.
    fn next(&mut self, input: &str, chars: &Vec<char>) -> (r: Option<Token>)
        requires
            chars@ == input@,
        ensures
            ({
                let start = after_skipped(input@, old(self).cursor as nat);
                if old(self).cursor <= start && start < input@.len() {
                    let scanned = token_at(input@, start);
                    &&& r is Some
                    &&& r->0@ == scanned.token
                    &&& final(self).cursor == scanned.next
                    &&& start < scanned.next <= input@.len()
                    &&& diagnostics_of(final(self).diagnostics@) == with_optional(
                        diagnostics_of(old(self).diagnostics@),
                        scanned.error,
                    )
                } else {
                    &&& r is None
                    &&& final(self).cursor == start
                    &&& diagnostics_of(final(self).diagnostics@) == diagnostics_of(
                        old(self).diagnostics@,
                    )
                }
            }),
    {
        self.skip_whitespace_and_comments(chars);
        let c: char = match self.peek(chars) {
            Some(c) => c,
            None => {
                return None;
            },
        };
        if c == '<' {
            return Some(
                self.lex_multichar_token(
                    chars,
                    '=',
                    TokenKind::OpenAngleEquals,
                    TokenKind::OpenAngle,
                ),
            );
        }
        if c == '>' {
            return Some(
                self.lex_multichar_token(
                    chars,
                    '=',
                    TokenKind::CloseAngleEquals,
                    TokenKind::CloseAngle,
                ),
            );
        }
        match symbol(c) {
            Some(kind) => {
                return Some(self.lex_token(chars, kind));
            },
            None => {},
        }
        if digit(c) {
            return Some(self.lex_number(input, chars));
        }
        if word_start(c) {
            return Some(self.lex_keyword(input, chars));
        }
        let start: usize = self.cursor;
        assert(start < chars.len());
        let found = input.substring_char(start, start + 1);
        let span = Span { offset: start, length: 1 };
        let mut message = String::from_str("Unexpected character `");
        message.append(found);
        message.append("`");
        push_diagnostic(&mut self.diagnostics, Diagnostic::report_error(message, span));
        self.cursor = start + 1;
        Some(Token { kind: TokenKind::Error(String::from_str(found)), span })
    }

    /// The character at the lexer's position, if there is one.
    fn peek(&self, chars: &Vec<char>) -> (r: Option<char>)
        ensures
            r == if self.cursor < chars@.len() {
                Some(chars@[self.cursor as int])
            } else {
                None
            },
    {
        if self.cursor < chars.len() {
            Some(chars[self.cursor])
        } else {
            None
        }
    }

    /// A token of one character at the lexer's position.
    fn lex_token(&mut self, chars: &Vec<char>, kind: TokenKind) -> (r: Token)
        requires
            old(self).cursor < chars@.len(),
        ensures
            r.kind == kind,
            r.span == (Span { offset: old(self).cursor, length: 1 }),
            final(self).cursor == old(self).cursor + 1,
            final(self).diagnostics == old(self).diagnostics,
    {
        let token = Token { kind, span: Span { offset: self.cursor, length: 1 } };
        assert(self.cursor < chars.len());
        self.cursor = self.cursor + 1;
        token
    }

    /// A token of two characters, `if_match`, where `next` follows the character at
    /// the lexer's position, else the token `if_not_match` of one character.
    fn lex_multichar_token(
        &mut self,
        chars: &Vec<char>,
        next: char,
        if_match: TokenKind,
        if_not_match: TokenKind,
    ) -> (r: Token)
        requires
            old(self).cursor < chars@.len(),
        ensures
            final(self).diagnostics == old(self).diagnostics,
            old(self).cursor + 1 < chars@.len() && chars@[old(self).cursor + 1] == next ==> r.kind
                == if_match && r.span == (Span { offset: old(self).cursor, length: 2 })
                && final(self).cursor == old(self).cursor + 2,
            !(old(self).cursor + 1 < chars@.len() && chars@[old(self).cursor + 1] == next) ==> r.kind
                == if_not_match && r.span == (Span { offset: old(self).cursor, length: 1 })
                && final(self).cursor == old(self).cursor + 1,
    {
        let start: usize = self.cursor;
        assert(start < chars.len());
        if start + 1 < chars.len() && chars[start + 1] == next {
            self.cursor = start + 2;
            Token { kind: if_match, span: Span { offset: start, length: 2 } }
        } else {
            self.lex_token(chars, if_not_match)
        }
    }

    /// Moves the lexer behind the blanks and comments at its position.
    fn skip_whitespace_and_comments(&mut self, chars: &Vec<char>)
        ensures
            final(self).cursor == after_skipped(chars@, old(self).cursor as nat),
            old(self).cursor <= final(self).cursor,
            final(self).diagnostics == old(self).diagnostics,
    {
        let ghost first = self.cursor as nat;
        loop
            invariant_except_break
                after_skipped(chars@, first) == after_skipped(chars@, self.cursor as nat),
            invariant
                first == old(self).cursor,
                first <= self.cursor,
                self.diagnostics == old(self).diagnostics,
            ensures
                self.cursor == after_skipped(chars@, first),
                first <= self.cursor,
                self.diagnostics == old(self).diagnostics,
            decreases chars@.len() - self.cursor,
        {
            let start: usize = self.cursor;
            self.skip_single_whitespace(chars);
            self.skip_comment(chars);
            if self.cursor == start || self.cursor > chars.len() {
                self.cursor = start;
                break;
            }
        }
    }

    /// Moves the lexer behind the blanks at its position.
    fn skip_single_whitespace(&mut self, chars: &Vec<char>)
        ensures
            final(self).cursor == after_blanks(chars@, old(self).cursor as nat),
            old(self).cursor <= final(self).cursor,
            old(self).cursor <= chars@.len() ==> final(self).cursor <= chars@.len(),
            final(self).diagnostics == old(self).diagnostics,
    {
        let ghost first = self.cursor as nat;
        while self.cursor < chars.len() && blank(chars[self.cursor])
            invariant
                first <= self.cursor,
                first <= chars@.len() ==> self.cursor <= chars@.len(),
                self.diagnostics == old(self).diagnostics,
                after_blanks(chars@, first) == after_blanks(chars@, self.cursor as nat),
            decreases chars@.len() - self.cursor,
        {
            self.cursor = self.cursor + 1;
        }
    }

    /// Moves the lexer behind the comment at its position, if one starts there.
    fn skip_comment(&mut self, chars: &Vec<char>)
        ensures
            final(self).cursor == after_comment(chars@, old(self).cursor as nat),
            old(self).cursor <= final(self).cursor,
            old(self).cursor <= chars@.len() ==> final(self).cursor <= chars@.len(),
            final(self).diagnostics == old(self).diagnostics,
    {
        let start: usize = self.cursor;
        if start < chars.len() && chars.len() - start > 1 && chars[start] == '/' && chars[start + 1]
            == '/' {
            self.cursor = start + 2;
            let ghost from = self.cursor as nat;
            loop
                invariant_except_break
                    after_line(chars@, from) == after_line(chars@, self.cursor as nat),
                invariant
                    from <= self.cursor <= chars@.len(),
                    self.diagnostics == old(self).diagnostics,
                ensures
                    self.cursor == after_line(chars@, from),
                    from <= self.cursor <= chars@.len(),
                    self.diagnostics == old(self).diagnostics,
                decreases chars@.len() - self.cursor,
            {
                if self.cursor >= chars.len() {
                    break;
                }
                let c: char = chars[self.cursor];
                self.cursor = self.cursor + 1;
                if c == '\n' {
                    break;
                }
            }
        }
    }

    /// The number that starts at the lexer's position: an integer literal, or an
    /// error token where the number is too large.
    fn lex_number(&mut self, input: &str, chars: &Vec<char>) -> (r: Token)
        requires
            chars@ == input@,
            old(self).cursor < chars@.len(),
            is_digit(chars@[old(self).cursor as int]),
        ensures
            ({
                let scanned = token_at(input@, old(self).cursor as nat);
                &&& r@ == scanned.token
                &&& final(self).cursor == scanned.next
                &&& old(self).cursor < final(self).cursor <= input@.len()
                &&& diagnostics_of(final(self).diagnostics@) == with_optional(
                    diagnostics_of(old(self).diagnostics@),
                    scanned.error,
                )
            }),
    {
        let start: usize = self.cursor;
        let ghost source = chars@;
        let mut value: i64 = 0;
        let mut too_large = false;
        while self.cursor < chars.len() && digit(chars[self.cursor])
            invariant
                source == chars@,
                start <= self.cursor <= chars@.len(),
                self.diagnostics == old(self).diagnostics,
                after_digits(source, start as nat) == after_digits(source, self.cursor as nat),
                0 <= value,
                !too_large ==> value == digits_value(source, start as nat, self.cursor as nat),
                too_large ==> digits_value(source, start as nat, self.cursor as nat) > i64::MAX,
            decreases chars@.len() - self.cursor,
        {
            let c: char = chars[self.cursor];
            let d: i64 = ((c as u8) - ('0' as u8)) as i64;
            self.cursor = self.cursor + 1;
            if !too_large {
                if value > (i64::MAX - d) / 10 {
                    too_large = true;
                } else {
                    value = value * 10 + d;
                }
            }
        }
        let end: usize = self.cursor;
        let span = Span { offset: start, length: end - start };
        assert(symbol_shape(source[start as int]) is None);
        if too_large {
            let digits = input.substring_char(start, end);
            let mut message = String::from_str("Integer literal `");
            message.append(digits);
            message.append("` is too large");
            push_diagnostic(&mut self.diagnostics, Diagnostic::report_error(message, span));
            Token { kind: TokenKind::Error(String::from_str(digits)), span }
        } else {
            Token { kind: TokenKind::IntLiteral(value), span }
        }
    }

    /// The word that starts at the lexer's position: a keyword, a truth value or an
    /// identifier.
    fn lex_keyword(&mut self, input: &str, chars: &Vec<char>) -> (r: Token)
        requires
            chars@ == input@,
            old(self).cursor < chars@.len(),
            starts_word(chars@[old(self).cursor as int]),
        ensures
            ({
                let scanned = token_at(input@, old(self).cursor as nat);
                &&& r@ == scanned.token
                &&& final(self).cursor == scanned.next
                &&& old(self).cursor < final(self).cursor <= input@.len()
                &&& scanned.error is None
                &&& final(self).diagnostics == old(self).diagnostics
            }),
    {
        let start: usize = self.cursor;
        let ghost source = chars@;
        while self.cursor < chars.len() && (word_start(chars[self.cursor]) || digit(
            chars[self.cursor],
        ))
            invariant
                source == chars@,
                start <= self.cursor <= chars@.len(),
                self.diagnostics == old(self).diagnostics,
                after_word(source, start as nat) == after_word(source, self.cursor as nat),
            decreases chars@.len() - self.cursor,
        {
            self.cursor = self.cursor + 1;
        }
        let end: usize = self.cursor;
        assert(symbol_shape(source[start as int]) is None);
        assert(!is_digit(source[start as int]));
        let word = String::from_str(input.substring_char(start, end));
        Token { kind: word_kind(word), span: Span { offset: start, length: end - start } }
    }
}

} // verus!
