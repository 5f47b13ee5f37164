//! The mathematical model of the parser: which operations a sequence of tokens is.

use vstd::prelude::*;
use crate::diagnostic::{DiagnosticModel, error_at};
use crate::lexer_model::{TokenModel, TokenShape};
use crate::ops::{OpModel, OpShape};
use crate::span::Span;

verus! {

/// The span from the start of `start` to the end of `end`, and `start` itself where
/// `end` starts before it or the length does not fit.
pub open spec fn joined(start: Span, end: Span) -> Span {
    if start.offset <= end.offset && end.offset - start.offset + end.length <= usize::MAX {
        Span {
            offset: start.offset,
            length: (end.offset - start.offset + end.length) as usize,
        }
    } else {
        start
    }
}

/// What the operation written as a single token does, for the tokens that are
/// operations by themselves.
pub open spec fn single_token_shape(kind: TokenShape) -> Option<OpShape> {
    match kind {
        TokenShape::BoolLiteral(v) => Some(OpShape::PushBool(v)),
        TokenShape::IntLiteral(v) => Some(OpShape::PushInt(v)),
        TokenShape::Plus => Some(OpShape::Plus),
        TokenShape::Minus => Some(OpShape::Minus),
        TokenShape::Star => Some(OpShape::Multiply),
        TokenShape::Slash => Some(OpShape::Divide),
        TokenShape::Percent => Some(OpShape::Modulo),
        TokenShape::OpenAngle => Some(OpShape::LessThan),
        TokenShape::OpenAngleEquals => Some(OpShape::LessThanEquals),
        TokenShape::CloseAngle => Some(OpShape::GreaterThan),
        TokenShape::CloseAngleEquals => Some(OpShape::GreaterThanEquals),
        TokenShape::Equals => Some(OpShape::Equals),
        TokenShape::Bang => Some(OpShape::Not),
        TokenShape::Dot => Some(OpShape::Identity),
        TokenShape::AndKeyword => Some(OpShape::And),
        TokenShape::OrKeyword => Some(OpShape::Or),
        TokenShape::DupKeyword => Some(OpShape::Dup),
        TokenShape::OverKeyword => Some(OpShape::Over),
        TokenShape::PopKeyword => Some(OpShape::Pop),
        TokenShape::SwapKeyword => Some(OpShape::Swap),
        TokenShape::RotKeyword => Some(OpShape::Rot),
        TokenShape::PrintKeyword => Some(OpShape::Print),
        TokenShape::ConcatKeyword => Some(OpShape::Concat),
        TokenShape::PushKeyword => Some(OpShape::Push),
        TokenShape::HeadKeyword => Some(OpShape::Head),
        TokenShape::TailKeyword => Some(OpShape::Tail),
        TokenShape::DoKeyword => Some(OpShape::Do),
        TokenShape::FilterKeyword => Some(OpShape::Filter),
        TokenShape::FoldKeyword => Some(OpShape::Fold),
        TokenShape::ForeachKeyword => Some(OpShape::Foreach),
        TokenShape::LenKeyword => Some(OpShape::Len),
        TokenShape::MapKeyword => Some(OpShape::MapEach),
        TokenShape::TripleQuestion => Some(OpShape::DumpStack),
        TokenShape::Identifier(name) => Some(OpShape::Identifier(name)),
        _ => None,
    }
}

/// What parsing one operation gives: the operation, or nothing at the end of the
/// tokens and after an error; the position reached; and the diagnostics so far.
#[verifier::ext_equal]
pub struct Parsed {
    pub op: Option<OpModel>,
    pub next: nat,
    pub diagnostics: Seq<DiagnosticModel>,
}

/// What parsing the operations between two brackets gives: the operations, or nothing
/// after an error; the position reached, which is that of the closing bracket or the
/// end of the tokens; and the diagnostics so far.
#[verifier::ext_equal]
pub struct ParsedItems {
    pub items: Option<Seq<OpModel>>,
    pub next: nat,
    pub diagnostics: Seq<DiagnosticModel>,
}

/// The bracket that closes a list, for `square`, or a block.
pub open spec fn closer(square: bool) -> TokenShape {
    if square {
        TokenShape::CloseSquare
    } else {
        TokenShape::CloseParenthesis
    }
}

/// The span of the last of `ops`, and `otherwise` where there is none.
pub open spec fn last_span(ops: Seq<OpModel>, otherwise: Span) -> Span {
    if ops.len() > 0 {
        ops.last().span
    } else {
        otherwise
    }
}

/// Whether the first `n` of `ops` are all references to names.
pub open spec fn all_names(ops: Seq<OpModel>, n: nat) -> bool
    decreases n,
{
    if n == 0 || n > ops.len() {
        true
    } else {
        all_names(ops, (n - 1) as nat) && ops[n - 1].kind is Identifier
    }
}

/// The names that `ops`, all references to names, refer to, each with its place.
pub open spec fn names_in(ops: Seq<OpModel>) -> Seq<(Seq<char>, Span)> {
    Seq::new(
        ops.len(),
        |i: int|
            (
                match ops[i].kind {
                    OpShape::Identifier(name) => name,
                    _ => Seq::empty(),
                },
                ops[i].span,
            ),
    )
}

/// Whether an operation may stand in a list literal: a literal, a list, a block or
/// a reference to a name.
pub open spec fn is_value(kind: OpShape) -> bool {
    kind is PushBool || kind is PushInt || kind is PushList || kind is PushBlock
        || kind is Identifier
}

/// The position of the first of `ops`, from `from` on, that may not stand in a list.
pub open spec fn first_non_value(ops: Seq<OpModel>, from: nat) -> Option<nat>
    decreases ops.len() - from,
{
    if from >= ops.len() {
        None
    } else if !is_value(ops[from as int].kind) {
        Some(from)
    } else {
        first_non_value(ops, from + 1)
    }
}

/// Whether the token at `pos` is the word `else`.
pub open spec fn else_at(tokens: Seq<TokenModel>, pos: nat) -> bool {
    pos < tokens.len() && tokens[pos as int].kind == TokenShape::Identifier("else"@)
}

/// Parsing the operation that starts at `pos`.
///
/// A token that is an operation by itself gives that operation. `(` starts a block
/// and `[` a list or a binding. `fn` takes a name and a block. `if` takes a block and,
/// where the word `else` follows it, a second one. A closing bracket, `choice` and an
/// error token give nothing; a closing bracket and `choice` are reported.
pub open spec fn parse_at(tokens: Seq<TokenModel>, pos: nat, diagnostics: Seq<DiagnosticModel>)
    -> Parsed
    decreases tokens.len() - pos, 0nat,
{
    if pos >= tokens.len() {
        Parsed { op: None, next: pos, diagnostics }
    } else {
        let token = tokens[pos as int];
        match token.kind {
            TokenShape::OpenParenthesis => parse_block_at(tokens, pos + 1, token.span, diagnostics),
            TokenShape::CloseParenthesis => Parsed {
                op: None,
                next: pos + 1,
                diagnostics: diagnostics.push(error_at("unexpected token ')'"@, token.span)),
            },
            TokenShape::CloseSquare => Parsed {
                op: None,
                next: pos + 1,
                diagnostics: diagnostics.push(error_at("unexpected token ']'"@, token.span)),
            },
            TokenShape::ChoiceKeyword => Parsed {
                op: None,
                next: pos + 1,
                diagnostics: diagnostics.push(error_at("unexpected token 'choice'"@, token.span)),
            },
            TokenShape::Error(_) => Parsed { op: None, next: pos + 1, diagnostics },
            TokenShape::OpenSquare => parse_bracket_at(tokens, pos + 1, token.span, diagnostics),
            TokenShape::FnKeyword => {
                if pos + 1 >= tokens.len() {
                    Parsed {
                        op: None,
                        next: pos + 1,
                        diagnostics: diagnostics.push(
                            error_at("Expected identifier but got nothing"@, token.span),
                        ),
                    }
                } else if !(tokens[pos + 1 as int].kind is Identifier) {
                    Parsed {
                        op: None,
                        next: pos + 2,
                        diagnostics: diagnostics.push(
                            error_at("Expected identifier"@, token.span),
                        ),
                    }
                } else if pos + 2 >= tokens.len() {
                    Parsed {
                        op: None,
                        next: pos + 2,
                        diagnostics: diagnostics.push(
                            error_at("Expected '(' but got nothing"@, token.span),
                        ),
                    }
                } else if !(tokens[pos + 2 as int].kind is OpenParenthesis) {
                    Parsed {
                        op: None,
                        next: pos + 3,
                        diagnostics: diagnostics.push(error_at("Expected '('"@, token.span)),
                    }
                } else {
                    let name = tokens[pos + 1 as int];
                    let body = parse_block_at(tokens, pos + 3, tokens[pos + 2 as int].span, diagnostics);
                    match body.op {
                        Some(block) => Parsed {
                            op: Some(
                                OpModel {
                                    kind: OpShape::DefineFunction {
                                        name: name.kind->Identifier_0,
                                        body: block.kind->PushBlock_0,
                                    },
                                    span: joined(name.span, block.span),
                                },
                            ),
                            next: body.next,
                            diagnostics: body.diagnostics,
                        },
                        None => body,
                    }
                }
            },
            TokenShape::IfKeyword => {
                if pos + 1 >= tokens.len() {
                    Parsed {
                        op: None,
                        next: pos + 1,
                        diagnostics: diagnostics.push(
                            error_at("Expected '(' but got nothing"@, token.span),
                        ),
                    }
                } else if !(tokens[pos + 1 as int].kind is OpenParenthesis) {
                    Parsed {
                        op: None,
                        next: pos + 2,
                        diagnostics: diagnostics.push(error_at("Expected '('"@, token.span)),
                    }
                } else {
                    let first = parse_block_at(tokens, pos + 2, tokens[pos + 1 as int].span, diagnostics);
                    match first.op {
                        None => first,
                        Some(then_block) => if !else_at(tokens, first.next) || first.next <= pos {
                            Parsed {
                                op: Some(
                                    OpModel {
                                        kind: OpShape::If {
                                            body: then_block.kind->PushBlock_0,
                                            else_body: None,
                                        },
                                        span: joined(token.span, then_block.span),
                                    },
                                ),
                                next: first.next,
                                diagnostics: first.diagnostics,
                            }
                        } else if first.next + 1 >= tokens.len() {
                            Parsed {
                                op: None,
                                next: first.next + 1,
                                diagnostics: first.diagnostics.push(
                                    error_at("Expected '(' but got nothing"@, token.span),
                                ),
                            }
                        } else if !(tokens[first.next + 1 as int].kind is OpenParenthesis) {
                            Parsed {
                                op: None,
                                next: first.next + 2,
                                diagnostics: first.diagnostics.push(
                                    error_at("Expected '('"@, token.span),
                                ),
                            }
                        } else {
                            let second = parse_block_at(
                                tokens,
                                first.next + 2,
                                tokens[first.next + 1 as int].span,
                                first.diagnostics,
                            );
                            match second.op {
                                None => second,
                                Some(else_block) => Parsed {
                                    op: Some(
                                        OpModel {
                                            kind: OpShape::If {
                                                body: then_block.kind->PushBlock_0,
                                                else_body: Some(else_block.kind->PushBlock_0),
                                            },
                                            span: joined(token.span, else_block.span),
                                        },
                                    ),
                                    next: second.next,
                                    diagnostics: second.diagnostics,
                                },
                            }
                        },
                    }
                }
            },
            _ => match single_token_shape(token.kind) {
                Some(kind) => Parsed {
                    op: Some(OpModel { kind, span: token.span }),
                    next: pos + 1,
                    diagnostics,
                },
                None => Parsed { op: None, next: pos + 1, diagnostics },
            },
        }
    }
}

/// Parsing the operations from `pos` on up to the closing bracket, a square one for
/// `square`, or the end of the tokens; `done` holds the operations parsed so far.
pub open spec fn parse_items(
    tokens: Seq<TokenModel>,
    pos: nat,
    square: bool,
    done: Seq<OpModel>,
    diagnostics: Seq<DiagnosticModel>,
) -> ParsedItems
    decreases tokens.len() - pos, 1nat,
{
    if pos >= tokens.len() || tokens[pos as int].kind == closer(square) {
        ParsedItems { items: Some(done), next: pos, diagnostics }
    } else {
        let step = parse_at(tokens, pos, diagnostics);
        match step.op {
            Some(op) => if pos < step.next && step.next <= tokens.len() {
                parse_items(tokens, step.next, square, done.push(op), step.diagnostics)
            } else {
                ParsedItems { items: None, next: step.next, diagnostics: step.diagnostics }
            },
            None => ParsedItems { items: None, next: step.next, diagnostics: step.diagnostics },
        }
    }
}

/// Parsing a block whose `(`, with the span `open`, stands just before `pos`: the
/// operations up to the matching `)`. A block that is not closed is reported.
pub open spec fn parse_block_at(
    tokens: Seq<TokenModel>,
    pos: nat,
    open: Span,
    diagnostics: Seq<DiagnosticModel>,
) -> Parsed
    decreases tokens.len() - pos, 2nat,
{
    let body = parse_items(tokens, pos, false, Seq::empty(), diagnostics);
    match body.items {
        None => Parsed { op: None, next: body.next, diagnostics: body.diagnostics },
        Some(ops) => if body.next >= tokens.len() {
            Parsed {
                op: None,
                next: body.next,
                diagnostics: body.diagnostics.push(
                    error_at("Block missing closing ')'"@, joined(open, last_span(ops, open))),
                ),
            }
        } else {
            Parsed {
                op: Some(
                    OpModel {
                        kind: OpShape::PushBlock(ops),
                        span: joined(open, tokens[body.next as int].span),
                    },
                ),
                next: body.next + 1,
                diagnostics: body.diagnostics,
            }
        },
    }
}

/// Parsing what follows a `[`, with the span `open`, that stands just before `pos`.
///
/// The operations up to the matching `]` are a binding where there is at least one,
/// all are names and a block follows the `]`; the block is the body. Otherwise they
/// are the elements of a list literal, in which only values may stand. A list that is
/// not closed and an element that is no value are reported.
pub open spec fn parse_bracket_at(
    tokens: Seq<TokenModel>,
    pos: nat,
    open: Span,
    diagnostics: Seq<DiagnosticModel>,
) -> Parsed
    decreases tokens.len() - pos, 2nat,
{
    let inner = parse_items(tokens, pos, true, Seq::empty(), diagnostics);
    match inner.items {
        None => Parsed { op: None, next: inner.next, diagnostics: inner.diagnostics },
        Some(elements) => if inner.next >= tokens.len() {
            Parsed {
                op: None,
                next: inner.next,
                diagnostics: inner.diagnostics.push(
                    error_at("List missing closing ']'"@, joined(open, last_span(elements, open))),
                ),
            }
        } else {
            let after = inner.next + 1;
            if elements.len() > 0 && all_names(elements, elements.len()) && after < tokens.len()
                && tokens[after as int].kind is OpenParenthesis && pos <= inner.next {
                let body = parse_block_at(
                    tokens,
                    after + 1,
                    tokens[after as int].span,
                    inner.diagnostics,
                );
                match body.op {
                    None => body,
                    Some(block) => Parsed {
                        op: Some(
                            OpModel {
                                kind: OpShape::Binding {
                                    bindings: names_in(elements),
                                    body: block.kind->PushBlock_0,
                                },
                                span: joined(open, block.span),
                            },
                        ),
                        next: body.next,
                        diagnostics: body.diagnostics,
                    },
                }
            } else {
                match first_non_value(elements, 0) {
                    Some(k) => Parsed {
                        op: None,
                        next: after,
                        diagnostics: inner.diagnostics.push(
                            error_at("Only values can stand in a list"@, elements[k as int].span),
                        ),
                    },
                    None => Parsed {
                        op: Some(
                            OpModel {
                                kind: OpShape::PushList(elements),
                                span: joined(open, tokens[inner.next as int].span),
                            },
                        ),
                        next: after,
                        diagnostics: inner.diagnostics,
                    },
                }
            }
        },
    }
}

/// Parsing a program from `pos` on: one operation after the other until one gives
/// nothing, at the end of the tokens or after an error; `done` holds the operations
/// parsed so far.
pub open spec fn parse_from(
    tokens: Seq<TokenModel>,
    pos: nat,
    done: Seq<OpModel>,
    diagnostics: Seq<DiagnosticModel>,
) -> ParsedItems
    decreases tokens.len() - pos,
{
    let step = parse_at(tokens, pos, diagnostics);
    match step.op {
        Some(op) => if pos < step.next && step.next <= tokens.len() {
            parse_from(tokens, step.next, done.push(op), step.diagnostics)
        } else {
            ParsedItems { items: Some(done), next: step.next, diagnostics: step.diagnostics }
        },
        None => ParsedItems { items: Some(done), next: step.next, diagnostics: step.diagnostics },
    }
}

} // verus!
